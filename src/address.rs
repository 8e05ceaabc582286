use vstd::prelude::*;

verus! {

/// A 32-byte account or program address, held as plain bytes.
#[derive(Clone, Copy, Debug)]
pub struct Address {
    pub bytes: [u8; 32],
}

impl Address {
    pub fn new(bytes: [u8; 32]) -> (r: Address)
        ensures
            r.bytes == bytes,
    {
        Address { bytes }
    }
}

/// The clock sysvar's fixed address, base58 `SysvarC1ock11111111111111111111111111111111`.
pub open spec fn clock_sysvar() -> Address {
    Address {
        bytes: [
            6u8, 167, 213, 23, 24, 199, 116, 201, 40, 86, 99, 152, 105, 29, 94, 182,
            139, 94, 184, 163, 155, 75, 109, 92, 115, 85, 91, 33, 0, 0, 0, 0,
        ],
    }
}

/// Relies on `solana_program::sysvar::clock::id`: the address declared from the base58 text
/// `SysvarC1ock11111111111111111111111111111111`.
#[verifier::external_body]
pub(crate) fn clock_sysvar_address() -> (r: Address)
    ensures
        r == clock_sysvar(),
{
    Address { bytes: anchor_lang::solana_program::sysvar::clock::id().to_bytes() }
}

/// The rent sysvar's fixed address, base58 `SysvarRent111111111111111111111111111111111`.
pub open spec fn rent_sysvar() -> Address {
    Address {
        bytes: [
            6u8, 167, 213, 23, 25, 44, 92, 81, 33, 140, 201, 76, 61, 74, 241, 127,
            88, 218, 238, 8, 155, 161, 253, 68, 227, 219, 217, 138, 0, 0, 0, 0,
        ],
    }
}

/// Relies on `solana_program::sysvar::rent::id`: the address declared from the base58 text
/// `SysvarRent111111111111111111111111111111111`.
#[verifier::external_body]
pub(crate) fn rent_sysvar_address() -> (r: Address)
    ensures
        r == rent_sysvar(),
{
    Address { bytes: anchor_lang::solana_program::sysvar::rent::id().to_bytes() }
}

/// The token program's fixed address, base58 `TokenkegQfeZyiNwAJbNbGKPFXCWuBvf9Ss623VQ5DA`.
pub open spec fn token_program() -> Address {
    Address {
        bytes: [
            6u8, 221, 246, 225, 215, 101, 161, 147, 217, 203, 225, 70, 206, 235, 121, 172,
            28, 180, 133, 237, 95, 91, 55, 145, 58, 140, 245, 133, 126, 255, 0, 169,
        ],
    }
}

/// Relies on `spl_token::id` (re-exported by `anchor_spl::token`): the address declared from the base58 text
/// `TokenkegQfeZyiNwAJbNbGKPFXCWuBvf9Ss623VQ5DA`.
#[verifier::external_body]
pub(crate) fn token_program_address() -> (r: Address)
    ensures
        r == token_program(),
{
    Address { bytes: anchor_spl::token::spl_token::id().to_bytes() }
}

} // verus!
