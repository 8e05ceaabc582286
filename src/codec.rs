use vstd::prelude::*;
use crate::address::Address;
use crate::opcode::Instruction;

verus! {

/// Why call data could not be encoded.
#[derive(Clone, Copy, Debug, PartialEq, Eq, Structural)]
pub enum EncodeError {
    /// The payload's length does not fit its four-byte length prefix.
    PayloadTooLong,
}

/// The arguments of a transfer with payload, as mathematical values.
pub struct TransferArgs {
    pub batch_id: u32,
    pub amount: u64,
    pub recipient_address: Seq<u8>,
    pub recipient_chain: u16,
    pub payload: Seq<u8>,
    pub cpi_program_id: Option<Seq<u8>>,
}

impl TransferArgs {
    /// Arguments that have an encoding: fixed-width addresses, and a payload
    /// whose length fits the length prefix.
    pub open spec fn wf(self) -> bool {
        &&& self.recipient_address.len() == 32
        &&& self.payload.len() <= u32::MAX
        &&& (self.cpi_program_id matches Some(p) ==> p.len() == 32)
    }
}

/// Arguments shared by the native and the wrapped transfer with payload.
#[derive(Clone, Debug)]
pub struct TransferWithPayloadArgs {
    pub batch_id: u32,
    pub amount: u64,
    pub recipient_address: [u8; 32],
    pub recipient_chain: u16,
    pub payload: Vec<u8>,
    pub cpi_program_id: Option<Address>,
}

pub open spec fn address_view(a: Option<Address>) -> Option<Seq<u8>> {
    match a {
        Some(p) => Some(p.bytes@),
        None => None,
    }
}

impl View for TransferWithPayloadArgs {
    type V = TransferArgs;

    open spec fn view(&self) -> TransferArgs {
        TransferArgs {
            batch_id: self.batch_id,
            amount: self.amount,
            recipient_address: self.recipient_address@,
            recipient_chain: self.recipient_chain,
            payload: self.payload@,
            cpi_program_id: address_view(self.cpi_program_id),
        }
    }
}

pub open spec fn u16_le(x: u16) -> Seq<u8> {
    seq![(x & 0xff) as u8, ((x >> 8u16) & 0xff) as u8]
}

pub open spec fn u32_le(x: u32) -> Seq<u8> {
    seq![
        (x & 0xff) as u8,
        ((x >> 8u32) & 0xff) as u8,
        ((x >> 16u32) & 0xff) as u8,
        ((x >> 24u32) & 0xff) as u8,
    ]
}

pub open spec fn u64_le(x: u64) -> Seq<u8> {
    seq![
        (x & 0xff) as u8,
        ((x >> 8u64) & 0xff) as u8,
        ((x >> 16u64) & 0xff) as u8,
        ((x >> 24u64) & 0xff) as u8,
        ((x >> 32u64) & 0xff) as u8,
        ((x >> 40u64) & 0xff) as u8,
        ((x >> 48u64) & 0xff) as u8,
        ((x >> 56u64) & 0xff) as u8,
    ]
}

pub open spec fn u16_from_le(s: Seq<u8>) -> u16 {
    (s[0] as u16) | ((s[1] as u16) << 8u16)
}

pub open spec fn u32_from_le(s: Seq<u8>) -> u32 {
    (s[0] as u32) | ((s[1] as u32) << 8u32) | ((s[2] as u32) << 16u32) | ((s[3] as u32) << 24u32)
}

pub open spec fn u64_from_le(s: Seq<u8>) -> u64 {
    (s[0] as u64) | ((s[1] as u64) << 8u64) | ((s[2] as u64) << 16u64) | ((s[3] as u64) << 24u64)
        | ((s[4] as u64) << 32u64) | ((s[5] as u64) << 40u64) | ((s[6] as u64) << 48u64) | ((
    s[7] as u64) << 56u64)
}

/// An optional address: a presence byte, then the address's bytes when present.
pub open spec fn option_bytes(o: Option<Seq<u8>>) -> Seq<u8> {
    match o {
        None => seq![0u8],
        Some(p) => seq![1u8] + p,
    }
}

/// The canonical call data of a transfer with payload: the operation's tag,
/// then each argument in order, integers little-endian, the payload behind
/// its four-byte length.
pub open spec fn transfer_call_bytes(op: Instruction, a: TransferArgs) -> Seq<u8> {
    seq![op.spec_tag()] + u32_le(a.batch_id) + u64_le(a.amount) + a.recipient_address + u16_le(
        a.recipient_chain,
    ) + u32_le(a.payload.len() as u32) + a.payload + option_bytes(a.cpi_program_id)
}

/// Reads call data back: `None` unless it is exactly the encoding of some
/// operation and arguments.
pub open spec fn parse_transfer_call(b: Seq<u8>) -> Option<(Instruction, TransferArgs)> {
    if b.len() < 52 || Instruction::spec_from_tag(b[0]) is None {
        None
    } else {
        let op = Instruction::spec_from_tag(b[0])->Some_0;
        let n = u32_from_le(b.subrange(47, 51)) as int;
        let cpi = if b.len() == 52 + n && b[51 + n] == 0 {
            Some(None)
        } else if b.len() == 84 + n && b[51 + n] == 1 {
            Some(Some(b.subrange(52 + n, 84 + n)))
        } else {
            None
        };
        match cpi {
            None => None,
            Some(c) => Some(
                (
                    op,
                    TransferArgs {
                        batch_id: u32_from_le(b.subrange(1, 5)),
                        amount: u64_from_le(b.subrange(5, 13)),
                        recipient_address: b.subrange(13, 45),
                        recipient_chain: u16_from_le(b.subrange(45, 47)),
                        payload: b.subrange(51, 51 + n),
                        cpi_program_id: c,
                    },
                ),
            ),
        }
    }
}

proof fn lemma_u16_le(x: u16)
    ensures
        u16_from_le(u16_le(x)) == x,
{
    let b0 = x & 0xff;
    let b1 = (x >> 8u16) & 0xff;
    assert(b0 <= 0xff && b1 <= 0xff) by (bit_vector)
        requires
            b0 == x & 0xff,
            b1 == (x >> 8u16) & 0xff,
    ;
    assert(b0 | (b1 << 8u16) == x) by (bit_vector)
        requires
            b0 == x & 0xff,
            b1 == (x >> 8u16) & 0xff,
    ;
}

proof fn lemma_u32_le(x: u32)
    ensures
        u32_from_le(u32_le(x)) == x,
{
    let b0 = x & 0xff;
    let b1 = (x >> 8u32) & 0xff;
    let b2 = (x >> 16u32) & 0xff;
    let b3 = (x >> 24u32) & 0xff;
    assert(b0 <= 0xff && b1 <= 0xff && b2 <= 0xff && b3 <= 0xff) by (bit_vector)
        requires
            b0 == x & 0xff,
            b1 == (x >> 8u32) & 0xff,
            b2 == (x >> 16u32) & 0xff,
            b3 == (x >> 24u32) & 0xff,
    ;
    assert(b0 | (b1 << 8u32) | (b2 << 16u32) | (b3 << 24u32) == x) by (bit_vector)
        requires
            b0 == x & 0xff,
            b1 == (x >> 8u32) & 0xff,
            b2 == (x >> 16u32) & 0xff,
            b3 == (x >> 24u32) & 0xff,
    ;
}

proof fn lemma_u64_le(x: u64)
    ensures
        u64_from_le(u64_le(x)) == x,
{
    let b0 = x & 0xff;
    let b1 = (x >> 8u64) & 0xff;
    let b2 = (x >> 16u64) & 0xff;
    let b3 = (x >> 24u64) & 0xff;
    let b4 = (x >> 32u64) & 0xff;
    let b5 = (x >> 40u64) & 0xff;
    let b6 = (x >> 48u64) & 0xff;
    let b7 = (x >> 56u64) & 0xff;
    assert(b0 <= 0xff && b1 <= 0xff && b2 <= 0xff && b3 <= 0xff && b4 <= 0xff && b5 <= 0xff
        && b6 <= 0xff && b7 <= 0xff) by (bit_vector)
        requires
            b0 == x & 0xff,
            b1 == (x >> 8u64) & 0xff,
            b2 == (x >> 16u64) & 0xff,
            b3 == (x >> 24u64) & 0xff,
            b4 == (x >> 32u64) & 0xff,
            b5 == (x >> 40u64) & 0xff,
            b6 == (x >> 48u64) & 0xff,
            b7 == (x >> 56u64) & 0xff,
    ;
    assert(b0 | (b1 << 8u64) | (b2 << 16u64) | (b3 << 24u64) | (b4 << 32u64) | (b5 << 40u64) | (b6
        << 48u64) | (b7 << 56u64) == x) by (bit_vector)
        requires
            b0 == x & 0xff,
            b1 == (x >> 8u64) & 0xff,
            b2 == (x >> 16u64) & 0xff,
            b3 == (x >> 24u64) & 0xff,
            b4 == (x >> 32u64) & 0xff,
            b5 == (x >> 40u64) & 0xff,
            b6 == (x >> 48u64) & 0xff,
            b7 == (x >> 56u64) & 0xff,
    ;
}

/// Decoding the encoding of well-formed arguments gives back the operation and
/// the arguments; so two distinct argument sets never share an encoding.
pub proof fn lemma_decode_encode(op: Instruction, a: TransferArgs)
    requires
        a.wf(),
    ensures
        parse_transfer_call(transfer_call_bytes(op, a)) == Some((op, a)),
{
    let b = transfer_call_bytes(op, a);
    let n = a.payload.len() as int;
    lemma_u32_le(a.batch_id);
    lemma_u64_le(a.amount);
    lemma_u16_le(a.recipient_chain);
    lemma_u32_le(a.payload.len() as u32);
    assert(b.subrange(1, 5) =~= u32_le(a.batch_id));
    assert(b.subrange(5, 13) =~= u64_le(a.amount));
    assert(b.subrange(13, 45) =~= a.recipient_address);
    assert(b.subrange(45, 47) =~= u16_le(a.recipient_chain));
    assert(b.subrange(47, 51) =~= u32_le(a.payload.len() as u32));
    assert(b.subrange(51, 51 + n) =~= a.payload);
    assert(b[0] == op.spec_tag());
    match a.cpi_program_id {
        None => {
            assert(b.len() == 52 + n);
            assert(b[51 + n] == 0);
        },
        Some(p) => {
            assert(b.len() == 84 + n);
            assert(b[51 + n] == 1);
            assert(b.subrange(52 + n, 84 + n) =~= p);
        },
    }
    let d = parse_transfer_call(b)->Some_0.1;
    assert(d.recipient_address =~= a.recipient_address);
    assert(d.payload =~= a.payload);
}

/// Setting the calling program changes only the presence byte, which goes from
/// 0 to 1, and appends the program's 32 bytes; everything before it is the same.
pub proof fn lemma_calling_program_presence(op: Instruction, a: TransferArgs, p: Seq<u8>)
    requires
        a.cpi_program_id is None,
        p.len() == 32,
    ensures
        ({
            let without = transfer_call_bytes(op, a);
            let with = transfer_call_bytes(op, TransferArgs { cpi_program_id: Some(p), ..a });
            let k = without.len() - 1;
            &&& with.len() == without.len() + 32
            &&& with.subrange(0, k) == without.subrange(0, k)
            &&& without[k] == 0
            &&& with[k] == 1
            &&& with.subrange(k + 1, with.len() as int) == p
        }),
{
    let without = transfer_call_bytes(op, a);
    let with = transfer_call_bytes(op, TransferArgs { cpi_program_id: Some(p), ..a });
    let k = without.len() - 1;
    assert(with.subrange(0, k) =~= without.subrange(0, k));
    assert(with.subrange(k + 1, with.len() as int) =~= p);
}

fn push_u16(out: &mut Vec<u8>, x: u16)
    ensures
        final(out)@ == old(out)@ + u16_le(x),
{
    out.push((x & 0xff) as u8);
    out.push(((x >> 8u16) & 0xff) as u8);
    assert(out@ =~= old(out)@ + u16_le(x));
}

fn push_u32(out: &mut Vec<u8>, x: u32)
    ensures
        final(out)@ == old(out)@ + u32_le(x),
{
    out.push((x & 0xff) as u8);
    out.push(((x >> 8u32) & 0xff) as u8);
    out.push(((x >> 16u32) & 0xff) as u8);
    out.push(((x >> 24u32) & 0xff) as u8);
    assert(out@ =~= old(out)@ + u32_le(x));
}

fn push_u64(out: &mut Vec<u8>, x: u64)
    ensures
        final(out)@ == old(out)@ + u64_le(x),
{
    out.push((x & 0xff) as u8);
    out.push(((x >> 8u64) & 0xff) as u8);
    out.push(((x >> 16u64) & 0xff) as u8);
    out.push(((x >> 24u64) & 0xff) as u8);
    out.push(((x >> 32u64) & 0xff) as u8);
    out.push(((x >> 40u64) & 0xff) as u8);
    out.push(((x >> 48u64) & 0xff) as u8);
    out.push(((x >> 56u64) & 0xff) as u8);
    assert(out@ =~= old(out)@ + u64_le(x));
}

fn push_bytes(out: &mut Vec<u8>, b: &[u8])
    ensures
        final(out)@ == old(out)@ + b@,
{
    let ghost start = out@;
    let mut i: usize = 0;
    while i < b.len()
        invariant
            i <= b@.len(),
            out@ == start + b@.subrange(0, i as int),
        decreases b@.len() - i,
    {
        out.push(b[i]);
        i += 1;
        assert(out@ =~= start + b@.subrange(0, i as int));
    }
    assert(b@.subrange(0, b@.len() as int) =~= b@);
}

/// Encodes an operation and its transfer arguments as call data.
pub fn encode_transfer_call(op: Instruction, args: &TransferWithPayloadArgs) -> (r: Result<
    Vec<u8>,
    EncodeError,
>)
    ensures
        r is Err <==> args.payload@.len() > u32::MAX,
        r matches Ok(b) ==> b@ == transfer_call_bytes(op, args@),
        r matches Err(e) ==> e == EncodeError::PayloadTooLong,
{
    if args.payload.len() > u32::MAX as usize {
        return Err(EncodeError::PayloadTooLong);
    }
    let mut out: Vec<u8> = Vec::new();
    out.push(op.tag());
    push_u32(&mut out, args.batch_id);
    push_u64(&mut out, args.amount);
    push_bytes(&mut out, args.recipient_address.as_slice());
    push_u16(&mut out, args.recipient_chain);
    push_u32(&mut out, args.payload.len() as u32);
    push_bytes(&mut out, args.payload.as_slice());
    match args.cpi_program_id {
        None => {
            out.push(0u8);
        },
        Some(p) => {
            out.push(1u8);
            push_bytes(&mut out, p.bytes.as_slice());
        },
    }
    assert(out@ =~= transfer_call_bytes(op, args@));
    Ok(out)
}

fn read_u16(b: &[u8], o: usize) -> (r: u16)
    requires
        o + 2 <= b@.len(),
    ensures
        r == u16_from_le(b@.subrange(o as int, o + 2)),
{
    (b[o] as u16) | ((b[o + 1] as u16) << 8u16)
}

fn read_u32(b: &[u8], o: usize) -> (r: u32)
    requires
        o + 4 <= b@.len(),
    ensures
        r == u32_from_le(b@.subrange(o as int, o + 4)),
{
    (b[o] as u32) | ((b[o + 1] as u32) << 8u32) | ((b[o + 2] as u32) << 16u32) | ((b[o + 3] as u32)
        << 24u32)
}

fn read_u64(b: &[u8], o: usize) -> (r: u64)
    requires
        o + 8 <= b@.len(),
    ensures
        r == u64_from_le(b@.subrange(o as int, o + 8)),
{
    (b[o] as u64) | ((b[o + 1] as u64) << 8u64) | ((b[o + 2] as u64) << 16u64) | ((b[o + 3] as u64)
        << 24u64) | ((b[o + 4] as u64) << 32u64) | ((b[o + 5] as u64) << 40u64) | ((b[o + 6] as u64)
        << 48u64) | ((b[o + 7] as u64) << 56u64)
}

fn read_array(b: &[u8], o: usize) -> (r: [u8; 32])
    requires
        o + 32 <= b@.len(),
    ensures
        r@ == b@.subrange(o as int, o + 32),
{
    let len = b.len();
    let mut r = [0u8; 32];
    let mut i: usize = 0;
    while i < 32
        invariant
            i <= 32,
            len == b@.len(),
            o + 32 <= len,
            forall|j: int| 0 <= j < i ==> r@[j] == b@[o + j],
        decreases 32 - i,
    {
        r[i] = b[o + i];
        i += 1;
    }
    assert(r@ =~= b@.subrange(o as int, o + 32));
    r
}

fn read_vec(b: &[u8], o: usize, n: usize) -> (r: Vec<u8>)
    requires
        o + n <= b@.len(),
    ensures
        r@ == b@.subrange(o as int, o + n),
{
    let len = b.len();
    let mut r: Vec<u8> = Vec::new();
    let mut i: usize = 0;
    while i < n
        invariant
            i <= n,
            len == b@.len(),
            o + n <= len,
            r@ == b@.subrange(o as int, o + i),
        decreases n - i,
    {
        r.push(b[o + i]);
        i += 1;
        assert(r@ =~= b@.subrange(o as int, o + i));
    }
    r
}

/// Reads call data back into an operation and its transfer arguments; `None`
/// unless the bytes are exactly such an encoding.
pub fn decode_transfer_call(b: &[u8]) -> (r: Option<(Instruction, TransferWithPayloadArgs)>)
    ensures
        r is None <==> parse_transfer_call(b@) is None,
        r matches Some((op, a)) ==> parse_transfer_call(b@) == Some((op, a@)),
{
    if b.len() < 52 {
        return None;
    }
    let op = match Instruction::from_tag(b[0]) {
        Some(op) => op,
        None => {
            return None;
        },
    };
    let n = read_u32(b, 47) as usize;
    let rest = b.len() - 52;
    let cpi_program_id: Option<Address>;
    if rest == n && b[51 + n] == 0 {
        cpi_program_id = None;
    } else if rest >= 32 && rest - 32 == n && b[51 + n] == 1 {
        cpi_program_id = Some(Address { bytes: read_array(b, 52 + n) });
    } else {
        return None;
    }
    let args = TransferWithPayloadArgs {
        batch_id: read_u32(b, 1),
        amount: read_u64(b, 5),
        recipient_address: read_array(b, 13),
        recipient_chain: read_u16(b, 45),
        payload: read_vec(b, 51, n),
        cpi_program_id,
    };
    Some((op, args))
}

} // verus!
