use vstd::prelude::*;

verus! {

/// The operations that the token bridge program recognizes, in wire order.
#[derive(Clone, Copy, Debug, PartialEq, Eq, Structural)]
pub enum Instruction {
    Initialize,
    AttestToken,
    CompleteNative,
    CompleteWrapped,
    TransferWrapped,
    TransferNative,
    RegisterChain,
    CreateWrapped,
    UpgradeContract,
    CompleteNativeWithPayload,
    CompleteWrappedWithPayload,
    TransferWrappedWithPayload,
    TransferNativeWithPayload,
}

/// Number of operations; every tag on the wire is below it.
pub const INSTRUCTION_COUNT: u8 = 13;

impl Instruction {
    /// The tag byte of an operation: its position in the declaration.
    pub open spec fn spec_tag(self) -> u8 {
        match self {
            Instruction::Initialize => 0,
            Instruction::AttestToken => 1,
            Instruction::CompleteNative => 2,
            Instruction::CompleteWrapped => 3,
            Instruction::TransferWrapped => 4,
            Instruction::TransferNative => 5,
            Instruction::RegisterChain => 6,
            Instruction::CreateWrapped => 7,
            Instruction::UpgradeContract => 8,
            Instruction::CompleteNativeWithPayload => 9,
            Instruction::CompleteWrappedWithPayload => 10,
            Instruction::TransferWrappedWithPayload => 11,
            Instruction::TransferNativeWithPayload => 12,
        }
    }

    /// The operation whose tag is `t`, if any.
    pub open spec fn spec_from_tag(t: u8) -> Option<Instruction> {
        if t == 0 {
            Some(Instruction::Initialize)
        } else if t == 1 {
            Some(Instruction::AttestToken)
        } else if t == 2 {
            Some(Instruction::CompleteNative)
        } else if t == 3 {
            Some(Instruction::CompleteWrapped)
        } else if t == 4 {
            Some(Instruction::TransferWrapped)
        } else if t == 5 {
            Some(Instruction::TransferNative)
        } else if t == 6 {
            Some(Instruction::RegisterChain)
        } else if t == 7 {
            Some(Instruction::CreateWrapped)
        } else if t == 8 {
            Some(Instruction::UpgradeContract)
        } else if t == 9 {
            Some(Instruction::CompleteNativeWithPayload)
        } else if t == 10 {
            Some(Instruction::CompleteWrappedWithPayload)
        } else if t == 11 {
            Some(Instruction::TransferWrappedWithPayload)
        } else if t == 12 {
            Some(Instruction::TransferNativeWithPayload)
        } else {
            None
        }
    }

    pub fn tag(&self) -> (r: u8)
        ensures
            r == self.spec_tag(),
            r < INSTRUCTION_COUNT,
    {
        match self {
            Instruction::Initialize => 0,
            Instruction::AttestToken => 1,
            Instruction::CompleteNative => 2,
            Instruction::CompleteWrapped => 3,
            Instruction::TransferWrapped => 4,
            Instruction::TransferNative => 5,
            Instruction::RegisterChain => 6,
            Instruction::CreateWrapped => 7,
            Instruction::UpgradeContract => 8,
            Instruction::CompleteNativeWithPayload => 9,
            Instruction::CompleteWrappedWithPayload => 10,
            Instruction::TransferWrappedWithPayload => 11,
            Instruction::TransferNativeWithPayload => 12,
        }
    }

    pub fn from_tag(t: u8) -> (r: Option<Instruction>)
        ensures
            r == Self::spec_from_tag(t),
            r.is_some() <==> t < INSTRUCTION_COUNT,
            r matches Some(i) ==> i.spec_tag() == t,
    {
        if t == 0 {
            Some(Instruction::Initialize)
        } else if t == 1 {
            Some(Instruction::AttestToken)
        } else if t == 2 {
            Some(Instruction::CompleteNative)
        } else if t == 3 {
            Some(Instruction::CompleteWrapped)
        } else if t == 4 {
            Some(Instruction::TransferWrapped)
        } else if t == 5 {
            Some(Instruction::TransferNative)
        } else if t == 6 {
            Some(Instruction::RegisterChain)
        } else if t == 7 {
            Some(Instruction::CreateWrapped)
        } else if t == 8 {
            Some(Instruction::UpgradeContract)
        } else if t == 9 {
            Some(Instruction::CompleteNativeWithPayload)
        } else if t == 10 {
            Some(Instruction::CompleteWrappedWithPayload)
        } else if t == 11 {
            Some(Instruction::TransferWrappedWithPayload)
        } else if t == 12 {
            Some(Instruction::TransferNativeWithPayload)
        } else {
            None
        }
    }
}

/// Reading back an operation's tag gives that operation.
pub proof fn lemma_tag_round_trip(i: Instruction)
    ensures
        Instruction::spec_from_tag(i.spec_tag()) == Some(i),
{
}

} // verus!
