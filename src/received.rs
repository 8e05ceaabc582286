use vstd::prelude::*;

verus! {

/// The most bytes a received message may hold.
pub const MESSAGE_MAX_LENGTH: usize = 1024;

/// Why a received record could not be made.
#[derive(Clone, Copy, Debug, PartialEq, Eq, Structural)]
pub enum ReceivedError {
    /// The message is longer than `MESSAGE_MAX_LENGTH`.
    MessageTooLong,
}

/// A record of one incoming bridge message.
#[derive(Clone, Debug)]
pub struct Received {
    pub batch_id: u32,
    pub wormhole_message_hash: [u8; 32],
    pub message: Vec<u8>,
}

impl Received {
    /// Storage allocated for a record: account discriminator, batch id,
    /// message hash, message length prefix, and the largest message.
    pub const MAXIMUM_SIZE: usize = 8 + 4 + 32 + 4 + MESSAGE_MAX_LENGTH;

    /// The message fits the storage allocated for the record.
    pub open spec fn wf(&self) -> bool {
        self.message@.len() <= MESSAGE_MAX_LENGTH
    }

    /// Bytes that the record's stored form takes.
    pub open spec fn stored_len(&self) -> nat {
        8 + 4 + 32 + 4 + self.message@.len()
    }

    /// Makes a record, refusing a message longer than `MESSAGE_MAX_LENGTH`
    /// rather than cutting it.
    pub fn new(batch_id: u32, wormhole_message_hash: [u8; 32], message: Vec<u8>) -> (r: Result<
        Received,
        ReceivedError,
    >)
        ensures
            r is Ok <==> message@.len() <= MESSAGE_MAX_LENGTH,
            r matches Err(e) ==> e == ReceivedError::MessageTooLong,
            r matches Ok(x) ==> {
                &&& x.wf()
                &&& x.batch_id == batch_id
                &&& x.wormhole_message_hash == wormhole_message_hash
                &&& x.message@ == message@
            },
    {
        if message.len() > MESSAGE_MAX_LENGTH {
            return Err(ReceivedError::MessageTooLong);
        }
        Ok(Received { batch_id, wormhole_message_hash, message })
    }
}

impl Default for Received {
    fn default() -> (r: Received)
        ensures
            r.batch_id == 0,
            r.wormhole_message_hash@ == seq![0u8; 32],
            r.message@.len() == 0,
    {
        let r = Received { batch_id: 0, wormhole_message_hash: [0u8; 32], message: Vec::new() };
        assert(r.wormhole_message_hash@ =~= seq![0u8; 32]);
        r
    }
}

/// A well-formed record's stored form fits the storage allocated for it.
pub proof fn lemma_record_fits(r: Received)
    requires
        r.wf(),
    ensures
        r.stored_len() <= Received::MAXIMUM_SIZE,
{
}

} // verus!
