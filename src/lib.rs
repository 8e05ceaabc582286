//! Builders for cross-program calls into the token bridge: the ordered
//! account list of each transfer-with-payload operation, the canonical
//! encoding of its arguments, and the approve-then-transfer sequence, plus the
//! bounded record kept for each received message.

pub mod address;
pub mod opcode;
pub mod codec;
pub mod instructions;
pub mod received;
