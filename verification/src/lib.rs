//! Message and addressing layer of the Interaction Model: wildcard paths,
//! interaction blocks, message envelopes and the list-write inference, all
//! expressed over a structured element model of the tagged wire encoding.

pub mod error;
pub mod tlv;
pub mod writer;
pub mod codec;
pub mod path;
pub mod status;
pub mod objects;
pub mod ib;
pub mod msg;
pub mod node;
pub mod descriptor;
pub mod encoder;
