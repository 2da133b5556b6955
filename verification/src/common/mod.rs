//! What both peers share: the header byte and the packet serializer.

pub mod message_header;
pub mod serializer;
