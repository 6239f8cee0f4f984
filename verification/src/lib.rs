//! Decoder for the delimiter-based text encoding of a legacy game server's
//! responses, and assembler of the records spread over a response's sections.

pub mod text;
pub mod de;
pub mod model;
pub mod response;
