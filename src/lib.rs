//! A two-peer, line-oriented text chat over one TCP connection: the decisions of
//! connection setup, of the background reader, of the send path and of the consumer's
//! screen, each stated and proved. The socket work itself is done by the caller, who
//! hands each outcome back.
pub mod role;
pub mod text;
pub mod event;
pub mod framer;
pub mod reader;
pub mod establish;
pub mod outbound;
pub mod screen;
