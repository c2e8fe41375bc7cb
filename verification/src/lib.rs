//! A request handler that answers every inbound request with what a single
//! lookup at a fixed remote endpoint brings: the `message` of the JSON that
//! comes back, or the words for what went wrong.
//!
//! The handler itself does no input or output. It decides, report by
//! report, what its host is to do next ([`decision::decide`]), and builds
//! the outbound response from the verdict ([`decision::respond`]).
//! [`invocation::handle`] is a whole invocation against a host whose
//! behaviour is given as a value.

pub mod decision;
pub mod exchange;
pub mod fault;
pub mod invocation;
pub mod laws;
pub mod request;
pub mod response;
pub mod text;
