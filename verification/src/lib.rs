//! Host-function binding core for a WebAssembly embedding: the typed value
//! representation marshalled across the raw calling convention, and the
//! trampoline logic that turns a typed host callback (synchronous or
//! asynchronous) into the behaviour the embedding runtime expects at its
//! C-style boundary.

pub mod functions;
pub mod values;
