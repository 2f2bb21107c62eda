//! Decision and framing logic of a host-resident remote-management agent.
//!
//! Everything that touches the operating system (sockets, files, child
//! processes, the registry) lives outside this library; the functions here
//! take plain values and say exactly what the agent does with them.
pub mod text;
pub mod shell;
pub mod config;
pub mod fileops;
pub mod screenshot;
pub mod dispatch;
pub mod relocation;
