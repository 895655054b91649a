//! Remote session engine: the verified core behind a multi-session SSH/SFTP
//! client. It keeps the registries of live shell sessions and file transfers,
//! decides each step of the shell read loop and of the chunked transfer loop,
//! seals and opens stored credentials, and shapes file listings and previews.
//! The transport itself (sockets, channels, timers) is driven by the caller.
use vstd::prelude::*;

pub mod text;
pub mod registry;
pub mod hosts;
pub mod shell;
pub mod transfer;
pub mod preview;
pub mod crypto;
pub mod sftp;
