//! Discovery of a locally running client application instance.
//!
//! The library locates one of two related processes (the "client" and the
//! "game") in a snapshot of running processes, recovers the port and auth
//! token of its local control API — either from the process command line or
//! from a small lock file next to the installation — and packages them into
//! a loopback endpoint and a ready-to-use Basic-auth header.
//!
//! Everything that reads the machine (taking the process snapshot, reading
//! the lock file) is left to the caller; the library works on plain values
//! and states exactly what it does with them.

pub mod cmdline;
pub mod discovery;
pub mod errors;
pub mod header;
pub mod lockfile;
pub mod locator;
pub mod port;
pub mod text;

pub use discovery::begin_discovery;
pub use discovery::complete_discovery;
pub use discovery::Credentials;
pub use discovery::DiscoveryResult;
pub use discovery::DiscoveryStep;
pub use errors::Error;
pub use errors::ErrorKind;
pub use errors::IoKind;
