use vstd::prelude::*;

verus! {

/// The port the development server listens on.
pub const DEV_SERVER_PORT: u16 = 3031;

/// Where the development server serves from and listens: the directory it
/// serves, the loopback host, and the port.
#[derive(Debug, PartialEq, Eq)]
pub struct ServeConfig {
    pub root: String,
    pub host: (u8, u8, u8, u8),
    pub port: u16,
}

} // verus!
