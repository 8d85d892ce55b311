//! A SOCKS5 (RFC 1928 / RFC 1929) protocol engine.
//!
//! The library holds no sockets: it decides, from the bytes a client sent, what
//! the server answers and what it does next. The program around it reads and
//! writes the streams and dials the targets.
use vstd::prelude::*;

pub mod codes;
pub mod text;
pub mod addr;
pub mod auth;
pub mod laws;

pub use addr::{addr_to_socket, pretty_print_addr, SOCKSReq, SocketTarget};
pub use auth::{
    choose_method, get_avalible_methods, relay_outcome, Action, SOCKClient, ServerConfig, Stage,
};
pub use codes::{
    AddrType, AuthMethods, MerinoError, ResponseCode, SockCommand, SocksReply, User, SOCKS_VERSION,
};
