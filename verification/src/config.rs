//! Where the server listens: the port and the address, as the environment
//! gives them or by default.

use crate::text::{append_decimal, chars_of, decimal_text, parse_unsigned, parse_unsigned_within};
use vstd::prelude::*;

verus! {

/// The port of a server whose environment names none.
pub const DEFAULT_PORT: u32 = 9110;

/// The address of a server whose environment names none.
pub open spec fn default_address() -> Seq<char> {
    "127.0.0.1"@
}

/// The port that a text names: an unsigned decimal that a port number of
/// 32 bits holds.
pub open spec fn port_of(text: Seq<char>) -> Option<u32> {
    match parse_unsigned(text) {
        Some(n) => if n <= u32::MAX {
            Some(n as u32)
        } else {
            None
        },
        None => None,
    }
}

/// The port of the server: the default where the environment names none,
/// the port that it names, or the text back where that names no port.
pub fn server_port(variable: Option<String>) -> (r: Result<u32, String>)
    ensures
        match variable {
            None => r == Ok::<u32, String>(DEFAULT_PORT),
            Some(text) => match port_of(text@) {
                Some(port) => r == Ok::<u32, String>(port),
                None => r == Err::<u32, String>(text),
            },
        },
{
    match variable {
        None => Ok(DEFAULT_PORT),
        Some(text) => {
            let chars = chars_of(text.as_str());
            match parse_unsigned_within(&chars, u32::MAX) {
                Some(port) => Ok(port),
                None => Err(text),
            }
        },
    }
}

/// The address of the server: what the environment names, or the default.
pub fn server_address(variable: Option<String>) -> (r: String)
    ensures
        r@ == match variable {
            Some(address) => address@,
            None => default_address(),
        },
{
    match variable {
        Some(address) => address,
        None => String::from_str("127.0.0.1"),
    }
}

/// The address and the port as one text, a colon between them.
pub open spec fn socket_text(address: Seq<char>, port: u32) -> Seq<char> {
    address + ":"@ + decimal_text(port as nat)
}

/// The address and the port as one text, a colon between them.
pub fn socket_address(address: &str, port: u32) -> (r: String)
    ensures
        r@ == socket_text(address@, port),
{
    let mut socket = String::from_str(address);
    socket.append(":");
    append_decimal(&mut socket, port as u64);
    socket
}

} // verus!
