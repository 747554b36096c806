//! Where the HTTP server listens.
use vstd::prelude::*;
use vstd::string::*;
use crate::text::{decimal, int_text};

verus! {

/// The port the server listens on.
pub const SERVER_PORT: u16 = 3000;

/// The address a listener on `port` binds: every interface, that port.
pub fn bind_address(port: u16) -> (r: String)
    ensures
        r@ == "0.0.0.0:"@ + int_text(port as int),
{
    let mut r = String::from_str("0.0.0.0:");
    let digits = decimal(port as i32);
    r.append(digits.as_str());
    r
}

} // verus!
