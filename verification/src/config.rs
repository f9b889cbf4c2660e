//! Where the service listens.

use vstd::prelude::*;
use vstd::string::StringExecFns;

verus! {

/// The port text that the address is built from: the configured one as it stands, or `4000`
/// where none is configured.
pub open spec fn port_text(port: Option<Seq<char>>) -> Seq<char> {
    match port {
        Some(text) => text,
        None => "4000"@,
    }
}

/// The listening address for a port text: every interface, then a colon, then the text.
pub open spec fn address_text(port: Option<Seq<char>>) -> Seq<char> {
    "0.0.0.0:"@ + port_text(port)
}

/// The configured port as plain characters.
pub open spec fn configured(port: Option<&str>) -> Option<Seq<char>> {
    match port {
        Some(text) => Some(text@),
        None => None,
    }
}

/// The address to bind: all interfaces, on the configured port or on 4000.
///
/// The port text is taken as it stands. Whether it names a port is for the bind to find out.
pub fn bind_address(port: Option<&str>) -> (address: String)
    ensures
        address@ == address_text(configured(port)),
{
    let host: String = String::from_str("0.0.0.0:");
    match port {
        Some(text) => host.concat(text),
        None => host.concat("4000"),
    }
}

} // verus!
