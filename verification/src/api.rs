//! Reading the router's WAN address out of its API response.
//!
//! The router's management API answers with a JSON object keyed by interface
//! name; under the interface sits an `ipv4` array whose first entry carries
//! the address in its `ipaddr` member.  The transport lives with the caller;
//! this module interprets the response body, treating it as untrusted input:
//! any missing or ill-shaped step yields the empty string rather than a
//! failure.

use vstd::prelude::*;

use crate::json::{
    get_element, get_field, get_string, json_element, json_field, json_string,
};
use crate::state::opt_text;

verus! {

/// The WAN address a response body names for `interface`: the string under
/// `body[interface].ipv4[0].ipaddr`, or the empty string where any step of
/// that path is missing or of the wrong shape.
pub open spec fn spec_wan_ip(body: Seq<char>, interface: Seq<char>) -> Seq<char> {
    match json_field(body, interface) {
        None => Seq::empty(),
        Some(iface) => match json_field(iface, "ipv4"@) {
            None => Seq::empty(),
            Some(list) => match json_element(list, 0) {
                None => Seq::empty(),
                Some(entry) => match json_field(entry, "ipaddr"@) {
                    None => Seq::empty(),
                    Some(addr) => match json_string(addr) {
                        None => Seq::empty(),
                        Some(s) => s,
                    },
                },
            },
        },
    }
}

/// Extract the WAN address for `interface` from a response body, the empty
/// string standing for a body that does not carry one.
pub fn parse_json(response_text: String, interface: &str) -> (r: String)
    ensures
        r@ == spec_wan_ip(response_text@, interface@),
{
    let iface = match get_field(response_text.as_str(), interface) {
        Some(v) => v,
        None => {
            return String::new();
        },
    };
    let list = match get_field(iface.as_str(), "ipv4") {
        Some(v) => v,
        None => {
            return String::new();
        },
    };
    let entry = match get_element(list.as_str(), 0) {
        Some(v) => v,
        None => {
            return String::new();
        },
    };
    let addr = match get_field(entry.as_str(), "ipaddr") {
        Some(v) => v,
        None => {
            return String::new();
        },
    };
    match get_string(addr.as_str()) {
        Some(v) => v,
        None => String::new(),
    }
}

/// The observed router address: absent where the API could not be reached at
/// all (`body` is `None`) and where the response carries no address, so that
/// a transport failure is never mistaken for an address.
pub open spec fn spec_router_address(
    body: Option<Seq<char>>,
    interface: Seq<char>,
) -> Option<Seq<char>> {
    match body {
        None => None,
        Some(text) => {
            let addr = spec_wan_ip(text, interface);
            if addr.len() == 0 {
                None
            } else {
                Some(addr)
            }
        },
    }
}

/// Interpret one fetch of the router API: `response_text` is the response
/// body where the transport succeeded, `None` where it failed.  Returns the
/// WAN address for `interface`, or `None` where none was observed.
pub fn get_api(response_text: Option<String>, interface: &str) -> (r: Option<String>)
    ensures
        r is Some <==> spec_router_address(opt_text(response_text), interface@) is Some,
        r matches Some(s) ==> spec_router_address(opt_text(response_text), interface@) == Some(s@),
{
    match response_text {
        None => None,
        Some(text) => {
            let addr = parse_json(text, interface);
            if addr.as_str().is_empty() {
                None
            } else {
                Some(addr)
            }
        },
    }
}

} // verus!
