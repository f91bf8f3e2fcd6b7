//! The addresses of the two ends: where the server listens, and how a client
//! names the server.

use vstd::prelude::*;
use vstd::string::*;

verus! {

/// The host on which the server listens, with the colon that precedes the
/// port.
pub open spec fn listen_host() -> Seq<char> {
    "127.0.0.1:"@
}

/// The scheme of an encrypted transport.
pub open spec fn secure_scheme() -> Seq<char> {
    "https://"@
}

/// The address that the server listens on for the port `port`.
pub open spec fn listen_address_of(port: Seq<char>) -> Seq<char> {
    listen_host() + port
}

/// The URL under which a client reaches the server `address`: the address
/// itself where it names the encrypted scheme, and otherwise the address
/// with that scheme put in front.
pub open spec fn server_url_of(address: Seq<char>) -> Seq<char> {
    if secure_scheme().is_prefix_of(address) {
        address
    } else {
        secure_scheme() + address
    }
}

/// Whether `text` begins with `prefix`.
pub fn has_prefix(text: &str, prefix: &str) -> (found: bool)
    ensures
        found == prefix@.is_prefix_of(text@),
{
    let wanted = prefix.unicode_len();
    if text.unicode_len() < wanted {
        return false;
    }
    let mut i: usize = 0;
    while i < wanted
        invariant
            i <= wanted,
            wanted == prefix@.len(),
            wanted <= text@.len(),
            forall|j: int| 0 <= j < i ==> text@[j] == prefix@[j],
        decreases wanted - i,
    {
        if text.get_char(i) != prefix.get_char(i) {
            assert(text@.subrange(0, prefix@.len() as int)[i as int] != prefix@[i as int]);
            return false;
        }
        i += 1;
    }
    assert(text@.subrange(0, prefix@.len() as int) =~= prefix@);
    true
}

/// The address that the server listens on, for the port given on the
/// command line. Whether this is an address at all is for the caller to find
/// out when it binds.
pub fn listen_address(port: &str) -> (address: String)
    ensures
        address@ == listen_address_of(port@),
{
    let mut address = String::from_str("127.0.0.1:");
    address.append(port);
    address
}

/// The URL under which a client connects to the server that it was given:
/// an address without the encrypted scheme gets it by default.
pub fn server_url(address: &str) -> (url: String)
    ensures
        url@ == server_url_of(address@),
{
    if has_prefix(address, "https://") {
        String::from_str(address)
    } else {
        let mut url = String::from_str("https://");
        url.append(address);
        url
    }
}

} // verus!
