//! Turning the caller's target into a remote endpoint.
use vstd::prelude::*;
use vstd::string::StrSliceExecFns;
use vstd::string::StringExecFns;

verus! {

/// Port suffix appended to a bare host.
pub open spec fn default_port_suffix() -> Seq<char> {
    seq![':', '5', '0', '0', '0']
}

/// The endpoint a target resolves to: a target that names a port (holds a
/// colon) is kept as it is; a bare host gets port 5000.
pub open spec fn endpoint_of(target: Seq<char>) -> Seq<char> {
    if target.contains(':') {
        target
    } else {
        target + default_port_suffix()
    }
}

/// Whether `s` holds a colon.
pub fn has_port(s: &str) -> (r: bool)
    ensures
        r == s@.contains(':'),
{
    let n = s.unicode_len();
    let mut i: usize = 0;
    while i < n
        invariant
            n == s@.len(),
            i <= n,
            forall|j: int| 0 <= j < i ==> s@[j] != ':',
        decreases n - i,
    {
        if s.get_char(i) == ':' {
            return true;
        }
        i += 1;
    }
    assert forall|j: int| 0 <= j < s@.len() implies s@[j] != ':' by {}
    false
}

/// Resolves `target` to the endpoint the datagram channel connects to.
pub fn normalize_endpoint(target: &str) -> (r: String)
    ensures
        r@ == endpoint_of(target@),
{
    let mut r = String::from_str(target);
    if !has_port(target) {
        r.append(":5000");
        proof {
            reveal_strlit(":5000");
        }
    }
    r
}

/// A bare host resolves to port 5000; a target that names a port resolves
/// to itself.
pub proof fn endpoint_normalization(host: Seq<char>, port: Seq<char>)
    requires
        !host.contains(':'),
        !port.contains(':'),
    ensures
        endpoint_of(host) == host + seq![':', '5', '0', '0', '0'],
        endpoint_of(host + seq![':'] + port) == host + seq![':'] + port,
{
    let t = host + seq![':'] + port;
    assert(t[host.len() as int] == ':');
}

} // verus!
