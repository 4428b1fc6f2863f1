//! Building URL prefixes by raw concatenation.

use vstd::prelude::*;
use vstd::string::*;

verus! {

/// The version segment that the composer appends to its base URL.
pub open spec fn version_segment() -> Seq<char> {
    seq!['/', 'v', '1']
}

/// The prefix under which version 1 routes are mounted: the base followed
/// by the version segment, with no separator handling of any kind.
pub open spec fn v1_prefix_of(base: Seq<char>) -> Seq<char> {
    base + version_segment()
}

/// Joins a parent prefix and a child segment as they are: no slash is
/// added, removed or collapsed.
pub fn route_url(parent: &str, child: &str) -> (r: String)
    ensures
        r@ == parent@ + child@,
{
    let mut s = String::from_str(parent);
    s.append(child);
    s
}

/// The prefix for version 1 routes under `base_url`.
pub fn v1_prefix(base_url: &str) -> (r: String)
    ensures
        r@ == v1_prefix_of(base_url@),
{
    let segment = "/v1";
    proof {
        reveal_strlit("/v1");
    }
    assert(segment@ =~= version_segment());
    route_url(base_url, segment)
}

} // verus!
