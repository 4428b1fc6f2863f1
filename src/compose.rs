//! The version 1 composer: prefixes the base URL and delegates to the
//! registrar of the child routes.
//!
//! The builder is whatever accumulator the registrar works on (Rocket's
//! `Rocket<Build>` in a server); the composer never looks inside it.

use vstd::prelude::*;
use crate::url::{v1_prefix, v1_prefix_of};

verus! {

/// Mounts the version 1 routes: forms the prefix `base_url + "/v1"` and
/// hands it, with the builder, to `register`, the registrar of the child
/// routes. The registrar runs exactly once and its builder is returned.
pub fn routes<B, F>(rocket: B, base_url: &str, register: F) -> (r: B)
    where
        F: FnOnce(B, String) -> B,
    requires
        forall|b: B, p: String|
            p@ == v1_prefix_of(base_url@) ==> #[trigger] register.requires((b, p)),
    ensures
        exists|p: String|
            p@ == v1_prefix_of(base_url@) && #[trigger] register.ensures((rocket, p), r),
{
    let prefix = v1_prefix(base_url);
    let ghost p = prefix;
    let r = register(rocket, prefix);
    assert(register.ensures((rocket, p), r));
    r
}

/// Registration only adds: where every builder that `register` gives back
/// holds all the routes of the builder it was handed, as `table` reads them,
/// the builder that `routes` returns holds all the routes of its input.
pub proof fn lemma_routes_only_add<B, F, R>(
    rocket: B,
    base_url: Seq<char>,
    register: F,
    r: B,
    table: spec_fn(B) -> Set<R>,
)
    where
        F: FnOnce(B, String) -> B,
    requires
        forall|b: B, p: String, out: B|
            #[trigger] register.ensures((b, p), out) ==> table(b).subset_of(table(out)),
        exists|p: String|
            p@ == v1_prefix_of(base_url) && #[trigger] register.ensures((rocket, p), r),
    ensures
        table(rocket).subset_of(table(r)),
{
    let p = choose|p: String|
        p@ == v1_prefix_of(base_url) && #[trigger] register.ensures((rocket, p), r);
    assert(register.ensures((rocket, p), r));
}

} // verus!
