//! The guarantees of the mechanism as a whole, stated across modules.

use vstd::prelude::*;

use crate::expand::{main_expansion_spec, static_expansion_spec, FnDecl, MainExpansion,
    StaticDecl, StaticExpansion};
use crate::names::init_fn_name_spec;
use crate::registry::{drained_from, registry_wf, Registry};

verus! {

/// Single evaluation: once the entry-point wrapper has drained the
/// collection, the handle of every deferred static dereferences to the
/// value its initializer expression evaluated to, and that initializer has
/// run exactly once. A read borrows the registry immutably and is pinned to
/// the stored value, so repeated reads return the identical value and never
/// run the initializer again.
pub proof fn lemma_single_evaluation<T>(pre: Registry<T>, post: Registry<T>, h: int)
    requires
        registry_wf(pre),
        !pre.drained,
        drained_from(pre, post),
        0 <= h < pre.cells@.len(),
    ensures
        post.cells@[h].storage == Some(pre.cells@[h].init),
        post.cells@[h].evals == 1,
{
}

/// Exactly once, for every static: draining the collection once runs every
/// one of the N registered initializers — never zero times, never twice —
/// and invokes them in registration order.
pub proof fn lemma_each_initializer_runs_once<T>(pre: Registry<T>, post: Registry<T>)
    requires
        registry_wf(pre),
        !pre.drained,
        drained_from(pre, post),
    ensures
        post.cells@.len() == pre.cells@.len(),
        forall|i: int| 0 <= i < post.cells@.len() ==> (#[trigger] post.cells@[i]).evals == 1,
        post.run_log@.len() == pre.cells@.len(),
        forall|k: int| 0 <= k < post.run_log@.len() ==> (#[trigger] post.run_log@[k]) as int == k,
{
}

/// Every deferred-static declaration contributes exactly one entry to the
/// registration collection, its own initializer routine; declarations are
/// the only source of entries.
pub proof fn lemma_one_registration_per_static(d: StaticDecl, e: StaticExpansion)
    requires
        static_expansion_spec(d, e),
    ensures
        e.registered_inits@.len() == 1,
        e.registered_inits@[0]@ == init_fn_name_spec(d.name@),
{
}

/// Shared collection, no double invocation: two entry-point wrappers in the
/// same program name the same registration collection, yet neither adds an
/// entry to it, so a single invocation of the designated entry point still
/// runs each registered initializer exactly once — nothing is registered or
/// invoked twice.
pub proof fn lemma_shared_collection_single_invocation<T>(
    f: FnDecl,
    g: FnDecl,
    m1: MainExpansion,
    m2: MainExpansion,
    pre: Registry<T>,
    post: Registry<T>,
)
    requires
        main_expansion_spec(f, m1),
        main_expansion_spec(g, m2),
        registry_wf(pre),
        !pre.drained,
        drained_from(pre, post),
    ensures
        m1.registry_name@ == m2.registry_name@,
        m1.registered_inits@.len() == 0,
        m2.registered_inits@.len() == 0,
        forall|i: int| 0 <= i < post.cells@.len() ==> (#[trigger] post.cells@[i]).evals == 1,
{
}

} // verus!
