//! Deterministic names for the items a deferred static expands to.
//!
//! Each declared identifier `NAME` yields a hidden backing-storage item and a
//! private initializer routine, both named by appending a fixed suffix to
//! `NAME`; every declaration registers its initializer in one process-wide
//! collection with a fixed name shared with the entry-point wrapper.

use vstd::prelude::*;

verus! {

/// Name of the hidden backing storage generated for identifier `name`.
pub open spec fn storage_name_spec(name: Seq<char>) -> Seq<char> {
    name + "_____rust_sly_static_storage"@
}

/// Name of the generated initializer routine for identifier `name`.
pub open spec fn init_fn_name_spec(name: Seq<char>) -> Seq<char> {
    name + "_____rust_sly_static_initialize"@
}

/// Name of the process-wide registration collection. Both generators use
/// this one name, which is how independently declared statics and the entry
/// point wrapper find each other.
pub open spec fn registry_name_spec() -> Seq<char> {
    "__SLY_STATIC_FUNCTIONS"@
}

/// Backing-storage name for `name`: `name` followed by the storage suffix.
pub fn storage_name(name: &str) -> (r: String)
    ensures
        r@ == storage_name_spec(name@),
{
    let mut r = String::from_str(name);
    r.append("_____rust_sly_static_storage");
    r
}

/// Initializer-routine name for `name`: `name` followed by the initializer
/// suffix.
pub fn init_fn_name(name: &str) -> (r: String)
    ensures
        r@ == init_fn_name_spec(name@),
{
    let mut r = String::from_str(name);
    r.append("_____rust_sly_static_initialize");
    r
}

/// The shared registration-collection name.
pub fn registry_collection_name() -> (r: String)
    ensures
        r@ == registry_name_spec(),
{
    String::from_str("__SLY_STATIC_FUNCTIONS")
}

} // verus!
