//! Declaration-time expansion of the two attributes.
//!
//! `expand_static` decides whether a deferred-static declaration is
//! accepted and, if so, exactly which items it generates: the hidden
//! backing storage, the public handle under the declared name, the
//! capability assertions, the initializer routine, and the one registration
//! entry. `expand_main` wraps the designated entry point: it names the
//! shared registration collection and keeps the function itself unchanged;
//! it registers no initializer of its own.
//!
//! The declared type, initializer expression, visibility and attributes are
//! carried through verbatim as opaque text: the expansion never looks
//! inside them.

use vstd::prelude::*;

use crate::errors::ExpandError;
use crate::markers::{has_token, markers_valid, parse_markers};
use crate::names::{
    init_fn_name, init_fn_name_spec, registry_collection_name, registry_name_spec, storage_name,
    storage_name_spec,
};

verus! {

/// A deferred-static declaration as written: `#vis static NAME: TY = EXPR;`
/// with concurrency-marker tokens and attributes to preserve.
#[derive(Debug)]
pub struct StaticDecl {
    /// The declared identifier `NAME`.
    pub name: String,
    /// Whether the static was declared mutable.
    pub mutable: bool,
    /// The configuration tokens given to the marker, in source order.
    pub markers: Vec<String>,
    /// The declared type, carried through verbatim.
    pub ty: String,
    /// The initializer expression, carried through verbatim, not evaluated.
    pub init_expr: String,
    /// The declaration's visibility, carried through verbatim.
    pub vis: String,
    /// Attributes on the declaration, preserved on the generated handle.
    pub attrs: Vec<String>,
}

/// Everything an accepted deferred-static declaration generates.
#[derive(Debug)]
pub struct StaticExpansion {
    /// Name of the public handle: the declared identifier itself.
    pub handle_name: String,
    /// Name of the hidden backing storage.
    pub storage_name: String,
    /// Name of the generated initializer routine.
    pub init_fn_name: String,
    /// Name of the registration collection the initializer is appended to.
    pub registry_name: String,
    /// Whether the handle type is asserted thread-shareable (`Send`).
    pub impl_send: bool,
    /// Whether the handle type is asserted safe for concurrent access
    /// (`Sync`).
    pub impl_sync: bool,
    /// The declared type, verbatim from the declaration.
    pub ty: String,
    /// The initializer expression, verbatim from the declaration.
    pub init_expr: String,
    /// The declaration's visibility, verbatim.
    pub vis: String,
    /// The preserved attributes, verbatim.
    pub attrs: Vec<String>,
    /// The initializer routines this expansion appends to the registration
    /// collection: exactly one, the generated initializer.
    pub registered_inits: Vec<String>,
}

/// The designated entry-point function as written.
#[derive(Debug)]
pub struct FnDecl {
    /// The function's name.
    pub name: String,
    /// The function's signature, carried through verbatim.
    pub signature: String,
    /// The function's visibility, carried through verbatim.
    pub vis: String,
    /// Attributes on the function, preserved on the wrapper.
    pub attrs: Vec<String>,
    /// The original body, which runs only after the drain pass.
    pub body: String,
}

/// What the entry-point attribute generates: the declaration of the shared
/// registration collection and a wrapper that drains it before the original
/// body. The wrapped function keeps its signature, visibility and
/// attributes.
#[derive(Debug)]
pub struct MainExpansion {
    /// Name of the registration collection the wrapper declares and drains.
    pub registry_name: String,
    /// The function being wrapped, unchanged.
    pub func: FnDecl,
    /// The initializer routines this expansion appends to the registration
    /// collection: none — the wrapper only drains.
    pub registered_inits: Vec<String>,
}

/// An accepted declaration `d` generates exactly `e`: the handle under the
/// declared name, storage and initializer names derived deterministically
/// from it, one registration entry for the initializer in the shared
/// collection, a capability assertion per requested marker, and the type,
/// expression, visibility and attributes carried through verbatim.
pub open spec fn static_expansion_spec(d: StaticDecl, e: StaticExpansion) -> bool {
    &&& e.handle_name == d.name
    &&& e.storage_name@ == storage_name_spec(d.name@)
    &&& e.init_fn_name@ == init_fn_name_spec(d.name@)
    &&& e.registry_name@ == registry_name_spec()
    &&& (e.impl_send <==> has_token(d.markers@, "Send"@))
    &&& (e.impl_sync <==> has_token(d.markers@, "Sync"@))
    &&& e.ty == d.ty
    &&& e.init_expr == d.init_expr
    &&& e.vis == d.vis
    &&& e.attrs == d.attrs
    &&& e.registered_inits@.len() == 1
    &&& e.registered_inits@[0]@ == init_fn_name_spec(d.name@)
}

/// The entry-point attribute on `f` generates exactly `m`: it names the one
/// shared registration collection, keeps `f` unchanged behind the drain
/// pass, and registers no initializer.
pub open spec fn main_expansion_spec(f: FnDecl, m: MainExpansion) -> bool {
    &&& m.registry_name@ == registry_name_spec()
    &&& m.func == f
    &&& m.registered_inits@.len() == 0
}

/// Expands one deferred-static declaration, or rejects it at declaration
/// time. A declaration is accepted exactly when every marker token is
/// recognized and the static is not mutable; an unrecognized token is
/// reported first, as the marker list is examined before the declaration
/// itself.
pub fn expand_static(d: StaticDecl) -> (r: Result<StaticExpansion, ExpandError>)
    ensures
        r is Ok <==> !d.mutable && markers_valid(d.markers@),
        !markers_valid(d.markers@) ==> r == Err::<StaticExpansion, ExpandError>(
            ExpandError::UnrecognizedMarker,
        ),
        markers_valid(d.markers@) && d.mutable ==> r == Err::<StaticExpansion, ExpandError>(
            ExpandError::MutableStatic,
        ),
        r matches Ok(e) ==> static_expansion_spec(d, e),
{
    let markers = parse_markers(&d.markers)?;
    if d.mutable {
        return Err(ExpandError::MutableStatic);
    }
    let storage = storage_name(d.name.as_str());
    let init_fn = init_fn_name(d.name.as_str());
    let mut registered_inits: Vec<String> = Vec::new();
    registered_inits.push(init_fn.clone());
    Ok(
        StaticExpansion {
            handle_name: d.name,
            storage_name: storage,
            init_fn_name: init_fn,
            registry_name: registry_collection_name(),
            impl_send: markers.send,
            impl_sync: markers.sync,
            ty: d.ty,
            init_expr: d.init_expr,
            vis: d.vis,
            attrs: d.attrs,
            registered_inits: registered_inits,
        },
    )
}

/// Wraps the designated entry point: declares the shared registration
/// collection and prepends the drain pass to the unchanged function. No
/// initializer is registered by the wrapper itself.
pub fn expand_main(f: FnDecl) -> (m: MainExpansion)
    ensures
        main_expansion_spec(f, m),
{
    MainExpansion {
        registry_name: registry_collection_name(),
        func: f,
        registered_inits: Vec::new(),
    }
}

} // verus!
