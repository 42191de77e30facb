use sly_static::errors::ExpandError;
use sly_static::expand::{expand_main, expand_static, FnDecl, StaticDecl};
use sly_static::markers::{parse_markers, MarkerSet};
use sly_static::names::{init_fn_name, registry_collection_name, storage_name};

fn decl(name: &str, mutable: bool, markers: &[&str]) -> StaticDecl {
    StaticDecl {
        name: String::from(name),
        mutable,
        markers: markers.iter().map(|m| String::from(*m)).collect(),
        ty: String::from("u64"),
        init_expr: String::from("41 + 1"),
        vis: String::from("pub"),
        attrs: vec![String::from("#[allow(dead_code)]")],
    }
}

fn entry(name: &str) -> FnDecl {
    FnDecl {
        name: String::from(name),
        signature: String::from("fn main()"),
        vis: String::new(),
        attrs: Vec::new(),
        body: String::from("{ }"),
    }
}

#[test]
fn storage_name_formula() {
    assert_eq!(
        storage_name("COUNTER"),
        "COUNTER_____rust_sly_static_storage"
    );
}

#[test]
fn init_fn_name_formula() {
    assert_eq!(
        init_fn_name("COUNTER"),
        "COUNTER_____rust_sly_static_initialize"
    );
}

#[test]
fn registry_collection_name_is_fixed() {
    assert_eq!(registry_collection_name(), "__SLY_STATIC_FUNCTIONS");
}

#[test]
fn markers_empty_list_accepted() {
    let r = parse_markers(&Vec::new());
    assert_eq!(r, Ok(MarkerSet { send: false, sync: false }));
}

#[test]
fn markers_send_and_sync_accepted() {
    let tokens = vec![String::from("Send"), String::from("Sync")];
    let r = parse_markers(&tokens);
    assert_eq!(r, Ok(MarkerSet { send: true, sync: true }));
}

#[test]
fn markers_duplicates_collapse() {
    let tokens = vec![
        String::from("Send"),
        String::from("Send"),
        String::from("Sync"),
    ];
    let r = parse_markers(&tokens);
    assert_eq!(r, Ok(MarkerSet { send: true, sync: true }));
}

#[test]
fn markers_sync_alone() {
    let tokens = vec![String::from("Sync")];
    let r = parse_markers(&tokens);
    assert_eq!(r, Ok(MarkerSet { send: false, sync: true }));
}

#[test]
fn unrecognized_marker_rejected_with_message_naming_allowed_set() {
    let tokens = vec![String::from("Clone")];
    let r = parse_markers(&tokens);
    assert_eq!(r, Err(ExpandError::UnrecognizedMarker));
    assert_eq!(
        ExpandError::UnrecognizedMarker.message(),
        "Expected 'Send' and/or 'Sync' as arguments to #[sly_static]"
    );
}

#[test]
fn mutable_static_rejected_at_declaration_time() {
    let r = expand_static(decl("COUNTER", true, &[]));
    assert_eq!(r.unwrap_err(), ExpandError::MutableStatic);
    assert_eq!(
        ExpandError::MutableStatic.message(),
        "#[sly_static] static must not be mutable"
    );
}

#[test]
fn unrecognized_marker_reported_before_mutability() {
    let r = expand_static(decl("COUNTER", true, &["Foo"]));
    assert_eq!(r.unwrap_err(), ExpandError::UnrecognizedMarker);
}

#[test]
fn accepted_declaration_generates_all_items() {
    let e = expand_static(decl("COUNTER", false, &["Send", "Sync"])).unwrap();
    assert_eq!(e.handle_name, "COUNTER");
    assert_eq!(e.storage_name, "COUNTER_____rust_sly_static_storage");
    assert_eq!(e.init_fn_name, "COUNTER_____rust_sly_static_initialize");
    assert_eq!(e.registry_name, "__SLY_STATIC_FUNCTIONS");
    assert!(e.impl_send);
    assert!(e.impl_sync);
    assert_eq!(e.ty, "u64");
    assert_eq!(e.init_expr, "41 + 1");
    assert_eq!(e.vis, "pub");
    assert_eq!(e.attrs, vec![String::from("#[allow(dead_code)]")]);
    assert_eq!(
        e.registered_inits,
        vec![String::from("COUNTER_____rust_sly_static_initialize")]
    );
}

#[test]
fn plain_declaration_asserts_no_capability() {
    let e = expand_static(decl("VALUE", false, &[])).unwrap();
    assert!(!e.impl_send);
    assert!(!e.impl_sync);
    assert_eq!(e.registered_inits.len(), 1);
}

#[test]
fn entry_point_wrapper_keeps_function_and_registers_nothing() {
    let m = expand_main(entry("main"));
    assert_eq!(m.registry_name, "__SLY_STATIC_FUNCTIONS");
    assert_eq!(m.func.name, "main");
    assert_eq!(m.func.signature, "fn main()");
    assert_eq!(m.func.body, "{ }");
    assert!(m.registered_inits.is_empty());
}

#[test]
fn two_entry_points_share_collection_without_double_registration() {
    let m1 = expand_main(entry("main"));
    let m2 = expand_main(entry("other_main"));
    assert_eq!(m1.registry_name, m2.registry_name);
    assert!(m1.registered_inits.is_empty());
    assert!(m2.registered_inits.is_empty());
}
