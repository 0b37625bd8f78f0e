use spin_factors::derive::{check_derive_tokens, expand_factors, DeriveError, DeriveInput, FieldInput, ItemKind};

fn field(name: Option<&str>, ty: &str) -> FieldInput {
    FieldInput { name: name.map(|n| n.to_string()), ty: ty.to_string() }
}

fn input(has_generics: bool, kind: ItemKind, fields: Vec<FieldInput>) -> DeriveInput {
    let generic_params = if has_generics { 1 } else { 0 };
    DeriveInput { name: "MyFactors".to_string(), generic_params, kind, fields }
}

#[test]
fn named_struct_gives_layout() {
    let i = input(
        false,
        ItemKind::Struct,
        vec![field(Some("wasi"), "WasiFactor"), field(Some("outbound_http"), "OutboundHttpFactor")],
    );
    let layout = expand_factors(&i).ok().unwrap();
    assert_eq!(layout.name, "MyFactors");
    assert_eq!(layout.builders_name, "MyFactors_Builders");
    assert_eq!(layout.data_name, "MyFactors_Data");
    assert_eq!(layout.factor_names, vec!["wasi".to_string(), "outbound_http".to_string()]);
    assert_eq!(layout.factor_types, vec!["WasiFactor".to_string(), "OutboundHttpFactor".to_string()]);
}

#[test]
fn unit_struct_gives_empty_layout() {
    let layout = expand_factors(&input(false, ItemKind::Struct, vec![])).ok().unwrap();
    assert!(layout.factor_names.is_empty());
    assert!(layout.factor_types.is_empty());
}

#[test]
fn generic_struct_is_refused_first() {
    let r = expand_factors(&input(true, ItemKind::Enum, vec![field(None, "u8")]));
    assert_eq!(r.err(), Some(DeriveError::GenericStruct));
}

#[test]
fn enum_and_union_are_refused() {
    assert_eq!(expand_factors(&input(false, ItemKind::Enum, vec![])).err(), Some(DeriveError::NotAStruct));
    assert_eq!(expand_factors(&input(false, ItemKind::Union, vec![])).err(), Some(DeriveError::NotAStruct));
}

#[test]
fn tuple_struct_is_refused() {
    let r = expand_factors(&input(false, ItemKind::Struct, vec![field(Some("a"), "A"), field(None, "B")]));
    assert_eq!(r.err(), Some(DeriveError::TupleStruct));
}

#[test]
fn derive_error_messages() {
    assert_eq!(DeriveError::GenericStruct.message(), "cannot derive Factors for generic structs");
    assert_eq!(DeriveError::NotAStruct.message(), "can only derive Factors for structs");
    assert_eq!(DeriveError::TupleStruct.message(), "tuple structs are not supported");
}

fn tokens(text: &str) -> proc_macro2::TokenStream {
    text.parse().unwrap()
}

#[test]
fn derive_tokens_of_named_struct_give_layout() {
    let r = check_derive_tokens(tokens("pub struct MyFactors { wasi: WasiFactor, outbound_http: OutboundHttpFactor }"));
    let layout = r.unwrap().ok().unwrap();
    assert_eq!(layout.builders_name, "MyFactors_Builders");
    assert_eq!(layout.data_name, "MyFactors_Data");
    assert_eq!(layout.factor_names, vec!["wasi".to_string(), "outbound_http".to_string()]);
    assert_eq!(layout.factor_types, vec!["WasiFactor".to_string(), "OutboundHttpFactor".to_string()]);
}

#[test]
fn derive_tokens_refusals() {
    let generic = check_derive_tokens(tokens("struct S<T> { a: T }")).unwrap();
    assert_eq!(generic.err(), Some(DeriveError::GenericStruct));
    let an_enum = check_derive_tokens(tokens("enum E { A, B }")).unwrap();
    assert_eq!(an_enum.err(), Some(DeriveError::NotAStruct));
    let tuple = check_derive_tokens(tokens("struct T(u8, u16);")).unwrap();
    assert_eq!(tuple.err(), Some(DeriveError::TupleStruct));
}

#[test]
fn derive_tokens_that_are_no_item() {
    assert!(check_derive_tokens(tokens("1 + 2")).is_none());
}
