//! The checks and the names behind `#[derive(SpinFactors)]`.
//!
//! The derive applies to a struct with named fields, each field holding one
//! factor. From it come the names of the generated builder and data structs
//! and, in field order, the factors' field names and types.
use proc_macro2::TokenStream;
use quote::ToTokens;
use vstd::prelude::*;

verus! {

/// The kind of item that the derive is applied to.
#[derive(Clone, Copy, Debug, PartialEq, Eq, Structural)]
pub enum ItemKind {
    Struct,
    Enum,
    Union,
}

/// A field of the item: its name, if it has one, and its type as written.
pub struct FieldInput {
    pub name: Option<String>,
    pub ty: String,
}

/// What the derive reads of the item it is applied to.
pub struct DeriveInput {
    /// The item's name.
    pub name: String,
    /// The number of the item's generic parameters.
    pub generic_params: usize,
    /// The kind of item.
    pub kind: ItemKind,
    /// The item's fields, in order (none for an enum or a union).
    pub fields: Vec<FieldInput>,
}

/// Why the derive refuses an item.
#[derive(Clone, Copy, Debug, PartialEq, Eq, Structural)]
pub enum DeriveError {
    /// The item has generic parameters.
    GenericStruct,
    /// The item is not a struct.
    NotAStruct,
    /// A field of the struct has no name.
    TupleStruct,
}

/// The message of a [`DeriveError`].
pub open spec fn derive_error_text(e: DeriveError) -> Seq<char> {
    match e {
        DeriveError::GenericStruct => "cannot derive Factors for generic structs"@,
        DeriveError::NotAStruct => "can only derive Factors for structs"@,
        DeriveError::TupleStruct => "tuple structs are not supported"@,
    }
}

impl DeriveError {
    /// The message of this error.
    pub fn message(&self) -> (s: &'static str)
        ensures
            s@ == derive_error_text(*self),
    {
        match self {
            DeriveError::GenericStruct => "cannot derive Factors for generic structs",
            DeriveError::NotAStruct => "can only derive Factors for structs",
            DeriveError::TupleStruct => "tuple structs are not supported",
        }
    }
}

/// What the derive generates code from.
pub struct FactorsLayout {
    /// The name of the struct of factors.
    pub name: String,
    /// The name of the generated struct of optional builders.
    pub builders_name: String,
    /// The name of the generated struct of instance data.
    pub data_name: String,
    /// The factors' field names, in field order.
    pub factor_names: Vec<String>,
    /// The factors' types, in field order.
    pub factor_types: Vec<String>,
}

/// The error the derive gives for `input`, if it refuses it: generic
/// parameters are refused first, then any item but a struct, then a struct
/// with a field that has no name.
pub open spec fn derive_refusal(input: DeriveInput) -> Option<DeriveError> {
    if input.generic_params > 0 {
        Some(DeriveError::GenericStruct)
    } else if input.kind != ItemKind::Struct {
        Some(DeriveError::NotAStruct)
    } else if exists|i: int| 0 <= i < input.fields@.len() && (#[trigger] input.fields@[i]).name is None {
        Some(DeriveError::TupleStruct)
    } else {
        None
    }
}

/// An item with any generic parameter is refused as generic, whatever its
/// kind and fields; a non-generic item that is not a struct is refused as
/// not a struct; a non-generic struct with a field without a name is
/// refused as a tuple struct; and a non-generic struct whose fields all have
/// names is accepted.
pub proof fn derive_refusal_order(input: DeriveInput)
    ensures
        input.generic_params > 0 ==> derive_refusal(input) == Some(DeriveError::GenericStruct),
        input.generic_params == 0 && input.kind != ItemKind::Struct ==> derive_refusal(input) == Some(
            DeriveError::NotAStruct,
        ),
        input.generic_params == 0 && input.kind == ItemKind::Struct && (exists|i: int|
            0 <= i < input.fields@.len() && (#[trigger] input.fields@[i]).name is None)
            ==> derive_refusal(input) == Some(DeriveError::TupleStruct),
        input.generic_params == 0 && input.kind == ItemKind::Struct && (forall|i: int|
            0 <= i < input.fields@.len() ==> (#[trigger] input.fields@[i]).name is Some)
            ==> derive_refusal(input) is None,
{
}

/// `layout` is what the derive makes of `input`: the generated structs are
/// named after the item with `_Builders` and `_Data` appended, and there is
/// one factor per field, with that field's name and type, in field order.
pub open spec fn is_layout_of(input: DeriveInput, layout: FactorsLayout) -> bool {
    &&& layout.name@ == input.name@
    &&& layout.builders_name@ == input.name@ + "_Builders"@
    &&& layout.data_name@ == input.name@ + "_Data"@
    &&& layout.factor_names@.len() == input.fields@.len()
    &&& layout.factor_types@.len() == input.fields@.len()
    &&& forall|i: int|
        0 <= i < input.fields@.len() ==> {
            &&& (#[trigger] layout.factor_names@[i])@ == input.fields@[i].name->0@
            &&& layout.factor_types@[i]@ == input.fields@[i].ty@
        }
}

/// Checks the item that `#[derive(SpinFactors)]` is applied to and works out
/// the names that the generated code uses.
pub fn expand_factors(input: &DeriveInput) -> (r: Result<FactorsLayout, DeriveError>)
    ensures
        match derive_refusal(*input) {
            Some(e) => r == Err::<FactorsLayout, DeriveError>(e),
            None => r matches Ok(layout) && is_layout_of(*input, layout),
        },
        input.generic_params > 0 ==> r == Err::<FactorsLayout, DeriveError>(DeriveError::GenericStruct),
        input.generic_params == 0 && input.kind != ItemKind::Struct ==> r == Err::<
            FactorsLayout,
            DeriveError,
        >(DeriveError::NotAStruct),
        r is Ok ==> input.generic_params == 0 && input.kind == ItemKind::Struct && forall|i: int|
            0 <= i < input.fields@.len() ==> (#[trigger] input.fields@[i]).name is Some,
{
    if input.generic_params > 0 {
        return Err(DeriveError::GenericStruct);
    }
    match input.kind {
        ItemKind::Struct => {},
        _ => {
            return Err(DeriveError::NotAStruct);
        },
    }
    let n = input.fields.len();
    let mut factor_names: Vec<String> = Vec::new();
    let mut factor_types: Vec<String> = Vec::new();
    let mut i: usize = 0;
    while i < n
        invariant
            input.generic_params == 0,
            input.kind == ItemKind::Struct,
            n == input.fields@.len(),
            i <= n,
            factor_names@.len() == i,
            factor_types@.len() == i,
            forall|j: int| 0 <= j < i ==> (#[trigger] input.fields@[j]).name is Some,
            forall|j: int|
                0 <= j < i ==> {
                    &&& (#[trigger] factor_names@[j])@ == input.fields@[j].name->0@
                    &&& factor_types@[j]@ == input.fields@[j].ty@
                },
        decreases n - i,
    {
        let field = &input.fields[i];
        assert(*field == input.fields@[i as int]);
        match &field.name {
            Some(name) => {
                factor_names.push(name.clone());
                factor_types.push(field.ty.clone());
            },
            None => {
                assert(input.fields@[i as int].name is None);
                return Err(DeriveError::TupleStruct);
            },
        }
        i = i + 1;
    }
    let mut builders_name = input.name.clone();
    builders_name.append("_Builders");
    let mut data_name = input.name.clone();
    data_name.append("_Data");
    let layout = FactorsLayout {
        name: input.name.clone(),
        builders_name,
        data_name,
        factor_names,
        factor_types,
    };
    assert(derive_refusal(*input) is None);
    Ok(layout)
}

#[verifier::external_type_specification]
#[verifier::external_body]
pub struct ExTokenStream(TokenStream);

/// What `syn` reads of the item whose tokens a derive is given, if the
/// tokens parse as an item.
pub uninterp spec fn parsed_derive_input(tokens: TokenStream) -> Option<DeriveInput>;

/// Calls `syn::parse2::<syn::DeriveInput>` on the tokens a derive is given
/// and converts what it returns: the item's name, its number of generic
/// parameters, its kind, and for a struct each field's name (if any) and
/// type as text. `None` when the tokens do not parse as an item. The result
/// is named; what parsing gives is not described further.
#[verifier::external_body]
fn parse_derive_input(tokens: TokenStream) -> (r: Option<DeriveInput>)
    ensures
        r == parsed_derive_input(tokens),
{
    let input = syn::parse2::<syn::DeriveInput>(tokens).ok()?;
    let (kind, fields) = match &input.data {
        syn::Data::Struct(data) => (ItemKind::Struct, data.fields.iter().map(|f| FieldInput {
            name: f.ident.as_ref().map(|i| i.to_string()),
            ty: f.ty.to_token_stream().to_string(),
        }).collect()),
        syn::Data::Enum(_) => (ItemKind::Enum, Vec::new()),
        syn::Data::Union(_) => (ItemKind::Union, Vec::new()),
    };
    let generic_params = input.generics.params.len();
    Some(DeriveInput { name: input.ident.to_string(), generic_params, kind, fields })
}

/// Reads the tokens that `#[derive(SpinFactors)]` is given and checks the
/// item: `None` when they do not parse as an item, else what
/// [`expand_factors`] makes of it.
pub fn check_derive_tokens(tokens: TokenStream) -> (r: Option<Result<FactorsLayout, DeriveError>>)
    ensures
        match parsed_derive_input(tokens) {
            None => r is None,
            Some(input) => r matches Some(res) && match derive_refusal(input) {
                Some(e) => res == Err::<FactorsLayout, DeriveError>(e),
                None => res matches Ok(layout) && is_layout_of(input, layout),
            },
        },
        parsed_derive_input(tokens) matches Some(input) ==> (input.generic_params > 0 ==> r == Some(
            Err::<FactorsLayout, DeriveError>(DeriveError::GenericStruct),
        )),
{
    match parse_derive_input(tokens) {
        None => None,
        Some(input) => Some(expand_factors(&input)),
    }
}

} // verus!
