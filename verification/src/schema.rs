//! The signature model and the argument schema derived from it.
//!
//! A `Signature` is the normalized view of one command that the external
//! introspection collaborator supplies: an identifier, an ordered parameter
//! list, and its documentation lines carried verbatim. A `Flag` is one entry
//! of the derived argument schema.
use crate::ident::spec_is_identifier;
use vstd::prelude::*;

verus! {

/// One declared parameter: its binding form as source text, and its declared
/// type as an opaque type expression that is only structurally inspected.
pub struct Param {
    /// The binding form's source text; only a bare identifier is valid.
    pub binding: String,
    /// The declared type's source text, never evaluated.
    pub ty: String,
}

/// The normalized view of one command, as the introspection collaborator
/// hands it over.
pub struct Signature {
    /// The command's function name.
    pub ident: String,
    /// The ordered parameter list.
    pub params: Vec<Param>,
    /// Documentation lines, order-preserving, carried verbatim.
    pub docs: Vec<String>,
}

/// One flag declaration of an argument schema: long-form name, value type,
/// and whether the argument-parsing engine must see it.
#[derive(Debug, PartialEq, Eq)]
pub struct Flag {
    /// The long-form flag name, equal to the parameter name.
    pub name: String,
    /// The value type, equal to the parameter's declared type; an
    /// optional-of-T type stays wrapped so absence means "no value".
    pub ty: String,
    /// Required for a plain type; not required for an optional-of-T type.
    pub required: bool,
}

/// True of a type expression of the shape `Option<T>` with a nonempty `T`:
/// such a parameter is optional, every other parameter is required.
pub open spec fn spec_is_optional_type(ty: Seq<char>) -> bool {
    &&& ty.len() >= 9
    &&& ty[0] == 'O'
    &&& ty[1] == 'p'
    &&& ty[2] == 't'
    &&& ty[3] == 'i'
    &&& ty[4] == 'o'
    &&& ty[5] == 'n'
    &&& ty[6] == '<'
    &&& ty[ty.len() - 1] == '>'
}

/// Decides structurally whether a declared type is an optional-of-T wrapper.
pub fn is_optional_type(ty: &str) -> (r: bool)
    ensures
        r == spec_is_optional_type(ty@),
{
    let n = ty.unicode_len();
    if n < 9 {
        return false;
    }
    ty.get_char(0) == 'O' && ty.get_char(1) == 'p' && ty.get_char(2) == 't' && ty.get_char(3)
        == 'i' && ty.get_char(4) == 'o' && ty.get_char(5) == 'n' && ty.get_char(6) == '<'
        && ty.get_char(n - 1) == '>'
}

/// True when every parameter is a simple name:type binding.
pub open spec fn spec_params_ok(params: Seq<Param>) -> bool {
    forall|i: int| 0 <= i < params.len() ==> spec_is_identifier(#[trigger] params[i].binding@)
}

/// True when a signature is function-like and all its parameters are simple
/// bindings: exactly then does the schema builder succeed.
pub open spec fn spec_signature_ok(sig: Signature) -> bool {
    spec_is_identifier(sig.ident@) && spec_params_ok(sig.params@)
}

/// True when `flags` is the argument schema derived from `params`: one flag
/// per parameter, in declaration order, named by the parameter, typed by the
/// parameter's declared type, required exactly when that type is not an
/// optional-of-T wrapper.
pub open spec fn spec_schema_of(params: Seq<Param>, flags: Seq<Flag>) -> bool {
    &&& flags.len() == params.len()
    &&& forall|i: int|
        0 <= i < params.len() ==> {
            &&& (#[trigger] flags[i]).name@ == params[i].binding@
            &&& flags[i].ty@ == params[i].ty@
            &&& flags[i].required == !spec_is_optional_type(params[i].ty@)
        }
}

} // verus!
