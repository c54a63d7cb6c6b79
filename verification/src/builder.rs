//! The command schema builder: one signature in, one leaf command module
//! out, or a build error that aborts the whole step.
use crate::errors::{BuildError, InvalidCliArgumentError, InvalidSubcommandFunctionError};
use crate::ident::{is_identifier, spec_is_identifier};
use crate::schema::{
    is_optional_type, spec_params_ok, spec_schema_of, spec_signature_ok, Flag, Param, Signature,
};
use crate::tree::CommandModule;
use vstd::prelude::*;

verus! {

/// The diagnostic text for a parameter whose binding form is not a simple
/// name:type pair; it echoes the offending parameter's source text.
pub open spec fn spec_invalid_argument_message(p: Param) -> Seq<char> {
    "Invalid cli argument: "@ + p.binding@ + ": "@ + p.ty@
}

/// Builds that diagnostic text.
fn invalid_argument_message(p: &Param) -> (r: String)
    ensures
        r@ == spec_invalid_argument_message(*p),
{
    let mut r = String::new();
    r.append("Invalid cli argument: ");
    r.append(p.binding.as_str());
    r.append(": ");
    r.append(p.ty.as_str());
    r
}

/// Builds one command's module from its signature: validates the identifier
/// and every parameter binding, derives the argument schema, carries the
/// documentation lines over verbatim, and wraps the operation.
///
/// Succeeds exactly on a function-like signature all of whose parameters are
/// simple name:type bindings. On success the module is a leaf whose schema
/// has one flag per parameter, in declaration order, required exactly for
/// the non-optional types. A signature with no parameters yields an empty
/// schema. Fails with `InvalidSignature` exactly when the identifier is not
/// a bare name, and otherwise with `InvalidArgument` exactly when some
/// parameter binding is not a bare name, echoing the first such parameter.
#[verifier::loop_isolation(false)]
pub fn command<Op>(sig: Signature, op: Op) -> (r: Result<CommandModule<Op>, BuildError>)
    ensures
        r is Ok <==> spec_signature_ok(sig),
        r is Ok ==> (r->Ok_0 matches CommandModule::Leaf { ident, docs, schema, op: o } && {
            &&& ident == sig.ident
            &&& docs == sig.docs
            &&& spec_schema_of(sig.params@, schema@)
            &&& o == op
        }),
        (r matches Err(BuildError::InvalidSignature(e)) && e.err == sig.ident) <==> !spec_is_identifier(
            sig.ident@,
        ),
        r matches Err(BuildError::InvalidArgument(e)) ==> {
            &&& spec_is_identifier(sig.ident@)
            &&& exists|j: int|
                {
                    &&& 0 <= j < sig.params@.len()
                    &&& !spec_is_identifier((#[trigger] sig.params@[j]).binding@)
                    &&& (forall|k: int|
                        0 <= k < j ==> spec_is_identifier(
                            (#[trigger] sig.params@[k]).binding@,
                        ))
                    &&& e.0@ == spec_invalid_argument_message(sig.params@[j])
                }
        },
        spec_is_identifier(sig.ident@) && !spec_params_ok(sig.params@) ==> r matches Err(
            BuildError::InvalidArgument(_),
        ),
{
    if !is_identifier(sig.ident.as_str()) {
        return Err(
            BuildError::InvalidSignature(
                InvalidSubcommandFunctionError { message: "Failed to parse function", err: sig.ident },
            ),
        );
    }
    let mut schema: Vec<Flag> = Vec::new();
    let n = sig.params.len();
    let mut i: usize = 0;
    while i < n
        invariant
            0 <= i <= n,
            schema@.len() == i,
            spec_schema_of(sig.params@.take(i as int), schema@),
            forall|k: int|
                0 <= k < i ==> spec_is_identifier((#[trigger] sig.params@[k]).binding@),
        decreases n - i,
    {
        let p = &sig.params[i];
        if !is_identifier(p.binding.as_str()) {
            return Err(BuildError::InvalidArgument(InvalidCliArgumentError(
                invalid_argument_message(p),
            )));
        }
        let required = !is_optional_type(p.ty.as_str());
        schema.push(Flag { name: p.binding.clone(), ty: p.ty.clone(), required });
        proof {
            assert(sig.params@.take(i + 1) =~= sig.params@.take(i as int).push(sig.params@[
                i as int]));
        }
        i += 1;
    }
    proof {
        assert(sig.params@.take(n as int) =~= sig.params@);
    }
    Ok(CommandModule::Leaf { ident: sig.ident, docs: sig.docs, schema, op })
}

} // verus!
