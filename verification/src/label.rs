//! The command name deriver: an identifier such as `command_two` becomes the
//! display label `CommandTwo` used as a dispatch variant tag and as the
//! user-facing subcommand token.
use vstd::prelude::*;

verus! {

/// The upper-camel form of a character sequence, as convert_case computes it:
/// the input is segmented at its word boundaries, each segment is capitalized,
/// and the segments are concatenated.
pub uninterp spec fn upper_camel_of(s: Seq<char>) -> Seq<char>;

/// Relies on convert_case's `Casing::to_case` with `Case::UpperCamel`: the
/// result depends on the input characters alone, so repeated calls on one
/// input agree.
#[verifier::external_body]
fn to_upper_camel(s: &str) -> (r: String)
    ensures
        r@ == upper_camel_of(s@),
{
    convert_case::Casing::to_case(&s, convert_case::Case::UpperCamel)
}

/// Derives the display label of a command from its identifier.
///
/// The derivation is deterministic and total: every identifier has exactly
/// one label, and repeated calls on one identifier return the same label.
pub fn get_command_name(ident: &str) -> (r: String)
    ensures
        r@ == upper_camel_of(ident@),
{
    to_upper_camel(ident)
}

/// Law: the label derivation is deterministic — one identifier has exactly
/// one derived label, however often it is derived.
pub proof fn lemma_label_deterministic(s: Seq<char>, t: Seq<char>)
    requires
        s == t,
    ensures
        upper_camel_of(s) == upper_camel_of(t),
{
}

} // verus!
