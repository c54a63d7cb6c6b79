//! The command tree and its dispatcher.
//!
//! A built unit is a `CommandModule`: either a leaf wrapping one operation,
//! or a group wrapping a tagged union of children. The two shapes are
//! deliberately indistinguishable from outside — a group is a valid child of
//! a further group — which is what makes composition recursive to arbitrary
//! depth. `run` walks one selection path and forwards the selected leaf's
//! operation result, stringified, as the single output line.
use crate::numtext::{int_text, spec_int_text};
use crate::schema::Flag;
use vstd::prelude::*;

verus! {

/// One typed argument value as the argument-parsing engine hands it over:
/// an integer, a string, or an absent optional value.
#[derive(Debug, PartialEq, Eq)]
pub enum ArgValue {
    Int(i32),
    Str(String),
    Absent,
}

/// An operation's return value before it is stringified for output.
#[derive(Debug, PartialEq, Eq)]
pub enum OutValue {
    Int(i32),
    Str(String),
}

/// A wrapped operation. The core treats the operation as opaque: it only
/// forwards the argument values, in declaration order and unchanged, and
/// forwards the result. An operation answers `None` on an argument list
/// whose shape it does not accept; the engine never produces such a list.
pub trait CliOp {
    /// The stringified return value of the operation, for every argument
    /// list it accepts.
    spec fn spec_call(&self, args: Seq<ArgValue>) -> Option<Seq<char>>;

    /// Invokes the operation on the given argument values.
    fn call(&self, args: &Vec<ArgValue>) -> (r: Option<OutValue>)
        ensures
            r is Some <==> self.spec_call(args@) is Some,
            r is Some ==> spec_render(r->0) == self.spec_call(args@)->0,
    ;
}

/// One variant of a group's tagged union: the display label derived from the
/// child's identifier, the child's documentation lines, and the child itself.
pub struct Variant<Op> {
    /// The derived display label, unique among the group's direct children.
    pub label: String,
    /// The child's documentation lines, attached to the variant.
    pub docs: Vec<String>,
    /// The child module, leaf or group.
    pub module: CommandModule<Op>,
}

/// A built command unit: a named leaf wrapping one operation and its
/// argument schema, or a named group wrapping an ordered tagged union of
/// children.
pub enum CommandModule<Op> {
    Leaf {
        /// The command's identifier.
        ident: String,
        /// Documentation lines carried verbatim from the signature.
        docs: Vec<String>,
        /// The derived argument schema, in declaration order.
        schema: Vec<Flag>,
        /// The wrapped operation.
        op: Op,
    },
    Group {
        /// The group's identifier.
        ident: String,
        /// Group-level documentation lines.
        docs: Vec<String>,
        /// The tagged union over the children, in declaration order.
        variants: Vec<Variant<Op>>,
    },
}

/// The parsed argument value of one invocation: at a group, the selected
/// variant's label and the value for the selected child; at a leaf, the
/// flag values in declaration order.
pub enum Invocation {
    Leaf(Vec<ArgValue>),
    Select(String, Box<Invocation>),
}

/// The identifier of a module, leaf or group alike.
pub open spec fn spec_module_ident<Op>(m: CommandModule<Op>) -> Seq<char> {
    match m {
        CommandModule::Leaf { ident, .. } => ident@,
        CommandModule::Group { ident, .. } => ident@,
    }
}

/// The documentation lines of a module, leaf or group alike.
pub open spec fn spec_module_docs<Op>(m: CommandModule<Op>) -> Seq<String> {
    match m {
        CommandModule::Leaf { docs, .. } => docs@,
        CommandModule::Group { docs, .. } => docs@,
    }
}

/// Reads a module's identifier.
pub fn module_ident<Op>(m: &CommandModule<Op>) -> (r: &String)
    ensures
        r@ == spec_module_ident(*m),
{
    match m {
        CommandModule::Leaf { ident, .. } => ident,
        CommandModule::Group { ident, .. } => ident,
    }
}

/// The stringified, single-line form of an operation's return value.
pub open spec fn spec_render(out: OutValue) -> Seq<char> {
    match out {
        OutValue::Int(i) => spec_int_text(i as int),
        OutValue::Str(s) => s@,
    }
}

/// Stringifies an operation's return value.
pub fn render(out: OutValue) -> (r: String)
    ensures
        r@ == spec_render(out),
{
    match out {
        OutValue::Int(i) => int_text(i),
        OutValue::Str(s) => s,
    }
}

/// What one invocation of a module outputs: at a leaf, the stringified
/// result of the operation on the given values; at a group, the output of
/// the first variant whose label equals the selected one; `None` when the
/// invocation's shape does not fit the module.
pub open spec fn spec_run<Op: CliOp>(m: CommandModule<Op>, inv: Invocation) -> Option<Seq<char>>
    decreases inv, 0nat,
{
    match (m, inv) {
        (CommandModule::Leaf { op, .. }, Invocation::Leaf(vals)) => op.spec_call(vals@),
        (CommandModule::Group { variants, .. }, Invocation::Select(label, inner)) => spec_dispatch(
            variants@,
            0,
            label@,
            *inner,
        ),
        _ => None,
    }
}

/// The output of the first variant at or after position `k` whose label is
/// `label`, applied to `inner`; `None` when no such variant exists.
pub open spec fn spec_dispatch<Op: CliOp>(
    vs: Seq<Variant<Op>>,
    k: int,
    label: Seq<char>,
    inner: Invocation,
) -> Option<Seq<char>>
    decreases inner, vs.len() - k + 1,
{
    if 0 <= k < vs.len() {
        if vs[k].label@ == label {
            spec_run(vs[k].module, inner)
        } else {
            spec_dispatch(vs, k + 1, label, inner)
        }
    } else {
        None
    }
}

/// Dispatch is unmoved by a prefix of variants whose labels all differ from
/// the selected one.
pub proof fn lemma_dispatch_skip<Op: CliOp>(
    vs: Seq<Variant<Op>>,
    k: int,
    label: Seq<char>,
    inner: Invocation,
    i: int,
)
    requires
        0 <= k <= i <= vs.len(),
        forall|j: int| k <= j < i ==> (#[trigger] vs[j].label)@ != label,
    ensures
        spec_dispatch(vs, k, label, inner) == spec_dispatch(vs, i, label, inner),
    decreases i - k,
{
    if k < i {
        lemma_dispatch_skip(vs, k + 1, label, inner, i);
    }
}

/// Runs one invocation against a module: selects along the group path,
/// invokes the selected leaf's operation, and returns its stringified
/// result. Returns `None` exactly when the invocation does not fit the
/// module: a value shape the tree or the operation does not accept.
#[verifier::loop_isolation(false)]
pub fn run<Op: CliOp>(m: &CommandModule<Op>, inv: &Invocation) -> (r: Option<String>)
    ensures
        r is Some <==> spec_run(*m, *inv) is Some,
        r is Some ==> r->0@ == spec_run(*m, *inv)->0,
    decreases *inv,
{
    match m {
        CommandModule::Leaf { op, .. } => match inv {
            Invocation::Leaf(vals) => match op.call(vals) {
                Some(out) => Some(render(out)),
                None => None,
            },
            _ => None,
        },
        CommandModule::Group { variants, .. } => match inv {
            Invocation::Select(label, inner) => {
            let n = variants.len();
            let mut i: usize = 0;
            while i < n
                invariant
                    0 <= i <= n,
                    n == variants@.len(),
                    forall|j: int| 0 <= j < i ==> (#[trigger] variants@[j].label)@ != label@,
                decreases n - i,
            {
                if variants[i].label.eq(label) {
                    proof {
                        assert(*inv == Invocation::Select(*label, *inner));
                        assert(decreases_to!(*inv => **inner));
                        lemma_dispatch_skip(variants@, 0, label@, **inner, i as int);
                        assert(spec_dispatch(variants@, i as int, label@, **inner) == spec_run(
                            variants@[i as int].module,
                            **inner,
                        ));
                    }
                    return run(&variants[i].module, inner);
                }
                i += 1;
            }
            proof {
                lemma_dispatch_skip(variants@, 0, label@, **inner, n as int);
            }
            None
            },
            _ => None,
        },
    }
}

} // verus!
