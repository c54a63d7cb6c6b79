//! The library's stated laws, each proved once and for all inputs: how a
//! leaf's run treats argument values, when composition is ambiguous, and how
//! a group routes a selection.
use crate::compose::spec_labels_unique;
use crate::label::upper_camel_of;
use crate::tree::{
    lemma_dispatch_skip, spec_module_ident, ArgValue, CliOp, CommandModule, Invocation,
};
use crate::tree::spec_run;
use vstd::prelude::*;

verus! {

/// Law: a leaf module's run hands the argument values to its operation
/// exactly as given and in the given order — an absent optional value is
/// handed over as absent, with no default substituted — and the output is
/// exactly the operation's stringified result.
pub proof fn lemma_leaf_run_forwards_values<Op: CliOp>(m: CommandModule<Op>, vals: Vec<ArgValue>)
    requires
        m is Leaf,
    ensures
        spec_run(m, Invocation::Leaf(vals)) == m->op.spec_call(vals@),
{
}

/// Law: a leaf built from a signature with no parameters runs its operation
/// on no arguments: the empty argument list is what the operation sees.
pub proof fn lemma_zero_params_run<Op: CliOp>(m: CommandModule<Op>, vals: Vec<ArgValue>)
    requires
        m is Leaf,
        vals@.len() == 0,
    ensures
        spec_run(m, Invocation::Leaf(vals)) == m->op.spec_call(Seq::<ArgValue>::empty()),
{
    assert(vals@ =~= Seq::<ArgValue>::empty());
}

/// Law: two distinct children compose without ambiguity exactly when their
/// identifiers derive distinct labels; with one shared label the pair is
/// rejected as a duplicate variant.
pub proof fn lemma_pair_duplicate<Op>(a: CommandModule<Op>, b: CommandModule<Op>)
    ensures
        spec_labels_unique(seq![a, b]) <==> upper_camel_of(spec_module_ident(a)) != upper_camel_of(
            spec_module_ident(b),
        ),
{
    let s = seq![a, b];
    assert(s[0] == a && s[1] == b);
    if upper_camel_of(spec_module_ident(a)) != upper_camel_of(spec_module_ident(b)) {
        assert forall|i: int, j: int| 0 <= i < j < s.len() implies upper_camel_of(
            spec_module_ident(#[trigger] s[i]),
        ) != upper_camel_of(spec_module_ident(#[trigger] s[j])) by {
            assert(i == 0 && j == 1);
        }
    }
}

/// Law: a group routes a selection to the labelled child: when variant `i`
/// bears the selected label and no earlier variant does, running the group
/// on the selection runs variant `i`'s module on the inner value, unchanged.
pub proof fn lemma_group_routes_to_child<Op: CliOp>(
    m: CommandModule<Op>,
    i: int,
    label: String,
    inner: Box<Invocation>,
)
    requires
        m is Group,
        0 <= i < m->variants@.len(),
        (#[trigger] m->variants@[i]).label@ == label@,
        forall|j: int| 0 <= j < i ==> (#[trigger] m->variants@[j]).label@ != label@,
    ensures
        spec_run(m, Invocation::Select(label, inner)) == spec_run(m->variants@[i].module, *inner),
{
    lemma_dispatch_skip(m->variants@, 0, label@, *inner, i);
}

/// Law: a group composed as a child of an outer group routes a two-level
/// selection through both dispatches to the selected leaf, whose operation
/// then receives the innermost value unchanged.
pub proof fn lemma_depth_two_routing<Op: CliOp>(
    outer: CommandModule<Op>,
    i: int,
    l1: String,
    mid: Box<Invocation>,
    j: int,
    l2: String,
    inner: Box<Invocation>,
)
    requires
        outer is Group,
        0 <= i < outer->variants@.len(),
        (#[trigger] outer->variants@[i]).label@ == l1@,
        forall|k: int| 0 <= k < i ==> (#[trigger] outer->variants@[k]).label@ != l1@,
        outer->variants@[i].module is Group,
        0 <= j < outer->variants@[i].module->variants@.len(),
        (#[trigger] outer->variants@[i].module->variants@[j]).label@ == l2@,
        forall|k: int|
            0 <= k < j ==> (#[trigger] outer->variants@[i].module->variants@[k]).label@ != l2@,
        *mid == Invocation::Select(l2, inner),
    ensures
        spec_run(outer, Invocation::Select(l1, mid)) == spec_run(
            outer->variants@[i].module->variants@[j].module,
            *inner,
        ),
{
    lemma_group_routes_to_child(outer, i, l1, mid);
    lemma_group_routes_to_child(outer->variants@[i].module, j, l2, inner);
}

} // verus!
