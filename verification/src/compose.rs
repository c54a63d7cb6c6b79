//! The subcommand tree composer: already-built command modules become one
//! group module whose tagged union dispatches over them. Every child's
//! display label is derived from its identifier; composition fails at build
//! time when two children derive one label, when the input shape is wrong,
//! or when the group list is empty.
use crate::errors::{ComposeError, InvalidIdentifierError, InvalidIdentifierListError};
use crate::ident::{is_identifier, spec_is_identifier};
use crate::label::{get_command_name, upper_camel_of};
use crate::listparse::{
    lemma_parse_compose_idents, parse_compose_input, seq_views, spec_compose_children,
    spec_compose_ident, spec_parse_compose,
};
use crate::tree::{module_ident, spec_module_docs, spec_module_ident, CommandModule, Variant};
use vstd::prelude::*;

verus! {

/// True when no two of the children derive one display label.
pub open spec fn spec_labels_unique<Op>(children: Seq<CommandModule<Op>>) -> bool {
    forall|i: int, j: int|
        0 <= i < j < children.len() ==> upper_camel_of(
            spec_module_ident(#[trigger] children[i]),
        ) != upper_camel_of(spec_module_ident(#[trigger] children[j]))
}

/// Exactly when this holds does composing a group succeed: a bare group
/// name, at least one child, and pairwise distinct derived labels.
pub open spec fn spec_group_ok<Op>(gid: Seq<char>, children: Seq<CommandModule<Op>>) -> bool {
    spec_is_identifier(gid) && children.len() > 0 && spec_labels_unique(children)
}

/// True when `variants` is the tagged union derived from `children`: one
/// variant per child, in declaration order, tagged by the child's derived
/// label, carrying the child's documentation lines and the child itself.
pub open spec fn spec_variants_of<Op>(
    children: Seq<CommandModule<Op>>,
    variants: Seq<Variant<Op>>,
) -> bool {
    &&& variants.len() == children.len()
    &&& forall|i: int|
        0 <= i < children.len() ==> {
            &&& (#[trigger] variants[i]).label@ == upper_camel_of(spec_module_ident(children[i]))
            &&& variants[i].docs@ == spec_module_docs(children[i])
            &&& variants[i].module == children[i]
        }
}

/// Copies a vector of strings.
fn clone_strings(v: &Vec<String>) -> (r: Vec<String>)
    ensures
        r@ == v@,
{
    let mut r: Vec<String> = Vec::new();
    let mut i: usize = 0;
    while i < v.len()
        invariant
            0 <= i <= v@.len(),
            r@ == v@.take(i as int),
        decreases v@.len() - i,
    {
        r.push(v[i].clone());
        proof {
            assert(v@.take(i + 1) =~= v@.take(i as int).push(v@[i as int]));
        }
        i += 1;
    }
    proof {
        assert(v@.take(v@.len() as int) =~= v@);
    }
    r
}

/// Reads a module's documentation lines.
fn module_docs<Op>(m: &CommandModule<Op>) -> (r: &Vec<String>)
    ensures
        r@ == spec_module_docs(*m),
{
    match m {
        CommandModule::Leaf { docs, .. } => docs,
        CommandModule::Group { docs, .. } => docs,
    }
}

/// Composes a group module from its identifier, its ordered children, and
/// its group-level documentation.
///
/// Succeeds exactly when the identifier is a bare name, the child list is
/// nonempty, and the children's derived labels are pairwise distinct. The
/// result is a group carrying the documentation and one variant per child,
/// in declaration order, tagged by the derived labels. Fails with
/// `DuplicateVariant` exactly when two children derive one label — the
/// carried label is such a label — and is never silently renamed.
#[verifier::loop_isolation(false)]
pub fn compose<Op>(group_ident: String, children: Vec<CommandModule<Op>>, docs: Vec<String>) -> (r:
    Result<CommandModule<Op>, ComposeError>)
    ensures
        r is Ok <==> spec_group_ok(group_ident@, children@),
        r is Ok ==> (r->Ok_0 matches CommandModule::Group { ident, docs: d, variants } && {
            &&& ident == group_ident
            &&& d == docs
            &&& spec_variants_of(children@, variants@)
        }),
        r matches Err(ComposeError::InvalidIdentifier(_)) <==> !spec_is_identifier(group_ident@),
        r matches Err(ComposeError::InvalidIdentifierList(_)) <==> (spec_is_identifier(
            group_ident@,
        ) && children@.len() == 0),
        r matches Err(ComposeError::DuplicateVariant { .. }) <==> (spec_is_identifier(
            group_ident@,
        ) && children@.len() > 0 && !spec_labels_unique(children@)),
        r matches Err(ComposeError::DuplicateVariant { label }) ==> exists|i: int, j: int|
            0 <= i < j < children@.len() && upper_camel_of(
                spec_module_ident(#[trigger] children@[i]),
            ) == upper_camel_of(spec_module_ident(#[trigger] children@[j])) && label@
                == upper_camel_of(spec_module_ident(children@[i])),
{
    if !is_identifier(group_ident.as_str()) {
        return Err(ComposeError::InvalidIdentifier(InvalidIdentifierError(group_ident)));
    }
    let n = children.len();
    if n == 0 {
        return Err(
            ComposeError::InvalidIdentifierList(
                InvalidIdentifierListError {
                    message: "subcommands only accepts lists of identifiers",
                    err: "the subcommand list is empty".to_owned(),
                },
            ),
        );
    }
    let mut labels: Vec<String> = Vec::new();
    let mut i: usize = 0;
    while i < n
        invariant
            0 <= i <= n,
            labels@.len() == i,
            forall|k: int|
                0 <= k < i ==> (#[trigger] labels@[k])@ == upper_camel_of(
                    spec_module_ident(children@[k]),
                ),
        decreases n - i,
    {
        labels.push(get_command_name(module_ident(&children[i]).as_str()));
        i += 1;
    }
    let mut a: usize = 1;
    while a < n
        invariant
            1 <= a <= n,
            forall|x: int, y: int|
                0 <= x < y < a ==> (#[trigger] labels@[x])@ != (#[trigger] labels@[y])@,
        decreases n - a,
    {
        let mut b: usize = 0;
        while b < a
            invariant
                0 <= b <= a,
                forall|x: int| 0 <= x < b ==> (#[trigger] labels@[x])@ != labels@[a as int]@,
            decreases a - b,
        {
            if labels[b].eq(&labels[a]) {
                return Err(ComposeError::DuplicateVariant { label: labels[a].clone() });
            }
            b += 1;
        }
        a += 1;
    }
    proof {
        assert forall|x: int, y: int| 0 <= x < y < children@.len() implies upper_camel_of(
            spec_module_ident(#[trigger] children@[x]),
        ) != upper_camel_of(spec_module_ident(#[trigger] children@[y])) by {
            assert(labels@[x]@ != labels@[y]@);
        }
        assert(spec_labels_unique(children@));
    }
    let ghost orig = children@;
    let mut rem = children;
    let mut labs = labels;
    let mut variants: Vec<Variant<Op>> = Vec::new();
    while rem.len() > 0
        invariant
            variants@.len() + rem@.len() == orig.len(),
            rem@ == orig.skip(variants@.len() as int),
            labs@.len() == rem@.len(),
            forall|k: int|
                0 <= k < labs@.len() ==> (#[trigger] labs@[k])@ == upper_camel_of(
                    spec_module_ident(orig[variants@.len() + k]),
                ),
            spec_variants_of(orig.take(variants@.len() as int), variants@),
        decreases rem@.len(),
    {
        let ghost done = variants@.len() as int;
        let m = rem.remove(0);
        let lab = labs.remove(0);
        let d = clone_strings(module_docs(&m));
        variants.push(Variant { label: lab, docs: d, module: m });
        proof {
            assert(orig.skip(done)[0] == orig[done]);
            assert(rem@ =~= orig.skip(done + 1));
            assert(orig.take(done + 1) =~= orig.take(done).push(orig[done]));
        }
    }
    proof {
        assert(orig.take(orig.len() as int) =~= orig);
    }
    Ok(CommandModule::Group { ident: group_ident, docs, variants })
}

/// The first position at or after `k` of a module whose identifier is
/// `name`; negative when there is none.
pub open spec fn spec_find<Op>(avail: Seq<CommandModule<Op>>, name: Seq<char>, k: int) -> int
    decreases avail.len() - k,
{
    if 0 <= k < avail.len() {
        if spec_module_ident(avail[k]) == name {
            k
        } else {
            spec_find(avail, name, k + 1)
        }
    } else {
        -1
    }
}

/// Finding is unmoved by a prefix of modules whose identifiers all differ
/// from the sought name.
proof fn lemma_find_skip<Op>(avail: Seq<CommandModule<Op>>, name: Seq<char>, k: int, i: int)
    requires
        0 <= k <= i <= avail.len(),
        forall|j: int| k <= j < i ==> spec_module_ident(#[trigger] avail[j]) != name,
    ensures
        spec_find(avail, name, k) == spec_find(avail, name, i),
    decreases i - k,
{
    if k < i {
        lemma_find_skip(avail, name, k + 1, i);
    }
}

/// The modules that the child identifiers reference, in list order, each
/// referenced module consumed once; `None` when some identifier references
/// no remaining module.
pub open spec fn spec_resolve<Op>(
    avail: Seq<CommandModule<Op>>,
    names: Seq<Seq<char>>,
) -> Option<Seq<CommandModule<Op>>>
    decreases names.len(),
{
    if names.len() == 0 {
        Some(Seq::empty())
    } else {
        let idx = spec_find(avail, names[0], 0);
        if idx < 0 {
            None
        } else {
            match spec_resolve(avail.remove(idx), names.drop_first()) {
                None => None,
                Some(rest) => Some(seq![avail[idx]] + rest),
            }
        }
    }
}

/// Takes, for each child identifier in order, the first remaining module of
/// that name out of `avail`; the error carries an identifier that
/// references no module.
#[verifier::loop_isolation(false)]
fn resolve<Op>(avail: Vec<CommandModule<Op>>, names: Vec<String>) -> (r: Result<
    Vec<CommandModule<Op>>,
    String,
>)
    ensures
        r is Ok <==> spec_resolve(avail@, seq_views(names@)) is Some,
        r is Ok ==> r->Ok_0@ == spec_resolve(avail@, seq_views(names@))->0,
    decreases names@.len(),
{
    if names.len() == 0 {
        let v: Vec<CommandModule<Op>> = Vec::new();
        proof {
            assert(seq_views(names@) =~= Seq::<Seq<char>>::empty());
        }
        return Ok(v);
    }
    let mut rest_names = names;
    let name = rest_names.remove(0);
    proof {
        assert(seq_views(rest_names@) =~= seq_views(names@).drop_first());
        assert(seq_views(names@)[0] == name@);
    }
    let n = avail.len();
    let mut i: usize = 0;
    while i < n
        invariant
            0 <= i <= n,
            forall|k: int| 0 <= k < i ==> spec_module_ident(#[trigger] avail@[k]) != name@,
        decreases n - i,
    {
        if module_ident(&avail[i]).eq(&name) {
            proof {
                lemma_find_skip(avail@, name@, 0, i as int);
            }
            let mut rem = avail;
            let m = rem.remove(i);
            match resolve(rem, rest_names) {
                Ok(found) => {
                    let mut children = found;
                    children.insert(0, m);
                    proof {
                        assert(children@ =~= seq![avail@[i as int]]
                            + spec_resolve(rem@, seq_views(rest_names@))->0);
                    }
                    return Ok(children);
                },
                Err(e) => {
                    return Err(e);
                },
            }
        }
        i += 1;
    }
    proof {
        lemma_find_skip(avail@, name@, 0, n as int);
    }
    Err(name)
}

/// Composes a group module from a raw composer input — an identifier, a
/// comma, and a bracketed comma-separated list of identifiers — and the
/// already-built modules those identifiers reference, each consumed once.
///
/// An input of any other shape, and an identifier that references no
/// module, fail with `InvalidIdentifierList`; the referenced modules are
/// then composed exactly as `compose` does.
pub fn subcommands<Op>(input: &str, available: Vec<CommandModule<Op>>, docs: Vec<String>) -> (r:
    Result<CommandModule<Op>, ComposeError>)
    ensures
        spec_parse_compose(input@) is None ==> r matches Err(
            ComposeError::InvalidIdentifierList(_),
        ),
        spec_parse_compose(input@) is Some ==> !(r matches Err(ComposeError::InvalidIdentifier(_))),
        spec_parse_compose(input@) is Some ==> {
            let gid = spec_compose_ident(input@);
            let names = spec_compose_children(input@);
            &&& (spec_resolve(available@, names) is None ==> r matches Err(
                ComposeError::InvalidIdentifierList(_),
            ))
            &&& match spec_resolve(available@, names) {
                None => true,
                Some(children) => {
                    &&& (r is Ok <==> spec_group_ok(gid, children))
                    &&& (r is Ok ==> (r->Ok_0 matches CommandModule::Group {
                        ident,
                        docs: d,
                        variants,
                    } && {
                        &&& ident@ == gid
                        &&& d == docs
                        &&& spec_variants_of(children, variants@)
                    }))
                    &&& (r matches Err(ComposeError::DuplicateVariant { label }) ==> exists|
                        i: int,
                        j: int,
                    |
                        0 <= i < j < children.len() && upper_camel_of(
                            spec_module_ident(#[trigger] children[i]),
                        ) == upper_camel_of(spec_module_ident(#[trigger] children[j])) && label@
                            == upper_camel_of(spec_module_ident(children[i])))
                },
            }
        },
{
    match parse_compose_input(input) {
        None => Err(
            ComposeError::InvalidIdentifierList(
                InvalidIdentifierListError {
                    message: "subcommands only accepts lists of identifiers",
                    err: input.to_owned(),
                },
            ),
        ),
        Some(pair) => {
            let (g, names) = pair;
            match resolve(available, names) {
                Err(unknown) => Err(
                    ComposeError::InvalidIdentifierList(
                        InvalidIdentifierListError {
                            message: "subcommands only accepts lists of identifiers",
                            err: unknown,
                        },
                    ),
                ),
                Ok(children) => {
                    proof {
                        lemma_parse_compose_idents(input@);
                    }
                    compose(g, children, docs)
                },
            }
        },
    }
}

} // verus!
