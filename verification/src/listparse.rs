//! The composer's input parser. The accepted shape is exactly: an
//! identifier, a comma, and a bracketed comma-separated list of identifiers,
//! with whitespace between tokens and an optional trailing comma in the
//! list. Anything else is rejected.
use crate::ident::{
    char_is_ident_char, char_is_ident_start, is_ident_char, is_ident_start, spec_is_identifier,
};
use vstd::prelude::*;

verus! {

/// An ASCII whitespace character accepted between tokens.
pub open spec fn is_ws(c: char) -> bool {
    c == ' ' || c == '\t' || c == '\n' || c == '\r'
}

/// The first position at or after `i` that does not hold whitespace.
pub open spec fn spec_skip_ws(s: Seq<char>, i: int) -> int
    decreases s.len() - i,
{
    if 0 <= i < s.len() && is_ws(s[i]) {
        spec_skip_ws(s, i + 1)
    } else {
        i
    }
}

/// The end of the run of identifier characters that starts at `i`.
pub open spec fn spec_scan_ident(s: Seq<char>, i: int) -> int
    decreases s.len() - i,
{
    if 0 <= i < s.len() && is_ident_char(s[i]) {
        spec_scan_ident(s, i + 1)
    } else {
        i
    }
}

/// Skipping whitespace stays within the text and never moves backwards.
pub proof fn lemma_skip_ws_bounds(s: Seq<char>, i: int)
    requires
        0 <= i <= s.len(),
    ensures
        i <= spec_skip_ws(s, i) <= s.len(),
    decreases s.len() - i,
{
    if i < s.len() && is_ws(s[i]) {
        lemma_skip_ws_bounds(s, i + 1);
    }
}

/// Scanning an identifier stays within the text, never moves backwards, and
/// covers identifier characters only.
pub proof fn lemma_scan_ident_bounds(s: Seq<char>, i: int)
    requires
        0 <= i <= s.len(),
    ensures
        i <= spec_scan_ident(s, i) <= s.len(),
        forall|j: int| i <= j < spec_scan_ident(s, i) ==> is_ident_char(#[trigger] s[j]),
    decreases s.len() - i,
{
    if i < s.len() && is_ident_char(s[i]) {
        lemma_scan_ident_bounds(s, i + 1);
    }
}

/// The bracketed list's items from position `i` on: the identifiers read
/// until the closing bracket, and the position just after that bracket;
/// `None` when the text from `i` is not a comma-separated identifier list
/// closed by a bracket.
pub open spec fn spec_parse_items(s: Seq<char>, i: int) -> Option<(Seq<Seq<char>>, int)>
    decreases s.len() - i,
    via spec_parse_items_decreases
{
    let j = spec_skip_ws(s, i);
    if j < s.len() && s[j] == ']' {
        Some((Seq::empty(), j + 1))
    } else {
        let k = spec_scan_ident(s, j);
        if k == j || !is_ident_start(s[j]) {
            None
        } else {
            let id = s.subrange(j, k);
            let l = spec_skip_ws(s, k);
            if l < s.len() && s[l] == ']' {
                Some((seq![id], l + 1))
            } else if l < s.len() && s[l] == ',' {
                match spec_parse_items(s, l + 1) {
                    None => None,
                    Some((rest, p)) => Some((seq![id] + rest, p)),
                }
            } else {
                None
            }
        }
    }
}

#[via_fn]
proof fn spec_parse_items_decreases(s: Seq<char>, i: int) {
    if 0 <= i <= s.len() {
        lemma_skip_ws_bounds(s, i);
        let j = spec_skip_ws(s, i);
        lemma_scan_ident_bounds(s, j);
        let k = spec_scan_ident(s, j);
        if j <= k <= s.len() {
            lemma_skip_ws_bounds(s, k);
        }
    }
}

/// What a whole composer input parses to: the group identifier and the
/// child identifiers, in order; `None` when the text does not have the
/// required shape.
pub open spec fn spec_parse_compose(s: Seq<char>) -> Option<(Seq<char>, Seq<Seq<char>>)> {
    let i0 = spec_skip_ws(s, 0);
    let i1 = spec_scan_ident(s, i0);
    if i1 == i0 || !is_ident_start(s[i0]) {
        None
    } else {
        let g = s.subrange(i0, i1);
        let i2 = spec_skip_ws(s, i1);
        if !(i2 < s.len() && s[i2] == ',') {
            None
        } else {
            let i3 = spec_skip_ws(s, i2 + 1);
            if !(i3 < s.len() && s[i3] == '[') {
                None
            } else {
                match spec_parse_items(s, i3 + 1) {
                    None => None,
                    Some((items, p)) => {
                        if spec_skip_ws(s, p) == s.len() {
                            Some((g, items))
                        } else {
                            None
                        }
                    },
                }
            }
        }
    }
}

/// The identifiers of a parsed item list.
pub open spec fn spec_items(s: Seq<char>, i: int) -> Seq<Seq<char>> {
    (spec_parse_items(s, i)->0).0
}

/// The position just after a parsed item list's closing bracket.
pub open spec fn spec_items_end(s: Seq<char>, i: int) -> int {
    (spec_parse_items(s, i)->0).1
}

/// The group identifier of a parsed composer input.
pub open spec fn spec_compose_ident(s: Seq<char>) -> Seq<char> {
    (spec_parse_compose(s)->0).0
}

/// The child identifiers of a parsed composer input, in order.
pub open spec fn spec_compose_children(s: Seq<char>) -> Seq<Seq<char>> {
    (spec_parse_compose(s)->0).1
}

/// Every identifier the parser yields is a bare name.
pub proof fn lemma_parse_items_idents(s: Seq<char>, i: int)
    requires
        0 <= i <= s.len(),
        spec_parse_items(s, i) is Some,
    ensures
        forall|x: int|
            0 <= x < spec_items(s, i).len() ==> spec_is_identifier(#[trigger] spec_items(s, i)[x]),
        i <= spec_items_end(s, i) <= s.len(),
    decreases s.len() - i,
{
    lemma_skip_ws_bounds(s, i);
    let j = spec_skip_ws(s, i);
    if j < s.len() && s[j] == ']' {
    } else {
        lemma_scan_ident_bounds(s, j);
        let k = spec_scan_ident(s, j);
        let id = s.subrange(j, k);
        assert(spec_is_identifier(id));
        let l = spec_skip_ws(s, k);
        lemma_skip_ws_bounds(s, k);
        if l < s.len() && s[l] == ']' {
        } else {
            lemma_parse_items_idents(s, l + 1);
            let rest = spec_items(s, l + 1);
            assert(forall|x: int|
                0 <= x < spec_items(s, i).len() ==> spec_items(s, i)[x] == if x == 0 {
                    id
                } else {
                    rest[x - 1]
                });
        }
    }
}

/// The group identifier and every child identifier of a parsed composer
/// input are bare names.
pub proof fn lemma_parse_compose_idents(s: Seq<char>)
    requires
        spec_parse_compose(s) is Some,
    ensures
        spec_is_identifier(spec_compose_ident(s)),
        forall|x: int|
            0 <= x < spec_compose_children(s).len() ==> spec_is_identifier(
                #[trigger] spec_compose_children(s)[x],
            ),
{
    lemma_skip_ws_bounds(s, 0);
    let i0 = spec_skip_ws(s, 0);
    lemma_scan_ident_bounds(s, i0);
    let i1 = spec_scan_ident(s, i0);
    assert(spec_is_identifier(s.subrange(i0, i1)));
    lemma_skip_ws_bounds(s, i1);
    let i2 = spec_skip_ws(s, i1);
    lemma_skip_ws_bounds(s, i2 + 1);
    let i3 = spec_skip_ws(s, i2 + 1);
    lemma_parse_items_idents(s, i3 + 1);
    assert forall|x: int|
        0 <= x < spec_compose_children(s).len() implies spec_is_identifier(
        #[trigger] spec_compose_children(s)[x],
    ) by {
        assert(spec_compose_children(s)[x] == spec_items(s, i3 + 1)[x]);
    }
}

/// The views of a sequence of strings.
pub open spec fn seq_views(ss: Seq<String>) -> Seq<Seq<char>> {
    ss.map_values(|x: String| x@)
}

/// Moves past whitespace.
fn skip_ws(s: &str, i: usize) -> (r: usize)
    requires
        i <= s@.len(),
    ensures
        r == spec_skip_ws(s@, i as int),
        i <= r <= s@.len(),
    decreases s@.len() - i,
{
    let n = s.unicode_len();
    if i < n {
        let c = s.get_char(i);
        if c == ' ' || c == '\t' || c == '\n' || c == '\r' {
            return skip_ws(s, i + 1);
        }
    }
    i
}

/// Moves past identifier characters.
fn scan_ident(s: &str, i: usize) -> (r: usize)
    requires
        i <= s@.len(),
    ensures
        r == spec_scan_ident(s@, i as int),
        i <= r <= s@.len(),
    decreases s@.len() - i,
{
    let n = s.unicode_len();
    if i < n && char_is_ident_char(s.get_char(i)) {
        return scan_ident(s, i + 1);
    }
    i
}

/// Reads the bracketed list's items from position `i` on; `None` exactly
/// when the text from `i` is not a comma-separated identifier list closed
/// by a bracket.
fn parse_items(s: &str, i: usize) -> (r: Option<(Vec<String>, usize)>)
    requires
        i <= s@.len(),
    ensures
        r is Some <==> spec_parse_items(s@, i as int) is Some,
        r is Some ==> {
            &&& seq_views((r->0).0@) == spec_items(s@, i as int)
            &&& (r->0).1 == spec_items_end(s@, i as int)
            &&& (r->0).1 <= s@.len()
        },
    decreases s@.len() - i,
{
    let n = s.unicode_len();
    let j = skip_ws(s, i);
    if j < n && s.get_char(j) == ']' {
        let v: Vec<String> = Vec::new();
        proof {
            assert(seq_views(v@) =~= Seq::<Seq<char>>::empty());
        }
        return Some((v, j + 1));
    }
    let k = scan_ident(s, j);
    if k == j || !char_is_ident_start(s.get_char(j)) {
        return None;
    }
    let id = s.substring_char(j, k).to_owned();
    let l = skip_ws(s, k);
    if l < n && s.get_char(l) == ']' {
        let mut v: Vec<String> = Vec::new();
        v.push(id);
        proof {
            assert(seq_views(v@) =~= seq![s@.subrange(j as int, k as int)]);
        }
        return Some((v, l + 1));
    }
    if l < n && s.get_char(l) == ',' {
        match parse_items(s, l + 1) {
            None => None,
            Some(pair) => {
                let (rest, p) = pair;
                let ghost rest0 = rest@;
                let mut v = rest;
                v.insert(0, id);
                proof {
                    assert(seq_views(v@) =~= seq![s@.subrange(j as int, k as int)] + seq_views(
                        rest0,
                    ));
                }
                Some((v, p))
            },
        }
    } else {
        None
    }
}

/// Reads a whole composer input: the group identifier and the bracketed
/// child identifier list. `None` exactly when the text does not have that
/// shape.
pub fn parse_compose_input(s: &str) -> (r: Option<(String, Vec<String>)>)
    ensures
        r is Some <==> spec_parse_compose(s@) is Some,
        r is Some ==> {
            &&& (r->0).0@ == spec_compose_ident(s@)
            &&& seq_views((r->0).1@) == spec_compose_children(s@)
        },
{
    let n = s.unicode_len();
    let i0 = skip_ws(s, 0);
    let i1 = scan_ident(s, i0);
    if i1 == i0 || !char_is_ident_start(s.get_char(i0)) {
        return None;
    }
    let g = s.substring_char(i0, i1).to_owned();
    let i2 = skip_ws(s, i1);
    if !(i2 < n && s.get_char(i2) == ',') {
        return None;
    }
    let i3 = skip_ws(s, i2 + 1);
    if !(i3 < n && s.get_char(i3) == '[') {
        return None;
    }
    match parse_items(s, i3 + 1) {
        None => None,
        Some(pair) => {
            let (items, p) = pair;
            if skip_ws(s, p) == n {
                Some((g, items))
            } else {
                None
            }
        },
    }
}

} // verus!
