//! The widget trees that the inspector shows: every node is known by its
//! value id, an empty text standing in for a node that has none.
use crate::devtools::flutter_extension::DiagnosticNode;
use crate::navigation::{next_id, previous_id, selection_after_next, selection_after_previous};
use crate::text::string_views;
use vstd::prelude::*;

verus! {

/// The id of a node of the tree.
pub open spec fn id_of(node: DiagnosticNode) -> Seq<char> {
    match node.value_id {
        Some(id) => id@,
        None => Seq::empty(),
    }
}

/// The number of children of a node.
pub open spec fn child_count(node: DiagnosticNode) -> int {
    match node.children {
        Some(cs) => cs@.len() as int,
        None => 0,
    }
}

/// The ids of a node and all the nodes below it.
pub open spec fn subtree_ids(node: DiagnosticNode) -> Set<Seq<char>>
    decreases node, child_count(node) + 1,
{
    set![id_of(node)].union(children_ids(node, child_count(node)))
}

/// The ids in the subtrees of the first `k` children of `node`.
pub open spec fn children_ids(node: DiagnosticNode, k: int) -> Set<Seq<char>>
    decreases node, k,
{
    match node.children {
        Some(cs) => if 0 < k <= cs@.len() {
            proof {
                assert(decreases_to!(node => node.children));
            }
            children_ids(node, k - 1).union(subtree_ids(cs@[k - 1]))
        } else {
            Set::empty()
        },
        None => Set::empty(),
    }
}

/// Whether some entry of `v` reads `x`.
pub open spec fn has(v: Seq<String>, x: Seq<char>) -> bool {
    exists|i: int| 0 <= i < v.len() && (#[trigger] v[i])@ == x
}

/// No two entries of `v` read the same.
pub open spec fn distinct(v: Seq<String>) -> bool {
    forall|i: int, j: int| 0 <= i < j < v.len() ==> (#[trigger] v[i])@ != (#[trigger] v[j])@
}

fn id_string(node: &DiagnosticNode) -> (s: String)
    ensures
        s@ == id_of(*node),
{
    match &node.value_id {
        Some(id) => id.clone(),
        None => String::new(),
    }
}

fn contains_string(v: &Vec<String>, s: &String) -> (b: bool)
    ensures
        b == has(v@, s@),
{
    let mut i: usize = 0;
    while i < v.len()
        invariant
            i <= v.len(),
            forall|j: int| 0 <= j < i ==> (#[trigger] v@[j])@ != s@,
        decreases v.len() - i,
    {
        if v[i] == *s {
            assert(v@[i as int]@ == s@);
            return true;
        }
        i += 1;
    }
    false
}

fn insert_unique(out: &mut Vec<String>, s: String)
    requires
        distinct(old(out)@),
    ensures
        distinct(final(out)@),
        forall|x: Seq<char>| #[trigger] has(final(out)@, x) <==> (has(old(out)@, x) || x == s@),
{
    if !contains_string(out, &s) {
        let ghost before = out@;
        let ghost sv = s@;
        out.push(s);
        proof {
            assert forall|x: Seq<char>| has(out@, x) <==> (has(before, x) || x == sv) by {
                if has(out@, x) {
                    let i = choose|i: int| 0 <= i < out@.len() && (#[trigger] out@[i])@ == x;
                    if i < before.len() {
                        assert(before[i] == out@[i]);
                    }
                }
                if has(before, x) {
                    let i = choose|i: int| 0 <= i < before.len() && (#[trigger] before[i])@ == x;
                    assert(out@[i] == before[i]);
                }
                if x == sv {
                    assert(out@[before.len() as int]@ == sv);
                }
            }
        }
    }
}

fn collect_ids(node: &DiagnosticNode, out: &mut Vec<String>)
    requires
        distinct(old(out)@),
    ensures
        distinct(final(out)@),
        forall|x: Seq<char>|
            #[trigger] has(final(out)@, x) <==> (has(old(out)@, x) || subtree_ids(*node).contains(x)),
    decreases node,
{
    let ghost start = out@;
    insert_unique(out, id_string(node));
    match &node.children {
        Some(cs) => {
            let mut i: usize = 0;
            while i < cs.len()
                invariant
                    node.children == Some(*cs),
                    i <= cs.len(),
                    distinct(out@),
                    forall|x: Seq<char>|
                        #[trigger] has(out@, x) <==> (has(start, x) || x == id_of(*node) || children_ids(
                            *node,
                            i as int,
                        ).contains(x)),
                decreases cs.len() - i,
            {
                proof {
                    assert(decreases_to!(*node => node.children));
                    assert(decreases_to!(node.children => node.children->0));
                    assert(decreases_to!(*cs => cs@));
                    assert(decreases_to!(cs@ => cs@[i as int]));
                    assert(decreases_to!(*node => cs@[i as int]));
                }
                let ghost mid = out@;
                collect_ids(&cs[i], out);
                proof {
                    assert(children_ids(*node, i + 1) == children_ids(*node, i as int).union(
                        subtree_ids(cs@[i as int]),
                    ));
                    assert forall|x: Seq<char>|
                        has(out@, x) <==> (has(start, x) || x == id_of(*node) || children_ids(
                            *node,
                            i + 1,
                        ).contains(x)) by {}
                }
                i += 1;
            }
            assert(child_count(*node) == cs.len());
            assert forall|x: Seq<char>|
                has(out@, x) <==> (has(start, x) || subtree_ids(*node).contains(x)) by {}
        },
        None => {
            assert(children_ids(*node, child_count(*node)) =~= Set::empty());
            assert forall|x: Seq<char>|
                has(out@, x) <==> (has(start, x) || subtree_ids(*node).contains(x)) by {}
        },
    }
}

/// The ids of all the nodes of the tree under `node`, each once.
pub fn all_ids(node: &DiagnosticNode) -> (ids: Vec<String>)
    ensures
        distinct(ids@),
        forall|x: Seq<char>| #[trigger] has(ids@, x) <==> subtree_ids(*node).contains(x),
{
    let mut ids: Vec<String> = Vec::new();
    collect_ids(node, &mut ids);
    ids
}

/// How many properties of `node` the drawn tree shows: all of them when
/// `with_properties`, else none.
pub open spec fn prop_count(node: DiagnosticNode, with_properties: bool) -> int {
    if with_properties {
        match node.properties {
            Some(ps) => ps@.len() as int,
            None => 0,
        }
    } else {
        0
    }
}

/// How many nodes hang under `node` in the drawn tree: its properties, when
/// `with_properties`, then its children.
pub open spec fn kid_count(node: DiagnosticNode, with_properties: bool) -> int {
    prop_count(node, with_properties) + child_count(node)
}

/// The `k`-th node under `node` in the drawn tree.
pub open spec fn kid(node: DiagnosticNode, with_properties: bool, k: int) -> DiagnosticNode {
    let p = prop_count(node, with_properties);
    if k < p {
        node.properties->0@[k]
    } else {
        node.children->0@[k - p]
    }
}

/// The ids of the lines of the drawn tree under `node`, top to bottom: the
/// node itself, then, when it is open, the lines of each node under it.
pub open spec fn visible_ids(node: DiagnosticNode, opened: Set<Seq<char>>, with_properties: bool) -> Seq<
    Seq<char>,
>
    decreases node, kid_count(node, with_properties) + 1,
{
    seq![id_of(node)] + if opened.contains(id_of(node)) {
        kid_lines(node, opened, with_properties, kid_count(node, with_properties))
    } else {
        Seq::empty()
    }
}

/// The lines of the first `k` nodes under `node`.
pub open spec fn kid_lines(node: DiagnosticNode, opened: Set<Seq<char>>, with_properties: bool, k: int) -> Seq<
    Seq<char>,
>
    decreases node, k,
{
    if 0 < k <= kid_count(node, with_properties) {
        proof {
            let p = prop_count(node, with_properties);
            if k - 1 < p {
                assert(decreases_to!(node => node.properties));
                assert(decreases_to!(node => kid(node, with_properties, k - 1)));
            } else {
                assert(decreases_to!(node => node.children));
                assert(decreases_to!(node => kid(node, with_properties, k - 1)));
            }
        }
        kid_lines(node, opened, with_properties, k - 1) + visible_ids(
            kid(node, with_properties, k - 1),
            opened,
            with_properties,
        )
    } else {
        Seq::empty()
    }
}

/// The ids that `opened` holds, as a set.
pub open spec fn open_set(opened: Seq<String>) -> Set<Seq<char>> {
    Set::new(|x: Seq<char>| has(opened, x))
}

fn push_view(out: &mut Vec<String>, s: String)
    ensures
        string_views(final(out)@) == string_views(old(out)@).push(s@),
{
    let ghost before = out@;
    let ghost sv = s@;
    out.push(s);
    assert(string_views(out@) =~= string_views(before).push(sv));
}

fn collect_visible(node: &DiagnosticNode, opened: &Vec<String>, with_properties: bool, out: &mut Vec<String>)
    ensures
        string_views(final(out)@) == string_views(old(out)@) + visible_ids(*node, open_set(opened@), with_properties),
    decreases node,
{
    let ghost set = open_set(opened@);
    let ghost start = string_views(out@);
    let id = id_string(node);
    let open = contains_string(opened, &id);
    assert(open == set.contains(id_of(*node)));
    push_view(out, id);
    let ghost base = string_views(out@);
    assert(base == start + seq![id_of(*node)]);
    if !open {
        assert(string_views(out@) =~= start + visible_ids(*node, set, with_properties));
        return;
    }
    let ghost p = prop_count(*node, with_properties);
    assert(string_views(out@) =~= base + kid_lines(*node, set, with_properties, 0));
    if with_properties {
        if let Some(ps) = &node.properties {
            let mut i: usize = 0;
            while i < ps.len()
                invariant
                    node.properties == Some(*ps),
                    with_properties,
                    p == ps@.len(),
                    i <= ps.len(),
                    set == open_set(opened@),
                    string_views(out@) == base + kid_lines(*node, set, with_properties, i as int),
                decreases ps.len() - i,
            {
                proof {
                    assert(decreases_to!(*node => node.properties));
                    assert(decreases_to!(node.properties => node.properties->0));
                    assert(decreases_to!(*ps => ps@));
                    assert(decreases_to!(ps@ => ps@[i as int]));
                    assert(decreases_to!(*node => ps@[i as int]));
                }
                let ghost before = string_views(out@);
                collect_visible(&ps[i], opened, with_properties, out);
                proof {
                    assert(kid(*node, with_properties, i as int) == ps@[i as int]);
                    assert(kid_lines(*node, set, with_properties, i + 1) == kid_lines(
                        *node,
                        set,
                        with_properties,
                        i as int,
                    ) + visible_ids(ps@[i as int], set, with_properties));
                    assert(string_views(out@) =~= base + kid_lines(*node, set, with_properties, i + 1));
                }
                i += 1;
            }
        }
    }
    assert(string_views(out@) == base + kid_lines(*node, set, with_properties, p));
    if let Some(cs) = &node.children {
        let mut j: usize = 0;
        while j < cs.len()
            invariant
                node.children == Some(*cs),
                p == prop_count(*node, with_properties),
                j <= cs.len(),
                set == open_set(opened@),
                string_views(out@) == base + kid_lines(*node, set, with_properties, p + j),
            decreases cs.len() - j,
        {
            proof {
                assert(decreases_to!(*node => node.children));
                assert(decreases_to!(node.children => node.children->0));
                assert(decreases_to!(*cs => cs@));
                assert(decreases_to!(cs@ => cs@[j as int]));
                assert(decreases_to!(*node => cs@[j as int]));
            }
            collect_visible(&cs[j], opened, with_properties, out);
            proof {
                assert(kid(*node, with_properties, p + j) == cs@[j as int]);
                assert(kid_lines(*node, set, with_properties, p + j + 1) == kid_lines(
                    *node,
                    set,
                    with_properties,
                    p + j,
                ) + visible_ids(cs@[j as int], set, with_properties));
                assert(string_views(out@) =~= base + kid_lines(*node, set, with_properties, p + j + 1));
            }
            j += 1;
        }
    }
    assert(kid_count(*node, with_properties) == p + child_count(*node));
    assert(string_views(out@) =~= start + visible_ids(*node, set, with_properties));
}

/// The ids of the lines of the tree under `node` as it is drawn, top to
/// bottom, when the nodes whose ids `opened` holds are open; with
/// `with_properties`, the properties of a node come before its children.
pub fn visible_line_ids(node: &DiagnosticNode, opened: &Vec<String>, with_properties: bool) -> (ids: Vec<
    String,
>)
    ensures
        string_views(ids@) == visible_ids(*node, open_set(opened@), with_properties),
{
    let mut ids: Vec<String> = Vec::new();
    assert(string_views(ids@) =~= Seq::empty());
    collect_visible(node, opened, with_properties, &mut ids);
    assert(string_views(ids@) =~= visible_ids(*node, open_set(opened@), with_properties));
    ids
}

/// The open nodes after opening or closing the node `id`: it closes when it
/// was open, and opens when it was closed.
pub open spec fn toggled(open: Set<Seq<char>>, id: Seq<char>) -> Set<Seq<char>> {
    if open.contains(id) {
        open.remove(id)
    } else {
        open.insert(id)
    }
}

/// Opens the node `id` when it is closed, closes it when it is open.
pub fn toggle_open(opened: &mut Vec<String>, id: &String)
    ensures
        open_set(final(opened)@) == toggled(open_set(old(opened)@), id@),
{
    let ghost start = open_set(opened@);
    if contains_string(opened, id) {
        let mut kept: Vec<String> = Vec::new();
        let mut i: usize = 0;
        while i < opened.len()
            invariant
                i <= opened.len(),
                forall|x: Seq<char>|
                    #[trigger] has(kept@, x) <==> (x != id@ && has(opened@.take(i as int), x)),
            decreases opened.len() - i,
        {
            let ghost before = kept@;
            if opened[i] != *id {
                kept.push(opened[i].clone());
            }
            proof {
                let t = opened@.take(i + 1);
                assert(t =~= opened@.take(i as int).push(opened@[i as int]));
                assert forall|x: Seq<char>|
                    #[trigger] has(kept@, x) <==> (x != id@ && has(t, x)) by {
                    if has(t, x) {
                        let k = choose|k: int| 0 <= k < t.len() && (#[trigger] t[k])@ == x;
                        if k < i {
                            assert(opened@.take(i as int)[k] == t[k]);
                        }
                    }
                    if has(opened@.take(i as int), x) {
                        let k = choose|k: int|
                            0 <= k < opened@.take(i as int).len() && (#[trigger] opened@.take(
                                i as int,
                            )[k])@ == x;
                        assert(t[k] == opened@.take(i as int)[k]);
                    }
                    if has(kept@, x) {
                        let k = choose|k: int| 0 <= k < kept@.len() && (#[trigger] kept@[k])@ == x;
                        if k < before.len() {
                            assert(before[k] == kept@[k]);
                        }
                    }
                    if has(before, x) {
                        let k = choose|k: int| 0 <= k < before.len() && (#[trigger] before[k])@ == x;
                        assert(kept@[k] == before[k]);
                    }
                    if x != id@ && t[i as int]@ == x {
                        assert(kept@[kept@.len() - 1]@ == x);
                    }
                }
            }
            i += 1;
        }
        proof {
            assert(opened@.take(opened@.len() as int) =~= opened@);
            assert(open_set(kept@) =~= toggled(start, id@));
        }
        *opened = kept;
    } else {
        let ghost before = opened@;
        opened.push(id.clone());
        proof {
            assert forall|x: Seq<char>| #[trigger] has(opened@, x) <==> (has(before, x) || x == id@) by {
                if has(opened@, x) {
                    let k = choose|k: int| 0 <= k < opened@.len() && (#[trigger] opened@[k])@ == x;
                    if k < before.len() {
                        assert(before[k] == opened@[k]);
                    }
                }
                if has(before, x) {
                    let k = choose|k: int| 0 <= k < before.len() && (#[trigger] before[k])@ == x;
                    assert(opened@[k] == before[k]);
                }
                if x == id@ {
                    assert(opened@[before.len() as int]@ == x);
                }
            }
            assert(open_set(opened@) =~= toggled(start, id@));
        }
    }
}

/// Opening or closing the same node twice leaves the open nodes as they
/// were.
pub proof fn lemma_toggle_twice(open: Set<Seq<char>>, id: Seq<char>)
    ensures
        toggled(toggled(open, id), id) == open,
{
    assert(toggled(toggled(open, id), id) =~= open);
}

proof fn lemma_kid_lines_cover(node: DiagnosticNode, open: Set<Seq<char>>, k: int)
    requires
        0 <= k <= child_count(node),
        forall|x: Seq<char>| children_ids(node, k).contains(x) ==> open.contains(x),
    ensures
        forall|x: Seq<char>|
            kid_lines(node, open, false, k).contains(x) <==> children_ids(node, k).contains(x),
    decreases node, k,
{
    broadcast use vstd::seq_lib::lemma_seq_concat_contains_all_elements;
    if k > 0 {
        let c = kid(node, false, k - 1);
        assert(c == node.children->0@[k - 1]);
        assert(decreases_to!(node => node.children));
        assert(decreases_to!(node => c));
        assert(children_ids(node, k) == children_ids(node, k - 1).union(subtree_ids(c)));
        lemma_kid_lines_cover(node, open, k - 1);
        lemma_visible_covers(c, open);
        assert(kid_lines(node, open, false, k) == kid_lines(node, open, false, k - 1)
            + visible_ids(c, open, false));
    } else {
        assert(kid_lines(node, open, false, 0) =~= Seq::empty());
        assert(children_ids(node, 0) =~= Set::empty());
    }
}

/// When every node of the tree is open, as the inspector makes them before
/// it first draws the tree, the drawn tree shows the ids of all its nodes
/// and no others.
pub proof fn lemma_visible_covers(node: DiagnosticNode, open: Set<Seq<char>>)
    requires
        forall|x: Seq<char>| subtree_ids(node).contains(x) ==> open.contains(x),
    ensures
        forall|x: Seq<char>|
            visible_ids(node, open, false).contains(x) <==> subtree_ids(node).contains(x),
    decreases node, child_count(node) + 1,
{
    broadcast use vstd::seq_lib::lemma_seq_concat_contains_all_elements;
    let n = child_count(node);
    assert(subtree_ids(node) == set![id_of(node)].union(children_ids(node, n)));
    assert(subtree_ids(node).contains(id_of(node)));
    assert(open.contains(id_of(node)));
    assert(kid_count(node, false) == n);
    assert(visible_ids(node, open, false) == seq![id_of(node)] + kid_lines(node, open, false, n));
    lemma_kid_lines_cover(node, open, n);
    assert(seq![id_of(node)].contains(id_of(node))) by {
        assert(seq![id_of(node)][0] == id_of(node));
    }
    assert forall|x: Seq<char>|
        visible_ids(node, open, false).contains(x) <==> subtree_ids(node).contains(x) by {
        if seq![id_of(node)].contains(x) {
            let i = choose|i: int| 0 <= i < 1 && seq![id_of(node)][i] == x;
            assert(x == id_of(node));
        }
    }
}

pub open spec fn opt_view(o: Option<&String>) -> Option<Seq<char>> {
    match o {
        Some(s) => Some(s@),
        None => None,
    }
}

/// The node selected after moving down in the drawn tree.
pub fn next_in_tree(
    node: &DiagnosticNode,
    opened: &Vec<String>,
    with_properties: bool,
    selected: Option<&String>,
) -> (r: Option<String>)
    ensures
        match r {
            Some(x) => selection_after_next(
                visible_ids(*node, open_set(opened@), with_properties),
                opt_view(selected),
            ) == Some(x@),
            None => selection_after_next(
                visible_ids(*node, open_set(opened@), with_properties),
                opt_view(selected),
            ) is None,
        },
{
    let lines = visible_line_ids(node, opened, with_properties);
    next_id(&lines, selected)
}

/// The node selected after moving up in the drawn tree.
pub fn previous_in_tree(
    node: &DiagnosticNode,
    opened: &Vec<String>,
    with_properties: bool,
    selected: Option<&String>,
) -> (r: Option<String>)
    ensures
        match r {
            Some(x) => selection_after_previous(
                visible_ids(*node, open_set(opened@), with_properties),
                opt_view(selected),
            ) == Some(x@),
            None => selection_after_previous(
                visible_ids(*node, open_set(opened@), with_properties),
                opt_view(selected),
            ) is None,
        },
{
    let lines = visible_line_ids(node, opened, with_properties);
    previous_id(&lines, selected)
}


/// The drawn tree always starts with the node itself; a closed node shows
/// nothing else.
pub proof fn lemma_closed_node_shows_itself(node: DiagnosticNode, opened: Set<Seq<char>>, with_properties: bool)
    ensures
        visible_ids(node, opened, with_properties).len() >= 1,
        visible_ids(node, opened, with_properties)[0] == id_of(node),
        !opened.contains(id_of(node)) ==> visible_ids(node, opened, with_properties) == seq![
            id_of(node),
        ],
{
    if !opened.contains(id_of(node)) {
        assert(visible_ids(node, opened, with_properties) =~= seq![id_of(node)]);
    }
}

} // verus!
