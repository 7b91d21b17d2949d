//! The dependency extractor: walks a definition tree depth-first in
//! declaration order and returns the referenced rule names, first-occurrence
//! order preserved, without duplicates. Duplicates are eliminated across the
//! whole walk, so a name met again in a later sibling is not repeated.

use vstd::prelude::*;

use crate::ast::Node;
use crate::ast::Rule;

verus! {

/// Every rule name referenced in the tree, in depth-first pre-order, with
/// duplicates kept.
pub open spec fn raw_deps(n: Node) -> Seq<Seq<char>>
    decreases n,
{
    match n {
        Node::Alternation(nodes) => raw_deps_children(nodes@),
        Node::Concatenation(nodes) => raw_deps_children(nodes@),
        Node::Repetition { repeat, node } => raw_deps(*node),
        Node::Rulename(name) => seq![name@],
        Node::Group(node) => raw_deps(*node),
        Node::Optional(node) => raw_deps(*node),
        Node::CharVal(_) => Seq::empty(),
        Node::NumVal(_) => Seq::empty(),
        Node::ProseVal(_) => Seq::empty(),
    }
}

/// The raw dependency lists of the children, flattened in child order.
pub open spec fn raw_deps_children(ns: Seq<Node>) -> Seq<Seq<char>>
    decreases ns,
{
    if ns.len() == 0 {
        Seq::empty()
    } else {
        raw_deps(ns[0]) + raw_deps_children(ns.drop_first())
    }
}

/// Appends to `acc` each name of `names`, in order, that `acc` does not
/// already hold.
pub open spec fn add_new(acc: Seq<Seq<char>>, names: Seq<Seq<char>>) -> Seq<Seq<char>>
    decreases names.len(),
{
    if names.len() == 0 {
        acc
    } else {
        add_new(
            if acc.contains(names[0]) {
                acc
            } else {
                acc.push(names[0])
            },
            names.drop_first(),
        )
    }
}

/// Keeps the first occurrence of each name and drops the rest.
pub open spec fn dedup_first(names: Seq<Seq<char>>) -> Seq<Seq<char>> {
    add_new(Seq::empty(), names)
}

/// The dependency list of a node: the referenced names in first-occurrence
/// order, deduplicated across the whole tree.
pub open spec fn node_dependencies(n: Node) -> Seq<Seq<char>> {
    dedup_first(raw_deps(n))
}

/// The dependency list of a rule: that of its definition tree.
pub open spec fn rule_dependencies(rule: Rule) -> Seq<Seq<char>> {
    node_dependencies(rule.node)
}

/// Adding a concatenation of names is adding the two parts one after the
/// other.
proof fn lemma_add_new_concat(acc: Seq<Seq<char>>, a: Seq<Seq<char>>, b: Seq<Seq<char>>)
    ensures
        add_new(acc, a + b) == add_new(add_new(acc, a), b),
    decreases a.len(),
{
    if a.len() == 0 {
        assert(a + b =~= b);
    } else {
        let acc2 = if acc.contains(a[0]) {
            acc
        } else {
            acc.push(a[0])
        };
        assert((a + b)[0] == a[0]);
        assert((a + b).drop_first() =~= a.drop_first() + b);
        lemma_add_new_concat(acc2, a.drop_first(), b);
    }
}

/// No name occurs twice in the list.
pub open spec fn distinct_names(s: Seq<Seq<char>>) -> bool {
    forall|i: int, j: int| 0 <= i < j < s.len() ==> s[i] != s[j]
}

/// `add_new` keeps the accumulator free of duplicates.
proof fn lemma_add_new_distinct(acc: Seq<Seq<char>>, names: Seq<Seq<char>>)
    requires
        distinct_names(acc),
    ensures
        distinct_names(add_new(acc, names)),
    decreases names.len(),
{
    if names.len() > 0 {
        let first = names[0];
        if !acc.contains(first) {
            let acc2 = acc.push(first);
            assert forall|i: int, j: int| 0 <= i < j < acc2.len() implies acc2[i] != acc2[j] by {
                if j == acc.len() {
                    if acc[i] == first {
                        assert(acc.contains(first));
                    }
                }
            }
            lemma_add_new_distinct(acc2, names.drop_first());
        } else {
            lemma_add_new_distinct(acc, names.drop_first());
        }
    }
}

/// `add_new` holds a name exactly when the accumulator or the added names
/// held it.
proof fn lemma_add_new_contains(acc: Seq<Seq<char>>, names: Seq<Seq<char>>, x: Seq<char>)
    ensures
        add_new(acc, names).contains(x) <==> acc.contains(x) || names.contains(x),
    decreases names.len(),
{
    broadcast use vstd::seq_lib::lemma_seq_contains_after_push;
    broadcast use vstd::seq_lib::lemma_seq_concat_contains_all_elements;

    if names.len() > 0 {
        let first = names[0];
        let acc2 = if acc.contains(first) {
            acc
        } else {
            acc.push(first)
        };
        lemma_add_new_contains(acc2, names.drop_first(), x);
        assert(names =~= seq![first] + names.drop_first());
        if x == first {
            assert(seq![first][0] == x);
            assert(seq![first].contains(x));
        }
        if seq![first].contains(x) {
            assert(x == first);
        }
    }
}

/// The dependency list of a node never repeats a name.
pub proof fn lemma_dependencies_distinct(n: Node)
    ensures
        distinct_names(node_dependencies(n)),
{
    lemma_add_new_distinct(Seq::empty(), raw_deps(n));
}

/// The dependency list of a node holds exactly the names its tree
/// references.
pub proof fn lemma_dependencies_exactly_referenced(n: Node, x: Seq<char>)
    ensures
        node_dependencies(n).contains(x) <==> raw_deps(n).contains(x),
{
    broadcast use vstd::seq_lib::lemma_seq_empty_contains_nothing;

    lemma_add_new_contains(Seq::empty(), raw_deps(n), x);
}

/// Terminal nodes contribute no dependency: for any contained value, the
/// dependency list of a `CharVal`, `NumVal` or `ProseVal` is empty.
pub proof fn lemma_terminal_dependencies_empty(n: Node)
    requires
        n is CharVal || n is NumVal || n is ProseVal,
    ensures
        node_dependencies(n) == Seq::<Seq<char>>::empty(),
{
}

/// Does the list already hold this name?
fn contains_name(acc: &Vec<String>, name: &String) -> (r: bool)
    ensures
        r == acc.deep_view().contains(name@),
{
    let mut i: usize = 0;
    while i < acc.len()
        invariant
            i <= acc.len(),
            forall|j: int| 0 <= j < i ==> acc.deep_view()[j] != name@,
        decreases acc.len() - i,
    {
        if acc[i] == *name {
            assert(acc.deep_view()[i as int] == name@);
            return true;
        }
        i += 1;
    }
    false
}

/// Collects the names referenced under `n` into `acc`, skipping those already
/// present.
fn collect_node(n: &Node, acc: &mut Vec<String>)
    ensures
        final (acc).deep_view() == add_new(old(acc).deep_view(), raw_deps(*n)),
    decreases *n,
{
    match n {
        Node::Alternation(nodes) => {
            proof {
                assert(nodes@.skip(0) =~= nodes@);
            }
            collect_children(nodes, 0, acc);
        },
        Node::Concatenation(nodes) => {
            proof {
                assert(nodes@.skip(0) =~= nodes@);
            }
            collect_children(nodes, 0, acc);
        },
        Node::Repetition { repeat: _, node } => {
            collect_node(node, acc);
        },
        Node::Rulename(name) => {
            let ghost acc0 = acc.deep_view();
            if !contains_name(acc, name) {
                acc.push(name.clone());
                assert(acc.deep_view() =~= acc0.push(name@));
            }
            proof {
                reveal_with_fuel(add_new, 2);
                assert(seq![name@].drop_first() =~= Seq::<Seq<char>>::empty());
            }
        },
        Node::Group(node) => {
            collect_node(node, acc);
        },
        Node::Optional(node) => {
            collect_node(node, acc);
        },
        Node::CharVal(_) => {
        },
        Node::NumVal(_) => {
        },
        Node::ProseVal(_) => {
        },
    }
}

/// Collects the names referenced under the children from index `i` on.
fn collect_children(ns: &Vec<Node>, i: usize, acc: &mut Vec<String>)
    requires
        i <= ns.len(),
    ensures
        final (acc).deep_view() == add_new(
            old(acc).deep_view(),
            raw_deps_children(ns@.skip(i as int)),
        ),
    decreases ns@, ns.len() - i,
{
    if i < ns.len() {
        let ghost acc0 = acc.deep_view();
        collect_node(&ns[i], acc);
        collect_children(ns, i + 1, acc);
        proof {
            let suffix = ns@.skip(i as int);
            assert(suffix[0] == ns@[i as int]);
            assert(suffix.drop_first() =~= ns@.skip(i as int + 1));
            lemma_add_new_concat(acc0, raw_deps(ns@[i as int]), raw_deps_children(ns@.skip(i as int + 1)));
        }
    }
}

/// Returns the distinct rule names referenced under `n`, in first-occurrence
/// order.
pub fn node_deps(n: &Node) -> (r: Vec<String>)
    ensures
        r.deep_view() == node_dependencies(*n),
{
    let mut acc: Vec<String> = Vec::new();
    assert(acc.deep_view() =~= Seq::<Seq<char>>::empty());
    collect_node(n, &mut acc);
    acc
}

/// Returns the distinct rule names referenced by a rule's definition, in
/// first-occurrence order.
pub fn rule_deps(rule: &Rule) -> (r: Vec<String>)
    ensures
        r.deep_view() == rule_dependencies(*rule),
{
    node_deps(&rule.node)
}

} // verus!
