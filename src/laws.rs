use vstd::prelude::*;

use crate::classify::{declaration_kind_of, documented, lacks_documentation, DeclarationKind};
use crate::report::{file_report, finding_of, node_report, nodes_report, own_report, Finding};
use crate::syntax::{NodeKind, SyntaxNode, SyntaxTree};

verus! {

/// The nodes of the subtree rooted at `n`, in pre-order: `n` first, then the
/// nodes of each child's subtree, children in order.
pub open spec fn preorder(n: SyntaxNode) -> Seq<SyntaxNode>
    decreases n,
{
    seq![n] + preorder_all(n.children@)
}

/// The nodes of the subtrees rooted at the nodes of `s`, each in pre-order,
/// one subtree after the other.
pub open spec fn preorder_all(s: Seq<SyntaxNode>) -> Seq<SyntaxNode>
    decreases s,
{
    if s.len() == 0 {
        Seq::empty()
    } else {
        preorder_all(s.subrange(0, s.len() - 1)) + preorder(s[s.len() - 1])
    }
}

/// The findings of those nodes of `s` that need documentation and lack it,
/// in the order of `s`.
pub open spec fn undocumented_findings(file: Seq<char>, s: Seq<SyntaxNode>) -> Seq<Finding> {
    s.filter(|m: SyntaxNode| lacks_documentation(m)).map_values(
        |m: SyntaxNode| finding_of(file, m),
    )
}

proof fn lemma_undocumented_findings_add(file: Seq<char>, a: Seq<SyntaxNode>, b: Seq<SyntaxNode>)
    ensures
        undocumented_findings(file, a + b) == undocumented_findings(file, a)
            + undocumented_findings(file, b),
{
    let p = |m: SyntaxNode| lacks_documentation(m);
    Seq::filter_distributes_over_add(a, b, p);
    assert(undocumented_findings(file, a + b) =~= undocumented_findings(file, a)
        + undocumented_findings(file, b));
}

proof fn lemma_undocumented_findings_one(file: Seq<char>, n: SyntaxNode)
    ensures
        undocumented_findings(file, seq![n]) == own_report(file, n),
{
    let p = |m: SyntaxNode| lacks_documentation(m);
    reveal_with_fuel(Seq::filter, 2);
    assert(seq![n].drop_last() =~= Seq::<SyntaxNode>::empty());
    assert(undocumented_findings(file, seq![n]) =~= own_report(file, n));
}

proof fn lemma_node_report_preorder(file: Seq<char>, n: SyntaxNode)
    ensures
        node_report(file, n) == undocumented_findings(file, preorder(n)),
    decreases n,
{
    lemma_nodes_report_preorder(file, n.children@);
    lemma_undocumented_findings_one(file, n);
    lemma_undocumented_findings_add(file, seq![n], preorder_all(n.children@));
}

proof fn lemma_nodes_report_preorder(file: Seq<char>, s: Seq<SyntaxNode>)
    ensures
        nodes_report(file, s) == undocumented_findings(file, preorder_all(s)),
    decreases s,
{
    if s.len() == 0 {
        assert(undocumented_findings(file, preorder_all(s)) =~= Seq::<Finding>::empty());
    } else {
        let init = s.subrange(0, s.len() - 1);
        let last = s[s.len() - 1];
        lemma_nodes_report_preorder(file, init);
        lemma_node_report_preorder(file, last);
        lemma_undocumented_findings_add(file, preorder_all(init), preorder(last));
    }
}

/// The report of a file lists, in pre-order, exactly the declarations of the
/// file that need documentation and lack it: each such declaration once, with
/// its own name and position, and nothing for any other node.
pub proof fn lemma_file_report_is_preorder(file: Seq<char>, tree: SyntaxTree)
    ensures
        file_report(file, tree) == undocumented_findings(file, preorder_all(tree.items@)),
{
    lemma_nodes_report_preorder(file, tree.items@);
}

/// Every declaration of a file that lacks documentation, wherever it stands in
/// the tree, has a diagnostic in the file's report, naming it.
pub proof fn lemma_presence(file: Seq<char>, tree: SyntaxTree, i: int)
    requires
        0 <= i < preorder_all(tree.items@).len(),
        lacks_documentation(preorder_all(tree.items@)[i]),
    ensures
        file_report(file, tree).contains(finding_of(file, preorder_all(tree.items@)[i])),
        finding_of(file, preorder_all(tree.items@)[i]).name == preorder_all(tree.items@)[i].name@,
{
    let s = preorder_all(tree.items@);
    let p = |m: SyntaxNode| lacks_documentation(m);
    lemma_file_report_is_preorder(file, tree);
    s.lemma_filter_contains(p, i);
    let f = s.filter(p);
    let j = choose|j: int| 0 <= j < f.len() && f[j] == s[i];
    assert(undocumented_findings(file, s)[j] == finding_of(file, s[i]));
}

/// A declaration that lacks documentation is reported once, first, before
/// anything inside it.
pub proof fn lemma_undocumented_reported_first(file: Seq<char>, n: SyntaxNode)
    requires
        lacks_documentation(n),
    ensures
        node_report(file, n) == seq![finding_of(file, n)] + nodes_report(file, n.children@),
{
}

/// A declaration with at least one documentation attribute adds nothing to the
/// report: its subtree reports just what its children report.
pub proof fn lemma_suppression(file: Seq<char>, n: SyntaxNode)
    requires
        documented(n.attributes@),
    ensures
        node_report(file, n) == nodes_report(file, n.children@),
{
    assert(own_report(file, n) + nodes_report(file, n.children@) =~= nodes_report(
        file,
        n.children@,
    ));
}

proof fn lemma_nodes_report_single(file: Seq<char>, n: SyntaxNode)
    ensures
        nodes_report(file, seq![n]) == node_report(file, n),
{
    assert(seq![n].subrange(0, 0) =~= Seq::<SyntaxNode>::empty());
    assert(nodes_report(file, Seq::<SyntaxNode>::empty()) == Seq::<Finding>::empty());
    assert(seq![n][0] == n);
    assert(nodes_report(file, seq![n]) =~= node_report(file, n));
}

proof fn lemma_leaf_report(file: Seq<char>, n: SyntaxNode)
    requires
        n.children@.len() == 0,
    ensures
        node_report(file, n) == own_report(file, n),
{
    assert(node_report(file, n) =~= own_report(file, n));
}

/// The report of a run of sibling subtrees is the report of the first part
/// followed by the report of the second.
pub proof fn lemma_nodes_report_add(file: Seq<char>, a: Seq<SyntaxNode>, b: Seq<SyntaxNode>)
    ensures
        nodes_report(file, a + b) == nodes_report(file, a) + nodes_report(file, b),
    decreases b.len(),
{
    if b.len() == 0 {
        assert(a + b =~= a);
        assert(nodes_report(file, a) + nodes_report(file, b) =~= nodes_report(file, a));
    } else {
        let ab = a + b;
        let b0 = b.subrange(0, b.len() - 1);
        assert(ab.subrange(0, ab.len() - 1) =~= a + b0);
        assert(ab[ab.len() - 1] == b[b.len() - 1]);
        lemma_nodes_report_add(file, a, b0);
        assert(nodes_report(file, ab) =~= nodes_report(file, a) + nodes_report(file, b));
    }
}

/// A trait that lacks documentation and holds one nested declaration that
/// lacks it too gives two diagnostics: the trait's, then the nested one's.
pub proof fn lemma_trait_and_nested(file: Seq<char>, t: SyntaxNode)
    requires
        t.kind == NodeKind::Trait,
        !documented(t.attributes@),
        t.children@.len() == 1,
        lacks_documentation(t.children@[0]),
        t.children@[0].children@.len() == 0,
    ensures
        node_report(file, t) == seq![finding_of(file, t), finding_of(file, t.children@[0])],
{
    let f = t.children@[0];
    assert(t.children@ =~= seq![f]);
    lemma_nodes_report_single(file, f);
    lemma_leaf_report(file, f);
    assert(node_report(file, t) =~= seq![finding_of(file, t), finding_of(file, f)]);
}

/// A type alias or a `use` statement never gives a diagnostic of its own,
/// whatever its attributes; what lies inside it is reported as usual.
pub proof fn lemma_unrecognized_kind_transparent(file: Seq<char>, n: SyntaxNode)
    requires
        n.kind == NodeKind::TypeAlias || n.kind == NodeKind::Use,
    ensures
        declaration_kind_of(n.kind) is None,
        node_report(file, n) == nodes_report(file, n.children@),
{
    assert(own_report(file, n) + nodes_report(file, n.children@) =~= nodes_report(
        file,
        n.children@,
    ));
}

/// A type alias or a `use` statement among siblings changes nothing in what
/// the siblings report: the run reports as if it were not there.
pub proof fn lemma_unrecognized_sibling_transparent(
    file: Seq<char>,
    a: Seq<SyntaxNode>,
    u: SyntaxNode,
    b: Seq<SyntaxNode>,
)
    requires
        u.kind == NodeKind::TypeAlias || u.kind == NodeKind::Use,
        u.children@.len() == 0,
    ensures
        nodes_report(file, a + seq![u] + b) == nodes_report(file, a + b),
{
    lemma_nodes_report_add(file, a + seq![u], b);
    lemma_nodes_report_add(file, a, seq![u]);
    lemma_nodes_report_add(file, a, b);
    lemma_nodes_report_single(file, u);
    lemma_leaf_report(file, u);
    assert(nodes_report(file, a + seq![u]) =~= nodes_report(file, a));
}

/// An implementation block holding two functions, one documented and one
/// not, gives exactly one diagnostic: for the undocumented function, which is
/// classified as a function of an implementation.
pub proof fn lemma_impl_scope(file: Seq<char>, i: SyntaxNode)
    requires
        i.kind == NodeKind::Impl,
        i.children@.len() == 2,
        i.children@[0].kind == NodeKind::ImplFunction,
        i.children@[1].kind == NodeKind::ImplFunction,
        i.children@[0].children@.len() == 0,
        i.children@[1].children@.len() == 0,
        documented(i.children@[0].attributes@) != documented(i.children@[1].attributes@),
    ensures
        ({
            let u = if documented(i.children@[0].attributes@) {
                i.children@[1]
            } else {
                i.children@[0]
            };
            &&& node_report(file, i) == seq![finding_of(file, u)]
            &&& declaration_kind_of(u.kind) == Some(DeclarationKind::ImplementedFunction)
        }),
{
    let f = i.children@[0];
    let g = i.children@[1];
    assert(i.children@ =~= seq![f] + seq![g]);
    lemma_nodes_report_add(file, seq![f], seq![g]);
    lemma_nodes_report_single(file, f);
    lemma_nodes_report_single(file, g);
    lemma_leaf_report(file, f);
    lemma_leaf_report(file, g);
    if documented(f.attributes@) {
        assert(node_report(file, i) =~= seq![finding_of(file, g)]);
    } else {
        assert(node_report(file, i) =~= seq![finding_of(file, f)]);
    }
}

/// Two undocumented declarations of a file are reported in source order.
pub proof fn lemma_source_order(file: Seq<char>, tree: SyntaxTree)
    requires
        tree.items@.len() == 2,
        lacks_documentation(tree.items@[0]),
        lacks_documentation(tree.items@[1]),
        tree.items@[0].children@.len() == 0,
        tree.items@[1].children@.len() == 0,
    ensures
        file_report(file, tree) == seq![
            finding_of(file, tree.items@[0]),
            finding_of(file, tree.items@[1]),
        ],
{
    let a = tree.items@[0];
    let b = tree.items@[1];
    assert(tree.items@ =~= seq![a] + seq![b]);
    lemma_nodes_report_add(file, seq![a], seq![b]);
    lemma_nodes_report_single(file, a);
    lemma_nodes_report_single(file, b);
    lemma_leaf_report(file, a);
    lemma_leaf_report(file, b);
    assert(file_report(file, tree) =~= seq![finding_of(file, a), finding_of(file, b)]);
}

} // verus!
