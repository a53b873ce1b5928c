use vstd::prelude::*;

use crate::classify::{classify, has_documentation, lacks_documentation};
use crate::syntax::{SyntaxNode, SyntaxTree};

verus! {

/// Where a diagnostic applies: a file and a position in it, counted from 1.
#[derive(Clone, Debug)]
pub struct SourceLocation {
    pub file: String,
    pub line: usize,
    pub column: usize,
}

/// One declaration that needs documentation and has none.
#[derive(Clone, Debug)]
pub struct Diagnostic {
    pub name: String,
    pub location: SourceLocation,
}

/// What a diagnostic says, as plain values.
pub struct Finding {
    pub name: Seq<char>,
    pub file: Seq<char>,
    pub line: nat,
    pub column: nat,
}

impl View for Diagnostic {
    type V = Finding;

    open spec fn view(&self) -> Finding {
        Finding {
            name: self.name@,
            file: self.location.file@,
            line: self.location.line as nat,
            column: self.location.column as nat,
        }
    }
}

/// The findings of a sequence of diagnostics, in order.
pub open spec fn findings(ds: Seq<Diagnostic>) -> Seq<Finding> {
    ds.map_values(|d: Diagnostic| d@)
}

/// The finding that reports node `n` of file `file`: its name and the start of
/// its span.
pub open spec fn finding_of(file: Seq<char>, n: SyntaxNode) -> Finding {
    Finding { name: n.name@, file, line: n.line as nat, column: n.column as nat }
}

/// What node `n` itself contributes: one finding where it is a declaration
/// without documentation, none otherwise.
pub open spec fn own_report(file: Seq<char>, n: SyntaxNode) -> Seq<Finding> {
    if lacks_documentation(n) {
        seq![finding_of(file, n)]
    } else {
        Seq::empty()
    }
}

/// The findings of a pre-order walk of the subtree rooted at `n`: the node
/// itself first, then each of its children's subtrees, in order.
pub open spec fn node_report(file: Seq<char>, n: SyntaxNode) -> Seq<Finding>
    decreases n,
{
    own_report(file, n) + nodes_report(file, n.children@)
}

/// The findings of the subtrees rooted at the nodes of `s`, one after the
/// other, in the order of `s`.
pub open spec fn nodes_report(file: Seq<char>, s: Seq<SyntaxNode>) -> Seq<Finding>
    decreases s,
{
    if s.len() == 0 {
        Seq::empty()
    } else {
        nodes_report(file, s.subrange(0, s.len() - 1)) + node_report(file, s[s.len() - 1])
    }
}

/// The findings of a whole file.
pub open spec fn file_report(file: Seq<char>, tree: SyntaxTree) -> Seq<Finding> {
    nodes_report(file, tree.items@)
}

/// The diagnostic for a node.
fn diagnostic_for(file: &String, node: &SyntaxNode) -> (d: Diagnostic)
    ensures
        d@ == finding_of(file@, *node),
{
    Diagnostic {
        name: node.name.clone(),
        location: SourceLocation { file: file.clone(), line: node.line, column: node.column },
    }
}

/// Walks the subtree rooted at `node` and appends its diagnostics to `out`.
fn report_node(file: &String, node: &SyntaxNode, out: &mut Vec<Diagnostic>)
    ensures
        findings(final(out)@) == findings(old(out)@) + node_report(file@, *node),
    decreases node,
{
    let ghost start = findings(out@);
    if classify(node).is_some() && !has_documentation(&node.attributes) {
        let d = diagnostic_for(file, node);
        out.push(d);
    }
    assert(findings(out@) =~= start + own_report(file@, *node));
    report_nodes(file, &node.children, out);
}

/// Walks the subtrees rooted at the nodes of `nodes`, in order, and appends
/// their diagnostics to `out`.
fn report_nodes(file: &String, nodes: &Vec<SyntaxNode>, out: &mut Vec<Diagnostic>)
    ensures
        findings(final(out)@) == findings(old(out)@) + nodes_report(file@, nodes@),
    decreases nodes,
{
    let ghost start = findings(out@);
    let mut i: usize = 0;
    assert(nodes@.subrange(0, 0) =~= Seq::<SyntaxNode>::empty());
    assert(findings(out@) =~= start + nodes_report(file@, nodes@.subrange(0, 0)));
    while i < nodes.len()
        invariant
            i <= nodes@.len(),
            findings(out@) == start + nodes_report(file@, nodes@.subrange(0, i as int)),
        decreases nodes@.len() - i,
    {
        let ghost before = findings(out@);
        assert(decreases_to!(nodes => nodes@[i as int]));
        report_node(file, &nodes[i], out);
        proof {
            let s = nodes@.subrange(0, i + 1);
            assert(s.subrange(0, s.len() - 1) =~= nodes@.subrange(0, i as int));
            assert(s[s.len() - 1] == nodes@[i as int]);
            assert(findings(out@) =~= start + nodes_report(file@, s));
        }
        i = i + 1;
    }
    assert(nodes@.subrange(0, nodes@.len() as int) =~= nodes@);
}

/// Walks a parsed file in pre-order and returns one diagnostic for each
/// declaration that needs documentation and has none, in the order the walk
/// meets them: a node before the nodes inside it, siblings in source order.
pub fn visit_file(file_path: &str, tree: &SyntaxTree) -> (r: Vec<Diagnostic>)
    ensures
        findings(r@) == file_report(file_path@, *tree),
{
    let file = String::from_str(file_path);
    let mut out: Vec<Diagnostic> = Vec::new();
    assert(findings(out@) =~= Seq::<Finding>::empty());
    report_nodes(&file, &tree.items, &mut out);
    assert(findings(out@) =~= file_report(file_path@, *tree));
    out
}

} // verus!
