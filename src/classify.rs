use vstd::prelude::*;

use crate::syntax::{Attribute, NodeKind, SyntaxNode};

verus! {

/// The kinds of declaration that must carry documentation.
#[derive(Clone, Copy, Debug, PartialEq, Eq, Structural)]
pub enum DeclarationKind {
    Function,
    Struct,
    Enum,
    Trait,
    Constant,
    /// A function declared in the body of an implementation or of a trait.
    ImplementedFunction,
    /// A constant declared in the body of an implementation or of a trait.
    ImplementedConstant,
}

/// The declaration kind of a node of kind `k`, or `None` where a node of that
/// kind needs no documentation.
pub open spec fn declaration_kind_of(k: NodeKind) -> Option<DeclarationKind> {
    match k {
        NodeKind::Function => Some(DeclarationKind::Function),
        NodeKind::Struct => Some(DeclarationKind::Struct),
        NodeKind::Enum => Some(DeclarationKind::Enum),
        NodeKind::Trait => Some(DeclarationKind::Trait),
        NodeKind::Constant => Some(DeclarationKind::Constant),
        NodeKind::ImplFunction | NodeKind::TraitFunction => Some(
            DeclarationKind::ImplementedFunction,
        ),
        NodeKind::ImplConstant | NodeKind::TraitConstant => Some(
            DeclarationKind::ImplementedConstant,
        ),
        _ => None,
    }
}

/// Whether some attribute of `attrs` is a documentation comment.
pub open spec fn documented(attrs: Seq<Attribute>) -> bool {
    exists|i: int| 0 <= i < attrs.len() && attrs[i] == Attribute::Doc
}

/// Whether the node is a declaration that needs documentation and has none.
pub open spec fn lacks_documentation(n: SyntaxNode) -> bool {
    declaration_kind_of(n.kind) is Some && !documented(n.attributes@)
}

/// Classifies a node: the kind of declaration it is, or `None` where it needs
/// no documentation (modules, implementation blocks, type aliases, `use`
/// statements, macro invocations and the rest).
pub fn classify(node: &SyntaxNode) -> (r: Option<DeclarationKind>)
    ensures
        r == declaration_kind_of(node.kind),
{
    match node.kind {
        NodeKind::Function => Some(DeclarationKind::Function),
        NodeKind::Struct => Some(DeclarationKind::Struct),
        NodeKind::Enum => Some(DeclarationKind::Enum),
        NodeKind::Trait => Some(DeclarationKind::Trait),
        NodeKind::Constant => Some(DeclarationKind::Constant),
        NodeKind::ImplFunction | NodeKind::TraitFunction => Some(
            DeclarationKind::ImplementedFunction,
        ),
        NodeKind::ImplConstant | NodeKind::TraitConstant => Some(
            DeclarationKind::ImplementedConstant,
        ),
        _ => None,
    }
}

/// Whether at least one of the attributes is a documentation comment.
pub fn has_documentation(attrs: &Vec<Attribute>) -> (r: bool)
    ensures
        r == documented(attrs@),
{
    let mut i: usize = 0;
    while i < attrs.len()
        invariant
            i <= attrs.len(),
            forall|j: int| 0 <= j < i ==> attrs@[j] != Attribute::Doc,
        decreases attrs.len() - i,
    {
        if attrs[i] == Attribute::Doc {
            return true;
        }
        i = i + 1;
    }
    false
}

} // verus!
