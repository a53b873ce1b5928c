use vstd::prelude::*;

verus! {

/// The syntactic kind of one node of a parsed source file.
#[derive(Clone, Copy, Debug, PartialEq, Eq, Structural)]
pub enum NodeKind {
    /// A free-standing function.
    Function,
    /// A struct declaration.
    Struct,
    /// An enum declaration.
    Enum,
    /// A trait declaration; its associated items are its children.
    Trait,
    /// A constant declared at item level.
    Constant,
    /// An implementation block; its associated items are its children.
    Impl,
    /// A function declared in the body of an implementation block.
    ImplFunction,
    /// A constant declared in the body of an implementation block.
    ImplConstant,
    /// A function declared in the body of a trait.
    TraitFunction,
    /// A constant declared in the body of a trait.
    TraitConstant,
    /// A module; its items are its children.
    Module,
    /// A type alias.
    TypeAlias,
    /// A `use` statement.
    Use,
    /// A macro invocation in item position.
    Macro,
    /// Any other node kind.
    Other,
}

/// An attribute attached to a node. Only whether it carries a documentation
/// comment matters.
#[derive(Clone, Copy, Debug, PartialEq, Eq, Structural)]
pub enum Attribute {
    /// A documentation comment (`///`, `//!` or `#[doc = ...]`).
    Doc,
    /// Any other attribute.
    Other,
}

/// One node of a parsed file.
///
/// `line` and `column` give the start of the node's span, both counted from 1.
/// `children` are the nodes met directly inside this one (the items of a
/// module, the associated items of an implementation or a trait, the items
/// declared in a function body), in source order.
#[derive(Debug)]
pub struct SyntaxNode {
    pub kind: NodeKind,
    pub name: String,
    pub attributes: Vec<Attribute>,
    pub line: usize,
    pub column: usize,
    pub children: Vec<SyntaxNode>,
}

/// A parsed source file: its top-level items, in source order.
#[derive(Debug)]
pub struct SyntaxTree {
    pub items: Vec<SyntaxNode>,
}

} // verus!
