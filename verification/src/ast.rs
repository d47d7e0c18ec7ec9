//! Abstract syntax tree for the accepted C subset.
//!
//! Every node is built from plain integers, enumerations and boxed
//! recursion, so the same values can be written out in specifications
//! and compared for equality there.  Identifiers are represented as
//! byte spans `(start, end)` into the preprocessed source text; the
//! driver keeps that text alongside the tree.

use vstd::prelude::*;

verus! {

/// A singly linked list used for the sequences inside the syntax
/// tree, so that whole trees are expressible in specifications.
#[derive(PartialEq, Eq, Debug)]
pub enum List<T> {
    Nil,
    Cons(T, Box<List<T>>),
}

impl<T> List<T> {
    /// Number of elements.
    pub open spec fn len(self) -> nat
        decreases self,
    {
        match self {
            List::Nil => 0,
            List::Cons(_, tail) => 1 + tail.len(),
        }
    }

    /// The elements as a mathematical sequence.
    pub open spec fn view_seq(self) -> Seq<T>
        decreases self,
    {
        match self {
            List::Nil => Seq::empty(),
            List::Cons(x, tail) => seq![x] + tail.view_seq(),
        }
    }

    /// The sequence has as many elements as the list.
    pub proof fn lemma_view_seq_len(self)
        ensures
            self.view_seq().len() == self.len(),
        decreases self,
    {
        match self {
            List::Nil => {},
            List::Cons(_, tail) => tail.lemma_view_seq_len(),
        }
    }
}

/// A byte range `start..end` in the preprocessed source text.
#[derive(PartialEq, Eq, Debug)]
pub struct Span {
    pub start: usize,
    pub end: usize,
}

/// One type specifier or qualifier inside a declaration.
#[derive(PartialEq, Eq, Debug)]
pub enum TypeSpecifier {
    Void,
    Char,
    Short,
    Int,
    Long,
    Signed,
    Unsigned,
    Bool,
    /// The `const` qualifier.
    Const,
    /// A previously declared typedef name; the span names it.
    Named(Span),
    /// GNU `typeof(expression)`.
    Typeof(Box<Expr>),
    /// An `enum` specifier: its optional tag and its enumerators.
    Enum(Option<Span>, List<Span>),
}

/// A unary operator.
#[derive(PartialEq, Eq, Debug)]
pub enum UnaryOp {
    Minus,
    Not,
    Deref,
    AddressOf,
}

/// A binary operator.
#[derive(PartialEq, Eq, Debug)]
pub enum BinaryOp {
    Eq,
    NotEq,
    Less,
    Greater,
    LessEq,
    GreaterEq,
    Add,
    Sub,
    Mul,
    Div,
}

/// An expression.
#[derive(PartialEq, Eq, Debug)]
pub enum Expr {
    /// An ordinary identifier or enumeration constant.
    Ident(Span),
    /// An integer constant, kept as its source spelling.
    IntConst(Span),
    /// A string literal, kept as its source spelling with quotes.
    StrLit(Span),
    /// A character constant, kept as its source spelling with quotes.
    CharConst(Span),
    Unary(UnaryOp, Box<Expr>),
    Binary(BinaryOp, Box<Expr>, Box<Expr>),
    Assign(Box<Expr>, Box<Expr>),
    Conditional(Box<Expr>, Box<Expr>, Box<Expr>),
    /// A cast `(type-name) expression`.
    Cast(Box<TypeName>, Box<Expr>),
    /// A parenthesized expression.
    Paren(Box<Expr>),
}

/// A type name as written in a cast: specifiers plus pointer depth.
#[derive(PartialEq, Eq, Debug)]
pub struct TypeName {
    pub specifiers: List<TypeSpecifier>,
    pub pointers: usize,
}

/// The parameter suffix of a declarator.
#[derive(PartialEq, Eq, Debug)]
pub enum ParamSuffix {
    /// No parameter list: the declarator names an object.
    Absent,
    /// An empty or `(void)` parameter list.
    Empty,
    /// A parenthesized list of parameter declarations.
    Params(List<ParamDecl>),
}

/// A declarator: pointer depth, the declared name, and an optional
/// parameter list.  An abstract declarator has no name.
#[derive(PartialEq, Eq, Debug)]
pub struct Declarator {
    pub pointers: usize,
    pub name: Option<Span>,
    pub params: ParamSuffix,
}

/// One parameter declaration.
#[derive(PartialEq, Eq, Debug)]
pub struct ParamDecl {
    pub specifiers: List<TypeSpecifier>,
    pub declarator: Box<Declarator>,
}

/// A declarator together with its optional initializer.
#[derive(PartialEq, Eq, Debug)]
pub struct InitDeclarator {
    pub declarator: Declarator,
    pub init: Option<Expr>,
}

/// A declaration: storage class, specifiers, and declarators.
#[derive(PartialEq, Eq, Debug)]
pub struct Declaration {
    pub is_typedef: bool,
    pub specifiers: List<TypeSpecifier>,
    pub declarators: List<InitDeclarator>,
    pub span: Span,
}

/// A statement.
#[derive(PartialEq, Eq, Debug)]
pub enum Stmt {
    /// A brace-enclosed block; opens and closes a scope.
    Compound(List<BlockItem>, Span),
    Return(Option<Expr>, Span),
    If(Expr, Box<Stmt>, Option<Box<Stmt>>, Span),
    /// A lone semicolon.
    Empty(Span),
    /// An expression statement.
    Expression(Expr, Span),
}

/// One item of a compound statement.
#[derive(PartialEq, Eq, Debug)]
pub enum BlockItem {
    Declaration(Declaration),
    Statement(Box<Stmt>),
}

/// One top-level item of a translation unit.
#[derive(PartialEq, Eq, Debug)]
pub enum ExternalDecl {
    /// A function definition: specifiers, declarator, and body.
    FunctionDef(List<TypeSpecifier>, Declarator, Stmt, Span),
    Declaration(Declaration),
}

/// The root of the syntax tree.
#[derive(PartialEq, Eq, Debug)]
pub struct TranslationUnit {
    pub items: List<ExternalDecl>,
}

} // verus!
