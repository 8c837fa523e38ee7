//! The abstract syntax tree that the emitter consumes.
//!
//! The tree is a plain-value model of a parsed source-language module: every
//! fact the emitter reads is held directly as an integer, a `bool`, a `String`
//! or a nested node.  A numeric literal carries its rendered decimal text
//! together with a flag saying whether it is integer-valued, so that the
//! emitter can force a trailing `.0`.

use vstd::prelude::*;

verus! {

/// A complete module: the ordered list of its functions.
pub struct Module {
    pub functions: Vec<Function>,
}

/// A function definition: a name (optionally carrying a parenthesized
/// mutability tag), its arguments, return type and body.
pub struct Function {
    pub name: String,
    pub args: Vec<Arg>,
    pub ret: Type,
    pub block: Block,
}

/// A declared argument: its mutability and its type.
pub struct Arg {
    pub mutable: bool,
    pub ty: Type,
}

/// The types that lower to target-language types.
pub enum Type {
    F64,
    Bool,
    Vec4,
    Text,
    Array(Box<Type>),
    Secret(Box<Type>),
    Closure(Box<ClosureType>),
    Void,
    /// Any remaining source-language type; it lowers to no text at all.
    Other,
}

/// The shape of a closure type: argument types and return type.
pub struct ClosureType {
    pub tys: Vec<Type>,
    pub ret: Type,
}

/// An ordered sequence of expressions; the last one is the block's value.
pub struct Block {
    pub expressions: Vec<Expression>,
}

/// A call of a named function.  `f_index` is the index of the called
/// function inside the module when the call resolves to a loaded function.
pub struct Call {
    pub name: String,
    pub args: Vec<Expression>,
    pub f_index: Option<usize>,
}

/// A closure call: the item holding the closure, then the arguments.
pub struct CallClosure {
    pub item: Item,
    pub args: Vec<Expression>,
}

/// A closure literal: its declared arguments and its body expression.
pub struct Closure {
    pub args: Vec<Arg>,
    pub expr: Box<Expression>,
}

/// A variable reference: a stack id resolved by the parser, then a path of
/// indexing operations.
pub struct Item {
    pub static_stack_id: Option<usize>,
    pub ids: Vec<Id>,
}

/// One step of an item's indexing path.
pub enum Id {
    /// A string key.
    Str(String),
    /// A numeric key, already truncated to an index.
    Num(usize),
    /// A computed index expression.
    Expr(Box<Expression>),
}

/// A numeric literal: its rendered decimal text and whether its value is an
/// integer (in which case the emitter appends `.0`).
pub struct Number {
    pub repr: String,
    pub whole: bool,
}

/// A 4-lane vector literal; up to four component expressions, where a
/// swizzle component contributes several lanes.
pub struct Vec4 {
    pub args: Vec<Expression>,
}

/// A swizzle: one to four lanes drawn from an underlying vector expression.
pub struct Swizzle {
    pub sw0: usize,
    pub sw1: usize,
    pub sw2: Option<usize>,
    pub sw3: Option<usize>,
    pub expr: Box<Expression>,
}

/// An array literal.
pub struct Array {
    pub items: Vec<Expression>,
}

/// One `key: value` entry of an object literal.
pub struct Entry {
    pub key: String,
    pub value: Expression,
}

/// An object literal.
pub struct Object {
    pub key_values: Vec<Entry>,
}

/// The binary operators.
pub enum BinOp {
    Add,
    Mul,
    Div,
    Sub,
    Rem,
    Dot,
    Cross,
    Pow,
    AndAlso,
    OrElse,
}

/// A binary operation.
pub struct BinOpExpression {
    pub op: BinOp,
    pub left: Box<Expression>,
    pub right: Box<Expression>,
}

/// The comparison operators.
pub enum CompareOp {
    Less,
    LessOrEqual,
    Greater,
    GreaterOrEqual,
    Equal,
    NotEqual,
}

/// A comparison.
pub struct Compare {
    pub op: CompareOp,
    pub left: Box<Expression>,
    pub right: Box<Expression>,
}

/// The unary operators.
pub enum UnOp {
    Not,
    Neg,
}

/// A unary operation.
pub struct UnOpExpression {
    pub op: UnOp,
    pub expr: Box<Expression>,
}

/// The assignment operators.  `Store` is the plain `=` that overwrites an
/// existing binding (`Assign` introduces one).
pub enum AssignOp {
    Assign,
    Store,
    Add,
    Sub,
    Mul,
    Div,
    Rem,
    Pow,
}

/// An assignment.
pub struct Assign {
    pub op: AssignOp,
    pub left: Box<Expression>,
    pub right: Box<Expression>,
}

/// An `if` expression with optional `else if` arms and an optional `else`.
pub struct If {
    pub cond: Box<Expression>,
    pub true_block: Block,
    pub else_if_conds: Vec<Expression>,
    pub else_if_blocks: Vec<Block>,
    pub else_block: Option<Block>,
}

/// A three-part loop.
pub struct For {
    pub init: Box<Expression>,
    pub cond: Box<Expression>,
    pub step: Box<Expression>,
    pub block: Block,
    pub label: Option<String>,
}

/// The shared shape of the numeric loops: an optional start (default zero),
/// an end, a body and an optional label.
pub struct ForN {
    pub start: Option<Box<Expression>>,
    pub end: Box<Expression>,
    pub block: Block,
    pub label: Option<String>,
}

/// An expression.
pub enum Expression {
    Call(Call),
    Text(String),
    For(Box<For>),
    ForN(Box<ForN>),
    Sum(Box<ForN>),
    Prod(Box<ForN>),
    Number(Number),
    Bool(bool),
    Item(Item),
    BinOp(Box<BinOpExpression>),
    Vec4(Vec4),
    Array(Array),
    Assign(Box<Assign>),
    All(Box<ForN>),
    Any(Box<ForN>),
    Compare(Box<Compare>),
    If(Box<If>),
    UnOp(Box<UnOpExpression>),
    Max(Box<ForN>),
    Min(Box<ForN>),
    Sift(Box<ForN>),
    Block(Block),
    Break(Option<String>),
    Continue(Option<String>),
    Object(Object),
    Return(Box<Expression>),
    Closure(Box<Closure>),
    CallClosure(Box<CallClosure>),
    /// A swizzle is only understood as a component of a `Vec4` literal; in
    /// expression position it is an unsupported variant.
    Swizzle(Box<Swizzle>),
    /// A link literal; recognized by array type inference but unsupported in
    /// emission.
    Link,
}

/// Whether a function returns a value.
pub open spec fn fn_returns(f: Function) -> bool {
    !(f.ret is Void)
}

} // verus!
