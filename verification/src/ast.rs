//! The trees the passes read: one arena of nodes per file.

use vstd::prelude::*;

use crate::bigint::{dup_digits, dup_int, Int};
use crate::def::Decl;
use crate::ids::{FileId, NodeId, Span};
use crate::ir::{AssocConst, Block, Param, Variant};
use crate::list::{append, single, List};
use crate::symbol::{dup_text, Symbol};

verus! {

/// A literal.
pub enum Lit {
    Int(Int),
    /// A double, by its bits.
    Float(u64),
    Str(List<char>),
    Bytes(List<u32>),
    Char(char),
    Bool(bool),
}

/// The prefix operators.
#[derive(Debug, Clone, Copy, PartialEq, Eq, Structural)]
pub enum UnOp {
    Ref,
    RefMut,
    Neg,
    BitNot,
    Not,
}

/// The binary operators.
#[derive(Debug, Clone, Copy, PartialEq, Eq, Structural)]
pub enum BinOp {
    And,
    Or,
    Eq,
    Ne,
    Lt,
    Le,
    Gt,
    Ge,
    Add,
    Sub,
    Mul,
    Div,
    Rem,
    BitAnd,
    BitOr,
    BitXor,
    Shl,
    Shr,
}

/// Whether a range holds its end.
#[derive(Debug, Clone, Copy, PartialEq, Eq, Structural)]
pub enum RangeKind {
    /// `..<`, or a bare `..`.
    HalfOpen,
    /// `..=`.
    Closed,
}

/// The body of a composite literal.
pub enum CompositeBody {
    Named { fields: List<NodeId>, spread: Option<NodeId> },
    Positional(List<NodeId>),
    Repeat { value: NodeId, count: NodeId },
}

/// What a variant literal is built from.
pub enum VariantArgs {
    Unit,
    Tuple(List<NodeId>),
    Record(List<NodeId>),
}

/// What a variant pattern destructures.
pub enum VariantPatArgs {
    Unit,
    Tuple(List<NodeId>),
    Record { fields: List<NodeId>, rest: bool },
}

/// What a variant declares.
pub enum VariantPayload {
    Unit,
    Tuple(List<NodeId>),
    Record(List<NodeId>),
}

/// What a struct declares.
pub enum StructKind {
    Unit,
    Tuple(List<NodeId>),
    Record(List<NodeId>),
}

/// The `..` of a slice pattern: where it stands among the elements, and the
/// name it binds.
pub struct SliceRest {
    pub at: u64,
    pub name: Option<Symbol>,
}

/// The shape of a node.
#[allow(inconsistent_fields)]
pub enum NodeKind {
    // Expressions.
    Block { stmts: List<NodeId>, tail: Option<NodeId> },
    CallerLocation,
    Lit(Lit),
    Path { segments: List<Symbol> },
    Unary { op: UnOp, operand: NodeId },
    Binary { op: BinOp, lhs: NodeId, rhs: NodeId },
    Tuple { elems: List<NodeId> },
    FieldAccess { base: NodeId, name: Symbol },
    TupleIndex { base: NodeId, index: u64 },
    Call { callee: NodeId, args: List<NodeId> },
    GenericApply { base: NodeId, args: List<NodeId> },
    Index { base: NodeId, index: NodeId },
    Slice { base: NodeId, range: NodeId },
    Deref { base: NodeId },
    MatchExpr { scrutinee: NodeId, arms: List<NodeId> },
    MatchArm { pattern: NodeId, guard: Option<NodeId>, body: NodeId },
    If { cond: NodeId, then: NodeId, els: Option<NodeId> },
    IfMatch { pattern: NodeId, value: NodeId, then: NodeId, els: Option<NodeId> },
    Loop { body: NodeId },
    While { cond: NodeId, body: NodeId },
    CompositeLit { ty: Option<NodeId>, body: CompositeBody },
    VariantLit { name: Symbol, args: VariantArgs },
    Arg { name: Option<Symbol>, value: NodeId },
    FieldInit { name: Symbol, value: NodeId },
    Range { start: Option<NodeId>, end: Option<NodeId>, kind: RangeKind },
    FuncExpr {
        generics: List<NodeId>,
        params: List<NodeId>,
        ret: Option<NodeId>,
        body: Option<NodeId>,
        abi: Option<Symbol>,
    },
    Closure { captures: List<NodeId>, params: List<NodeId>, ret: Option<NodeId>, body: NodeId },
    // Statements.
    LocalDecl { pattern: NodeId, ty: Option<NodeId>, value: NodeId },
    ConstBind { pattern: NodeId, rhs: NodeId },
    Assign { place: NodeId, value: NodeId },
    Return { value: Option<NodeId> },
    Break { value: Option<NodeId> },
    Continue,
    Defer { body: NodeId },
    // Declarations.
    Decl { item: NodeId },
    NamespaceExpr { members: List<NodeId> },
    ImplBlock { members: List<NodeId> },
    Import,
    Param { name: Symbol, ty: Option<NodeId>, default: Option<NodeId> },
    GenericTypeParam { name: Symbol, constraint: Option<NodeId> },
    GenericConstParam { name: Symbol, ty: NodeId },
    Bounds { bounds: List<NodeId> },
    AssocConst { ty: NodeId, default: Option<NodeId> },
    AssocType { bounds: Option<NodeId> },
    AssocBinding { name: Symbol, ty: NodeId },
    StructType { generics: List<NodeId>, kind: StructKind },
    EnumType { variants: List<NodeId>, generics: List<NodeId> },
    TraitType { members: List<NodeId>, generics: List<NodeId> },
    DistinctType { inner: NodeId },
    Variant { name: Symbol, payload: VariantPayload, value: Option<NodeId> },
    Field { name: Symbol, ty: NodeId },
    Overload { members: List<NodeId> },
    // Types.
    TypeHole,
    ImplType { bounds: NodeId },
    PtrType { mutable: bool, inner: NodeId },
    SliceType { mutable: bool, inner: NodeId },
    ArrayType { len: NodeId, mutable: bool, inner: NodeId },
    TupleType { elems: List<NodeId> },
    FuncType { params: List<NodeId>, ret: Option<NodeId>, abi: Option<Symbol> },
    DynType { inner: NodeId },
    TypePath { path: NodeId, generic_args: List<NodeId> },
    // Patterns.
    WildcardPat,
    BindingPat { name: Symbol },
    LitPat(Lit),
    VariantPat { name: Symbol, args: VariantPatArgs },
    TuplePat { elems: List<NodeId> },
    OrPat { alternatives: List<NodeId> },
    AtPat { name: Symbol, pattern: NodeId },
    RefPat { pattern: NodeId },
    StructPat { path: Option<NodeId>, fields: List<NodeId>, rest: bool },
    TupleStructPat { path: NodeId, elems: List<NodeId>, rest: bool },
    SlicePat { elems: List<NodeId>, rest: Option<SliceRest> },
    RangePat { start: Option<NodeId>, end: Option<NodeId>, kind: RangeKind },
    FieldPat { name: Symbol, pattern: Option<NodeId> },
}

/// A node: its shape, and where it was written.
pub struct Node {
    pub kind: NodeKind,
    pub file: FileId,
    pub span: Span,
}

/// One file's tree. A node's id is its position.
pub struct Ast {
    pub nodes: Vec<Node>,
}

/// A copy of a literal.
pub fn dup_lit(l: &Lit) -> (r: Lit)
    ensures
        r == *l,
{
    match l {
        Lit::Int(n) => Lit::Int(dup_int(n)),
        Lit::Float(b) => Lit::Float(*b),
        Lit::Str(t) => Lit::Str(dup_text(t)),
        Lit::Bytes(b) => Lit::Bytes(dup_digits(b)),
        Lit::Char(c) => Lit::Char(*c),
        Lit::Bool(b) => Lit::Bool(*b),
    }
}

/// A copy of a list of nodes.
pub fn dup_nodes(l: &List<NodeId>) -> (r: List<NodeId>)
    ensures
        r == *l,
    decreases l,
{
    match l {
        List::Nil => List::Nil,
        List::Cons(h, t) => List::Cons(*h, Box::new(dup_nodes(t))),
    }
}

/// [`opt_then`], as a mathematical function.
pub open spec fn opt_then_spec(o: Option<NodeId>, l: List<NodeId>) -> List<NodeId> {
    match o {
        Some(n) => List::Cons(n, Box::new(l)),
        None => l,
    }
}

/// A node that may be absent, in front of a list.
pub fn opt_then(o: Option<NodeId>, l: List<NodeId>) -> (r: List<NodeId>)
    ensures
        r == opt_then_spec(o, l),
{
    match o {
        Some(n) => List::Cons(n, Box::new(l)),
        None => l,
    }
}

/// [`opt_nodes`], as a mathematical function.
pub open spec fn opt_nodes_spec(o: Option<NodeId>) -> List<NodeId> {
    opt_then_spec(o, List::Nil)
}

/// A node that may be absent, as a list.
pub fn opt_nodes(o: Option<NodeId>) -> (r: List<NodeId>)
    ensures
        r == opt_nodes_spec(o),
{
    opt_then(o, List::Nil)
}

/// [`children`], as a mathematical function.
pub open spec fn children_spec(kind: &NodeKind) -> List<NodeId> {
    match kind {
        NodeKind::Block { stmts, tail } => crate::list::append_spec((*stmts), opt_nodes_spec(*tail)),
        NodeKind::Unary { op: _, operand } => crate::list::single_spec(*operand),
        NodeKind::Binary { op: _, lhs, rhs } => List::Cons(*lhs, Box::new(crate::list::single_spec(*rhs))),
        NodeKind::Tuple { elems } => (*elems),
        NodeKind::FieldAccess { base, name: _ } => crate::list::single_spec(*base),
        NodeKind::TupleIndex { base, index: _ } => crate::list::single_spec(*base),
        NodeKind::Call { callee, args } => List::Cons(*callee, Box::new((*args))),
        NodeKind::GenericApply { base, args } => List::Cons(*base, Box::new((*args))),
        NodeKind::Index { base, index } => List::Cons(*base, Box::new(crate::list::single_spec(*index))),
        NodeKind::Slice { base, range } => List::Cons(*base, Box::new(crate::list::single_spec(*range))),
        NodeKind::Deref { base } => crate::list::single_spec(*base),
        NodeKind::MatchExpr { scrutinee, arms } => List::Cons(*scrutinee, Box::new((*arms))),
        NodeKind::MatchArm { pattern, guard, body } => {
            List::Cons(*pattern, Box::new(opt_then_spec(*guard, crate::list::single_spec(*body))))
        },
        NodeKind::If { cond, then, els } => List::Cons(
            *cond,
            Box::new(List::Cons(*then, Box::new(opt_nodes_spec(*els)))),
        ),
        NodeKind::IfMatch { pattern, value, then, els } => List::Cons(
            *pattern,
            Box::new(List::Cons(*value, Box::new(List::Cons(*then, Box::new(opt_nodes_spec(*els)))))),
        ),
        NodeKind::Loop { body } => crate::list::single_spec(*body),
        NodeKind::While { cond, body } => List::Cons(*cond, Box::new(crate::list::single_spec(*body))),
        NodeKind::CompositeLit { ty, body } => opt_then_spec(*ty, composite_children_spec(body)),
        NodeKind::VariantLit { name: _, args } => match args {
            VariantArgs::Unit => List::Nil,
            VariantArgs::Tuple(l) => (*l),
            VariantArgs::Record(l) => (*l),
        },
        NodeKind::Arg { name: _, value } => crate::list::single_spec(*value),
        NodeKind::FieldInit { name: _, value } => crate::list::single_spec(*value),
        NodeKind::Range { start, end, kind: _ } => opt_then_spec(*start, opt_nodes_spec(*end)),
        NodeKind::FuncExpr { generics, params, ret, body, abi: _ } => crate::list::append_spec(
            (*generics),
            crate::list::append_spec((*params), opt_then_spec(*ret, opt_nodes_spec(*body))),
        ),
        NodeKind::Closure { captures, params, ret, body } => crate::list::append_spec(
            (*captures),
            crate::list::append_spec((*params), opt_then_spec(*ret, crate::list::single_spec(*body))),
        ),
        NodeKind::LocalDecl { pattern, ty, value } => List::Cons(
            *pattern,
            Box::new(opt_then_spec(*ty, crate::list::single_spec(*value))),
        ),
        NodeKind::ConstBind { pattern, rhs } => List::Cons(
            *pattern,
            Box::new(crate::list::single_spec(*rhs)),
        ),
        NodeKind::Assign { place, value } => List::Cons(*place, Box::new(crate::list::single_spec(*value))),
        NodeKind::Return { value } => opt_nodes_spec(*value),
        NodeKind::Break { value } => opt_nodes_spec(*value),
        NodeKind::Defer { body } => crate::list::single_spec(*body),
        NodeKind::Decl { item } => crate::list::single_spec(*item),
        NodeKind::NamespaceExpr { members } => (*members),
        NodeKind::ImplBlock { members } => (*members),
        NodeKind::Param { name: _, ty, default } => opt_then_spec(*ty, opt_nodes_spec(*default)),
        NodeKind::GenericTypeParam { name: _, constraint } => opt_nodes_spec(*constraint),
        NodeKind::GenericConstParam { name: _, ty } => crate::list::single_spec(*ty),
        NodeKind::Bounds { bounds } => (*bounds),
        NodeKind::AssocConst { ty, default } => List::Cons(*ty, Box::new(opt_nodes_spec(*default))),
        NodeKind::AssocType { bounds } => opt_nodes_spec(*bounds),
        NodeKind::AssocBinding { name: _, ty } => crate::list::single_spec(*ty),
        NodeKind::StructType { generics, kind } => crate::list::append_spec((*generics),
            match kind {
                StructKind::Unit => List::Nil,
                StructKind::Tuple(l) => (*l),
                StructKind::Record(l) => (*l),
            }),
        NodeKind::EnumType { variants, generics } => crate::list::append_spec((*generics), (*variants)),
        NodeKind::TraitType { members, generics } => crate::list::append_spec((*generics), (*members)),
        NodeKind::DistinctType { inner } => crate::list::single_spec(*inner),
        NodeKind::Variant { name: _, payload, value } => crate::list::append_spec(match payload {
                VariantPayload::Unit => List::Nil,
                VariantPayload::Tuple(l) => (*l),
                VariantPayload::Record(l) => (*l),
            },
            opt_nodes_spec(*value)),
        NodeKind::Field { name: _, ty } => crate::list::single_spec(*ty),
        NodeKind::Overload { members } => (*members),
        NodeKind::ImplType { bounds } => crate::list::single_spec(*bounds),
        NodeKind::PtrType { mutable: _, inner } => crate::list::single_spec(*inner),
        NodeKind::SliceType { mutable: _, inner } => crate::list::single_spec(*inner),
        NodeKind::ArrayType { len, mutable: _, inner } => List::Cons(
            *len,
            Box::new(crate::list::single_spec(*inner)),
        ),
        NodeKind::TupleType { elems } => (*elems),
        NodeKind::FuncType { params, ret, abi: _ } => crate::list::append_spec(
            (*params),
            opt_nodes_spec(*ret),
        ),
        NodeKind::DynType { inner } => crate::list::single_spec(*inner),
        NodeKind::TypePath { path, generic_args } => List::Cons(*path, Box::new((*generic_args))),
        NodeKind::VariantPat { name: _, args } => match args {
            VariantPatArgs::Unit => List::Nil,
            VariantPatArgs::Tuple(l) => (*l),
            VariantPatArgs::Record { fields, rest: _ } => (*fields),
        },
        NodeKind::TuplePat { elems } => (*elems),
        NodeKind::OrPat { alternatives } => (*alternatives),
        NodeKind::AtPat { name: _, pattern } => crate::list::single_spec(*pattern),
        NodeKind::RefPat { pattern } => crate::list::single_spec(*pattern),
        NodeKind::StructPat { path, fields, rest: _ } => opt_then_spec(*path, (*fields)),
        NodeKind::TupleStructPat { path, elems, rest: _ } => List::Cons(*path, Box::new((*elems))),
        NodeKind::SlicePat { elems, rest: _ } => (*elems),
        NodeKind::RangePat { start, end, kind: _ } => opt_then_spec(*start, opt_nodes_spec(*end)),
        NodeKind::FieldPat { name: _, pattern } => opt_nodes_spec(*pattern),
        _ => List::Nil,
    }
}

/// The nodes directly under one of the given shape, in the order they are
/// written.
pub fn children(kind: &NodeKind) -> (r: List<NodeId>)
    ensures
        r == children_spec(kind),
{
    match kind {
        NodeKind::Block { stmts, tail } => append(dup_nodes(stmts), opt_nodes(*tail)),
        NodeKind::Unary { op: _, operand } => single(*operand),
        NodeKind::Binary { op: _, lhs, rhs } => List::Cons(*lhs, Box::new(single(*rhs))),
        NodeKind::Tuple { elems } => dup_nodes(elems),
        NodeKind::FieldAccess { base, name: _ } => single(*base),
        NodeKind::TupleIndex { base, index: _ } => single(*base),
        NodeKind::Call { callee, args } => List::Cons(*callee, Box::new(dup_nodes(args))),
        NodeKind::GenericApply { base, args } => List::Cons(*base, Box::new(dup_nodes(args))),
        NodeKind::Index { base, index } => List::Cons(*base, Box::new(single(*index))),
        NodeKind::Slice { base, range } => List::Cons(*base, Box::new(single(*range))),
        NodeKind::Deref { base } => single(*base),
        NodeKind::MatchExpr { scrutinee, arms } => List::Cons(*scrutinee, Box::new(dup_nodes(arms))),
        NodeKind::MatchArm { pattern, guard, body } => {
            List::Cons(*pattern, Box::new(opt_then(*guard, single(*body))))
        },
        NodeKind::If { cond, then, els } => List::Cons(
            *cond,
            Box::new(List::Cons(*then, Box::new(opt_nodes(*els)))),
        ),
        NodeKind::IfMatch { pattern, value, then, els } => List::Cons(
            *pattern,
            Box::new(List::Cons(*value, Box::new(List::Cons(*then, Box::new(opt_nodes(*els)))))),
        ),
        NodeKind::Loop { body } => single(*body),
        NodeKind::While { cond, body } => List::Cons(*cond, Box::new(single(*body))),
        NodeKind::CompositeLit { ty, body } => opt_then(*ty, composite_children(body)),
        NodeKind::VariantLit { name: _, args } => match args {
            VariantArgs::Unit => List::Nil,
            VariantArgs::Tuple(l) => dup_nodes(l),
            VariantArgs::Record(l) => dup_nodes(l),
        },
        NodeKind::Arg { name: _, value } => single(*value),
        NodeKind::FieldInit { name: _, value } => single(*value),
        NodeKind::Range { start, end, kind: _ } => opt_then(*start, opt_nodes(*end)),
        NodeKind::FuncExpr { generics, params, ret, body, abi: _ } => append(
            dup_nodes(generics),
            append(dup_nodes(params), opt_then(*ret, opt_nodes(*body))),
        ),
        NodeKind::Closure { captures, params, ret, body } => append(
            dup_nodes(captures),
            append(dup_nodes(params), opt_then(*ret, single(*body))),
        ),
        NodeKind::LocalDecl { pattern, ty, value } => List::Cons(
            *pattern,
            Box::new(opt_then(*ty, single(*value))),
        ),
        NodeKind::ConstBind { pattern, rhs } => List::Cons(*pattern, Box::new(single(*rhs))),
        NodeKind::Assign { place, value } => List::Cons(*place, Box::new(single(*value))),
        NodeKind::Return { value } => opt_nodes(*value),
        NodeKind::Break { value } => opt_nodes(*value),
        NodeKind::Defer { body } => single(*body),
        NodeKind::Decl { item } => single(*item),
        NodeKind::NamespaceExpr { members } => dup_nodes(members),
        NodeKind::ImplBlock { members } => dup_nodes(members),
        NodeKind::Param { name: _, ty, default } => opt_then(*ty, opt_nodes(*default)),
        NodeKind::GenericTypeParam { name: _, constraint } => opt_nodes(*constraint),
        NodeKind::GenericConstParam { name: _, ty } => single(*ty),
        NodeKind::Bounds { bounds } => dup_nodes(bounds),
        NodeKind::AssocConst { ty, default } => List::Cons(*ty, Box::new(opt_nodes(*default))),
        NodeKind::AssocType { bounds } => opt_nodes(*bounds),
        NodeKind::AssocBinding { name: _, ty } => single(*ty),
        NodeKind::StructType { generics, kind } => append(dup_nodes(generics),
            match kind {
                StructKind::Unit => List::Nil,
                StructKind::Tuple(l) => dup_nodes(l),
                StructKind::Record(l) => dup_nodes(l),
            }),
        NodeKind::EnumType { variants, generics } => append(dup_nodes(generics), dup_nodes(variants)),
        NodeKind::TraitType { members, generics } => append(dup_nodes(generics), dup_nodes(members)),
        NodeKind::DistinctType { inner } => single(*inner),
        NodeKind::Variant { name: _, payload, value } => append(match payload {
                VariantPayload::Unit => List::Nil,
                VariantPayload::Tuple(l) => dup_nodes(l),
                VariantPayload::Record(l) => dup_nodes(l),
            },
            opt_nodes(*value)),
        NodeKind::Field { name: _, ty } => single(*ty),
        NodeKind::Overload { members } => dup_nodes(members),
        NodeKind::ImplType { bounds } => single(*bounds),
        NodeKind::PtrType { mutable: _, inner } => single(*inner),
        NodeKind::SliceType { mutable: _, inner } => single(*inner),
        NodeKind::ArrayType { len, mutable: _, inner } => List::Cons(*len, Box::new(single(*inner))),
        NodeKind::TupleType { elems } => dup_nodes(elems),
        NodeKind::FuncType { params, ret, abi: _ } => append(dup_nodes(params), opt_nodes(*ret)),
        NodeKind::DynType { inner } => single(*inner),
        NodeKind::TypePath { path, generic_args } => List::Cons(*path, Box::new(dup_nodes(generic_args))),
        NodeKind::VariantPat { name: _, args } => match args {
            VariantPatArgs::Unit => List::Nil,
            VariantPatArgs::Tuple(l) => dup_nodes(l),
            VariantPatArgs::Record { fields, rest: _ } => dup_nodes(fields),
        },
        NodeKind::TuplePat { elems } => dup_nodes(elems),
        NodeKind::OrPat { alternatives } => dup_nodes(alternatives),
        NodeKind::AtPat { name: _, pattern } => single(*pattern),
        NodeKind::RefPat { pattern } => single(*pattern),
        NodeKind::StructPat { path, fields, rest: _ } => opt_then(*path, dup_nodes(fields)),
        NodeKind::TupleStructPat { path, elems, rest: _ } => List::Cons(*path, Box::new(dup_nodes(elems))),
        NodeKind::SlicePat { elems, rest: _ } => dup_nodes(elems),
        NodeKind::RangePat { start, end, kind: _ } => opt_then(*start, opt_nodes(*end)),
        NodeKind::FieldPat { name: _, pattern } => opt_nodes(*pattern),
        _ => List::Nil,
    }
}

/// [`composite_children`], as a mathematical function.
pub open spec fn composite_children_spec(body: &CompositeBody) -> List<NodeId> {
    match body {
        CompositeBody::Named { fields, spread } => crate::list::append_spec(
            (*fields),
            opt_nodes_spec(*spread),
        ),
        CompositeBody::Positional(l) => (*l),
        CompositeBody::Repeat { value, count } => List::Cons(
            *value,
            Box::new(crate::list::single_spec(*count)),
        ),
    }
}

/// The nodes of a composite literal's body.
pub fn composite_children(body: &CompositeBody) -> (r: List<NodeId>)
    ensures
        r == composite_children_spec(body),
{
    match body {
        CompositeBody::Named { fields, spread } => append(dup_nodes(fields), opt_nodes(*spread)),
        CompositeBody::Positional(l) => dup_nodes(l),
        CompositeBody::Repeat { value, count } => List::Cons(*value, Box::new(single(*count))),
    }
}

} // verus!
