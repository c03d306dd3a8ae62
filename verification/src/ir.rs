//! The lowered program: small typed trees, and the side tables that say what is
//! known about each of their nodes.

use vstd::prelude::*;

use crate::ast::{dup_lit, BinOp, Lit, UnOp};
use crate::def::{Directive, ParamDefault};
use crate::facts::{BuiltinOp, Generics, Instantiation, RangeReported};
use crate::ids::{DefId, FileSpan, IrId};
use crate::list::List;
use crate::symbol::{dup_sym, Symbol};
use crate::table::Table;
use crate::ty::{dup_ty, dup_tys, Ty};

verus! {

/// How a call reaches its callee.
pub enum Dispatch {
    /// A known function.
    Static,
    /// A vtable slot.
    Virtual { trait_def: DefId, method: DefId },
    /// A bound awaiting monomorphization.
    Generic { trait_def: DefId, method: DefId, self_ty: Ty, trait_args: List<Ty> },
    /// A value that implements `Func`.
    Func { self_ty: Ty },
}

/// An expression.
pub struct Expr {
    pub id: IrId,
    pub kind: ExprKind,
}

/// The shape of an expression.
#[allow(inconsistent_fields)]
pub enum ExprKind {
    Lit(Lit),
    Local(DefId),
    Global(DefId),
    ConstParam(DefId),
    Field { base: Box<Expr>, name: Symbol, def: Option<DefId> },
    TupleIndex { base: Box<Expr>, index: u64 },
    Call { callee: Box<Expr>, args: Box<List<Expr>>, builtin: Option<BuiltinOp>, dispatch: Dispatch },
    Intrinsic { name: Symbol, args: Box<List<Expr>> },
    Binary { op: BinOp, lhs: Box<Expr>, rhs: Box<Expr> },
    Unary { op: UnOp, operand: Box<Expr> },
    Ref { mutable: bool, place: Box<Expr> },
    Deref { base: Box<Expr> },
    DynCast { value: Box<Expr>, concrete: Ty },
    Construct { def: Option<DefId>, fields: Box<List<(Symbol, Expr)>> },
    Tuple { elems: Box<List<Expr>> },
    Variant { name: Symbol, args: Box<List<Expr>> },
    If { cond: Box<Expr>, then: Box<Block>, els: Option<Box<Block>> },
    Match { scrutinee: Box<Expr>, arms: Box<List<Arm>> },
    Loop { body: Box<Block> },
    Block(Box<Block>),
    Error,
}

/// A block: statements, and the value it ends in.
pub struct Block {
    pub id: IrId,
    pub stmts: Box<List<Stmt>>,
    pub tail: Option<Box<Expr>>,
}

/// A statement.
pub struct Stmt {
    pub id: IrId,
    pub kind: StmtKind,
}

/// The shape of a statement.
pub enum StmtKind {
    Let { pattern: Pattern, init: Expr },
    Assign { place: Expr, value: Expr },
    Return(Option<Expr>),
    Break(Option<Expr>),
    Continue,
    Defer(Expr),
    Expr(Expr),
}

/// One arm of a match.
pub struct Arm {
    pub id: IrId,
    pub pattern: Pattern,
    pub guard: Option<Expr>,
    pub body: Expr,
}

/// A pattern.
pub struct Pattern {
    pub id: IrId,
    pub kind: PatternKind,
}

/// A name a pattern binds beside what it matches.
pub struct Binding {
    pub id: IrId,
    pub def: DefId,
    pub name: Symbol,
}

/// The shape of a pattern.
#[allow(inconsistent_fields)]
pub enum PatternKind {
    Wildcard,
    Binding { def: DefId, name: Symbol },
    Lit(Lit),
    Variant { name: Symbol, sub: Box<List<Pattern>> },
    Tuple(Box<List<Pattern>>),
    Or(Box<List<Pattern>>),
    At { binding: Binding, pattern: Box<Pattern> },
    Deref(Box<Pattern>),
    Struct { def: Option<DefId>, fields: Box<List<(Symbol, Pattern)>>, rest: bool },
    TupleStruct { def: Option<DefId>, elems: Box<List<Pattern>>, rest: bool },
    /// The patterns before the `..`, the `..` with the name it binds, and the
    /// patterns after it.
    Slice { prefix: Box<List<Pattern>>, rest: Option<Option<Binding>>, suffix: Box<List<Pattern>> },
    Range { start: Option<Lit>, end: Option<Lit>, inclusive: bool },
}

/// How a function takes its receiver.
#[derive(Debug, Clone, Copy, PartialEq, Eq, Structural)]
pub enum Recv {
    Free,
    Value,
    Ptr,
    MutPtr,
}

/// A parameter.
pub struct Param {
    pub id: IrId,
    pub def: DefId,
    pub name: Symbol,
}

/// A function.
pub struct Function {
    pub id: IrId,
    pub def: DefId,
    pub name: Symbol,
    pub params: List<Param>,
    pub body: Option<Block>,
    pub abi: Option<Symbol>,
    pub recv: Recv,
    /// Whether a parameter lets the callee write into the caller's storage.
    pub mutating: bool,
}

/// A constant or a static region.
pub struct Global {
    pub id: IrId,
    pub def: DefId,
    pub name: Symbol,
    pub init: Option<Expr>,
    pub mutable: bool,
}

/// A member of a type.
pub struct Member {
    pub id: IrId,
    pub def: Option<DefId>,
    pub name: Symbol,
}

/// A variant of an enum.
pub struct Variant {
    pub id: IrId,
    pub def: DefId,
    pub name: Symbol,
    pub members: List<Member>,
    pub tuple: bool,
    pub tag: i128,
}

/// A method a trait declares.
pub struct TraitMethod {
    pub id: IrId,
    pub def: DefId,
    pub name: Symbol,
    pub recv: Recv,
    pub generic: bool,
    pub has_default: bool,
    pub sized_self: bool,
}

/// A constant a trait declares.
pub struct AssocConst {
    pub id: IrId,
    pub def: DefId,
    pub name: Symbol,
}

/// What a type definition holds.
pub enum TypeDefKind {
    Struct { members: List<Member> },
    Enum { variants: List<Variant> },
    Distinct { repr: Member },
    Trait { methods: List<TraitMethod>, consts: List<AssocConst> },
}

/// A type definition.
pub struct TypeDef {
    pub id: IrId,
    pub def: DefId,
    pub name: Symbol,
    pub kind: TypeDefKind,
}

/// A file's lowered program.
pub struct Program {
    pub types: List<TypeDef>,
    pub globals: List<Global>,
    pub funcs: List<Function>,
}

/// Marks a conversion nothing in the source wrote.
#[derive(Debug, Clone, Copy, PartialEq, Eq, Structural)]
pub struct ImplicitCast;

/// Marks a call whose one argument is a tuple to spread.
#[derive(Debug, Clone, Copy, PartialEq, Eq, Structural)]
pub struct SpreadArgs;

/// The id allocator and the side tables.
pub struct Meta {
    pub next: u64,
    pub spans: Table<FileSpan>,
    pub tys: Table<Ty>,
    pub directives: Table<List<Directive>>,
    pub generics: Table<Generics>,
    pub defaults: Table<Expr>,
    pub implicit_casts: Table<ImplicitCast>,
    pub range_reported: Table<RangeReported>,
    pub spread_args: Table<SpreadArgs>,
    pub instantiations: Table<Instantiation>,
    /// The locals a function keeps in cells.
    pub boxed: Table<List<DefId>>,
}

/// The same, as maps.
pub struct MetaV {
    pub next: u64,
    pub spans: Map<u64, FileSpan>,
    pub tys: Map<u64, Ty>,
    pub directives: Map<u64, List<Directive>>,
    pub generics: Map<u64, Generics>,
    pub defaults: Map<u64, Expr>,
    pub implicit_casts: Map<u64, ImplicitCast>,
    pub range_reported: Map<u64, RangeReported>,
    pub spread_args: Map<u64, SpreadArgs>,
    pub instantiations: Map<u64, Instantiation>,
    pub boxed: Map<u64, List<DefId>>,
}

impl View for Meta {
    type V = MetaV;

    open spec fn view(&self) -> MetaV {
        MetaV {
            next: self.next,
            spans: self.spans@,
            tys: self.tys@,
            directives: self.directives@,
            generics: self.generics@,
            defaults: self.defaults@,
            implicit_casts: self.implicit_casts@,
            range_reported: self.range_reported@,
            spread_args: self.spread_args@,
            instantiations: self.instantiations@,
            boxed: self.boxed@,
        }
    }
}

/// Side tables with nothing in them.
pub open spec fn empty_meta() -> MetaV {
    MetaV {
        next: 0,
        spans: Map::empty(),
        tys: Map::empty(),
        directives: Map::empty(),
        generics: Map::empty(),
        defaults: Map::empty(),
        implicit_casts: Map::empty(),
        range_reported: Map::empty(),
        spread_args: Map::empty(),
        instantiations: Map::empty(),
        boxed: Map::empty(),
    }
}

impl Meta {
    /// Side tables with nothing in them.
    pub fn new() -> (r: Meta)
        ensures
            r@ == empty_meta(),
    {
        Meta {
            next: 0,
            spans: Table::new(),
            tys: Table::new(),
            directives: Table::new(),
            generics: Table::new(),
            defaults: Table::new(),
            implicit_casts: Table::new(),
            range_reported: Table::new(),
            spread_args: Table::new(),
            instantiations: Table::new(),
            boxed: Table::new(),
        }
    }
}

/// A copy.
pub fn dup_expr(x: &Expr) -> (r: Expr)
    ensures
        r == *x,
    decreases x,
{
    Expr {
        id: x.id,
        kind: dup_expr_kind(&x.kind),
    }
}

/// A copy.
fn dup_expr_kind(x: &ExprKind) -> (r: ExprKind)
    ensures
        r == *x,
    decreases x,
{
    match x {
        ExprKind::Lit(a) => ExprKind::Lit(dup_lit(a)),
        ExprKind::Local(a) => ExprKind::Local(*a),
        ExprKind::Global(a) => ExprKind::Global(*a),
        ExprKind::ConstParam(a) => ExprKind::ConstParam(*a),
        ExprKind::Field { base, name, def } => ExprKind::Field {
            base: Box::new(dup_expr(base)),
            name: dup_sym(name),
            def: *def,
        },
        ExprKind::TupleIndex { base, index } => ExprKind::TupleIndex {
            base: Box::new(dup_expr(base)),
            index: *index,
        },
        ExprKind::Call { callee, args, builtin, dispatch } => ExprKind::Call {
            callee: Box::new(dup_expr(callee)),
            args: Box::new(dup_exprs(args)),
            builtin: *builtin,
            dispatch: dup_ir_dispatch(dispatch),
        },
        ExprKind::Intrinsic { name, args } => ExprKind::Intrinsic {
            name: dup_sym(name),
            args: Box::new(dup_exprs(args)),
        },
        ExprKind::Binary { op, lhs, rhs } => ExprKind::Binary {
            op: *op,
            lhs: Box::new(dup_expr(lhs)),
            rhs: Box::new(dup_expr(rhs)),
        },
        ExprKind::Unary { op, operand } => ExprKind::Unary {
            op: *op,
            operand: Box::new(dup_expr(operand)),
        },
        ExprKind::Ref { mutable, place } => ExprKind::Ref {
            mutable: *mutable,
            place: Box::new(dup_expr(place)),
        },
        ExprKind::Deref { base } => ExprKind::Deref {
            base: Box::new(dup_expr(base)),
        },
        ExprKind::DynCast { value, concrete } => ExprKind::DynCast {
            value: Box::new(dup_expr(value)),
            concrete: dup_ty(concrete),
        },
        ExprKind::Construct { def, fields } => ExprKind::Construct {
            def: *def,
            fields: Box::new(dup_named_exprs(fields)),
        },
        ExprKind::Tuple { elems } => ExprKind::Tuple {
            elems: Box::new(dup_exprs(elems)),
        },
        ExprKind::Variant { name, args } => ExprKind::Variant {
            name: dup_sym(name),
            args: Box::new(dup_exprs(args)),
        },
        ExprKind::If { cond, then, els } => ExprKind::If {
            cond: Box::new(dup_expr(cond)),
            then: Box::new(dup_block(then)),
            els: dup_opt_box_block(els),
        },
        ExprKind::Match { scrutinee, arms } => ExprKind::Match {
            scrutinee: Box::new(dup_expr(scrutinee)),
            arms: Box::new(dup_arms(arms)),
        },
        ExprKind::Loop { body } => ExprKind::Loop {
            body: Box::new(dup_block(body)),
        },
        ExprKind::Block(a) => ExprKind::Block(Box::new(dup_block(a))),
        ExprKind::Error => ExprKind::Error,
    }
}

/// A copy.
pub fn dup_exprs(x: &List<Expr>) -> (r: List<Expr>)
    ensures
        r == *x,
    decreases x,
{
    match x {
        List::Nil => List::Nil,
        List::Cons(h, t) => List::Cons(dup_expr(h), Box::new(dup_exprs(t))),
    }
}

/// A copy.
fn dup_ir_dispatch(x: &Dispatch) -> (r: Dispatch)
    ensures
        r == *x,
{
    match x {
        Dispatch::Static => Dispatch::Static,
        Dispatch::Virtual { trait_def, method } => Dispatch::Virtual {
            trait_def: *trait_def,
            method: *method,
        },
        Dispatch::Generic { trait_def, method, self_ty, trait_args } => Dispatch::Generic {
            trait_def: *trait_def,
            method: *method,
            self_ty: dup_ty(self_ty),
            trait_args: dup_tys(trait_args),
        },
        Dispatch::Func { self_ty } => Dispatch::Func {
            self_ty: dup_ty(self_ty),
        },
    }
}

/// A copy.
fn dup_named_exprs(x: &List<(Symbol, Expr)>) -> (r: List<(Symbol, Expr)>)
    ensures
        r == *x,
    decreases x,
{
    match x {
        List::Nil => List::Nil,
        List::Cons(h, t) => {
            let (n, e) = h;
            List::Cons((dup_sym(n), dup_expr(e)), Box::new(dup_named_exprs(t)))
        },
    }
}

/// A copy.
fn dup_block(x: &Block) -> (r: Block)
    ensures
        r == *x,
    decreases x,
{
    Block {
        id: x.id,
        stmts: Box::new(dup_stmts(&x.stmts)),
        tail: dup_opt_box_expr(&x.tail),
    }
}

/// A copy.
fn dup_stmts(x: &List<Stmt>) -> (r: List<Stmt>)
    ensures
        r == *x,
    decreases x,
{
    match x {
        List::Nil => List::Nil,
        List::Cons(h, t) => List::Cons(dup_stmt(h), Box::new(dup_stmts(t))),
    }
}

/// A copy.
fn dup_stmt(x: &Stmt) -> (r: Stmt)
    ensures
        r == *x,
    decreases x,
{
    Stmt {
        id: x.id,
        kind: dup_stmt_kind(&x.kind),
    }
}

/// A copy.
fn dup_stmt_kind(x: &StmtKind) -> (r: StmtKind)
    ensures
        r == *x,
    decreases x,
{
    match x {
        StmtKind::Let { pattern, init } => StmtKind::Let {
            pattern: dup_pattern(pattern),
            init: dup_expr(init),
        },
        StmtKind::Assign { place, value } => StmtKind::Assign {
            place: dup_expr(place),
            value: dup_expr(value),
        },
        StmtKind::Return(a) => StmtKind::Return(dup_opt_expr(a)),
        StmtKind::Break(a) => StmtKind::Break(dup_opt_expr(a)),
        StmtKind::Continue => StmtKind::Continue,
        StmtKind::Defer(a) => StmtKind::Defer(dup_expr(a)),
        StmtKind::Expr(a) => StmtKind::Expr(dup_expr(a)),
    }
}

/// A copy.
fn dup_pattern(x: &Pattern) -> (r: Pattern)
    ensures
        r == *x,
    decreases x,
{
    Pattern {
        id: x.id,
        kind: dup_pattern_kind(&x.kind),
    }
}

/// A copy.
fn dup_pattern_kind(x: &PatternKind) -> (r: PatternKind)
    ensures
        r == *x,
    decreases x,
{
    match x {
        PatternKind::Wildcard => PatternKind::Wildcard,
        PatternKind::Binding { def, name } => PatternKind::Binding {
            def: *def,
            name: dup_sym(name),
        },
        PatternKind::Lit(a) => PatternKind::Lit(dup_lit(a)),
        PatternKind::Variant { name, sub } => PatternKind::Variant {
            name: dup_sym(name),
            sub: Box::new(dup_patterns(sub)),
        },
        PatternKind::Tuple(a) => PatternKind::Tuple(Box::new(dup_patterns(a))),
        PatternKind::Or(a) => PatternKind::Or(Box::new(dup_patterns(a))),
        PatternKind::At { binding, pattern } => PatternKind::At {
            binding: dup_binding(binding),
            pattern: Box::new(dup_pattern(pattern)),
        },
        PatternKind::Deref(a) => PatternKind::Deref(Box::new(dup_pattern(a))),
        PatternKind::Struct { def, fields, rest } => PatternKind::Struct {
            def: *def,
            fields: Box::new(dup_named_patterns(fields)),
            rest: *rest,
        },
        PatternKind::TupleStruct { def, elems, rest } => PatternKind::TupleStruct {
            def: *def,
            elems: Box::new(dup_patterns(elems)),
            rest: *rest,
        },
        PatternKind::Slice { prefix, rest, suffix } => PatternKind::Slice {
            prefix: Box::new(dup_patterns(prefix)),
            rest: dup_opt_rest(rest),
            suffix: Box::new(dup_patterns(suffix)),
        },
        PatternKind::Range { start, end, inclusive } => PatternKind::Range {
            start: dup_opt_lit(start),
            end: dup_opt_lit(end),
            inclusive: *inclusive,
        },
    }
}

/// A copy.
fn dup_patterns(x: &List<Pattern>) -> (r: List<Pattern>)
    ensures
        r == *x,
    decreases x,
{
    match x {
        List::Nil => List::Nil,
        List::Cons(h, t) => List::Cons(dup_pattern(h), Box::new(dup_patterns(t))),
    }
}

/// A copy.
fn dup_binding(x: &Binding) -> (r: Binding)
    ensures
        r == *x,
{
    Binding {
        id: x.id,
        def: x.def,
        name: dup_sym(&x.name),
    }
}

/// A copy.
fn dup_named_patterns(x: &List<(Symbol, Pattern)>) -> (r: List<(Symbol, Pattern)>)
    ensures
        r == *x,
    decreases x,
{
    match x {
        List::Nil => List::Nil,
        List::Cons(h, t) => {
            let (n, e) = h;
            List::Cons((dup_sym(n), dup_pattern(e)), Box::new(dup_named_patterns(t)))
        },
    }
}

/// A copy.
fn dup_opt_rest(x: &Option<Option<Binding>>) -> (r: Option<Option<Binding>>)
    ensures
        r == *x,
{
    match x {
        Some(o) => match o {
            Some(b) => Some(Some(dup_binding(b))),
            None => Some(None),
        },
        None => None,
    }
}

/// A copy.
fn dup_opt_lit(x: &Option<Lit>) -> (r: Option<Lit>)
    ensures
        r == *x,
{
    match x {
        Some(y) => Some(dup_lit(y)),
        None => None,
    }
}

/// A copy.
pub fn dup_opt_expr(x: &Option<Expr>) -> (r: Option<Expr>)
    ensures
        r == *x,
    decreases x,
{
    match x {
        Some(y) => Some(dup_expr(y)),
        None => None,
    }
}

/// A copy.
fn dup_opt_box_expr(x: &Option<Box<Expr>>) -> (r: Option<Box<Expr>>)
    ensures
        r == *x,
    decreases x,
{
    match x {
        Some(y) => Some(Box::new(dup_expr(y))),
        None => None,
    }
}

/// A copy.
fn dup_opt_box_block(x: &Option<Box<Block>>) -> (r: Option<Box<Block>>)
    ensures
        r == *x,
    decreases x,
{
    match x {
        Some(y) => Some(Box::new(dup_block(y))),
        None => None,
    }
}

/// A copy.
fn dup_arms(x: &List<Arm>) -> (r: List<Arm>)
    ensures
        r == *x,
    decreases x,
{
    match x {
        List::Nil => List::Nil,
        List::Cons(h, t) => List::Cons(dup_arm(h), Box::new(dup_arms(t))),
    }
}

/// A copy.
fn dup_arm(x: &Arm) -> (r: Arm)
    ensures
        r == *x,
    decreases x,
{
    Arm {
        id: x.id,
        pattern: dup_pattern(&x.pattern),
        guard: dup_opt_expr(&x.guard),
        body: dup_expr(&x.body),
    }
}

/// A copy.
pub fn dup_opt_exprs(x: &List<Option<Expr>>) -> (r: List<Option<Expr>>)
    ensures
        r == *x,
    decreases x,
{
    match x {
        List::Nil => List::Nil,
        List::Cons(h, t) => List::Cons(dup_opt_expr(h), Box::new(dup_opt_exprs(t))),
    }
}
} // verus!
