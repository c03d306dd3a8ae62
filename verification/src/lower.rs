//! Lowering: the stage that turns a resolved and typed tree into the small
//! typed program of [`crate::ir`].
//!
//! It runs after inference, so every expression already has a type among the
//! facts. What it does is make structure explicit:
//!
//! - `while cond { body }` becomes `loop { if !cond { break }; body }`;
//! - `if match p := v { .. }` becomes `match v { p => then, _ => els }`;
//! - a field or index access whose base is a pointer gets a written-out deref;
//! - `defer` stays where it was written;
//! - implicit coercions become explicit: an `@using` upcast is a field access,
//!   an unsizing builds the fat pointer, a literal that settles on a runtime
//!   type gets its cast;
//! - a method call is an ordinary call whose first argument is the receiver,
//!   adjusted to what the `self` parameter wants;
//! - an operator is a call to the method its trait resolved to;
//! - a closure is the struct of what it captured, and a function of its own
//!   taking that struct first.
//!
//! Each step is written twice: as the function that runs, and as a function on
//! mathematical states that says what it computes. A state maps to its
//! successor together with the tree that was built, so ids, spans and types are
//! all accounted for.

use vstd::prelude::*;

use crate::ast::{
    children, dup_lit, BinOp, CompositeBody, Lit, NodeKind, RangeKind, StructKind, UnOp, VariantArgs,
    VariantPatArgs, VariantPayload,
};
use crate::bigint::{int_neg, int_of, list_of_seq_holds_it};
use crate::def::{
    bound_rhs, decl_of, def_count, def_file, def_in, def_kind, def_name, def_node, def_place, directives_of,
    dup_defs, func_of, get_def, intrinsic_of, kind_of, lang_def, lang_ty, member_of, resolve_alias, source_of,
    span_of, DefKind, Directive, ParamDefault, Tables,
};
use crate::facts::{
    dup_generics, dup_instantiation, dup_slots, fact_arg_order, fact_captures, fact_closure_defs,
    fact_closure_sig, fact_coercion, fact_def_meta, fact_distinct_recv, fact_dyn_coerce, fact_func_call,
    fact_func_call_method, fact_generics, fact_index_write, fact_instantiation, fact_method_res,
    fact_op_resolution, fact_range_reported, fact_resolution, fact_signature, fact_slice_coerce,
    fact_static_trait_self, fact_ty, fact_upcast, fact_variant_tag, ClosureDefs, ClosureSig, Facts,
    FuncCallMethod, Generics, Instantiation, MethodDispatch, MethodRes, OpResolution, RangeReported,
    RecvAdjust, Resolution, Upcast,
};
use crate::ids::{def_at, def_key, DefId, FileId, FileSpan, IrId, NodeId};
use crate::ir::{
    dup_expr, dup_opt_expr, Arm, AssocConst, Binding, Block, Dispatch, Expr, ExprKind, Function, Global,
    ImplicitCast, Member, Meta, MetaV, Param, Pattern, PatternKind, Program, Recv, SpreadArgs, Stmt, StmtKind,
    TraitMethod, TypeDef, TypeDefKind, Variant,
};
use crate::list::{append, is_empty, list2, list3, list_len, list_of, nth, single, succ, DEPTH_LIMIT, List};
use crate::symbol::{
    dup_sym, dup_syms, dup_text, index_sym, numbered_sym, sym, sym_eq, sym_in, sym_is, Symbol,
};
use crate::table::Table;
use crate::ty::{const_value, dup_ty, dup_tys, int_ty, is_float, is_int, nominal, nominals, Ty};

verus! {

broadcast use {
    crate::placing::all_known_stay,
    crate::placing::deep_stays,
    crate::placing::kept_by_both,
    crate::placing::kept_by_nothing,
    crate::placing::known_stays,
    crate::placing::one_known,
    crate::placing::two_known,
};

/// What lowering a file produced.
pub struct Lowered {
    /// The file's program.
    pub program: Program,
    /// Each function's value-parameter defaults, in declaration order.
    pub defaults: List<(DefId, List<Option<ParamDefault>>)>,
    /// Whether the program holds an error in place of something nested too deeply
    /// to be lowered.
    pub deep: bool,
}

/// What lowering reads: the program's tables, and the facts about its nodes.
pub struct LowerCx<'a> {
    pub tables: &'a Tables,
    pub facts: &'a Facts,
}

/// A closure being lowered: how its body reaches what it captured.
pub struct ClosureCx {
    /// Its body's first parameter, the closure itself.
    pub this: DefId,
    /// That parameter's type, a pointer to the closure.
    pub this_ty: Ty,
    /// Every captured definition the body may name: the member it is in, the
    /// member's type, and whether the member points at a shared local.
    pub fields: List<(DefId, (Symbol, Ty, bool))>,
}

/// The state of lowering a file.
pub struct Lowerer {
    /// The id allocator and the side tables of the lowered program.
    pub meta: Meta,
    /// The file being lowered, or the one a default argument was written in
    /// while that default is.
    pub file: FileId,
    /// Lowered default arguments, per callee, in value-parameter order.
    pub defaults: Table<List<Option<Expr>>>,
    /// Where each of those went, per function.
    pub recorded: List<(DefId, List<Option<ParamDefault>>)>,
    /// The closures whose bodies are being lowered, innermost first.
    pub closures: List<ClosureCx>,
    /// Each closure's body, lifted into a function of its own.
    pub lifted: List<Function>,
    /// Each closure's type.
    pub lifted_types: List<TypeDef>,
    /// Whether a walk gave up on something nested too deeply.
    pub deep: bool,
    /// The ids that no place is recorded for: those of arguments that a call leaves
    /// out and no default fills, of defaults whose place is not recorded here, and
    /// of what is derived from these.
    pub unplaced: Ghost<Set<u64>>,
}

/// The state of lowering a file, as a mathematical value.
pub struct LowererV {
    pub meta: MetaV,
    pub file: FileId,
    pub defaults: Map<u64, List<Option<Expr>>>,
    pub recorded: List<(DefId, List<Option<ParamDefault>>)>,
    pub closures: List<ClosureCx>,
    pub lifted: List<Function>,
    pub lifted_types: List<TypeDef>,
    pub deep: bool,
    pub unplaced: Set<u64>,
}

impl View for Lowerer {
    type V = LowererV;

    open spec fn view(&self) -> LowererV {
        LowererV {
            meta: self.meta@,
            file: self.file,
            defaults: self.defaults@,
            recorded: self.recorded,
            closures: self.closures,
            lifted: self.lifted,
            lifted_types: self.lifted_types,
            deep: self.deep,
            unplaced: self.unplaced@,
        }
    }
}

// The side tables.

/// [`Lowerer::fresh`], as a mathematical function.
pub open spec fn fresh_spec(st: LowererV) -> (LowererV, IrId) {
    (
        LowererV { meta: MetaV { next: crate::list::succ_spec(st.meta.next), ..st.meta }, ..st },
        IrId(st.meta.next),
    )
}

/// Give up on something nested too deeply.
pub open spec fn give_up_spec(st: LowererV) -> LowererV {
    LowererV { deep: true, ..st }
}

/// Note that an argument nothing supplies has no place.
pub open spec fn note_missing_spec(st: LowererV, id: IrId) -> LowererV {
    LowererV { unplaced: st.unplaced.insert(id.0), ..st }
}

/// Note that what is derived from something that has no place has none either.
pub open spec fn note_derived_spec(st: LowererV, from: IrId, id: IrId) -> LowererV {
    if st.unplaced.contains(from.0) {
        LowererV { unplaced: st.unplaced.insert(id.0), ..st }
    } else {
        st
    }
}

/// Note a default whose place is not recorded here.
pub open spec fn note_default_spec(st: LowererV, id: IrId) -> LowererV {
    if st.meta.spans.dom().contains(id.0) {
        st
    } else {
        LowererV { unplaced: st.unplaced.insert(id.0), ..st }
    }
}

/// [`Lowerer::set_span`], as a mathematical function.
pub open spec fn set_span_spec(st: LowererV, id: IrId, x: FileSpan) -> LowererV {
    LowererV { meta: MetaV { spans: st.meta.spans.insert(id.0, x), ..st.meta }, ..st }
}

/// [`Lowerer::set_ty`], as a mathematical function.
pub open spec fn set_ty_spec(st: LowererV, id: IrId, x: Ty) -> LowererV {
    LowererV { meta: MetaV { tys: st.meta.tys.insert(id.0, x), ..st.meta }, ..st }
}

/// [`Lowerer::set_directives`], as a mathematical function.
pub open spec fn set_directives_spec(st: LowererV, id: IrId, x: List<Directive>) -> LowererV {
    LowererV { meta: MetaV { directives: st.meta.directives.insert(id.0, x), ..st.meta }, ..st }
}

/// [`Lowerer::set_generics`], as a mathematical function.
pub open spec fn set_generics_spec(st: LowererV, id: IrId, x: Generics) -> LowererV {
    LowererV { meta: MetaV { generics: st.meta.generics.insert(id.0, x), ..st.meta }, ..st }
}

/// [`Lowerer::set_default`], as a mathematical function.
pub open spec fn set_default_spec(st: LowererV, id: IrId, x: Expr) -> LowererV {
    LowererV { meta: MetaV { defaults: st.meta.defaults.insert(id.0, x), ..st.meta }, ..st }
}

/// [`Lowerer::set_implicit_cast`], as a mathematical function.
pub open spec fn set_implicit_cast_spec(st: LowererV, id: IrId) -> LowererV {
    LowererV {
        meta: MetaV { implicit_casts: st.meta.implicit_casts.insert(id.0, ImplicitCast), ..st.meta },
        ..st
    }
}

/// [`Lowerer::set_range_reported`], as a mathematical function.
pub open spec fn set_range_reported_spec(st: LowererV, id: IrId) -> LowererV {
    LowererV {
        meta: MetaV { range_reported: st.meta.range_reported.insert(id.0, RangeReported), ..st.meta },
        ..st
    }
}

/// [`Lowerer::set_spread_args`], as a mathematical function.
pub open spec fn set_spread_args_spec(st: LowererV, id: IrId) -> LowererV {
    LowererV { meta: MetaV { spread_args: st.meta.spread_args.insert(id.0, SpreadArgs), ..st.meta }, ..st }
}

/// [`Lowerer::set_instantiation`], as a mathematical function.
pub open spec fn set_instantiation_spec(st: LowererV, id: IrId, x: Instantiation) -> LowererV {
    LowererV { meta: MetaV { instantiations: st.meta.instantiations.insert(id.0, x), ..st.meta }, ..st }
}

/// [`Lowerer::set_boxed`], as a mathematical function.
pub open spec fn set_boxed_spec(st: LowererV, id: IrId, x: List<DefId>) -> LowererV {
    LowererV { meta: MetaV { boxed: st.meta.boxed.insert(id.0, x), ..st.meta }, ..st }
}

/// [`Lowerer::cache_defaults`], as a mathematical function.
pub open spec fn cache_defaults_spec(st: LowererV, def: DefId, x: List<Option<Expr>>) -> LowererV {
    LowererV { defaults: st.defaults.insert(crate::ids::def_key_spec(def), x), ..st }
}

/// [`Lowerer::span`], as a mathematical function.
pub open spec fn span_spec(st: LowererV, id: IrId) -> Option<FileSpan> {
    if st.meta.spans.dom().contains(id.0) { Some(st.meta.spans[id.0]) } else { None }
}

/// [`Lowerer::ty_or_error`], as a mathematical function.
pub open spec fn ty_or_error_spec(st: LowererV, id: IrId) -> Ty {
    if st.meta.tys.dom().contains(id.0) { st.meta.tys[id.0] } else { Ty::Error }
}

/// [`Lowerer::default_value`], as a mathematical function.
pub open spec fn default_value_spec(st: LowererV, id: IrId) -> Option<Expr> {
    if st.meta.defaults.dom().contains(id.0) { Some(st.meta.defaults[id.0]) } else { None }
}

/// The cached default at a position, if the callee's defaults are cached at all.
pub open spec fn cached_default_spec(st: LowererV, def: DefId, i: u64) -> Option<Option<Expr>> {
    let k = crate::ids::def_key_spec(def);
    if st.defaults.dom().contains(k) {
        match crate::list::nth_spec(&st.defaults[k], i) {
            Some(e) => Some(*e),
            None => Some(None),
        }
    } else {
        None
    }
}

impl Lowerer {
    /// Hand out the next id.
    pub fn fresh(&mut self) -> (r: IrId)
        ensures
            (final(self)@, r) == fresh_spec(old(self)@),
    {
        let id: u64 = self.meta.next;
        self.meta.next = succ(id);
        IrId(id)
    }

    /// Give up on something nested too deeply.
    pub fn give_up(&mut self)
        ensures
            final(self)@ == give_up_spec(old(self)@),
            crate::placing::kept(old(self)@, final(self)@),
    {
        proof {
            reveal(crate::placing::kept);
            reveal(crate::placing::known);
        }
        self.deep = true;
    }

    /// Note that an argument nothing supplies has no place.
    pub fn note_missing(&mut self, id: IrId)
        ensures
            final(self)@ == note_missing_spec(old(self)@, id),
            crate::placing::known(final(self)@, id.0),
    {
        proof {
            reveal(crate::placing::known);
        }
        self.unplaced = Ghost(self.unplaced@.insert(id.0));
    }

    /// Note that what is derived from something that has no place has none either.
    pub fn note_derived(&mut self, from: IrId, id: IrId)
        ensures
            final(self)@ == note_derived_spec(old(self)@, from, id),
    {
        self.unplaced = Ghost(note_derived_spec(self@, from, id).unplaced);
    }

    /// Note a default whose place is not recorded here.
    pub fn note_default(&mut self, id: IrId)
        ensures
            final(self)@ == note_default_spec(old(self)@, id),
            crate::placing::known(final(self)@, id.0),
            crate::placing::kept(old(self)@, final(self)@),
    {
        proof {
            reveal(crate::placing::kept);
            reveal(crate::placing::known);
        }
        self.unplaced = Ghost(note_default_spec(self@, id).unplaced);
    }

    /// Record where a node was written.
    pub fn set_span(&mut self, id: IrId, x: FileSpan)
        ensures
            final(self)@ == set_span_spec(old(self)@, id, x),
            crate::placing::kept(old(self)@, final(self)@),
    {
        proof {
            reveal(crate::placing::kept);
            reveal(crate::placing::known);
        }
        self.meta.spans.set(id.0, x);
    }

    /// Record the type of a node.
    pub fn set_ty(&mut self, id: IrId, x: Ty)
        ensures
            final(self)@ == set_ty_spec(old(self)@, id, x),
            crate::placing::kept(old(self)@, final(self)@),
    {
        proof {
            reveal(crate::placing::kept);
            reveal(crate::placing::known);
        }
        self.meta.tys.set(id.0, x);
    }

    /// Record the directives of a definition.
    pub fn set_directives(&mut self, id: IrId, x: List<Directive>)
        ensures
            final(self)@ == set_directives_spec(old(self)@, id, x),
            crate::placing::kept(old(self)@, final(self)@),
    {
        proof {
            reveal(crate::placing::kept);
            reveal(crate::placing::known);
        }
        self.meta.directives.set(id.0, x);
    }

    /// Record what a definition is generic over.
    pub fn set_generics(&mut self, id: IrId, x: Generics)
        ensures
            final(self)@ == set_generics_spec(old(self)@, id, x),
            crate::placing::kept(old(self)@, final(self)@),
    {
        proof {
            reveal(crate::placing::kept);
            reveal(crate::placing::known);
        }
        self.meta.generics.set(id.0, x);
    }

    /// Keep the default of a parameter.
    pub fn set_default(&mut self, id: IrId, x: Expr)
        ensures
            final(self)@ == set_default_spec(old(self)@, id, x),
            crate::placing::kept(old(self)@, final(self)@),
    {
        proof {
            reveal(crate::placing::kept);
            reveal(crate::placing::known);
        }
        self.meta.defaults.set(id.0, x);
    }

    /// Mark a conversion nothing in the source wrote.
    pub fn set_implicit_cast(&mut self, id: IrId)
        ensures
            final(self)@ == set_implicit_cast_spec(old(self)@, id),
            crate::placing::kept(old(self)@, final(self)@),
    {
        proof {
            reveal(crate::placing::kept);
            reveal(crate::placing::known);
        }
        self.meta.implicit_casts.set(id.0, ImplicitCast);
    }

    /// Mark a conversion whose range was complained about.
    pub fn set_range_reported(&mut self, id: IrId)
        ensures
            final(self)@ == set_range_reported_spec(old(self)@, id),
            crate::placing::kept(old(self)@, final(self)@),
    {
        proof {
            reveal(crate::placing::kept);
            reveal(crate::placing::known);
        }
        self.meta.range_reported.set(id.0, RangeReported);
    }

    /// Mark a call whose one argument is a tuple to spread.
    pub fn set_spread_args(&mut self, id: IrId)
        ensures
            final(self)@ == set_spread_args_spec(old(self)@, id),
            crate::placing::kept(old(self)@, final(self)@),
    {
        proof {
            reveal(crate::placing::kept);
            reveal(crate::placing::known);
        }
        self.meta.spread_args.set(id.0, SpreadArgs);
    }

    /// Record what a call binds.
    pub fn set_instantiation(&mut self, id: IrId, x: Instantiation)
        ensures
            final(self)@ == set_instantiation_spec(old(self)@, id, x),
            crate::placing::kept(old(self)@, final(self)@),
    {
        proof {
            reveal(crate::placing::kept);
            reveal(crate::placing::known);
        }
        self.meta.instantiations.set(id.0, x);
    }

    /// Record the locals a function keeps in cells.
    pub fn set_boxed(&mut self, id: IrId, x: List<DefId>)
        ensures
            final(self)@ == set_boxed_spec(old(self)@, id, x),
            crate::placing::kept(old(self)@, final(self)@),
    {
        proof {
            reveal(crate::placing::kept);
            reveal(crate::placing::known);
        }
        self.meta.boxed.set(id.0, x);
    }

    /// Keep a callee's lowered defaults.
    pub fn cache_defaults(&mut self, def: DefId, x: List<Option<Expr>>)
        ensures
            final(self)@ == cache_defaults_spec(old(self)@, def, x),
            crate::placing::kept(old(self)@, final(self)@),
    {
        proof {
            reveal(crate::placing::kept);
            reveal(crate::placing::known);
        }
        self.defaults.set(def_key(def), x);
    }

    /// Where a lowered node came from.
    pub fn span(&self, id: IrId) -> (r: Option<FileSpan>)
        ensures
            r == span_spec(self@, id),
    {
        match self.meta.spans.get(id.0) {
            Some(s) => Some(*s),
            None => None,
        }
    }

    /// The type of a lowered node.
    pub fn ty_or_error(&self, id: IrId) -> (r: Ty)
        ensures
            r == ty_or_error_spec(self@, id),
    {
        match self.meta.tys.get(id.0) {
            Some(t) => dup_ty(t),
            None => Ty::Error,
        }
    }

    /// The default kept on a lowered parameter.
    pub fn default_value(&self, id: IrId) -> (r: Option<Expr>)
        ensures
            r == default_value_spec(self@, id),
    {
        match self.meta.defaults.get(id.0) {
            Some(e) => Some(dup_expr(e)),
            None => None,
        }
    }

    /// The cached default at a position, if the callee's defaults are cached.
    pub fn cached_default(&self, def: DefId, i: u64) -> (r: Option<Option<Expr>>)
        ensures
            r == cached_default_spec(self@, def, i),
    {
        match self.defaults.get(def_key(def)) {
            Some(l) => match nth(l, i) {
                Some(e) => Some(dup_opt_expr(e)),
                None => Some(None),
            },
            None => None,
        }
    }
}

// Reading the tables.

/// [`decl_item`], as a mathematical function.
pub open spec fn decl_item_spec(t: &Tables, file: FileId, node: NodeId) -> NodeId {
    match crate::def::kind_of_spec(t, file, node) {
        Some(NodeKind::Decl { item }) => *item,
        _ => node,
    }
}

/// Follow a declaration wrapper to the item it holds.
pub fn decl_item(t: &Tables, file: FileId, node: NodeId) -> (r: NodeId)
    ensures
        r == decl_item_spec(t, file, node),
{
    match kind_of(t, file, node) {
        Some(NodeKind::Decl { item }) => *item,
        _ => node,
    }
}

/// [`is_item_kind`], as a mathematical function.
pub open spec fn is_item_kind_spec(k: Option<&NodeKind>) -> bool {
    match k {
        Some(NodeKind::FuncExpr { .. }) => true,
        Some(NodeKind::StructType { .. }) => true,
        Some(NodeKind::EnumType { .. }) => true,
        Some(NodeKind::TraitType { .. }) => true,
        Some(NodeKind::DistinctType { .. }) => true,
        Some(NodeKind::NamespaceExpr { .. }) => true,
        Some(NodeKind::Overload { .. }) => true,
        Some(NodeKind::Import) => true,
        _ => false,
    }
}

/// Whether a shape declares something rather than computing a value.
pub fn is_item_kind(k: Option<&NodeKind>) -> (r: bool)
    ensures
        r == is_item_kind_spec(k),
{
    match k {
        Some(NodeKind::FuncExpr { .. }) => true,
        Some(NodeKind::StructType { .. }) => true,
        Some(NodeKind::EnumType { .. }) => true,
        Some(NodeKind::TraitType { .. }) => true,
        Some(NodeKind::DistinctType { .. }) => true,
        Some(NodeKind::NamespaceExpr { .. }) => true,
        Some(NodeKind::Overload { .. }) => true,
        Some(NodeKind::Import) => true,
        _ => false,
    }
}

/// [`is_local_item`], as a mathematical function.
pub open spec fn is_local_item_spec(t: &Tables, file: FileId, node: NodeId) -> bool {
    let item = decl_item_spec(t, file, node);
    match crate::def::kind_of_spec(t, file, item) {
        Some(
            NodeKind::ConstBind { pattern: _, rhs },
        ) => is_item_kind_spec(crate::def::kind_of_spec(t, file, *rhs)),
        Some(NodeKind::ImplBlock { .. }) => true,
        Some(NodeKind::Import) => true,
        _ => false,
    }
}

/// Whether a statement is a definition of its own: a function, type, namespace
/// or import written among a block's statements.
pub fn is_local_item(t: &Tables, file: FileId, node: NodeId) -> (r: bool)
    ensures
        r == is_local_item_spec(t, file, node),
{
    let item = decl_item(t, file, node);
    match kind_of(t, file, item) {
        Some(NodeKind::ConstBind { pattern: _, rhs }) => is_item_kind(kind_of(t, file, *rhs)),
        Some(NodeKind::ImplBlock { .. }) => true,
        Some(NodeKind::Import) => true,
        _ => false,
    }
}

/// [`resolved_in`], as a mathematical function.
pub open spec fn resolved_in_spec(t: &Tables, facts: &Facts, file: FileId, node: NodeId) -> Option<DefId> {
    match crate::facts::fact_resolution_spec(facts, file, node) {
        Some(Resolution::Def(d)) => Some(crate::def::resolve_alias_spec(t, *d)),
        _ => None,
    }
}

/// What a name resolved to, with renames followed.
pub fn resolved_in(t: &Tables, facts: &Facts, file: FileId, node: NodeId) -> (r: Option<DefId>)
    ensures
        r == resolved_in_spec(t, facts, file, node),
{
    match fact_resolution(facts, file, node) {
        Some(Resolution::Def(d)) => Some(resolve_alias(t, *d)),
        _ => None,
    }
}

/// [`names_type_kind`], as a mathematical function.
pub open spec fn names_type_kind_spec(k: DefKind) -> bool {
    match k {
        DefKind::Primitive => true,
        DefKind::Struct => true,
        DefKind::Enum => true,
        DefKind::Trait => true,
        DefKind::TypeAlias => true,
        DefKind::TypeParam => true,
        _ => false,
    }
}

/// Whether a definition kind names a type.
pub fn names_type_kind(k: DefKind) -> (r: bool)
    ensures
        r == names_type_kind_spec(k),
{
    match k {
        DefKind::Primitive => true,
        DefKind::Struct => true,
        DefKind::Enum => true,
        DefKind::Trait => true,
        DefKind::TypeAlias => true,
        DefKind::TypeParam => true,
        _ => false,
    }
}

/// [`any_value_rhs`], as a mathematical function.
pub open spec fn any_value_rhs_spec(
    t: &Tables,
    facts: &Facts,
    file: FileId,
    l: &List<NodeId>,
    fuel: u64,
) -> bool
    decreases fuel, l,
{
    if fuel == 0 {
        true
    } else {
        match l {
            List::Nil => false,
            List::Cons(h, rest) => is_value_rhs_spec(t, facts, file, *h, (fuel - 1) as u64)
                || any_value_rhs_spec(t, facts, file, rest, fuel),
        }
    }
}

/// Whether every node of a list, read as a binding's right-hand side, is a value.
pub fn any_value_rhs(t: &Tables, facts: &Facts, file: FileId, l: &List<NodeId>, fuel: u64) -> (r: bool)
    ensures
        r == any_value_rhs_spec(t, facts, file, l, fuel),
    decreases fuel, l,
{
    if fuel == 0 {
        return true;
    }
    match l {
        List::Nil => false,
        List::Cons(h, rest) => is_value_rhs(t, facts, file, *h, (fuel - 1) as u64)
            || any_value_rhs(t, facts, file, rest, fuel),
    }
}

/// [`is_value_rhs`], as a mathematical function.
pub open spec fn is_value_rhs_spec(t: &Tables, facts: &Facts, file: FileId, node: NodeId, fuel: u64) -> bool
    decreases fuel,
{
    if fuel == 0 {
        true
    } else {
        match crate::def::kind_of_spec(t, file, node) {
            Some(NodeKind::StructType { .. }) => false,
            Some(NodeKind::EnumType { .. }) => false,
            Some(NodeKind::TraitType { .. }) => false,
            Some(NodeKind::DistinctType { .. }) => false,
            Some(NodeKind::NamespaceExpr { .. }) => false,
            Some(NodeKind::Overload { .. }) => false,
            Some(NodeKind::Import) => false,
            Some(NodeKind::AssocType { .. }) => false,
            Some(NodeKind::PtrType { .. }) => false,
            Some(NodeKind::SliceType { .. }) => false,
            Some(NodeKind::ArrayType { .. }) => false,
            Some(NodeKind::TupleType { .. }) => false,
            Some(NodeKind::FuncType { .. }) => false,
            Some(NodeKind::DynType { .. }) => false,
            Some(NodeKind::TypePath { .. }) => false,
            Some(NodeKind::Tuple { elems }) => crate::list::is_empty_spec(elems)
                || any_value_rhs_spec(t, facts, file, elems, (fuel - 1) as u64),
            Some(
                NodeKind::GenericApply { base, args: _ },
            ) => names_value_spec(t, facts, file, *base, (fuel - 1) as u64),
            Some(NodeKind::Path { .. }) => names_value_spec(t, facts, file, node, (fuel - 1) as u64),
            Some(NodeKind::FieldAccess { .. }) => names_value_spec(t, facts, file, node, (fuel - 1) as u64),
            _ => true,
        }
    }
}

/// Whether a binding's right-hand side is a value, as opposed to a type.
pub fn is_value_rhs(t: &Tables, facts: &Facts, file: FileId, node: NodeId, fuel: u64) -> (r: bool)
    ensures
        r == is_value_rhs_spec(t, facts, file, node, fuel),
    decreases fuel,
{
    if fuel == 0 {
        return true;
    }
    match kind_of(t, file, node) {
        Some(NodeKind::StructType { .. }) => false,
        Some(NodeKind::EnumType { .. }) => false,
        Some(NodeKind::TraitType { .. }) => false,
        Some(NodeKind::DistinctType { .. }) => false,
        Some(NodeKind::NamespaceExpr { .. }) => false,
        Some(NodeKind::Overload { .. }) => false,
        Some(NodeKind::Import) => false,
        Some(NodeKind::AssocType { .. }) => false,
        Some(NodeKind::PtrType { .. }) => false,
        Some(NodeKind::SliceType { .. }) => false,
        Some(NodeKind::ArrayType { .. }) => false,
        Some(NodeKind::TupleType { .. }) => false,
        Some(NodeKind::FuncType { .. }) => false,
        Some(NodeKind::DynType { .. }) => false,
        Some(NodeKind::TypePath { .. }) => false,
        Some(NodeKind::Tuple { elems }) => is_empty(elems)
            || any_value_rhs(t, facts, file, elems, (fuel - 1) as u64),
        Some(
            NodeKind::GenericApply { base, args: _ },
        ) => names_value(t, facts, file, *base, (fuel - 1) as u64),
        Some(NodeKind::Path { .. }) => names_value(t, facts, file, node, (fuel - 1) as u64),
        Some(NodeKind::FieldAccess { .. }) => names_value(t, facts, file, node, (fuel - 1) as u64),
        _ => true,
    }
}

/// [`names_value`], as a mathematical function.
pub open spec fn names_value_spec(t: &Tables, facts: &Facts, file: FileId, node: NodeId, fuel: u64) -> bool
    decreases fuel,
{
    if fuel == 0 {
        true
    } else {
        match resolved_in_spec(t, facts, file, node) {
            Some(d) => if names_type_kind_spec(crate::def::def_kind_spec(t, d)) {
                false
            } else if crate::def::def_kind_spec(t, d) == DefKind::Const {
                match crate::def::def_place_spec(t, d) {
                    Some((f, n)) => match crate::def::kind_of_spec(t, f, n) {
                        Some(
                            NodeKind::ConstBind { pattern: _, rhs },
                        ) => is_value_rhs_spec(t, facts, f, *rhs, (fuel - 1) as u64),
                        _ => true,
                    },
                    None => true,
                }
            } else {
                true
            },
            None => true,
        }
    }
}

/// Whether a name stands for a value: a constant does when what it is bound to
/// does.
pub fn names_value(t: &Tables, facts: &Facts, file: FileId, node: NodeId, fuel: u64) -> (r: bool)
    ensures
        r == names_value_spec(t, facts, file, node, fuel),
    decreases fuel,
{
    if fuel == 0 {
        return true;
    }
    match resolved_in(t, facts, file, node) {
        Some(d) => if names_type_kind(def_kind(t, d)) {
            false
        } else if def_kind(t, d) == DefKind::Const {
            match def_place(t, d) {
                Some((f, n)) => match kind_of(t, f, n) {
                    Some(
                        NodeKind::ConstBind { pattern: _, rhs },
                    ) => is_value_rhs(t, facts, f, *rhs, (fuel - 1) as u64),
                    _ => true,
                },
                None => true,
            }
        } else {
            true
        },
        None => true,
    }
}

/// [`default_nodes_of`], as a mathematical function.
pub open spec fn default_nodes_of_spec(
    t: &Tables,
    file: FileId,
    params: &List<NodeId>,
) -> List<Option<NodeId>>
    decreases params,
{
    match params {
        List::Nil => List::Nil,
        List::Cons(h, rest) => match crate::def::kind_of_spec(t, file, *h) {
            Some(NodeKind::Param { name, ty: _, default }) => if crate::symbol::sym_is_spec(name, "self") {
                default_nodes_of_spec(t, file, rest)
            } else {
                List::Cons(*default, Box::new(default_nodes_of_spec(t, file, rest)))
            },
            _ => default_nodes_of_spec(t, file, rest),
        },
    }
}

/// The default of each value parameter of a function, as it was written. The
/// receiver is not a value parameter.
pub fn default_nodes_of(t: &Tables, file: FileId, params: &List<NodeId>) -> (r: List<Option<NodeId>>)
    ensures
        r == default_nodes_of_spec(t, file, params),
    decreases params,
{
    match params {
        List::Nil => List::Nil,
        List::Cons(h, rest) => match kind_of(t, file, *h) {
            Some(NodeKind::Param { name, ty: _, default }) => if sym_is(name, "self") {
                default_nodes_of(t, file, rest)
            } else {
                List::Cons(*default, Box::new(default_nodes_of(t, file, rest)))
            },
            _ => default_nodes_of(t, file, rest),
        },
    }
}

/// [`param_default_nodes`], as a mathematical function.
pub open spec fn param_default_nodes_spec(t: &Tables, def: DefId) -> Option<List<Option<NodeId>>> {
    match crate::def::func_of_spec(t, def) {
        Some((file, func)) => match crate::def::kind_of_spec(t, file, func) {
            Some(NodeKind::FuncExpr { generics: _, params, ret: _, body: _, abi: _ }) => {
                Some(default_nodes_of_spec(t, file, params))
            },
            _ => None,
        },
        None => None,
    }
}

/// The defaults of a definition's value parameters, as they were written.
pub fn param_default_nodes(t: &Tables, def: DefId) -> (r: Option<List<Option<NodeId>>>)
    ensures
        r == param_default_nodes_spec(t, def),
{
    match func_of(t, def) {
        Some((file, func)) => match kind_of(t, file, func) {
            Some(NodeKind::FuncExpr { generics: _, params, ret: _, body: _, abi: _ }) => {
                Some(default_nodes_of(t, file, params))
            },
            _ => None,
        },
        None => None,
    }
}

/// [`recorded_default`], as a mathematical function.
pub open spec fn recorded_default_spec(t: &Tables, def: DefId, i: u64) -> Option<ParamDefault> {
    match crate::def::decl_of_spec(t, def) {
        Some(d) => match &d.param_defaults {
            Some(l) => match crate::list::nth_spec(l, i) {
                Some(p) => *p,
                None => None,
            },
            None => None,
        },
        None => None,
    }
}

/// The recorded default of a value parameter.
pub fn recorded_default(t: &Tables, def: DefId, i: u64) -> (r: Option<ParamDefault>)
    ensures
        r == recorded_default_spec(t, def, i),
{
    match decl_of(t, def) {
        Some(d) => match &d.param_defaults {
            Some(l) => match nth(l, i) {
                Some(p) => *p,
                None => None,
            },
            None => None,
        },
        None => None,
    }
}

/// [`sized_self`], as a mathematical function.
pub open spec fn sized_self_spec(t: &Tables, def: DefId) -> bool {
    match crate::def::decl_of_spec(t, def) {
        Some(d) => d.sized_self,
        None => false,
    }
}

/// Whether a trait method is bounded so that its receiver's size is known.
pub fn sized_self(t: &Tables, def: DefId) -> (r: bool)
    ensures
        r == sized_self_spec(t, def),
{
    match decl_of(t, def) {
        Some(d) => d.sized_self,
        None => false,
    }
}

/// [`field_names_of`], as a mathematical function.
pub open spec fn field_names_of_spec(t: &Tables, file: FileId, l: &List<NodeId>) -> List<Symbol>
    decreases l,
{
    match l {
        List::Nil => List::Nil,
        List::Cons(h, rest) => match crate::def::kind_of_spec(t, file, *h) {
            Some(NodeKind::Field { name, ty: _ }) => {
                List::Cons((*name), Box::new(field_names_of_spec(t, file, rest)))
            },
            _ => field_names_of_spec(t, file, rest),
        },
    }
}

/// The names of the record fields a list of nodes declares.
pub fn field_names_of(t: &Tables, file: FileId, l: &List<NodeId>) -> (r: List<Symbol>)
    ensures
        r == field_names_of_spec(t, file, l),
    decreases l,
{
    match l {
        List::Nil => List::Nil,
        List::Cons(h, rest) => match kind_of(t, file, *h) {
            Some(NodeKind::Field { name, ty: _ }) => {
                List::Cons(dup_sym(name), Box::new(field_names_of(t, file, rest)))
            },
            _ => field_names_of(t, file, rest),
        },
    }
}

/// [`record_field_names`], as a mathematical function.
pub open spec fn record_field_names_spec(t: &Tables, def: DefId) -> List<Symbol> {
    match recorded_field_names_spec(t, def) {
        Some(l) => l,
        None => match crate::def::def_place_spec(t, def) {
            Some((file, node)) => {
                let rhs = crate::def::bound_rhs_spec(t, file, node);
                match crate::def::kind_of_spec(t, file, rhs) {
                    Some(NodeKind::StructType { generics: _, kind: StructKind::Record(l) }) => {
                        field_names_of_spec(t, file, l)
                    },
                    _ => List::Nil,
                }
            },
            None => List::Nil,
        },
    }
}

/// The fields a struct declares, in declaration order.
pub fn record_field_names(t: &Tables, def: DefId) -> (r: List<Symbol>)
    ensures
        r == record_field_names_spec(t, def),
{
    match recorded_field_names(t, def) {
        Some(l) => l,
        None => match def_place(t, def) {
            Some((file, node)) => {
                let rhs = bound_rhs(t, file, node);
                match kind_of(t, file, rhs) {
                    Some(NodeKind::StructType { generics: _, kind: StructKind::Record(l) }) => {
                        field_names_of(t, file, l)
                    },
                    _ => List::Nil,
                }
            },
            None => List::Nil,
        },
    }
}

/// [`recorded_field_names`], as a mathematical function.
pub open spec fn recorded_field_names_spec(t: &Tables, def: DefId) -> Option<List<Symbol>> {
    match crate::def::decl_of_spec(t, def) {
        Some(d) => match &d.field_names {
            Some(l) => Some((*l)),
            None => None,
        },
        None => None,
    }
}

/// The fields a struct is recorded to declare.
pub fn recorded_field_names(t: &Tables, def: DefId) -> (r: Option<List<Symbol>>)
    ensures
        r == recorded_field_names_spec(t, def),
{
    match decl_of(t, def) {
        Some(d) => match &d.field_names {
            Some(l) => Some(dup_syms(l)),
            None => None,
        },
        None => None,
    }
}

/// [`recorded_field_ty`], as a mathematical function.
pub open spec fn recorded_field_ty_spec(t: &Tables, def: DefId) -> Option<Ty> {
    match crate::def::decl_of_spec(t, def) {
        Some(d) => match &d.field_ty {
            Some(ty) => Some((*ty)),
            None => None,
        },
        None => None,
    }
}

/// The type a field is recorded to have.
pub fn recorded_field_ty(t: &Tables, def: DefId) -> (r: Option<Ty>)
    ensures
        r == recorded_field_ty_spec(t, def),
{
    match decl_of(t, def) {
        Some(d) => match &d.field_ty {
            Some(ty) => Some(dup_ty(ty)),
            None => None,
        },
        None => None,
    }
}

/// [`field_def`], as a mathematical function.
pub open spec fn field_def_spec(t: &Tables, def: DefId, name: &Symbol) -> Option<DefId> {
    match crate::def::member_of_spec(t, def, name) {
        Some(m) => if crate::def::def_kind_spec(t, m) == DefKind::Field {
            Some(m)
        } else {
            None
        },
        None => None,
    }
}

/// The field called `name` of struct `def`.
pub fn field_def(t: &Tables, def: DefId, name: &Symbol) -> (r: Option<DefId>)
    ensures
        r == field_def_spec(t, def, name),
{
    match member_of(t, def, name) {
        Some(m) => if def_kind(t, m) == DefKind::Field {
            Some(m)
        } else {
            None
        },
        None => None,
    }
}

/// [`line_at`], as a mathematical function.
pub open spec fn line_at_spec(starts: &List<u32>, pos: u32, line: u64, begin: u32) -> (u64, u32)
    decreases starts,
{
    match starts {
        List::Nil => (line, begin),
        List::Cons(h, t) => if *h <= pos {
            line_at_spec(t, pos, crate::list::succ_spec(line), *h)
        } else {
            (line, begin)
        },
    }
}

/// How many line starts lie at or before a position, and the last of them.
pub fn line_at(starts: &List<u32>, pos: u32, line: u64, begin: u32) -> (r: (u64, u32))
    ensures
        r == line_at_spec(starts, pos, line, begin),
    decreases starts,
{
    match starts {
        List::Nil => (line, begin),
        List::Cons(h, t) => if *h <= pos {
            line_at(t, pos, succ(line), *h)
        } else {
            (line, begin)
        },
    }
}

/// [`line_col`], as a mathematical function.
pub open spec fn line_col_spec(starts: &List<u32>, pos: u32) -> (u64, u64) {
    let (line, begin) = line_at_spec(starts, pos, 0, 0);
    let past: u32 = if begin <= pos {
        (pos - begin) as u32
    } else {
        0
    };
    (if line == 0 { 1 } else { line }, crate::list::succ_spec(past as u64))
}

/// The line and column of a position, both counted from one.
pub fn line_col(starts: &List<u32>, pos: u32) -> (r: (u64, u64))
    ensures
        r == line_col_spec(starts, pos),
{
    let (line, begin) = line_at(starts, pos, 0, 0);
    let past: u32 = if begin <= pos {
        (pos - begin) as u32
    } else {
        0
    };
    (if line == 0 { 1 } else { line }, succ(past as u64))
}

// Building nodes. Every node is built through one of these, so an id is never
// handed out for written syntax without recording where it came from.

/// [`Lowerer::id`], as a mathematical function.
pub open spec fn id_spec(st: LowererV, env: &LowerCx, node: NodeId) -> (LowererV, IrId) {
    let (st, id) = fresh_spec(st);
    let (file, span) = crate::def::span_of_spec(env.tables, st.file, node);
    let st = set_span_spec(st, id, FileSpan { file: file, span: span });
    (st, id)
}

/// [`Lowerer::expr`], as a mathematical function.
pub open spec fn expr_spec(
    st: LowererV,
    env: &LowerCx,
    node: NodeId,
    ty: Ty,
    kind: ExprKind,
) -> (LowererV, Expr) {
    let (st, id) = id_spec(st, env, node);
    let st = set_ty_spec(st, id, ty);
    (st, Expr { id: id, kind: kind })
}

/// [`Lowerer::ty_of`], as a mathematical function.
pub open spec fn ty_of_spec(st: LowererV, e: &Expr) -> Ty {
    ty_or_error_spec(st, e.id)
}

/// [`Lowerer::stmt`], as a mathematical function.
pub open spec fn stmt_spec(st: LowererV, env: &LowerCx, node: NodeId, kind: StmtKind) -> (LowererV, Stmt) {
    let (st, id) = id_spec(st, env, node);
    (st, Stmt { id: id, kind: kind })
}

/// [`Lowerer::pat`], as a mathematical function.
pub open spec fn pat_spec(
    st: LowererV,
    env: &LowerCx,
    node: NodeId,
    kind: PatternKind,
) -> (LowererV, Pattern) {
    let (st, id) = id_spec(st, env, node);
    (st, Pattern { id: id, kind: kind })
}

/// [`Lowerer::derived`], as a mathematical function.
pub open spec fn derived_spec(st: LowererV, from: IrId) -> (LowererV, IrId) {
    let (st, id) = fresh_spec(st);
    let st = match span_spec(st, from) {
        Some(span) => {
            let st = set_span_spec(st, id, span);
            st
        },
        None => {
            let st = note_derived_spec(st, from, id);
            st
        },
    };
    (st, id)
}

/// [`Lowerer::derived_expr`], as a mathematical function.
pub open spec fn derived_expr_spec(st: LowererV, from: IrId, ty: Ty, kind: ExprKind) -> (LowererV, Expr) {
    let (st, id) = derived_spec(st, from);
    let st = set_ty_spec(st, id, ty);
    (st, Expr { id: id, kind: kind })
}

/// [`no_expr`], as a mathematical function.
pub open spec fn no_expr_spec() -> Expr {
    Expr { id: IrId(0), kind: ExprKind::Error }
}

/// The expression that stands where nothing could be lowered.
pub fn no_expr() -> (r: Expr)
    ensures
        r == no_expr_spec(),
{
    Expr { id: IrId(0), kind: ExprKind::Error }
}

/// [`no_block`], as a mathematical function.
pub open spec fn no_block_spec() -> Block {
    Block { id: IrId(0), stmts: Box::new(List::Nil), tail: None }
}

/// The block that stands where nothing could be lowered.
pub fn no_block() -> (r: Block)
    ensures
        r == no_block_spec(),
{
    Block { id: IrId(0), stmts: Box::new(List::Nil), tail: None }
}

/// [`no_pattern`], as a mathematical function.
pub open spec fn no_pattern_spec() -> Pattern {
    Pattern { id: IrId(0), kind: PatternKind::Wildcard }
}

/// The pattern that stands where nothing could be lowered.
pub fn no_pattern() -> (r: Pattern)
    ensures
        r == no_pattern_spec(),
{
    Pattern { id: IrId(0), kind: PatternKind::Wildcard }
}

// Types.

/// [`Lowerer::lower_type_at`], as a mathematical function.
pub open spec fn lower_type_at_spec(
    st: LowererV,
    env: &LowerCx,
    file: FileId,
    i: u64,
) -> (LowererV, Option<TypeDef>) {
    let d = crate::ids::def_at_spec(i);
    if crate::def::def_file_spec(env.tables, d) == Some(file)
        && declares_type_spec(crate::def::def_kind_spec(env.tables, d)) {
        lower_type_spec(st, env, d, DEPTH_LIMIT)
    } else {
        (st, None)
    }
}

/// [`declares_type`], as a mathematical function.
pub open spec fn declares_type_spec(k: DefKind) -> bool {
    match k {
        DefKind::Struct => true,
        DefKind::Enum => true,
        DefKind::TypeAlias => true,
        DefKind::Trait => true,
        _ => false,
    }
}

/// Whether a definition kind is one a type definition comes from.
pub fn declares_type(k: DefKind) -> (r: bool)
    ensures
        r == declares_type_spec(k),
{
    match k {
        DefKind::Struct => true,
        DefKind::Enum => true,
        DefKind::TypeAlias => true,
        DefKind::Trait => true,
        _ => false,
    }
}

/// [`is_global`], as a mathematical function.
pub open spec fn is_global_spec(cx: &LowerCx, file: FileId, d: DefId) -> bool {
    match crate::def::get_def_spec(cx.tables, d) {
        Some(def) => def.file == Some(file) && def.kind == DefKind::Const && match def.parent {
            Some(p) => crate::def::def_kind_spec(cx.tables, p) != DefKind::Trait,
            None => false,
        } && match def.node {
            Some(n) => match crate::def::kind_of_spec(cx.tables, file, n) {
                Some(NodeKind::ConstBind { pattern: _, rhs }) => {
                    is_value_rhs_spec(cx.tables, cx.facts, file, *rhs, DEPTH_LIMIT)
                },
                _ => false,
            },
            None => false,
        },
        None => false,
    }
}

/// Whether a definition is a constant or static of `file` with a value. A
/// trait's own constants are declarations, not definitions.
pub fn is_global(cx: &LowerCx, file: FileId, d: DefId) -> (r: bool)
    ensures
        r == is_global_spec(cx, file, d),
{
    match get_def(cx.tables, d) {
        Some(def) => def.file == Some(file) && def.kind == DefKind::Const && match def.parent {
            Some(p) => def_kind(cx.tables, p) != DefKind::Trait,
            None => false,
        } && match def.node {
            Some(n) => match kind_of(cx.tables, file, n) {
                Some(NodeKind::ConstBind { pattern: _, rhs }) => {
                    is_value_rhs(cx.tables, cx.facts, file, *rhs, DEPTH_LIMIT)
                },
                _ => false,
            },
            None => false,
        },
        None => false,
    }
}

/// [`Lowerer::lower_global_at`], as a mathematical function.
pub open spec fn lower_global_at_spec(
    st: LowererV,
    env: &LowerCx,
    file: FileId,
    i: u64,
) -> (LowererV, Option<Global>) {
    let d = crate::ids::def_at_spec(i);
    if is_global_spec(env, file, d) {
        lower_global_spec(st, env, d, DEPTH_LIMIT)
    } else {
        (st, None)
    }
}

/// [`Lowerer::lower_global`], as a mathematical function.
pub open spec fn lower_global_spec(
    st: LowererV,
    env: &LowerCx,
    def: DefId,
    fuel: u64,
) -> (LowererV, Option<Global>)
    decreases fuel,
{
    if fuel == 0 {
        (give_up_spec(st), None)
    } else {
        match crate::def::get_def_spec(env.tables, def) {
            Some(d) => {
                match d.node {
                    Some(node) => {
                        match crate::def::kind_of_spec(env.tables, st.file, node) {
                            Some(NodeKind::ConstBind { pattern: _, rhs }) => {
                                let init = match crate::def::kind_of_spec(env.tables, st.file, *rhs) {
                                    Some(NodeKind::AssocConst { ty: _, default }) => *default,
                                    _ => Some(*rhs),
                                };
                                let (st, id) = id_spec(st, env, node);
                                let ty = ty_spec(st, env, node);
                                let st = set_ty_spec(st, id, ty);
                                let st = set_directives_spec(
                                    st,
                                    id,
                                    crate::def::directives_of_spec(env.tables, def),
                                );
                                let st = match crate::facts::fact_generics_spec(env.facts, st.file, node) {
                                    Some(g) => {
                                        let st = set_generics_spec(st, id, (*g));
                                        st
                                    },
                                    None => {
                                        st
                                    },
                                };
                                let (st, init) = match init {
                                    Some(e) => {
                                        let (st, v) = lower_expr_spec(st, env, e, (fuel - 1) as u64);
                                        (st, Some(v))
                                    },
                                    None => (st, None),
                                };
                                (
                                    st,
                                    Some(
                                        Global {
                                            id: id,
                                            def: def,
                                            name: d.name,
                                            init: init,
                                            mutable: d.mutable,
                                        },
                                    ),
                                )
                            },
                            _ => {
                                (st, None)
                            },
                        }
                    },
                    _ => {
                        (st, None)
                    },
                }
            },
            _ => {
                (st, None)
            },
        }
    }
}

/// [`Lowerer::defs_of`], as a mathematical function.
pub open spec fn defs_of_spec(st: LowererV, env: &LowerCx, l: &List<NodeId>) -> List<DefId>
    decreases l,
{
    match l {
        List::Nil => List::Nil,
        List::Cons(h, t) => match def_of_spec(st, env, *h) {
            Some(d) => List::Cons(d, Box::new(defs_of_spec(st, env, t))),
            None => defs_of_spec(st, env, t),
        },
    }
}

/// [`Lowerer::lower_type`], as a mathematical function.
pub open spec fn lower_type_spec(
    st: LowererV,
    env: &LowerCx,
    def: DefId,
    fuel: u64,
) -> (LowererV, Option<TypeDef>)
    decreases fuel,
{
    if fuel == 0 {
        (give_up_spec(st), None)
    } else {
        match crate::def::get_def_spec(env.tables, def) {
            Some(d) => {
                match d.node {
                    Some(node) => {
                        let rhs = crate::def::bound_rhs_spec(env.tables, st.file, node);
                        let (st, made) = match crate::def::kind_of_spec(env.tables, st.file, rhs) {
                            Some(NodeKind::StructType { generics, kind: _ }) => {
                                let (st, members) = struct_members_spec(st, env, def);
                                (
                                    st,
                                    Some(
                                        (
                                            TypeDefKind::Struct { members: members },
                                            defs_of_spec(st, env, generics),
                                        ),
                                    ),
                                )
                            },
                            Some(NodeKind::EnumType { variants, generics }) => {
                                let (st, vs) = lower_variants_spec(st, env, variants, def, (fuel - 1) as u64);
                                (
                                    st,
                                    Some(
                                        (TypeDefKind::Enum { variants: vs }, defs_of_spec(st, env, generics)),
                                    ),
                                )
                            },
                            Some(NodeKind::DistinctType { inner }) => {
                                let (st, repr) = member_spec(
                                    st,
                                    env,
                                    *inner,
                                    None,
                                    crate::symbol::sym_spec("0"),
                                );
                                (st, Some((TypeDefKind::Distinct { repr: repr }, List::Nil)))
                            },
                            Some(NodeKind::TraitType { members, generics }) => {
                                let (st, (methods, consts)) = lower_trait_spec(
                                    st,
                                    env,
                                    members,
                                    def,
                                    (fuel - 1) as u64,
                                );
                                (
                                    st,
                                    Some(
                                        (
                                            TypeDefKind::Trait { methods: methods, consts: consts },
                                            defs_of_spec(st, env, generics),
                                        ),
                                    ),
                                )
                            },
                            _ => (st, None),
                        };
                        match made {
                            Some((kind, params)) => {
                                let (st, id) = id_spec(st, env, rhs);
                                let st = set_ty_spec(
                                    st,
                                    id,
                                    Ty::Nominal {
                                        def: def,
                                        args: Box::new(crate::ty::nominals_spec(&params)),
                                    },
                                );
                                let st = set_directives_spec(
                                    st,
                                    id,
                                    crate::def::directives_of_spec(env.tables, def),
                                );
                                (st, Some(TypeDef { id: id, def: def, name: d.name, kind: kind }))
                            },
                            _ => {
                                (st, None)
                            },
                        }
                    },
                    _ => {
                        (st, None)
                    },
                }
            },
            _ => {
                (st, None)
            },
        }
    }
}

/// [`Lowerer::lower_trait`], as a mathematical function.
pub open spec fn lower_trait_spec(
    st: LowererV,
    env: &LowerCx,
    members: &List<NodeId>,
    trait_def: DefId,
    fuel: u64,
) -> (LowererV, (List<TraitMethod>, List<AssocConst>))
    decreases fuel, members,
{
    if fuel == 0 {
        (give_up_spec(st), (List::Nil, List::Nil))
    } else {
        match members {
            List::Nil => (st, (List::Nil, List::Nil)),
            List::Cons(h, t) => {
                let (st, (m, c)) = lower_trait_member_spec(st, env, *h, trait_def, (fuel - 1) as u64);
                let (st, (ms, cs)) = lower_trait_spec(st, env, t, trait_def, fuel);
                (st, (
                match m {
                    Some(x) => List::Cons(x, Box::new(ms)),
                    None => ms,
                },
                match c {
                    Some(x) => List::Cons(x, Box::new(cs)),
                    None => cs,
                },
            ))
            },
        }
    }
}

/// [`Lowerer::lower_trait_member`], as a mathematical function.
pub open spec fn lower_trait_member_spec(
    st: LowererV,
    env: &LowerCx,
    member: NodeId,
    trait_def: DefId,
    fuel: u64,
) -> (LowererV, (Option<TraitMethod>, Option<AssocConst>))
    decreases fuel,
{
    if fuel == 0 {
        (give_up_spec(st), (None, None))
    } else {
        let m = decl_item_spec(env.tables, st.file, member);
        match crate::def::kind_of_spec(env.tables, st.file, m) {
            Some(NodeKind::ConstBind { pattern, rhs }) => {
                match binding_name_spec(st, env, *pattern) {
                    Some(name) => {
                        match crate::def::member_of_spec(env.tables, trait_def, &name) {
                            Some(def) => {
                                match crate::def::kind_of_spec(env.tables, st.file, *rhs) {
                                    Some(NodeKind::FuncExpr { generics, params, ret: _, body, abi: _ }) => {
                                        let sig = match crate::facts::fact_signature_spec(env.facts, st.file, *rhs) {
                                            Some(t) => (*t),
                                            None => Ty::Error,
                                        };
                                        let recv = declared_recv_spec(st, env, params, &sig);
                                        let (st, id) = id_spec(st, env, *rhs);
                                        let st = set_ty_spec(st, id, sig);
                                        let st = set_directives_spec(
                                            st,
                                            id,
                                            crate::def::directives_of_spec(env.tables, def),
                                        );
                                        (
                                            st,
                                            (
                                                Some(
                                                    TraitMethod {
                                                        id: id,
                                                        def: def,
                                                        name: name,
                                                        recv: recv,
                                                        generic: !crate::list::is_empty_spec(generics),
                                                        has_default: body.is_some(),
                                                        sized_self: sized_self_spec(env.tables, def),
                                                    },
                                                ),
                                                None,
                                            ),
                                        )
                                    },
                                    Some(NodeKind::AssocConst { ty: _, default }) => {
                                        let (st, id) = id_spec(st, env, *rhs);
                                        let ty = ty_spec(st, env, *rhs);
                                        let st = set_ty_spec(st, id, ty);
                                        let st = match default {
                                            Some(d) => {
                                                let (st, e) = lower_expr_spec(st, env, *d, (fuel - 1) as u64);
                                                let st = set_default_spec(st, id, e);
                                                st
                                            },
                                            None => {
                                                st
                                            },
                                        };
                                        (st, (None, Some(AssocConst { id: id, def: def, name: name })))
                                    },
                                    _ => (st, (None, None)),
                                }
                            },
                            _ => {
                                (st, (None, None))
                            },
                        }
                    },
                    _ => {
                        (st, (None, None))
                    },
                }
            },
            _ => {
                (st, (None, None))
            },
        }
    }
}

/// [`Lowerer::declared_recv`], as a mathematical function.
pub open spec fn declared_recv_spec(st: LowererV, env: &LowerCx, params: &List<NodeId>, sig: &Ty) -> Recv {
    match params {
        List::Nil => Recv::Free,
        List::Cons(first, _) => match crate::def::kind_of_spec(env.tables, st.file, *first) {
            Some(NodeKind::Param { name, ty: _, default: _ }) => if crate::symbol::sym_is_spec(name, "self") {
                match sig {
                    Ty::Func { params: tys, ret: _, c: _ } => recv_of_ty_spec(crate::list::nth_spec(tys, 0)),
                    _ => Recv::Value,
                }
            } else {
                Recv::Free
            },
            _ => Recv::Free,
        },
    }
}

/// [`recv_of_ty`], as a mathematical function.
pub open spec fn recv_of_ty_spec(ty: Option<&Ty>) -> Recv {
    match ty {
        Some(Ty::Ptr { mutable, inner: _ }) => if *mutable {
            Recv::MutPtr
        } else {
            Recv::Ptr
        },
        _ => Recv::Value,
    }
}

/// How a receiver of the given type is taken.
pub fn recv_of_ty(ty: Option<&Ty>) -> (r: Recv)
    ensures
        r == recv_of_ty_spec(ty),
{
    match ty {
        Some(Ty::Ptr { mutable, inner: _ }) => if *mutable {
            Recv::MutPtr
        } else {
            Recv::Ptr
        },
        _ => Recv::Value,
    }
}

/// [`Lowerer::binding_name`], as a mathematical function.
pub open spec fn binding_name_spec(st: LowererV, env: &LowerCx, pattern: NodeId) -> Option<Symbol> {
    match crate::def::kind_of_spec(env.tables, st.file, pattern) {
        Some(NodeKind::BindingPat { name }) => Some((*name)),
        _ => None,
    }
}

/// [`insert_member`], as a mathematical function.
pub open spec fn insert_member_spec(at: u32, m: Member, l: List<(u32, Member)>) -> List<(u32, Member)>
    decreases l,
{
    match l {
        List::Nil => List::Cons((at, m), Box::new(List::Nil)),
        List::Cons(h, t) => if at <= h.0 {
            List::Cons((at, m), Box::new(List::Cons(h, t)))
        } else {
            List::Cons(h, Box::new(insert_member_spec(at, m, *t)))
        },
    }
}

/// Put a member in front of the first one written after it.
pub fn insert_member(at: u32, m: Member, l: List<(u32, Member)>) -> (r: List<(u32, Member)>)
    ensures
        r == insert_member_spec(at, m, l),
    decreases l,
{
    match l {
        List::Nil => List::Cons((at, m), Box::new(List::Nil)),
        List::Cons(h, t) => if at <= h.0 {
            List::Cons((at, m), Box::new(List::Cons(h, t)))
        } else {
            List::Cons(h, Box::new(insert_member(at, m, *t)))
        },
    }
}

/// [`only_members`], as a mathematical function.
pub open spec fn only_members_spec(l: List<(u32, Member)>) -> List<Member>
    decreases l,
{
    match l {
        List::Nil => List::Nil,
        List::Cons(h, t) => List::Cons(h.1, Box::new(only_members_spec(*t))),
    }
}

/// Members without their positions.
pub fn only_members(l: List<(u32, Member)>) -> (r: List<Member>)
    ensures
        r == only_members_spec(l),
    decreases l,
{
    match l {
        List::Nil => List::Nil,
        List::Cons(h, t) => List::Cons(h.1, Box::new(only_members(*t))),
    }
}

/// [`Lowerer::placed_members`], as a mathematical function.
pub open spec fn placed_members_spec(
    st: LowererV,
    env: &LowerCx,
    l: &List<(Symbol, DefId)>,
) -> (LowererV, List<(u32, Member)>)
    decreases l,
{
    match l {
        List::Nil => (st, List::Nil),
        List::Cons(h, t) => {
            let (st, first) = if crate::def::def_kind_spec(env.tables, h.1) == DefKind::Field {
                match crate::def::def_node_spec(env.tables, h.1) {
                    Some(at) => {
                        let (st, m) = member_spec(
                            st,
                            env,
                            at,
                            Some(h.1),
                            crate::def::def_name_spec(env.tables, h.1),
                        );
                        (st, Some((at.0, m)))
                    },
                    None => (st, None),
                }
            } else {
                (st, None)
            };
            let (st, others) = placed_members_spec(st, env, t);
            match first {
                Some((at, m)) => (st, insert_member_spec(at, m, others)),
                None => (st, others),
            }
        },
    }
}

/// [`Lowerer::struct_members`], as a mathematical function.
pub open spec fn struct_members_spec(st: LowererV, env: &LowerCx, def: DefId) -> (LowererV, List<Member>) {
    match crate::def::get_def_spec(env.tables, def) {
        Some(d) => {
            let (st, placed) = placed_members_spec(st, env, &d.members);
            (st, only_members_spec(placed))
        },
        None => (st, List::Nil),
    }
}

/// [`Lowerer::lower_variants`], as a mathematical function.
pub open spec fn lower_variants_spec(
    st: LowererV,
    env: &LowerCx,
    l: &List<NodeId>,
    enum_def: DefId,
    fuel: u64,
) -> (LowererV, List<Variant>)
    decreases fuel, l,
{
    if fuel == 0 {
        (give_up_spec(st), List::Nil)
    } else {
        match l {
            List::Nil => (st, List::Nil),
            List::Cons(h, t) => {
                let (st, a) = lower_variant_spec(st, env, enum_def, *h);
                let (st, rest) = lower_variants_spec(st, env, t, enum_def, fuel);
                match a {
                    Some(x) => (st, List::Cons(x, Box::new(rest))),
                    None => (st, rest),
                }
            },
        }
    }
}

/// [`Lowerer::tuple_members`], as a mathematical function.
pub open spec fn tuple_members_spec(
    st: LowererV,
    env: &LowerCx,
    l: &List<NodeId>,
    i: u64,
) -> (LowererV, List<Member>)
    decreases l,
{
    match l {
        List::Nil => (st, List::Nil),
        List::Cons(h, t) => {
            let (st, m) = member_spec(st, env, *h, None, crate::symbol::index_sym_spec(i));
            let (st, rest) = tuple_members_spec(st, env, t, crate::list::succ_spec(i));
            (st, List::Cons(m, Box::new(rest)))
        },
    }
}

/// [`Lowerer::record_members`], as a mathematical function.
pub open spec fn record_members_spec(
    st: LowererV,
    env: &LowerCx,
    l: &List<NodeId>,
) -> (LowererV, List<Member>)
    decreases l,
{
    match l {
        List::Nil => (st, List::Nil),
        List::Cons(h, t) => match crate::def::kind_of_spec(env.tables, st.file, *h) {
            Some(NodeKind::Field { name, ty: _ }) => {
                let (st, m) = member_spec(st, env, *h, None, (*name));
                let (st, rest) = record_members_spec(st, env, t);
                (st, List::Cons(m, Box::new(rest)))
            },
            _ => record_members_spec(st, env, t),
        },
    }
}

/// [`Lowerer::lower_variant`], as a mathematical function.
pub open spec fn lower_variant_spec(
    st: LowererV,
    env: &LowerCx,
    enum_def: DefId,
    node: NodeId,
) -> (LowererV, Option<Variant>) {
    match crate::def::kind_of_spec(env.tables, st.file, node) {
        Some(NodeKind::Variant { name, payload, value: _ }) => {
            match crate::def::member_of_spec(env.tables, enum_def, name) {
                Some(def) => {
                    let (st, (members, tuple)) = match payload {
                        VariantPayload::Unit => (st, (List::Nil, false)),
                        VariantPayload::Tuple(types) => {
                            let (st, ms) = tuple_members_spec(st, env, types, 0);
                            (st, (ms, true))
                        },
                        VariantPayload::Record(fields) => {
                            let (st, ms) = record_members_spec(st, env, fields);
                            (st, (ms, false))
                        },
                    };
                    let tag: i128 = match crate::facts::fact_variant_tag_spec(env.facts, st.file, node) {
                        Some(t) => t.0,
                        None => 0,
                    };
                    let (st, id) = id_spec(st, env, node);
                    (
                        st,
                        Some(
                            Variant {
                                id: id,
                                def: def,
                                name: (*name),
                                members: members,
                                tuple: tuple,
                                tag: tag,
                            },
                        ),
                    )
                },
                _ => {
                    (st, None)
                },
            }
        },
        _ => {
            (st, None)
        },
    }
}

/// [`Lowerer::member`], as a mathematical function.
pub open spec fn member_spec(
    st: LowererV,
    env: &LowerCx,
    at: NodeId,
    def: Option<DefId>,
    name: Symbol,
) -> (LowererV, Member) {
    let (st, id) = id_spec(st, env, at);
    let ty = ty_spec(st, env, at);
    let st = set_ty_spec(st, id, ty);
    let st = match def {
        Some(d) => {
            let directives = crate::def::directives_of_spec(env.tables, d);
            if !crate::list::is_empty_spec(&directives) {
                let st = set_directives_spec(st, id, directives);
                st
            } else {
                st
            }
        },
        None => {
            st
        },
    };
    (st, Member { id: id, def: def, name: name })
}

// Functions.

/// [`Lowerer::lower_params`], as a mathematical function.
pub open spec fn lower_params_spec(
    st: LowererV,
    env: &LowerCx,
    l: &List<NodeId>,
    fuel: u64,
) -> (LowererV, List<Param>)
    decreases fuel, l,
{
    if fuel == 0 {
        (give_up_spec(st), List::Nil)
    } else {
        match l {
            List::Nil => (st, List::Nil),
            List::Cons(h, t) => {
                let (st, a) = lower_param_spec(st, env, *h);
                let (st, rest) = lower_params_spec(st, env, t, fuel);
                match a {
                    Some(x) => (st, List::Cons(x, Box::new(rest))),
                    None => (st, rest),
                }
            },
        }
    }
}

/// [`Lowerer::param_types`], as a mathematical function.
pub open spec fn param_types_spec(st: LowererV, l: &List<Param>) -> List<Ty>
    decreases l,
{
    match l {
        List::Nil => List::Nil,
        List::Cons(h, t) => List::Cons(ty_or_error_spec(st, h.id), Box::new(param_types_spec(st, t))),
    }
}

/// [`any_grants_mutation`], as a mathematical function.
pub open spec fn any_grants_mutation_spec(l: &List<Ty>) -> bool
    decreases l,
{
    match l {
        List::Nil => false,
        List::Cons(h, t) => grants_mutation_spec(h) || any_grants_mutation_spec(t),
    }
}

/// Whether any of the types lets a callee write into its caller's storage.
pub fn any_grants_mutation(l: &List<Ty>) -> (r: bool)
    ensures
        r == any_grants_mutation_spec(l),
    decreases l,
{
    match l {
        List::Nil => false,
        List::Cons(h, t) => grants_mutation(h) || any_grants_mutation(t),
    }
}

/// [`value_param_ids`], as a mathematical function.
pub open spec fn value_param_ids_spec(l: &List<Param>) -> List<IrId>
    decreases l,
{
    match l {
        List::Nil => List::Nil,
        List::Cons(h, t) => if crate::symbol::sym_is_spec(&h.name, "self") {
            value_param_ids_spec(t)
        } else {
            List::Cons(h.id, Box::new(value_param_ids_spec(t)))
        },
    }
}

/// The ids of the value parameters: every one but the receiver.
pub fn value_param_ids(l: &List<Param>) -> (r: List<IrId>)
    ensures
        r == value_param_ids_spec(l),
    decreases l,
{
    match l {
        List::Nil => List::Nil,
        List::Cons(h, t) => if sym_is(&h.name, "self") {
            value_param_ids(t)
        } else {
            List::Cons(h.id, Box::new(value_param_ids(t)))
        },
    }
}

/// [`Lowerer::lower_defaults`], as a mathematical function.
pub open spec fn lower_defaults_spec(
    st: LowererV,
    env: &LowerCx,
    def: DefId,
    ids: &List<IrId>,
    i: u64,
    fuel: u64,
) -> (LowererV, List<Option<ParamDefault>>)
    decreases fuel, ids,
{
    if fuel == 0 {
        (give_up_spec(st), List::Nil)
    } else {
        match ids {
            List::Nil => (st, List::Nil),
            List::Cons(param_id, rest) => {
                let (st, d) = param_default_spec(st, env, def, i, (fuel - 1) as u64);
                let (st, first) = match d {
                    Some(e) => {
                        let st = set_default_spec(st, *param_id, e);
                        if default_is_caller_location_spec(env.tables, Some(def), i) {
                            (st, Some(ParamDefault::CallerLocation))
                        } else {
                            (st, Some(ParamDefault::Value(*param_id)))
                        }
                    },
                    None => (st, None),
                };
                let (st, others) = lower_defaults_spec(st, env, def, rest, crate::list::succ_spec(i), fuel);
                (st, List::Cons(first, Box::new(others)))
            },
        }
    }
}

/// [`Lowerer::lower_function`], as a mathematical function.
pub open spec fn lower_function_spec(
    st: LowererV,
    env: &LowerCx,
    def: DefId,
    func: NodeId,
    fuel: u64,
) -> (LowererV, Option<Function>)
    decreases fuel,
{
    if fuel == 0 {
        (give_up_spec(st), None)
    } else {
        match crate::def::kind_of_spec(env.tables, st.file, func) {
            Some(NodeKind::FuncExpr { generics: _, params, ret: _, body, abi }) => {
                let ret = ty_spec(st, env, func);
                let over = crate::facts::fact_generics_spec(env.facts, st.file, func);
                let boxed = match body {
                    Some(b) => Some(boxed_in_spec(env, st.file, *b, List::Nil, DEPTH_LIMIT)),
                    None => None,
                };
                let (st, ps) = lower_params_spec(st, env, params, (fuel - 1) as u64);
                let param_tys = param_types_spec(st, &ps);
                let recv = recv_of_spec(&param_tys, &ps);
                let mutating = any_grants_mutation_spec(&param_tys);
                let (st, defaults) = lower_defaults_spec(
                    st,
                    env,
                    def,
                    &value_param_ids_spec(&ps),
                    0,
                    (fuel - 1) as u64,
                );
                let st = record_defaults_spec(st, def, defaults);
                let (st, lowered) = match body {
                    Some(b) => {
                        let (st, block) = lower_block_spec(st, env, *b, (fuel - 1) as u64);
                        (st, Some(block))
                    },
                    None => (st, None),
                };
                let (st, id) = id_spec(st, env, func);
                let st = set_ty_spec(
                    st,
                    id,
                    Ty::Func { params: Box::new(param_tys), ret: Box::new(ret), c: abi.is_some() },
                );
                let st = set_directives_spec(st, id, crate::def::directives_of_spec(env.tables, def));
                let st = match over {
                    Some(g) => {
                        let st = set_generics_spec(st, id, (*g));
                        st
                    },
                    None => {
                        st
                    },
                };
                let st = match boxed {
                    Some(l) => {
                        let st = set_boxed_spec(st, id, l);
                        st
                    },
                    None => {
                        st
                    },
                };
                (st, Some(Function {
        id: id,
        def: def,
        name: crate::def::def_name_spec(env.tables, def),
        params: ps,
        body: lowered,
        abi: match abi {
            Some(a) => Some((*a)),
            None => None,
        },
        recv: recv,
        mutating: mutating,
    }))
            },
            _ => {
                (st, None)
            },
        }
    }
}

/// Add a function's defaults to what is recorded.
pub open spec fn record_defaults_spec(st: LowererV, def: DefId, l: List<Option<ParamDefault>>) -> LowererV {
    LowererV { recorded: crate::list::append_spec(st.recorded, crate::list::single_spec((def, l))), ..st }
}

/// Add a lifted function.
pub open spec fn add_lifted_spec(st: LowererV, f: Function) -> LowererV {
    LowererV { lifted: crate::list::append_spec(st.lifted, crate::list::single_spec(f)), ..st }
}

/// Add a lifted type.
pub open spec fn add_lifted_type_spec(st: LowererV, t: TypeDef) -> LowererV {
    LowererV { lifted_types: crate::list::append_spec(st.lifted_types, crate::list::single_spec(t)), ..st }
}

/// Go into a closure's body.
pub open spec fn enter_closure_spec(st: LowererV, c: ClosureCx) -> LowererV {
    LowererV { closures: List::Cons(c, Box::new(st.closures)), ..st }
}

/// Come out of the innermost closure's body.
pub open spec fn leave_closure_spec(st: LowererV) -> LowererV {
    match st.closures {
        List::Nil => st,
        List::Cons(_, t) => LowererV { closures: *t, ..st },
    }
}

impl Lowerer {
    /// Add a function's defaults to what is recorded.
    pub fn record_defaults(&mut self, def: DefId, l: List<Option<ParamDefault>>)
        ensures
            final(self)@ == record_defaults_spec(old(self)@, def, l),
            crate::placing::kept(old(self)@, final(self)@),
    {
        proof {
            reveal(crate::placing::kept);
            reveal(crate::placing::known);
        }
        let mut all: List<(DefId, List<Option<ParamDefault>>)> = List::Nil;
        std::mem::swap(&mut all, &mut self.recorded);
        self.recorded = append(all, single((def, l)));
    }

    /// Add a lifted function.
    pub fn add_lifted(&mut self, f: Function)
        ensures
            final(self)@ == add_lifted_spec(old(self)@, f),
            crate::placing::kept(old(self)@, final(self)@),
    {
        proof {
            reveal(crate::placing::kept);
            reveal(crate::placing::known);
        }
        let mut all: List<Function> = List::Nil;
        std::mem::swap(&mut all, &mut self.lifted);
        self.lifted = append(all, single(f));
    }

    /// Add a lifted type.
    pub fn add_lifted_type(&mut self, t: TypeDef)
        ensures
            final(self)@ == add_lifted_type_spec(old(self)@, t),
            crate::placing::kept(old(self)@, final(self)@),
    {
        proof {
            reveal(crate::placing::kept);
            reveal(crate::placing::known);
        }
        let mut all: List<TypeDef> = List::Nil;
        std::mem::swap(&mut all, &mut self.lifted_types);
        self.lifted_types = append(all, single(t));
    }

    /// Go into a closure's body.
    pub fn enter_closure(&mut self, c: ClosureCx)
        ensures
            final(self)@ == enter_closure_spec(old(self)@, c),
    {
        let mut all: List<ClosureCx> = List::Nil;
        std::mem::swap(&mut all, &mut self.closures);
        self.closures = List::Cons(c, Box::new(all));
    }

    /// Come out of the innermost closure's body.
    pub fn leave_closure(&mut self)
        ensures
            final(self)@ == leave_closure_spec(old(self)@),
    {
        let mut all: List<ClosureCx> = List::Nil;
        std::mem::swap(&mut all, &mut self.closures);
        match all {
            List::Nil => {
                self.closures = List::Nil;
            },
            List::Cons(_, t) => {
                self.closures = *t;
            },
        }
    }
}

/// [`Lowerer::lower_param`], as a mathematical function.
pub open spec fn lower_param_spec(st: LowererV, env: &LowerCx, param: NodeId) -> (LowererV, Option<Param>) {
    match crate::def::kind_of_spec(env.tables, st.file, param) {
        Some(NodeKind::Param { name, ty: _, default: _ }) => {
            match def_of_spec(st, env, param) {
                Some(def) => {
                    let (st, id) = id_spec(st, env, param);
                    let ty = ty_spec(st, env, param);
                    let st = set_ty_spec(st, id, ty);
                    (st, Some(Param { id: id, def: def, name: (*name) }))
                },
                _ => {
                    (st, None)
                },
            }
        },
        _ => {
            (st, None)
        },
    }
}

// Blocks and statements.

/// [`Lowerer::lower_stmts`], as a mathematical function.
pub open spec fn lower_stmts_spec(
    st: LowererV,
    env: &LowerCx,
    l: &List<NodeId>,
    fuel: u64,
) -> (LowererV, List<Stmt>)
    decreases fuel, l,
{
    if fuel == 0 {
        (give_up_spec(st), List::Nil)
    } else {
        match l {
            List::Nil => (st, List::Nil),
            List::Cons(h, t) => {
                let (st, a) = lower_stmt_spec(st, env, *h, (fuel - 1) as u64);
                let (st, rest) = lower_stmts_spec(st, env, t, fuel);
                match a {
                    Some(x) => (st, List::Cons(x, Box::new(rest))),
                    None => (st, rest),
                }
            },
        }
    }
}

/// [`Lowerer::lower_block`], as a mathematical function.
pub open spec fn lower_block_spec(st: LowererV, env: &LowerCx, node: NodeId, fuel: u64) -> (LowererV, Block)
    decreases fuel,
{
    if fuel == 0 {
        (give_up_spec(st), no_block_spec())
    } else {
        let (st, (stmts, tail)) = match crate::def::kind_of_spec(env.tables, st.file, node) {
            Some(NodeKind::Block { stmts, tail }) => {
                let (st, out) = lower_stmts_spec(st, env, stmts, (fuel - 1) as u64);
                (st, (out, *tail))
            },
            _ => (st, (List::Nil, Some(node))),
        };
        let (st, tail) = match tail {
            Some(t) => {
                let (st, e) = lower_expr_spec(st, env, t, (fuel - 1) as u64);
                (st, Some(e))
            },
            None => (st, None),
        };
        let ty = match &tail {
            Some(t) => ty_of_spec(st, t),
            None => Ty::Void,
        };
        let (st, id) = id_spec(st, env, node);
        let st = set_ty_spec(st, id, ty);
        (st, Block {
        id: id,
        stmts: Box::new(stmts),
        tail: match tail {
            Some(t) => Some(Box::new(t)),
            None => None,
        },
    })
    }
}

/// [`Lowerer::lower_binding`], as a mathematical function.
pub open spec fn lower_binding_spec(
    st: LowererV,
    env: &LowerCx,
    node: NodeId,
    pattern: NodeId,
    value: NodeId,
    fuel: u64,
) -> (LowererV, Stmt)
    decreases fuel,
{
    if fuel == 0 {
        (give_up_spec(st), Stmt { id: IrId(0), kind: StmtKind::Continue })
    } else {
        let (st, init) = lower_expr_spec(st, env, value, (fuel - 1) as u64);
        let (st, pattern) = lower_pattern_spec(st, env, pattern, (fuel - 1) as u64);
        stmt_spec(st, env, node, StmtKind::Let { pattern: pattern, init: init })
    }
}

/// [`Lowerer::lower_stmt`], as a mathematical function.
pub open spec fn lower_stmt_spec(
    st: LowererV,
    env: &LowerCx,
    node: NodeId,
    fuel: u64,
) -> (LowererV, Option<Stmt>)
    decreases fuel,
{
    if fuel == 0 {
        (give_up_spec(st), None)
    } else {
        if is_local_item_spec(env.tables, st.file, node) {
            (st, None)
        } else {
            let (st, s) = match crate::def::kind_of_spec(env.tables, st.file, node) {
                Some(NodeKind::LocalDecl { pattern, ty: _, value }) => lower_binding_spec(
                    st,
                    env,
                    node,
                    *pattern,
                    *value,
                    (fuel - 1) as u64,
                ),
                Some(NodeKind::ConstBind { pattern, rhs }) => lower_binding_spec(
                    st,
                    env,
                    node,
                    *pattern,
                    *rhs,
                    (fuel - 1) as u64,
                ),
                Some(NodeKind::Assign { place, value }) => {
                    let (st, p) = lower_expr_spec(st, env, *place, (fuel - 1) as u64);
                    let (st, v) = lower_expr_spec(st, env, *value, (fuel - 1) as u64);
                    stmt_spec(st, env, node, StmtKind::Assign { place: p, value: v })
                },
                Some(NodeKind::Return { value }) => {
                    let (st, v) = lower_opt_expr_spec(st, env, *value, (fuel - 1) as u64);
                    stmt_spec(st, env, node, StmtKind::Return(v))
                },
                Some(NodeKind::Break { value }) => {
                    let (st, v) = lower_opt_expr_spec(st, env, *value, (fuel - 1) as u64);
                    stmt_spec(st, env, node, StmtKind::Break(v))
                },
                Some(NodeKind::Continue) => stmt_spec(st, env, node, StmtKind::Continue),
                Some(NodeKind::Defer { body }) => {
                    let (st, d) = lower_expr_spec(st, env, *body, (fuel - 1) as u64);
                    stmt_spec(st, env, node, StmtKind::Defer(d))
                },
                _ => {
                    let (st, e) = lower_expr_spec(st, env, node, (fuel - 1) as u64);
                    stmt_spec(st, env, node, StmtKind::Expr(e))
                },
            };
            (st, Some(s))
        }
    }
}

// Expressions.

/// [`Lowerer::lower_exprs`], as a mathematical function.
pub open spec fn lower_exprs_spec(
    st: LowererV,
    env: &LowerCx,
    l: &List<NodeId>,
    fuel: u64,
) -> (LowererV, List<Expr>)
    decreases fuel, l,
{
    if fuel == 0 {
        (give_up_spec(st), List::Nil)
    } else {
        match l {
            List::Nil => (st, List::Nil),
            List::Cons(h, t) => {
                let (st, a) = lower_expr_spec(st, env, *h, (fuel - 1) as u64);
                let (st, rest) = lower_exprs_spec(st, env, t, fuel);
                (st, List::Cons(a, Box::new(rest)))
            },
        }
    }
}

/// [`Lowerer::lower_opt_expr`], as a mathematical function.
pub open spec fn lower_opt_expr_spec(
    st: LowererV,
    env: &LowerCx,
    node: Option<NodeId>,
    fuel: u64,
) -> (LowererV, Option<Expr>)
    decreases fuel,
{
    if fuel == 0 {
        (give_up_spec(st), None)
    } else {
        match node {
            Some(n) => {
                let (st, e) = lower_expr_spec(st, env, n, (fuel - 1) as u64);
                (st, Some(e))
            },
            None => (st, None),
        }
    }
}

/// [`Lowerer::lower_opt_block`], as a mathematical function.
pub open spec fn lower_opt_block_spec(
    st: LowererV,
    env: &LowerCx,
    node: Option<NodeId>,
    fuel: u64,
) -> (LowererV, Option<Box<Block>>)
    decreases fuel,
{
    if fuel == 0 {
        (give_up_spec(st), None)
    } else {
        match node {
            Some(n) => {
                let (st, b) = lower_block_spec(st, env, n, (fuel - 1) as u64);
                (st, Some(Box::new(b)))
            },
            None => (st, None),
        }
    }
}

/// [`Lowerer::lower_expr`], as a mathematical function.
pub open spec fn lower_expr_spec(st: LowererV, env: &LowerCx, node: NodeId, fuel: u64) -> (LowererV, Expr)
    decreases fuel,
{
    if fuel == 0 {
        (give_up_spec(st), no_expr_spec())
    } else {
        match crate::facts::fact_upcast_spec(env.facts, st.file, node) {
            Some(up) => {
                lower_upcast_spec(st, env, node, up, (fuel - 1) as u64)
            },
            None => {
                match crate::facts::fact_coercion_spec(env.facts, st.file, node) {
                    Some(c) => {
                        let reported = crate::facts::fact_range_reported_spec(env.facts, st.file, node).is_some();
                        let (st, value) = lower_expr_inner_spec(st, env, node, (fuel - 1) as u64);
                        let (st, cast) = expr_spec(
                            st,
                            env,
                            node,
                            c.to,
                            ExprKind::Intrinsic {
                                name: crate::symbol::sym_spec("cast"),
                                args: Box::new(crate::list::single_spec(value)),
                            },
                        );
                        let st = set_implicit_cast_spec(st, cast.id);
                        let st = if reported {
                            let st = set_range_reported_spec(st, cast.id);
                            st
                        } else {
                            st
                        };
                        (st, cast)
                    },
                    None => {
                        match crate::facts::fact_slice_coerce_spec(env.facts, st.file, node) {
                            Some(sc) => {
                                let (st, value) = lower_expr_inner_spec(st, env, node, (fuel - 1) as u64);
                                let index = bound_ty_spec(&sc.range);
                                let (st, start) = derived_expr_spec(
                                    st,
                                    value.id,
                                    index,
                                    ExprKind::Lit(Lit::Int(crate::bigint::int_of_spec(0))),
                                );
                                let (st, end) = len_expr_spec(st, value, index);
                                expr_spec(
                                    st,
                                    env,
                                    node,
                                    sc.to,
                                    ExprKind::Intrinsic {
                                        name: crate::symbol::sym_spec("slice"),
                                        args: Box::new(crate::list::list3_spec(value, start, end)),
                                    },
                                )
                            },
                            None => {
                                match crate::facts::fact_dyn_coerce_spec(env.facts, st.file, node) {
                                    Some(dc) => {
                                        let ty = Ty::Ptr {
                                            mutable: is_mut_ptr_spec(&ty_spec(st, env, node)),
                                            inner: Box::new(dc.object),
                                        };
                                        let (st, value) = lower_expr_inner_spec(
                                            st,
                                            env,
                                            node,
                                            (fuel - 1) as u64,
                                        );
                                        expr_spec(
                                            st,
                                            env,
                                            node,
                                            ty,
                                            ExprKind::DynCast {
                                                value: Box::new(value),
                                                concrete: dc.concrete,
                                            },
                                        )
                                    },
                                    None => {
                                        lower_expr_inner_spec(st, env, node, (fuel - 1) as u64)
                                    },
                                }
                            },
                        }
                    },
                }
            },
        }
    }
}

/// [`is_mut_ptr`], as a mathematical function.
pub open spec fn is_mut_ptr_spec(ty: &Ty) -> bool {
    match ty {
        Ty::Ptr { mutable, inner: _ } => *mutable,
        _ => false,
    }
}

/// Whether a type is a pointer that may be written through.
pub fn is_mut_ptr(ty: &Ty) -> (r: bool)
    ensures
        r == is_mut_ptr_spec(ty),
{
    match ty {
        Ty::Ptr { mutable, inner: _ } => *mutable,
        _ => false,
    }
}

/// [`Lowerer::lower_upcast`], as a mathematical function.
pub open spec fn lower_upcast_spec(
    st: LowererV,
    env: &LowerCx,
    node: NodeId,
    up: &Upcast,
    fuel: u64,
) -> (LowererV, Expr)
    decreases fuel,
{
    if fuel == 0 {
        (give_up_spec(st), no_expr_spec())
    } else {
        let name = crate::def::def_name_spec(env.tables, up.field);
        let (st, base) = lower_expr_inner_spec(st, env, node, (fuel - 1) as u64);
        let (st, base) = autoderef_spec(st, base);
        if !up.through_ptr {
            expr_spec(
                st,
                env,
                node,
                up.target,
                ExprKind::Field { base: Box::new(base), name: name, def: Some(up.field) },
            )
        } else {
            let (mutable, inner) = match &up.target {
                Ty::Ptr { mutable, inner } => (*mutable, (**inner)),
                other => (false, (*other)),
            };
            let (st, field) = expr_spec(
                st,
                env,
                node,
                inner,
                ExprKind::Field { base: Box::new(base), name: name, def: Some(up.field) },
            );
            expr_spec(st, env, node, up.target, ExprKind::Ref { mutable: mutable, place: Box::new(field) })
        }
    }
}

/// [`negated_lit`], as a mathematical function.
pub open spec fn negated_lit_spec(k: Option<&NodeKind>) -> Option<Lit> {
    match k {
        Some(NodeKind::Lit(Lit::Int(n))) => Some(Lit::Int(crate::bigint::int_neg_spec(n))),
        Some(NodeKind::Lit(Lit::Float(b))) => Some(Lit::Float(*b ^ 0x8000_0000_0000_0000u64)),
        _ => None,
    }
}

/// The negation of a numeric literal, which is one literal and not a negation.
pub fn negated_lit(k: Option<&NodeKind>) -> (r: Option<Lit>)
    ensures
        r == negated_lit_spec(k),
{
    match k {
        Some(NodeKind::Lit(Lit::Int(n))) => Some(Lit::Int(int_neg(n))),
        Some(NodeKind::Lit(Lit::Float(b))) => Some(Lit::Float(*b ^ 0x8000_0000_0000_0000u64)),
        _ => None,
    }
}

/// [`Lowerer::lower_expr_inner`], as a mathematical function.
pub open spec fn lower_expr_inner_spec(
    st: LowererV,
    env: &LowerCx,
    node: NodeId,
    fuel: u64,
) -> (LowererV, Expr)
    decreases fuel,
{
    if fuel == 0 {
        (give_up_spec(st), no_expr_spec())
    } else {
        let ty = ty_spec(st, env, node);
        match crate::def::kind_of_spec(env.tables, st.file, node) {
            Some(NodeKind::Block { .. }) => {
                let (st, b) = lower_block_spec(st, env, node, (fuel - 1) as u64);
                let own = ty_or_error_spec(st, b.id);
                expr_spec(st, env, node, own, ExprKind::Block(Box::new(b)))
            },
            Some(NodeKind::Lit(lit)) => expr_spec(st, env, node, ty, ExprKind::Lit((*lit))),
            Some(NodeKind::Path { .. }) => lower_name_spec(st, env, node, ty),
            Some(NodeKind::Closure { .. }) => lower_closure_spec(st, env, node, ty, (fuel - 1) as u64),
            Some(NodeKind::FieldAccess { base, name }) => {
                let def = resolved_def_spec(st, env, node);
                let named = match def {
                    Some(d) => crate::def::def_kind_spec(env.tables, d) != DefKind::Field,
                    None => false,
                };
                if named {
                    lower_name_spec(st, env, node, ty)
                } else {
                    let (st, b) = lower_expr_spec(st, env, *base, (fuel - 1) as u64);
                    let (st, b) = autoderef_spec(st, b);
                    expr_spec(
                        st,
                        env,
                        node,
                        ty,
                        ExprKind::Field { base: Box::new(b), name: (*name), def: def },
                    )
                }
            },
            Some(NodeKind::TupleIndex { base, index }) => {
                let def = resolved_def_spec(st, env, node);
                let (st, b) = lower_expr_spec(st, env, *base, (fuel - 1) as u64);
                let (st, b) = autoderef_spec(st, b);
                match def {
                    Some(d) => expr_spec(
                        st,
                        env,
                        node,
                        ty,
                        ExprKind::Field {
                            base: Box::new(b),
                            name: crate::symbol::index_sym_spec(*index),
                            def: Some(d),
                        },
                    ),
                    None => expr_spec(
                        st,
                        env,
                        node,
                        ty,
                        ExprKind::TupleIndex { base: Box::new(b), index: *index },
                    ),
                }
            },
            Some(NodeKind::Call { callee, args }) => lower_call_spec(
                st,
                env,
                node,
                *callee,
                args,
                ty,
                (fuel - 1) as u64,
            ),
            Some(
                NodeKind::GenericApply { base, args: _ },
            ) => lower_expr_spec(st, env, *base, (fuel - 1) as u64),
            Some(
                NodeKind::Binary { op, lhs, rhs },
            ) => match crate::facts::fact_op_resolution_spec(env.facts, st.file, node) {
                Some(res) => if is_comparison_spec(*op) {
                    lower_comparison_spec(st, env, node, *res, *op, *lhs, *rhs, (fuel - 1) as u64)
                } else {
                    let (st, l) = lower_expr_spec(st, env, *lhs, (fuel - 1) as u64);
                    let (st, r) = lower_expr_spec(st, env, *rhs, (fuel - 1) as u64);
                    op_call_spec(st, env, node, *res, crate::list::list2_spec(l, r), ty)
                },
                None => {
                    let (st, l) = lower_expr_spec(st, env, *lhs, (fuel - 1) as u64);
                    let (st, r) = lower_expr_spec(st, env, *rhs, (fuel - 1) as u64);
                    expr_spec(
                        st,
                        env,
                        node,
                        ty,
                        ExprKind::Binary { op: *op, lhs: Box::new(l), rhs: Box::new(r) },
                    )
                },
            },
            Some(NodeKind::Unary { op, operand }) => lower_unary_spec(
                st,
                env,
                node,
                *op,
                *operand,
                ty,
                (fuel - 1) as u64,
            ),
            Some(NodeKind::Deref { base }) => {
                let (st, b) = lower_expr_spec(st, env, *base, (fuel - 1) as u64);
                expr_spec(st, env, node, ty, ExprKind::Deref { base: Box::new(b) })
            },
            Some(
                NodeKind::Index { base, index },
            ) => match crate::facts::fact_op_resolution_spec(env.facts, st.file, node) {
                Some(res) => lower_index_call_spec(st, env, node, *res, *base, *index, ty, (fuel - 1) as u64),
                None => expr_spec(st, env, node, ty, ExprKind::Error),
            },
            Some(NodeKind::Slice { base, range }) => lower_slice_spec(
                st,
                env,
                node,
                *base,
                *range,
                ty,
                (fuel - 1) as u64,
            ),
            Some(NodeKind::Range { start, end, kind }) => {
                let (st, (name, args)) = lower_range_spec(
                    st,
                    env,
                    *start,
                    *end,
                    *kind == RangeKind::Closed,
                    (fuel - 1) as u64,
                );
                expr_spec(st, env, node, ty, ExprKind::Variant { name: name, args: Box::new(args) })
            },
            Some(NodeKind::Tuple { elems }) => {
                let (st, es) = lower_exprs_spec(st, env, elems, (fuel - 1) as u64);
                expr_spec(st, env, node, ty, ExprKind::Tuple { elems: Box::new(es) })
            },
            Some(NodeKind::If { cond, then, els }) => {
                let (st, c) = lower_expr_spec(st, env, *cond, (fuel - 1) as u64);
                let (st, t) = lower_block_spec(st, env, *then, (fuel - 1) as u64);
                let (st, e) = lower_opt_block_spec(st, env, *els, (fuel - 1) as u64);
                expr_spec(st, env, node, ty, ExprKind::If { cond: Box::new(c), then: Box::new(t), els: e })
            },
            Some(NodeKind::IfMatch { pattern, value, then, els }) => {
                lower_if_match_spec(st, env, node, *pattern, *value, *then, *els, ty, (fuel - 1) as u64)
            },
            Some(NodeKind::MatchExpr { scrutinee, arms }) => {
                let (st, s) = lower_expr_spec(st, env, *scrutinee, (fuel - 1) as u64);
                let (st, a) = lower_match_arms_spec(st, env, arms, (fuel - 1) as u64);
                expr_spec(st, env, node, ty, ExprKind::Match { scrutinee: Box::new(s), arms: Box::new(a) })
            },
            Some(NodeKind::Loop { body }) => {
                let (st, b) = lower_block_spec(st, env, *body, (fuel - 1) as u64);
                expr_spec(st, env, node, ty, ExprKind::Loop { body: Box::new(b) })
            },
            Some(NodeKind::While { cond, body }) => lower_while_spec(
                st,
                env,
                node,
                *cond,
                *body,
                ty,
                (fuel - 1) as u64,
            ),
            Some(NodeKind::VariantLit { name, args }) => {
                let (st, a) = lower_variant_args_spec(st, env, args, (fuel - 1) as u64);
                expr_spec(st, env, node, ty, ExprKind::Variant { name: (*name), args: Box::new(a) })
            },
            Some(NodeKind::CompositeLit { ty: _, body }) => lower_composite_spec(
                st,
                env,
                node,
                body,
                ty,
                (fuel - 1) as u64,
            ),
            Some(NodeKind::Arg { name: _, value }) => lower_expr_spec(st, env, *value, (fuel - 1) as u64),
            Some(NodeKind::Decl { .. }) => unit_expr_spec(st, env, node),
            Some(NodeKind::ConstBind { .. }) => unit_expr_spec(st, env, node),
            Some(NodeKind::NamespaceExpr { .. }) => unit_expr_spec(st, env, node),
            Some(NodeKind::ImplBlock { .. }) => unit_expr_spec(st, env, node),
            Some(NodeKind::Import) => unit_expr_spec(st, env, node),
            _ => expr_spec(st, env, node, ty, ExprKind::Error),
        }
    }
}

/// [`Lowerer::unit_expr`], as a mathematical function.
pub open spec fn unit_expr_spec(st: LowererV, env: &LowerCx, node: NodeId) -> (LowererV, Expr) {
    expr_spec(st, env, node, Ty::Void, ExprKind::Tuple { elems: Box::new(List::Nil) })
}

/// [`Lowerer::lower_unary`], as a mathematical function.
pub open spec fn lower_unary_spec(
    st: LowererV,
    env: &LowerCx,
    node: NodeId,
    op: UnOp,
    operand: NodeId,
    ty: Ty,
    fuel: u64,
) -> (LowererV, Expr)
    decreases fuel,
{
    if fuel == 0 {
        (give_up_spec(st), no_expr_spec())
    } else {
        if op == UnOp::Ref || op == UnOp::RefMut {
            let (st, place) = lower_expr_spec(st, env, operand, (fuel - 1) as u64);
            expr_spec(
                st,
                env,
                node,
                ty,
                ExprKind::Ref { mutable: op == UnOp::RefMut, place: Box::new(place) },
            )
        } else {
            if op == UnOp::Neg && (crate::ty::is_int_spec(&ty) || crate::ty::is_float_spec(&ty)) {
                match negated_lit_spec(crate::def::kind_of_spec(env.tables, st.file, operand)) {
                    Some(lit) => {
                        expr_spec(st, env, node, ty, ExprKind::Lit(lit))
                    },
                    None => {
                        lower_unary_op_spec(st, env, node, op, operand, ty, (fuel - 1) as u64)
                    },
                }
            } else {
                lower_unary_op_spec(st, env, node, op, operand, ty, (fuel - 1) as u64)
            }
        }
    }
}

/// [`Lowerer::lower_unary_op`], as a mathematical function.
pub open spec fn lower_unary_op_spec(
    st: LowererV,
    env: &LowerCx,
    node: NodeId,
    op: UnOp,
    operand: NodeId,
    ty: Ty,
    fuel: u64,
) -> (LowererV, Expr)
    decreases fuel,
{
    if fuel == 0 {
        (give_up_spec(st), no_expr_spec())
    } else {
        match crate::facts::fact_op_resolution_spec(env.facts, st.file, node) {
            Some(res) => {
                let (st, e) = lower_expr_spec(st, env, operand, (fuel - 1) as u64);
                op_call_spec(st, env, node, *res, crate::list::single_spec(e), ty)
            },
            None => {
                let (st, e) = lower_expr_spec(st, env, operand, (fuel - 1) as u64);
                expr_spec(st, env, node, ty, ExprKind::Unary { op: op, operand: Box::new(e) })
            },
        }
    }
}

/// [`Lowerer::lower_range`], as a mathematical function.
pub open spec fn lower_range_spec(
    st: LowererV,
    env: &LowerCx,
    start: Option<NodeId>,
    end: Option<NodeId>,
    closed: bool,
    fuel: u64,
) -> (LowererV, (Symbol, List<Expr>))
    decreases fuel,
{
    if fuel == 0 {
        (give_up_spec(st), (crate::symbol::sym_spec("full"), List::Nil))
    } else {
        match (start, end) {
            (None, None) => (st, (crate::symbol::sym_spec("full"), List::Nil)),
            (Some(s), None) => {
                let (st, a) = lower_expr_spec(st, env, s, (fuel - 1) as u64);
                (st, (crate::symbol::sym_spec("from"), crate::list::single_spec(a)))
            },
            (None, Some(e)) => {
                let (st, b) = lower_expr_spec(st, env, e, (fuel - 1) as u64);
                (
                    st,
                    (
                        if closed { crate::symbol::sym_spec("to_inclusive") } else { crate::symbol::sym_spec("to") },
                        crate::list::single_spec(b),
                    ),
                )
            },
            (Some(s), Some(e)) => {
                let (st, a) = lower_expr_spec(st, env, s, (fuel - 1) as u64);
                let (st, b) = lower_expr_spec(st, env, e, (fuel - 1) as u64);
                (
                    st,
                    (
                        if closed { crate::symbol::sym_spec("inclusive") } else { crate::symbol::sym_spec("exclusive") },
                        crate::list::list2_spec(a, b),
                    ),
                )
            },
        }
    }
}

/// [`Lowerer::lower_if_match`], as a mathematical function.
pub open spec fn lower_if_match_spec(
    st: LowererV,
    env: &LowerCx,
    node: NodeId,
    pattern: NodeId,
    value: NodeId,
    then: NodeId,
    els: Option<NodeId>,
    ty: Ty,
    fuel: u64,
) -> (LowererV, Expr)
    decreases fuel,
{
    if fuel == 0 {
        (give_up_spec(st), no_expr_spec())
    } else {
        let (st, scrutinee) = lower_expr_spec(st, env, value, (fuel - 1) as u64);
        let (st, then_block) = lower_block_spec(st, env, then, (fuel - 1) as u64);
        let then_ty = ty_or_error_spec(st, then_block.id);
        let (st, p) = lower_pattern_spec(st, env, pattern, (fuel - 1) as u64);
        let (st, body) = expr_spec(st, env, then, then_ty, ExprKind::Block(Box::new(then_block)));
        let (st, then_id) = id_spec(st, env, then);
        let hit = Arm { id: then_id, pattern: p, guard: None, body: body };
        let (st, else_body) = match els {
            Some(e) => {
                let (st, b) = lower_block_spec(st, env, e, (fuel - 1) as u64);
                let bty = ty_or_error_spec(st, b.id);
                expr_spec(st, env, e, bty, ExprKind::Block(Box::new(b)))
            },
            None => unit_expr_spec(st, env, node),
        };
        let else_at = match els {
            Some(e) => e,
            None => node,
        };
        let (st, else_id) = id_spec(st, env, else_at);
        let (st, wild) = pat_spec(st, env, node, PatternKind::Wildcard);
        let miss = Arm { id: else_id, pattern: wild, guard: None, body: else_body };
        expr_spec(
            st,
            env,
            node,
            ty,
            ExprKind::Match {
                scrutinee: Box::new(scrutinee),
                arms: Box::new(crate::list::list2_spec(hit, miss)),
            },
        )
    }
}

// Calls.

/// [`written_slots`], as a mathematical function.
pub open spec fn written_slots_spec(args: &List<NodeId>) -> List<Option<NodeId>>
    decreases args,
{
    match args {
        List::Nil => List::Nil,
        List::Cons(h, t) => List::Cons(Some(*h), Box::new(written_slots_spec(t))),
    }
}

/// The arguments of a call as written, each in a slot of its own.
pub fn written_slots(args: &List<NodeId>) -> (r: List<Option<NodeId>>)
    ensures
        r == written_slots_spec(args),
    decreases args,
{
    match args {
        List::Nil => List::Nil,
        List::Cons(h, t) => List::Cons(Some(*h), Box::new(written_slots(t))),
    }
}

/// [`Lowerer::call_slots`], as a mathematical function.
pub open spec fn call_slots_spec(
    st: LowererV,
    env: &LowerCx,
    head: NodeId,
    args: &List<NodeId>,
) -> List<Option<NodeId>> {
    match crate::facts::fact_arg_order_spec(env.facts, st.file, head) {
        Some(o) => o.args,
        None => written_slots_spec(args),
    }
}

/// [`indexed_fields`], as a mathematical function.
pub open spec fn indexed_fields_spec(l: List<Expr>, i: u64) -> List<(Symbol, Expr)>
    decreases l,
{
    match l {
        List::Nil => List::Nil,
        List::Cons(h, t) => List::Cons(
            (crate::symbol::index_sym_spec(i), h),
            Box::new(indexed_fields_spec(*t, crate::list::succ_spec(i))),
        ),
    }
}

/// Fields named by their positions.
pub fn indexed_fields(l: List<Expr>, i: u64) -> (r: List<(Symbol, Expr)>)
    ensures
        r == indexed_fields_spec(l, i),
    decreases l,
{
    match l {
        List::Nil => List::Nil,
        List::Cons(h, t) => List::Cons((index_sym(i), h), Box::new(indexed_fields(*t, succ(i)))),
    }
}

/// [`Lowerer::call_head`], as a mathematical function.
pub open spec fn call_head_spec(st: LowererV, env: &LowerCx, callee: NodeId) -> NodeId {
    match crate::def::kind_of_spec(env.tables, st.file, callee) {
        Some(NodeKind::GenericApply { base, args: _ }) => *base,
        _ => callee,
    }
}

/// [`Lowerer::lower_call`], as a mathematical function.
pub open spec fn lower_call_spec(
    st: LowererV,
    env: &LowerCx,
    node: NodeId,
    callee: NodeId,
    args: &List<NodeId>,
    ty: Ty,
    fuel: u64,
) -> (LowererV, Expr)
    decreases fuel,
{
    if fuel == 0 {
        (give_up_spec(st), no_expr_spec())
    } else {
        let head = call_head_spec(st, env, callee);
        match crate::facts::fact_func_call_method_spec(env.facts, st.file, head) {
            Some(m) => {
                lower_func_call_method_spec(st, env, node, head, *m, args, ty, (fuel - 1) as u64)
            },
            None => {
                match crate::facts::fact_method_res_spec(env.facts, st.file, head) {
                    Some(res) => {
                        lower_method_call_spec(st, env, node, head, res, args, ty, (fuel - 1) as u64)
                    },
                    None => {
                        let slots = call_slots_spec(st, env, head, args);
                        match construct_target_spec(st, env, head, &ty) {
                            Some(def) => {
                                let (st, lowered) = lower_args_spec(
                                    st,
                                    env,
                                    None,
                                    &slots,
                                    0,
                                    node,
                                    (fuel - 1) as u64,
                                );
                                expr_spec(
                                    st,
                                    env,
                                    node,
                                    ty,
                                    ExprKind::Construct {
                                        def: Some(def),
                                        fields: Box::new(indexed_fields_spec(lowered, 0)),
                                    },
                                )
                            },
                            None => {
                                let target = resolved_def_spec(st, env, head);
                                match opt_intrinsic_spec(env.tables, target) {
                                    Some(tag) => {
                                        let (st, lowered) = lower_args_spec(
                                            st,
                                            env,
                                            target,
                                            &slots,
                                            0,
                                            node,
                                            (fuel - 1) as u64,
                                        );
                                        let (st, e) = lower_intrinsic_spec(st, env, node, tag, lowered, ty);
                                        let st = carry_instantiation_spec(st, env, head, e.id);
                                        (st, e)
                                    },
                                    None => {
                                        let dispatch = static_dispatch_spec(st, env, head, target);
                                        let (st, callee) = lower_expr_spec(
                                            st,
                                            env,
                                            callee,
                                            (fuel - 1) as u64,
                                        );
                                        let (st, lowered) = lower_args_spec(
                                            st,
                                            env,
                                            target,
                                            &slots,
                                            0,
                                            node,
                                            (fuel - 1) as u64,
                                        );
                                        let (st, call) = expr_spec(
                                            st,
                                            env,
                                            node,
                                            ty,
                                            ExprKind::Call {
                                                callee: Box::new(callee),
                                                args: Box::new(lowered),
                                                builtin: None,
                                                dispatch: dispatch,
                                            },
                                        );
                                        let st = carry_instantiation_spec(st, env, head, call.id);
                                        (st, call)
                                    },
                                }
                            },
                        }
                    },
                }
            },
        }
    }
}

/// [`opt_intrinsic`], as a mathematical function.
pub open spec fn opt_intrinsic_spec(t: &Tables, d: Option<DefId>) -> Option<Symbol> {
    match d {
        Some(d) => crate::def::intrinsic_of_spec(t, d),
        None => None,
    }
}

/// The operation a callee is, where it is one the compiler supplies.
pub fn opt_intrinsic(t: &Tables, d: Option<DefId>) -> (r: Option<Symbol>)
    ensures
        r == opt_intrinsic_spec(t, d),
{
    match d {
        Some(d) => intrinsic_of(t, d),
        None => None,
    }
}

/// [`Lowerer::static_dispatch`], as a mathematical function.
pub open spec fn static_dispatch_spec(
    st: LowererV,
    env: &LowerCx,
    head: NodeId,
    target: Option<DefId>,
) -> Dispatch {
    match (crate::facts::fact_static_trait_self_spec(env.facts, st.file, head), target) {
        (Some(s), Some(method)) => Dispatch::Generic {
            trait_def: s.trait_def,
            method: method,
            self_ty: s.self_ty,
            trait_args: s.trait_args,
        },
        _ => match crate::facts::fact_func_call_spec(env.facts, st.file, head) {
            Some(_) => Dispatch::Func { self_ty: ty_spec(st, env, head) },
            None => Dispatch::Static,
        },
    }
}

/// [`Lowerer::lower_intrinsic`], as a mathematical function.
pub open spec fn lower_intrinsic_spec(
    st: LowererV,
    env: &LowerCx,
    node: NodeId,
    tag: Symbol,
    args: List<Expr>,
    ty: Ty,
) -> (LowererV, Expr) {
    match args {
        List::Cons(first, rest) => {
            if crate::list::is_empty_spec(&rest) && crate::symbol::sym_is_spec(&tag, "len") {
                let (st, base) = autoderef_spec(st, first);
                len_expr_spec(st, base, ty)
            } else {
                if crate::list::is_empty_spec(&rest) && crate::symbol::sym_is_spec(&tag, "cast") {
                    match dyn_cast_target_spec(st, &first, &ty) {
                        Some(concrete) => {
                            derived_expr_spec(
                                st,
                                first.id,
                                ty,
                                ExprKind::DynCast { value: Box::new(first), concrete: concrete },
                            )
                        },
                        None => {
                            expr_spec(
                                st,
                                env,
                                node,
                                ty,
                                ExprKind::Intrinsic { name: tag, args: Box::new(List::Cons(first, rest)) },
                            )
                        },
                    }
                } else {
                    expr_spec(
                        st,
                        env,
                        node,
                        ty,
                        ExprKind::Intrinsic { name: tag, args: Box::new(List::Cons(first, rest)) },
                    )
                }
            }
        },
        List::Nil => expr_spec(
            st,
            env,
            node,
            ty,
            ExprKind::Intrinsic { name: tag, args: Box::new(List::Nil) },
        ),
    }
}

/// [`Lowerer::lower_args`], as a mathematical function.
pub open spec fn lower_args_spec(
    st: LowererV,
    env: &LowerCx,
    callee: Option<DefId>,
    slots: &List<Option<NodeId>>,
    i: u64,
    at: NodeId,
    fuel: u64,
) -> (LowererV, List<Expr>)
    decreases fuel, slots,
{
    if fuel == 0 {
        (give_up_spec(st), List::Nil)
    } else {
        match slots {
            List::Nil => (st, List::Nil),
            List::Cons(slot, rest) => {
                let (st, e) = match slot {
                    Some(a) => lower_expr_spec(st, env, *a, (fuel - 1) as u64),
                    None => if default_is_caller_location_spec(env.tables, callee, i) {
                        caller_location_spec(st, env, at)
                    } else {
                        let (st, d) = match callee {
                            Some(c) => param_default_spec(st, env, c, i, (fuel - 1) as u64),
                            None => (st, None),
                        };
                        match d {
                            Some(e) => {
                                let st = note_default_spec(st, e.id);
                                (st, e)
                            },
                            None => missing_arg_spec(st),
                        }
                    },
                };
                let (st, others) = lower_args_spec(
                    st,
                    env,
                    callee,
                    rest,
                    crate::list::succ_spec(i),
                    at,
                    fuel,
                );
                (st, List::Cons(e, Box::new(others)))
            },
        }
    }
}

/// [`Lowerer::missing_arg`], as a mathematical function.
pub open spec fn missing_arg_spec(st: LowererV) -> (LowererV, Expr) {
    let (st, id) = fresh_spec(st);
    let st = note_missing_spec(st, id);
    let st = set_ty_spec(st, id, Ty::Error);
    (st, Expr { id: id, kind: ExprKind::Error })
}

/// [`default_is_caller_location`], as a mathematical function.
pub open spec fn default_is_caller_location_spec(t: &Tables, def: Option<DefId>, i: u64) -> bool {
    match def {
        Some(d) => match recorded_default_spec(t, d, i) {
            Some(ParamDefault::CallerLocation) => true,
            Some(ParamDefault::Value(_)) => false,
            None => match (crate::def::func_of_spec(t, d), param_default_nodes_spec(t, d)) {
                (Some((file, _)), Some(nodes)) => match crate::list::nth_spec(&nodes, i) {
                    Some(Some(n)) => match crate::def::kind_of_spec(t, file, *n) {
                        Some(NodeKind::CallerLocation) => true,
                        _ => false,
                    },
                    _ => false,
                },
                _ => false,
            },
        },
        None => false,
    }
}

/// Whether a value parameter defaults to the caller's location: what is
/// recorded about it, or what is written.
pub fn default_is_caller_location(t: &Tables, def: Option<DefId>, i: u64) -> (r: bool)
    ensures
        r == default_is_caller_location_spec(t, def, i),
{
    match def {
        Some(d) => match recorded_default(t, d, i) {
            Some(ParamDefault::CallerLocation) => true,
            Some(ParamDefault::Value(_)) => false,
            None => match (func_of(t, d), param_default_nodes(t, d)) {
                (Some((file, _)), Some(nodes)) => match nth(&nodes, i) {
                    Some(Some(n)) => match kind_of(t, file, *n) {
                        Some(NodeKind::CallerLocation) => true,
                        _ => false,
                    },
                    _ => false,
                },
                _ => false,
            },
        },
        None => false,
    }
}

/// [`Lowerer::caller_location`], as a mathematical function.
pub open spec fn caller_location_spec(st: LowererV, env: &LowerCx, at: NodeId) -> (LowererV, Expr) {
    match crate::def::lang_def_spec(env.tables, "location") {
        Some(def) => {
            let (file, span) = crate::def::span_of_spec(env.tables, st.file, at);
            let (name, line, column) = match crate::def::source_of_spec(env.tables, file) {
                Some(src) => {
                    let (l, c) = line_col_spec(&src.line_starts, span.start);
                    (src.name, l, c)
                },
                None => (List::Nil, 0, 0),
            };
            let str_ty = match crate::def::lang_ty_spec(env.tables, "str") {
                Some(t) => t,
                None => Ty::Error,
            };
            let (st, file_lit) = expr_spec(st, env, at, str_ty, ExprKind::Lit(Lit::Str(name)));
            let (st, line_lit) = expr_spec(
                st,
                env,
                at,
                crate::ty::int_ty_spec(32, false),
                ExprKind::Lit(Lit::Int(crate::bigint::int_of_spec(line))),
            );
            let (st, column_lit) = expr_spec(
                st,
                env,
                at,
                crate::ty::int_ty_spec(32, false),
                ExprKind::Lit(Lit::Int(crate::bigint::int_of_spec(column))),
            );
            expr_spec(
                st,
                env,
                at,
                crate::ty::nominal_spec(def),
                ExprKind::Construct {
                    def: Some(def),
                    fields: Box::new(
                        crate::list::list3_spec(
                            (crate::symbol::sym_spec("file"), file_lit),
                            (crate::symbol::sym_spec("line"), line_lit),
                            (crate::symbol::sym_spec("column"), column_lit),
                        ),
                    ),
                },
            )
        },
        _ => {
            expr_spec(st, env, at, Ty::Error, ExprKind::Error)
        },
    }
}

/// [`Lowerer::lower_slots`], as a mathematical function.
pub open spec fn lower_slots_spec(
    st: LowererV,
    env: &LowerCx,
    l: &List<Option<NodeId>>,
    fuel: u64,
) -> (LowererV, List<Option<Expr>>)
    decreases fuel, l,
{
    if fuel == 0 {
        (give_up_spec(st), List::Nil)
    } else {
        match l {
            List::Nil => (st, List::Nil),
            List::Cons(h, t) => {
                let (st, a) = lower_opt_expr_spec(st, env, *h, (fuel - 1) as u64);
                let (st, rest) = lower_slots_spec(st, env, t, fuel);
                (st, List::Cons(a, Box::new(rest)))
            },
        }
    }
}

/// [`Lowerer::lower_slots_of`], as a mathematical function.
pub open spec fn lower_slots_of_spec(
    st: LowererV,
    env: &LowerCx,
    file: FileId,
    slots: &List<Option<NodeId>>,
    fuel: u64,
) -> (LowererV, List<Option<Expr>>)
    decreases fuel,
{
    if fuel == 0 {
        (give_up_spec(st), List::Nil)
    } else {
        let saved = st.file;
        let st = LowererV { file: file, ..st };
        let (st, lowered) = lower_slots_spec(st, env, slots, (fuel - 1) as u64);
        let st = LowererV { file: saved, ..st };
        (st, lowered)
    }
}

/// [`Lowerer::param_default`], as a mathematical function.
pub open spec fn param_default_spec(
    st: LowererV,
    env: &LowerCx,
    def: DefId,
    i: u64,
    fuel: u64,
) -> (LowererV, Option<Expr>)
    decreases fuel,
{
    if fuel == 0 {
        (give_up_spec(st), None)
    } else {
        match cached_default_spec(st, def, i) {
            Some(cached) => {
                (st, cached)
            },
            None => {
                match recorded_default_spec(env.tables, def, i) {
                    Some(ParamDefault::Value(id)) => {
                        (st, default_value_spec(st, id))
                    },
                    _ => {
                        match crate::def::func_of_spec(env.tables, def) {
                            Some((file, _)) => {
                                match param_default_nodes_spec(env.tables, def) {
                                    Some(slots) => {
                                        let (st, lowered) = lower_slots_of_spec(
                                            st,
                                            env,
                                            file,
                                            &slots,
                                            (fuel - 1) as u64,
                                        );
                                        let out = match crate::list::nth_spec(&lowered, i) {
                                            Some(e) => (*e),
                                            None => None,
                                        };
                                        let st = cache_defaults_spec(st, def, lowered);
                                        (st, out)
                                    },
                                    _ => {
                                        (st, None)
                                    },
                                }
                            },
                            _ => {
                                (st, None)
                            },
                        }
                    },
                }
            },
        }
    }
}

/// [`Lowerer::fill_from_spread`], as a mathematical function.
pub open spec fn fill_from_spread_spec(
    st: LowererV,
    env: &LowerCx,
    spread: NodeId,
    def: DefId,
    names: &List<Symbol>,
    written: &List<(Symbol, Expr)>,
    fuel: u64,
) -> (LowererV, List<(Symbol, Expr)>)
    decreases fuel, names,
{
    if fuel == 0 {
        (give_up_spec(st), List::Nil)
    } else {
        match names {
            List::Nil => (st, List::Nil),
            List::Cons(name, rest) => if has_field_spec(written, name) {
                fill_from_spread_spec(st, env, spread, def, rest, written, fuel)
            } else {
                let (st, base) = lower_expr_spec(st, env, spread, (fuel - 1) as u64);
                let field = field_def_spec(env.tables, def, name);
                let fty = field_ty_of_spec(env, def, name);
                let (st, read) = expr_spec(
                    st,
                    env,
                    spread,
                    fty,
                    ExprKind::Field { base: Box::new(base), name: (*name), def: field },
                );
                let (st, others) = fill_from_spread_spec(st, env, spread, def, rest, written, fuel);
                (st, List::Cons(((*name), read), Box::new(others)))
            },
        }
    }
}

/// [`has_field`], as a mathematical function.
pub open spec fn has_field_spec(l: &List<(Symbol, Expr)>, name: &Symbol) -> bool
    decreases l,
{
    match l {
        List::Nil => false,
        List::Cons(h, t) => crate::symbol::sym_eq_spec(&h.0, name) || has_field_spec(t, name),
    }
}

/// Whether a field is among those written.
pub fn has_field(l: &List<(Symbol, Expr)>, name: &Symbol) -> (r: bool)
    ensures
        r == has_field_spec(l, name),
    decreases l,
{
    match l {
        List::Nil => false,
        List::Cons(h, t) => sym_eq(&h.0, name) || has_field(t, name),
    }
}

/// [`field_ty_of`], as a mathematical function.
pub open spec fn field_ty_of_spec(cx: &LowerCx, def: DefId, name: &Symbol) -> Ty {
    match field_def_spec(cx.tables, def, name) {
        Some(field) => match recorded_field_ty_spec(cx.tables, field) {
            Some(t) => t,
            None => match crate::def::def_place_spec(cx.tables, field) {
                Some((file, node)) => match crate::facts::fact_ty_spec(cx.facts, file, node) {
                    Some(t) => (*t),
                    None => Ty::Error,
                },
                None => Ty::Error,
            },
        },
        None => Ty::Error,
    }
}

/// The declared type of a field.
pub fn field_ty_of(cx: &LowerCx, def: DefId, name: &Symbol) -> (r: Ty)
    ensures
        r == field_ty_of_spec(cx, def, name),
{
    match field_def(cx.tables, def, name) {
        Some(field) => match recorded_field_ty(cx.tables, field) {
            Some(t) => t,
            None => match def_place(cx.tables, field) {
                Some((file, node)) => match fact_ty(cx.facts, file, node) {
                    Some(t) => dup_ty(t),
                    None => Ty::Error,
                },
                None => Ty::Error,
            },
        },
        None => Ty::Error,
    }
}

/// [`Lowerer::construct_target`], as a mathematical function.
pub open spec fn construct_target_spec(
    st: LowererV,
    env: &LowerCx,
    callee: NodeId,
    ty: &Ty,
) -> Option<DefId> {
    match crate::def::kind_of_spec(env.tables, st.file, callee) {
        Some(NodeKind::Path { .. }) => match resolved_def_spec(st, env, callee) {
            Some(def) => if crate::def::def_kind_spec(env.tables, def) == DefKind::Struct {
                match ty {
                    Ty::Nominal { def: d, args: _ } => Some(*d),
                    _ => None,
                }
            } else {
                None
            },
            None => None,
        },
        _ => None,
    }
}

/// [`Lowerer::lower_func_call_method`], as a mathematical function.
pub open spec fn lower_func_call_method_spec(
    st: LowererV,
    env: &LowerCx,
    node: NodeId,
    callee: NodeId,
    m: FuncCallMethod,
    args: &List<NodeId>,
    ty: Ty,
    fuel: u64,
) -> (LowererV, Expr)
    decreases fuel,
{
    if fuel == 0 {
        (give_up_spec(st), no_expr_spec())
    } else {
        match crate::def::kind_of_spec(env.tables, st.file, callee) {
            Some(NodeKind::FieldAccess { base, name: _ }) => {
                let (st, value) = lower_expr_spec(st, env, *base, (fuel - 1) as u64);
                let (st, value) = if m.deref {
                    autoderef_spec(st, value)
                } else {
                    (st, value)
                };
                let dispatch = match ty_of_spec(st, &value) {
                    Ty::Func { .. } => Dispatch::Static,
                    self_ty => Dispatch::Func { self_ty: self_ty },
                };
                let (st, lowered) = lower_args_spec(
                    st,
                    env,
                    None,
                    &written_slots_spec(args),
                    0,
                    node,
                    (fuel - 1) as u64,
                );
                let (st, call) = expr_spec(
                    st,
                    env,
                    node,
                    ty,
                    ExprKind::Call {
                        callee: Box::new(value),
                        args: Box::new(lowered),
                        builtin: None,
                        dispatch: dispatch,
                    },
                );
                let st = set_spread_args_spec(st, call.id);
                (st, call)
            },
            _ => {
                expr_spec(st, env, node, ty, ExprKind::Error)
            },
        }
    }
}

/// [`Lowerer::types_of`], as a mathematical function.
pub open spec fn types_of_spec(st: LowererV, l: &List<Expr>) -> List<Ty>
    decreases l,
{
    match l {
        List::Nil => List::Nil,
        List::Cons(h, t) => List::Cons(ty_of_spec(st, h), Box::new(types_of_spec(st, t))),
    }
}

/// [`Lowerer::lower_method_call`], as a mathematical function.
pub open spec fn lower_method_call_spec(
    st: LowererV,
    env: &LowerCx,
    node: NodeId,
    callee: NodeId,
    res: &MethodRes,
    args: &List<NodeId>,
    ty: Ty,
    fuel: u64,
) -> (LowererV, Expr)
    decreases fuel,
{
    if fuel == 0 {
        (give_up_spec(st), no_expr_spec())
    } else {
        match crate::def::kind_of_spec(env.tables, st.file, callee) {
            Some(NodeKind::FieldAccess { base, name: _ }) => {
                let slots = call_slots_spec(st, env, callee, args);
                let own = ty_spec(st, env, callee);
                let distinct = crate::facts::fact_distinct_recv_spec(env.facts, st.file, *base);
                let (st, recv) = lower_expr_spec(st, env, *base, (fuel - 1) as u64);
                let (st, recv) = match distinct {
                    Some(d) => {
                        let (st, cast) = expr_spec(
                            st,
                            env,
                            *base,
                            d.repr,
                            ExprKind::Intrinsic {
                                name: crate::symbol::sym_spec("cast"),
                                args: Box::new(crate::list::single_spec(recv)),
                            },
                        );
                        let st = set_implicit_cast_spec(st, cast.id);
                        (st, cast)
                    },
                    None => (st, recv),
                };
                let (st, first) = adjust_recv_spec(st, recv, res.adjust, &res.self_ty);
                let (st, lowered) = lower_args_spec(
                    st,
                    env,
                    Some(res.method),
                    &slots,
                    0,
                    node,
                    (fuel - 1) as u64,
                );
                let call_args = List::Cons(first, Box::new(lowered));
                match crate::def::intrinsic_of_spec(env.tables, res.method) {
                    Some(tag) => {
                        lower_intrinsic_spec(st, env, node, tag, call_args, ty)
                    },
                    None => {
                        let callee_ty = match own {
                            Ty::Func { params, ret, c } => Ty::Func { params: params, ret: ret, c: c },
                            _ => Ty::Func {
                                params: Box::new(types_of_spec(st, &call_args)),
                                ret: Box::new(ty),
                                c: false,
                            },
                        };
                        let dispatch = method_dispatch_spec(res);
                        let (st, target) = expr_spec(
                            st,
                            env,
                            callee,
                            callee_ty,
                            ExprKind::Global(res.method),
                        );
                        let (st, call) = expr_spec(
                            st,
                            env,
                            node,
                            ty,
                            ExprKind::Call {
                                callee: Box::new(target),
                                args: Box::new(call_args),
                                builtin: None,
                                dispatch: dispatch,
                            },
                        );
                        let st = carry_instantiation_spec(st, env, callee, call.id);
                        (st, call)
                    },
                }
            },
            _ => {
                expr_spec(st, env, node, ty, ExprKind::Error)
            },
        }
    }
}

/// [`method_dispatch`], as a mathematical function.
pub open spec fn method_dispatch_spec(res: &MethodRes) -> Dispatch {
    match &res.dispatch {
        MethodDispatch::Static => Dispatch::Static,
        MethodDispatch::Virtual(trait_def) => Dispatch::Virtual { trait_def: *trait_def, method: res.method },
        MethodDispatch::Generic { trait_def, args } => Dispatch::Generic {
            trait_def: *trait_def,
            method: res.method,
            self_ty: res.self_ty,
            trait_args: (*args),
        },
    }
}

/// The dispatch a resolved method call has.
pub fn method_dispatch(res: &MethodRes) -> (r: Dispatch)
    ensures
        r == method_dispatch_spec(res),
{
    match &res.dispatch {
        MethodDispatch::Static => Dispatch::Static,
        MethodDispatch::Virtual(trait_def) => Dispatch::Virtual { trait_def: *trait_def, method: res.method },
        MethodDispatch::Generic { trait_def, args } => Dispatch::Generic {
            trait_def: *trait_def,
            method: res.method,
            self_ty: dup_ty(&res.self_ty),
            trait_args: dup_tys(args),
        },
    }
}

/// [`Lowerer::carry_instantiation`], as a mathematical function.
pub open spec fn carry_instantiation_spec(st: LowererV, env: &LowerCx, head: NodeId, call: IrId) -> LowererV {
    if !redirected_to_impl_spec(st, env, head) {
        match crate::facts::fact_instantiation_spec(env.facts, st.file, head) {
            Some(inst) => {
                let st = set_instantiation_spec(st, call, (*inst));
                st
            },
            None => {
                st
            },
        }
    } else {
        st
    }
}

/// [`Lowerer::redirected_to_impl`], as a mathematical function.
pub open spec fn redirected_to_impl_spec(st: LowererV, env: &LowerCx, head: NodeId) -> bool {
    match crate::facts::fact_op_resolution_spec(env.facts, st.file, head) {
        Some(res) => resolved_def_spec(st, env, head) != Some(res.method),
        None => false,
    }
}

/// [`Lowerer::op_call`], as a mathematical function.
pub open spec fn op_call_spec(
    st: LowererV,
    env: &LowerCx,
    node: NodeId,
    res: OpResolution,
    args: List<Expr>,
    ty: Ty,
) -> (LowererV, Expr) {
    match crate::def::intrinsic_of_spec(env.tables, res.method) {
        Some(tag) => {
            lower_intrinsic_spec(st, env, node, tag, args, ty)
        },
        None => {
            let callee_ty = Ty::Func {
                params: Box::new(types_of_spec(st, &args)),
                ret: Box::new(ty),
                c: false,
            };
            let (st, callee) = expr_spec(st, env, node, callee_ty, ExprKind::Global(res.method));
            expr_spec(
                st,
                env,
                node,
                ty,
                ExprKind::Call {
                    callee: Box::new(callee),
                    args: Box::new(args),
                    builtin: res.builtin,
                    dispatch: Dispatch::Static,
                },
            )
        },
    }
}

/// [`relation_test`], as a mathematical function.
pub open spec fn relation_test_spec(op: BinOp) -> (Symbol, bool) {
    match op {
        BinOp::Lt => (crate::symbol::sym_spec("less"), true),
        BinOp::Ge => (crate::symbol::sym_spec("less"), false),
        BinOp::Gt => (crate::symbol::sym_spec("greater"), true),
        _ => (crate::symbol::sym_spec("greater"), false),
    }
}

/// Which ordering answers a relation, and whether landing on it means `true`.
pub fn relation_test(op: BinOp) -> (r: (Symbol, bool))
    ensures
        r == relation_test_spec(op),
{
    match op {
        BinOp::Lt => (sym("less"), true),
        BinOp::Ge => (sym("less"), false),
        BinOp::Gt => (sym("greater"), true),
        _ => (sym("greater"), false),
    }
}

/// [`Lowerer::lower_comparison`], as a mathematical function.
pub open spec fn lower_comparison_spec(
    st: LowererV,
    env: &LowerCx,
    node: NodeId,
    res: OpResolution,
    op: BinOp,
    lhs: NodeId,
    rhs: NodeId,
    fuel: u64,
) -> (LowererV, Expr)
    decreases fuel,
{
    if fuel == 0 {
        (give_up_spec(st), no_expr_spec())
    } else {
        let (st, l) = lower_expr_spec(st, env, lhs, (fuel - 1) as u64);
        let (st, r) = lower_expr_spec(st, env, rhs, (fuel - 1) as u64);
        let args = crate::list::list2_spec(l, r);
        if op == BinOp::Eq {
            op_call_spec(st, env, node, res, args, Ty::Bool)
        } else {
            if op == BinOp::Ne {
                let (st, call) = op_call_spec(st, env, node, res, args, Ty::Bool);
                expr_spec(st, env, node, Ty::Bool, ExprKind::Unary { op: UnOp::Not, operand: Box::new(call) })
            } else {
                let ordering = match crate::def::lang_ty_spec(env.tables, "ordering") {
                    Some(t) => t,
                    None => Ty::Error,
                };
                let (st, call) = op_call_spec(st, env, node, res, args, ordering);
                let (variant, hit) = relation_test_spec(op);
                let (st, hit_id) = id_spec(st, env, node);
                let (st, hit_pat) = pat_spec(
                    st,
                    env,
                    node,
                    PatternKind::Variant { name: variant, sub: Box::new(List::Nil) },
                );
                let (st, hit_body) = expr_spec(st, env, node, Ty::Bool, ExprKind::Lit(Lit::Bool(hit)));
                let (st, miss_id) = id_spec(st, env, node);
                let (st, miss_pat) = pat_spec(st, env, node, PatternKind::Wildcard);
                let (st, miss_body) = expr_spec(st, env, node, Ty::Bool, ExprKind::Lit(Lit::Bool(!hit)));
                let arms = crate::list::list2_spec(
                    Arm { id: hit_id, pattern: hit_pat, guard: None, body: hit_body },
                    Arm { id: miss_id, pattern: miss_pat, guard: None, body: miss_body },
                );
                expr_spec(
                    st,
                    env,
                    node,
                    Ty::Bool,
                    ExprKind::Match { scrutinee: Box::new(call), arms: Box::new(arms) },
                )
            }
        }
    }
}

/// [`index_mutable`], as a mathematical function.
pub open spec fn index_mutable_spec(seq: &Ty, written: bool, by_trait: bool) -> bool {
    match seq {
        Ty::Slice { mutable, inner: _ } => *mutable,
        Ty::Array { .. } => written,
        _ => by_trait,
    }
}

/// Whether an element pointer may be written through: for a slice what the
/// slice says, for an array whether this index is being written, and otherwise
/// which of the two index traits was meant.
pub fn index_mutable(seq: &Ty, written: bool, by_trait: bool) -> (r: bool)
    ensures
        r == index_mutable_spec(seq, written, by_trait),
{
    match seq {
        Ty::Slice { mutable, inner: _ } => *mutable,
        Ty::Array { .. } => written,
        _ => by_trait,
    }
}

/// [`is_sequence`], as a mathematical function.
pub open spec fn is_sequence_spec(ty: &Ty) -> bool {
    match ty {
        Ty::Slice { .. } => true,
        Ty::Array { .. } => true,
        _ => false,
    }
}

/// Whether a type is an array or a slice.
pub fn is_sequence(ty: &Ty) -> (r: bool)
    ensures
        r == is_sequence_spec(ty),
{
    match ty {
        Ty::Slice { .. } => true,
        Ty::Array { .. } => true,
        _ => false,
    }
}

/// [`pointee`], as a mathematical function.
pub open spec fn pointee_spec(ty: &Ty) -> Ty {
    match ty {
        Ty::Ptr { mutable: _, inner } => (**inner),
        other => (*other),
    }
}

/// What a pointer points at, or the type itself.
pub fn pointee(ty: &Ty) -> (r: Ty)
    ensures
        r == pointee_spec(ty),
{
    match ty {
        Ty::Ptr { mutable: _, inner } => dup_ty(&**inner),
        other => dup_ty(other),
    }
}

/// [`Lowerer::lower_index_call`], as a mathematical function.
pub open spec fn lower_index_call_spec(
    st: LowererV,
    env: &LowerCx,
    node: NodeId,
    res: OpResolution,
    base: NodeId,
    index: NodeId,
    ty: Ty,
    fuel: u64,
) -> (LowererV, Expr)
    decreases fuel,
{
    if fuel == 0 {
        (give_up_spec(st), no_expr_spec())
    } else {
        let by_trait = crate::def::lang_def_spec(env.tables, "index_mut") == Some(res.trait_def);
        let written = crate::facts::fact_index_write_spec(env.facts, st.file, node).is_some();
        let (st, b) = lower_expr_spec(st, env, base, (fuel - 1) as u64);
        let recv_ty = ty_of_spec(st, &b);
        let seq = pointee_spec(&recv_ty);
        let mutable = index_mutable_spec(&seq, written, by_trait);
        let recv_mut = mutable && !is_sequence_spec(&seq);
        let (st, recv) = match recv_ty {
            Ty::Ptr { .. } => (st, b),
            other => expr_spec(
                st,
                env,
                base,
                Ty::Ptr { mutable: recv_mut, inner: Box::new(other) },
                ExprKind::Ref { mutable: recv_mut, place: Box::new(b) },
            ),
        };
        let (st, i) = lower_expr_spec(st, env, index, (fuel - 1) as u64);
        let elem_ptr = Ty::Ptr { mutable: mutable, inner: Box::new(ty) };
        let (st, call) = op_call_spec(st, env, node, res, crate::list::list2_spec(recv, i), elem_ptr);
        expr_spec(st, env, node, ty, ExprKind::Deref { base: Box::new(call) })
    }
}

/// [`Lowerer::lower_while`], as a mathematical function.
pub open spec fn lower_while_spec(
    st: LowererV,
    env: &LowerCx,
    node: NodeId,
    cond: NodeId,
    body: NodeId,
    ty: Ty,
    fuel: u64,
) -> (LowererV, Expr)
    decreases fuel,
{
    if fuel == 0 {
        (give_up_spec(st), no_expr_spec())
    } else {
        let (st, c) = lower_expr_spec(st, env, cond, (fuel - 1) as u64);
        let (st, not_cond) = expr_spec(
            st,
            env,
            cond,
            Ty::Bool,
            ExprKind::Unary { op: UnOp::Not, operand: Box::new(c) },
        );
        let (st, break_id) = id_spec(st, env, cond);
        let st = set_ty_spec(st, break_id, Ty::Void);
        let (st, break_stmt) = stmt_spec(st, env, cond, StmtKind::Break(None));
        let break_block = Block {
            id: break_id,
            stmts: Box::new(crate::list::single_spec(break_stmt)),
            tail: None,
        };
        let (st, guard_if) = expr_spec(
            st,
            env,
            cond,
            Ty::Void,
            ExprKind::If { cond: Box::new(not_cond), then: Box::new(break_block), els: None },
        );
        let (st, guard) = stmt_spec(st, env, cond, StmtKind::Expr(guard_if));
        let (st, b) = lower_block_spec(st, env, body, (fuel - 1) as u64);
        let id = b.id;
        let (st, stmts) = match b.tail {
            Some(tail) => {
                let (st, tail_id) = derived_spec(st, tail.id);
                (
                    st,
                    crate::list::append_spec(
                        *b.stmts,
                        crate::list::single_spec(Stmt { id: tail_id, kind: StmtKind::Expr(*tail) }),
                    ),
                )
            },
            None => (st, *b.stmts),
        };
        let st = set_ty_spec(st, id, Ty::Void);
        let block = Block { id: id, stmts: Box::new(List::Cons(guard, Box::new(stmts))), tail: None };
        expr_spec(st, env, node, ty, ExprKind::Loop { body: Box::new(block) })
    }
}

/// [`Lowerer::lower_record_args`], as a mathematical function.
pub open spec fn lower_record_args_spec(
    st: LowererV,
    env: &LowerCx,
    l: &List<NodeId>,
    fuel: u64,
) -> (LowererV, List<Expr>)
    decreases fuel, l,
{
    if fuel == 0 {
        (give_up_spec(st), List::Nil)
    } else {
        match l {
            List::Nil => (st, List::Nil),
            List::Cons(h, t) => {
                let (st, a) = lower_record_arg_spec(st, env, *h, (fuel - 1) as u64);
                let (st, rest) = lower_record_args_spec(st, env, t, fuel);
                (st, List::Cons(a, Box::new(rest)))
            },
        }
    }
}

/// [`Lowerer::lower_record_arg`], as a mathematical function.
pub open spec fn lower_record_arg_spec(st: LowererV, env: &LowerCx, f: NodeId, fuel: u64) -> (LowererV, Expr)
    decreases fuel,
{
    if fuel == 0 {
        (give_up_spec(st), no_expr_spec())
    } else {
        match crate::def::kind_of_spec(env.tables, st.file, f) {
            Some(
                NodeKind::FieldInit { name: _, value },
            ) => lower_expr_spec(st, env, *value, (fuel - 1) as u64),
            _ => lower_expr_spec(st, env, f, (fuel - 1) as u64),
        }
    }
}

/// [`Lowerer::lower_variant_args`], as a mathematical function.
pub open spec fn lower_variant_args_spec(
    st: LowererV,
    env: &LowerCx,
    args: &VariantArgs,
    fuel: u64,
) -> (LowererV, List<Expr>)
    decreases fuel,
{
    if fuel == 0 {
        (give_up_spec(st), List::Nil)
    } else {
        match args {
            VariantArgs::Unit => (st, List::Nil),
            VariantArgs::Tuple(ids) => lower_exprs_spec(st, env, ids, (fuel - 1) as u64),
            VariantArgs::Record(ids) => lower_record_args_spec(st, env, ids, (fuel - 1) as u64),
        }
    }
}

/// [`Lowerer::lower_field_inits`], as a mathematical function.
pub open spec fn lower_field_inits_spec(
    st: LowererV,
    env: &LowerCx,
    l: &List<NodeId>,
    fuel: u64,
) -> (LowererV, List<(Symbol, Expr)>)
    decreases fuel, l,
{
    if fuel == 0 {
        (give_up_spec(st), List::Nil)
    } else {
        match l {
            List::Nil => (st, List::Nil),
            List::Cons(h, t) => {
                let (st, a) = lower_field_init_spec(st, env, *h, (fuel - 1) as u64);
                let (st, rest) = lower_field_inits_spec(st, env, t, fuel);
                match a {
                    Some(x) => (st, List::Cons(x, Box::new(rest))),
                    None => (st, rest),
                }
            },
        }
    }
}

/// [`Lowerer::lower_field_init`], as a mathematical function.
pub open spec fn lower_field_init_spec(
    st: LowererV,
    env: &LowerCx,
    f: NodeId,
    fuel: u64,
) -> (LowererV, Option<(Symbol, Expr)>)
    decreases fuel,
{
    if fuel == 0 {
        (give_up_spec(st), None)
    } else {
        match crate::def::kind_of_spec(env.tables, st.file, f) {
            Some(NodeKind::FieldInit { name, value }) => {
                let (st, e) = lower_expr_spec(st, env, *value, (fuel - 1) as u64);
                (st, Some(((*name), e)))
            },
            _ => (st, None),
        }
    }
}

/// [`Lowerer::lower_composite`], as a mathematical function.
pub open spec fn lower_composite_spec(
    st: LowererV,
    env: &LowerCx,
    node: NodeId,
    body: &CompositeBody,
    ty: Ty,
    fuel: u64,
) -> (LowererV, Expr)
    decreases fuel,
{
    if fuel == 0 {
        (give_up_spec(st), no_expr_spec())
    } else {
        match body {
            CompositeBody::Named { fields, spread } => {
                let (st, lowered) = lower_field_inits_spec(st, env, fields, (fuel - 1) as u64);
                match &ty {
                    Ty::Nominal { def, args: _ } => {
                        let def = *def;
                        let (st, extra) = match spread {
                            Some(s) => {
                                let names = record_field_names_spec(env.tables, def);
                                fill_from_spread_spec(st, env, *s, def, &names, &lowered, (fuel - 1) as u64)
                            },
                            None => (st, List::Nil),
                        };
                        expr_spec(
                            st,
                            env,
                            node,
                            ty,
                            ExprKind::Construct {
                                def: Some(def),
                                fields: Box::new(crate::list::append_spec(lowered, extra)),
                            },
                        )
                    },
                    Ty::Struct(_) => expr_spec(
                        st,
                        env,
                        node,
                        ty,
                        ExprKind::Construct { def: None, fields: Box::new(lowered) },
                    ),
                    _ => expr_spec(st, env, node, ty, ExprKind::Error),
                }
            },
            CompositeBody::Positional(elems) => {
                let (st, es) = lower_exprs_spec(st, env, elems, (fuel - 1) as u64);
                match &ty {
                    Ty::Tuple(_) => expr_spec(st, env, node, ty, ExprKind::Tuple { elems: Box::new(es) }),
                    Ty::Nominal { def, args: _ } => {
                        let def = *def;
                        expr_spec(
                            st,
                            env,
                            node,
                            ty,
                            ExprKind::Construct {
                                def: Some(def),
                                fields: Box::new(indexed_fields_spec(es, 0)),
                            },
                        )
                    },
                    Ty::Array { .. } => expr_spec(
                        st,
                        env,
                        node,
                        ty,
                        ExprKind::Intrinsic { name: crate::symbol::sym_spec("array"), args: Box::new(es) },
                    ),
                    Ty::Slice { .. } => expr_spec(
                        st,
                        env,
                        node,
                        ty,
                        ExprKind::Intrinsic { name: crate::symbol::sym_spec("array"), args: Box::new(es) },
                    ),
                    _ => expr_spec(st, env, node, ty, ExprKind::Error),
                }
            },
            CompositeBody::Repeat { value, count } => {
                let (st, v) = lower_expr_spec(st, env, *value, (fuel - 1) as u64);
                let (st, c) = lower_expr_spec(st, env, *count, (fuel - 1) as u64);
                expr_spec(
                    st,
                    env,
                    node,
                    ty,
                    ExprKind::Intrinsic {
                        name: crate::symbol::sym_spec("repeat"),
                        args: Box::new(crate::list::list2_spec(v, c)),
                    },
                )
            },
        }
    }
}

// Match arms and patterns.

/// [`Lowerer::lower_match_arms`], as a mathematical function.
pub open spec fn lower_match_arms_spec(
    st: LowererV,
    env: &LowerCx,
    l: &List<NodeId>,
    fuel: u64,
) -> (LowererV, List<Arm>)
    decreases fuel, l,
{
    if fuel == 0 {
        (give_up_spec(st), List::Nil)
    } else {
        match l {
            List::Nil => (st, List::Nil),
            List::Cons(h, t) => {
                let (st, a) = lower_match_arm_spec(st, env, *h, (fuel - 1) as u64);
                let (st, rest) = lower_match_arms_spec(st, env, t, fuel);
                match a {
                    Some(x) => (st, List::Cons(x, Box::new(rest))),
                    None => (st, rest),
                }
            },
        }
    }
}

/// [`Lowerer::lower_match_arm`], as a mathematical function.
pub open spec fn lower_match_arm_spec(
    st: LowererV,
    env: &LowerCx,
    node: NodeId,
    fuel: u64,
) -> (LowererV, Option<Arm>)
    decreases fuel,
{
    if fuel == 0 {
        (give_up_spec(st), None)
    } else {
        match crate::def::kind_of_spec(env.tables, st.file, node) {
            Some(NodeKind::MatchArm { pattern, guard, body }) => {
                let (st, id) = id_spec(st, env, node);
                let (st, p) = lower_pattern_spec(st, env, *pattern, (fuel - 1) as u64);
                let (st, g) = lower_opt_expr_spec(st, env, *guard, (fuel - 1) as u64);
                let (st, b) = lower_expr_spec(st, env, *body, (fuel - 1) as u64);
                (st, Some(Arm { id: id, pattern: p, guard: g, body: b }))
            },
            _ => {
                (st, None)
            },
        }
    }
}

/// [`Lowerer::lower_patterns`], as a mathematical function.
pub open spec fn lower_patterns_spec(
    st: LowererV,
    env: &LowerCx,
    l: &List<NodeId>,
    fuel: u64,
) -> (LowererV, List<Pattern>)
    decreases fuel, l,
{
    if fuel == 0 {
        (give_up_spec(st), List::Nil)
    } else {
        match l {
            List::Nil => (st, List::Nil),
            List::Cons(h, t) => {
                let (st, a) = lower_pattern_spec(st, env, *h, (fuel - 1) as u64);
                let (st, rest) = lower_patterns_spec(st, env, t, fuel);
                (st, List::Cons(a, Box::new(rest)))
            },
        }
    }
}

/// [`split_patterns`], as a mathematical function.
pub open spec fn split_patterns_spec(l: List<Pattern>, n: u64) -> (List<Pattern>, List<Pattern>)
    decreases l,
{
    match l {
        List::Nil => (List::Nil, List::Nil),
        List::Cons(h, t) => if n == 0 {
            (List::Nil, List::Cons(h, t))
        } else {
            let (a, b) = split_patterns_spec(*t, (n - 1) as u64);
            (List::Cons(h, Box::new(a)), b)
        },
    }
}

/// The first `n` elements of a list, and the rest.
pub fn split_patterns(l: List<Pattern>, n: u64) -> (r: (List<Pattern>, List<Pattern>))
    ensures
        r == split_patterns_spec(l, n),
    decreases l,
{
    match l {
        List::Nil => (List::Nil, List::Nil),
        List::Cons(h, t) => if n == 0 {
            (List::Nil, List::Cons(h, t))
        } else {
            let (a, b) = split_patterns(*t, (n - 1) as u64);
            (List::Cons(h, Box::new(a)), b)
        },
    }
}

/// [`Lowerer::binding_kind`], as a mathematical function.
pub open spec fn binding_kind_spec(st: LowererV, env: &LowerCx, node: NodeId, name: &Symbol) -> PatternKind {
    match def_of_spec(st, env, node) {
        Some(def) => PatternKind::Binding { def: def, name: (*name) },
        None => PatternKind::Wildcard,
    }
}

/// [`Lowerer::lower_pattern`], as a mathematical function.
pub open spec fn lower_pattern_spec(
    st: LowererV,
    env: &LowerCx,
    node: NodeId,
    fuel: u64,
) -> (LowererV, Pattern)
    decreases fuel,
{
    if fuel == 0 {
        (give_up_spec(st), no_pattern_spec())
    } else {
        match unbound_at_spec(st, env, node) {
            Some(inner) => {
                lower_pattern_spec(st, env, inner, (fuel - 1) as u64)
            },
            None => {
                let own = def_of_spec(st, env, node);
                let (st, kind) = match crate::def::kind_of_spec(env.tables, st.file, node) {
                    Some(NodeKind::BindingPat { name }) => (st, binding_kind_spec(st, env, node, name)),
                    Some(NodeKind::LitPat(lit)) => (st, PatternKind::Lit((*lit))),
                    Some(NodeKind::VariantPat { name, args }) => {
                        let (st, sub) = lower_variant_pat_args_spec(st, env, args, (fuel - 1) as u64);
                        (st, PatternKind::Variant { name: (*name), sub: Box::new(sub) })
                    },
                    Some(NodeKind::TuplePat { elems }) => {
                        let (st, es) = lower_patterns_spec(st, env, elems, (fuel - 1) as u64);
                        (st, PatternKind::Tuple(Box::new(es)))
                    },
                    Some(NodeKind::OrPat { alternatives }) => {
                        let (st, alts) = lower_patterns_spec(st, env, alternatives, (fuel - 1) as u64);
                        (st, PatternKind::Or(Box::new(alts)))
                    },
                    Some(NodeKind::AtPat { name, pattern }) => match own {
                        Some(def) => {
                            let (st, id) = id_spec(st, env, node);
                            let (st, p) = lower_pattern_spec(st, env, *pattern, (fuel - 1) as u64);
                            (
                                st,
                                PatternKind::At {
                                    binding: Binding { id: id, def: def, name: (*name) },
                                    pattern: Box::new(p),
                                },
                            )
                        },
                        None => (st, PatternKind::Wildcard),
                    },
                    Some(NodeKind::RefPat { pattern }) => {
                        let (st, p) = lower_pattern_spec(st, env, *pattern, (fuel - 1) as u64);
                        (st, PatternKind::Deref(Box::new(p)))
                    },
                    Some(NodeKind::StructPat { path, fields, rest }) => {
                        let def = match path {
                            Some(p) => resolved_def_spec(st, env, *p),
                            None => None,
                        };
                        let (st, fs) = lower_field_pats_spec(st, env, fields, (fuel - 1) as u64);
                        (st, PatternKind::Struct { def: def, fields: Box::new(fs), rest: *rest })
                    },
                    Some(NodeKind::TupleStructPat { path, elems, rest }) => {
                        let def = resolved_def_spec(st, env, *path);
                        let (st, es) = lower_patterns_spec(st, env, elems, (fuel - 1) as u64);
                        (st, PatternKind::TupleStruct { def: def, elems: Box::new(es), rest: *rest })
                    },
                    Some(NodeKind::SlicePat { elems, rest }) => {
                        let at = match rest {
                            Some(r) => r.at,
                            None => crate::list::list_len_spec(elems),
                        };
                        let (st, lowered) = lower_patterns_spec(st, env, elems, (fuel - 1) as u64);
                        let (prefix, suffix) = split_patterns_spec(lowered, at);
                        let (st, bound) = match rest {
                            Some(r) => match (&r.name, own) {
                                (Some(name), Some(def)) => {
                                    let (st, id) = id_spec(st, env, node);
                                    (st, Some(Some(Binding { id: id, def: def, name: (*name) })))
                                },
                                _ => (st, Some(None)),
                            },
                            None => (st, None),
                        };
                        (
                            st,
                            PatternKind::Slice {
                                prefix: Box::new(prefix),
                                rest: bound,
                                suffix: Box::new(suffix),
                            },
                        )
                    },
                    Some(NodeKind::RangePat { start, end, kind }) => (
                        st,
                        PatternKind::Range {
                            start: opt_lit_of_spec(st, env, *start),
                            end: opt_lit_of_spec(st, env, *end),
                            inclusive: *kind == RangeKind::Closed,
                        },
                    ),
                    _ => (st, PatternKind::Wildcard),
                };
                pat_spec(st, env, node, kind)
            },
        }
    }
}

/// [`Lowerer::unbound_at`], as a mathematical function.
pub open spec fn unbound_at_spec(st: LowererV, env: &LowerCx, node: NodeId) -> Option<NodeId> {
    match crate::def::kind_of_spec(env.tables, st.file, node) {
        Some(NodeKind::AtPat { name: _, pattern }) => match def_of_spec(st, env, node) {
            Some(_) => None,
            None => Some(*pattern),
        },
        _ => None,
    }
}

/// [`Lowerer::lower_field_pats`], as a mathematical function.
pub open spec fn lower_field_pats_spec(
    st: LowererV,
    env: &LowerCx,
    l: &List<NodeId>,
    fuel: u64,
) -> (LowererV, List<(Symbol, Pattern)>)
    decreases fuel, l,
{
    if fuel == 0 {
        (give_up_spec(st), List::Nil)
    } else {
        match l {
            List::Nil => (st, List::Nil),
            List::Cons(h, t) => {
                let (st, a) = lower_field_pat_spec(st, env, *h, (fuel - 1) as u64);
                let (st, rest) = lower_field_pats_spec(st, env, t, fuel);
                match a {
                    Some(x) => (st, List::Cons(x, Box::new(rest))),
                    None => (st, rest),
                }
            },
        }
    }
}

/// [`Lowerer::lower_field_pat`], as a mathematical function.
pub open spec fn lower_field_pat_spec(
    st: LowererV,
    env: &LowerCx,
    f: NodeId,
    fuel: u64,
) -> (LowererV, Option<(Symbol, Pattern)>)
    decreases fuel,
{
    if fuel == 0 {
        (give_up_spec(st), None)
    } else {
        match crate::def::kind_of_spec(env.tables, st.file, f) {
            Some(NodeKind::FieldPat { name, pattern }) => {
                let (st, sub) = match pattern {
                    Some(p) => lower_pattern_spec(st, env, *p, (fuel - 1) as u64),
                    None => pat_spec(st, env, f, binding_kind_spec(st, env, f, name)),
                };
                (st, Some(((*name), sub)))
            },
            _ => {
                (st, None)
            },
        }
    }
}

/// [`Lowerer::lit_of`], as a mathematical function.
pub open spec fn lit_of_spec(st: LowererV, env: &LowerCx, node: NodeId) -> Option<Lit> {
    match crate::def::kind_of_spec(env.tables, st.file, node) {
        Some(NodeKind::LitPat(l)) => Some((*l)),
        Some(NodeKind::Lit(l)) => Some((*l)),
        _ => None,
    }
}

/// [`Lowerer::opt_lit_of`], as a mathematical function.
pub open spec fn opt_lit_of_spec(st: LowererV, env: &LowerCx, node: Option<NodeId>) -> Option<Lit> {
    match node {
        Some(n) => lit_of_spec(st, env, n),
        None => None,
    }
}

/// [`Lowerer::lower_record_pats`], as a mathematical function.
pub open spec fn lower_record_pats_spec(
    st: LowererV,
    env: &LowerCx,
    l: &List<NodeId>,
    fuel: u64,
) -> (LowererV, List<Pattern>)
    decreases fuel, l,
{
    if fuel == 0 {
        (give_up_spec(st), List::Nil)
    } else {
        match l {
            List::Nil => (st, List::Nil),
            List::Cons(h, t) => {
                let (st, a) = lower_record_pat_spec(st, env, *h, (fuel - 1) as u64);
                let (st, rest) = lower_record_pats_spec(st, env, t, fuel);
                (st, List::Cons(a, Box::new(rest)))
            },
        }
    }
}

/// [`Lowerer::lower_record_pat`], as a mathematical function.
pub open spec fn lower_record_pat_spec(
    st: LowererV,
    env: &LowerCx,
    f: NodeId,
    fuel: u64,
) -> (LowererV, Pattern)
    decreases fuel,
{
    if fuel == 0 {
        (give_up_spec(st), no_pattern_spec())
    } else {
        match crate::def::kind_of_spec(env.tables, st.file, f) {
            Some(NodeKind::FieldPat { name, pattern }) => match pattern {
                Some(p) => lower_pattern_spec(st, env, *p, (fuel - 1) as u64),
                None => pat_spec(st, env, f, binding_kind_spec(st, env, f, name)),
            },
            _ => pat_spec(st, env, f, PatternKind::Wildcard),
        }
    }
}

/// [`Lowerer::lower_variant_pat_args`], as a mathematical function.
pub open spec fn lower_variant_pat_args_spec(
    st: LowererV,
    env: &LowerCx,
    args: &VariantPatArgs,
    fuel: u64,
) -> (LowererV, List<Pattern>)
    decreases fuel,
{
    if fuel == 0 {
        (give_up_spec(st), List::Nil)
    } else {
        match args {
            VariantPatArgs::Unit => (st, List::Nil),
            VariantPatArgs::Tuple(ids) => lower_patterns_spec(st, env, ids, (fuel - 1) as u64),
            VariantPatArgs::Record { fields, rest: _ } => lower_record_pats_spec(
                st,
                env,
                fields,
                (fuel - 1) as u64,
            ),
        }
    }
}

// Names and closures.

/// [`Lowerer::lower_name`], as a mathematical function.
pub open spec fn lower_name_spec(st: LowererV, env: &LowerCx, node: NodeId, ty: Ty) -> (LowererV, Expr) {
    let def = resolved_def_spec(st, env, node);
    let (st, seen) = match def {
        Some(d) => captured_spec(st, env, node, d, &ty),
        None => (st, None),
    };
    match seen {
        Some(e) => (st, e),
        None => match (crate::facts::fact_op_resolution_spec(env.facts, st.file, node), def) {
            (Some(res), _) => global_or_local_spec(st, env, node, res.method, ty),
            (None, Some(d)) => global_or_local_spec(st, env, node, d, ty),
            (None, None) => expr_spec(st, env, node, ty, ExprKind::Error),
        },
    }
}

/// [`find_capture`], as a mathematical function.
pub open spec fn find_capture_spec(
    l: &List<(DefId, (Symbol, Ty, bool))>,
    def: DefId,
) -> Option<(Symbol, Ty, bool)>
    decreases l,
{
    match l {
        List::Nil => None,
        List::Cons(h, t) => if h.0 == def {
            Some((h.1.0, h.1.1, h.1.2))
        } else {
            find_capture_spec(t, def)
        },
    }
}

/// Where a closure keeps a captured definition.
pub fn find_capture(l: &List<(DefId, (Symbol, Ty, bool))>, def: DefId) -> (r: Option<(Symbol, Ty, bool)>)
    ensures
        r == find_capture_spec(l, def),
    decreases l,
{
    match l {
        List::Nil => None,
        List::Cons(h, t) => if h.0 == def {
            Some((dup_sym(&h.1.0), dup_ty(&h.1.1), h.1.2))
        } else {
            find_capture(t, def)
        },
    }
}

/// [`Lowerer::capture_of`], as a mathematical function.
pub open spec fn capture_of_spec(st: LowererV, def: DefId) -> Option<(DefId, Ty, (Symbol, Ty, bool))> {
    match &st.closures {
        List::Nil => None,
        List::Cons(cx, _) => match find_capture_spec(&cx.fields, def) {
            Some(m) => Some((cx.this, cx.this_ty, m)),
            None => None,
        },
    }
}

/// [`Lowerer::captured`], as a mathematical function.
pub open spec fn captured_spec(
    st: LowererV,
    env: &LowerCx,
    node: NodeId,
    def: DefId,
    ty: &Ty,
) -> (LowererV, Option<Expr>) {
    match capture_of_spec(st, def) {
        Some((this, this_ty, m)) => {
            let (name, fty, shared) = m;
            let closure_ty = pointee_spec(&this_ty);
            let (st, this_expr) = expr_spec(st, env, node, this_ty, ExprKind::Local(this));
            let (st, base) = expr_spec(
                st,
                env,
                node,
                closure_ty,
                ExprKind::Deref { base: Box::new(this_expr) },
            );
            let (st, member) = expr_spec(
                st,
                env,
                node,
                fty,
                ExprKind::Field { base: Box::new(base), name: name, def: None },
            );
            if !shared {
                (st, Some(member))
            } else {
                let (st, read) = expr_spec(st, env, node, (*ty), ExprKind::Deref { base: Box::new(member) });
                (st, Some(read))
            }
        },
        _ => {
            (st, None)
        },
    }
}

/// [`Lowerer::use_of`], as a mathematical function.
pub open spec fn use_of_spec(
    st: LowererV,
    env: &LowerCx,
    node: NodeId,
    def: DefId,
    ty: &Ty,
) -> (LowererV, Expr) {
    let (st, seen) = captured_spec(st, env, node, def, ty);
    match seen {
        Some(e) => (st, e),
        None => global_or_local_spec(st, env, node, def, (*ty)),
    }
}

/// What a closure's captures add up to: where its body finds each definition,
/// the members of its type, the values that fill them, and the names taken.
pub struct CaptureSet {
    pub fields: List<(DefId, (Symbol, Ty, bool))>,
    pub members: List<(Symbol, Ty)>,
    pub values: List<(Symbol, Expr)>,
    pub taken: List<Symbol>,
}

/// [`member_name`], as a mathematical function.
pub open spec fn member_name_spec(name: &Symbol, taken: &List<Symbol>, i: u64, tries: u64) -> Symbol
    decreases tries,
{
    let n = if i == 0 {
        (*name)
    } else {
        crate::symbol::numbered_sym_spec(name, i)
    };
    if tries == 0 || !crate::symbol::sym_in_spec(taken, &n) {
        n
    } else {
        member_name_spec(name, taken, crate::list::succ_spec(i), (tries - 1) as u64)
    }
}

/// The first of `name`, `name#1`, `name#2` and so on that is not taken.
pub fn member_name(name: &Symbol, taken: &List<Symbol>, i: u64, tries: u64) -> (r: Symbol)
    ensures
        r == member_name_spec(name, taken, i, tries),
    decreases tries,
{
    let n = if i == 0 {
        dup_sym(name)
    } else {
        numbered_sym(name, i)
    };
    if tries == 0 || !sym_in(taken, &n) {
        n
    } else {
        member_name(name, taken, succ(i), (tries - 1) as u64)
    }
}

/// [`add_capture`], as a mathematical function.
pub open spec fn add_capture_spec(
    set: CaptureSet,
    def: DefId,
    name: Symbol,
    ty: Ty,
    shared: bool,
    value: Expr,
) -> CaptureSet {
    CaptureSet {
        fields: List::Cons((def, (name, ty, shared)), Box::new(set.fields)),
        members: crate::list::append_spec(set.members, crate::list::single_spec((name, ty))),
        values: crate::list::append_spec(set.values, crate::list::single_spec((name, value))),
        taken: List::Cons(name, Box::new(set.taken)),
    }
}

/// Add one capture.
pub fn add_capture(
    set: CaptureSet,
    def: DefId,
    name: Symbol,
    ty: Ty,
    shared: bool,
    value: Expr,
) -> (r: CaptureSet)
    ensures
        r == add_capture_spec(set, def, name, ty, shared, value),
{
    CaptureSet {
        fields: List::Cons((def, (dup_sym(&name), dup_ty(&ty), shared)), Box::new(set.fields)),
        members: append(set.members, single((dup_sym(&name), ty))),
        values: append(set.values, single((dup_sym(&name), value))),
        taken: List::Cons(name, Box::new(set.taken)),
    }
}

/// [`capture_name`], as a mathematical function.
pub open spec fn capture_name_spec(set: &CaptureSet, name: &Symbol) -> Symbol {
    member_name_spec(name, &set.taken, 0, crate::list::list_len_spec(&set.taken))
}

/// The member a new capture called `name` goes in.
pub fn capture_name(set: &CaptureSet, name: &Symbol) -> (r: Symbol)
    ensures
        r == capture_name_spec(set, name),
        set.taken@.len() < u64::MAX - 1 ==> !set.taken@.contains(r),
{
    proof {
        if set.taken@.len() < u64::MAX - 1 { crate::laws::names::a_new_member_name_is_free(*name, set.taken); crate::laws::names::taken_is_among(
            set.taken,
            capture_name_spec(set, name),
        ); }
    }
    member_name(name, &set.taken, 0, list_len(&set.taken))
}

/// [`Lowerer::capture_copies`], as a mathematical function.
pub open spec fn capture_copies_spec(
    st: LowererV,
    env: &LowerCx,
    l: &List<NodeId>,
    set: CaptureSet,
) -> (LowererV, CaptureSet)
    decreases l,
{
    match l {
        List::Nil => (st, set),
        List::Cons(c, rest) => match (def_of_spec(st, env, *c), resolved_def_spec(st, env, *c)) {
            (Some(inner), Some(outer)) => {
                let t = ty_spec(st, env, *c);
                let name = capture_name_spec(&set, &crate::def::def_name_spec(env.tables, inner));
                let (st, value) = use_of_spec(st, env, *c, outer, &t);
                let set = add_capture_spec(set, inner, name, t, false, value);
                capture_copies_spec(st, env, rest, set)
            },
            _ => capture_copies_spec(st, env, rest, set),
        },
    }
}

/// [`Lowerer::capture_consts`], as a mathematical function.
pub open spec fn capture_consts_spec(
    st: LowererV,
    env: &LowerCx,
    l: &List<(NodeId, DefId)>,
    set: CaptureSet,
) -> (LowererV, CaptureSet)
    decreases l,
{
    match l {
        List::Nil => (st, set),
        List::Cons(h, rest) => {
            let t = ty_spec(st, env, h.0);
            let name = capture_name_spec(&set, &crate::def::def_name_spec(env.tables, h.1));
            let (st, value) = use_of_spec(st, env, h.0, h.1, &t);
            let set = add_capture_spec(set, h.1, name, t, false, value);
            capture_consts_spec(st, env, rest, set)
        },
    }
}

/// [`def_mutable`], as a mathematical function.
pub open spec fn def_mutable_spec(t: &Tables, d: DefId) -> bool {
    match crate::def::get_def_spec(t, d) {
        Some(def) => def.mutable,
        None => false,
    }
}

/// Whether a definition may be written.
pub fn def_mutable(t: &Tables, d: DefId) -> (r: bool)
    ensures
        r == def_mutable_spec(t, d),
{
    match get_def(t, d) {
        Some(def) => def.mutable,
        None => false,
    }
}

/// [`Lowerer::capture_shared`], as a mathematical function.
pub open spec fn capture_shared_spec(
    st: LowererV,
    env: &LowerCx,
    node: NodeId,
    defs: &List<DefId>,
    tys: &List<Ty>,
    set: CaptureSet,
) -> (LowererV, CaptureSet)
    decreases defs,
{
    match (defs, tys) {
        (List::Cons(d, ds), List::Cons(t, ts)) => {
            let mutable = def_mutable_spec(env.tables, *d);
            let fty = Ty::Ptr { mutable: mutable, inner: Box::new((*t)) };
            let name = capture_name_spec(&set, &crate::def::def_name_spec(env.tables, *d));
            let (st, place) = use_of_spec(st, env, node, *d, t);
            let (st, addr) = expr_spec(
                st,
                env,
                node,
                fty,
                ExprKind::Ref { mutable: mutable, place: Box::new(place) },
            );
            let set = add_capture_spec(set, *d, name, fty, true, addr);
            capture_shared_spec(st, env, node, ds, ts, set)
        },
        _ => (st, set),
    }
}

/// [`Lowerer::capture_members`], as a mathematical function.
pub open spec fn capture_members_spec(
    st: LowererV,
    env: &LowerCx,
    node: NodeId,
    l: &List<(Symbol, Ty)>,
) -> (LowererV, List<Member>)
    decreases l,
{
    match l {
        List::Nil => (st, List::Nil),
        List::Cons(h, t) => {
            let (st, id) = id_spec(st, env, node);
            let st = set_ty_spec(st, id, h.1);
            let m = Member { id: id, def: None, name: h.0 };
            let (st, rest) = capture_members_spec(st, env, node, t);
            (st, List::Cons(m, Box::new(rest)))
        },
    }
}

/// [`Lowerer::lower_within`], as a mathematical function.
pub open spec fn lower_within_spec(
    st: LowererV,
    env: &LowerCx,
    c: ClosureCx,
    body: NodeId,
    fuel: u64,
) -> (LowererV, Block)
    decreases fuel,
{
    if fuel == 0 {
        (give_up_spec(st), no_block_spec())
    } else {
        let st = enter_closure_spec(st, c);
        let (st, block) = lower_block_spec(st, env, body, (fuel - 1) as u64);
        let st = leave_closure_spec(st);
        (st, block)
    }
}

/// [`Lowerer::lower_closure`], as a mathematical function.
pub open spec fn lower_closure_spec(
    st: LowererV,
    env: &LowerCx,
    node: NodeId,
    ty: Ty,
    fuel: u64,
) -> (LowererV, Expr)
    decreases fuel,
{
    if fuel == 0 {
        (give_up_spec(st), no_expr_spec())
    } else {
        match crate::def::kind_of_spec(env.tables, st.file, node) {
            Some(NodeKind::Closure { captures, params, ret: _, body }) => {
                match crate::facts::fact_closure_defs_spec(env.facts, st.file, node) {
                    Some(defs) => {
                        match crate::facts::fact_closure_sig_spec(env.facts, st.file, node) {
                            Some(sig) => {
                                let shared = match crate::facts::fact_captures_spec(env.facts, st.file, node) {
                                    Some(c) => (*c),
                                    None => List::Nil,
                                };
                                let read = const_params_read_spec(
                                    env,
                                    st.file,
                                    *body,
                                    List::Nil,
                                    DEPTH_LIMIT,
                                );
                                let boxed = boxed_in_spec(env, st.file, *body, List::Nil, DEPTH_LIMIT);
                                let set = CaptureSet {
                                    fields: List::Nil,
                                    members: List::Nil,
                                    values: List::Nil,
                                    taken: List::Nil,
                                };
                                let (st, set) = capture_copies_spec(st, env, captures, set);
                                let (st, set) = capture_consts_spec(st, env, &read, set);
                                let (st, set) = capture_shared_spec(st, env, node, &shared, &sig.shared, set);
                                let own = Ty::Nominal {
                                    def: defs.ty,
                                    args: Box::new(crate::ty::nominals_spec(&sig.generics)),
                                };
                                let (st, type_id) = id_spec(st, env, node);
                                let st = set_ty_spec(st, type_id, own);
                                let (st, members) = capture_members_spec(st, env, node, &set.members);
                                let st = add_lifted_type_spec(
                                    st,
                                    TypeDef {
                                        id: type_id,
                                        def: defs.ty,
                                        name: crate::def::def_name_spec(env.tables, defs.ty),
                                        kind: TypeDefKind::Struct { members: members },
                                    },
                                );
                                let this_ty = Ty::Ptr { mutable: false, inner: Box::new(own) };
                                let (st, this_id) = id_spec(st, env, node);
                                let st = set_ty_spec(st, this_id, this_ty);
                                let (st, written) = lower_params_spec(st, env, params, (fuel - 1) as u64);
                                let fparams = List::Cons(
                                    Param {
                                        id: this_id,
                                        def: defs.this,
                                        name: crate::symbol::sym_spec("self"),
                                    },
                                    Box::new(written),
                                );
                                let param_tys = param_types_spec(st, &fparams);
                                let (st, block) = lower_within_spec(
                                    st,
                                    env,
                                    ClosureCx { this: defs.this, this_ty: this_ty, fields: set.fields },
                                    *body,
                                    (fuel - 1) as u64,
                                );
                                let (st, fid) = id_spec(st, env, node);
                                let st = set_ty_spec(
                                    st,
                                    fid,
                                    Ty::Func {
                                        params: Box::new(param_tys),
                                        ret: Box::new(sig.ret),
                                        c: false,
                                    },
                                );
                                let st = set_generics_spec(
                                    st,
                                    fid,
                                    Generics { params: sig.generics, own: 0 },
                                );
                                let st = set_boxed_spec(st, fid, boxed);
                                let st = add_lifted_spec(
                                    st,
                                    Function {
                                        id: fid,
                                        def: defs.call,
                                        name: crate::symbol::sym_spec("call"),
                                        params: fparams,
                                        body: Some(block),
                                        abi: None,
                                        recv: Recv::Ptr,
                                        mutating: false,
                                    },
                                );
                                expr_spec(
                                    st,
                                    env,
                                    node,
                                    ty,
                                    ExprKind::Construct { def: Some(defs.ty), fields: Box::new(set.values) },
                                )
                            },
                            _ => {
                                expr_spec(st, env, node, ty, ExprKind::Error)
                            },
                        }
                    },
                    _ => {
                        expr_spec(st, env, node, ty, ExprKind::Error)
                    },
                }
            },
            _ => {
                expr_spec(st, env, node, ty, ExprKind::Error)
            },
        }
    }
}

/// [`reads_def`], as a mathematical function.
pub open spec fn reads_def_spec(l: &List<(NodeId, DefId)>, d: DefId) -> bool
    decreases l,
{
    match l {
        List::Nil => false,
        List::Cons(h, t) => h.1 == d || reads_def_spec(t, d),
    }
}

/// Whether a `const` parameter is among those already read.
pub fn reads_def(l: &List<(NodeId, DefId)>, d: DefId) -> (r: bool)
    ensures
        r == reads_def_spec(l, d),
    decreases l,
{
    match l {
        List::Nil => false,
        List::Cons(h, t) => h.1 == d || reads_def(t, d),
    }
}

/// [`const_params_read`], as a mathematical function.
pub open spec fn const_params_read_spec(
    cx: &LowerCx,
    file: FileId,
    node: NodeId,
    out: List<(NodeId, DefId)>,
    fuel: u64,
) -> List<(NodeId, DefId)>
    decreases fuel,
{
    if fuel == 0 {
        out
    } else {
        let here = match resolved_in_spec(cx.tables, cx.facts, file, node) {
            Some(d) => if crate::def::def_kind_spec(cx.tables, d) == DefKind::ConstParam
                && !reads_def_spec(&out, d) {
                crate::list::append_spec(out, crate::list::single_spec((node, d)))
            } else {
                out
            },
            None => out,
        };
        match crate::def::kind_of_spec(cx.tables, file, node) {
            Some(k) => const_params_in_spec(cx, file, &crate::ast::children_spec(k), here, (fuel - 1) as u64),
            None => here,
        }
    }
}

/// Each `const` parameter read anywhere under a node, with the first node that
/// reads it, in the order they are first read.
pub fn const_params_read(
    cx: &LowerCx,
    file: FileId,
    node: NodeId,
    out: List<(NodeId, DefId)>,
    fuel: u64,
) -> (r: List<(NodeId, DefId)>)
    ensures
        r == const_params_read_spec(cx, file, node, out, fuel),
    decreases fuel,
{
    if fuel == 0 {
        return out;
    }
    let here = match resolved_in(cx.tables, cx.facts, file, node) {
        Some(d) => if def_kind(cx.tables, d) == DefKind::ConstParam && !reads_def(&out, d) {
            append(out, single((node, d)))
        } else {
            out
        },
        None => out,
    };
    match kind_of(cx.tables, file, node) {
        Some(k) => const_params_in(cx, file, &children(k), here, (fuel - 1) as u64),
        None => here,
    }
}

/// [`const_params_in`], as a mathematical function.
pub open spec fn const_params_in_spec(
    cx: &LowerCx,
    file: FileId,
    l: &List<NodeId>,
    out: List<(NodeId, DefId)>,
    fuel: u64,
) -> List<(NodeId, DefId)>
    decreases fuel, l,
{
    if fuel == 0 {
        out
    } else {
        match l {
            List::Nil => out,
            List::Cons(h, t) => {
                let first = const_params_read_spec(cx, file, *h, out, (fuel - 1) as u64);
                const_params_in_spec(cx, file, t, first, fuel)
            },
        }
    }
}

/// The same over a list of nodes.
pub fn const_params_in(
    cx: &LowerCx,
    file: FileId,
    l: &List<NodeId>,
    out: List<(NodeId, DefId)>,
    fuel: u64,
) -> (r: List<(NodeId, DefId)>)
    ensures
        r == const_params_in_spec(cx, file, l, out, fuel),
    decreases fuel, l,
{
    if fuel == 0 {
        return out;
    }
    match l {
        List::Nil => out,
        List::Cons(h, t) => {
            let first = const_params_read(cx, file, *h, out, (fuel - 1) as u64);
            const_params_in(cx, file, t, first, fuel)
        },
    }
}

/// [`merge_defs`], as a mathematical function.
pub open spec fn merge_defs_spec(out: List<DefId>, l: &List<DefId>) -> List<DefId>
    decreases l,
{
    match l {
        List::Nil => out,
        List::Cons(h, t) => if crate::def::def_in_spec(&out, *h) {
            merge_defs_spec(out, t)
        } else {
            merge_defs_spec(crate::list::append_spec(out, crate::list::single_spec(*h)), t)
        },
    }
}

/// A list of definitions with those of another added behind it, none twice.
pub fn merge_defs(out: List<DefId>, l: &List<DefId>) -> (r: List<DefId>)
    ensures
        r == merge_defs_spec(out, l),
        out@.is_prefix_of(r@),
        forall|d: DefId| l@.contains(d) ==> #[trigger] r@.contains(d),
        out@.no_duplicates() ==> r@.no_duplicates(),
    decreases l,
{
    proof {
        crate::laws::generics::merging_only_adds_behind(out, *l);
    }
    match l {
        List::Nil => out,
        List::Cons(h, t) => if def_in(&out, *h) {
            merge_defs(out, t)
        } else {
            merge_defs(append(out, single(*h)), t)
        },
    }
}

/// [`boxed_in`], as a mathematical function.
pub open spec fn boxed_in_spec(
    cx: &LowerCx,
    file: FileId,
    node: NodeId,
    out: List<DefId>,
    fuel: u64,
) -> List<DefId>
    decreases fuel,
{
    if fuel == 0 {
        out
    } else {
        let here = match crate::facts::fact_captures_spec(cx.facts, file, node) {
            Some(defs) => merge_defs_spec(out, defs),
            None => out,
        };
        match crate::def::kind_of_spec(cx.tables, file, node) {
            Some(k) => boxed_among_spec(cx, file, &crate::ast::children_spec(k), here, (fuel - 1) as u64),
            None => here,
        }
    }
}

/// Every local a closure written anywhere under a node shares: what the
/// function the node is the body of keeps in cells.
pub fn boxed_in(cx: &LowerCx, file: FileId, node: NodeId, out: List<DefId>, fuel: u64) -> (r: List<DefId>)
    ensures
        r == boxed_in_spec(cx, file, node, out, fuel),
    decreases fuel,
{
    if fuel == 0 {
        return out;
    }
    let here = match fact_captures(cx.facts, file, node) {
        Some(defs) => merge_defs(out, defs),
        None => out,
    };
    match kind_of(cx.tables, file, node) {
        Some(k) => boxed_among(cx, file, &children(k), here, (fuel - 1) as u64),
        None => here,
    }
}

/// [`boxed_among`], as a mathematical function.
pub open spec fn boxed_among_spec(
    cx: &LowerCx,
    file: FileId,
    l: &List<NodeId>,
    out: List<DefId>,
    fuel: u64,
) -> List<DefId>
    decreases fuel, l,
{
    if fuel == 0 {
        out
    } else {
        match l {
            List::Nil => out,
            List::Cons(h, t) => {
                let later = boxed_among_spec(cx, file, t, out, fuel);
                boxed_in_spec(cx, file, *h, later, (fuel - 1) as u64)
            },
        }
    }
}

/// The same over a list of nodes, the last one first.
pub fn boxed_among(
    cx: &LowerCx,
    file: FileId,
    l: &List<NodeId>,
    out: List<DefId>,
    fuel: u64,
) -> (r: List<DefId>)
    ensures
        r == boxed_among_spec(cx, file, l, out, fuel),
    decreases fuel, l,
{
    if fuel == 0 {
        return out;
    }
    match l {
        List::Nil => out,
        List::Cons(h, t) => {
            let later = boxed_among(cx, file, t, out, fuel);
            boxed_in(cx, file, *h, later, (fuel - 1) as u64)
        },
    }
}

/// [`Lowerer::global_or_local`], as a mathematical function.
pub open spec fn global_or_local_spec(
    st: LowererV,
    env: &LowerCx,
    node: NodeId,
    def: DefId,
    ty: Ty,
) -> (LowererV, Expr) {
    let kind = match crate::def::def_kind_spec(env.tables, def) {
        DefKind::Local => ExprKind::Local(def),
        DefKind::Param => ExprKind::Local(def),
        DefKind::ConstParam => ExprKind::ConstParam(def),
        _ => ExprKind::Global(def),
    };
    let (st, e) = expr_spec(st, env, node, ty, kind);
    let st = match crate::facts::fact_instantiation_spec(env.facts, st.file, node) {
        Some(inst) => {
            let st = set_instantiation_spec(st, e.id, (*inst));
            st
        },
        None => {
            st
        },
    };
    (st, e)
}

/// [`Lowerer::ty`], as a mathematical function.
pub open spec fn ty_spec(st: LowererV, env: &LowerCx, node: NodeId) -> Ty {
    match crate::facts::fact_ty_spec(env.facts, st.file, node) {
        Some(t) => (*t),
        None => Ty::Error,
    }
}

/// [`Lowerer::def_of`], as a mathematical function.
pub open spec fn def_of_spec(st: LowererV, env: &LowerCx, node: NodeId) -> Option<DefId> {
    match crate::facts::fact_def_meta_spec(env.facts, st.file, node) {
        Some(d) => Some(*d),
        None => None,
    }
}

/// [`Lowerer::resolved_def`], as a mathematical function.
pub open spec fn resolved_def_spec(st: LowererV, env: &LowerCx, node: NodeId) -> Option<DefId> {
    resolved_in_spec(env.tables, env.facts, st.file, node)
}

// Nodes the source never wrote.

/// [`Lowerer::len_expr`], as a mathematical function.
pub open spec fn len_expr_spec(st: LowererV, base: Expr, ty: Ty) -> (LowererV, Expr) {
    let from = base.id;
    let known = match ty_or_error_spec(st, from) {
        Ty::Array { len, mutable: _, inner: _ } => crate::ty::const_value_spec(&len),
        _ => None,
    };
    match known {
        Some(n) => derived_expr_spec(st, from, ty, ExprKind::Lit(Lit::Int(crate::bigint::int_of_spec(n)))),
        None => derived_expr_spec(
            st,
            from,
            ty,
            ExprKind::Intrinsic {
                name: crate::symbol::sym_spec("len"),
                args: Box::new(crate::list::single_spec(base)),
            },
        ),
    }
}

/// [`Lowerer::lower_slice`], as a mathematical function.
pub open spec fn lower_slice_spec(
    st: LowererV,
    env: &LowerCx,
    node: NodeId,
    base: NodeId,
    range: NodeId,
    ty: Ty,
    fuel: u64,
) -> (LowererV, Expr)
    decreases fuel,
{
    if fuel == 0 {
        (give_up_spec(st), no_expr_spec())
    } else {
        let shape = crate::def::kind_of_spec(env.tables, st.file, range);
        let index = bound_ty_spec(&ty_spec(st, env, range));
        let (st, value) = lower_expr_spec(st, env, base, (fuel - 1) as u64);
        match shape {
            Some(NodeKind::Range { start, end, kind }) => {
                let (st, lo) = match start {
                    Some(s) => lower_expr_spec(st, env, *s, (fuel - 1) as u64),
                    None => derived_expr_spec(
                        st,
                        value.id,
                        index,
                        ExprKind::Lit(Lit::Int(crate::bigint::int_of_spec(0))),
                    ),
                };
                let (st, hi) = match end {
                    Some(e) => {
                        let (st, e) = lower_expr_spec(st, env, *e, (fuel - 1) as u64);
                        if *kind == RangeKind::Closed {
                            let (st, one) = derived_expr_spec(
                                st,
                                e.id,
                                index,
                                ExprKind::Lit(Lit::Int(crate::bigint::int_of_spec(1))),
                            );
                            let from = e.id;
                            derived_expr_spec(
                                st,
                                from,
                                index,
                                ExprKind::Binary { op: BinOp::Add, lhs: Box::new(e), rhs: Box::new(one) },
                            )
                        } else {
                            (st, e)
                        }
                    },
                    None => len_expr_spec(st, value, index),
                };
                expr_spec(
                    st,
                    env,
                    node,
                    ty,
                    ExprKind::Intrinsic {
                        name: crate::symbol::sym_spec("slice"),
                        args: Box::new(crate::list::list3_spec(value, lo, hi)),
                    },
                )
            },
            _ => {
                expr_spec(st, env, node, ty, ExprKind::Error)
            },
        }
    }
}

/// [`bound_ty`], as a mathematical function.
pub open spec fn bound_ty_spec(range: &Ty) -> Ty {
    match range {
        Ty::Nominal { def: _, args } => match crate::list::nth_spec(args, 0) {
            Some(t) => (*t),
            None => Ty::Error,
        },
        _ => Ty::Error,
    }
}

/// The type a range's bounds have.
pub fn bound_ty(range: &Ty) -> (r: Ty)
    ensures
        r == bound_ty_spec(range),
{
    match range {
        Ty::Nominal { def: _, args } => match nth(args, 0) {
            Some(t) => dup_ty(t),
            None => Ty::Error,
        },
        _ => Ty::Error,
    }
}

/// [`Lowerer::adjust_recv`], as a mathematical function.
pub open spec fn adjust_recv_spec(
    st: LowererV,
    recv: Expr,
    adjust: RecvAdjust,
    self_ty: &Ty,
) -> (LowererV, Expr) {
    let from = recv.id;
    match adjust {
        RecvAdjust::Keep => (st, recv),
        RecvAdjust::Ref { mutable } => derived_expr_spec(
            st,
            from,
            (*self_ty),
            ExprKind::Ref { mutable: mutable, place: Box::new(recv) },
        ),
        RecvAdjust::Deref => derived_expr_spec(
            st,
            from,
            (*self_ty),
            ExprKind::Deref { base: Box::new(recv) },
        ),
    }
}

/// [`Lowerer::dyn_cast_target`], as a mathematical function.
pub open spec fn dyn_cast_target_spec(st: LowererV, value: &Expr, to: &Ty) -> Option<Ty> {
    match to {
        Ty::Ptr { mutable: _, inner } => match &**inner {
            Ty::Dyn { .. } => match ty_of_spec(st, value) {
                Ty::Ptr { mutable: _, inner: concrete } => Some(*concrete),
                _ => None,
            },
            _ => None,
        },
        _ => None,
    }
}

/// [`Lowerer::autoderef`], as a mathematical function.
pub open spec fn autoderef_spec(st: LowererV, base: Expr) -> (LowererV, Expr) {
    match ty_of_spec(st, &base) {
        Ty::Ptr { mutable: _, inner } => {
            let from = base.id;
            derived_expr_spec(st, from, *inner, ExprKind::Deref { base: Box::new(base) })
        },
        _ => (st, base),
    }
}

/// [`recv_of`], as a mathematical function.
pub open spec fn recv_of_spec(param_tys: &List<Ty>, params: &List<Param>) -> Recv {
    match crate::list::nth_spec(params, 0) {
        Some(first) => if crate::symbol::sym_is_spec(&first.name, "self") {
            recv_of_ty_spec(crate::list::nth_spec(param_tys, 0))
        } else {
            Recv::Free
        },
        None => Recv::Free,
    }
}

/// How a lowered parameter list takes its receiver: the first parameter, if it
/// is named `self`.
pub fn recv_of(param_tys: &List<Ty>, params: &List<Param>) -> (r: Recv)
    ensures
        r == recv_of_spec(param_tys, params),
{
    match nth(params, 0) {
        Some(first) => if sym_is(&first.name, "self") {
            recv_of_ty(nth(param_tys, 0))
        } else {
            Recv::Free
        },
        None => Recv::Free,
    }
}

/// [`grants_mutation`], as a mathematical function.
pub open spec fn grants_mutation_spec(ty: &Ty) -> bool
    decreases ty,
{
    match ty {
        Ty::Ptr { mutable, inner } => *mutable || grants_mutation_spec(inner),
        Ty::Slice { mutable, inner } => *mutable || grants_mutation_spec(inner),
        _ => false,
    }
}

/// Whether a parameter of this type lets the callee write into the caller's
/// storage.
pub fn grants_mutation(ty: &Ty) -> (r: bool)
    ensures
        r == grants_mutation_spec(ty),
    decreases ty,
{
    match ty {
        Ty::Ptr { mutable, inner } => *mutable || grants_mutation(inner),
        Ty::Slice { mutable, inner } => *mutable || grants_mutation(inner),
        _ => false,
    }
}

/// [`is_comparison`], as a mathematical function.
pub open spec fn is_comparison_spec(op: BinOp) -> bool {
    match op {
        BinOp::Eq => true,
        BinOp::Ne => true,
        BinOp::Lt => true,
        BinOp::Le => true,
        BinOp::Gt => true,
        BinOp::Ge => true,
        _ => false,
    }
}

/// Whether an operator is one of the six comparisons.
pub fn is_comparison(op: BinOp) -> (r: bool)
    ensures
        r == is_comparison_spec(op),
{
    match op {
        BinOp::Eq => true,
        BinOp::Ne => true,
        BinOp::Lt => true,
        BinOp::Le => true,
        BinOp::Gt => true,
        BinOp::Ge => true,
        _ => false,
    }
}

/// [`func_in`], as a mathematical function.
pub open spec fn func_in_spec(t: &Tables, file: FileId, d: DefId) -> Option<NodeId> {
    match crate::def::get_def_spec(t, d) {
        Some(def) => if def.kind == DefKind::Func && def.file == Some(file) {
            match def.node {
                Some(node) => match crate::def::kind_of_spec(t, file, node) {
                    Some(NodeKind::ConstBind { pattern: _, rhs }) => Some(*rhs),
                    Some(NodeKind::FuncExpr { .. }) => Some(node),
                    _ => None,
                },
                None => None,
            }
        } else {
            None
        },
        None => None,
    }
}

/// The `func` expression a function definition of `file` binds.
pub fn func_in(t: &Tables, file: FileId, d: DefId) -> (r: Option<NodeId>)
    ensures
        r == func_in_spec(t, file, d),
{
    match get_def(t, d) {
        Some(def) => if def.kind == DefKind::Func && def.file == Some(file) {
            match def.node {
                Some(node) => match kind_of(t, file, node) {
                    Some(NodeKind::ConstBind { pattern: _, rhs }) => Some(*rhs),
                    Some(NodeKind::FuncExpr { .. }) => Some(node),
                    _ => None,
                },
                None => None,
            }
        } else {
            None
        },
        None => None,
    }
}

/// Whether a function has code or a symbol of its own: a body, or an ABI.
pub open spec fn has_code(k: Option<&NodeKind>) -> bool {
    match k {
        Some(NodeKind::FuncExpr { generics: _, params: _, ret: _, body, abi }) => body is Some || abi is Some,
        _ => false,
    }
}

/// Whether a definition is a function of a file with code or a symbol of its own.
pub open spec fn is_coded(t: &Tables, file: FileId, d: DefId) -> bool {
    match func_in_spec(t, file, d) {
        Some(func) => has_code(crate::def::kind_of_spec(t, file, func)),
        None => false,
    }
}

/// [`Lowerer::lower_func_at`], as a mathematical function.
pub open spec fn lower_func_at_spec(
    st: LowererV,
    env: &LowerCx,
    file: FileId,
    i: u64,
) -> (LowererV, Option<Function>) {
    let d = crate::ids::def_at_spec(i);
    let (st, lowered) = match func_in_spec(env.tables, file, d) {
        Some(func) => lower_function_spec(st, env, d, func, DEPTH_LIMIT),
        None => (st, None),
    };
    match lowered {
        Some(f) => if f.body.is_some() || f.abi.is_some() {
            (st, Some(f))
        } else {
            (st, None)
        },
        None => (st, None),
    }
}

impl Lowerer {
    /// Allocate an id for a node lowered out of `node`, recording where that was
    /// written.
    pub fn id(&mut self, env: &LowerCx, node: NodeId) -> (r: IrId)
        ensures
            (final(self)@, r) == id_spec(old(self)@, env, node),
            final(self)@.deep || crate::placing::known(final(self)@, r.0),
            crate::placing::kept(old(self)@, final(self)@),
    {
        proof {
            reveal(crate::placing::kept);
            reveal(crate::placing::known);
        }
        let id = self.fresh();
        let (file, span) = span_of(env.tables, self.file, node);
        self.set_span(id, FileSpan { file: file, span: span });
        id
    }

    /// An expression lowered out of `node`.
    pub fn expr(&mut self, env: &LowerCx, node: NodeId, ty: Ty, kind: ExprKind) -> (r: Expr)
        ensures
            (final(self)@, r) == expr_spec(old(self)@, env, node, ty, kind),
            final(self)@.deep || crate::placing::known(final(self)@, r.id.0),
            crate::placing::kept(old(self)@, final(self)@),
    {
        let id = self.id(env, node);
        self.set_ty(id, ty);
        Expr { id: id, kind: kind }
    }

    /// The type of an expression already built.
    pub fn ty_of(&self, e: &Expr) -> (r: Ty)
        ensures
            r == ty_of_spec(self@, e),
    {
        self.ty_or_error(e.id)
    }

    /// A statement lowered out of `node`.
    pub fn stmt(&mut self, env: &LowerCx, node: NodeId, kind: StmtKind) -> (r: Stmt)
        ensures
            (final(self)@, r) == stmt_spec(old(self)@, env, node, kind),
            crate::placing::kept(old(self)@, final(self)@),
    {
        let id = self.id(env, node);
        Stmt { id: id, kind: kind }
    }

    /// A pattern lowered out of `node`.
    pub fn pat(&mut self, env: &LowerCx, node: NodeId, kind: PatternKind) -> (r: Pattern)
        ensures
            (final(self)@, r) == pat_spec(old(self)@, env, node, kind),
            crate::placing::kept(old(self)@, final(self)@),
    {
        let id = self.id(env, node);
        Pattern { id: id, kind: kind }
    }

    /// Allocate an id for a node the source never wrote, with the span of the one
    /// it is derived from.
    pub fn derived(&mut self, from: IrId) -> (r: IrId)
        ensures
            (final(self)@, r) == derived_spec(old(self)@, from),
            old(self)@.deep
                || crate::placing::known(old(self)@, from.0) ==> final(self)@.deep
                || crate::placing::known(final(self)@, r.0),
            old(self)@.deep
                || crate::placing::known(old(self)@, from.0) ==> crate::placing::kept(old(self)@, final(self)@),
    {
        proof {
            reveal(crate::placing::kept);
            reveal(crate::placing::known);
        }
        let id = self.fresh();
        match self.span(from) {
            Some(span) => {
                self.set_span(id, span);
            },
            None => {
                self.note_derived(from, id);
            },
        }
        id
    }

    /// An expression the source never wrote.
    pub fn derived_expr(&mut self, from: IrId, ty: Ty, kind: ExprKind) -> (r: Expr)
        ensures
            (final(self)@, r) == derived_expr_spec(old(self)@, from, ty, kind),
            old(self)@.deep
                || crate::placing::known(old(self)@, from.0) ==> final(self)@.deep
                || crate::placing::known(final(self)@, r.id.0),
            old(self)@.deep
                || crate::placing::known(old(self)@, from.0) ==> crate::placing::kept(old(self)@, final(self)@),
    {
        let id = self.derived(from);
        self.set_ty(id, ty);
        Expr { id: id, kind: kind }
    }

    /// Lower the type at a position of the table, where the file declares it.
    pub fn lower_type_at(&mut self, env: &LowerCx, file: FileId, i: u64) -> (r: Option<TypeDef>)
        ensures
            (final(self)@, r) == lower_type_at_spec(old(self)@, env, file, i),
            crate::placing::kept(old(self)@, final(self)@),
    {
        let d = def_at(i);
        if def_file(env.tables, d) == Some(file) && declares_type(def_kind(env.tables, d)) {
            self.lower_type(env, d, DEPTH_LIMIT)
        } else {
            None
        }
    }

    /// Lower the constant or static region at a position of the table, where the
    /// file declares it.
    pub fn lower_global_at(&mut self, env: &LowerCx, file: FileId, i: u64) -> (r: Option<Global>)
        ensures
            (final(self)@, r) == lower_global_at_spec(old(self)@, env, file, i),
            crate::placing::kept(old(self)@, final(self)@),
    {
        let d = def_at(i);
        if is_global(env, file, d) {
            self.lower_global(env, d, DEPTH_LIMIT)
        } else {
            None
        }
    }

    /// Lower one constant or static. A binding with a declared type keeps its value
    /// apart from it, and a static may have no value at all.
    pub fn lower_global(&mut self, env: &LowerCx, def: DefId, fuel: u64) -> (r: Option<Global>)
        ensures
            (final(self)@, r) == lower_global_spec(old(self)@, env, def, fuel),
            crate::placing::kept(old(self)@, final(self)@),
        decreases fuel,
    {
        if fuel == 0 {
            self.give_up();
            return None;
        }
        match get_def(env.tables, def) {
            Some(d) => {
                match d.node {
                    Some(node) => {
                        match kind_of(env.tables, self.file, node) {
                            Some(NodeKind::ConstBind { pattern: _, rhs }) => {
                                let init = match kind_of(env.tables, self.file, *rhs) {
                                    Some(NodeKind::AssocConst { ty: _, default }) => *default,
                                    _ => Some(*rhs),
                                };
                                let id = self.id(env, node);
                                // The type of the binding, not of the initializer.
                                let ty = self.ty(env, node);
                                self.set_ty(id, ty);
                                self.set_directives(id, directives_of(env.tables, def));
                                match fact_generics(env.facts, self.file, node) {
                                    Some(g) => {
                                        self.set_generics(id, dup_generics(g));
                                    },
                                    None => {},
                                }
                                let init = match init {
                                    Some(e) => {
                                        let v = self.lower_expr(env, e, (fuel - 1) as u64);
                                        Some(v)
                                    },
                                    None => None,
                                };
                                Some(
                                    Global {
                                        id: id,
                                        def: def,
                                        name: dup_sym(&d.name),
                                        init: init,
                                        mutable: d.mutable,
                                    },
                                )
                            },
                            _ => {
                                None
                            },
                        }
                    },
                    _ => {
                        None
                    },
                }
            },
            _ => {
                None
            },
        }
    }

    /// The definitions a list of nodes declares.
    pub fn defs_of(&self, env: &LowerCx, l: &List<NodeId>) -> (r: List<DefId>)
        ensures
            r == defs_of_spec(self@, env, l),
        decreases l,
    {
        match l {
            List::Nil => List::Nil,
            List::Cons(h, t) => match self.def_of(env, *h) {
                Some(d) => List::Cons(d, Box::new(self.defs_of(env, t))),
                None => self.defs_of(env, t),
            },
        }
    }

    /// Lower one type definition. A plain alias defines no new type.
    pub fn lower_type(&mut self, env: &LowerCx, def: DefId, fuel: u64) -> (r: Option<TypeDef>)
        ensures
            (final(self)@, r) == lower_type_spec(old(self)@, env, def, fuel),
            crate::placing::kept(old(self)@, final(self)@),
        decreases fuel,
    {
        if fuel == 0 {
            self.give_up();
            return None;
        }
        match get_def(env.tables, def) {
            Some(d) => {
                match d.node {
                    Some(node) => {
                        let rhs = bound_rhs(env.tables, self.file, node);
                        let made = match kind_of(env.tables, self.file, rhs) {
                            Some(NodeKind::StructType { generics, kind: _ }) => {
                                let members = self.struct_members(env, def);
                                Some((TypeDefKind::Struct { members: members }, self.defs_of(env, generics)))
                            },
                            Some(NodeKind::EnumType { variants, generics }) => {
                                let vs = self.lower_variants(env, variants, def, (fuel - 1) as u64);
                                Some((TypeDefKind::Enum { variants: vs }, self.defs_of(env, generics)))
                            },
                            Some(NodeKind::DistinctType { inner }) => {
                                let repr = self.member(env, *inner, None, sym("0"));
                                Some((TypeDefKind::Distinct { repr: repr }, List::Nil))
                            },
                            Some(NodeKind::TraitType { members, generics }) => {
                                let (methods, consts) = self.lower_trait(
                                    env,
                                    members,
                                    def,
                                    (fuel - 1) as u64,
                                );
                                Some(
                                    (
                                        TypeDefKind::Trait { methods: methods, consts: consts },
                                        self.defs_of(env, generics),
                                    ),
                                )
                            },
                            _ => None,
                        };
                        match made {
                            Some((kind, params)) => {
                                let id = self.id(env, rhs);
                                // A type's own type is the one it names, over its own parameters.
                                self.set_ty(id, Ty::Nominal { def: def, args: Box::new(nominals(&params)) });
                                self.set_directives(id, directives_of(env.tables, def));
                                Some(TypeDef { id: id, def: def, name: dup_sym(&d.name), kind: kind })
                            },
                            _ => {
                                None
                            },
                        }
                    },
                    _ => {
                        None
                    },
                }
            },
            _ => {
                None
            },
        }
    }

    /// A trait's methods and constants, in declaration order: the layout of every
    /// vtable built for it.
    pub fn lower_trait(
        &mut self,
        env: &LowerCx,
        members: &List<NodeId>,
        trait_def: DefId,
        fuel: u64,
    ) -> (r: (List<TraitMethod>, List<AssocConst>))
        ensures
            (final(self)@, r) == lower_trait_spec(old(self)@, env, members, trait_def, fuel),
            crate::placing::kept(old(self)@, final(self)@),
        decreases fuel, members,
    {
        if fuel == 0 {
            self.give_up();
            return (List::Nil, List::Nil);
        }
        match members {
            List::Nil => (List::Nil, List::Nil),
            List::Cons(h, t) => {
                let (m, c) = self.lower_trait_member(env, *h, trait_def, (fuel - 1) as u64);
                let (ms, cs) = self.lower_trait(env, t, trait_def, fuel);
                (
                match m {
                    Some(x) => List::Cons(x, Box::new(ms)),
                    None => ms,
                },
                match c {
                    Some(x) => List::Cons(x, Box::new(cs)),
                    None => cs,
                },
            )
            },
        }
    }

    /// One member of a trait, which is a method, a constant, or nothing a vtable
    /// holds.
    pub fn lower_trait_member(
        &mut self,
        env: &LowerCx,
        member: NodeId,
        trait_def: DefId,
        fuel: u64,
    ) -> (r: (Option<TraitMethod>, Option<AssocConst>))
        ensures
            (final(self)@, r) == lower_trait_member_spec(old(self)@, env, member, trait_def, fuel),
            crate::placing::kept(old(self)@, final(self)@),
        decreases fuel,
    {
        if fuel == 0 {
            self.give_up();
            return (None, None);
        }
        let m = decl_item(env.tables, self.file, member);
        match kind_of(env.tables, self.file, m) {
            Some(NodeKind::ConstBind { pattern, rhs }) => {
                match self.binding_name(env, *pattern) {
                    Some(name) => {
                        match member_of(env.tables, trait_def, &name) {
                            Some(def) => {
                                match kind_of(env.tables, self.file, *rhs) {
                                    Some(NodeKind::FuncExpr { generics, params, ret: _, body, abi: _ }) => {
                                        let sig = match fact_signature(env.facts, self.file, *rhs) {
                                            Some(t) => dup_ty(t),
                                            None => Ty::Error,
                                        };
                                        let recv = self.declared_recv(env, params, &sig);
                                        let id = self.id(env, *rhs);
                                        self.set_ty(id, sig);
                                        self.set_directives(id, directives_of(env.tables, def));
                                        (
                                            Some(
                                                TraitMethod {
                                                    id: id,
                                                    def: def,
                                                    name: name,
                                                    recv: recv,
                                                    generic: !is_empty(generics),
                                                    has_default: body.is_some(),
                                                    sized_self: sized_self(env.tables, def),
                                                },
                                            ),
                                            None,
                                        )
                                    },
                                    Some(NodeKind::AssocConst { ty: _, default }) => {
                                        let id = self.id(env, *rhs);
                                        let ty = self.ty(env, *rhs);
                                        self.set_ty(id, ty);
                                        match default {
                                            Some(d) => {
                                                let e = self.lower_expr(env, *d, (fuel - 1) as u64);
                                                self.set_default(id, e);
                                            },
                                            None => {},
                                        }
                                        (None, Some(AssocConst { id: id, def: def, name: name }))
                                    },
                                    _ => (None, None),
                                }
                            },
                            _ => {
                                (None, None)
                            },
                        }
                    },
                    _ => {
                        (None, None)
                    },
                }
            },
            _ => {
                (None, None)
            },
        }
    }

    /// How a declared function takes its receiver: whether there is one is a matter
    /// of the first parameter's name, and its type comes out of the signature.
    pub fn declared_recv(&self, env: &LowerCx, params: &List<NodeId>, sig: &Ty) -> (r: Recv)
        ensures
            r == declared_recv_spec(self@, env, params, sig),
    {
        match params {
            List::Nil => Recv::Free,
            List::Cons(first, _) => match kind_of(env.tables, self.file, *first) {
                Some(NodeKind::Param { name, ty: _, default: _ }) => if sym_is(name, "self") {
                    match sig {
                        Ty::Func { params: tys, ret: _, c: _ } => recv_of_ty(nth(tys, 0)),
                        _ => Recv::Value,
                    }
                } else {
                    Recv::Free
                },
                _ => Recv::Free,
            },
        }
    }

    /// The name a binding pattern introduces.
    pub fn binding_name(&self, env: &LowerCx, pattern: NodeId) -> (r: Option<Symbol>)
        ensures
            r == binding_name_spec(self@, env, pattern),
    {
        match kind_of(env.tables, self.file, pattern) {
            Some(NodeKind::BindingPat { name }) => Some(dup_sym(name)),
            _ => None,
        }
    }

    /// The fields among a namespace's members, ordered by where they were written.
    pub fn placed_members(&mut self, env: &LowerCx, l: &List<(Symbol, DefId)>) -> (r: List<(u32, Member)>)
        ensures
            (final(self)@, r) == placed_members_spec(old(self)@, env, l),
            crate::placing::kept(old(self)@, final(self)@),
        decreases l,
    {
        match l {
            List::Nil => List::Nil,
            List::Cons(h, t) => {
                let first = if def_kind(env.tables, h.1) == DefKind::Field {
                    match def_node(env.tables, h.1) {
                        Some(at) => {
                            let m = self.member(env, at, Some(h.1), def_name(env.tables, h.1));
                            Some((at.0, m))
                        },
                        None => None,
                    }
                } else {
                    None
                };
                let others = self.placed_members(env, t);
                match first {
                    Some((at, m)) => insert_member(at, m, others),
                    None => others,
                }
            },
        }
    }

    /// The members of a struct, in declaration order.
    pub fn struct_members(&mut self, env: &LowerCx, def: DefId) -> (r: List<Member>)
        ensures
            (final(self)@, r) == struct_members_spec(old(self)@, env, def),
            crate::placing::kept(old(self)@, final(self)@),
    {
        match get_def(env.tables, def) {
            Some(d) => {
                let placed = self.placed_members(env, &d.members);
                only_members(placed)
            },
            None => List::Nil,
        }
    }

    /// Lower each variant of a list.
    pub fn lower_variants(
        &mut self,
        env: &LowerCx,
        l: &List<NodeId>,
        enum_def: DefId,
        fuel: u64,
    ) -> (r: List<Variant>)
        ensures
            (final(self)@, r) == lower_variants_spec(old(self)@, env, l, enum_def, fuel),
            crate::placing::kept(old(self)@, final(self)@),
        decreases fuel, l,
    {
        if fuel == 0 {
            self.give_up();
            return List::Nil;
        }
        match l {
            List::Nil => List::Nil,
            List::Cons(h, t) => {
                let a = self.lower_variant(env, enum_def, *h);
                let rest = self.lower_variants(env, t, enum_def, fuel);
                match a {
                    Some(x) => List::Cons(x, Box::new(rest)),
                    None => rest,
                }
            },
        }
    }

    /// A tuple payload's members, named by their positions.
    pub fn tuple_members(&mut self, env: &LowerCx, l: &List<NodeId>, i: u64) -> (r: List<Member>)
        ensures
            (final(self)@, r) == tuple_members_spec(old(self)@, env, l, i),
            crate::placing::kept(old(self)@, final(self)@),
        decreases l,
    {
        match l {
            List::Nil => List::Nil,
            List::Cons(h, t) => {
                let m = self.member(env, *h, None, index_sym(i));
                let rest = self.tuple_members(env, t, succ(i));
                List::Cons(m, Box::new(rest))
            },
        }
    }

    /// A record payload's members.
    pub fn record_members(&mut self, env: &LowerCx, l: &List<NodeId>) -> (r: List<Member>)
        ensures
            (final(self)@, r) == record_members_spec(old(self)@, env, l),
            crate::placing::kept(old(self)@, final(self)@),
        decreases l,
    {
        match l {
            List::Nil => List::Nil,
            List::Cons(h, t) => match kind_of(env.tables, self.file, *h) {
                Some(NodeKind::Field { name, ty: _ }) => {
                    let m = self.member(env, *h, None, dup_sym(name));
                    let rest = self.record_members(env, t);
                    List::Cons(m, Box::new(rest))
                },
                _ => self.record_members(env, t),
            },
        }
    }

    /// Lower one variant, with the tag inference decided for it.
    pub fn lower_variant(&mut self, env: &LowerCx, enum_def: DefId, node: NodeId) -> (r: Option<Variant>)
        ensures
            (final(self)@, r) == lower_variant_spec(old(self)@, env, enum_def, node),
            crate::placing::kept(old(self)@, final(self)@),
    {
        match kind_of(env.tables, self.file, node) {
            Some(NodeKind::Variant { name, payload, value: _ }) => {
                match member_of(env.tables, enum_def, name) {
                    Some(def) => {
                        let (members, tuple) = match payload {
                            VariantPayload::Unit => (List::Nil, false),
                            VariantPayload::Tuple(types) => {
                                let ms = self.tuple_members(env, types, 0);
                                (ms, true)
                            },
                            VariantPayload::Record(fields) => {
                                let ms = self.record_members(env, fields);
                                (ms, false)
                            },
                        };
                        let tag: i128 = match fact_variant_tag(env.facts, self.file, node) {
                            Some(t) => t.0,
                            None => 0,
                        };
                        let id = self.id(env, node);
                        Some(
                            Variant {
                                id: id,
                                def: def,
                                name: dup_sym(name),
                                members: members,
                                tuple: tuple,
                                tag: tag,
                            },
                        )
                    },
                    _ => {
                        None
                    },
                }
            },
            _ => {
                None
            },
        }
    }

    /// One member, with the type inference recorded on its node.
    pub fn member(&mut self, env: &LowerCx, at: NodeId, def: Option<DefId>, name: Symbol) -> (r: Member)
        ensures
            (final(self)@, r) == member_spec(old(self)@, env, at, def, name),
            crate::placing::kept(old(self)@, final(self)@),
    {
        let id = self.id(env, at);
        let ty = self.ty(env, at);
        self.set_ty(id, ty);
        match def {
            Some(d) => {
                let directives = directives_of(env.tables, d);
                if !is_empty(&directives) {
                    self.set_directives(id, directives);
                }
            },
            None => {},
        }
        Member { id: id, def: def, name: name }
    }

    /// Lower each parameter of a list.
    pub fn lower_params(&mut self, env: &LowerCx, l: &List<NodeId>, fuel: u64) -> (r: List<Param>)
        ensures
            (final(self)@, r) == lower_params_spec(old(self)@, env, l, fuel),
            crate::placing::kept(old(self)@, final(self)@),
        decreases fuel, l,
    {
        if fuel == 0 {
            self.give_up();
            return List::Nil;
        }
        match l {
            List::Nil => List::Nil,
            List::Cons(h, t) => {
                let a = self.lower_param(env, *h);
                let rest = self.lower_params(env, t, fuel);
                match a {
                    Some(x) => List::Cons(x, Box::new(rest)),
                    None => rest,
                }
            },
        }
    }

    /// The types of lowered parameters.
    pub fn param_types(&self, l: &List<Param>) -> (r: List<Ty>)
        ensures
            r == param_types_spec(self@, l),
        decreases l,
    {
        match l {
            List::Nil => List::Nil,
            List::Cons(h, t) => List::Cons(self.ty_or_error(h.id), Box::new(self.param_types(t))),
        }
    }

    /// Lower each value parameter's default and keep it on the parameter.
    pub fn lower_defaults(
        &mut self,
        env: &LowerCx,
        def: DefId,
        ids: &List<IrId>,
        i: u64,
        fuel: u64,
    ) -> (r: List<Option<ParamDefault>>)
        ensures
            (final(self)@, r) == lower_defaults_spec(old(self)@, env, def, ids, i, fuel),
            crate::placing::kept(old(self)@, final(self)@),
        decreases fuel, ids,
    {
        if fuel == 0 {
            self.give_up();
            return List::Nil;
        }
        match ids {
            List::Nil => List::Nil,
            List::Cons(param_id, rest) => {
                let d = self.param_default(env, def, i, (fuel - 1) as u64);
                let first = match d {
                    Some(e) => {
                        self.set_default(*param_id, e);
                        if default_is_caller_location(env.tables, Some(def), i) {
                            Some(ParamDefault::CallerLocation)
                        } else {
                            Some(ParamDefault::Value(*param_id))
                        }
                    },
                    None => None,
                };
                let others = self.lower_defaults(env, def, rest, succ(i), fuel);
                List::Cons(first, Box::new(others))
            },
        }
    }

    /// Lower one function: its parameters, every default whether or not anything
    /// calls for it, and its body.
    pub fn lower_function(
        &mut self,
        env: &LowerCx,
        def: DefId,
        func: NodeId,
        fuel: u64,
    ) -> (r: Option<Function>)
        ensures
            (final(self)@, r) == lower_function_spec(old(self)@, env, def, func, fuel),
            match r {
                Some(f) => f.def == def
                    && (f.body is Some || f.abi is Some <==> has_code(crate::def::kind_of_spec(env.tables, old(self)@.file, func))),
                None => fuel == 0 || !has_code(crate::def::kind_of_spec(env.tables, old(self)@.file, func)),
            },
            crate::placing::kept(old(self)@, final(self)@),
        decreases fuel,
    {
        if fuel == 0 {
            self.give_up();
            return None;
        }
        match kind_of(env.tables, self.file, func) {
            Some(NodeKind::FuncExpr { generics: _, params, ret: _, body, abi }) => {
                let ret = self.ty(env, func);
                let over = fact_generics(env.facts, self.file, func);
                let boxed = match body {
                    Some(b) => Some(boxed_in(env, self.file, *b, List::Nil, DEPTH_LIMIT)),
                    None => None,
                };
                let ps = self.lower_params(env, params, (fuel - 1) as u64);
                let param_tys = self.param_types(&ps);
                let recv = recv_of(&param_tys, &ps);
                let mutating = any_grants_mutation(&param_tys);
                let defaults = self.lower_defaults(env, def, &value_param_ids(&ps), 0, (fuel - 1) as u64);
                self.record_defaults(def, defaults);
                let lowered = match body {
                    Some(b) => {
                        let block = self.lower_block(env, *b, (fuel - 1) as u64);
                        Some(block)
                    },
                    None => None,
                };
                let id = self.id(env, func);
                // A function's own type is its whole signature.
                self.set_ty(
                    id,
                    Ty::Func { params: Box::new(param_tys), ret: Box::new(ret), c: abi.is_some() },
                );
                self.set_directives(id, directives_of(env.tables, def));
                match over {
                    Some(g) => {
                        self.set_generics(id, dup_generics(g));
                    },
                    None => {},
                }
                match boxed {
                    Some(l) => {
                        self.set_boxed(id, l);
                    },
                    None => {},
                }
                Some(Function {
        id: id,
        def: def,
        name: def_name(env.tables, def),
        params: ps,
        body: lowered,
        abi: match abi {
            Some(a) => Some(dup_sym(a)),
            None => None,
        },
        recv: recv,
        mutating: mutating,
    })
            },
            _ => {
                None
            },
        }
    }

    /// Lower one parameter.
    pub fn lower_param(&mut self, env: &LowerCx, param: NodeId) -> (r: Option<Param>)
        ensures
            (final(self)@, r) == lower_param_spec(old(self)@, env, param),
            crate::placing::kept(old(self)@, final(self)@),
    {
        match kind_of(env.tables, self.file, param) {
            Some(NodeKind::Param { name, ty: _, default: _ }) => {
                match self.def_of(env, param) {
                    Some(def) => {
                        let id = self.id(env, param);
                        let ty = self.ty(env, param);
                        self.set_ty(id, ty);
                        Some(Param { id: id, def: def, name: dup_sym(name) })
                    },
                    _ => {
                        None
                    },
                }
            },
            _ => {
                None
            },
        }
    }

    /// Lower each statement of a list.
    pub fn lower_stmts(&mut self, env: &LowerCx, l: &List<NodeId>, fuel: u64) -> (r: List<Stmt>)
        ensures
            (final(self)@, r) == lower_stmts_spec(old(self)@, env, l, fuel),
            crate::placing::kept(old(self)@, final(self)@),
        decreases fuel, l,
    {
        if fuel == 0 {
            self.give_up();
            return List::Nil;
        }
        match l {
            List::Nil => List::Nil,
            List::Cons(h, t) => {
                let a = self.lower_stmt(env, *h, (fuel - 1) as u64);
                let rest = self.lower_stmts(env, t, fuel);
                match a {
                    Some(x) => List::Cons(x, Box::new(rest)),
                    None => rest,
                }
            },
        }
    }

    /// Lower a block. A body that is not a block becomes one with a tail alone.
    pub fn lower_block(&mut self, env: &LowerCx, node: NodeId, fuel: u64) -> (r: Block)
        ensures
            (final(self)@, r) == lower_block_spec(old(self)@, env, node, fuel),
            final(self)@.deep || match r.tail {
                Some(e) => crate::placing::known(final(self)@, e.id.0),
                None => true,
            },
            crate::placing::kept(old(self)@, final(self)@),
        decreases fuel,
    {
        if fuel == 0 {
            self.give_up();
            return no_block();
        }
        let (stmts, tail) = match kind_of(env.tables, self.file, node) {
            Some(NodeKind::Block { stmts, tail }) => {
                let out = self.lower_stmts(env, stmts, (fuel - 1) as u64);
                (out, *tail)
            },
            _ => (List::Nil, Some(node)),
        };
        let tail = match tail {
            Some(t) => {
                let e = self.lower_expr(env, t, (fuel - 1) as u64);
                Some(e)
            },
            None => None,
        };
        let ty = match &tail {
            Some(t) => self.ty_of(t),
            None => Ty::Void,
        };
        let id = self.id(env, node);
        self.set_ty(id, ty);
        Block {
        id: id,
        stmts: Box::new(stmts),
        tail: match tail {
            Some(t) => Some(Box::new(t)),
            None => None,
        },
    }
    }

    /// Lower a statement that binds a pattern. The pattern travels whole.
    pub fn lower_binding(
        &mut self,
        env: &LowerCx,
        node: NodeId,
        pattern: NodeId,
        value: NodeId,
        fuel: u64,
    ) -> (r: Stmt)
        ensures
            (final(self)@, r) == lower_binding_spec(old(self)@, env, node, pattern, value, fuel),
            crate::placing::kept(old(self)@, final(self)@),
        decreases fuel,
    {
        if fuel == 0 {
            self.give_up();
            return Stmt { id: IrId(0), kind: StmtKind::Continue };
        }
        let init = self.lower_expr(env, value, (fuel - 1) as u64);
        let pattern = self.lower_pattern(env, pattern, (fuel - 1) as u64);
        self.stmt(env, node, StmtKind::Let { pattern: pattern, init: init })
    }

    /// Lower a statement. A local item contributes nothing: it is lowered on its
    /// own, as the definition it is.
    pub fn lower_stmt(&mut self, env: &LowerCx, node: NodeId, fuel: u64) -> (r: Option<Stmt>)
        ensures
            (final(self)@, r) == lower_stmt_spec(old(self)@, env, node, fuel),
            crate::placing::kept(old(self)@, final(self)@),
        decreases fuel,
    {
        if fuel == 0 {
            self.give_up();
            return None;
        }
        if is_local_item(env.tables, self.file, node) {
            return None;
        }
        let s = match kind_of(env.tables, self.file, node) {
            Some(NodeKind::LocalDecl { pattern, ty: _, value }) => self.lower_binding(
                env,
                node,
                *pattern,
                *value,
                (fuel - 1) as u64,
            ),
            Some(NodeKind::ConstBind { pattern, rhs }) => self.lower_binding(
                env,
                node,
                *pattern,
                *rhs,
                (fuel - 1) as u64,
            ),
            Some(NodeKind::Assign { place, value }) => {
                let p = self.lower_expr(env, *place, (fuel - 1) as u64);
                let v = self.lower_expr(env, *value, (fuel - 1) as u64);
                self.stmt(env, node, StmtKind::Assign { place: p, value: v })
            },
            Some(NodeKind::Return { value }) => {
                let v = self.lower_opt_expr(env, *value, (fuel - 1) as u64);
                self.stmt(env, node, StmtKind::Return(v))
            },
            Some(NodeKind::Break { value }) => {
                let v = self.lower_opt_expr(env, *value, (fuel - 1) as u64);
                self.stmt(env, node, StmtKind::Break(v))
            },
            Some(NodeKind::Continue) => self.stmt(env, node, StmtKind::Continue),
            Some(NodeKind::Defer { body }) => {
                let d = self.lower_expr(env, *body, (fuel - 1) as u64);
                self.stmt(env, node, StmtKind::Defer(d))
            },
            _ => {
                let e = self.lower_expr(env, node, (fuel - 1) as u64);
                self.stmt(env, node, StmtKind::Expr(e))
            },
        };
        Some(s)
    }

    /// Lower each expression of a list.
    pub fn lower_exprs(&mut self, env: &LowerCx, l: &List<NodeId>, fuel: u64) -> (r: List<Expr>)
        ensures
            (final(self)@, r) == lower_exprs_spec(old(self)@, env, l, fuel),
            final(self)@.deep || crate::placing::all_known(final(self)@, r),
            crate::placing::kept(old(self)@, final(self)@),
        decreases fuel, l,
    {
        if fuel == 0 {
            self.give_up();
            return List::Nil;
        }
        match l {
            List::Nil => List::Nil,
            List::Cons(h, t) => {
                let a = self.lower_expr(env, *h, (fuel - 1) as u64);
                let rest = self.lower_exprs(env, t, fuel);
                List::Cons(a, Box::new(rest))
            },
        }
    }

    /// Lower an expression that may be absent.
    pub fn lower_opt_expr(&mut self, env: &LowerCx, node: Option<NodeId>, fuel: u64) -> (r: Option<Expr>)
        ensures
            (final(self)@, r) == lower_opt_expr_spec(old(self)@, env, node, fuel),
            final(self)@.deep || match r {
                Some(e) => crate::placing::known(final(self)@, e.id.0),
                None => true,
            },
            crate::placing::kept(old(self)@, final(self)@),
        decreases fuel,
    {
        if fuel == 0 {
            self.give_up();
            return None;
        }
        match node {
            Some(n) => {
                let e = self.lower_expr(env, n, (fuel - 1) as u64);
                Some(e)
            },
            None => None,
        }
    }

    /// Lower a block that may be absent.
    pub fn lower_opt_block(
        &mut self,
        env: &LowerCx,
        node: Option<NodeId>,
        fuel: u64,
    ) -> (r: Option<Box<Block>>)
        ensures
            (final(self)@, r) == lower_opt_block_spec(old(self)@, env, node, fuel),
            crate::placing::kept(old(self)@, final(self)@),
        decreases fuel,
    {
        if fuel == 0 {
            self.give_up();
            return None;
        }
        match node {
            Some(n) => {
                let b = self.lower_block(env, n, (fuel - 1) as u64);
                Some(Box::new(b))
            },
            None => None,
        }
    }

    /// Lower an expression, with the coercion inference accepted at it written out
    /// around it.
    pub fn lower_expr(&mut self, env: &LowerCx, node: NodeId, fuel: u64) -> (r: Expr)
        ensures
            (final(self)@, r) == lower_expr_spec(old(self)@, env, node, fuel),
            final(self)@.deep || crate::placing::known(final(self)@, r.id.0),
            crate::placing::kept(old(self)@, final(self)@),
        decreases fuel,
    {
        if fuel == 0 {
            self.give_up();
            return no_expr();
        }
        match fact_upcast(env.facts, self.file, node) {
            Some(up) => {
                return self.lower_upcast(env, node, up, (fuel - 1) as u64);
            },
            None => {},
        }
        match fact_coercion(env.facts, self.file, node) {
            Some(c) => {
                let reported = fact_range_reported(env.facts, self.file, node).is_some();
                let value = self.lower_expr_inner(env, node, (fuel - 1) as u64);
                let cast = self.expr(
                    env,
                    node,
                    dup_ty(&c.to),
                    ExprKind::Intrinsic { name: sym("cast"), args: Box::new(single(value)) },
                );
                self.set_implicit_cast(cast.id);
                if reported {
                    self.set_range_reported(cast.id);
                }
                return cast;
            },
            None => {},
        }
        match fact_slice_coerce(env.facts, self.file, node) {
            Some(sc) => {
                let value = self.lower_expr_inner(env, node, (fuel - 1) as u64);
                let index = bound_ty(&sc.range);
                let start = self.derived_expr(value.id, dup_ty(&index), ExprKind::Lit(Lit::Int(int_of(0))));
                let end = self.len_expr(dup_expr(&value), index);
                return self.expr(
                    env,
                    node,
                    dup_ty(&sc.to),
                    ExprKind::Intrinsic { name: sym("slice"), args: Box::new(list3(value, start, end)) },
                );
            },
            None => {},
        }
        match fact_dyn_coerce(env.facts, self.file, node) {
            Some(dc) => {
                let ty = Ty::Ptr {
                    mutable: is_mut_ptr(&self.ty(env, node)),
                    inner: Box::new(dup_ty(&dc.object)),
                };
                let value = self.lower_expr_inner(env, node, (fuel - 1) as u64);
                return self.expr(
                    env,
                    node,
                    ty,
                    ExprKind::DynCast { value: Box::new(value), concrete: dup_ty(&dc.concrete) },
                );
            },
            None => {},
        }
        self.lower_expr_inner(env, node, (fuel - 1) as u64)
    }

    /// The field access an `@using` coercion stands for: `e.t` for a value, its
    /// address for a pointer.
    pub fn lower_upcast(&mut self, env: &LowerCx, node: NodeId, up: &Upcast, fuel: u64) -> (r: Expr)
        ensures
            (final(self)@, r) == lower_upcast_spec(old(self)@, env, node, up, fuel),
            final(self)@.deep || crate::placing::known(final(self)@, r.id.0),
            crate::placing::kept(old(self)@, final(self)@),
        decreases fuel,
    {
        if fuel == 0 {
            self.give_up();
            return no_expr();
        }
        let name = def_name(env.tables, up.field);
        let base = self.lower_expr_inner(env, node, (fuel - 1) as u64);
        let base = self.autoderef(base);
        if !up.through_ptr {
            return self.expr(
                env,
                node,
                dup_ty(&up.target),
                ExprKind::Field { base: Box::new(base), name: name, def: Some(up.field) },
            );
        }
        let (mutable, inner) = match &up.target {
            Ty::Ptr { mutable, inner } => (*mutable, dup_ty(&**inner)),
            other => (false, dup_ty(other)),
        };
        let field = self.expr(
            env,
            node,
            inner,
            ExprKind::Field { base: Box::new(base), name: name, def: Some(up.field) },
        );
        self.expr(env, node, dup_ty(&up.target), ExprKind::Ref { mutable: mutable, place: Box::new(field) })
    }

    /// Lower what a node itself says.
    #[verifier::rlimit(40)]
    pub fn lower_expr_inner(&mut self, env: &LowerCx, node: NodeId, fuel: u64) -> (r: Expr)
        ensures
            (final(self)@, r) == lower_expr_inner_spec(old(self)@, env, node, fuel),
            final(self)@.deep || crate::placing::known(final(self)@, r.id.0),
            crate::placing::kept(old(self)@, final(self)@),
        decreases fuel,
    {
        if fuel == 0 {
            self.give_up();
            return no_expr();
        }
        let ty = self.ty(env, node);
        match kind_of(env.tables, self.file, node) {
            Some(NodeKind::Block { .. }) => {
                // The block's own type, which is its tail's.
                let b = self.lower_block(env, node, (fuel - 1) as u64);
                let own = self.ty_or_error(b.id);
                self.expr(env, node, own, ExprKind::Block(Box::new(b)))
            },
            Some(NodeKind::Lit(lit)) => self.expr(env, node, ty, ExprKind::Lit(dup_lit(lit))),
            Some(NodeKind::Path { .. }) => self.lower_name(env, node, ty),
            Some(NodeKind::Closure { .. }) => self.lower_closure(env, node, ty, (fuel - 1) as u64),
            Some(NodeKind::FieldAccess { base, name }) => {
                // A resolved member of a namespace is a global; a resolved field is
                // a projection out of the base.
                let def = self.resolved_def(env, node);
                let named = match def {
                    Some(d) => def_kind(env.tables, d) != DefKind::Field,
                    None => false,
                };
                if named {
                    self.lower_name(env, node, ty)
                } else {
                    let b = self.lower_expr(env, *base, (fuel - 1) as u64);
                    let b = self.autoderef(b);
                    self.expr(
                        env,
                        node,
                        ty,
                        ExprKind::Field { base: Box::new(b), name: dup_sym(name), def: def },
                    )
                }
            },
            Some(NodeKind::TupleIndex { base, index }) => {
                // On a tuple struct this is a field like any other.
                let def = self.resolved_def(env, node);
                let b = self.lower_expr(env, *base, (fuel - 1) as u64);
                let b = self.autoderef(b);
                match def {
                    Some(d) => self.expr(
                        env,
                        node,
                        ty,
                        ExprKind::Field { base: Box::new(b), name: index_sym(*index), def: Some(d) },
                    ),
                    None => self.expr(
                        env,
                        node,
                        ty,
                        ExprKind::TupleIndex { base: Box::new(b), index: *index },
                    ),
                }
            },
            Some(NodeKind::Call { callee, args }) => self.lower_call(
                env,
                node,
                *callee,
                args,
                ty,
                (fuel - 1) as u64,
            ),
            Some(NodeKind::GenericApply { base, args: _ }) => self.lower_expr(env, *base, (fuel - 1) as u64),
            Some(NodeKind::Binary { op, lhs, rhs }) => match fact_op_resolution(env.facts, self.file, node) {
                Some(res) => if is_comparison(*op) {
                    self.lower_comparison(env, node, *res, *op, *lhs, *rhs, (fuel - 1) as u64)
                } else {
                    let l = self.lower_expr(env, *lhs, (fuel - 1) as u64);
                    let r = self.lower_expr(env, *rhs, (fuel - 1) as u64);
                    self.op_call(env, node, *res, list2(l, r), ty)
                },
                None => {
                    let l = self.lower_expr(env, *lhs, (fuel - 1) as u64);
                    let r = self.lower_expr(env, *rhs, (fuel - 1) as u64);
                    self.expr(env, node, ty, ExprKind::Binary { op: *op, lhs: Box::new(l), rhs: Box::new(r) })
                },
            },
            Some(NodeKind::Unary { op, operand }) => self.lower_unary(
                env,
                node,
                *op,
                *operand,
                ty,
                (fuel - 1) as u64,
            ),
            Some(NodeKind::Deref { base }) => {
                let b = self.lower_expr(env, *base, (fuel - 1) as u64);
                self.expr(env, node, ty, ExprKind::Deref { base: Box::new(b) })
            },
            Some(NodeKind::Index { base, index }) => match fact_op_resolution(env.facts, self.file, node) {
                Some(res) => self.lower_index_call(env, node, *res, *base, *index, ty, (fuel - 1) as u64),
                None => self.expr(env, node, ty, ExprKind::Error),
            },
            Some(NodeKind::Slice { base, range }) => self.lower_slice(
                env,
                node,
                *base,
                *range,
                ty,
                (fuel - 1) as u64,
            ),
            Some(NodeKind::Range { start, end, kind }) => {
                let (name, args) = self.lower_range(
                    env,
                    *start,
                    *end,
                    *kind == RangeKind::Closed,
                    (fuel - 1) as u64,
                );
                self.expr(env, node, ty, ExprKind::Variant { name: name, args: Box::new(args) })
            },
            Some(NodeKind::Tuple { elems }) => {
                let es = self.lower_exprs(env, elems, (fuel - 1) as u64);
                self.expr(env, node, ty, ExprKind::Tuple { elems: Box::new(es) })
            },
            Some(NodeKind::If { cond, then, els }) => {
                let c = self.lower_expr(env, *cond, (fuel - 1) as u64);
                let t = self.lower_block(env, *then, (fuel - 1) as u64);
                let e = self.lower_opt_block(env, *els, (fuel - 1) as u64);
                self.expr(env, node, ty, ExprKind::If { cond: Box::new(c), then: Box::new(t), els: e })
            },
            Some(NodeKind::IfMatch { pattern, value, then, els }) => {
                self.lower_if_match(env, node, *pattern, *value, *then, *els, ty, (fuel - 1) as u64)
            },
            Some(NodeKind::MatchExpr { scrutinee, arms }) => {
                let s = self.lower_expr(env, *scrutinee, (fuel - 1) as u64);
                let a = self.lower_match_arms(env, arms, (fuel - 1) as u64);
                self.expr(env, node, ty, ExprKind::Match { scrutinee: Box::new(s), arms: Box::new(a) })
            },
            Some(NodeKind::Loop { body }) => {
                let b = self.lower_block(env, *body, (fuel - 1) as u64);
                self.expr(env, node, ty, ExprKind::Loop { body: Box::new(b) })
            },
            Some(NodeKind::While { cond, body }) => self.lower_while(
                env,
                node,
                *cond,
                *body,
                ty,
                (fuel - 1) as u64,
            ),
            Some(NodeKind::VariantLit { name, args }) => {
                let a = self.lower_variant_args(env, args, (fuel - 1) as u64);
                self.expr(env, node, ty, ExprKind::Variant { name: dup_sym(name), args: Box::new(a) })
            },
            Some(
                NodeKind::CompositeLit { ty: _, body },
            ) => self.lower_composite(env, node, body, ty, (fuel - 1) as u64),
            Some(NodeKind::Arg { name: _, value }) => self.lower_expr(env, *value, (fuel - 1) as u64),
            Some(NodeKind::Decl { .. }) => self.unit_expr(env, node),
            Some(NodeKind::ConstBind { .. }) => self.unit_expr(env, node),
            Some(NodeKind::NamespaceExpr { .. }) => self.unit_expr(env, node),
            Some(NodeKind::ImplBlock { .. }) => self.unit_expr(env, node),
            Some(NodeKind::Import) => self.unit_expr(env, node),
            _ => self.expr(env, node, ty, ExprKind::Error),
        }
    }

    /// The empty tuple.
    pub fn unit_expr(&mut self, env: &LowerCx, node: NodeId) -> (r: Expr)
        ensures
            (final(self)@, r) == unit_expr_spec(old(self)@, env, node),
            final(self)@.deep || crate::placing::known(final(self)@, r.id.0),
            crate::placing::kept(old(self)@, final(self)@),
    {
        self.expr(env, node, Ty::Void, ExprKind::Tuple { elems: Box::new(List::Nil) })
    }

    /// Lower a prefix operator. Taking an address is built in, a negated literal is
    /// one literal, and anything else that resolved is a call.
    pub fn lower_unary(
        &mut self,
        env: &LowerCx,
        node: NodeId,
        op: UnOp,
        operand: NodeId,
        ty: Ty,
        fuel: u64,
    ) -> (r: Expr)
        ensures
            (final(self)@, r) == lower_unary_spec(old(self)@, env, node, op, operand, ty, fuel),
            final(self)@.deep || crate::placing::known(final(self)@, r.id.0),
            crate::placing::kept(old(self)@, final(self)@),
        decreases fuel,
    {
        if fuel == 0 {
            self.give_up();
            return no_expr();
        }
        if op == UnOp::Ref || op == UnOp::RefMut {
            let place = self.lower_expr(env, operand, (fuel - 1) as u64);
            return self.expr(
                env,
                node,
                ty,
                ExprKind::Ref { mutable: op == UnOp::RefMut, place: Box::new(place) },
            );
        }
        if op == UnOp::Neg && (is_int(&ty) || is_float(&ty)) {
            match negated_lit(kind_of(env.tables, self.file, operand)) {
                Some(lit) => {
                    return self.expr(env, node, ty, ExprKind::Lit(lit));
                },
                None => {},
            }
            return self.lower_unary_op(env, node, op, operand, ty, (fuel - 1) as u64);
        }
        self.lower_unary_op(env, node, op, operand, ty, (fuel - 1) as u64)
    }

    /// Lower a prefix operator that is a call where it resolved to a method.
    pub fn lower_unary_op(
        &mut self,
        env: &LowerCx,
        node: NodeId,
        op: UnOp,
        operand: NodeId,
        ty: Ty,
        fuel: u64,
    ) -> (r: Expr)
        ensures
            (final(self)@, r) == lower_unary_op_spec(old(self)@, env, node, op, operand, ty, fuel),
            final(self)@.deep || crate::placing::known(final(self)@, r.id.0),
            crate::placing::kept(old(self)@, final(self)@),
        decreases fuel,
    {
        if fuel == 0 {
            self.give_up();
            return no_expr();
        }
        match fact_op_resolution(env.facts, self.file, node) {
            Some(res) => {
                let e = self.lower_expr(env, operand, (fuel - 1) as u64);
                self.op_call(env, node, *res, single(e), ty)
            },
            None => {
                let e = self.lower_expr(env, operand, (fuel - 1) as u64);
                self.expr(env, node, ty, ExprKind::Unary { op: op, operand: Box::new(e) })
            },
        }
    }

    /// The variant of the range type a range expression builds, and its bounds.
    pub fn lower_range(
        &mut self,
        env: &LowerCx,
        start: Option<NodeId>,
        end: Option<NodeId>,
        closed: bool,
        fuel: u64,
    ) -> (r: (Symbol, List<Expr>))
        ensures
            (final(self)@, r) == lower_range_spec(old(self)@, env, start, end, closed, fuel),
            crate::placing::kept(old(self)@, final(self)@),
        decreases fuel,
    {
        if fuel == 0 {
            self.give_up();
            return (sym("full"), List::Nil);
        }
        match (start, end) {
            (None, None) => (sym("full"), List::Nil),
            (Some(s), None) => {
                let a = self.lower_expr(env, s, (fuel - 1) as u64);
                (sym("from"), single(a))
            },
            (None, Some(e)) => {
                let b = self.lower_expr(env, e, (fuel - 1) as u64);
                (if closed { sym("to_inclusive") } else { sym("to") }, single(b))
            },
            (Some(s), Some(e)) => {
                let a = self.lower_expr(env, s, (fuel - 1) as u64);
                let b = self.lower_expr(env, e, (fuel - 1) as u64);
                (if closed { sym("inclusive") } else { sym("exclusive") }, list2(a, b))
            },
        }
    }

    /// `if match p := v { then } else { els }`, as a match with two arms.
    pub fn lower_if_match(
        &mut self,
        env: &LowerCx,
        node: NodeId,
        pattern: NodeId,
        value: NodeId,
        then: NodeId,
        els: Option<NodeId>,
        ty: Ty,
        fuel: u64,
    ) -> (r: Expr)
        ensures
            (final(self)@, r) == lower_if_match_spec(
                old(self)@,
                env,
                node,
                pattern,
                value,
                then,
                els,
                ty,
                fuel,
            ),
            final(self)@.deep || crate::placing::known(final(self)@, r.id.0),
            crate::placing::kept(old(self)@, final(self)@),
        decreases fuel,
    {
        if fuel == 0 {
            self.give_up();
            return no_expr();
        }
        let scrutinee = self.lower_expr(env, value, (fuel - 1) as u64);
        let then_block = self.lower_block(env, then, (fuel - 1) as u64);
        let then_ty = self.ty_or_error(then_block.id);
        let p = self.lower_pattern(env, pattern, (fuel - 1) as u64);
        let body = self.expr(env, then, then_ty, ExprKind::Block(Box::new(then_block)));
        let then_id = self.id(env, then);
        let hit = Arm { id: then_id, pattern: p, guard: None, body: body };
        let else_body = match els {
            Some(e) => {
                let b = self.lower_block(env, e, (fuel - 1) as u64);
                let bty = self.ty_or_error(b.id);
                self.expr(env, e, bty, ExprKind::Block(Box::new(b)))
            },
            None => self.unit_expr(env, node),
        };
        let else_at = match els {
            Some(e) => e,
            None => node,
        };
        let else_id = self.id(env, else_at);
        let wild = self.pat(env, node, PatternKind::Wildcard);
        let miss = Arm { id: else_id, pattern: wild, guard: None, body: else_body };
        self.expr(
            env,
            node,
            ty,
            ExprKind::Match { scrutinee: Box::new(scrutinee), arms: Box::new(list2(hit, miss)) },
        )
    }

    /// The argument slots of a call: in the order inference recorded, or as written.
    pub fn call_slots(&self, env: &LowerCx, head: NodeId, args: &List<NodeId>) -> (r: List<Option<NodeId>>)
        ensures
            r == call_slots_spec(self@, env, head, args),
    {
        match fact_arg_order(env.facts, self.file, head) {
            Some(o) => dup_slots(&o.args),
            None => written_slots(args),
        }
    }

    /// The node a call's resolution sits on: the callee, or what its explicit
    /// generic arguments are applied to.
    pub fn call_head(&self, env: &LowerCx, callee: NodeId) -> (r: NodeId)
        ensures
            r == call_head_spec(self@, env, callee),
    {
        match kind_of(env.tables, self.file, callee) {
            Some(NodeKind::GenericApply { base, args: _ }) => *base,
            _ => callee,
        }
    }

    /// Lower a call. A method call and a free call come out the same: a method's
    /// receiver is the first argument. A callee that names a type constructs it,
    /// and one the compiler supplies is the operation itself.
    pub fn lower_call(
        &mut self,
        env: &LowerCx,
        node: NodeId,
        callee: NodeId,
        args: &List<NodeId>,
        ty: Ty,
        fuel: u64,
    ) -> (r: Expr)
        ensures
            (final(self)@, r) == lower_call_spec(old(self)@, env, node, callee, args, ty, fuel),
            final(self)@.deep || crate::placing::known(final(self)@, r.id.0),
            crate::placing::kept(old(self)@, final(self)@),
        decreases fuel,
    {
        if fuel == 0 {
            self.give_up();
            return no_expr();
        }
        let head = self.call_head(env, callee);
        match fact_func_call_method(env.facts, self.file, head) {
            Some(m) => {
                return self.lower_func_call_method(env, node, head, *m, args, ty, (fuel - 1) as u64);
            },
            None => {},
        }
        match fact_method_res(env.facts, self.file, head) {
            Some(res) => {
                return self.lower_method_call(env, node, head, res, args, ty, (fuel - 1) as u64);
            },
            None => {},
        }
        let slots = self.call_slots(env, head, args);
        match self.construct_target(env, head, &ty) {
            Some(def) => {
                // A tuple struct's fields are positions: every slot is written.
                let lowered = self.lower_args(env, None, &slots, 0, node, (fuel - 1) as u64);
                return self.expr(
                    env,
                    node,
                    ty,
                    ExprKind::Construct { def: Some(def), fields: Box::new(indexed_fields(lowered, 0)) },
                );
            },
            None => {},
        }
        let target = self.resolved_def(env, head);
        match opt_intrinsic(env.tables, target) {
            Some(tag) => {
                let lowered = self.lower_args(env, target, &slots, 0, node, (fuel - 1) as u64);
                let e = self.lower_intrinsic(env, node, tag, lowered, ty);
                self.carry_instantiation(env, head, e.id);
                return e;
            },
            None => {},
        }
        let dispatch = self.static_dispatch(env, head, target);
        let callee = self.lower_expr(env, callee, (fuel - 1) as u64);
        let lowered = self.lower_args(env, target, &slots, 0, node, (fuel - 1) as u64);
        let call = self.expr(
            env,
            node,
            ty,
            ExprKind::Call {
                callee: Box::new(callee),
                args: Box::new(lowered),
                builtin: None,
                dispatch: dispatch,
            },
        );
        self.carry_instantiation(env, head, call.id);
        call
    }

    /// How a call that is not a method call reaches its callee.
    pub fn static_dispatch(&self, env: &LowerCx, head: NodeId, target: Option<DefId>) -> (r: Dispatch)
        ensures
            r == static_dispatch_spec(self@, env, head, target),
    {
        match (fact_static_trait_self(env.facts, self.file, head), target) {
            (Some(s), Some(method)) => Dispatch::Generic {
                trait_def: s.trait_def,
                method: method,
                self_ty: dup_ty(&s.self_ty),
                trait_args: dup_tys(&s.trait_args),
            },
            _ => match fact_func_call(env.facts, self.file, head) {
                Some(_) => Dispatch::Func { self_ty: self.ty(env, head) },
                None => Dispatch::Static,
            },
        }
    }

    /// The node of an operation the compiler supplies. `len` of a fixed array is
    /// its length, and a cast to a trait object builds the fat pointer.
    pub fn lower_intrinsic(
        &mut self,
        env: &LowerCx,
        node: NodeId,
        tag: Symbol,
        args: List<Expr>,
        ty: Ty,
    ) -> (r: Expr)
        ensures
            (final(self)@, r) == lower_intrinsic_spec(old(self)@, env, node, tag, args, ty),
            old(self)@.deep
                || crate::placing::all_known(old(self)@, args) ==> final(self)@.deep
                || crate::placing::known(final(self)@, r.id.0),
            old(self)@.deep
                || crate::placing::all_known(old(self)@, args) ==> crate::placing::kept(old(self)@, final(self)@),
    {
        match args {
            List::Cons(first, rest) => {
                if is_empty(&rest) && sym_is(&tag, "len") {
                    let base = self.autoderef(first);
                    return self.len_expr(base, ty);
                }
                if is_empty(&rest) && sym_is(&tag, "cast") {
                    match self.dyn_cast_target(&first, &ty) {
                        Some(concrete) => {
                            return self.derived_expr(
                                first.id,
                                ty,
                                ExprKind::DynCast { value: Box::new(first), concrete: concrete },
                            );
                        },
                        None => {},
                    }
                    return self.expr(
                        env,
                        node,
                        ty,
                        ExprKind::Intrinsic { name: tag, args: Box::new(List::Cons(first, rest)) },
                    );
                }
                self.expr(
                    env,
                    node,
                    ty,
                    ExprKind::Intrinsic { name: tag, args: Box::new(List::Cons(first, rest)) },
                )
            },
            List::Nil => self.expr(
                env,
                node,
                ty,
                ExprKind::Intrinsic { name: tag, args: Box::new(List::Nil) },
            ),
        }
    }

    /// Lower a call's argument slots, filling each one the call left out with the
    /// callee's default for that position. A caller's location is built from the
    /// call; a slot with no default behind it is an error node with no span.
    pub fn lower_args(
        &mut self,
        env: &LowerCx,
        callee: Option<DefId>,
        slots: &List<Option<NodeId>>,
        i: u64,
        at: NodeId,
        fuel: u64,
    ) -> (r: List<Expr>)
        ensures
            (final(self)@, r) == lower_args_spec(old(self)@, env, callee, slots, i, at, fuel),
            final(self)@.deep || crate::placing::all_known(final(self)@, r),
            crate::placing::kept(old(self)@, final(self)@),
        decreases fuel, slots,
    {
        if fuel == 0 {
            self.give_up();
            return List::Nil;
        }
        match slots {
            List::Nil => List::Nil,
            List::Cons(slot, rest) => {
                let e = match slot {
                    Some(a) => self.lower_expr(env, *a, (fuel - 1) as u64),
                    None => if default_is_caller_location(env.tables, callee, i) {
                        self.caller_location(env, at)
                    } else {
                        let d = match callee {
                            Some(c) => self.param_default(env, c, i, (fuel - 1) as u64),
                            None => None,
                        };
                        match d {
                            Some(e) => {
                                self.note_default(e.id);
                                e
                            },
                            None => self.missing_arg(),
                        }
                    },
                };
                let others = self.lower_args(env, callee, rest, succ(i), at, fuel);
                List::Cons(e, Box::new(others))
            },
        }
    }

    /// An argument nothing supplies.
    pub fn missing_arg(&mut self) -> (r: Expr)
        ensures
            (final(self)@, r) == missing_arg_spec(old(self)@),
            final(self)@.deep || crate::placing::known(final(self)@, r.id.0),
            crate::placing::kept(old(self)@, final(self)@),
    {
        proof {
            reveal(crate::placing::kept);
            reveal(crate::placing::known);
        }
        let id = self.fresh();
        self.note_missing(id);
        self.set_ty(id, Ty::Error);
        Expr { id: id, kind: ExprKind::Error }
    }

    /// The location value for a call: an ordinary construction of three literals.
    pub fn caller_location(&mut self, env: &LowerCx, at: NodeId) -> (r: Expr)
        ensures
            (final(self)@, r) == caller_location_spec(old(self)@, env, at),
            final(self)@.deep || crate::placing::known(final(self)@, r.id.0),
            crate::placing::kept(old(self)@, final(self)@),
    {
        match lang_def(env.tables, "location") {
            Some(def) => {
                let (file, span) = span_of(env.tables, self.file, at);
                let (name, line, column) = match source_of(env.tables, file) {
                    Some(src) => {
                        let (l, c) = line_col(&src.line_starts, span.start);
                        (dup_text(&src.name), l, c)
                    },
                    None => (List::Nil, 0, 0),
                };
                let str_ty = match lang_ty(env.tables, "str") {
                    Some(t) => t,
                    None => Ty::Error,
                };
                let file_lit = self.expr(env, at, str_ty, ExprKind::Lit(Lit::Str(name)));
                let line_lit = self.expr(env, at, int_ty(32, false), ExprKind::Lit(Lit::Int(int_of(line))));
                let column_lit = self.expr(
                    env,
                    at,
                    int_ty(32, false),
                    ExprKind::Lit(Lit::Int(int_of(column))),
                );
                self.expr(
                    env,
                    at,
                    nominal(def),
                    ExprKind::Construct {
                        def: Some(def),
                        fields: Box::new(
                            list3(
                                (sym("file"), file_lit),
                                (sym("line"), line_lit),
                                (sym("column"), column_lit),
                            ),
                        ),
                    },
                )
            },
            _ => {
                self.expr(env, at, Ty::Error, ExprKind::Error)
            },
        }
    }

    /// Lower each filled slot of a list.
    pub fn lower_slots(
        &mut self,
        env: &LowerCx,
        l: &List<Option<NodeId>>,
        fuel: u64,
    ) -> (r: List<Option<Expr>>)
        ensures
            (final(self)@, r) == lower_slots_spec(old(self)@, env, l, fuel),
            crate::placing::kept(old(self)@, final(self)@),
        decreases fuel, l,
    {
        if fuel == 0 {
            self.give_up();
            return List::Nil;
        }
        match l {
            List::Nil => List::Nil,
            List::Cons(h, t) => {
                let a = self.lower_opt_expr(env, *h, (fuel - 1) as u64);
                let rest = self.lower_slots(env, t, fuel);
                List::Cons(a, Box::new(rest))
            },
        }
    }

    /// Lower defaults in the file that declares them: that is where their nodes are,
    /// and the facts about those.
    pub fn lower_slots_of(
        &mut self,
        env: &LowerCx,
        file: FileId,
        slots: &List<Option<NodeId>>,
        fuel: u64,
    ) -> (r: List<Option<Expr>>)
        ensures
            (final(self)@, r) == lower_slots_of_spec(old(self)@, env, file, slots, fuel),
            crate::placing::kept(old(self)@, final(self)@),
        decreases fuel,
    {
        if fuel == 0 {
            self.give_up();
            return List::Nil;
        }
        let ghost around = self@;
        let saved = self.file;
        self.file = file;
        let lowered = self.lower_slots(env, slots, (fuel - 1) as u64);
        proof {
            crate::placing::kept_in_another_file(around, file, self@);
        }
        self.file = saved;
        lowered
    }

    /// The lowered default of a value parameter: the cached one, the recorded one,
    /// or the one written at the declaration, lowered there and cached.
    pub fn param_default(&mut self, env: &LowerCx, def: DefId, i: u64, fuel: u64) -> (r: Option<Expr>)
        ensures
            (final(self)@, r) == param_default_spec(old(self)@, env, def, i, fuel),
            crate::placing::kept(old(self)@, final(self)@),
        decreases fuel,
    {
        if fuel == 0 {
            self.give_up();
            return None;
        }
        match self.cached_default(def, i) {
            Some(cached) => {
                return cached;
            },
            None => {},
        }
        match recorded_default(env.tables, def, i) {
            Some(ParamDefault::Value(id)) => {
                return self.default_value(id);
            },
            _ => {},
        }
        match func_of(env.tables, def) {
            Some((file, _)) => {
                match param_default_nodes(env.tables, def) {
                    Some(slots) => {
                        let lowered = self.lower_slots_of(env, file, &slots, (fuel - 1) as u64);
                        let out = match nth(&lowered, i) {
                            Some(e) => dup_opt_expr(e),
                            None => None,
                        };
                        self.cache_defaults(def, lowered);
                        out
                    },
                    _ => {
                        None
                    },
                }
            },
            _ => {
                None
            },
        }
    }

    /// A read off the spread value for every field the literal did not write, in
    /// declaration order.
    pub fn fill_from_spread(
        &mut self,
        env: &LowerCx,
        spread: NodeId,
        def: DefId,
        names: &List<Symbol>,
        written: &List<(Symbol, Expr)>,
        fuel: u64,
    ) -> (r: List<(Symbol, Expr)>)
        ensures
            (final(self)@, r) == fill_from_spread_spec(old(self)@, env, spread, def, names, written, fuel),
            crate::placing::kept(old(self)@, final(self)@),
        decreases fuel, names,
    {
        if fuel == 0 {
            self.give_up();
            return List::Nil;
        }
        match names {
            List::Nil => List::Nil,
            List::Cons(name, rest) => if has_field(written, name) {
                self.fill_from_spread(env, spread, def, rest, written, fuel)
            } else {
                let base = self.lower_expr(env, spread, (fuel - 1) as u64);
                let field = field_def(env.tables, def, name);
                let fty = field_ty_of(env, def, name);
                let read = self.expr(
                    env,
                    spread,
                    fty,
                    ExprKind::Field { base: Box::new(base), name: dup_sym(name), def: field },
                );
                let others = self.fill_from_spread(env, spread, def, rest, written, fuel);
                List::Cons((dup_sym(name), read), Box::new(others))
            },
        }
    }

    /// The struct a call constructs, when its callee names a type. It is the one
    /// the call's type settled on.
    pub fn construct_target(&self, env: &LowerCx, callee: NodeId, ty: &Ty) -> (r: Option<DefId>)
        ensures
            r == construct_target_spec(self@, env, callee, ty),
    {
        match kind_of(env.tables, self.file, callee) {
            Some(NodeKind::Path { .. }) => match self.resolved_def(env, callee) {
                Some(def) => if def_kind(env.tables, def) == DefKind::Struct {
                    match ty {
                        Ty::Nominal { def: d, args: _ } => Some(*d),
                        _ => None,
                    }
                } else {
                    None
                },
                None => None,
            },
            _ => None,
        }
    }

    /// `f.call(t)`: a call of `f` itself, whose one argument is a tuple to spread.
    pub fn lower_func_call_method(
        &mut self,
        env: &LowerCx,
        node: NodeId,
        callee: NodeId,
        m: FuncCallMethod,
        args: &List<NodeId>,
        ty: Ty,
        fuel: u64,
    ) -> (r: Expr)
        ensures
            (final(self)@, r) == lower_func_call_method_spec(
                old(self)@,
                env,
                node,
                callee,
                m,
                args,
                ty,
                fuel,
            ),
            final(self)@.deep || crate::placing::known(final(self)@, r.id.0),
            crate::placing::kept(old(self)@, final(self)@),
        decreases fuel,
    {
        if fuel == 0 {
            self.give_up();
            return no_expr();
        }
        match kind_of(env.tables, self.file, callee) {
            Some(NodeKind::FieldAccess { base, name: _ }) => {
                let value = self.lower_expr(env, *base, (fuel - 1) as u64);
                let value = if m.deref {
                    self.autoderef(value)
                } else {
                    value
                };
                let dispatch = match self.ty_of(&value) {
                    Ty::Func { .. } => Dispatch::Static,
                    self_ty => Dispatch::Func { self_ty: self_ty },
                };
                let lowered = self.lower_args(env, None, &written_slots(args), 0, node, (fuel - 1) as u64);
                let call = self.expr(
                    env,
                    node,
                    ty,
                    ExprKind::Call {
                        callee: Box::new(value),
                        args: Box::new(lowered),
                        builtin: None,
                        dispatch: dispatch,
                    },
                );
                self.set_spread_args(call.id);
                call
            },
            _ => {
                self.expr(env, node, ty, ExprKind::Error)
            },
        }
    }

    /// The types of a list of expressions.
    pub fn types_of(&self, l: &List<Expr>) -> (r: List<Ty>)
        ensures
            r == types_of_spec(self@, l),
        decreases l,
    {
        match l {
            List::Nil => List::Nil,
            List::Cons(h, t) => List::Cons(self.ty_of(h), Box::new(self.types_of(t))),
        }
    }

    /// Lower `recv.m(args)` by the resolution inference recorded. The receiver is
    /// the first argument, with the adjustment its `self` parameter asked for
    /// written out.
    pub fn lower_method_call(
        &mut self,
        env: &LowerCx,
        node: NodeId,
        callee: NodeId,
        res: &MethodRes,
        args: &List<NodeId>,
        ty: Ty,
        fuel: u64,
    ) -> (r: Expr)
        ensures
            (final(self)@, r) == lower_method_call_spec(old(self)@, env, node, callee, res, args, ty, fuel),
            final(self)@.deep || crate::placing::known(final(self)@, r.id.0),
            crate::placing::kept(old(self)@, final(self)@),
        decreases fuel,
    {
        if fuel == 0 {
            self.give_up();
            return no_expr();
        }
        match kind_of(env.tables, self.file, callee) {
            Some(NodeKind::FieldAccess { base, name: _ }) => {
                let slots = self.call_slots(env, callee, args);
                let own = self.ty(env, callee);
                let distinct = fact_distinct_recv(env.facts, self.file, *base);
                let recv = self.lower_expr(env, *base, (fuel - 1) as u64);
                let recv = match distinct {
                    Some(d) => {
                        // The same bits, read as the representation the method is written
                        // over.
                        let cast = self.expr(
                            env,
                            *base,
                            dup_ty(&d.repr),
                            ExprKind::Intrinsic { name: sym("cast"), args: Box::new(single(recv)) },
                        );
                        self.set_implicit_cast(cast.id);
                        cast
                    },
                    None => recv,
                };
                let first = self.adjust_recv(recv, res.adjust, &res.self_ty);
                let lowered = self.lower_args(env, Some(res.method), &slots, 0, node, (fuel - 1) as u64);
                let call_args = List::Cons(first, Box::new(lowered));
                match intrinsic_of(env.tables, res.method) {
                    Some(tag) => {
                        return self.lower_intrinsic(env, node, tag, call_args, ty);
                    },
                    None => {},
                }
                let callee_ty = match own {
                    Ty::Func { params, ret, c } => Ty::Func { params: params, ret: ret, c: c },
                    _ => Ty::Func {
                        params: Box::new(self.types_of(&call_args)),
                        ret: Box::new(dup_ty(&ty)),
                        c: false,
                    },
                };
                let dispatch = method_dispatch(res);
                let target = self.expr(env, callee, callee_ty, ExprKind::Global(res.method));
                let call = self.expr(
                    env,
                    node,
                    ty,
                    ExprKind::Call {
                        callee: Box::new(target),
                        args: Box::new(call_args),
                        builtin: None,
                        dispatch: dispatch,
                    },
                );
                self.carry_instantiation(env, callee, call.id);
                call
            },
            _ => {
                self.expr(env, node, ty, ExprKind::Error)
            },
        }
    }

    /// Carry a call's generic arguments across to the lowered call, unless the
    /// solver pointed the callee at an impl member with parameters of its own.
    pub fn carry_instantiation(&mut self, env: &LowerCx, head: NodeId, call: IrId)
        ensures
            final(self)@ == carry_instantiation_spec(old(self)@, env, head, call),
            crate::placing::kept(old(self)@, final(self)@),
    {
        if !self.redirected_to_impl(env, head) {
            match fact_instantiation(env.facts, self.file, head) {
                Some(inst) => {
                    self.set_instantiation(call, dup_instantiation(inst));
                },
                None => {},
            }
        }
    }

    /// Whether the solver pointed a callee at an impl member other than the
    /// declaration its name resolved to.
    pub fn redirected_to_impl(&self, env: &LowerCx, head: NodeId) -> (r: bool)
        ensures
            r == redirected_to_impl_spec(self@, env, head),
    {
        match fact_op_resolution(env.facts, self.file, head) {
            Some(res) => self.resolved_def(env, head) != Some(res.method),
            None => false,
        }
    }

    /// Lower an operator to a call of its method, typed from the lowered arguments.
    pub fn op_call(
        &mut self,
        env: &LowerCx,
        node: NodeId,
        res: OpResolution,
        args: List<Expr>,
        ty: Ty,
    ) -> (r: Expr)
        ensures
            (final(self)@, r) == op_call_spec(old(self)@, env, node, res, args, ty),
            old(self)@.deep
                || crate::placing::all_known(old(self)@, args) ==> final(self)@.deep
                || crate::placing::known(final(self)@, r.id.0),
            old(self)@.deep
                || crate::placing::all_known(old(self)@, args) ==> crate::placing::kept(old(self)@, final(self)@),
    {
        match intrinsic_of(env.tables, res.method) {
            Some(tag) => {
                return self.lower_intrinsic(env, node, tag, args, ty);
            },
            None => {},
        }
        let callee_ty = Ty::Func {
            params: Box::new(self.types_of(&args)),
            ret: Box::new(dup_ty(&ty)),
            c: false,
        };
        let callee = self.expr(env, node, callee_ty, ExprKind::Global(res.method));
        self.expr(
            env,
            node,
            ty,
            ExprKind::Call {
                callee: Box::new(callee),
                args: Box::new(args),
                builtin: res.builtin,
                dispatch: Dispatch::Static,
            },
        )
    }

    /// Lower a comparison that resolved to a user impl: equality is the method
    /// itself, inequality its negation, and the four relations test the ordering
    /// one method returns.
    pub fn lower_comparison(
        &mut self,
        env: &LowerCx,
        node: NodeId,
        res: OpResolution,
        op: BinOp,
        lhs: NodeId,
        rhs: NodeId,
        fuel: u64,
    ) -> (r: Expr)
        ensures
            (final(self)@, r) == lower_comparison_spec(old(self)@, env, node, res, op, lhs, rhs, fuel),
            final(self)@.deep || crate::placing::known(final(self)@, r.id.0),
            crate::placing::kept(old(self)@, final(self)@),
        decreases fuel,
    {
        if fuel == 0 {
            self.give_up();
            return no_expr();
        }
        let l = self.lower_expr(env, lhs, (fuel - 1) as u64);
        let r = self.lower_expr(env, rhs, (fuel - 1) as u64);
        let args = list2(l, r);
        if op == BinOp::Eq {
            return self.op_call(env, node, res, args, Ty::Bool);
        }
        if op == BinOp::Ne {
            let call = self.op_call(env, node, res, args, Ty::Bool);
            return self.expr(env, node, Ty::Bool, ExprKind::Unary { op: UnOp::Not, operand: Box::new(call) });
        }
        let ordering = match lang_ty(env.tables, "ordering") {
            Some(t) => t,
            None => Ty::Error,
        };
        let call = self.op_call(env, node, res, args, ordering);
        let (variant, hit) = relation_test(op);
        let hit_id = self.id(env, node);
        let hit_pat = self.pat(env, node, PatternKind::Variant { name: variant, sub: Box::new(List::Nil) });
        let hit_body = self.expr(env, node, Ty::Bool, ExprKind::Lit(Lit::Bool(hit)));
        let miss_id = self.id(env, node);
        let miss_pat = self.pat(env, node, PatternKind::Wildcard);
        let miss_body = self.expr(env, node, Ty::Bool, ExprKind::Lit(Lit::Bool(!hit)));
        let arms = list2(
            Arm { id: hit_id, pattern: hit_pat, guard: None, body: hit_body },
            Arm { id: miss_id, pattern: miss_pat, guard: None, body: miss_body },
        );
        self.expr(env, node, Ty::Bool, ExprKind::Match { scrutinee: Box::new(call), arms: Box::new(arms) })
    }

    /// Lower `a[i]`: the trait method takes the container by pointer and hands back
    /// a pointer to the element, so it is `index(&a, i).*`.
    pub fn lower_index_call(
        &mut self,
        env: &LowerCx,
        node: NodeId,
        res: OpResolution,
        base: NodeId,
        index: NodeId,
        ty: Ty,
        fuel: u64,
    ) -> (r: Expr)
        ensures
            (final(self)@, r) == lower_index_call_spec(old(self)@, env, node, res, base, index, ty, fuel),
            final(self)@.deep || crate::placing::known(final(self)@, r.id.0),
            crate::placing::kept(old(self)@, final(self)@),
        decreases fuel,
    {
        if fuel == 0 {
            self.give_up();
            return no_expr();
        }
        let by_trait = lang_def(env.tables, "index_mut") == Some(res.trait_def);
        let written = fact_index_write(env.facts, self.file, node).is_some();
        let b = self.lower_expr(env, base, (fuel - 1) as u64);
        let recv_ty = self.ty_of(&b);
        let seq = pointee(&recv_ty);
        let mutable = index_mutable(&seq, written, by_trait);
        // The receiver is only read, even where an element is written.
        let recv_mut = mutable && !is_sequence(&seq);
        let recv = match recv_ty {
            Ty::Ptr { .. } => b,
            other => self.expr(
                env,
                base,
                Ty::Ptr { mutable: recv_mut, inner: Box::new(other) },
                ExprKind::Ref { mutable: recv_mut, place: Box::new(b) },
            ),
        };
        let i = self.lower_expr(env, index, (fuel - 1) as u64);
        let elem_ptr = Ty::Ptr { mutable: mutable, inner: Box::new(dup_ty(&ty)) };
        let call = self.op_call(env, node, res, list2(recv, i), elem_ptr);
        self.expr(env, node, ty, ExprKind::Deref { base: Box::new(call) })
    }

    /// `while cond { body }`, as `loop { if !cond { break }; body }`.
    pub fn lower_while(
        &mut self,
        env: &LowerCx,
        node: NodeId,
        cond: NodeId,
        body: NodeId,
        ty: Ty,
        fuel: u64,
    ) -> (r: Expr)
        ensures
            (final(self)@, r) == lower_while_spec(old(self)@, env, node, cond, body, ty, fuel),
            final(self)@.deep || crate::placing::known(final(self)@, r.id.0),
            crate::placing::kept(old(self)@, final(self)@),
        decreases fuel,
    {
        if fuel == 0 {
            self.give_up();
            return no_expr();
        }
        let c = self.lower_expr(env, cond, (fuel - 1) as u64);
        let not_cond = self.expr(
            env,
            cond,
            Ty::Bool,
            ExprKind::Unary { op: UnOp::Not, operand: Box::new(c) },
        );
        // The guard and its `break` are nothing the source wrote: they take the
        // condition's span.
        let break_id = self.id(env, cond);
        self.set_ty(break_id, Ty::Void);
        let break_stmt = self.stmt(env, cond, StmtKind::Break(None));
        let break_block = Block { id: break_id, stmts: Box::new(single(break_stmt)), tail: None };
        let guard_if = self.expr(
            env,
            cond,
            Ty::Void,
            ExprKind::If { cond: Box::new(not_cond), then: Box::new(break_block), els: None },
        );
        let guard = self.stmt(env, cond, StmtKind::Expr(guard_if));
        let b = self.lower_block(env, body, (fuel - 1) as u64);
        let id = b.id;
        // A loop body yields nothing: its tail becomes a statement.
        let stmts = match b.tail {
            Some(tail) => {
                let tail_id = self.derived(tail.id);
                append(*b.stmts, single(Stmt { id: tail_id, kind: StmtKind::Expr(*tail) }))
            },
            None => *b.stmts,
        };
        self.set_ty(id, Ty::Void);
        let block = Block { id: id, stmts: Box::new(List::Cons(guard, Box::new(stmts))), tail: None };
        self.expr(env, node, ty, ExprKind::Loop { body: Box::new(block) })
    }

    /// Lower each argument of a record.
    pub fn lower_record_args(&mut self, env: &LowerCx, l: &List<NodeId>, fuel: u64) -> (r: List<Expr>)
        ensures
            (final(self)@, r) == lower_record_args_spec(old(self)@, env, l, fuel),
            final(self)@.deep || crate::placing::all_known(final(self)@, r),
            crate::placing::kept(old(self)@, final(self)@),
        decreases fuel, l,
    {
        if fuel == 0 {
            self.give_up();
            return List::Nil;
        }
        match l {
            List::Nil => List::Nil,
            List::Cons(h, t) => {
                let a = self.lower_record_arg(env, *h, (fuel - 1) as u64);
                let rest = self.lower_record_args(env, t, fuel);
                List::Cons(a, Box::new(rest))
            },
        }
    }

    /// One entry of a record variant literal.
    pub fn lower_record_arg(&mut self, env: &LowerCx, f: NodeId, fuel: u64) -> (r: Expr)
        ensures
            (final(self)@, r) == lower_record_arg_spec(old(self)@, env, f, fuel),
            final(self)@.deep || crate::placing::known(final(self)@, r.id.0),
            crate::placing::kept(old(self)@, final(self)@),
        decreases fuel,
    {
        if fuel == 0 {
            self.give_up();
            return no_expr();
        }
        match kind_of(env.tables, self.file, f) {
            Some(NodeKind::FieldInit { name: _, value }) => self.lower_expr(env, *value, (fuel - 1) as u64),
            _ => self.lower_expr(env, f, (fuel - 1) as u64),
        }
    }

    /// The payload of a variant literal.
    pub fn lower_variant_args(&mut self, env: &LowerCx, args: &VariantArgs, fuel: u64) -> (r: List<Expr>)
        ensures
            (final(self)@, r) == lower_variant_args_spec(old(self)@, env, args, fuel),
            final(self)@.deep || crate::placing::all_known(final(self)@, r),
            crate::placing::kept(old(self)@, final(self)@),
        decreases fuel,
    {
        if fuel == 0 {
            self.give_up();
            return List::Nil;
        }
        match args {
            VariantArgs::Unit => List::Nil,
            VariantArgs::Tuple(ids) => self.lower_exprs(env, ids, (fuel - 1) as u64),
            VariantArgs::Record(ids) => self.lower_record_args(env, ids, (fuel - 1) as u64),
        }
    }

    /// Lower each field of a literal.
    pub fn lower_field_inits(
        &mut self,
        env: &LowerCx,
        l: &List<NodeId>,
        fuel: u64,
    ) -> (r: List<(Symbol, Expr)>)
        ensures
            (final(self)@, r) == lower_field_inits_spec(old(self)@, env, l, fuel),
            crate::placing::kept(old(self)@, final(self)@),
        decreases fuel, l,
    {
        if fuel == 0 {
            self.give_up();
            return List::Nil;
        }
        match l {
            List::Nil => List::Nil,
            List::Cons(h, t) => {
                let a = self.lower_field_init(env, *h, (fuel - 1) as u64);
                let rest = self.lower_field_inits(env, t, fuel);
                match a {
                    Some(x) => List::Cons(x, Box::new(rest)),
                    None => rest,
                }
            },
        }
    }

    /// One named field of a composite literal.
    pub fn lower_field_init(&mut self, env: &LowerCx, f: NodeId, fuel: u64) -> (r: Option<(Symbol, Expr)>)
        ensures
            (final(self)@, r) == lower_field_init_spec(old(self)@, env, f, fuel),
            crate::placing::kept(old(self)@, final(self)@),
        decreases fuel,
    {
        if fuel == 0 {
            self.give_up();
            return None;
        }
        match kind_of(env.tables, self.file, f) {
            Some(NodeKind::FieldInit { name, value }) => {
                let e = self.lower_expr(env, *value, (fuel - 1) as u64);
                Some((dup_sym(name), e))
            },
            _ => None,
        }
    }

    /// Lower a composite literal to the construct its type calls for.
    pub fn lower_composite(
        &mut self,
        env: &LowerCx,
        node: NodeId,
        body: &CompositeBody,
        ty: Ty,
        fuel: u64,
    ) -> (r: Expr)
        ensures
            (final(self)@, r) == lower_composite_spec(old(self)@, env, node, body, ty, fuel),
            final(self)@.deep || crate::placing::known(final(self)@, r.id.0),
            crate::placing::kept(old(self)@, final(self)@),
        decreases fuel,
    {
        if fuel == 0 {
            self.give_up();
            return no_expr();
        }
        match body {
            CompositeBody::Named { fields, spread } => {
                let lowered = self.lower_field_inits(env, fields, (fuel - 1) as u64);
                match &ty {
                    Ty::Nominal { def, args: _ } => {
                        let def = *def;
                        let extra = match spread {
                            Some(s) => {
                                let names = record_field_names(env.tables, def);
                                self.fill_from_spread(env, *s, def, &names, &lowered, (fuel - 1) as u64)
                            },
                            None => List::Nil,
                        };
                        self.expr(
                            env,
                            node,
                            ty,
                            ExprKind::Construct { def: Some(def), fields: Box::new(append(lowered, extra)) },
                        )
                    },
                    Ty::Struct(_) => self.expr(
                        env,
                        node,
                        ty,
                        ExprKind::Construct { def: None, fields: Box::new(lowered) },
                    ),
                    _ => self.expr(env, node, ty, ExprKind::Error),
                }
            },
            CompositeBody::Positional(elems) => {
                let es = self.lower_exprs(env, elems, (fuel - 1) as u64);
                match &ty {
                    Ty::Tuple(_) => self.expr(env, node, ty, ExprKind::Tuple { elems: Box::new(es) }),
                    Ty::Nominal { def, args: _ } => {
                        let def = *def;
                        self.expr(
                            env,
                            node,
                            ty,
                            ExprKind::Construct { def: Some(def), fields: Box::new(indexed_fields(es, 0)) },
                        )
                    },
                    Ty::Array { .. } => self.expr(
                        env,
                        node,
                        ty,
                        ExprKind::Intrinsic { name: sym("array"), args: Box::new(es) },
                    ),
                    Ty::Slice { .. } => self.expr(
                        env,
                        node,
                        ty,
                        ExprKind::Intrinsic { name: sym("array"), args: Box::new(es) },
                    ),
                    _ => self.expr(env, node, ty, ExprKind::Error),
                }
            },
            CompositeBody::Repeat { value, count } => {
                let v = self.lower_expr(env, *value, (fuel - 1) as u64);
                let c = self.lower_expr(env, *count, (fuel - 1) as u64);
                self.expr(
                    env,
                    node,
                    ty,
                    ExprKind::Intrinsic { name: sym("repeat"), args: Box::new(list2(v, c)) },
                )
            },
        }
    }

    /// Lower each arm of a match.
    pub fn lower_match_arms(&mut self, env: &LowerCx, l: &List<NodeId>, fuel: u64) -> (r: List<Arm>)
        ensures
            (final(self)@, r) == lower_match_arms_spec(old(self)@, env, l, fuel),
            crate::placing::kept(old(self)@, final(self)@),
        decreases fuel, l,
    {
        if fuel == 0 {
            self.give_up();
            return List::Nil;
        }
        match l {
            List::Nil => List::Nil,
            List::Cons(h, t) => {
                let a = self.lower_match_arm(env, *h, (fuel - 1) as u64);
                let rest = self.lower_match_arms(env, t, fuel);
                match a {
                    Some(x) => List::Cons(x, Box::new(rest)),
                    None => rest,
                }
            },
        }
    }

    /// Lower one arm.
    pub fn lower_match_arm(&mut self, env: &LowerCx, node: NodeId, fuel: u64) -> (r: Option<Arm>)
        ensures
            (final(self)@, r) == lower_match_arm_spec(old(self)@, env, node, fuel),
            crate::placing::kept(old(self)@, final(self)@),
        decreases fuel,
    {
        if fuel == 0 {
            self.give_up();
            return None;
        }
        match kind_of(env.tables, self.file, node) {
            Some(NodeKind::MatchArm { pattern, guard, body }) => {
                let id = self.id(env, node);
                let p = self.lower_pattern(env, *pattern, (fuel - 1) as u64);
                let g = self.lower_opt_expr(env, *guard, (fuel - 1) as u64);
                let b = self.lower_expr(env, *body, (fuel - 1) as u64);
                Some(Arm { id: id, pattern: p, guard: g, body: b })
            },
            _ => {
                None
            },
        }
    }

    /// Lower each pattern of a list.
    pub fn lower_patterns(&mut self, env: &LowerCx, l: &List<NodeId>, fuel: u64) -> (r: List<Pattern>)
        ensures
            (final(self)@, r) == lower_patterns_spec(old(self)@, env, l, fuel),
            crate::placing::kept(old(self)@, final(self)@),
        decreases fuel, l,
    {
        if fuel == 0 {
            self.give_up();
            return List::Nil;
        }
        match l {
            List::Nil => List::Nil,
            List::Cons(h, t) => {
                let a = self.lower_pattern(env, *h, (fuel - 1) as u64);
                let rest = self.lower_patterns(env, t, fuel);
                List::Cons(a, Box::new(rest))
            },
        }
    }

    /// A binding of a node's own name, or a wildcard where it declares nothing.
    pub fn binding_kind(&self, env: &LowerCx, node: NodeId, name: &Symbol) -> (r: PatternKind)
        ensures
            r == binding_kind_spec(self@, env, node, name),
    {
        match self.def_of(env, node) {
            Some(def) => PatternKind::Binding { def: def, name: dup_sym(name) },
            None => PatternKind::Wildcard,
        }
    }

    /// Lower a pattern.
    pub fn lower_pattern(&mut self, env: &LowerCx, node: NodeId, fuel: u64) -> (r: Pattern)
        ensures
            (final(self)@, r) == lower_pattern_spec(old(self)@, env, node, fuel),
            crate::placing::kept(old(self)@, final(self)@),
        decreases fuel,
    {
        if fuel == 0 {
            self.give_up();
            return no_pattern();
        }
        match self.unbound_at(env, node) {
            Some(inner) => {
                return self.lower_pattern(env, inner, (fuel - 1) as u64);
            },
            None => {},
        }
        let own = self.def_of(env, node);
        let kind = match kind_of(env.tables, self.file, node) {
            Some(NodeKind::BindingPat { name }) => self.binding_kind(env, node, name),
            Some(NodeKind::LitPat(lit)) => PatternKind::Lit(dup_lit(lit)),
            Some(NodeKind::VariantPat { name, args }) => {
                let sub = self.lower_variant_pat_args(env, args, (fuel - 1) as u64);
                PatternKind::Variant { name: dup_sym(name), sub: Box::new(sub) }
            },
            Some(NodeKind::TuplePat { elems }) => {
                let es = self.lower_patterns(env, elems, (fuel - 1) as u64);
                PatternKind::Tuple(Box::new(es))
            },
            Some(NodeKind::OrPat { alternatives }) => {
                let alts = self.lower_patterns(env, alternatives, (fuel - 1) as u64);
                PatternKind::Or(Box::new(alts))
            },
            Some(NodeKind::AtPat { name, pattern }) => match own {
                Some(def) => {
                    let id = self.id(env, node);
                    let p = self.lower_pattern(env, *pattern, (fuel - 1) as u64);
                    PatternKind::At {
                        binding: Binding { id: id, def: def, name: dup_sym(name) },
                        pattern: Box::new(p),
                    }
                },
                None => PatternKind::Wildcard,
            },
            Some(NodeKind::RefPat { pattern }) => {
                let p = self.lower_pattern(env, *pattern, (fuel - 1) as u64);
                PatternKind::Deref(Box::new(p))
            },
            Some(NodeKind::StructPat { path, fields, rest }) => {
                let def = match path {
                    Some(p) => self.resolved_def(env, *p),
                    None => None,
                };
                let fs = self.lower_field_pats(env, fields, (fuel - 1) as u64);
                PatternKind::Struct { def: def, fields: Box::new(fs), rest: *rest }
            },
            Some(NodeKind::TupleStructPat { path, elems, rest }) => {
                let def = self.resolved_def(env, *path);
                let es = self.lower_patterns(env, elems, (fuel - 1) as u64);
                PatternKind::TupleStruct { def: def, elems: Box::new(es), rest: *rest }
            },
            Some(NodeKind::SlicePat { elems, rest }) => {
                // The `..` splits the elements into those matched from the front
                // and those matched from the back.
                let at = match rest {
                    Some(r) => r.at,
                    None => list_len(elems),
                };
                let lowered = self.lower_patterns(env, elems, (fuel - 1) as u64);
                let (prefix, suffix) = split_patterns(lowered, at);
                let bound = match rest {
                    Some(r) => match (&r.name, own) {
                        (Some(name), Some(def)) => {
                            let id = self.id(env, node);
                            Some(Some(Binding { id: id, def: def, name: dup_sym(name) }))
                        },
                        _ => Some(None),
                    },
                    None => None,
                };
                PatternKind::Slice { prefix: Box::new(prefix), rest: bound, suffix: Box::new(suffix) }
            },
            Some(NodeKind::RangePat { start, end, kind }) => PatternKind::Range {
                start: self.opt_lit_of(env, *start),
                end: self.opt_lit_of(env, *end),
                inclusive: *kind == RangeKind::Closed,
            },
            _ => PatternKind::Wildcard,
        };
        self.pat(env, node, kind)
    }

    /// The pattern under a name that declares nothing.
    pub fn unbound_at(&self, env: &LowerCx, node: NodeId) -> (r: Option<NodeId>)
        ensures
            r == unbound_at_spec(self@, env, node),
    {
        match kind_of(env.tables, self.file, node) {
            Some(NodeKind::AtPat { name: _, pattern }) => match self.def_of(env, node) {
                Some(_) => None,
                None => Some(*pattern),
            },
            _ => None,
        }
    }

    /// Lower each field of a pattern.
    pub fn lower_field_pats(
        &mut self,
        env: &LowerCx,
        l: &List<NodeId>,
        fuel: u64,
    ) -> (r: List<(Symbol, Pattern)>)
        ensures
            (final(self)@, r) == lower_field_pats_spec(old(self)@, env, l, fuel),
            crate::placing::kept(old(self)@, final(self)@),
        decreases fuel, l,
    {
        if fuel == 0 {
            self.give_up();
            return List::Nil;
        }
        match l {
            List::Nil => List::Nil,
            List::Cons(h, t) => {
                let a = self.lower_field_pat(env, *h, (fuel - 1) as u64);
                let rest = self.lower_field_pats(env, t, fuel);
                match a {
                    Some(x) => List::Cons(x, Box::new(rest)),
                    None => rest,
                }
            },
        }
    }

    /// Lower one field of a struct pattern; the shorthand binds the field under its
    /// own name.
    pub fn lower_field_pat(&mut self, env: &LowerCx, f: NodeId, fuel: u64) -> (r: Option<(Symbol, Pattern)>)
        ensures
            (final(self)@, r) == lower_field_pat_spec(old(self)@, env, f, fuel),
            crate::placing::kept(old(self)@, final(self)@),
        decreases fuel,
    {
        if fuel == 0 {
            self.give_up();
            return None;
        }
        match kind_of(env.tables, self.file, f) {
            Some(NodeKind::FieldPat { name, pattern }) => {
                let sub = match pattern {
                    Some(p) => self.lower_pattern(env, *p, (fuel - 1) as u64),
                    None => self.pat(env, f, self.binding_kind(env, f, name)),
                };
                Some((dup_sym(name), sub))
            },
            _ => {
                None
            },
        }
    }

    /// The literal a range pattern's bound names, if it is one.
    pub fn lit_of(&self, env: &LowerCx, node: NodeId) -> (r: Option<Lit>)
        ensures
            r == lit_of_spec(self@, env, node),
    {
        match kind_of(env.tables, self.file, node) {
            Some(NodeKind::LitPat(l)) => Some(dup_lit(l)),
            Some(NodeKind::Lit(l)) => Some(dup_lit(l)),
            _ => None,
        }
    }

    /// The literal a bound that may be absent names.
    pub fn opt_lit_of(&self, env: &LowerCx, node: Option<NodeId>) -> (r: Option<Lit>)
        ensures
            r == opt_lit_of_spec(self@, env, node),
    {
        match node {
            Some(n) => self.lit_of(env, n),
            None => None,
        }
    }

    /// Lower each field of a record pattern.
    pub fn lower_record_pats(&mut self, env: &LowerCx, l: &List<NodeId>, fuel: u64) -> (r: List<Pattern>)
        ensures
            (final(self)@, r) == lower_record_pats_spec(old(self)@, env, l, fuel),
            crate::placing::kept(old(self)@, final(self)@),
        decreases fuel, l,
    {
        if fuel == 0 {
            self.give_up();
            return List::Nil;
        }
        match l {
            List::Nil => List::Nil,
            List::Cons(h, t) => {
                let a = self.lower_record_pat(env, *h, (fuel - 1) as u64);
                let rest = self.lower_record_pats(env, t, fuel);
                List::Cons(a, Box::new(rest))
            },
        }
    }

    /// One field of a record variant pattern.
    pub fn lower_record_pat(&mut self, env: &LowerCx, f: NodeId, fuel: u64) -> (r: Pattern)
        ensures
            (final(self)@, r) == lower_record_pat_spec(old(self)@, env, f, fuel),
            crate::placing::kept(old(self)@, final(self)@),
        decreases fuel,
    {
        if fuel == 0 {
            self.give_up();
            return no_pattern();
        }
        match kind_of(env.tables, self.file, f) {
            Some(NodeKind::FieldPat { name, pattern }) => match pattern {
                Some(p) => self.lower_pattern(env, *p, (fuel - 1) as u64),
                None => self.pat(env, f, self.binding_kind(env, f, name)),
            },
            _ => self.pat(env, f, PatternKind::Wildcard),
        }
    }

    /// The payload patterns of a variant pattern.
    pub fn lower_variant_pat_args(
        &mut self,
        env: &LowerCx,
        args: &VariantPatArgs,
        fuel: u64,
    ) -> (r: List<Pattern>)
        ensures
            (final(self)@, r) == lower_variant_pat_args_spec(old(self)@, env, args, fuel),
            crate::placing::kept(old(self)@, final(self)@),
        decreases fuel,
    {
        if fuel == 0 {
            self.give_up();
            return List::Nil;
        }
        match args {
            VariantPatArgs::Unit => List::Nil,
            VariantPatArgs::Tuple(ids) => self.lower_patterns(env, ids, (fuel - 1) as u64),
            VariantPatArgs::Record { fields, rest: _ } => self.lower_record_pats(
                env,
                fields,
                (fuel - 1) as u64,
            ),
        }
    }

    /// Lower a name: a captured definition through the closure, a static trait call
    /// to the impl member the solver chose, and anything else to what it resolved
    /// to.
    pub fn lower_name(&mut self, env: &LowerCx, node: NodeId, ty: Ty) -> (r: Expr)
        ensures
            (final(self)@, r) == lower_name_spec(old(self)@, env, node, ty),
            final(self)@.deep || crate::placing::known(final(self)@, r.id.0),
            crate::placing::kept(old(self)@, final(self)@),
    {
        let def = self.resolved_def(env, node);
        let seen = match def {
            Some(d) => self.captured(env, node, d, &ty),
            None => None,
        };
        match seen {
            Some(e) => e,
            None => match (fact_op_resolution(env.facts, self.file, node), def) {
                (Some(res), _) => self.global_or_local(env, node, res.method, ty),
                (None, Some(d)) => self.global_or_local(env, node, d, ty),
                (None, None) => self.expr(env, node, ty, ExprKind::Error),
            },
        }
    }

    /// How the innermost closure reaches a definition it captured: its own
    /// parameter, that parameter's type, and the member.
    pub fn capture_of(&self, def: DefId) -> (r: Option<(DefId, Ty, (Symbol, Ty, bool))>)
        ensures
            r == capture_of_spec(self@, def),
    {
        match &self.closures {
            List::Nil => None,
            List::Cons(cx, _) => match find_capture(&cx.fields, def) {
                Some(m) => Some((cx.this, dup_ty(&cx.this_ty), m)),
                None => None,
            },
        }
    }

    /// A use of a captured definition: the closure's member, read through the
    /// closure, and for a shared local through the pointer the member holds.
    pub fn captured(&mut self, env: &LowerCx, node: NodeId, def: DefId, ty: &Ty) -> (r: Option<Expr>)
        ensures
            (final(self)@, r) == captured_spec(old(self)@, env, node, def, ty),
            final(self)@.deep || match r {
                Some(e) => crate::placing::known(final(self)@, e.id.0),
                None => true,
            },
            crate::placing::kept(old(self)@, final(self)@),
    {
        match self.capture_of(def) {
            Some((this, this_ty, m)) => {
                let (name, fty, shared) = m;
                let closure_ty = pointee(&this_ty);
                let this_expr = self.expr(env, node, this_ty, ExprKind::Local(this));
                let base = self.expr(env, node, closure_ty, ExprKind::Deref { base: Box::new(this_expr) });
                let member = self.expr(
                    env,
                    node,
                    fty,
                    ExprKind::Field { base: Box::new(base), name: name, def: None },
                );
                if !shared {
                    return Some(member);
                }
                let read = self.expr(env, node, dup_ty(ty), ExprKind::Deref { base: Box::new(member) });
                Some(read)
            },
            _ => {
                None
            },
        }
    }

    /// A read of a definition where a closure is being made: what the enclosing
    /// code sees it as.
    pub fn use_of(&mut self, env: &LowerCx, node: NodeId, def: DefId, ty: &Ty) -> (r: Expr)
        ensures
            (final(self)@, r) == use_of_spec(old(self)@, env, node, def, ty),
            final(self)@.deep || crate::placing::known(final(self)@, r.id.0),
            crate::placing::kept(old(self)@, final(self)@),
    {
        let seen = self.captured(env, node, def, ty);
        match seen {
            Some(e) => e,
            None => self.global_or_local(env, node, def, dup_ty(ty)),
        }
    }

    /// The copies a closure names: each is its value where the closure is made.
    pub fn capture_copies(&mut self, env: &LowerCx, l: &List<NodeId>, set: CaptureSet) -> (r: CaptureSet)
        ensures
            (final(self)@, r) == capture_copies_spec(old(self)@, env, l, set),
            crate::placing::kept(old(self)@, final(self)@),
        decreases l,
    {
        match l {
            List::Nil => set,
            List::Cons(c, rest) => match (self.def_of(env, *c), self.resolved_def(env, *c)) {
                (Some(inner), Some(outer)) => {
                    let t = self.ty(env, *c);
                    let name = capture_name(&set, &def_name(env.tables, inner));
                    let value = self.use_of(env, *c, outer, &t);
                    let set = add_capture(set, inner, name, t, false, value);
                    self.capture_copies(env, rest, set)
                },
                _ => self.capture_copies(env, rest, set),
            },
        }
    }

    /// The `const` parameters a closure's body reads, copied where the closure is
    /// made.
    pub fn capture_consts(
        &mut self,
        env: &LowerCx,
        l: &List<(NodeId, DefId)>,
        set: CaptureSet,
    ) -> (r: CaptureSet)
        ensures
            (final(self)@, r) == capture_consts_spec(old(self)@, env, l, set),
            crate::placing::kept(old(self)@, final(self)@),
        decreases l,
    {
        match l {
            List::Nil => set,
            List::Cons(h, rest) => {
                let t = self.ty(env, h.0);
                let name = capture_name(&set, &def_name(env.tables, h.1));
                let value = self.use_of(env, h.0, h.1, &t);
                let set = add_capture(set, h.1, name, t, false, value);
                self.capture_consts(env, rest, set)
            },
        }
    }

    /// The locals a closure shares: each is the address of its cell.
    pub fn capture_shared(
        &mut self,
        env: &LowerCx,
        node: NodeId,
        defs: &List<DefId>,
        tys: &List<Ty>,
        set: CaptureSet,
    ) -> (r: CaptureSet)
        ensures
            (final(self)@, r) == capture_shared_spec(old(self)@, env, node, defs, tys, set),
            crate::placing::kept(old(self)@, final(self)@),
        decreases defs,
    {
        match (defs, tys) {
            (List::Cons(d, ds), List::Cons(t, ts)) => {
                let mutable = def_mutable(env.tables, *d);
                let fty = Ty::Ptr { mutable: mutable, inner: Box::new(dup_ty(t)) };
                let name = capture_name(&set, &def_name(env.tables, *d));
                let place = self.use_of(env, node, *d, t);
                let addr = self.expr(
                    env,
                    node,
                    dup_ty(&fty),
                    ExprKind::Ref { mutable: mutable, place: Box::new(place) },
                );
                let set = add_capture(set, *d, name, fty, true, addr);
                self.capture_shared(env, node, ds, ts, set)
            },
            _ => set,
        }
    }

    /// The members of a closure's type.
    pub fn capture_members(
        &mut self,
        env: &LowerCx,
        node: NodeId,
        l: &List<(Symbol, Ty)>,
    ) -> (r: List<Member>)
        ensures
            (final(self)@, r) == capture_members_spec(old(self)@, env, node, l),
            crate::placing::kept(old(self)@, final(self)@),
        decreases l,
    {
        match l {
            List::Nil => List::Nil,
            List::Cons(h, t) => {
                let id = self.id(env, node);
                self.set_ty(id, dup_ty(&h.1));
                let m = Member { id: id, def: None, name: dup_sym(&h.0) };
                let rest = self.capture_members(env, node, t);
                List::Cons(m, Box::new(rest))
            },
        }
    }

    /// Lower a closure's body, inside that closure.
    pub fn lower_within(&mut self, env: &LowerCx, c: ClosureCx, body: NodeId, fuel: u64) -> (r: Block)
        ensures
            (final(self)@, r) == lower_within_spec(old(self)@, env, c, body, fuel),
            final(self)@.deep || match r.tail {
                Some(e) => crate::placing::known(final(self)@, e.id.0),
                None => true,
            },
            crate::placing::kept(old(self)@, final(self)@),
        decreases fuel,
    {
        if fuel == 0 {
            self.give_up();
            return no_block();
        }
        let ghost around = self@;
        self.enter_closure(c);
        let block = self.lower_block(env, body, (fuel - 1) as u64);
        proof {
            crate::placing::kept_around_a_closure(around, c, self@);
        }
        self.leave_closure();
        block
    }

    /// Lower a closure: lift its body into a function of its own, give it a struct
    /// of what it captured, and build the value that fills that struct.
    #[verifier::rlimit(40)]
    pub fn lower_closure(&mut self, env: &LowerCx, node: NodeId, ty: Ty, fuel: u64) -> (r: Expr)
        ensures
            (final(self)@, r) == lower_closure_spec(old(self)@, env, node, ty, fuel),
            final(self)@.deep || crate::placing::known(final(self)@, r.id.0),
            crate::placing::kept(old(self)@, final(self)@),
        decreases fuel,
    {
        if fuel == 0 {
            self.give_up();
            return no_expr();
        }
        match kind_of(env.tables, self.file, node) {
            Some(NodeKind::Closure { captures, params, ret: _, body }) => {
                match fact_closure_defs(env.facts, self.file, node) {
                    Some(defs) => {
                        match fact_closure_sig(env.facts, self.file, node) {
                            Some(sig) => {
                                let shared = match fact_captures(env.facts, self.file, node) {
                                    Some(c) => dup_defs(c),
                                    None => List::Nil,
                                };
                                let read = const_params_read(env, self.file, *body, List::Nil, DEPTH_LIMIT);
                                let boxed = boxed_in(env, self.file, *body, List::Nil, DEPTH_LIMIT);
                                let set = CaptureSet {
                                    fields: List::Nil,
                                    members: List::Nil,
                                    values: List::Nil,
                                    taken: List::Nil,
                                };
                                let set = self.capture_copies(env, captures, set);
                                let set = self.capture_consts(env, &read, set);
                                let set = self.capture_shared(env, node, &shared, &sig.shared, set);
                                // The closure's type, over the same parameters as the function around it.
                                let own = Ty::Nominal {
                                    def: defs.ty,
                                    args: Box::new(nominals(&sig.generics)),
                                };
                                let type_id = self.id(env, node);
                                self.set_ty(type_id, dup_ty(&own));
                                let members = self.capture_members(env, node, &set.members);
                                self.add_lifted_type(
                                    TypeDef {
                                        id: type_id,
                                        def: defs.ty,
                                        name: def_name(env.tables, defs.ty),
                                        kind: TypeDefKind::Struct { members: members },
                                    },
                                );
                                // The body, as a function of the closure and the written parameters.
                                let this_ty = Ty::Ptr { mutable: false, inner: Box::new(own) };
                                let this_id = self.id(env, node);
                                self.set_ty(this_id, dup_ty(&this_ty));
                                let written = self.lower_params(env, params, (fuel - 1) as u64);
                                let fparams = List::Cons(
                                    Param { id: this_id, def: defs.this, name: sym("self") },
                                    Box::new(written),
                                );
                                let param_tys = self.param_types(&fparams);
                                let block = self.lower_within(
                                    env,
                                    ClosureCx { this: defs.this, this_ty: this_ty, fields: set.fields },
                                    *body,
                                    (fuel - 1) as u64,
                                );
                                let fid = self.id(env, node);
                                self.set_ty(
                                    fid,
                                    Ty::Func {
                                        params: Box::new(param_tys),
                                        ret: Box::new(dup_ty(&sig.ret)),
                                        c: false,
                                    },
                                );
                                self.set_generics(fid, Generics { params: dup_defs(&sig.generics), own: 0 });
                                self.set_boxed(fid, boxed);
                                self.add_lifted(
                                    Function {
                                        id: fid,
                                        def: defs.call,
                                        name: sym("call"),
                                        params: fparams,
                                        body: Some(block),
                                        abi: None,
                                        recv: Recv::Ptr,
                                        mutating: false,
                                    },
                                );
                                self.expr(
                                    env,
                                    node,
                                    ty,
                                    ExprKind::Construct { def: Some(defs.ty), fields: Box::new(set.values) },
                                )
                            },
                            _ => {
                                self.expr(env, node, ty, ExprKind::Error)
                            },
                        }
                    },
                    _ => {
                        self.expr(env, node, ty, ExprKind::Error)
                    },
                }
            },
            _ => {
                self.expr(env, node, ty, ExprKind::Error)
            },
        }
    }

    /// A reference to a definition. A read of a constant a generic impl declares
    /// carries what it bound the impl's parameters to.
    pub fn global_or_local(&mut self, env: &LowerCx, node: NodeId, def: DefId, ty: Ty) -> (r: Expr)
        ensures
            (final(self)@, r) == global_or_local_spec(old(self)@, env, node, def, ty),
            final(self)@.deep || crate::placing::known(final(self)@, r.id.0),
            crate::placing::kept(old(self)@, final(self)@),
    {
        let kind = match def_kind(env.tables, def) {
            DefKind::Local => ExprKind::Local(def),
            DefKind::Param => ExprKind::Local(def),
            DefKind::ConstParam => ExprKind::ConstParam(def),
            _ => ExprKind::Global(def),
        };
        let e = self.expr(env, node, ty, kind);
        match fact_instantiation(env.facts, self.file, node) {
            Some(inst) => {
                self.set_instantiation(e.id, dup_instantiation(inst));
            },
            None => {},
        }
        e
    }

    /// The type inference gave a node.
    pub fn ty(&self, env: &LowerCx, node: NodeId) -> (r: Ty)
        ensures
            r == ty_spec(self@, env, node),
    {
        match fact_ty(env.facts, self.file, node) {
            Some(t) => dup_ty(t),
            None => Ty::Error,
        }
    }

    /// The definition a node declares.
    pub fn def_of(&self, env: &LowerCx, node: NodeId) -> (r: Option<DefId>)
        ensures
            r == def_of_spec(self@, env, node),
    {
        match fact_def_meta(env.facts, self.file, node) {
            Some(d) => Some(*d),
            None => None,
        }
    }

    /// What a name resolved to, with renames followed.
    pub fn resolved_def(&self, env: &LowerCx, node: NodeId) -> (r: Option<DefId>)
        ensures
            r == resolved_def_spec(self@, env, node),
    {
        resolved_in(env.tables, env.facts, self.file, node)
    }

    /// The element count of an array or a slice. A fixed array whose length is
    /// known folds to the literal.
    pub fn len_expr(&mut self, base: Expr, ty: Ty) -> (r: Expr)
        ensures
            (final(self)@, r) == len_expr_spec(old(self)@, base, ty),
            old(self)@.deep
                || crate::placing::known(old(self)@, base.id.0) ==> final(self)@.deep
                || crate::placing::known(final(self)@, r.id.0),
            old(self)@.deep
                || crate::placing::known(old(self)@, base.id.0) ==> crate::placing::kept(old(self)@, final(self)@),
    {
        let from = base.id;
        let known = match self.ty_or_error(from) {
            Ty::Array { len, mutable: _, inner: _ } => const_value(&len),
            _ => None,
        };
        match known {
            Some(n) => self.derived_expr(from, ty, ExprKind::Lit(Lit::Int(int_of(n)))),
            None => self.derived_expr(
                from,
                ty,
                ExprKind::Intrinsic { name: sym("len"), args: Box::new(single(base)) },
            ),
        }
    }

    /// `a[i..<j]`, as the two bounds it names: both present, and both exclusive.
    pub fn lower_slice(
        &mut self,
        env: &LowerCx,
        node: NodeId,
        base: NodeId,
        range: NodeId,
        ty: Ty,
        fuel: u64,
    ) -> (r: Expr)
        ensures
            (final(self)@, r) == lower_slice_spec(old(self)@, env, node, base, range, ty, fuel),
            final(self)@.deep || crate::placing::known(final(self)@, r.id.0),
            crate::placing::kept(old(self)@, final(self)@),
        decreases fuel,
    {
        if fuel == 0 {
            self.give_up();
            return no_expr();
        }
        let shape = kind_of(env.tables, self.file, range);
        let index = bound_ty(&self.ty(env, range));
        let value = self.lower_expr(env, base, (fuel - 1) as u64);
        match shape {
            Some(NodeKind::Range { start, end, kind }) => {
                let lo = match start {
                    Some(s) => self.lower_expr(env, *s, (fuel - 1) as u64),
                    None => self.derived_expr(value.id, dup_ty(&index), ExprKind::Lit(Lit::Int(int_of(0)))),
                };
                let hi = match end {
                    Some(e) => {
                        let e = self.lower_expr(env, *e, (fuel - 1) as u64);
                        // `..=b` includes `b`, and every bound from here on is exclusive.
                        if *kind == RangeKind::Closed {
                            let one = self.derived_expr(
                                e.id,
                                dup_ty(&index),
                                ExprKind::Lit(Lit::Int(int_of(1))),
                            );
                            let from = e.id;
                            self.derived_expr(
                                from,
                                index,
                                ExprKind::Binary { op: BinOp::Add, lhs: Box::new(e), rhs: Box::new(one) },
                            )
                        } else {
                            e
                        }
                    },
                    None => self.len_expr(dup_expr(&value), index),
                };
                self.expr(
                    env,
                    node,
                    ty,
                    ExprKind::Intrinsic { name: sym("slice"), args: Box::new(list3(value, lo, hi)) },
                )
            },
            _ => {
                self.expr(env, node, ty, ExprKind::Error)
            },
        }
    }

    /// Write out the receiver adjustment a method call implies.
    pub fn adjust_recv(&mut self, recv: Expr, adjust: RecvAdjust, self_ty: &Ty) -> (r: Expr)
        ensures
            (final(self)@, r) == adjust_recv_spec(old(self)@, recv, adjust, self_ty),
            old(self)@.deep
                || crate::placing::known(old(self)@, recv.id.0) ==> final(self)@.deep
                || crate::placing::known(final(self)@, r.id.0),
            old(self)@.deep
                || crate::placing::known(old(self)@, recv.id.0) ==> crate::placing::kept(old(self)@, final(self)@),
    {
        let from = recv.id;
        match adjust {
            RecvAdjust::Keep => recv,
            RecvAdjust::Ref { mutable } => self.derived_expr(
                from,
                dup_ty(self_ty),
                ExprKind::Ref { mutable: mutable, place: Box::new(recv) },
            ),
            RecvAdjust::Deref => self.derived_expr(
                from,
                dup_ty(self_ty),
                ExprKind::Deref { base: Box::new(recv) },
            ),
        }
    }

    /// The pointee a cast to a trait object erases, when that is what a cast is: a
    /// pointer value reaching a pointer to a trait object.
    pub fn dyn_cast_target(&self, value: &Expr, to: &Ty) -> (r: Option<Ty>)
        ensures
            r == dyn_cast_target_spec(self@, value, to),
    {
        match to {
            Ty::Ptr { mutable: _, inner } => match &**inner {
                Ty::Dyn { .. } => match self.ty_of(value) {
                    Ty::Ptr { mutable: _, inner: concrete } => Some(*concrete),
                    _ => None,
                },
                _ => None,
            },
            _ => None,
        }
    }

    /// Wrap an expression in a deref if its type is a pointer.
    pub fn autoderef(&mut self, base: Expr) -> (r: Expr)
        ensures
            (final(self)@, r) == autoderef_spec(old(self)@, base),
            old(self)@.deep
                || crate::placing::known(old(self)@, base.id.0) ==> final(self)@.deep
                || crate::placing::known(final(self)@, r.id.0),
            old(self)@.deep
                || crate::placing::known(old(self)@, base.id.0) ==> crate::placing::kept(old(self)@, final(self)@),
    {
        match self.ty_of(&base) {
            Ty::Ptr { mutable: _, inner } => {
                let from = base.id;
                self.derived_expr(from, *inner, ExprKind::Deref { base: Box::new(base) })
            },
            _ => base,
        }
    }

    /// Lower the function at a position of the table, where the file declares it. One
    /// with neither a body nor an ABI is a trait's requirement, with no code of its
    /// own.
    pub fn lower_func_at(&mut self, env: &LowerCx, file: FileId, i: u64) -> (r: Option<Function>)
        ensures
            (final(self)@, r) == lower_func_at_spec(old(self)@, env, file, i),
            old(self)@.file == file ==> match r {
                Some(f) => f.def == crate::ids::def_at_spec(i) && is_coded(env.tables, file, f.def),
                None => !is_coded(env.tables, file, crate::ids::def_at_spec(i)),
            },
            crate::placing::kept(old(self)@, final(self)@),
    {
        let d = def_at(i);
        let lowered = match func_in(env.tables, file, d) {
            Some(func) => self.lower_function(env, d, func, DEPTH_LIMIT),
            None => None,
        };
        match lowered {
            Some(f) => if f.body.is_some() || f.abi.is_some() {
                Some(f)
            } else {
                None
            },
            None => None,
        }
    }
}

/// A lowering that has not begun.
pub open spec fn start_spec(meta: MetaV, file: FileId) -> LowererV {
    LowererV {
        meta: meta,
        file: file,
        defaults: Map::empty(),
        recorded: List::Nil,
        closures: List::Nil,
        lifted: List::Nil,
        lifted_types: List::Nil,
        deep: false,
        unplaced: Set::empty(),
    }
}

/// The functions of a file with code or a symbol of their own, among the first
/// definitions.
pub open spec fn coded_defs(t: &Tables, file: FileId, n: u64) -> Seq<DefId>
    decreases n,
{
    if n == 0 {
        Seq::empty()
    } else {
        let d = crate::ids::def_at_spec((n - 1) as u64);
        let before = coded_defs(t, file, (n - 1) as u64);
        if is_coded(t, file, d) { before.push(d) } else { before }
    }
}

/// The definitions of some functions.
pub open spec fn func_defs(l: Seq<Function>) -> Seq<DefId> {
    Seq::new(l.len(), |k: int| l[k].def)
}

/// The functions of a file from a position on, behind those lowered so far.
pub open spec fn funcs_from(
    st: LowererV,
    cx: &LowerCx,
    file: FileId,
    i: u64,
    found: Seq<Function>,
) -> (LowererV, Seq<Function>)
    decreases crate::def::def_count_spec(cx.tables) - i,
{
    if i < crate::def::def_count_spec(cx.tables) {
        let (st, x) = lower_func_at_spec(st, cx, file, i);
        funcs_from(
            st,
            cx,
            file,
            (i + 1) as u64,
            match x {
                Some(x) => found.push(x),
                None => found,
            },
        )
    } else {
        (st, found)
    }
}

/// The types of a file from a position on, behind those lowered so far.
pub open spec fn types_from(
    st: LowererV,
    cx: &LowerCx,
    file: FileId,
    i: u64,
    found: Seq<TypeDef>,
) -> (LowererV, Seq<TypeDef>)
    decreases crate::def::def_count_spec(cx.tables) - i,
{
    if i < crate::def::def_count_spec(cx.tables) {
        let (st, x) = lower_type_at_spec(st, cx, file, i);
        types_from(
            st,
            cx,
            file,
            (i + 1) as u64,
            match x {
                Some(x) => found.push(x),
                None => found,
            },
        )
    } else {
        (st, found)
    }
}

/// The constants and static regions of a file from a position on, behind those lowered so far.
pub open spec fn globals_from(
    st: LowererV,
    cx: &LowerCx,
    file: FileId,
    i: u64,
    found: Seq<Global>,
) -> (LowererV, Seq<Global>)
    decreases crate::def::def_count_spec(cx.tables) - i,
{
    if i < crate::def::def_count_spec(cx.tables) {
        let (st, x) = lower_global_at_spec(st, cx, file, i);
        globals_from(
            st,
            cx,
            file,
            (i + 1) as u64,
            match x {
                Some(x) => found.push(x),
                None => found,
            },
        )
    } else {
        (st, found)
    }
}

impl Lowerer {
    /// Lower every function a file declares.
    pub fn lower_funcs(&mut self, env: &LowerCx, file: FileId) -> (r: Vec<Function>)
        ensures
            (final(self)@, r@) == funcs_from(old(self)@, env, file, 0, Seq::empty()),
            old(self)@.file == file ==> func_defs(r@) == coded_defs(
                env.tables,
                file,
                crate::def::def_count_spec(env.tables),
            ),
            crate::placing::kept(old(self)@, final(self)@),
    {
        let ghost start = self@;
        let mut found: Vec<Function> = Vec::new();
        let n = def_count(env.tables);
        let mut i: u64 = 0;
        while i < n
            invariant
                n == crate::def::def_count_spec(env.tables),
                i <= n,
                start.file == file ==> func_defs(found@) == coded_defs(env.tables, file, i),
                funcs_from(start, env, file, 0, Seq::empty()) == funcs_from(self@, env, file, i, found@),
                crate::placing::kept(start, self@),
            decreases n - i,
        {
            match self.lower_func_at(env, file, i) {
                Some(x) => {
                    found.push(x);
                },
                None => {},
            }
            i = i + 1;
            assert(start.file == file ==> func_defs(found@) =~= coded_defs(env.tables, file, i));
        }
        found
    }

    /// Lower every type a file declares.
    pub fn lower_types(&mut self, env: &LowerCx, file: FileId) -> (r: Vec<TypeDef>)
        ensures
            (final(self)@, r@) == types_from(old(self)@, env, file, 0, Seq::empty()),
            crate::placing::kept(old(self)@, final(self)@),
    {
        let ghost start = self@;
        let mut found: Vec<TypeDef> = Vec::new();
        let n = def_count(env.tables);
        let mut i: u64 = 0;
        while i < n
            invariant
                n == crate::def::def_count_spec(env.tables),
                types_from(start, env, file, 0, Seq::empty()) == types_from(self@, env, file, i, found@),
                crate::placing::kept(start, self@),
            decreases n - i,
        {
            match self.lower_type_at(env, file, i) {
                Some(x) => {
                    found.push(x);
                },
                None => {},
            }
            i = i + 1;
        }
        found
    }

    /// Lower every constant and static region a file declares.
    pub fn lower_globals(&mut self, env: &LowerCx, file: FileId) -> (r: Vec<Global>)
        ensures
            (final(self)@, r@) == globals_from(old(self)@, env, file, 0, Seq::empty()),
            crate::placing::kept(old(self)@, final(self)@),
    {
        let ghost start = self@;
        let mut found: Vec<Global> = Vec::new();
        let n = def_count(env.tables);
        let mut i: u64 = 0;
        while i < n
            invariant
                n == crate::def::def_count_spec(env.tables),
                globals_from(start, env, file, 0, Seq::empty()) == globals_from(self@, env, file, i, found@),
                crate::placing::kept(start, self@),
            decreases n - i,
        {
            match self.lower_global_at(env, file, i) {
                Some(x) => {
                    found.push(x);
                },
                None => {},
            }
            i = i + 1;
        }
        found
    }
}

/// What a file lowers to, and the state lowering it ends in: its functions, then
/// the ones lifted out of closures; its types, then the closures' types; and its
/// constants.
pub open spec fn file_lowered(cx: &LowerCx, meta: MetaV, file: FileId) -> (LowererV, Lowered) {
    let (st, funcs) = funcs_from(start_spec(meta, file), cx, file, 0, Seq::empty());
    let lifted = st.lifted;
    let st = LowererV { lifted: List::Nil, ..st };
    let (st, types) = types_from(st, cx, file, 0, Seq::empty());
    let lifted_types = st.lifted_types;
    let st = LowererV { lifted_types: List::Nil, ..st };
    let (st, globals) = globals_from(st, cx, file, 0, Seq::empty());
    (
        st,
        Lowered {
            program: Program {
                types: crate::list::append_spec(crate::list::list_of_seq(types), lifted_types),
                globals: crate::list::list_of_seq(globals),
                funcs: crate::list::append_spec(crate::list::list_of_seq(funcs), lifted),
            },
            defaults: st.recorded,
            deep: st.deep,
        },
    )
}

/// What a file lowers to, and the side tables.
pub open spec fn lower_file_spec(cx: &LowerCx, meta: MetaV, file: FileId) -> (Lowered, MetaV) {
    let (st, lowered) = file_lowered(cx, meta, file);
    (lowered, st.meta)
}

/// Lower every function, type and constant of `file`. Every function of the file
/// that has code or a symbol of its own comes out, in the order of the
/// definitions; those lifted out of closures come behind them. Every id handed out
/// has a place, but for those of arguments nothing supplies, of defaults whose place
/// is not recorded here, and of what is derived from these; a walk that gave up
/// leaves an error without one.
pub fn lower_file(tables: &Tables, facts: &Facts, meta: Meta, file: FileId) -> (r: (Lowered, Meta))
    ensures
        (r.0, r.1@) == lower_file_spec(&(LowerCx { tables: tables, facts: facts }), meta@, file),
        meta@.next <= r.1@.next,
        coded_defs(
            tables,
            file,
            crate::def::def_count_spec(tables),
        ).is_prefix_of(func_defs(r.0.program.funcs@)),
        !r.0.deep ==> forall|k: u64|
            meta@.next <= k < r.1@.next ==> #[trigger] r.1@.spans.dom().contains(k) || file_lowered(
                &(LowerCx { tables: tables, facts: facts }),
                meta@,
                file,
            ).0.unplaced.contains(k),
{
    let cx = LowerCx { tables: tables, facts: facts };
    let mut lo = Lowerer {
        meta: meta,
        file: file,
        defaults: Table::new(),
        recorded: List::Nil,
        closures: List::Nil,
        lifted: List::Nil,
        lifted_types: List::Nil,
        deep: false,
        unplaced: Ghost(Set::empty()),
    };
    let ghost start = lo@;
    let funcs = lo.lower_funcs(&cx, file);
    let ghost own = funcs@;
    let ghost one = lo@;
    let mut lifted: List<Function> = List::Nil;
    std::mem::swap(&mut lifted, &mut lo.lifted);
    proof {
        crate::placing::kept_without_what_was_lifted(one, lo@);
    }
    let funcs = append(list_of(funcs), lifted);
    proof {
        list_of_seq_holds_it(own);
        assert(func_defs(own) =~= func_defs(funcs@).subrange(0, own.len() as int));
    }
    let types = lo.lower_types(&cx, file);
    let ghost two = lo@;
    let mut lifted_types: List<TypeDef> = List::Nil;
    std::mem::swap(&mut lifted_types, &mut lo.lifted_types);
    proof {
        crate::placing::kept_without_what_was_lifted(two, lo@);
    }
    let types = append(list_of(types), lifted_types);
    let globals = list_of(lo.lower_globals(&cx, file));
    proof {
        crate::placing::every_id_is_known(start, lo@);
    }
    (
        Lowered {
            program: Program { types: types, globals: globals, funcs: funcs },
            defaults: lo.recorded,
            deep: lo.deep,
        },
        lo.meta,
    )
}

} // verus!
