//! What the passes conclude about each node, and the tables that hold it.

use vstd::prelude::*;

use crate::def::{dup_defs, Def};
use crate::ids::{node_key, DefId, FileId, NodeId};
use crate::list::List;
use crate::symbol::dup_text;
use crate::table::Table;
use crate::ty::{dup_const, dup_ty, dup_tys, Const, Ty};

verus! {

/// What name resolution made of a name.
#[derive(Debug, Clone, Copy, PartialEq, Eq, Structural)]
pub enum Resolution {
    Def(DefId),
    /// It was tried and failed, which has been reported.
    Error,
}

/// The definitions a closure expands to: its type, its body's first parameter,
/// and the function its body becomes.
#[derive(Debug, Clone, Copy, PartialEq, Eq, Structural)]
pub struct ClosureDefs {
    pub ty: DefId,
    pub this: DefId,
    pub call: DefId,
}

/// The operations the machine supplies for its own types.
#[derive(Debug, Clone, Copy, PartialEq, Eq, Structural)]
pub enum BuiltinOp {
    Add,
    Sub,
    Mul,
    Div,
    Rem,
    BitAnd,
    BitOr,
    BitXor,
    Shl,
    Shr,
    Neg,
    BitNot,
    Not,
    Index,
}

/// The discriminant one enum variant stores: its position, unless one was
/// written.
#[derive(Debug, Clone, Copy, PartialEq, Eq, Structural)]
pub struct VariantTag(pub i128);

/// A static trait call whose `Self` a type parameter's bound answered. No impl
/// can be chosen until an instantiation says what the parameter is.
pub struct StaticTraitSelf {
    pub trait_def: DefId,
    pub self_ty: Ty,
    pub trait_args: List<Ty>,
}

/// How an operator resolved.
#[derive(Debug, Clone, Copy, PartialEq, Eq, Structural)]
pub struct OpResolution {
    /// The method the operator dispatches to: the trait's own for a builtin, the
    /// impl's for a user type.
    pub method: DefId,
    /// The trait the operator went through.
    pub trait_def: DefId,
    /// The machine operation, or `None` for a user impl.
    pub builtin: Option<BuiltinOp>,
}

/// How a method call resolved, kept on the call's callee.
pub struct MethodRes {
    /// An impl's member for a statically resolved call, the trait's own
    /// declaration for a virtual or generic one.
    pub method: DefId,
    pub dispatch: MethodDispatch,
    /// What the receiver needs to become the `self` argument.
    pub adjust: RecvAdjust,
    /// The receiver's type after the adjustment.
    pub self_ty: Ty,
}

/// How a method's callee is reached.
pub enum MethodDispatch {
    /// A direct call to a known function.
    Static,
    /// Through the vtable of a trait object; the payload is the trait.
    Virtual(DefId),
    /// Through a type parameter's bound, with the trait arguments the bound was
    /// written with.
    Generic { trait_def: DefId, args: List<Ty> },
}

/// What happens to a receiver on its way to the `self` parameter.
#[derive(Debug, Clone, Copy, PartialEq, Eq, Structural)]
pub enum RecvAdjust {
    /// The receiver already has the `self` parameter's type.
    Keep,
    /// The method wants a pointer and the receiver is a value.
    Ref { mutable: bool },
    /// The method wants a value and the receiver is a pointer.
    Deref,
}

/// Marks a node whose value was already reported as out of range for the type
/// it settled on.
#[derive(Debug, Clone, Copy, PartialEq, Eq, Structural)]
pub struct RangeReported;

/// Marks a compile-time slot that has already been complained about. A type
/// node is resolved once per use, and a mistake in it is still one mistake.
#[derive(Debug, Clone, Copy, PartialEq, Eq, Structural)]
pub struct ConstSlotReported;

/// Marks a type path that named something that is not a type, already reported.
#[derive(Debug, Clone, Copy, PartialEq, Eq, Structural)]
pub struct TyPathReported;

/// An `a[i]` that is the place of an assignment rather than a value.
#[derive(Debug, Clone, Copy, PartialEq, Eq, Structural)]
pub struct IndexWrite;

/// A value converted on the way to the type its context wanted.
pub struct Coercion {
    pub to: Ty,
}

/// An array viewed as a slice at a node.
pub struct SliceCoerce {
    /// The slice type produced.
    pub to: Ty,
    /// The type of the whole range, the same an explicit `a[..]` would have.
    pub range: Ty,
}

/// A pointer unsized to a pointer to a trait object.
pub struct DynCoerce {
    pub trait_def: DefId,
    /// The whole object type.
    pub object: Ty,
    /// The pointee being erased.
    pub concrete: Ty,
}

/// An expression that reaches its expected type through an `@using` field.
pub struct Upcast {
    pub field: DefId,
    /// The receiver is a pointer, so the result is the field's address.
    pub through_ptr: bool,
    /// The field's type, or a pointer to it.
    pub target: Ty,
}

/// A closure's signature and what it is generic over.
pub struct ClosureSig {
    pub params: List<Ty>,
    pub ret: Ty,
    pub generics: List<DefId>,
    /// The type of each local the closure shares.
    pub shared: List<Ty>,
}

/// What an `impl` return type turned out to be.
pub struct OpaqueTy(pub Ty);

/// Marks the callee of a call on a value that implements `Func` without being a
/// function pointer.
#[derive(Debug, Clone, Copy, PartialEq, Eq, Structural)]
pub struct FuncCall;

/// Marks the callee of a call written `f.call(args)`: whether `f` is read
/// through a pointer first.
#[derive(Debug, Clone, Copy, PartialEq, Eq, Structural)]
pub struct FuncCallMethod {
    pub deref: bool,
}

/// A receiver whose method was found on the type it is distinct from.
pub struct DistinctRecv {
    pub repr: Ty,
}

/// The arguments of a call in parameter order. A `None` is a parameter the call
/// left out, whose default fills the slot.
pub struct ArgOrder {
    pub args: List<Option<NodeId>>,
}

/// The generic parameters a declaration is generic over, in the order every
/// instantiation of it is written in: those it lists itself, then any its
/// signature mentions that it did not list.
pub struct Generics {
    pub params: List<DefId>,
    /// How many of them the declaration listed itself.
    pub own: u64,
}

/// What one generic parameter is bound to.
pub enum GenericArg {
    Ty(Ty),
    Const(Const),
}

/// The type of a member read through a type rather than a value.
pub struct AssocTy(pub Ty);

/// What one call binds its callee's parameters to, in the callee's order.
pub struct Instantiation(pub List<GenericArg>);

/// Marks a float literal too large or too precise for a double.
#[derive(Debug, Clone, Copy, PartialEq, Eq, Structural)]
pub struct WideFloat;

/// A call a format specifier wrote: what is said around the type that does not
/// support it.
pub struct FormatCall {
    pub before: List<char>,
    pub after: List<char>,
}

/// One impl's target, resolved out of syntax into types. Its own generics stay
/// rigid: a pattern to match, with its holes named.
pub struct ImplTarget {
    pub self_ty: Ty,
    pub trait_args: List<Ty>,
}

/// A copy.
pub fn dup_resolution(x: &Resolution) -> (r: Resolution)
    ensures
        r == *x,
{
    *x
}

/// A copy.
pub fn dup_resolutions(l: &List<Resolution>) -> (r: List<Resolution>)
    ensures
        r == *l,
    decreases l,
{
    match l {
        List::Nil => List::Nil,
        List::Cons(h, t) => List::Cons(*h, Box::new(dup_resolutions(t))),
    }
}

/// A copy.
pub fn dup_static_trait_self(x: &StaticTraitSelf) -> (r: StaticTraitSelf)
    ensures
        r == *x,
{
    StaticTraitSelf {
        trait_def: x.trait_def,
        self_ty: dup_ty(&x.self_ty),
        trait_args: dup_tys(&x.trait_args),
    }
}

/// A copy.
pub fn dup_dispatch(x: &MethodDispatch) -> (r: MethodDispatch)
    ensures
        r == *x,
{
    match x {
        MethodDispatch::Static => MethodDispatch::Static,
        MethodDispatch::Virtual(d) => MethodDispatch::Virtual(*d),
        MethodDispatch::Generic { trait_def, args } => MethodDispatch::Generic {
            trait_def: *trait_def,
            args: dup_tys(args),
        },
    }
}

/// A copy.
pub fn dup_method_res(x: &MethodRes) -> (r: MethodRes)
    ensures
        r == *x,
{
    MethodRes {
        method: x.method,
        dispatch: dup_dispatch(&x.dispatch),
        adjust: x.adjust,
        self_ty: dup_ty(&x.self_ty),
    }
}

/// A copy.
pub fn dup_coercion(x: &Coercion) -> (r: Coercion)
    ensures
        r == *x,
{
    Coercion { to: dup_ty(&x.to) }
}

/// A copy.
pub fn dup_slice_coerce(x: &SliceCoerce) -> (r: SliceCoerce)
    ensures
        r == *x,
{
    SliceCoerce { to: dup_ty(&x.to), range: dup_ty(&x.range) }
}

/// A copy.
pub fn dup_dyn_coerce(x: &DynCoerce) -> (r: DynCoerce)
    ensures
        r == *x,
{
    DynCoerce { trait_def: x.trait_def, object: dup_ty(&x.object), concrete: dup_ty(&x.concrete) }
}

/// A copy.
pub fn dup_upcast(x: &Upcast) -> (r: Upcast)
    ensures
        r == *x,
{
    Upcast { field: x.field, through_ptr: x.through_ptr, target: dup_ty(&x.target) }
}

/// A copy.
pub fn dup_closure_sig(x: &ClosureSig) -> (r: ClosureSig)
    ensures
        r == *x,
{
    ClosureSig {
        params: dup_tys(&x.params),
        ret: dup_ty(&x.ret),
        generics: dup_defs(&x.generics),
        shared: dup_tys(&x.shared),
    }
}

/// A copy.
pub fn dup_opaque_ty(x: &OpaqueTy) -> (r: OpaqueTy)
    ensures
        r == *x,
{
    OpaqueTy(dup_ty(&x.0))
}

/// A copy.
pub fn dup_distinct_recv(x: &DistinctRecv) -> (r: DistinctRecv)
    ensures
        r == *x,
{
    DistinctRecv { repr: dup_ty(&x.repr) }
}

/// A copy.
pub fn dup_slots(l: &List<Option<NodeId>>) -> (r: List<Option<NodeId>>)
    ensures
        r == *l,
    decreases l,
{
    match l {
        List::Nil => List::Nil,
        List::Cons(h, t) => List::Cons(*h, Box::new(dup_slots(t))),
    }
}

/// A copy.
pub fn dup_arg_order(x: &ArgOrder) -> (r: ArgOrder)
    ensures
        r == *x,
{
    ArgOrder { args: dup_slots(&x.args) }
}

/// A copy.
pub fn dup_generics(x: &Generics) -> (r: Generics)
    ensures
        r == *x,
{
    Generics { params: dup_defs(&x.params), own: x.own }
}

/// A copy.
pub fn dup_assoc_ty(x: &AssocTy) -> (r: AssocTy)
    ensures
        r == *x,
{
    AssocTy(dup_ty(&x.0))
}

/// A copy.
pub fn dup_generic_arg(x: &GenericArg) -> (r: GenericArg)
    ensures
        r == *x,
{
    match x {
        GenericArg::Ty(t) => GenericArg::Ty(dup_ty(t)),
        GenericArg::Const(c) => GenericArg::Const(dup_const(c)),
    }
}

/// A copy.
pub fn dup_generic_args(l: &List<GenericArg>) -> (r: List<GenericArg>)
    ensures
        r == *l,
    decreases l,
{
    match l {
        List::Nil => List::Nil,
        List::Cons(h, t) => List::Cons(dup_generic_arg(h), Box::new(dup_generic_args(t))),
    }
}

/// A copy.
pub fn dup_instantiation(x: &Instantiation) -> (r: Instantiation)
    ensures
        r == *x,
{
    Instantiation(dup_generic_args(&x.0))
}

/// A copy.
pub fn dup_format_call(x: &FormatCall) -> (r: FormatCall)
    ensures
        r == *x,
{
    FormatCall { before: dup_text(&x.before), after: dup_text(&x.after) }
}

/// Everything the passes have concluded about the nodes of the program's trees.
pub struct Facts {
    /// The type of a node.
    pub ty: Table<Ty>,
    /// What name resolution made of a name.
    pub resolution: Table<Resolution>,
    /// What each segment of a path resolved to.
    pub path_res: Table<List<Resolution>>,
    /// The definition a node declares.
    pub def_meta: Table<DefId>,
    /// The definitions a closure expands to.
    pub closure_defs: Table<ClosureDefs>,
    /// The locals a closure shares.
    pub captures: Table<List<DefId>>,
    /// The parameters an `impl` return type is generic over.
    pub opaque_args: Table<List<DefId>>,
    /// The signature of a function that has no body.
    pub signature: Table<Ty>,
    /// What a type alias expands to.
    pub expansion: Table<Ty>,
    /// The discriminant of a variant.
    pub variant_tag: Table<VariantTag>,
    /// The `Self` of a static trait call.
    pub static_trait_self: Table<StaticTraitSelf>,
    /// The method an operator dispatches to.
    pub op_resolution: Table<OpResolution>,
    /// How a method call resolved.
    pub method_res: Table<MethodRes>,
    /// A literal already reported as out of range.
    pub range_reported: Table<RangeReported>,
    /// A compile-time slot already reported.
    pub const_slot_reported: Table<ConstSlotReported>,
    /// A type path already reported.
    pub ty_path_reported: Table<TyPathReported>,
    /// An index that is written through.
    pub index_write: Table<IndexWrite>,
    /// The type a value is converted to.
    pub coercion: Table<Coercion>,
    /// An array viewed as a slice.
    pub slice_coerce: Table<SliceCoerce>,
    /// A pointer unsized to a trait object.
    pub dyn_coerce: Table<DynCoerce>,
    /// An `@using` upcast.
    pub upcast: Table<Upcast>,
    /// The signature of a closure.
    pub closure_sig: Table<ClosureSig>,
    /// What an `impl` return type turned out to be.
    pub opaque_ty: Table<OpaqueTy>,
    /// A call on a value that is not a function pointer.
    pub func_call: Table<FuncCall>,
    /// A call written `f.call(args)`.
    pub func_call_method: Table<FuncCallMethod>,
    /// A receiver read as its representation.
    pub distinct_recv: Table<DistinctRecv>,
    /// The arguments of a call in parameter order.
    pub arg_order: Table<ArgOrder>,
    /// What a declaration is generic over.
    pub generics: Table<Generics>,
    /// The type of a member read through a type.
    pub assoc_ty: Table<AssocTy>,
    /// What a call binds the callee's parameters to.
    pub instantiation: Table<Instantiation>,
    /// A float literal that outruns a double.
    pub wide_float: Table<WideFloat>,
    /// The format specifier a call was written for.
    pub format_call: Table<FormatCall>,
}

/// The same, as maps.
pub struct FactsV {
    pub ty: Map<u64, Ty>,
    pub resolution: Map<u64, Resolution>,
    pub path_res: Map<u64, List<Resolution>>,
    pub def_meta: Map<u64, DefId>,
    pub closure_defs: Map<u64, ClosureDefs>,
    pub captures: Map<u64, List<DefId>>,
    pub opaque_args: Map<u64, List<DefId>>,
    pub signature: Map<u64, Ty>,
    pub expansion: Map<u64, Ty>,
    pub variant_tag: Map<u64, VariantTag>,
    pub static_trait_self: Map<u64, StaticTraitSelf>,
    pub op_resolution: Map<u64, OpResolution>,
    pub method_res: Map<u64, MethodRes>,
    pub range_reported: Map<u64, RangeReported>,
    pub const_slot_reported: Map<u64, ConstSlotReported>,
    pub ty_path_reported: Map<u64, TyPathReported>,
    pub index_write: Map<u64, IndexWrite>,
    pub coercion: Map<u64, Coercion>,
    pub slice_coerce: Map<u64, SliceCoerce>,
    pub dyn_coerce: Map<u64, DynCoerce>,
    pub upcast: Map<u64, Upcast>,
    pub closure_sig: Map<u64, ClosureSig>,
    pub opaque_ty: Map<u64, OpaqueTy>,
    pub func_call: Map<u64, FuncCall>,
    pub func_call_method: Map<u64, FuncCallMethod>,
    pub distinct_recv: Map<u64, DistinctRecv>,
    pub arg_order: Map<u64, ArgOrder>,
    pub generics: Map<u64, Generics>,
    pub assoc_ty: Map<u64, AssocTy>,
    pub instantiation: Map<u64, Instantiation>,
    pub wide_float: Map<u64, WideFloat>,
    pub format_call: Map<u64, FormatCall>,
}

impl View for Facts {
    type V = FactsV;

    open spec fn view(&self) -> FactsV {
        FactsV {
            ty: self.ty@,
            resolution: self.resolution@,
            path_res: self.path_res@,
            def_meta: self.def_meta@,
            closure_defs: self.closure_defs@,
            captures: self.captures@,
            opaque_args: self.opaque_args@,
            signature: self.signature@,
            expansion: self.expansion@,
            variant_tag: self.variant_tag@,
            static_trait_self: self.static_trait_self@,
            op_resolution: self.op_resolution@,
            method_res: self.method_res@,
            range_reported: self.range_reported@,
            const_slot_reported: self.const_slot_reported@,
            ty_path_reported: self.ty_path_reported@,
            index_write: self.index_write@,
            coercion: self.coercion@,
            slice_coerce: self.slice_coerce@,
            dyn_coerce: self.dyn_coerce@,
            upcast: self.upcast@,
            closure_sig: self.closure_sig@,
            opaque_ty: self.opaque_ty@,
            func_call: self.func_call@,
            func_call_method: self.func_call_method@,
            distinct_recv: self.distinct_recv@,
            arg_order: self.arg_order@,
            generics: self.generics@,
            assoc_ty: self.assoc_ty@,
            instantiation: self.instantiation@,
            wide_float: self.wide_float@,
            format_call: self.format_call@,
        }
    }
}

impl Facts {
    /// No facts at all.
    pub fn new() -> (r: Facts)
        ensures
            r@ == no_facts(),
    {
        Facts {
            ty: Table::new(),
            resolution: Table::new(),
            path_res: Table::new(),
            def_meta: Table::new(),
            closure_defs: Table::new(),
            captures: Table::new(),
            opaque_args: Table::new(),
            signature: Table::new(),
            expansion: Table::new(),
            variant_tag: Table::new(),
            static_trait_self: Table::new(),
            op_resolution: Table::new(),
            method_res: Table::new(),
            range_reported: Table::new(),
            const_slot_reported: Table::new(),
            ty_path_reported: Table::new(),
            index_write: Table::new(),
            coercion: Table::new(),
            slice_coerce: Table::new(),
            dyn_coerce: Table::new(),
            upcast: Table::new(),
            closure_sig: Table::new(),
            opaque_ty: Table::new(),
            func_call: Table::new(),
            func_call_method: Table::new(),
            distinct_recv: Table::new(),
            arg_order: Table::new(),
            generics: Table::new(),
            assoc_ty: Table::new(),
            instantiation: Table::new(),
            wide_float: Table::new(),
            format_call: Table::new(),
        }
    }
}

/// No facts at all.
pub open spec fn no_facts() -> FactsV {
    FactsV {
        ty: Map::empty(),
        resolution: Map::empty(),
        path_res: Map::empty(),
        def_meta: Map::empty(),
        closure_defs: Map::empty(),
        captures: Map::empty(),
        opaque_args: Map::empty(),
        signature: Map::empty(),
        expansion: Map::empty(),
        variant_tag: Map::empty(),
        static_trait_self: Map::empty(),
        op_resolution: Map::empty(),
        method_res: Map::empty(),
        range_reported: Map::empty(),
        const_slot_reported: Map::empty(),
        ty_path_reported: Map::empty(),
        index_write: Map::empty(),
        coercion: Map::empty(),
        slice_coerce: Map::empty(),
        dyn_coerce: Map::empty(),
        upcast: Map::empty(),
        closure_sig: Map::empty(),
        opaque_ty: Map::empty(),
        func_call: Map::empty(),
        func_call_method: Map::empty(),
        distinct_recv: Map::empty(),
        arg_order: Map::empty(),
        generics: Map::empty(),
        assoc_ty: Map::empty(),
        instantiation: Map::empty(),
        wide_float: Map::empty(),
        format_call: Map::empty(),
    }
}

/// The type of a node, where it is known.
pub open spec fn fact_ty_spec(facts: &Facts, file: FileId, node: NodeId) -> Option<&Ty> {
    crate::table::table_get_spec(facts.ty@, crate::ids::node_key_spec(file, node))
}

/// The type of a node, where it is known.
pub fn fact_ty(facts: &Facts, file: FileId, node: NodeId) -> (r: Option<&Ty>)
    ensures
        r == fact_ty_spec(facts, file, node),
{
    facts.ty.get(node_key(file, node))
}

/// What name resolution made of a name, where it is known.
pub open spec fn fact_resolution_spec(facts: &Facts, file: FileId, node: NodeId) -> Option<&Resolution> {
    crate::table::table_get_spec(facts.resolution@, crate::ids::node_key_spec(file, node))
}

/// What name resolution made of a name, where it is known.
pub fn fact_resolution(facts: &Facts, file: FileId, node: NodeId) -> (r: Option<&Resolution>)
    ensures
        r == fact_resolution_spec(facts, file, node),
{
    facts.resolution.get(node_key(file, node))
}

/// The definition a node declares, where it is known.
pub open spec fn fact_def_meta_spec(facts: &Facts, file: FileId, node: NodeId) -> Option<&DefId> {
    crate::table::table_get_spec(facts.def_meta@, crate::ids::node_key_spec(file, node))
}

/// The definition a node declares, where it is known.
pub fn fact_def_meta(facts: &Facts, file: FileId, node: NodeId) -> (r: Option<&DefId>)
    ensures
        r == fact_def_meta_spec(facts, file, node),
{
    facts.def_meta.get(node_key(file, node))
}

/// The definitions a closure expands to, where it is known.
pub open spec fn fact_closure_defs_spec(facts: &Facts, file: FileId, node: NodeId) -> Option<&ClosureDefs> {
    crate::table::table_get_spec(facts.closure_defs@, crate::ids::node_key_spec(file, node))
}

/// The definitions a closure expands to, where it is known.
pub fn fact_closure_defs(facts: &Facts, file: FileId, node: NodeId) -> (r: Option<&ClosureDefs>)
    ensures
        r == fact_closure_defs_spec(facts, file, node),
{
    facts.closure_defs.get(node_key(file, node))
}

/// The locals a closure shares, where it is known.
pub open spec fn fact_captures_spec(facts: &Facts, file: FileId, node: NodeId) -> Option<&List<DefId>> {
    crate::table::table_get_spec(facts.captures@, crate::ids::node_key_spec(file, node))
}

/// The locals a closure shares, where it is known.
pub fn fact_captures(facts: &Facts, file: FileId, node: NodeId) -> (r: Option<&List<DefId>>)
    ensures
        r == fact_captures_spec(facts, file, node),
{
    facts.captures.get(node_key(file, node))
}

/// The signature of a function that has no body, where it is known.
pub open spec fn fact_signature_spec(facts: &Facts, file: FileId, node: NodeId) -> Option<&Ty> {
    crate::table::table_get_spec(facts.signature@, crate::ids::node_key_spec(file, node))
}

/// The signature of a function that has no body, where it is known.
pub fn fact_signature(facts: &Facts, file: FileId, node: NodeId) -> (r: Option<&Ty>)
    ensures
        r == fact_signature_spec(facts, file, node),
{
    facts.signature.get(node_key(file, node))
}

/// The discriminant of a variant, where it is known.
pub open spec fn fact_variant_tag_spec(facts: &Facts, file: FileId, node: NodeId) -> Option<&VariantTag> {
    crate::table::table_get_spec(facts.variant_tag@, crate::ids::node_key_spec(file, node))
}

/// The discriminant of a variant, where it is known.
pub fn fact_variant_tag(facts: &Facts, file: FileId, node: NodeId) -> (r: Option<&VariantTag>)
    ensures
        r == fact_variant_tag_spec(facts, file, node),
{
    facts.variant_tag.get(node_key(file, node))
}

/// The `Self` of a static trait call, where it is known.
pub open spec fn fact_static_trait_self_spec(
    facts: &Facts,
    file: FileId,
    node: NodeId,
) -> Option<&StaticTraitSelf> {
    crate::table::table_get_spec(facts.static_trait_self@, crate::ids::node_key_spec(file, node))
}

/// The `Self` of a static trait call, where it is known.
pub fn fact_static_trait_self(facts: &Facts, file: FileId, node: NodeId) -> (r: Option<&StaticTraitSelf>)
    ensures
        r == fact_static_trait_self_spec(facts, file, node),
{
    facts.static_trait_self.get(node_key(file, node))
}

/// The method an operator dispatches to, where it is known.
pub open spec fn fact_op_resolution_spec(facts: &Facts, file: FileId, node: NodeId) -> Option<&OpResolution> {
    crate::table::table_get_spec(facts.op_resolution@, crate::ids::node_key_spec(file, node))
}

/// The method an operator dispatches to, where it is known.
pub fn fact_op_resolution(facts: &Facts, file: FileId, node: NodeId) -> (r: Option<&OpResolution>)
    ensures
        r == fact_op_resolution_spec(facts, file, node),
{
    facts.op_resolution.get(node_key(file, node))
}

/// How a method call resolved, where it is known.
pub open spec fn fact_method_res_spec(facts: &Facts, file: FileId, node: NodeId) -> Option<&MethodRes> {
    crate::table::table_get_spec(facts.method_res@, crate::ids::node_key_spec(file, node))
}

/// How a method call resolved, where it is known.
pub fn fact_method_res(facts: &Facts, file: FileId, node: NodeId) -> (r: Option<&MethodRes>)
    ensures
        r == fact_method_res_spec(facts, file, node),
{
    facts.method_res.get(node_key(file, node))
}

/// A literal already reported as out of range, where it is known.
pub open spec fn fact_range_reported_spec(
    facts: &Facts,
    file: FileId,
    node: NodeId,
) -> Option<&RangeReported> {
    crate::table::table_get_spec(facts.range_reported@, crate::ids::node_key_spec(file, node))
}

/// A literal already reported as out of range, where it is known.
pub fn fact_range_reported(facts: &Facts, file: FileId, node: NodeId) -> (r: Option<&RangeReported>)
    ensures
        r == fact_range_reported_spec(facts, file, node),
{
    facts.range_reported.get(node_key(file, node))
}

/// An index that is written through, where it is known.
pub open spec fn fact_index_write_spec(facts: &Facts, file: FileId, node: NodeId) -> Option<&IndexWrite> {
    crate::table::table_get_spec(facts.index_write@, crate::ids::node_key_spec(file, node))
}

/// An index that is written through, where it is known.
pub fn fact_index_write(facts: &Facts, file: FileId, node: NodeId) -> (r: Option<&IndexWrite>)
    ensures
        r == fact_index_write_spec(facts, file, node),
{
    facts.index_write.get(node_key(file, node))
}

/// The type a value is converted to, where it is known.
pub open spec fn fact_coercion_spec(facts: &Facts, file: FileId, node: NodeId) -> Option<&Coercion> {
    crate::table::table_get_spec(facts.coercion@, crate::ids::node_key_spec(file, node))
}

/// The type a value is converted to, where it is known.
pub fn fact_coercion(facts: &Facts, file: FileId, node: NodeId) -> (r: Option<&Coercion>)
    ensures
        r == fact_coercion_spec(facts, file, node),
{
    facts.coercion.get(node_key(file, node))
}

/// An array viewed as a slice, where it is known.
pub open spec fn fact_slice_coerce_spec(facts: &Facts, file: FileId, node: NodeId) -> Option<&SliceCoerce> {
    crate::table::table_get_spec(facts.slice_coerce@, crate::ids::node_key_spec(file, node))
}

/// An array viewed as a slice, where it is known.
pub fn fact_slice_coerce(facts: &Facts, file: FileId, node: NodeId) -> (r: Option<&SliceCoerce>)
    ensures
        r == fact_slice_coerce_spec(facts, file, node),
{
    facts.slice_coerce.get(node_key(file, node))
}

/// A pointer unsized to a trait object, where it is known.
pub open spec fn fact_dyn_coerce_spec(facts: &Facts, file: FileId, node: NodeId) -> Option<&DynCoerce> {
    crate::table::table_get_spec(facts.dyn_coerce@, crate::ids::node_key_spec(file, node))
}

/// A pointer unsized to a trait object, where it is known.
pub fn fact_dyn_coerce(facts: &Facts, file: FileId, node: NodeId) -> (r: Option<&DynCoerce>)
    ensures
        r == fact_dyn_coerce_spec(facts, file, node),
{
    facts.dyn_coerce.get(node_key(file, node))
}

/// An `@using` upcast, where it is known.
pub open spec fn fact_upcast_spec(facts: &Facts, file: FileId, node: NodeId) -> Option<&Upcast> {
    crate::table::table_get_spec(facts.upcast@, crate::ids::node_key_spec(file, node))
}

/// An `@using` upcast, where it is known.
pub fn fact_upcast(facts: &Facts, file: FileId, node: NodeId) -> (r: Option<&Upcast>)
    ensures
        r == fact_upcast_spec(facts, file, node),
{
    facts.upcast.get(node_key(file, node))
}

/// The signature of a closure, where it is known.
pub open spec fn fact_closure_sig_spec(facts: &Facts, file: FileId, node: NodeId) -> Option<&ClosureSig> {
    crate::table::table_get_spec(facts.closure_sig@, crate::ids::node_key_spec(file, node))
}

/// The signature of a closure, where it is known.
pub fn fact_closure_sig(facts: &Facts, file: FileId, node: NodeId) -> (r: Option<&ClosureSig>)
    ensures
        r == fact_closure_sig_spec(facts, file, node),
{
    facts.closure_sig.get(node_key(file, node))
}

/// A call on a value that is not a function pointer, where it is known.
pub open spec fn fact_func_call_spec(facts: &Facts, file: FileId, node: NodeId) -> Option<&FuncCall> {
    crate::table::table_get_spec(facts.func_call@, crate::ids::node_key_spec(file, node))
}

/// A call on a value that is not a function pointer, where it is known.
pub fn fact_func_call(facts: &Facts, file: FileId, node: NodeId) -> (r: Option<&FuncCall>)
    ensures
        r == fact_func_call_spec(facts, file, node),
{
    facts.func_call.get(node_key(file, node))
}

/// A call written `f.call(args)`, where it is known.
pub open spec fn fact_func_call_method_spec(
    facts: &Facts,
    file: FileId,
    node: NodeId,
) -> Option<&FuncCallMethod> {
    crate::table::table_get_spec(facts.func_call_method@, crate::ids::node_key_spec(file, node))
}

/// A call written `f.call(args)`, where it is known.
pub fn fact_func_call_method(facts: &Facts, file: FileId, node: NodeId) -> (r: Option<&FuncCallMethod>)
    ensures
        r == fact_func_call_method_spec(facts, file, node),
{
    facts.func_call_method.get(node_key(file, node))
}

/// A receiver read as its representation, where it is known.
pub open spec fn fact_distinct_recv_spec(facts: &Facts, file: FileId, node: NodeId) -> Option<&DistinctRecv> {
    crate::table::table_get_spec(facts.distinct_recv@, crate::ids::node_key_spec(file, node))
}

/// A receiver read as its representation, where it is known.
pub fn fact_distinct_recv(facts: &Facts, file: FileId, node: NodeId) -> (r: Option<&DistinctRecv>)
    ensures
        r == fact_distinct_recv_spec(facts, file, node),
{
    facts.distinct_recv.get(node_key(file, node))
}

/// The arguments of a call in parameter order, where it is known.
pub open spec fn fact_arg_order_spec(facts: &Facts, file: FileId, node: NodeId) -> Option<&ArgOrder> {
    crate::table::table_get_spec(facts.arg_order@, crate::ids::node_key_spec(file, node))
}

/// The arguments of a call in parameter order, where it is known.
pub fn fact_arg_order(facts: &Facts, file: FileId, node: NodeId) -> (r: Option<&ArgOrder>)
    ensures
        r == fact_arg_order_spec(facts, file, node),
{
    facts.arg_order.get(node_key(file, node))
}

/// What a declaration is generic over, where it is known.
pub open spec fn fact_generics_spec(facts: &Facts, file: FileId, node: NodeId) -> Option<&Generics> {
    crate::table::table_get_spec(facts.generics@, crate::ids::node_key_spec(file, node))
}

/// What a declaration is generic over, where it is known.
pub fn fact_generics(facts: &Facts, file: FileId, node: NodeId) -> (r: Option<&Generics>)
    ensures
        r == fact_generics_spec(facts, file, node),
{
    facts.generics.get(node_key(file, node))
}

/// What a call binds the callee's parameters to, where it is known.
pub open spec fn fact_instantiation_spec(
    facts: &Facts,
    file: FileId,
    node: NodeId,
) -> Option<&Instantiation> {
    crate::table::table_get_spec(facts.instantiation@, crate::ids::node_key_spec(file, node))
}

/// What a call binds the callee's parameters to, where it is known.
pub fn fact_instantiation(facts: &Facts, file: FileId, node: NodeId) -> (r: Option<&Instantiation>)
    ensures
        r == fact_instantiation_spec(facts, file, node),
{
    facts.instantiation.get(node_key(file, node))
}

} // verus!
