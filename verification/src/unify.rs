//! The state of inferring a file: the variables being solved, what is recorded
//! about each node on the way, and unification.

use vstd::prelude::*;

use crate::ast::{BinOp, CompositeBody, VariantPayload};
use crate::bigint::{dup_int, Int};
use crate::def::{dup_defs, span_of, ImplInfo, Projection, Tables};
use crate::diag::{Diagnostic, Part};
use crate::facts::{
    dup_assoc_ty, dup_closure_sig, dup_coercion, dup_dyn_coerce, dup_format_call, dup_instantiation,
    dup_method_res, dup_opaque_ty, dup_resolution, dup_resolutions, dup_slice_coerce, dup_static_trait_self,
    dup_upcast, ArgOrder, AssocTy, ClosureDefs, ClosureSig, Coercion, ConstSlotReported, DistinctRecv,
    DynCoerce, Facts, FactsV, FormatCall, FuncCall, Generics, IndexWrite, Instantiation, MethodRes,
    OpResolution, OpaqueTy, RangeReported, Resolution, SliceCoerce, StaticTraitSelf, TyPathReported, Upcast,
    VariantTag, WideFloat,
};
use crate::ids::{def_key, node_key, DefId, FileId, NodeId};
use crate::list::{append, list_len, single, DEPTH_LIMIT, List};
use crate::subst::{dup_opt_sym, find_ty, is_error, Mention};
use crate::symbol::{dup_sym, sym_eq, Symbol};
use crate::table::Table;
use crate::ty::{
    const_eq, const_value, dup_const, dup_named_tys, dup_ty, dup_tys, is_float, is_int, ty_eq, Const,
    FloatWidth, Ty,
};

verus! {

broadcast use {
    crate::keeping::kept_by_both,
    crate::keeping::kept_by_nothing,
    crate::keeping::loops_stand_on,
    crate::keeping::loops_stand_still,
};

/// What a type variable may become.
#[derive(Debug, Clone, Copy, PartialEq, Eq, Structural)]
pub enum TyVarKind {
    General,
    /// An integer literal's: an integer type.
    Int,
    /// A float literal's: a float type.
    Float,
    /// A string literal's: `str`, or a slice of bytes or characters.
    Str,
}

/// One enclosing loop while its body is being inferred.
pub struct LoopFrame {
    /// The type its `break`s agree on.
    pub ty: Ty,
    /// Whether any `break` targeted it. A `loop` with none never finishes.
    pub broke: bool,
}

/// Something the solver still has to settle.
#[allow(inconsistent_fields)]
pub enum Obligation {
    /// A type implements a trait; `stamp` is the method to record at `origin`.
    Trait { self_ty: Ty, trait_def: DefId, args: List<Ty>, origin: NodeId, stamp: Option<Symbol> },
    /// A type's associated type is `out`.
    Projection {
        self_ty: Ty,
        trait_def: DefId,
        args: List<Ty>,
        assoc: Symbol,
        out: Ty,
        origin: NodeId,
        method: Option<Symbol>,
    },
    /// A variant literal's arguments fit the variant of the enum it turns out to
    /// be.
    VariantPayload { recv: Ty, variant: Symbol, args: List<(Option<Symbol>, Ty)>, origin: NodeId },
    /// A composite literal's body fits the type it turns out to have.
    CompositeBody { recv: Ty, origin: NodeId },
    /// A type's field is `out`.
    Field { recv: Ty, name: Symbol, out: Ty, origin: NodeId },
    /// A type can be compared.
    Comparison { self_ty: Ty, op: BinOp, origin: NodeId },
}

/// What inference reads: the program's tables, its impls, and which traits a
/// method name may mean here.
pub struct InferCx<'a> {
    pub tables: &'a Tables,
    pub impls: &'a Vec<ImplInfo>,
    /// Traits whose methods a name in this file may mean.
    pub in_scope: &'a List<DefId>,
    /// Traits the language's own syntax reaches.
    pub lang_traits: &'a List<DefId>,
}

/// The state of inferring a file.
pub struct Inferer {
    pub facts: Facts,
    pub diags: Vec<Diagnostic>,
    pub file: FileId,
    /// Whether the expression being inferred is a default argument.
    pub in_default: bool,
    /// Where the expressions being inferred are written, for privacy.
    pub ctx: Option<DefId>,
    /// Whether package boundaries are checked at all.
    pub packaged: bool,
    pub next_var: u32,
    pub next_const: u32,
    /// Solved type variables, the latest first.
    pub bindings: List<(u32, Ty)>,
    /// Solved compile-time variables, the latest first.
    pub const_bindings: List<(u32, Const)>,
    /// The variables that may only become certain types.
    pub kinds: List<(u32, TyVarKind)>,
    /// The variables something that never is was held to.
    pub diverged: List<u32>,
    /// Whether a walk gave up on something nested too deeply.
    pub deep: bool,
    /// What is still to be settled, the oldest first.
    pub obligations: List<Obligation>,
    /// What associated types were constrained to by name.
    pub assoc: List<(Symbol, Ty)>,
    /// The `distinct` types that stand over a number, and which.
    pub distincts: List<(DefId, Ty)>,
    /// The type of strings.
    pub str_ty: Option<Ty>,
    /// `usize` and `isize`.
    pub ptr_ints: Option<(Ty, Ty)>,
    /// The type of each local and parameter.
    pub locals: Table<Ty>,
    /// The type of each node, while it is being inferred.
    pub types: Table<Ty>,
    /// What the function being inferred returns.
    pub ret: Ty,
    /// The enclosing loops, innermost first.
    pub breaks: List<LoopFrame>,
    /// The function being inferred.
    pub func: Option<NodeId>,
    /// Aliases being expanded, innermost first.
    pub alias_stack: List<DefId>,
    /// Constants being typed, innermost first.
    pub const_stack: List<DefId>,
    /// The exact integer behind a literal, or behind a use of a constant.
    pub int_values: Table<Int>,
    /// The same for floats, by their bits.
    pub float_values: Table<u64>,
}

/// The state of inferring a file, as a mathematical value.
pub struct InfererV {
    pub facts: FactsV,
    pub diags: Seq<Diagnostic>,
    pub file: FileId,
    pub in_default: bool,
    pub ctx: Option<DefId>,
    pub packaged: bool,
    pub next_var: u32,
    pub next_const: u32,
    pub bindings: List<(u32, Ty)>,
    pub const_bindings: List<(u32, Const)>,
    pub kinds: List<(u32, TyVarKind)>,
    pub diverged: List<u32>,
    pub deep: bool,
    pub obligations: List<Obligation>,
    pub assoc: List<(Symbol, Ty)>,
    pub distincts: List<(DefId, Ty)>,
    pub str_ty: Option<Ty>,
    pub ptr_ints: Option<(Ty, Ty)>,
    pub locals: Map<u64, Ty>,
    pub types: Map<u64, Ty>,
    pub ret: Ty,
    pub breaks: List<LoopFrame>,
    pub func: Option<NodeId>,
    pub alias_stack: List<DefId>,
    pub const_stack: List<DefId>,
    pub int_values: Map<u64, Int>,
    pub float_values: Map<u64, u64>,
}

impl View for Inferer {
    type V = InfererV;

    open spec fn view(&self) -> InfererV {
        InfererV {
            facts: self.facts@,
            diags: self.diags@,
            file: self.file,
            in_default: self.in_default,
            ctx: self.ctx,
            packaged: self.packaged,
            next_var: self.next_var,
            next_const: self.next_const,
            bindings: self.bindings,
            const_bindings: self.const_bindings,
            kinds: self.kinds,
            diverged: self.diverged,
            deep: self.deep,
            obligations: self.obligations,
            assoc: self.assoc,
            distincts: self.distincts,
            str_ty: self.str_ty,
            ptr_ints: self.ptr_ints,
            locals: self.locals@,
            types: self.types@,
            ret: self.ret,
            breaks: self.breaks,
            func: self.func,
            alias_stack: self.alias_stack,
            const_stack: self.const_stack,
            int_values: self.int_values@,
            float_values: self.float_values@,
        }
    }
}

/// Whether nothing changed but what is solved.
pub open spec fn only_solved(old_st: InfererV, new_st: InfererV) -> bool {
    new_st == (InfererV {
        bindings: new_st.bindings,
        const_bindings: new_st.const_bindings,
        diverged: new_st.diverged,
        deep: new_st.deep,
        ..old_st
    })
}

/// Whether what is solved, and what is still to be settled, is as it was.
pub open spec fn undone(old_st: InfererV, new_st: InfererV) -> bool {
    &&& old_st.bindings == new_st.bindings
    &&& old_st.const_bindings == new_st.const_bindings
    &&& old_st.diverged == new_st.diverged
    &&& old_st.obligations == new_st.obligations
}

/// Whether a type holds no variable.
pub open spec fn settled(ty: &Ty) -> bool {
    !crate::subst::mentions_spec(ty, Mention::Var)
}

/// Whether none of a list of types holds a variable.
pub open spec fn all_settled(l: &List<Ty>) -> bool {
    !crate::subst::any_mentions_spec(l, Mention::Var)
}

/// Whether the types that literals settle on hold no variables.
pub open spec fn literals_settled(st: InfererV) -> bool {
    &&& match st.str_ty {
        Some(t) => settled(&t),
        None => true,
    }
    &&& match st.ptr_ints {
        Some(p) => settled(&p.0) && settled(&p.1),
        None => true,
    }
}

/// What a map holds at a key.
pub open spec fn map_get<T>(m: Map<u64, T>, k: u64) -> Option<T> {
    if m.dom().contains(k) { Some(m[k]) } else { None }
}

// What is recorded.

/// The type inferred for a node of the file, where it is known.
pub open spec fn get_type_spec(st: InfererV, node: NodeId) -> Option<Ty> {
    map_get(st.types, node.0 as u64)
}

/// Record the type inferred for a node of the file.
pub open spec fn set_type_spec(st: InfererV, node: NodeId, x: Ty) -> InfererV {
    InfererV { types: st.types.insert(node.0 as u64, x), ..st }
}

/// The type of a local or a parameter, where it is known.
pub open spec fn get_local_spec(st: InfererV, def: DefId) -> Option<Ty> {
    map_get(st.locals, crate::ids::def_key_spec(def))
}

/// Record the type of a local or a parameter.
pub open spec fn set_local_spec(st: InfererV, def: DefId, x: Ty) -> InfererV {
    InfererV { locals: st.locals.insert(crate::ids::def_key_spec(def), x), ..st }
}

/// The exact integer behind a node, where it is known.
pub open spec fn get_int_spec(st: InfererV, node: NodeId) -> Option<Int> {
    map_get(st.int_values, node.0 as u64)
}

/// Record the exact integer behind a node.
pub open spec fn set_int_spec(st: InfererV, node: NodeId, x: Int) -> InfererV {
    InfererV { int_values: st.int_values.insert(node.0 as u64, x), ..st }
}

/// The exact float behind a node, where it is known.
pub open spec fn get_float_spec(st: InfererV, node: NodeId) -> Option<u64> {
    map_get(st.float_values, node.0 as u64)
}

/// Record the exact float behind a node.
pub open spec fn set_float_spec(st: InfererV, node: NodeId, x: u64) -> InfererV {
    InfererV { float_values: st.float_values.insert(node.0 as u64, x), ..st }
}

/// Solve a type variable.
pub open spec fn push_binding_spec(st: InfererV, x: (u32, Ty)) -> InfererV {
    InfererV { bindings: List::Cons(x, Box::new(st.bindings)), ..st }
}

/// Solve a compile-time variable.
pub open spec fn push_const_binding_spec(st: InfererV, x: (u32, Const)) -> InfererV {
    InfererV { const_bindings: List::Cons(x, Box::new(st.const_bindings)), ..st }
}

/// Restrict what a type variable may become.
pub open spec fn push_kind_spec(st: InfererV, x: (u32, TyVarKind)) -> InfererV {
    InfererV { kinds: List::Cons(x, Box::new(st.kinds)), ..st }
}

/// Note that something that never is was held to a type variable.
pub open spec fn push_diverged_spec(st: InfererV, x: u32) -> InfererV {
    InfererV { diverged: List::Cons(x, Box::new(st.diverged)), ..st }
}

/// Record what an associated type is constrained to.
pub open spec fn push_assoc_spec(st: InfererV, x: (Symbol, Ty)) -> InfererV {
    InfererV { assoc: List::Cons(x, Box::new(st.assoc)), ..st }
}

/// Go into a loop.
pub open spec fn push_break_spec(st: InfererV, x: LoopFrame) -> InfererV {
    InfererV { breaks: List::Cons(x, Box::new(st.breaks)), ..st }
}

/// Come out of the innermost loop.
pub open spec fn pop_break_spec(st: InfererV) -> InfererV {
    match st.breaks {
        List::Nil => st,
        List::Cons(_, t) => InfererV { breaks: *t, ..st },
    }
}

/// Begin expanding an alias.
pub open spec fn push_alias_spec(st: InfererV, x: DefId) -> InfererV {
    InfererV { alias_stack: List::Cons(x, Box::new(st.alias_stack)), ..st }
}

/// Finish expanding an alias.
pub open spec fn pop_alias_spec(st: InfererV) -> InfererV {
    match st.alias_stack {
        List::Nil => st,
        List::Cons(_, t) => InfererV { alias_stack: *t, ..st },
    }
}

/// Begin typing a constant.
pub open spec fn push_const_def_spec(st: InfererV, x: DefId) -> InfererV {
    InfererV { const_stack: List::Cons(x, Box::new(st.const_stack)), ..st }
}

/// Finish typing a constant.
pub open spec fn pop_const_def_spec(st: InfererV) -> InfererV {
    match st.const_stack {
        List::Nil => st,
        List::Cons(_, t) => InfererV { const_stack: *t, ..st },
    }
}

impl Inferer {
    /// The type inferred for a node of the file, where it is known.
    pub fn get_type(&self, node: NodeId) -> (r: Option<Ty>)
        ensures
            r == get_type_spec(self@, node),
    {
        match self.types.get(node.0 as u64) {
            Some(x) => Some(dup_ty(x)),
            None => None,
        }
    }

    /// Record the type inferred for a node of the file.
    pub fn set_type(&mut self, node: NodeId, x: Ty)
        ensures
            final(self)@ == set_type_spec(old(self)@, node, x),
            crate::keeping::kept(old(self)@, final(self)@),
    {
        proof {
            reveal(crate::keeping::kept);
        }
        self.types.set(node.0 as u64, x);
    }

    /// The type of a local or a parameter, where it is known.
    pub fn get_local(&self, def: DefId) -> (r: Option<Ty>)
        ensures
            r == get_local_spec(self@, def),
    {
        match self.locals.get(def_key(def)) {
            Some(x) => Some(dup_ty(x)),
            None => None,
        }
    }

    /// Record the type of a local or a parameter.
    pub fn set_local(&mut self, def: DefId, x: Ty)
        ensures
            final(self)@ == set_local_spec(old(self)@, def, x),
            crate::keeping::kept(old(self)@, final(self)@),
    {
        proof {
            reveal(crate::keeping::kept);
        }
        self.locals.set(def_key(def), x);
    }

    /// The exact integer behind a node, where it is known.
    pub fn get_int(&self, node: NodeId) -> (r: Option<Int>)
        ensures
            r == get_int_spec(self@, node),
    {
        match self.int_values.get(node.0 as u64) {
            Some(x) => Some(dup_int(x)),
            None => None,
        }
    }

    /// Record the exact integer behind a node.
    pub fn set_int(&mut self, node: NodeId, x: Int)
        ensures
            final(self)@ == set_int_spec(old(self)@, node, x),
            crate::keeping::kept(old(self)@, final(self)@),
    {
        proof {
            reveal(crate::keeping::kept);
        }
        self.int_values.set(node.0 as u64, x);
    }

    /// The exact float behind a node, where it is known.
    pub fn get_float(&self, node: NodeId) -> (r: Option<u64>)
        ensures
            r == get_float_spec(self@, node),
    {
        match self.float_values.get(node.0 as u64) {
            Some(x) => Some(*x),
            None => None,
        }
    }

    /// Record the exact float behind a node.
    pub fn set_float(&mut self, node: NodeId, x: u64)
        ensures
            final(self)@ == set_float_spec(old(self)@, node, x),
            crate::keeping::kept(old(self)@, final(self)@),
    {
        proof {
            reveal(crate::keeping::kept);
        }
        self.float_values.set(node.0 as u64, x);
    }

    /// Solve a type variable.
    pub fn push_binding(&mut self, x: (u32, Ty))
        ensures
            final(self)@ == push_binding_spec(old(self)@, x),
            crate::keeping::kept(old(self)@, final(self)@),
    {
        proof {
            reveal(crate::keeping::kept);
        }
        let mut all: List<(u32, Ty)> = List::Nil;
        std::mem::swap(&mut all, &mut self.bindings);
        self.bindings = List::Cons(x, Box::new(all));
    }

    /// Solve a compile-time variable.
    pub fn push_const_binding(&mut self, x: (u32, Const))
        ensures
            final(self)@ == push_const_binding_spec(old(self)@, x),
            crate::keeping::kept(old(self)@, final(self)@),
    {
        proof {
            reveal(crate::keeping::kept);
        }
        let mut all: List<(u32, Const)> = List::Nil;
        std::mem::swap(&mut all, &mut self.const_bindings);
        self.const_bindings = List::Cons(x, Box::new(all));
    }

    /// Restrict what a type variable may become.
    pub fn push_kind(&mut self, x: (u32, TyVarKind))
        ensures
            final(self)@ == push_kind_spec(old(self)@, x),
            crate::keeping::kept(old(self)@, final(self)@),
    {
        proof {
            reveal(crate::keeping::kept);
        }
        let mut all: List<(u32, TyVarKind)> = List::Nil;
        std::mem::swap(&mut all, &mut self.kinds);
        self.kinds = List::Cons(x, Box::new(all));
    }

    /// Note that something that never is was held to a type variable.
    pub fn push_diverged(&mut self, x: u32)
        ensures
            final(self)@ == push_diverged_spec(old(self)@, x),
            crate::keeping::kept(old(self)@, final(self)@),
    {
        proof {
            reveal(crate::keeping::kept);
        }
        let mut all: List<u32> = List::Nil;
        std::mem::swap(&mut all, &mut self.diverged);
        self.diverged = List::Cons(x, Box::new(all));
    }

    /// Record what an associated type is constrained to.
    pub fn push_assoc(&mut self, x: (Symbol, Ty))
        ensures
            final(self)@ == push_assoc_spec(old(self)@, x),
            crate::keeping::kept(old(self)@, final(self)@),
    {
        proof {
            reveal(crate::keeping::kept);
        }
        let mut all: List<(Symbol, Ty)> = List::Nil;
        std::mem::swap(&mut all, &mut self.assoc);
        self.assoc = List::Cons(x, Box::new(all));
    }

    /// Go into a loop.
    pub fn push_break(&mut self, x: LoopFrame)
        ensures
            final(self)@ == push_break_spec(old(self)@, x),
    {
        let mut all: List<LoopFrame> = List::Nil;
        std::mem::swap(&mut all, &mut self.breaks);
        self.breaks = List::Cons(x, Box::new(all));
    }

    /// Come out of the innermost loop.
    pub fn pop_break(&mut self)
        ensures
            final(self)@ == pop_break_spec(old(self)@),
    {
        let mut all: List<LoopFrame> = List::Nil;
        std::mem::swap(&mut all, &mut self.breaks);
        match all {
            List::Nil => {
                self.breaks = List::Nil;
            },
            List::Cons(_, t) => {
                self.breaks = *t;
            },
        }
    }

    /// Begin expanding an alias.
    pub fn push_alias(&mut self, x: DefId)
        ensures
            final(self)@ == push_alias_spec(old(self)@, x),
    {
        let mut all: List<DefId> = List::Nil;
        std::mem::swap(&mut all, &mut self.alias_stack);
        self.alias_stack = List::Cons(x, Box::new(all));
    }

    /// Finish expanding an alias.
    pub fn pop_alias(&mut self)
        ensures
            final(self)@ == pop_alias_spec(old(self)@),
    {
        let mut all: List<DefId> = List::Nil;
        std::mem::swap(&mut all, &mut self.alias_stack);
        match all {
            List::Nil => {
                self.alias_stack = List::Nil;
            },
            List::Cons(_, t) => {
                self.alias_stack = *t;
            },
        }
    }

    /// Begin typing a constant.
    pub fn push_const_def(&mut self, x: DefId)
        ensures
            final(self)@ == push_const_def_spec(old(self)@, x),
    {
        let mut all: List<DefId> = List::Nil;
        std::mem::swap(&mut all, &mut self.const_stack);
        self.const_stack = List::Cons(x, Box::new(all));
    }

    /// Finish typing a constant.
    pub fn pop_const_def(&mut self)
        ensures
            final(self)@ == pop_const_def_spec(old(self)@),
    {
        let mut all: List<DefId> = List::Nil;
        std::mem::swap(&mut all, &mut self.const_stack);
        match all {
            List::Nil => {
                self.const_stack = List::Nil;
            },
            List::Cons(_, t) => {
                self.const_stack = *t;
            },
        }
    }

}

// The facts.

/// [`Inferer::get_ty`], as a mathematical function.
pub open spec fn get_ty_spec(st: InfererV, file: FileId, node: NodeId) -> Option<Ty> {
    map_get(st.facts.ty, crate::ids::node_key_spec(file, node))
}

/// [`Inferer::set_ty`], as a mathematical function.
pub open spec fn set_ty_spec(st: InfererV, file: FileId, node: NodeId, x: Ty) -> InfererV {
    InfererV {
        facts: FactsV { ty: st.facts.ty.insert(crate::ids::node_key_spec(file, node), x), ..st.facts },
        ..st
    }
}

/// [`Inferer::get_resolution`], as a mathematical function.
pub open spec fn get_resolution_spec(st: InfererV, file: FileId, node: NodeId) -> Option<Resolution> {
    map_get(st.facts.resolution, crate::ids::node_key_spec(file, node))
}

/// [`Inferer::set_resolution`], as a mathematical function.
pub open spec fn set_resolution_spec(st: InfererV, file: FileId, node: NodeId, x: Resolution) -> InfererV {
    InfererV {
        facts: FactsV {
            resolution: st.facts.resolution.insert(crate::ids::node_key_spec(file, node), x),
            ..st.facts
        },
        ..st
    }
}

/// [`Inferer::get_path_res`], as a mathematical function.
pub open spec fn get_path_res_spec(st: InfererV, file: FileId, node: NodeId) -> Option<List<Resolution>> {
    map_get(st.facts.path_res, crate::ids::node_key_spec(file, node))
}

/// [`Inferer::get_def_meta`], as a mathematical function.
pub open spec fn get_def_meta_spec(st: InfererV, file: FileId, node: NodeId) -> Option<DefId> {
    map_get(st.facts.def_meta, crate::ids::node_key_spec(file, node))
}

/// [`Inferer::get_closure_defs`], as a mathematical function.
pub open spec fn get_closure_defs_spec(st: InfererV, file: FileId, node: NodeId) -> Option<ClosureDefs> {
    map_get(st.facts.closure_defs, crate::ids::node_key_spec(file, node))
}

/// [`Inferer::get_captures`], as a mathematical function.
pub open spec fn get_captures_spec(st: InfererV, file: FileId, node: NodeId) -> Option<List<DefId>> {
    map_get(st.facts.captures, crate::ids::node_key_spec(file, node))
}

/// [`Inferer::get_opaque_args`], as a mathematical function.
pub open spec fn get_opaque_args_spec(st: InfererV, file: FileId, node: NodeId) -> Option<List<DefId>> {
    map_get(st.facts.opaque_args, crate::ids::node_key_spec(file, node))
}

/// [`Inferer::get_signature`], as a mathematical function.
pub open spec fn get_signature_spec(st: InfererV, file: FileId, node: NodeId) -> Option<Ty> {
    map_get(st.facts.signature, crate::ids::node_key_spec(file, node))
}

/// [`Inferer::set_signature`], as a mathematical function.
pub open spec fn set_signature_spec(st: InfererV, file: FileId, node: NodeId, x: Ty) -> InfererV {
    InfererV {
        facts: FactsV {
            signature: st.facts.signature.insert(crate::ids::node_key_spec(file, node), x),
            ..st.facts
        },
        ..st
    }
}

/// [`Inferer::set_expansion`], as a mathematical function.
pub open spec fn set_expansion_spec(st: InfererV, file: FileId, node: NodeId, x: Ty) -> InfererV {
    InfererV {
        facts: FactsV {
            expansion: st.facts.expansion.insert(crate::ids::node_key_spec(file, node), x),
            ..st.facts
        },
        ..st
    }
}

/// [`get_variant_tag`], as a mathematical function.
pub open spec fn get_variant_tag_spec(st: InfererV, file: FileId, node: NodeId) -> Option<VariantTag> {
    map_get(st.facts.variant_tag, crate::ids::node_key_spec(file, node))
}

/// [`Inferer::set_variant_tag`], as a mathematical function.
pub open spec fn set_variant_tag_spec(st: InfererV, file: FileId, node: NodeId, x: VariantTag) -> InfererV {
    InfererV {
        facts: FactsV {
            variant_tag: st.facts.variant_tag.insert(crate::ids::node_key_spec(file, node), x),
            ..st.facts
        },
        ..st
    }
}

/// [`Inferer::get_static_trait_self`], as a mathematical function.
pub open spec fn get_static_trait_self_spec(
    st: InfererV,
    file: FileId,
    node: NodeId,
) -> Option<StaticTraitSelf> {
    map_get(st.facts.static_trait_self, crate::ids::node_key_spec(file, node))
}

/// [`Inferer::set_static_trait_self`], as a mathematical function.
pub open spec fn set_static_trait_self_spec(
    st: InfererV,
    file: FileId,
    node: NodeId,
    x: StaticTraitSelf,
) -> InfererV {
    InfererV {
        facts: FactsV {
            static_trait_self: st.facts.static_trait_self.insert(crate::ids::node_key_spec(file, node), x),
            ..st.facts
        },
        ..st
    }
}

/// [`Inferer::set_op_resolution`], as a mathematical function.
pub open spec fn set_op_resolution_spec(
    st: InfererV,
    file: FileId,
    node: NodeId,
    x: OpResolution,
) -> InfererV {
    InfererV {
        facts: FactsV {
            op_resolution: st.facts.op_resolution.insert(crate::ids::node_key_spec(file, node), x),
            ..st.facts
        },
        ..st
    }
}

/// [`Inferer::get_method_res`], as a mathematical function.
pub open spec fn get_method_res_spec(st: InfererV, file: FileId, node: NodeId) -> Option<MethodRes> {
    map_get(st.facts.method_res, crate::ids::node_key_spec(file, node))
}

/// [`Inferer::set_method_res`], as a mathematical function.
pub open spec fn set_method_res_spec(st: InfererV, file: FileId, node: NodeId, x: MethodRes) -> InfererV {
    InfererV {
        facts: FactsV {
            method_res: st.facts.method_res.insert(crate::ids::node_key_spec(file, node), x),
            ..st.facts
        },
        ..st
    }
}

/// [`get_range_reported`], as a mathematical function.
pub open spec fn get_range_reported_spec(st: InfererV, file: FileId, node: NodeId) -> Option<RangeReported> {
    map_get(st.facts.range_reported, crate::ids::node_key_spec(file, node))
}

/// [`Inferer::set_range_reported`], as a mathematical function.
pub open spec fn set_range_reported_spec(
    st: InfererV,
    file: FileId,
    node: NodeId,
    x: RangeReported,
) -> InfererV {
    InfererV {
        facts: FactsV {
            range_reported: st.facts.range_reported.insert(crate::ids::node_key_spec(file, node), x),
            ..st.facts
        },
        ..st
    }
}

/// [`Inferer::get_const_slot_reported`], as a mathematical function.
pub open spec fn get_const_slot_reported_spec(
    st: InfererV,
    file: FileId,
    node: NodeId,
) -> Option<ConstSlotReported> {
    map_get(st.facts.const_slot_reported, crate::ids::node_key_spec(file, node))
}

/// [`Inferer::set_const_slot_reported`], as a mathematical function.
pub open spec fn set_const_slot_reported_spec(
    st: InfererV,
    file: FileId,
    node: NodeId,
    x: ConstSlotReported,
) -> InfererV {
    InfererV {
        facts: FactsV {
            const_slot_reported: st.facts.const_slot_reported.insert(
                crate::ids::node_key_spec(file, node),
                x,
            ),
            ..st.facts
        },
        ..st
    }
}

/// [`Inferer::get_ty_path_reported`], as a mathematical function.
pub open spec fn get_ty_path_reported_spec(
    st: InfererV,
    file: FileId,
    node: NodeId,
) -> Option<TyPathReported> {
    map_get(st.facts.ty_path_reported, crate::ids::node_key_spec(file, node))
}

/// [`Inferer::set_ty_path_reported`], as a mathematical function.
pub open spec fn set_ty_path_reported_spec(
    st: InfererV,
    file: FileId,
    node: NodeId,
    x: TyPathReported,
) -> InfererV {
    InfererV {
        facts: FactsV {
            ty_path_reported: st.facts.ty_path_reported.insert(crate::ids::node_key_spec(file, node), x),
            ..st.facts
        },
        ..st
    }
}

/// [`Inferer::set_index_write`], as a mathematical function.
pub open spec fn set_index_write_spec(st: InfererV, file: FileId, node: NodeId, x: IndexWrite) -> InfererV {
    InfererV {
        facts: FactsV {
            index_write: st.facts.index_write.insert(crate::ids::node_key_spec(file, node), x),
            ..st.facts
        },
        ..st
    }
}

/// [`Inferer::get_coercion`], as a mathematical function.
pub open spec fn get_coercion_spec(st: InfererV, file: FileId, node: NodeId) -> Option<Coercion> {
    map_get(st.facts.coercion, crate::ids::node_key_spec(file, node))
}

/// [`Inferer::set_coercion`], as a mathematical function.
pub open spec fn set_coercion_spec(st: InfererV, file: FileId, node: NodeId, x: Coercion) -> InfererV {
    InfererV {
        facts: FactsV {
            coercion: st.facts.coercion.insert(crate::ids::node_key_spec(file, node), x),
            ..st.facts
        },
        ..st
    }
}

/// [`Inferer::get_slice_coerce`], as a mathematical function.
pub open spec fn get_slice_coerce_spec(st: InfererV, file: FileId, node: NodeId) -> Option<SliceCoerce> {
    map_get(st.facts.slice_coerce, crate::ids::node_key_spec(file, node))
}

/// [`Inferer::set_slice_coerce`], as a mathematical function.
pub open spec fn set_slice_coerce_spec(st: InfererV, file: FileId, node: NodeId, x: SliceCoerce) -> InfererV {
    InfererV {
        facts: FactsV {
            slice_coerce: st.facts.slice_coerce.insert(crate::ids::node_key_spec(file, node), x),
            ..st.facts
        },
        ..st
    }
}

/// [`Inferer::get_dyn_coerce`], as a mathematical function.
pub open spec fn get_dyn_coerce_spec(st: InfererV, file: FileId, node: NodeId) -> Option<DynCoerce> {
    map_get(st.facts.dyn_coerce, crate::ids::node_key_spec(file, node))
}

/// [`Inferer::set_dyn_coerce`], as a mathematical function.
pub open spec fn set_dyn_coerce_spec(st: InfererV, file: FileId, node: NodeId, x: DynCoerce) -> InfererV {
    InfererV {
        facts: FactsV {
            dyn_coerce: st.facts.dyn_coerce.insert(crate::ids::node_key_spec(file, node), x),
            ..st.facts
        },
        ..st
    }
}

/// [`Inferer::get_upcast`], as a mathematical function.
pub open spec fn get_upcast_spec(st: InfererV, file: FileId, node: NodeId) -> Option<Upcast> {
    map_get(st.facts.upcast, crate::ids::node_key_spec(file, node))
}

/// [`Inferer::set_upcast`], as a mathematical function.
pub open spec fn set_upcast_spec(st: InfererV, file: FileId, node: NodeId, x: Upcast) -> InfererV {
    InfererV {
        facts: FactsV {
            upcast: st.facts.upcast.insert(crate::ids::node_key_spec(file, node), x),
            ..st.facts
        },
        ..st
    }
}

/// [`Inferer::get_closure_sig`], as a mathematical function.
pub open spec fn get_closure_sig_spec(st: InfererV, file: FileId, node: NodeId) -> Option<ClosureSig> {
    map_get(st.facts.closure_sig, crate::ids::node_key_spec(file, node))
}

/// [`Inferer::set_closure_sig`], as a mathematical function.
pub open spec fn set_closure_sig_spec(st: InfererV, file: FileId, node: NodeId, x: ClosureSig) -> InfererV {
    InfererV {
        facts: FactsV {
            closure_sig: st.facts.closure_sig.insert(crate::ids::node_key_spec(file, node), x),
            ..st.facts
        },
        ..st
    }
}

/// [`Inferer::get_opaque_ty`], as a mathematical function.
pub open spec fn get_opaque_ty_spec(st: InfererV, file: FileId, node: NodeId) -> Option<OpaqueTy> {
    map_get(st.facts.opaque_ty, crate::ids::node_key_spec(file, node))
}

/// [`Inferer::set_opaque_ty`], as a mathematical function.
pub open spec fn set_opaque_ty_spec(st: InfererV, file: FileId, node: NodeId, x: OpaqueTy) -> InfererV {
    InfererV {
        facts: FactsV {
            opaque_ty: st.facts.opaque_ty.insert(crate::ids::node_key_spec(file, node), x),
            ..st.facts
        },
        ..st
    }
}

/// [`Inferer::set_func_call`], as a mathematical function.
pub open spec fn set_func_call_spec(st: InfererV, file: FileId, node: NodeId, x: FuncCall) -> InfererV {
    InfererV {
        facts: FactsV {
            func_call: st.facts.func_call.insert(crate::ids::node_key_spec(file, node), x),
            ..st.facts
        },
        ..st
    }
}

/// [`Inferer::set_distinct_recv`], as a mathematical function.
pub open spec fn set_distinct_recv_spec(
    st: InfererV,
    file: FileId,
    node: NodeId,
    x: DistinctRecv,
) -> InfererV {
    InfererV {
        facts: FactsV {
            distinct_recv: st.facts.distinct_recv.insert(crate::ids::node_key_spec(file, node), x),
            ..st.facts
        },
        ..st
    }
}

/// [`Inferer::set_arg_order`], as a mathematical function.
pub open spec fn set_arg_order_spec(st: InfererV, file: FileId, node: NodeId, x: ArgOrder) -> InfererV {
    InfererV {
        facts: FactsV {
            arg_order: st.facts.arg_order.insert(crate::ids::node_key_spec(file, node), x),
            ..st.facts
        },
        ..st
    }
}

/// [`Inferer::set_generics`], as a mathematical function.
pub open spec fn set_generics_spec(st: InfererV, file: FileId, node: NodeId, x: Generics) -> InfererV {
    InfererV {
        facts: FactsV {
            generics: st.facts.generics.insert(crate::ids::node_key_spec(file, node), x),
            ..st.facts
        },
        ..st
    }
}

/// [`Inferer::get_assoc_ty`], as a mathematical function.
pub open spec fn get_assoc_ty_spec(st: InfererV, file: FileId, node: NodeId) -> Option<AssocTy> {
    map_get(st.facts.assoc_ty, crate::ids::node_key_spec(file, node))
}

/// [`Inferer::set_assoc_ty`], as a mathematical function.
pub open spec fn set_assoc_ty_spec(st: InfererV, file: FileId, node: NodeId, x: AssocTy) -> InfererV {
    InfererV {
        facts: FactsV {
            assoc_ty: st.facts.assoc_ty.insert(crate::ids::node_key_spec(file, node), x),
            ..st.facts
        },
        ..st
    }
}

/// [`Inferer::get_instantiation`], as a mathematical function.
pub open spec fn get_instantiation_spec(st: InfererV, file: FileId, node: NodeId) -> Option<Instantiation> {
    map_get(st.facts.instantiation, crate::ids::node_key_spec(file, node))
}

/// [`Inferer::set_instantiation`], as a mathematical function.
pub open spec fn set_instantiation_spec(
    st: InfererV,
    file: FileId,
    node: NodeId,
    x: Instantiation,
) -> InfererV {
    InfererV {
        facts: FactsV {
            instantiation: st.facts.instantiation.insert(crate::ids::node_key_spec(file, node), x),
            ..st.facts
        },
        ..st
    }
}

/// [`Inferer::get_wide_float`], as a mathematical function.
pub open spec fn get_wide_float_spec(st: InfererV, file: FileId, node: NodeId) -> Option<WideFloat> {
    map_get(st.facts.wide_float, crate::ids::node_key_spec(file, node))
}

/// [`Inferer::get_format_call`], as a mathematical function.
pub open spec fn get_format_call_spec(st: InfererV, file: FileId, node: NodeId) -> Option<FormatCall> {
    map_get(st.facts.format_call, crate::ids::node_key_spec(file, node))
}

impl Inferer {
    /// The type of a node, where it is known.
    pub fn get_ty(&self, file: FileId, node: NodeId) -> (r: Option<Ty>)
        ensures
            r == get_ty_spec(self@, file, node),
    {
        match self.facts.ty.get(node_key(file, node)) {
            Some(x) => Some(dup_ty(x)),
            None => None,
        }
    }

    /// Record the type of a node.
    pub fn set_ty(&mut self, file: FileId, node: NodeId, x: Ty)
        ensures
            final(self)@ == set_ty_spec(old(self)@, file, node, x),
    {
        self.facts.ty.set(node_key(file, node), x);
    }

    /// What name resolution made of a name, where it is known.
    pub fn get_resolution(&self, file: FileId, node: NodeId) -> (r: Option<Resolution>)
        ensures
            r == get_resolution_spec(self@, file, node),
    {
        match self.facts.resolution.get(node_key(file, node)) {
            Some(x) => Some(dup_resolution(x)),
            None => None,
        }
    }

    /// Record what name resolution made of a name.
    pub fn set_resolution(&mut self, file: FileId, node: NodeId, x: Resolution)
        ensures
            final(self)@ == set_resolution_spec(old(self)@, file, node, x),
            crate::keeping::kept(old(self)@, final(self)@),
    {
        proof {
            reveal(crate::keeping::kept);
        }
        self.facts.resolution.set(node_key(file, node), x);
    }

    /// What each segment of a path resolved to, where it is known.
    pub fn get_path_res(&self, file: FileId, node: NodeId) -> (r: Option<List<Resolution>>)
        ensures
            r == get_path_res_spec(self@, file, node),
    {
        match self.facts.path_res.get(node_key(file, node)) {
            Some(x) => Some(dup_resolutions(x)),
            None => None,
        }
    }

    /// The definition a node declares, where it is known.
    pub fn get_def_meta(&self, file: FileId, node: NodeId) -> (r: Option<DefId>)
        ensures
            r == get_def_meta_spec(self@, file, node),
    {
        match self.facts.def_meta.get(node_key(file, node)) {
            Some(x) => Some(*x),
            None => None,
        }
    }

    /// The definitions a closure expands to, where it is known.
    pub fn get_closure_defs(&self, file: FileId, node: NodeId) -> (r: Option<ClosureDefs>)
        ensures
            r == get_closure_defs_spec(self@, file, node),
    {
        match self.facts.closure_defs.get(node_key(file, node)) {
            Some(x) => Some(*x),
            None => None,
        }
    }

    /// The locals a closure shares, where it is known.
    pub fn get_captures(&self, file: FileId, node: NodeId) -> (r: Option<List<DefId>>)
        ensures
            r == get_captures_spec(self@, file, node),
    {
        match self.facts.captures.get(node_key(file, node)) {
            Some(x) => Some(dup_defs(x)),
            None => None,
        }
    }

    /// The parameters an `impl` return type is generic over, where it is known.
    pub fn get_opaque_args(&self, file: FileId, node: NodeId) -> (r: Option<List<DefId>>)
        ensures
            r == get_opaque_args_spec(self@, file, node),
    {
        match self.facts.opaque_args.get(node_key(file, node)) {
            Some(x) => Some(dup_defs(x)),
            None => None,
        }
    }

    /// The signature of a function that has no body, where it is known.
    pub fn get_signature(&self, file: FileId, node: NodeId) -> (r: Option<Ty>)
        ensures
            r == get_signature_spec(self@, file, node),
    {
        match self.facts.signature.get(node_key(file, node)) {
            Some(x) => Some(dup_ty(x)),
            None => None,
        }
    }

    /// Record the signature of a function that has no body.
    pub fn set_signature(&mut self, file: FileId, node: NodeId, x: Ty)
        ensures
            final(self)@ == set_signature_spec(old(self)@, file, node, x),
            crate::keeping::kept(old(self)@, final(self)@),
    {
        proof {
            reveal(crate::keeping::kept);
        }
        self.facts.signature.set(node_key(file, node), x);
    }

    /// Record what a type alias expands to.
    pub fn set_expansion(&mut self, file: FileId, node: NodeId, x: Ty)
        ensures
            final(self)@ == set_expansion_spec(old(self)@, file, node, x),
            crate::keeping::kept(old(self)@, final(self)@),
    {
        proof {
            reveal(crate::keeping::kept);
        }
        self.facts.expansion.set(node_key(file, node), x);
    }

    /// Record the discriminant of a variant.
    pub fn set_variant_tag(&mut self, file: FileId, node: NodeId, x: VariantTag)
        ensures
            final(self)@ == set_variant_tag_spec(old(self)@, file, node, x),
    {
        self.facts.variant_tag.set(node_key(file, node), x);
    }

    /// The `Self` of a static trait call, where it is known.
    pub fn get_static_trait_self(&self, file: FileId, node: NodeId) -> (r: Option<StaticTraitSelf>)
        ensures
            r == get_static_trait_self_spec(self@, file, node),
    {
        match self.facts.static_trait_self.get(node_key(file, node)) {
            Some(x) => Some(dup_static_trait_self(x)),
            None => None,
        }
    }

    /// Record the `Self` of a static trait call.
    pub fn set_static_trait_self(&mut self, file: FileId, node: NodeId, x: StaticTraitSelf)
        ensures
            final(self)@ == set_static_trait_self_spec(old(self)@, file, node, x),
            crate::keeping::kept(old(self)@, final(self)@),
    {
        proof {
            reveal(crate::keeping::kept);
        }
        self.facts.static_trait_self.set(node_key(file, node), x);
    }

    /// Record the method an operator dispatches to.
    pub fn set_op_resolution(&mut self, file: FileId, node: NodeId, x: OpResolution)
        ensures
            final(self)@ == set_op_resolution_spec(old(self)@, file, node, x),
            crate::keeping::kept(old(self)@, final(self)@),
    {
        proof {
            reveal(crate::keeping::kept);
        }
        self.facts.op_resolution.set(node_key(file, node), x);
    }

    /// How a method call resolved, where it is known.
    pub fn get_method_res(&self, file: FileId, node: NodeId) -> (r: Option<MethodRes>)
        ensures
            r == get_method_res_spec(self@, file, node),
    {
        match self.facts.method_res.get(node_key(file, node)) {
            Some(x) => Some(dup_method_res(x)),
            None => None,
        }
    }

    /// Record how a method call resolved.
    pub fn set_method_res(&mut self, file: FileId, node: NodeId, x: MethodRes)
        ensures
            final(self)@ == set_method_res_spec(old(self)@, file, node, x),
            crate::keeping::kept(old(self)@, final(self)@),
    {
        proof {
            reveal(crate::keeping::kept);
        }
        self.facts.method_res.set(node_key(file, node), x);
    }

    /// Record a literal already reported as out of range.
    pub fn set_range_reported(&mut self, file: FileId, node: NodeId, x: RangeReported)
        ensures
            final(self)@ == set_range_reported_spec(old(self)@, file, node, x),
            crate::keeping::kept(old(self)@, final(self)@),
    {
        proof {
            reveal(crate::keeping::kept);
        }
        self.facts.range_reported.set(node_key(file, node), x);
    }

    /// A compile-time slot already reported, where it is known.
    pub fn get_const_slot_reported(&self, file: FileId, node: NodeId) -> (r: Option<ConstSlotReported>)
        ensures
            r == get_const_slot_reported_spec(self@, file, node),
    {
        match self.facts.const_slot_reported.get(node_key(file, node)) {
            Some(x) => Some(*x),
            None => None,
        }
    }

    /// Record a compile-time slot already reported.
    pub fn set_const_slot_reported(&mut self, file: FileId, node: NodeId, x: ConstSlotReported)
        ensures
            final(self)@ == set_const_slot_reported_spec(old(self)@, file, node, x),
            crate::keeping::kept(old(self)@, final(self)@),
    {
        proof {
            reveal(crate::keeping::kept);
        }
        self.facts.const_slot_reported.set(node_key(file, node), x);
    }

    /// A type path already reported, where it is known.
    pub fn get_ty_path_reported(&self, file: FileId, node: NodeId) -> (r: Option<TyPathReported>)
        ensures
            r == get_ty_path_reported_spec(self@, file, node),
    {
        match self.facts.ty_path_reported.get(node_key(file, node)) {
            Some(x) => Some(*x),
            None => None,
        }
    }

    /// Record a type path already reported.
    pub fn set_ty_path_reported(&mut self, file: FileId, node: NodeId, x: TyPathReported)
        ensures
            final(self)@ == set_ty_path_reported_spec(old(self)@, file, node, x),
            crate::keeping::kept(old(self)@, final(self)@),
    {
        proof {
            reveal(crate::keeping::kept);
        }
        self.facts.ty_path_reported.set(node_key(file, node), x);
    }

    /// Record an index that is written through.
    pub fn set_index_write(&mut self, file: FileId, node: NodeId, x: IndexWrite)
        ensures
            final(self)@ == set_index_write_spec(old(self)@, file, node, x),
            crate::keeping::kept(old(self)@, final(self)@),
    {
        proof {
            reveal(crate::keeping::kept);
        }
        self.facts.index_write.set(node_key(file, node), x);
    }

    /// The type a value is converted to, where it is known.
    pub fn get_coercion(&self, file: FileId, node: NodeId) -> (r: Option<Coercion>)
        ensures
            r == get_coercion_spec(self@, file, node),
    {
        match self.facts.coercion.get(node_key(file, node)) {
            Some(x) => Some(dup_coercion(x)),
            None => None,
        }
    }

    /// Record the type a value is converted to.
    pub fn set_coercion(&mut self, file: FileId, node: NodeId, x: Coercion)
        ensures
            final(self)@ == set_coercion_spec(old(self)@, file, node, x),
            crate::keeping::kept(old(self)@, final(self)@),
    {
        proof {
            reveal(crate::keeping::kept);
        }
        self.facts.coercion.set(node_key(file, node), x);
    }

    /// An array viewed as a slice, where it is known.
    pub fn get_slice_coerce(&self, file: FileId, node: NodeId) -> (r: Option<SliceCoerce>)
        ensures
            r == get_slice_coerce_spec(self@, file, node),
    {
        match self.facts.slice_coerce.get(node_key(file, node)) {
            Some(x) => Some(dup_slice_coerce(x)),
            None => None,
        }
    }

    /// Record an array viewed as a slice.
    pub fn set_slice_coerce(&mut self, file: FileId, node: NodeId, x: SliceCoerce)
        ensures
            final(self)@ == set_slice_coerce_spec(old(self)@, file, node, x),
            crate::keeping::kept(old(self)@, final(self)@),
    {
        proof {
            reveal(crate::keeping::kept);
        }
        self.facts.slice_coerce.set(node_key(file, node), x);
    }

    /// A pointer unsized to a trait object, where it is known.
    pub fn get_dyn_coerce(&self, file: FileId, node: NodeId) -> (r: Option<DynCoerce>)
        ensures
            r == get_dyn_coerce_spec(self@, file, node),
    {
        match self.facts.dyn_coerce.get(node_key(file, node)) {
            Some(x) => Some(dup_dyn_coerce(x)),
            None => None,
        }
    }

    /// Record a pointer unsized to a trait object.
    pub fn set_dyn_coerce(&mut self, file: FileId, node: NodeId, x: DynCoerce)
        ensures
            final(self)@ == set_dyn_coerce_spec(old(self)@, file, node, x),
            crate::keeping::kept(old(self)@, final(self)@),
    {
        proof {
            reveal(crate::keeping::kept);
        }
        self.facts.dyn_coerce.set(node_key(file, node), x);
    }

    /// An `@using` upcast, where it is known.
    pub fn get_upcast(&self, file: FileId, node: NodeId) -> (r: Option<Upcast>)
        ensures
            r == get_upcast_spec(self@, file, node),
    {
        match self.facts.upcast.get(node_key(file, node)) {
            Some(x) => Some(dup_upcast(x)),
            None => None,
        }
    }

    /// Record an `@using` upcast.
    pub fn set_upcast(&mut self, file: FileId, node: NodeId, x: Upcast)
        ensures
            final(self)@ == set_upcast_spec(old(self)@, file, node, x),
            crate::keeping::kept(old(self)@, final(self)@),
    {
        proof {
            reveal(crate::keeping::kept);
        }
        self.facts.upcast.set(node_key(file, node), x);
    }

    /// The signature of a closure, where it is known.
    pub fn get_closure_sig(&self, file: FileId, node: NodeId) -> (r: Option<ClosureSig>)
        ensures
            r == get_closure_sig_spec(self@, file, node),
    {
        match self.facts.closure_sig.get(node_key(file, node)) {
            Some(x) => Some(dup_closure_sig(x)),
            None => None,
        }
    }

    /// Record the signature of a closure.
    pub fn set_closure_sig(&mut self, file: FileId, node: NodeId, x: ClosureSig)
        ensures
            final(self)@ == set_closure_sig_spec(old(self)@, file, node, x),
            crate::keeping::kept(old(self)@, final(self)@),
    {
        proof {
            reveal(crate::keeping::kept);
        }
        self.facts.closure_sig.set(node_key(file, node), x);
    }

    /// What an `impl` return type turned out to be, where it is known.
    pub fn get_opaque_ty(&self, file: FileId, node: NodeId) -> (r: Option<OpaqueTy>)
        ensures
            r == get_opaque_ty_spec(self@, file, node),
    {
        match self.facts.opaque_ty.get(node_key(file, node)) {
            Some(x) => Some(dup_opaque_ty(x)),
            None => None,
        }
    }

    /// Record what an `impl` return type turned out to be.
    pub fn set_opaque_ty(&mut self, file: FileId, node: NodeId, x: OpaqueTy)
        ensures
            final(self)@ == set_opaque_ty_spec(old(self)@, file, node, x),
            crate::keeping::kept(old(self)@, final(self)@),
    {
        proof {
            reveal(crate::keeping::kept);
        }
        self.facts.opaque_ty.set(node_key(file, node), x);
    }

    /// Record a call on a value that is not a function pointer.
    pub fn set_func_call(&mut self, file: FileId, node: NodeId, x: FuncCall)
        ensures
            final(self)@ == set_func_call_spec(old(self)@, file, node, x),
            crate::keeping::kept(old(self)@, final(self)@),
    {
        proof {
            reveal(crate::keeping::kept);
        }
        self.facts.func_call.set(node_key(file, node), x);
    }

    /// Record a receiver read as its representation.
    pub fn set_distinct_recv(&mut self, file: FileId, node: NodeId, x: DistinctRecv)
        ensures
            final(self)@ == set_distinct_recv_spec(old(self)@, file, node, x),
            crate::keeping::kept(old(self)@, final(self)@),
    {
        proof {
            reveal(crate::keeping::kept);
        }
        self.facts.distinct_recv.set(node_key(file, node), x);
    }

    /// Record the arguments of a call in parameter order.
    pub fn set_arg_order(&mut self, file: FileId, node: NodeId, x: ArgOrder)
        ensures
            final(self)@ == set_arg_order_spec(old(self)@, file, node, x),
            crate::keeping::kept(old(self)@, final(self)@),
    {
        proof {
            reveal(crate::keeping::kept);
        }
        self.facts.arg_order.set(node_key(file, node), x);
    }

    /// Record what a declaration is generic over.
    pub fn set_generics(&mut self, file: FileId, node: NodeId, x: Generics)
        ensures
            final(self)@ == set_generics_spec(old(self)@, file, node, x),
            crate::keeping::kept(old(self)@, final(self)@),
    {
        proof {
            reveal(crate::keeping::kept);
        }
        self.facts.generics.set(node_key(file, node), x);
    }

    /// The type of a member read through a type, where it is known.
    pub fn get_assoc_ty(&self, file: FileId, node: NodeId) -> (r: Option<AssocTy>)
        ensures
            r == get_assoc_ty_spec(self@, file, node),
    {
        match self.facts.assoc_ty.get(node_key(file, node)) {
            Some(x) => Some(dup_assoc_ty(x)),
            None => None,
        }
    }

    /// Record the type of a member read through a type.
    pub fn set_assoc_ty(&mut self, file: FileId, node: NodeId, x: AssocTy)
        ensures
            final(self)@ == set_assoc_ty_spec(old(self)@, file, node, x),
            crate::keeping::kept(old(self)@, final(self)@),
    {
        proof {
            reveal(crate::keeping::kept);
        }
        self.facts.assoc_ty.set(node_key(file, node), x);
    }

    /// What a call binds the callee's parameters to, where it is known.
    pub fn get_instantiation(&self, file: FileId, node: NodeId) -> (r: Option<Instantiation>)
        ensures
            r == get_instantiation_spec(self@, file, node),
    {
        match self.facts.instantiation.get(node_key(file, node)) {
            Some(x) => Some(dup_instantiation(x)),
            None => None,
        }
    }

    /// Record what a call binds the callee's parameters to.
    pub fn set_instantiation(&mut self, file: FileId, node: NodeId, x: Instantiation)
        ensures
            final(self)@ == set_instantiation_spec(old(self)@, file, node, x),
            crate::keeping::kept(old(self)@, final(self)@),
    {
        proof {
            reveal(crate::keeping::kept);
        }
        self.facts.instantiation.set(node_key(file, node), x);
    }

    /// A float literal that outruns a double, where it is known.
    pub fn get_wide_float(&self, file: FileId, node: NodeId) -> (r: Option<WideFloat>)
        ensures
            r == get_wide_float_spec(self@, file, node),
    {
        match self.facts.wide_float.get(node_key(file, node)) {
            Some(x) => Some(*x),
            None => None,
        }
    }

    /// The format specifier a call was written for, where it is known.
    pub fn get_format_call(&self, file: FileId, node: NodeId) -> (r: Option<FormatCall>)
        ensures
            r == get_format_call_spec(self@, file, node),
    {
        match self.facts.format_call.get(node_key(file, node)) {
            Some(x) => Some(dup_format_call(x)),
            None => None,
        }
    }

}

// Obligations.

/// A copy of a list of types that may be named.
pub fn dup_payload(l: &List<(Option<Symbol>, Ty)>) -> (r: List<(Option<Symbol>, Ty)>)
    ensures
        r == *l,
    decreases l,
{
    match l {
        List::Nil => List::Nil,
        List::Cons(h, t) => List::Cons((dup_opt_sym(&h.0), dup_ty(&h.1)), Box::new(dup_payload(t))),
    }
}

/// A copy of an obligation.
pub fn dup_obligation(o: &Obligation) -> (r: Obligation)
    ensures
        r == *o,
{
    match o {
        Obligation::Trait { self_ty, trait_def, args, origin, stamp } => Obligation::Trait {
            self_ty: dup_ty(self_ty),
            trait_def: *trait_def,
            args: dup_tys(args),
            origin: *origin,
            stamp: dup_opt_sym(stamp),
        },
        Obligation::Projection {
            self_ty,
            trait_def,
            args,
            assoc,
            out,
            origin,
            method,
        } => Obligation::Projection {
            self_ty: dup_ty(self_ty),
            trait_def: *trait_def,
            args: dup_tys(args),
            assoc: dup_sym(assoc),
            out: dup_ty(out),
            origin: *origin,
            method: dup_opt_sym(method),
        },
        Obligation::VariantPayload { recv, variant, args, origin } => Obligation::VariantPayload {
            recv: dup_ty(recv),
            variant: dup_sym(variant),
            args: dup_payload(args),
            origin: *origin,
        },
        Obligation::CompositeBody { recv, origin } => {
            Obligation::CompositeBody { recv: dup_ty(recv), origin: *origin }
        },
        Obligation::Field { recv, name, out, origin } => Obligation::Field {
            recv: dup_ty(recv),
            name: dup_sym(name),
            out: dup_ty(out),
            origin: *origin,
        },
        Obligation::Comparison { self_ty, op, origin } => {
            Obligation::Comparison { self_ty: dup_ty(self_ty), op: *op, origin: *origin }
        },
    }
}

/// A copy of a list of obligations.
pub fn dup_obligations(l: &List<Obligation>) -> (r: List<Obligation>)
    ensures
        r == *l,
    decreases l,
{
    match l {
        List::Nil => List::Nil,
        List::Cons(h, t) => List::Cons(dup_obligation(h), Box::new(dup_obligations(t))),
    }
}

/// Put an obligation behind those already there.
pub open spec fn register_spec(st: InfererV, o: Obligation) -> InfererV {
    InfererV { obligations: crate::list::append_spec(st.obligations, crate::list::single_spec(o)), ..st }
}

/// Take every obligation there is.
pub open spec fn take_obligations_spec(st: InfererV) -> (InfererV, List<Obligation>) {
    (InfererV { obligations: List::Nil, ..st }, st.obligations)
}

/// [`Inferer::pending`], as a mathematical function.
pub open spec fn pending_spec(st: InfererV) -> List<Obligation> {
    st.obligations
}

/// Add a complaint.
pub open spec fn say_at_spec(st: InfererV, d: Diagnostic) -> InfererV {
    InfererV { diags: st.diags.push(d), ..st }
}

/// Drop every complaint but the first `n`.
pub open spec fn forget_since_spec(st: InfererV, n: u64) -> InfererV {
    if n <= st.diags.len() { InfererV { diags: st.diags.subrange(0, n as int), ..st } } else { st }
}

/// [`Inferer::diag_count`], as a mathematical function.
pub open spec fn diag_count_spec(st: InfererV) -> u64 {
    st.diags.len() as u64
}

/// Give up on something nested too deeply.
pub open spec fn give_up_spec(st: InfererV) -> InfererV {
    InfererV { deep: true, ..st }
}

/// Note that the innermost loop can be left.
pub open spec fn mark_broke_spec(st: InfererV) -> InfererV {
    match st.breaks {
        List::Nil => st,
        List::Cons(f, t) => InfererV { breaks: List::Cons(LoopFrame { broke: true, ..f }, t), ..st },
    }
}

impl Inferer {
    /// Put an obligation behind those already there.
    pub fn register(&mut self, o: Obligation)
        ensures
            final(self)@ == register_spec(old(self)@, o),
            crate::keeping::kept(old(self)@, final(self)@),
    {
        proof {
            reveal(crate::keeping::kept);
        }
        let mut all: List<Obligation> = List::Nil;
        std::mem::swap(&mut all, &mut self.obligations);
        self.obligations = append(all, single(o));
    }

    /// Take every obligation there is.
    pub fn take_obligations(&mut self) -> (r: List<Obligation>)
        ensures
            (final(self)@, r) == take_obligations_spec(old(self)@),
            crate::keeping::kept(old(self)@, final(self)@),
    {
        proof {
            reveal(crate::keeping::kept);
        }
        let mut all: List<Obligation> = List::Nil;
        std::mem::swap(&mut all, &mut self.obligations);
        all
    }

    /// A copy of the obligations there are.
    pub fn pending(&self) -> (r: List<Obligation>)
        ensures
            r == pending_spec(self@),
    {
        dup_obligations(&self.obligations)
    }

    /// Add a complaint.
    pub fn say_at(&mut self, d: Diagnostic)
        ensures
            final(self)@ == say_at_spec(old(self)@, d),
            crate::keeping::kept(old(self)@, final(self)@),
    {
        proof {
            reveal(crate::keeping::kept);
        }
        self.diags.push(d);
    }

    /// Drop every complaint but the first `n`.
    pub fn forget_since(&mut self, n: u64)
        ensures
            final(self)@ == forget_since_spec(old(self)@, n),
    {
        if n <= self.diags.len() as u64 {
            self.diags.truncate(n as usize);
        }
    }

    /// How many complaints there are.
    pub fn diag_count(&self) -> (r: u64)
        ensures
            r == diag_count_spec(self@),
            r == self@.diags.len(),
    {
        self.diags.len() as u64
    }

    /// Give up on something nested too deeply.
    pub fn give_up(&mut self)
        ensures
            final(self)@ == give_up_spec(old(self)@),
            crate::keeping::kept(old(self)@, final(self)@),
    {
        proof {
            reveal(crate::keeping::kept);
        }
        self.deep = true;
    }

    /// Note that the innermost loop can be left.
    pub fn mark_broke(&mut self)
        ensures
            final(self)@ == mark_broke_spec(old(self)@),
            crate::keeping::kept(old(self)@, final(self)@),
    {
        proof {
            reveal(crate::keeping::kept);
            reveal(crate::keeping::loops_stand);
            match self@.breaks {
                List::Nil => {},
                List::Cons(_, t) => crate::keeping::loops_stand_still(*t),
            }
        }
        let mut all: List<LoopFrame> = List::Nil;
        std::mem::swap(&mut all, &mut self.breaks);
        match all {
            List::Nil => {
                self.breaks = List::Nil;
            },
            List::Cons(f, t) => {
                self.breaks = List::Cons(LoopFrame { broke: true, ..f }, t);
            },
        }
    }
}

// Variables.

/// [`succ32`], as a mathematical function.
pub open spec fn succ32_spec(i: u32) -> u32 {
    if i < 0xffff_ffff {
        (i + 1) as u32
    } else {
        i
    }
}

/// `i + 1`, or `i` itself at the top of the range.
pub fn succ32(i: u32) -> (r: u32)
    ensures
        r == succ32_spec(i),
{
    if i < 0xffff_ffff {
        (i + 1) as u32
    } else {
        i
    }
}

/// [`Inferer::fresh`], as a mathematical function.
pub open spec fn fresh_spec(st: InfererV) -> (InfererV, Ty) {
    let v = st.next_var;
    let st = InfererV { next_var: succ32_spec(v), ..st };
    (st, Ty::Var(v))
}

/// [`Inferer::fresh_of`], as a mathematical function.
pub open spec fn fresh_of_spec(st: InfererV, kind: TyVarKind) -> (InfererV, Ty) {
    let v = st.next_var;
    let st = InfererV { next_var: succ32_spec(v), ..st };
    let st = push_kind_spec(st, (v, kind));
    (st, Ty::Var(v))
}

/// [`Inferer::fresh_const`], as a mathematical function.
pub open spec fn fresh_const_spec(st: InfererV) -> (InfererV, Const) {
    let v = st.next_const;
    let st = InfererV { next_const: succ32_spec(v), ..st };
    (st, Const::Var(v))
}

/// [`Inferer::fresh_each`], as a mathematical function.
pub open spec fn fresh_each_spec(st: InfererV, l: &List<DefId>) -> (InfererV, List<Ty>)
    decreases l,
{
    match l {
        List::Nil => (st, List::Nil),
        List::Cons(_, t) => {
            let (st, v) = fresh_spec(st);
            let (st, rest) = fresh_each_spec(st, t);
            (st, List::Cons(v, Box::new(rest)))
        },
    }
}

/// [`Inferer::fresh_for`], as a mathematical function.
pub open spec fn fresh_for_spec(st: InfererV, l: &List<NodeId>) -> (InfererV, List<Ty>)
    decreases l,
{
    match l {
        List::Nil => (st, List::Nil),
        List::Cons(_, t) => {
            let (st, v) = fresh_spec(st);
            let (st, rest) = fresh_for_spec(st, t);
            (st, List::Cons(v, Box::new(rest)))
        },
    }
}

/// [`Inferer::fresh_n`], as a mathematical function.
pub open spec fn fresh_n_spec(st: InfererV, n: u64) -> (InfererV, List<Ty>)
    decreases n,
{
    if n == 0 {
        (st, List::Nil)
    } else {
        let (st, v) = fresh_spec(st);
        let (st, rest) = fresh_n_spec(st, (n - 1) as u64);
        (st, List::Cons(v, Box::new(rest)))
    }
}

/// [`find_binding`], as a mathematical function.
pub open spec fn find_binding_spec(l: &List<(u32, Ty)>, v: u32) -> Option<&Ty>
    decreases l,
{
    match l {
        List::Nil => None,
        List::Cons(h, t) => if h.0 == v {
            Some(&h.1)
        } else {
            find_binding_spec(t, v)
        },
    }
}

/// What a type variable was solved to.
pub fn find_binding(l: &List<(u32, Ty)>, v: u32) -> (r: Option<&Ty>)
    ensures
        r == find_binding_spec(l, v),
    decreases l,
{
    match l {
        List::Nil => None,
        List::Cons(h, t) => if h.0 == v {
            Some(&h.1)
        } else {
            find_binding(t, v)
        },
    }
}

/// [`find_const_binding`], as a mathematical function.
pub open spec fn find_const_binding_spec(l: &List<(u32, Const)>, v: u32) -> Option<&Const>
    decreases l,
{
    match l {
        List::Nil => None,
        List::Cons(h, t) => if h.0 == v {
            Some(&h.1)
        } else {
            find_const_binding_spec(t, v)
        },
    }
}

/// What a compile-time variable was solved to.
pub fn find_const_binding(l: &List<(u32, Const)>, v: u32) -> (r: Option<&Const>)
    ensures
        r == find_const_binding_spec(l, v),
    decreases l,
{
    match l {
        List::Nil => None,
        List::Cons(h, t) => if h.0 == v {
            Some(&h.1)
        } else {
            find_const_binding(t, v)
        },
    }
}

/// [`find_kind`], as a mathematical function.
pub open spec fn find_kind_spec(l: &List<(u32, TyVarKind)>, v: u32) -> TyVarKind
    decreases l,
{
    match l {
        List::Nil => TyVarKind::General,
        List::Cons(h, t) => if h.0 == v {
            h.1
        } else {
            find_kind_spec(t, v)
        },
    }
}

/// What a type variable is restricted to.
pub fn find_kind(l: &List<(u32, TyVarKind)>, v: u32) -> (r: TyVarKind)
    ensures
        r == find_kind_spec(l, v),
    decreases l,
{
    match l {
        List::Nil => TyVarKind::General,
        List::Cons(h, t) => if h.0 == v {
            h.1
        } else {
            find_kind(t, v)
        },
    }
}

/// [`Inferer::shallow`], as a mathematical function.
pub open spec fn shallow_spec(st: InfererV, ty: &Ty, fuel: u64) -> Ty
    decreases fuel,
{
    if fuel == 0 {
        (*ty)
    } else {
        match ty {
            Ty::Var(v) => match find_binding_spec(&st.bindings, *v) {
                Some(t) => shallow_spec(st, t, (fuel - 1) as u64),
                None => (*ty),
            },
            _ => (*ty),
        }
    }
}

/// [`Inferer::shallow_const`], as a mathematical function.
pub open spec fn shallow_const_spec(st: InfererV, c: &Const, fuel: u64) -> Const
    decreases fuel,
{
    if fuel == 0 {
        (*c)
    } else {
        match c {
            Const::Var(v) => match find_const_binding_spec(&st.const_bindings, *v) {
                Some(k) => shallow_const_spec(st, k, (fuel - 1) as u64),
                None => (*c),
            },
            _ => (*c),
        }
    }
}

/// [`Inferer::resolve`], as a mathematical function.
pub open spec fn resolve_spec(st: InfererV, ty: &Ty, fuel: u64) -> Ty
    decreases fuel,
{
    if fuel == 0 {
        (*ty)
    } else {
        match ty {
            Ty::Var(v) => match find_binding_spec(&st.bindings, *v) {
                Some(t) => resolve_spec(st, t, (fuel - 1) as u64),
                None => (*ty),
            },
            Ty::Int { signed, width } => Ty::Int {
                signed: *signed,
                width: shallow_const_spec(st, width, (fuel - 1) as u64),
            },
            Ty::Nominal { def, args } => Ty::Nominal {
                def: *def,
                args: Box::new(resolve_tys_spec(st, args, (fuel - 1) as u64)),
            },
            Ty::Ptr { mutable, inner } => Ty::Ptr {
                mutable: *mutable,
                inner: Box::new(resolve_spec(st, inner, (fuel - 1) as u64)),
            },
            Ty::Slice { mutable, inner } => Ty::Slice {
                mutable: *mutable,
                inner: Box::new(resolve_spec(st, inner, (fuel - 1) as u64)),
            },
            Ty::Array { len, mutable, inner } => Ty::Array {
                len: shallow_const_spec(st, len, (fuel - 1) as u64),
                mutable: *mutable,
                inner: Box::new(resolve_spec(st, inner, (fuel - 1) as u64)),
            },
            Ty::Tuple(elems) => Ty::Tuple(Box::new(resolve_tys_spec(st, elems, (fuel - 1) as u64))),
            Ty::Dyn { def, assoc } => Ty::Dyn {
                def: *def,
                assoc: Box::new(resolve_named_spec(st, assoc, (fuel - 1) as u64)),
            },
            Ty::Struct(fields) => Ty::Struct(Box::new(resolve_named_spec(st, fields, (fuel - 1) as u64))),
            Ty::Func { params, ret, c } => Ty::Func {
                params: Box::new(resolve_tys_spec(st, params, (fuel - 1) as u64)),
                ret: Box::new(resolve_spec(st, ret, (fuel - 1) as u64)),
                c: *c,
            },
            _ => (*ty),
        }
    }
}

/// [`Inferer::resolve_tys`], as a mathematical function.
pub open spec fn resolve_tys_spec(st: InfererV, l: &List<Ty>, fuel: u64) -> List<Ty>
    decreases fuel, l,
{
    if fuel == 0 {
        (*l)
    } else {
        match l {
            List::Nil => List::Nil,
            List::Cons(h, t) => List::Cons(
                resolve_spec(st, h, (fuel - 1) as u64),
                Box::new(resolve_tys_spec(st, t, fuel)),
            ),
        }
    }
}

/// [`Inferer::resolve_named`], as a mathematical function.
pub open spec fn resolve_named_spec(st: InfererV, l: &List<(Symbol, Ty)>, fuel: u64) -> List<(Symbol, Ty)>
    decreases fuel, l,
{
    if fuel == 0 {
        (*l)
    } else {
        match l {
            List::Nil => List::Nil,
            List::Cons(h, t) => List::Cons(
                (h.0, resolve_spec(st, &h.1, (fuel - 1) as u64)),
                Box::new(resolve_named_spec(st, t, fuel)),
            ),
        }
    }
}

/// [`Inferer::var_kind`], as a mathematical function.
pub open spec fn var_kind_spec(st: InfererV, ty: &Ty) -> Option<TyVarKind> {
    match shallow_spec(st, ty, DEPTH_LIMIT) {
        Ty::Var(v) => Some(find_kind_spec(&st.kinds, v)),
        _ => None,
    }
}

/// [`Inferer::numeric_distinct_repr`], as a mathematical function.
pub open spec fn numeric_distinct_repr_spec(st: InfererV, ty: &Ty) -> Option<Ty> {
    match ty {
        Ty::Nominal { def, args: _ } => match crate::subst::find_ty_spec(&st.distincts, *def) {
            Some(t) => Some((*t)),
            None => None,
        },
        _ => None,
    }
}

/// [`Inferer::numeric_repr`], as a mathematical function.
pub open spec fn numeric_repr_spec(st: InfererV, ty: &Ty) -> Ty {
    match numeric_distinct_repr_spec(st, ty) {
        Some(t) => t,
        None => (*ty),
    }
}

/// [`Inferer::admits_str`], as a mathematical function.
pub open spec fn admits_str_spec(st: InfererV, ty: &Ty) -> bool {
    match ty {
        Ty::Slice { mutable: false, inner } => match shallow_spec(st, inner, DEPTH_LIMIT) {
            Ty::Char => true,
            Ty::Int { signed: false, width } => crate::ty::const_value_spec(&width) == Some(8u64),
            _ => false,
        },
        _ => match &st.str_ty {
            Some(t) => crate::ty::ty_eq_spec(t, ty),
            None => false,
        },
    }
}

/// [`Inferer::admits`], as a mathematical function.
pub open spec fn admits_spec(st: InfererV, kind: TyVarKind, ty: &Ty) -> bool {
    match kind {
        TyVarKind::General => true,
        TyVarKind::Int => crate::subst::is_error_spec(ty)
            || crate::ty::is_int_spec(&numeric_repr_spec(st, ty)),
        TyVarKind::Float => crate::subst::is_error_spec(ty)
            || crate::ty::is_float_spec(&numeric_repr_spec(st, ty)),
        TyVarKind::Str => crate::subst::is_error_spec(ty) || admits_str_spec(st, ty),
    }
}

/// [`Inferer::occurs`], as a mathematical function.
pub open spec fn occurs_spec(st: InfererV, v: u32, ty: &Ty, fuel: u64) -> bool
    decreases fuel,
{
    if fuel == 0 {
        true
    } else {
        match ty {
            Ty::Var(w) => match find_binding_spec(&st.bindings, *w) {
                Some(t) => occurs_spec(st, v, t, (fuel - 1) as u64),
                None => *w == v,
            },
            Ty::Nominal { def: _, args } => occurs_in_spec(st, v, args, (fuel - 1) as u64),
            Ty::Ptr { mutable: _, inner } => occurs_spec(st, v, inner, (fuel - 1) as u64),
            Ty::Slice { mutable: _, inner } => occurs_spec(st, v, inner, (fuel - 1) as u64),
            Ty::Array { len: _, mutable: _, inner } => occurs_spec(st, v, inner, (fuel - 1) as u64),
            Ty::Tuple(elems) => occurs_in_spec(st, v, elems, (fuel - 1) as u64),
            Ty::Dyn { def: _, assoc } => occurs_named_spec(st, v, assoc, (fuel - 1) as u64),
            Ty::Struct(fields) => occurs_named_spec(st, v, fields, (fuel - 1) as u64),
            Ty::Func { params, ret, c: _ } => occurs_in_spec(st, v, params, (fuel - 1) as u64)
                || occurs_spec(st, v, ret, (fuel - 1) as u64),
            _ => false,
        }
    }
}

/// [`Inferer::occurs_in`], as a mathematical function.
pub open spec fn occurs_in_spec(st: InfererV, v: u32, l: &List<Ty>, fuel: u64) -> bool
    decreases fuel, l,
{
    if fuel == 0 {
        true
    } else {
        match l {
            List::Nil => false,
            List::Cons(h, t) => occurs_spec(st, v, h, (fuel - 1) as u64) || occurs_in_spec(st, v, t, fuel),
        }
    }
}

/// [`Inferer::occurs_named`], as a mathematical function.
pub open spec fn occurs_named_spec(st: InfererV, v: u32, l: &List<(Symbol, Ty)>, fuel: u64) -> bool
    decreases fuel, l,
{
    if fuel == 0 {
        true
    } else {
        match l {
            List::Nil => false,
            List::Cons(h, t) => occurs_spec(st, v, &h.1, (fuel - 1) as u64)
                || occurs_named_spec(st, v, t, fuel),
        }
    }
}

/// [`clash`], as a mathematical function.
pub open spec fn clash_spec(a: &Ty, b: &Ty) -> Option<(Ty, Ty)> {
    Some(((*a), (*b)))
}

/// A clash, as the two types that did not agree.
pub fn clash(a: &Ty, b: &Ty) -> (r: Option<(Ty, Ty)>)
    ensures
        r == clash_spec(a, b),
{
    Some((dup_ty(a), dup_ty(b)))
}

/// [`Inferer::solve_var`], as a mathematical function.
pub open spec fn solve_var_spec(st: InfererV, v: u32, ty: &Ty) -> (InfererV, bool) {
    let kind = find_kind_spec(&st.kinds, v);
    match ty {
        Ty::Var(w) => {
            let other = find_kind_spec(&st.kinds, *w);
            if kind == TyVarKind::General {
                let st = push_binding_spec(st, (v, Ty::Var(*w)));
                (st, true)
            } else if other == TyVarKind::General || other == kind {
                let st = push_binding_spec(st, (*w, Ty::Var(v)));
                (st, true)
            } else {
                (st, false)
            }
        },
        _ => if admits_spec(st, kind, ty) && !occurs_spec(st, v, ty, DEPTH_LIMIT) {
            let st = push_binding_spec(st, (v, (*ty)));
            (st, true)
        } else {
            (st, false)
        },
    }
}

/// [`Inferer::unify`], as a mathematical function.
pub open spec fn unify_spec(
    st: InfererV,
    actual: &Ty,
    expected: &Ty,
    fuel: u64,
) -> (InfererV, Option<(Ty, Ty)>)
    decreases fuel,
{
    if fuel == 0 {
        (crate::unify::give_up_spec(st), None)
    } else {
        let a = shallow_spec(st, actual, DEPTH_LIMIT);
        let b = shallow_spec(st, expected, DEPTH_LIMIT);
        match (&a, &b) {
            (Ty::Var(v), Ty::Var(w)) => if *v == *w {
                (st, None)
            } else {
                let (st, done) = solve_var_spec(st, *v, &b);
                if done {
                    (st, None)
                } else {
                    (st, clash_spec(&a, &b))
                }
            },
            (Ty::Never, Ty::Var(w)) => {
                let st = push_diverged_spec(st, *w);
                (st, None)
            },
            (Ty::Var(v), Ty::Never) => {
                let st = push_diverged_spec(st, *v);
                (st, None)
            },
            (Ty::Var(v), _) => {
                let (st, done) = solve_var_spec(st, *v, &b);
                if done {
                    (st, None)
                } else {
                    (st, clash_spec(&a, &b))
                }
            },
            (_, Ty::Var(w)) => {
                let (st, done) = solve_var_spec(st, *w, &a);
                if done {
                    (st, None)
                } else {
                    (st, clash_spec(&a, &b))
                }
            },
            (Ty::Error, _) => (st, None),
            (_, Ty::Error) => (st, None),
            (Ty::Never, _) => (st, None),
            (_, Ty::Never) => (st, None),
            (Ty::Int { signed: s, width: m }, Ty::Int { signed: t, width: n }) => if *s == *t {
                let (st, same) = unify_const_spec(st, m, n);
                if same {
                    (st, None)
                } else {
                    (st, clash_spec(&a, &b))
                }
            } else {
                (st, clash_spec(&a, &b))
            },
            (Ty::Nominal { def: d, args: x }, Ty::Nominal { def: e, args: y }) => if *d == *e
                && crate::list::list_len_spec(x) == crate::list::list_len_spec(y) {
                unify_tys_spec(st, x, y, (fuel - 1) as u64)
            } else {
                (st, clash_spec(&a, &b))
            },
            (Ty::Ptr { mutable: m, inner: x }, Ty::Ptr { mutable: n, inner: y }) => if *n && !*m {
                (st, clash_spec(&a, &b))
            } else {
                unify_spec(st, x, y, (fuel - 1) as u64)
            },
            (Ty::Slice { mutable: m, inner: x }, Ty::Slice { mutable: n, inner: y }) => if *n && !*m {
                (st, clash_spec(&a, &b))
            } else {
                unify_spec(st, x, y, (fuel - 1) as u64)
            },
            (Ty::Array { len: k, mutable: m, inner: x }, Ty::Array { len: l, mutable: n, inner: y }) => if *n
                && !*m {
                (st, clash_spec(&a, &b))
            } else {
                let (st, same) = unify_const_spec(st, k, l);
                if same {
                    unify_spec(st, x, y, (fuel - 1) as u64)
                } else {
                    (st, clash_spec(&a, &b))
                }
            },
            (Ty::Tuple(x), Ty::Tuple(y)) => if crate::list::list_len_spec(x) == crate::list::list_len_spec(y) {
                unify_tys_spec(st, x, y, (fuel - 1) as u64)
            } else {
                (st, clash_spec(&a, &b))
            },
            (Ty::Dyn { def: d, assoc: x }, Ty::Dyn { def: e, assoc: y }) => if *d == *e
                && same_names_spec(x, y) {
                unify_named_spec(st, x, y, (fuel - 1) as u64)
            } else {
                (st, clash_spec(&a, &b))
            },
            (Ty::Struct(x), Ty::Struct(y)) => if same_names_spec(x, y) {
                unify_named_spec(st, x, y, (fuel - 1) as u64)
            } else {
                (st, clash_spec(&a, &b))
            },
            (Ty::Func { params: p, ret: r, c: c }, Ty::Func { params: q, ret: s, c: d }) => if *c == *d
                && crate::list::list_len_spec(p) == crate::list::list_len_spec(q) {
                let (st, first) = unify_tys_spec(st, p, q, (fuel - 1) as u64);
                match first {
                    None => unify_spec(st, r, s, (fuel - 1) as u64),
                    Some(x) => (st, Some(x)),
                }
            } else {
                (st, clash_spec(&a, &b))
            },
            _ => if crate::ty::ty_eq_spec(&a, &b) {
                (st, None)
            } else {
                (st, clash_spec(&a, &b))
            },
        }
    }
}

/// [`Inferer::unify_tys`], as a mathematical function.
pub open spec fn unify_tys_spec(
    st: InfererV,
    x: &List<Ty>,
    y: &List<Ty>,
    fuel: u64,
) -> (InfererV, Option<(Ty, Ty)>)
    decreases fuel, x,
{
    if fuel == 0 {
        (crate::unify::give_up_spec(st), None)
    } else {
        match (x, y) {
            (List::Cons(a, s), List::Cons(b, t)) => {
                let (st, first) = unify_spec(st, a, b, (fuel - 1) as u64);
                match first {
                    None => unify_tys_spec(st, s, t, fuel),
                    Some(c) => (st, Some(c)),
                }
            },
            _ => (st, None),
        }
    }
}

/// [`same_names`], as a mathematical function.
pub open spec fn same_names_spec(x: &List<(Symbol, Ty)>, y: &List<(Symbol, Ty)>) -> bool
    decreases x,
{
    match (x, y) {
        (List::Nil, List::Nil) => true,
        (List::Cons(a, s), List::Cons(b, t)) => crate::symbol::sym_eq_spec(&a.0, &b.0)
            && same_names_spec(s, t),
        _ => false,
    }
}

/// Whether two lists of named types have the same names in the same order.
pub fn same_names(x: &List<(Symbol, Ty)>, y: &List<(Symbol, Ty)>) -> (r: bool)
    ensures
        r == same_names_spec(x, y),
    decreases x,
{
    match (x, y) {
        (List::Nil, List::Nil) => true,
        (List::Cons(a, s), List::Cons(b, t)) => sym_eq(&a.0, &b.0) && same_names(s, t),
        _ => false,
    }
}

/// [`Inferer::unify_named`], as a mathematical function.
pub open spec fn unify_named_spec(
    st: InfererV,
    x: &List<(Symbol, Ty)>,
    y: &List<(Symbol, Ty)>,
    fuel: u64,
) -> (InfererV, Option<(Ty, Ty)>)
    decreases fuel, x,
{
    if fuel == 0 {
        (crate::unify::give_up_spec(st), None)
    } else {
        match (x, y) {
            (List::Cons(a, s), List::Cons(b, t)) => {
                let (st, first) = unify_spec(st, &a.1, &b.1, (fuel - 1) as u64);
                match first {
                    None => unify_named_spec(st, s, t, fuel),
                    Some(c) => (st, Some(c)),
                }
            },
            _ => (st, None),
        }
    }
}

/// [`Inferer::unify_const`], as a mathematical function.
pub open spec fn unify_const_spec(st: InfererV, x: &Const, y: &Const) -> (InfererV, bool) {
    let a = shallow_const_spec(st, x, DEPTH_LIMIT);
    let b = shallow_const_spec(st, y, DEPTH_LIMIT);
    match (&a, &b) {
        (Const::Var(v), Const::Var(w)) => if *v == *w {
            (st, true)
        } else {
            let st = push_const_binding_spec(st, (*v, b));
            (st, true)
        },
        (Const::Var(v), _) => {
            let st = push_const_binding_spec(st, (*v, b));
            (st, true)
        },
        (_, Const::Var(w)) => {
            let st = push_const_binding_spec(st, (*w, a));
            (st, true)
        },
        (Const::Error, _) => (st, true),
        (_, Const::Error) => (st, true),
        _ => match (crate::ty::const_value_spec(&a), crate::ty::const_value_spec(&b)) {
            (Some(m), Some(n)) => (st, m == n),
            _ => (st, crate::ty::const_eq_spec(&a, &b)),
        },
    }
}

// Trials.

/// Where a trial began: what was solved, and what was still to be settled.
pub struct Snapshot {
    pub bindings: List<(u32, Ty)>,
    pub const_bindings: List<(u32, Const)>,
    pub diverged: List<u32>,
    pub obligations: List<Obligation>,
}

/// A copy of what type variables were solved to.
pub fn dup_bindings(l: &List<(u32, Ty)>) -> (r: List<(u32, Ty)>)
    ensures
        r == *l,
    decreases l,
{
    match l {
        List::Nil => List::Nil,
        List::Cons(h, t) => List::Cons((h.0, dup_ty(&h.1)), Box::new(dup_bindings(t))),
    }
}

/// A copy of what compile-time variables were solved to.
pub fn dup_const_bindings(l: &List<(u32, Const)>) -> (r: List<(u32, Const)>)
    ensures
        r == *l,
    decreases l,
{
    match l {
        List::Nil => List::Nil,
        List::Cons(h, t) => List::Cons((h.0, dup_const(&h.1)), Box::new(dup_const_bindings(t))),
    }
}

/// A copy of a list of variables.
pub fn dup_vars(l: &List<u32>) -> (r: List<u32>)
    ensures
        r == *l,
    decreases l,
{
    match l {
        List::Nil => List::Nil,
        List::Cons(h, t) => List::Cons(*h, Box::new(dup_vars(t))),
    }
}

/// [`Inferer::snapshot`], as a mathematical function.
pub open spec fn snapshot_spec(st: InfererV) -> Snapshot {
    Snapshot {
        bindings: st.bindings,
        const_bindings: st.const_bindings,
        diverged: st.diverged,
        obligations: pending_spec(st),
    }
}

/// [`Inferer::rollback`], as a mathematical function.
pub open spec fn rollback_spec(st: InfererV, s: Snapshot) -> InfererV {
    let st = InfererV { bindings: s.bindings, ..st };
    let st = InfererV { const_bindings: s.const_bindings, ..st };
    let st = InfererV { diverged: s.diverged, ..st };
    let st = InfererV { obligations: s.obligations, ..st };
    st
}

// Settling literals.

/// [`Inferer::pin_str`], as a mathematical function.
pub open spec fn pin_str_spec(st: InfererV, ty: &Ty) -> (InfererV, Ty) {
    let s = shallow_spec(st, ty, DEPTH_LIMIT);
    match var_kind_spec(st, &s) {
        Some(TyVarKind::Str) => {
            let d = default_of_spec(st, TyVarKind::Str);
            let (st, _clash) = unify_spec(st, &s, &d, DEPTH_LIMIT);
            (st, shallow_spec(st, &s, DEPTH_LIMIT))
        },
        _ => (st, (*ty)),
    }
}

/// [`Inferer::default_of`], as a mathematical function.
pub open spec fn default_of_spec(st: InfererV, kind: TyVarKind) -> Ty {
    match kind {
        TyVarKind::General => Ty::Error,
        TyVarKind::Int => match &st.ptr_ints {
            Some(p) => p.1,
            None => Ty::Error,
        },
        TyVarKind::Float => Ty::Float(FloatWidth::F64),
        TyVarKind::Str => match &st.str_ty {
            Some(t) => (*t),
            None => Ty::Error,
        },
    }
}

/// [`Inferer::pin_numeric`], as a mathematical function.
pub open spec fn pin_numeric_spec(st: InfererV, ty: &Ty) -> (InfererV, Ty) {
    let s = shallow_spec(st, ty, DEPTH_LIMIT);
    match var_kind_spec(st, &s) {
        Some(TyVarKind::Int) => {
            let d = default_of_spec(st, TyVarKind::Int);
            let (st, _clash) = unify_spec(st, &s, &d, DEPTH_LIMIT);
            (st, shallow_spec(st, &s, DEPTH_LIMIT))
        },
        Some(TyVarKind::Float) => {
            let d = default_of_spec(st, TyVarKind::Float);
            let (st, _clash) = unify_spec(st, &s, &d, DEPTH_LIMIT);
            (st, shallow_spec(st, &s, DEPTH_LIMIT))
        },
        _ => (st, (*ty)),
    }
}

/// [`Inferer::usize_ty`], as a mathematical function.
pub open spec fn usize_ty_spec(st: InfererV) -> Ty {
    match &st.ptr_ints {
        Some(p) => p.0,
        None => Ty::Error,
    }
}

/// [`Inferer::any_reaches`], as a mathematical function.
pub open spec fn any_reaches_spec(st: InfererV, l: &List<u32>, v: u32) -> bool
    decreases l,
{
    match l {
        List::Nil => false,
        List::Cons(h, t) => crate::ty::ty_eq_spec(&shallow_spec(st, &Ty::Var(*h), DEPTH_LIMIT), &Ty::Var(v))
            || any_reaches_spec(st, t, v),
    }
}

/// [`Inferer::finalize`], as a mathematical function.
pub open spec fn finalize_spec(st: InfererV, ty: &Ty, fuel: u64) -> (InfererV, (Ty, bool))
    decreases fuel,
{
    if fuel == 0 {
        (crate::unify::give_up_spec(st), (Ty::Error, true))
    } else {
        match ty {
            Ty::Var(v) => match find_solution_spec(&st.bindings, *v) {
                Some(t) => finalize_spec(st, &t, (fuel - 1) as u64),
                None => {
                    let kind = find_kind_spec(&st.kinds, *v);
                    let diverges = kind == TyVarKind::General && any_reaches_spec(st, &st.diverged, *v);
                    let d = if diverges {
                        Ty::Never
                    } else {
                        default_of_spec(st, kind)
                    };
                    let st = push_binding_spec(st, (*v, d));
                    (st, (d, kind == TyVarKind::General && !diverges))
                },
            },
            Ty::Int { signed, width } => {
                let (st, (w, open)) = finalize_const_spec(st, width);
                (st, (Ty::Int { signed: *signed, width: w }, open))
            },
            Ty::Nominal { def, args } => {
                let (st, (a, open)) = finalize_tys_spec(st, args, (fuel - 1) as u64);
                (st, (Ty::Nominal { def: *def, args: Box::new(a) }, open))
            },
            Ty::Ptr { mutable, inner } => {
                let (st, (t, open)) = finalize_spec(st, inner, (fuel - 1) as u64);
                (st, (Ty::Ptr { mutable: *mutable, inner: Box::new(t) }, open))
            },
            Ty::Slice { mutable, inner } => {
                let (st, (t, open)) = finalize_spec(st, inner, (fuel - 1) as u64);
                (st, (Ty::Slice { mutable: *mutable, inner: Box::new(t) }, open))
            },
            Ty::Array { len, mutable, inner } => {
                let (st, (k, open)) = finalize_const_spec(st, len);
                let (st, (t, more)) = finalize_spec(st, inner, (fuel - 1) as u64);
                (st, (Ty::Array { len: k, mutable: *mutable, inner: Box::new(t) }, open || more))
            },
            Ty::Tuple(elems) => {
                let (st, (e, open)) = finalize_tys_spec(st, elems, (fuel - 1) as u64);
                (st, (Ty::Tuple(Box::new(e)), open))
            },
            Ty::Dyn { def, assoc } => {
                let (st, (a, open)) = finalize_named_spec(st, assoc, (fuel - 1) as u64);
                (st, (Ty::Dyn { def: *def, assoc: Box::new(a) }, open))
            },
            Ty::Struct(fields) => {
                let (st, (f, open)) = finalize_named_spec(st, fields, (fuel - 1) as u64);
                (st, (Ty::Struct(Box::new(f)), open))
            },
            Ty::Func { params, ret, c } => {
                let (st, (p, open)) = finalize_tys_spec(st, params, (fuel - 1) as u64);
                let (st, (r, more)) = finalize_spec(st, ret, (fuel - 1) as u64);
                (st, (Ty::Func { params: Box::new(p), ret: Box::new(r), c: *c }, open || more))
            },
            _ => (st, ((*ty), false)),
        }
    }
}

/// [`find_solution`], as a mathematical function.
pub open spec fn find_solution_spec(l: &List<(u32, Ty)>, v: u32) -> Option<Ty> {
    match find_binding_spec(l, v) {
        Some(t) => Some((*t)),
        None => None,
    }
}

/// A copy of what a type variable was solved to.
pub fn find_solution(l: &List<(u32, Ty)>, v: u32) -> (r: Option<Ty>)
    ensures
        r == find_solution_spec(l, v),
{
    match find_binding(l, v) {
        Some(t) => Some(dup_ty(t)),
        None => None,
    }
}

/// [`Inferer::finalize_tys`], as a mathematical function.
pub open spec fn finalize_tys_spec(st: InfererV, l: &List<Ty>, fuel: u64) -> (InfererV, (List<Ty>, bool))
    decreases fuel, l,
{
    if fuel == 0 {
        (crate::unify::give_up_spec(st), (List::Nil, true))
    } else {
        match l {
            List::Nil => (st, (List::Nil, false)),
            List::Cons(h, t) => {
                let (st, (a, open)) = finalize_spec(st, h, (fuel - 1) as u64);
                let (st, (rest, more)) = finalize_tys_spec(st, t, fuel);
                (st, (List::Cons(a, Box::new(rest)), open || more))
            },
        }
    }
}

/// [`Inferer::finalize_named`], as a mathematical function.
pub open spec fn finalize_named_spec(
    st: InfererV,
    l: &List<(Symbol, Ty)>,
    fuel: u64,
) -> (InfererV, (List<(Symbol, Ty)>, bool))
    decreases fuel, l,
{
    if fuel == 0 {
        (crate::unify::give_up_spec(st), (List::Nil, true))
    } else {
        match l {
            List::Nil => (st, (List::Nil, false)),
            List::Cons(h, t) => {
                let (st, (a, open)) = finalize_spec(st, &h.1, (fuel - 1) as u64);
                let (st, (rest, more)) = finalize_named_spec(st, t, fuel);
                (st, (List::Cons((h.0, a), Box::new(rest)), open || more))
            },
        }
    }
}

/// [`Inferer::finalize_const`], as a mathematical function.
pub open spec fn finalize_const_spec(st: InfererV, c: &Const) -> (InfererV, (Const, bool)) {
    let k = shallow_const_spec(st, c, DEPTH_LIMIT);
    match k {
        Const::Var(v) => {
            let st = push_const_binding_spec(st, (v, Const::Error));
            (st, (Const::Error, true))
        },
        other => (st, (other, false)),
    }
}

/// [`Inferer::finalized`], as a mathematical function.
pub open spec fn finalized_spec(st: InfererV, ty: &Ty) -> (InfererV, Ty) {
    let (st, (t, _open)) = finalize_spec(st, ty, DEPTH_LIMIT);
    (st, t)
}

/// [`Inferer::finalized_tys`], as a mathematical function.
pub open spec fn finalized_tys_spec(st: InfererV, l: &List<Ty>) -> (InfererV, List<Ty>) {
    let (st, (t, _open)) = finalize_tys_spec(st, l, DEPTH_LIMIT);
    (st, t)
}

/// [`Inferer::autoderef`], as a mathematical function.
pub open spec fn autoderef_spec(st: InfererV, ty: &Ty, fuel: u64) -> Ty
    decreases fuel,
{
    if fuel == 0 {
        (*ty)
    } else {
        match shallow_spec(st, ty, (fuel - 1) as u64) {
            Ty::Ptr { mutable: _, inner } => autoderef_spec(st, &inner, (fuel - 1) as u64),
            other => other,
        }
    }
}

// Reporting.

/// [`Inferer::report_in`], as a mathematical function.
pub open spec fn report_in_spec(
    st: InfererV,
    env: &InferCx,
    file: FileId,
    node: NodeId,
    message: List<Part>,
) -> InfererV {
    let (_at, span) = crate::def::span_of_spec(env.tables, file, node);
    let st = say_at_spec(st, Diagnostic { file: file, span: span, message: message, note: None });
    st
}

/// [`Inferer::report`], as a mathematical function.
pub open spec fn report_spec(st: InfererV, env: &InferCx, node: NodeId, message: List<Part>) -> InfererV {
    let st = report_in_spec(st, env, st.file, node, message);
    st
}

/// [`Inferer::report_with_note_in`], as a mathematical function.
pub open spec fn report_with_note_in_spec(
    st: InfererV,
    env: &InferCx,
    file: FileId,
    node: NodeId,
    message: List<Part>,
    note: List<Part>,
) -> InfererV {
    let (_at, span) = crate::def::span_of_spec(env.tables, file, node);
    let st = say_at_spec(st, Diagnostic { file: file, span: span, message: message, note: Some(note) });
    st
}

/// [`Inferer::report_with_note`], as a mathematical function.
pub open spec fn report_with_note_spec(
    st: InfererV,
    env: &InferCx,
    node: NodeId,
    message: List<Part>,
    note: List<Part>,
) -> InfererV {
    let st = report_with_note_in_spec(st, env, st.file, node, message, note);
    st
}

/// [`Inferer::report_const_in`], as a mathematical function.
pub open spec fn report_const_in_spec(
    st: InfererV,
    env: &InferCx,
    file: FileId,
    node: NodeId,
    message: List<Part>,
) -> InfererV {
    match get_const_slot_reported_spec(st, file, node) {
        Some(_) => {
            st
        },
        None => {
            let st = set_const_slot_reported_spec(st, file, node, ConstSlotReported);
            let st = report_in_spec(st, env, file, node, message);
            st
        },
    }
}

impl Inferer {
    /// A new type variable.
    pub fn fresh(&mut self) -> (r: Ty)
        ensures
            (final(self)@, r) == fresh_spec(old(self)@),
            crate::keeping::kept(old(self)@, final(self)@),
    {
        proof {
            reveal(crate::keeping::kept);
        }
        let v = self.next_var;
        self.next_var = succ32(v);
        Ty::Var(v)
    }

    /// A new type variable that may only become certain types.
    pub fn fresh_of(&mut self, kind: TyVarKind) -> (r: Ty)
        ensures
            (final(self)@, r) == fresh_of_spec(old(self)@, kind),
            crate::keeping::kept(old(self)@, final(self)@),
    {
        proof {
            reveal(crate::keeping::kept);
        }
        let v = self.next_var;
        self.next_var = succ32(v);
        self.push_kind((v, kind));
        Ty::Var(v)
    }

    /// A new compile-time variable.
    pub fn fresh_const(&mut self) -> (r: Const)
        ensures
            (final(self)@, r) == fresh_const_spec(old(self)@),
            crate::keeping::kept(old(self)@, final(self)@),
    {
        proof {
            reveal(crate::keeping::kept);
        }
        let v = self.next_const;
        self.next_const = succ32(v);
        Const::Var(v)
    }

    /// As many new type variables as a list has elements.
    pub fn fresh_each(&mut self, l: &List<DefId>) -> (r: List<Ty>)
        ensures
            (final(self)@, r) == fresh_each_spec(old(self)@, l),
            crate::keeping::kept(old(self)@, final(self)@),
        decreases l,
    {
        match l {
            List::Nil => List::Nil,
            List::Cons(_, t) => {
                let v = self.fresh();
                let rest = self.fresh_each(t);
                List::Cons(v, Box::new(rest))
            },
        }
    }

    /// As many new type variables as a list has nodes.
    pub fn fresh_for(&mut self, l: &List<NodeId>) -> (r: List<Ty>)
        ensures
            (final(self)@, r) == fresh_for_spec(old(self)@, l),
            crate::keeping::kept(old(self)@, final(self)@),
        decreases l,
    {
        match l {
            List::Nil => List::Nil,
            List::Cons(_, t) => {
                let v = self.fresh();
                let rest = self.fresh_for(t);
                List::Cons(v, Box::new(rest))
            },
        }
    }

    /// As many new type variables as asked for.
    pub fn fresh_n(&mut self, n: u64) -> (r: List<Ty>)
        ensures
            (final(self)@, r) == fresh_n_spec(old(self)@, n),
            crate::keeping::kept(old(self)@, final(self)@),
        decreases n,
    {
        if n == 0 {
            List::Nil
        } else {
            let v = self.fresh();
            let rest = self.fresh_n((n - 1) as u64);
            List::Cons(v, Box::new(rest))
        }
    }

    /// A type with a solved variable at its head followed.
    pub fn shallow(&self, ty: &Ty, fuel: u64) -> (r: Ty)
        ensures
            r == shallow_spec(self@, ty, fuel),
        decreases fuel,
    {
        if fuel == 0 {
            return dup_ty(ty);
        }
        match ty {
            Ty::Var(v) => match find_binding(&self.bindings, *v) {
                Some(t) => self.shallow(t, (fuel - 1) as u64),
                None => dup_ty(ty),
            },
            _ => dup_ty(ty),
        }
    }

    /// A compile-time value with a solved variable followed.
    pub fn shallow_const(&self, c: &Const, fuel: u64) -> (r: Const)
        ensures
            r == shallow_const_spec(self@, c, fuel),
        decreases fuel,
    {
        if fuel == 0 {
            return dup_const(c);
        }
        match c {
            Const::Var(v) => match find_const_binding(&self.const_bindings, *v) {
                Some(k) => self.shallow_const(k, (fuel - 1) as u64),
                None => dup_const(c),
            },
            _ => dup_const(c),
        }
    }

    /// A type with every solved variable replaced.
    pub fn resolve(&self, ty: &Ty, fuel: u64) -> (r: Ty)
        ensures
            r == resolve_spec(self@, ty, fuel),
        decreases fuel,
    {
        if fuel == 0 {
            return dup_ty(ty);
        }
        match ty {
            Ty::Var(v) => match find_binding(&self.bindings, *v) {
                Some(t) => self.resolve(t, (fuel - 1) as u64),
                None => dup_ty(ty),
            },
            Ty::Int { signed, width } => Ty::Int {
                signed: *signed,
                width: self.shallow_const(width, (fuel - 1) as u64),
            },
            Ty::Nominal { def, args } => Ty::Nominal {
                def: *def,
                args: Box::new(self.resolve_tys(args, (fuel - 1) as u64)),
            },
            Ty::Ptr { mutable, inner } => Ty::Ptr {
                mutable: *mutable,
                inner: Box::new(self.resolve(inner, (fuel - 1) as u64)),
            },
            Ty::Slice { mutable, inner } => Ty::Slice {
                mutable: *mutable,
                inner: Box::new(self.resolve(inner, (fuel - 1) as u64)),
            },
            Ty::Array { len, mutable, inner } => Ty::Array {
                len: self.shallow_const(len, (fuel - 1) as u64),
                mutable: *mutable,
                inner: Box::new(self.resolve(inner, (fuel - 1) as u64)),
            },
            Ty::Tuple(elems) => Ty::Tuple(Box::new(self.resolve_tys(elems, (fuel - 1) as u64))),
            Ty::Dyn { def, assoc } => Ty::Dyn {
                def: *def,
                assoc: Box::new(self.resolve_named(assoc, (fuel - 1) as u64)),
            },
            Ty::Struct(fields) => Ty::Struct(Box::new(self.resolve_named(fields, (fuel - 1) as u64))),
            Ty::Func { params, ret, c } => Ty::Func {
                params: Box::new(self.resolve_tys(params, (fuel - 1) as u64)),
                ret: Box::new(self.resolve(ret, (fuel - 1) as u64)),
                c: *c,
            },
            _ => dup_ty(ty),
        }
    }

    /// A list of types with every solved variable replaced.
    pub fn resolve_tys(&self, l: &List<Ty>, fuel: u64) -> (r: List<Ty>)
        ensures
            r == resolve_tys_spec(self@, l, fuel),
        decreases fuel, l,
    {
        if fuel == 0 {
            return dup_tys(l);
        }
        match l {
            List::Nil => List::Nil,
            List::Cons(h, t) => List::Cons(
                self.resolve(h, (fuel - 1) as u64),
                Box::new(self.resolve_tys(t, fuel)),
            ),
        }
    }

    /// A list of named types with every solved variable replaced.
    pub fn resolve_named(&self, l: &List<(Symbol, Ty)>, fuel: u64) -> (r: List<(Symbol, Ty)>)
        ensures
            r == resolve_named_spec(self@, l, fuel),
        decreases fuel, l,
    {
        if fuel == 0 {
            return dup_named_tys(l);
        }
        match l {
            List::Nil => List::Nil,
            List::Cons(h, t) => List::Cons(
                (dup_sym(&h.0), self.resolve(&h.1, (fuel - 1) as u64)),
                Box::new(self.resolve_named(t, fuel)),
            ),
        }
    }

    /// What an unsolved variable at the head of a type is restricted to.
    pub fn var_kind(&self, ty: &Ty) -> (r: Option<TyVarKind>)
        ensures
            r == var_kind_spec(self@, ty),
    {
        match self.shallow(ty, DEPTH_LIMIT) {
            Ty::Var(v) => Some(find_kind(&self.kinds, v)),
            _ => None,
        }
    }

    /// The number a `distinct` type stands over.
    pub fn numeric_distinct_repr(&self, ty: &Ty) -> (r: Option<Ty>)
        ensures
            r == numeric_distinct_repr_spec(self@, ty),
    {
        match ty {
            Ty::Nominal { def, args: _ } => match find_ty(&self.distincts, *def) {
                Some(t) => Some(dup_ty(t)),
                None => None,
            },
            _ => None,
        }
    }

    /// The number a type is checked against: itself, or what a `distinct` one
    /// stands over.
    pub fn numeric_repr(&self, ty: &Ty) -> (r: Ty)
        ensures
            r == numeric_repr_spec(self@, ty),
    {
        match self.numeric_distinct_repr(ty) {
            Some(t) => t,
            None => dup_ty(ty),
        }
    }

    /// Whether a string literal may become a type.
    pub fn admits_str(&self, ty: &Ty) -> (r: bool)
        ensures
            r == admits_str_spec(self@, ty),
    {
        match ty {
            Ty::Slice { mutable: false, inner } => match self.shallow(inner, DEPTH_LIMIT) {
                Ty::Char => true,
                Ty::Int { signed: false, width } => const_value(&width) == Some(8u64),
                _ => false,
            },
            _ => match &self.str_ty {
                Some(t) => ty_eq(t, ty),
                None => false,
            },
        }
    }

    /// Whether a variable of a kind may become a type that is not a variable.
    pub fn admits(&self, kind: TyVarKind, ty: &Ty) -> (r: bool)
        ensures
            r == admits_spec(self@, kind, ty),
    {
        match kind {
            TyVarKind::General => true,
            TyVarKind::Int => is_error(ty) || is_int(&self.numeric_repr(ty)),
            TyVarKind::Float => is_error(ty) || is_float(&self.numeric_repr(ty)),
            TyVarKind::Str => is_error(ty) || self.admits_str(ty),
        }
    }

    /// Whether a variable occurs in a type.
    pub fn occurs(&self, v: u32, ty: &Ty, fuel: u64) -> (r: bool)
        ensures
            r == occurs_spec(self@, v, ty, fuel),
        decreases fuel,
    {
        if fuel == 0 {
            return true;
        }
        match ty {
            Ty::Var(w) => match find_binding(&self.bindings, *w) {
                Some(t) => self.occurs(v, t, (fuel - 1) as u64),
                None => *w == v,
            },
            Ty::Nominal { def: _, args } => self.occurs_in(v, args, (fuel - 1) as u64),
            Ty::Ptr { mutable: _, inner } => self.occurs(v, inner, (fuel - 1) as u64),
            Ty::Slice { mutable: _, inner } => self.occurs(v, inner, (fuel - 1) as u64),
            Ty::Array { len: _, mutable: _, inner } => self.occurs(v, inner, (fuel - 1) as u64),
            Ty::Tuple(elems) => self.occurs_in(v, elems, (fuel - 1) as u64),
            Ty::Dyn { def: _, assoc } => self.occurs_named(v, assoc, (fuel - 1) as u64),
            Ty::Struct(fields) => self.occurs_named(v, fields, (fuel - 1) as u64),
            Ty::Func { params, ret, c: _ } => self.occurs_in(v, params, (fuel - 1) as u64)
                || self.occurs(v, ret, (fuel - 1) as u64),
            _ => false,
        }
    }

    /// Whether a variable occurs in a list of types.
    pub fn occurs_in(&self, v: u32, l: &List<Ty>, fuel: u64) -> (r: bool)
        ensures
            r == occurs_in_spec(self@, v, l, fuel),
        decreases fuel, l,
    {
        if fuel == 0 {
            return true;
        }
        match l {
            List::Nil => false,
            List::Cons(h, t) => self.occurs(v, h, (fuel - 1) as u64) || self.occurs_in(v, t, fuel),
        }
    }

    /// Whether a variable occurs in a list of named types.
    pub fn occurs_named(&self, v: u32, l: &List<(Symbol, Ty)>, fuel: u64) -> (r: bool)
        ensures
            r == occurs_named_spec(self@, v, l, fuel),
        decreases fuel, l,
    {
        if fuel == 0 {
            return true;
        }
        match l {
            List::Nil => false,
            List::Cons(h, t) => self.occurs(v, &h.1, (fuel - 1) as u64) || self.occurs_named(v, t, fuel),
        }
    }

    /// Solve a variable to a type that is not that variable.
    pub fn solve_var(&mut self, v: u32, ty: &Ty) -> (r: bool)
        ensures
            (final(self)@, r) == solve_var_spec(old(self)@, v, ty),
            only_solved(old(self)@, final(self)@),
            crate::keeping::kept(old(self)@, final(self)@),
    {
        proof {
            reveal(crate::keeping::kept);
        }
        let kind = find_kind(&self.kinds, v);
        match ty {
            Ty::Var(w) => {
                let other = find_kind(&self.kinds, *w);
                if kind == TyVarKind::General {
                    self.push_binding((v, Ty::Var(*w)));
                    true
                } else if other == TyVarKind::General || other == kind {
                    self.push_binding((*w, Ty::Var(v)));
                    true
                } else {
                    false
                }
            },
            _ => if self.admits(kind, ty) && !self.occurs(v, ty, DEPTH_LIMIT) {
                self.push_binding((v, dup_ty(ty)));
                true
            } else {
                false
            },
        }
    }

    /// Make a value's type and the type its slot wants agree. `None` where they now
    /// do, and the two that clashed where they cannot.
    ///
    /// An error agrees with anything. So does `never`, nothing of that type ever being
    /// there, and it solves nothing: a variable it meets is left for whatever else
    /// meets it to decide. A permission to write may be given up on the way into a slot,
    /// and never gained.
    pub fn unify(&mut self, actual: &Ty, expected: &Ty, fuel: u64) -> (r: Option<(Ty, Ty)>)
        ensures
            (final(self)@, r) == unify_spec(old(self)@, actual, expected, fuel),
            only_solved(old(self)@, final(self)@),
            crate::keeping::kept(old(self)@, final(self)@),
        decreases fuel,
    {
        if fuel == 0 {
            self.give_up();
            return None;
        }
        proof {
            reveal(crate::keeping::kept);
        }
        let a = self.shallow(actual, DEPTH_LIMIT);
        let b = self.shallow(expected, DEPTH_LIMIT);
        match (&a, &b) {
            (Ty::Var(v), Ty::Var(w)) => if *v == *w {
                None
            } else {
                let done = self.solve_var(*v, &b);
                if done {
                    None
                } else {
                    clash(&a, &b)
                }
            },
            (Ty::Never, Ty::Var(w)) => {
                self.push_diverged(*w);
                None
            },
            (Ty::Var(v), Ty::Never) => {
                self.push_diverged(*v);
                None
            },
            (Ty::Var(v), _) => {
                let done = self.solve_var(*v, &b);
                if done {
                    None
                } else {
                    clash(&a, &b)
                }
            },
            (_, Ty::Var(w)) => {
                let done = self.solve_var(*w, &a);
                if done {
                    None
                } else {
                    clash(&a, &b)
                }
            },
            (Ty::Error, _) => None,
            (_, Ty::Error) => None,
            (Ty::Never, _) => None,
            (_, Ty::Never) => None,
            (Ty::Int { signed: s, width: m }, Ty::Int { signed: t, width: n }) => if *s == *t {
                let same = self.unify_const(m, n);
                if same {
                    None
                } else {
                    clash(&a, &b)
                }
            } else {
                clash(&a, &b)
            },
            (Ty::Nominal { def: d, args: x }, Ty::Nominal { def: e, args: y }) => if *d == *e
                && list_len(x) == list_len(y) {
                self.unify_tys(x, y, (fuel - 1) as u64)
            } else {
                clash(&a, &b)
            },
            (Ty::Ptr { mutable: m, inner: x }, Ty::Ptr { mutable: n, inner: y }) => if *n && !*m {
                clash(&a, &b)
            } else {
                self.unify(x, y, (fuel - 1) as u64)
            },
            (Ty::Slice { mutable: m, inner: x }, Ty::Slice { mutable: n, inner: y }) => if *n && !*m {
                clash(&a, &b)
            } else {
                self.unify(x, y, (fuel - 1) as u64)
            },
            (Ty::Array { len: k, mutable: m, inner: x }, Ty::Array { len: l, mutable: n, inner: y }) => if *n
                && !*m {
                clash(&a, &b)
            } else {
                let same = self.unify_const(k, l);
                if same {
                    self.unify(x, y, (fuel - 1) as u64)
                } else {
                    clash(&a, &b)
                }
            },
            (Ty::Tuple(x), Ty::Tuple(y)) => if list_len(x) == list_len(y) {
                self.unify_tys(x, y, (fuel - 1) as u64)
            } else {
                clash(&a, &b)
            },
            (Ty::Dyn { def: d, assoc: x }, Ty::Dyn { def: e, assoc: y }) => if *d == *e && same_names(x, y) {
                self.unify_named(x, y, (fuel - 1) as u64)
            } else {
                clash(&a, &b)
            },
            (Ty::Struct(x), Ty::Struct(y)) => if same_names(x, y) {
                self.unify_named(x, y, (fuel - 1) as u64)
            } else {
                clash(&a, &b)
            },
            (Ty::Func { params: p, ret: r, c: c }, Ty::Func { params: q, ret: s, c: d }) => if *c == *d
                && list_len(p) == list_len(q) {
                let first = self.unify_tys(p, q, (fuel - 1) as u64);
                match first {
                    None => self.unify(r, s, (fuel - 1) as u64),
                    Some(x) => Some(x),
                }
            } else {
                clash(&a, &b)
            },
            _ => if ty_eq(&a, &b) {
                None
            } else {
                clash(&a, &b)
            },
        }
    }

    /// The same over two lists, up to the first clash.
    pub fn unify_tys(&mut self, x: &List<Ty>, y: &List<Ty>, fuel: u64) -> (r: Option<(Ty, Ty)>)
        ensures
            (final(self)@, r) == unify_tys_spec(old(self)@, x, y, fuel),
            only_solved(old(self)@, final(self)@),
            crate::keeping::kept(old(self)@, final(self)@),
        decreases fuel, x,
    {
        if fuel == 0 {
            self.give_up();
            return None;
        }
        proof {
            reveal(crate::keeping::kept);
        }
        match (x, y) {
            (List::Cons(a, s), List::Cons(b, t)) => {
                let first = self.unify(a, b, (fuel - 1) as u64);
                match first {
                    None => self.unify_tys(s, t, fuel),
                    Some(c) => Some(c),
                }
            },
            _ => None,
        }
    }

    /// The same over two lists of named types.
    pub fn unify_named(
        &mut self,
        x: &List<(Symbol, Ty)>,
        y: &List<(Symbol, Ty)>,
        fuel: u64,
    ) -> (r: Option<(Ty, Ty)>)
        ensures
            (final(self)@, r) == unify_named_spec(old(self)@, x, y, fuel),
            only_solved(old(self)@, final(self)@),
            crate::keeping::kept(old(self)@, final(self)@),
        decreases fuel, x,
    {
        if fuel == 0 {
            self.give_up();
            return None;
        }
        proof {
            reveal(crate::keeping::kept);
        }
        match (x, y) {
            (List::Cons(a, s), List::Cons(b, t)) => {
                let first = self.unify(&a.1, &b.1, (fuel - 1) as u64);
                match first {
                    None => self.unify_named(s, t, fuel),
                    Some(c) => Some(c),
                }
            },
            _ => None,
        }
    }

    /// Make two compile-time values agree, and say whether they do.
    pub fn unify_const(&mut self, x: &Const, y: &Const) -> (r: bool)
        ensures
            (final(self)@, r) == unify_const_spec(old(self)@, x, y),
            only_solved(old(self)@, final(self)@),
            crate::keeping::kept(old(self)@, final(self)@),
    {
        proof {
            reveal(crate::keeping::kept);
        }
        let a = self.shallow_const(x, DEPTH_LIMIT);
        let b = self.shallow_const(y, DEPTH_LIMIT);
        match (&a, &b) {
            (Const::Var(v), Const::Var(w)) => if *v == *w {
                true
            } else {
                self.push_const_binding((*v, dup_const(&b)));
                true
            },
            (Const::Var(v), _) => {
                self.push_const_binding((*v, dup_const(&b)));
                true
            },
            (_, Const::Var(w)) => {
                self.push_const_binding((*w, dup_const(&a)));
                true
            },
            (Const::Error, _) => true,
            (_, Const::Error) => true,
            _ => match (const_value(&a), const_value(&b)) {
                (Some(m), Some(n)) => m == n,
                _ => const_eq(&a, &b),
            },
        }
    }

    /// Where things stand.
    pub fn snapshot(&self) -> (r: Snapshot)
        ensures
            r == snapshot_spec(self@),
    {
        Snapshot {
            bindings: dup_bindings(&self.bindings),
            const_bindings: dup_const_bindings(&self.const_bindings),
            diverged: dup_vars(&self.diverged),
            obligations: self.pending(),
        }
    }

    /// Go back to where a trial began.
    pub fn rollback(&mut self, s: Snapshot)
        ensures
            final(self)@ == rollback_spec(old(self)@, s),
            crate::keeping::kept(old(self)@, final(self)@),
    {
        proof {
            reveal(crate::keeping::kept);
        }
        self.bindings = s.bindings;
        self.const_bindings = s.const_bindings;
        self.diverged = s.diverged;
        self.obligations = s.obligations;
    }

    /// Settle an open string literal on `str`.
    pub fn pin_str(&mut self, ty: &Ty) -> (r: Ty)
        ensures
            (final(self)@, r) == pin_str_spec(old(self)@, ty),
            crate::keeping::kept(old(self)@, final(self)@),
    {
        let s = self.shallow(ty, DEPTH_LIMIT);
        match self.var_kind(&s) {
            Some(TyVarKind::Str) => {
                let d = self.default_of(TyVarKind::Str);
                let _clash = self.unify(&s, &d, DEPTH_LIMIT);
                self.shallow(&s, DEPTH_LIMIT)
            },
            _ => dup_ty(ty),
        }
    }

    /// What a literal that nothing constrains is.
    pub fn default_of(&self, kind: TyVarKind) -> (r: Ty)
        ensures
            r == default_of_spec(self@, kind),
    {
        match kind {
            TyVarKind::General => Ty::Error,
            TyVarKind::Int => match &self.ptr_ints {
                Some(p) => dup_ty(&p.1),
                None => Ty::Error,
            },
            TyVarKind::Float => Ty::Float(FloatWidth::F64),
            TyVarKind::Str => match &self.str_ty {
                Some(t) => dup_ty(t),
                None => Ty::Error,
            },
        }
    }

    /// Settle an open numeric literal on its default.
    pub fn pin_numeric(&mut self, ty: &Ty) -> (r: Ty)
        ensures
            (final(self)@, r) == pin_numeric_spec(old(self)@, ty),
            crate::keeping::kept(old(self)@, final(self)@),
    {
        let s = self.shallow(ty, DEPTH_LIMIT);
        match self.var_kind(&s) {
            Some(TyVarKind::Int) => {
                let d = self.default_of(TyVarKind::Int);
                let _clash = self.unify(&s, &d, DEPTH_LIMIT);
                self.shallow(&s, DEPTH_LIMIT)
            },
            Some(TyVarKind::Float) => {
                let d = self.default_of(TyVarKind::Float);
                let _clash = self.unify(&s, &d, DEPTH_LIMIT);
                self.shallow(&s, DEPTH_LIMIT)
            },
            _ => dup_ty(ty),
        }
    }

    /// `usize`, or an error where there is none.
    pub fn usize_ty(&self) -> (r: Ty)
        ensures
            r == usize_ty_spec(self@),
    {
        match &self.ptr_ints {
            Some(p) => dup_ty(&p.0),
            None => Ty::Error,
        }
    }

    /// Whether any of some variables comes down to a variable nothing has solved.
    pub fn any_reaches(&self, l: &List<u32>, v: u32) -> (r: bool)
        ensures
            r == any_reaches_spec(self@, l, v),
        decreases l,
    {
        match l {
            List::Nil => false,
            List::Cons(h, t) => ty_eq(&self.shallow(&Ty::Var(*h), DEPTH_LIMIT), &Ty::Var(v))
                || self.any_reaches(t, v),
        }
    }

    /// Replace every variable of a type for good: solved ones by what they are, open
    /// literals by their defaults, those only `never` met by `never`, and anything
    /// else by an error. Says whether any was of the last sort.
    pub fn finalize(&mut self, ty: &Ty, fuel: u64) -> (r: (Ty, bool))
        ensures
            (final(self)@, r) == finalize_spec(old(self)@, ty, fuel),
            literals_settled(old(self)@) ==> settled(&r.0),
            old(self)@.facts == final(self)@.facts,
            old(self)@.diags == final(self)@.diags,
            crate::keeping::kept(old(self)@, final(self)@),
        decreases fuel,
    {
        if fuel == 0 {
            self.give_up();
            return (Ty::Error, true);
        }
        proof {
            reveal(crate::keeping::kept);
        }
        match ty {
            Ty::Var(v) => match find_solution(&self.bindings, *v) {
                Some(t) => self.finalize(&t, (fuel - 1) as u64),
                None => {
                    let kind = find_kind(&self.kinds, *v);
                    let diverges = kind == TyVarKind::General && self.any_reaches(&self.diverged, *v);
                    let d = if diverges {
                        Ty::Never
                    } else {
                        self.default_of(kind)
                    };
                    self.push_binding((*v, dup_ty(&d)));
                    (d, kind == TyVarKind::General && !diverges)
                },
            },
            Ty::Int { signed, width } => {
                let (w, open) = self.finalize_const(width);
                (Ty::Int { signed: *signed, width: w }, open)
            },
            Ty::Nominal { def, args } => {
                let (a, open) = self.finalize_tys(args, (fuel - 1) as u64);
                (Ty::Nominal { def: *def, args: Box::new(a) }, open)
            },
            Ty::Ptr { mutable, inner } => {
                let (t, open) = self.finalize(inner, (fuel - 1) as u64);
                (Ty::Ptr { mutable: *mutable, inner: Box::new(t) }, open)
            },
            Ty::Slice { mutable, inner } => {
                let (t, open) = self.finalize(inner, (fuel - 1) as u64);
                (Ty::Slice { mutable: *mutable, inner: Box::new(t) }, open)
            },
            Ty::Array { len, mutable, inner } => {
                let (k, open) = self.finalize_const(len);
                let (t, more) = self.finalize(inner, (fuel - 1) as u64);
                (Ty::Array { len: k, mutable: *mutable, inner: Box::new(t) }, open || more)
            },
            Ty::Tuple(elems) => {
                let (e, open) = self.finalize_tys(elems, (fuel - 1) as u64);
                (Ty::Tuple(Box::new(e)), open)
            },
            Ty::Dyn { def, assoc } => {
                let (a, open) = self.finalize_named(assoc, (fuel - 1) as u64);
                (Ty::Dyn { def: *def, assoc: Box::new(a) }, open)
            },
            Ty::Struct(fields) => {
                let (f, open) = self.finalize_named(fields, (fuel - 1) as u64);
                (Ty::Struct(Box::new(f)), open)
            },
            Ty::Func { params, ret, c } => {
                let (p, open) = self.finalize_tys(params, (fuel - 1) as u64);
                let (r, more) = self.finalize(ret, (fuel - 1) as u64);
                (Ty::Func { params: Box::new(p), ret: Box::new(r), c: *c }, open || more)
            },
            _ => (dup_ty(ty), false),
        }
    }

    /// The same over a list of types.
    pub fn finalize_tys(&mut self, l: &List<Ty>, fuel: u64) -> (r: (List<Ty>, bool))
        ensures
            (final(self)@, r) == finalize_tys_spec(old(self)@, l, fuel),
            literals_settled(old(self)@) ==> all_settled(&r.0),
            old(self)@.facts == final(self)@.facts,
            old(self)@.diags == final(self)@.diags,
            crate::keeping::kept(old(self)@, final(self)@),
        decreases fuel, l,
    {
        if fuel == 0 {
            self.give_up();
            return (List::Nil, true);
        }
        proof {
            reveal(crate::keeping::kept);
        }
        match l {
            List::Nil => (List::Nil, false),
            List::Cons(h, t) => {
                let (a, open) = self.finalize(h, (fuel - 1) as u64);
                let (rest, more) = self.finalize_tys(t, fuel);
                (List::Cons(a, Box::new(rest)), open || more)
            },
        }
    }

    /// The same over a list of named types.
    pub fn finalize_named(&mut self, l: &List<(Symbol, Ty)>, fuel: u64) -> (r: (List<(Symbol, Ty)>, bool))
        ensures
            (final(self)@, r) == finalize_named_spec(old(self)@, l, fuel),
            literals_settled(old(self)@) ==> !crate::subst::any_named_mentions_spec(&r.0, Mention::Var),
            old(self)@.facts == final(self)@.facts,
            old(self)@.diags == final(self)@.diags,
            crate::keeping::kept(old(self)@, final(self)@),
        decreases fuel, l,
    {
        if fuel == 0 {
            self.give_up();
            return (List::Nil, true);
        }
        proof {
            reveal(crate::keeping::kept);
        }
        match l {
            List::Nil => (List::Nil, false),
            List::Cons(h, t) => {
                let (a, open) = self.finalize(&h.1, (fuel - 1) as u64);
                let (rest, more) = self.finalize_named(t, fuel);
                (List::Cons((dup_sym(&h.0), a), Box::new(rest)), open || more)
            },
        }
    }

    /// The same for a compile-time value.
    pub fn finalize_const(&mut self, c: &Const) -> (r: (Const, bool))
        ensures
            (final(self)@, r) == finalize_const_spec(old(self)@, c),
            !crate::subst::const_mentions_spec(&r.0, Mention::Var),
            old(self)@.facts == final(self)@.facts,
            old(self)@.diags == final(self)@.diags,
            crate::keeping::kept(old(self)@, final(self)@),
    {
        proof {
            reveal(crate::keeping::kept);
        }
        let k = self.shallow_const(c, DEPTH_LIMIT);
        match k {
            Const::Var(v) => {
                self.push_const_binding((v, Const::Error));
                (Const::Error, true)
            },
            other => (other, false),
        }
    }

    /// A type finalized, whether or not it was open.
    pub fn finalized(&mut self, ty: &Ty) -> (r: Ty)
        ensures
            (final(self)@, r) == finalized_spec(old(self)@, ty),
            literals_settled(old(self)@) ==> settled(&r),
            old(self)@.facts == final(self)@.facts,
            old(self)@.diags == final(self)@.diags,
            crate::keeping::kept(old(self)@, final(self)@),
    {
        proof {
            reveal(crate::keeping::kept);
        }
        let (t, _open) = self.finalize(ty, DEPTH_LIMIT);
        t
    }

    /// A list of types finalized.
    pub fn finalized_tys(&mut self, l: &List<Ty>) -> (r: List<Ty>)
        ensures
            (final(self)@, r) == finalized_tys_spec(old(self)@, l),
            literals_settled(old(self)@) ==> all_settled(&r),
            old(self)@.facts == final(self)@.facts,
            old(self)@.diags == final(self)@.diags,
            crate::keeping::kept(old(self)@, final(self)@),
    {
        proof {
            reveal(crate::keeping::kept);
        }
        let (t, _open) = self.finalize_tys(l, DEPTH_LIMIT);
        t
    }

    /// A type with the pointers peeled off it.
    pub fn autoderef(&self, ty: &Ty, fuel: u64) -> (r: Ty)
        ensures
            r == autoderef_spec(self@, ty, fuel),
        decreases fuel,
    {
        if fuel == 0 {
            return dup_ty(ty);
        }
        match self.shallow(ty, (fuel - 1) as u64) {
            Ty::Ptr { mutable: _, inner } => self.autoderef(&inner, (fuel - 1) as u64),
            other => other,
        }
    }

    /// Complain about a node of a file.
    pub fn report_in(&mut self, env: &InferCx, file: FileId, node: NodeId, message: List<Part>)
        ensures
            final(self)@ == report_in_spec(old(self)@, env, file, node, message),
            crate::keeping::kept(old(self)@, final(self)@),
    {
        let (_at, span) = span_of(env.tables, file, node);
        self.say_at(Diagnostic { file: file, span: span, message: message, note: None });
    }

    /// Complain about a node of the file being inferred.
    pub fn report(&mut self, env: &InferCx, node: NodeId, message: List<Part>)
        ensures
            final(self)@ == report_spec(old(self)@, env, node, message),
            crate::keeping::kept(old(self)@, final(self)@),
    {
        self.report_in(env, self.file, node, message);
    }

    /// Complain with an afterthought.
    pub fn report_with_note_in(
        &mut self,
        env: &InferCx,
        file: FileId,
        node: NodeId,
        message: List<Part>,
        note: List<Part>,
    )
        ensures
            final(self)@ == report_with_note_in_spec(old(self)@, env, file, node, message, note),
            crate::keeping::kept(old(self)@, final(self)@),
    {
        let (_at, span) = span_of(env.tables, file, node);
        self.say_at(Diagnostic { file: file, span: span, message: message, note: Some(note) });
    }

    /// Complain with an afterthought about a node of the file being inferred.
    pub fn report_with_note(&mut self, env: &InferCx, node: NodeId, message: List<Part>, note: List<Part>)
        ensures
            final(self)@ == report_with_note_spec(old(self)@, env, node, message, note),
            crate::keeping::kept(old(self)@, final(self)@),
    {
        self.report_with_note_in(env, self.file, node, message, note);
    }

    /// Complain about a compile-time slot, at most once per slot.
    pub fn report_const_in(&mut self, env: &InferCx, file: FileId, node: NodeId, message: List<Part>)
        ensures
            final(self)@ == report_const_in_spec(old(self)@, env, file, node, message),
            crate::keeping::kept(old(self)@, final(self)@),
    {
        match self.get_const_slot_reported(file, node) {
            Some(_) => {},
            None => {
                self.set_const_slot_reported(file, node, ConstSlotReported);
                self.report_in(env, file, node, message);
            },
        }
    }
}

} // verus!
