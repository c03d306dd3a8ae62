//! Type inference over whole files: what is gathered before a file is looked
//! at, the passes over it, and the questions other packages will ask of it.

use vstd::prelude::*;

use crate::ast::{dup_nodes, Lit, NodeKind};
use crate::decls::{bound_nodes, recorded_distinct_repr};
use crate::def::{
    bound_rhs, def_count, def_file, def_kind, def_name, def_node, def_place, get_def, has_ast, kind_of,
    lang_ty, node_count, resolve_alias, DefKind, ImplInfo, Tables, TypedImpl, Vis,
};
use crate::diag::{say, Diagnostic};
use crate::facts::{ConstSlotReported, Facts, FactsV, ImplTarget, Resolution, TyPathReported};
use crate::ids::{def_at, node_at, DefId, FileId, NodeId, Span};
use crate::list::{is_empty, nth, single, DEPTH_LIMIT, List};
use crate::lower::names_type_kind;
use crate::solve::{get_impl, impl_count, projection_of};
use crate::subst::{any_mentions, any_named_mentions, mentions, Mention};
use crate::symbol::{dup_sym, sym_is, Symbol};
use crate::table::Table;
use crate::ty::{dup_ty, dup_tys, int_ty, small_int, ConstValue, Ty};
use crate::types::primitive_ty;
use crate::unify::{InferCx, Inferer, InfererV};

verus! {

/// What every pass keeps: what was said before it stays said.
pub open spec fn grew(old_st: InfererV, new_st: InfererV) -> bool {
    crate::keeping::said_still(old_st.diags, new_st.diags)
}

/// What a type parameter's declaration comes to, beyond the traits it names.
pub struct ParamDecl {
    /// The traits it is bounded by, with the arguments they were written with.
    pub bounds: List<(DefId, List<Ty>)>,
    /// What its bound pinned it to.
    pub pinned: Option<Ty>,
    /// What an `impl` return type turned out to be, over these parameters.
    pub revealed: Option<(List<DefId>, Ty)>,
}

/// Whether the types literals settle on, and the file, are still what they were.
pub open spec fn literals_kept(old_st: InfererV, new_st: InfererV) -> bool {
    &&& old_st.str_ty == new_st.str_ty
    &&& old_st.ptr_ints == new_st.ptr_ints
    &&& old_st.file == new_st.file
}

/// Whether every fact a later stage reads types from is settled, at every node of
/// a file.
#[verifier::opaque]
pub open spec fn file_settled(t: &Tables, facts: FactsV, file: FileId) -> bool {
    forall|j: u64|
        j < crate::def::node_count_spec(t, file) ==> #[trigger] crate::bodies::facts_settled(
            facts,
            crate::ids::node_key_spec(file, crate::ids::node_at_spec(j)),
        )
}

/// In a settled file, no fact of any node holds a variable.
pub proof fn settled_file_has_settled_nodes(t: &Tables, facts: FactsV, file: FileId, node: NodeId)
    requires
        file_settled(t, facts, file),
        node.0 < crate::def::node_count_spec(t, file),
    ensures
        crate::bodies::facts_settled(facts, crate::ids::node_key_spec(file, node)),
{
    reveal(file_settled);
    assert(crate::ids::node_at_spec(node.0 as u64) == node);
    assert(crate::bodies::facts_settled(
        facts,
        crate::ids::node_key_spec(file, crate::ids::node_at_spec(node.0 as u64)),
    ));
}

/// Whether a declaration says anything at all, and nothing that is an error.
pub open spec fn says_something(d: ParamDecl) -> bool {
    &&& !crate::list::is_empty_spec(&d.bounds) || d.pinned is Some || d.revealed is Some
    &&& match d.pinned {
        Some(t) => !crate::subst::mentions_spec(&t, Mention::Error),
        None => true,
    }
}

// What is in scope.

/// [`public_traits`], as a mathematical function.
pub open spec fn public_traits_spec(t: &Tables, l: &List<(Symbol, DefId)>, found: List<DefId>) -> List<DefId>
    decreases l,
{
    match l {
        List::Nil => found,
        List::Cons(h, rest) => {
            let m = crate::def::resolve_alias_spec(t, h.1);
            if is_public_trait_spec(t, m) {
                public_traits_spec(t, rest, List::Cons(m, Box::new(found)))
            } else {
                public_traits_spec(t, rest, found)
            }
        },
    }
}

/// The public traits among some members, in front of a list.
pub fn public_traits(t: &Tables, l: &List<(Symbol, DefId)>, found: List<DefId>) -> (r: List<DefId>)
    ensures
        r == public_traits_spec(t, l, found),
    decreases l,
{
    match l {
        List::Nil => found,
        List::Cons(h, rest) => {
            let m = resolve_alias(t, h.1);
            if is_public_trait(t, m) {
                public_traits(t, rest, List::Cons(m, Box::new(found)))
            } else {
                public_traits(t, rest, found)
            }
        },
    }
}

/// [`is_public_trait`], as a mathematical function.
pub open spec fn is_public_trait_spec(t: &Tables, d: DefId) -> bool {
    match crate::def::get_def_spec(t, d) {
        Some(def) => def.kind == DefKind::Trait && def.vis == Vis::Public,
        None => false,
    }
}

/// Whether a definition is a trait anything may name.
pub fn is_public_trait(t: &Tables, d: DefId) -> (r: bool)
    ensures
        r == is_public_trait_spec(t, d),
{
    match get_def(t, d) {
        Some(def) => def.kind == DefKind::Trait && def.vis == Vis::Public,
        None => false,
    }
}

/// [`glob_traits`], as a mathematical function.
pub open spec fn glob_traits_spec(t: &Tables, globs: &List<DefId>, found: List<DefId>) -> List<DefId>
    decreases globs,
{
    match globs {
        List::Nil => found,
        List::Cons(g, rest) => glob_traits_spec(t, rest, match crate::def::get_def_spec(t, *g) {
            Some(def) => public_traits_spec(t, &def.members, found),
            None => found,
        }),
    }
}

/// The public traits of each namespace of a list, in front of a list.
pub fn glob_traits(t: &Tables, globs: &List<DefId>, found: List<DefId>) -> (r: List<DefId>)
    ensures
        r == glob_traits_spec(t, globs, found),
    decreases globs,
{
    match globs {
        List::Nil => found,
        List::Cons(g, rest) => glob_traits(t, rest, match get_def(t, *g) {
            Some(def) => public_traits(t, &def.members, found),
            None => found,
        }),
    }
}

/// [`named_traits`], as a mathematical function.
pub open spec fn named_traits_spec(t: &Tables, l: &List<(Symbol, DefId)>, found: List<DefId>) -> List<DefId>
    decreases l,
{
    match l {
        List::Nil => found,
        List::Cons(h, rest) => {
            let m = crate::def::resolve_alias_spec(t, h.1);
            if crate::def::def_kind_spec(t, m) == DefKind::Trait {
                named_traits_spec(t, rest, List::Cons(m, Box::new(found)))
            } else {
                named_traits_spec(t, rest, found)
            }
        },
    }
}

/// The traits among some members, in front of a list.
pub fn named_traits(t: &Tables, l: &List<(Symbol, DefId)>, found: List<DefId>) -> (r: List<DefId>)
    ensures
        r == named_traits_spec(t, l, found),
    decreases l,
{
    match l {
        List::Nil => found,
        List::Cons(h, rest) => {
            let m = resolve_alias(t, h.1);
            if def_kind(t, m) == DefKind::Trait {
                named_traits(t, rest, List::Cons(m, Box::new(found)))
            } else {
                named_traits(t, rest, found)
            }
        },
    }
}

/// [`enclosing_traits`], as a mathematical function.
pub open spec fn enclosing_traits_spec(
    t: &Tables,
    ns: Option<DefId>,
    found: List<DefId>,
    fuel: u64,
) -> List<DefId>
    decreases fuel,
{
    if fuel == 0 {
        found
    } else {
        match ns {
            Some(n) => match crate::def::get_def_spec(t, n) {
                Some(def) => {
                    let own = named_traits_spec(t, &def.members, found);
                    let imported = named_traits_spec(t, &def.imported, own);
                    enclosing_traits_spec(
                        t,
                        def.parent,
                        glob_traits_spec(t, &def.globs, imported),
                        (fuel - 1) as u64,
                    )
                },
                None => found,
            },
            None => found,
        }
    }
}

/// The traits a namespace and those around it make nameable, in front of a list.
pub fn enclosing_traits(t: &Tables, ns: Option<DefId>, found: List<DefId>, fuel: u64) -> (r: List<DefId>)
    ensures
        r == enclosing_traits_spec(t, ns, found, fuel),
    decreases fuel,
{
    if fuel == 0 {
        return found;
    }
    match ns {
        Some(n) => match get_def(t, n) {
            Some(def) => {
                let own = named_traits(t, &def.members, found);
                let imported = named_traits(t, &def.imported, own);
                enclosing_traits(t, def.parent, glob_traits(t, &def.globs, imported), (fuel - 1) as u64)
            },
            None => found,
        },
        None => found,
    }
}

/// [`in_scope_traits`], as a mathematical function.
pub open spec fn in_scope_traits_spec(
    t: &Tables,
    prelude_globs: &List<DefId>,
    file_ns: DefId,
) -> List<DefId> {
    enclosing_traits_spec(t, Some(file_ns), glob_traits_spec(t, prelude_globs, List::Nil), DEPTH_LIMIT)
}

/// Every trait nameable from a namespace: its own members and imports, those of
/// each namespace around it, what any of them pull in whole, and the prelude.
pub fn in_scope_traits(t: &Tables, prelude_globs: &List<DefId>, file_ns: DefId) -> (r: List<DefId>)
    ensures
        r == in_scope_traits_spec(t, prelude_globs, file_ns),
        forall|d: DefId| #[trigger] crate::def::def_in_spec(&r, d) <==> crate::laws::scope::nameable(t, prelude_globs, file_ns, d),
{
    proof {
        crate::laws::scope::in_scope_is_all_that_is_nameable(t, *prelude_globs, file_ns);
    }
    enclosing_traits(t, Some(file_ns), glob_traits(t, prelude_globs, List::Nil), DEPTH_LIMIT)
}

/// [`lang_trait_defs`], as a mathematical function.
pub open spec fn lang_trait_defs_spec(t: &Tables, l: &List<(Symbol, DefId)>) -> List<DefId> {
    named_traits_spec(t, l, List::Nil)
}

/// The traits the language's own syntax reaches.
pub fn lang_trait_defs(t: &Tables, l: &List<(Symbol, DefId)>) -> (r: List<DefId>)
    ensures
        r == lang_trait_defs_spec(t, l),
{
    named_traits(t, l, List::Nil)
}

/// [`bound_head`], as a mathematical function.
pub open spec fn bound_head_spec(t: &Tables, file: FileId, bound: NodeId) -> NodeId {
    match crate::def::kind_of_spec(t, file, bound) {
        Some(NodeKind::TypePath { path, generic_args: _ }) => *path,
        Some(NodeKind::GenericApply { base, args: _ }) => *base,
        _ => bound,
    }
}

/// The node that names the trait of a bound.
pub fn bound_head(t: &Tables, file: FileId, bound: NodeId) -> (r: NodeId)
    ensures
        r == bound_head_spec(t, file, bound),
{
    match kind_of(t, file, bound) {
        Some(NodeKind::TypePath { path, generic_args: _ }) => *path,
        Some(NodeKind::GenericApply { base, args: _ }) => *base,
        _ => bound,
    }
}

/// [`bounds_at`], as a mathematical function.
pub open spec fn bounds_at_spec(t: &Tables, file: FileId, node: NodeId) -> List<NodeId> {
    match crate::def::kind_of_spec(t, file, node) {
        Some(NodeKind::Bounds { bounds }) => (*bounds),
        Some(NodeKind::DynType { inner }) => crate::list::single_spec(*inner),
        Some(
            NodeKind::GenericTypeParam { name: _, constraint: Some(c) },
        ) => crate::decls::bound_nodes_spec(t, file, *c),
        _ => List::Nil,
    }
}

/// The bounds a node lists: a `dyn` names its trait as a bound does, and a
/// parameter may be constrained by a trait on its own.
pub fn bounds_at(t: &Tables, file: FileId, node: NodeId) -> (r: List<NodeId>)
    ensures
        r == bounds_at_spec(t, file, node),
{
    match kind_of(t, file, node) {
        Some(NodeKind::Bounds { bounds }) => dup_nodes(bounds),
        Some(NodeKind::DynType { inner }) => single(*inner),
        Some(NodeKind::GenericTypeParam { name: _, constraint: Some(c) }) => bound_nodes(t, file, *c),
        _ => List::Nil,
    }
}

/// [`Inferer::named_def`], as a mathematical function.
pub open spec fn named_def_spec(st: InfererV, env: &InferCx, file: FileId, node: NodeId) -> Option<DefId> {
    match crate::unify::get_resolution_spec(st, file, node) {
        Some(Resolution::Def(d)) => Some(crate::def::resolve_alias_spec(env.tables, d)),
        _ => None,
    }
}

/// [`Inferer::bound_traits_in`], as a mathematical function.
pub open spec fn bound_traits_in_spec(
    st: InfererV,
    env: &InferCx,
    l: &List<NodeId>,
    found: List<DefId>,
) -> List<DefId>
    decreases l,
{
    match l {
        List::Nil => found,
        List::Cons(b, rest) => match named_def_spec(
            st,
            env,
            st.file,
            bound_head_spec(env.tables, st.file, *b),
        ) {
            Some(d) => if crate::def::def_kind_spec(env.tables, d) == DefKind::Trait {
                bound_traits_in_spec(st, env, rest, List::Cons(d, Box::new(found)))
            } else {
                bound_traits_in_spec(st, env, rest, found)
            },
            None => bound_traits_in_spec(st, env, rest, found),
        },
    }
}

/// The traits the bounds of a file name, in front of a list: from a node on.
pub open spec fn bound_traits_from(st: InfererV, env: &InferCx, i: u64, found: List<DefId>) -> List<DefId>
    decreases crate::def::node_count_spec(env.tables, st.file) - i,
{
    if i < crate::def::node_count_spec(env.tables, st.file) {
        bound_traits_from(
            st,
            env,
            (i + 1) as u64,
            bound_traits_in_spec(
                st,
                env,
                &bounds_at_spec(env.tables, st.file, crate::ids::node_at_spec(i)),
                found,
            ),
        )
    } else {
        found
    }
}

/// [`Inferer::bound_traits`], as a mathematical function.
pub open spec fn bound_traits_spec(st: InfererV, env: &InferCx, found: List<DefId>) -> List<DefId> {
    bound_traits_from(st, env, 0, found)
}

// Numbers under other names.

/// [`numeric_of`], as a mathematical function.
pub open spec fn numeric_of_spec(t: &Tables, ty: Ty, left: u64) -> Option<Ty>
    decreases left,
{
    if left == 0 {
        None
    } else {
        match ty {
            Ty::Int { signed, width } => Some(Ty::Int { signed: signed, width: width }),
            Ty::Float(w) => Some(Ty::Float(w)),
            Ty::Nominal { def, args: _ } => match crate::decls::recorded_distinct_repr_spec(t, def) {
                Some(repr) => numeric_of_spec(t, repr, (left - 1) as u64),
                None => None,
            },
            _ => None,
        }
    }
}

/// The number a recorded representation comes down to, in so many steps.
pub fn numeric_of(t: &Tables, ty: Ty, left: u64) -> (r: Option<Ty>)
    ensures
        r == numeric_of_spec(t, ty, left),
    decreases left,
{
    if left == 0 {
        return None;
    }
    match ty {
        Ty::Int { signed, width } => Some(Ty::Int { signed: signed, width: width }),
        Ty::Float(w) => Some(Ty::Float(w)),
        Ty::Nominal { def, args: _ } => match recorded_distinct_repr(t, def) {
            Some(repr) => numeric_of(t, repr, (left - 1) as u64),
            None => None,
        },
        _ => None,
    }
}

/// [`width_lit`], as a mathematical function.
pub open spec fn width_lit_spec(k: Option<&NodeKind>) -> Option<u16> {
    match k {
        Some(NodeKind::Lit(Lit::Int(v))) => match crate::ty::small_int_spec(v) {
            Some(w) => if w <= 0xffff {
                Some(w as u16)
            } else {
                None
            },
            None => None,
        },
        _ => None,
    }
}

/// The width an integer literal writes.
pub fn width_lit(k: Option<&NodeKind>) -> (r: Option<u16>)
    ensures
        r == width_lit_spec(k),
{
    match k {
        Some(NodeKind::Lit(Lit::Int(v))) => match small_int(v) {
            Some(w) => if w <= 0xffff {
                Some(w as u16)
            } else {
                None
            },
            None => None,
        },
        _ => None,
    }
}

/// [`bound_value`], as a mathematical function.
pub open spec fn bound_value_spec(t: &Tables, file: FileId, node: NodeId) -> Option<NodeId> {
    match crate::def::kind_of_spec(t, file, node) {
        Some(NodeKind::ConstBind { pattern: _, rhs }) => match crate::def::kind_of_spec(t, file, *rhs) {
            Some(NodeKind::AssocConst { ty: _, default: Some(v) }) => Some(*v),
            _ => Some(*rhs),
        },
        _ => None,
    }
}

/// The value a constant is bound to, with its type taken off.
pub fn bound_value(t: &Tables, file: FileId, node: NodeId) -> (r: Option<NodeId>)
    ensures
        r == bound_value_spec(t, file, node),
{
    match kind_of(t, file, node) {
        Some(NodeKind::ConstBind { pattern: _, rhs }) => match kind_of(t, file, *rhs) {
            Some(NodeKind::AssocConst { ty: _, default: Some(v) }) => Some(*v),
            _ => Some(*rhs),
        },
        _ => None,
    }
}

/// [`Inferer::width_of`], as a mathematical function.
pub open spec fn width_of_spec(st: InfererV, env: &InferCx, file: FileId, node: NodeId) -> Option<u16> {
    match width_lit_spec(crate::def::kind_of_spec(env.tables, file, node)) {
        Some(w) => Some(w),
        None => match named_def_spec(st, env, file, node) {
            Some(d) => match crate::def::def_place_spec(env.tables, d) {
                Some((f, n)) => match bound_value_spec(env.tables, f, n) {
                    Some(v) => width_lit_spec(crate::def::kind_of_spec(env.tables, f, v)),
                    None => None,
                },
                None => None,
            },
            None => None,
        },
    }
}

/// [`Inferer::family_inner`], as a mathematical function.
pub open spec fn family_inner_spec(st: InfererV, env: &InferCx, file: FileId, node: NodeId) -> Option<u16> {
    match crate::def::kind_of_spec(env.tables, file, node) {
        Some(NodeKind::TypePath { path: _, generic_args }) => match crate::list::nth_spec(generic_args, 0) {
            Some(arg) => width_of_spec(st, env, file, *arg),
            None => None,
        },
        _ => None,
    }
}

/// [`Inferer::numeric_primitive`], as a mathematical function.
pub open spec fn numeric_primitive_spec(
    st: InfererV,
    env: &InferCx,
    file: FileId,
    node: NodeId,
    name: &Symbol,
) -> Option<Ty> {
    if crate::symbol::sym_is_spec(name, "int") || crate::symbol::sym_is_spec(name, "uint") {
        match family_inner_spec(st, env, file, node) {
            Some(w) => Some(crate::ty::int_ty_spec(w, crate::symbol::sym_is_spec(name, "int"))),
            None => None,
        }
    } else {
        match crate::types::primitive_ty_spec(name) {
            Some(Ty::Int { signed, width }) => Some(Ty::Int { signed: signed, width: width }),
            Some(Ty::Float(w)) => Some(Ty::Float(w)),
            _ => None,
        }
    }
}

/// [`distinct_inner`], as a mathematical function.
pub open spec fn distinct_inner_spec(t: &Tables, d: DefId) -> Option<(FileId, NodeId)> {
    match crate::def::def_place_spec(t, d) {
        Some((file, node)) => match crate::def::kind_of_spec(
            t,
            file,
            crate::def::bound_rhs_spec(t, file, node),
        ) {
            Some(NodeKind::DistinctType { inner }) => Some((file, *inner)),
            _ => None,
        },
        None => None,
    }
}

/// The type a `distinct` declares it is distinct from, where its tree is here.
pub fn distinct_inner(t: &Tables, d: DefId) -> (r: Option<(FileId, NodeId)>)
    ensures
        r == distinct_inner_spec(t, d),
{
    match def_place(t, d) {
        Some((file, node)) => match kind_of(t, file, bound_rhs(t, file, node)) {
            Some(NodeKind::DistinctType { inner }) => Some((file, *inner)),
            _ => None,
        },
        None => None,
    }
}

/// [`Inferer::numeric_chain`], as a mathematical function.
pub open spec fn numeric_chain_spec(
    st: InfererV,
    env: &InferCx,
    file: FileId,
    inner: NodeId,
    left: u64,
) -> Option<Ty>
    decreases left,
{
    if left == 0 {
        None
    } else {
        match named_def_spec(st, env, file, inner) {
            Some(next) => if crate::def::def_kind_spec(env.tables, next) == DefKind::Primitive {
                numeric_primitive_spec(st, env, file, inner, &crate::def::def_name_spec(env.tables, next))
            } else {
                match crate::decls::recorded_distinct_repr_spec(env.tables, next) {
                    Some(t) => numeric_of_spec(env.tables, t, 16),
                    None => match distinct_inner_spec(env.tables, next) {
                        Some((f, i)) => numeric_chain_spec(st, env, f, i, (left - 1) as u64),
                        None => None,
                    },
                }
            },
            None => None,
        }
    }
}

/// [`Inferer::numeric_distinct`], as a mathematical function.
pub open spec fn numeric_distinct_spec(st: InfererV, env: &InferCx, d: DefId) -> Option<Ty> {
    match crate::decls::recorded_distinct_repr_spec(env.tables, d) {
        Some(t) => numeric_of_spec(env.tables, t, 16),
        None => match distinct_inner_spec(env.tables, d) {
            Some((file, inner)) => numeric_chain_spec(st, env, file, inner, 16),
            None => None,
        },
    }
}

/// The `distinct` types over numbers among the first definitions.
pub open spec fn numeric_distincts_upto(st: InfererV, env: &InferCx, n: u64) -> List<(DefId, Ty)>
    decreases n,
{
    if n == 0 {
        List::Nil
    } else {
        let d = crate::ids::def_at_spec((n - 1) as u64);
        let rest = numeric_distincts_upto(st, env, (n - 1) as u64);
        match numeric_distinct_spec(st, env, d) {
            Some(t) => List::Cons((d, t), Box::new(rest)),
            None => rest,
        }
    }
}

/// [`Inferer::numeric_distincts`], as a mathematical function.
pub open spec fn numeric_distincts_spec(st: InfererV, env: &InferCx) -> List<(DefId, Ty)> {
    numeric_distincts_upto(st, env, crate::def::def_count_spec(env.tables))
}

/// [`ptr_int_lang_tys`], as a mathematical function.
pub open spec fn ptr_int_lang_tys_spec(t: &Tables) -> Option<(Ty, Ty)> {
    match (crate::def::lang_ty_spec(t, "usize"), crate::def::lang_ty_spec(t, "isize")) {
        (Some(u), Some(i)) => Some((u, i)),
        _ => None,
    }
}

/// `usize` and `isize`: both or neither.
pub fn ptr_int_lang_tys(t: &Tables) -> (r: Option<(Ty, Ty)>)
    ensures
        r == ptr_int_lang_tys_spec(t),
{
    match (lang_ty(t, "usize"), lang_ty(t, "isize")) {
        (Some(u), Some(i)) => Some((u, i)),
        _ => None,
    }
}

/// [`str_lang_ty`], as a mathematical function.
pub open spec fn str_lang_ty_spec(t: &Tables) -> Option<Ty> {
    crate::def::lang_ty_spec(t, "str")
}

/// The type of strings.
pub fn str_lang_ty(t: &Tables) -> (r: Option<Ty>)
    ensures
        r == str_lang_ty_spec(t),
{
    lang_ty(t, "str")
}

// Values and types among bindings.

/// [`Inferer::any_value_in`], as a mathematical function.
pub open spec fn any_value_in_spec(
    st: InfererV,
    env: &InferCx,
    file: FileId,
    l: &List<NodeId>,
    fuel: u64,
) -> bool
    decreases fuel, l,
{
    if fuel == 0 {
        true
    } else {
        match l {
            List::Nil => false,
            List::Cons(h, rest) => value_rhs_in_spec(st, env, file, *h, (fuel - 1) as u64)
                || any_value_in_spec(st, env, file, rest, fuel),
        }
    }
}

/// [`Inferer::value_rhs_in`], as a mathematical function.
pub open spec fn value_rhs_in_spec(st: InfererV, env: &InferCx, file: FileId, node: NodeId, fuel: u64) -> bool
    decreases fuel,
{
    if fuel == 0 {
        true
    } else {
        match crate::def::kind_of_spec(env.tables, file, node) {
            Some(NodeKind::StructType { .. }) => false,
            Some(NodeKind::EnumType { .. }) => false,
            Some(NodeKind::TraitType { .. }) => false,
            Some(NodeKind::DistinctType { .. }) => false,
            Some(NodeKind::NamespaceExpr { .. }) => false,
            Some(NodeKind::Overload { .. }) => false,
            Some(NodeKind::Import) => false,
            Some(NodeKind::AssocType { .. }) => false,
            Some(NodeKind::PtrType { .. }) => false,
            Some(NodeKind::SliceType { .. }) => false,
            Some(NodeKind::ArrayType { .. }) => false,
            Some(NodeKind::TupleType { .. }) => false,
            Some(NodeKind::FuncType { .. }) => false,
            Some(NodeKind::DynType { .. }) => false,
            Some(NodeKind::TypePath { .. }) => false,
            Some(NodeKind::Tuple { elems }) => crate::list::is_empty_spec(elems)
                || any_value_in_spec(st, env, file, elems, (fuel - 1) as u64),
            Some(
                NodeKind::GenericApply { base, args: _ },
            ) => names_value_in_spec(st, env, file, *base, (fuel - 1) as u64),
            Some(NodeKind::Path { .. }) => names_value_in_spec(st, env, file, node, (fuel - 1) as u64),
            Some(NodeKind::FieldAccess { .. }) => names_value_in_spec(st, env, file, node, (fuel - 1) as u64),
            _ => true,
        }
    }
}

/// [`Inferer::names_value_in`], as a mathematical function.
pub open spec fn names_value_in_spec(
    st: InfererV,
    env: &InferCx,
    file: FileId,
    node: NodeId,
    fuel: u64,
) -> bool
    decreases fuel,
{
    if fuel == 0 {
        true
    } else {
        match named_def_spec(st, env, file, node) {
            Some(d) => if crate::lower::names_type_kind_spec(crate::def::def_kind_spec(env.tables, d)) {
                false
            } else if crate::def::def_kind_spec(env.tables, d) == DefKind::Const {
                match crate::def::def_place_spec(env.tables, d) {
                    Some((f, n)) => match crate::def::kind_of_spec(env.tables, f, n) {
                        Some(
                            NodeKind::ConstBind { pattern: _, rhs },
                        ) => value_rhs_in_spec(st, env, f, *rhs, (fuel - 1) as u64),
                        _ => true,
                    },
                    None => true,
                }
            } else {
                true
            },
            None => true,
        }
    }
}

/// [`Inferer::binds_a_value`], as a mathematical function.
pub open spec fn binds_a_value_spec(st: InfererV, env: &InferCx, node: NodeId) -> bool {
    match crate::def::kind_of_spec(env.tables, st.file, node) {
        Some(
            NodeKind::ConstBind { pattern: _, rhs },
        ) => value_rhs_in_spec(st, env, st.file, *rhs, DEPTH_LIMIT),
        _ => false,
    }
}

// A fresh start.

/// Begin a new inference in the same file: a variable solved for one function
/// says nothing about the next.
pub open spec fn restart_spec(st: InfererV, ctx: Option<DefId>) -> InfererV {
    InfererV {
        in_default: false,
        ctx: ctx,
        next_var: 0,
        next_const: 0,
        bindings: List::Nil,
        const_bindings: List::Nil,
        kinds: List::Nil,
        diverged: List::Nil,
        obligations: List::Nil,
        assoc: List::Nil,
        locals: Map::empty(),
        types: Map::empty(),
        ret: Ty::Void,
        breaks: List::Nil,
        func: None,
        alias_stack: List::Nil,
        const_stack: List::Nil,
        int_values: Map::empty(),
        float_values: Map::empty(),
        ..st
    }
}

// The passes over a file.

/// [`Inferer::check_const_param_at`], as a mathematical function.
pub open spec fn check_const_param_at_spec(st: InfererV, env: &InferCx, i: u64) -> InfererV {
    let node = crate::ids::node_at_spec(i);
    match crate::def::kind_of_spec(env.tables, st.file, node) {
        Some(NodeKind::GenericConstParam { .. }) => {
            let st = crate::types::check_const_param_spec(st, env, node, DEPTH_LIMIT);
            st
        },
        _ => {
            st
        },
    }
}

/// [`Inferer::check_const_params`], as a mathematical function.
pub open spec fn check_const_params_spec(st: InfererV, env: &InferCx, i: u64, n: u64) -> InfererV
    decreases n - i,
{
    if i < n {
        let st = check_const_param_at_spec(st, env, i);
        let st = check_const_params_spec(st, env, (i + 1) as u64, n);
        st
    } else {
        st
    }
}

/// [`is_own_func`], as a mathematical function.
pub open spec fn is_own_func_spec(k: Option<&NodeKind>) -> bool {
    match k {
        Some(NodeKind::FuncExpr { generics: _, params: _, ret: _, body, abi }) => body.is_some()
            || abi.is_some(),
        _ => false,
    }
}

/// Whether a node is a function to infer: one with a body, or a C declaration.
pub fn is_own_func(k: Option<&NodeKind>) -> (r: bool)
    ensures
        r == is_own_func_spec(k),
{
    match k {
        Some(NodeKind::FuncExpr { generics: _, params: _, ret: _, body, abi }) => body.is_some()
            || abi.is_some(),
        _ => false,
    }
}

/// Whether a file has a function to infer.
pub open spec fn has_func(t: &Tables, file: FileId) -> bool {
    exists|j: u64|
        j < crate::def::node_count_spec(t, file) && is_own_func_spec(
            #[trigger] crate::def::kind_of_spec(t, file, crate::ids::node_at_spec(j)),
        )
}

/// Whether none of a run of nodes is a function to infer.
pub open spec fn no_func_in(t: &Tables, file: FileId, i: u64, n: u64) -> bool {
    forall|j: u64|
        i <= j < n ==> !is_own_func_spec(
            #[trigger] crate::def::kind_of_spec(t, file, crate::ids::node_at_spec(j)),
        )
}

/// [`Inferer::infer_func_at`], as a mathematical function.
pub open spec fn infer_func_at_spec(st: InfererV, env: &InferCx, ns: DefId, i: u64) -> InfererV {
    let node = crate::ids::node_at_spec(i);
    if is_own_func_spec(crate::def::kind_of_spec(env.tables, st.file, node)) {
        let st = restart_spec(st, Some(ns));
        let st = crate::bodies::infer_func_spec(st, env, node);
        let st = crate::bodies::finish_spec(st, env);
        st
    } else {
        st
    }
}

/// [`Inferer::infer_funcs`], as a mathematical function.
pub open spec fn infer_funcs_spec(st: InfererV, env: &InferCx, ns: DefId, i: u64, n: u64) -> InfererV
    decreases n - i,
{
    if i < n {
        let st = infer_func_at_spec(st, env, ns, i);
        let st = infer_funcs_spec(st, env, ns, (i + 1) as u64, n);
        st
    } else {
        st
    }
}

/// [`Inferer::is_global`], as a mathematical function.
pub open spec fn is_global_spec(st: InfererV, env: &InferCx, d: DefId) -> bool {
    match crate::def::def_node_spec(env.tables, d) {
        Some(n) => crate::members::is_own_spec(st, env, d, DefKind::Const) && binds_a_value_spec(st, env, n),
        None => false,
    }
}

/// [`Inferer::infer_global_at`], as a mathematical function.
pub open spec fn infer_global_at_spec(st: InfererV, env: &InferCx, ns: DefId, i: u64) -> InfererV {
    let d = crate::ids::def_at_spec(i);
    if is_global_spec(st, env, d) {
        let st = restart_spec(st, Some(ns));
        let st = crate::exprs::infer_global_spec(st, env, d, DEPTH_LIMIT);
        let st = crate::bodies::finish_spec(st, env);
        st
    } else {
        st
    }
}

/// [`Inferer::infer_globals`], as a mathematical function.
pub open spec fn infer_globals_spec(st: InfererV, env: &InferCx, ns: DefId, i: u64, n: u64) -> InfererV
    decreases n - i,
{
    if i < n {
        let st = infer_global_at_spec(st, env, ns, i);
        let st = infer_globals_spec(st, env, ns, (i + 1) as u64, n);
        st
    } else {
        st
    }
}

/// [`Inferer::check_declarations`], as a mathematical function.
pub open spec fn check_declarations_spec(st: InfererV, env: &InferCx, ns: DefId) -> InfererV {
    let st = restart_spec(st, Some(ns));
    let st = check_const_params_spec(st, env, 0, crate::def::node_count_spec(env.tables, st.file));
    let st = restart_spec(st, Some(ns));
    let st = crate::members::check_conformance_spec(st, env, 0, crate::solve::impl_count_spec(env));
    let st = restart_spec(st, Some(ns));
    let st = crate::members::stamp_member_types_spec(st, env);
    let st = restart_spec(st, Some(ns));
    let st = crate::members::stamp_variant_tags_spec(
        st,
        env,
        0,
        crate::def::node_count_spec(env.tables, st.file),
    );
    let st = restart_spec(st, Some(ns));
    let st = crate::members::stamp_assoc_const_generics_spec(st, env, 0, crate::solve::impl_count_spec(env));
    let st = restart_spec(st, Some(ns));
    let st = crate::members::check_type_aliases_spec(st, env);
    st
}

/// [`Inferer::infer_all`], as a mathematical function.
pub open spec fn infer_all_spec(st: InfererV, env: &InferCx, ns: DefId) -> InfererV {
    let st = check_declarations_spec(st, env, ns);
    let st = infer_funcs_spec(st, env, ns, 0, crate::def::node_count_spec(env.tables, st.file));
    let st = infer_globals_spec(st, env, ns, 0, crate::def::def_count_spec(env.tables));
    st
}

// The targets of impls.

/// What holds of an impl's target: an impl that is resolved already keeps what it
/// has, and what is recorded of another is its target, with no variable left in
/// any of it.
pub open spec fn target_holds(imp: &ImplInfo, target: ImplTarget, typed: Option<TypedImpl>) -> bool {
    &&& match imp.typed {
        Some(t) => typed is None && target.self_ty == t.self_ty && target.trait_args == t.trait_args,
        None => true,
    }
    &&& match typed {
        Some(t) => {
            &&& target.self_ty == t.self_ty
            &&& target.trait_args == t.trait_args
            &&& crate::unify::settled(&t.self_ty)
            &&& crate::unify::all_settled(&t.trait_args)
            &&& !crate::subst::any_named_mentions_spec(&t.assoc, Mention::Var)
        },
        None => true,
    }
}

/// [`unknown_target`], as a mathematical function.
pub open spec fn unknown_target_spec() -> (ImplTarget, Option<TypedImpl>) {
    (ImplTarget { self_ty: Ty::Error, trait_args: List::Nil }, None)
}

/// A target nothing is known about.
pub fn unknown_target() -> (r: (ImplTarget, Option<TypedImpl>))
    ensures
        r == unknown_target_spec(),
{
    (ImplTarget { self_ty: Ty::Error, trait_args: List::Nil }, None)
}

/// [`Inferer::assoc_tys`], as a mathematical function.
pub open spec fn assoc_tys_spec(
    st: InfererV,
    env: &InferCx,
    l: &List<(Symbol, NodeId)>,
    file: FileId,
) -> (InfererV, List<(Symbol, Ty)>)
    decreases l,
{
    match l {
        List::Nil => (st, List::Nil),
        List::Cons(h, rest) => {
            let (st, t) = crate::types::ty_from_node_in_spec(st, env, file, h.1, DEPTH_LIMIT);
            let (st, others) = assoc_tys_spec(st, env, rest, file);
            (st, List::Cons((h.0, t), Box::new(others)))
        },
    }
}

/// [`Inferer::resolve_target`], as a mathematical function.
pub open spec fn resolve_target_spec(
    st: InfererV,
    env: &InferCx,
    imp: &ImplInfo,
) -> (InfererV, (ImplTarget, Option<TypedImpl>)) {
    match &imp.typed {
        Some(t) => {
            (st, (ImplTarget { self_ty: t.self_ty, trait_args: t.trait_args }, None))
        },
        None => {
            if !crate::def::has_ast_spec(env.tables, imp.file) {
                (st, unknown_target_spec())
            } else {
                match &imp.syntax {
                    Some(sx) => {
                        let st = InfererV { file: imp.file, ..st };
                        let st = restart_spec(st, None);
                        let (st, self_ty) = crate::types::ty_from_node_in_spec(
                            st,
                            env,
                            imp.file,
                            sx.self_node,
                            DEPTH_LIMIT,
                        );
                        let (st, trait_args) = crate::types::tys_from_nodes_spec(
                            st,
                            env,
                            &sx.trait_args,
                            imp.file,
                            DEPTH_LIMIT,
                        );
                        let (st, assoc) = assoc_tys_spec(st, env, &sx.assoc, imp.file);
                        let settled = !crate::subst::mentions_spec(&self_ty, Mention::Var)
                            && !crate::subst::any_mentions_spec(&trait_args, Mention::Var)
                            && !crate::subst::any_named_mentions_spec(&assoc, Mention::Var);
                        let typed = if settled {
                            Some(TypedImpl { self_ty: self_ty, trait_args: trait_args, assoc: assoc })
                        } else {
                            None
                        };
                        (st, (ImplTarget { self_ty: self_ty, trait_args: trait_args }, typed))
                    },
                    None => (st, unknown_target_spec()),
                }
            }
        },
    }
}

/// [`Inferer::resolve_target_at`], as a mathematical function.
pub open spec fn resolve_target_at_spec(st: InfererV, env: &InferCx, i: u64) -> (
    InfererV,
    (ImplTarget, Option<TypedImpl>),
) {
    match crate::solve::get_impl_spec(env, i) {
        Some(imp) => resolve_target_spec(st, env, imp),
        None => (st, unknown_target_spec()),
    }
}

// What type parameters are bounded by.

/// [`Inferer::bound_list`], as a mathematical function.
pub open spec fn bound_list_spec(
    st: InfererV,
    env: &InferCx,
    file: FileId,
    l: &List<NodeId>,
) -> (InfererV, List<(DefId, List<Ty>)>)
    decreases l,
{
    match l {
        List::Nil => (st, List::Nil),
        List::Cons(b, rest) => match trait_named_spec(st, env, file, *b) {
            Some(t) => {
                let (st, args) = crate::types::bound_trait_args_in_spec(st, env, file, *b, DEPTH_LIMIT);
                let (st, others) = bound_list_spec(st, env, file, rest);
                (st, List::Cons((t, args), Box::new(others)))
            },
            None => bound_list_spec(st, env, file, rest),
        },
    }
}

/// [`Inferer::trait_named`], as a mathematical function.
pub open spec fn trait_named_spec(st: InfererV, env: &InferCx, file: FileId, node: NodeId) -> Option<DefId> {
    match crate::decls::resolved_def_in_spec(st, env, file, node) {
        Some(d) => if crate::def::def_kind_spec(env.tables, d) == DefKind::Trait {
            Some(d)
        } else {
            None
        },
        None => None,
    }
}

/// [`Inferer::pinned_ty`], as a mathematical function.
pub open spec fn pinned_ty_spec(st: InfererV, env: &InferCx, d: DefId) -> (InfererV, Option<Ty>) {
    match crate::solve::projection_of_spec(env.tables, d) {
        Some(p) => match p.pinned {
            Some(n) => {
                let (st, t) = crate::types::ty_from_node_in_spec(st, env, st.file, n, DEPTH_LIMIT);
                if crate::subst::mentions_spec(&t, Mention::Error) {
                    (st, None)
                } else {
                    (st, Some(t))
                }
            },
            None => (st, None),
        },
        None => (st, None),
    }
}

/// [`Inferer::declared_bounds`], as a mathematical function.
pub open spec fn declared_bounds_spec(
    st: InfererV,
    env: &InferCx,
    d: DefId,
) -> (InfererV, List<(DefId, List<Ty>)>) {
    match crate::def::def_node_spec(env.tables, d) {
        Some(node) => match crate::def::kind_of_spec(env.tables, st.file, node) {
            Some(NodeKind::GenericTypeParam { name: _, constraint: Some(c) }) => {
                bound_list_spec(st, env, st.file, &crate::decls::bound_nodes_spec(env.tables, st.file, *c))
            },
            _ => (st, List::Nil),
        },
        None => (st, List::Nil),
    }
}

/// [`Inferer::revealed_ty`], as a mathematical function.
pub open spec fn revealed_ty_spec(st: InfererV, env: &InferCx, d: DefId) -> Option<(List<DefId>, Ty)> {
    match crate::def::def_node_spec(env.tables, d) {
        Some(n) => match crate::unify::get_opaque_ty_spec(st, st.file, n) {
            Some(o) => Some((match crate::unify::get_opaque_args_spec(st, st.file, n) {
                Some(l) => l,
                None => List::Nil,
            }, o.0)),
            None => None,
        },
        None => None,
    }
}

/// [`Inferer::param_decl_at`], as a mathematical function.
pub open spec fn param_decl_at_spec(st: InfererV, env: &InferCx, i: u64) -> (
    InfererV,
    Option<(DefId, ParamDecl)>,
) {
    let d = crate::ids::def_at_spec(i);
    if !crate::members::is_own_spec(st, env, d, DefKind::TypeParam) {
        (st, None)
    } else {
        let (st, pinned) = pinned_ty_spec(st, env, d);
        let (st, bounds) = declared_bounds_spec(st, env, d);
        let revealed = revealed_ty_spec(st, env, d);
        if crate::list::is_empty_spec(&bounds) && pinned.is_none() && revealed.is_none() {
            (st, None)
        } else {
            (st, Some((d, ParamDecl { bounds: bounds, pinned: pinned, revealed: revealed })))
        }
    }
}

// The values of constants.

/// [`const_rhs_node`], as a mathematical function.
pub open spec fn const_rhs_node_spec(k: Option<&NodeKind>) -> Option<NodeId> {
    match k {
        Some(NodeKind::ConstBind { pattern: _, rhs }) => Some(*rhs),
        Some(NodeKind::AssocConst { ty: _, default: Some(rhs) }) => Some(*rhs),
        _ => None,
    }
}

/// The right-hand side of a constant, in either of its spellings.
pub fn const_rhs_node(k: Option<&NodeKind>) -> (r: Option<NodeId>)
    ensures
        r == const_rhs_node_spec(k),
{
    match k {
        Some(NodeKind::ConstBind { pattern: _, rhs }) => Some(*rhs),
        Some(NodeKind::AssocConst { ty: _, default: Some(rhs) }) => Some(*rhs),
        _ => None,
    }
}

/// [`Inferer::const_value_at`], as a mathematical function.
pub open spec fn const_value_at_spec(st: InfererV, env: &InferCx, i: u64) -> (
    InfererV,
    Option<(DefId, ConstValue)>,
) {
    let d = crate::ids::def_at_spec(i);
    if !crate::members::is_own_spec(st, env, d, DefKind::Const) {
        (st, None)
    } else {
        match crate::def::def_node_spec(env.tables, d) {
            Some(node) => {
                match const_rhs_node_spec(crate::def::kind_of_spec(env.tables, st.file, node)) {
                    Some(rhs) => {
                        let (st, v) = crate::types::const_operand_spec(
                            st,
                            env,
                            st.file,
                            rhs,
                            "a constant",
                            0,
                            DEPTH_LIMIT,
                        );
                        match v {
                            Some(v) => (st, Some((d, v))),
                            None => (st, None),
                        }
                    },
                    _ => {
                        (st, None)
                    },
                }
            },
            _ => {
                (st, None)
            },
        }
    }
}

impl Inferer {
    /// What a name was resolved to itself, with renames followed.
    pub fn named_def(&self, env: &InferCx, file: FileId, node: NodeId) -> (r: Option<DefId>)
        ensures
            r == named_def_spec(self@, env, file, node),
    {
        match self.get_resolution(file, node) {
            Some(Resolution::Def(d)) => Some(resolve_alias(env.tables, d)),
            _ => None,
        }
    }

    /// The traits some bounds name, in front of a list.
    pub fn bound_traits_in(&self, env: &InferCx, l: &List<NodeId>, found: List<DefId>) -> (r: List<DefId>)
        ensures
            r == bound_traits_in_spec(self@, env, l, found),
        decreases l,
    {
        match l {
            List::Nil => found,
            List::Cons(b, rest) => match self.named_def(
                env,
                self.file,
                bound_head(env.tables, self.file, *b),
            ) {
                Some(d) => if def_kind(env.tables, d) == DefKind::Trait {
                    self.bound_traits_in(env, rest, List::Cons(d, Box::new(found)))
                } else {
                    self.bound_traits_in(env, rest, found)
                },
                None => self.bound_traits_in(env, rest, found),
            },
        }
    }

    /// The width a node denotes, following at most one constant.
    pub fn width_of(&self, env: &InferCx, file: FileId, node: NodeId) -> (r: Option<u16>)
        ensures
            r == width_of_spec(self@, env, file, node),
    {
        match width_lit(kind_of(env.tables, file, node)) {
            Some(w) => Some(w),
            None => match self.named_def(env, file, node) {
                Some(d) => match def_place(env.tables, d) {
                    Some((f, n)) => match bound_value(env.tables, f, n) {
                        Some(v) => width_lit(kind_of(env.tables, f, v)),
                        None => None,
                    },
                    None => None,
                },
                None => None,
            },
        }
    }

    /// The width argument of an integer family written as a representation.
    pub fn family_inner(&self, env: &InferCx, file: FileId, node: NodeId) -> (r: Option<u16>)
        ensures
            r == family_inner_spec(self@, env, file, node),
    {
        match kind_of(env.tables, file, node) {
            Some(NodeKind::TypePath { path: _, generic_args }) => match nth(generic_args, 0) {
                Some(arg) => self.width_of(env, file, *arg),
                None => None,
            },
            _ => None,
        }
    }

    /// The number a primitive is, named at a node.
    pub fn numeric_primitive(
        &self,
        env: &InferCx,
        file: FileId,
        node: NodeId,
        name: &Symbol,
    ) -> (r: Option<Ty>)
        ensures
            r == numeric_primitive_spec(self@, env, file, node, name),
    {
        if sym_is(name, "int") || sym_is(name, "uint") {
            match self.family_inner(env, file, node) {
                Some(w) => Some(int_ty(w, sym_is(name, "int"))),
                None => None,
            }
        } else {
            match primitive_ty(name) {
                Some(Ty::Int { signed, width }) => Some(Ty::Int { signed: signed, width: width }),
                Some(Ty::Float(w)) => Some(Ty::Float(w)),
                _ => None,
            }
        }
    }

    /// The number a representation comes down to, in so many steps: a `distinct` may
    /// stand over another.
    pub fn numeric_chain(&self, env: &InferCx, file: FileId, inner: NodeId, left: u64) -> (r: Option<Ty>)
        ensures
            r == numeric_chain_spec(self@, env, file, inner, left),
        decreases left,
    {
        if left == 0 {
            return None;
        }
        match self.named_def(env, file, inner) {
            Some(next) => if def_kind(env.tables, next) == DefKind::Primitive {
                self.numeric_primitive(env, file, inner, &def_name(env.tables, next))
            } else {
                match recorded_distinct_repr(env.tables, next) {
                    Some(t) => numeric_of(env.tables, t, 16),
                    None => match distinct_inner(env.tables, next) {
                        Some((f, i)) => self.numeric_chain(env, f, i, (left - 1) as u64),
                        None => None,
                    },
                }
            },
            None => None,
        }
    }

    /// The number a `distinct` type stands over.
    pub fn numeric_distinct(&self, env: &InferCx, d: DefId) -> (r: Option<Ty>)
        ensures
            r == numeric_distinct_spec(self@, env, d),
    {
        match recorded_distinct_repr(env.tables, d) {
            Some(t) => numeric_of(env.tables, t, 16),
            None => match distinct_inner(env.tables, d) {
                Some((file, inner)) => self.numeric_chain(env, file, inner, 16),
                None => None,
            },
        }
    }

    /// Whether any of a list of nodes is a value.
    pub fn any_value_in(&self, env: &InferCx, file: FileId, l: &List<NodeId>, fuel: u64) -> (r: bool)
        ensures
            r == any_value_in_spec(self@, env, file, l, fuel),
        decreases fuel, l,
    {
        if fuel == 0 {
            return true;
        }
        match l {
            List::Nil => false,
            List::Cons(h, rest) => self.value_rhs_in(env, file, *h, (fuel - 1) as u64)
                || self.any_value_in(env, file, rest, fuel),
        }
    }

    /// Whether a binding's right-hand side is a value, as opposed to a type.
    pub fn value_rhs_in(&self, env: &InferCx, file: FileId, node: NodeId, fuel: u64) -> (r: bool)
        ensures
            r == value_rhs_in_spec(self@, env, file, node, fuel),
        decreases fuel,
    {
        if fuel == 0 {
            return true;
        }
        match kind_of(env.tables, file, node) {
            Some(NodeKind::StructType { .. }) => false,
            Some(NodeKind::EnumType { .. }) => false,
            Some(NodeKind::TraitType { .. }) => false,
            Some(NodeKind::DistinctType { .. }) => false,
            Some(NodeKind::NamespaceExpr { .. }) => false,
            Some(NodeKind::Overload { .. }) => false,
            Some(NodeKind::Import) => false,
            Some(NodeKind::AssocType { .. }) => false,
            Some(NodeKind::PtrType { .. }) => false,
            Some(NodeKind::SliceType { .. }) => false,
            Some(NodeKind::ArrayType { .. }) => false,
            Some(NodeKind::TupleType { .. }) => false,
            Some(NodeKind::FuncType { .. }) => false,
            Some(NodeKind::DynType { .. }) => false,
            Some(NodeKind::TypePath { .. }) => false,
            Some(NodeKind::Tuple { elems }) => is_empty(elems)
                || self.any_value_in(env, file, elems, (fuel - 1) as u64),
            Some(
                NodeKind::GenericApply { base, args: _ },
            ) => self.names_value_in(env, file, *base, (fuel - 1) as u64),
            Some(NodeKind::Path { .. }) => self.names_value_in(env, file, node, (fuel - 1) as u64),
            Some(NodeKind::FieldAccess { .. }) => self.names_value_in(env, file, node, (fuel - 1) as u64),
            _ => true,
        }
    }

    /// Whether a name stands for a value: a constant does when what it is bound to
    /// does.
    pub fn names_value_in(&self, env: &InferCx, file: FileId, node: NodeId, fuel: u64) -> (r: bool)
        ensures
            r == names_value_in_spec(self@, env, file, node, fuel),
        decreases fuel,
    {
        if fuel == 0 {
            return true;
        }
        match self.named_def(env, file, node) {
            Some(d) => if names_type_kind(def_kind(env.tables, d)) {
                false
            } else if def_kind(env.tables, d) == DefKind::Const {
                match def_place(env.tables, d) {
                    Some((f, n)) => match kind_of(env.tables, f, n) {
                        Some(
                            NodeKind::ConstBind { pattern: _, rhs },
                        ) => self.value_rhs_in(env, f, *rhs, (fuel - 1) as u64),
                        _ => true,
                    },
                    None => true,
                }
            } else {
                true
            },
            None => true,
        }
    }

    /// Whether a binding defines a value.
    pub fn binds_a_value(&self, env: &InferCx, node: NodeId) -> (r: bool)
        ensures
            r == binds_a_value_spec(self@, env, node),
    {
        match kind_of(env.tables, self.file, node) {
            Some(
                NodeKind::ConstBind { pattern: _, rhs },
            ) => self.value_rhs_in(env, self.file, *rhs, DEPTH_LIMIT),
            _ => false,
        }
    }

    /// Check a `const` generic parameter's declaration.
    pub fn check_const_param_at(&mut self, env: &InferCx, i: u64)
        ensures
            final(self)@ == check_const_param_at_spec(old(self)@, env, i),
            literals_kept(old(self)@, final(self)@),
            grew(old(self)@, final(self)@),
    {
        proof {
            reveal(crate::keeping::kept);
        }
        let node = node_at(i);
        match kind_of(env.tables, self.file, node) {
            Some(NodeKind::GenericConstParam { .. }) => {
                self.check_const_param(env, node, DEPTH_LIMIT);
            },
            _ => {},
        }
    }

    /// Check the `const` generic parameters from a node on.
    pub fn check_const_params(&mut self, env: &InferCx, i: u64, n: u64)
        ensures
            final(self)@ == check_const_params_spec(old(self)@, env, i, n),
            literals_kept(old(self)@, final(self)@),
            grew(old(self)@, final(self)@),
    {
        let ghost start = self@;
        let mut at: u64 = i;
        while at < n
            invariant
                check_const_params_spec(start, env, i, n) == check_const_params_spec(self@, env, at, n),
                literals_kept(start, self@),
                grew(start, self@),
            decreases n - at,
        {
            self.check_const_param_at(env, at);
            at = at + 1;
        }
    }

    /// Infer the function a node is.
    pub fn infer_func_at(&mut self, env: &InferCx, ns: DefId, i: u64)
        ensures
            final(self)@ == infer_func_at_spec(old(self)@, env, ns, i),
            literals_kept(old(self)@, final(self)@),
            crate::unify::literals_settled(old(self)@) ==> crate::bodies::types_settle(
                old(self)@.facts.ty,
                final(self)@.facts.ty,
            ),
            crate::unify::literals_settled(old(self)@) ==> file_settled(env.tables, final(self)@.facts, final(self)@.file)
                || (old(self)@ == final(self)@ && !is_own_func_spec(crate::def::kind_of_spec(env.tables, old(self)@.file, crate::ids::node_at_spec(i)))),
            grew(old(self)@, final(self)@),
    {
        proof {
            reveal(crate::keeping::kept);
        }
        let node = node_at(i);
        if is_own_func(kind_of(env.tables, self.file, node)) {
            self.restart(Some(ns));
            self.infer_func(env, node);
            self.finish(env);
        }
    }

    /// Infer the functions from a node on, each for itself.
    pub fn infer_funcs(&mut self, env: &InferCx, ns: DefId, i: u64, n: u64)
        ensures
            final(self)@ == infer_funcs_spec(old(self)@, env, ns, i, n),
            literals_kept(old(self)@, final(self)@),
            crate::unify::literals_settled(old(self)@) ==> crate::bodies::types_settle(
                old(self)@.facts.ty,
                final(self)@.facts.ty,
            ),
            crate::unify::literals_settled(old(self)@) ==> file_settled(env.tables, final(self)@.facts, final(self)@.file)
                || (old(self)@ == final(self)@ && no_func_in(env.tables, old(self)@.file, i, n)),
            grew(old(self)@, final(self)@),
    {
        let ghost start = self@;
        let mut at: u64 = i;
        while at < n
            invariant
                infer_funcs_spec(start, env, ns, i, n) == infer_funcs_spec(self@, env, ns, at, n),
                literals_kept(start, self@),
                crate::unify::literals_settled(start) ==> crate::bodies::types_settle(
                    start.facts.ty,
                    self@.facts.ty,
                ),
                crate::unify::literals_settled(start) ==> file_settled(env.tables, self@.facts, self@.file)
                    || (start == self@ && no_func_in(env.tables, start.file, i, at)),
                grew(start, self@),
                i <= n ==> at <= n,
                i <= at,
            decreases n - at,
        {
            self.infer_func_at(env, ns, at);
            at = at + 1;
        }
    }

    /// Whether a definition is a value of the file being inferred.
    pub fn is_global(&self, env: &InferCx, d: DefId) -> (r: bool)
        ensures
            r == is_global_spec(self@, env, d),
    {
        match def_node(env.tables, d) {
            Some(n) => self.is_own(env, d, DefKind::Const) && self.binds_a_value(env, n),
            None => false,
        }
    }

    /// Infer the value a definition is.
    pub fn infer_global_at(&mut self, env: &InferCx, ns: DefId, i: u64)
        ensures
            final(self)@ == infer_global_at_spec(old(self)@, env, ns, i),
            literals_kept(old(self)@, final(self)@),
            crate::unify::literals_settled(old(self)@) ==> crate::bodies::types_settle(
                old(self)@.facts.ty,
                final(self)@.facts.ty,
            ),
            crate::unify::literals_settled(old(self)@) ==> file_settled(env.tables, final(self)@.facts, final(self)@.file)
                || old(self)@ == final(self)@,
            grew(old(self)@, final(self)@),
    {
        proof {
            reveal(crate::keeping::kept);
        }
        let d = def_at(i);
        if self.is_global(env, d) {
            self.restart(Some(ns));
            self.infer_global(env, d, DEPTH_LIMIT);
            self.finish(env);
        }
    }

    /// Infer the values from a definition on, whether or not anything uses them.
    pub fn infer_globals(&mut self, env: &InferCx, ns: DefId, i: u64, n: u64)
        ensures
            final(self)@ == infer_globals_spec(old(self)@, env, ns, i, n),
            literals_kept(old(self)@, final(self)@),
            crate::unify::literals_settled(old(self)@) ==> crate::bodies::types_settle(
                old(self)@.facts.ty,
                final(self)@.facts.ty,
            ),
            crate::unify::literals_settled(old(self)@) ==> file_settled(env.tables, final(self)@.facts, final(self)@.file)
                || old(self)@ == final(self)@,
            grew(old(self)@, final(self)@),
    {
        let ghost start = self@;
        let mut at: u64 = i;
        while at < n
            invariant
                infer_globals_spec(start, env, ns, i, n) == infer_globals_spec(self@, env, ns, at, n),
                literals_kept(start, self@),
                crate::unify::literals_settled(start) ==> crate::bodies::types_settle(
                    start.facts.ty,
                    self@.facts.ty,
                ),
                crate::unify::literals_settled(start) ==> file_settled(env.tables, self@.facts, self@.file)
                    || start == self@,
                grew(start, self@),
                i <= n ==> at <= n,
                i <= at,
            decreases n - at,
        {
            self.infer_global_at(env, ns, at);
            at = at + 1;
        }
    }

    /// The passes over what a file declares, in order.
    pub fn check_declarations(&mut self, env: &InferCx, ns: DefId)
        ensures
            final(self)@ == check_declarations_spec(old(self)@, env, ns),
            literals_kept(old(self)@, final(self)@),
            grew(old(self)@, final(self)@),
    {
        proof {
            reveal(crate::keeping::kept);
        }
        self.restart(Some(ns));
        self.check_const_params(env, 0, node_count(env.tables, self.file));
        self.restart(Some(ns));
        self.check_conformance(env, 0, impl_count(env));
        self.restart(Some(ns));
        self.stamp_member_types(env);
        self.restart(Some(ns));
        self.stamp_variant_tags(env, 0, node_count(env.tables, self.file));
        self.restart(Some(ns));
        self.stamp_assoc_const_generics(env, 0, impl_count(env));
        self.restart(Some(ns));
        self.check_type_aliases(env);
    }

    /// Every pass over a file, in order: the declarations first, then the functions,
    /// then the values.
    pub fn infer_all(&mut self, env: &InferCx, ns: DefId)
        ensures
            final(self)@ == infer_all_spec(old(self)@, env, ns),
            crate::unify::literals_settled(old(self)@) ==> has_func(env.tables, old(self)@.file) ==> file_settled(
                env.tables,
                final(self)@.facts,
                final(self)@.file,
            ),
            literals_kept(old(self)@, final(self)@),
            grew(old(self)@, final(self)@),
    {
        proof {
            reveal(crate::keeping::kept);
        }
        self.check_declarations(env, ns);
        self.infer_funcs(env, ns, 0, node_count(env.tables, self.file));
        self.infer_globals(env, ns, 0, def_count(env.tables));
    }

    /// The types an impl's associated types are written as.
    pub fn assoc_tys(
        &mut self,
        env: &InferCx,
        l: &List<(Symbol, NodeId)>,
        file: FileId,
    ) -> (r: List<(Symbol, Ty)>)
        ensures
            (final(self)@, r) == assoc_tys_spec(old(self)@, env, l, file),
            grew(old(self)@, final(self)@),
        decreases l,
    {
        proof {
            reveal(crate::keeping::kept);
        }
        match l {
            List::Nil => List::Nil,
            List::Cons(h, rest) => {
                let t = self.ty_from_node_in(env, file, h.1, DEPTH_LIMIT);
                let others = self.assoc_tys(env, rest, file);
                List::Cons((dup_sym(&h.0), t), Box::new(others))
            },
        }
    }

    /// Resolve one impl's target, and everything it binds where no part of it is left
    /// open.
    pub fn resolve_target(&mut self, env: &InferCx, imp: &ImplInfo) -> (r: (ImplTarget, Option<TypedImpl>))
        ensures
            (final(self)@, r) == resolve_target_spec(old(self)@, env, imp),
            target_holds(imp, r.0, r.1),
            grew(old(self)@, final(self)@),
    {
        proof {
            reveal(crate::keeping::kept);
        }
        match &imp.typed {
            Some(t) => {
                return (ImplTarget { self_ty: dup_ty(&t.self_ty), trait_args: dup_tys(&t.trait_args) }, None);
            },
            None => {},
        }
        if !has_ast(env.tables, imp.file) {
            return unknown_target();
        }
        match &imp.syntax {
            Some(sx) => {
                self.file = imp.file;
                self.restart(None);
                let self_ty = self.ty_from_node_in(env, imp.file, sx.self_node, DEPTH_LIMIT);
                let trait_args = self.tys_from_nodes(env, &sx.trait_args, imp.file, DEPTH_LIMIT);
                let assoc = self.assoc_tys(env, &sx.assoc, imp.file);
                let settled = !mentions(&self_ty, Mention::Var)
                    && !any_mentions(&trait_args, Mention::Var)
                    && !any_named_mentions(&assoc, Mention::Var);
                let typed = if settled {
                    Some(
                        TypedImpl {
                            self_ty: dup_ty(&self_ty),
                            trait_args: dup_tys(&trait_args),
                            assoc: assoc,
                        },
                    )
                } else {
                    None
                };
                (ImplTarget { self_ty: self_ty, trait_args: trait_args }, typed)
            },
            None => unknown_target(),
        }
    }

    /// Resolve the target of the impl at a position.
    pub fn resolve_target_at(&mut self, env: &InferCx, i: u64) -> (r: (ImplTarget, Option<TypedImpl>))
        ensures
            (final(self)@, r) == resolve_target_at_spec(old(self)@, env, i),
            match crate::solve::get_impl_spec(env, i) {
                Some(imp) => target_holds(imp, r.0, r.1),
                None => true,
            },
            grew(old(self)@, final(self)@),
    {
        proof {
            reveal(crate::keeping::kept);
        }
        match get_impl(env, i) {
            Some(imp) => self.resolve_target(env, imp),
            None => unknown_target(),
        }
    }

    /// The traits of some bounds, with their arguments.
    pub fn bound_list(
        &mut self,
        env: &InferCx,
        file: FileId,
        l: &List<NodeId>,
    ) -> (r: List<(DefId, List<Ty>)>)
        ensures
            (final(self)@, r) == bound_list_spec(old(self)@, env, file, l),
            final(self)@.file == old(self)@.file,
            grew(old(self)@, final(self)@),
        decreases l,
    {
        proof {
            reveal(crate::keeping::kept);
        }
        match l {
            List::Nil => List::Nil,
            List::Cons(b, rest) => match self.trait_named(env, file, *b) {
                Some(t) => {
                    let args = self.bound_trait_args_in(env, file, *b, DEPTH_LIMIT);
                    let others = self.bound_list(env, file, rest);
                    List::Cons((t, args), Box::new(others))
                },
                None => self.bound_list(env, file, rest),
            },
        }
    }

    /// The trait a bound names.
    pub fn trait_named(&self, env: &InferCx, file: FileId, node: NodeId) -> (r: Option<DefId>)
        ensures
            r == trait_named_spec(self@, env, file, node),
    {
        match self.resolved_def_in(env, file, node) {
            Some(d) => if def_kind(env.tables, d) == DefKind::Trait {
                Some(d)
            } else {
                None
            },
            None => None,
        }
    }

    /// What a projection parameter is pinned to, where that is a type.
    pub fn pinned_ty(&mut self, env: &InferCx, d: DefId) -> (r: Option<Ty>)
        ensures
            (final(self)@, r) == pinned_ty_spec(old(self)@, env, d),
            final(self)@.file == old(self)@.file,
            match r { Some(t) => !crate::subst::mentions_spec(&t, Mention::Error), None => true },
            grew(old(self)@, final(self)@),
    {
        proof {
            reveal(crate::keeping::kept);
        }
        match projection_of(env.tables, d) {
            Some(p) => match p.pinned {
                Some(n) => {
                    let t = self.ty_from_node_in(env, self.file, n, DEPTH_LIMIT);
                    if mentions(&t, Mention::Error) {
                        None
                    } else {
                        Some(t)
                    }
                },
                None => None,
            },
            None => None,
        }
    }

    /// What a parameter is bounded by where it is declared.
    pub fn declared_bounds(&mut self, env: &InferCx, d: DefId) -> (r: List<(DefId, List<Ty>)>)
        ensures
            (final(self)@, r) == declared_bounds_spec(old(self)@, env, d),
            final(self)@.file == old(self)@.file,
            grew(old(self)@, final(self)@),
    {
        proof {
            reveal(crate::keeping::kept);
        }
        match def_node(env.tables, d) {
            Some(node) => match kind_of(env.tables, self.file, node) {
                Some(NodeKind::GenericTypeParam { name: _, constraint: Some(c) }) => {
                    self.bound_list(env, self.file, &bound_nodes(env.tables, self.file, *c))
                },
                _ => List::Nil,
            },
            None => List::Nil,
        }
    }

    /// What an `impl` return type turned out to be, and over which parameters.
    pub fn revealed_ty(&self, env: &InferCx, d: DefId) -> (r: Option<(List<DefId>, Ty)>)
        ensures
            r == revealed_ty_spec(self@, env, d),
    {
        match def_node(env.tables, d) {
            Some(n) => match self.get_opaque_ty(self.file, n) {
                Some(o) => Some((match self.get_opaque_args(self.file, n) {
                Some(l) => l,
                None => List::Nil,
            }, o.0)),
                None => None,
            },
            None => None,
        }
    }

    /// What the type parameter at a position of the table declares, where it
    /// declares anything.
    pub fn param_decl_at(&mut self, env: &InferCx, i: u64) -> (r: Option<(DefId, ParamDecl)>)
        ensures
            (final(self)@, r) == param_decl_at_spec(old(self)@, env, i),
            final(self)@.file == old(self)@.file,
            match r {
                Some(x) => x.0 == crate::ids::def_at_spec(i)
                    && crate::members::is_own_spec(old(self)@, env, x.0, DefKind::TypeParam)
                    && says_something(x.1),
                None => true,
            },
            grew(old(self)@, final(self)@),
    {
        proof {
            reveal(crate::keeping::kept);
        }
        let d = def_at(i);
        if !self.is_own(env, d, DefKind::TypeParam) {
            return None;
        }
        let pinned = self.pinned_ty(env, d);
        let bounds = self.declared_bounds(env, d);
        let revealed = self.revealed_ty(env, d);
        if is_empty(&bounds) && pinned.is_none() && revealed.is_none() {
            None
        } else {
            Some((d, ParamDecl { bounds: bounds, pinned: pinned, revealed: revealed }))
        }
    }

    /// The value of the constant at a position of the table, where it folds.
    pub fn const_value_at(&mut self, env: &InferCx, i: u64) -> (r: Option<(DefId, ConstValue)>)
        ensures
            (final(self)@, r) == const_value_at_spec(old(self)@, env, i),
            crate::types::only_marked(old(self)@, final(self)@),
            final(self)@.file == old(self)@.file,
            match r {
                Some(x) => x.0 == crate::ids::def_at_spec(i)
                    && crate::members::is_own_spec(old(self)@, env, x.0, DefKind::Const),
                None => true,
            },
            grew(old(self)@, final(self)@),
    {
        proof {
            reveal(crate::keeping::kept);
        }
        let d = def_at(i);
        if !self.is_own(env, d, DefKind::Const) {
            return None;
        }
        match def_node(env.tables, d) {
            Some(node) => {
                match const_rhs_node(kind_of(env.tables, self.file, node)) {
                    Some(rhs) => {
                        let v = self.const_operand(env, self.file, rhs, "a constant", 0, DEPTH_LIMIT);
                        match v {
                            Some(v) => Some((d, v)),
                            None => None,
                        }
                    },
                    _ => {
                        None
                    },
                }
            },
            _ => {
                None
            },
        }
    }
}

/// Nothing inferred yet in a file.
pub open spec fn blank(facts: FactsV, diags: Seq<Diagnostic>, file: FileId, packaged: bool) -> InfererV {
    InfererV {
        facts: facts,
        diags: diags,
        file: file,
        in_default: false,
        ctx: None,
        packaged: packaged,
        next_var: 0,
        next_const: 0,
        bindings: List::Nil,
        const_bindings: List::Nil,
        kinds: List::Nil,
        diverged: List::Nil,
        deep: false,
        obligations: List::Nil,
        assoc: List::Nil,
        distincts: List::Nil,
        str_ty: None,
        ptr_ints: None,
        locals: Map::empty(),
        types: Map::empty(),
        ret: Ty::Void,
        breaks: List::Nil,
        func: None,
        alias_stack: List::Nil,
        const_stack: List::Nil,
        int_values: Map::empty(),
        float_values: Map::empty(),
    }
}

impl Inferer {
    /// Nothing inferred yet in a file.
    pub fn blank(facts: Facts, diags: Vec<Diagnostic>, file: FileId, packaged: bool) -> (r: Inferer)
        ensures
            r@ == blank(facts@, diags@, file, packaged),
    {
        Inferer {
            facts: facts,
            diags: diags,
            file: file,
            in_default: false,
            ctx: None,
            packaged: packaged,
            next_var: 0,
            next_const: 0,
            bindings: List::Nil,
            const_bindings: List::Nil,
            kinds: List::Nil,
            diverged: List::Nil,
            deep: false,
            obligations: List::Nil,
            assoc: List::Nil,
            distincts: List::Nil,
            str_ty: None,
            ptr_ints: None,
            locals: Table::new(),
            types: Table::new(),
            ret: Ty::Void,
            breaks: List::Nil,
            func: None,
            alias_stack: List::Nil,
            const_stack: List::Nil,
            int_values: Table::new(),
            float_values: Table::new(),
        }
    }

    /// Begin a new inference in the same file.
    pub fn restart(&mut self, ctx: Option<DefId>)
        ensures
            final(self)@ == restart_spec(old(self)@, ctx),
            grew(old(self)@, final(self)@),
    {
        self.in_default = false;
        self.ctx = ctx;
        self.next_var = 0;
        self.next_const = 0;
        self.bindings = List::Nil;
        self.const_bindings = List::Nil;
        self.kinds = List::Nil;
        self.diverged = List::Nil;
        self.obligations = List::Nil;
        self.assoc = List::Nil;
        self.locals = Table::new();
        self.types = Table::new();
        self.ret = Ty::Void;
        self.breaks = List::Nil;
        self.func = None;
        self.alias_stack = List::Nil;
        self.const_stack = List::Nil;
        self.int_values = Table::new();
        self.float_values = Table::new();
    }

    /// The traits the bounds of the file name, in front of a list.
    pub fn bound_traits(&self, env: &InferCx, found: List<DefId>) -> (r: List<DefId>)
        ensures
            r == bound_traits_spec(self@, env, found),
    {
        let n = node_count(env.tables, self.file);
        let mut acc = found;
        let mut i: u64 = 0;
        while i < n
            invariant
                n == crate::def::node_count_spec(env.tables, self@.file),
                bound_traits_spec(self@, env, found) == bound_traits_from(self@, env, i, acc),
            decreases n - i,
        {
            acc = self.bound_traits_in(env, &bounds_at(env.tables, self.file, node_at(i)), acc);
            i = i + 1;
        }
        acc
    }

    /// Every `distinct` type over a number, and which number.
    pub fn numeric_distincts(&self, env: &InferCx) -> (r: List<(DefId, Ty)>)
        ensures
            r == numeric_distincts_spec(self@, env),
    {
        let n = def_count(env.tables);
        let mut acc: List<(DefId, Ty)> = List::Nil;
        let mut i: u64 = 0;
        while i < n
            invariant
                i <= n,
                acc == numeric_distincts_upto(self@, env, i),
            decreases n - i,
        {
            let d = def_at(i);
            match self.numeric_distinct(env, d) {
                Some(t) => {
                    acc = List::Cons((d, t), Box::new(acc));
                },
                None => {},
            }
            i = i + 1;
        }
        acc
    }
}

// Whole files.

/// The tables, and nothing that is only there for selecting impls.
pub open spec fn bare_cx<'a>(tables: &'a Tables, impls: &'a Vec<ImplInfo>) -> InferCx<'a> {
    InferCx { tables: tables, impls: impls, in_scope: &List::Nil, lang_traits: &List::Nil }
}

/// What a file may name, read off its scope and its bounds.
pub open spec fn file_cx<'a>(
    tables: &'a Tables,
    impls: &'a Vec<ImplInfo>,
    prelude_globs: &List<DefId>,
    file_ns: DefId,
    st: InfererV,
) -> InferCx<'a> {
    let named = in_scope_traits_spec(tables, prelude_globs, file_ns);
    InferCx {
        tables: tables,
        impls: impls,
        in_scope: &bound_traits_spec(st, &bare_cx(tables, impls), named),
        lang_traits: &lang_trait_defs_spec(tables, &tables.lang),
    }
}

/// The state a file's passes begin with: the numbers under other names, and the
/// types of the language's own literals.
pub open spec fn file_start(
    tables: &Tables,
    impls: &Vec<ImplInfo>,
    facts: FactsV,
    diags: Seq<Diagnostic>,
    file: FileId,
) -> InfererV {
    let st = blank(facts, diags, file, true);
    InfererV {
        distincts: numeric_distincts_spec(st, &bare_cx(tables, impls)),
        str_ty: str_lang_ty_spec(tables),
        ptr_ints: ptr_int_lang_tys_spec(tables),
        ..st
    }
}

/// The complaint about a file in which something is nested too deeply to follow.
pub open spec fn too_deep_spec(file: FileId) -> Diagnostic {
    Diagnostic {
        file: file,
        span: Span { start: 0, end: 0 },
        message: crate::diag::say_spec("something in this file is nested too deeply to be followed"),
        note: None,
    }
}

/// The complaint about a file in which something is nested too deeply to follow.
pub fn too_deep(file: FileId) -> (r: Diagnostic)
    ensures
        r == too_deep_spec(file),
{
    Diagnostic {
        file: file,
        span: Span { start: 0, end: 0 },
        message: say("something in this file is nested too deeply to be followed"),
        note: None,
    }
}

/// What was said, with one complaint more where anything was given up on.
pub open spec fn told(st: InfererV) -> Seq<Diagnostic> {
    if st.deep {
        st.diags.push(too_deep_spec(st.file))
    } else {
        st.diags
    }
}

/// The state once every pass over a file is done.
pub open spec fn file_done(
    tables: &Tables,
    facts: FactsV,
    diags: Seq<Diagnostic>,
    impls: &Vec<ImplInfo>,
    prelude_globs: &List<DefId>,
    file_ns: DefId,
    file: FileId,
) -> InfererV {
    let st = file_start(tables, impls, facts, diags, file);
    let cx = file_cx(tables, impls, prelude_globs, file_ns, st);
    infer_all_spec(st, &cx, file_ns)
}

/// The facts and the complaints once a file is inferred.
pub open spec fn infer_file_spec(
    tables: &Tables,
    facts: FactsV,
    diags: Seq<Diagnostic>,
    impls: &Vec<ImplInfo>,
    prelude_globs: &List<DefId>,
    file_ns: DefId,
    file: FileId,
) -> (FactsV, Seq<Diagnostic>) {
    let done = file_done(tables, facts, diags, impls, prelude_globs, file_ns, file);
    (done.facts, told(done))
}

/// The type of a `#lang` item holds no variable.
pub proof fn lang_types_are_settled(t: &Tables, tag: &str)
    ensures
        match crate::def::lang_ty_spec(t, tag) {
            Some(ty) => crate::unify::settled(&ty),
            None => true,
        },
{
    reveal_with_fuel(crate::subst::mentions_spec, 2);
    reveal_with_fuel(crate::subst::any_mentions_spec, 2);
}

/// Infer the types of everything in a file: every node's type is recorded, with
/// whatever else lowering will ask, and every mistake is complained about. What
/// was said before stays said, and where the file has a function at all, nothing
/// lowering reads a type from still holds a variable. Where something is nested too
/// deeply to follow, that is the last thing said.
pub fn infer_file(
    tables: &Tables,
    facts: &mut Facts,
    diags: &mut Vec<Diagnostic>,
    impls: &Vec<ImplInfo>,
    prelude_globs: &List<DefId>,
    file_ns: DefId,
    file: FileId,
)
    ensures
        (final(facts)@, final(diags)@) == infer_file_spec(
            tables,
            old(facts)@,
            old(diags)@,
            impls,
            prelude_globs,
            file_ns,
            file,
        ),
        crate::keeping::said_still(old(diags)@, final(diags)@),
        has_func(tables, file) ==> file_settled(tables, final(facts)@, file),
        file_done(tables, old(facts)@, old(diags)@, impls, prelude_globs, file_ns, file).deep
            ==> final(diags)@.len() > old(diags)@.len() && final(diags)@.last() == too_deep_spec(file),
{
    let mut st = Inferer::blank(Facts::new(), Vec::new(), file, true);
    std::mem::swap(&mut st.facts, facts);
    std::mem::swap(&mut st.diags, diags);
    let none: List<DefId> = List::Nil;
    let bare = InferCx { tables: tables, impls: impls, in_scope: &none, lang_traits: &none };
    let distincts = st.numeric_distincts(&bare);
    st.distincts = distincts;
    st.str_ty = str_lang_ty(tables);
    st.ptr_ints = ptr_int_lang_tys(tables);
    let in_scope = st.bound_traits(&bare, in_scope_traits(tables, prelude_globs, file_ns));
    let lang_traits = lang_trait_defs(tables, &tables.lang);
    let cx = InferCx { tables: tables, impls: impls, in_scope: &in_scope, lang_traits: &lang_traits };
    proof {
        lang_types_are_settled(tables, "str");
        lang_types_are_settled(tables, "usize");
        lang_types_are_settled(tables, "isize");
    }
    st.infer_all(&cx, file_ns);
    if st.deep {
        st.diags.push(too_deep(file));
    }
    std::mem::swap(&mut st.facts, facts);
    std::mem::swap(&mut st.diags, diags);
}

/// The targets of the impls from a position on, behind those found so far.
pub open spec fn targets_from(
    st: InfererV,
    cx: &InferCx,
    i: u64,
    found: Seq<(ImplTarget, Option<TypedImpl>)>,
) -> (InfererV, Seq<(ImplTarget, Option<TypedImpl>)>)
    decreases crate::solve::impl_count_spec(cx) - i,
{
    if i < crate::solve::impl_count_spec(cx) {
        let (st, t) = resolve_target_at_spec(st, cx, i);
        targets_from(st, cx, (i + 1) as u64, found.push(t))
    } else {
        (st, found)
    }
}

/// An impl with what its syntax came to, where that is settled.
pub open spec fn with_types(imp: ImplInfo, typed: Option<TypedImpl>) -> ImplInfo {
    match typed {
        Some(t) => ImplInfo { typed: Some(t), ..imp },
        None => imp,
    }
}

/// What resolving every impl's target gives.
pub open spec fn resolve_impl_targets_spec(
    tables: &Tables,
    facts: FactsV,
    diags: Seq<Diagnostic>,
    impls: &Vec<ImplInfo>,
) -> (InfererV, Seq<(ImplTarget, Option<TypedImpl>)>) {
    targets_from(blank(facts, diags, FileId(0), false), &bare_cx(tables, impls), 0, Seq::empty())
}

/// Resolve every impl's target and the types it binds, in order, and record them
/// on the impls themselves where nothing in them is left open.
pub fn resolve_impl_targets(
    tables: &Tables,
    facts: &mut Facts,
    diags: &mut Vec<Diagnostic>,
    impls: &mut Vec<ImplInfo>,
) -> (r: Vec<ImplTarget>)
    ensures
        ({
            let (st, found) = resolve_impl_targets_spec(tables, old(facts)@, old(diags)@, old(impls));
            &&& final(facts)@ == st.facts
            &&& final(diags)@ == told(st)
            &&& r@ == Seq::new(found.len(), |i: int| found[i].0)
            &&& final(impls)@ == Seq::new(found.len(), |i: int| with_types(old(impls)@[i], found[i].1))
            &&& found.len() == old(impls)@.len()
            &&& forall|i: int|
                0 <= i < found.len() ==> target_holds(&old(impls)@[i], (#[trigger] found[i]).0, found[i].1)
        }),
        crate::keeping::said_still(old(diags)@, final(diags)@),
{
    let mut st = Inferer::blank(Facts::new(), Vec::new(), FileId(0), false);
    std::mem::swap(&mut st.facts, facts);
    std::mem::swap(&mut st.diags, diags);
    let ghost start = st@;
    let ghost before = *impls;
    let mut targets: Vec<ImplTarget> = Vec::new();
    let mut typed: Vec<Option<TypedImpl>> = Vec::new();
    let none: List<DefId> = List::Nil;
    let ghost mut found: Seq<(ImplTarget, Option<TypedImpl>)> = Seq::empty();
    let n = impls.len() as u64;
    let mut i: u64 = 0;
    while i < n
        invariant
            n == impls@.len(),
            *impls == before,
            none == List::<DefId>::Nil,
            i <= n,
            found.len() == i,
            targets@ == Seq::new(found.len(), |j: int| found[j].0),
            typed@ == Seq::new(found.len(), |j: int| found[j].1),
            targets_from(start, &bare_cx(tables, &before), 0, Seq::empty())
                == targets_from(st@, &bare_cx(tables, &before), i, found),
            crate::keeping::said_still(start.diags, st@.diags),
            forall|j: int| 0 <= j < found.len() ==> target_holds(
                &before@[j],
                (#[trigger] found[j]).0,
                found[j].1,
            ),
        decreases n - i,
    {
        let cx = InferCx { tables: tables, impls: impls, in_scope: &none, lang_traits: &none };
        let (target, types) = st.resolve_target_at(&cx, i);
        proof {
            found = found.push((target, types));
        }
        targets.push(target);
        typed.push(types);
        assert(targets@ =~= Seq::new(found.len(), |j: int| found[j].0));
        assert(typed@ =~= Seq::new(found.len(), |j: int| found[j].1));
        i = i + 1;
    }
    let mut done: Vec<ImplInfo> = Vec::new();
    std::mem::swap(&mut done, impls);
    let mut back: Vec<ImplInfo> = Vec::new();
    while done.len() > 0
        invariant
            done@.len() == typed@.len(),
            done@.len() + back@.len() == n,
            found.len() == n,
            n == before@.len(),
            done@ == before@.subrange(0, done@.len() as int),
            typed@ == Seq::new(done@.len(), |j: int| found[j].1),
            back@ == Seq::new(back@.len(), |j: int| with_types(before@[n - 1 - j], found[n - 1 - j].1)),
        decreases done@.len(),
    {
        let ghost k = done@.len() - 1;
        match (done.pop(), typed.pop()) {
            (Some(imp), Some(types)) => {
                let kept = match types {
                    Some(t) => ImplInfo { typed: Some(t), ..imp },
                    None => imp,
                };
                back.push(kept);
            },
            _ => {},
        }
        assert(done@ =~= before@.subrange(0, done@.len() as int));
        assert(typed@ =~= Seq::new(done@.len(), |j: int| found[j].1));
        assert(back@ =~= Seq::new(back@.len(), |j: int| with_types(before@[n - 1 - j], found[n - 1 - j].1)));
    }
    while back.len() > 0
        invariant
            impls@.len() + back@.len() == n,
            found.len() == n,
            n == before@.len(),
            back@ == Seq::new(back@.len(), |j: int| with_types(before@[n - 1 - j], found[n - 1 - j].1)),
            impls@ == Seq::new(impls@.len(), |j: int| with_types(before@[j], found[j].1)),
        decreases back@.len(),
    {
        match back.pop() {
            Some(imp) => {
                impls.push(imp);
            },
            None => {},
        }
        assert(back@ =~= Seq::new(back@.len(), |j: int| with_types(before@[n - 1 - j], found[n - 1 - j].1)));
        assert(impls@ =~= Seq::new(impls@.len(), |j: int| with_types(before@[j], found[j].1)));
    }
    if st.deep {
        let file = st.file;
        st.diags.push(too_deep(file));
    }
    std::mem::swap(&mut st.facts, facts);
    std::mem::swap(&mut st.diags, diags);
    targets
}

/// Facts in which no mistake has been complained about yet.
pub open spec fn unmarked(facts: FactsV) -> FactsV {
    FactsV { const_slot_reported: Map::empty(), ty_path_reported: Map::empty(), ..facts }
}

/// Facts with the marks others have of what was complained about.
pub open spec fn marked_as(facts: FactsV, others: FactsV) -> FactsV {
    FactsV {
        const_slot_reported: others.const_slot_reported,
        ty_path_reported: others.ty_path_reported,
        ..facts
    }
}

/// Set aside the marks of what was complained about.
pub fn take_marks(facts: &mut Facts) -> (r: (Table<ConstSlotReported>, Table<TyPathReported>))
    ensures
        final(facts)@ == unmarked(old(facts)@),
        r.0@ == old(facts)@.const_slot_reported,
        r.1@ == old(facts)@.ty_path_reported,
{
    let mut slots: Table<ConstSlotReported> = Table::new();
    let mut paths: Table<TyPathReported> = Table::new();
    std::mem::swap(&mut slots, &mut facts.const_slot_reported);
    std::mem::swap(&mut paths, &mut facts.ty_path_reported);
    (slots, paths)
}

/// Put marks back that were set aside, in place of those made since.
pub fn put_marks(facts: &mut Facts, marks: (Table<ConstSlotReported>, Table<TyPathReported>))
    ensures
        final(facts)@ == (FactsV {
            const_slot_reported: marks.0@,
            ty_path_reported: marks.1@,
            ..old(facts)@
        }),
{
    facts.const_slot_reported = marks.0;
    facts.ty_path_reported = marks.1;
}

/// Whether definitions come in the order of the table, none of them twice.
pub open spec fn in_table_order<T>(t: &Tables, l: Seq<(DefId, T)>) -> bool {
    crate::def::def_count_spec(t) < 0xffff_ffff ==> forall|j: int, k: int|
        0 <= j < k < l.len() ==> (#[trigger] l[j]).0.0 < (#[trigger] l[k]).0.0
}

/// Whether a definition is of a kind, and of a file.
pub open spec fn of_kind(t: &Tables, file: FileId, d: DefId, kind: DefKind) -> bool {
    crate::def::def_kind_spec(t, d) == kind && crate::def::def_file_spec(t, d) == Some(file)
}

/// What the type parameters from a position on declare, behind what was found so
/// far.
pub open spec fn param_decls_from(
    st: InfererV,
    cx: &InferCx,
    i: u64,
    found: Seq<(DefId, ParamDecl)>,
) -> (InfererV, Seq<(DefId, ParamDecl)>)
    decreases crate::def::def_count_spec(cx.tables) - i,
{
    if i < crate::def::def_count_spec(cx.tables) {
        let (st, d) = param_decl_at_spec(st, cx, i);
        param_decls_from(
            st,
            cx,
            (i + 1) as u64,
            match d {
                Some(x) => found.push(x),
                None => found,
            },
        )
    } else {
        (st, found)
    }
}

/// The facts after resolving a file's parameters, and what they declare.
pub open spec fn resolve_param_decls_spec(
    tables: &Tables,
    facts: FactsV,
    impls: &Vec<ImplInfo>,
    file: FileId,
) -> (FactsV, Seq<(DefId, ParamDecl)>) {
    if crate::def::has_ast_spec(tables, file) {
        let (st, found) = param_decls_from(
            blank(unmarked(facts), Seq::empty(), file, false),
            &bare_cx(tables, impls),
            0,
            Seq::empty(),
        );
        (marked_as(st.facts, facts), found)
    } else {
        (facts, Seq::empty())
    }
}

/// What every type parameter a file declares is bounded by, pinned to, or turned
/// out to be. Nothing is complained about: a bound that does not resolve was
/// complained of where it was checked.
pub fn resolve_param_decls(
    tables: &Tables,
    facts: &mut Facts,
    impls: &Vec<ImplInfo>,
    file: FileId,
) -> (r: Vec<(DefId, ParamDecl)>)
    ensures
        (final(facts)@, r@) == resolve_param_decls_spec(tables, old(facts)@, impls, file),
        marked_as(final(facts)@, old(facts)@) == final(facts)@,
        in_table_order(tables, r@),
        forall|k: int| 0 <= k < r@.len() ==> of_kind(tables, file, (#[trigger] r@[k]).0, DefKind::TypeParam)
            && says_something(r@[k].1),
{
    if !has_ast(tables, file) {
        return Vec::new();
    }
    let mut st = Inferer::blank(Facts::new(), Vec::new(), file, false);
    let marks = take_marks(facts);
    std::mem::swap(&mut st.facts, facts);
    let ghost start = st@;
    let none: List<DefId> = List::Nil;
    let cx = InferCx { tables: tables, impls: impls, in_scope: &none, lang_traits: &none };
    let mut found: Vec<(DefId, ParamDecl)> = Vec::new();
    let n = def_count(tables);
    let mut i: u64 = 0;
    while i < n
        invariant
            n == crate::def::def_count_spec(cx.tables),
            param_decls_from(start, &cx, 0, Seq::empty()) == param_decls_from(st@, &cx, i, found@),
            cx.tables == tables,
            st@.file == file,
            i <= n,
            forall|k: int| 0 <= k < found@.len() ==> of_kind(tables, file, (#[trigger] found@[k]).0, DefKind::TypeParam)
                && says_something(found@[k].1),
            forall|k: int| 0 <= k < found@.len() ==> n < 0xffff_ffff ==> (#[trigger] found@[k]).0.0 < i,
            in_table_order(tables, found@),
        decreases n - i,
    {
        match st.param_decl_at(&cx, i) {
            Some(d) => {
                found.push(d);
            },
            None => {},
        }
        i = i + 1;
    }
    std::mem::swap(&mut st.facts, facts);
    put_marks(facts, marks);
    found
}

/// The values of the constants from a position on, behind those found so far.
pub open spec fn const_values_from(
    st: InfererV,
    cx: &InferCx,
    i: u64,
    found: Seq<(DefId, ConstValue)>,
) -> (InfererV, Seq<(DefId, ConstValue)>)
    decreases crate::def::def_count_spec(cx.tables) - i,
{
    if i < crate::def::def_count_spec(cx.tables) {
        let (st, v) = const_value_at_spec(st, cx, i);
        const_values_from(
            st,
            cx,
            (i + 1) as u64,
            match v {
                Some(x) => found.push(x),
                None => found,
            },
        )
    } else {
        (st, found)
    }
}

/// The facts after folding a file's constants, and their values.
pub open spec fn fold_const_values_spec(
    tables: &Tables,
    facts: FactsV,
    impls: &Vec<ImplInfo>,
    file: FileId,
) -> (FactsV, Seq<(DefId, ConstValue)>) {
    if crate::def::has_ast_spec(tables, file) {
        let (st, found) = const_values_from(
            blank(unmarked(facts), Seq::empty(), file, false),
            &bare_cx(tables, impls),
            0,
            Seq::empty(),
        );
        (marked_as(st.facts, facts), found)
    } else {
        (facts, Seq::empty())
    }
}

/// The value of every constant a file declares that folds to one. Nothing is
/// complained about: one that does not fold is a mistake only where its value is
/// asked for.
pub fn fold_const_values(
    tables: &Tables,
    facts: &mut Facts,
    impls: &Vec<ImplInfo>,
    file: FileId,
) -> (r: Vec<(DefId, ConstValue)>)
    ensures
        r@ == fold_const_values_spec(tables, old(facts)@, impls, file).1,
        final(facts)@ == old(facts)@,
        in_table_order(tables, r@),
        forall|k: int| 0 <= k < r@.len() ==> of_kind(tables, file, (#[trigger] r@[k]).0, DefKind::Const),
{
    if !has_ast(tables, file) {
        return Vec::new();
    }
    let mut st = Inferer::blank(Facts::new(), Vec::new(), file, false);
    let marks = take_marks(facts);
    std::mem::swap(&mut st.facts, facts);
    let ghost start = st@;
    let none: List<DefId> = List::Nil;
    let cx = InferCx { tables: tables, impls: impls, in_scope: &none, lang_traits: &none };
    let mut found: Vec<(DefId, ConstValue)> = Vec::new();
    let n = def_count(tables);
    let mut i: u64 = 0;
    while i < n
        invariant
            n == crate::def::def_count_spec(cx.tables),
            const_values_from(start, &cx, 0, Seq::empty()) == const_values_from(st@, &cx, i, found@),
            crate::types::only_marked(start, st@),
            cx.tables == tables,
            st@.file == file,
            i <= n,
            forall|k: int| 0 <= k < found@.len() ==> of_kind(
                tables,
                file,
                (#[trigger] found@[k]).0,
                DefKind::Const,
            ),
            forall|k: int| 0 <= k < found@.len() ==> n < 0xffff_ffff ==> (#[trigger] found@[k]).0.0 < i,
            in_table_order(tables, found@),
        decreases n - i,
    {
        match st.const_value_at(&cx, i) {
            Some(v) => {
                found.push(v);
            },
            None => {},
        }
        i = i + 1;
    }
    std::mem::swap(&mut st.facts, facts);
    put_marks(facts, marks);
    found
}

/// The facts after working out a signature, and the signature.
pub open spec fn signature_from_tree_spec(
    tables: &Tables,
    facts: FactsV,
    impls: &Vec<ImplInfo>,
    def: DefId,
) -> (FactsV, Ty) {
    match crate::def::def_file_spec(tables, def) {
        Some(file) => if crate::def::has_ast_spec(tables, file) {
            let (st, ty) = crate::types::func_def_ty_spec(
                blank(unmarked(facts), Seq::empty(), file, false),
                &bare_cx(tables, impls),
                def,
                DEPTH_LIMIT,
            );
            (marked_as(st.facts, facts), crate::unify::resolve_spec(st, &ty, DEPTH_LIMIT))
        } else {
            (facts, Ty::Error)
        },
        None => (facts, Ty::Error),
    }
}

/// The signature of a function, worked out the way a use of it asks: from the
/// tree it is written in, where nothing is recorded about it. Nothing is
/// complained about.
pub fn signature_from_tree(tables: &Tables, facts: &mut Facts, impls: &Vec<ImplInfo>, def: DefId) -> (r: Ty)
    ensures
        (final(facts)@, r) == signature_from_tree_spec(tables, old(facts)@, impls, def),
{
    match def_file(tables, def) {
        Some(file) => if has_ast(tables, file) {
            let mut st = Inferer::blank(Facts::new(), Vec::new(), file, false);
            let marks = take_marks(facts);
            std::mem::swap(&mut st.facts, facts);
            let none: List<DefId> = List::Nil;
            let cx = InferCx { tables: tables, impls: impls, in_scope: &none, lang_traits: &none };
            let ty = st.func_def_ty(&cx, def, DEPTH_LIMIT);
            let sig = st.resolve(&ty, DEPTH_LIMIT);
            std::mem::swap(&mut st.facts, facts);
            put_marks(facts, marks);
            sig
        } else {
            Ty::Error
        },
        None => Ty::Error,
    }
}

} // verus!
