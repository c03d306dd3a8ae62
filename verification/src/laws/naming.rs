//! Laws of what names and closures are: the type each has where it is used, and what
//! is recorded of it.

use vstd::prelude::*;

use crate::ast::{Lit, NodeKind};
use crate::coerce::{expect_return_spec, expect_spec};
use crate::def::{ConstTy, DefKind};
use crate::exprs::infer_expr_spec;
use crate::facts::ClosureSig;
use crate::ids::{DefId, NodeId};
use crate::laws::typing::{opens, written};
use crate::list::{List, DEPTH_LIMIT};
use crate::symbol::Symbol;
use crate::ty::Ty;
use crate::unify::{InferCx, InfererV, TyVarKind};

verus! {

// Names.

/// A name of a function has the function's type, of a struct or an enum that type, of a
/// `const` parameter the parameter's; a namespace, a trait and an overload set are no
/// values, which is complained about; what was not loaded is an error of its own.
pub proof fn a_name_has_the_type_of_what_it_names(
    st: InfererV,
    env: &InferCx,
    node: NodeId,
    def: DefId,
    fuel: u64,
)
    requires
        fuel > 1,
        crate::unify::get_local_spec(st, def) is None,
    ensures
        ({
            let less = (fuel - 1) as u64;
            let r = crate::exprs::def_ty_spec(st, env, node, def, fuel);
            match crate::def::def_kind_spec(env.tables, def) {
                DefKind::Func => if crate::exprs::is_c_variadic_spec(env.tables, def) {
                    r.1 == Ty::Error && r.0.diags.len() == st.diags.len() + 1
                } else {
                    r == crate::types::func_def_ty_spec(st, env, def, less)
                },
                DefKind::Overload => r.1 == Ty::Error && r.0.diags.len() == st.diags.len() + 1,
                DefKind::Struct => r == crate::types::nominal_of_spec(st, env, def),
                DefKind::Enum => r == crate::types::nominal_of_spec(st, env, def),
                DefKind::Const => r == crate::exprs::const_def_ty_spec(st, env, node, def, less),
                DefKind::ConstParam => r == crate::types::const_param_ty_spec(st, env, def, less),
                DefKind::External => r == (st, Ty::Error),
                DefKind::Namespace => r.1 == Ty::Error && r.0.diags.len() == st.diags.len() + 1,
                DefKind::Trait => r.1 == Ty::Error && r.0.diags.len() == st.diags.len() + 1,
                _ => opens(st, r.0, r.1),
            }
        }),
{
}

/// A type that is named is applied to as many open arguments as it takes.
pub proof fn a_named_type_is_open_in_its_arguments(st: InfererV, env: &InferCx, def: DefId)
    ensures
        match crate::types::nominal_of_spec(st, env, def).1 {
            Ty::Nominal { def: d, args } => d == def && args@.len()
                == crate::decls::declared_generics_spec(st, env, def)@.len(),
            _ => false,
        },
{
    as_many_open(st, crate::decls::declared_generics_spec(st, env, def));
}

proof fn as_many_open(st: InfererV, l: List<DefId>)
    ensures
        crate::unify::fresh_each_spec(st, &l).1@.len() == l@.len(),
    decreases l,
{
    match l {
        List::Nil => {},
        List::Cons(_, t) => as_many_open(crate::unify::fresh_spec(st).0, *t),
    }
}

/// A constant that is a bare literal has a type of its own at every use; one that
/// renames another has that one's; any other the one recorded for it. A constant
/// defined by itself has none.
pub proof fn a_constant_has_a_type_at_each_use(
    st: InfererV,
    env: &InferCx,
    node: NodeId,
    def: DefId,
    fuel: u64,
)
    requires
        fuel > 2,
    ensures
        crate::def::def_in_spec(&st.const_stack, def) ==> crate::exprs::const_def_ty_spec(st, env, node, def, fuel)
            == (st, Ty::Error),
        ({
            let (a, t) = crate::exprs::const_shape_ty_spec(st, env, node, ConstTy::ComptimeInt, fuel);
            &&& t == Ty::Var(st.next_var)
            &&& a.kinds == List::Cons((st.next_var, TyVarKind::Int), Box::new(st.kinds))
        }),
        ({
            let (a, t) = crate::exprs::const_shape_ty_spec(st, env, node, ConstTy::ComptimeFloat, fuel);
            &&& t == Ty::Var(st.next_var)
            &&& a.kinds == List::Cons((st.next_var, TyVarKind::Float), Box::new(st.kinds))
        }),
        forall|other: DefId|
            #[trigger] crate::exprs::const_shape_ty_spec(st, env, node, ConstTy::Same(other), fuel)
                == crate::exprs::def_ty_spec(st, env, node, other, (fuel - 1) as u64),
        forall|ty: Ty|
            #[trigger] crate::exprs::const_shape_ty_spec(st, env, node, ConstTy::Settled(ty), fuel) == (st, ty),
{
}

/// A constant that was recorded has the recorded shape, read with the constant itself
/// marked so that it cannot be defined by itself.
pub proof fn a_recorded_constant_has_its_shape(
    st: InfererV,
    env: &InferCx,
    node: NodeId,
    def: DefId,
    shape: ConstTy,
    fuel: u64,
)
    requires
        fuel > 0,
        !crate::def::def_in_spec(&st.const_stack, def),
        crate::decls::recorded_const_ty_spec(env.tables, def) == Some(shape),
    ensures
        ({
            let marked = InfererV { const_stack: List::Cons(def, Box::new(st.const_stack)), ..st };
            crate::exprs::const_def_ty_spec(st, env, node, def, fuel).1 == crate::exprs::const_shape_ty_spec(
                marked,
                env,
                node,
                shape,
                (fuel - 1) as u64,
            ).1
        }),
{
}

/// A global written with a type has that type, which its value is held to; a bare
/// literal stays open; any other has the type of its value. The binding gets it.
pub proof fn a_global_has_its_type(
    st: InfererV,
    env: &InferCx,
    def: DefId,
    node: NodeId,
    pattern: NodeId,
    rhs: NodeId,
    fuel: u64,
)
    requires
        fuel > 2,
        crate::def::def_node_spec(env.tables, def) == Some(node),
        written(st, env, node) == Some(NodeKind::ConstBind { pattern: pattern, rhs: rhs }),
    ensures
        ({
            let (less, least) = ((fuel - 1) as u64, (fuel - 2) as u64);
            let after = crate::exprs::infer_global_spec(st, env, def, fuel);
            match written(st, env, rhs) {
                Some(NodeKind::AssocConst { ty, default }) => {
                    let (a, want) = crate::types::ty_from_node_spec(st, env, ty, least);
                    &&& crate::unify::get_type_spec(after, node) == Some(want)
                    &&& match default {
                        Some(d) => {
                            let (b, got) = infer_expr_spec(a, env, d, least);
                            after == crate::unify::set_type_spec(
                                expect_spec(b, env, d, &got, &want, least),
                                node,
                                want,
                            )
                        },
                        None => after == crate::unify::set_type_spec(a, node, want),
                    }
                },
                Some(NodeKind::Lit(Lit::Int(_))) => crate::unify::get_type_spec(after, node) == Some(
                    Ty::ComptimeInt,
                ),
                Some(NodeKind::Lit(Lit::Float(_))) => crate::unify::get_type_spec(after, node) == Some(
                    Ty::ComptimeFloat,
                ),
                Some(NodeKind::Call { .. }) => {
                    let (a, got) = infer_expr_spec(st, env, rhs, less);
                    after == crate::unify::set_type_spec(a, node, got)
                },
                _ => true,
            }
        }),
{
    let less = (fuel - 1) as u64;
    match written(st, env, rhs) {
        Some(NodeKind::AssocConst { ty, default }) => {
            let found = crate::exprs::infer_typed_const_spec(st, env, ty, default, less);
            assert(crate::exprs::infer_global_spec(st, env, def, fuel) == crate::unify::set_type_spec(
                found.0,
                node,
                found.1,
            ));
        },
        Some(NodeKind::Lit(_)) => {
            let found = crate::exprs::comptime_rhs_ty_spec(st, env, rhs, less);
            assert(found.1 is Some ==> crate::exprs::infer_global_spec(st, env, def, fuel)
                == crate::unify::set_type_spec(found.0, node, found.1->0));
        },
        Some(NodeKind::Call { .. }) => {
            assert(crate::exprs::comptime_rhs_ty_spec(st, env, rhs, less) == (st, None::<Ty>));
        },
        _ => {},
    }
}

// Operators on places.

/// A prefix operator asks its trait of its operand. An operand that names no type keeps
/// its own type through it; and where there is no such trait it has its operand's type.
pub proof fn a_prefix_operator_asks_its_own_trait(
    st: InfererV,
    env: &InferCx,
    node: NodeId,
    tag: &'static str,
    oty: Ty,
)
    ensures
        ({
            let (after, ty) = crate::exprs::infer_prefix_op_spec(st, env, node, tag, oty);
            match crate::def::lang_def_spec(env.tables, tag) {
                None => after == st && ty == oty,
                Some(t) => {
                    let (a, out) = crate::unify::fresh_spec(st);
                    let b = match crate::unify::shallow_spec(a, &oty, DEPTH_LIMIT) {
                        Ty::Nominal { .. } => a,
                        _ => crate::unify::unify_spec(a, &out, &oty, DEPTH_LIMIT).0,
                    };
                    let method = crate::symbol::sym_spec(tag);
                    &&& opens(st, a, out)
                    &&& (after, ty) == crate::exprs::project_output_spec(
                        b,
                        node,
                        oty,
                        t,
                        List::Nil,
                        out,
                        method,
                    )
                },
            }
        }),
{
}

/// An element that is written is reached through the write side of indexing, but of a
/// built-in sequence through the side it is read through, which is noted.
pub proof fn a_written_element_is_reached_to_be_written(
    st: InfererV,
    env: &InferCx,
    place: NodeId,
    base: NodeId,
    index: NodeId,
    fuel: u64,
)
    requires
        fuel > 1,
        written(st, env, place) == Some(NodeKind::Index { base: base, index: index }),
    ensures
        ({
            let less = (fuel - 1) as u64;
            let (a, bty) = infer_expr_spec(st, env, base, less);
            let (b, ity) = infer_expr_spec(a, env, index, less);
            let (c, bty) = crate::solve::settle_spec(b, env, &bty, less);
            let head = crate::unify::autoderef_spec(c, &bty, DEPTH_LIMIT);
            let (after, ty) = crate::exprs::infer_index_place_spec(st, env, place, fuel);
            match head {
                Ty::Error => ty == Ty::Error,
                Ty::Array { .. } | Ty::Slice { .. } => {
                    let noted = crate::unify::set_index_write_spec(
                        c,
                        c.file,
                        place,
                        crate::facts::IndexWrite,
                    );
                    let (d, out) = crate::exprs::infer_index_op_spec(noted, env, place, head, ity);
                    (after, ty) == (crate::unify::set_type_spec(d, place, out), out)
                },
                _ => match crate::def::lang_def_spec(env.tables, "index_mut") {
                    None => ty == Ty::Error,
                    Some(t) => {
                        let (d, out) = crate::unify::fresh_spec(c);
                        let method = crate::symbol::sym_spec("index_mut");
                        let args = crate::list::single_spec(ity);
                        let (e, out) = crate::exprs::project_output_spec(d, place, head, t, args, out, method);
                        (after, ty) == (crate::unify::set_type_spec(e, place, out), out)
                    },
                },
            }
        }),
{
}

// Closures.

/// A copy a closure takes has the type of what it copies.
pub proof fn a_copy_has_the_type_of_what_it_copies(
    st: InfererV,
    env: &InferCx,
    c: NodeId,
    rest: List<NodeId>,
    outer: DefId,
    ty: Ty,
)
    requires
        crate::decls::resolved_def_spec(st, env, c) == Some(outer),
        crate::unify::get_local_spec(st, outer) == Some(ty),
    ensures
        ({
            let named = match crate::decls::def_of_spec(st, c) {
                Some(inner) => crate::unify::set_local_spec(st, inner, ty),
                None => st,
            };
            crate::exprs::type_captures_spec(st, env, &List::Cons(c, Box::new(rest)))
                == crate::exprs::type_captures_spec(
                crate::unify::set_type_spec(named, c, ty),
                env,
                &rest,
            )
        }),
{
}

/// A closure's parameter has the type written for it, which what is hinted is held to;
/// else the one hinted at its position; else one of its own. Its name and its node get
/// it.
pub proof fn a_closures_parameter_has_its_type(
    st: InfererV,
    env: &InferCx,
    p: NodeId,
    rest: List<NodeId>,
    i: u64,
    name: Symbol,
    ty: Option<NodeId>,
    default: Option<NodeId>,
    hint: Option<(List<Ty>, Option<Ty>)>,
    fuel: u64,
)
    requires
        fuel > 0,
        written(st, env, p) == Some(NodeKind::Param { name: name, ty: ty, default: default }),
    ensures
        ({
            let less = (fuel - 1) as u64;
            let hinted = match hint {
                Some(h) => if i < h.0@.len() {
                    Some(h.0@[i as int])
                } else {
                    None
                },
                None => None,
            };
            let (a, pty) = match (ty, hinted) {
                (Some(t), Some(h)) => {
                    let (a, t) = crate::types::ty_from_node_spec(st, env, t, less);
                    (expect_spec(a, env, p, &h, &t, less), t)
                },
                (Some(t), None) => crate::types::ty_from_node_spec(st, env, t, less),
                (None, Some(h)) => (st, h),
                (None, None) => crate::unify::fresh_spec(st),
            };
            let named = match crate::decls::def_of_spec(a, p) {
                Some(d) => crate::unify::set_local_spec(a, d, pty),
                None => a,
            };
            let (b, others) = crate::exprs::closure_params_spec(
                crate::unify::set_type_spec(named, p, pty),
                env,
                &rest,
                crate::list::succ_spec(i),
                &hint,
                fuel,
            );
            crate::exprs::closure_params_spec(st, env, &List::Cons(p, Box::new(rest)), i, &hint, fuel) == (
                b,
                List::Cons(pty, Box::new(others)),
            )
        }),
{
    match hint {
        Some(h) => crate::laws::fields::what_stands_at_a_position(h.0, i),
        None => {},
    }
}

/// A closure is of the type minted for it. Its body is held to what it returns, which
/// is what is written, inside no loop of what is around it; and what the body around it
/// returns, and the loops it is in, are as they were.
pub proof fn a_closure_is_typed_on_its_own(
    st: InfererV,
    env: &InferCx,
    node: NodeId,
    captures: List<NodeId>,
    params: List<NodeId>,
    ret: NodeId,
    body: NodeId,
    defs: crate::facts::ClosureDefs,
    fuel: u64,
)
    requires
        fuel > 1,
        written(st, env, node) == Some(
            NodeKind::Closure { captures: captures, params: params, ret: Some(ret), body: body },
        ),
        crate::unify::get_closure_defs_spec(st, st.file, node) == Some(defs),
    ensures
        ({
            let less = (fuel - 1) as u64;
            let a = crate::exprs::type_captures_spec(st, env, &captures);
            let (b, ptys) = crate::exprs::closure_params_spec(a, env, &params, 0, &None, less);
            let (c, rty) = crate::types::ty_from_node_spec(b, env, ret, less);
            let inside = InfererV { ret: rty, breaks: List::Nil, ..c };
            let (d, bty) = infer_expr_spec(inside, env, body, less);
            let e = expect_return_spec(d, env, body, &bty, &rty, less);
            let (after, ty) = crate::exprs::infer_closure_spec(st, env, node, None, fuel);
            let (f, generics) = crate::exprs::closure_generics_spec(
                InfererV { ret: c.ret, breaks: c.breaks, ..e },
                env,
            );
            let shared = match crate::unify::get_captures_spec(f, f.file, node) {
                Some(l) => crate::exprs::shared_types_spec(f, &l),
                None => List::Nil,
            };
            let sig = ClosureSig { params: ptys, ret: rty, generics: generics, shared: shared };
            &&& after == crate::unify::set_closure_sig_spec(f, f.file, node, sig)
            &&& match ty {
                Ty::Nominal { def, args: _ } => def == defs.ty,
                _ => false,
            }
        }),
{
}

} // verus!
