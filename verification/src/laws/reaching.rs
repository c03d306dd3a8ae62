//! Laws of what a name after a dot reaches, and of what settles once a body is done.

use vstd::prelude::*;

use crate::ast::{Lit, NodeKind};
use crate::exprs::infer_expr_spec;
use crate::facts::Coercion;
use crate::ids::{DefId, FileId, IrId, NodeId};
use crate::ir::{Dispatch, Expr, ExprKind};
use crate::laws::settling::complains_once;
use crate::laws::typing::{an_obligation_comes_last, written};
use crate::list::{List, DEPTH_LIMIT};
use crate::lower::{lower_expr_spec, ty_or_error_spec, LowerCx, LowererV};
use crate::symbol::Symbol;
use crate::ty::{FloatWidth, Ty};
use crate::unify::{find_kind_spec, InferCx, InfererV, Obligation, TyVarKind};

verus! {

// What a dot reaches.

/// Only an array and a slice have a length.
pub proof fn only_sequences_have_a_length(ty: Ty)
    ensures
        crate::subst::has_len_spec(&ty) == match ty {
            Ty::Array { .. } => true,
            Ty::Slice { .. } => true,
            _ => false,
        },
{
}

/// A name after a dot that the resolver linked is what it was linked to; one it failed
/// on is an error that was said already; a member worked out before is what it was.
pub proof fn a_linked_member_is_what_it_was_linked_to(
    st: InfererV,
    env: &InferCx,
    node: NodeId,
    base: NodeId,
    name: Symbol,
    fuel: u64,
)
    requires
        fuel > 1,
    ensures
        ({
            let r = crate::exprs::infer_field_access_spec(st, env, node, base, &name, fuel);
            match crate::unify::get_assoc_ty_spec(st, st.file, node) {
                Some(t) => r == (st, t.0),
                None => match crate::decls::resolved_def_spec(st, env, node) {
                    Some(d) => r == crate::exprs::def_ty_spec(
                        crate::exprs::keep_number_spec(
                            st,
                            node,
                            crate::decls::const_lit_value_spec(st, env, st.file, node, DEPTH_LIMIT),
                        ),
                        env,
                        node,
                        d,
                        (fuel - 1) as u64,
                    ),
                    None => crate::decls::failed_resolution_spec(st, node) ==> r == (st, Ty::Error),
                },
            }
        }),
{
}

/// A name after a dot that nothing linked is a field of the value before it, once that
/// value's type is known; where it is not, the read waits for it.
pub proof fn an_unlinked_member_is_a_field(
    st: InfererV,
    env: &InferCx,
    node: NodeId,
    base: NodeId,
    name: Symbol,
    fuel: u64,
)
    requires
        fuel > 1,
        crate::unify::get_assoc_ty_spec(st, st.file, node) is None,
        crate::decls::resolved_def_spec(st, env, node) is None,
        !crate::decls::failed_resolution_spec(st, node),
        crate::exprs::type_denoted_by_spec(st, env, base, (fuel - 1) as u64).1 is None,
    ensures
        ({
            let less = (fuel - 1) as u64;
            let begun = crate::exprs::type_denoted_by_spec(st, env, base, less).0;
            let (a, bty) = infer_expr_spec(begun, env, base, less);
            let (b, bty) = crate::unify::pin_str_spec(a, &bty);
            let (c, bty) = crate::solve::settle_spec(b, env, &bty, less);
            let (d, found) = crate::types::field_ty_at_spec(c, env, Some(node), &bty, &name, less);
            let (after, ty) = crate::exprs::infer_field_access_spec(st, env, node, base, &name, fuel);
            match found {
                Some(t) => after == d && ty == t,
                None => match crate::unify::shallow_spec(d, &bty, DEPTH_LIMIT) {
                    Ty::Var(_) => {
                        &&& ty == Ty::Var(d.next_var)
                        &&& after.obligations@ == d.obligations@.push(
                            Obligation::Field { recv: bty, name: name, out: ty, origin: node },
                        )
                    },
                    _ => ty == Ty::Error,
                },
            }
        }),
{
    let less = (fuel - 1) as u64;
    let begun = crate::exprs::type_denoted_by_spec(st, env, base, less).0;
    let (a, bty) = infer_expr_spec(begun, env, base, less);
    let (b, bty) = crate::unify::pin_str_spec(a, &bty);
    let (c, bty) = crate::solve::settle_spec(b, env, &bty, less);
    let (d, _) = crate::types::field_ty_at_spec(c, env, Some(node), &bty, &name, less);
    let (e, out) = crate::unify::fresh_spec(d);
    an_obligation_comes_last(e, Obligation::Field { recv: bty, name: name, out: out, origin: node });
}

/// A field that is not there is complained about once, but for a base that is an error
/// or not known, which says nothing more.
pub proof fn a_missing_field_is_complained_about_once(
    st: InfererV,
    env: &InferCx,
    node: NodeId,
    base: Ty,
    name: Symbol,
)
    ensures
        ({
            let (after, ty) = crate::exprs::no_such_field_spec(st, env, node, &base, &name);
            &&& ty == Ty::Error
            &&& match crate::unify::resolve_spec(st, &base, DEPTH_LIMIT) {
                Ty::Error => after == st,
                Ty::Var(_) => after == st,
                _ => complains_once(st, after),
            }
        }),
{
}

/// A call of a function yields what its instantiated signature returns where its
/// arguments do not bind to its parameters.
pub proof fn a_call_that_does_not_bind_still_yields(
    st: InfererV,
    env: &InferCx,
    callee: NodeId,
    def: DefId,
    args: List<NodeId>,
    targs: List<NodeId>,
    fuel: u64,
)
    requires
        fuel > 0,
        crate::calls::declaring_trait_spec(env.tables, def) is None,
    ensures
        ({
            let less = (fuel - 1) as u64;
            let nothing = crate::subst::Subst { tys: List::Nil, consts: List::Nil };
            let (a, sig) = crate::types::func_def_ty_spec(st, env, def, less);
            let (b, parts) = crate::calls::instantiate_parts_spec(a, env, callee, &sig, def, &targs, nothing, less);
            let c = crate::unify::set_type_spec(b, callee, parts.0);
            let (d, binding) = crate::calls::bind_args_spec(c, env, callee, def, &args);
            let r = crate::calls::infer_func_call_spec(st, env, callee, def, &args, &targs, fuel);
            match binding {
                crate::calls::ArgBinding::Bound(slots) => r == crate::calls::finish_func_call_spec(
                    d,
                    env,
                    callee,
                    def,
                    &parts.0,
                    slots,
                    less,
                ),
                crate::calls::ArgBinding::AsWritten => true,
                crate::calls::ArgBinding::Failed => {
                    let e = crate::exprs::infer_exprs_spec(d, env, &args, less).0;
                    r.0 == e && match crate::unify::shallow_spec(e, &parts.0, DEPTH_LIMIT) {
                        Ty::Func { params: _, ret, c: _ } => r.1 == *ret,
                        _ => true,
                    }
                },
            }
        }),
{
}

/// An associated type of a bound is what a trait object pins it to, and of a parameter
/// what the bound minted for it; where there is neither, that is complained about.
pub proof fn a_bound_projects_what_it_pins(
    st: InfererV,
    env: &InferCx,
    self_ty: Ty,
    trait_def: DefId,
    args: List<Ty>,
    assoc: Symbol,
    out: Ty,
    origin: NodeId,
    fuel: u64,
)
    requires
        fuel > 0,
    ensures
        ({
            let less = (fuel - 1) as u64;
            let r = crate::solve::project_bound_spec(
                st,
                env,
                &self_ty,
                trait_def,
                &args,
                &assoc,
                &out,
                origin,
                fuel,
            );
            match crate::unify::shallow_spec(st, &self_ty, DEPTH_LIMIT) {
                Ty::Dyn { def: _, assoc: pins } => match crate::ty::find_named_spec(&*pins, &assoc) {
                    Some(t) => r == (
                        crate::coerce::expect_spec(st, env, origin, t, &out, less),
                        crate::solve::Outcome::Solved,
                    ),
                    None => r.1 == crate::solve::Outcome::Failed,
                },
                Ty::Nominal { def, args: _ } => match crate::def::member_of_spec(env.tables, def, &assoc) {
                    Some(synth) => {
                        let (a, t) = crate::types::param_ty_spec(st, env, synth, less);
                        r == (
                            crate::coerce::expect_spec(a, env, origin, &t, &out, less),
                            crate::solve::Outcome::Solved,
                        )
                    },
                    None => r.1 == crate::solve::Outcome::Failed,
                },
                _ => r.1 == crate::solve::Outcome::Failed,
            }
        }),
{
}

// What settles.

/// A variable that nothing solved becomes the default of its kind; one that only what
/// never ends met never ends; any other is an error that wants an annotation.
pub proof fn an_open_variable_defaults(st: InfererV, v: u32, fuel: u64)
    requires
        fuel > 0,
        crate::unify::find_binding_spec(&st.bindings, v) is None,
    ensures
        ({
            let (after, r) = crate::unify::finalize_spec(st, &Ty::Var(v), fuel);
            let kind = find_kind_spec(&st.kinds, v);
            let never = kind == TyVarKind::General && crate::unify::any_reaches_spec(st, &st.diverged, v);
            &&& r.0 == if never {
                Ty::Never
            } else {
                crate::unify::default_of_spec(st, kind)
            }
            &&& r.1 == (kind == TyVarKind::General && !never)
            &&& after == (InfererV { bindings: List::Cons((v, r.0), Box::new(st.bindings)), ..st })
        }),
{
}

/// A variable that was solved becomes what its solution becomes.
pub proof fn a_solved_variable_becomes_its_solution(st: InfererV, v: u32, t: Ty, fuel: u64)
    requires
        fuel > 0,
        crate::unify::find_binding_spec(&st.bindings, v) == Some(&t),
    ensures
        crate::unify::finalize_spec(st, &Ty::Var(v), fuel) == crate::unify::finalize_spec(
            st,
            &t,
            (fuel - 1) as u64,
        ),
{
}

/// A literal that settled on a number keeps its compile-time type, and is recorded as
/// converted to what it settled on; anything else has what it settled on.
pub proof fn a_settled_literal_is_converted(st: InfererV, env: &InferCx, node: NodeId, resolved: Ty)
    ensures
        ({
            let (after, ty) = crate::bodies::record_comptime_coercion_spec(st, env, node, resolved);
            let converted = InfererV {
                facts: crate::facts::FactsV {
                    coercion: st.facts.coercion.insert(
                        crate::ids::node_key_spec(st.file, node),
                        Coercion { to: resolved },
                    ),
                    ..st.facts
                },
                ..st
            };
            match (written(st, env, node), resolved) {
                (Some(NodeKind::Lit(Lit::Int(_))), Ty::Int { .. }) => after == converted && ty == Ty::ComptimeInt,
                (Some(NodeKind::Lit(Lit::Int(_))), Ty::Float(_)) => after == converted && ty == Ty::ComptimeInt,
                (Some(NodeKind::Lit(Lit::Float(_))), Ty::Float(_)) => after == converted && ty == Ty::ComptimeFloat,
                (Some(NodeKind::Lit(Lit::Int(_))), Ty::Bool) => after == st && ty == resolved,
                (Some(NodeKind::Lit(Lit::Bool(_))), _) => after == st && ty == resolved,
                (Some(NodeKind::Lit(Lit::Char(_))), _) => after == st && ty == resolved,
                (Some(NodeKind::Call { .. }), _) => after == st && ty == resolved,
                _ => true,
            }
        }),
{
}

/// A float that its type cannot hold is complained about, and one that it can is not.
/// Zero is held by all of them, and the double holds every number.
pub proof fn a_float_fits_its_type(st: InfererV, env: &InferCx, node: NodeId, resolved: Ty, bits: u64)
    requires
        crate::unify::get_float_spec(st, node) == Some(bits),
    ensures
        match crate::unify::numeric_repr_spec(st, &resolved) {
            Ty::Float(w) => {
                let after = crate::bodies::check_float_range_spec(st, env, node, &resolved);
                if crate::bodies::float_fits_spec(bits, w) {
                    after == st
                } else {
                    after.diags.len() == st.diags.len() + 1
                }
            },
            _ => crate::bodies::check_float_range_spec(st, env, node, &resolved) == st,
        },
        forall|w: FloatWidth| #[trigger] crate::bodies::float_fits_spec(0, w),
        bits < 0x7ff0_0000_0000_0000 ==> crate::bodies::float_fits_spec(bits, FloatWidth::F64),
        crate::bodies::float_fits_spec(bits, FloatWidth::F16) ==> crate::bodies::float_fits_spec(
            bits,
            FloatWidth::F32,
        ),
        crate::bodies::float_fits_spec(bits, FloatWidth::F32) ==> crate::bodies::float_fits_spec(
            bits,
            FloatWidth::F64,
        ),
{
}

// Lowering calls.

/// A call of an intrinsic keeps its name and its arguments; but the length of what is
/// behind a pointer is the length of what it points at, and a cast of a trait object
/// back to what it was erased from says what that is.
pub proof fn an_intrinsic_keeps_its_arguments(
    st: LowererV,
    cx: &LowerCx,
    node: NodeId,
    tag: Symbol,
    args: List<Expr>,
    ty: Ty,
)
    requires
        !crate::symbol::sym_is_spec(&tag, "len"),
        !crate::symbol::sym_is_spec(&tag, "cast"),
    ensures
        ({
            let (after, e) = crate::lower::lower_intrinsic_spec(st, cx, node, tag, args, ty);
            &&& e.kind == (ExprKind::Intrinsic { name: tag, args: Box::new(args) })
            &&& ty_or_error_spec(after, e.id) == ty
        }),
{
}

/// A field that is not written is read out of what is spread, under its own name.
pub proof fn an_unwritten_field_is_read_out_of_the_spread(
    st: LowererV,
    cx: &LowerCx,
    spread: NodeId,
    def: DefId,
    name: Symbol,
    rest: List<Symbol>,
    given: List<(Symbol, Expr)>,
    fuel: u64,
)
    requires
        fuel > 0,
    ensures
        ({
            let all = crate::lower::fill_from_spread_spec(
                st,
                cx,
                spread,
                def,
                &List::Cons(name, Box::new(rest)),
                &given,
                fuel,
            );
            if crate::lower::has_field_spec(&given, &name) {
                all == crate::lower::fill_from_spread_spec(st, cx, spread, def, &rest, &given, fuel)
            } else {
                let base = lower_expr_spec(st, cx, spread, (fuel - 1) as u64).1;
                match all.1 {
                    List::Cons(first, _) => {
                        &&& first.0 == name
                        &&& first.1.kind == (ExprKind::Field {
                            base: Box::new(base),
                            name: name,
                            def: crate::lower::field_def_spec(cx.tables, def, &name),
                        })
                    },
                    List::Nil => false,
                }
            }
        }),
{
}

/// A call of the method every callable value has calls the value itself, with the
/// arguments it is written with: a function directly, anything else by its type.
pub proof fn a_callable_value_is_called_itself(
    st: LowererV,
    cx: &LowerCx,
    node: NodeId,
    callee: NodeId,
    base: NodeId,
    name: Symbol,
    args: List<NodeId>,
    ty: Ty,
    fuel: u64,
)
    requires
        fuel > 1,
        crate::laws::control::shape(st, cx, callee) == Some(NodeKind::FieldAccess { base: base, name: name }),
    ensures
        ({
            let less = (fuel - 1) as u64;
            let m = crate::facts::FuncCallMethod { deref: false };
            let (a, value) = lower_expr_spec(st, cx, base, less);
            let e = crate::lower::lower_func_call_method_spec(st, cx, node, callee, m, &args, ty, fuel).1;
            match e.kind {
                ExprKind::Call { callee: c, args: _, builtin, dispatch } => {
                    &&& *c == value
                    &&& builtin is None
                    &&& dispatch == match ty_or_error_spec(a, value.id) {
                        Ty::Func { .. } => Dispatch::Static,
                        t => Dispatch::Func { self_ty: t },
                    }
                },
                _ => false,
            }
        }),
{
}

/// A call keeps what its callee's parameters were bound to, but for one that was led to
/// an impl, whose own parameters they are not.
pub proof fn a_call_keeps_what_its_parameters_are(st: LowererV, cx: &LowerCx, head: NodeId, call: IrId)
    ensures
        ({
            let after = crate::lower::carry_instantiation_spec(st, cx, head, call);
            let led = match crate::facts::fact_op_resolution_spec(cx.facts, st.file, head) {
                Some(res) => crate::lower::resolved_def_spec(st, cx, head) != Some(res.method),
                None => false,
            };
            match crate::facts::fact_instantiation_spec(cx.facts, st.file, head) {
                Some(inst) => if led {
                    after == st
                } else {
                    after == crate::lower::set_instantiation_spec(st, call, *inst)
                },
                None => after == st,
            }
        }),
{
}

/// An operator that a written method answers calls that method with its operands, in
/// order; one of the machine's own says which operation it is.
pub proof fn an_operator_calls_the_method_that_answers_it(
    st: LowererV,
    cx: &LowerCx,
    node: NodeId,
    res: crate::facts::OpResolution,
    args: List<Expr>,
    ty: Ty,
)
    ensures
        ({
            let (after, e) = crate::lower::op_call_spec(st, cx, node, res, args, ty);
            match crate::def::intrinsic_of_spec(cx.tables, res.method) {
                Some(tag) => (after, e) == crate::lower::lower_intrinsic_spec(st, cx, node, tag, args, ty),
                None => {
                    &&& ty_or_error_spec(after, e.id) == ty
                    &&& match e.kind {
                        ExprKind::Call { callee, args: given, builtin, dispatch } => {
                            &&& (*callee).kind == ExprKind::Global(res.method)
                            &&& *given == args
                            &&& builtin == res.builtin
                            &&& dispatch == Dispatch::Static
                        },
                        _ => false,
                    }
                },
            }
        }),
{
}

/// What a closure captures is listed for the body it is in, with all that was listed
/// before.
pub proof fn what_a_closure_captures_is_listed(
    cx: &LowerCx,
    file: FileId,
    node: NodeId,
    out: List<DefId>,
    captured: List<DefId>,
    fuel: u64,
)
    requires
        fuel > 0,
        crate::facts::fact_captures_spec(cx.facts, file, node) == Some(&captured),
    ensures
        ({
            let here = crate::lower::merge_defs_spec(out, &captured);
            crate::lower::boxed_in_spec(cx, file, node, out, fuel) == match crate::def::kind_of_spec(
                cx.tables,
                file,
                node,
            ) {
                Some(k) => crate::lower::boxed_among_spec(
                    cx,
                    file,
                    &crate::ast::children_spec(k),
                    here,
                    (fuel - 1) as u64,
                ),
                None => here,
            }
        }),
{
}

} // verus!
