//! Laws of folding, of what is left to default, and of what callable values take.

use vstd::prelude::*;

use crate::ast::{BinOp, NodeKind, UnOp};
use crate::bigint::Int;
use crate::coerce::{expect_return_spec, expect_spec};
use crate::def::DefKind;
use crate::exprs::infer_expr_spec;
use crate::fold::Folded;
use crate::ids::{DefId, FileId, NodeId};
use crate::laws::reading::at;
use crate::laws::typing::{asks, written};
use crate::list::{List, DEPTH_LIMIT};
use crate::subst::Subst;
use crate::symbol::Symbol;
use crate::ty::{ConstValue, FloatWidth, Ty};
use crate::types::const_operand_spec;
use crate::unify::{InferCx, InfererV, Obligation, TyVarKind};

verus! {

// Folding.

/// Comparing numbers says what the numbers say.
pub proof fn a_comparison_says_what_the_numbers_say(op: BinOp, a: Int, b: Int)
    ensures
        ({
            let (x, y) = (a.value(), b.value());
            let truth = match op {
                BinOp::Eq => Some(x == y),
                BinOp::Ne => Some(x != y),
                BinOp::Lt => Some(x < y),
                BinOp::Le => Some(x <= y),
                BinOp::Gt => Some(x > y),
                BinOp::Ge => Some(x >= y),
                _ => None,
            };
            truth matches Some(t) ==> crate::fold::binary_values_spec(
                op,
                &ConstValue::Int(a),
                &ConstValue::Int(b),
            ) == Folded::Value(ConstValue::Bool(t))
        }),
{
}

/// Comparing characters says how they come one after the other.
pub proof fn a_comparison_says_which_character_comes_first(op: BinOp, x: char, y: char)
    ensures
        ({
            let truth = match op {
                BinOp::Eq => Some(x == y),
                BinOp::Ne => Some(x != y),
                BinOp::Lt => Some(x < y),
                BinOp::Le => Some(x <= y),
                BinOp::Gt => Some(x > y),
                BinOp::Ge => Some(x >= y),
                _ => None,
            };
            match truth {
                Some(t) => crate::fold::binary_values_spec(op, &ConstValue::Char(x), &ConstValue::Char(y))
                    == Folded::Value(ConstValue::Bool(t)),
                None => crate::fold::binary_values_spec(op, &ConstValue::Char(x), &ConstValue::Char(y)) is Fail,
            }
        }),
{
}

/// Truths combine as truths do, and are not ordered.
pub proof fn truths_combine(op: BinOp, x: bool, y: bool)
    ensures
        match op {
            BinOp::Eq => crate::fold::binary_values_spec(op, &ConstValue::Bool(x), &ConstValue::Bool(y))
                == Folded::Value(ConstValue::Bool(x == y)),
            BinOp::Ne => crate::fold::binary_values_spec(op, &ConstValue::Bool(x), &ConstValue::Bool(y))
                == Folded::Value(ConstValue::Bool(x != y)),
            BinOp::BitAnd => crate::fold::binary_values_spec(op, &ConstValue::Bool(x), &ConstValue::Bool(y))
                == Folded::Value(ConstValue::Bool(x && y)),
            BinOp::BitOr => crate::fold::binary_values_spec(op, &ConstValue::Bool(x), &ConstValue::Bool(y))
                == Folded::Value(ConstValue::Bool(x || y)),
            BinOp::BitXor => crate::fold::binary_values_spec(op, &ConstValue::Bool(x), &ConstValue::Bool(y))
                == Folded::Value(ConstValue::Bool(x != y)),
            _ => crate::fold::binary_values_spec(op, &ConstValue::Bool(x), &ConstValue::Bool(y)) is Fail,
        },
{
}

/// A quotient and a remainder are those of the numbers.
pub proof fn a_quotient_is_that_of_the_numbers(a: Int, b: Int)
    requires
        b.value() != 0,
    ensures
        match crate::fold::fold_ints_spec(BinOp::Div, &a, &b) {
            Folded::Value(ConstValue::Int(r)) => r.value() == crate::bigint::trunc_div(a.value(), b.value()),
            _ => false,
        },
        match crate::fold::fold_ints_spec(BinOp::Rem, &a, &b) {
            Folded::Value(ConstValue::Int(r)) => r.value() == crate::bigint::trunc_rem(a.value(), b.value()),
            _ => false,
        },
{
    reveal_with_fuel(crate::bigint::digits_value, 3);
    assert(crate::bigint::int_of_spec(0).value() == 0);
    crate::bigint::value_of_int_from_value(crate::bigint::trunc_div(a.value(), b.value()));
    crate::bigint::value_of_int_from_value(crate::bigint::trunc_rem(a.value(), b.value()));
}

/// A sign negates, twice it changes nothing; a `!` of a truth is the other truth.
pub proof fn a_prefix_folds(n: Int, b: bool)
    ensures
        match crate::fold::unary_op_spec(UnOp::Neg, &ConstValue::Int(n)) {
            Folded::Value(ConstValue::Int(m)) => m.value() == -n.value(),
            _ => false,
        },
        crate::fold::unary_op_spec(UnOp::Not, &ConstValue::Bool(b)) == Folded::Value(ConstValue::Bool(!b)),
        crate::fold::unary_op_spec(UnOp::Not, &ConstValue::Int(n)) is Fail,
{
}

/// Inverting every bit of a number gives one less than its negation.
pub proof fn inverting_bits_is_one_less_than_negating(n: Int)
    ensures
        match crate::fold::unary_op_spec(UnOp::BitNot, &ConstValue::Int(n)) {
            Folded::Value(ConstValue::Int(m)) => m.value() == -n.value() - 1,
            _ => false,
        },
{
    reveal_with_fuel(crate::bigint::digits_value, 3);
    reveal_with_fuel(crate::list::list_seq, 3);
    let one = crate::bigint::int_of_spec(1);
    assert(one.digits@ =~= seq![1u32]);
    assert(one.digits@.subrange(1, 1) =~= Seq::<u32>::empty());
    assert(one.value() == 1);
    crate::bigint::value_of_int_from_value(-n.value() - 1);
}

/// A compile-time operand is the value of its literal, what its operator makes of its
/// own operands, the left one first, or what its name stands for. A call is none.
pub proof fn an_operand_is_what_is_written(
    st: InfererV,
    env: &InferCx,
    file: FileId,
    node: NodeId,
    what: &'static str,
    depth: u32,
    fuel: u64,
)
    requires
        fuel > 1,
        depth <= 32,
    ensures
        ({
            let less = (fuel - 1) as u64;
            let deeper = (depth + 1) as u32;
            let r = const_operand_spec(st, env, file, node, what, depth, fuel);
            match at(env, file, node) {
                Some(NodeKind::Lit(lit)) => r == (st, Some(crate::types::lit_value_spec(&lit))),
                Some(NodeKind::AssocConst { ty: _, default: Some(v) }) => r == const_operand_spec(
                    st,
                    env,
                    file,
                    v,
                    what,
                    deeper,
                    less,
                ),
                Some(NodeKind::Unary { op, operand }) => {
                    let (a, v) = const_operand_spec(st, env, file, operand, what, deeper, less);
                    match v {
                        Some(v) => match crate::fold::unary_op_spec(op, &v) {
                            Folded::Value(x) => r == (a, Some(x)),
                            Folded::Fail(_) => r.1 is None,
                        },
                        None => r.1 is None,
                    }
                },
                Some(NodeKind::Binary { op, lhs, rhs }) => r == crate::types::const_binary_spec(
                    st,
                    env,
                    file,
                    node,
                    op,
                    lhs,
                    rhs,
                    what,
                    depth,
                    less,
                ),
                Some(NodeKind::Call { .. }) => r.1 is None,
                _ => true,
            }
        }),
{
}

/// A binary operator folds what its two operands fold to, the left one first.
pub proof fn a_binary_folds_its_operands(
    st: InfererV,
    env: &InferCx,
    file: FileId,
    node: NodeId,
    op: BinOp,
    lhs: NodeId,
    rhs: NodeId,
    what: &'static str,
    depth: u32,
    fuel: u64,
)
    requires
        fuel > 1,
        depth <= 32,
        op != BinOp::And,
        op != BinOp::Or,
    ensures
        ({
            let less = (fuel - 1) as u64;
            let deeper = (depth + 1) as u32;
            let (a, x) = const_operand_spec(st, env, file, lhs, what, deeper, less);
            let (b, y) = const_operand_spec(a, env, file, rhs, what, deeper, less);
            let r = crate::types::const_binary_spec(st, env, file, node, op, lhs, rhs, what, depth, fuel);
            match (x, y) {
                (Some(x), Some(y)) => match crate::fold::binary_values_spec(op, &x, &y) {
                    Folded::Value(v) => r == (b, Some(v)),
                    Folded::Fail(_) => r.1 is None,
                },
                (Some(_), None) => r == (b, None::<ConstValue>),
                (None, _) => r == (a, None::<ConstValue>),
            }
        }),
{
}

/// A connective looks at its right operand only where the left one does not decide: an
/// `and` that is false, or an `or` that is true, is decided.
pub proof fn a_connective_is_decided_by_its_left_operand(
    st: InfererV,
    env: &InferCx,
    file: FileId,
    node: NodeId,
    and: bool,
    lhs: NodeId,
    rhs: NodeId,
    what: &'static str,
    depth: u32,
    fuel: u64,
)
    requires
        fuel > 1,
        depth <= 32,
    ensures
        ({
            let less = (fuel - 1) as u64;
            let deeper = (depth + 1) as u32;
            let op = if and {
                BinOp::And
            } else {
                BinOp::Or
            };
            let (a, x) = crate::types::const_truth_spec(st, env, file, lhs, what, deeper, less);
            let (b, y) = crate::types::const_truth_spec(a, env, file, rhs, what, deeper, less);
            let r = crate::types::const_binary_spec(st, env, file, node, op, lhs, rhs, what, depth, fuel);
            match x {
                None => r == (a, None::<ConstValue>),
                Some(x) => if x != and {
                    r == (a, Some(ConstValue::Bool(x)))
                } else {
                    r == (
                        b,
                        match y {
                            Some(y) => Some(ConstValue::Bool(y)),
                            None => None,
                        },
                    )
                },
            }
        }),
{
}

// Variables.

/// A variable becomes only what its kind admits: an integer literal an integer, a float
/// literal a float, and any other whatever it meets.
pub proof fn a_literal_becomes_only_its_own_kind(st: InfererV, ty: Ty)
    requires
        match ty {
            Ty::Nominal { .. } => false,
            Ty::Error => false,
            _ => true,
        },
    ensures
        crate::unify::admits_spec(st, TyVarKind::General, &ty),
        crate::unify::admits_spec(st, TyVarKind::Int, &ty) == match ty {
            Ty::Int { .. } => true,
            _ => false,
        },
        crate::unify::admits_spec(st, TyVarKind::Float, &ty) == match ty {
            Ty::Float(_) => true,
            _ => false,
        },
{
}

/// A variable is solved to a type exactly where its kind admits it and it does not
/// occur in it, and then to that type.
pub proof fn a_variable_is_solved_where_it_may_be(st: InfererV, v: u32, ty: Ty)
    requires
        match ty {
            Ty::Var(_) => false,
            _ => true,
        },
    ensures
        ({
            let kind = crate::unify::find_kind_spec(&st.kinds, v);
            let may = crate::unify::admits_spec(st, kind, &ty) && !crate::unify::occurs_spec(
                st,
                v,
                &ty,
                DEPTH_LIMIT,
            );
            let (after, r) = crate::unify::solve_var_spec(st, v, &ty);
            &&& r == may
            &&& after == if may {
                InfererV { bindings: List::Cons((v, ty), Box::new(st.bindings)), ..st }
            } else {
                st
            }
        }),
{
}

/// A literal that nothing settles is an `isize`, a double, or a string.
pub proof fn a_literal_defaults_to_its_kinds_type(st: InfererV)
    ensures
        crate::unify::default_of_spec(st, TyVarKind::Float) == Ty::Float(FloatWidth::F64),
        st.ptr_ints matches Some(p) ==> crate::unify::default_of_spec(st, TyVarKind::Int) == p.1,
        st.str_ty matches Some(t) ==> crate::unify::default_of_spec(st, TyVarKind::Str) == t,
        crate::unify::default_of_spec(st, TyVarKind::General) == Ty::Error,
{
}

// Callable values.

/// A function value takes its parameters and returns what it returns; a pointer to a
/// trait object of `Func` what the object pins; nothing else that is no name is called.
pub proof fn a_callable_value_says_what_it_takes(st: InfererV, env: &InferCx, ty: Ty, fuel: u64)
    requires
        fuel > 0,
        match ty {
            Ty::Nominal { .. } => false,
            Ty::Var(_) => false,
            _ => true,
        },
    ensures
        ({
            let (after, r) = crate::solve::func_value_sig_spec(st, env, &ty, fuel);
            &&& after == st
            &&& match ty {
                Ty::Func { params, ret, c: _ } => r == Some((*params, *ret)),
                Ty::Ptr { mutable: _, inner } => match *inner {
                    Ty::Dyn { def, assoc } => if crate::def::lang_def_spec(env.tables, "func") == Some(def) {
                        let args = crate::symbol::sym_spec("Args");
                        let out = crate::symbol::sym_spec("Output");
                        match (
                            r,
                            crate::ty::find_named_spec(&*assoc, &args),
                            crate::ty::find_named_spec(&*assoc, &out),
                        ) {
                            (Some(s), Some(a), Some(o)) => s.0 == crate::subst::tuple_elems_spec(a) && s.1 == *o,
                            (Some(s), Some(a), None) => s.0 == crate::subst::tuple_elems_spec(a) && s.1 == Ty::Void,
                            (Some(s), None, Some(o)) => s.0 == List::<Ty>::Nil && s.1 == *o,
                            (Some(s), None, None) => s.0 == List::<Ty>::Nil && s.1 == Ty::Void,
                            (None, _, _) => false,
                        }
                    } else {
                        r is None
                    },
                    _ => r is None,
                },
                _ => r is None,
            }
        }),
{
    reveal_with_fuel(crate::unify::shallow_spec, 2);
}

/// A closure takes what its signature says, with what it is generic over replaced by
/// the arguments at their positions.
pub proof fn a_closure_takes_what_its_signature_says(
    st: InfererV,
    env: &InferCx,
    def: DefId,
    args: List<Ty>,
    file: FileId,
    node: NodeId,
    sig: crate::facts::ClosureSig,
)
    requires
        crate::def::def_place_spec(env.tables, def) == Some((file, node)),
        crate::unify::get_closure_sig_spec(st, file, node) == Some(sig),
    ensures
        ({
            let map = Subst { tys: crate::subst::zip_subst_spec(&sig.generics, &args), consts: List::Nil };
            crate::solve::closure_value_sig_spec(st, env, def, &args) == Some(
                (
                    crate::subst::subst_tys_spec(&sig.params, &map),
                    crate::subst::subst_ty_spec(&sig.ret, &map),
                ),
            )
        }),
{
}

// Bounds.

/// Every trait that bounds a parameter is asked of its argument, with the arguments the
/// bound wrote, instantiated.
pub proof fn every_bound_is_asked_of_the_argument(
    st: InfererV,
    env: &InferCx,
    t: DefId,
    place: NodeId,
    p: DefId,
    self_ty: Ty,
    map: Subst,
    fuel: u64,
)
    requires
        fuel > 0,
        crate::def::get_def_spec(env.tables, p) is None,
    ensures
        ({
            let (a, written) = crate::types::bound_args_spec(st, env, p, t, (fuel - 1) as u64);
            let after = crate::solve::register_traits_spec(
                st,
                env,
                &List::Cons(t, Box::new(List::Nil)),
                place,
                p,
                &self_ty,
                &map,
                fuel,
            );
            asks(
                a,
                after,
                Obligation::Trait {
                    self_ty: self_ty,
                    trait_def: t,
                    args: crate::subst::subst_tys_spec(&written, &map),
                    origin: place,
                    stamp: None,
                },
            )
        }),
{
    reveal_with_fuel(crate::solve::register_traits_spec, 2);
    let (a, written) = crate::types::bound_args_spec(st, env, p, t, (fuel - 1) as u64);
    crate::laws::typing::an_obligation_comes_last(
        a,
        Obligation::Trait {
            self_ty: self_ty,
            trait_def: t,
            args: crate::subst::subst_tys_spec(&written, &map),
            origin: place,
            stamp: None,
        },
    );
}

/// A parameter that is bounded owes its bounds of what it is bound to; the others owe
/// nothing.
pub proof fn only_what_is_bound_owes_its_bounds(
    st: InfererV,
    env: &InferCx,
    place: NodeId,
    p: DefId,
    rest: List<DefId>,
    map: Subst,
    fuel: u64,
)
    requires
        fuel > 0,
    ensures
        ({
            let less = (fuel - 1) as u64;
            let all = crate::solve::register_bounds_spec(st, env, place, &List::Cons(p, Box::new(rest)), &map, fuel);
            match crate::subst::find_ty_spec(&map.tys, p) {
                Some(t) => if crate::def::def_kind_spec(env.tables, p) == DefKind::TypeParam {
                    let traits = crate::types::param_bound_traits_spec(st, env, p);
                    all == crate::solve::register_bounds_spec(
                        crate::solve::register_traits_spec(st, env, &traits, place, p, t, &map, less),
                        env,
                        place,
                        &rest,
                        &map,
                        fuel,
                    )
                } else {
                    all == crate::solve::register_bounds_spec(st, env, place, &rest, &map, fuel)
                },
                None => all == crate::solve::register_bounds_spec(st, env, place, &rest, &map, fuel),
            }
        }),
{
}

// Literals of fields.

/// A written field is held to the type of the field it names.
pub proof fn a_written_field_is_held_to_the_one_it_names(
    st: InfererV,
    env: &InferCx,
    target: Ty,
    owner: crate::diag::Part,
    f: NodeId,
    name: Symbol,
    value: NodeId,
    rest: List<NodeId>,
    seen: List<Symbol>,
    fuel: u64,
)
    requires
        fuel > 1,
        written(st, env, f) == Some(NodeKind::FieldInit { name: name, value: value }),
        !crate::symbol::sym_in_spec(&seen, &name),
    ensures
        ({
            let less = (fuel - 1) as u64;
            let (a, found) = crate::types::field_ty_at_spec(st, env, Some(f), &target, &name, less);
            let all = crate::solve::check_record_fields_spec(
                st,
                env,
                &target,
                &owner,
                &List::Cons(f, Box::new(rest)),
                seen,
                fuel,
            );
            found matches Some(ft) ==> {
                let (b, vty) = crate::solve::node_ty_spec(a, env, value, less);
                all == crate::solve::check_record_fields_spec(
                    expect_spec(b, env, value, &vty, &ft, less),
                    env,
                    &target,
                    &owner,
                    &rest,
                    crate::list::append_spec(seen, crate::list::single_spec(name)),
                    fuel,
                )
            }
        }),
{
}

/// The type of a node is the one found for it, and is found where none was.
pub proof fn a_nodes_type_is_found_once(st: InfererV, env: &InferCx, node: NodeId, fuel: u64)
    requires
        fuel > 0,
    ensures
        crate::solve::node_ty_spec(st, env, node, fuel) == match crate::unify::get_type_spec(st, node) {
            Some(t) => (st, t),
            None => infer_expr_spec(st, env, node, (fuel - 1) as u64),
        },
{
}

/// A literal that repeats a value holds it to the element type, and its count to a
/// `usize`.
pub proof fn a_repeated_value_is_held_to_the_element(
    st: InfererV,
    env: &InferCx,
    node: NodeId,
    target: Ty,
    value: NodeId,
    count: NodeId,
    elem: Ty,
    index: Ty,
    fuel: u64,
)
    requires
        fuel > 1,
        match crate::unify::autoderef_spec(st, &target, DEPTH_LIMIT) {
            Ty::Slice { mutable: _, inner } => *inner == elem,
            _ => false,
        },
    ensures
        ({
            let less = (fuel - 1) as u64;
            let (a, vty) = crate::solve::node_ty_spec(st, env, value, less);
            let b = expect_spec(a, env, value, &vty, &elem, less);
            let (c, cty) = crate::solve::node_ty_spec(b, env, count, less);
            crate::solve::check_repeat_body_spec(st, env, node, &target, value, count, fuel) == expect_spec(
                c,
                env,
                count,
                &cty,
                &crate::unify::usize_ty_spec(c),
                less,
            )
        }),
{
}

// Bodies.

/// A function's parameters come before its body, which is held to what it declares to
/// return, or to nothing where it declares none; and it is itself recorded with that.
pub proof fn a_body_is_held_to_what_its_function_returns(
    st: InfererV,
    env: &InferCx,
    func: NodeId,
    generics: List<NodeId>,
    params: List<NodeId>,
    body: NodeId,
    abi: Option<Symbol>,
)
    requires
        written(st, env, func) == Some(
            NodeKind::FuncExpr {
                generics: generics,
                params: params,
                ret: None,
                body: Some(body),
                abi: abi,
            },
        ),
    ensures
        ({
            let here = match crate::bodies::func_owner_spec(st, env, func) {
                Some(d) => InfererV { ctx: Some(d), func: Some(func), ..st },
                None => InfererV { func: Some(func), ..st },
            };
            let all = crate::bodies::defs_of_spec(here, &params);
            let a = crate::bodies::infer_params_spec(here, env, &params, &all, None, DEPTH_LIMIT);
            let b = crate::unify::set_type_spec(InfererV { ret: Ty::Void, ..a }, func, Ty::Void);
            let (c, bty) = infer_expr_spec(b, env, body, DEPTH_LIMIT);
            let d = expect_return_spec(c, env, body, &bty, &Ty::Void, DEPTH_LIMIT);
            let e = crate::bodies::stamp_generics_spec(d, env, func);
            crate::bodies::infer_func_spec(st, env, func) == (InfererV { ctx: st.ctx, func: st.func, ..e })
        }),
{
}

/// The locals a closure shares are recorded with their types, in order.
pub proof fn shared_locals_keep_their_types(st: InfererV, l: List<DefId>)
    ensures
        ({
            let tys = crate::exprs::shared_types_spec(st, &l);
            &&& tys@.len() == l@.len()
            &&& forall|i: int|
                0 <= i < l@.len() ==> tys@[i] == match crate::unify::get_local_spec(st, #[trigger] l@[i]) {
                    Some(t) => t,
                    None => Ty::Error,
                }
        }),
    decreases l,
{
    match l {
        List::Nil => {},
        List::Cons(h, t) => {
            shared_locals_keep_their_types(st, *t);
            assert(l@ =~= seq![h] + t@);
            let rest = crate::exprs::shared_types_spec(st, &*t);
            let first = crate::exprs::local_or_error_spec(st, Some(h));
            assert(crate::exprs::shared_types_spec(st, &l)@ =~= seq![first] + rest@);
        },
    }
}

} // verus!
