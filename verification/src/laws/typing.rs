//! Laws of typing expressions and statements: which type each has, what each of its
//! parts is held to, and what is left to be settled.

use vstd::prelude::*;

use crate::ast::{BinOp, Lit, NodeKind, UnOp};
use crate::coerce::{bind_pattern_spec, expect_spec};
use crate::exprs::{infer_expr_spec, infer_expr_uncached_spec, infer_stmt_spec};
use crate::ids::{DefId, NodeId};
use crate::list::{List, DEPTH_LIMIT};
use crate::symbol::Symbol;
use crate::ty::Ty;
use crate::types::ty_from_node_spec;
use crate::unify::{InferCx, InfererV, LoopFrame, Obligation, TyVarKind};

verus! {

/// The shape of a node of the file being inferred.
pub open spec fn written(st: InfererV, env: &InferCx, node: NodeId) -> Option<NodeKind> {
    match crate::def::kind_of_spec(env.tables, st.file, node) {
        Some(k) => Some(*k),
        None => None,
    }
}

/// Whether a state is another with one more obligation behind those that were there.
pub open spec fn asks(before: InfererV, after: InfererV, o: Obligation) -> bool {
    &&& after == (InfererV { obligations: after.obligations, ..before })
    &&& after.obligations@ == before.obligations@.push(o)
}

/// An obligation is put behind those already there.
pub proof fn an_obligation_comes_last(st: InfererV, o: Obligation)
    ensures
        asks(st, crate::unify::register_spec(st, o), o),
{
    reveal_with_fuel(crate::list::list_seq, 3);
    crate::laws::generics::appending_keeps_both(st.obligations, crate::list::single_spec(o));
    assert(crate::list::single_spec(o)@ =~= seq![o]);
    assert(st.obligations@ + seq![o] =~= st.obligations@.push(o));
}

/// A variable nothing else uses.
pub open spec fn opens(before: InfererV, after: InfererV, v: Ty) -> bool {
    &&& v == Ty::Var(before.next_var)
    &&& after == (InfererV { next_var: after.next_var, ..before })
    &&& before.next_var < u32::MAX ==> after.next_var == before.next_var + 1
}

// Control flow.

/// The condition of an `if` is held to a truth, and its branches come after it.
pub proof fn an_if_holds_its_condition_to_a_truth(
    st: InfererV,
    env: &InferCx,
    node: NodeId,
    cond: NodeId,
    then: NodeId,
    els: Option<NodeId>,
    fuel: u64,
)
    requires
        written(st, env, node) == Some(NodeKind::If { cond: cond, then: then, els: els }),
        fuel > 1,
    ensures
        ({
            let less = (fuel - 1) as u64;
            let (a, cty) = infer_expr_spec(st, env, cond, less);
            let b = expect_spec(a, env, cond, &cty, &Ty::Bool, less);
            infer_expr_uncached_spec(st, env, node, fuel) == crate::exprs::infer_branches_spec(
                b,
                env,
                then,
                els,
                less,
            )
        }),
{
}

/// An `if match` binds its pattern to the type of its value before its branches.
pub proof fn an_if_match_binds_its_pattern(
    st: InfererV,
    env: &InferCx,
    node: NodeId,
    pattern: NodeId,
    value: NodeId,
    then: NodeId,
    els: Option<NodeId>,
    fuel: u64,
)
    requires
        written(st, env, node) == Some(
            NodeKind::IfMatch { pattern: pattern, value: value, then: then, els: els },
        ),
        fuel > 1,
    ensures
        ({
            let less = (fuel - 1) as u64;
            let (a, vty) = infer_expr_spec(st, env, value, less);
            let b = bind_pattern_spec(a, env, pattern, &vty, less);
            infer_expr_uncached_spec(st, env, node, fuel) == crate::exprs::infer_branches_spec(
                b,
                env,
                then,
                els,
                less,
            )
        }),
{
}

/// With an `else`, two branches come to the first one's type, which the second is held
/// to; without one, the branch is held to nothing, which is what is yielded.
pub proof fn branches_come_to_one_type(
    st: InfererV,
    env: &InferCx,
    then: NodeId,
    els: Option<NodeId>,
    fuel: u64,
)
    requires
        fuel > 1,
    ensures
        ({
            let less = (fuel - 1) as u64;
            let (c, then_ty) = infer_expr_spec(st, env, then, less);
            let r = crate::exprs::infer_branches_spec(st, env, then, els, fuel);
            match els {
                None => r == (expect_spec(c, env, then, &then_ty, &Ty::Void, less), Ty::Void),
                Some(e) => {
                    let (d, else_ty) = infer_expr_spec(c, env, e, less);
                    crate::unify::shallow_spec(d, &then_ty, DEPTH_LIMIT) != Ty::Never
                        && crate::unify::shallow_spec(d, &else_ty, DEPTH_LIMIT) != Ty::Never ==> r == (
                        expect_spec(d, env, e, &else_ty, &then_ty, (fuel - 2) as u64),
                        then_ty,
                    )
                },
            }
        }),
{
}

/// The condition of a `while` is held to a truth; its body comes after it, inside a
/// loop whose breaks carry nothing, and out of which it comes again.
pub proof fn a_while_types_its_parts(
    st: InfererV,
    env: &InferCx,
    node: NodeId,
    cond: NodeId,
    body: NodeId,
    fuel: u64,
)
    requires
        written(st, env, node) == Some(NodeKind::While { cond: cond, body: body }),
        fuel > 2,
    ensures
        ({
            let (less, least) = ((fuel - 1) as u64, (fuel - 2) as u64);
            let (a, cty) = infer_expr_spec(st, env, cond, less);
            let b = expect_spec(a, env, cond, &cty, &Ty::Bool, less);
            let inside = InfererV {
                breaks: List::Cons(LoopFrame { ty: Ty::Void, broke: false }, Box::new(b.breaks)),
                ..b
            };
            let ran = infer_expr_spec(inside, env, body, least).0;
            infer_expr_uncached_spec(st, env, node, fuel) == (
                match ran.breaks {
                    List::Cons(_, around) => InfererV { breaks: *around, ..ran },
                    List::Nil => ran,
                },
                Ty::Void,
            )
        }),
{
}

/// A `loop` runs its body inside a loop whose breaks carry a type of its own. It
/// yields that type where some `break` left it, and never ends where none did.
pub proof fn a_loop_yields_what_its_breaks_carry(
    st: InfererV,
    env: &InferCx,
    node: NodeId,
    body: NodeId,
    fuel: u64,
)
    requires
        written(st, env, node) == Some(NodeKind::Loop { body: body }),
        fuel > 2,
    ensures
        ({
            let (b, carried) = crate::unify::fresh_spec(st);
            let inside = InfererV {
                breaks: List::Cons(LoopFrame { ty: carried, broke: false }, Box::new(b.breaks)),
                ..b
            };
            let ran = infer_expr_spec(inside, env, body, (fuel - 2) as u64).0;
            let (after, ty) = infer_expr_uncached_spec(st, env, node, fuel);
            &&& opens(st, b, carried)
            &&& match ran.breaks {
                List::Cons(f, around) => {
                    &&& after == (InfererV { breaks: *around, ..ran })
                    &&& ty == if f.broke { carried } else { Ty::Never }
                },
                List::Nil => after == ran && ty == Ty::Never,
            }
        }),
{
}

/// A match has the type of its first arm: the pattern is bound to the type of what is
/// matched, the guard is held to a truth, and the body gives the type.
pub proof fn a_first_arm_decides(
    st: InfererV,
    env: &InferCx,
    arm: NodeId,
    pattern: NodeId,
    guard: Option<NodeId>,
    body: NodeId,
    sty: Ty,
    so_far: Option<Ty>,
    fuel: u64,
)
    requires
        written(st, env, arm) == Some(NodeKind::MatchArm { pattern: pattern, guard: guard, body: body }),
        fuel > 1,
    ensures
        ({
            let less = (fuel - 1) as u64;
            let a = bind_pattern_spec(st, env, pattern, &sty, less);
            let b = match guard {
                Some(g) => {
                    let (b, gty) = infer_expr_spec(a, env, g, less);
                    expect_spec(b, env, g, &gty, &Ty::Bool, less)
                },
                None => a,
            };
            let (c, bty) = infer_expr_spec(b, env, body, less);
            let r = crate::exprs::infer_arm_spec(st, env, arm, &sty, so_far, fuel);
            match so_far {
                None => r == (c, Some(bty)),
                Some(t) => crate::unify::shallow_spec(c, &t, DEPTH_LIMIT) != Ty::Never
                    && crate::unify::shallow_spec(c, &bty, DEPTH_LIMIT) != Ty::Never ==> r == (
                    expect_spec(c, env, body, &bty, &t, (fuel - 2) as u64),
                    Some(t),
                ),
            }
        }),
{
}

/// The arms of a match are typed in order, each against what the ones before it came
/// to, and none is left out.
pub proof fn arms_are_typed_in_order(
    st: InfererV,
    env: &InferCx,
    arm: NodeId,
    rest: List<NodeId>,
    sty: Ty,
    so_far: Option<Ty>,
    fuel: u64,
)
    requires
        fuel > 0,
    ensures
        ({
            let (mid, next) = crate::exprs::infer_arm_spec(st, env, arm, &sty, so_far, (fuel - 1) as u64);
            &&& crate::exprs::infer_arms_spec(st, env, &List::Cons(arm, Box::new(rest)), &sty, so_far, fuel)
                == crate::exprs::infer_arms_spec(mid, env, &rest, &sty, next, fuel)
            &&& crate::exprs::infer_arms_spec(st, env, &List::Nil, &sty, so_far, fuel) == (st, so_far)
        }),
{
}

/// What is matched is typed first, and its type is what every arm is matched with.
pub proof fn a_match_types_what_it_matches(
    st: InfererV,
    env: &InferCx,
    node: NodeId,
    scrutinee: NodeId,
    arms: List<NodeId>,
    fuel: u64,
)
    requires
        written(st, env, node) == Some(NodeKind::MatchExpr { scrutinee: scrutinee, arms: arms }),
        fuel > 1,
    ensures
        ({
            let less = (fuel - 1) as u64;
            let (a, sty) = infer_expr_spec(st, env, scrutinee, less);
            let (b, joined) = crate::exprs::infer_arms_spec(a, env, &arms, &sty, None, less);
            match joined {
                Some(t) => infer_expr_uncached_spec(st, env, node, fuel) == (b, t),
                None => opens(
                    b,
                    infer_expr_uncached_spec(st, env, node, fuel).0,
                    infer_expr_uncached_spec(st, env, node, fuel).1,
                ),
            }
        }),
{
}

// Values.

/// The types of some expressions, each typed where the ones before it left off.
pub proof fn expressions_are_typed_in_order(
    st: InfererV,
    env: &InferCx,
    first: NodeId,
    rest: List<NodeId>,
    fuel: u64,
)
    requires
        fuel > 0,
    ensures
        ({
            let (mid, t) = infer_expr_spec(st, env, first, (fuel - 1) as u64);
            let others = crate::exprs::infer_exprs_spec(mid, env, &rest, fuel);
            &&& crate::exprs::infer_exprs_spec(st, env, &List::Cons(first, Box::new(rest)), fuel) == (
                others.0,
                List::Cons(t, Box::new(others.1)),
            )
            &&& crate::exprs::infer_exprs_spec(st, env, &List::Nil, fuel) == (st, List::<Ty>::Nil)
        }),
{
}

/// A tuple has the types of its elements, and the empty one is nothing.
pub proof fn a_tuple_has_the_types_of_its_elements(
    st: InfererV,
    env: &InferCx,
    node: NodeId,
    elems: List<NodeId>,
    fuel: u64,
)
    requires
        written(st, env, node) == Some(NodeKind::Tuple { elems: elems }),
        fuel > 1,
    ensures
        ({
            let (mid, tys) = crate::exprs::infer_exprs_spec(st, env, &elems, (fuel - 1) as u64);
            infer_expr_uncached_spec(st, env, node, fuel) == match elems {
                List::Nil => (st, Ty::Void),
                List::Cons(_, _) => (mid, Ty::Tuple(Box::new(tys))),
            }
        }),
{
}

/// A number is kept as it was written, and a literal has the type of its kind.
pub proof fn a_literal_is_kept_as_it_was_written(
    st: InfererV,
    env: &InferCx,
    node: NodeId,
    lit: Lit,
    fuel: u64,
)
    requires
        written(st, env, node) == Some(NodeKind::Lit(lit)),
        fuel > 0,
    ensures
        ({
            let kept = match lit {
                Lit::Int(n) => InfererV { int_values: st.int_values.insert(node.0 as u64, n), ..st },
                Lit::Float(b) => InfererV { float_values: st.float_values.insert(node.0 as u64, b), ..st },
                _ => st,
            };
            infer_expr_uncached_spec(st, env, node, fuel) == crate::exprs::lit_ty_spec(kept, env, &lit)
        }),
{
}

/// A literal is of its own type. A number or a string is open until something settles
/// it, and may become nothing else than its kind.
pub proof fn a_literal_has_its_own_type(st: InfererV, env: &InferCx, lit: Lit)
    ensures
        ({
            let (after, ty) = crate::exprs::lit_ty_spec(st, env, &lit);
            let open = ty == Ty::Var(st.next_var);
            let kind = match lit {
                Lit::Int(_) => Some(TyVarKind::Int),
                Lit::Float(_) => Some(TyVarKind::Float),
                Lit::Str(_) => Some(TyVarKind::Str),
                _ => None,
            };
            match lit {
                Lit::Bytes(_) => after == st && match ty {
                    Ty::Slice { mutable, inner } => !mutable && crate::subst::int_parts_spec(&*inner) == Some(
                        (false, 8u64),
                    ),
                    _ => false,
                },
                Lit::Char(_) => after == st && ty == Ty::Char,
                Lit::Bool(_) => after == st && ty == Ty::Bool,
                Lit::Str(_) => if crate::def::lang_item_spec(env.tables, "str") is Some {
                    open && after.kinds == List::Cons((st.next_var, TyVarKind::Str), Box::new(st.kinds))
                } else {
                    after == st && ty == Ty::Error
                },
                _ => match kind {
                    Some(k) => open && after.kinds == List::Cons((st.next_var, k), Box::new(st.kinds)),
                    None => false,
                },
            }
        }),
{
}

/// A name of a local or a parameter has the type that was found for it.
pub proof fn a_local_has_the_type_it_was_given(
    st: InfererV,
    env: &InferCx,
    node: NodeId,
    def: DefId,
    ty: Ty,
    fuel: u64,
)
    requires
        crate::unify::get_local_spec(st, def) == Some(ty),
        crate::decls::resolved_def_spec(st, env, node) == Some(def),
        fuel > 1,
    ensures
        crate::exprs::path_ty_spec(st, env, node, fuel) == (st, ty),
{
}

/// What is read through a pointer is what it points at: the base is held to a pointer
/// to it.
pub proof fn a_read_has_the_type_of_what_is_pointed_at(
    st: InfererV,
    env: &InferCx,
    node: NodeId,
    base: NodeId,
    fuel: u64,
)
    requires
        written(st, env, node) == Some(NodeKind::Deref { base: base }),
        fuel > 1,
    ensures
        ({
            let less = (fuel - 1) as u64;
            let (a, bty) = infer_expr_spec(st, env, base, less);
            let (b, inner) = crate::unify::fresh_spec(a);
            let pointer = Ty::Ptr { mutable: false, inner: Box::new(inner) };
            let c = expect_spec(b, env, base, &bty, &pointer, less);
            let (after, ty) = infer_expr_uncached_spec(st, env, node, fuel);
            &&& opens(a, b, inner)
            &&& ty == inner
            &&& if crate::unify::shallow_spec(c, &inner, DEPTH_LIMIT) == Ty::Opaque {
                after.diags.len() == c.diags.len() + 1
            } else {
                after == c
            }
        }),
{
}

/// Both bounds of a range are held to one type, and the range is of that type.
pub proof fn a_range_is_of_its_bounds(
    st: InfererV,
    env: &InferCx,
    node: NodeId,
    start: NodeId,
    end: NodeId,
    kind: crate::ast::RangeKind,
    def: DefId,
    fuel: u64,
)
    requires
        written(st, env, node) == Some(NodeKind::Range { start: Some(start), end: Some(end), kind: kind }),
        crate::def::lang_def_spec(env.tables, "range") == Some(def),
        fuel > 2,
    ensures
        ({
            let least = (fuel - 2) as u64;
            let (a, elem) = crate::unify::fresh_spec(st);
            let (b, s) = infer_expr_spec(a, env, start, least);
            let c = expect_spec(b, env, start, &s, &elem, least);
            let (d, e) = infer_expr_spec(c, env, end, least);
            let (after, ty) = infer_expr_uncached_spec(st, env, node, fuel);
            &&& opens(st, a, elem)
            &&& after == expect_spec(d, env, end, &e, &elem, least)
            &&& match ty {
                Ty::Nominal { def: d, args } => d == def && args@ =~= seq![elem],
                _ => false,
            }
        }),
{
    reveal_with_fuel(crate::list::list_seq, 3);
}

/// Applying a generic to arguments types what it is applied to; an argument and a
/// field of a literal have the types of their values.
pub proof fn a_wrapped_value_has_its_own_type(
    st: InfererV,
    env: &InferCx,
    node: NodeId,
    value: NodeId,
    fuel: u64,
)
    requires
        match written(st, env, node) {
            Some(NodeKind::Arg { name: _, value: v }) => v == value,
            Some(NodeKind::FieldInit { name: _, value: v }) => v == value,
            _ => false,
        },
        fuel > 1,
    ensures
        infer_expr_uncached_spec(st, env, node, fuel) == infer_expr_spec(st, env, value, (fuel - 1) as u64),
{
}

/// A literal written with its type has that type; one without has a type of its own,
/// which its body is held to once it is known.
pub proof fn a_composite_has_the_type_it_is_written_with(
    st: InfererV,
    env: &InferCx,
    node: NodeId,
    ty: Option<NodeId>,
    body: crate::ast::CompositeBody,
    fuel: u64,
)
    requires
        written(st, env, node) == Some(NodeKind::CompositeLit { ty: ty, body: body }),
        fuel > 1,
    ensures
        ({
            let less = (fuel - 1) as u64;
            let a = crate::exprs::infer_composite_elems_spec(st, env, &body, less);
            let (after, found) = infer_expr_uncached_spec(st, env, node, fuel);
            match ty {
                Some(t) => found == ty_from_node_spec(a, env, t, less).1,
                None => {
                    &&& found == Ty::Var(a.next_var)
                    &&& after.obligations@ == a.obligations@.push(
                        Obligation::CompositeBody { recv: found, origin: node },
                    )
                },
            }
        }),
{
    let a = crate::exprs::infer_composite_elems_spec(st, env, &body, (fuel - 1) as u64);
    let (b, recv) = crate::unify::fresh_spec(a);
    an_obligation_comes_last(b, Obligation::CompositeBody { recv: recv, origin: node });
}

/// A variant literal is of a type that is not known yet, and what it was written with
/// is kept to be held to the variant's payload once it is.
pub proof fn a_variant_literal_waits_for_its_enum(
    st: InfererV,
    env: &InferCx,
    node: NodeId,
    name: Symbol,
    args: crate::ast::VariantArgs,
    fuel: u64,
)
    requires
        written(st, env, node) == Some(NodeKind::VariantLit { name: name, args: args }),
        fuel > 1,
    ensures
        ({
            let (a, tys) = crate::exprs::variant_lit_arg_tys_spec(st, env, &args, (fuel - 1) as u64);
            let (after, found) = infer_expr_uncached_spec(st, env, node, fuel);
            &&& found == Ty::Var(a.next_var)
            &&& after.obligations@ == a.obligations@.push(
                Obligation::VariantPayload { recv: found, variant: name, args: tys, origin: node },
            )
        }),
{
    let (a, tys) = crate::exprs::variant_lit_arg_tys_spec(st, env, &args, (fuel - 1) as u64);
    let (b, recv) = crate::unify::fresh_spec(a);
    an_obligation_comes_last(
        b,
        Obligation::VariantPayload { recv: recv, variant: name, args: tys, origin: node },
    );
}

/// Each argument of a record variant is kept under the name it was written with, in
/// order.
pub proof fn named_arguments_keep_their_names(
    st: InfererV,
    env: &InferCx,
    f: NodeId,
    name: Symbol,
    value: NodeId,
    rest: List<NodeId>,
    fuel: u64,
)
    requires
        written(st, env, f) == Some(NodeKind::FieldInit { name: name, value: value }),
        fuel > 0,
    ensures
        ({
            let (mid, t) = infer_expr_spec(st, env, value, (fuel - 1) as u64);
            let others = crate::exprs::record_arg_tys_spec(mid, env, &rest, fuel);
            crate::exprs::record_arg_tys_spec(st, env, &List::Cons(f, Box::new(rest)), fuel) == (
                others.0,
                List::Cons((Some(name), t), Box::new(others.1)),
            )
        }),
{
}

// Operators.

/// What an operator's trait is asked: that the left operand has an output for the
/// right ones, which is the type of the expression.
pub open spec fn asks_operator(
    before: InfererV,
    after: InfererV,
    node: NodeId,
    trait_def: DefId,
    method: Symbol,
    on: Ty,
    args: Seq<Ty>,
    out: Ty,
) -> bool {
    exists|l: List<Ty>|
        {
            &&& l@ == args
            &&& #[trigger] asks(
                before,
                after,
                Obligation::Projection {
                    self_ty: on,
                    trait_def: trait_def,
                    args: l,
                    assoc: crate::symbol::sym_spec("Output"),
                    out: out,
                    origin: node,
                    method: Some(method),
                },
            )
        }
}

proof fn an_operator_is_asked(
    st: InfererV,
    node: NodeId,
    on: Ty,
    trait_def: DefId,
    args: List<Ty>,
    out: Ty,
    method: Symbol,
)
    ensures
        ({
            let r = crate::exprs::project_output_spec(st, node, on, trait_def, args, out, method);
            r.1 == out && asks_operator(st, r.0, node, trait_def, method, on, args@, out)
        }),
{
    an_obligation_comes_last(
        st,
        Obligation::Projection {
            self_ty: on,
            trait_def: trait_def,
            args: args,
            assoc: crate::symbol::sym_spec("Output"),
            out: out,
            origin: node,
            method: Some(method),
        },
    );
}

/// The tag of the trait of each arithmetic operator.
pub open spec fn tag_of(op: BinOp) -> &'static str {
    match op {
        BinOp::Add => "add",
        BinOp::Sub => "sub",
        BinOp::Mul => "mul",
        BinOp::Div => "div",
        BinOp::Rem => "rem",
        BinOp::BitAnd => "bitand",
        BinOp::BitOr => "bitor",
        BinOp::BitXor => "bitxor",
        BinOp::Shl => "shl",
        BinOp::Shr => "shr",
        _ => "",
    }
}

/// Arithmetic asks the operator's own trait, of the left operand and with the right
/// one. Of operands that name no type the right one is first held to the left one's
/// type, which is also the result's.
pub proof fn arithmetic_asks_its_own_trait(
    st: InfererV,
    env: &InferCx,
    node: NodeId,
    op: BinOp,
    lty: Ty,
    rty: Ty,
    trait_def: DefId,
    fuel: u64,
)
    requires
        crate::def::lang_def_spec(env.tables, tag_of(op)) == Some(trait_def),
        fuel > 0,
    ensures
        ({
            let less = (fuel - 1) as u64;
            let (a, out) = crate::unify::fresh_spec(st);
            let (after, ty) = crate::exprs::infer_arith_op_spec(st, env, node, op, lty, rty, fuel);
            let method = crate::symbol::sym_spec(tag_of(op));
            &&& ty == out
            &&& opens(st, a, out)
            &&& match crate::unify::shallow_spec(a, &lty, DEPTH_LIMIT) {
                Ty::Nominal { .. } => true,
                _ => {
                    let b = expect_spec(a, env, node, &rty, &lty, less);
                    let c = crate::unify::unify_spec(b, &out, &lty, less).0;
                    asks_operator(c, after, node, trait_def, method, lty, seq![rty], out)
                },
            }
        }),
{
    reveal_with_fuel(crate::list::list_seq, 3);
    let less = (fuel - 1) as u64;
    let (a, out) = crate::unify::fresh_spec(st);
    let b = expect_spec(a, env, node, &rty, &lty, less);
    let c = crate::unify::unify_spec(b, &out, &lty, less).0;
    let method = crate::symbol::sym_spec(tag_of(op));
    an_operator_is_asked(c, node, lty, trait_def, crate::list::single_spec(rty), out, method);
    assert(crate::list::single_spec(rty)@ =~= seq![rty]);
}

/// A connective holds both of its operands to truths, the left one first.
pub proof fn a_connective_is_of_truths(
    st: InfererV,
    env: &InferCx,
    node: NodeId,
    op: BinOp,
    lhs: NodeId,
    rhs: NodeId,
    fuel: u64,
)
    requires
        op == BinOp::And || op == BinOp::Or,
        fuel > 1,
    ensures
        ({
            let less = (fuel - 1) as u64;
            let (a, lty) = infer_expr_spec(st, env, lhs, less);
            let (b, rty) = infer_expr_spec(a, env, rhs, less);
            let (c, lty) = crate::unify::pin_str_spec(b, &lty);
            let (d, rty) = crate::unify::pin_str_spec(c, &rty);
            let e = expect_spec(d, env, lhs, &lty, &Ty::Bool, less);
            crate::exprs::infer_binary_spec(st, env, node, op, lhs, rhs, fuel) == (
                expect_spec(e, env, rhs, &rty, &Ty::Bool, less),
                Ty::Bool,
            )
        }),
{
}

/// The operand of a `!` is held to a truth.
pub proof fn a_negation_is_of_a_truth(st: InfererV, env: &InferCx, node: NodeId, operand: NodeId, fuel: u64)
    requires
        fuel > 1,
    ensures
        ({
            let less = (fuel - 1) as u64;
            let (a, ty) = infer_expr_spec(st, env, operand, less);
            crate::exprs::infer_unary_spec(st, env, node, UnOp::Not, operand, fuel) == (
                expect_spec(a, env, operand, &ty, &Ty::Bool, less),
                Ty::Bool,
            )
        }),
{
}

/// The number behind the operand of a minus sign is kept with its sign.
pub proof fn a_sign_is_part_of_its_number(
    st: InfererV,
    env: &InferCx,
    node: NodeId,
    operand: NodeId,
    fuel: u64,
)
    requires
        fuel > 1,
        crate::def::lang_def_spec(env.tables, "neg") is None,
    ensures
        ({
            let (a, ty) = infer_expr_spec(st, env, operand, (fuel - 1) as u64);
            let (after, found) = crate::exprs::infer_unary_spec(st, env, node, UnOp::Neg, operand, fuel);
            &&& found == ty
            &&& match crate::unify::get_int_spec(a, operand) {
                Some(n) => match crate::unify::get_int_spec(after, operand) {
                    Some(m) => m.value() == -n.value(),
                    None => false,
                },
                None => crate::unify::get_int_spec(after, operand) is None,
            }
        }),
{
}

/// An index asks the index trait of what is indexed, with what it is indexed by.
pub proof fn an_index_asks_the_index_trait(
    st: InfererV,
    env: &InferCx,
    node: NodeId,
    base: Ty,
    index: Ty,
    trait_def: DefId,
)
    requires
        base != Ty::Error,
        crate::def::lang_def_spec(env.tables, "index") == Some(trait_def),
    ensures
        ({
            let (a, out) = crate::unify::fresh_spec(st);
            let (after, ty) = crate::exprs::infer_index_op_spec(st, env, node, base, index);
            let method = crate::symbol::sym_spec("index");
            &&& ty == out
            &&& opens(st, a, out)
            &&& asks_operator(a, after, node, trait_def, method, base, seq![index], out)
        }),
{
    reveal_with_fuel(crate::list::list_seq, 3);
    let (a, out) = crate::unify::fresh_spec(st);
    an_operator_is_asked(
        a,
        node,
        base,
        trait_def,
        crate::list::single_spec(index),
        out,
        crate::symbol::sym_spec("index"),
    );
    assert(crate::list::single_spec(index)@ =~= seq![index]);
}

/// An index types what is indexed and what it is indexed by, in that order, and looks
/// through pointers to what is indexed.
pub proof fn an_index_types_its_parts(
    st: InfererV,
    env: &InferCx,
    node: NodeId,
    base: NodeId,
    index: NodeId,
    fuel: u64,
)
    requires
        written(st, env, node) == Some(NodeKind::Index { base: base, index: index }),
        fuel > 1,
    ensures
        ({
            let less = (fuel - 1) as u64;
            let (a, bty) = infer_expr_spec(st, env, base, less);
            let (b, bty) = crate::unify::pin_str_spec(a, &bty);
            let (c, ity) = infer_expr_spec(b, env, index, less);
            let head = crate::unify::autoderef_spec(c, &bty, DEPTH_LIMIT);
            infer_expr_uncached_spec(st, env, node, fuel) == crate::exprs::infer_index_op_spec(
                c,
                env,
                node,
                head,
                ity,
            )
        }),
{
}

// Statements.

/// Statements are typed in order, and none is left out.
pub proof fn statements_are_typed_in_order(
    st: InfererV,
    env: &InferCx,
    first: NodeId,
    rest: List<NodeId>,
    fuel: u64,
)
    requires
        fuel > 0,
    ensures
        crate::exprs::infer_stmts_spec(st, env, &List::Cons(first, Box::new(rest)), fuel)
            == crate::exprs::infer_stmts_spec(
            infer_stmt_spec(st, env, first, (fuel - 1) as u64),
            env,
            &rest,
            fuel,
        ),
        crate::exprs::infer_stmts_spec(st, env, &List::Nil, fuel) == st,
{
}

/// A local with an annotation has the annotation's type: its value is held to it, and
/// its pattern is bound to it.
pub proof fn an_annotated_local_has_its_annotation(
    st: InfererV,
    env: &InferCx,
    node: NodeId,
    pattern: NodeId,
    ty: NodeId,
    value: NodeId,
    fuel: u64,
)
    requires
        written(st, env, node) == Some(
            NodeKind::LocalDecl { pattern: pattern, ty: Some(ty), value: value },
        ),
        fuel > 2,
    ensures
        ({
            let least = (fuel - 2) as u64;
            let (a, vty) = infer_expr_spec(st, env, value, least);
            let (b, want) = ty_from_node_spec(a, env, ty, least);
            let c = expect_spec(b, env, value, &vty, &want, least);
            infer_stmt_spec(st, env, node, fuel) == bind_pattern_spec(c, env, pattern, &want, least)
        }),
{
}

/// A local without one has the type of its value.
pub proof fn a_local_has_the_type_of_its_value(
    st: InfererV,
    env: &InferCx,
    node: NodeId,
    pattern: NodeId,
    value: NodeId,
    fuel: u64,
)
    requires
        written(st, env, node) == Some(NodeKind::LocalDecl { pattern: pattern, ty: None, value: value }),
        fuel > 2,
    ensures
        ({
            let least = (fuel - 2) as u64;
            let (a, vty) = infer_expr_spec(st, env, value, least);
            match crate::unify::shallow_spec(a, &vty, DEPTH_LIMIT) {
                Ty::Var(_) => true,
                _ => infer_stmt_spec(st, env, node, fuel) == bind_pattern_spec(a, env, pattern, &vty, least),
            }
        }),
{
}

/// A constant written in a body has the type it is written with, which its value is
/// held to, and else that of its value.
pub proof fn a_local_constant_has_its_type(
    st: InfererV,
    env: &InferCx,
    node: NodeId,
    pattern: NodeId,
    rhs: NodeId,
    fuel: u64,
)
    requires
        written(st, env, node) == Some(NodeKind::ConstBind { pattern: pattern, rhs: rhs }),
        fuel > 3,
    ensures
        ({
            let least = (fuel - 2) as u64;
            let last = (fuel - 3) as u64;
            let after = infer_stmt_spec(st, env, node, fuel);
            match written(st, env, rhs) {
                Some(NodeKind::AssocConst { ty, default: Some(d) }) => {
                    let (a, want) = ty_from_node_spec(st, env, ty, last);
                    let (b, got) = infer_expr_spec(a, env, d, last);
                    after == bind_pattern_spec(
                        expect_spec(b, env, d, &got, &want, last),
                        env,
                        pattern,
                        &want,
                        least,
                    )
                },
                Some(NodeKind::AssocConst { ty, default: None }) => {
                    let (a, want) = ty_from_node_spec(st, env, ty, last);
                    after == bind_pattern_spec(a, env, pattern, &want, least)
                },
                _ => {
                    let (a, got) = infer_expr_spec(st, env, rhs, least);
                    after == bind_pattern_spec(a, env, pattern, &got, least)
                },
            }
        }),
{
}

/// The value of an assignment is held to the type of the place, never the place to the
/// value's.
pub proof fn an_assigned_value_is_held_to_its_place(
    st: InfererV,
    env: &InferCx,
    node: NodeId,
    place: NodeId,
    value: NodeId,
    fuel: u64,
)
    requires
        written(st, env, node) == Some(NodeKind::Assign { place: place, value: value }),
        match written(st, env, place) {
            Some(NodeKind::Index { .. }) => false,
            _ => true,
        },
        fuel > 3,
    ensures
        ({
            let least = (fuel - 2) as u64;
            let (a, pty) = infer_expr_spec(st, env, place, (fuel - 3) as u64);
            let (b, vty) = infer_expr_spec(a, env, value, least);
            infer_stmt_spec(st, env, node, fuel) == expect_spec(b, env, value, &vty, &pty, least)
        }),
{
}

/// A returned value is held to what the function returns, and a `return` without one
/// returns nothing.
pub proof fn a_returned_value_is_held_to_the_return_type(
    st: InfererV,
    env: &InferCx,
    node: NodeId,
    value: Option<NodeId>,
    fuel: u64,
)
    requires
        written(st, env, node) == Some(NodeKind::Return { value: value }),
        fuel > 3,
    ensures
        ({
            let last = (fuel - 3) as u64;
            let (a, vty) = match value {
                Some(v) => infer_expr_spec(st, env, v, last),
                None => (st, Ty::Void),
            };
            let at = match value {
                Some(v) => v,
                None => node,
            };
            crate::unify::resolve_spec(a, &a.ret, DEPTH_LIMIT) != Ty::Never ==> infer_stmt_spec(
                st,
                env,
                node,
                fuel,
            ) == expect_spec(a, env, at, &vty, &a.ret, last)
        }),
{
}

/// The value of a `break` is held to what its loop carries, and the loop is left; a
/// `break` or a `continue` outside of every loop is complained about.
pub proof fn a_break_carries_a_value_out_of_its_loop(
    st: InfererV,
    env: &InferCx,
    node: NodeId,
    value: Option<NodeId>,
    fuel: u64,
)
    requires
        written(st, env, node) == Some(NodeKind::Break { value: value }),
        fuel > 3,
    ensures
        ({
            let (least, last) = ((fuel - 2) as u64, (fuel - 3) as u64);
            let (a, vty) = match value {
                Some(v) => infer_expr_spec(st, env, v, last),
                None => (st, Ty::Void),
            };
            let at = match value {
                Some(v) => v,
                None => node,
            };
            let after = infer_stmt_spec(st, env, node, fuel);
            match a.breaks {
                List::Cons(f, around) => {
                    let left = InfererV {
                        breaks: List::Cons(LoopFrame { ty: f.ty, broke: true }, around),
                        ..a
                    };
                    after == expect_spec(left, env, at, &vty, &f.ty, least)
                },
                List::Nil => after.diags.len() == a.diags.len() + 1 && after == (InfererV {
                    diags: after.diags,
                    ..a
                }),
            }
        }),
{
}

/// A `continue` outside of every loop is complained about, and inside one it changes
/// nothing.
pub proof fn a_continue_is_inside_a_loop(st: InfererV, env: &InferCx, node: NodeId, fuel: u64)
    requires
        written(st, env, node) == Some(NodeKind::Continue),
        fuel > 0,
    ensures
        ({
            let after = infer_stmt_spec(st, env, node, fuel);
            match st.breaks {
                List::Cons(_, _) => after == st,
                List::Nil => after.diags.len() == st.diags.len() + 1 && after == (InfererV {
                    diags: after.diags,
                    ..st
                }),
            }
        }),
{
}

/// A deferred expression is typed where it is written, and so is an expression that
/// stands as a statement.
pub proof fn an_expression_may_stand_as_a_statement(
    st: InfererV,
    env: &InferCx,
    node: NodeId,
    body: NodeId,
    fuel: u64,
)
    requires
        fuel > 1,
    ensures
        written(st, env, node) == Some(NodeKind::Defer { body: body }) ==> infer_stmt_spec(st, env, node, fuel)
            == infer_expr_spec(st, env, body, (fuel - 1) as u64).0,
        match written(st, env, node) {
            Some(NodeKind::Call { .. }) => true,
            Some(NodeKind::If { .. }) => true,
            Some(NodeKind::IfMatch { .. }) => true,
            Some(NodeKind::MatchExpr { .. }) => true,
            Some(NodeKind::While { .. }) => true,
            Some(NodeKind::Loop { .. }) => true,
            Some(NodeKind::Block { .. }) => true,
            _ => false,
        } ==> infer_stmt_spec(st, env, node, fuel) == infer_expr_spec(st, env, node, (fuel - 1) as u64).0,
{
}

} // verus!
