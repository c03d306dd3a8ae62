//! Laws of the last sweep over a file's facts, which runs once for every function
//! of the file.

use vstd::prelude::*;

use crate::bodies::said_of_closure_spec;
use crate::diag::Diagnostic;
use crate::facts::GenericArg;
use crate::ids::{FileId, Span};
use crate::list::List;
use crate::symbol::Symbol;
use crate::ty::Ty;
use crate::unify::{InferCx, InfererV};

verus! {

/// Whether nothing was said, in the same file.
pub open spec fn quiet(before: InfererV, after: InfererV) -> bool {
    before.diags == after.diags && before.file == after.file
}

proof fn finalizing_says_nothing(st: InfererV, ty: Ty, fuel: u64)
    ensures
        quiet(st, crate::unify::finalize_spec(st, &ty, fuel).0),
    decreases fuel, 0nat, ty,
{
    if fuel > 0 {
        let less = (fuel - 1) as u64;
        match ty {
            Ty::Var(v) => match crate::unify::find_solution_spec(&st.bindings, v) {
                Some(t) => finalizing_says_nothing(st, t, less),
                None => {},
            },
            Ty::Nominal { def: _, args } => finalizing_a_list_says_nothing(st, *args, less),
            Ty::Ptr { mutable: _, inner } => finalizing_says_nothing(st, *inner, less),
            Ty::Slice { mutable: _, inner } => finalizing_says_nothing(st, *inner, less),
            Ty::Array { len, mutable: _, inner } => {
                let after = crate::unify::finalize_const_spec(st, &len).0;
                finalizing_says_nothing(after, *inner, less);
            },
            Ty::Tuple(elems) => finalizing_a_list_says_nothing(st, *elems, less),
            Ty::Dyn { def: _, assoc } => finalizing_named_says_nothing(st, *assoc, less),
            Ty::Struct(fields) => finalizing_named_says_nothing(st, *fields, less),
            Ty::Func { params, ret, c: _ } => {
                finalizing_a_list_says_nothing(st, *params, less);
                finalizing_says_nothing(crate::unify::finalize_tys_spec(st, &*params, less).0, *ret, less);
            },
            _ => {},
        }
    }
}

proof fn finalizing_a_list_says_nothing(st: InfererV, l: List<Ty>, fuel: u64)
    ensures
        quiet(st, crate::unify::finalize_tys_spec(st, &l, fuel).0),
    decreases fuel, 1nat, l,
{
    if fuel > 0 {
        match l {
            List::Nil => {},
            List::Cons(h, t) => {
                finalizing_says_nothing(st, h, (fuel - 1) as u64);
                let after = crate::unify::finalize_spec(st, &h, (fuel - 1) as u64).0;
                finalizing_a_list_says_nothing(after, *t, fuel);
            },
        }
    }
}

proof fn finalizing_named_says_nothing(st: InfererV, l: List<(Symbol, Ty)>, fuel: u64)
    ensures
        quiet(st, crate::unify::finalize_named_spec(st, &l, fuel).0),
    decreases fuel, 1nat, l,
{
    if fuel > 0 {
        match l {
            List::Nil => {},
            List::Cons(h, t) => {
                finalizing_says_nothing(st, h.1, (fuel - 1) as u64);
                let after = crate::unify::finalize_spec(st, &h.1, (fuel - 1) as u64).0;
                finalizing_named_says_nothing(after, *t, fuel);
            },
        }
    }
}

broadcast proof fn a_finalized_type_says_nothing(st: InfererV, ty: &Ty)
    ensures
        quiet(st, #[trigger] crate::unify::finalized_spec(st, ty).0),
{
    finalizing_says_nothing(st, *ty, crate::list::DEPTH_LIMIT);
}

broadcast proof fn finalized_types_say_nothing(st: InfererV, l: &List<Ty>)
    ensures
        quiet(st, #[trigger] crate::unify::finalized_tys_spec(st, l).0),
{
    finalizing_a_list_says_nothing(st, *l, crate::list::DEPTH_LIMIT);
}

proof fn finalized_arguments_say_nothing(st: InfererV, l: List<GenericArg>)
    ensures
        quiet(st, crate::bodies::finalized_args_spec(st, &l).0),
    decreases l,
{
    broadcast use a_finalized_type_says_nothing;

    match l {
        List::Nil => {},
        List::Cons(h, t) => {
            let after = match h {
                GenericArg::Ty(ty) => crate::unify::finalized_spec(st, &ty).0,
                GenericArg::Const(k) => crate::unify::finalize_const_spec(st, &k).0,
            };
            finalized_arguments_say_nothing(after, *t);
        },
    }
}

/// Whether a complaint is that a closure names a `const` parameter, and about a
/// place.
pub open spec fn is_of_closure(d: Diagnostic, file: FileId, span: Span) -> bool {
    crate::diag::names_closure_const_spec(&d.message) && d.file == file && d.span == span
}

/// Whether a step over a node said nothing, or said of the closure there, which had
/// not been said before, that it names a `const` parameter.
pub open spec fn says_at_most(before: InfererV, after: InfererV, span: Span) -> bool {
    &&& before.file == after.file
    &&& before.diags == after.diags || {
        &&& !said_of_closure_spec(before, before.file, span)
        &&& after.diags == before.diags.push(after.diags.last())
        &&& is_of_closure(after.diags.last(), before.file, span)
    }
}

proof fn a_node_says_at_most_one_thing(st: InfererV, env: &InferCx, i: u64)
    ensures
        says_at_most(
            st,
            crate::bodies::finalize_node_spec(st, env, i),
            crate::def::span_of_spec(env.tables, st.file, crate::ids::node_at_spec(i)).1,
        ),
{
    broadcast use {a_finalized_type_says_nothing, finalized_types_say_nothing};

    let node = crate::ids::node_at_spec(i);
    let a = crate::bodies::finalize_upcast_spec(st, node);
    assert(quiet(st, a));
    let b = crate::bodies::finalize_method_spec(a, node);
    assert(quiet(a, b));
    let c = crate::bodies::finalize_static_self_spec(b, node);
    assert(quiet(b, c));
    let d = crate::bodies::finalize_dyn_spec(c, node);
    assert(quiet(c, d));
    let e = crate::bodies::finalize_opaque_spec(d, node);
    assert(quiet(d, e));
    let span = crate::def::span_of_spec(env.tables, st.file, node).1;
    let f = crate::bodies::finalize_closure_spec(e, env, node);
    assert(says_at_most(e, f, span)) by {
        assert(said_of_closure_spec(e, e.file, span) == said_of_closure_spec(st, st.file, span));
    }
    let g = crate::bodies::finalize_slice_spec(f, node);
    assert(quiet(f, g));
    match crate::unify::get_instantiation_spec(g, g.file, node) {
        Some(inst) => finalized_arguments_say_nothing(g, inst.0),
        None => {},
    }
    let h = crate::bodies::finalize_instantiation_spec(g, node);
    assert(quiet(g, h));
    assert(said_of_closure_spec(e, e.file, span) == said_of_closure_spec(st, st.file, span));
}

/// Whether no place has two complaints that a closure names a `const` parameter.
pub open spec fn once_a_place(diags: Seq<Diagnostic>) -> bool {
    forall|i: int, j: int, file: FileId, span: Span|
        0 <= i < j < diags.len() && is_of_closure(#[trigger] diags[i], file, span) ==> !#[trigger] is_of_closure(
            diags[j],
            file,
            span,
        )
}

/// Whether a place complained about stays so, and is not complained about again.
pub open spec fn says_no_more_of(before: InfererV, after: InfererV, file: FileId, span: Span) -> bool {
    &&& said_of_closure_spec(after, file, span)
    &&& crate::keeping::said_still(before.diags, after.diags)
    &&& forall|k: int|
        before.diags.len() <= k < after.diags.len() ==> !is_of_closure(#[trigger] after.diags[k], file, span)
}

proof fn a_step_says_no_more(before: InfererV, after: InfererV, here: Span, file: FileId, span: Span)
    requires
        says_at_most(before, after, here),
        said_of_closure_spec(before, file, span),
    ensures
        says_no_more_of(before, after, file, span),
{
    let k = choose|k: int|
        0 <= k < before.diags.len() && crate::diag::names_closure_const_spec(&(#[trigger] before.diags[k]).message)
            && before.diags[k].file == file && before.diags[k].span == span;
    assert(after.diags[k] == before.diags[k]);
}

proof fn steps_say_no_more(a: InfererV, b: InfererV, c: InfererV, file: FileId, span: Span)
    requires
        says_no_more_of(a, b, file, span),
        says_no_more_of(b, c, file, span),
    ensures
        says_no_more_of(a, c, file, span),
{
    assert forall|k: int| a.diags.len() <= k < c.diags.len() implies !is_of_closure(
        #[trigger] c.diags[k],
        file,
        span,
    ) by {
        if k < b.diags.len() {
            assert(b.diags[k] == c.diags[k]);
        }
    }
    assert forall|k: int| 0 <= k < a.diags.len() implies #[trigger] a.diags[k] == c.diags[k] by {
        assert(a.diags[k] == b.diags[k]);
        assert(b.diags[k] == c.diags[k]);
    }
}

/// A place at which a closure was said to name a `const` parameter stays so, and
/// sweeping the facts again says it no second time there.
pub proof fn a_closure_is_complained_about_once(
    st: InfererV,
    env: &InferCx,
    i: u64,
    n: u64,
    file: FileId,
    span: Span,
)
    requires
        said_of_closure_spec(st, file, span),
    ensures
        says_no_more_of(st, crate::bodies::finalize_metas_spec(st, env, i, n), file, span),
    decreases n - i,
{
    if i < n {
        a_node_says_at_most_one_thing(st, env, i);
        let next = crate::bodies::finalize_node_spec(st, env, i);
        let here = crate::def::span_of_spec(env.tables, st.file, crate::ids::node_at_spec(i)).1;
        a_step_says_no_more(st, next, here, file, span);
        a_closure_is_complained_about_once(next, env, (i + 1) as u64, n, file, span);
        let after = crate::bodies::finalize_metas_spec(next, env, (i + 1) as u64, n);
        steps_say_no_more(st, next, after, file, span);
    }
}

/// However often the facts are swept, no place comes to have two complaints that a
/// closure names a `const` parameter.
pub proof fn sweeping_keeps_one_complaint_a_place(st: InfererV, env: &InferCx, i: u64, n: u64)
    requires
        once_a_place(st.diags),
    ensures
        once_a_place(crate::bodies::finalize_metas_spec(st, env, i, n).diags),
    decreases n - i,
{
    if i < n {
        a_node_says_at_most_one_thing(st, env, i);
        let next = crate::bodies::finalize_node_spec(st, env, i);
        let here = crate::def::span_of_spec(env.tables, st.file, crate::ids::node_at_spec(i)).1;
        assert forall|p: int, q: int, file: FileId, span: Span|
            0 <= p < q < next.diags.len() && is_of_closure(#[trigger] next.diags[p], file, span) implies !#[trigger] is_of_closure(
            next.diags[q],
            file,
            span,
        ) by {
            assert(next.diags[p] == st.diags[p]);
            if q < st.diags.len() {
                assert(next.diags[q] == st.diags[q]);
            } else if is_of_closure(next.diags[q], file, span) {
                assert(said_of_closure_spec(st, st.file, here));
            }
        }
        sweeping_keeps_one_complaint_a_place(next, env, (i + 1) as u64, n);
    }
}

} // verus!
