//! Laws of calls: what binding arguments to parameters promises, and what an
//! overload set answers.

use vstd::prelude::*;

use crate::calls::ArgBinding;
use crate::facts::ArgOrder;
use crate::ids::{DefId, NodeId};
use crate::list::List;
use crate::symbol::Symbol;
use crate::ty::Ty;
use crate::unify::{InferCx, InfererV};

verus! {

// Lists by position.

/// A list's length counts its elements, as far as a machine word does.
pub proof fn length_counts<T>(l: List<T>)
    ensures
        l@.len() < u64::MAX ==> crate::list::list_len_spec(&l) == l@.len(),
        l@.len() >= u64::MAX ==> crate::list::list_len_spec(&l) == u64::MAX,
    decreases l,
{
    match l {
        List::Nil => {},
        List::Cons(_, t) => length_counts(*t),
    }
}

/// What stands at a position of a list.
pub proof fn position_finds<T>(l: List<T>, i: u64)
    ensures
        crate::list::nth_spec(&l, i) == if i < l@.len() { Some(&l@[i as int]) } else { None },
    decreases l,
{
    match l {
        List::Nil => {},
        List::Cons(h, t) => {
            assert(l@ =~= seq![h] + t@);
            if i > 0 {
                position_finds(*t, (i - 1) as u64);
            }
        },
    }
}

proof fn empty_slots_are_empty(names: List<Symbol>)
    ensures
        crate::calls::empty_slots_spec(&names)@.len() == names@.len(),
        forall|i: int| 0 <= i < names@.len() ==> (#[trigger] crate::calls::empty_slots_spec(&names)@[i]) is None,
    decreases names,
{
    match names {
        List::Nil => {},
        List::Cons(n, t) => {
            empty_slots_are_empty(*t);
            let s = crate::calls::empty_slots_spec(&names)@;
            let rest = crate::calls::empty_slots_spec(&t)@;
            assert(s =~= seq![None] + rest);
            assert(names@ =~= seq![n] + t@);
            assert forall|i: int| 0 <= i < names@.len() implies (#[trigger] s[i]) is None by {
                if i > 0 {
                    assert(s[i] == rest[i - 1]);
                }
            }
        },
    }
}

/// Filling a slot changes that slot and no other.
pub proof fn filling_changes_one_slot(l: List<Option<NodeId>>, i: u64, a: NodeId)
    requires
        i < l@.len(),
    ensures
        crate::calls::fill_slot_spec(l, i, a)@ == l@.update(i as int, Some(a)),
    decreases l,
{
    match l {
        List::Nil => {},
        List::Cons(h, t) => {
            assert(l@ =~= seq![h] + t@);
            if i > 0 {
                filling_changes_one_slot(*t, (i - 1) as u64, a);
                assert(crate::calls::fill_slot_spec(l, i, a)@ =~= l@.update(i as int, Some(a)));
            } else {
                assert(crate::calls::fill_slot_spec(l, i, a)@ =~= l@.update(0, Some(a)));
            }
        },
    }
}

/// The position a name is found at is one where it stands, and none is found
/// where it stands nowhere.
pub proof fn a_position_is_a_name(l: List<Symbol>, n: Symbol, from: u64)
    requires
        from + l@.len() < u64::MAX,
    ensures
        match crate::calls::name_position_spec(&l, &n, from) {
            Some(i) => from <= i < from + l@.len() && l@[i - from] == n,
            None => !l@.contains(n),
        },
    decreases l,
{
    match l {
        List::Nil => {},
        List::Cons(h, t) => {
            assert(l@ =~= seq![h] + t@);
            if h != n {
                a_position_is_a_name(*t, n, (from + 1) as u64);
                if l@.contains(n) {
                    let i = choose|i: int| 0 <= i < l@.len() && l@[i] == n;
                    assert(t@[i - 1] == n);
                }
            } else {
                assert(l@[0] == n);
            }
        },
    }
}

proof fn no_name_is_missing(
    slots: List<Option<NodeId>>,
    names: List<Symbol>,
    has_default: List<bool>,
    i: u64,
)
    requires
        crate::list::is_empty_spec(&crate::calls::missing_names_spec(&slots, &names, &has_default, i)),
        slots@.len() <= names@.len(),
        i + slots@.len() < u64::MAX,
    ensures
        forall|k: int|
            0 <= k < slots@.len() && (#[trigger] slots@[k]) is None ==> i + k < has_default@.len()
                && has_default@[i + k],
    decreases slots,
{
    match (slots, names) {
        (List::Cons(s, ss), List::Cons(n, ns)) => {
            assert(slots@ =~= seq![s] + ss@);
            assert(names@ =~= seq![n] + ns@);
            no_name_is_missing(*ss, *ns, has_default, (i + 1) as u64);
            position_finds(has_default, i);
            assert forall|k: int| 0 <= k < slots@.len() && (#[trigger] slots@[k]) is None implies i + k
                < has_default@.len() && has_default@[i + k] by {
                if k > 0 {
                    assert(slots@[k] == ss@[k - 1]);
                }
            }
        },
        _ => {
            assert(slots@.len() == 0 || names@.len() == 0);
        },
    }
}

// Placing arguments.

/// Whether every argument of a list stands in some slot.
pub open spec fn all_placed(args: Seq<NodeId>, slots: Seq<Option<NodeId>>) -> bool {
    forall|k: int| 0 <= k < args.len() ==> slots.contains(Some(#[trigger] args[k]))
}

proof fn placing_keeps_what_is_placed(
    st: InfererV,
    env: &InferCx,
    callee: NodeId,
    def: DefId,
    given: u64,
    args: List<NodeId>,
    names: List<Symbol>,
    i: u64,
    seen_named: bool,
    slots: List<Option<NodeId>>,
    out: List<Option<NodeId>>,
)
    requires
        crate::calls::place_args_spec(st, env, callee, def, given, &args, &names, i, seen_named, slots).1 == Some(out),
        slots@.len() == names@.len(),
        names@.len() < u64::MAX,
        i + args@.len() < u64::MAX,
        !seen_named ==> forall|j: int| i <= j < slots@.len() ==> (#[trigger] slots@[j]) is None,
    ensures
        out@.len() == slots@.len(),
        forall|j: int| 0 <= j < slots@.len() && (#[trigger] slots@[j]) is Some ==> out@[j] == slots@[j],
        all_placed(args@, out@),
        crate::calls::place_args_spec(st, env, callee, def, given, &args, &names, i, seen_named, slots).0 == st,
    decreases args,
{
    match args {
        List::Nil => {},
        List::Cons(a, rest) => {
            assert(args@ =~= seq![a] + rest@);
            length_counts(names);
            match crate::calls::arg_name_spec(st, env, a) {
                None => {
                    if !seen_named && i < crate::list::list_len_spec(&names) {
                        filling_changes_one_slot(slots, i, a);
                        let next = crate::calls::fill_slot_spec(slots, i, a);
                        placing_keeps_what_is_placed(
                            st,
                            env,
                            callee,
                            def,
                            given,
                            *rest,
                            names,
                            crate::list::succ_spec(i),
                            false,
                            next,
                            out,
                        );
                        assert(next@[i as int] == Some(a));
                        assert(out@[i as int] == Some(a));
                        still_placed(a, *rest, slots, next, out, i as int);
                    }
                },
                Some(n) => {
                    a_position_is_a_name(names, n, 0);
                    match crate::calls::name_position_spec(&names, &n, 0) {
                        None => {},
                        Some(idx) => {
                            position_finds(slots, idx);
                            if !crate::calls::slot_filled_spec(&slots, idx) {
                                filling_changes_one_slot(slots, idx, a);
                                let next = crate::calls::fill_slot_spec(slots, idx, a);
                                placing_keeps_what_is_placed(
                                    st,
                                    env,
                                    callee,
                                    def,
                                    given,
                                    *rest,
                                    names,
                                    crate::list::succ_spec(i),
                                    true,
                                    next,
                                    out,
                                );
                                assert(next@[idx as int] == Some(a));
                                assert(out@[idx as int] == Some(a));
                                still_placed(a, *rest, slots, next, out, idx as int);
                            }
                        },
                    }
                },
            }
        },
    }
}

proof fn still_placed(
    a: NodeId,
    rest: List<NodeId>,
    slots: List<Option<NodeId>>,
    next: List<Option<NodeId>>,
    out: List<Option<NodeId>>,
    at: int,
)
    requires
        0 <= at < slots@.len(),
        slots@[at] is None,
        next@ == slots@.update(at, Some(a)),
        out@.len() == next@.len(),
        forall|j: int| 0 <= j < next@.len() && (#[trigger] next@[j]) is Some ==> out@[j] == next@[j],
        all_placed(rest@, out@),
    ensures
        forall|j: int| 0 <= j < slots@.len() && (#[trigger] slots@[j]) is Some ==> out@[j] == slots@[j],
        all_placed((List::Cons(a, Box::new(rest)))@, out@),
{
    let args = List::Cons(a, Box::new(rest));
    assert(args@ =~= seq![a] + rest@);
    assert(next@[at] == Some(a));
    assert(out@[at] == Some(a));
    assert forall|j: int| 0 <= j < slots@.len() && (#[trigger] slots@[j]) is Some implies out@[j] == slots@[j] by {
        assert(next@[j] == slots@[j]);
    }
    assert forall|k: int| 0 <= k < args@.len() implies out@.contains(Some(#[trigger] args@[k])) by {
        if k > 0 {
            assert(args@[k] == rest@[k - 1]);
        } else {
            assert(out@[at] == Some(args@[0]));
        }
    }
}

// Positional calls.

proof fn written_slots_are_the_arguments(args: List<NodeId>)
    ensures
        crate::lower::written_slots_spec(&args)@.len() == args@.len(),
        forall|k: int| 0 <= k < args@.len() ==> #[trigger] crate::lower::written_slots_spec(&args)@[k] == Some(args@[k]),
    decreases args,
{
    match args {
        List::Nil => {},
        List::Cons(a, t) => {
            written_slots_are_the_arguments(*t);
            let s = crate::lower::written_slots_spec(&args)@;
            let rest = crate::lower::written_slots_spec(&t)@;
            assert(s =~= seq![Some(a)] + rest);
            assert(args@ =~= seq![a] + t@);
            assert forall|k: int| 0 <= k < args@.len() implies #[trigger] s[k] == Some(args@[k]) by {
                if k > 0 {
                    assert(s[k] == rest[k - 1]);
                }
            }
        },
    }
}

proof fn padding_adds_holes(l: List<Option<NodeId>>, names: List<Symbol>)
    requires
        l@.len() <= names@.len(),
    ensures
        crate::calls::padded_spec(l, &names)@.len() == names@.len(),
        forall|k: int| 0 <= k < l@.len() ==> #[trigger] crate::calls::padded_spec(l, &names)@[k] == l@[k],
        forall|k: int| l@.len() <= k < names@.len() ==> (#[trigger] crate::calls::padded_spec(l, &names)@[k]) is None,
    decreases names,
{
    match names {
        List::Nil => {},
        List::Cons(n, rest) => {
            assert(names@ =~= seq![n] + rest@);
            let p = crate::calls::padded_spec(l, &names)@;
            match l {
                List::Nil => {
                    padding_adds_holes(List::Nil, *rest);
                    let q = crate::calls::padded_spec(List::Nil, &rest)@;
                    assert(p =~= seq![None] + q);
                    assert forall|k: int| 0 <= k < names@.len() implies (#[trigger] p[k]) is None by {
                        if k > 0 {
                            assert(p[k] == q[k - 1]);
                        }
                    }
                },
                List::Cons(h, t) => {
                    assert(l@ =~= seq![h] + t@);
                    padding_adds_holes(*t, *rest);
                    let q = crate::calls::padded_spec(*t, &rest)@;
                    assert(p =~= seq![h] + q);
                    assert forall|k: int| 0 <= k < l@.len() implies #[trigger] p[k] == l@[k] by {
                        if k > 0 {
                            assert(p[k] == q[k - 1]);
                        }
                    }
                    assert forall|k: int| l@.len() <= k < names@.len() implies (#[trigger] p[k]) is None by {
                        assert(p[k] == q[k - 1]);
                    }
                },
            }
        },
    }
}

/// The flags counted at the end of a list are all up.
pub proof fn the_tail_is_defaulted(l: List<bool>)
    requires
        l@.len() < u64::MAX,
    ensures
        crate::calls::trailing_up_spec(&l) <= l@.len(),
        forall|k: int| l@.len() - crate::calls::trailing_up_spec(&l) <= k < l@.len() ==> #[trigger] l@[k],
    decreases l,
{
    match l {
        List::Nil => {},
        List::Cons(h, t) => {
            assert(l@ =~= seq![h] + t@);
            the_tail_is_defaulted(*t);
            length_counts(*t);
            assert forall|k: int| l@.len() - crate::calls::trailing_up_spec(&l) <= k < l@.len() implies #[trigger] l@[k] by {
                if k > 0 {
                    assert(l@[k] == t@[k - 1]);
                }
            }
        },
    }
}

/// Where a call's arguments are bound to a function's parameters, there is a slot
/// for each parameter, every argument stands in one, and a slot is empty only
/// where the parameter has a default. Nothing is complained about, and what was
/// bound is recorded on the callee.
pub proof fn bound_arguments_fill_every_parameter(
    st: InfererV,
    env: &InferCx,
    callee: NodeId,
    def: DefId,
    args: List<NodeId>,
    names: List<Symbol>,
    has_default: List<bool>,
    slots: List<Option<NodeId>>,
)
    requires
        crate::decls::param_names_spec(env.tables, def) == Some(names),
        crate::decls::param_defaults_spec(env.tables, def) == Some(has_default),
        has_default@.len() == names@.len(),
        names@.len() + args@.len() < u64::MAX,
        crate::calls::bind_args_spec(st, env, callee, def, &args).1 == ArgBinding::Bound(slots),
    ensures
        slots@.len() == names@.len(),
        all_placed(args@, slots@),
        forall|k: int| 0 <= k < slots@.len() && (#[trigger] slots@[k]) is None ==> has_default@[k],
        crate::calls::bind_args_spec(st, env, callee, def, &args).0 == crate::unify::set_arg_order_spec(
            st,
            st.file,
            callee,
            ArgOrder { args: slots },
        ),
{
    length_counts(names);
    length_counts(args);
    length_counts(has_default);
    let total = crate::list::list_len_spec(&names);
    let given = crate::list::list_len_spec(&args);
    let required = crate::calls::required_arity_spec(env.tables, def, total);
    the_tail_is_defaulted(has_default);
    if crate::list::is_empty_spec(&crate::calls::written_names_spec(st, env, &args)) {
        written_slots_are_the_arguments(args);
        let written = crate::lower::written_slots_spec(&args);
        padding_adds_holes(written, names);
        assert(required <= given <= total);
        assert forall|k: int| 0 <= k < args@.len() implies slots@.contains(Some(#[trigger] args@[k])) by {
            assert(slots@[k] == written@[k]);
            assert(slots@[k] == Some(args@[k]));
        }
    } else {
        let start = crate::calls::empty_slots_spec(&names);
        empty_slots_are_empty(names);
        placing_keeps_what_is_placed(st, env, callee, def, given, args, names, 0, false, start, slots);
        no_name_is_missing(slots, names, has_default, 0);
    }
}

proof fn an_argument_without_a_place_is_complained_about(
    st: InfererV,
    env: &InferCx,
    callee: NodeId,
    def: DefId,
    given: u64,
    args: List<NodeId>,
    names: List<Symbol>,
    i: u64,
    seen_named: bool,
    slots: List<Option<NodeId>>,
)
    requires
        crate::calls::place_args_spec(st, env, callee, def, given, &args, &names, i, seen_named, slots).1 is None,
    ensures
        ({
            let after = crate::calls::place_args_spec(st, env, callee, def, given, &args, &names, i, seen_named, slots).0;
            after == (InfererV { diags: after.diags, ..st }) && after.diags.len() == st.diags.len() + 1
        }),
    decreases args,
{
    match args {
        List::Nil => {},
        List::Cons(a, rest) => match crate::calls::arg_name_spec(st, env, a) {
            None => {
                if !seen_named && i < crate::list::list_len_spec(&names) {
                    an_argument_without_a_place_is_complained_about(
                        st,
                        env,
                        callee,
                        def,
                        given,
                        *rest,
                        names,
                        crate::list::succ_spec(i),
                        false,
                        crate::calls::fill_slot_spec(slots, i, a),
                    );
                }
            },
            Some(n) => match crate::calls::name_position_spec(&names, &n, 0) {
                None => {},
                Some(idx) => {
                    if !crate::calls::slot_filled_spec(&slots, idx) {
                        an_argument_without_a_place_is_complained_about(
                            st,
                            env,
                            callee,
                            def,
                            given,
                            *rest,
                            names,
                            crate::list::succ_spec(i),
                            true,
                            crate::calls::fill_slot_spec(slots, idx, a),
                        );
                    }
                },
            },
        },
    }
}

proof fn placing_says_nothing_where_it_succeeds(
    st: InfererV,
    env: &InferCx,
    callee: NodeId,
    def: DefId,
    given: u64,
    args: List<NodeId>,
    names: List<Symbol>,
    i: u64,
    seen_named: bool,
    slots: List<Option<NodeId>>,
)
    ensures
        ({
            let (after, out) = crate::calls::place_args_spec(
                st,
                env,
                callee,
                def,
                given,
                &args,
                &names,
                i,
                seen_named,
                slots,
            );
            out is Some ==> after == st
        }),
    decreases args,
{
    match args {
        List::Nil => {},
        List::Cons(a, rest) => match crate::calls::arg_name_spec(st, env, a) {
            None => placing_says_nothing_where_it_succeeds(
                st,
                env,
                callee,
                def,
                given,
                *rest,
                names,
                crate::list::succ_spec(i),
                false,
                crate::calls::fill_slot_spec(slots, i, a),
            ),
            Some(n) => match crate::calls::name_position_spec(&names, &n, 0) {
                None => {},
                Some(idx) => placing_says_nothing_where_it_succeeds(
                    st,
                    env,
                    callee,
                    def,
                    given,
                    *rest,
                    names,
                    crate::list::succ_spec(i),
                    true,
                    crate::calls::fill_slot_spec(slots, idx, a),
                ),
            },
        },
    }
}

/// A call that does not bind is complained about, once, and that is all that
/// happens.
pub proof fn a_call_that_does_not_bind_is_complained_about(
    st: InfererV,
    env: &InferCx,
    callee: NodeId,
    def: DefId,
    args: List<NodeId>,
)
    requires
        crate::calls::bind_args_spec(st, env, callee, def, &args).1 == ArgBinding::Failed,
    ensures
        ({
            let after = crate::calls::bind_args_spec(st, env, callee, def, &args).0;
            after == (InfererV { diags: after.diags, ..st }) && after.diags.len() == st.diags.len() + 1
        }),
{
    match crate::decls::param_names_spec(env.tables, def) {
        Some(names) => {
            let given = crate::list::list_len_spec(&args);
            let start = crate::calls::empty_slots_spec(&names);
            let placed = crate::calls::place_args_spec(st, env, callee, def, given, &args, &names, 0, false, start);
            if placed.1 is None {
                an_argument_without_a_place_is_complained_about(
                    st,
                    env,
                    callee,
                    def,
                    given,
                    args,
                    names,
                    0,
                    false,
                    start,
                );
            }
            placing_says_nothing_where_it_succeeds(st, env, callee, def, given, args, names, 0, false, start);
        },
        None => {},
    }
}

/// A call taken as it was written changes nothing.
pub proof fn a_call_taken_as_written_changes_nothing(
    st: InfererV,
    env: &InferCx,
    callee: NodeId,
    def: DefId,
    args: List<NodeId>,
)
    requires
        crate::calls::bind_args_spec(st, env, callee, def, &args).1 == ArgBinding::AsWritten,
    ensures
        crate::calls::bind_args_spec(st, env, callee, def, &args).0 == st,
        crate::list::is_empty_spec(&crate::calls::written_names_spec(st, env, &args))
            || crate::decls::param_names_spec(env.tables, def) is None,
{
}

// Overloads.

/// What an overload set's shape round keeps is part of the set, and fits.
pub proof fn shaped_candidates_are_candidates(
    t: &crate::def::Tables,
    l: List<DefId>,
    count: u64,
    written: List<Symbol>,
    d: DefId,
)
    ensures
        crate::def::def_in_spec(&crate::calls::shaped_spec(t, &l, count, &written), d) <==> crate::def::def_in_spec(&l, d)
            && crate::calls::call_shape_fits_spec(t, d, count, &written),
    decreases l,
{
    match l {
        List::Nil => {},
        List::Cons(_, rest) => shaped_candidates_are_candidates(t, *rest, count, written, d),
    }
}

proof fn matching_candidates_are_candidates(
    st: InfererV,
    env: &InferCx,
    callee: NodeId,
    l: List<DefId>,
    tys: List<(Option<Symbol>, Ty)>,
    d: DefId,
    fuel: u64,
)
    ensures
        crate::def::def_in_spec(&crate::calls::overloads_taking_spec(st, env, callee, &l, &tys, fuel).1, d)
            ==> crate::def::def_in_spec(&l, d),
    decreases fuel, l,
{
    if fuel > 0 {
        match l {
            List::Nil => {},
            List::Cons(c, rest) => {
                let tried = crate::calls::overload_takes_spec(st, env, callee, c, &tys, (fuel - 1) as u64);
                matching_candidates_are_candidates(tried.0, env, callee, *rest, tys, d, fuel);
            },
        }
    }
}

proof fn concrete_candidates_are_candidates(st: InfererV, env: &InferCx, l: List<DefId>, d: DefId)
    ensures
        crate::def::def_in_spec(&crate::calls::concrete_ones_spec(st, env, &l), d) ==> crate::def::def_in_spec(&l, d),
    decreases l,
{
    match l {
        List::Nil => {},
        List::Cons(_, rest) => concrete_candidates_are_candidates(st, env, *rest, d),
    }
}

/// The function an overload set answers a call with is one of the set's, it could
/// take a call of that shape, and the callee is recorded as naming it.
pub proof fn a_chosen_overload_is_one_of_the_set(
    st: InfererV,
    env: &InferCx,
    callee: NodeId,
    def: DefId,
    args: List<NodeId>,
    chosen: DefId,
    fuel: u64,
)
    requires
        crate::calls::select_overload_spec(st, env, callee, def, &args, fuel).1 == Some(chosen),
    ensures
        crate::def::def_in_spec(&crate::decls::overload_candidates_spec(st, env, def, crate::list::DEPTH_LIMIT), chosen),
        crate::calls::call_shape_fits_spec(
            env.tables,
            chosen,
            crate::list::list_len_spec(&args),
            &crate::calls::written_names_spec(st, env, &args),
        ),
        ({
            let after = crate::calls::select_overload_spec(st, env, callee, def, &args, fuel).0;
            crate::unify::get_resolution_spec(after, after.file, callee) == Some(
                crate::facts::Resolution::Def(chosen),
            )
        }),
{
    let less = (fuel - 1) as u64;
    let candidates = crate::decls::overload_candidates_spec(st, env, def, crate::list::DEPTH_LIMIT);
    let count = crate::list::list_len_spec(&args);
    let written = crate::calls::written_names_spec(st, env, &args);
    let fit = crate::calls::shaped_spec(env.tables, &candidates, count, &written);
    shaped_candidates_are_candidates(env.tables, candidates, count, written, chosen);
    if crate::list::list_len_spec(&fit) > 1 {
        let matching = crate::calls::overloads_matching_spec(st, env, callee, &fit, &args, less);
        if less > 1 {
            let deeper = (less - 2) as u64;
            let typed = crate::exprs::infer_exprs_spec(st, env, &args, deeper);
            let given = crate::calls::labelled_spec(typed.0, env, &args, &typed.1);
            let taking = crate::calls::overloads_taking_spec(typed.0, env, callee, &fit, &given, deeper);
            matching_candidates_are_candidates(typed.0, env, callee, fit, given, chosen, deeper);
            let trial = crate::calls::overload_trial_spec(st, env, callee, &fit, &args, (less - 1) as u64);
            assert(trial.1 == taking.1);
            concrete_candidates_are_candidates(trial.0, env, taking.1, chosen);
        }
        assert(crate::def::def_in_spec(&matching.1, chosen));
    } else {
        assert(crate::def::def_in_spec(&fit, chosen));
    }
}

} // verus!
