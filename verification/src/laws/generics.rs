//! Laws of generic parameters: what a declaration is generic over and what a use
//! binds line up by position.

use vstd::prelude::*;

use crate::def::Tables;
use crate::facts::{GenericArg, Generics};
use crate::ids::{DefId, NodeId};
use crate::list::List;
use crate::subst::Subst;
use crate::symbol::Symbol;
use crate::ty::{Const, Ty};
use crate::unify::{InferCx, InfererV};

verus! {

/// Putting one list behind another keeps both, in order.
pub proof fn appending_keeps_both<T>(a: List<T>, b: List<T>)
    ensures
        crate::list::append_spec(a, b)@ == a@ + b@,
    decreases a,
{
    match a {
        List::Nil => {
            assert(a@ + b@ =~= b@);
        },
        List::Cons(h, t) => {
            appending_keeps_both(*t, b);
            assert(crate::list::append_spec(a, b)@ =~= seq![h] + (t@ + b@));
            assert(a@ + b@ =~= seq![h] + (t@ + b@));
        },
    }
}

/// A list holds a definition exactly when it is among its elements.
pub proof fn holding_is_being_among(l: List<DefId>, d: DefId)
    ensures
        crate::def::def_in_spec(&l, d) <==> l@.contains(d),
    decreases l,
{
    match l {
        List::Nil => {},
        List::Cons(h, t) => {
            holding_is_being_among(*t, d);
            let s = l@;
            assert(s =~= seq![h] + t@);
            if crate::def::def_in_spec(&l, d) {
                if h == d {
                    assert(s[0] == d);
                } else {
                    let i = choose|i: int| 0 <= i < t@.len() && t@[i] == d;
                    assert(s[i + 1] == d);
                }
            }
            if s.contains(d) {
                let i = choose|i: int| 0 <= i < s.len() && s[i] == d;
                if i > 0 {
                    assert(t@[i - 1] == d);
                }
            }
        },
    }
}

/// Merging keeps what was there where it was, adds every definition of the second
/// list, and repeats none.
pub proof fn merging_only_adds_behind(out: List<DefId>, l: List<DefId>)
    ensures
        out@.is_prefix_of(crate::lower::merge_defs_spec(out, &l)@),
        forall|d: DefId| l@.contains(d) ==> #[trigger] crate::lower::merge_defs_spec(out, &l)@.contains(d),
        out@.no_duplicates() ==> crate::lower::merge_defs_spec(out, &l)@.no_duplicates(),
    decreases l,
{
    match l {
        List::Nil => {},
        List::Cons(h, t) => {
            holding_is_being_among(out, h);
            let merged = crate::lower::merge_defs_spec(out, &l);
            assert(l@ =~= seq![h] + t@);
            if crate::def::def_in_spec(&out, h) {
                merging_only_adds_behind(out, *t);
                prefix_keeps_elements(out@, merged@, h);
            } else {
                let more = crate::list::append_spec(out, crate::list::single_spec(h));
                appending_keeps_both(out, crate::list::single_spec(h));
                reveal_with_fuel(crate::list::list_seq, 2);
                assert(crate::list::single_spec(h)@ =~= seq![h]);
                assert(more@ =~= out@.push(h));
                merging_only_adds_behind(more, *t);
                assert(out@.is_prefix_of(more@));
                prefix_of_prefix(out@, more@, merged@);
                assert(more@[out@.len() as int] == h);
                prefix_keeps_elements(more@, merged@, h);
            }
            assert forall|d: DefId| l@.contains(d) implies #[trigger] merged@.contains(d) by {
                let i = choose|i: int| 0 <= i < l@.len() && l@[i] == d;
                if i > 0 {
                    assert(t@[i - 1] == d);
                    assert(t@.contains(d));
                }
            }
        },
    }
}

proof fn prefix_of_prefix<T>(a: Seq<T>, b: Seq<T>, c: Seq<T>)
    requires
        a.is_prefix_of(b),
        b.is_prefix_of(c),
    ensures
        a.is_prefix_of(c),
{
    assert(a =~= c.subrange(0, a.len() as int)) by {
        assert forall|i: int| 0 <= i < a.len() implies a[i] == c[i] by {
            assert(a[i] == b[i]);
            assert(b[i] == c[i]);
        }
    }
}

proof fn prefix_keeps_elements<T>(a: Seq<T>, b: Seq<T>, x: T)
    requires
        a.is_prefix_of(b),
        a.contains(x),
    ensures
        b.contains(x),
{
    let i = choose|i: int| 0 <= i < a.len() && a[i] == x;
    assert(b[i] == a[i]);
}

/// Adding the associated types of generic parameters keeps the parameters where
/// they were.
pub proof fn closing_only_adds_behind(t: &Tables, order: List<DefId>, i: u64, fuel: u64)
    ensures
        order@.is_prefix_of(crate::solve::close_over_projections_spec(t, order, i, fuel)@),
        order@.no_duplicates() ==> crate::solve::close_over_projections_spec(t, order, i, fuel)@.no_duplicates(),
    decreases fuel,
{
    if fuel > 0 {
        match crate::solve::nth_def_spec(&order, i) {
            Some(d) => {
                let kids = crate::solve::sorted_projections_spec(t, d);
                let more = crate::lower::merge_defs_spec(order, &kids);
                merging_only_adds_behind(order, kids);
                closing_only_adds_behind(t, more, crate::list::succ_spec(i), (fuel - 1) as u64);
                prefix_of_prefix(
                    order@,
                    more@,
                    crate::solve::close_over_projections_spec(t, order, i, fuel)@,
                );
            },
            None => {},
        }
    }
}

/// What a declaration lists, followed by what else its signature mentions: the
/// parameters a declaration and every use of it have in common, by position.
pub open spec fn listed_and_mentioned(t: &Tables, listed: List<DefId>, sig: Ty) -> List<DefId> {
    let (tys, consts) = crate::calls::collect_generic_params_spec(t, &sig, List::Nil, List::Nil);
    crate::lower::merge_defs_spec(crate::lower::merge_defs_spec(listed, &tys), &consts)
}

/// The parameters recorded for a function begin with those it lists, as many as
/// its record says are its own, and go on with those its signature mentions.
pub proof fn recorded_generics_begin_with_the_listed(st: InfererV, env: &InferCx, func: NodeId, g: Generics)
    requires
        crate::bodies::generics_of_func_spec(st, env, func).1 == Some(g),
    ensures
        exists|listed: List<DefId>|
            {
                &&& g.own == crate::list::list_len_spec(&listed)
                &&& listed@.is_prefix_of(g.params@)
                &&& listed_and_mentioned(
                    env.tables,
                    listed,
                    crate::types::inferred_sig_ty_spec(st, env, func).1,
                )@.is_prefix_of(g.params@)
                &&& listed@.no_duplicates() ==> g.params@.no_duplicates()
            },
{
    match crate::def::kind_of_spec(env.tables, st.file, func) {
        Some(crate::ast::NodeKind::FuncExpr { generics, params: _, ret: _, body: _, abi: _ }) => {
            let listed = crate::decls::generic_defs_spec(st, env, st.file, generics);
            let sig_step = crate::types::inferred_sig_ty_spec(st, env, func);
            let sig = sig_step.1;
            let (tys, consts) = crate::calls::collect_generic_params_spec(env.tables, &sig, List::Nil, List::Nil);
            let first = crate::lower::merge_defs_spec(listed, &tys);
            let named = crate::lower::merge_defs_spec(first, &consts);
            let outer = crate::bodies::impl_generics_of_spec(
                env,
                crate::bodies::func_owner_spec(sig_step.0, env, func),
            );
            let all = crate::lower::merge_defs_spec(named, &outer);
            merging_only_adds_behind(listed, tys);
            merging_only_adds_behind(first, consts);
            merging_only_adds_behind(named, outer);
            closing_only_adds_behind(env.tables, all, 0, crate::list::DEPTH_LIMIT);
            prefix_of_prefix(listed@, first@, named@);
            prefix_of_prefix(named@, all@, g.params@);
            prefix_of_prefix(listed@, named@, g.params@);
        },
        _ => {},
    }
}

/// What a use binds begins with the parameters the declaration lists, and goes on
/// with those its signature mentions.
pub proof fn uses_begin_with_the_listed(t: &Tables, listed: List<DefId>, sig: Ty)
    ensures
        listed@.is_prefix_of(crate::calls::instantiation_order_spec(t, &listed, &sig)@),
        listed_and_mentioned(t, listed, sig)@.is_prefix_of(
            crate::calls::instantiation_order_spec(t, &listed, &sig)@,
        ),
        listed@.no_duplicates() ==> crate::calls::instantiation_order_spec(t, &listed, &sig)@.no_duplicates(),
{
    let (tys, consts) = crate::calls::collect_generic_params_spec(t, &sig, List::Nil, List::Nil);
    let first = crate::lower::merge_defs_spec(listed, &tys);
    let all = crate::lower::merge_defs_spec(first, &consts);
    merging_only_adds_behind(listed, tys);
    merging_only_adds_behind(first, consts);
    closing_only_adds_behind(t, all, 0, crate::list::DEPTH_LIMIT);
    prefix_of_prefix(listed@, first@, all@);
    prefix_of_prefix(listed@, all@, crate::calls::instantiation_order_spec(t, &listed, &sig)@);
}

/// A use records what it bound, in that order, and its type is the signature with
/// each parameter replaced by what it was bound to.
pub proof fn a_use_records_what_it_binds(
    st: InfererV,
    env: &InferCx,
    at: NodeId,
    sig: Ty,
    def: DefId,
    targs: List<NodeId>,
    seed: Subst,
    fuel: u64,
)
    requires
        fuel > 0,
    ensures
        ({
            let listed = crate::decls::declared_generics_spec(st, env, def);
            let order = crate::calls::instantiation_order_spec(env.tables, &listed, &sig);
            let (after, (ty, map)) = crate::calls::instantiate_parts_spec(st, env, at, &sig, def, &targs, seed, fuel);
            &&& ty == crate::subst::subst_ty_spec(&sig, &map)
            &&& !crate::list::is_empty_spec(&order) ==> crate::unify::get_instantiation_spec(after, after.file, at)
                == Some(crate::facts::Instantiation(crate::exprs::generic_args_spec(&order, &map)))
        }),
{
}

/// What a use binds is as long as the parameters it binds, and what stands at a
/// position is what the parameter at that position is bound to.
pub proof fn arguments_stand_where_their_parameters_do(order: List<DefId>, map: Subst)
    ensures
        crate::exprs::generic_args_spec(&order, &map)@.len() == order@.len(),
        forall|i: int|
            0 <= i < order@.len() ==> #[trigger] crate::exprs::generic_args_spec(&order, &map)@[i]
                == bound_arg(order@[i], map),
    decreases order,
{
    match order {
        List::Nil => {},
        List::Cons(d, rest) => {
            arguments_stand_where_their_parameters_do(*rest, map);
            let args = crate::exprs::generic_args_spec(&order, &map)@;
            let tail = crate::exprs::generic_args_spec(&rest, &map)@;
            assert(args =~= seq![bound_arg(d, map)] + tail);
            assert(order@ =~= seq![d] + rest@);
            assert forall|i: int| 0 <= i < order@.len() implies #[trigger] args[i] == bound_arg(order@[i], map) by {
                if i > 0 {
                    assert(args[i] == tail[i - 1]);
                    assert(order@[i] == rest@[i - 1]);
                }
            }
        },
    }
}

/// What an instantiation binds one parameter to.
pub open spec fn bound_arg(d: DefId, map: Subst) -> GenericArg {
    match crate::subst::find_const_spec(&map.consts, d) {
        Some(k) => GenericArg::Const(*k),
        None => match crate::subst::find_ty_spec(&map.tys, d) {
            Some(t) => GenericArg::Ty(*t),
            None => GenericArg::Ty(Ty::Error),
        },
    }
}

/// Whether a type mentions a type parameter, bare.
pub open spec fn mentions_param(t: &Tables, ty: Ty, d: DefId) -> bool
    decreases ty,
{
    match ty {
        Ty::Nominal { def, args } => (crate::list::is_empty_spec(&*args) && def == d
            && crate::calls::is_open_param_spec(t, d)) || any_mentions_param(t, *args, d),
        Ty::Ptr { mutable: _, inner } => mentions_param(t, *inner, d),
        Ty::Slice { mutable: _, inner } => mentions_param(t, *inner, d),
        Ty::Array { len: _, mutable: _, inner } => mentions_param(t, *inner, d),
        Ty::Tuple(elems) => any_mentions_param(t, *elems, d),
        Ty::Dyn { def: _, assoc } => any_named_mentions_param(t, *assoc, d),
        Ty::Struct(fields) => any_named_mentions_param(t, *fields, d),
        Ty::Func { params, ret, c: _ } => any_mentions_param(t, *params, d) || mentions_param(t, *ret, d),
        _ => false,
    }
}

/// The same of any of a list.
pub open spec fn any_mentions_param(t: &Tables, l: List<Ty>, d: DefId) -> bool
    decreases l,
{
    match l {
        List::Nil => false,
        List::Cons(h, rest) => mentions_param(t, h, d) || any_mentions_param(t, *rest, d),
    }
}

/// The same of any of a list of named types.
pub open spec fn any_named_mentions_param(t: &Tables, l: List<(Symbol, Ty)>, d: DefId) -> bool
    decreases l,
{
    match l {
        List::Nil => false,
        List::Cons(h, rest) => mentions_param(t, h.1, d) || any_named_mentions_param(t, *rest, d),
    }
}

/// Whether a type mentions a `const` parameter, as a length or a width.
pub open spec fn mentions_const_param(ty: Ty, d: DefId) -> bool
    decreases ty,
{
    match ty {
        Ty::Int { signed: _, width } => width == Const::Param(d),
        Ty::Nominal { def: _, args } => any_mentions_const_param(*args, d),
        Ty::Ptr { mutable: _, inner } => mentions_const_param(*inner, d),
        Ty::Slice { mutable: _, inner } => mentions_const_param(*inner, d),
        Ty::Array { len, mutable: _, inner } => len == Const::Param(d) || mentions_const_param(*inner, d),
        Ty::Tuple(elems) => any_mentions_const_param(*elems, d),
        Ty::Dyn { def: _, assoc } => any_named_mentions_const_param(*assoc, d),
        Ty::Struct(fields) => any_named_mentions_const_param(*fields, d),
        Ty::Func { params, ret, c: _ } => any_mentions_const_param(*params, d) || mentions_const_param(*ret, d),
        _ => false,
    }
}

/// The same of any of a list.
pub open spec fn any_mentions_const_param(l: List<Ty>, d: DefId) -> bool
    decreases l,
{
    match l {
        List::Nil => false,
        List::Cons(h, rest) => mentions_const_param(h, d) || any_mentions_const_param(*rest, d),
    }
}

/// The same of any of a list of named types.
pub open spec fn any_named_mentions_const_param(l: List<(Symbol, Ty)>, d: DefId) -> bool
    decreases l,
{
    match l {
        List::Nil => false,
        List::Cons(h, rest) => mentions_const_param(h.1, d) || any_named_mentions_const_param(*rest, d),
    }
}

proof fn a_list_holds_what_is_put_behind_it(l: List<DefId>, x: DefId, d: DefId)
    ensures
        crate::def::def_in_spec(&crate::list::append_spec(l, crate::list::single_spec(x)), d)
            <==> crate::def::def_in_spec(&l, d) || x == d,
    decreases l,
{
    reveal_with_fuel(crate::def::def_in_spec, 2);
    match l {
        List::Nil => {},
        List::Cons(_, t) => a_list_holds_what_is_put_behind_it(*t, x, d),
    }
}

proof fn adding_lists_one_more(l: List<DefId>, x: DefId, d: DefId)
    ensures
        crate::def::def_in_spec(&crate::calls::add_def_spec(l, x), d) <==> crate::def::def_in_spec(&l, d) || x == d,
{
    a_list_holds_what_is_put_behind_it(l, x, d);
}

/// Every generic parameter a type mentions is listed, wherever in it it stands, and
/// besides what was listed before nothing else is.
pub proof fn every_mentioned_parameter_is_listed(
    t: &Tables,
    ty: Ty,
    out: List<DefId>,
    consts: List<DefId>,
    d: DefId,
)
    ensures
        ({
            let (tys, values) = crate::calls::collect_generic_params_spec(t, &ty, out, consts);
            &&& crate::def::def_in_spec(&tys, d) <==> crate::def::def_in_spec(&out, d) || mentions_param(t, ty, d)
            &&& crate::def::def_in_spec(&values, d) <==> crate::def::def_in_spec(&consts, d)
                || mentions_const_param(ty, d)
        }),
    decreases ty,
{
    match ty {
        Ty::Nominal { def, args } => {
            adding_lists_one_more(out, def, d);
            let next = if crate::list::is_empty_spec(&*args) && crate::calls::is_open_param_spec(t, def) {
                crate::calls::add_def_spec(out, def)
            } else {
                out
            };
            every_one_in_a_list_is_listed(t, *args, next, consts, d);
        },
        Ty::Array { len, mutable: _, inner } => {
            let next = match len {
                Const::Param(p) => {
                    adding_lists_one_more(consts, p, d);
                    crate::calls::add_def_spec(consts, p)
                },
                _ => consts,
            };
            every_mentioned_parameter_is_listed(t, *inner, out, next, d);
        },
        Ty::Int { signed: _, width } => match width {
            Const::Param(p) => adding_lists_one_more(consts, p, d),
            _ => {},
        },
        Ty::Ptr { mutable: _, inner } => every_mentioned_parameter_is_listed(t, *inner, out, consts, d),
        Ty::Slice { mutable: _, inner } => every_mentioned_parameter_is_listed(t, *inner, out, consts, d),
        Ty::Tuple(elems) => every_one_in_a_list_is_listed(t, *elems, out, consts, d),
        Ty::Dyn { def: _, assoc } => every_one_in_named_is_listed(t, *assoc, out, consts, d),
        Ty::Struct(fields) => every_one_in_named_is_listed(t, *fields, out, consts, d),
        Ty::Func { params, ret, c: _ } => {
            let (o, k) = crate::calls::collect_in_tys_spec(t, &*params, out, consts);
            every_one_in_a_list_is_listed(t, *params, out, consts, d);
            every_mentioned_parameter_is_listed(t, *ret, o, k, d);
        },
        _ => {},
    }
}

proof fn every_one_in_a_list_is_listed(t: &Tables, l: List<Ty>, out: List<DefId>, consts: List<DefId>, d: DefId)
    ensures
        ({
            let (tys, values) = crate::calls::collect_in_tys_spec(t, &l, out, consts);
            &&& crate::def::def_in_spec(&tys, d) <==> crate::def::def_in_spec(&out, d) || any_mentions_param(t, l, d)
            &&& crate::def::def_in_spec(&values, d) <==> crate::def::def_in_spec(&consts, d)
                || any_mentions_const_param(l, d)
        }),
    decreases l,
{
    match l {
        List::Nil => {},
        List::Cons(h, rest) => {
            let (o, k) = crate::calls::collect_generic_params_spec(t, &h, out, consts);
            every_mentioned_parameter_is_listed(t, h, out, consts, d);
            every_one_in_a_list_is_listed(t, *rest, o, k, d);
        },
    }
}

proof fn every_one_in_named_is_listed(
    t: &Tables,
    l: List<(Symbol, Ty)>,
    out: List<DefId>,
    consts: List<DefId>,
    d: DefId,
)
    ensures
        ({
            let (tys, values) = crate::calls::collect_in_named_spec(t, &l, out, consts);
            &&& crate::def::def_in_spec(&tys, d) <==> crate::def::def_in_spec(&out, d)
                || any_named_mentions_param(t, l, d)
            &&& crate::def::def_in_spec(&values, d) <==> crate::def::def_in_spec(&consts, d)
                || any_named_mentions_const_param(l, d)
        }),
    decreases l,
{
    match l {
        List::Nil => {},
        List::Cons(h, rest) => {
            let (o, k) = crate::calls::collect_generic_params_spec(t, &h.1, out, consts);
            every_mentioned_parameter_is_listed(t, h.1, out, consts, d);
            every_one_in_named_is_listed(t, *rest, o, k, d);
        },
    }
}

} // verus!
