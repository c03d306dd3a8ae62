//! Laws of which traits a file may name.

use vstd::prelude::*;

use crate::def::{Def, DefKind, Tables};
use crate::ids::{DefId, NodeId};
use crate::list::List;
use crate::symbol::Symbol;
use crate::unify::{InferCx, InfererV};

verus! {

/// Whether a list of members names a trait, with renames followed.
pub open spec fn names_trait(t: &Tables, l: &List<(Symbol, DefId)>, d: DefId) -> bool
    decreases l,
{
    match l {
        List::Nil => false,
        List::Cons(h, rest) => (crate::def::resolve_alias_spec(t, h.1) == d && crate::def::def_kind_spec(t, d)
            == DefKind::Trait) || names_trait(t, rest, d),
    }
}

/// Whether a list of members names a trait that anything may name.
pub open spec fn names_public_trait(t: &Tables, l: &List<(Symbol, DefId)>, d: DefId) -> bool
    decreases l,
{
    match l {
        List::Nil => false,
        List::Cons(h, rest) => (crate::def::resolve_alias_spec(t, h.1) == d && crate::infer::is_public_trait_spec(t, d))
            || names_public_trait(t, rest, d),
    }
}

/// Whether one of some namespaces names a trait that anything may name.
pub open spec fn a_glob_names(t: &Tables, globs: &List<DefId>, d: DefId) -> bool
    decreases globs,
{
    match globs {
        List::Nil => false,
        List::Cons(g, rest) => (match crate::def::get_def_spec(t, *g) {
            Some(def) => names_public_trait(t, &def.members, d),
            None => false,
        }) || a_glob_names(t, rest, d),
    }
}

/// Whether a namespace itself makes a trait nameable: as a member, an import, or
/// through something it pulls in whole.
pub open spec fn namespace_names(t: &Tables, def: &Def, d: DefId) -> bool {
    names_trait(t, &def.members, d) || names_trait(t, &def.imported, d) || a_glob_names(t, &def.globs, d)
}

/// Whether a namespace, or one of the namespaces around it, makes a trait
/// nameable.
pub open spec fn nameable_from(t: &Tables, ns: Option<DefId>, d: DefId, depth: u64) -> bool
    decreases depth,
{
    if depth == 0 {
        false
    } else {
        match ns {
            Some(n) => match crate::def::get_def_spec(t, n) {
                Some(def) => namespace_names(t, def, d) || nameable_from(t, def.parent, d, (depth - 1) as u64),
                None => false,
            },
            None => false,
        }
    }
}

/// Whether a file may name a trait: its namespace or one around it makes it
/// nameable, or the prelude does.
pub open spec fn nameable(t: &Tables, prelude: &List<DefId>, file_ns: DefId, d: DefId) -> bool {
    nameable_from(t, Some(file_ns), d, crate::list::DEPTH_LIMIT) || a_glob_names(t, prelude, d)
}

/// The traits in scope of a file are all those it may name, and no others.
pub proof fn in_scope_is_all_that_is_nameable(t: &Tables, prelude: List<DefId>, file_ns: DefId)
    ensures
        forall|d: DefId| #[trigger]
            crate::def::def_in_spec(&crate::infer::in_scope_traits_spec(t, &prelude, file_ns), d) <==> nameable(
                t,
                &prelude,
                file_ns,
                d,
            ),
{
    assert forall|d: DefId| #[trigger]
        crate::def::def_in_spec(&crate::infer::in_scope_traits_spec(t, &prelude, file_ns), d) <==> nameable(
            t,
            &prelude,
            file_ns,
            d,
        ) by {
        in_scope_is_nameable(t, prelude, file_ns, d);
    }
}

/// A trait is in scope of a file exactly when the file may name it.
pub proof fn in_scope_is_nameable(t: &Tables, prelude: List<DefId>, file_ns: DefId, d: DefId)
    ensures
        crate::def::def_in_spec(&crate::infer::in_scope_traits_spec(t, &prelude, file_ns), d) <==> nameable(
            t,
            &prelude,
            file_ns,
            d,
        ),
{
    let found = crate::infer::glob_traits_spec(t, &prelude, List::Nil);
    globs_add_what_they_name(t, prelude, List::Nil, d);
    enclosing_adds_what_it_names(t, Some(file_ns), found, d, crate::list::DEPTH_LIMIT);
}

proof fn named_adds_what_it_names(t: &Tables, l: List<(Symbol, DefId)>, found: List<DefId>, d: DefId)
    ensures
        crate::def::def_in_spec(&crate::infer::named_traits_spec(t, &l, found), d) <==> crate::def::def_in_spec(&found, d)
            || names_trait(t, &l, d),
    decreases l,
{
    match l {
        List::Nil => {},
        List::Cons(h, rest) => {
            let m = crate::def::resolve_alias_spec(t, h.1);
            if crate::def::def_kind_spec(t, m) == DefKind::Trait {
                named_adds_what_it_names(t, *rest, List::Cons(m, Box::new(found)), d);
            } else {
                named_adds_what_it_names(t, *rest, found, d);
            }
        },
    }
}

proof fn public_adds_what_it_names(t: &Tables, l: List<(Symbol, DefId)>, found: List<DefId>, d: DefId)
    ensures
        crate::def::def_in_spec(&crate::infer::public_traits_spec(t, &l, found), d) <==> crate::def::def_in_spec(
            &found,
            d,
        ) || names_public_trait(t, &l, d),
    decreases l,
{
    match l {
        List::Nil => {},
        List::Cons(h, rest) => {
            let m = crate::def::resolve_alias_spec(t, h.1);
            if crate::infer::is_public_trait_spec(t, m) {
                public_adds_what_it_names(t, *rest, List::Cons(m, Box::new(found)), d);
            } else {
                public_adds_what_it_names(t, *rest, found, d);
            }
        },
    }
}

proof fn globs_add_what_they_name(t: &Tables, globs: List<DefId>, found: List<DefId>, d: DefId)
    ensures
        crate::def::def_in_spec(&crate::infer::glob_traits_spec(t, &globs, found), d) <==> crate::def::def_in_spec(
            &found,
            d,
        ) || a_glob_names(t, &globs, d),
    decreases globs,
{
    match globs {
        List::Nil => {},
        List::Cons(g, rest) => {
            let next = match crate::def::get_def_spec(t, g) {
                Some(def) => crate::infer::public_traits_spec(t, &def.members, found),
                None => found,
            };
            match crate::def::get_def_spec(t, g) {
                Some(def) => public_adds_what_it_names(t, def.members, found, d),
                None => {},
            }
            globs_add_what_they_name(t, *rest, next, d);
        },
    }
}

proof fn enclosing_adds_what_it_names(t: &Tables, ns: Option<DefId>, found: List<DefId>, d: DefId, fuel: u64)
    ensures
        crate::def::def_in_spec(&crate::infer::enclosing_traits_spec(t, ns, found, fuel), d)
            <==> crate::def::def_in_spec(&found, d) || nameable_from(t, ns, d, fuel),
    decreases fuel,
{
    if fuel > 0 {
        match ns {
            Some(n) => match crate::def::get_def_spec(t, n) {
                Some(def) => {
                    let own = crate::infer::named_traits_spec(t, &def.members, found);
                    let imported = crate::infer::named_traits_spec(t, &def.imported, own);
                    let all = crate::infer::glob_traits_spec(t, &def.globs, imported);
                    named_adds_what_it_names(t, def.members, found, d);
                    named_adds_what_it_names(t, def.imported, own, d);
                    globs_add_what_they_name(t, def.globs, imported, d);
                    enclosing_adds_what_it_names(t, def.parent, all, d, (fuel - 1) as u64);
                },
                None => {},
            },
            None => {},
        }
    }
}

/// Whether a list of bounds names a trait, with renames followed.
pub open spec fn bounds_name(st: InfererV, env: &InferCx, l: List<NodeId>, d: DefId) -> bool
    decreases l,
{
    match l {
        List::Nil => false,
        List::Cons(b, rest) => (crate::infer::named_def_spec(
            st,
            env,
            st.file,
            crate::infer::bound_head_spec(env.tables, st.file, b),
        ) == Some(d) && crate::def::def_kind_spec(env.tables, d) == DefKind::Trait) || bounds_name(
            st,
            env,
            *rest,
            d,
        ),
    }
}

/// Whether the bounds a node of the file lists name a trait.
pub open spec fn node_names(st: InfererV, env: &InferCx, j: u64, d: DefId) -> bool {
    bounds_name(
        st,
        env,
        crate::infer::bounds_at_spec(env.tables, st.file, crate::ids::node_at_spec(j)),
        d,
    )
}

proof fn traits_of_bounds_are_found(
    st: InfererV,
    env: &InferCx,
    l: List<NodeId>,
    found: List<DefId>,
    d: DefId,
)
    ensures
        crate::def::def_in_spec(&crate::infer::bound_traits_in_spec(st, env, &l, found), d)
            <==> crate::def::def_in_spec(&found, d) || bounds_name(st, env, l, d),
    decreases l,
{
    match l {
        List::Nil => {},
        List::Cons(b, rest) => match crate::infer::named_def_spec(
            st,
            env,
            st.file,
            crate::infer::bound_head_spec(env.tables, st.file, b),
        ) {
            Some(x) => if crate::def::def_kind_spec(env.tables, x) == DefKind::Trait {
                traits_of_bounds_are_found(st, env, *rest, List::Cons(x, Box::new(found)), d);
            } else {
                traits_of_bounds_are_found(st, env, *rest, found, d);
            },
            None => traits_of_bounds_are_found(st, env, *rest, found, d),
        },
    }
}

proof fn traits_from_a_node_on_are_found(st: InfererV, env: &InferCx, i: u64, found: List<DefId>, d: DefId)
    ensures
        crate::def::def_in_spec(&crate::infer::bound_traits_from(st, env, i, found), d)
            <==> crate::def::def_in_spec(&found, d) || exists|j: u64|
            i <= j < crate::def::node_count_spec(env.tables, st.file) && #[trigger] node_names(st, env, j, d),
    decreases crate::def::node_count_spec(env.tables, st.file) - i,
{
    let n = crate::def::node_count_spec(env.tables, st.file);
    if i < n {
        let here = crate::infer::bounds_at_spec(env.tables, st.file, crate::ids::node_at_spec(i));
        let next = crate::infer::bound_traits_in_spec(st, env, &here, found);
        traits_of_bounds_are_found(st, env, here, found, d);
        traits_from_a_node_on_are_found(st, env, (i + 1) as u64, next, d);
        assert(node_names(st, env, i, d) == bounds_name(st, env, here, d));
        if exists|j: u64| i <= j < n && #[trigger] node_names(st, env, j, d) {
            let j = choose|j: u64| i <= j < n && #[trigger] node_names(st, env, j, d);
            assert(j == i || i + 1 <= j < n && node_names(st, env, j, d));
        }
    }
}

/// Every trait a bound names anywhere in a file is among those found, and besides
/// what was found before nothing else is.
pub proof fn every_bound_is_collected(st: InfererV, env: &InferCx, found: List<DefId>, d: DefId)
    ensures
        crate::def::def_in_spec(&crate::infer::bound_traits_spec(st, env, found), d) <==> crate::def::def_in_spec(
            &found,
            d,
        ) || exists|j: u64|
            0 <= j < crate::def::node_count_spec(env.tables, st.file) && #[trigger] node_names(st, env, j, d),
{
    traits_from_a_node_on_are_found(st, env, 0, found, d);
}

/// A trait that constrains a parameter on its own is named by a bound.
pub proof fn a_trait_alone_is_a_bound(
    st: InfererV,
    env: &InferCx,
    j: u64,
    name: Symbol,
    bound: NodeId,
    d: DefId,
)
    requires
        crate::def::kind_of_spec(env.tables, st.file, crate::ids::node_at_spec(j)) == Some(
            &crate::ast::NodeKind::GenericTypeParam { name, constraint: Some(bound) },
        ),
        !(crate::def::kind_of_spec(env.tables, st.file, bound) matches Some(crate::ast::NodeKind::Bounds { .. })),
        crate::infer::named_def_spec(st, env, st.file, crate::infer::bound_head_spec(env.tables, st.file, bound))
            == Some(d),
        crate::def::def_kind_spec(env.tables, d) == DefKind::Trait,
    ensures
        node_names(st, env, j, d),
{
    reveal_with_fuel(bounds_name, 2);
}

} // verus!
