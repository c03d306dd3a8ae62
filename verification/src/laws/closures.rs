//! Laws of lowering closures: what is captured, where it is kept, and how it is
//! read.

use vstd::prelude::*;

use crate::ast::NodeKind;
use crate::ids::{DefId, NodeId};
use crate::ir::{Expr, ExprKind, Function, Member, TypeDef, TypeDefKind};
use crate::laws::control::shape;
use crate::list::List;
use crate::lower::{
    add_capture_spec, capture_copies_spec, capture_shared_spec, captured_spec, lower_block_spec, ty_of_spec,
    CaptureSet, ClosureCx, LowerCx, LowererV,
};
use crate::symbol::Symbol;
use crate::ty::Ty;

verus! {

/// Where in a closure's fields a definition is first kept.
pub open spec fn kept_at(fields: Seq<(DefId, (Symbol, Ty, bool))>, def: DefId, i: int) -> bool {
    &&& 0 <= i < fields.len()
    &&& fields[i].0 == def
    &&& forall|j: int| 0 <= j < i ==> (#[trigger] fields[j]).0 != def
}

proof fn a_capture_is_found(l: List<(DefId, (Symbol, Ty, bool))>, def: DefId)
    ensures
        match crate::lower::find_capture_spec(&l, def) {
            Some(m) => exists|i: int| #[trigger] kept_at(l@, def, i) && m == l@[i].1,
            None => forall|j: int| 0 <= j < l@.len() ==> (#[trigger] l@[j]).0 != def,
        },
    decreases l,
{
    match l {
        List::Nil => {},
        List::Cons(h, t) => {
            assert(l@ =~= seq![h] + t@);
            if h.0 == def {
                assert(kept_at(l@, def, 0));
            } else {
                a_capture_is_found(*t, def);
                match crate::lower::find_capture_spec(&*t, def) {
                    Some(m) => {
                        let i = choose|i: int| #[trigger] kept_at(t@, def, i) && m == t@[i].1;
                        assert forall|j: int| 0 <= j < i + 1 implies (#[trigger] l@[j]).0 != def by {
                            if j > 0 {
                                assert(l@[j] == t@[j - 1]);
                            }
                        }
                        assert(l@[i + 1] == t@[i]);
                        assert(kept_at(l@, def, i + 1));
                    },
                    None => {
                        assert forall|j: int| 0 <= j < l@.len() implies (#[trigger] l@[j]).0 != def by {
                            if j > 0 {
                                assert(l@[j] == t@[j - 1]);
                            }
                        }
                    },
                }
            }
        },
    }
}

/// Whether an expression is a member of the closure whose body it stands in, read
/// through the pointer that body gets to the closure.
pub open spec fn reads_member(st: LowererV, e: Expr, this: DefId, name: Symbol, ty: Ty) -> bool {
    &&& ty_of_spec(st, &e) == ty
    &&& match e.kind {
        ExprKind::Field { base, name: n, def } => {
            &&& n == name
            &&& def is None
            &&& match base.kind {
                ExprKind::Deref { base: p } => p.kind == ExprKind::Local(this),
                _ => false,
            }
        },
        _ => false,
    }
}

/// Inside a closure, what it captured is read out of it: a copy is the member itself,
/// and a shared local what the member points at, of the type it is used at. What the
/// innermost closure did not capture is not read out of it.
pub proof fn a_captured_name_is_read_out_of_the_closure(
    st: LowererV,
    cx: &LowerCx,
    node: NodeId,
    def: DefId,
    ty: Ty,
    c: ClosureCx,
    around: List<ClosureCx>,
    i: int,
)
    requires
        st.closures == List::Cons(c, Box::new(around)),
        kept_at(c.fields@, def, i),
        st.meta.next < u64::MAX - 4,
    ensures
        ({
            let (name, kept, shared) = c.fields@[i].1;
            let (after, seen) = captured_spec(st, cx, node, def, &ty);
            match seen {
                Some(e) => if shared {
                    &&& ty_of_spec(after, &e) == ty
                    &&& match e.kind {
                        ExprKind::Deref { base } => reads_member(after, *base, c.this, name, kept),
                        _ => false,
                    }
                } else {
                    reads_member(after, e, c.this, name, kept)
                },
                None => false,
            }
        }),
{
    a_capture_is_found(c.fields, def);
    match crate::lower::find_capture_spec(&c.fields, def) {
        Some(m) => {
            let j = choose|j: int| #[trigger] kept_at(c.fields@, def, j) && m == c.fields@[j].1;
            assert(i == j) by {
                if i < j {
                    assert(c.fields@[i].0 != def);
                } else if j < i {
                    assert(c.fields@[j].0 != def);
                }
            }
        },
        None => {},
    }
}

/// What the innermost closure did not capture, or what stands in none, is not read
/// out of a closure.
pub proof fn what_is_not_captured_is_not_read_out(st: LowererV, cx: &LowerCx, node: NodeId, def: DefId, ty: Ty)
    requires
        match st.closures {
            List::Nil => true,
            List::Cons(c, _) => forall|j: int| 0 <= j < c.fields@.len() ==> (#[trigger] c.fields@[j]).0 != def,
        },
    ensures
        captured_spec(st, cx, node, def, &ty) == (st, None::<Expr>),
{
    match st.closures {
        List::Nil => {},
        List::Cons(c, _) => {
            a_capture_is_found(c.fields, def);
            match crate::lower::find_capture_spec(&c.fields, def) {
                Some(m) => {
                    let i = choose|i: int| #[trigger] kept_at(c.fields@, def, i) && m == c.fields@[i].1;
                    assert(c.fields@[i].0 == def);
                },
                None => {},
            }
        },
    }
}

/// Whether what a closure's body reads, what its type declares and what its value is
/// built from are the same members: one for each capture, of one name and one type.
pub open spec fn consistent(s: CaptureSet) -> bool {
    &&& s.members@.len() == s.fields@.len()
    &&& s.values@.len() == s.fields@.len()
    &&& forall|k: int|
        0 <= k < s.members@.len() ==> {
            let f = s.fields@[s.fields@.len() - 1 - k].1;
            (#[trigger] s.members@[k]) == (f.0, f.1) && s.values@[k].0 == f.0
        }
}

proof fn one_more_is_consistent(s: CaptureSet, def: DefId, name: Symbol, ty: Ty, shared: bool, value: Expr)
    requires
        consistent(s),
    ensures
        ({
            let r = add_capture_spec(s, def, name, ty, shared, value);
            &&& consistent(r)
            &&& r.fields@ == seq![(def, (name, ty, shared))] + s.fields@
            &&& r.members@ == s.members@.push((name, ty))
            &&& r.values@ == s.values@.push((name, value))
        }),
{
    let r = add_capture_spec(s, def, name, ty, shared, value);
    reveal_with_fuel(crate::list::list_seq, 2);
    crate::laws::generics::appending_keeps_both(s.members, crate::list::single_spec((name, ty)));
    crate::laws::generics::appending_keeps_both(s.values, crate::list::single_spec((name, value)));
    assert(crate::list::single_spec((name, ty))@ =~= seq![(name, ty)]);
    assert(crate::list::single_spec((name, value))@ =~= seq![(name, value)]);
    assert(r.members@ =~= s.members@.push((name, ty)));
    assert(r.values@ =~= s.values@.push((name, value)));
    assert(r.fields@ =~= seq![(def, (name, ty, shared))] + s.fields@);
    assert forall|k: int| 0 <= k < r.members@.len() implies {
        let f = r.fields@[r.fields@.len() - 1 - k].1;
        (#[trigger] r.members@[k]) == (f.0, f.1) && r.values@[k].0 == f.0
    } by {
        if k < s.members@.len() {
            assert(r.members@[k] == s.members@[k]);
            assert(r.fields@[r.fields@.len() - 1 - k] == s.fields@[s.fields@.len() - 1 - k]);
        }
    }
}

/// Whether the captures that were added are copies: each of a definition's value, of
/// its own type.
pub open spec fn adds_only(before: CaptureSet, after: CaptureSet, shared: bool) -> bool {
    &&& before.fields@.len() <= after.fields@.len()
    &&& after.fields@.subrange(after.fields@.len() - before.fields@.len(), after.fields@.len() as int)
        == before.fields@
    &&& forall|k: int|
        0 <= k < after.fields@.len() - before.fields@.len() ==> (#[trigger] after.fields@[k]).1.2 == shared
}

proof fn adding_goes_on(a: CaptureSet, b: CaptureSet, c: CaptureSet, shared: bool)
    requires
        adds_only(a, b, shared),
        adds_only(b, c, shared),
    ensures
        adds_only(a, c, shared),
{
    let (x, y, z) = (a.fields@.len() as int, b.fields@.len() as int, c.fields@.len() as int);
    assert(c.fields@.subrange(z - x, z) =~= a.fields@) by {
        assert forall|k: int| 0 <= k < x implies c.fields@.subrange(z - x, z)[k] == a.fields@[k] by {
            assert(c.fields@.subrange(z - y, z)[y - x + k] == b.fields@[y - x + k]);
            assert(b.fields@.subrange(y - x, y)[k] == a.fields@[k]);
        }
    }
    assert forall|k: int| 0 <= k < z - x implies (#[trigger] c.fields@[k]).1.2 == shared by {
        if k >= z - y {
            assert(c.fields@.subrange(z - y, z)[k - (z - y)] == b.fields@[k - (z - y)]);
        }
    }
}

proof fn one_more_adds_only(s: CaptureSet, def: DefId, name: Symbol, ty: Ty, shared: bool, value: Expr)
    requires
        consistent(s),
    ensures
        adds_only(s, add_capture_spec(s, def, name, ty, shared, value), shared),
{
    one_more_is_consistent(s, def, name, ty, shared, value);
    let r = add_capture_spec(s, def, name, ty, shared, value);
    assert(r.fields@.subrange(1, r.fields@.len() as int) =~= s.fields@);
}

/// What a closure names to copy is copied: kept as its value, under a name of its own,
/// and read as it is.
pub proof fn copies_are_kept_as_values(st: LowererV, cx: &LowerCx, l: List<NodeId>, s: CaptureSet)
    requires
        consistent(s),
    ensures
        ({
            let r = capture_copies_spec(st, cx, &l, s).1;
            consistent(r) && adds_only(s, r, false)
        }),
    decreases l,
{
    match l {
        List::Nil => {
            assert(s.fields@.subrange(0, s.fields@.len() as int) =~= s.fields@);
        },
        List::Cons(c, rest) => match (
            crate::lower::def_of_spec(st, cx, c),
            crate::lower::resolved_def_spec(st, cx, c),
        ) {
            (Some(inner), Some(outer)) => {
                let t = crate::lower::ty_spec(st, cx, c);
                let name = crate::lower::capture_name_spec(&s, &crate::def::def_name_spec(cx.tables, inner));
                let (next, value) = crate::lower::use_of_spec(st, cx, c, outer, &t);
                one_more_is_consistent(s, inner, name, t, false, value);
                one_more_adds_only(s, inner, name, t, false, value);
                let more = add_capture_spec(s, inner, name, t, false, value);
                copies_are_kept_as_values(next, cx, *rest, more);
                adding_goes_on(s, more, capture_copies_spec(next, cx, &*rest, more).1, false);
            },
            _ => copies_are_kept_as_values(st, cx, *rest, s),
        },
    }
}

/// The first thing a closure names to copy is kept under its own definition, as the
/// value and of the type it has where the closure is made.
pub proof fn a_copy_is_the_value_of_what_it_copies(
    st: LowererV,
    cx: &LowerCx,
    node: NodeId,
    inner: DefId,
    outer: DefId,
    s: CaptureSet,
)
    requires
        consistent(s),
        crate::lower::def_of_spec(st, cx, node) == Some(inner),
        crate::lower::resolved_def_spec(st, cx, node) == Some(outer),
    ensures
        ({
            let t = crate::lower::ty_spec(st, cx, node);
            let r = capture_copies_spec(st, cx, &crate::list::single_spec(node), s).1;
            &&& r.fields@[0].0 == inner
            &&& r.fields@[0].1.1 == t
            &&& !r.fields@[0].1.2
            &&& r.values@.last().1 == crate::lower::use_of_spec(st, cx, node, outer, &t).1
        }),
{
    reveal_with_fuel(capture_copies_spec, 3);
    let t = crate::lower::ty_spec(st, cx, node);
    let name = crate::lower::capture_name_spec(&s, &crate::def::def_name_spec(cx.tables, inner));
    let value = crate::lower::use_of_spec(st, cx, node, outer, &t).1;
    one_more_is_consistent(s, inner, name, t, false, value);
}

/// What a closure shares is kept as its address, under its own definition, and read
/// through it.
pub proof fn shared_locals_are_kept_as_addresses(
    st: LowererV,
    cx: &LowerCx,
    node: NodeId,
    defs: List<DefId>,
    tys: List<Ty>,
    s: CaptureSet,
)
    requires
        consistent(s),
    ensures
        ({
            let r = capture_shared_spec(st, cx, node, &defs, &tys, s).1;
            consistent(r) && adds_only(s, r, true)
        }),
    decreases defs,
{
    match (defs, tys) {
        (List::Cons(d, ds), List::Cons(t, ts)) => {
            let mutable = crate::lower::def_mutable_spec(cx.tables, d);
            let fty = Ty::Ptr { mutable: mutable, inner: Box::new(t) };
            let name = crate::lower::capture_name_spec(&s, &crate::def::def_name_spec(cx.tables, d));
            let (one, place) = crate::lower::use_of_spec(st, cx, node, d, &t);
            let (two, addr) = crate::lower::expr_spec(
                one,
                cx,
                node,
                fty,
                ExprKind::Ref { mutable: mutable, place: Box::new(place) },
            );
            one_more_is_consistent(s, d, name, fty, true, addr);
            one_more_adds_only(s, d, name, fty, true, addr);
            let more = add_capture_spec(s, d, name, fty, true, addr);
            shared_locals_are_kept_as_addresses(two, cx, node, *ds, *ts, more);
            adding_goes_on(s, more, capture_shared_spec(two, cx, node, &*ds, &*ts, more).1, true);
        },
        _ => {
            assert(s.fields@.subrange(0, s.fields@.len() as int) =~= s.fields@);
        },
    }
}

/// A shared local's member points at it, with the permission to write it has, and is
/// filled with its address.
pub proof fn a_shared_member_is_the_address_of_its_local(
    st: LowererV,
    cx: &LowerCx,
    node: NodeId,
    d: DefId,
    t: Ty,
    s: CaptureSet,
)
    requires
        consistent(s),
    ensures
        ({
            let r = capture_shared_spec(
                st,
                cx,
                node,
                &crate::list::single_spec(d),
                &crate::list::single_spec(t),
                s,
            ).1;
            let mutable = match crate::def::get_def_spec(cx.tables, d) {
                Some(def) => def.mutable,
                None => false,
            };
            &&& r.fields@[0].0 == d
            &&& r.fields@[0].1.1 == Ty::Ptr { mutable: mutable, inner: Box::new(t) }
            &&& r.fields@[0].1.2
            &&& r.values@.last().1.kind == ExprKind::Ref {
                mutable: mutable,
                place: Box::new(crate::lower::use_of_spec(st, cx, node, d, &t).1),
            }
        }),
{
    reveal_with_fuel(capture_shared_spec, 3);
    let mutable = crate::lower::def_mutable_spec(cx.tables, d);
    let fty = Ty::Ptr { mutable: mutable, inner: Box::new(t) };
    let name = crate::lower::capture_name_spec(&s, &crate::def::def_name_spec(cx.tables, d));
    let (one, place) = crate::lower::use_of_spec(st, cx, node, d, &t);
    let addr = crate::lower::expr_spec(
        one,
        cx,
        node,
        fty,
        ExprKind::Ref { mutable: mutable, place: Box::new(place) },
    ).1;
    one_more_is_consistent(s, d, name, fty, true, addr);
}

proof fn read_constants_are_consistent(st: LowererV, cx: &LowerCx, l: List<(NodeId, DefId)>, s: CaptureSet)
    requires
        consistent(s),
    ensures
        ({
            let r = crate::lower::capture_consts_spec(st, cx, &l, s).1;
            consistent(r) && adds_only(s, r, false)
        }),
    decreases l,
{
    match l {
        List::Nil => {
            assert(s.fields@.subrange(0, s.fields@.len() as int) =~= s.fields@);
        },
        List::Cons(h, rest) => {
            let t = crate::lower::ty_spec(st, cx, h.0);
            let name = crate::lower::capture_name_spec(&s, &crate::def::def_name_spec(cx.tables, h.1));
            let (next, value) = crate::lower::use_of_spec(st, cx, h.0, h.1, &t);
            one_more_is_consistent(s, h.1, name, t, false, value);
            one_more_adds_only(s, h.1, name, t, false, value);
            let more = add_capture_spec(s, h.1, name, t, false, value);
            read_constants_are_consistent(next, cx, *rest, more);
            adding_goes_on(s, more, crate::lower::capture_consts_spec(next, cx, &*rest, more).1, false);
        },
    }
}

proof fn members_are_named(st: LowererV, cx: &LowerCx, node: NodeId, l: List<(Symbol, Ty)>)
    ensures
        ({
            let ms = crate::lower::capture_members_spec(st, cx, node, &l).1;
            &&& ms@.len() == l@.len()
            &&& forall|k: int| 0 <= k < l@.len() ==> (#[trigger] ms@[k]).name == l@[k].0
        }),
    decreases l,
{
    match l {
        List::Nil => {},
        List::Cons(h, t) => {
            let (one, id) = crate::lower::id_spec(st, cx, node);
            let two = crate::lower::set_ty_spec(one, id, h.1);
            members_are_named(two, cx, node, *t);
            let ms = crate::lower::capture_members_spec(st, cx, node, &l).1;
            let rest = crate::lower::capture_members_spec(two, cx, node, &*t).1;
            assert(l@ =~= seq![h] + t@);
            assert(ms@ =~= seq![Member { id: id, def: None, name: h.0 }] + rest@);
        },
    }
}

/// Whether a closure's value, its type and its body agree on what it captured.
pub open spec fn built_from(s: CaptureSet, value: Expr, ty: TypeDef, def: DefId) -> bool {
    &&& consistent(s)
    &&& value.kind == ExprKind::Construct { def: Some(def), fields: Box::new(s.values) }
    &&& ty.def == def
    &&& match ty.kind {
        TypeDefKind::Struct { members } => {
            &&& members@.len() == s.members@.len()
            &&& forall|k: int| 0 <= k < members@.len() ==> (#[trigger] members@[k]).name == s.members@[k].0
        },
        _ => false,
    }
}

/// Whether a function is a closure's body, lowered inside that closure.
pub open spec fn is_body(s: CaptureSet, f: Function, cx: &LowerCx, this: DefId, this_ty: Ty, body: NodeId, fuel: u64) -> bool {
    exists|mid: LowererV|
        f.body == Some(
            (#[trigger] lower_block_spec(
                crate::lower::enter_closure_spec(mid, ClosureCx { this: this, this_ty: this_ty, fields: s.fields }),
                cx,
                body,
                fuel,
            )).1,
        )
}

/// A closure is the struct of what it captured, built from those values; the type of
/// that struct declares those members; and its body, lifted into a function, is
/// lowered where each captured definition is found in the member that holds it.
#[verifier::rlimit(30)]
pub proof fn a_closure_agrees_on_what_it_captured(
    st: LowererV,
    cx: &LowerCx,
    node: NodeId,
    captures: List<NodeId>,
    params: List<NodeId>,
    ret: Option<NodeId>,
    body: NodeId,
    ty: Ty,
    fuel: u64,
) -> (s: CaptureSet)
    requires
        fuel > 1,
        shape(st, cx, node) == Some(NodeKind::Closure { captures, params, ret, body }),
        crate::facts::fact_closure_defs_spec(cx.facts, st.file, node) is Some,
        crate::facts::fact_closure_sig_spec(cx.facts, st.file, node) is Some,
    ensures
        ({
            let defs = *crate::facts::fact_closure_defs_spec(cx.facts, st.file, node)->0;
            let (after, e) = crate::lower::lower_closure_spec(st, cx, node, ty, fuel);
            &&& after.lifted@.len() > 0
            &&& after.lifted@.last().def == defs.call
            &&& exists|t: TypeDef| #[trigger] built_from(s, e, t, defs.ty)
            &&& exists|own: Ty| #[trigger] is_body(
                s,
                after.lifted@.last(),
                cx,
                defs.this,
                Ty::Ptr { mutable: false, inner: Box::new(own) },
                body,
                (fuel - 2) as u64,
            )
        }),
{
    let defs = *crate::facts::fact_closure_defs_spec(cx.facts, st.file, node)->0;
    let sig = *crate::facts::fact_closure_sig_spec(cx.facts, st.file, node)->0;
    let less = (fuel - 1) as u64;
    let shared = match crate::facts::fact_captures_spec(cx.facts, st.file, node) {
        Some(c) => *c,
        None => List::Nil,
    };
    let read = crate::lower::const_params_read_spec(cx, st.file, body, List::Nil, crate::list::DEPTH_LIMIT);
    let s0 = CaptureSet { fields: List::Nil, members: List::Nil, values: List::Nil, taken: List::Nil };
    let (a, s1) = capture_copies_spec(st, cx, &captures, s0);
    let (b, s2) = crate::lower::capture_consts_spec(a, cx, &read, s1);
    let (c, s3) = capture_shared_spec(b, cx, node, &shared, &sig.shared, s2);
    copies_are_kept_as_values(st, cx, captures, s0);
    read_constants_are_consistent(a, cx, read, s1);
    shared_locals_are_kept_as_addresses(b, cx, node, shared, sig.shared, s2);
    let own = Ty::Nominal { def: defs.ty, args: Box::new(crate::ty::nominals_spec(&sig.generics)) };
    let (d, type_id) = crate::lower::id_spec(c, cx, node);
    let d = crate::lower::set_ty_spec(d, type_id, own);
    let (f, members) = crate::lower::capture_members_spec(d, cx, node, &s3.members);
    members_are_named(d, cx, node, s3.members);
    let t = TypeDef {
        id: type_id,
        def: defs.ty,
        name: crate::def::def_name_spec(cx.tables, defs.ty),
        kind: TypeDefKind::Struct { members: members },
    };
    let g = crate::lower::add_lifted_type_spec(f, t);
    let this_ty = Ty::Ptr { mutable: false, inner: Box::new(own) };
    let (h, this_id) = crate::lower::id_spec(g, cx, node);
    let h = crate::lower::set_ty_spec(h, this_id, this_ty);
    let k = crate::lower::lower_params_spec(h, cx, &params, less).0;
    let inside = ClosureCx { this: defs.this, this_ty: this_ty, fields: s3.fields };
    let block = lower_block_spec(crate::lower::enter_closure_spec(k, inside), cx, body, (less - 1) as u64).1;
    let (after, e) = crate::lower::lower_closure_spec(st, cx, node, ty, fuel);
    assert(built_from(s3, e, t, defs.ty));
    assert(exists|before: List<Function>, fun: Function|
        after.lifted == crate::list::append_spec(before, crate::list::single_spec(fun)) && fun.def == defs.call
            && fun.body == Some(block));
    let (before, fun) = choose|before: List<Function>, fun: Function|
        after.lifted == crate::list::append_spec(before, crate::list::single_spec(fun)) && fun.def == defs.call
            && fun.body == Some(block);
    crate::laws::generics::appending_keeps_both(before, crate::list::single_spec(fun));
    reveal_with_fuel(crate::list::list_seq, 2);
    assert(crate::list::single_spec(fun)@ =~= seq![fun]);
    assert(after.lifted@.last() == fun);
    assert(is_body(s3, fun, cx, defs.this, this_ty, body, (fuel - 2) as u64));
    s3
}

} // verus!
