use nest_sema::ast::BinOp;
use nest_sema::bigint::{int_fits, int_neg, int_of};
use nest_sema::bodies::float_fits;
use nest_sema::calls::c_promotion;
use nest_sema::diag::Diagnostic;
use nest_sema::facts::Facts;
use nest_sema::ids::{DefId, FileId};
use nest_sema::list::{list_of, vec_of, List, DEPTH_LIMIT};
use nest_sema::lower::{line_col, member_name, merge_defs, relation_test};
use nest_sema::solve::{consider, Choice};
use nest_sema::subst::{
    args_tuple, bind_ty, int_widens, mentions, no_subst, rebind_ty, sort_by_name, subst_ty, tuple_elems, Mention,
};
use nest_sema::symbol::Symbol;
use nest_sema::ty::{int_ty, nominal, ty_eq, FloatWidth, Ty};
use nest_sema::unify::{Inferer, TyVarKind};

fn text(s: &Symbol) -> String {
    let mut out = String::new();
    let mut at = &s.text;
    while let List::Cons(c, t) = at {
        out.push(*c);
        at = t;
    }
    out
}

fn ptr(mutable: bool, inner: Ty) -> Ty {
    Ty::Ptr { mutable, inner: Box::new(inner) }
}

fn tuple(elems: Vec<Ty>) -> Ty {
    Ty::Tuple(Box::new(list_of(elems)))
}

fn state() -> Inferer {
    let diags: Vec<Diagnostic> = Vec::new();
    Inferer::blank(Facts::new(), diags, FileId(0), false)
}

/// Whether a value of one type may stand for another, and how many variables the
/// attempt solved.
fn agree(a: &Ty, b: &Ty) -> (bool, usize) {
    let mut st = state();
    let clash = st.unify(a, b, DEPTH_LIMIT);
    (clash.is_none(), vec_of(std::mem::replace(&mut st.bindings, List::Nil)).len())
}

#[test]
fn arguments_come_back_out_of_their_tuple() {
    for n in 0..3usize {
        let params = list_of((0..n).map(|i| int_ty(8 << i, true)).collect());
        let back = vec_of(tuple_elems(&args_tuple(&params)));
        let params = vec_of(params);
        assert_eq!(back.len(), n);
        for (x, y) in back.iter().zip(&params) {
            assert!(ty_eq(x, y));
        }
    }
    assert!(matches!(args_tuple(&List::Nil), Ty::Void));
    assert_eq!(vec_of(tuple_elems(&Ty::Bool)).len(), 1);
}

#[test]
fn an_instantiation_replaces_what_it_binds() {
    let t = ptr(true, tuple(vec![nominal(DefId(1)), nominal(DefId(2))]));
    assert!(ty_eq(&subst_ty(&t, &no_subst()), &t));
    let map = bind_ty(no_subst(), DefId(1), Ty::Bool);
    assert!(ty_eq(&subst_ty(&t, &map), &ptr(true, tuple(vec![Ty::Bool, nominal(DefId(2))]))));
}

#[test]
fn a_distinct_type_takes_the_place_of_its_representation() {
    let from = int_ty(32, true);
    let to = nominal(DefId(7));
    let t = ptr(false, tuple(vec![int_ty(32, true), Ty::Bool]));
    assert!(ty_eq(&rebind_ty(&t, &from, &from), &t));
    assert!(ty_eq(&rebind_ty(&t, &from, &to), &ptr(false, tuple(vec![nominal(DefId(7)), Ty::Bool]))));
}

#[test]
fn widening_is_one_way() {
    assert!(int_widens((false, 8), (false, 16)));
    assert!(int_widens((false, 8), (true, 16)));
    assert!(int_widens((true, 8), (true, 16)));
    assert!(!int_widens((true, 8), (false, 16)));
    assert!(!int_widens((false, 16), (false, 8)));
    assert!(!int_widens((false, 8), (false, 8)));
    assert!(!int_widens((false, 8), (true, 8)));
}

#[test]
fn a_value_fits_the_range_of_its_type() {
    assert!(int_fits(&int_of(255), false, 8));
    assert!(!int_fits(&int_of(256), false, 8));
    assert!(!int_fits(&int_neg(&int_of(1)), false, 8));
    assert!(int_fits(&int_of(127), true, 8));
    assert!(!int_fits(&int_of(128), true, 8));
    assert!(int_fits(&int_neg(&int_of(128)), true, 8));
    assert!(!int_fits(&int_neg(&int_of(129)), true, 8));
    assert!(int_fits(&int_of(u64::MAX), false, 64));
    assert!(!int_fits(&int_of(u64::MAX), true, 64));
    assert!(int_fits(&int_of(u64::MAX), true, 65));
}

#[test]
fn a_float_fits_what_does_not_lose_it() {
    let at = |x: f64, w: FloatWidth| float_fits(x.to_bits(), w);
    assert!(at(65504.0, FloatWidth::F16));
    assert!(at(65519.0, FloatWidth::F16));
    assert!(!at(65520.0, FloatWidth::F16));
    assert!(!at(-65520.0, FloatWidth::F16));
    assert!(at(6e-8, FloatWidth::F16));
    assert!(!at(2.9802322387695312e-8, FloatWidth::F16));
    assert!(at(f32::MAX as f64, FloatWidth::F32));
    assert!(!at(f64::MAX, FloatWidth::F32));
    assert!(at(f64::MAX, FloatWidth::F64));
    assert!(!at(f64::INFINITY, FloatWidth::F64));
    assert!(at(0.0, FloatWidth::F16));
    assert!(at(-0.0, FloatWidth::F16));
    // The edges of single precision are those of the conversion itself.
    for x in [3.4028235677973366e38, 3.4028235677973362e38, 7.006492321624085e-46, 7.006492321624086e-46] {
        let rounded = x as f32;
        assert_eq!(at(x, FloatWidth::F32), rounded.is_finite() && rounded != 0.0, "{x}");
    }
}

#[test]
fn c_promotes_once() {
    assert!(ty_eq(&c_promotion(&Ty::Bool).unwrap(), &int_ty(32, true)));
    assert!(ty_eq(&c_promotion(&int_ty(8, false)).unwrap(), &int_ty(32, true)));
    assert!(ty_eq(&c_promotion(&Ty::Float(FloatWidth::F32)).unwrap(), &Ty::Float(FloatWidth::F64)));
    assert!(c_promotion(&int_ty(32, true)).is_none());
    assert!(c_promotion(&int_ty(64, false)).is_none());
    assert!(c_promotion(&Ty::Float(FloatWidth::F64)).is_none());
}

#[test]
fn settled_types_agree_where_one_fits() {
    let a = ptr(true, tuple(vec![int_ty(8, false), Ty::Bool]));
    assert_eq!(agree(&a, &a), (true, 0));
    // A permission to write may be given up, and never gained.
    assert_eq!(agree(&ptr(true, Ty::Bool), &ptr(false, Ty::Bool)), (true, 0));
    assert_eq!(agree(&ptr(false, Ty::Bool), &ptr(true, Ty::Bool)), (false, 0));
    // An error and `never` agree with anything.
    assert_eq!(agree(&Ty::Error, &Ty::Bool), (true, 0));
    assert_eq!(agree(&ptr(false, Ty::Never), &ptr(false, Ty::Bool)), (true, 0));
    assert_eq!(agree(&int_ty(8, false), &int_ty(8, true)), (false, 0));
    assert_eq!(agree(&int_ty(8, false), &int_ty(16, false)), (false, 0));
    assert_eq!(agree(&nominal(DefId(3)), &nominal(DefId(4))), (false, 0));
    assert_eq!(agree(&tuple(vec![Ty::Bool]), &tuple(vec![Ty::Bool, Ty::Bool])), (false, 0));
}

#[test]
fn a_variable_is_solved_by_what_it_meets() {
    let mut st = state();
    let v = st.fresh();
    assert!(mentions(&v, Mention::Var));
    assert!(st.unify(&v, &ptr(false, Ty::Bool), DEPTH_LIMIT).is_none());
    assert!(ty_eq(&st.resolve(&v, DEPTH_LIMIT), &ptr(false, Ty::Bool)));
    // A type is no part of itself.
    let w = st.fresh();
    let knot = ptr(false, st.resolve(&w, DEPTH_LIMIT));
    assert!(st.unify(&w, &knot, DEPTH_LIMIT).is_some());
    // An integer literal becomes an integer, and nothing else.
    let n = st.fresh_of(TyVarKind::Int);
    assert!(st.unify(&n, &Ty::Bool, DEPTH_LIMIT).is_some());
    assert!(st.unify(&n, &int_ty(16, false), DEPTH_LIMIT).is_none());
    let (t, open) = st.finalize(&n, DEPTH_LIMIT);
    assert!(ty_eq(&t, &int_ty(16, false)));
    assert!(!open);
    // What nothing solved is an error, and said to be open.
    let (t, open) = st.finalize(&w, DEPTH_LIMIT);
    assert!(matches!(t, Ty::Error));
    assert!(open);
}

#[test]
fn a_question_leaves_no_trace() {
    let mut st = state();
    let v = st.fresh();
    assert!(st.agree(&v, &Ty::Bool));
    assert!(ty_eq(&st.resolve(&v, DEPTH_LIMIT), &v));
    let before = st.snapshot();
    assert!(st.unify(&v, &Ty::Bool, DEPTH_LIMIT).is_none());
    st.rollback(before);
    assert!(mentions(&st.resolve(&v, DEPTH_LIMIT), Mention::Var));
}

#[test]
fn members_are_sorted_by_name() {
    let l = list_of(
        ["b", "a", "ab", "", "b"].iter().enumerate().map(|(i, n)| (Symbol::new(n), DefId(i as u32))).collect(),
    );
    let sorted: Vec<(String, u32)> = vec_of(sort_by_name(l)).iter().map(|(n, d)| (text(n), d.0)).collect();
    assert_eq!(
        sorted,
        vec![
            ("".to_string(), 3),
            ("a".to_string(), 1),
            ("ab".to_string(), 2),
            ("b".to_string(), 0),
            ("b".to_string(), 4)
        ]
    );
}

#[test]
fn merging_adds_behind_and_repeats_nothing() {
    let l = |v: &[u32]| list_of(v.iter().map(|d| DefId(*d)).collect());
    let merged: Vec<u32> = vec_of(merge_defs(l(&[3, 1]), &l(&[1, 2, 2, 3, 4]))).iter().map(|d| d.0).collect();
    assert_eq!(merged, vec![3, 1, 2, 4]);
}

#[test]
fn the_first_of_the_best_candidates_wins() {
    let mut best = None;
    for (score, i) in [(1, 0), (3, 1), (2, 2)] {
        best = consider(best, score, Choice::User(i));
    }
    let b = best.unwrap();
    assert_eq!(b.choice, Choice::User(1));
    assert!(!b.tied);
    let b = consider(best, 3, Choice::User(3)).unwrap();
    assert_eq!(b.choice, Choice::User(1));
    assert!(b.tied);
}

#[test]
fn a_member_name_is_free() {
    let taken = list_of(vec![Symbol::new("x"), Symbol::new("x#1"), Symbol::new("y")]);
    assert_eq!(text(&member_name(&Symbol::new("x"), &taken, 0, 3)), "x#2");
    assert_eq!(text(&member_name(&Symbol::new("z"), &taken, 0, 3)), "z");
    assert_eq!(text(&member_name(&Symbol::new("y"), &taken, 0, 3)), "y#1");
}

#[test]
fn a_position_has_a_line_and_a_column() {
    let starts = list_of(vec![0, 10, 20]);
    assert_eq!(line_col(&starts, 0), (1, 1));
    assert_eq!(line_col(&starts, 9), (1, 10));
    assert_eq!(line_col(&starts, 10), (2, 1));
    assert_eq!(line_col(&starts, 25), (3, 6));
    assert_eq!(line_col(&List::Nil, 4), (1, 5));
}

#[test]
fn relations_test_one_side_of_the_ordering() {
    let cases = [
        (BinOp::Lt, "less", true),
        (BinOp::Ge, "less", false),
        (BinOp::Gt, "greater", true),
        (BinOp::Le, "greater", false),
    ];
    for (op, variant, hit) in cases {
        let (name, when) = relation_test(op);
        assert_eq!((text(&name).as_str(), when), (variant, hit));
    }
}
