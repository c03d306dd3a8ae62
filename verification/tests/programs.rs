use nest_sema::ast::{
    Ast, BinOp, CompositeBody, Lit, Node, NodeKind, RangeKind, SliceRest, StructKind, UnOp, VariantArgs, VariantPatArgs,
    VariantPayload,
};
use nest_sema::bigint::{int_neg, int_of, int_to_double, Int};
use nest_sema::calls::collect_generic_params;
use nest_sema::def::{Def, DefKind, ImplInfo, ImplSyntax, SourceFile, Tables, Vis};
use nest_sema::diag::Part;
use nest_sema::facts::{Facts, GenericArg, MethodDispatch, RecvAdjust, Resolution};
use nest_sema::ids::{file_key, node_key, DefId, FileId, NodeId, Span};
use nest_sema::infer::{
    fold_const_values, infer_file, resolve_impl_targets, resolve_param_decls, signature_from_tree, too_deep,
};
use nest_sema::ir::{Expr, ExprKind, Meta, PatternKind, StmtKind};
use nest_sema::list::{list_of, vec_of, List};
use nest_sema::lower::lower_file;
use nest_sema::subst::rebind_ty;
use nest_sema::symbol::Symbol;
use nest_sema::table::Table;
use nest_sema::text::{render, ty_pieces, value_pieces, Piece};
use nest_sema::ty::{const_eq, ConstValue, FloatWidth, Ty};
use nest_sema::unify::{InferCx, Inferer};
use num_bigint::{BigInt, Sign};
use num_traits::ToPrimitive;

const FILE: FileId = FileId(0);

/// A program under construction: one file, with names resolved as it is built.
struct Build {
    nodes: Vec<Node>,
    defs: Vec<Def>,
    facts: Facts,
    lang: Vec<(Symbol, DefId)>,
    impls: Vec<ImplInfo>,
    root: DefId,
    prims: Vec<(&'static str, DefId)>,
}

/// A program that was inferred.
struct Done {
    tables: Tables,
    facts: Facts,
    impls: Vec<ImplInfo>,
    messages: Vec<String>,
}

fn text(l: &List<char>) -> String {
    let mut s = String::new();
    let mut at = l;
    while let List::Cons(c, t) = at {
        s.push(*c);
        at = t;
    }
    s
}

fn pieces(l: List<Piece>) -> String {
    let mut s = String::new();
    for p in vec_of(l) {
        match p {
            Piece::Text(t) => s.push_str(&text(&t)),
            Piece::Float(b) => s.push_str(&format!("{:?}", f64::from_bits(b))),
        }
    }
    s
}

fn message(t: &Tables, m: &List<Part>) -> String {
    pieces(render(t, m))
}

fn syms(l: &[&str]) -> List<Symbol> {
    list_of(l.iter().map(|s| Symbol::new(s)).collect())
}

fn nodes(l: &[NodeId]) -> List<NodeId> {
    list_of(l.to_vec())
}

impl Build {
    fn new() -> Build {
        let mut b = Build {
            nodes: Vec::new(),
            defs: Vec::new(),
            facts: Facts::new(),
            lang: Vec::new(),
            impls: Vec::new(),
            root: DefId(0),
            prims: Vec::new(),
        };
        b.root = b.def("main", DefKind::Namespace, None);
        for p in ["bool", "u8", "u16", "u32", "i8", "i32", "i64", "f32", "f64", "never", "void", "char"] {
            let d = b.def(p, DefKind::Primitive, None);
            b.prims.push((p, d));
        }
        b
    }

    fn def(&mut self, name: &str, kind: DefKind, node: Option<NodeId>) -> DefId {
        let id = DefId(self.defs.len() as u32);
        let parent = if self.defs.is_empty() { None } else { Some(self.root) };
        self.defs.push(Def {
            id,
            name: Symbol::new(name),
            path: Symbol::new(name),
            kind,
            file: node.map(|_| FILE),
            node,
            parent,
            vis: Vis::Public,
            mutable: false,
            directives: List::Nil,
            alias: None,
            lang: None,
            intrinsic: None,
            c_variadic: false,
            opaque: false,
            projection: None,
            param_bounds: None,
            assoc_bounds: None,
            using_field: None,
            members: List::Nil,
            imported: List::Nil,
            globs: List::Nil,
        });
        id
    }

    fn node(&mut self, kind: NodeKind) -> NodeId {
        let id = NodeId(self.nodes.len() as u32);
        self.nodes.push(Node { kind, file: FILE, span: Span { start: id.0, end: id.0 + 1 } });
        id
    }

    fn resolve(&mut self, node: NodeId, d: DefId) {
        self.facts.resolution.set(node_key(FILE, node), Resolution::Def(d));
    }

    fn declares(&mut self, node: NodeId, d: DefId) {
        self.facts.def_meta.set(node_key(FILE, node), d);
    }

    fn add_member(&mut self, owner: DefId, name: &str, d: DefId) {
        let mut l = Vec::new();
        let old = std::mem::replace(&mut self.defs[owner.0 as usize].members, List::Nil);
        l.extend(vec_of(old));
        l.push((Symbol::new(name), d));
        self.defs[owner.0 as usize].members = list_of(l);
        self.defs[d.0 as usize].parent = Some(owner);
    }

    fn prim(&self, name: &str) -> DefId {
        self.prims.iter().find(|(n, _)| *n == name).unwrap().1
    }

    fn lang_item(&mut self, tag: &str, d: DefId) {
        self.defs[d.0 as usize].lang = Some(Symbol::new(tag));
        self.lang.push((Symbol::new(tag), d));
    }

    /// `usize` and `isize`, as core declares them.
    fn pointer_sized(&mut self) {
        for (name, family) in [("usize", "uint"), ("isize", "int")] {
            let d = self.def(family, DefKind::Primitive, None);
            let path = self.path(d);
            let width = self.number(64);
            let inner = self.node(NodeKind::TypePath { path, generic_args: nodes(&[width]) });
            self.resolve(inner, d);
            let rhs = self.node(NodeKind::DistinctType { inner });
            let u = self.bind(name, DefKind::Const, rhs);
            self.lang_item(name, u);
            self.prims.push((name, u));
        }
    }

    /// A name that resolves to a definition.
    fn path(&mut self, d: DefId) -> NodeId {
        let n = self.node(NodeKind::Path { segments: syms(&["x"]) });
        self.resolve(n, d);
        n
    }

    fn ty_of(&mut self, d: DefId) -> NodeId {
        let path = self.path(d);
        let n = self.node(NodeKind::TypePath { path, generic_args: List::Nil });
        self.resolve(n, d);
        n
    }

    fn ty(&mut self, name: &str) -> NodeId {
        let d = self.prim(name);
        self.ty_of(d)
    }

    fn number(&mut self, n: u64) -> NodeId {
        self.node(NodeKind::Lit(Lit::Int(int_of(n))))
    }

    fn boolean(&mut self, b: bool) -> NodeId {
        self.node(NodeKind::Lit(Lit::Bool(b)))
    }

    /// A parameter, and the definition it binds.
    fn param(&mut self, name: &str, ty: NodeId, default: Option<NodeId>) -> (NodeId, DefId) {
        let n = self.node(NodeKind::Param { name: Symbol::new(name), ty: Some(ty), default });
        let d = self.def(name, DefKind::Param, Some(n));
        self.declares(n, d);
        (n, d)
    }

    fn local(&mut self, name: &str, ty: Option<NodeId>, value: NodeId) -> (NodeId, DefId) {
        let pattern = self.node(NodeKind::BindingPat { name: Symbol::new(name) });
        let d = self.def(name, DefKind::Local, Some(pattern));
        self.declares(pattern, d);
        (self.node(NodeKind::LocalDecl { pattern, ty, value }), d)
    }

    fn block(&mut self, stmts: &[NodeId], tail: Option<NodeId>) -> NodeId {
        self.node(NodeKind::Block { stmts: nodes(stmts), tail })
    }

    fn ret(&mut self, value: NodeId) -> NodeId {
        self.node(NodeKind::Return { value: Some(value) })
    }

    fn bind(&mut self, name: &str, kind: DefKind, rhs: NodeId) -> DefId {
        let pattern = self.node(NodeKind::BindingPat { name: Symbol::new(name) });
        let n = self.node(NodeKind::ConstBind { pattern, rhs });
        let d = self.def(name, kind, Some(n));
        self.declares(n, d);
        d
    }

    fn generic_func(&mut self, name: &str, generics: &[NodeId], params: &[NodeId], ret: Option<NodeId>, body: Option<NodeId>) -> DefId {
        let f = self.node(NodeKind::FuncExpr {
            generics: nodes(generics),
            params: nodes(params),
            ret,
            body,
            abi: None,
        });
        self.bind(name, DefKind::Func, f)
    }

    fn func(&mut self, name: &str, params: &[NodeId], ret: Option<NodeId>, body: NodeId) -> DefId {
        self.generic_func(name, &[], params, ret, Some(body))
    }

    fn type_param(&mut self, name: &str, bounds: &[DefId]) -> (NodeId, DefId) {
        let constraint = if bounds.is_empty() {
            None
        } else {
            let tys: Vec<NodeId> = bounds.iter().map(|b| self.ty_of(*b)).collect();
            Some(self.node(NodeKind::Bounds { bounds: nodes(&tys) }))
        };
        let n = self.node(NodeKind::GenericTypeParam { name: Symbol::new(name), constraint });
        let d = self.def(name, DefKind::TypeParam, Some(n));
        self.defs[d.0 as usize].param_bounds = Some(list_of(bounds.to_vec()));
        self.declares(n, d);
        (n, d)
    }

    fn call(&mut self, callee: NodeId, args: &[NodeId]) -> NodeId {
        self.node(NodeKind::Call { callee, args: nodes(args) })
    }

    fn named(&mut self, name: &str, value: NodeId) -> NodeId {
        self.node(NodeKind::Arg { name: Some(Symbol::new(name)), value })
    }

    /// A struct with named fields.
    fn record(&mut self, name: &str, fields: &[(&str, NodeId)]) -> DefId {
        let mut ns = Vec::new();
        let mut ds = Vec::new();
        for (f, ty) in fields {
            let n = self.node(NodeKind::Field { name: Symbol::new(f), ty: *ty });
            let d = self.def(f, DefKind::Field, Some(n));
            self.declares(n, d);
            ns.push(n);
            ds.push((*f, d));
        }
        let s = self.node(NodeKind::StructType { generics: List::Nil, kind: StructKind::Record(nodes(&ns)) });
        let d = self.bind(name, DefKind::Struct, s);
        for (f, fd) in ds {
            self.add_member(d, f, fd);
        }
        d
    }

    fn tables(self) -> (Tables, Facts, Vec<ImplInfo>, DefId) {
        let mut asts = Table::new();
        asts.set(file_key(FILE), Ast { nodes: self.nodes });
        let t = Tables {
            defs: self.defs,
            asts,
            decls: Table::new(),
            lang: list_of(self.lang),
            sources: Table::new(),
            packages: Table::new(),
        };
        (t, self.facts, self.impls, self.root)
    }

    fn infer(self) -> Done {
        let (tables, mut facts, mut impls, root) = self.tables();
        let mut diags = Vec::new();
        resolve_impl_targets(&tables, &mut facts, &mut diags, &mut impls);
        infer_file(&tables, &mut facts, &mut diags, &impls, &List::Nil, root, FILE);
        let messages = diags.iter().map(|d| message(&tables, &d.message)).collect();
        Done { tables, facts, impls, messages }
    }
}

impl Done {
    fn ty(&self, n: NodeId) -> String {
        match self.facts.ty.get(node_key(FILE, n)) {
            Some(t) => pieces(ty_pieces(&self.tables, t)),
            None => "-".to_string(),
        }
    }

    fn coercion(&self, n: NodeId) -> Option<String> {
        self.facts.coercion.get(node_key(FILE, n)).map(|c| pieces(ty_pieces(&self.tables, &c.to)))
    }

    fn show(&self, t: &Ty) -> String {
        pieces(ty_pieces(&self.tables, t))
    }
}

// Types of expressions.

#[test]
fn a_parameter_is_typed_by_its_annotation() {
    let mut b = Build::new();
    let t = b.ty("i32");
    let (p, d) = b.param("a", t, None);
    let read = b.path(d);
    let body = b.block(&[], Some(read));
    let ret = b.ty("i32");
    b.func("f", &[p], Some(ret), body);
    let done = b.infer();
    assert_eq!(done.messages, Vec::<String>::new());
    assert_eq!(done.ty(read), "i32");
    assert_eq!(done.ty(body), "i32");
}

#[test]
fn a_literal_settles_on_what_its_context_wants() {
    let mut b = Build::new();
    let one = b.number(1);
    let ann = b.ty("u8");
    let (decl, d) = b.local("x", Some(ann), one);
    let read = b.path(d);
    let body = b.block(&[decl], Some(read));
    let ret = b.ty("u8");
    b.func("f", &[], Some(ret), body);
    let done = b.infer();
    assert_eq!(done.messages, Vec::<String>::new());
    // The literal keeps its own type, and the conversion is recorded.
    assert_eq!(done.ty(one), "comptime_int");
    assert_eq!(done.coercion(one), Some("u8".to_string()));
    assert_eq!(done.ty(read), "u8");
}

#[test]
fn a_literal_out_of_range_is_refused_once_and_marked() {
    let mut b = Build::new();
    let n = b.number(300);
    let ann = b.ty("u8");
    let (decl, _) = b.local("x", Some(ann), n);
    let body = b.block(&[decl], None);
    b.func("f", &[], None, body);
    let done = b.infer();
    assert_eq!(done.messages, vec!["the literal `300` does not fit in `u8`"]);
    assert!(done.facts.range_reported.get(node_key(FILE, n)).is_some());
}

#[test]
fn a_literal_past_every_machine_word_is_written_out() {
    let mut b = Build::new();
    // 2^64, which takes a third digit.
    let big = nest_sema::bigint::Int { negative: false, digits: list_of(vec![0, 0, 1]) };
    let n = b.node(NodeKind::Lit(Lit::Int(big)));
    let ann = b.ty("i64");
    let (decl, _) = b.local("x", Some(ann), n);
    let body = b.block(&[decl], None);
    b.func("f", &[], None, body);
    let done = b.infer();
    assert_eq!(done.messages, vec!["the literal `18446744073709551616` does not fit in `i64`"]);
}

#[test]
fn a_sign_belongs_to_the_literal_it_stands_before() {
    for (n, fits) in [(128, true), (129, false)] {
        let mut b = Build::new();
        let neg_trait = b.def("Neg", DefKind::Trait, None);
        b.lang_item("neg", neg_trait);
        let lit = b.number(n);
        let minus = b.node(NodeKind::Unary { op: UnOp::Neg, operand: lit });
        let ann = b.ty("i8");
        let (decl, _) = b.local("x", Some(ann), minus);
        let body = b.block(&[decl], None);
        b.func("f", &[], None, body);
        let done = b.infer();
        if fits {
            assert_eq!(done.messages, Vec::<String>::new());
        } else {
            assert_eq!(done.messages, vec!["the literal `-129` does not fit in `i8`"]);
        }
    }
}

#[test]
fn a_float_that_becomes_infinite_is_refused() {
    for (x, ok) in [(3.5e38, false), (3.4e38, true), (1e-46, false), (0.0, true), (0.1, true)] {
        let mut b = Build::new();
        let n = b.node(NodeKind::Lit(Lit::Float(f64::to_bits(x))));
        let ann = b.ty("f32");
        let (decl, _) = b.local("x", Some(ann), n);
        let body = b.block(&[decl], None);
        b.func("f", &[], None, body);
        let done = b.infer();
        if ok {
            assert_eq!(done.messages, Vec::<String>::new());
        } else {
            assert_eq!(done.messages, vec![format!("the literal `{x:?}` does not fit in `f32`")]);
        }
    }
}

#[test]
fn nothing_converts_to_never() {
    let mut b = Build::new();
    let v = b.boolean(true);
    let ann = b.ty("never");
    let (decl, _) = b.local("x", Some(ann), v);
    let body = b.block(&[decl], None);
    b.func("f", &[], None, body);
    let done = b.infer();
    assert_eq!(
        done.messages,
        vec!["expected `never`, found `bool`: `never` is uninhabited, so no value has that type"]
    );
}

#[test]
fn a_mismatch_names_both_sides() {
    let mut b = Build::new();
    let v = b.boolean(true);
    let ann = b.ty("i32");
    let (decl, _) = b.local("x", Some(ann), v);
    let body = b.block(&[decl], None);
    b.func("f", &[], None, body);
    let done = b.infer();
    assert_eq!(done.messages, vec!["type mismatch: expected `i32`, found `bool`"]);
}

#[test]
fn a_narrower_integer_widens_and_a_wider_one_does_not() {
    for (from, to, ok) in [("u16", "u32", true), ("u32", "u16", false), ("u8", "i32", true), ("i32", "u32", false)] {
        let mut b = Build::new();
        let t = b.ty(from);
        let (p, d) = b.param("a", t, None);
        let read = b.path(d);
        let ann = b.ty(to);
        let (decl, _) = b.local("x", Some(ann), read);
        let body = b.block(&[decl], None);
        b.func("f", &[p], None, body);
        let done = b.infer();
        if ok {
            assert_eq!(done.messages, Vec::<String>::new());
            assert_eq!(done.coercion(read), Some(to.to_string()));
        } else {
            assert_eq!(done.messages, vec![format!("type mismatch: expected `{to}`, found `{from}`")]);
        }
    }
}

#[test]
fn leaving_a_loop_needs_a_loop() {
    let mut b = Build::new();
    let br = b.node(NodeKind::Break { value: None });
    let co = b.node(NodeKind::Continue);
    let body = b.block(&[br, co], None);
    b.func("f", &[], None, body);
    let done = b.infer();
    assert_eq!(done.messages, vec!["`break` outside of a loop", "`continue` outside of a loop"]);
}

#[test]
fn a_loop_is_what_its_breaks_carry() {
    let mut b = Build::new();
    let v = b.boolean(true);
    let br = b.node(NodeKind::Break { value: Some(v) });
    let inner = b.block(&[br], None);
    let lp = b.node(NodeKind::Loop { body: inner });
    let body = b.block(&[], Some(lp));
    let ret = b.ty("bool");
    b.func("f", &[], Some(ret), body);
    let done = b.infer();
    assert_eq!(done.messages, Vec::<String>::new());
    assert_eq!(done.ty(lp), "bool");
}

#[test]
fn a_loop_without_a_break_never_ends() {
    let mut b = Build::new();
    let inner = b.block(&[], None);
    let lp = b.node(NodeKind::Loop { body: inner });
    let body = b.block(&[], Some(lp));
    let ret = b.ty("i32");
    b.func("f", &[], Some(ret), body);
    let done = b.infer();
    assert_eq!(done.messages, Vec::<String>::new());
    assert_eq!(done.ty(lp), "never");
}

#[test]
fn an_unconstrained_value_needs_an_annotation() {
    let mut b = Build::new();
    let hole = b.node(NodeKind::TypeHole);
    let (p, _) = b.param("a", hole, None);
    let body = b.block(&[], None);
    b.func("f", &[p], None, body);
    let done = b.infer();
    assert_eq!(done.messages, vec!["type annotations needed"]);
}

#[test]
fn the_position_of_a_call_is_only_a_default() {
    let mut b = Build::new();
    let here = b.node(NodeKind::CallerLocation);
    let body = b.block(&[here], None);
    b.func("f", &[], None, body);
    let done = b.infer();
    assert_eq!(
        done.messages,
        vec!["`#caller_location` is only a default argument — write it as `loc: Location := #caller_location` on the parameter that receives it"]
    );
}

// Calls.

/// `callee(a: i32, b: bool := true)`, and a caller that calls it.
fn call_program(args: &dyn Fn(&mut Build) -> Vec<NodeId>) -> (Done, NodeId, Vec<NodeId>) {
    let mut b = Build::new();
    let ti = b.ty("i32");
    let tb = b.ty("bool");
    let dv = b.boolean(true);
    let (a, _) = b.param("a", ti, None);
    let (c, _) = b.param("b", tb, Some(dv));
    let empty = b.block(&[], None);
    let f = b.func("callee", &[a, c], None, empty);
    let callee = b.path(f);
    let given = args(&mut b);
    let call = b.call(callee, &given);
    let body = b.block(&[call], None);
    b.func("caller", &[], None, body);
    (b.infer(), callee, given)
}

fn order(done: &Done, callee: NodeId) -> Option<Vec<Option<NodeId>>> {
    done.facts.arg_order.get(node_key(FILE, callee)).map(|o| {
        let mut out = Vec::new();
        let mut at = &o.args;
        while let List::Cons(s, t) = at {
            out.push(*s);
            at = t;
        }
        out
    })
}

#[test]
fn a_full_positional_call_is_taken_as_written() {
    let (done, callee, _) = call_program(&|b| {
        let x = b.number(1);
        let y = b.boolean(false);
        vec![x, y]
    });
    assert_eq!(done.messages, Vec::<String>::new());
    assert_eq!(order(&done, callee), None);
}

#[test]
fn a_default_fills_what_a_call_leaves_out() {
    let (done, callee, given) = call_program(&|b| vec![b.number(1)]);
    assert_eq!(done.messages, Vec::<String>::new());
    assert_eq!(order(&done, callee), Some(vec![Some(given[0]), None]));
}

#[test]
fn named_arguments_are_put_in_order() {
    let (done, callee, given) = call_program(&|b| {
        let t = b.boolean(true);
        let x = b.named("b", t);
        let one = b.number(1);
        let y = b.named("a", one);
        vec![x, y]
    });
    assert_eq!(done.messages, Vec::<String>::new());
    assert_eq!(order(&done, callee), Some(vec![Some(given[1]), Some(given[0])]));
}

#[test]
fn a_call_is_told_what_it_did_wrong() {
    let too_many = call_program(&|b| {
        let x = b.number(1);
        let y = b.boolean(false);
        let z = b.number(2);
        vec![x, y, z]
    });
    assert_eq!(too_many.0.messages, vec!["this function takes 1 to 2 argument(s) but 3 were supplied"]);
    let missing = call_program(&|b| {
        let t = b.boolean(true);
        vec![b.named("b", t)]
    });
    assert_eq!(missing.0.messages, vec!["missing argument for parameter `a`"]);
    let unknown = call_program(&|b| {
        let t = b.boolean(true);
        vec![b.named("c", t)]
    });
    assert_eq!(unknown.0.messages, vec!["`callee` has no parameter named `c`"]);
    let twice = call_program(&|b| {
        let x = b.number(1);
        let y = b.number(2);
        let y = b.named("a", y);
        vec![x, y]
    });
    assert_eq!(twice.0.messages, vec!["argument for parameter `a` supplied twice"]);
    let late = call_program(&|b| {
        let x = b.number(1);
        let x = b.named("a", x);
        let y = b.boolean(true);
        vec![x, y]
    });
    assert_eq!(
        late.0.messages,
        vec!["a positional argument cannot follow a named one — once a call names an argument, the rest must be named too"]
    );
    let surplus = call_program(&|b| {
        let x = b.number(1);
        let y = b.boolean(true);
        let z = b.number(2);
        let w = b.number(3);
        let w = b.named("a", w);
        vec![x, y, z, w]
    });
    assert_eq!(surplus.0.messages, vec!["this function takes 1 to 2 argument(s) but 4 were supplied"]);
    let wrong = call_program(&|b| vec![b.boolean(true)]);
    assert_eq!(wrong.0.messages, vec!["type mismatch: expected `i32`, found `bool`"]);
}

#[test]
fn a_default_may_not_read_a_parameter() {
    let mut b = Build::new();
    let t = b.ty("i32");
    let (a, ad) = b.param("a", t, None);
    let read = b.path(ad);
    let t2 = b.ty("i32");
    let (c, _) = b.param("b", t2, Some(read));
    let body = b.block(&[], None);
    b.func("f", &[a, c], None, body);
    let done = b.infer();
    assert_eq!(
        done.messages,
        vec!["a default argument cannot name the parameter `a`: it is evaluated at the call site, where no parameter of this function exists yet"]
    );
}

#[test]
fn a_default_must_come_last() {
    let mut b = Build::new();
    let t = b.ty("bool");
    let dv = b.boolean(true);
    let (a, _) = b.param("a", t, Some(dv));
    let t2 = b.ty("i32");
    let (c, _) = b.param("b", t2, None);
    let body = b.block(&[], None);
    b.func("f", &[a, c], None, body);
    let done = b.infer();
    assert_eq!(
        done.messages,
        vec!["parameter `b` has no default but follows `a`, which does — every parameter after a defaulted one must be defaulted too"]
    );
}

#[test]
fn each_call_of_a_generic_function_has_its_own_arguments() {
    let mut b = Build::new();
    let (g, gd) = b.type_param("T", &[]);
    let t = b.ty_of(gd);
    let (p, pd) = b.param("x", t, None);
    let read = b.path(pd);
    let body = b.block(&[], Some(read));
    let ret = b.ty_of(gd);
    let id = b.generic_func("id", &[g], &[p], Some(ret), Some(body));
    let c1 = b.path(id);
    let v1 = b.boolean(true);
    let call1 = b.call(c1, &[v1]);
    let c2 = b.path(id);
    let ti = b.ty("i32");
    let (q, qd) = b.param("n", ti, None);
    let v2 = b.path(qd);
    let call2 = b.call(c2, &[v2]);
    let body = b.block(&[call1, call2], None);
    b.func("caller", &[q], None, body);
    let done = b.infer();
    assert_eq!(done.messages, Vec::<String>::new());
    assert_eq!(done.ty(call1), "bool");
    assert_eq!(done.ty(call2), "i32");
    for (callee, want) in [(c1, "bool"), (c2, "i32")] {
        match &done.facts.instantiation.get(node_key(FILE, callee)).unwrap().0 {
            List::Cons(GenericArg::Ty(t), rest) => {
                assert_eq!(done.show(t), want);
                assert!(matches!(**rest, List::Nil));
            }
            _ => panic!("one type argument"),
        }
    }
}

#[test]
fn too_many_generic_arguments_are_refused() {
    let mut b = Build::new();
    let body = b.block(&[], None);
    let f = b.func("f", &[], None, body);
    let base = b.path(f);
    let t = b.ty("i32");
    let callee = b.node(NodeKind::GenericApply { base, args: nodes(&[t]) });
    let call = b.call(callee, &[]);
    let body = b.block(&[call], None);
    b.func("caller", &[], None, body);
    let done = b.infer();
    assert_eq!(done.messages, vec!["`f` takes 0 generic argument(s) but 1 were supplied"]);
}

#[test]
fn calling_what_is_no_function_is_refused() {
    let mut b = Build::new();
    let t = b.ty("bool");
    let (p, d) = b.param("x", t, None);
    let callee = b.path(d);
    let call = b.call(callee, &[]);
    let body = b.block(&[call], None);
    b.func("f", &[p], None, body);
    let done = b.infer();
    assert_eq!(done.messages, vec!["`bool` is not a function, so it cannot be called"]);
}

/// `over :: func { f, g }` with `f(i32)` and `g(bool)` or `g(i32, i32)`.
fn overload_program(second: &[&str], args: &dyn Fn(&mut Build) -> Vec<NodeId>) -> (Done, NodeId, DefId, DefId) {
    let mut b = Build::new();
    let ti = b.ty("i32");
    let (p, _) = b.param("a", ti, None);
    let e = b.block(&[], None);
    let f = b.func("f", &[p], None, e);
    let mut ps = Vec::new();
    for (i, s) in second.iter().enumerate() {
        let t = b.ty(s);
        ps.push(b.param(["x", "y"][i], t, None).0);
    }
    let e = b.block(&[], None);
    let g = b.func("g", &ps, None, e);
    let m1 = b.path(f);
    let m2 = b.path(g);
    let set = b.node(NodeKind::Overload { members: nodes(&[m1, m2]) });
    let o = b.bind("over", DefKind::Overload, set);
    let callee = b.path(o);
    let given = args(&mut b);
    let call = b.call(callee, &given);
    let body = b.block(&[call], None);
    b.func("caller", &[], None, body);
    (b.infer(), callee, f, g)
}

fn chosen(done: &Done, callee: NodeId) -> Option<DefId> {
    match done.facts.resolution.get(node_key(FILE, callee)) {
        Some(Resolution::Def(d)) => Some(*d),
        _ => None,
    }
}

#[test]
fn an_overload_is_chosen_by_the_number_of_arguments() {
    let (done, callee, f, g) = overload_program(&["i32", "i32"], &|b| vec![b.number(1)]);
    assert_eq!(done.messages, Vec::<String>::new());
    assert_eq!(chosen(&done, callee), Some(f));
    let (done, callee, _, _) = overload_program(&["i32", "i32"], &|b| vec![b.number(1), b.number(2)]);
    assert_eq!(chosen(&done, callee), Some(g));
}

#[test]
fn an_overload_is_chosen_by_the_types_of_arguments() {
    let (done, callee, _, g) = overload_program(&["bool"], &|b| vec![b.boolean(true)]);
    assert_eq!(done.messages, Vec::<String>::new());
    assert_eq!(chosen(&done, callee), Some(g));
    let (done, callee, f, _) = overload_program(&["bool"], &|b| vec![b.number(3)]);
    assert_eq!(done.messages, Vec::<String>::new());
    assert_eq!(chosen(&done, callee), Some(f));
}

#[test]
fn no_overload_may_take_a_call() {
    let (done, _, _, _) = overload_program(&["bool"], &|_| vec![]);
    assert_eq!(
        done.messages,
        vec!["no overload of `over` takes these arguments; it has `*func(i32) -> void`, `*func(bool) -> void`"]
    );
}

#[test]
fn more_than_one_overload_may_take_a_call() {
    let (done, _, _, _) = overload_program(&["u8"], &|b| vec![b.number(3)]);
    assert_eq!(
        done.messages,
        vec!["this call to `over` matches more than one of its overloads: `*func(i32) -> void`, `*func(u8) -> void`"]
    );
}

// Structs and methods.

#[test]
fn a_field_has_its_declared_type() {
    let mut b = Build::new();
    let ti = b.ty("i32");
    let s = b.record("P", &[("x", ti)]);
    let t = b.ty_of(s);
    let (p, d) = b.param("p", t, None);
    let base = b.path(d);
    let read = b.node(NodeKind::FieldAccess { base, name: Symbol::new("x") });
    let base2 = b.path(d);
    let wrong = b.node(NodeKind::FieldAccess { base: base2, name: Symbol::new("y") });
    let body = b.block(&[wrong], Some(read));
    let ret = b.ty("i32");
    b.func("f", &[p], Some(ret), body);
    let done = b.infer();
    assert_eq!(done.messages, vec!["no field `y` on `P`"]);
    assert_eq!(done.ty(read), "i32");
}

/// A struct `P` with a method `get(self: *Self) -> i32`, written in the struct's
/// own namespace.
fn with_method(b: &mut Build) -> (DefId, DefId) {
    let ti = b.ty("i32");
    let s = b.record("P", &[("x", ti)]);
    let inner = b.ty_of(s);
    let ptr = b.node(NodeKind::PtrType { mutable: false, inner });
    let (p, d) = b.param("self", ptr, None);
    let base = b.path(d);
    let read = b.node(NodeKind::FieldAccess { base, name: Symbol::new("x") });
    let body = b.block(&[], Some(read));
    let ret = b.ty("i32");
    let m = b.func("get", &[p], Some(ret), body);
    b.add_member(s, "get", m);
    (s, m)
}

#[test]
fn a_method_takes_the_address_of_a_value() {
    let mut b = Build::new();
    let (s, m) = with_method(&mut b);
    let t = b.ty_of(s);
    let (p, d) = b.param("p", t, None);
    let base = b.path(d);
    let callee = b.node(NodeKind::FieldAccess { base, name: Symbol::new("get") });
    let call = b.call(callee, &[]);
    let body = b.block(&[], Some(call));
    let ret = b.ty("i32");
    b.func("f", &[p], Some(ret), body);
    let done = b.infer();
    assert_eq!(done.messages, Vec::<String>::new());
    assert_eq!(done.ty(call), "i32");
    let res = done.facts.method_res.get(node_key(FILE, callee)).unwrap();
    assert_eq!(res.method, m);
    assert_eq!(res.adjust, RecvAdjust::Ref { mutable: false });
    assert!(matches!(res.dispatch, MethodDispatch::Static));
    assert_eq!(done.show(&res.self_ty), "*P");
}

#[test]
fn a_missing_method_is_named_with_its_type() {
    let mut b = Build::new();
    let (s, _) = with_method(&mut b);
    let t = b.ty_of(s);
    let (p, d) = b.param("p", t, None);
    let base = b.path(d);
    let callee = b.node(NodeKind::FieldAccess { base, name: Symbol::new("put") });
    let call = b.call(callee, &[]);
    let body = b.block(&[call], None);
    b.func("f", &[p], None, body);
    let done = b.infer();
    assert_eq!(done.messages, vec!["no method `put` on `P`"]);
}

/// A trait `Get` with `get(self: *Self) -> i32`, and its definition.
fn with_trait(b: &mut Build) -> (DefId, DefId) {
    let tr = b.node(NodeKind::TraitType { members: List::Nil, generics: List::Nil });
    let t = b.bind("Get", DefKind::Trait, tr);
    let inner = b.ty_of(t);
    let ptr = b.node(NodeKind::PtrType { mutable: false, inner });
    let (p, _) = b.param("self", ptr, None);
    let ret = b.ty("i32");
    let m = b.generic_func("get", &[], &[p], Some(ret), None);
    b.add_member(t, "get", m);
    let root = b.root;
    b.add_member(root, "Get", t);
    (t, m)
}

/// `impl Get for P`, with a `get` of the given result.
fn with_impl(b: &mut Build, t: DefId, s: DefId, result: &str) -> DefId {
    let inner = b.ty_of(s);
    let ptr = b.node(NodeKind::PtrType { mutable: false, inner });
    let (p, _) = b.param("self", ptr, None);
    let ret = b.ty(result);
    let v = if result == "bool" { b.boolean(true) } else { b.number(7) };
    let body = b.block(&[], Some(v));
    let m = b.func("get", &[p], Some(ret), body);
    let self_node = b.ty_of(s);
    b.impls.push(ImplInfo {
        file: FILE,
        trait_def: Some(t),
        generics: List::Nil,
        members: list_of(vec![(Symbol::new("get"), m)]),
        typed: None,
        syntax: Some(ImplSyntax { self_node, trait_args: List::Nil, assoc: List::Nil }),
        self_is_generic: false,
    });
    m
}

#[test]
fn a_bound_is_dispatched_through() {
    let mut b = Build::new();
    let (t, m) = with_trait(&mut b);
    let (g, gd) = b.type_param("T", &[t]);
    let inner = b.ty_of(gd);
    let ptr = b.node(NodeKind::PtrType { mutable: false, inner });
    let (p, d) = b.param("x", ptr, None);
    let base = b.path(d);
    let callee = b.node(NodeKind::FieldAccess { base, name: Symbol::new("get") });
    let call = b.call(callee, &[]);
    let body = b.block(&[], Some(call));
    let ret = b.ty("i32");
    b.generic_func("f", &[g], &[p], Some(ret), Some(body));
    let done = b.infer();
    assert_eq!(done.messages, Vec::<String>::new());
    let res = done.facts.method_res.get(node_key(FILE, callee)).unwrap();
    assert_eq!(res.method, m);
    assert!(matches!(res.dispatch, MethodDispatch::Generic { trait_def, .. } if trait_def == t));
    assert_eq!(done.show(&res.self_ty), "*T");
}

#[test]
fn an_impl_supplies_a_method() {
    let mut b = Build::new();
    let (t, _) = with_trait(&mut b);
    let ti = b.ty("i32");
    let s = b.record("P", &[("x", ti)]);
    let m = with_impl(&mut b, t, s, "i32");
    let ty = b.ty_of(s);
    let (p, d) = b.param("p", ty, None);
    let base = b.path(d);
    let callee = b.node(NodeKind::FieldAccess { base, name: Symbol::new("get") });
    let call = b.call(callee, &[]);
    let body = b.block(&[], Some(call));
    let ret = b.ty("i32");
    b.func("f", &[p], Some(ret), body);
    let done = b.infer();
    assert_eq!(done.messages, Vec::<String>::new());
    let res = done.facts.method_res.get(node_key(FILE, callee)).unwrap();
    assert_eq!(res.method, m);
    assert!(matches!(res.dispatch, MethodDispatch::Static));
    // The impl's target was resolved before anything selected it.
    let typed = done.impls[0].typed.as_ref().unwrap();
    assert_eq!(done.show(&typed.self_ty), "P");
}

#[test]
fn a_member_must_match_its_declaration() {
    let mut b = Build::new();
    let (t, _) = with_trait(&mut b);
    let ti = b.ty("i32");
    let s = b.record("P", &[("x", ti)]);
    with_impl(&mut b, t, s, "bool");
    let done = b.infer();
    assert_eq!(
        done.messages,
        vec!["`get` does not match the declaration in `Get`: expected `func(*P) -> i32`, found `func(*P) -> bool`"]
    );
}

#[test]
fn a_pointer_unsizes_to_a_trait_it_implements() {
    for implemented in [true, false] {
        let mut b = Build::new();
        let (t, m) = with_trait(&mut b);
        let ti = b.ty("i32");
        let s = b.record("P", &[("x", ti)]);
        if implemented {
            with_impl(&mut b, t, s, "i32");
        }
        let inner = b.ty_of(s);
        let ptr = b.node(NodeKind::PtrType { mutable: false, inner });
        let (p, d) = b.param("p", ptr, None);
        let named = b.ty_of(t);
        let dynt = b.node(NodeKind::DynType { inner: named });
        let ann = b.node(NodeKind::PtrType { mutable: false, inner: dynt });
        let value = b.path(d);
        let (decl, od) = b.local("o", Some(ann), value);
        let base = b.path(od);
        let callee = b.node(NodeKind::FieldAccess { base, name: Symbol::new("get") });
        let call = b.call(callee, &[]);
        let body = b.block(&[decl], Some(call));
        let ret = b.ty("i32");
        b.func("f", &[p], Some(ret), body);
        let done = b.infer();
        if implemented {
            assert_eq!(done.messages, Vec::<String>::new());
            let c = done.facts.dyn_coerce.get(node_key(FILE, value)).unwrap();
            assert_eq!(c.trait_def, t);
            assert_eq!(done.show(&c.concrete), "P");
            assert_eq!(done.show(&c.object), "dyn Get");
            let res = done.facts.method_res.get(node_key(FILE, callee)).unwrap();
            assert_eq!(res.method, m);
            assert!(matches!(res.dispatch, MethodDispatch::Virtual(x) if x == t));
        } else {
            assert_eq!(done.messages, vec!["type mismatch: expected `dyn Get`, found `P`"]);
        }
    }
}

#[test]
fn a_struct_stands_for_its_using_field() {
    let mut b = Build::new();
    let ti = b.ty("i32");
    let inner = b.record("Base", &[("x", ti)]);
    let tf = b.ty_of(inner);
    let outer = b.record("Outer", &[("base", tf)]);
    let field = match &b.defs[outer.0 as usize].members {
        List::Cons(m, _) => m.1,
        List::Nil => panic!("one field"),
    };
    b.defs[outer.0 as usize].using_field = Some(field);
    let t = b.ty_of(outer);
    let (p, d) = b.param("p", t, None);
    let value = b.path(d);
    let ann = b.ty_of(inner);
    let (decl, _) = b.local("q", Some(ann), value);
    let body = b.block(&[decl], None);
    b.func("f", &[p], None, body);
    let done = b.infer();
    assert_eq!(done.messages, Vec::<String>::new());
    let up = done.facts.upcast.get(node_key(FILE, value)).unwrap();
    assert_eq!(up.field, field);
    assert!(!up.through_ptr);
    assert_eq!(done.show(&up.target), "Base");
}

#[test]
fn an_array_is_viewed_as_a_slice() {
    let mut b = Build::new();
    b.pointer_sized();
    let range = b.def("Range", DefKind::Struct, None);
    b.lang_item("range", range);
    let len = b.number(4);
    let inner = b.ty("u8");
    let arr = b.node(NodeKind::ArrayType { len, mutable: false, inner });
    let (p, d) = b.param("a", arr, None);
    let value = b.path(d);
    let inner = b.ty("u8");
    let ann = b.node(NodeKind::SliceType { mutable: false, inner });
    let (decl, _) = b.local("s", Some(ann), value);
    let body = b.block(&[decl], None);
    b.func("f", &[p], None, body);
    let done = b.infer();
    assert_eq!(done.messages, Vec::<String>::new());
    assert_eq!(done.ty(value), "[4]u8");
    let c = done.facts.slice_coerce.get(node_key(FILE, value)).unwrap();
    assert_eq!(done.show(&c.to), "[]u8");
}

// Declarations.

fn enum_of(variants: &[(&str, bool, Option<u64>)]) -> (Done, Vec<NodeId>) {
    let mut b = Build::new();
    let mut vs = Vec::new();
    for (name, payload, value) in variants {
        let payload = if *payload {
            let t = b.ty("i32");
            VariantPayload::Tuple(nodes(&[t]))
        } else {
            VariantPayload::Unit
        };
        let value = value.map(|n| b.number(n));
        vs.push(b.node(NodeKind::Variant { name: Symbol::new(name), payload, value }));
    }
    let e = b.node(NodeKind::EnumType { variants: nodes(&vs), generics: List::Nil });
    b.bind("E", DefKind::Enum, e);
    (b.infer(), vs)
}

fn tags(done: &Done, vs: &[NodeId]) -> Vec<i128> {
    vs.iter().map(|v| done.facts.variant_tag.get(node_key(FILE, *v)).unwrap().0).collect()
}

#[test]
fn variants_are_numbered_from_zero() {
    let (done, vs) = enum_of(&[("A", false, None), ("B", true, None), ("C", false, None)]);
    assert_eq!(done.messages, Vec::<String>::new());
    assert_eq!(tags(&done, &vs), vec![0, 1, 2]);
}

#[test]
fn numbering_goes_on_from_a_written_tag() {
    let (done, vs) = enum_of(&[("A", false, Some(5)), ("B", false, None), ("C", false, Some(1)), ("D", false, None)]);
    assert_eq!(done.messages, Vec::<String>::new());
    assert_eq!(tags(&done, &vs), vec![5, 6, 1, 2]);
}

#[test]
fn two_variants_may_not_share_a_tag() {
    let (done, vs) = enum_of(&[("A", false, Some(1)), ("B", false, Some(0)), ("C", false, None)]);
    assert_eq!(done.messages, vec!["the discriminant 1 is already `A`'s"]);
    assert_eq!(tags(&done, &vs), vec![1, 0, 1]);
}

#[test]
fn a_variant_with_a_payload_may_not_be_given_a_tag() {
    let (done, vs) = enum_of(&[("A", true, Some(9)), ("B", false, None)]);
    assert_eq!(
        done.messages,
        vec!["`A` carries a payload, so it may not be given an explicit discriminant"]
    );
    assert_eq!(tags(&done, &vs), vec![0, 1]);
}

#[test]
fn constants_fold() {
    let mut b = Build::new();
    let two = b.number(2);
    let ten = b.number(10);
    let mul = b.node(NodeKind::Binary { op: BinOp::Mul, lhs: two, rhs: ten });
    let a = b.bind("A", DefKind::Const, mul);
    let ra = b.path(a);
    let one = b.number(1);
    let sub = b.node(NodeKind::Binary { op: BinOp::Sub, lhs: ra, rhs: one });
    let c = b.bind("C", DefKind::Const, sub);
    let zero = b.number(0);
    let rc = b.path(c);
    let div = b.node(NodeKind::Binary { op: BinOp::Div, lhs: rc, rhs: zero });
    b.bind("D", DefKind::Const, div);
    let (tables, mut facts, impls, _) = b.tables();
    let found = fold_const_values(&tables, &mut facts, &impls, FILE);
    let shown: Vec<(DefId, String)> = found.iter().map(|(d, v)| (*d, pieces(value_pieces(v)))).collect();
    assert_eq!(shown, vec![(a, "20".to_string()), (c, "19".to_string())]);
}

#[test]
fn a_file_that_is_not_here_has_nothing() {
    let b = Build::new();
    let (tables, mut facts, impls, _) = b.tables();
    assert!(fold_const_values(&tables, &mut facts, &impls, FileId(7)).is_empty());
    assert!(resolve_param_decls(&tables, &mut facts, &impls, FileId(7)).is_empty());
}

#[test]
fn bounds_are_recorded_for_other_packages() {
    let mut b = Build::new();
    let (t, _) = with_trait(&mut b);
    let (_, bounded) = b.type_param("T", &[t]);
    b.type_param("U", &[]);
    let (tables, mut facts, impls, _) = b.tables();
    let found = resolve_param_decls(&tables, &mut facts, &impls, FILE);
    assert_eq!(found.len(), 1);
    assert_eq!(found[0].0, bounded);
    match &found[0].1.bounds {
        List::Cons((d, args), rest) => {
            assert_eq!(*d, t);
            assert!(matches!(args, List::Nil));
            assert!(matches!(**rest, List::Nil));
        }
        List::Nil => panic!("one bound"),
    }
    assert!(found[0].1.pinned.is_none());
    assert!(found[0].1.revealed.is_none());
}

#[test]
fn a_const_parameter_must_be_primitive() {
    let mut b = Build::new();
    let ti = b.ty("i32");
    let s = b.record("P", &[("x", ti)]);
    let ty = b.ty_of(s);
    let n = b.node(NodeKind::GenericConstParam { name: Symbol::new("N"), ty });
    let d = b.def("N", DefKind::ConstParam, Some(n));
    b.declares(n, d);
    let done = b.infer();
    assert_eq!(
        done.messages,
        vec!["a `const` generic parameter must have a primitive type, but `N` is `P`"]
    );
}

// Lowering.

fn lowered(done: &Done) -> (nest_sema::lower::Lowered, Meta) {
    lower_file(&done.tables, &done.facts, Meta::new(), FILE)
}

fn ir_ty(done: &Done, meta: &Meta, e: &Expr) -> String {
    done.show(meta.tys.get(e.id.0).unwrap())
}

#[test]
fn a_function_lowers_to_its_body() {
    let mut b = Build::new();
    let t = b.ty("i32");
    let (p, d) = b.param("a", t, None);
    let read = b.path(d);
    let r = b.ret(read);
    let body = b.block(&[r], None);
    let ret = b.ty("i32");
    let f = b.func("f", &[p], Some(ret), body);
    let done = b.infer();
    let (low, meta) = lowered(&done);
    let funcs = vec_of(low.program.funcs);
    assert_eq!(funcs.len(), 1);
    assert_eq!(funcs[0].def, f);
    assert_eq!(text(&funcs[0].name.text), "f");
    let body = funcs[0].body.as_ref().unwrap();
    match &*body.stmts {
        List::Cons(s, rest) => {
            assert!(matches!(**rest, List::Nil));
            match &s.kind {
                StmtKind::Return(Some(e)) => {
                    assert!(matches!(e.kind, ExprKind::Local(x) if x == d));
                    assert_eq!(ir_ty(&done, &meta, e), "i32");
                    let at = meta.spans.get(e.id.0).unwrap();
                    assert_eq!(at.file, FILE);
                    assert_eq!(at.span, Span { start: read.0, end: read.0 + 1 });
                }
                _ => panic!("a return"),
            }
        }
        List::Nil => panic!("one statement"),
    }
}

#[test]
fn a_literal_lowers_with_its_conversion() {
    let mut b = Build::new();
    let one = b.number(5);
    let ann = b.ty("u8");
    let (decl, _) = b.local("x", Some(ann), one);
    let body = b.block(&[decl], None);
    b.func("f", &[], None, body);
    let done = b.infer();
    let (low, meta) = lowered(&done);
    let funcs = vec_of(low.program.funcs);
    match &*funcs[0].body.as_ref().unwrap().stmts {
        List::Cons(s, _) => match &s.kind {
            StmtKind::Let { init, .. } => match &init.kind {
                ExprKind::Intrinsic { name, args } => {
                    assert_eq!(text(&name.text), "cast");
                    assert_eq!(ir_ty(&done, &meta, init), "u8");
                    assert!(meta.implicit_casts.get(init.id.0).is_some());
                    match &**args {
                        List::Cons(a, _) => {
                            assert_eq!(ir_ty(&done, &meta, a), "comptime_int");
                            match &a.kind {
                                ExprKind::Lit(Lit::Int(n)) => {
                                    assert!(nest_sema::bigint::int_eq(n, &int_of(5)));
                                    assert!(!nest_sema::bigint::int_eq(n, &int_neg(&int_of(5))));
                                }
                                _ => panic!("a literal"),
                            }
                        }
                        List::Nil => panic!("one argument"),
                    }
                }
                _ => panic!("a conversion"),
            },
            _ => panic!("a local"),
        },
        List::Nil => panic!("one statement"),
    }
}

// Arithmetic at compile time.

/// What a constant folds to, where it does.
fn folded(build: &dyn Fn(&mut Build) -> NodeId) -> Option<String> {
    let mut b = Build::new();
    let rhs = build(&mut b);
    b.bind("C", DefKind::Const, rhs);
    let (tables, mut facts, impls, _) = b.tables();
    let found = fold_const_values(&tables, &mut facts, &impls, FILE);
    found.first().map(|(_, v)| pieces(value_pieces(v)))
}

fn signed(b: &mut Build, n: i64) -> NodeId {
    let v = int_of(n.unsigned_abs());
    b.node(NodeKind::Lit(Lit::Int(if n < 0 { int_neg(&v) } else { v })))
}

fn folded_op(op: BinOp, x: i64, y: i64) -> Option<String> {
    folded(&|b| {
        let lhs = signed(b, x);
        let rhs = signed(b, y);
        b.node(NodeKind::Binary { op, lhs, rhs })
    })
}

#[test]
fn integers_fold_exactly() {
    let cases = [
        (BinOp::Add, 7, 5, "12"),
        (BinOp::Add, -7, 5, "-2"),
        (BinOp::Add, i64::MAX, i64::MAX, "18446744073709551614"),
        (BinOp::Sub, 5, 7, "-2"),
        (BinOp::Sub, 0, i64::MIN, "9223372036854775808"),
        (BinOp::Mul, 6, 7, "42"),
        (BinOp::Mul, i64::MIN, i64::MIN, "85070591730234615865843651857942052864"),
        (BinOp::Div, 7, 2, "3"),
        (BinOp::Div, -7, 2, "-3"),
        (BinOp::Rem, 7, 2, "1"),
        (BinOp::Rem, -7, 2, "-1"),
        (BinOp::Rem, 7, -2, "1"),
        (BinOp::BitAnd, 12, 10, "8"),
        (BinOp::BitAnd, -1, 10, "10"),
        (BinOp::BitOr, 12, 3, "15"),
        (BinOp::BitOr, -2, 1, "-1"),
        (BinOp::BitXor, 12, 10, "6"),
        (BinOp::BitXor, -1, 5, "-6"),
        (BinOp::Shl, 1, 100, "1267650600228229401496703205376"),
        (BinOp::Shl, -3, 2, "-12"),
        (BinOp::Shr, 20, 2, "5"),
        (BinOp::Shr, -5, 1, "-3"),
    ];
    for (op, x, y, want) in cases {
        assert_eq!(folded_op(op, x, y).as_deref(), Some(want), "{op:?} {x} {y}");
    }
}

#[test]
fn comparisons_fold_to_booleans() {
    let cases = [
        (BinOp::Eq, 3, 3, true),
        (BinOp::Eq, 3, -3, false),
        (BinOp::Ne, 3, 4, true),
        (BinOp::Lt, -4, 3, true),
        (BinOp::Lt, 3, 3, false),
        (BinOp::Le, 3, 3, true),
        (BinOp::Gt, 4, 3, true),
        (BinOp::Gt, 3, 3, false),
        (BinOp::Ge, -3, -3, true),
        (BinOp::Ge, -4, -3, false),
    ];
    for (op, x, y, want) in cases {
        assert_eq!(folded_op(op, x, y), Some(want.to_string()), "{op:?} {x} {y}");
    }
}

#[test]
fn what_has_no_value_does_not_fold() {
    assert_eq!(folded_op(BinOp::Div, 1, 0), None);
    assert_eq!(folded_op(BinOp::Rem, 1, 0), None);
    assert_eq!(folded_op(BinOp::Shl, 1, 65536), None);
    assert_eq!(folded_op(BinOp::Shl, 1, -1), None);
    assert_eq!(
        folded(&|b| {
            let callee = b.number(1);
            b.call(callee, &[])
        }),
        None
    );
}

#[test]
fn a_tag_must_fit_in_128_bits() {
    // 2^127 - 1 is the last tag there is, and 2^127 is none.
    for (top, messages, tag) in [
        (0x7fff_ffffu32, vec!["the discriminant after this one would not fit in 128 bits"], i128::MAX),
        (
            0x8000_0000,
            vec!["an enum discriminant must fit in 128 bits, and 170141183460469231731687303715884105728 does not"],
            0,
        ),
    ] {
        let mut b = Build::new();
        let low = if top == 0x7fff_ffff { u32::MAX } else { 0 };
        let n = nest_sema::bigint::Int { negative: false, digits: list_of(vec![low, low, low, top]) };
        let value = Some(b.node(NodeKind::Lit(Lit::Int(n))));
        let v = b.node(NodeKind::Variant { name: Symbol::new("A"), payload: VariantPayload::Unit, value });
        let e = b.node(NodeKind::EnumType { variants: nodes(&[v]), generics: List::Nil });
        b.bind("E", DefKind::Enum, e);
        let done = b.infer();
        assert_eq!(done.messages, messages);
        assert_eq!(tags(&done, &[v]), vec![tag]);
    }
}

#[test]
fn a_tag_must_be_an_integer() {
    let mut b = Build::new();
    let value = Some(b.boolean(true));
    let v = b.node(NodeKind::Variant { name: Symbol::new("A"), payload: VariantPayload::Unit, value });
    let e = b.node(NodeKind::EnumType { variants: nodes(&[v]), generics: List::Nil });
    b.bind("E", DefKind::Enum, e);
    let done = b.infer();
    assert_eq!(done.messages, vec!["an enum discriminant must be an integer, not `true`"]);
}

#[test]
fn a_constant_a_trait_only_declares_has_no_value() {
    let mut b = Build::new();
    let ty = b.ty("i32");
    let declared = b.node(NodeKind::AssocConst { ty, default: None });
    let c = b.def("C", DefKind::Const, Some(declared));
    let value = Some(b.path(c));
    let v = b.node(NodeKind::Variant { name: Symbol::new("A"), payload: VariantPayload::Unit, value });
    let e = b.node(NodeKind::EnumType { variants: nodes(&[v]), generics: List::Nil });
    b.bind("E", DefKind::Enum, e);
    let done = b.infer();
    assert_eq!(
        done.messages,
        vec!["an enum discriminant must be a literal, a constant, a `const` generic parameter, or an expression built from those"]
    );
}

// Distinct types.

#[test]
fn a_literal_reaches_a_distinct_number() {
    for (n, ok) in [(7u64, true), (300, false)] {
        let mut b = Build::new();
        let inner = b.ty("u8");
        let rhs = b.node(NodeKind::DistinctType { inner });
        let d = b.bind("Metres", DefKind::TypeAlias, rhs);
        let lit = b.number(n);
        let ann = b.ty_of(d);
        let (decl, _) = b.local("x", Some(ann), lit);
        let body = b.block(&[decl], None);
        b.func("f", &[], None, body);
        let done = b.infer();
        if ok {
            assert_eq!(done.messages, Vec::<String>::new());
        } else {
            assert_eq!(done.messages, vec!["the literal `300` does not fit in `Metres`"]);
        }
    }
}

// Patterns.

#[test]
fn a_tuple_pattern_binds_its_parts() {
    let mut b = Build::new();
    let one = b.boolean(true);
    let ti = b.ty("i32");
    let (p, pd) = b.param("n", ti, None);
    let two = b.path(pd);
    let value = b.node(NodeKind::Tuple { elems: nodes(&[one, two]) });
    let pa = b.node(NodeKind::BindingPat { name: Symbol::new("a") });
    let da = b.def("a", DefKind::Local, Some(pa));
    b.declares(pa, da);
    let pb = b.node(NodeKind::BindingPat { name: Symbol::new("b") });
    let db = b.def("b", DefKind::Local, Some(pb));
    b.declares(pb, db);
    let pattern = b.node(NodeKind::TuplePat { elems: nodes(&[pa, pb]) });
    let decl = b.node(NodeKind::LocalDecl { pattern, ty: None, value });
    let ra = b.path(da);
    let rb = b.path(db);
    let body = b.block(&[decl, ra], Some(rb));
    let ret = b.ty("i32");
    b.func("f", &[p], Some(ret), body);
    let done = b.infer();
    assert_eq!(done.messages, Vec::<String>::new());
    assert_eq!(done.ty(value), "(bool, i32)");
    assert_eq!(done.ty(ra), "bool");
    assert_eq!(done.ty(rb), "i32");
}

// Closures.

#[test]
fn a_closure_takes_its_types_from_what_it_is_passed_to() {
    let mut b = Build::new();
    let func = b.def("Func", DefKind::Trait, None);
    b.lang_item("func", func);
    // `apply :: func (f: *func(i32) -> bool)`, called with `{ x in true }`.
    let pi = b.ty("i32");
    let rb = b.ty("bool");
    let fty = b.node(NodeKind::FuncType { params: nodes(&[pi]), ret: Some(rb), abi: None });
    let ptr = b.node(NodeKind::PtrType { mutable: false, inner: fty });
    let (p, _) = b.param("f", ptr, None);
    let empty = b.block(&[], None);
    let apply = b.func("apply", &[p], None, empty);
    let x = b.node(NodeKind::Param { name: Symbol::new("x"), ty: None, default: None });
    let xd = b.def("x", DefKind::Param, Some(x));
    b.declares(x, xd);
    let read = b.path(xd);
    let yes = b.boolean(true);
    let cbody = b.block(&[read], Some(yes));
    let closure =
        b.node(NodeKind::Closure { captures: List::Nil, params: nodes(&[x]), ret: None, body: cbody });
    let cty = b.def("{closure}", DefKind::Closure, Some(closure));
    let this = b.def("self", DefKind::Param, None);
    let call_def = b.def("call", DefKind::Func, None);
    b.facts
        .closure_defs
        .set(node_key(FILE, closure), nest_sema::facts::ClosureDefs { ty: cty, this, call: call_def });
    let callee = b.path(apply);
    let call = b.call(callee, &[closure]);
    let body = b.block(&[call], None);
    b.func("caller", &[], None, body);
    let done = b.infer();
    assert_eq!(done.ty(read), "i32");
    let sig = done.facts.closure_sig.get(node_key(FILE, closure)).unwrap();
    assert_eq!(done.show(&sig.ret), "bool");
    assert_eq!(done.ty(closure), "{closure}");

    // Lowered, it is the struct of what it captured and a function of its own.
    let (low, _) = lowered(&done);
    let funcs = vec_of(low.program.funcs);
    let lifted = funcs.last().unwrap();
    assert_eq!(lifted.def, call_def);
    assert_eq!(text(&lifted.name.text), "call");
    match &lifted.params {
        List::Cons(first, _) => assert_eq!(first.def, this),
        List::Nil => panic!("the closure itself"),
    }
    let types = vec_of(low.program.types);
    assert!(types.iter().any(|t| t.def == cty));
}

#[test]
fn a_closure_does_not_leave_the_loop_around_it() {
    // `loop { { break } }`, with the inner braces a closure.
    let mut b = Build::new();
    let br = b.node(NodeKind::Break { value: None });
    let cbody = b.block(&[br], None);
    let ret = b.ty("void");
    let closure =
        b.node(NodeKind::Closure { captures: List::Nil, params: List::Nil, ret: Some(ret), body: cbody });
    let cty = b.def("{closure}", DefKind::Closure, Some(closure));
    let this = b.def("self", DefKind::Param, None);
    let call = b.def("call", DefKind::Func, None);
    b.facts
        .closure_defs
        .set(node_key(FILE, closure), nest_sema::facts::ClosureDefs { ty: cty, this, call });
    let inner = b.block(&[closure], None);
    let lp = b.node(NodeKind::Loop { body: inner });
    let body = b.block(&[], Some(lp));
    b.func("f", &[], None, body);
    let done = b.infer();
    assert_eq!(done.messages, vec!["`break` outside of a loop"]);
    assert_eq!(done.ty(lp), "never");
}

#[test]
fn tests_are_truths_and_addresses_are_pointers() {
    let mut b = Build::new();
    let t = b.ty("i32");
    let (p, d) = b.param("a", t, None);
    let operand = b.path(d);
    let shared = b.node(NodeKind::Unary { op: UnOp::Ref, operand });
    let operand = b.path(d);
    let unique = b.node(NodeKind::Unary { op: UnOp::RefMut, operand });
    let lhs = b.path(d);
    let rhs = b.path(d);
    let less = b.node(NodeKind::Binary { op: BinOp::Lt, lhs, rhs });
    let not = b.node(NodeKind::Unary { op: UnOp::Not, operand: less });
    let yes = b.boolean(true);
    let both = b.node(NodeKind::Binary { op: BinOp::And, lhs: not, rhs: yes });
    let body = b.block(&[shared, unique, both], None);
    b.func("f", &[p], None, body);
    let done = b.infer();
    assert_eq!(done.messages, Vec::<String>::new());
    assert_eq!(done.ty(shared), "*i32");
    assert_eq!(done.ty(unique), "*mut i32");
    for n in [less, not, both] {
        assert_eq!(done.ty(n), "bool");
    }
}

// More lowering.

fn first_stmt(done: &Done) -> (nest_sema::ir::StmtKind, Meta) {
    let (low, meta) = lowered(done);
    let mut funcs = vec_of(low.program.funcs);
    let f = funcs.pop().unwrap();
    match *f.body.unwrap().stmts {
        List::Cons(s, _) => (s.kind, meta),
        List::Nil => panic!("a statement"),
    }
}

#[test]
fn a_while_lowers_to_a_guarded_loop() {
    let mut b = Build::new();
    let cond = b.boolean(true);
    let inner = b.block(&[], None);
    let w = b.node(NodeKind::While { cond, body: inner });
    let body = b.block(&[w], None);
    b.func("f", &[], None, body);
    let done = b.infer();
    assert_eq!(done.messages, Vec::<String>::new());
    match first_stmt(&done).0 {
        StmtKind::Expr(e) => match e.kind {
            ExprKind::Loop { body } => {
                assert!(body.tail.is_none());
                match *body.stmts {
                    List::Cons(guard, _) => match guard.kind {
                        StmtKind::Expr(g) => match g.kind {
                            ExprKind::If { cond, then, els } => {
                                assert!(matches!(cond.kind, ExprKind::Unary { op: UnOp::Not, .. }));
                                assert!(els.is_none());
                                match *then.stmts {
                                    List::Cons(s, _) => assert!(matches!(s.kind, StmtKind::Break(None))),
                                    List::Nil => panic!("a break"),
                                }
                            }
                            _ => panic!("an if"),
                        },
                        _ => panic!("an expression"),
                    },
                    List::Nil => panic!("a guard"),
                }
            }
            _ => panic!("a loop"),
        },
        _ => panic!("an expression"),
    }
}

#[test]
fn a_method_call_lowers_to_a_call_with_its_receiver_first() {
    let mut b = Build::new();
    let (s, m) = with_method(&mut b);
    let t = b.ty_of(s);
    let (p, d) = b.param("p", t, None);
    let base = b.path(d);
    let callee = b.node(NodeKind::FieldAccess { base, name: Symbol::new("get") });
    let call = b.call(callee, &[]);
    let body = b.block(&[call], None);
    b.func("f", &[p], None, body);
    let done = b.infer();
    let (stmt, meta) = first_stmt(&done);
    match stmt {
        StmtKind::Expr(e) => {
            assert_eq!(ir_ty(&done, &meta, &e), "i32");
            match e.kind {
                ExprKind::Call { callee, args, dispatch, .. } => {
                    assert!(matches!(callee.kind, ExprKind::Global(x) if x == m));
                    assert!(matches!(dispatch, nest_sema::ir::Dispatch::Static));
                    match *args {
                        List::Cons(first, rest) => {
                            assert!(matches!(*rest, List::Nil));
                            assert_eq!(ir_ty(&done, &meta, &first), "*P");
                            match first.kind {
                                ExprKind::Ref { mutable, place } => {
                                    assert!(!mutable);
                                    assert!(matches!(place.kind, ExprKind::Local(x) if x == d));
                                }
                                _ => panic!("an address"),
                            }
                        }
                        List::Nil => panic!("a receiver"),
                    }
                }
                _ => panic!("a call"),
            }
        }
        _ => panic!("an expression"),
    }
}

#[test]
fn a_pointer_is_read_through_for_its_field() {
    let mut b = Build::new();
    let (_, m) = with_method(&mut b);
    let done = b.infer();
    let (low, meta) = lowered(&done);
    let funcs = vec_of(low.program.funcs);
    let f = funcs.iter().find(|f| f.def == m).unwrap();
    assert_eq!(f.recv, nest_sema::ir::Recv::Ptr);
    match &f.body.as_ref().unwrap().tail {
        Some(e) => match &e.kind {
            ExprKind::Field { base, name, .. } => {
                assert_eq!(text(&name.text), "x");
                assert!(matches!(base.kind, ExprKind::Deref { .. }));
                assert_eq!(ir_ty(&done, &meta, base), "P");
            }
            _ => panic!("a field"),
        },
        None => panic!("a tail"),
    }
}

#[test]
fn a_default_fills_the_lowered_call() {
    let mut b = Build::new();
    let tb = b.ty("bool");
    let dv = b.boolean(true);
    let (c, _) = b.param("b", tb, Some(dv));
    let empty = b.block(&[], None);
    let f = b.func("callee", &[c], None, empty);
    let callee = b.path(f);
    let call = b.call(callee, &[]);
    let body = b.block(&[call], None);
    b.func("caller", &[], None, body);
    let done = b.infer();
    assert_eq!(done.messages, Vec::<String>::new());
    match first_stmt(&done).0 {
        StmtKind::Expr(e) => match e.kind {
            ExprKind::Call { args, .. } => match *args {
                List::Cons(a, rest) => {
                    assert!(matches!(*rest, List::Nil));
                    assert!(matches!(a.kind, ExprKind::Lit(Lit::Bool(true))));
                }
                List::Nil => panic!("the default"),
            },
            _ => panic!("a call"),
        },
        _ => panic!("an expression"),
    }
}

#[test]
fn types_and_constants_lower_too() {
    let mut b = Build::new();
    let ti = b.ty("i32");
    let tb = b.ty("bool");
    let s = b.record("P", &[("x", ti), ("y", tb)]);
    let v = b.boolean(true);
    let g = b.bind("FLAG", DefKind::Const, v);
    let done = b.infer();
    assert_eq!(done.messages, Vec::<String>::new());
    let (low, meta) = lowered(&done);
    let types = vec_of(low.program.types);
    assert_eq!(types.len(), 1);
    assert_eq!(types[0].def, s);
    match &types[0].kind {
        nest_sema::ir::TypeDefKind::Struct { members } => {
            let mut names = Vec::new();
            let mut at = members;
            while let List::Cons(m, t) = at {
                names.push((text(&m.name.text), done.show(meta.tys.get(m.id.0).unwrap())));
                at = t;
            }
            assert_eq!(names, vec![("x".to_string(), "i32".to_string()), ("y".to_string(), "bool".to_string())]);
        }
        _ => panic!("a struct"),
    }
    let globals = vec_of(low.program.globals);
    assert_eq!(globals.len(), 1);
    assert_eq!(globals[0].def, g);
    assert!(matches!(globals[0].init.as_ref().unwrap().kind, ExprKind::Lit(Lit::Bool(true))));
}

// What other packages are told of impls.

#[test]
fn an_impl_already_resolved_is_left_alone() {
    let mut b = Build::new();
    let (t, _) = with_trait(&mut b);
    let ti = b.ty("i32");
    let s = b.record("P", &[("x", ti)]);
    with_impl(&mut b, t, s, "i32");
    let (tables, mut facts, mut impls, _) = b.tables();
    let mut diags = Vec::new();
    let first = resolve_impl_targets(&tables, &mut facts, &mut diags, &mut impls);
    assert!(impls[0].typed.is_some());
    // Without its syntax, what was recorded still answers.
    impls[0].syntax = None;
    let second = resolve_impl_targets(&tables, &mut facts, &mut diags, &mut impls);
    assert!(diags.is_empty());
    assert_eq!(first.len(), 1);
    assert_eq!(second.len(), 1);
    assert_eq!(pieces(ty_pieces(&tables, &first[0].self_ty)), "P");
    assert_eq!(pieces(ty_pieces(&tables, &second[0].self_ty)), "P");
    // With neither there is nothing to answer with.
    impls[0].typed = None;
    let third = resolve_impl_targets(&tables, &mut facts, &mut diags, &mut impls);
    assert!(matches!(third[0].self_ty, Ty::Error));
    assert!(impls[0].typed.is_none());
}

// Traits and impls.

/// `f :: func <T: Get> (x: *T)` called with the address of a `P`.
fn bounded_call(impls: usize) -> Done {
    let mut b = Build::new();
    let (t, _) = with_trait(&mut b);
    let ti = b.ty("i32");
    let s = b.record("P", &[("x", ti)]);
    for _ in 0..impls {
        with_impl(&mut b, t, s, "i32");
    }
    let (g, gd) = b.type_param("T", &[t]);
    let inner = b.ty_of(gd);
    let ptr = b.node(NodeKind::PtrType { mutable: false, inner });
    let (x, _) = b.param("x", ptr, None);
    let e = b.block(&[], None);
    let f = b.generic_func("f", &[g], &[x], None, Some(e));
    let tp = b.ty_of(s);
    let (p, pd) = b.param("p", tp, None);
    let read = b.path(pd);
    let addr = b.node(NodeKind::Unary { op: UnOp::Ref, operand: read });
    let callee = b.path(f);
    let call = b.call(callee, &[addr]);
    let body = b.block(&[call], None);
    b.func("caller", &[p], None, body);
    b.infer()
}

#[test]
fn a_bound_is_checked_at_the_call() {
    assert_eq!(bounded_call(1).messages, Vec::<String>::new());
    assert_eq!(bounded_call(0).messages, vec!["`P` does not implement `Get`"]);
    assert_eq!(bounded_call(2).messages, vec!["multiple applicable impls of `Get` for `P`"]);
}

#[test]
fn a_concrete_impl_beats_a_blanket_one() {
    for concrete in [true, false] {
        let mut b = Build::new();
        let (t, _) = with_trait(&mut b);
        let ti = b.ty("i32");
        let s = b.record("P", &[("x", ti)]);
        // `impl <T> Get for T`.
        let (_, gd) = b.type_param("T", &[]);
        let blanket = with_impl(&mut b, t, gd, "i32");
        b.impls[0].generics = list_of(vec![gd]);
        b.impls[0].self_is_generic = true;
        let own = if concrete { Some(with_impl(&mut b, t, s, "i32")) } else { None };
        let tp = b.ty_of(s);
        let (p, pd) = b.param("p", tp, None);
        let base = b.path(pd);
        let callee = b.node(NodeKind::FieldAccess { base, name: Symbol::new("get") });
        let call = b.call(callee, &[]);
        let body = b.block(&[call], None);
        b.func("caller", &[p], None, body);
        let done = b.infer();
        assert_eq!(done.messages, Vec::<String>::new());
        let res = done.facts.method_res.get(node_key(FILE, callee)).unwrap();
        assert_eq!(res.method, own.unwrap_or(blanket));
    }
}

/// A trait with one method `name(self: Self, rhs: Self) -> result`, tagged, and an
/// impl of it for `V`.
fn with_operator(b: &mut Build, tag: &str, name: &str, v: DefId, result: DefId) -> DefId {
    let tr = b.node(NodeKind::TraitType { members: List::Nil, generics: List::Nil });
    let t = b.bind("Op", DefKind::Trait, tr);
    b.lang_item(tag, t);
    let assoc = b.def("Output", DefKind::TypeAlias, None);
    b.defs[assoc.0 as usize].assoc_bounds = Some(List::Nil);
    b.add_member(t, "Output", assoc);
    let st = b.ty_of(v);
    let (p, _) = b.param("self", st, None);
    let rt = b.ty_of(v);
    let (q, qd) = b.param("rhs", rt, None);
    let ret = b.ty_of(result);
    let body = if result == v {
        let read = b.path(qd);
        b.block(&[], Some(read))
    } else {
        let inner = b.block(&[], None);
        let forever = b.node(NodeKind::Loop { body: inner });
        b.block(&[], Some(forever))
    };
    let m = b.func(name, &[p, q], Some(ret), body);
    let self_node = b.ty_of(v);
    let out = b.ty_of(result);
    b.impls.push(ImplInfo {
        file: FILE,
        trait_def: Some(t),
        generics: List::Nil,
        members: list_of(vec![(Symbol::new(name), m)]),
        typed: None,
        syntax: Some(ImplSyntax {
            self_node,
            trait_args: List::Nil,
            assoc: list_of(vec![(Symbol::new("Output"), out)]),
        }),
        self_is_generic: false,
    });
    m
}

#[test]
fn an_operator_on_a_user_type_is_a_call() {
    let mut b = Build::new();
    let ti = b.ty("i32");
    let v = b.record("V", &[("x", ti)]);
    let m = with_operator(&mut b, "add", "add", v, v);
    let t1 = b.ty_of(v);
    let (p, pd) = b.param("a", t1, None);
    let lhs = b.path(pd);
    let rhs = b.path(pd);
    let sum = b.node(NodeKind::Binary { op: BinOp::Add, lhs, rhs });
    let body = b.block(&[sum], None);
    b.func("f", &[p], None, body);
    let done = b.infer();
    assert_eq!(done.messages, Vec::<String>::new());
    assert_eq!(done.ty(sum), "V");
    let res = done.facts.op_resolution.get(node_key(FILE, sum)).unwrap();
    assert_eq!(res.method, m);
    assert!(res.builtin.is_none());
    match first_stmt(&done).0 {
        StmtKind::Expr(e) => match e.kind {
            ExprKind::Call { callee, args, .. } => {
                assert!(matches!(callee.kind, ExprKind::Global(x) if x == m));
                assert_eq!(vec_of(*args).len(), 2);
            }
            _ => panic!("a call"),
        },
        _ => panic!("an expression"),
    }
}

#[test]
fn a_relation_on_a_user_type_tests_its_ordering() {
    let mut b = Build::new();
    let ordering = b.def("Ordering", DefKind::Enum, None);
    b.lang_item("ordering", ordering);
    let ti = b.ty("i32");
    let v = b.record("V", &[("x", ti)]);
    with_operator(&mut b, "ord", "cmp", v, ordering);
    let t1 = b.ty_of(v);
    let (p, pd) = b.param("a", t1, None);
    let lhs = b.path(pd);
    let rhs = b.path(pd);
    let less = b.node(NodeKind::Binary { op: BinOp::Lt, lhs, rhs });
    let body = b.block(&[less], None);
    b.func("f", &[p], None, body);
    let done = b.infer();
    assert_eq!(done.messages, Vec::<String>::new());
    assert_eq!(done.ty(less), "bool");
    match first_stmt(&done).0 {
        StmtKind::Expr(e) => match e.kind {
            ExprKind::Match { scrutinee, arms } => {
                assert!(matches!(scrutinee.kind, ExprKind::Call { .. }));
                let arms = vec_of(*arms);
                assert_eq!(arms.len(), 2);
                match &arms[0].pattern.kind {
                    PatternKind::Variant { name, .. } => assert_eq!(text(&name.text), "less"),
                    _ => panic!("a variant"),
                }
                assert!(matches!(arms[0].body.kind, ExprKind::Lit(Lit::Bool(true))));
                assert!(matches!(arms[1].pattern.kind, PatternKind::Wildcard));
                assert!(matches!(arms[1].body.kind, ExprKind::Lit(Lit::Bool(false))));
            }
            _ => panic!("a match"),
        },
        _ => panic!("an expression"),
    }
}

#[test]
fn machine_arithmetic_keeps_its_operands_type() {
    let mut b = Build::new();
    let add = b.def("Add", DefKind::Trait, None);
    b.lang_item("add", add);
    let t1 = b.ty("i32");
    let (p, pd) = b.param("a", t1, None);
    let lhs = b.path(pd);
    let rhs = b.number(1);
    let sum = b.node(NodeKind::Binary { op: BinOp::Add, lhs, rhs });
    let body = b.block(&[], Some(sum));
    let ret = b.ty("i32");
    b.func("f", &[p], Some(ret), body);
    let done = b.infer();
    assert_eq!(done.messages, vec!["impl does not define `add`"; 0]);
    assert_eq!(done.ty(sum), "i32");
    assert_eq!(done.coercion(rhs), Some("i32".to_string()));
}

#[test]
fn a_static_trait_call_takes_its_impl_from_context() {
    let mut b = Build::new();
    let tr = b.node(NodeKind::TraitType { members: List::Nil, generics: List::Nil });
    let t = b.bind("Make", DefKind::Trait, tr);
    let ret = b.ty_of(t);
    let m = b.generic_func("make", &[], &[], Some(ret), None);
    b.add_member(t, "make", m);
    let ti = b.ty("i32");
    let s = b.record("P", &[("x", ti)]);
    let own_ret = b.ty_of(s);
    let inner = b.block(&[], None);
    let forever = b.node(NodeKind::Loop { body: inner });
    let own_body = b.block(&[], Some(forever));
    let own = b.func("make", &[], Some(own_ret), own_body);
    let self_node = b.ty_of(s);
    b.impls.push(ImplInfo {
        file: FILE,
        trait_def: Some(t),
        generics: List::Nil,
        members: list_of(vec![(Symbol::new("make"), own)]),
        typed: None,
        syntax: Some(ImplSyntax { self_node, trait_args: List::Nil, assoc: List::Nil }),
        self_is_generic: false,
    });
    let root = b.root;
    b.add_member(root, "Make", t);
    let callee = b.path(m);
    let call = b.call(callee, &[]);
    let ann = b.ty_of(s);
    let (decl, _) = b.local("p", Some(ann), call);
    let body = b.block(&[decl], None);
    b.func("f", &[], None, body);
    let done = b.infer();
    assert_eq!(done.messages, Vec::<String>::new());
    assert_eq!(done.ty(call), "P");
    assert_eq!(done.facts.op_resolution.get(node_key(FILE, callee)).unwrap().method, own);
}

// Enums and literals.

/// `E :: enum { A(i32), B }`, with its definition.
fn with_enum(b: &mut Build) -> DefId {
    let t = b.ty("i32");
    let va = b.node(NodeKind::Variant {
        name: Symbol::new("A"),
        payload: VariantPayload::Tuple(nodes(&[t])),
        value: None,
    });
    let vb = b.node(NodeKind::Variant { name: Symbol::new("B"), payload: VariantPayload::Unit, value: None });
    let e = b.node(NodeKind::EnumType { variants: nodes(&[va, vb]), generics: List::Nil });
    let d = b.bind("E", DefKind::Enum, e);
    for (n, v) in [("A", va), ("B", vb)] {
        let vd = b.def(n, DefKind::Variant, Some(v));
        b.declares(v, vd);
        b.add_member(d, n, vd);
    }
    d
}

fn variant_program(name: &str, args: usize) -> Done {
    let mut b = Build::new();
    let e = with_enum(&mut b);
    let vs: Vec<NodeId> = (0..args).map(|i| b.number(i as u64)).collect();
    let args = if args == 0 { VariantArgs::Unit } else { VariantArgs::Tuple(nodes(&vs)) };
    let lit = b.node(NodeKind::VariantLit { name: Symbol::new(name), args });
    let ann = b.ty_of(e);
    let (decl, _) = b.local("x", Some(ann), lit);
    let body = b.block(&[decl], None);
    b.func("f", &[], None, body);
    b.infer()
}

#[test]
fn a_variant_literal_fits_its_enum() {
    assert_eq!(variant_program("A", 1).messages, Vec::<String>::new());
    assert_eq!(variant_program("B", 0).messages, Vec::<String>::new());
    assert_eq!(variant_program("A", 0).messages, vec!["variant `.A` takes 1 value(s) but 0 were supplied"]);
    assert_eq!(variant_program("C", 0).messages, vec!["`E` has no variant `.C`"]);
}

#[test]
fn a_match_binds_what_a_variant_carries() {
    let mut b = Build::new();
    let e = with_enum(&mut b);
    let t = b.ty_of(e);
    let (p, pd) = b.param("e", t, None);
    let scrutinee = b.path(pd);
    let px = b.node(NodeKind::BindingPat { name: Symbol::new("x") });
    let xd = b.def("x", DefKind::Local, Some(px));
    b.declares(px, xd);
    let pa = b.node(NodeKind::VariantPat {
        name: Symbol::new("A"),
        args: VariantPatArgs::Tuple(nodes(&[px])),
    });
    let read = b.path(xd);
    let arm1 = b.node(NodeKind::MatchArm { pattern: pa, guard: None, body: read });
    let pb = b.node(NodeKind::WildcardPat);
    let zero = b.number(0);
    let arm2 = b.node(NodeKind::MatchArm { pattern: pb, guard: None, body: zero });
    let m = b.node(NodeKind::MatchExpr { scrutinee, arms: nodes(&[arm1, arm2]) });
    let body = b.block(&[], Some(m));
    let ret = b.ty("i32");
    b.func("f", &[p], Some(ret), body);
    let done = b.infer();
    assert_eq!(done.messages, Vec::<String>::new());
    assert_eq!(done.ty(read), "i32");
    assert_eq!(done.ty(m), "i32");
    assert_eq!(done.coercion(zero), Some("i32".to_string()));
}

fn record_program(fields: &[&str]) -> Done {
    let mut b = Build::new();
    let ti = b.ty("i32");
    let tb = b.ty("bool");
    let s = b.record("P", &[("x", ti), ("y", tb)]);
    let mut inits = Vec::new();
    for f in fields {
        let value = if *f == "x" { b.number(1) } else { b.boolean(true) };
        inits.push(b.node(NodeKind::FieldInit { name: Symbol::new(f), value }));
    }
    let ty = Some(b.ty_of(s));
    let lit = b.node(NodeKind::CompositeLit {
        ty,
        body: CompositeBody::Named { fields: nodes(&inits), spread: None },
    });
    let body = b.block(&[lit], None);
    b.func("f", &[], None, body);
    b.infer()
}

#[test]
fn every_field_is_given_exactly_once() {
    assert_eq!(record_program(&["x", "y"]).messages, Vec::<String>::new());
    assert_eq!(record_program(&["y", "x"]).messages, Vec::<String>::new());
    assert_eq!(record_program(&["x"]).messages, vec!["missing field `y` in `P`"]);
    assert_eq!(record_program(&[]).messages, vec!["missing fields `x`, `y` in `P`"]);
    assert_eq!(record_program(&["x", "y", "x"]).messages, vec!["field `x` is given more than once"]);
    assert_eq!(record_program(&["x", "y", "z"]).messages, vec!["`P` has no field `z`"]);
}

#[test]
fn an_untyped_record_is_the_struct_of_its_fields() {
    let mut b = Build::new();
    let v = b.boolean(true);
    let f1 = b.node(NodeKind::FieldInit { name: Symbol::new("b"), value: v });
    let w = b.boolean(false);
    let f2 = b.node(NodeKind::FieldInit { name: Symbol::new("a"), value: w });
    let lit = b.node(NodeKind::CompositeLit {
        ty: None,
        body: CompositeBody::Named { fields: nodes(&[f1, f2]), spread: None },
    });
    let (decl, _) = b.local("x", None, lit);
    let body = b.block(&[decl], None);
    b.func("f", &[], None, body);
    let done = b.infer();
    assert_eq!(done.messages, Vec::<String>::new());
    assert_eq!(done.ty(lit), "struct { a: bool, b: bool }");
}

#[test]
fn an_anonymous_struct_becomes_a_named_one_and_not_back() {
    for (fields, ok) in [(vec!["y", "x"], true), (vec!["x"], false)] {
        let mut b = Build::new();
        let tx = b.ty("bool");
        let ty = b.ty("bool");
        let s = b.record("P", &[("x", tx), ("y", ty)]);
        let mut inits = Vec::new();
        for f in &fields {
            let value = b.boolean(true);
            inits.push(b.node(NodeKind::FieldInit { name: Symbol::new(f), value }));
        }
        let lit = b.node(NodeKind::CompositeLit {
            ty: None,
            body: CompositeBody::Named { fields: nodes(&inits), spread: None },
        });
        let (first, x) = b.local("a", None, lit);
        let value = b.path(x);
        let ann = b.ty_of(s);
        let (second, p) = b.local("p", Some(ann), value);
        let mut stmts = vec![first, second];
        if ok {
            // The way back is a mismatch.
            let fx = b.ty("bool");
            let fy = b.ty("bool");
            let mx = b.node(NodeKind::Field { name: Symbol::new("x"), ty: fx });
            let my = b.node(NodeKind::Field { name: Symbol::new("y"), ty: fy });
            let anon = b.node(NodeKind::StructType { generics: List::Nil, kind: StructKind::Record(nodes(&[mx, my])) });
            let named = b.path(p);
            let (third, _) = b.local("q", Some(anon), named);
            stmts.push(third);
        }
        let body = b.block(&stmts, None);
        b.func("f", &[], None, body);
        let done = b.infer();
        if ok {
            assert_eq!(done.coercion(value), Some("P".to_string()));
            assert_eq!(done.messages, vec!["type mismatch: expected `struct { x: bool, y: bool }`, found `P`"]);
        } else {
            assert_eq!(done.coercion(value), None);
            assert_eq!(done.messages, vec!["type mismatch: expected `P`, found `struct { x: bool }`"]);
        }
    }
}

#[test]
fn a_repeated_literal_is_as_long_as_its_array() {
    for (n, ok) in [(4, true), (3, false)] {
        let mut b = Build::new();
        b.pointer_sized();
        let len = b.number(4);
        let inner = b.ty("u8");
        let ann = b.node(NodeKind::ArrayType { len, mutable: false, inner });
        let value = b.number(0);
        let count = b.number(n);
        let lit = b.node(NodeKind::CompositeLit { ty: None, body: CompositeBody::Repeat { value, count } });
        let (decl, _) = b.local("a", Some(ann), lit);
        let body = b.block(&[decl], None);
        b.func("f", &[], None, body);
        let done = b.infer();
        if ok {
            assert_eq!(done.messages, Vec::<String>::new());
        } else {
            assert_eq!(done.messages, vec!["this literal repeats 3 time(s) but the array is `[4]`"]);
        }
    }
}

// Generic values.

#[test]
fn an_array_length_is_inferred_at_the_call() {
    let mut b = Build::new();
    b.pointer_sized();
    let ty = b.ty("usize");
    let n = b.node(NodeKind::GenericConstParam { name: Symbol::new("N"), ty });
    let nd = b.def("N", DefKind::ConstParam, Some(n));
    b.declares(n, nd);
    let len = b.path(nd);
    let inner = b.ty("u8");
    let arr = b.node(NodeKind::ArrayType { len, mutable: false, inner });
    let (p, _) = b.param("a", arr, None);
    let e = b.block(&[], None);
    let f = b.generic_func("f", &[n], &[p], None, Some(e));
    let four = b.number(4);
    let inner = b.ty("u8");
    let arr = b.node(NodeKind::ArrayType { len: four, mutable: false, inner });
    let (q, qd) = b.param("x", arr, None);
    let arg = b.path(qd);
    let callee = b.path(f);
    let call = b.call(callee, &[arg]);
    let body = b.block(&[call], None);
    b.func("g", &[q], None, body);
    let done = b.infer();
    assert_eq!(done.messages, Vec::<String>::new());
    match &done.facts.instantiation.get(node_key(FILE, callee)).unwrap().0 {
        List::Cons(GenericArg::Const(c), _) => {
            assert_eq!(pieces(nest_sema::text::const_pieces(&done.tables, c)), "4");
        }
        _ => panic!("one value"),
    }
    // What the function is generic over lines up with that by position.
    let FuncOf(func) = func_node(&done, f);
    let g = done.facts.generics.get(node_key(FILE, func)).unwrap();
    assert_eq!(g.own, 1);
    match &g.params {
        List::Cons(d, rest) => {
            assert_eq!(*d, nd);
            assert!(matches!(**rest, List::Nil));
        }
        List::Nil => panic!("one parameter"),
    }
}

struct FuncOf(NodeId);

/// The `func` expression a definition binds.
fn func_node(done: &Done, d: DefId) -> FuncOf {
    let def = &done.tables.defs[d.0 as usize];
    let ast = done.tables.asts.get(file_key(FILE)).unwrap();
    match &ast.nodes[def.node.unwrap().0 as usize].kind {
        NodeKind::ConstBind { rhs, .. } => FuncOf(*rhs),
        _ => panic!("a binding"),
    }
}

// Names that are not types.

#[test]
fn a_name_that_is_no_type_is_complained_about_once() {
    let mut b = Build::new();
    let e = b.block(&[], None);
    let f = b.func("f", &[], None, e);
    let bad = b.ty_of(f);
    let (p, _) = b.param("x", bad, None);
    let e = b.block(&[], None);
    let g = b.func("g", &[p], None, e);
    // Calling it resolves the same type node again.
    let callee = b.path(g);
    let arg = b.boolean(true);
    let call = b.call(callee, &[arg]);
    let body = b.block(&[call], None);
    b.func("h", &[], None, body);
    let done = b.infer();
    assert_eq!(done.messages.len(), 1);
    assert!(done.messages[0].starts_with("`x` is a "), "{}", done.messages[0]);
    assert!(done.messages[0].ends_with(", not a type"), "{}", done.messages[0]);
}

// The C variadic tail.

fn variadic_program(arg: &dyn Fn(&mut Build) -> (Vec<NodeId>, NodeId)) -> (Done, NodeId) {
    let mut b = Build::new();
    let tb = b.ty("bool");
    let (p, _) = b.param("fixed", tb, None);
    let f = b.node(NodeKind::FuncExpr {
        generics: List::Nil,
        params: nodes(&[p]),
        ret: None,
        body: None,
        abi: Some(Symbol::new("c")),
    });
    let d = b.bind("printf", DefKind::Func, f);
    b.defs[d.0 as usize].c_variadic = true;
    let (params, value) = arg(&mut b);
    let callee = b.path(d);
    let fixed = b.boolean(true);
    let call = b.call(callee, &[fixed, value]);
    let body = b.block(&[call], None);
    b.func("g", &params, None, body);
    (b.infer(), value)
}

#[test]
fn a_variadic_tail_is_promoted_as_c_does() {
    let (done, value) = variadic_program(&|b| {
        let t = b.ty("u8");
        let (p, d) = b.param("n", t, None);
        (vec![p], b.path(d))
    });
    assert_eq!(done.messages, Vec::<String>::new());
    assert_eq!(done.coercion(value), Some("i32".to_string()));
    let (done, value) = variadic_program(&|b| {
        let n = b.number(7);
        (vec![], n)
    });
    assert_eq!(done.messages, Vec::<String>::new());
    assert_eq!(done.coercion(value), Some("i32".to_string()));
}

#[test]
fn a_slice_has_no_place_in_a_variadic_tail() {
    let (done, _) = variadic_program(&|b| {
        let inner = b.ty("i32");
        let t = b.node(NodeKind::SliceType { mutable: false, inner });
        let (p, d) = b.param("s", t, None);
        (vec![p], b.path(d))
    });
    assert_eq!(
        done.messages,
        vec!["a slice cannot be passed in a C variadic tail: `[]i32` has no C argument convention"]
    );
}

// Privacy.

#[test]
fn a_private_field_is_its_namespaces_own() {
    for private in [true, false] {
        let mut b = Build::new();
        let other = b.def("other", DefKind::Namespace, None);
        let ti = b.ty("i32");
        let s = b.record("P", &[("x", ti)]);
        b.defs[s.0 as usize].parent = Some(other);
        let field = match &b.defs[s.0 as usize].members {
            List::Cons(m, _) => m.1,
            List::Nil => panic!("one field"),
        };
        if private {
            b.defs[field.0 as usize].vis = Vis::Private;
        }
        let t = b.ty_of(s);
        let (p, d) = b.param("p", t, None);
        let base = b.path(d);
        let read = b.node(NodeKind::FieldAccess { base, name: Symbol::new("x") });
        let body = b.block(&[read], None);
        b.func("f", &[p], None, body);
        let done = b.infer();
        assert_eq!(done.ty(read), "i32");
        assert_eq!(done.messages.len(), if private { 1 } else { 0 });
    }
}

// The position of a call.

#[test]
fn a_call_is_where_its_default_location_is() {
    let mut b = Build::new();
    let tb = b.ty("bool");
    let loc = b.record("Location", &[("file", tb)]);
    b.lang_item("location", loc);
    let t = b.ty_of(loc);
    let here = b.node(NodeKind::CallerLocation);
    let (p, _) = b.param("loc", t, Some(here));
    let e = b.block(&[], None);
    let f = b.func("f", &[p], None, e);
    let callee = b.path(f);
    let call = b.call(callee, &[]);
    let body = b.block(&[call], None);
    b.func("g", &[], None, body);
    let mut done = b.infer();
    assert_eq!(done.messages, Vec::<String>::new());
    done.tables.sources.set(
        file_key(FILE),
        SourceFile { name: list_of("a.nest".chars().collect()), line_starts: list_of(vec![0, call.0 - 2, 500]) },
    );
    match first_stmt(&done).0 {
        StmtKind::Expr(e) => match e.kind {
            ExprKind::Call { args, .. } => match *args {
                List::Cons(a, _) => match a.kind {
                    ExprKind::Construct { def, fields } => {
                        assert_eq!(def, Some(loc));
                        let fields = vec_of(*fields);
                        let names: Vec<String> = fields.iter().map(|(n, _)| text(&n.text)).collect();
                        assert_eq!(names, vec!["file", "line", "column"]);
                        let lit = |e: &Expr| match &e.kind {
                            ExprKind::Lit(Lit::Int(n)) => nest_sema::bigint::int_to_i128(n),
                            ExprKind::Intrinsic { args, .. } => match &**args {
                                List::Cons(x, _) => match &x.kind {
                                    ExprKind::Lit(Lit::Int(n)) => nest_sema::bigint::int_to_i128(n),
                                    _ => None,
                                },
                                List::Nil => None,
                            },
                            _ => None,
                        };
                        assert_eq!(lit(&fields[1].1), Some(2));
                        assert_eq!(lit(&fields[2].1), Some(3));
                    }
                    _ => panic!("a location"),
                },
                List::Nil => panic!("the default"),
            },
            _ => panic!("a call"),
        },
        _ => panic!("an expression"),
    }
}

// Ranges and slices.

#[test]
fn a_slice_never_builds_its_range() {
    let mut b = Build::new();
    b.pointer_sized();
    let range = b.def("Range", DefKind::Struct, None);
    b.lang_item("range", range);
    let inner = b.ty("u8");
    let t = b.node(NodeKind::SliceType { mutable: true, inner });
    let (p, d) = b.param("s", t, None);
    let base = b.path(d);
    let one = b.number(1);
    let three = b.number(3);
    let r = b.node(NodeKind::Range { start: Some(one), end: Some(three), kind: RangeKind::HalfOpen });
    let sl = b.node(NodeKind::Slice { base, range: r });
    let body = b.block(&[sl], None);
    b.func("f", &[p], None, body);
    let done = b.infer();
    assert_eq!(done.messages, Vec::<String>::new());
    assert_eq!(done.ty(sl), "[]mut u8");
    match first_stmt(&done).0 {
        StmtKind::Expr(e) => match e.kind {
            ExprKind::Intrinsic { name, args } => {
                assert_eq!(text(&name.text), "slice");
                assert_eq!(vec_of(*args).len(), 3);
            }
            _ => panic!("a slice"),
        },
        _ => panic!("an expression"),
    }
}

#[test]
fn a_signature_is_read_off_the_tree() {
    let mut b = Build::new();
    let ti = b.ty("i32");
    let tb = b.ty("bool");
    let (p, _) = b.param("a", ti, None);
    let (q, _) = b.param("b", tb, None);
    let ret = b.ty("u8");
    let body = b.block(&[], None);
    let f = b.func("f", &[p, q], Some(ret), body);
    let nowhere = b.def("g", DefKind::Func, None);
    let (tables, mut facts, impls, _) = b.tables();
    let sig = signature_from_tree(&tables, &mut facts, &impls, f);
    assert_eq!(pieces(ty_pieces(&tables, &sig)), "*func(i32, bool) -> u8");
    assert!(matches!(signature_from_tree(&tables, &mut facts, &impls, nowhere), Ty::Error));
}

// What never ends.

/// `loop {}`.
fn forever(b: &mut Build) -> NodeId {
    let inner = b.block(&[], None);
    b.node(NodeKind::Loop { body: inner })
}

/// The type of `if true { .. } else { .. }` as a statement, and what was said.
fn if_of(then: &dyn Fn(&mut Build) -> NodeId, els: &dyn Fn(&mut Build) -> NodeId) -> (String, Vec<String>) {
    let mut b = Build::new();
    b.pointer_sized();
    let cond = b.boolean(true);
    let t = then(&mut b);
    let then = b.block(&[], Some(t));
    let e = els(&mut b);
    let els = Some(b.block(&[], Some(e)));
    let n = b.node(NodeKind::If { cond, then, els });
    let body = b.block(&[n], None);
    b.func("f", &[], None, body);
    let done = b.infer();
    (done.ty(n), done.messages)
}

#[test]
fn a_diverging_branch_leaves_the_other() {
    let none = Vec::<String>::new();
    assert_eq!(if_of(&forever, &|b| b.boolean(true)), ("bool".to_string(), none.clone()));
    assert_eq!(if_of(&|b| b.boolean(true), &forever), ("bool".to_string(), none.clone()));
    assert_eq!(if_of(&forever, &|b| b.number(1)), ("isize".to_string(), none.clone()));
    assert_eq!(if_of(&|b| b.number(1), &forever), ("isize".to_string(), none.clone()));
    assert_eq!(if_of(&forever, &forever), ("never".to_string(), none));
}

#[test]
fn a_diverging_arm_leaves_the_others() {
    for diverging in [0, 1, 2] {
        let mut b = Build::new();
        let scrutinee = b.boolean(true);
        let mut arms = Vec::new();
        for i in 0..3 {
            let pattern = b.node(NodeKind::WildcardPat);
            let body = if i == diverging { forever(&mut b) } else { b.boolean(true) };
            arms.push(b.node(NodeKind::MatchArm { pattern, guard: None, body }));
        }
        let m = b.node(NodeKind::MatchExpr { scrutinee, arms: nodes(&arms) });
        let body = b.block(&[], Some(m));
        let ret = b.ty("bool");
        b.func("f", &[], Some(ret), body);
        let done = b.infer();
        assert_eq!(done.messages, Vec::<String>::new());
        assert_eq!(done.ty(m), "bool");
    }
}

#[test]
fn a_diverging_operand_takes_the_place_of_a_number() {
    let mut b = Build::new();
    b.pointer_sized();
    let one = b.number(1);
    let lp = forever(&mut b);
    let less = b.node(NodeKind::Binary { op: BinOp::Lt, lhs: one, rhs: lp });
    let body = b.block(&[less], None);
    b.func("f", &[], None, body);
    let done = b.infer();
    assert_eq!(done.messages, Vec::<String>::new());
    assert_eq!(done.ty(less), "bool");
}

// What passes leave alone.

#[test]
fn folding_leaves_a_use_its_complaint() {
    let mut b = Build::new();
    let e = b.block(&[], None);
    let f = b.func("f", &[], None, e);
    let callee = b.path(f);
    let call = b.call(callee, &[]);
    let n = b.bind("N", DefKind::Const, call);
    let value = Some(b.path(n));
    let v = b.node(NodeKind::Variant { name: Symbol::new("A"), payload: VariantPayload::Unit, value });
    let e = b.node(NodeKind::EnumType { variants: nodes(&[v]), generics: List::Nil });
    b.bind("E", DefKind::Enum, e);
    let (tables, mut facts, impls, root) = b.tables();
    assert!(fold_const_values(&tables, &mut facts, &impls, FILE).is_empty());
    assert!(facts.const_slot_reported.get(node_key(FILE, call)).is_none());
    let mut diags = Vec::new();
    infer_file(&tables, &mut facts, &mut diags, &impls, &List::Nil, root, FILE);
    let said: Vec<String> = diags.iter().map(|d| message(&tables, &d.message)).collect();
    assert_eq!(
        said,
        vec!["a call cannot be evaluated inside an enum discriminant: a function's body is not compiled until after the types are known, and this is one of them"]
    );
}

#[test]
fn an_overload_may_leave_out_what_has_a_default() {
    let mut b = Build::new();
    let mut made = Vec::new();
    for (name, first) in [("f", "i32"), ("g", "bool")] {
        let t = b.ty(first);
        let (p, _) = b.param("a", t, None);
        let t = b.ty("i32");
        let zero = b.number(0);
        let (q, _) = b.param("b", t, Some(zero));
        let e = b.block(&[], None);
        made.push(b.func(name, &[p, q], None, e));
    }
    let m1 = b.path(made[0]);
    let m2 = b.path(made[1]);
    let set = b.node(NodeKind::Overload { members: nodes(&[m1, m2]) });
    let o = b.bind("over", DefKind::Overload, set);
    let callee = b.path(o);
    let arg = b.boolean(true);
    let call = b.call(callee, &[arg]);
    let body = b.block(&[call], None);
    b.func("caller", &[], None, body);
    let done = b.infer();
    assert_eq!(done.messages, Vec::<String>::new());
    assert_eq!(chosen(&done, callee), Some(made[1]));
}

#[test]
fn the_rest_of_a_broken_slice_is_broken_too() {
    let mut b = Build::new();
    let path = b.node(NodeKind::Path { segments: syms(&["gone"]) });
    let t = b.node(NodeKind::TypePath { path, generic_args: List::Nil });
    let (p, d) = b.param("s", t, None);
    let first = b.node(NodeKind::BindingPat { name: Symbol::new("a") });
    let fd = b.def("a", DefKind::Local, Some(first));
    b.declares(first, fd);
    let pattern = b.node(NodeKind::SlicePat {
        elems: nodes(&[first]),
        rest: Some(SliceRest { at: 1, name: Some(Symbol::new("tail")) }),
    });
    let td = b.def("tail", DefKind::Local, Some(pattern));
    b.declares(pattern, td);
    let value = b.path(d);
    let decl = b.node(NodeKind::LocalDecl { pattern, ty: None, value });
    let ra = b.path(fd);
    let rt = b.path(td);
    let body = b.block(&[decl, ra, rt], None);
    b.func("f", &[p], None, body);
    let done = b.infer();
    assert_eq!(done.messages, Vec::<String>::new());
    assert_eq!(done.ty(rt), done.ty(ra));
}

#[test]
fn only_a_sign_keeps_a_constant_open() {
    let mut b = Build::new();
    b.pointer_sized();
    let five = b.number(5);
    let signed = b.node(NodeKind::Unary { op: UnOp::Neg, operand: five });
    let a = b.bind("A", DefKind::Const, signed);
    let five = b.number(5);
    let address = b.node(NodeKind::Unary { op: UnOp::Ref, operand: five });
    let c = b.bind("C", DefKind::Const, address);
    let na = b.defs[a.0 as usize].node.unwrap();
    let nc = b.defs[c.0 as usize].node.unwrap();
    let done = b.infer();
    assert_eq!(done.messages, Vec::<String>::new());
    assert_eq!(done.ty(na), "comptime_int");
    assert_eq!(done.ty(nc), "*isize");
}

#[test]
fn a_width_out_of_range_is_named() {
    let mut b = Build::new();
    let d = b.def("int", DefKind::Primitive, None);
    let path = b.path(d);
    let width = b.number(70000);
    let t = b.node(NodeKind::TypePath { path, generic_args: nodes(&[width]) });
    b.resolve(t, d);
    let (p, _) = b.param("x", t, None);
    let body = b.block(&[], None);
    b.func("f", &[p], None, body);
    let done = b.infer();
    assert_eq!(done.messages, vec!["an integer width must be between 1 and 65535, not `70000`"]);
}

#[test]
fn every_part_of_a_struct_type_is_looked_at() {
    let field = |t: Ty| Ty::Struct(Box::new(list_of(vec![(Symbol::new("x"), t)])));
    assert!(matches!(rebind_ty(&field(Ty::Bool), &Ty::Bool, &Ty::Char),
        Ty::Struct(l) if matches!(*l, List::Cons((_, Ty::Char), _))));
    let mut b = Build::new();
    let (_, d) = b.type_param("T", &[]);
    let (tables, _, _, _) = b.tables();
    let ty = field(Ty::Nominal { def: d, args: Box::new(List::Nil) });
    let (tys, consts) = collect_generic_params(&tables, &ty, List::Nil, List::Nil);
    assert_eq!(vec_of(tys), vec![d]);
    assert!(vec_of(consts).is_empty());
}

#[test]
fn a_trait_alone_is_a_bound_too() {
    // The trait is named only by the parameter's constraint, and by no `+` list.
    let mut b = Build::new();
    let (t, m) = with_trait(&mut b);
    let bound = b.ty_of(t);
    let g = b.node(NodeKind::GenericTypeParam { name: Symbol::new("T"), constraint: Some(bound) });
    let gd = b.def("T", DefKind::TypeParam, Some(g));
    b.defs[gd.0 as usize].param_bounds = Some(list_of(vec![t]));
    b.declares(g, gd);
    let inner = b.ty_of(gd);
    let ptr = b.node(NodeKind::PtrType { mutable: false, inner });
    let (p, d) = b.param("x", ptr, None);
    let base = b.path(d);
    let callee = b.node(NodeKind::FieldAccess { base, name: Symbol::new("get") });
    let call = b.call(callee, &[]);
    let body = b.block(&[], Some(call));
    let ret = b.ty("i32");
    b.generic_func("f", &[g], &[p], Some(ret), Some(body));
    let done = b.infer();
    assert_eq!(done.messages, Vec::<String>::new());
    assert_eq!(done.facts.method_res.get(node_key(FILE, callee)).unwrap().method, m);
}

#[test]
fn the_pins_of_a_trait_object_come_in_any_order() {
    let mut b = Build::new();
    let t = b.def("G", DefKind::Trait, None);
    let mut params = Vec::new();
    let mut tys = Vec::new();
    for order in [["A", "B"], ["B", "A"]] {
        let mut pins = Vec::new();
        for name in order {
            let ty = b.ty(if name == "A" { "i32" } else { "bool" });
            pins.push(b.node(NodeKind::AssocBinding { name: Symbol::new(name), ty }));
        }
        let path = b.path(t);
        let inner = b.node(NodeKind::TypePath { path, generic_args: nodes(&pins) });
        b.resolve(inner, t);
        let dynamic = b.node(NodeKind::DynType { inner });
        let ptr = b.node(NodeKind::PtrType { mutable: false, inner: dynamic });
        let (p, _) = b.param(order[0], ptr, None);
        params.push(p);
        tys.push(p);
    }
    let body = b.block(&[], None);
    b.func("f", &params, None, body);
    let done = b.infer();
    assert_eq!(done.messages, Vec::<String>::new());
    assert_eq!(done.ty(tys[0]), done.ty(tys[1]));
    assert!(done.ty(tys[0]).contains("A = i32, B = bool"));
}

// Doubles.

fn double(negative: bool, digits: &[u32]) -> u64 {
    int_to_double(&Int { negative, digits: list_of(digits.to_vec()) })
}

#[test]
fn an_integer_becomes_the_nearest_double() {
    assert_eq!(double(false, &[]), 0);
    assert_eq!(double(false, &[1]), 1.0f64.to_bits());
    assert_eq!(double(true, &[3]), (-3.0f64).to_bits());
    // Past 53 bits a tie goes to the even neighbour.
    let top = 1u32 << 21;
    assert_eq!(double(false, &[0, top]), double(false, &[1, top]));
    assert_ne!(double(false, &[1, top]), double(false, &[3, top]));
    // 2^1024 - 1 rounds past the largest double.
    assert_eq!(double(false, &[u32::MAX; 32]), f64::INFINITY.to_bits());
    assert_eq!(double(true, &[u32::MAX; 40]), f64::NEG_INFINITY.to_bits());
    let mut x: u32 = 1;
    for n in 0..200 {
        let mut digits = Vec::new();
        for _ in 0..(n % 34) {
            x = x.wrapping_mul(1664525).wrapping_add(1013904223);
            digits.push(match x % 5 {
                0 => 0,
                1 => u32::MAX,
                2 => 1 << (x >> 27),
                _ => x,
            });
        }
        let big = BigInt::from_slice(if n % 2 == 0 { Sign::Plus } else { Sign::Minus }, &digits);
        let (sign, spelled) = big.to_u32_digits();
        assert_eq!(double(sign == Sign::Minus, &spelled), big.to_f64().unwrap().to_bits());
    }
}

#[test]
fn an_integer_in_a_float_slot_is_that_float() {
    let (tables, facts, impls, _) = Build::new().tables();
    let none = List::Nil;
    let cx = InferCx { tables: &tables, impls: &impls, in_scope: &none, lang_traits: &none };
    let mut st = Inferer::blank(facts, Vec::new(), FILE, false);
    let want = Ty::Float(FloatWidth::F64);
    let mut read = |v: ConstValue| st.const_from_value(&cx, FILE, NodeId(0), v, &want, "a `const` argument");
    let one = read(ConstValue::Int(int_of(1)));
    let same = read(ConstValue::Float(1.0f64.to_bits()));
    assert!(const_eq(&one, &same));
    let even = read(ConstValue::Int(int_of(1 << 53)));
    let odd = read(ConstValue::Int(int_of((1 << 53) + 1)));
    assert!(const_eq(&even, &odd));
    assert!(!const_eq(&one, &odd));
}

// What messages say, to the letter.

#[test]
fn types_out_of_place_are_named() {
    let mut b = Build::new();
    let bounds = b.node(NodeKind::Bounds { bounds: List::Nil });
    let t = b.node(NodeKind::ImplType { bounds });
    let (p, _) = b.param("x", t, None);
    let body = b.block(&[], None);
    b.func("f", &[p], None, body);
    let done = b.infer();
    assert_eq!(done.messages, vec!["`impl` is written as a parameter's type or as the return type (§5.4)"]);

    let mut b = Build::new();
    let t = b.node(NodeKind::StructType { generics: List::Nil, kind: StructKind::Tuple(List::Nil) });
    let (p, _) = b.param("x", t, None);
    let body = b.block(&[], None);
    b.func("f", &[p], None, body);
    let done = b.infer();
    let gap = " ".repeat(22);
    assert_eq!(
        done.messages,
        vec![format!("an anonymous `struct` has named fields: write the tuple type `(A, B)`{gap}for a positional one")]
    );
}

// Depth.

#[test]
fn what_is_too_deep_is_given_up_on_and_said() {
    let mut b = Build::new();
    let n = b.boolean(true);
    let (tables, facts, impls, _) = b.tables();
    let none = List::Nil;
    let cx = InferCx { tables: &tables, impls: &impls, in_scope: &none, lang_traits: &none };
    let mut st = Inferer::blank(facts, Vec::new(), FILE, false);
    assert!(matches!(st.infer_expr(&cx, n, 9), Ty::Bool));
    assert!(!st.deep);
    assert!(matches!(st.infer_expr(&cx, n, 0), Ty::Error));
    assert!(st.deep);
    assert_eq!(
        message(&tables, &too_deep(FILE).message),
        "something in this file is nested too deeply to be followed"
    );
}

// The last sweep.

#[test]
fn a_closure_is_complained_about_however_many_functions_there_are() {
    let mut b = Build::new();
    b.pointer_sized();
    let ty = b.ty("usize");
    let n = b.node(NodeKind::GenericConstParam { name: Symbol::new("N"), ty });
    let nd = b.def("N", DefKind::ConstParam, Some(n));
    b.declares(n, nd);
    let len = b.path(nd);
    let inner = b.ty("i32");
    let arr = b.node(NodeKind::ArrayType { len, mutable: false, inner });
    let x = b.node(NodeKind::Param { name: Symbol::new("x"), ty: Some(arr), default: None });
    let xd = b.def("x", DefKind::Param, Some(x));
    b.declares(x, xd);
    let ret = b.ty("bool");
    let yes = b.boolean(true);
    let cbody = b.block(&[], Some(yes));
    let closure =
        b.node(NodeKind::Closure { captures: List::Nil, params: nodes(&[x]), ret: Some(ret), body: cbody });
    let cty = b.def("{closure}", DefKind::Closure, Some(closure));
    let this = b.def("self", DefKind::Param, None);
    let call = b.def("call", DefKind::Func, None);
    b.facts
        .closure_defs
        .set(node_key(FILE, closure), nest_sema::facts::ClosureDefs { ty: cty, this, call });
    let body = b.block(&[closure], None);
    b.generic_func("f", &[n], &[], None, Some(body));
    for name in ["g", "h"] {
        let body = b.block(&[], None);
        b.func(name, &[], None, body);
    }
    let done = b.infer();
    assert_eq!(
        done.messages,
        vec!["a closure's parameters, result and shared locals cannot name a `const` generic parameter yet; take the value as an argument, or write a function"]
    );
}

// Places.

#[test]
fn every_lowered_node_has_a_place() {
    let mut b = Build::new();
    b.pointer_sized();
    let range = b.def("Range", DefKind::Struct, None);
    b.lang_item("range", range);
    let (s, _) = with_method(&mut b);
    let t = b.ty_of(s);
    let (p, d) = b.param("p", t, None);
    let inner = b.ty("u8");
    let st = b.node(NodeKind::SliceType { mutable: false, inner });
    let (q, qd) = b.param("q", st, None);
    let base = b.path(d);
    let callee = b.node(NodeKind::FieldAccess { base, name: Symbol::new("get") });
    let call = b.call(callee, &[]);
    let base = b.path(qd);
    let one = b.number(1);
    let r = b.node(NodeKind::Range { start: None, end: Some(one), kind: RangeKind::Closed });
    let sl = b.node(NodeKind::Slice { base, range: r });
    let cond = b.boolean(true);
    let tail = b.boolean(false);
    let looped = b.block(&[call, sl], Some(tail));
    let wh = b.node(NodeKind::While { cond, body: looped });
    let body = b.block(&[wh], None);
    b.func("f", &[p, q], None, body);
    let done = b.infer();
    assert_eq!(done.messages, Vec::<String>::new());
    let (low, meta) = lowered(&done);
    assert!(!low.deep);
    assert!(meta.next > 10);
    for id in 0..meta.next {
        assert!(meta.spans.get(id).is_some());
    }
}
