//! Definitions, what they declare, and the tables every pass reads.

use vstd::prelude::*;

use crate::ast::{Ast, NodeKind};
use crate::ids::{def_key, file_key, DefId, FileId, IrId, NodeId, Span};
use crate::ir::{Param, Variant};
use crate::list::List;
use crate::symbol::{dup_sym, sym, sym_eq, sym_is, Symbol};
use crate::table::Table;
use crate::ty::{nominal, Const, ConstValue, Ty};

verus! {

/// What kind of thing a definition is.
#[derive(Debug, Clone, Copy, PartialEq, Eq, Structural)]
pub enum DefKind {
    Namespace,
    Struct,
    Enum,
    Variant,
    Field,
    Trait,
    TypeAlias,
    Const,
    Func,
    Overload,
    Closure,
    Local,
    Param,
    TypeParam,
    ConstParam,
    Primitive,
    /// A member of something that was not loaded.
    External,
}

/// How far a definition is exported.
#[derive(Debug, Clone, Copy, PartialEq, Eq, Structural)]
pub enum Vis {
    Private,
    Package,
    Public,
}

/// A directive written on a definition, with its arguments.
pub struct Directive {
    pub name: Symbol,
    pub args: List<Symbol>,
}

/// What an associated-type parameter stands for: the `Item` of `T.Item`.
pub struct Projection {
    pub base: DefId,
    pub trait_def: DefId,
    pub assoc: Symbol,
    /// The type its bound pinned it to, where one did.
    pub pinned: Option<NodeId>,
}

/// One definition.
pub struct Def {
    pub id: DefId,
    pub name: Symbol,
    /// The dotted path it is known by.
    pub path: Symbol,
    pub kind: DefKind,
    pub file: Option<FileId>,
    pub node: Option<NodeId>,
    pub parent: Option<DefId>,
    pub vis: Vis,
    pub mutable: bool,
    pub directives: List<Directive>,
    /// What a name that only renames another stands for.
    pub alias: Option<DefId>,
    /// The `#lang` tag it carries.
    pub lang: Option<Symbol>,
    /// The operation an `#intrinsic` declaration is.
    pub intrinsic: Option<Symbol>,
    /// A C function with a variadic tail.
    pub c_variadic: bool,
    /// An `impl` return type's parameter.
    pub opaque: bool,
    pub projection: Option<Projection>,
    /// The traits a type parameter was declared with.
    pub param_bounds: Option<List<DefId>>,
    /// The traits an associated type was declared with; `None` for anything
    /// that is not an associated type.
    pub assoc_bounds: Option<List<DefId>>,
    /// The `@using` field of a struct.
    pub using_field: Option<DefId>,
    pub members: List<(Symbol, DefId)>,
    pub imported: List<(Symbol, DefId)>,
    pub globs: List<DefId>,
}

/// What a defaulted parameter is filled with.
#[derive(Debug, Clone, Copy, PartialEq, Eq, Structural)]
pub enum ParamDefault {
    /// The position of the call.
    CallerLocation,
    /// The expression kept on the lowered parameter.
    Value(IrId),
}

/// The shape of a constant's type.
pub enum ConstTy {
    /// A literal, which each use settles for itself.
    ComptimeInt,
    ComptimeFloat,
    ComptimeStr,
    /// Another constant's.
    Same(DefId),
    Settled(Ty),
}

/// What is recorded about one definition, so that it can be asked about without
/// the tree it was written in.
pub struct Decl {
    pub signature: Option<Ty>,
    pub field_ty: Option<Ty>,
    pub distinct_repr: Option<Ty>,
    pub expansion: Option<Ty>,
    pub assoc_const_ty: Option<Ty>,
    pub const_ty: Option<ConstTy>,
    pub const_value: Option<ConstValue>,
    pub tuple_tys: Option<List<Ty>>,
    pub payload: Option<List<(Option<Symbol>, Ty)>>,
    pub param_names: Option<List<Symbol>>,
    pub param_has_default: Option<List<bool>>,
    pub param_defaults: Option<List<Option<ParamDefault>>>,
    pub generics: Option<List<DefId>>,
    pub field_names: Option<List<Symbol>>,
    pub overloads: Option<List<DefId>>,
    pub has_body: Option<bool>,
    pub sized_self: bool,
    /// What a type parameter's bounds were written with, by trait.
    pub bounds: Option<List<(DefId, List<Ty>)>>,
    pub pinned: Option<Ty>,
    pub opaque_params: Option<List<DefId>>,
}

/// What resolving an impl's syntax gave.
pub struct TypedImpl {
    pub self_ty: Ty,
    pub trait_args: List<Ty>,
    pub assoc: List<(Symbol, Ty)>,
}

/// An impl's target as it was written.
pub struct ImplSyntax {
    pub self_node: NodeId,
    pub trait_args: List<NodeId>,
    pub assoc: List<(Symbol, NodeId)>,
}

/// One `impl` block.
pub struct ImplInfo {
    pub file: FileId,
    pub trait_def: Option<DefId>,
    pub generics: List<DefId>,
    pub members: List<(Symbol, DefId)>,
    pub typed: Option<TypedImpl>,
    pub syntax: Option<ImplSyntax>,
    /// Whether the target is one of the impl's own parameters.
    pub self_is_generic: bool,
}

/// Where each line of a file begins.
pub struct SourceFile {
    pub name: List<char>,
    pub line_starts: List<u32>,
}

/// The definitions, trees and declarations of a whole program.
pub struct Tables {
    /// A definition's id is its position.
    pub defs: Vec<Def>,
    pub asts: Table<Ast>,
    pub decls: Table<Decl>,
    pub lang: List<(Symbol, DefId)>,
    pub sources: Table<SourceFile>,
    /// Which package each file belongs to.
    pub packages: Table<Symbol>,
}

/// The definition an id names.
pub open spec fn get_def_spec(t: &Tables, d: DefId) -> Option<&Def> {
    if d.0 < t.defs@.len() { Some(&t.defs@[d.0 as int]) } else { None }
}

/// The definition an id names.
pub fn get_def(t: &Tables, d: DefId) -> (r: Option<&Def>)
    ensures
        r == get_def_spec(t, d),
{
    if (d.0 as usize) < t.defs.len() { Some(&t.defs[d.0 as usize]) } else { None }
}

/// [`def_count`], as a mathematical function.
pub open spec fn def_count_spec(t: &Tables) -> u64 {
    t.defs@.len() as u64
}

/// How many definitions there are.
pub fn def_count(t: &Tables) -> (r: u64)
    ensures
        r == def_count_spec(t),
{
    t.defs.len() as u64
}

/// [`has_ast`], as a mathematical function.
pub open spec fn has_ast_spec(t: &Tables, file: FileId) -> bool {
    t.asts@.dom().contains(crate::ids::file_key_spec(file))
}

/// Whether a file's tree is here.
pub fn has_ast(t: &Tables, file: FileId) -> (r: bool)
    ensures
        r == has_ast_spec(t, file),
{
    match t.asts.get(file_key(file)) {
        Some(_) => true,
        None => false,
    }
}

/// The shape of a node.
pub open spec fn kind_of_spec(t: &Tables, file: FileId, node: NodeId) -> Option<&NodeKind> {
    let asts = t.asts@;
    let k = crate::ids::file_key_spec(file);
    if asts.dom().contains(k) && node.0 < asts[k].nodes@.len() {
        Some(&asts[k].nodes@[node.0 as int].kind)
    } else {
        None
    }
}

/// The shape of a node.
pub fn kind_of(t: &Tables, file: FileId, node: NodeId) -> (r: Option<&NodeKind>)
    ensures
        r == kind_of_spec(t, file, node),
{
    match t.asts.get(file_key(file)) {
        Some(ast) => if (node.0 as usize) < ast.nodes.len() {
            Some(&ast.nodes[node.0 as usize].kind)
        } else {
            None
        },
        None => None,
    }
}

/// [`span_of`], as a mathematical function.
pub open spec fn span_of_spec(t: &Tables, file: FileId, node: NodeId) -> (FileId, Span) {
    let asts = t.asts@;
    let k = crate::ids::file_key_spec(file);
    if asts.dom().contains(k) && node.0 < asts[k].nodes@.len() {
        let n = asts[k].nodes@[node.0 as int];
        (n.file, n.span)
    } else {
        (file, Span { start: 0, end: 0 })
    }
}

/// Where a node was written.
pub fn span_of(t: &Tables, file: FileId, node: NodeId) -> (r: (FileId, Span))
    ensures
        r == span_of_spec(t, file, node),
{
    match t.asts.get(file_key(file)) {
        Some(ast) => if (node.0 as usize) < ast.nodes.len() {
            let n = &ast.nodes[node.0 as usize];
            (n.file, n.span)
        } else {
            (file, Span { start: 0, end: 0 })
        },
        None => (file, Span { start: 0, end: 0 }),
    }
}

/// [`node_count`], as a mathematical function.
pub open spec fn node_count_spec(t: &Tables, file: FileId) -> u64 {
    let k = crate::ids::file_key_spec(file);
    if t.asts@.dom().contains(k) { t.asts@[k].nodes@.len() as u64 } else { 0 }
}

/// How many nodes a file's tree has.
pub fn node_count(t: &Tables, file: FileId) -> (r: u64)
    ensures
        r == node_count_spec(t, file),
{
    match t.asts.get(file_key(file)) {
        Some(ast) => ast.nodes.len() as u64,
        None => 0,
    }
}

/// What is recorded about a definition.
pub open spec fn decl_of_spec(t: &Tables, d: DefId) -> Option<&Decl> {
    crate::table::table_get_spec(t.decls@, crate::ids::def_key_spec(d))
}

/// What is recorded about a definition.
pub fn decl_of(t: &Tables, d: DefId) -> (r: Option<&Decl>)
    ensures
        r == decl_of_spec(t, d),
{
    t.decls.get(def_key(d))
}

/// A file's text, where it is known.
pub open spec fn source_of_spec(t: &Tables, file: FileId) -> Option<&SourceFile> {
    crate::table::table_get_spec(t.sources@, crate::ids::file_key_spec(file))
}

/// A file's text, where it is known.
pub fn source_of(t: &Tables, file: FileId) -> (r: Option<&SourceFile>)
    ensures
        r == source_of_spec(t, file),
{
    t.sources.get(file_key(file))
}

/// The package a file belongs to.
pub open spec fn package_of_spec(t: &Tables, file: FileId) -> Option<&Symbol> {
    crate::table::table_get_spec(t.packages@, crate::ids::file_key_spec(file))
}

/// The package a file belongs to.
pub fn package_of(t: &Tables, file: FileId) -> (r: Option<&Symbol>)
    ensures
        r == package_of_spec(t, file),
{
    t.packages.get(file_key(file))
}

/// [`def_kind`], as a mathematical function.
pub open spec fn def_kind_spec(t: &Tables, d: DefId) -> DefKind {
    match get_def_spec(t, d) {
        Some(def) => def.kind,
        None => DefKind::External,
    }
}

/// What kind a definition is. An id that names nothing reads as something that
/// was not loaded.
pub fn def_kind(t: &Tables, d: DefId) -> (r: DefKind)
    ensures
        r == def_kind_spec(t, d),
{
    match get_def(t, d) {
        Some(def) => def.kind,
        None => DefKind::External,
    }
}

/// [`def_name`], as a mathematical function.
pub open spec fn def_name_spec(t: &Tables, d: DefId) -> Symbol {
    match get_def_spec(t, d) {
        Some(def) => def.name,
        None => crate::symbol::sym_spec(""),
    }
}

/// A definition's name.
pub fn def_name(t: &Tables, d: DefId) -> (r: Symbol)
    ensures
        r == def_name_spec(t, d),
{
    match get_def(t, d) {
        Some(def) => dup_sym(&def.name),
        None => sym(""),
    }
}

/// [`def_node`], as a mathematical function.
pub open spec fn def_node_spec(t: &Tables, d: DefId) -> Option<NodeId> {
    match get_def_spec(t, d) {
        Some(def) => def.node,
        None => None,
    }
}

/// The node a definition was written at.
pub fn def_node(t: &Tables, d: DefId) -> (r: Option<NodeId>)
    ensures
        r == def_node_spec(t, d),
{
    match get_def(t, d) {
        Some(def) => def.node,
        None => None,
    }
}

/// [`def_file`], as a mathematical function.
pub open spec fn def_file_spec(t: &Tables, d: DefId) -> Option<FileId> {
    match get_def_spec(t, d) {
        Some(def) => def.file,
        None => None,
    }
}

/// The file a definition was written in.
pub fn def_file(t: &Tables, d: DefId) -> (r: Option<FileId>)
    ensures
        r == def_file_spec(t, d),
{
    match get_def(t, d) {
        Some(def) => def.file,
        None => None,
    }
}

/// [`def_place`], as a mathematical function.
pub open spec fn def_place_spec(t: &Tables, d: DefId) -> Option<(FileId, NodeId)> {
    match (def_file_spec(t, d), def_node_spec(t, d)) {
        (Some(f), Some(n)) => Some((f, n)),
        _ => None,
    }
}

/// Where a definition was written.
pub fn def_place(t: &Tables, d: DefId) -> (r: Option<(FileId, NodeId)>)
    ensures
        r == def_place_spec(t, d),
{
    match (def_file(t, d), def_node(t, d)) {
        (Some(f), Some(n)) => Some((f, n)),
        _ => None,
    }
}

/// [`def_parent`], as a mathematical function.
pub open spec fn def_parent_spec(t: &Tables, d: DefId) -> Option<DefId> {
    match get_def_spec(t, d) {
        Some(def) => def.parent,
        None => None,
    }
}

/// The definition a definition is a member of.
pub fn def_parent(t: &Tables, d: DefId) -> (r: Option<DefId>)
    ensures
        r == def_parent_spec(t, d),
{
    match get_def(t, d) {
        Some(def) => def.parent,
        None => None,
    }
}

/// [`resolve_alias`], as a mathematical function.
pub open spec fn resolve_alias_spec(t: &Tables, d: DefId) -> DefId {
    match get_def_spec(t, d) {
        Some(def) => match def.alias {
            Some(a) => a,
            None => d,
        },
        None => d,
    }
}

/// What a definition stands for once a name that only renames another is
/// followed.
pub fn resolve_alias(t: &Tables, d: DefId) -> (r: DefId)
    ensures
        r == resolve_alias_spec(t, d),
{
    match get_def(t, d) {
        Some(def) => match def.alias {
            Some(a) => a,
            None => d,
        },
        None => d,
    }
}

/// [`find_member`], as a mathematical function.
pub open spec fn find_member_spec(l: &List<(Symbol, DefId)>, name: &Symbol) -> Option<DefId>
    decreases l,
{
    match l {
        List::Nil => None,
        List::Cons(h, t) => if crate::symbol::sym_eq_spec(&h.0, name) {
            Some(h.1)
        } else {
            find_member_spec(t, name)
        },
    }
}

/// The definition a name stands for in a list.
pub fn find_member(l: &List<(Symbol, DefId)>, name: &Symbol) -> (r: Option<DefId>)
    ensures
        r == find_member_spec(l, name),
    decreases l,
{
    match l {
        List::Nil => None,
        List::Cons(h, t) => if sym_eq(&h.0, name) {
            Some(h.1)
        } else {
            find_member(t, name)
        },
    }
}

/// [`member_of`], as a mathematical function.
pub open spec fn member_of_spec(t: &Tables, d: DefId, name: &Symbol) -> Option<DefId> {
    match get_def_spec(t, d) {
        Some(def) => find_member_spec(&def.members, name),
        None => None,
    }
}

/// The member of `d` called `name`.
pub fn member_of(t: &Tables, d: DefId, name: &Symbol) -> (r: Option<DefId>)
    ensures
        r == member_of_spec(t, d, name),
{
    match get_def(t, d) {
        Some(def) => find_member(&def.members, name),
        None => None,
    }
}

/// [`find_tag`], as a mathematical function.
pub open spec fn find_tag_spec(l: &List<(Symbol, DefId)>, tag: &str) -> Option<DefId>
    decreases l,
{
    match l {
        List::Nil => None,
        List::Cons(h, t) => if crate::symbol::sym_is_spec(&h.0, tag) {
            Some(h.1)
        } else {
            find_tag_spec(t, tag)
        },
    }
}

/// The definition a list files under a tag.
pub fn find_tag(l: &List<(Symbol, DefId)>, tag: &str) -> (r: Option<DefId>)
    ensures
        r == find_tag_spec(l, tag),
    decreases l,
{
    match l {
        List::Nil => None,
        List::Cons(h, t) => if sym_is(&h.0, tag) {
            Some(h.1)
        } else {
            find_tag(t, tag)
        },
    }
}

/// [`lang_item`], as a mathematical function.
pub open spec fn lang_item_spec(t: &Tables, tag: &str) -> Option<DefId> {
    find_tag_spec(&t.lang, tag)
}

/// The `#lang` item a tag names.
pub fn lang_item(t: &Tables, tag: &str) -> (r: Option<DefId>)
    ensures
        r == lang_item_spec(t, tag),
{
    find_tag(&t.lang, tag)
}

/// [`lang_def`], as a mathematical function.
pub open spec fn lang_def_spec(t: &Tables, tag: &str) -> Option<DefId> {
    match lang_item_spec(t, tag) {
        Some(d) => Some(resolve_alias_spec(t, d)),
        None => None,
    }
}

/// The `#lang` item a tag names, with a name that only renames another followed.
pub fn lang_def(t: &Tables, tag: &str) -> (r: Option<DefId>)
    ensures
        r == lang_def_spec(t, tag),
{
    match lang_item(t, tag) {
        Some(d) => Some(resolve_alias(t, d)),
        None => None,
    }
}

/// [`lang_ty`], as a mathematical function.
pub open spec fn lang_ty_spec(t: &Tables, tag: &str) -> Option<Ty> {
    match lang_def_spec(t, tag) {
        Some(d) => Some(crate::ty::nominal_spec(d)),
        None => None,
    }
}

/// The type of the `#lang` item a tag names.
pub fn lang_ty(t: &Tables, tag: &str) -> (r: Option<Ty>)
    ensures
        r == lang_ty_spec(t, tag),
{
    match lang_def(t, tag) {
        Some(d) => Some(nominal(d)),
        None => None,
    }
}

/// [`intrinsic_of`], as a mathematical function.
pub open spec fn intrinsic_of_spec(t: &Tables, d: DefId) -> Option<Symbol> {
    match get_def_spec(t, d) {
        Some(def) => match &def.intrinsic {
            Some(s) => Some((*s)),
            None => None,
        },
        None => None,
    }
}

/// The operation a definition is, where it is one the compiler supplies.
pub fn intrinsic_of(t: &Tables, d: DefId) -> (r: Option<Symbol>)
    ensures
        r == intrinsic_of_spec(t, d),
{
    match get_def(t, d) {
        Some(def) => match &def.intrinsic {
            Some(s) => Some(dup_sym(s)),
            None => None,
        },
        None => None,
    }
}

/// [`bound_rhs`], as a mathematical function.
pub open spec fn bound_rhs_spec(t: &Tables, file: FileId, node: NodeId) -> NodeId {
    match kind_of_spec(t, file, node) {
        Some(NodeKind::ConstBind { pattern: _, rhs }) => *rhs,
        _ => node,
    }
}

/// The declaration behind a binding: what the binding binds, or the node itself.
pub fn bound_rhs(t: &Tables, file: FileId, node: NodeId) -> (r: NodeId)
    ensures
        r == bound_rhs_spec(t, file, node),
{
    match kind_of(t, file, node) {
        Some(NodeKind::ConstBind { pattern: _, rhs }) => *rhs,
        _ => node,
    }
}

/// [`func_of`], as a mathematical function.
pub open spec fn func_of_spec(t: &Tables, d: DefId) -> Option<(FileId, NodeId)> {
    match def_place_spec(t, d) {
        Some((file, node)) => {
            let rhs = bound_rhs_spec(t, file, node);
            match kind_of_spec(t, file, rhs) {
                Some(NodeKind::FuncExpr { .. }) => Some((file, rhs)),
                _ => None,
            }
        },
        None => None,
    }
}

/// Where a function definition's `func` expression is.
pub fn func_of(t: &Tables, d: DefId) -> (r: Option<(FileId, NodeId)>)
    ensures
        r == func_of_spec(t, d),
{
    match def_place(t, d) {
        Some((file, node)) => {
            let rhs = bound_rhs(t, file, node);
            match kind_of(t, file, rhs) {
                Some(NodeKind::FuncExpr { .. }) => Some((file, rhs)),
                _ => None,
            }
        },
        None => None,
    }
}

/// A copy of a list of definitions.
pub fn dup_defs(l: &List<DefId>) -> (r: List<DefId>)
    ensures
        r == *l,
    decreases l,
{
    match l {
        List::Nil => List::Nil,
        List::Cons(h, t) => List::Cons(*h, Box::new(dup_defs(t))),
    }
}

/// A copy of a list of directives.
pub fn dup_directives(l: &List<Directive>) -> (r: List<Directive>)
    ensures
        r == *l,
    decreases l,
{
    match l {
        List::Nil => List::Nil,
        List::Cons(h, t) => List::Cons(
            Directive { name: dup_sym(&h.name), args: crate::symbol::dup_syms(&h.args) },
            Box::new(dup_directives(t)),
        ),
    }
}

/// [`directives_of`], as a mathematical function.
pub open spec fn directives_of_spec(t: &Tables, d: DefId) -> List<Directive> {
    match get_def_spec(t, d) {
        Some(def) => def.directives,
        None => List::Nil,
    }
}

/// A definition's directives.
pub fn directives_of(t: &Tables, d: DefId) -> (r: List<Directive>)
    ensures
        r == directives_of_spec(t, d),
{
    match get_def(t, d) {
        Some(def) => dup_directives(&def.directives),
        None => List::Nil,
    }
}

/// [`def_in`], as a mathematical function.
pub open spec fn def_in_spec(l: &List<DefId>, d: DefId) -> bool
    decreases l,
{
    match l {
        List::Nil => false,
        List::Cons(h, t) => *h == d || def_in_spec(t, d),
    }
}

/// Whether a list holds a definition.
pub fn def_in(l: &List<DefId>, d: DefId) -> (r: bool)
    ensures
        r == def_in_spec(l, d),
        r == l@.contains(d),
    decreases l,
{
    proof {
        crate::laws::generics::holding_is_being_among(*l, d);
    }
    match l {
        List::Nil => false,
        List::Cons(h, t) => *h == d || def_in(t, d),
    }
}

} // verus!
