//! Questions about declarations, answered from what is recorded about a
//! definition and otherwise from the tree it was written in.

use vstd::prelude::*;

use crate::ast::{dup_nodes, Lit, NodeKind};
use crate::bigint::dup_int;
use crate::def::{
    bound_rhs, decl_of, def_kind, def_place, dup_defs, func_of, kind_of, member_of, resolve_alias, ConstTy,
    DefKind, Tables,
};
use crate::facts::Resolution;
use crate::ids::{DefId, FileId, NodeId};
use crate::list::{append, single, List};
use crate::lower::param_default_nodes;
use crate::subst::{of_types, zip_subst, Subst};
use crate::symbol::{dup_sym, dup_syms, sym_is, Symbol};
use crate::ty::{dup_ty, dup_tys, dup_value, ConstValue, Ty};
use crate::unify::{dup_payload, InferCx, Inferer, InfererV};

verus! {

broadcast use {
    crate::keeping::kept_by_both,
    crate::keeping::kept_by_nothing,
    crate::keeping::loops_stand_on,
    crate::keeping::loops_stand_still,
};

/// [`recorded_signature`], as a mathematical function.
pub open spec fn recorded_signature_spec(t: &Tables, def: DefId) -> Option<Ty> {
    match crate::def::decl_of_spec(t, def) {
        Some(d) => match &d.signature {
            Some(x) => Some((*x)),
            None => None,
        },
        None => None,
    }
}

/// The recorded signature of a definition.
pub fn recorded_signature(t: &Tables, def: DefId) -> (r: Option<Ty>)
    ensures
        r == recorded_signature_spec(t, def),
{
    match decl_of(t, def) {
        Some(d) => match &d.signature {
            Some(x) => Some(dup_ty(x)),
            None => None,
        },
        None => None,
    }
}

/// [`recorded_distinct_repr`], as a mathematical function.
pub open spec fn recorded_distinct_repr_spec(t: &Tables, def: DefId) -> Option<Ty> {
    match crate::def::decl_of_spec(t, def) {
        Some(d) => match &d.distinct_repr {
            Some(x) => Some((*x)),
            None => None,
        },
        None => None,
    }
}

/// The recorded distinct repr of a definition.
pub fn recorded_distinct_repr(t: &Tables, def: DefId) -> (r: Option<Ty>)
    ensures
        r == recorded_distinct_repr_spec(t, def),
{
    match decl_of(t, def) {
        Some(d) => match &d.distinct_repr {
            Some(x) => Some(dup_ty(x)),
            None => None,
        },
        None => None,
    }
}

/// [`recorded_expansion`], as a mathematical function.
pub open spec fn recorded_expansion_spec(t: &Tables, def: DefId) -> Option<Ty> {
    match crate::def::decl_of_spec(t, def) {
        Some(d) => match &d.expansion {
            Some(x) => Some((*x)),
            None => None,
        },
        None => None,
    }
}

/// The recorded expansion of a definition.
pub fn recorded_expansion(t: &Tables, def: DefId) -> (r: Option<Ty>)
    ensures
        r == recorded_expansion_spec(t, def),
{
    match decl_of(t, def) {
        Some(d) => match &d.expansion {
            Some(x) => Some(dup_ty(x)),
            None => None,
        },
        None => None,
    }
}

/// [`recorded_assoc_const_ty`], as a mathematical function.
pub open spec fn recorded_assoc_const_ty_spec(t: &Tables, def: DefId) -> Option<Ty> {
    match crate::def::decl_of_spec(t, def) {
        Some(d) => match &d.assoc_const_ty {
            Some(x) => Some((*x)),
            None => None,
        },
        None => None,
    }
}

/// The recorded assoc const ty of a definition.
pub fn recorded_assoc_const_ty(t: &Tables, def: DefId) -> (r: Option<Ty>)
    ensures
        r == recorded_assoc_const_ty_spec(t, def),
{
    match decl_of(t, def) {
        Some(d) => match &d.assoc_const_ty {
            Some(x) => Some(dup_ty(x)),
            None => None,
        },
        None => None,
    }
}

/// [`recorded_const_ty`], as a mathematical function.
pub open spec fn recorded_const_ty_spec(t: &Tables, def: DefId) -> Option<ConstTy> {
    match crate::def::decl_of_spec(t, def) {
        Some(d) => match &d.const_ty {
            Some(x) => Some((*x)),
            None => None,
        },
        None => None,
    }
}

/// The recorded const ty of a definition.
pub fn recorded_const_ty(t: &Tables, def: DefId) -> (r: Option<ConstTy>)
    ensures
        r == recorded_const_ty_spec(t, def),
{
    match decl_of(t, def) {
        Some(d) => match &d.const_ty {
            Some(x) => Some(dup_const_shape(x)),
            None => None,
        },
        None => None,
    }
}

/// [`recorded_const_value`], as a mathematical function.
pub open spec fn recorded_const_value_spec(t: &Tables, def: DefId) -> Option<ConstValue> {
    match crate::def::decl_of_spec(t, def) {
        Some(d) => match &d.const_value {
            Some(x) => Some((*x)),
            None => None,
        },
        None => None,
    }
}

/// The recorded const value of a definition.
pub fn recorded_const_value(t: &Tables, def: DefId) -> (r: Option<ConstValue>)
    ensures
        r == recorded_const_value_spec(t, def),
{
    match decl_of(t, def) {
        Some(d) => match &d.const_value {
            Some(x) => Some(dup_value(x)),
            None => None,
        },
        None => None,
    }
}

/// [`recorded_tuple_tys`], as a mathematical function.
pub open spec fn recorded_tuple_tys_spec(t: &Tables, def: DefId) -> Option<List<Ty>> {
    match crate::def::decl_of_spec(t, def) {
        Some(d) => match &d.tuple_tys {
            Some(x) => Some((*x)),
            None => None,
        },
        None => None,
    }
}

/// The recorded tuple tys of a definition.
pub fn recorded_tuple_tys(t: &Tables, def: DefId) -> (r: Option<List<Ty>>)
    ensures
        r == recorded_tuple_tys_spec(t, def),
{
    match decl_of(t, def) {
        Some(d) => match &d.tuple_tys {
            Some(x) => Some(dup_tys(x)),
            None => None,
        },
        None => None,
    }
}

/// [`recorded_payload`], as a mathematical function.
pub open spec fn recorded_payload_spec(t: &Tables, def: DefId) -> Option<List<(Option<Symbol>, Ty)>> {
    match crate::def::decl_of_spec(t, def) {
        Some(d) => match &d.payload {
            Some(x) => Some((*x)),
            None => None,
        },
        None => None,
    }
}

/// The recorded payload of a definition.
pub fn recorded_payload(t: &Tables, def: DefId) -> (r: Option<List<(Option<Symbol>, Ty)>>)
    ensures
        r == recorded_payload_spec(t, def),
{
    match decl_of(t, def) {
        Some(d) => match &d.payload {
            Some(x) => Some(dup_payload(x)),
            None => None,
        },
        None => None,
    }
}

/// [`recorded_param_names`], as a mathematical function.
pub open spec fn recorded_param_names_spec(t: &Tables, def: DefId) -> Option<List<Symbol>> {
    match crate::def::decl_of_spec(t, def) {
        Some(d) => match &d.param_names {
            Some(x) => Some((*x)),
            None => None,
        },
        None => None,
    }
}

/// The recorded param names of a definition.
pub fn recorded_param_names(t: &Tables, def: DefId) -> (r: Option<List<Symbol>>)
    ensures
        r == recorded_param_names_spec(t, def),
{
    match decl_of(t, def) {
        Some(d) => match &d.param_names {
            Some(x) => Some(dup_syms(x)),
            None => None,
        },
        None => None,
    }
}

/// [`recorded_param_has_default`], as a mathematical function.
pub open spec fn recorded_param_has_default_spec(t: &Tables, def: DefId) -> Option<List<bool>> {
    match crate::def::decl_of_spec(t, def) {
        Some(d) => match &d.param_has_default {
            Some(x) => Some((*x)),
            None => None,
        },
        None => None,
    }
}

/// The recorded param has default of a definition.
pub fn recorded_param_has_default(t: &Tables, def: DefId) -> (r: Option<List<bool>>)
    ensures
        r == recorded_param_has_default_spec(t, def),
{
    match decl_of(t, def) {
        Some(d) => match &d.param_has_default {
            Some(x) => Some(dup_flags(x)),
            None => None,
        },
        None => None,
    }
}

/// [`recorded_generics`], as a mathematical function.
pub open spec fn recorded_generics_spec(t: &Tables, def: DefId) -> Option<List<DefId>> {
    match crate::def::decl_of_spec(t, def) {
        Some(d) => match &d.generics {
            Some(x) => Some((*x)),
            None => None,
        },
        None => None,
    }
}

/// The recorded generics of a definition.
pub fn recorded_generics(t: &Tables, def: DefId) -> (r: Option<List<DefId>>)
    ensures
        r == recorded_generics_spec(t, def),
{
    match decl_of(t, def) {
        Some(d) => match &d.generics {
            Some(x) => Some(dup_defs(x)),
            None => None,
        },
        None => None,
    }
}

/// [`recorded_overloads`], as a mathematical function.
pub open spec fn recorded_overloads_spec(t: &Tables, def: DefId) -> Option<List<DefId>> {
    match crate::def::decl_of_spec(t, def) {
        Some(d) => match &d.overloads {
            Some(x) => Some((*x)),
            None => None,
        },
        None => None,
    }
}

/// The recorded overloads of a definition.
pub fn recorded_overloads(t: &Tables, def: DefId) -> (r: Option<List<DefId>>)
    ensures
        r == recorded_overloads_spec(t, def),
{
    match decl_of(t, def) {
        Some(d) => match &d.overloads {
            Some(x) => Some(dup_defs(x)),
            None => None,
        },
        None => None,
    }
}

/// [`recorded_has_body`], as a mathematical function.
pub open spec fn recorded_has_body_spec(t: &Tables, def: DefId) -> Option<bool> {
    match crate::def::decl_of_spec(t, def) {
        Some(d) => match &d.has_body {
            Some(x) => Some(*x),
            None => None,
        },
        None => None,
    }
}

/// The recorded has body of a definition.
pub fn recorded_has_body(t: &Tables, def: DefId) -> (r: Option<bool>)
    ensures
        r == recorded_has_body_spec(t, def),
{
    match decl_of(t, def) {
        Some(d) => match &d.has_body {
            Some(x) => Some(*x),
            None => None,
        },
        None => None,
    }
}

/// [`recorded_pinned`], as a mathematical function.
pub open spec fn recorded_pinned_spec(t: &Tables, def: DefId) -> Option<Ty> {
    match crate::def::decl_of_spec(t, def) {
        Some(d) => match &d.pinned {
            Some(x) => Some((*x)),
            None => None,
        },
        None => None,
    }
}

/// The recorded pinned of a definition.
pub fn recorded_pinned(t: &Tables, def: DefId) -> (r: Option<Ty>)
    ensures
        r == recorded_pinned_spec(t, def),
{
    match decl_of(t, def) {
        Some(d) => match &d.pinned {
            Some(x) => Some(dup_ty(x)),
            None => None,
        },
        None => None,
    }
}

/// [`recorded_opaque_params`], as a mathematical function.
pub open spec fn recorded_opaque_params_spec(t: &Tables, def: DefId) -> Option<List<DefId>> {
    match crate::def::decl_of_spec(t, def) {
        Some(d) => match &d.opaque_params {
            Some(x) => Some((*x)),
            None => None,
        },
        None => None,
    }
}

/// The recorded opaque params of a definition.
pub fn recorded_opaque_params(t: &Tables, def: DefId) -> (r: Option<List<DefId>>)
    ensures
        r == recorded_opaque_params_spec(t, def),
{
    match decl_of(t, def) {
        Some(d) => match &d.opaque_params {
            Some(x) => Some(dup_defs(x)),
            None => None,
        },
        None => None,
    }
}

/// A copy of a list of flags.
pub fn dup_flags(l: &List<bool>) -> (r: List<bool>)
    ensures
        r == *l,
    decreases l,
{
    match l {
        List::Nil => List::Nil,
        List::Cons(h, t) => List::Cons(*h, Box::new(dup_flags(t))),
    }
}

/// A copy of the shape of a constant's type.
pub fn dup_const_shape(c: &ConstTy) -> (r: ConstTy)
    ensures
        r == *c,
{
    match c {
        ConstTy::ComptimeInt => ConstTy::ComptimeInt,
        ConstTy::ComptimeFloat => ConstTy::ComptimeFloat,
        ConstTy::ComptimeStr => ConstTy::ComptimeStr,
        ConstTy::Same(d) => ConstTy::Same(*d),
        ConstTy::Settled(t) => ConstTy::Settled(dup_ty(t)),
    }
}

/// [`has_decl`], as a mathematical function.
pub open spec fn has_decl_spec(t: &Tables, d: DefId) -> bool {
    crate::def::decl_of_spec(t, d).is_some()
}

/// Whether anything is recorded about a definition.
pub fn has_decl(t: &Tables, d: DefId) -> (r: bool)
    ensures
        r == has_decl_spec(t, d),
{
    decl_of(t, d).is_some()
}

/// [`find_bound_args`], as a mathematical function.
pub open spec fn find_bound_args_spec(l: &List<(DefId, List<Ty>)>, trait_def: DefId) -> Option<List<Ty>>
    decreases l,
{
    match l {
        List::Nil => None,
        List::Cons(h, t) => if h.0 == trait_def {
            Some(h.1)
        } else {
            find_bound_args_spec(t, trait_def)
        },
    }
}

/// The arguments a bound on a trait is recorded with.
pub fn find_bound_args(l: &List<(DefId, List<Ty>)>, trait_def: DefId) -> (r: Option<List<Ty>>)
    ensures
        r == find_bound_args_spec(l, trait_def),
    decreases l,
{
    match l {
        List::Nil => None,
        List::Cons(h, t) => if h.0 == trait_def {
            Some(dup_tys(&h.1))
        } else {
            find_bound_args(t, trait_def)
        },
    }
}

/// [`recorded_bound_args`], as a mathematical function.
pub open spec fn recorded_bound_args_spec(t: &Tables, param: DefId, trait_def: DefId) -> Option<List<Ty>> {
    match crate::def::decl_of_spec(t, param) {
        Some(d) => match &d.bounds {
            Some(l) => find_bound_args_spec(l, trait_def),
            None => None,
        },
        None => None,
    }
}

/// The arguments a parameter's bound on a trait is recorded with.
pub fn recorded_bound_args(t: &Tables, param: DefId, trait_def: DefId) -> (r: Option<List<Ty>>)
    ensures
        r == recorded_bound_args_spec(t, param, trait_def),
{
    match decl_of(t, param) {
        Some(d) => match &d.bounds {
            Some(l) => find_bound_args(l, trait_def),
            None => None,
        },
        None => None,
    }
}

/// [`bound_nodes`], as a mathematical function.
pub open spec fn bound_nodes_spec(t: &Tables, file: FileId, constraint: NodeId) -> List<NodeId> {
    match crate::def::kind_of_spec(t, file, constraint) {
        Some(NodeKind::Bounds { bounds }) => (*bounds),
        _ => crate::list::single_spec(constraint),
    }
}

/// The individual traits of a parameter's constraint.
pub fn bound_nodes(t: &Tables, file: FileId, constraint: NodeId) -> (r: List<NodeId>)
    ensures
        r == bound_nodes_spec(t, file, constraint),
{
    match kind_of(t, file, constraint) {
        Some(NodeKind::Bounds { bounds }) => dup_nodes(bounds),
        _ => single(constraint),
    }
}

/// [`value_param_names`], as a mathematical function.
pub open spec fn value_param_names_spec(t: &Tables, file: FileId, params: &List<NodeId>) -> List<Symbol>
    decreases params,
{
    match params {
        List::Nil => List::Nil,
        List::Cons(h, rest) => match crate::def::kind_of_spec(t, file, *h) {
            Some(NodeKind::Param { name, ty: _, default: _ }) => if crate::symbol::sym_is_spec(name, "self") {
                value_param_names_spec(t, file, rest)
            } else {
                List::Cons((*name), Box::new(value_param_names_spec(t, file, rest)))
            },
            _ => value_param_names_spec(t, file, rest),
        },
    }
}

/// The names of a function's value parameters: every one but the receiver.
pub fn value_param_names(t: &Tables, file: FileId, params: &List<NodeId>) -> (r: List<Symbol>)
    ensures
        r == value_param_names_spec(t, file, params),
    decreases params,
{
    match params {
        List::Nil => List::Nil,
        List::Cons(h, rest) => match kind_of(t, file, *h) {
            Some(NodeKind::Param { name, ty: _, default: _ }) => if sym_is(name, "self") {
                value_param_names(t, file, rest)
            } else {
                List::Cons(dup_sym(name), Box::new(value_param_names(t, file, rest)))
            },
            _ => value_param_names(t, file, rest),
        },
    }
}

/// [`param_names`], as a mathematical function.
pub open spec fn param_names_spec(t: &Tables, def: DefId) -> Option<List<Symbol>> {
    match recorded_param_names_spec(t, def) {
        Some(l) => Some(l),
        None => match crate::def::func_of_spec(t, def) {
            Some((file, func)) => match crate::def::kind_of_spec(t, file, func) {
                Some(NodeKind::FuncExpr { generics: _, params, ret: _, body: _, abi: _ }) => {
                    Some(value_param_names_spec(t, file, params))
                },
                _ => None,
            },
            None => None,
        },
    }
}

/// The names of a definition's value parameters, in declaration order.
pub fn param_names(t: &Tables, def: DefId) -> (r: Option<List<Symbol>>)
    ensures
        r == param_names_spec(t, def),
{
    match recorded_param_names(t, def) {
        Some(l) => Some(l),
        None => match func_of(t, def) {
            Some((file, func)) => match kind_of(t, file, func) {
                Some(NodeKind::FuncExpr { generics: _, params, ret: _, body: _, abi: _ }) => {
                    Some(value_param_names(t, file, params))
                },
                _ => None,
            },
            None => None,
        },
    }
}

/// [`filled`], as a mathematical function.
pub open spec fn filled_spec(l: &List<Option<NodeId>>) -> List<bool>
    decreases l,
{
    match l {
        List::Nil => List::Nil,
        List::Cons(h, t) => List::Cons(h.is_some(), Box::new(filled_spec(t))),
    }
}

/// Which slots hold something.
pub fn filled(l: &List<Option<NodeId>>) -> (r: List<bool>)
    ensures
        r == filled_spec(l),
    decreases l,
{
    match l {
        List::Nil => List::Nil,
        List::Cons(h, t) => List::Cons(h.is_some(), Box::new(filled(t))),
    }
}

/// [`param_defaults`], as a mathematical function.
pub open spec fn param_defaults_spec(t: &Tables, def: DefId) -> Option<List<bool>> {
    match recorded_param_has_default_spec(t, def) {
        Some(l) => Some(l),
        None => match crate::lower::param_default_nodes_spec(t, def) {
            Some(l) => Some(filled_spec(&l)),
            None => None,
        },
    }
}

/// Which of a definition's value parameters carry a default.
pub fn param_defaults(t: &Tables, def: DefId) -> (r: Option<List<bool>>)
    ensures
        r == param_defaults_spec(t, def),
{
    match recorded_param_has_default(t, def) {
        Some(l) => Some(l),
        None => match param_default_nodes(t, def) {
            Some(l) => Some(filled(&l)),
            None => None,
        },
    }
}

/// [`has_body`], as a mathematical function.
pub open spec fn has_body_spec(t: &Tables, def: DefId) -> bool {
    match recorded_has_body_spec(t, def) {
        Some(b) => b,
        None => match crate::def::func_of_spec(t, def) {
            Some((file, func)) => match crate::def::kind_of_spec(t, file, func) {
                Some(NodeKind::FuncExpr { generics: _, params: _, ret: _, body, abi: _ }) => body.is_some(),
                _ => false,
            },
            None => false,
        },
    }
}

/// Whether a function definition has a body.
pub fn has_body(t: &Tables, def: DefId) -> (r: bool)
    ensures
        r == has_body_spec(t, def),
{
    match recorded_has_body(t, def) {
        Some(b) => b,
        None => match func_of(t, def) {
            Some((file, func)) => match kind_of(t, file, func) {
                Some(NodeKind::FuncExpr { generics: _, params: _, ret: _, body, abi: _ }) => body.is_some(),
                _ => false,
            },
            None => false,
        },
    }
}

/// [`trait_default_method`], as a mathematical function.
pub open spec fn trait_default_method_spec(t: &Tables, trait_def: DefId, name: &Symbol) -> Option<DefId> {
    match crate::def::member_of_spec(t, trait_def, name) {
        Some(m) => if crate::def::def_kind_spec(t, m) == DefKind::Func && has_body_spec(t, m) {
            Some(m)
        } else {
            None
        },
        None => None,
    }
}

/// A trait's own declaration of a method, where it carries a default body.
pub fn trait_default_method(t: &Tables, trait_def: DefId, name: &Symbol) -> (r: Option<DefId>)
    ensures
        r == trait_default_method_spec(t, trait_def, name),
{
    match member_of(t, trait_def, name) {
        Some(m) => if def_kind(t, m) == DefKind::Func && has_body(t, m) {
            Some(m)
        } else {
            None
        },
        None => None,
    }
}

/// [`generic_nodes`], as a mathematical function.
pub open spec fn generic_nodes_spec(t: &Tables, def: DefId) -> Option<(FileId, List<NodeId>)> {
    match crate::def::def_place_spec(t, def) {
        Some((file, node)) => {
            let rhs = crate::def::bound_rhs_spec(t, file, node);
            match crate::def::kind_of_spec(t, file, rhs) {
                Some(NodeKind::FuncExpr { generics, params: _, ret: _, body: _, abi: _ }) => {
                    Some((file, (*generics)))
                },
                Some(NodeKind::StructType { generics, kind: _ }) => Some((file, (*generics))),
                Some(NodeKind::EnumType { variants: _, generics }) => Some((file, (*generics))),
                Some(NodeKind::TraitType { members: _, generics }) => Some((file, (*generics))),
                _ => None,
            }
        },
        None => None,
    }
}

/// The nodes of the generic parameters a definition lists, and their file.
pub fn generic_nodes(t: &Tables, def: DefId) -> (r: Option<(FileId, List<NodeId>)>)
    ensures
        r == generic_nodes_spec(t, def),
{
    match def_place(t, def) {
        Some((file, node)) => {
            let rhs = bound_rhs(t, file, node);
            match kind_of(t, file, rhs) {
                Some(NodeKind::FuncExpr { generics, params: _, ret: _, body: _, abi: _ }) => {
                    Some((file, dup_nodes(generics)))
                },
                Some(NodeKind::StructType { generics, kind: _ }) => Some((file, dup_nodes(generics))),
                Some(NodeKind::EnumType { variants: _, generics }) => Some((file, dup_nodes(generics))),
                Some(NodeKind::TraitType { members: _, generics }) => Some((file, dup_nodes(generics))),
                _ => None,
            }
        },
        None => None,
    }
}

/// [`is_generic_param`], as a mathematical function.
pub open spec fn is_generic_param_spec(k: Option<&NodeKind>) -> bool {
    match k {
        Some(NodeKind::GenericTypeParam { .. }) => true,
        Some(NodeKind::GenericConstParam { .. }) => true,
        _ => false,
    }
}

/// Whether a node declares a generic parameter.
pub fn is_generic_param(k: Option<&NodeKind>) -> (r: bool)
    ensures
        r == is_generic_param_spec(k),
{
    match k {
        Some(NodeKind::GenericTypeParam { .. }) => true,
        Some(NodeKind::GenericConstParam { .. }) => true,
        _ => false,
    }
}

/// [`Inferer::def_of_in`], as a mathematical function.
pub open spec fn def_of_in_spec(st: InfererV, file: FileId, node: NodeId) -> Option<DefId> {
    crate::unify::get_def_meta_spec(st, file, node)
}

/// [`Inferer::def_of`], as a mathematical function.
pub open spec fn def_of_spec(st: InfererV, node: NodeId) -> Option<DefId> {
    crate::unify::get_def_meta_spec(st, st.file, node)
}

/// [`Inferer::generic_defs`], as a mathematical function.
pub open spec fn generic_defs_spec(st: InfererV, env: &InferCx, file: FileId, l: &List<NodeId>) -> List<DefId>
    decreases l,
{
    match l {
        List::Nil => List::Nil,
        List::Cons(h, t) => if is_generic_param_spec(crate::def::kind_of_spec(env.tables, file, *h)) {
            match def_of_in_spec(st, file, *h) {
                Some(d) => List::Cons(d, Box::new(generic_defs_spec(st, env, file, t))),
                None => generic_defs_spec(st, env, file, t),
            }
        } else {
            generic_defs_spec(st, env, file, t)
        },
    }
}

/// [`Inferer::declared_generics`], as a mathematical function.
pub open spec fn declared_generics_spec(st: InfererV, env: &InferCx, def: DefId) -> List<DefId> {
    match recorded_generics_spec(env.tables, def) {
        Some(l) => l,
        None => match generic_nodes_spec(env.tables, def) {
            Some((file, nodes)) => generic_defs_spec(st, env, file, &nodes),
            None => List::Nil,
        },
    }
}

/// [`Inferer::resolved_def_in`], as a mathematical function.
pub open spec fn resolved_def_in_spec(
    st: InfererV,
    env: &InferCx,
    file: FileId,
    node: NodeId,
) -> Option<DefId> {
    match crate::unify::get_resolution_spec(st, file, node) {
        Some(Resolution::Def(d)) => Some(crate::def::resolve_alias_spec(env.tables, d)),
        Some(Resolution::Error) => None,
        None => match crate::def::kind_of_spec(env.tables, file, node) {
            Some(NodeKind::TypePath { path, generic_args: _ }) => resolved_head_spec(st, env, file, *path),
            Some(NodeKind::GenericApply { base, args: _ }) => resolved_head_spec(st, env, file, *base),
            _ => None,
        },
    }
}

/// [`Inferer::resolved_head`], as a mathematical function.
pub open spec fn resolved_head_spec(
    st: InfererV,
    env: &InferCx,
    file: FileId,
    node: NodeId,
) -> Option<DefId> {
    match crate::unify::get_resolution_spec(st, file, node) {
        Some(Resolution::Def(d)) => Some(crate::def::resolve_alias_spec(env.tables, d)),
        _ => None,
    }
}

/// [`Inferer::resolved_def`], as a mathematical function.
pub open spec fn resolved_def_spec(st: InfererV, env: &InferCx, node: NodeId) -> Option<DefId> {
    resolved_def_in_spec(st, env, st.file, node)
}

/// [`Inferer::failed_resolution`], as a mathematical function.
pub open spec fn failed_resolution_spec(st: InfererV, node: NodeId) -> bool {
    match crate::unify::get_resolution_spec(st, st.file, node) {
        Some(Resolution::Error) => true,
        _ => false,
    }
}

/// [`number_lit`], as a mathematical function.
pub open spec fn number_lit_spec(v: &ConstValue) -> Option<Lit> {
    match v {
        ConstValue::Int(n) => Some(Lit::Int((*n))),
        ConstValue::Float(b) => Some(Lit::Float(*b)),
        _ => None,
    }
}

/// A compile-time value as the literal it is, where it is a number.
pub fn number_lit(v: &ConstValue) -> (r: Option<Lit>)
    ensures
        r == number_lit_spec(v),
{
    match v {
        ConstValue::Int(n) => Some(Lit::Int(dup_int(n))),
        ConstValue::Float(b) => Some(Lit::Float(*b)),
        _ => None,
    }
}

/// [`Inferer::const_lit_value`], as a mathematical function.
pub open spec fn const_lit_value_spec(
    st: InfererV,
    env: &InferCx,
    file: FileId,
    node: NodeId,
    fuel: u64,
) -> Option<Lit>
    decreases fuel,
{
    if fuel == 0 {
        None
    } else {
        match resolved_def_in_spec(st, env, file, node) {
            Some(def) => {
                if crate::def::def_kind_spec(env.tables, def) != DefKind::Const {
                    None
                } else {
                    match recorded_const_ty_spec(env.tables, def) {
                        Some(ConstTy::ComptimeInt) => {
                            match recorded_const_value_spec(env.tables, def) {
                                Some(v) => number_lit_spec(&v),
                                None => None,
                            }
                        },
                        Some(ConstTy::ComptimeFloat) => {
                            match recorded_const_value_spec(env.tables, def) {
                                Some(v) => number_lit_spec(&v),
                                None => None,
                            }
                        },
                        Some(_) => {
                            None
                        },
                        None => {
                            match crate::def::def_place_spec(env.tables, def) {
                                Some((cfile, cnode)) => {
                                    let rhs = crate::def::bound_rhs_spec(env.tables, cfile, cnode);
                                    match crate::def::kind_of_spec(env.tables, cfile, rhs) {
                                        Some(NodeKind::Lit(Lit::Int(n))) => Some(Lit::Int((*n))),
                                        Some(NodeKind::Lit(Lit::Float(b))) => Some(Lit::Float(*b)),
                                        Some(NodeKind::Path { .. }) => const_lit_value_spec(
                                            st,
                                            env,
                                            cfile,
                                            rhs,
                                            (fuel - 1) as u64,
                                        ),
                                        Some(NodeKind::FieldAccess { .. }) => const_lit_value_spec(
                                            st,
                                            env,
                                            cfile,
                                            rhs,
                                            (fuel - 1) as u64,
                                        ),
                                        _ => None,
                                    }
                                },
                                _ => {
                                    None
                                },
                            }
                        },
                    }
                }
            },
            _ => {
                None
            },
        }
    }
}

/// [`Inferer::overload_candidates`], as a mathematical function.
pub open spec fn overload_candidates_spec(st: InfererV, env: &InferCx, def: DefId, fuel: u64) -> List<DefId>
    decreases fuel,
{
    if fuel == 0 {
        List::Nil
    } else {
        match recorded_overloads_spec(env.tables, def) {
            Some(l) => l,
            None => match crate::def::def_place_spec(env.tables, def) {
                Some((file, node)) => {
                    let rhs = crate::def::bound_rhs_spec(env.tables, file, node);
                    match crate::def::kind_of_spec(env.tables, file, rhs) {
                        Some(NodeKind::Overload { members }) => overload_members_spec(
                            st,
                            env,
                            file,
                            members,
                            (fuel - 1) as u64,
                        ),
                        _ => List::Nil,
                    }
                },
                None => List::Nil,
            },
        }
    }
}

/// [`Inferer::overload_members`], as a mathematical function.
pub open spec fn overload_members_spec(
    st: InfererV,
    env: &InferCx,
    file: FileId,
    l: &List<NodeId>,
    fuel: u64,
) -> List<DefId>
    decreases fuel, l,
{
    if fuel == 0 {
        List::Nil
    } else {
        match l {
            List::Nil => List::Nil,
            List::Cons(h, t) => {
                let rest = overload_members_spec(st, env, file, t, fuel);
                match resolved_def_in_spec(st, env, file, *h) {
                    Some(d) => match crate::def::def_kind_spec(env.tables, d) {
                        DefKind::Func => List::Cons(d, Box::new(rest)),
                        DefKind::Overload => crate::list::append_spec(
                            overload_candidates_spec(st, env, d, (fuel - 1) as u64),
                            rest,
                        ),
                        _ => rest,
                    },
                    None => rest,
                }
            },
        }
    }
}

/// [`Inferer::opaque_params`], as a mathematical function.
pub open spec fn opaque_params_spec(st: InfererV, env: &InferCx, def: DefId) -> List<DefId> {
    match recorded_opaque_params_spec(env.tables, def) {
        Some(l) => l,
        None => match crate::def::def_place_spec(env.tables, def) {
            Some((file, node)) => match crate::unify::get_opaque_args_spec(st, file, node) {
                Some(l) => l,
                None => List::Nil,
            },
            None => List::Nil,
        },
    }
}

/// [`Inferer::nominal_subst`], as a mathematical function.
pub open spec fn nominal_subst_spec(st: InfererV, env: &InferCx, def: DefId, args: &List<Ty>) -> Subst {
    crate::subst::of_types_spec(crate::subst::zip_subst_spec(&declared_generics_spec(st, env, def), args))
}

impl Inferer {
    /// The definition a node of a file declares.
    pub fn def_of_in(&self, file: FileId, node: NodeId) -> (r: Option<DefId>)
        ensures
            r == def_of_in_spec(self@, file, node),
    {
        self.get_def_meta(file, node)
    }

    /// The definition a node of the file being inferred declares.
    pub fn def_of(&self, node: NodeId) -> (r: Option<DefId>)
        ensures
            r == def_of_spec(self@, node),
    {
        self.get_def_meta(self.file, node)
    }

    /// The definitions of the generic parameters among some nodes.
    pub fn generic_defs(&self, env: &InferCx, file: FileId, l: &List<NodeId>) -> (r: List<DefId>)
        ensures
            r == generic_defs_spec(self@, env, file, l),
        decreases l,
    {
        match l {
            List::Nil => List::Nil,
            List::Cons(h, t) => if is_generic_param(kind_of(env.tables, file, *h)) {
                match self.def_of_in(file, *h) {
                    Some(d) => List::Cons(d, Box::new(self.generic_defs(env, file, t))),
                    None => self.generic_defs(env, file, t),
                }
            } else {
                self.generic_defs(env, file, t)
            },
        }
    }

    /// The generic parameters a definition declares, in the order its arguments are
    /// written in.
    pub fn declared_generics(&self, env: &InferCx, def: DefId) -> (r: List<DefId>)
        ensures
            r == declared_generics_spec(self@, env, def),
    {
        match recorded_generics(env.tables, def) {
            Some(l) => l,
            None => match generic_nodes(env.tables, def) {
                Some((file, nodes)) => self.generic_defs(env, file, &nodes),
                None => List::Nil,
            },
        }
    }

    /// What a name resolved to, with renames followed. A name applied to arguments
    /// is resolved by its head.
    pub fn resolved_def_in(&self, env: &InferCx, file: FileId, node: NodeId) -> (r: Option<DefId>)
        ensures
            r == resolved_def_in_spec(self@, env, file, node),
    {
        match self.get_resolution(file, node) {
            Some(Resolution::Def(d)) => Some(resolve_alias(env.tables, d)),
            Some(Resolution::Error) => None,
            None => match kind_of(env.tables, file, node) {
                Some(NodeKind::TypePath { path, generic_args: _ }) => self.resolved_head(env, file, *path),
                Some(NodeKind::GenericApply { base, args: _ }) => self.resolved_head(env, file, *base),
                _ => None,
            },
        }
    }

    /// What the head of an applied name resolved to.
    pub fn resolved_head(&self, env: &InferCx, file: FileId, node: NodeId) -> (r: Option<DefId>)
        ensures
            r == resolved_head_spec(self@, env, file, node),
    {
        match self.get_resolution(file, node) {
            Some(Resolution::Def(d)) => Some(resolve_alias(env.tables, d)),
            _ => None,
        }
    }

    /// What a name of the file being inferred resolved to.
    pub fn resolved_def(&self, env: &InferCx, node: NodeId) -> (r: Option<DefId>)
        ensures
            r == resolved_def_spec(self@, env, node),
    {
        self.resolved_def_in(env, self.file, node)
    }

    /// Whether a name was tried and failed, which has been reported.
    pub fn failed_resolution(&self, node: NodeId) -> (r: bool)
        ensures
            r == failed_resolution_spec(self@, node),
    {
        match self.get_resolution(self.file, node) {
            Some(Resolution::Error) => true,
            _ => false,
        }
    }

    /// The exact number a path names, when it resolves to a constant bound to one,
    /// following a chain of such constants.
    pub fn const_lit_value(&self, env: &InferCx, file: FileId, node: NodeId, fuel: u64) -> (r: Option<Lit>)
        ensures
            r == const_lit_value_spec(self@, env, file, node, fuel),
        decreases fuel,
    {
        if fuel == 0 {
            return None;
        }
        match self.resolved_def_in(env, file, node) {
            Some(def) => {
                if def_kind(env.tables, def) != DefKind::Const {
                    return None;
                }
                match recorded_const_ty(env.tables, def) {
                    Some(ConstTy::ComptimeInt) => {
                        return match recorded_const_value(env.tables, def) {
                            Some(v) => number_lit(&v),
                            None => None,
                        };
                    },
                    Some(ConstTy::ComptimeFloat) => {
                        return match recorded_const_value(env.tables, def) {
                            Some(v) => number_lit(&v),
                            None => None,
                        };
                    },
                    Some(_) => {
                        return None;
                    },
                    None => {},
                }
                match def_place(env.tables, def) {
                    Some((cfile, cnode)) => {
                        let rhs = bound_rhs(env.tables, cfile, cnode);
                        match kind_of(env.tables, cfile, rhs) {
                            Some(NodeKind::Lit(Lit::Int(n))) => Some(Lit::Int(dup_int(n))),
                            Some(NodeKind::Lit(Lit::Float(b))) => Some(Lit::Float(*b)),
                            Some(NodeKind::Path { .. }) => self.const_lit_value(
                                env,
                                cfile,
                                rhs,
                                (fuel - 1) as u64,
                            ),
                            Some(NodeKind::FieldAccess { .. }) => self.const_lit_value(
                                env,
                                cfile,
                                rhs,
                                (fuel - 1) as u64,
                            ),
                            _ => None,
                        }
                    },
                    _ => {
                        None
                    },
                }
            },
            _ => {
                None
            },
        }
    }

    /// The functions an overload set lists, with any set among them flattened in.
    pub fn overload_candidates(&self, env: &InferCx, def: DefId, fuel: u64) -> (r: List<DefId>)
        ensures
            r == overload_candidates_spec(self@, env, def, fuel),
        decreases fuel,
    {
        if fuel == 0 {
            return List::Nil;
        }
        match recorded_overloads(env.tables, def) {
            Some(l) => l,
            None => match def_place(env.tables, def) {
                Some((file, node)) => {
                    let rhs = bound_rhs(env.tables, file, node);
                    match kind_of(env.tables, file, rhs) {
                        Some(NodeKind::Overload { members }) => self.overload_members(
                            env,
                            file,
                            members,
                            (fuel - 1) as u64,
                        ),
                        _ => List::Nil,
                    }
                },
                None => List::Nil,
            },
        }
    }

    /// The functions a list of names stands for.
    pub fn overload_members(
        &self,
        env: &InferCx,
        file: FileId,
        l: &List<NodeId>,
        fuel: u64,
    ) -> (r: List<DefId>)
        ensures
            r == overload_members_spec(self@, env, file, l, fuel),
        decreases fuel, l,
    {
        if fuel == 0 {
            return List::Nil;
        }
        match l {
            List::Nil => List::Nil,
            List::Cons(h, t) => {
                let rest = self.overload_members(env, file, t, fuel);
                match self.resolved_def_in(env, file, *h) {
                    Some(d) => match def_kind(env.tables, d) {
                        DefKind::Func => List::Cons(d, Box::new(rest)),
                        DefKind::Overload => append(
                            self.overload_candidates(env, d, (fuel - 1) as u64),
                            rest,
                        ),
                        _ => rest,
                    },
                    None => rest,
                }
            },
        }
    }

    /// The type parameters an `impl` return type is generic over, in the order its
    /// type's arguments list them.
    pub fn opaque_params(&self, env: &InferCx, def: DefId) -> (r: List<DefId>)
        ensures
            r == opaque_params_spec(self@, env, def),
    {
        match recorded_opaque_params(env.tables, def) {
            Some(l) => l,
            None => match def_place(env.tables, def) {
                Some((file, node)) => match self.get_opaque_args(file, node) {
                    Some(l) => l,
                    None => List::Nil,
                },
                None => List::Nil,
            },
        }
    }

    /// The substitution a use of a type at some arguments stands for.
    pub fn nominal_subst(&self, env: &InferCx, def: DefId, args: &List<Ty>) -> (r: Subst)
        ensures
            r == nominal_subst_spec(self@, env, def, args),
    {
        of_types(zip_subst(&self.declared_generics(env, def), args))
    }
}

} // verus!
