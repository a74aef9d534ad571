//! Facts about what the registry holds as generation proceeds: names are
//! only ever added, and every type registered by the interface's own
//! definitions is registered under its canonical name too.
use vstd::prelude::*;
use crate::gen::callback_interface::register_async_returns;
use crate::gen::enums::{enum_registry, register_fields, register_variants};
use crate::gen::interface::{Argument, Callable, CallbackInterface, Enum, Field, Object, Record, UniffiTrait, Variant};
use crate::gen::naming::exception_safe_spec;
use crate::gen::objects::{
    first_of_kind, object_registry, object_type, register_args, register_call, register_ctors,
    register_trait_helpers, trait_helper_call,
};
use crate::gen::types::{canonical_name_spec, Type};
use crate::gen::walk::{
    reg_each_args, reg_each_callable, reg_each_callables, reg_each_fields, reg_each_in_tree,
    reg_each_opt, reg_each_traits, reg_each_variants, reg_one, reg_tree, reg_tree_args,
    reg_tree_callable, reg_tree_opt, walk, walk_callbacks, walk_enums, walk_functions, walk_objects,
    walk_records,
};

verus! {

/// Every name of `m` is still registered in `m2`.
pub open spec fn grows(m: Map<Seq<char>, Type>, m2: Map<Seq<char>, Type>) -> bool {
    forall|k: Seq<char>| #[trigger] m.contains_key(k) ==> m2.contains_key(k)
}

/// Every registered type is registered under its canonical name too.
pub open spec fn closed(m: Map<Seq<char>, Type>) -> bool {
    forall|k: Seq<char>| #[trigger] m.contains_key(k) ==> m.contains_key(canonical_name_spec(m[k]))
}

/// What registering through `m2` keeps: names stay, and closure is kept.
pub open spec fn keeps(m: Map<Seq<char>, Type>, m2: Map<Seq<char>, Type>) -> bool {
    grows(m, m2) && (closed(m) ==> closed(m2))
}

pub proof fn lemma_keeps_trans(a: Map<Seq<char>, Type>, b: Map<Seq<char>, Type>, c: Map<Seq<char>, Type>)
    requires
        keeps(a, b),
        keeps(b, c),
    ensures
        keeps(a, c),
{
}

pub proof fn lemma_keeps_refl(a: Map<Seq<char>, Type>)
    ensures
        keeps(a, a),
{
}

/// Registering a type under its canonical name keeps the registry.
pub proof fn lemma_insert_canonical(m: Map<Seq<char>, Type>, t: Type)
    ensures
        keeps(m, m.insert(canonical_name_spec(t), t)),
{
    let m2 = m.insert(canonical_name_spec(t), t);
    if closed(m) {
        assert forall|k: Seq<char>| #[trigger] m2.contains_key(k) implies m2.contains_key(canonical_name_spec(m2[k])) by {
            if k != canonical_name_spec(t) {
                assert(m.contains_key(k));
                assert(m.contains_key(canonical_name_spec(m[k])));
            }
        }
    }
}

/// Registering a type whose canonical name is registered keeps the
/// registry.
pub proof fn lemma_insert_known(m: Map<Seq<char>, Type>, k0: Seq<char>, t: Type)
    requires
        m.contains_key(canonical_name_spec(t)),
    ensures
        keeps(m, m.insert(k0, t)),
{
    let m2 = m.insert(k0, t);
    if closed(m) {
        assert forall|k: Seq<char>| #[trigger] m2.contains_key(k) implies m2.contains_key(canonical_name_spec(m2[k])) by {
            if k != k0 {
                assert(m.contains_key(k));
                assert(m.contains_key(canonical_name_spec(m[k])));
            }
        }
    }
}

pub proof fn lemma_reg_one(m: Map<Seq<char>, Type>, t: Type)
    ensures
        keeps(m, reg_one(m, t)),
{
    let c = canonical_name_spec(t);
    let m1 = m.insert(c, t);
    lemma_insert_canonical(m, t);
    let e = exception_safe_spec(c);
    if e != c {
        lemma_insert_known(m1, e, t);
        lemma_keeps_trans(m, m1, m1.insert(e, t));
    }
}

pub proof fn lemma_reg_tree(m: Map<Seq<char>, Type>, t: Type)
    ensures
        keeps(m, reg_tree(m, t)),
    decreases t,
{
    let m1 = reg_one(m, t);
    lemma_reg_one(m, t);
    match t {
        Type::Optional { inner_type } => {
            lemma_reg_tree(m1, *inner_type);
            lemma_keeps_trans(m, m1, reg_tree(m1, *inner_type));
        },
        Type::Sequence { inner_type } => {
            lemma_reg_tree(m1, *inner_type);
            lemma_keeps_trans(m, m1, reg_tree(m1, *inner_type));
        },
        Type::Dict { key_type, value_type } => {
            let m2 = reg_tree(m1, *key_type);
            lemma_reg_tree(m1, *key_type);
            lemma_reg_tree(m2, *value_type);
            lemma_keeps_trans(m, m1, m2);
            lemma_keeps_trans(m, m2, reg_tree(m2, *value_type));
        },
        Type::Custom { builtin, .. } => {
            lemma_reg_tree(m1, *builtin);
            lemma_keeps_trans(m, m1, reg_tree(m1, *builtin));
        },
        _ => {},
    }
}

pub proof fn lemma_reg_each_in_tree(m: Map<Seq<char>, Type>, t: Type)
    ensures
        keeps(m, reg_each_in_tree(m, t)),
    decreases t,
{
    let m1 = reg_tree(m, t);
    lemma_reg_tree(m, t);
    match t {
        Type::Optional { inner_type } => {
            lemma_reg_each_in_tree(m1, *inner_type);
            lemma_keeps_trans(m, m1, reg_each_in_tree(m1, *inner_type));
        },
        Type::Sequence { inner_type } => {
            lemma_reg_each_in_tree(m1, *inner_type);
            lemma_keeps_trans(m, m1, reg_each_in_tree(m1, *inner_type));
        },
        Type::Dict { key_type, value_type } => {
            let m2 = reg_each_in_tree(m1, *key_type);
            lemma_reg_each_in_tree(m1, *key_type);
            lemma_reg_each_in_tree(m2, *value_type);
            lemma_keeps_trans(m, m1, m2);
            lemma_keeps_trans(m, m2, reg_each_in_tree(m2, *value_type));
        },
        Type::Custom { builtin, .. } => {
            lemma_reg_each_in_tree(m1, *builtin);
            lemma_keeps_trans(m, m1, reg_each_in_tree(m1, *builtin));
        },
        _ => {},
    }
}

pub proof fn lemma_reg_each_args(m: Map<Seq<char>, Type>, args: Seq<Argument>)
    ensures
        keeps(m, reg_each_args(m, args)),
        keeps(m, reg_tree_args(m, args)),
    decreases args.len(),
{
    if args.len() > 0 {
        lemma_reg_each_args(m, args.drop_last());
        let a = reg_each_args(m, args.drop_last());
        let b = reg_tree_args(m, args.drop_last());
        lemma_reg_each_in_tree(a, args.last().ty);
        lemma_reg_tree(b, args.last().ty);
        lemma_keeps_trans(m, a, reg_each_args(m, args));
        lemma_keeps_trans(m, b, reg_tree_args(m, args));
    }
}

pub proof fn lemma_reg_callable(m: Map<Seq<char>, Type>, c: Callable)
    ensures
        keeps(m, reg_each_callable(m, c)),
        keeps(m, reg_tree_callable(m, c)),
{
    lemma_reg_each_args(m, c.arguments@);
    let a = reg_each_args(m, c.arguments@);
    let b = reg_tree_args(m, c.arguments@);
    let a2 = reg_each_opt(a, c.return_type);
    let b2 = reg_tree_opt(b, c.return_type);
    match c.return_type {
        Some(t) => {
            lemma_reg_each_in_tree(a, t);
            lemma_reg_tree(b, t);
        },
        None => {},
    }
    lemma_keeps_trans(m, a, a2);
    lemma_keeps_trans(m, b, b2);
    match c.throws {
        Some(t) => {
            lemma_reg_each_in_tree(a2, t);
            lemma_reg_tree(b2, t);
        },
        None => {},
    }
    lemma_keeps_trans(m, a2, reg_each_callable(m, c));
    lemma_keeps_trans(m, b2, reg_tree_callable(m, c));
}

pub proof fn lemma_reg_each_callables(m: Map<Seq<char>, Type>, cs: Seq<Callable>)
    ensures
        keeps(m, reg_each_callables(m, cs)),
    decreases cs.len(),
{
    if cs.len() > 0 {
        lemma_reg_each_callables(m, cs.drop_last());
        let a = reg_each_callables(m, cs.drop_last());
        lemma_reg_callable(a, cs.last());
        lemma_keeps_trans(m, a, reg_each_callables(m, cs));
    }
}

pub proof fn lemma_reg_each_traits(m: Map<Seq<char>, Type>, ts: Seq<UniffiTrait>)
    ensures
        keeps(m, reg_each_traits(m, ts)),
    decreases ts.len(),
{
    if ts.len() > 0 {
        lemma_reg_each_traits(m, ts.drop_last());
        let a = reg_each_traits(m, ts.drop_last());
        match ts.last() {
            UniffiTrait::Display { fmt } => lemma_reg_callable(a, fmt),
            UniffiTrait::Debug { fmt } => lemma_reg_callable(a, fmt),
            UniffiTrait::Eq { eq, ne } => {
                lemma_reg_callable(a, eq);
                lemma_reg_callable(reg_each_callable(a, eq), ne);
                lemma_keeps_trans(a, reg_each_callable(a, eq), reg_each_callable(reg_each_callable(a, eq), ne));
            },
            UniffiTrait::Hash { hash } => lemma_reg_callable(a, hash),
            UniffiTrait::Ord { order } => lemma_reg_callable(a, order),
        }
        lemma_keeps_trans(m, a, reg_each_traits(m, ts));
    }
}

pub proof fn lemma_reg_each_fields(m: Map<Seq<char>, Type>, fs: Seq<Field>)
    ensures
        keeps(m, reg_each_fields(m, fs)),
    decreases fs.len(),
{
    if fs.len() > 0 {
        lemma_reg_each_fields(m, fs.drop_last());
        let a = reg_each_fields(m, fs.drop_last());
        lemma_reg_each_in_tree(a, fs.last().ty);
        lemma_keeps_trans(m, a, reg_each_fields(m, fs));
    }
}

pub proof fn lemma_reg_each_variants(m: Map<Seq<char>, Type>, vs: Seq<Variant>)
    ensures
        keeps(m, reg_each_variants(m, vs)),
    decreases vs.len(),
{
    if vs.len() > 0 {
        lemma_reg_each_variants(m, vs.drop_last());
        let a = reg_each_variants(m, vs.drop_last());
        lemma_reg_each_fields(a, vs.last().fields@);
        lemma_keeps_trans(m, a, reg_each_variants(m, vs));
    }
}

pub proof fn lemma_walk(ci: crate::gen::interface::ComponentInterface, m: Map<Seq<char>, Type>)
    ensures
        keeps(m, walk(ci, m)),
{
    lemma_walk_records(m, ci.records@);
    let a = walk_records(m, ci.records@);
    lemma_walk_enums(a, ci.enums@);
    let b = walk_enums(a, ci.enums@);
    lemma_walk_objects(b, ci.objects@);
    let c = walk_objects(b, ci.objects@);
    lemma_walk_functions(c, ci.functions@);
    let d = walk_functions(c, ci.functions@);
    lemma_walk_callbacks(d, ci.callback_interfaces@);
    lemma_keeps_trans(m, a, b);
    lemma_keeps_trans(m, b, c);
    lemma_keeps_trans(m, c, d);
    lemma_keeps_trans(m, d, walk(ci, m));
}

proof fn lemma_walk_records(m: Map<Seq<char>, Type>, rs: Seq<Record>)
    ensures
        keeps(m, walk_records(m, rs)),
    decreases rs.len(),
{
    if rs.len() > 0 {
        lemma_walk_records(m, rs.drop_last());
        let a = walk_records(m, rs.drop_last());
        let t = Type::Record { name: rs.last().name };
        lemma_reg_tree(a, t);
        lemma_reg_each_fields(reg_tree(a, t), rs.last().fields@);
        lemma_keeps_trans(a, reg_tree(a, t), walk_records(m, rs));
        lemma_keeps_trans(m, a, walk_records(m, rs));
    }
}

proof fn lemma_walk_enums(m: Map<Seq<char>, Type>, es: Seq<Enum>)
    ensures
        keeps(m, walk_enums(m, es)),
    decreases es.len(),
{
    if es.len() > 0 {
        lemma_walk_enums(m, es.drop_last());
        let a = walk_enums(m, es.drop_last());
        let t = Type::Enum { name: es.last().name };
        lemma_reg_tree(a, t);
        lemma_reg_each_variants(reg_tree(a, t), es.last().variants@);
        lemma_keeps_trans(a, reg_tree(a, t), walk_enums(m, es));
        lemma_keeps_trans(m, a, walk_enums(m, es));
    }
}

proof fn lemma_walk_objects(m: Map<Seq<char>, Type>, os: Seq<Object>)
    ensures
        keeps(m, walk_objects(m, os)),
    decreases os.len(),
{
    if os.len() > 0 {
        lemma_walk_objects(m, os.drop_last());
        let o = os.last();
        let a = walk_objects(m, os.drop_last());
        let b = reg_tree(a, object_type(o));
        let c = reg_each_callables(b, o.methods@);
        let d = reg_each_traits(c, o.uniffi_traits@);
        lemma_reg_tree(a, object_type(o));
        lemma_reg_each_callables(b, o.methods@);
        lemma_reg_each_traits(c, o.uniffi_traits@);
        lemma_reg_each_callables(d, o.constructors@);
        lemma_keeps_trans(a, b, c);
        lemma_keeps_trans(a, c, d);
        lemma_keeps_trans(a, d, walk_objects(m, os));
        lemma_keeps_trans(m, a, walk_objects(m, os));
    }
}

proof fn lemma_walk_functions(m: Map<Seq<char>, Type>, fs: Seq<Callable>)
    ensures
        keeps(m, walk_functions(m, fs)),
    decreases fs.len(),
{
    if fs.len() > 0 {
        lemma_walk_functions(m, fs.drop_last());
        let a = walk_functions(m, fs.drop_last());
        lemma_reg_callable(a, fs.last());
        lemma_keeps_trans(m, a, walk_functions(m, fs));
    }
}

proof fn lemma_walk_callbacks(m: Map<Seq<char>, Type>, cs: Seq<CallbackInterface>)
    ensures
        keeps(m, walk_callbacks(m, cs)),
    decreases cs.len(),
{
    if cs.len() > 0 {
        lemma_walk_callbacks(m, cs.drop_last());
        let a = walk_callbacks(m, cs.drop_last());
        let t = Type::CallbackInterface { name: cs.last().name };
        lemma_reg_tree(a, t);
        lemma_reg_each_callables(reg_tree(a, t), cs.last().methods@);
        lemma_keeps_trans(a, reg_tree(a, t), walk_callbacks(m, cs));
        lemma_keeps_trans(m, a, walk_callbacks(m, cs));
    }
}

pub proof fn lemma_register_fields(m: Map<Seq<char>, Type>, fs: Seq<Field>)
    ensures
        keeps(m, register_fields(m, fs)),
    decreases fs.len(),
{
    if fs.len() > 0 {
        lemma_register_fields(m, fs.drop_last());
        let a = register_fields(m, fs.drop_last());
        lemma_insert_canonical(a, fs.last().ty);
        lemma_keeps_trans(m, a, register_fields(m, fs));
    }
}

pub proof fn lemma_register_variants(m: Map<Seq<char>, Type>, vs: Seq<Variant>)
    ensures
        keeps(m, register_variants(m, vs)),
    decreases vs.len(),
{
    if vs.len() > 0 {
        lemma_register_variants(m, vs.drop_last());
        let a = register_variants(m, vs.drop_last());
        lemma_register_fields(a, vs.last().fields@);
        lemma_keeps_trans(m, a, register_variants(m, vs));
    }
}

pub proof fn lemma_enum_registry(e: Enum, m: Map<Seq<char>, Type>)
    ensures
        keeps(m, enum_registry(e, m)),
{
    if !e.flat {
        lemma_register_variants(m, e.variants@);
    }
}

pub proof fn lemma_register_args(m: Map<Seq<char>, Type>, args: Seq<Argument>)
    ensures
        keeps(m, register_args(m, args)),
    decreases args.len(),
{
    if args.len() > 0 {
        lemma_register_args(m, args.drop_last());
        let a = register_args(m, args.drop_last());
        lemma_insert_canonical(a, args.last().ty);
        lemma_keeps_trans(m, a, register_args(m, args));
    }
}

pub proof fn lemma_register_call(m: Map<Seq<char>, Type>, c: Callable)
    ensures
        keeps(m, register_call(m, c)),
{
    lemma_register_args(m, c.arguments@);
    let a = register_args(m, c.arguments@);
    match c.return_type {
        Some(t) => {
            lemma_insert_canonical(a, t);
            lemma_keeps_trans(m, a, register_call(m, c));
        },
        None => {},
    }
}

pub proof fn lemma_register_trait_helpers(m: Map<Seq<char>, Type>, ts: Seq<UniffiTrait>)
    ensures
        keeps(m, register_trait_helpers(m, ts)),
    decreases ts.len(),
{
    if ts.len() > 0 {
        lemma_register_trait_helpers(m, ts.drop_last());
        let a = register_trait_helpers(m, ts.drop_last());
        if first_of_kind(ts, ts.len() - 1) {
            match trait_helper_call(ts.last()) {
                Some(c) => {
                    lemma_register_call(a, c);
                    lemma_keeps_trans(m, a, register_trait_helpers(m, ts));
                },
                None => {},
            }
        }
    }
}

pub proof fn lemma_register_ctors(m: Map<Seq<char>, Type>, cs: Seq<Callable>)
    ensures
        keeps(m, register_ctors(m, cs)),
    decreases cs.len(),
{
    if cs.len() > 0 {
        lemma_register_ctors(m, cs.drop_last());
        let a = register_ctors(m, cs.drop_last());
        lemma_register_args(a, cs.last().arguments@);
        lemma_keeps_trans(m, a, register_ctors(m, cs));
    }
}

pub proof fn lemma_object_registry(o: Object, m: Map<Seq<char>, Type>)
    ensures
        keeps(m, object_registry(o, m)),
        keeps(m, m.insert(o.name@, object_type(o))),
{
    let a = m.insert(o.name@, object_type(o));
    assert(canonical_name_spec(object_type(o)) == o.name@);
    lemma_insert_canonical(m, object_type(o));
    lemma_register_trait_helpers(a, o.uniffi_traits@);
    let b = register_trait_helpers(a, o.uniffi_traits@);
    lemma_register_ctors(b, o.constructors@);
    lemma_keeps_trans(m, a, b);
    lemma_keeps_trans(m, b, object_registry(o, m));
}

pub proof fn lemma_register_async_returns(m: Map<Seq<char>, Type>, ms: Seq<Callable>)
    ensures
        keeps(m, register_async_returns(m, ms)),
    decreases ms.len(),
{
    if ms.len() > 0 {
        lemma_register_async_returns(m, ms.drop_last());
        let a = register_async_returns(m, ms.drop_last());
        let c = ms.last();
        if c.is_async {
            match c.return_type {
                Some(t) => {
                    lemma_insert_canonical(a, t);
                    lemma_keeps_trans(m, a, register_async_returns(m, ms));
                },
                None => {},
            }
        }
    }
}

} // verus!
