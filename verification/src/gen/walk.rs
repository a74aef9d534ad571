//! The registration of every type the component interface uses, before the
//! type helpers are rendered.
use vstd::prelude::*;
use crate::gen::interface::{Argument, Callable, CallbackInterface, ComponentInterface, Enum, Field, Object, Record, UniffiTrait, Variant};
use crate::gen::naming::{exception_safe_name, exception_safe_spec};
use crate::gen::objects::{object_type, object_type_exec};
use crate::gen::registry::TypeHelpersRenderer;
use crate::gen::types::{canonical_name, canonical_name_spec, Type};

verus! {

/// Registers a type under its canonical name, and also under the name with
/// `Error` written `Exception` when that differs.
pub open spec fn reg_one(m: Map<Seq<char>, Type>, t: Type) -> Map<Seq<char>, Type> {
    let c = canonical_name_spec(t);
    let m1 = m.insert(c, t);
    let e = exception_safe_spec(c);
    if e != c {
        m1.insert(e, t)
    } else {
        m1
    }
}

/// Registers a type and every type nested in it, the outer first.
pub open spec fn reg_tree(m: Map<Seq<char>, Type>, t: Type) -> Map<Seq<char>, Type>
    decreases t,
{
    let m1 = reg_one(m, t);
    match t {
        Type::Optional { inner_type } => reg_tree(m1, *inner_type),
        Type::Sequence { inner_type } => reg_tree(m1, *inner_type),
        Type::Dict { key_type, value_type } => reg_tree(reg_tree(m1, *key_type), *value_type),
        Type::Custom { builtin, .. } => reg_tree(m1, *builtin),
        _ => m1,
    }
}

/// For a type and every type nested in it, the outer first, registers that
/// type with the types nested in it.
pub open spec fn reg_each_in_tree(m: Map<Seq<char>, Type>, t: Type) -> Map<Seq<char>, Type>
    decreases t,
{
    let m1 = reg_tree(m, t);
    match t {
        Type::Optional { inner_type } => reg_each_in_tree(m1, *inner_type),
        Type::Sequence { inner_type } => reg_each_in_tree(m1, *inner_type),
        Type::Dict { key_type, value_type } => reg_each_in_tree(reg_each_in_tree(m1, *key_type), *value_type),
        Type::Custom { builtin, .. } => reg_each_in_tree(m1, *builtin),
        _ => m1,
    }
}

/// `reg_each_in_tree` on an optional type.
pub open spec fn reg_each_opt(m: Map<Seq<char>, Type>, t: Option<Type>) -> Map<Seq<char>, Type> {
    match t {
        Some(x) => reg_each_in_tree(m, x),
        None => m,
    }
}

/// `reg_tree` on an optional type.
pub open spec fn reg_tree_opt(m: Map<Seq<char>, Type>, t: Option<Type>) -> Map<Seq<char>, Type> {
    match t {
        Some(x) => reg_tree(m, x),
        None => m,
    }
}

/// `reg_each_in_tree` on the type of each argument, in order.
pub open spec fn reg_each_args(m: Map<Seq<char>, Type>, args: Seq<Argument>) -> Map<Seq<char>, Type>
    decreases args.len(),
{
    if args.len() == 0 {
        m
    } else {
        reg_each_in_tree(reg_each_args(m, args.drop_last()), args.last().ty)
    }
}

/// `reg_tree` on the type of each argument, in order.
pub open spec fn reg_tree_args(m: Map<Seq<char>, Type>, args: Seq<Argument>) -> Map<Seq<char>, Type>
    decreases args.len(),
{
    if args.len() == 0 {
        m
    } else {
        reg_tree(reg_tree_args(m, args.drop_last()), args.last().ty)
    }
}

/// `reg_each_in_tree` on each type a callable uses: its arguments, its
/// return type and its error type.
pub open spec fn reg_each_callable(m: Map<Seq<char>, Type>, c: Callable) -> Map<Seq<char>, Type> {
    reg_each_opt(reg_each_opt(reg_each_args(m, c.arguments@), c.return_type), c.throws)
}

/// `reg_tree` on each type a callable uses.
pub open spec fn reg_tree_callable(m: Map<Seq<char>, Type>, c: Callable) -> Map<Seq<char>, Type> {
    reg_tree_opt(reg_tree_opt(reg_tree_args(m, c.arguments@), c.return_type), c.throws)
}

/// `reg_each_callable` on each callable, in order.
pub open spec fn reg_each_callables(m: Map<Seq<char>, Type>, cs: Seq<Callable>) -> Map<Seq<char>, Type>
    decreases cs.len(),
{
    if cs.len() == 0 {
        m
    } else {
        reg_each_callable(reg_each_callables(m, cs.drop_last()), cs.last())
    }
}

/// The callables of exported trait implementations: equality has two.
pub open spec fn reg_each_traits(m: Map<Seq<char>, Type>, ts: Seq<UniffiTrait>) -> Map<Seq<char>, Type>
    decreases ts.len(),
{
    if ts.len() == 0 {
        m
    } else {
        let prev = reg_each_traits(m, ts.drop_last());
        match ts.last() {
            UniffiTrait::Display { fmt } => reg_each_callable(prev, fmt),
            UniffiTrait::Debug { fmt } => reg_each_callable(prev, fmt),
            UniffiTrait::Eq { eq, ne } => reg_each_callable(reg_each_callable(prev, eq), ne),
            UniffiTrait::Hash { hash } => reg_each_callable(prev, hash),
            UniffiTrait::Ord { order } => reg_each_callable(prev, order),
        }
    }
}

/// `reg_each_in_tree` on the type of each field, in order.
pub open spec fn reg_each_fields(m: Map<Seq<char>, Type>, fs: Seq<Field>) -> Map<Seq<char>, Type>
    decreases fs.len(),
{
    if fs.len() == 0 {
        m
    } else {
        reg_each_in_tree(reg_each_fields(m, fs.drop_last()), fs.last().ty)
    }
}

/// `reg_each_fields` on the fields of each variant, in order.
pub open spec fn reg_each_variants(m: Map<Seq<char>, Type>, vs: Seq<Variant>) -> Map<Seq<char>, Type>
    decreases vs.len(),
{
    if vs.len() == 0 {
        m
    } else {
        reg_each_fields(reg_each_variants(m, vs.drop_last()), vs.last().fields@)
    }
}

/// The registrations for each record: its type, then its field types.
pub open spec fn walk_records(m: Map<Seq<char>, Type>, rs: Seq<Record>) -> Map<Seq<char>, Type>
    decreases rs.len(),
{
    if rs.len() == 0 {
        m
    } else {
        let r = rs.last();
        reg_each_fields(reg_tree(walk_records(m, rs.drop_last()), Type::Record { name: r.name }), r.fields@)
    }
}

/// The registrations for each enum: its type, then its variants' field
/// types.
pub open spec fn walk_enums(m: Map<Seq<char>, Type>, es: Seq<Enum>) -> Map<Seq<char>, Type>
    decreases es.len(),
{
    if es.len() == 0 {
        m
    } else {
        let e = es.last();
        reg_each_variants(reg_tree(walk_enums(m, es.drop_last()), Type::Enum { name: e.name }), e.variants@)
    }
}

/// The registrations for each object: its type, then the types of its
/// methods, trait implementations and constructors.
pub open spec fn walk_objects(m: Map<Seq<char>, Type>, os: Seq<Object>) -> Map<Seq<char>, Type>
    decreases os.len(),
{
    if os.len() == 0 {
        m
    } else {
        let o = os.last();
        reg_each_callables(
            reg_each_traits(reg_each_callables(reg_tree(walk_objects(m, os.drop_last()), object_type(o)), o.methods@), o.uniffi_traits@),
            o.constructors@,
        )
    }
}

/// The registrations for each function: the types it uses.
pub open spec fn walk_functions(m: Map<Seq<char>, Type>, fs: Seq<Callable>) -> Map<Seq<char>, Type>
    decreases fs.len(),
{
    if fs.len() == 0 {
        m
    } else {
        reg_tree_callable(walk_functions(m, fs.drop_last()), fs.last())
    }
}

/// The registrations for each callback interface: its type, then the types
/// of its methods.
pub open spec fn walk_callbacks(m: Map<Seq<char>, Type>, cs: Seq<CallbackInterface>) -> Map<Seq<char>, Type>
    decreases cs.len(),
{
    if cs.len() == 0 {
        m
    } else {
        let c = cs.last();
        reg_each_callables(reg_tree(walk_callbacks(m, cs.drop_last()), Type::CallbackInterface { name: c.name }), c.methods@)
    }
}

/// The registrations of every type the interface uses: records, enums,
/// objects, functions and callback interfaces, in that order.
pub open spec fn walk(ci: ComponentInterface, m: Map<Seq<char>, Type>) -> Map<Seq<char>, Type> {
    walk_callbacks(
        walk_functions(walk_objects(walk_enums(walk_records(m, ci.records@), ci.enums@), ci.objects@), ci.functions@),
        ci.callback_interfaces@,
    )
}

fn register_type_helper(reg: &mut TypeHelpersRenderer, t: &Type)
    requires
        old(reg).well_formed(),
    ensures
        final(reg).well_formed(),
        final(reg).helpers() == reg_one(old(reg).helpers(), *t),
        final(reg).custom_names() == old(reg).custom_names(),
{
    let c = canonical_name(t);
    reg.include_once_check(c.as_str(), t);
    let e = exception_safe_name(c.as_str());
    if !(e == c) {
        reg.include_once_check(e.as_str(), t);
    }
}

/// Registers a type and every type nested in it.
pub fn register_type_helpers(reg: &mut TypeHelpersRenderer, t: &Type)
    requires
        old(reg).well_formed(),
    ensures
        final(reg).well_formed(),
        final(reg).helpers() == reg_tree(old(reg).helpers(), *t),
        final(reg).custom_names() == old(reg).custom_names(),
    decreases t,
{
    register_type_helper(reg, t);
    match t {
        Type::Optional { inner_type } => register_type_helpers(reg, inner_type),
        Type::Sequence { inner_type } => register_type_helpers(reg, inner_type),
        Type::Dict { key_type, value_type } => {
            register_type_helpers(reg, key_type);
            register_type_helpers(reg, value_type);
        },
        Type::Custom { builtin, .. } => register_type_helpers(reg, builtin),
        _ => {},
    }
}

fn register_each_in_tree(reg: &mut TypeHelpersRenderer, t: &Type)
    requires
        old(reg).well_formed(),
    ensures
        final(reg).well_formed(),
        final(reg).helpers() == reg_each_in_tree(old(reg).helpers(), *t),
        final(reg).custom_names() == old(reg).custom_names(),
    decreases t,
{
    register_type_helpers(reg, t);
    match t {
        Type::Optional { inner_type } => register_each_in_tree(reg, inner_type),
        Type::Sequence { inner_type } => register_each_in_tree(reg, inner_type),
        Type::Dict { key_type, value_type } => {
            register_each_in_tree(reg, key_type);
            register_each_in_tree(reg, value_type);
        },
        Type::Custom { builtin, .. } => register_each_in_tree(reg, builtin),
        _ => {},
    }
}

fn register_each_args(reg: &mut TypeHelpersRenderer, args: &Vec<Argument>, each: bool)
    requires
        old(reg).well_formed(),
    ensures
        final(reg).well_formed(),
        final(reg).helpers() == (if each {
            reg_each_args(old(reg).helpers(), args@)
        } else {
            reg_tree_args(old(reg).helpers(), args@)
        }),
        final(reg).custom_names() == old(reg).custom_names(),
{
    let ghost m0 = reg.helpers();
    let n = args.len();
    assert(args@.take(0) =~= Seq::<Argument>::empty());
    for i in 0..n
        invariant
            n == args@.len(),
            reg.well_formed(),
            reg.helpers() == (if each {
                reg_each_args(m0, args@.take(i as int))
            } else {
                reg_tree_args(m0, args@.take(i as int))
            }),
            reg.custom_names() == old(reg).custom_names(),
    {
        assert(args@.take(i + 1).drop_last() =~= args@.take(i as int));
        if each {
            register_each_in_tree(reg, &args[i].ty);
        } else {
            register_type_helpers(reg, &args[i].ty);
        }
    }
    assert(args@.take(n as int) =~= args@);
}

fn register_callable(reg: &mut TypeHelpersRenderer, c: &Callable, each: bool)
    requires
        old(reg).well_formed(),
    ensures
        final(reg).well_formed(),
        final(reg).helpers() == (if each {
            reg_each_callable(old(reg).helpers(), *c)
        } else {
            reg_tree_callable(old(reg).helpers(), *c)
        }),
        final(reg).custom_names() == old(reg).custom_names(),
{
    register_each_args(reg, &c.arguments, each);
    if let Some(t) = &c.return_type {
        if each {
            register_each_in_tree(reg, t);
        } else {
            register_type_helpers(reg, t);
        }
    }
    if let Some(t) = &c.throws {
        if each {
            register_each_in_tree(reg, t);
        } else {
            register_type_helpers(reg, t);
        }
    }
}

fn register_each_callables(reg: &mut TypeHelpersRenderer, cs: &Vec<Callable>)
    requires
        old(reg).well_formed(),
    ensures
        final(reg).well_formed(),
        final(reg).helpers() == reg_each_callables(old(reg).helpers(), cs@),
        final(reg).custom_names() == old(reg).custom_names(),
{
    let ghost m0 = reg.helpers();
    let n = cs.len();
    assert(cs@.take(0) =~= Seq::<Callable>::empty());
    for i in 0..n
        invariant
            n == cs@.len(),
            reg.well_formed(),
            reg.helpers() == reg_each_callables(m0, cs@.take(i as int)),
            reg.custom_names() == old(reg).custom_names(),
    {
        assert(cs@.take(i + 1).drop_last() =~= cs@.take(i as int));
        register_callable(reg, &cs[i], true);
    }
    assert(cs@.take(n as int) =~= cs@);
}

fn register_each_traits(reg: &mut TypeHelpersRenderer, ts: &Vec<UniffiTrait>)
    requires
        old(reg).well_formed(),
    ensures
        final(reg).well_formed(),
        final(reg).helpers() == reg_each_traits(old(reg).helpers(), ts@),
        final(reg).custom_names() == old(reg).custom_names(),
{
    let ghost m0 = reg.helpers();
    let n = ts.len();
    assert(ts@.take(0) =~= Seq::<UniffiTrait>::empty());
    for i in 0..n
        invariant
            n == ts@.len(),
            reg.well_formed(),
            reg.helpers() == reg_each_traits(m0, ts@.take(i as int)),
            reg.custom_names() == old(reg).custom_names(),
    {
        assert(ts@.take(i + 1).drop_last() =~= ts@.take(i as int));
        match &ts[i] {
            UniffiTrait::Display { fmt } => register_callable(reg, fmt, true),
            UniffiTrait::Debug { fmt } => register_callable(reg, fmt, true),
            UniffiTrait::Eq { eq, ne } => {
                register_callable(reg, eq, true);
                register_callable(reg, ne, true);
            },
            UniffiTrait::Hash { hash } => register_callable(reg, hash, true),
            UniffiTrait::Ord { order } => register_callable(reg, order, true),
        }
    }
    assert(ts@.take(n as int) =~= ts@);
}

fn register_each_fields(reg: &mut TypeHelpersRenderer, fs: &Vec<Field>)
    requires
        old(reg).well_formed(),
    ensures
        final(reg).well_formed(),
        final(reg).helpers() == reg_each_fields(old(reg).helpers(), fs@),
        final(reg).custom_names() == old(reg).custom_names(),
{
    let ghost m0 = reg.helpers();
    let n = fs.len();
    assert(fs@.take(0) =~= Seq::<Field>::empty());
    for i in 0..n
        invariant
            n == fs@.len(),
            reg.well_formed(),
            reg.helpers() == reg_each_fields(m0, fs@.take(i as int)),
            reg.custom_names() == old(reg).custom_names(),
    {
        assert(fs@.take(i + 1).drop_last() =~= fs@.take(i as int));
        register_each_in_tree(reg, &fs[i].ty);
    }
    assert(fs@.take(n as int) =~= fs@);
}

/// Registers every type the interface uses: records, enums, objects,
/// functions and callback interfaces, in that order.
pub fn register_component_interface_type_helpers(ci: &ComponentInterface, reg: &mut TypeHelpersRenderer)
    requires
        old(reg).well_formed(),
    ensures
        final(reg).well_formed(),
        final(reg).helpers() == walk(*ci, old(reg).helpers()),
        final(reg).custom_names() == old(reg).custom_names(),
{
    let ghost m0 = reg.helpers();
    let n = ci.records.len();
    assert(ci.records@.take(0) =~= Seq::<Record>::empty());
    for i in 0..n
        invariant
            n == ci.records@.len(),
            reg.well_formed(),
            reg.helpers() == walk_records(m0, ci.records@.take(i as int)),
            reg.custom_names() == old(reg).custom_names(),
    {
        assert(ci.records@.take(i + 1).drop_last() =~= ci.records@.take(i as int));
        let r = &ci.records[i];
        let t = Type::Record { name: r.name.clone() };
        register_type_helpers(reg, &t);
        register_each_fields(reg, &r.fields);
    }
    assert(ci.records@.take(n as int) =~= ci.records@);
    let ghost m1 = reg.helpers();
    let n = ci.enums.len();
    assert(ci.enums@.take(0) =~= Seq::<Enum>::empty());
    for i in 0..n
        invariant
            n == ci.enums@.len(),
            reg.well_formed(),
            reg.helpers() == walk_enums(m1, ci.enums@.take(i as int)),
            reg.custom_names() == old(reg).custom_names(),
    {
        assert(ci.enums@.take(i + 1).drop_last() =~= ci.enums@.take(i as int));
        let e = &ci.enums[i];
        let t = Type::Enum { name: e.name.clone() };
        register_type_helpers(reg, &t);
        let ghost mv = reg.helpers();
        let nv = e.variants.len();
        assert(e.variants@.take(0) =~= Seq::<Variant>::empty());
        for j in 0..nv
            invariant
                nv == e.variants@.len(),
                reg.well_formed(),
                reg.helpers() == reg_each_variants(mv, e.variants@.take(j as int)),
                reg.custom_names() == old(reg).custom_names(),
        {
            assert(e.variants@.take(j + 1).drop_last() =~= e.variants@.take(j as int));
            register_each_fields(reg, &e.variants[j].fields);
        }
        assert(e.variants@.take(nv as int) =~= e.variants@);
    }
    assert(ci.enums@.take(n as int) =~= ci.enums@);
    let ghost m2 = reg.helpers();
    let n = ci.objects.len();
    assert(ci.objects@.take(0) =~= Seq::<Object>::empty());
    for i in 0..n
        invariant
            n == ci.objects@.len(),
            reg.well_formed(),
            reg.helpers() == walk_objects(m2, ci.objects@.take(i as int)),
            reg.custom_names() == old(reg).custom_names(),
    {
        assert(ci.objects@.take(i + 1).drop_last() =~= ci.objects@.take(i as int));
        let o = &ci.objects[i];
        let t = object_type_exec(o);
        register_type_helpers(reg, &t);
        register_each_callables(reg, &o.methods);
        register_each_traits(reg, &o.uniffi_traits);
        register_each_callables(reg, &o.constructors);
    }
    assert(ci.objects@.take(n as int) =~= ci.objects@);
    let ghost m3 = reg.helpers();
    let n = ci.functions.len();
    assert(ci.functions@.take(0) =~= Seq::<Callable>::empty());
    for i in 0..n
        invariant
            n == ci.functions@.len(),
            reg.well_formed(),
            reg.helpers() == walk_functions(m3, ci.functions@.take(i as int)),
            reg.custom_names() == old(reg).custom_names(),
    {
        assert(ci.functions@.take(i + 1).drop_last() =~= ci.functions@.take(i as int));
        register_callable(reg, &ci.functions[i], false);
    }
    assert(ci.functions@.take(n as int) =~= ci.functions@);
    let ghost m4 = reg.helpers();
    let n = ci.callback_interfaces.len();
    assert(ci.callback_interfaces@.take(0) =~= Seq::<CallbackInterface>::empty());
    for i in 0..n
        invariant
            n == ci.callback_interfaces@.len(),
            reg.well_formed(),
            reg.helpers() == walk_callbacks(m4, ci.callback_interfaces@.take(i as int)),
            reg.custom_names() == old(reg).custom_names(),
    {
        assert(ci.callback_interfaces@.take(i + 1).drop_last() =~= ci.callback_interfaces@.take(i as int));
        let c = &ci.callback_interfaces[i];
        let t = Type::CallbackInterface { name: c.name.clone() };
        register_type_helpers(reg, &t);
        register_each_callables(reg, &c.methods);
    }
    assert(ci.callback_interfaces@.take(n as int) =~= ci.callback_interfaces@);
}

} // verus!
