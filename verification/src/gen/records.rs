//! Dart classes generated for records.
use vstd::prelude::*;
use crate::gen::enums::{
    alloc_field, alloc_field_spec, field_decl, field_decl_spec, read_field, read_field_spec,
    register_field_types, register_fields, write_field, write_field_spec,
};
use crate::gen::interface::{find_record, ComponentInterface, Field, Record};
use crate::gen::naming::{class_name, class_name_spec, enum_variant_name, member_name_spec, var_name};
use crate::gen::primitives::{is_renderable_literal, literal_text, render_literal, Literal};
use crate::gen::registry::TypeHelpersRenderer;
use crate::gen::text::{concat2, concat3, concat_all, lemma_concat_all_step};
use crate::gen::types::{dart_type_spec, ffi_converter_name, ffi_converter_name_spec, generate_type, has_dart_type, Type};

verus! {

/// The class of a record: its fields and its constructor.
pub open spec fn record_class_spec(cls: Seq<char>, decls: Seq<char>, ctor: Seq<char>) -> Seq<char> {
    "class "@ +
    cls +
    " {\n"@ +
    decls +
    "\n  "@ +
    cls +
    ctor +
    ";\n}\n\n"@
}

fn record_class(cls: &str, decls: &str, ctor: &str) -> (s: String)
    ensures
        s@ == record_class_spec(cls@, decls@, ctor@),
{
    let mut s = String::from_str("class ");
    s.append(cls);
    s.append(" {\n");
    s.append(decls);
    s.append("\n  ");
    s.append(cls);
    s.append(ctor);
    s.append(";\n}\n\n");
    s
}

/// The converter class of a record.
pub open spec fn record_converter_spec(cls: Seq<char>, conv: Seq<char>, reads: Seq<char>, named: Seq<char>, allocs: Seq<char>, writes: Seq<char>) -> Seq<char> {
    "class "@ +
    conv +
    " {\n  static "@ +
    cls +
    " lift(RustBuffer buf) {\n    return "@ +
    conv +
    ".read(buf.asUint8List()).value;\n  }\n  static LiftRetVal<"@ +
    cls +
    "> read(Uint8List buf) {\n    int new_offset = buf.offsetInBytes;\n"@ +
    reads +
    "    return LiftRetVal("@ +
    cls +
    "(\n"@ +
    named +
    "    ), new_offset - buf.offsetInBytes);\n  }\n  static RustBuffer lower("@ +
    cls +
    " value) {\n    final total_length = "@ +
    allocs +
    "0;\n    final buf = Uint8List(total_length);\n    write(value, buf);\n    return toRustBuffer(buf);\n  }\n  static int write("@ +
    cls +
    " value, Uint8List buf) {\n    int new_offset = buf.offsetInBytes;\n"@ +
    writes +
    "    return new_offset - buf.offsetInBytes;\n  }\n  static int allocationSize("@ +
    cls +
    " value) {\n    return "@ +
    allocs +
    "0;\n  }\n}\n"@
}

fn record_converter(cls: &str, conv: &str, reads: &str, named: &str, allocs: &str, writes: &str) -> (s: String)
    ensures
        s@ == record_converter_spec(cls@, conv@, reads@, named@, allocs@, writes@),
{
    let mut s = String::from_str("class ");
    s.append(conv);
    s.append(" {\n  static ");
    s.append(cls);
    s.append(" lift(RustBuffer buf) {\n    return ");
    s.append(conv);
    s.append(".read(buf.asUint8List()).value;\n  }\n  static LiftRetVal<");
    s.append(cls);
    s.append("> read(Uint8List buf) {\n    int new_offset = buf.offsetInBytes;\n");
    s.append(reads);
    s.append("    return LiftRetVal(");
    s.append(cls);
    s.append("(\n");
    s.append(named);
    s.append("    ), new_offset - buf.offsetInBytes);\n  }\n  static RustBuffer lower(");
    s.append(cls);
    s.append(" value) {\n    final total_length = ");
    s.append(allocs);
    s.append("0;\n    final buf = Uint8List(total_length);\n    write(value, buf);\n    return toRustBuffer(buf);\n  }\n  static int write(");
    s.append(cls);
    s.append(" value, Uint8List buf) {\n    int new_offset = buf.offsetInBytes;\n");
    s.append(writes);
    s.append("    return new_offset - buf.offsetInBytes;\n  }\n  static int allocationSize(");
    s.append(cls);
    s.append(" value) {\n    return ");
    s.append(allocs);
    s.append("0;\n  }\n}\n");
    s
}

/// A named argument passing a local of the same name.
pub open spec fn named_arg_spec(n: Seq<char>) -> Seq<char> {
    "      "@ +
    n +
    ": "@ +
    n +
    ",\n"@
}

fn named_arg(n: &str) -> (s: String)
    ensures
        s@ == named_arg_spec(n@),
{
    let mut s = String::from_str("      ");
    s.append(n);
    s.append(": ");
    s.append(n);
    s.append(",\n");
    s
}

/// The Dart enum class a default value of type `t` names its variant in:
/// that of an enum type, or of the enum an optional type wraps.
pub open spec fn enum_class_of(t: Type) -> Option<Seq<char>>
    decreases t,
{
    match t {
        Type::Enum { name } => Some(class_name_spec(name@)),
        Type::Optional { inner_type } => enum_class_of(*inner_type),
        _ => None,
    }
}

/// The Dart expression of a default value of a field of type `t`, where one
/// can be written: a variant of the field's enum, an empty list or map,
/// `null`, the value an optional holds, or a plain literal.
pub open spec fn default_value_spec(lit: Literal, t: Type) -> Option<Seq<char>>
    decreases lit,
{
    match lit {
        Literal::Enum(v, _) => match enum_class_of(t) {
            Some(c) => Some(c + "."@ + member_name_spec(v@)),
            None => None,
        },
        Literal::EmptySequence => Some("[]"@),
        Literal::EmptyMap => Some("{}"@),
        Literal::Null => Some("null"@),
        Literal::Present { inner } => match t {
            Type::Optional { inner_type } => default_value_spec(*inner, *inner_type),
            _ => None,
        },
        _ => if is_renderable_literal(lit) {
            Some(literal_text(lit))
        } else {
            None
        },
    }
}

fn enum_class_text(t: &Type) -> (r: Option<String>)
    ensures
        r.is_some() == enum_class_of(*t).is_some(),
        r matches Some(s) ==> s@ == enum_class_of(*t)->0,
    decreases t,
{
    match t {
        Type::Enum { name } => Some(class_name(name.as_str())),
        Type::Optional { inner_type } => enum_class_text(inner_type),
        _ => None,
    }
}

/// The Dart expression of a default value, when one can be written.
pub fn default_value_text(lit: &Literal, t: &Type) -> (r: Option<String>)
    ensures
        r.is_some() == default_value_spec(*lit, *t).is_some(),
        r matches Some(s) ==> s@ == default_value_spec(*lit, *t)->0,
    decreases lit,
{
    match lit {
        Literal::Enum(v, _) => match enum_class_text(t) {
            Some(c) => {
                let vn = enum_variant_name(v.as_str());
                Some(concat3(c.as_str(), ".", vn.as_str()))
            },
            None => None,
        },
        Literal::EmptySequence => Some(String::from_str("[]")),
        Literal::EmptyMap => Some(String::from_str("{}")),
        Literal::Null => Some(String::from_str("null")),
        Literal::Present { inner } => match t {
            Type::Optional { inner_type } => default_value_text(inner, inner_type),
            _ => None,
        },
        _ => if is_renderable_literal_exec(lit) {
            Some(render_literal(lit))
        } else {
            None
        },
    }
}

fn is_renderable_literal_exec(lit: &Literal) -> (b: bool)
    ensures
        b == is_renderable_literal(*lit),
{
    match lit {
        Literal::Boolean(_) | Literal::String(_) => true,
        Literal::UInt(_, _, t) | Literal::Int(_, _, t) | Literal::Float(_, t) => match t {
            Type::Int8 | Type::UInt8 | Type::Int16 | Type::UInt16 | Type::Int32 | Type::UInt32
            | Type::UInt64 | Type::Float32 | Type::Float64 | Type::Duration => true,
            _ => false,
        },
        _ => false,
    }
}

/// The Dart name of a record field.
pub open spec fn record_field_name(f: Field) -> Seq<char> {
    member_name_spec(f.name@)
}

/// The constructor parameter of a field: with its default value when one
/// can be written, optional when its type is, required otherwise.
pub open spec fn ctor_param_spec(f: Field) -> Seq<char> {
    let n = record_field_name(f);
    match f.default_value {
        Some(lit) => match default_value_spec(lit, f.ty) {
            Some(d) => "this."@ + n + " = "@ + d + ", "@,
            None => "required this."@ + n + ", "@,
        },
        None => if f.ty is Optional {
            "this."@ + n + ", "@
        } else {
            "required this."@ + n + ", "@
        },
    }
}

pub open spec fn record_decl_piece(f: Field) -> Seq<char> {
    field_decl_spec(dart_type_spec(f.ty), record_field_name(f))
}

pub open spec fn record_read_piece(f: Field) -> Seq<char> {
    read_field_spec(record_field_name(f), ffi_converter_name_spec(f.ty))
}

pub open spec fn record_named_piece(f: Field) -> Seq<char> {
    named_arg_spec(record_field_name(f))
}

pub open spec fn record_alloc_piece(f: Field) -> Seq<char> {
    alloc_field_spec(ffi_converter_name_spec(f.ty), "value."@ + record_field_name(f))
}

pub open spec fn record_write_piece(f: Field) -> Seq<char> {
    write_field_spec(ffi_converter_name_spec(f.ty), "value."@ + record_field_name(f))
}

/// The pieces `piece(f)` of all fields in order.
pub open spec fn record_pieces(fs: Seq<Field>, piece: spec_fn(Field) -> Seq<char>) -> Seq<Seq<char>> {
    Seq::new(fs.len(), |i: int| piece(fs[i]))
}

/// Whether every field of the record has a Dart field type.
pub open spec fn record_fields_typed(r: Record) -> bool {
    forall|i: int| 0 <= i < r.fields@.len() ==> has_dart_type(#[trigger] r.fields@[i].ty)
}

/// The Dart source of a record: its class and its converter class.
#[verifier::opaque]
pub open spec fn record_text(r: Record) -> Seq<char> {
    let cls = class_name_spec(r.name@);
    let conv = class_name_spec("FfiConverter"@ + r.name@);
    let fs = r.fields@;
    record_class_spec(
        cls,
        concat_all(record_pieces(fs, |f: Field| record_decl_piece(f))),
        if fs.len() == 0 {
            "()"@
        } else {
            "({"@ + concat_all(record_pieces(fs, |f: Field| ctor_param_spec(f))) + "})"@
        },
    ) + record_converter_spec(
        cls,
        conv,
        concat_all(record_pieces(fs, |f: Field| record_read_piece(f))),
        concat_all(record_pieces(fs, |f: Field| record_named_piece(f))),
        concat_all(record_pieces(fs, |f: Field| record_alloc_piece(f))),
        concat_all(record_pieces(fs, |f: Field| record_write_piece(f))),
    )
}

fn ctor_param(f: &Field) -> (r: String)
    ensures
        r@ == ctor_param_spec(*f),
{
    let n = var_name(f.name.as_str());
    match &f.default_value {
        Some(lit) => match default_value_text(lit, &f.ty) {
            Some(d) => {
                let head = concat3("this.", n.as_str(), " = ");
                concat3(head.as_str(), d.as_str(), ", ")
            },
            None => concat3("required this.", n.as_str(), ", "),
        },
        None => match &f.ty {
            Type::Optional { .. } => concat3("this.", n.as_str(), ", "),
            _ => concat3("required this.", n.as_str(), ", "),
        },
    }
}

/// Generates the Dart source of a record and registers the types of its
/// fields.
pub fn generate_record(rec: &Record, reg: &mut TypeHelpersRenderer) -> (r: String)
    requires
        old(reg).well_formed(),
        record_fields_typed(*rec),
    ensures
        final(reg).well_formed(),
        r@ == record_text(*rec),
        final(reg).helpers() == register_fields(old(reg).helpers(), rec.fields@),
        final(reg).custom_names() == old(reg).custom_names(),
{
    proof {
        reveal(record_text);
    }
    let cls = class_name(rec.name.as_str());
    let raw_conv = concat2("FfiConverter", rec.name.as_str());
    let conv = class_name(raw_conv.as_str());
    let ghost fs = rec.fields@;
    let ghost d = record_pieces(fs, |f: Field| record_decl_piece(f));
    let ghost c = record_pieces(fs, |f: Field| ctor_param_spec(f));
    let ghost rd = record_pieces(fs, |f: Field| record_read_piece(f));
    let ghost na = record_pieces(fs, |f: Field| record_named_piece(f));
    let ghost al = record_pieces(fs, |f: Field| record_alloc_piece(f));
    let ghost wr = record_pieces(fs, |f: Field| record_write_piece(f));
    let mut decls = String::new();
    let mut params = String::new();
    let mut reads = String::new();
    let mut named = String::new();
    let mut allocs = String::new();
    let mut writes = String::new();
    let n = rec.fields.len();
    proof {
        assert(d.take(0) =~= Seq::<Seq<char>>::empty());
        assert(c.take(0) =~= Seq::<Seq<char>>::empty());
        assert(rd.take(0) =~= Seq::<Seq<char>>::empty());
        assert(na.take(0) =~= Seq::<Seq<char>>::empty());
        assert(al.take(0) =~= Seq::<Seq<char>>::empty());
        assert(wr.take(0) =~= Seq::<Seq<char>>::empty());
    }
    for i in 0..n
        invariant
            n == fs.len(),
            fs == rec.fields@,
            record_fields_typed(*rec),
            d == record_pieces(fs, |f: Field| record_decl_piece(f)),
            c == record_pieces(fs, |f: Field| ctor_param_spec(f)),
            rd == record_pieces(fs, |f: Field| record_read_piece(f)),
            na == record_pieces(fs, |f: Field| record_named_piece(f)),
            al == record_pieces(fs, |f: Field| record_alloc_piece(f)),
            wr == record_pieces(fs, |f: Field| record_write_piece(f)),
            decls@ == concat_all(d.take(i as int)),
            params@ == concat_all(c.take(i as int)),
            reads@ == concat_all(rd.take(i as int)),
            named@ == concat_all(na.take(i as int)),
            allocs@ == concat_all(al.take(i as int)),
            writes@ == concat_all(wr.take(i as int)),
    {
        proof {
            lemma_concat_all_step(d, i as int);
            lemma_concat_all_step(c, i as int);
            lemma_concat_all_step(rd, i as int);
            lemma_concat_all_step(na, i as int);
            lemma_concat_all_step(al, i as int);
            lemma_concat_all_step(wr, i as int);
        }
        let f = &rec.fields[i];
        assert(has_dart_type(fs[i as int].ty));
        let name = var_name(f.name.as_str());
        let ft = generate_type(&f.ty);
        let fconv = ffi_converter_name(&f.ty);
        let value_name = concat2("value.", name.as_str());
        let x = field_decl(ft.as_str(), name.as_str());
        decls.append(x.as_str());
        let x = ctor_param(f);
        params.append(x.as_str());
        let x = read_field(name.as_str(), fconv.as_str());
        reads.append(x.as_str());
        let x = named_arg(name.as_str());
        named.append(x.as_str());
        let x = alloc_field(fconv.as_str(), value_name.as_str());
        allocs.append(x.as_str());
        let x = write_field(fconv.as_str(), value_name.as_str());
        writes.append(x.as_str());
    }
    proof {
        assert(d.take(n as int) =~= d);
        assert(c.take(n as int) =~= c);
        assert(rd.take(n as int) =~= rd);
        assert(na.take(n as int) =~= na);
        assert(al.take(n as int) =~= al);
        assert(wr.take(n as int) =~= wr);
    }
    let ctor = if n == 0 {
        String::from_str("()")
    } else {
        concat3("({", params.as_str(), "})")
    };
    let class_text = record_class(cls.as_str(), decls.as_str(), ctor.as_str());
    let conv_text = record_converter(
        cls.as_str(),
        conv.as_str(),
        reads.as_str(),
        named.as_str(),
        allocs.as_str(),
        writes.as_str(),
    );
    register_field_types(reg, &rec.fields);
    concat2(class_text.as_str(), conv_text.as_str())
}

/// The helper text for a record type: nothing when it is registered
/// already, else the record's source.
pub open spec fn record_helper_text(ci: ComponentInterface, m: Map<Seq<char>, Type>, name: Seq<char>) -> Seq<char> {
    if m.contains_key(name) {
        Seq::empty()
    } else {
        record_text(find_record(ci.records@, name)->0)
    }
}

/// Renders the helper of the record type `name`: nothing when a helper is
/// registered under that name already, else the record's source.
pub fn render_record_helper(ci: &ComponentInterface, reg: &mut TypeHelpersRenderer, name: &str) -> (r: String)
    requires
        old(reg).well_formed(),
        old(reg).helpers().contains_key(name@) || (find_record(ci.records@, name@) matches Some(
            rec,
        ) && record_fields_typed(rec)),
    ensures
        final(reg).well_formed(),
        r@ == record_helper_text(*ci, old(reg).helpers(), name@),
        final(reg).helpers() == (if old(reg).helpers().contains_key(name@) {
            old(reg).helpers()
        } else {
            register_fields(old(reg).helpers(), find_record(ci.records@, name@)->0.fields@)
        }),
        final(reg).custom_names() == old(reg).custom_names(),
{
    if reg.check(name) {
        proof {
            reveal_strlit("");
        }
        String::new()
    } else {
        match ci.get_record(name) {
            Some(rec) => generate_record(rec, reg),
            None => String::new(),
        }
    }
}

} // verus!
