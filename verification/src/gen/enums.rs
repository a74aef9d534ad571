//! Dart classes generated for enums.
use vstd::prelude::*;
use crate::gen::interface::{find_enum, used_as_error, ComponentInterface, Enum, Field, Variant};
use crate::gen::naming::{
    class_name, class_name_spec, enum_variant_name, exception_safe_name, exception_safe_spec,
    lower_camel_case, member_name_spec, to_lower_camel, var_name,
};
use crate::gen::registry::TypeHelpersRenderer;
use crate::gen::text::{
    concat2, concat3, concat_all, contains_spec, join_spec, join_strings, lemma_concat_all_contains,
    lemma_concat_all_step, lemma_contains_extend, lemma_contains_extend_left, lemma_contains_mid,
    lemma_contains_trans, u64_decimal, unsigned_decimal, views,
};
use crate::gen::types::{
    canonical_name, canonical_name_spec, ffi_converter_name, ffi_converter_name_spec, type_label,
    type_label_spec, Type,
};

verus! {

/// The declaration of one variant of a flat enum.
pub open spec fn flat_decl_spec(v: Seq<char>) -> Seq<char> {
    "  "@ +
    v +
    ",\n"@
}

fn flat_decl(v: &str) -> (s: String)
    ensures
        s@ == flat_decl_spec(v@),
{
    let mut s = String::from_str("  ");
    s.append(v);
    s.append(",\n");
    s
}

/// The branch that reads one variant of a flat enum.
pub open spec fn flat_case_spec(idx: Seq<char>, cls: Seq<char>, v: Seq<char>) -> Seq<char> {
    "      case "@ +
    idx +
    ":\n        return LiftRetVal(\n          "@ +
    cls +
    "."@ +
    v +
    ",\n          4,\n        );\n"@
}

fn flat_case(idx: &str, cls: &str, v: &str) -> (s: String)
    ensures
        s@ == flat_case_spec(idx@, cls@, v@),
{
    let mut s = String::from_str("      case ");
    s.append(idx);
    s.append(":\n        return LiftRetVal(\n          ");
    s.append(cls);
    s.append(".");
    s.append(v);
    s.append(",\n          4,\n        );\n");
    s
}

/// A flat enum and its converter class.
pub open spec fn flat_enum_spec(cls: Seq<char>, conv: Seq<char>, decls: Seq<char>, cases: Seq<char>) -> Seq<char> {
    "enum "@ +
    cls +
    " {\n"@ +
    decls +
    "  ;\n}\n\nclass "@ +
    conv +
    " {\n  static LiftRetVal<"@ +
    cls +
    "> read(Uint8List buf) {\n    final index = buf.buffer.asByteData(buf.offsetInBytes).getInt32(0);\n    switch(index) {\n"@ +
    cases +
    "      default:\n        throw UniffiInternalError(UniffiInternalError.unexpectedEnumCase, \"Unable to determine enum variant\");\n    }\n  }\n  static "@ +
    cls +
    " lift(RustBuffer buffer) {\n    return "@ +
    conv +
    ".read(buffer.asUint8List()).value;\n  }\n  static RustBuffer lower("@ +
    cls +
    " input) {\n    return toRustBuffer(createUint8ListFromInt(input.index + 1));\n  }\n  static int allocationSize("@ +
    cls +
    " _value) {\n    return 4;\n  }\n  static int write("@ +
    cls +
    " value, Uint8List buf) {\n    buf.buffer.asByteData(buf.offsetInBytes).setInt32(0, value.index + 1);\n    return 4;\n  }\n}\n"@
}

fn flat_enum(cls: &str, conv: &str, decls: &str, cases: &str) -> (s: String)
    ensures
        s@ == flat_enum_spec(cls@, conv@, decls@, cases@),
{
    let mut s = String::from_str("enum ");
    s.append(cls);
    s.append(" {\n");
    s.append(decls);
    s.append("  ;\n}\n\nclass ");
    s.append(conv);
    s.append(" {\n  static LiftRetVal<");
    s.append(cls);
    s.append("> read(Uint8List buf) {\n    final index = buf.buffer.asByteData(buf.offsetInBytes).getInt32(0);\n    switch(index) {\n");
    s.append(cases);
    s.append("      default:\n        throw UniffiInternalError(UniffiInternalError.unexpectedEnumCase, \"Unable to determine enum variant\");\n    }\n  }\n  static ");
    s.append(cls);
    s.append(" lift(RustBuffer buffer) {\n    return ");
    s.append(conv);
    s.append(".read(buffer.asUint8List()).value;\n  }\n  static RustBuffer lower(");
    s.append(cls);
    s.append(" input) {\n    return toRustBuffer(createUint8ListFromInt(input.index + 1));\n  }\n  static int allocationSize(");
    s.append(cls);
    s.append(" _value) {\n    return 4;\n  }\n  static int write(");
    s.append(cls);
    s.append(" value, Uint8List buf) {\n    buf.buffer.asByteData(buf.offsetInBytes).setInt32(0, value.index + 1);\n    return 4;\n  }\n}\n");
    s
}

/// The declaration of a field of a variant.
pub open spec fn field_decl_spec(ft: Seq<char>, n: Seq<char>) -> Seq<char> {
    "  final "@ +
    ft +
    " "@ +
    n +
    ";\n"@
}

pub(crate) fn field_decl(ft: &str, n: &str) -> (s: String)
    ensures
        s@ == field_decl_spec(ft@, n@),
{
    let mut s = String::from_str("  final ");
    s.append(ft);
    s.append(" ");
    s.append(n);
    s.append(";\n");
    s
}

/// A named, required constructor parameter.
pub open spec fn required_param_spec(ft: Seq<char>, n: Seq<char>) -> Seq<char> {
    "required "@ +
    ft +
    " this."@ +
    n +
    ", "@
}

fn required_param(ft: &str, n: &str) -> (s: String)
    ensures
        s@ == required_param_spec(ft@, n@),
{
    let mut s = String::from_str("required ");
    s.append(ft);
    s.append(" this.");
    s.append(n);
    s.append(", ");
    s
}

/// A positional constructor parameter.
pub open spec fn positional_param_spec(ft: Seq<char>, n: Seq<char>) -> Seq<char> {
    ft +
    " this."@ +
    n +
    ", "@
}

fn positional_param(ft: &str, n: &str) -> (s: String)
    ensures
        s@ == positional_param_spec(ft@, n@),
{
    let mut s = String::from_str(ft);
    s.append(" this.");
    s.append(n);
    s.append(", ");
    s
}

/// Reads a field whose type is a flat enum, written as four bytes.
pub open spec fn read_flat_field_spec(n: Seq<char>, conv: Seq<char>) -> Seq<char> {
    "    final "@ +
    n +
    "_int = buf.buffer.asByteData(new_offset).getInt32(0);\n    final "@ +
    n +
    " = "@ +
    conv +
    ".lift(toRustBuffer(createUint8ListFromInt("@ +
    n +
    "_int)));\n    new_offset += 4;\n"@
}

fn read_flat_field(n: &str, conv: &str) -> (s: String)
    ensures
        s@ == read_flat_field_spec(n@, conv@),
{
    let mut s = String::from_str("    final ");
    s.append(n);
    s.append("_int = buf.buffer.asByteData(new_offset).getInt32(0);\n    final ");
    s.append(n);
    s.append(" = ");
    s.append(conv);
    s.append(".lift(toRustBuffer(createUint8ListFromInt(");
    s.append(n);
    s.append("_int)));\n    new_offset += 4;\n");
    s
}

/// Reads a field through its converter.
pub open spec fn read_field_spec(n: Seq<char>, conv: Seq<char>) -> Seq<char> {
    "    final "@ +
    n +
    "_lifted = "@ +
    conv +
    ".read(Uint8List.view(buf.buffer, new_offset));\n    final "@ +
    n +
    " = "@ +
    n +
    "_lifted.value;\n    new_offset += "@ +
    n +
    "_lifted.bytesRead;\n"@
}

pub(crate) fn read_field(n: &str, conv: &str) -> (s: String)
    ensures
        s@ == read_field_spec(n@, conv@),
{
    let mut s = String::from_str("    final ");
    s.append(n);
    s.append("_lifted = ");
    s.append(conv);
    s.append(".read(Uint8List.view(buf.buffer, new_offset));\n    final ");
    s.append(n);
    s.append(" = ");
    s.append(n);
    s.append("_lifted.value;\n    new_offset += ");
    s.append(n);
    s.append("_lifted.bytesRead;\n");
    s
}

/// The size term of a field.
pub open spec fn alloc_field_spec(conv: Seq<char>, n: Seq<char>) -> Seq<char> {
    conv +
    ".allocationSize("@ +
    n +
    ") + "@
}

pub(crate) fn alloc_field(conv: &str, n: &str) -> (s: String)
    ensures
        s@ == alloc_field_spec(conv@, n@),
{
    let mut s = String::from_str(conv);
    s.append(".allocationSize(");
    s.append(n);
    s.append(") + ");
    s
}

/// Writes a field whose type is a flat enum as four bytes.
pub open spec fn write_flat_field_spec(n: Seq<char>, conv: Seq<char>) -> Seq<char> {
    "    final "@ +
    n +
    "_buffer = "@ +
    conv +
    ".lower("@ +
    n +
    ");\n    final "@ +
    n +
    "_int = "@ +
    n +
    "_buffer.asUint8List().buffer.asByteData().getInt32(0);\n    buf.buffer.asByteData(new_offset).setInt32(0, "@ +
    n +
    "_int);\n    new_offset += 4;\n"@
}

fn write_flat_field(n: &str, conv: &str) -> (s: String)
    ensures
        s@ == write_flat_field_spec(n@, conv@),
{
    let mut s = String::from_str("    final ");
    s.append(n);
    s.append("_buffer = ");
    s.append(conv);
    s.append(".lower(");
    s.append(n);
    s.append(");\n    final ");
    s.append(n);
    s.append("_int = ");
    s.append(n);
    s.append("_buffer.asUint8List().buffer.asByteData().getInt32(0);\n    buf.buffer.asByteData(new_offset).setInt32(0, ");
    s.append(n);
    s.append("_int);\n    new_offset += 4;\n");
    s
}

/// Writes a field through its converter.
pub open spec fn write_field_spec(conv: Seq<char>, n: Seq<char>) -> Seq<char> {
    "    new_offset += "@ +
    conv +
    ".write("@ +
    n +
    ", Uint8List.view(buf.buffer, new_offset));\n"@
}

pub(crate) fn write_field(conv: &str, n: &str) -> (s: String)
    ensures
        s@ == write_field_spec(conv@, n@),
{
    let mut s = String::from_str("    new_offset += ");
    s.append(conv);
    s.append(".write(");
    s.append(n);
    s.append(", Uint8List.view(buf.buffer, new_offset));\n");
    s
}

/// A `toString` that returns the given Dart expression.
pub open spec fn to_string_method_spec(text: Seq<char>) -> Seq<char> {
    "  @override\n  String toString() {\n    return "@ +
    text +
    ";\n  }\n"@
}

pub fn to_string_method(text: &str) -> (s: String)
    ensures
        s@ == to_string_method_spec(text@),
{
    let mut s = String::from_str("  @override\n  String toString() {\n    return ");
    s.append(text);
    s.append(";\n  }\n");
    s
}

/// The class of one variant of an enum with data.
pub open spec fn variant_class_spec(vcls: Seq<char>, cls: Seq<char>, decls: Seq<char>, ctor: Seq<char>, privs: Seq<char>, reads: Seq<char>, args: Seq<char>, allocs: Seq<char>, idx: Seq<char>, writes: Seq<char>, to_string: Seq<char>) -> Seq<char> {
    "class "@ +
    vcls +
    " extends "@ +
    cls +
    " {\n"@ +
    decls +
    "  "@ +
    vcls +
    "("@ +
    ctor +
    ");\n  "@ +
    vcls +
    "._("@ +
    privs +
    ");\n  static LiftRetVal<"@ +
    vcls +
    "> read(Uint8List buf) {\n    int new_offset = buf.offsetInBytes;\n"@ +
    reads +
    "    return LiftRetVal("@ +
    vcls +
    "._("@ +
    args +
    "), new_offset);\n  }\n  @override\n  RustBuffer lower() {\n    final buf = Uint8List(allocationSize());\n    write(buf);\n    return toRustBuffer(buf);\n  }\n  @override\n  int allocationSize() {\n    return "@ +
    allocs +
    "4;\n  }\n  @override\n  int write(Uint8List buf) {\n    buf.buffer.asByteData(buf.offsetInBytes).setInt32(0, "@ +
    idx +
    ");\n    int new_offset = buf.offsetInBytes + 4;\n"@ +
    writes +
    "    return new_offset;\n  }\n"@ +
    to_string +
    "}\n"@
}

fn variant_class(vcls: &str, cls: &str, decls: &str, ctor: &str, privs: &str, reads: &str, args: &str, allocs: &str, idx: &str, writes: &str, to_string: &str) -> (s: String)
    ensures
        s@ == variant_class_spec(vcls@, cls@, decls@, ctor@, privs@, reads@, args@, allocs@, idx@, writes@, to_string@),
{
    let mut s = String::from_str("class ");
    s.append(vcls);
    s.append(" extends ");
    s.append(cls);
    s.append(" {\n");
    s.append(decls);
    s.append("  ");
    s.append(vcls);
    s.append("(");
    s.append(ctor);
    s.append(");\n  ");
    s.append(vcls);
    s.append("._(");
    s.append(privs);
    s.append(");\n  static LiftRetVal<");
    s.append(vcls);
    s.append("> read(Uint8List buf) {\n    int new_offset = buf.offsetInBytes;\n");
    s.append(reads);
    s.append("    return LiftRetVal(");
    s.append(vcls);
    s.append("._(");
    s.append(args);
    s.append("), new_offset);\n  }\n  @override\n  RustBuffer lower() {\n    final buf = Uint8List(allocationSize());\n    write(buf);\n    return toRustBuffer(buf);\n  }\n  @override\n  int allocationSize() {\n    return ");
    s.append(allocs);
    s.append("4;\n  }\n  @override\n  int write(Uint8List buf) {\n    buf.buffer.asByteData(buf.offsetInBytes).setInt32(0, ");
    s.append(idx);
    s.append(");\n    int new_offset = buf.offsetInBytes + 4;\n");
    s.append(writes);
    s.append("    return new_offset;\n  }\n");
    s.append(to_string);
    s.append("}\n");
    s
}

/// The branch that reads one variant of an enum with data.
pub open spec fn complex_case_spec(idx: Seq<char>, vcls: Seq<char>) -> Seq<char> {
    "      case "@ +
    idx +
    ":\n        return "@ +
    vcls +
    ".read(subview);\n"@
}

fn complex_case(idx: &str, vcls: &str) -> (s: String)
    ensures
        s@ == complex_case_spec(idx@, vcls@),
{
    let mut s = String::from_str("      case ");
    s.append(idx);
    s.append(":\n        return ");
    s.append(vcls);
    s.append(".read(subview);\n");
    s
}

/// The error handler class of an error type and its instance.
pub open spec fn error_handler_spec(cls: Seq<char>, lift: Seq<char>, inst: Seq<char>) -> Seq<char> {
    "class "@ +
    cls +
    "ErrorHandler extends UniffiRustCallStatusErrorHandler {\n  @override\n  Exception lift(RustBuffer errorBuf) {\n    return "@ +
    lift +
    ";\n  }\n}\n\nfinal "@ +
    cls +
    "ErrorHandler "@ +
    inst +
    "ErrorHandler = "@ +
    cls +
    "ErrorHandler();\n"@
}

pub fn error_handler(cls: &str, lift: &str, inst: &str) -> (s: String)
    ensures
        s@ == error_handler_spec(cls@, lift@, inst@),
{
    let mut s = String::from_str("class ");
    s.append(cls);
    s.append("ErrorHandler extends UniffiRustCallStatusErrorHandler {\n  @override\n  Exception lift(RustBuffer errorBuf) {\n    return ");
    s.append(lift);
    s.append(";\n  }\n}\n\nfinal ");
    s.append(cls);
    s.append("ErrorHandler ");
    s.append(inst);
    s.append("ErrorHandler = ");
    s.append(cls);
    s.append("ErrorHandler();\n");
    s
}

/// An enum with data: its abstract class, converter class, variant classes and error handler.
pub open spec fn complex_enum_spec(cls: Seq<char>, implements: Seq<char>, conv: Seq<char>, cases: Seq<char>, variants: Seq<char>, handler: Seq<char>) -> Seq<char> {
    "abstract class "@ +
    cls +
    implements +
    " {\n  RustBuffer lower();\n  int allocationSize();\n  int write(Uint8List buf);\n}\n\nclass "@ +
    conv +
    " {\n  static "@ +
    cls +
    " lift(RustBuffer buffer) {\n    return "@ +
    conv +
    ".read(buffer.asUint8List()).value;\n  }\n  static LiftRetVal<"@ +
    cls +
    "> read(Uint8List buf) {\n    final index = buf.buffer.asByteData(buf.offsetInBytes).getInt32(0);\n    final subview = Uint8List.view(buf.buffer, buf.offsetInBytes + 4);\n    switch(index) {\n"@ +
    cases +
    "      default:\n        throw UniffiInternalError(UniffiInternalError.unexpectedEnumCase, \"Unable to determine enum variant\");\n    }\n  }\n  static RustBuffer lower("@ +
    cls +
    " value) {\n    return value.lower();\n  }\n  static int allocationSize("@ +
    cls +
    " value) {\n    return value.allocationSize();\n  }\n  static int write("@ +
    cls +
    " value, Uint8List buf) {\n    return value.write(buf);\n  }\n}\n"@ +
    variants +
    handler
}

fn complex_enum(cls: &str, implements: &str, conv: &str, cases: &str, variants: &str, handler: &str) -> (s: String)
    ensures
        s@ == complex_enum_spec(cls@, implements@, conv@, cases@, variants@, handler@),
{
    let mut s = String::from_str("abstract class ");
    s.append(cls);
    s.append(implements);
    s.append(" {\n  RustBuffer lower();\n  int allocationSize();\n  int write(Uint8List buf);\n}\n\nclass ");
    s.append(conv);
    s.append(" {\n  static ");
    s.append(cls);
    s.append(" lift(RustBuffer buffer) {\n    return ");
    s.append(conv);
    s.append(".read(buffer.asUint8List()).value;\n  }\n  static LiftRetVal<");
    s.append(cls);
    s.append("> read(Uint8List buf) {\n    final index = buf.buffer.asByteData(buf.offsetInBytes).getInt32(0);\n    final subview = Uint8List.view(buf.buffer, buf.offsetInBytes + 4);\n    switch(index) {\n");
    s.append(cases);
    s.append("      default:\n        throw UniffiInternalError(UniffiInternalError.unexpectedEnumCase, \"Unable to determine enum variant\");\n    }\n  }\n  static RustBuffer lower(");
    s.append(cls);
    s.append(" value) {\n    return value.lower();\n  }\n  static int allocationSize(");
    s.append(cls);
    s.append(" value) {\n    return value.allocationSize();\n  }\n  static int write(");
    s.append(cls);
    s.append(" value, Uint8List buf) {\n    return value.write(buf);\n  }\n}\n");
    s.append(variants);
    s.append(handler);
    s
}

/// The Dart name of the `i`-th field: `v` and its position when unnamed.
pub open spec fn field_name_spec(f: Field, i: int) -> Seq<char> {
    if f.name@.len() == 0 {
        "v"@ + unsigned_decimal(i as nat)
    } else {
        member_name_spec(f.name@)
    }
}

/// The Dart type of a field, with `Error` written as `Exception`.
pub open spec fn field_type_spec(f: Field) -> Seq<char> {
    exception_safe_spec(type_label_spec(f.ty))
}

/// The converter class of a field, with `Error` written as `Exception`.
pub open spec fn field_conv_spec(f: Field) -> Seq<char> {
    exception_safe_spec(ffi_converter_name_spec(f.ty))
}

/// Whether the field's type is an enum of the interface that is flat.
pub open spec fn is_flat_enum_field(ci: ComponentInterface, f: Field) -> bool {
    match f.ty {
        Type::Enum { name } => find_enum(ci.enums@, name@) matches Some(e) && e.flat,
        _ => false,
    }
}

/// The class name of a variant of the enum class `cls`.
pub open spec fn variant_cls_name(v: Variant, cls: Seq<char>) -> Seq<char> {
    class_name_spec(v.name@) + cls
}

pub open spec fn decl_piece(f: Field, i: int) -> Seq<char> {
    field_decl_spec(field_type_spec(f), field_name_spec(f, i))
}

pub open spec fn required_piece(f: Field, i: int) -> Seq<char> {
    required_param_spec(field_type_spec(f), field_name_spec(f, i))
}

pub open spec fn positional_piece(f: Field, i: int) -> Seq<char> {
    positional_param_spec(field_type_spec(f), field_name_spec(f, i))
}

pub open spec fn read_piece(ci: ComponentInterface, f: Field, i: int) -> Seq<char> {
    if is_flat_enum_field(ci, f) {
        read_flat_field_spec(field_name_spec(f, i), field_conv_spec(f))
    } else {
        read_field_spec(field_name_spec(f, i), field_conv_spec(f))
    }
}

pub open spec fn arg_piece(f: Field, i: int) -> Seq<char> {
    field_name_spec(f, i) + ", "@
}

pub open spec fn alloc_piece(ci: ComponentInterface, f: Field, i: int) -> Seq<char> {
    if is_flat_enum_field(ci, f) {
        "4 + "@
    } else {
        alloc_field_spec(field_conv_spec(f), field_name_spec(f, i))
    }
}

pub open spec fn write_piece(ci: ComponentInterface, f: Field, i: int) -> Seq<char> {
    if is_flat_enum_field(ci, f) {
        write_flat_field_spec(field_name_spec(f, i), field_conv_spec(f))
    } else {
        write_field_spec(field_conv_spec(f), field_name_spec(f, i))
    }
}

pub open spec fn interp_piece(f: Field, i: int) -> Seq<char> {
    "$"@ + field_name_spec(f, i)
}

/// The pieces `piece(f, i)` of all fields in order.
pub open spec fn field_pieces(fs: Seq<Field>, piece: spec_fn(Field, int) -> Seq<char>) -> Seq<Seq<char>> {
    Seq::new(fs.len(), |i: int| piece(fs[i], i))
}

/// The constructor parameters of a variant: named and required when there
/// are several fields, positional otherwise.
pub open spec fn ctor_params_spec(fs: Seq<Field>) -> Seq<char> {
    if fs.len() > 1 {
        "{"@ + concat_all(field_pieces(fs, |f: Field, i: int| required_piece(f, i))) + "}"@
    } else {
        concat_all(field_pieces(fs, |f: Field, i: int| positional_piece(f, i)))
    }
}

/// The `toString` of a variant of an error enum, showing its fields.
pub open spec fn variant_to_string_spec(fs: Seq<Field>, vcls: Seq<char>, is_error: bool) -> Seq<char> {
    if !is_error {
        Seq::empty()
    } else if fs.len() > 0 {
        to_string_method_spec(
            "\""@ + vcls + "("@ + join_spec(field_pieces(fs, |f: Field, i: int| interp_piece(f, i)), ", "@)
                + ")\""@,
        )
    } else {
        to_string_method_spec("\""@ + vcls + "\""@)
    }
}

/// The class of the variant at position `idx` of an enum with data.
pub open spec fn variant_text_spec(
    ci: ComponentInterface,
    v: Variant,
    idx: int,
    cls: Seq<char>,
    is_error: bool,
) -> Seq<char> {
    let fs = v.fields@;
    let vcls = variant_cls_name(v, cls);
    variant_class_spec_text(ci, fs, vcls, cls, idx, is_error)
}

pub open spec fn variant_class_spec_text(
    ci: ComponentInterface,
    fs: Seq<Field>,
    vcls: Seq<char>,
    cls: Seq<char>,
    idx: int,
    is_error: bool,
) -> Seq<char> {
    variant_class_spec(
        vcls,
        cls,
        concat_all(field_pieces(fs, |f: Field, i: int| decl_piece(f, i))),
        ctor_params_spec(fs),
        concat_all(field_pieces(fs, |f: Field, i: int| positional_piece(f, i))),
        concat_all(field_pieces(fs, |f: Field, i: int| read_piece(ci, f, i))),
        concat_all(field_pieces(fs, |f: Field, i: int| arg_piece(f, i))),
        concat_all(field_pieces(fs, |f: Field, i: int| alloc_piece(ci, f, i))),
        unsigned_decimal((idx + 1) as nat),
        concat_all(field_pieces(fs, |f: Field, i: int| write_piece(ci, f, i))),
        variant_to_string_spec(fs, vcls, is_error),
    )
}

/// Registers the type of each field under its canonical name, in order.
pub open spec fn register_fields(m: Map<Seq<char>, Type>, fs: Seq<Field>) -> Map<Seq<char>, Type>
    decreases fs.len(),
{
    if fs.len() == 0 {
        m
    } else {
        register_fields(m, fs.drop_last()).insert(canonical_name_spec(fs.last().ty), fs.last().ty)
    }
}

/// Registers the field types of each variant, in order.
pub open spec fn register_variants(m: Map<Seq<char>, Type>, vs: Seq<Variant>) -> Map<Seq<char>, Type>
    decreases vs.len(),
{
    if vs.len() == 0 {
        m
    } else {
        register_fields(register_variants(m, vs.drop_last()), vs.last().fields@)
    }
}

/// The Dart source of an enum.
#[verifier::opaque]
pub open spec fn enum_text(ci: ComponentInterface, e: Enum) -> Seq<char> {
    let cls = class_name_spec(e.name@);
    let conv = "FfiConverter"@ + cls;
    let vs = e.variants@;
    if e.flat {
        flat_enum_spec(
            cls,
            conv,
            concat_all(Seq::new(vs.len(), |i: int| flat_decl_spec(member_name_spec(vs[i].name@)))),
            concat_all(
                Seq::new(
                    vs.len(),
                    |i: int| flat_case_spec(unsigned_decimal((i + 1) as nat), cls, member_name_spec(vs[i].name@)),
                ),
            ),
        )
    } else {
        let is_error = used_as_error(ci, e.name@);
        complex_enum_spec(
            cls,
            if is_error {
                " implements Exception"@
            } else {
                Seq::empty()
            },
            conv,
            concat_all(
                Seq::new(
                    vs.len(),
                    |i: int| complex_case_spec(unsigned_decimal((i + 1) as nat), variant_cls_name(vs[i], cls)),
                ),
            ),
            concat_all(Seq::new(vs.len(), |i: int| variant_text_spec(ci, vs[i], i, cls, is_error))),
            if is_error {
                error_handler_spec(cls, conv + ".lift(errorBuf)"@, lower_camel_case(cls))
            } else {
                Seq::empty()
            },
        )
    }
}

/// The registry after generating an enum: flat enums register nothing.
pub open spec fn enum_registry(e: Enum, m: Map<Seq<char>, Type>) -> Map<Seq<char>, Type> {
    if e.flat {
        m
    } else {
        register_variants(m, e.variants@)
    }
}

fn field_name(f: &Field, i: usize) -> (r: String)
    ensures
        r@ == field_name_spec(*f, i as int),
{
    if f.name.as_str().unicode_len() == 0 {
        let d = u64_decimal(i as u64);
        concat2("v", d.as_str())
    } else {
        var_name(f.name.as_str())
    }
}

fn is_flat_enum_field_exec(ci: &ComponentInterface, f: &Field) -> (b: bool)
    ensures
        b == is_flat_enum_field(*ci, *f),
{
    match &f.ty {
        Type::Enum { name } => ci.is_flat_enum_name(name.as_str()),
        _ => false,
    }
}

/// The pieces of a variant that are made field by field.
struct FieldParts {
    decls: String,
    required: String,
    positional: String,
    reads: String,
    args: String,
    allocs: String,
    writes: String,
    interps: Vec<String>,
}

fn field_parts(ci: &ComponentInterface, fs: &Vec<Field>) -> (p: FieldParts)
    ensures
        p.decls@ == concat_all(field_pieces(fs@, |f: Field, i: int| decl_piece(f, i))),
        p.required@ == concat_all(field_pieces(fs@, |f: Field, i: int| required_piece(f, i))),
        p.positional@ == concat_all(field_pieces(fs@, |f: Field, i: int| positional_piece(f, i))),
        p.reads@ == concat_all(field_pieces(fs@, |f: Field, i: int| read_piece(*ci, f, i))),
        p.args@ == concat_all(field_pieces(fs@, |f: Field, i: int| arg_piece(f, i))),
        p.allocs@ == concat_all(field_pieces(fs@, |f: Field, i: int| alloc_piece(*ci, f, i))),
        p.writes@ == concat_all(field_pieces(fs@, |f: Field, i: int| write_piece(*ci, f, i))),
        p.interps@.len() == fs@.len(),
        forall|i: int| 0 <= i < fs@.len() ==> (#[trigger] p.interps@[i])@ == interp_piece(fs@[i], i),
{
    let ghost d = field_pieces(fs@, |f: Field, i: int| decl_piece(f, i));
    let ghost rq = field_pieces(fs@, |f: Field, i: int| required_piece(f, i));
    let ghost po = field_pieces(fs@, |f: Field, i: int| positional_piece(f, i));
    let ghost rd = field_pieces(fs@, |f: Field, i: int| read_piece(*ci, f, i));
    let ghost ar = field_pieces(fs@, |f: Field, i: int| arg_piece(f, i));
    let ghost al = field_pieces(fs@, |f: Field, i: int| alloc_piece(*ci, f, i));
    let ghost wr = field_pieces(fs@, |f: Field, i: int| write_piece(*ci, f, i));
    let mut p = FieldParts {
        decls: String::new(),
        required: String::new(),
        positional: String::new(),
        reads: String::new(),
        args: String::new(),
        allocs: String::new(),
        writes: String::new(),
        interps: Vec::new(),
    };
    let n = fs.len();
    proof {
        assert(d.take(0) =~= Seq::<Seq<char>>::empty());
        assert(rq.take(0) =~= Seq::<Seq<char>>::empty());
        assert(po.take(0) =~= Seq::<Seq<char>>::empty());
        assert(rd.take(0) =~= Seq::<Seq<char>>::empty());
        assert(ar.take(0) =~= Seq::<Seq<char>>::empty());
        assert(al.take(0) =~= Seq::<Seq<char>>::empty());
        assert(wr.take(0) =~= Seq::<Seq<char>>::empty());
    }
    for i in 0..n
        invariant
            n == fs@.len(),
            d == field_pieces(fs@, |f: Field, i: int| decl_piece(f, i)),
            rq == field_pieces(fs@, |f: Field, i: int| required_piece(f, i)),
            po == field_pieces(fs@, |f: Field, i: int| positional_piece(f, i)),
            rd == field_pieces(fs@, |f: Field, i: int| read_piece(*ci, f, i)),
            ar == field_pieces(fs@, |f: Field, i: int| arg_piece(f, i)),
            al == field_pieces(fs@, |f: Field, i: int| alloc_piece(*ci, f, i)),
            wr == field_pieces(fs@, |f: Field, i: int| write_piece(*ci, f, i)),
            p.decls@ == concat_all(d.take(i as int)),
            p.required@ == concat_all(rq.take(i as int)),
            p.positional@ == concat_all(po.take(i as int)),
            p.reads@ == concat_all(rd.take(i as int)),
            p.args@ == concat_all(ar.take(i as int)),
            p.allocs@ == concat_all(al.take(i as int)),
            p.writes@ == concat_all(wr.take(i as int)),
            p.interps@.len() == i,
            forall|j: int| 0 <= j < i ==> (#[trigger] p.interps@[j])@ == interp_piece(fs@[j], j),
    {
        let f = &fs[i];
        let name = field_name(f, i);
        let raw_ty = type_label(&f.ty);
        let ft = exception_safe_name(raw_ty.as_str());
        let raw_conv = ffi_converter_name(&f.ty);
        let conv = exception_safe_name(raw_conv.as_str());
        let flat = is_flat_enum_field_exec(ci, f);
        proof {
            lemma_concat_all_step(d, i as int);
            lemma_concat_all_step(rq, i as int);
            lemma_concat_all_step(po, i as int);
            lemma_concat_all_step(rd, i as int);
            lemma_concat_all_step(ar, i as int);
            lemma_concat_all_step(al, i as int);
            lemma_concat_all_step(wr, i as int);
        }
        let x = field_decl(ft.as_str(), name.as_str());
        p.decls.append(x.as_str());
        let x = required_param(ft.as_str(), name.as_str());
        p.required.append(x.as_str());
        let x = positional_param(ft.as_str(), name.as_str());
        p.positional.append(x.as_str());
        let x = if flat {
            read_flat_field(name.as_str(), conv.as_str())
        } else {
            read_field(name.as_str(), conv.as_str())
        };
        p.reads.append(x.as_str());
        p.args.append(name.as_str());
        p.args.append(", ");
        if flat {
            p.allocs.append("4 + ");
        } else {
            let x = alloc_field(conv.as_str(), name.as_str());
            p.allocs.append(x.as_str());
        }
        let x = if flat {
            write_flat_field(name.as_str(), conv.as_str())
        } else {
            write_field(conv.as_str(), name.as_str())
        };
        p.writes.append(x.as_str());
        p.interps.push(concat2("$", name.as_str()));
    }
    proof {
        assert(d.take(n as int) =~= d);
        assert(rq.take(n as int) =~= rq);
        assert(po.take(n as int) =~= po);
        assert(rd.take(n as int) =~= rd);
        assert(ar.take(n as int) =~= ar);
        assert(al.take(n as int) =~= al);
        assert(wr.take(n as int) =~= wr);
    }
    p
}


fn variant_text(ci: &ComponentInterface, v: &Variant, idx: usize, cls: &str, is_error: bool) -> (r: String)
    requires
        idx < usize::MAX,
    ensures
        r@ == variant_text_spec(*ci, *v, idx as int, cls@, is_error),
{
    let vn = class_name(v.name.as_str());
    let vcls = concat2(vn.as_str(), cls);
    let p = field_parts(ci, &v.fields);
    let ctor = if v.fields.len() > 1 {
        concat3("{", p.required.as_str(), "}")
    } else {
        p.positional.clone()
    };
    let idx_text = u64_decimal((idx + 1) as u64);
    let to_string = if !is_error {
        String::new()
    } else if v.fields.len() > 0 {
        let joined = join_strings(&p.interps, ", ");
        proof {
            assert(views(p.interps@) =~= field_pieces(v.fields@, |f: Field, i: int| interp_piece(f, i)));
        }
        let head = concat3("\"", vcls.as_str(), "(");
        let text = concat3(head.as_str(), joined.as_str(), ")\"");
        to_string_method(text.as_str())
    } else {
        let text = concat3("\"", vcls.as_str(), "\"");
        to_string_method(text.as_str())
    };
    variant_class(
        vcls.as_str(),
        cls,
        p.decls.as_str(),
        ctor.as_str(),
        p.positional.as_str(),
        p.reads.as_str(),
        p.args.as_str(),
        p.allocs.as_str(),
        idx_text.as_str(),
        p.writes.as_str(),
        to_string.as_str(),
    )
}

pub(crate) proof fn lemma_register_fields_step(m: Map<Seq<char>, Type>, fs: Seq<Field>, j: int)
    requires
        0 <= j < fs.len(),
    ensures
        register_fields(m, fs.take(j + 1)) == register_fields(m, fs.take(j)).insert(
            canonical_name_spec(fs[j].ty),
            fs[j].ty,
        ),
{
    assert(fs.take(j + 1).drop_last() =~= fs.take(j));
}

proof fn lemma_register_variants_step(m: Map<Seq<char>, Type>, vs: Seq<Variant>, i: int)
    requires
        0 <= i < vs.len(),
    ensures
        register_variants(m, vs.take(i + 1)) == register_fields(register_variants(m, vs.take(i)), vs[i].fields@),
{
    assert(vs.take(i + 1).drop_last() =~= vs.take(i));
}

pub(crate) fn register_field_types(reg: &mut TypeHelpersRenderer, fs: &Vec<Field>)
    requires
        old(reg).well_formed(),
    ensures
        final(reg).well_formed(),
        final(reg).helpers() == register_fields(old(reg).helpers(), fs@),
        final(reg).custom_names() == old(reg).custom_names(),
{
    let ghost m0 = reg.helpers();
    let ghost c0 = reg.custom_names();
    let n = fs.len();
    assert(fs@.take(0) =~= Seq::<Field>::empty());
    for j in 0..n
        invariant
            n == fs@.len(),
            reg.well_formed(),
            reg.helpers() == register_fields(m0, fs@.take(j as int)),
            reg.custom_names() == c0,
    {
        proof {
            lemma_register_fields_step(m0, fs@, j as int);
        }
        let canon = canonical_name(&fs[j].ty);
        reg.include_once_check(canon.as_str(), &fs[j].ty);
    }
    assert(fs@.take(n as int) =~= fs@);
}

/// Generates the Dart source of an enum and registers the types of the
/// fields of its variants.
pub fn generate_enum(ci: &ComponentInterface, e: &Enum, reg: &mut TypeHelpersRenderer) -> (r: String)
    requires
        old(reg).well_formed(),
    ensures
        final(reg).well_formed(),
        r@ == enum_text(*ci, *e),
        final(reg).helpers() == enum_registry(*e, old(reg).helpers()),
        final(reg).custom_names() == old(reg).custom_names(),
{
    proof {
        reveal(enum_text);
    }
    let cls = class_name(e.name.as_str());
    let conv = concat2("FfiConverter", cls.as_str());
    let n = e.variants.len();
    let ghost vs = e.variants@;
    if e.flat {
        let ghost dp = Seq::new(vs.len(), |i: int| flat_decl_spec(member_name_spec(vs[i].name@)));
        let ghost cp = Seq::new(
            vs.len(),
            |i: int| flat_case_spec(unsigned_decimal((i + 1) as nat), cls@, member_name_spec(vs[i].name@)),
        );
        let mut decls = String::new();
        let mut cases = String::new();
        assert(dp.take(0) =~= Seq::<Seq<char>>::empty());
        assert(cp.take(0) =~= Seq::<Seq<char>>::empty());
        for i in 0..n
            invariant
                n == vs.len(),
                vs == e.variants@,
                dp == Seq::new(vs.len(), |i: int| flat_decl_spec(member_name_spec(vs[i].name@))),
                cp == Seq::new(
                    vs.len(),
                    |i: int| flat_case_spec(unsigned_decimal((i + 1) as nat), cls@, member_name_spec(vs[i].name@)),
                ),
                decls@ == concat_all(dp.take(i as int)),
                cases@ == concat_all(cp.take(i as int)),
        {
            proof {
                lemma_concat_all_step(dp, i as int);
                lemma_concat_all_step(cp, i as int);
            }
            let v = enum_variant_name(e.variants[i].name.as_str());
            let d = flat_decl(v.as_str());
            decls.append(d.as_str());
            let idx = u64_decimal((i + 1) as u64);
            let c = flat_case(idx.as_str(), cls.as_str(), v.as_str());
            cases.append(c.as_str());
        }
        assert(dp.take(n as int) =~= dp);
        assert(cp.take(n as int) =~= cp);
        flat_enum(cls.as_str(), conv.as_str(), decls.as_str(), cases.as_str())
    } else {
        let is_error = ci.is_name_used_as_error(e.name.as_str());
        let ghost m0 = reg.helpers();
        let ghost c0 = reg.custom_names();
        let ghost cp = Seq::new(
            vs.len(),
            |i: int| complex_case_spec(unsigned_decimal((i + 1) as nat), variant_cls_name(vs[i], cls@)),
        );
        let ghost vp = Seq::new(vs.len(), |i: int| variant_text_spec(*ci, vs[i], i, cls@, is_error));
        let mut cases = String::new();
        let mut variants = String::new();
        assert(vs.take(0) =~= Seq::<Variant>::empty());
        assert(cp.take(0) =~= Seq::<Seq<char>>::empty());
        assert(vp.take(0) =~= Seq::<Seq<char>>::empty());
        for i in 0..n
            invariant
                n == vs.len(),
                vs == e.variants@,
                reg.well_formed(),
                reg.helpers() == register_variants(m0, vs.take(i as int)),
                reg.custom_names() == c0,
                cp == Seq::new(
                    vs.len(),
                    |i: int| complex_case_spec(unsigned_decimal((i + 1) as nat), variant_cls_name(vs[i], cls@)),
                ),
                vp == Seq::new(vs.len(), |i: int| variant_text_spec(*ci, vs[i], i, cls@, is_error)),
                cases@ == concat_all(cp.take(i as int)),
                variants@ == concat_all(vp.take(i as int)),
        {
            proof {
                lemma_register_variants_step(m0, vs, i as int);
                lemma_concat_all_step(cp, i as int);
                lemma_concat_all_step(vp, i as int);
            }
            let v = &e.variants[i];
            register_field_types(reg, &v.fields);
            let vn = class_name(v.name.as_str());
            let vcls = concat2(vn.as_str(), cls.as_str());
            let idx = u64_decimal((i + 1) as u64);
            let c = complex_case(idx.as_str(), vcls.as_str());
            cases.append(c.as_str());
            let t = variant_text(ci, v, i, cls.as_str(), is_error);
            variants.append(t.as_str());
        }
        assert(vs.take(n as int) =~= vs);
        assert(cp.take(n as int) =~= cp);
        assert(vp.take(n as int) =~= vp);
        let implements = if is_error {
            String::from_str(" implements Exception")
        } else {
            String::new()
        };
        let handler = if is_error {
            let lift = concat2(conv.as_str(), ".lift(errorBuf)");
            let inst = to_lower_camel(cls.as_str());
            error_handler(cls.as_str(), lift.as_str(), inst.as_str())
        } else {
            String::new()
        };
        complex_enum(
            cls.as_str(),
            implements.as_str(),
            conv.as_str(),
            cases.as_str(),
            variants.as_str(),
            handler.as_str(),
        )
    }
}


/// An enum with data reads each variant back under the number that
/// variant writes: the `i`-th variant (counting from 0) is read in the
/// converter's `case i + 1`, the enum's source holds that variant's class,
/// and its `write` stores `i + 1`.
pub proof fn enum_variant_indices_agree(ci: ComponentInterface, e: Enum, i: int)
    requires
        !e.flat,
        0 <= i < e.variants@.len(),
    ensures
        contains_spec(
            enum_text(ci, e),
            "case "@ + unsigned_decimal((i + 1) as nat) + ":\n        return "@ + variant_cls_name(
                e.variants@[i],
                class_name_spec(e.name@),
            ) + ".read(subview);"@,
        ),
        contains_spec(
            enum_text(ci, e),
            variant_text_spec(ci, e.variants@[i], i, class_name_spec(e.name@), used_as_error(ci, e.name@)),
        ),
        contains_spec(
            variant_text_spec(ci, e.variants@[i], i, class_name_spec(e.name@), used_as_error(ci, e.name@)),
            "int write(Uint8List buf) {\n    buf.buffer.asByteData(buf.offsetInBytes).setInt32(0, "@
                + unsigned_decimal((i + 1) as nat) + ");"@,
        ),
{
    lemma_enum_read_case(ci, e, i);
    lemma_enum_holds_variant(ci, e, i);
    lemma_variant_write_index(ci, e, i);
}

proof fn lemma_enum_read_case(ci: ComponentInterface, e: Enum, i: int)
    requires
        !e.flat,
        0 <= i < e.variants@.len(),
    ensures
        contains_spec(
            enum_text(ci, e),
            "case "@ + unsigned_decimal((i + 1) as nat) + ":\n        return "@ + variant_cls_name(
                e.variants@[i],
                class_name_spec(e.name@),
            ) + ".read(subview);"@,
        ),
{
    reveal(enum_text);
    broadcast use lemma_contains_extend, lemma_contains_extend_left;
    let cls = class_name_spec(e.name@);
    let vs = e.variants@;
    let idx = unsigned_decimal((i + 1) as nat);
    let vcls = variant_cls_name(vs[i], cls);
    let p = "case "@ + idx + ":\n        return "@ + vcls + ".read(subview);"@;
    let q = complex_case_spec(idx, vcls);
    reveal_strlit("      case ");
    reveal_strlit("      ");
    reveal_strlit("case ");
    reveal_strlit(".read(subview);\n");
    reveal_strlit(".read(subview);");
    reveal_strlit("\n");
    assert(q =~= "      "@ + p + "\n"@);
    lemma_contains_mid("      "@, p, "\n"@);
    let ps = Seq::new(vs.len(), |k: int| complex_case_spec(unsigned_decimal((k + 1) as nat), variant_cls_name(vs[k], cls)));
    lemma_concat_all_contains(ps, i);
    lemma_contains_trans(concat_all(ps), q, p);
    assert(contains_spec(enum_text(ci, e), p));
}

proof fn lemma_enum_holds_variant(ci: ComponentInterface, e: Enum, i: int)
    requires
        !e.flat,
        0 <= i < e.variants@.len(),
    ensures
        contains_spec(
            enum_text(ci, e),
            variant_text_spec(ci, e.variants@[i], i, class_name_spec(e.name@), used_as_error(ci, e.name@)),
        ),
{
    reveal(enum_text);
    broadcast use lemma_contains_extend, lemma_contains_extend_left;
    let cls = class_name_spec(e.name@);
    let vs = e.variants@;
    let is_error = used_as_error(ci, e.name@);
    let ps = Seq::new(vs.len(), |k: int| variant_text_spec(ci, vs[k], k, cls, is_error));
    lemma_concat_all_contains(ps, i);
    assert(contains_spec(enum_text(ci, e), ps[i]));
}

proof fn lemma_variant_write_index(ci: ComponentInterface, e: Enum, i: int)
    requires
        0 <= i < e.variants@.len(),
    ensures
        contains_spec(
            variant_text_spec(ci, e.variants@[i], i, class_name_spec(e.name@), used_as_error(ci, e.name@)),
            "int write(Uint8List buf) {\n    buf.buffer.asByteData(buf.offsetInBytes).setInt32(0, "@
                + unsigned_decimal((i + 1) as nat) + ");"@,
        ),
{
    broadcast use lemma_contains_extend;
    let idx = unsigned_decimal((i + 1) as nat);
    let lb = "4;\n  }\n  @override\n  int write(Uint8List buf) {\n    buf.buffer.asByteData(buf.offsetInBytes).setInt32(0, "@;
    let la = ");\n    int new_offset = buf.offsetInBytes + 4;\n"@;
    let u = "4;\n  }\n  @override\n  "@;
    let v = "int write(Uint8List buf) {\n    buf.buffer.asByteData(buf.offsetInBytes).setInt32(0, "@;
    let w = ");"@;
    let x = "\n    int new_offset = buf.offsetInBytes + 4;\n"@;
    reveal_strlit("4;\n  }\n  @override\n  int write(Uint8List buf) {\n    buf.buffer.asByteData(buf.offsetInBytes).setInt32(0, ");
    reveal_strlit(");\n    int new_offset = buf.offsetInBytes + 4;\n");
    reveal_strlit("4;\n  }\n  @override\n  ");
    reveal_strlit("int write(Uint8List buf) {\n    buf.buffer.asByteData(buf.offsetInBytes).setInt32(0, ");
    reveal_strlit(");");
    reveal_strlit("\n    int new_offset = buf.offsetInBytes + 4;\n");
    let p = v + idx + w;
    assert forall|a: Seq<char>| #[trigger] contains_spec(a + lb + idx + la, p) by {
        assert(lb =~= u + v);
        assert(la =~= w + x);
        assert(a + lb + idx + la =~= (a + u) + p + x);
        lemma_contains_mid(a + u, p, x);
    }
    assert(contains_spec(
        variant_text_spec(ci, e.variants@[i], i, class_name_spec(e.name@), used_as_error(ci, e.name@)),
        p,
    ));
}


/// A flat enum reads each variant back under the number its converter
/// writes: the `i`-th variant (counting from 0) is read in `case i + 1`,
/// which gives that variant, and `write` stores a value's index plus one.
pub proof fn flat_enum_indices_agree(ci: ComponentInterface, e: Enum, i: int)
    requires
        e.flat,
        0 <= i < e.variants@.len(),
    ensures
        contains_spec(
            enum_text(ci, e),
            "case "@ + unsigned_decimal((i + 1) as nat) + ":\n        return LiftRetVal(\n          "@ + class_name_spec(
                e.name@,
            ) + "."@ + member_name_spec(e.variants@[i].name@),
        ),
        contains_spec(enum_text(ci, e), "setInt32(0, value.index + 1);"@),
{
    lemma_flat_read_case(ci, e, i);
    lemma_flat_write_index(ci, e);
}

proof fn lemma_flat_read_case(ci: ComponentInterface, e: Enum, i: int)
    requires
        e.flat,
        0 <= i < e.variants@.len(),
    ensures
        contains_spec(
            enum_text(ci, e),
            "case "@ + unsigned_decimal((i + 1) as nat) + ":\n        return LiftRetVal(\n          "@ + class_name_spec(
                e.name@,
            ) + "."@ + member_name_spec(e.variants@[i].name@),
        ),
{
    reveal(enum_text);
    broadcast use lemma_contains_extend, lemma_contains_extend_left;
    let cls = class_name_spec(e.name@);
    let vs = e.variants@;
    let idx = unsigned_decimal((i + 1) as nat);
    let v = member_name_spec(vs[i].name@);
    let p = "case "@ + idx + ":\n        return LiftRetVal(\n          "@ + cls + "."@ + v;
    let q = flat_case_spec(idx, cls, v);
    reveal_strlit("      case ");
    reveal_strlit("      ");
    reveal_strlit("case ");
    assert(q =~= "      "@ + p + ",\n          4,\n        );\n"@);
    lemma_contains_mid("      "@, p, ",\n          4,\n        );\n"@);
    let ps = Seq::new(
        vs.len(),
        |k: int| flat_case_spec(unsigned_decimal((k + 1) as nat), cls, member_name_spec(vs[k].name@)),
    );
    lemma_concat_all_contains(ps, i);
    lemma_contains_trans(concat_all(ps), q, p);
    assert(contains_spec(enum_text(ci, e), p));
}

proof fn lemma_flat_write_index(ci: ComponentInterface, e: Enum)
    requires
        e.flat,
    ensures
        contains_spec(enum_text(ci, e), "setInt32(0, value.index + 1);"@),
{
    reveal(enum_text);
    broadcast use lemma_contains_extend, lemma_contains_extend_left;
    let lit = " value, Uint8List buf) {\n    buf.buffer.asByteData(buf.offsetInBytes).setInt32(0, value.index + 1);\n    return 4;\n  }\n}\n"@;
    let a = " value, Uint8List buf) {\n    buf.buffer.asByteData(buf.offsetInBytes)."@;
    let p = "setInt32(0, value.index + 1);"@;
    let b = "\n    return 4;\n  }\n}\n"@;
    reveal_strlit(" value, Uint8List buf) {\n    buf.buffer.asByteData(buf.offsetInBytes).setInt32(0, value.index + 1);\n    return 4;\n  }\n}\n");
    reveal_strlit(" value, Uint8List buf) {\n    buf.buffer.asByteData(buf.offsetInBytes).");
    reveal_strlit("setInt32(0, value.index + 1);");
    reveal_strlit("\n    return 4;\n  }\n}\n");
    assert(lit =~= a + p + b);
    lemma_contains_mid(a, p, b);
    assert(contains_spec(enum_text(ci, e), p));
}

} // verus!
