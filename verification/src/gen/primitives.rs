//! Literals and the converter classes of primitive types.
use vstd::prelude::*;
use crate::gen::text::{concat2, concat3, contains, contains_spec, lemma_contains_extend, lemma_contains_mid, replace_all, replace_all_spec, i64_decimal, prefixed_hex, signed_decimal, u64_decimal, u64_prefixed_hex, unsigned_decimal};
use crate::gen::types::{
    builtin_canonical, builtin_label, builtin_canonical_spec, builtin_label_spec, canonical_name_spec, type_label_spec, Type,
};
use vstd::arithmetic::power2::{lemma2_to64, lemma2_to64_rest, pow2};

verus! {

/// The base a numeric literal was written in.
#[derive(Clone, Copy, Debug, PartialEq, Eq, Structural)]
pub enum Radix {
    Decimal,
    Octal,
    Hexadecimal,
}

/// A literal value of the interface, such as a default value.
#[derive(Debug)]
pub enum Literal {
    Boolean(bool),
    String(String),
    UInt(u64, Radix, Type),
    Int(i64, Radix, Type),
    Float(String, Type),
    Enum(String, Type),
    EmptySequence,
    EmptyMap,
    Null,
    Present { inner: Box<Literal> },
    /// The default value of the type, left unwritten.
    Default,
}

/// Whether a numeric literal may have type `t`.
pub open spec fn is_number_type(t: Type) -> bool {
    match t {
        Type::Int8 | Type::UInt8 | Type::Int16 | Type::UInt16 | Type::Int32 | Type::UInt32
        | Type::UInt64 | Type::Float32 | Type::Float64 | Type::Duration => true,
        _ => false,
    }
}

/// Whether `render_literal` gives a text for `lit`: booleans, strings, and
/// numbers of a numeric type.
pub open spec fn is_renderable_literal(lit: Literal) -> bool {
    match lit {
        Literal::Boolean(_) | Literal::String(_) => true,
        Literal::UInt(_, _, t) | Literal::Int(_, _, t) | Literal::Float(_, t) => is_number_type(t),
        _ => false,
    }
}

/// The Dart text of a literal. Hexadecimal and octal numbers are written in
/// `0x` hexadecimal; negative numbers in hexadecimal as their 64-bit two's
/// complement.
pub open spec fn literal_text(lit: Literal) -> Seq<char> {
    match lit {
        Literal::Boolean(v) => if v {
            "true"@
        } else {
            "false"@
        },
        Literal::String(s) => "'"@ + s@ + "'"@,
        Literal::UInt(i, radix, _) => match radix {
            Radix::Decimal => unsigned_decimal(i as nat),
            _ => prefixed_hex(i as nat),
        },
        Literal::Int(i, radix, _) => match radix {
            Radix::Decimal => signed_decimal(i as int),
            _ => prefixed_hex((i as u64) as nat),
        },
        Literal::Float(s, _) => s@,
        _ => Seq::empty(),
    }
}

/// Renders a literal as Dart source.
pub fn render_literal(lit: &Literal) -> (r: String)
    requires
        is_renderable_literal(*lit),
    ensures
        r@ == literal_text(*lit),
{
    match lit {
        Literal::Boolean(v) => if *v {
            String::from_str("true")
        } else {
            String::from_str("false")
        },
        Literal::String(s) => concat3("'", s.as_str(), "'"),
        Literal::UInt(i, radix, _) => match radix {
            Radix::Decimal => u64_decimal(*i),
            _ => u64_prefixed_hex(*i),
        },
        Literal::Int(i, radix, _) => match radix {
            Radix::Decimal => i64_decimal(*i),
            _ => u64_prefixed_hex(*i as u64),
        },
        Literal::Float(s, _) => s.clone(),
        _ => String::new(),
    }
}

/// The converter class of an integer type whose values are checked against its bounds when lowered.
pub open spec fn bounded_int_helper_spec(cl: Seq<char>, ts: Seq<char>, conv: Seq<char>, size: Seq<char>, min: Seq<char>, max: Seq<char>, rust: Seq<char>) -> Seq<char> {
    "class "@ +
    cl +
    " {\n  static "@ +
    ts +
    " lift("@ +
    ts +
    " value) => value;\n  static LiftRetVal<"@ +
    ts +
    "> read(Uint8List buf) {\n    return LiftRetVal(buf.buffer.asByteData(buf.offsetInBytes).get"@ +
    conv +
    "(0), "@ +
    size +
    ");\n  }\n  static "@ +
    ts +
    " lower("@ +
    ts +
    " value) {\n    if (value < "@ +
    min +
    " || value > "@ +
    max +
    ") {\n      throw ArgumentError(\"Value out of range for "@ +
    rust +
    ": \" + value.toString());\n    }\n    return value;\n  }\n  static int allocationSize(["@ +
    ts +
    " value = 0]) {\n    return "@ +
    size +
    ";\n  }\n  static int write("@ +
    ts +
    " value, Uint8List buf) {\n    buf.buffer.asByteData(buf.offsetInBytes).set"@ +
    conv +
    "(0, lower(value));\n    return "@ +
    size +
    ";\n  }\n}\n"@
}

fn bounded_int_helper(cl: &String, ts: &String, conv: &String, size: &String, min: &String, max: &String, rust: &String) -> (s: String)
    ensures
        s@ == bounded_int_helper_spec(cl@, ts@, conv@, size@, min@, max@, rust@),
{
    let mut s = String::from_str("class ");
    s.append(cl.as_str());
    s.append(" {\n  static ");
    s.append(ts.as_str());
    s.append(" lift(");
    s.append(ts.as_str());
    s.append(" value) => value;\n  static LiftRetVal<");
    s.append(ts.as_str());
    s.append("> read(Uint8List buf) {\n    return LiftRetVal(buf.buffer.asByteData(buf.offsetInBytes).get");
    s.append(conv.as_str());
    s.append("(0), ");
    s.append(size.as_str());
    s.append(");\n  }\n  static ");
    s.append(ts.as_str());
    s.append(" lower(");
    s.append(ts.as_str());
    s.append(" value) {\n    if (value < ");
    s.append(min.as_str());
    s.append(" || value > ");
    s.append(max.as_str());
    s.append(") {\n      throw ArgumentError(\"Value out of range for ");
    s.append(rust.as_str());
    s.append(": \" + value.toString());\n    }\n    return value;\n  }\n  static int allocationSize([");
    s.append(ts.as_str());
    s.append(" value = 0]) {\n    return ");
    s.append(size.as_str());
    s.append(";\n  }\n  static int write(");
    s.append(ts.as_str());
    s.append(" value, Uint8List buf) {\n    buf.buffer.asByteData(buf.offsetInBytes).set");
    s.append(conv.as_str());
    s.append("(0, lower(value));\n    return ");
    s.append(size.as_str());
    s.append(";\n  }\n}\n");
    s
}

/// The converter class of a floating-point type.
pub open spec fn float_helper_spec(cl: Seq<char>, ts: Seq<char>, conv: Seq<char>, size: Seq<char>, endian: Seq<char>) -> Seq<char> {
    "class "@ +
    cl +
    " {\n  static "@ +
    ts +
    " lift("@ +
    ts +
    " value) => value;\n  static LiftRetVal<"@ +
    ts +
    "> read(Uint8List buf) {\n    return LiftRetVal(buf.buffer.asByteData(buf.offsetInBytes).get"@ +
    conv +
    "(0), "@ +
    size +
    ");\n  }\n  static "@ +
    ts +
    " lower("@ +
    ts +
    " value) => value;\n  static int allocationSize(["@ +
    ts +
    " value = 0]) {\n    return "@ +
    size +
    ";\n  }\n  static int write("@ +
    ts +
    " value, Uint8List buf) {\n    buf.buffer.asByteData(buf.offsetInBytes).set"@ +
    conv +
    "(0, value"@ +
    endian +
    ");\n    return "@ +
    cl +
    ".allocationSize();\n  }\n}\n"@
}

fn float_helper(cl: &String, ts: &String, conv: &String, size: &String, endian: &String) -> (s: String)
    ensures
        s@ == float_helper_spec(cl@, ts@, conv@, size@, endian@),
{
    let mut s = String::from_str("class ");
    s.append(cl.as_str());
    s.append(" {\n  static ");
    s.append(ts.as_str());
    s.append(" lift(");
    s.append(ts.as_str());
    s.append(" value) => value;\n  static LiftRetVal<");
    s.append(ts.as_str());
    s.append("> read(Uint8List buf) {\n    return LiftRetVal(buf.buffer.asByteData(buf.offsetInBytes).get");
    s.append(conv.as_str());
    s.append("(0), ");
    s.append(size.as_str());
    s.append(");\n  }\n  static ");
    s.append(ts.as_str());
    s.append(" lower(");
    s.append(ts.as_str());
    s.append(" value) => value;\n  static int allocationSize([");
    s.append(ts.as_str());
    s.append(" value = 0]) {\n    return ");
    s.append(size.as_str());
    s.append(";\n  }\n  static int write(");
    s.append(ts.as_str());
    s.append(" value, Uint8List buf) {\n    buf.buffer.asByteData(buf.offsetInBytes).set");
    s.append(conv.as_str());
    s.append("(0, value");
    s.append(endian.as_str());
    s.append(");\n    return ");
    s.append(cl.as_str());
    s.append(".allocationSize();\n  }\n}\n");
    s
}

/// The converter class of `u64`, whose values are checked to be non-negative when lowered.
pub open spec fn u64_helper_spec(cl: Seq<char>, ts: Seq<char>) -> Seq<char> {
    "class "@ +
    cl +
    " {\n  static "@ +
    ts +
    " lift("@ +
    ts +
    " value) => value;\n  static LiftRetVal<"@ +
    ts +
    "> read(Uint8List buf) {\n    return LiftRetVal(buf.buffer.asByteData(buf.offsetInBytes).getUint64(0), 8);\n  }\n  static "@ +
    ts +
    " lower("@ +
    ts +
    " value) {\n    if (value < 0) {\n      throw ArgumentError(\"Value out of range for u64: \" + value.toString());\n    }\n    return value;\n  }\n  static int allocationSize(["@ +
    ts +
    " value = 0]) {\n    return 8;\n  }\n  static int write("@ +
    ts +
    " value, Uint8List buf) {\n    buf.buffer.asByteData(buf.offsetInBytes).setUint64(0, lower(value));\n    return 8;\n  }\n}\n"@
}

fn u64_helper(cl: &String, ts: &String) -> (s: String)
    ensures
        s@ == u64_helper_spec(cl@, ts@),
{
    let mut s = String::from_str("class ");
    s.append(cl.as_str());
    s.append(" {\n  static ");
    s.append(ts.as_str());
    s.append(" lift(");
    s.append(ts.as_str());
    s.append(" value) => value;\n  static LiftRetVal<");
    s.append(ts.as_str());
    s.append("> read(Uint8List buf) {\n    return LiftRetVal(buf.buffer.asByteData(buf.offsetInBytes).getUint64(0), 8);\n  }\n  static ");
    s.append(ts.as_str());
    s.append(" lower(");
    s.append(ts.as_str());
    s.append(" value) {\n    if (value < 0) {\n      throw ArgumentError(\"Value out of range for u64: \" + value.toString());\n    }\n    return value;\n  }\n  static int allocationSize([");
    s.append(ts.as_str());
    s.append(" value = 0]) {\n    return 8;\n  }\n  static int write(");
    s.append(ts.as_str());
    s.append(" value, Uint8List buf) {\n    buf.buffer.asByteData(buf.offsetInBytes).setUint64(0, lower(value));\n    return 8;\n  }\n}\n");
    s
}

/// The converter class of byte arrays.
pub open spec fn bytes_helper_spec(cl: Seq<char>, ts: Seq<char>) -> Seq<char> {
    "class "@ +
    cl +
    " {\n  static "@ +
    ts +
    " lift(RustBuffer value) {\n    return "@ +
    cl +
    ".read(value.asUint8List()).value;\n  }\n  static LiftRetVal<"@ +
    ts +
    "> read(Uint8List buf) {\n    final length = buf.buffer.asByteData(buf.offsetInBytes).getInt32(0);\n    final bytes = Uint8List.view(buf.buffer, buf.offsetInBytes + 4, length);\n    return LiftRetVal(bytes, length + 4);\n  }\n  static RustBuffer lower("@ +
    ts +
    " value) {\n    final buf = Uint8List(allocationSize(value));\n    write(value, buf);\n    return toRustBuffer(buf);\n  }\n  static int allocationSize(["@ +
    ts +
    "? value]) {\n    if (value == null) {\n      return 4;\n    }\n    return 4 + value.length;\n  }\n  static int write("@ +
    ts +
    " value, Uint8List buf) {\n    buf.buffer.asByteData(buf.offsetInBytes).setInt32(0, value.length);\n    buf.setRange(4, 4 + value.length, value);\n    return 4 + value.length;\n  }\n}\n"@
}

fn bytes_helper(cl: &String, ts: &String) -> (s: String)
    ensures
        s@ == bytes_helper_spec(cl@, ts@),
{
    let mut s = String::from_str("class ");
    s.append(cl.as_str());
    s.append(" {\n  static ");
    s.append(ts.as_str());
    s.append(" lift(RustBuffer value) {\n    return ");
    s.append(cl.as_str());
    s.append(".read(value.asUint8List()).value;\n  }\n  static LiftRetVal<");
    s.append(ts.as_str());
    s.append("> read(Uint8List buf) {\n    final length = buf.buffer.asByteData(buf.offsetInBytes).getInt32(0);\n    final bytes = Uint8List.view(buf.buffer, buf.offsetInBytes + 4, length);\n    return LiftRetVal(bytes, length + 4);\n  }\n  static RustBuffer lower(");
    s.append(ts.as_str());
    s.append(" value) {\n    final buf = Uint8List(allocationSize(value));\n    write(value, buf);\n    return toRustBuffer(buf);\n  }\n  static int allocationSize([");
    s.append(ts.as_str());
    s.append("? value]) {\n    if (value == null) {\n      return 4;\n    }\n    return 4 + value.length;\n  }\n  static int write(");
    s.append(ts.as_str());
    s.append(" value, Uint8List buf) {\n    buf.buffer.asByteData(buf.offsetInBytes).setInt32(0, value.length);\n    buf.setRange(4, 4 + value.length, value);\n    return 4 + value.length;\n  }\n}\n");
    s
}

/// Whether a converter class of a primitive number or byte type exists for
/// `t`.
pub open spec fn has_primitive_helper(t: Type) -> bool {
    match t {
        Type::Int8 | Type::Int16 | Type::Int32 | Type::Int64 | Type::UInt8 | Type::UInt16
        | Type::UInt32 | Type::UInt64 | Type::Float32 | Type::Float64 | Type::Bytes => true,
        _ => false,
    }
}

/// Byte size, smallest value, largest value and Rust name of a bounded
/// integer type.
pub open spec fn int_bounds(t: Type) -> (int, int, int, Seq<char>) {
    match t {
        Type::Int8 => (1, -128, 127, "i8"@),
        Type::Int16 => (2, -32768, 32767, "i16"@),
        Type::Int32 => (4, -2147483648, 2147483647, "i32"@),
        Type::Int64 => (8, -9223372036854775808, 9223372036854775807, "i64"@),
        Type::UInt8 => (1, 0, 255, "u8"@),
        Type::UInt16 => (2, 0, 65535, "u16"@),
        _ => (4, 0, 4294967295, "u32"@),
    }
}

/// The byte size of a floating-point type.
pub open spec fn float_size(t: Type) -> int {
    match t {
        Type::Float32 => 4,
        _ => 8,
    }
}

/// The `ByteData` accessor suffix of a canonical name: `UInt` becomes `Uint`
/// and `Double` becomes `Float`.
pub open spec fn conversion_name_spec(canonical: Seq<char>) -> Seq<char> {
    replace_all_spec(replace_all_spec(canonical, "UInt"@, "Uint"@), "Double"@, "Float"@)
}

/// The byte-order argument written after floating-point values: given only
/// when the canonical name mentions `Float`.
pub open spec fn endian_spec(canonical: Seq<char>) -> Seq<char> {
    if contains_spec(canonical, "Float"@) {
        ", Endian.little"@
    } else {
        ""@
    }
}

/// The converter class of a primitive number or byte type.
pub open spec fn primitive_helper_text(t: Type) -> Seq<char> {
    let cl = "FfiConverter"@ + builtin_canonical_spec(t);
    let ts = builtin_label_spec(t);
    let canonical = builtin_canonical_spec(t);
    match t {
        Type::Bytes => bytes_helper_spec(cl, ts),
        Type::UInt64 => u64_helper_spec(cl, ts),
        Type::Float32 | Type::Float64 => float_helper_spec(
            cl,
            ts,
            conversion_name_spec(canonical),
            signed_decimal(float_size(t)),
            endian_spec(canonical),
        ),
        _ => bounded_int_helper_spec(
            cl,
            ts,
            conversion_name_spec(canonical),
            signed_decimal(int_bounds(t).0),
            signed_decimal(int_bounds(t).1),
            signed_decimal(int_bounds(t).2),
            int_bounds(t).3,
        ),
    }
}

/// The `ByteData` accessor suffix of a canonical name.
pub fn conversion_name(canonical: &str) -> (r: String)
    ensures
        r@ == conversion_name_spec(canonical@),
{
    proof {
        reveal_strlit("UInt");
        reveal_strlit("Double");
    }
    let a = replace_all(canonical, "UInt", "Uint");
    replace_all(a.as_str(), "Double", "Float")
}

fn int_bounds_exec(t: &Type) -> (r: (i64, i64, i64, &'static str))
    requires
        has_primitive_helper(*t),
    ensures
        r.0 == int_bounds(*t).0,
        r.1 == int_bounds(*t).1,
        r.2 == int_bounds(*t).2,
        r.3@ == int_bounds(*t).3,
{
    match t {
        Type::Int8 => (1, -128, 127, "i8"),
        Type::Int16 => (2, -32768, 32767, "i16"),
        Type::Int32 => (4, -2147483648, 2147483647, "i32"),
        Type::Int64 => (8, -9223372036854775808, 9223372036854775807, "i64"),
        Type::UInt8 => (1, 0, 255, "u8"),
        Type::UInt16 => (2, 0, 65535, "u16"),
        _ => (4, 0, 4294967295, "u32"),
    }
}

/// Renders the converter class of a primitive number or byte type.
pub fn render_primitive_type_helper(t: &Type) -> (r: String)
    requires
        has_primitive_helper(*t),
    ensures
        r@ == primitive_helper_text(*t),
{
    let canonical = builtin_canonical(t);
    let cl = concat2("FfiConverter", canonical.as_str());
    let ts = builtin_label(t);
    match t {
        Type::Bytes => bytes_helper(&cl, &ts),
        Type::UInt64 => u64_helper(&cl, &ts),
        Type::Float32 | Type::Float64 => {
            let conv = conversion_name(canonical.as_str());
            let size = if let Type::Float32 = t {
                i64_decimal(4)
            } else {
                i64_decimal(8)
            };
            let endian = if contains(canonical.as_str(), "Float") {
                String::from_str(", Endian.little")
            } else {
                proof {
                    reveal_strlit("");
                }
                String::new()
            };
            float_helper(&cl, &ts, &conv, &size, &endian)
        },
        _ => {
            let conv = conversion_name(canonical.as_str());
            let b = int_bounds_exec(t);
            let size = i64_decimal(b.0);
            let min = i64_decimal(b.1);
            let max = i64_decimal(b.2);
            let rust = String::from_str(b.3);
            bounded_int_helper(&cl, &ts, &conv, &size, &min, &max, &rust)
        },
    }
}


/// A text holds itself.
proof fn lemma_contains_self(p: Seq<char>)
    ensures
        contains_spec(p, p),
{
    lemma_contains_mid(Seq::empty(), p, Seq::empty());
    assert(Seq::<char>::empty() + p + Seq::<char>::empty() =~= p);
}

proof fn lemma_class_head(cl: Seq<char>, ts: Seq<char>, rest: Seq<char>)
    ensures
        contains_spec("class "@ + cl + " {\n  static "@ + ts + rest, "class "@ + cl + " {\n  static "@ + ts),
{
    lemma_contains_mid(Seq::empty(), "class "@ + cl + " {\n  static "@ + ts, rest);
    assert(Seq::<char>::empty() + ("class "@ + cl + " {\n  static "@ + ts) + rest =~= "class "@ + cl + " {\n  static "@ + ts
        + rest);
}

/// Each converter class begins with its name and the type of its values.
proof fn lemma_helpers_head(cl: Seq<char>, ts: Seq<char>, conv: Seq<char>, size: Seq<char>, min: Seq<char>, max: Seq<char>, rust: Seq<char>, endian: Seq<char>)
    ensures
        contains_spec(bounded_int_helper_spec(cl, ts, conv, size, min, max, rust), "class "@ + cl + " {\n  static "@ + ts),
        contains_spec(float_helper_spec(cl, ts, conv, size, endian), "class "@ + cl + " {\n  static "@ + ts),
        contains_spec(u64_helper_spec(cl, ts), "class "@ + cl + " {\n  static "@ + ts),
        contains_spec(bytes_helper_spec(cl, ts), "class "@ + cl + " {\n  static "@ + ts),
{
    broadcast use lemma_contains_extend;
    assert forall|rest: Seq<char>| #[trigger] contains_spec("class "@ + cl + " {\n  static "@ + ts + rest, "class "@ + cl
        + " {\n  static "@ + ts) by {
        lemma_class_head(cl, ts, rest);
    }
}

/// The converter class of every number or byte type is the class named after
/// the type's canonical name, and its values have the type's Dart label:
/// `type_label` names the type the converter reads and writes.
pub proof fn converter_class_uses_type_label(t: Type)
    requires
        has_primitive_helper(t),
    ensures
        contains_spec(
            primitive_helper_text(t),
            "class FfiConverter"@ + canonical_name_spec(t) + " {\n  static "@ + type_label_spec(t),
        ),
{
    let canonical = builtin_canonical_spec(t);
    let cl = "FfiConverter"@ + canonical;
    let ts = builtin_label_spec(t);
    lemma_helpers_head(
        cl,
        ts,
        conversion_name_spec(canonical),
        signed_decimal(int_bounds(t).0),
        signed_decimal(int_bounds(t).1),
        signed_decimal(int_bounds(t).2),
        int_bounds(t).3,
        endian_spec(canonical),
    );
    lemma_helpers_head(
        cl,
        ts,
        conversion_name_spec(canonical),
        signed_decimal(float_size(t)),
        signed_decimal(int_bounds(t).1),
        signed_decimal(int_bounds(t).2),
        int_bounds(t).3,
        endian_spec(canonical),
    );
    reveal_strlit("class FfiConverter");
    reveal_strlit("class ");
    reveal_strlit("FfiConverter");
    assert("class FfiConverter"@ + canonical_name_spec(t) + " {\n  static "@ + type_label_spec(t) =~= "class "@ + cl
        + " {\n  static "@ + ts);
}

/// Whether `t` is an integer type whose converter checks bounds when it
/// lowers a value.
pub open spec fn is_bounded_int(t: Type) -> bool {
    match t {
        Type::Int8 | Type::Int16 | Type::Int32 | Type::Int64 | Type::UInt8 | Type::UInt16 | Type::UInt32 => true,
        _ => false,
    }
}

/// The width in bits of a Rust integer type, as its name says.
pub open spec fn int_width(t: Type) -> nat {
    match t {
        Type::Int8 | Type::UInt8 => 8,
        Type::Int16 | Type::UInt16 => 16,
        Type::Int32 | Type::UInt32 => 32,
        _ => 64,
    }
}

/// Whether a Rust integer type is signed.
pub open spec fn is_signed_int(t: Type) -> bool {
    match t {
        Type::Int8 | Type::Int16 | Type::Int32 | Type::Int64 => true,
        _ => false,
    }
}

/// The smallest value of a Rust integer type of that width and signedness.
pub open spec fn int_min(t: Type) -> int {
    if is_signed_int(t) {
        -(pow2((int_width(t) - 1) as nat) as int)
    } else {
        0
    }
}

/// The largest value of a Rust integer type of that width and signedness.
pub open spec fn int_max(t: Type) -> int {
    if is_signed_int(t) {
        pow2((int_width(t) - 1) as nat) - 1
    } else {
        pow2(int_width(t)) - 1
    }
}

/// The converter of a bounded integer type refuses exactly the values
/// outside the range of its Rust type: its `lower` checks
/// `value < min || value > max` with the type's own smallest and largest
/// values, `-2^(w-1)` and `2^(w-1) - 1` for a signed type of `w` bits, `0`
/// and `2^w - 1` for an unsigned one.
pub proof fn converter_checks_the_rust_range(t: Type)
    requires
        is_bounded_int(t),
    ensures
        contains_spec(
            primitive_helper_text(t),
            "if (value < "@ + signed_decimal(int_min(t)) + " || value > "@ + signed_decimal(int_max(t)) + ")"@,
        ),
{
    broadcast use lemma_contains_extend;
    lemma2_to64();
    lemma2_to64_rest();
    assert(int_bounds(t).1 == int_min(t) && int_bounds(t).2 == int_max(t)) by {
        match t {
            Type::Int8 => assert(pow2(7) == 128),
            Type::Int16 => assert(pow2(15) == 32768),
            Type::Int32 => assert(pow2(31) == 2147483648),
            Type::Int64 => assert(pow2(63) == 9223372036854775808),
            Type::UInt8 => assert(pow2(8) == 256),
            Type::UInt16 => assert(pow2(16) == 65536),
            _ => assert(pow2(32) == 4294967296),
        }
    }
    let lb = " value) {\n    if (value < "@;
    let la = ") {\n      throw ArgumentError(\"Value out of range for "@;
    let u = " value) {\n    "@;
    let v = "if (value < "@;
    let x = " {\n      throw ArgumentError(\"Value out of range for "@;
    reveal_strlit(" value) {\n    if (value < ");
    reveal_strlit(") {\n      throw ArgumentError(\"Value out of range for ");
    reveal_strlit(" value) {\n    ");
    reveal_strlit("if (value < ");
    reveal_strlit(")");
    reveal_strlit(" {\n      throw ArgumentError(\"Value out of range for ");
    let min = signed_decimal(int_min(t));
    let max = signed_decimal(int_max(t));
    let p = v + min + " || value > "@ + max + ")"@;
    assert forall|a: Seq<char>| #[trigger] contains_spec(a + lb + min + " || value > "@ + max + la, p) by {
        assert(lb =~= u + v);
        assert(la =~= ")"@ + x);
        assert(a + lb + min + " || value > "@ + max + la =~= (a + u) + p + x);
        lemma_contains_mid(a + u, p, x);
    }
    assert(contains_spec(primitive_helper_text(t), p));
}


/// The number of bytes a value of a fixed-size number type takes.
pub open spec fn number_bytes(t: Type) -> int {
    match t {
        Type::Int8 | Type::UInt8 => 1,
        Type::Int16 | Type::UInt16 => 2,
        Type::Int32 | Type::UInt32 | Type::Float32 => 4,
        _ => 8,
    }
}

proof fn lemma_allocation_size(cl: Seq<char>, ts: Seq<char>, conv: Seq<char>, size: Seq<char>, min: Seq<char>, max: Seq<char>, rust: Seq<char>, endian: Seq<char>)
    ensures
        contains_spec(bounded_int_helper_spec(cl, ts, conv, size, min, max, rust), " value = 0]) {\n    return "@ + size + ";"@),
        contains_spec(float_helper_spec(cl, ts, conv, size, endian), " value = 0]) {\n    return "@ + size + ";"@),
{
    broadcast use lemma_contains_extend;
    let lb = " value = 0]) {\n    return "@;
    let la = ";\n  }\n  static int write("@;
    reveal_strlit(";\n  }\n  static int write(");
    reveal_strlit(";");
    reveal_strlit("\n  }\n  static int write(");
    let p = lb + size + ";"@;
    assert forall|a: Seq<char>| #[trigger] contains_spec(a + lb + size + la, p) by {
        assert(la =~= ";"@ + "\n  }\n  static int write("@);
        assert(a + lb + size + la =~= a + p + "\n  }\n  static int write("@);
        lemma_contains_mid(a, p, "\n  }\n  static int write("@);
    }
}

/// The converter of every fixed-size integer and floating-point type
/// allocates exactly the bytes a value of that type takes: 1, 2, 4 or 8 as
/// the type's width says.
pub proof fn converter_allocates_the_type_size(t: Type)
    requires
        is_bounded_int(t) || t == Type::Float32 || t == Type::Float64,
    ensures
        contains_spec(primitive_helper_text(t), " value = 0]) {\n    return "@ + signed_decimal(number_bytes(t)) + ";"@),
{
    let canonical = builtin_canonical_spec(t);
    let cl = "FfiConverter"@ + canonical;
    let ts = builtin_label_spec(t);
    lemma_allocation_size(
        cl,
        ts,
        conversion_name_spec(canonical),
        signed_decimal(number_bytes(t)),
        signed_decimal(int_bounds(t).1),
        signed_decimal(int_bounds(t).2),
        int_bounds(t).3,
        endian_spec(canonical),
    );
    assert(is_bounded_int(t) ==> int_bounds(t).0 == number_bytes(t));
    assert(t == Type::Float32 || t == Type::Float64 ==> float_size(t) == number_bytes(t));
}

} // verus!
