//! Converter classes of optional, sequence and map types.
use vstd::prelude::*;
use crate::gen::naming::{exception_safe_name, exception_safe_spec};
use crate::gen::primitives::{has_primitive_helper, primitive_helper_text, render_primitive_type_helper};
use crate::gen::registry::TypeHelpersRenderer;
use crate::gen::text::concat2;
use crate::gen::types::{
    canonical_name, canonical_name_spec, ffi_converter_name, ffi_converter_name_spec, type_label,
    type_label_spec, Type,
};

verus! {

/// The converter class of an optional type, followed by the helper of its inner type where one is due.
pub open spec fn optional_text_spec(cl: Seq<char>, tl: Seq<char>, inner: Seq<char>, inner_helper: Seq<char>) -> Seq<char> {
    "class "@ +
    cl +
    " {\n  static "@ +
    tl +
    " lift(RustBuffer buf) {\n    return "@ +
    cl +
    ".read(buf.asUint8List()).value;\n  }\n  static LiftRetVal<"@ +
    tl +
    "> read(Uint8List buf) {\n    if (ByteData.view(buf.buffer, buf.offsetInBytes).getInt8(0) == 0) {\n      return LiftRetVal(null, 1);\n    }\n    final result = "@ +
    inner +
    ".read(Uint8List.view(buf.buffer, buf.offsetInBytes + 1));\n    return LiftRetVal<"@ +
    tl +
    ">(result.value, result.bytesRead + 1);\n  }\n  static int allocationSize(["@ +
    tl +
    " value]) {\n    if (value == null) {\n      return 1;\n    }\n    return "@ +
    inner +
    ".allocationSize(value) + 1;\n  }\n  static RustBuffer lower("@ +
    tl +
    " value) {\n    if (value == null) {\n      return toRustBuffer(Uint8List.fromList([0]));\n    }\n    final length = "@ +
    cl +
    ".allocationSize(value);\n    final Pointer<Uint8> frameData = calloc<Uint8>(length);\n    final buf = frameData.asTypedList(length);\n    "@ +
    cl +
    ".write(value, buf);\n    final bytes = calloc<ForeignBytes>();\n    bytes.ref.len = length;\n    bytes.ref.data = frameData;\n    return RustBuffer.fromBytes(bytes.ref);\n  }\n  static int write("@ +
    tl +
    " value, Uint8List buf) {\n    if (value == null) {\n      buf[0] = 0;\n      return 1;\n    }\n    buf[0] = 1;\n    return "@ +
    inner +
    ".write(value, Uint8List.view(buf.buffer, buf.offsetInBytes + 1)) + 1;\n  }\n}\n"@ +
    inner_helper
}

fn optional_text(cl: &String, tl: &String, inner: &String, inner_helper: &String) -> (s: String)
    ensures
        s@ == optional_text_spec(cl@, tl@, inner@, inner_helper@),
{
    let mut s = String::from_str("class ");
    s.append(cl.as_str());
    s.append(" {\n  static ");
    s.append(tl.as_str());
    s.append(" lift(RustBuffer buf) {\n    return ");
    s.append(cl.as_str());
    s.append(".read(buf.asUint8List()).value;\n  }\n  static LiftRetVal<");
    s.append(tl.as_str());
    s.append("> read(Uint8List buf) {\n    if (ByteData.view(buf.buffer, buf.offsetInBytes).getInt8(0) == 0) {\n      return LiftRetVal(null, 1);\n    }\n    final result = ");
    s.append(inner.as_str());
    s.append(".read(Uint8List.view(buf.buffer, buf.offsetInBytes + 1));\n    return LiftRetVal<");
    s.append(tl.as_str());
    s.append(">(result.value, result.bytesRead + 1);\n  }\n  static int allocationSize([");
    s.append(tl.as_str());
    s.append(" value]) {\n    if (value == null) {\n      return 1;\n    }\n    return ");
    s.append(inner.as_str());
    s.append(".allocationSize(value) + 1;\n  }\n  static RustBuffer lower(");
    s.append(tl.as_str());
    s.append(" value) {\n    if (value == null) {\n      return toRustBuffer(Uint8List.fromList([0]));\n    }\n    final length = ");
    s.append(cl.as_str());
    s.append(".allocationSize(value);\n    final Pointer<Uint8> frameData = calloc<Uint8>(length);\n    final buf = frameData.asTypedList(length);\n    ");
    s.append(cl.as_str());
    s.append(".write(value, buf);\n    final bytes = calloc<ForeignBytes>();\n    bytes.ref.len = length;\n    bytes.ref.data = frameData;\n    return RustBuffer.fromBytes(bytes.ref);\n  }\n  static int write(");
    s.append(tl.as_str());
    s.append(" value, Uint8List buf) {\n    if (value == null) {\n      buf[0] = 0;\n      return 1;\n    }\n    buf[0] = 1;\n    return ");
    s.append(inner.as_str());
    s.append(".write(value, Uint8List.view(buf.buffer, buf.offsetInBytes + 1)) + 1;\n  }\n}\n");
    s.append(inner_helper.as_str());
    s
}

/// The converter class of a sequence type.
pub open spec fn sequence_text_spec(cl: Seq<char>, tl: Seq<char>, inner: Seq<char>) -> Seq<char> {
    "class "@ +
    cl +
    " {\n  static "@ +
    tl +
    " lift(RustBuffer buf) {\n    return "@ +
    cl +
    ".read(buf.asUint8List()).value;\n  }\n  static LiftRetVal<"@ +
    tl +
    "> read(Uint8List buf) {\n    "@ +
    tl +
    " res = [];\n    final length = buf.buffer.asByteData(buf.offsetInBytes).getInt32(0);\n    int offset = buf.offsetInBytes + 4;\n    for (var i = 0; i < length; i++) {\n      final ret = "@ +
    inner +
    ".read(Uint8List.view(buf.buffer, offset));\n      offset += ret.bytesRead;\n      res.add(ret.value);\n    }\n    return LiftRetVal(res, offset - buf.offsetInBytes);\n  }\n  static int write("@ +
    tl +
    " value, Uint8List buf) {\n    buf.buffer.asByteData(buf.offsetInBytes).setInt32(0, value.length);\n    int offset = buf.offsetInBytes + 4;\n    for (var i = 0; i < value.length; i++) {\n      offset += "@ +
    inner +
    ".write(value[i], Uint8List.view(buf.buffer, offset));\n    }\n    return offset - buf.offsetInBytes;\n  }\n  static int allocationSize("@ +
    tl +
    " value) {\n    return value.map((l) => "@ +
    inner +
    ".allocationSize(l)).fold(0, (a, b) => a + b) + 4;\n  }\n  static RustBuffer lower("@ +
    tl +
    " value) {\n    final buf = Uint8List(allocationSize(value));\n    write(value, buf);\n    return toRustBuffer(buf);\n  }\n}\n"@
}

fn sequence_text(cl: &String, tl: &String, inner: &String) -> (s: String)
    ensures
        s@ == sequence_text_spec(cl@, tl@, inner@),
{
    let mut s = String::from_str("class ");
    s.append(cl.as_str());
    s.append(" {\n  static ");
    s.append(tl.as_str());
    s.append(" lift(RustBuffer buf) {\n    return ");
    s.append(cl.as_str());
    s.append(".read(buf.asUint8List()).value;\n  }\n  static LiftRetVal<");
    s.append(tl.as_str());
    s.append("> read(Uint8List buf) {\n    ");
    s.append(tl.as_str());
    s.append(" res = [];\n    final length = buf.buffer.asByteData(buf.offsetInBytes).getInt32(0);\n    int offset = buf.offsetInBytes + 4;\n    for (var i = 0; i < length; i++) {\n      final ret = ");
    s.append(inner.as_str());
    s.append(".read(Uint8List.view(buf.buffer, offset));\n      offset += ret.bytesRead;\n      res.add(ret.value);\n    }\n    return LiftRetVal(res, offset - buf.offsetInBytes);\n  }\n  static int write(");
    s.append(tl.as_str());
    s.append(" value, Uint8List buf) {\n    buf.buffer.asByteData(buf.offsetInBytes).setInt32(0, value.length);\n    int offset = buf.offsetInBytes + 4;\n    for (var i = 0; i < value.length; i++) {\n      offset += ");
    s.append(inner.as_str());
    s.append(".write(value[i], Uint8List.view(buf.buffer, offset));\n    }\n    return offset - buf.offsetInBytes;\n  }\n  static int allocationSize(");
    s.append(tl.as_str());
    s.append(" value) {\n    return value.map((l) => ");
    s.append(inner.as_str());
    s.append(".allocationSize(l)).fold(0, (a, b) => a + b) + 4;\n  }\n  static RustBuffer lower(");
    s.append(tl.as_str());
    s.append(" value) {\n    final buf = Uint8List(allocationSize(value));\n    write(value, buf);\n    return toRustBuffer(buf);\n  }\n}\n");
    s
}

/// The converter class of a map type.
pub open spec fn map_text_spec(cl: Seq<char>, kl: Seq<char>, vl: Seq<char>, kc: Seq<char>, vc: Seq<char>) -> Seq<char> {
    "class "@ +
    cl +
    " {\n  static Map<"@ +
    kl +
    ", "@ +
    vl +
    "> lift(RustBuffer buf) {\n    return "@ +
    cl +
    ".read(buf.asUint8List()).value;\n  }\n  static LiftRetVal<Map<"@ +
    kl +
    ", "@ +
    vl +
    ">> read(Uint8List buf) {\n    final map = <"@ +
    kl +
    ", "@ +
    vl +
    ">{};\n    final length = buf.buffer.asByteData(buf.offsetInBytes).getInt32(0);\n    int offset = buf.offsetInBytes + 4;\n    for (var i = 0; i < length; i++) {\n      final k = "@ +
    kc +
    ".read(Uint8List.view(buf.buffer, offset));\n      offset += k.bytesRead;\n      final v = "@ +
    vc +
    ".read(Uint8List.view(buf.buffer, offset));\n      offset += v.bytesRead;\n      map[k.value] = v.value;\n    }\n    return LiftRetVal(map, offset - buf.offsetInBytes);\n  }\n  static int write(Map<"@ +
    kl +
    ", "@ +
    vl +
    "> value, Uint8List buf) {\n    buf.buffer.asByteData(buf.offsetInBytes).setInt32(0, value.length);\n    int offset = buf.offsetInBytes + 4;\n    for (final entry in value.entries) {\n      offset += "@ +
    kc +
    ".write(entry.key, Uint8List.view(buf.buffer, offset));\n      offset += "@ +
    vc +
    ".write(entry.value, Uint8List.view(buf.buffer, offset));\n    }\n    return offset - buf.offsetInBytes;\n  }\n  static int allocationSize(Map<"@ +
    kl +
    ", "@ +
    vl +
    "> value) {\n    return value.entries\n        .map((e) => "@ +
    kc +
    ".allocationSize(e.key) + "@ +
    vc +
    ".allocationSize(e.value))\n        .fold(4, (a, b) => a + b);\n  }\n  static RustBuffer lower(Map<"@ +
    kl +
    ", "@ +
    vl +
    "> value) {\n    final buf = Uint8List(allocationSize(value));\n    write(value, buf);\n    return toRustBuffer(buf);\n  }\n}\n"@
}

fn map_text(cl: &String, kl: &String, vl: &String, kc: &String, vc: &String) -> (s: String)
    ensures
        s@ == map_text_spec(cl@, kl@, vl@, kc@, vc@),
{
    let mut s = String::from_str("class ");
    s.append(cl.as_str());
    s.append(" {\n  static Map<");
    s.append(kl.as_str());
    s.append(", ");
    s.append(vl.as_str());
    s.append("> lift(RustBuffer buf) {\n    return ");
    s.append(cl.as_str());
    s.append(".read(buf.asUint8List()).value;\n  }\n  static LiftRetVal<Map<");
    s.append(kl.as_str());
    s.append(", ");
    s.append(vl.as_str());
    s.append(">> read(Uint8List buf) {\n    final map = <");
    s.append(kl.as_str());
    s.append(", ");
    s.append(vl.as_str());
    s.append(">{};\n    final length = buf.buffer.asByteData(buf.offsetInBytes).getInt32(0);\n    int offset = buf.offsetInBytes + 4;\n    for (var i = 0; i < length; i++) {\n      final k = ");
    s.append(kc.as_str());
    s.append(".read(Uint8List.view(buf.buffer, offset));\n      offset += k.bytesRead;\n      final v = ");
    s.append(vc.as_str());
    s.append(".read(Uint8List.view(buf.buffer, offset));\n      offset += v.bytesRead;\n      map[k.value] = v.value;\n    }\n    return LiftRetVal(map, offset - buf.offsetInBytes);\n  }\n  static int write(Map<");
    s.append(kl.as_str());
    s.append(", ");
    s.append(vl.as_str());
    s.append("> value, Uint8List buf) {\n    buf.buffer.asByteData(buf.offsetInBytes).setInt32(0, value.length);\n    int offset = buf.offsetInBytes + 4;\n    for (final entry in value.entries) {\n      offset += ");
    s.append(kc.as_str());
    s.append(".write(entry.key, Uint8List.view(buf.buffer, offset));\n      offset += ");
    s.append(vc.as_str());
    s.append(".write(entry.value, Uint8List.view(buf.buffer, offset));\n    }\n    return offset - buf.offsetInBytes;\n  }\n  static int allocationSize(Map<");
    s.append(kl.as_str());
    s.append(", ");
    s.append(vl.as_str());
    s.append("> value) {\n    return value.entries\n        .map((e) => ");
    s.append(kc.as_str());
    s.append(".allocationSize(e.key) + ");
    s.append(vc.as_str());
    s.append(".allocationSize(e.value))\n        .fold(4, (a, b) => a + b);\n  }\n  static RustBuffer lower(Map<");
    s.append(kl.as_str());
    s.append(", ");
    s.append(vl.as_str());
    s.append("> value) {\n    final buf = Uint8List(allocationSize(value));\n    write(value, buf);\n    return toRustBuffer(buf);\n  }\n}\n");
    s
}

/// The element type of a sequence or optional type.
pub open spec fn inner_of(t: Type) -> Type {
    match t {
        Type::Optional { inner_type } => *inner_type,
        Type::Sequence { inner_type } => *inner_type,
        _ => t,
    }
}

/// Registers `names` in order, each under `ty`.
pub open spec fn register_all(m: Map<Seq<char>, Type>, name: Seq<char>, alt: Seq<char>, ty: Type) -> Map<Seq<char>, Type> {
    if alt != name {
        m.insert(name, ty).insert(alt, ty)
    } else {
        m.insert(name, ty)
    }
}

/// The text of the converter class of a sequence type, and the registry
/// after it: nothing is emitted when its converter is registered already;
/// otherwise the element type is registered under its canonical name and,
/// where different, under its exception-safe name.
pub open spec fn sequence_helper_spec(t: Type, m: Map<Seq<char>, Type>) -> (Seq<char>, Map<Seq<char>, Type>) {
    let inner = inner_of(t);
    let conv = ffi_converter_name_spec(t);
    if m.contains_key(conv) {
        (Seq::empty(), m.insert(conv, t))
    } else {
        let orig = canonical_name_spec(inner);
        let safe = exception_safe_spec(orig);
        (
            sequence_text_spec(
                "FfiConverterSequence"@ + safe,
                "List<"@ + exception_safe_spec(type_label_spec(inner)) + ">"@,
                exception_safe_spec(ffi_converter_name_spec(inner)),
            ),
            register_all(m.insert(conv, t), orig, safe, inner),
        )
    }
}

/// Whether the helper of the element type of an optional is emitted right
/// after it, when it was not registered before: for sequences and numbers.
pub open spec fn renders_inner_helper(inner: Type) -> bool {
    match inner {
        Type::Sequence { .. } => true,
        Type::Bytes => false,
        _ => has_primitive_helper(inner),
    }
}

/// The text of the converter class of an optional type, and the registry
/// after it. The element type is registered under its canonical name and,
/// when that name was new and the exception-safe name differs, under the
/// exception-safe name too; when neither was registered before, the element
/// helper follows for sequences and numbers.
pub open spec fn optional_helper_spec(t: Type, m: Map<Seq<char>, Type>) -> (Seq<char>, Map<Seq<char>, Type>) {
    let inner = inner_of(t);
    let m1 = m.insert(ffi_converter_name_spec(t), t);
    let orig = canonical_name_spec(inner);
    let safe = exception_safe_spec(orig);
    let found_orig = m1.contains_key(orig);
    let m2 = m1.insert(orig, inner);
    let found_safe = !found_orig && safe != orig && m2.contains_key(safe);
    let m3 = if !found_orig && safe != orig {
        m2.insert(safe, inner)
    } else {
        m2
    };
    let already = found_orig || found_safe;
    let inner_part: (Seq<char>, Map<Seq<char>, Type>) = if already || !renders_inner_helper(inner) {
        (Seq::empty(), m3)
    } else {
        match inner {
            Type::Sequence { .. } => sequence_helper_spec(inner, m3),
            _ => (primitive_helper_text(inner), m3),
        }
    };
    (
        optional_text_spec(
            "FfiConverterOptional"@ + safe,
            exception_safe_spec(type_label_spec(inner)) + "?"@,
            exception_safe_spec(ffi_converter_name_spec(inner)),
            inner_part.0,
        ),
        inner_part.1,
    )
}

/// The text of the converter class of a map type, and the registry after
/// it: the map, key and value types are registered under their names.
pub open spec fn map_helper_spec(t: Type, m: Map<Seq<char>, Type>) -> (Seq<char>, Map<Seq<char>, Type>) {
    match t {
        Type::Dict { key_type, value_type } => (
            map_text_spec(
                ffi_converter_name_spec(t),
                type_label_spec(*key_type),
                type_label_spec(*value_type),
                ffi_converter_name_spec(*key_type),
                ffi_converter_name_spec(*value_type),
            ),
            m.insert(ffi_converter_name_spec(t), t).insert(canonical_name_spec(*key_type), *key_type).insert(
                canonical_name_spec(*value_type),
                *value_type,
            ),
        ),
        _ => (Seq::empty(), m),
    }
}

/// Renders the converter class of a sequence type and records what it
/// registers.
pub fn render_sequence_helper(reg: &mut TypeHelpersRenderer, t: &Type) -> (r: String)
    requires
        old(reg).well_formed(),
        *t is Sequence,
    ensures
        final(reg).well_formed(),
        (r@, final(reg).helpers()) == sequence_helper_spec(*t, old(reg).helpers()),
        final(reg).custom_names() == old(reg).custom_names(),
{
    let inner: &Type = match t {
        Type::Sequence { inner_type } => inner_type,
        _ => {
            proof {
                assert(false);
            }
            t
        },
    };
    let conv = ffi_converter_name(t);
    if reg.include_once_check(conv.as_str(), t) {
        return String::new();
    }
    let orig = canonical_name(inner);
    let safe = exception_safe_name(orig.as_str());
    reg.include_once_check(orig.as_str(), inner);
    if !(safe == orig) {
        reg.include_once_check(safe.as_str(), inner);
    }
    let raw_label = type_label(inner);
    let inner_label = exception_safe_name(raw_label.as_str());
    let cl = concat2("FfiConverterSequence", safe.as_str());
    let tl = {
        let h = concat2("List<", inner_label.as_str());
        concat2(h.as_str(), ">")
    };
    let raw_conv = ffi_converter_name(inner);
    let inner_conv = exception_safe_name(raw_conv.as_str());
    sequence_text(&cl, &tl, &inner_conv)
}

/// Renders the converter class of an optional type and records what it
/// registers.
pub fn render_optional_helper(reg: &mut TypeHelpersRenderer, t: &Type) -> (r: String)
    requires
        old(reg).well_formed(),
        *t is Optional,
    ensures
        final(reg).well_formed(),
        (r@, final(reg).helpers()) == optional_helper_spec(*t, old(reg).helpers()),
        final(reg).custom_names() == old(reg).custom_names(),
{
    let inner: &Type = match t {
        Type::Optional { inner_type } => inner_type,
        _ => {
            proof {
                assert(false);
            }
            t
        },
    };
    let conv = ffi_converter_name(t);
    reg.include_once_check(conv.as_str(), t);
    let orig = canonical_name(inner);
    let safe = exception_safe_name(orig.as_str());
    let found_orig = reg.include_once_check(orig.as_str(), inner);
    let already = found_orig || (!(safe == orig) && reg.include_once_check(safe.as_str(), inner));
    let raw_label = type_label(inner);
    let inner_label = exception_safe_name(raw_label.as_str());
    let cl = concat2("FfiConverterOptional", safe.as_str());
    let tl = concat2(inner_label.as_str(), "?");
    let raw_conv = ffi_converter_name(inner);
    let inner_conv = exception_safe_name(raw_conv.as_str());
    let inner_helper = if !already {
        match inner {
            Type::Sequence { .. } => render_sequence_helper(reg, inner),
            Type::Int8 | Type::Int16 | Type::Int32 | Type::Int64 | Type::UInt8 | Type::UInt16
            | Type::UInt32 | Type::UInt64 | Type::Float32 | Type::Float64 => render_primitive_type_helper(inner),
            _ => String::new(),
        }
    } else {
        String::new()
    };
    optional_text(&cl, &tl, &inner_conv, &inner_helper)
}

/// Renders the converter class of a map type and records what it registers.
pub fn render_map_helper(reg: &mut TypeHelpersRenderer, t: &Type) -> (r: String)
    requires
        old(reg).well_formed(),
        *t is Dict,
    ensures
        final(reg).well_formed(),
        (r@, final(reg).helpers()) == map_helper_spec(*t, old(reg).helpers()),
        final(reg).custom_names() == old(reg).custom_names(),
{
    match t {
        Type::Dict { key_type, value_type } => {
            let conv = ffi_converter_name(t);
            reg.include_once_check(conv.as_str(), t);
            let kcanon = canonical_name(key_type);
            reg.include_once_check(kcanon.as_str(), key_type);
            let vcanon = canonical_name(value_type);
            reg.include_once_check(vcanon.as_str(), value_type);
            let kl = type_label(key_type);
            let vl = type_label(value_type);
            let kc = ffi_converter_name(key_type);
            let vc = ffi_converter_name(value_type);
            map_text(&conv, &kl, &vl, &kc, &vc)
        },
        _ => {
            proof {
                assert(false);
            }
            String::new()
        },
    }
}

} // verus!
