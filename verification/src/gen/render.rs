//! Rendering the whole Dart source: the definitions of the interface's
//! types, the converter helpers of every registered type, the functions and
//! the fixed runtime support around them.
use vstd::prelude::*;
use crate::gen::callback_interface::{async_support_fold, callback_bundle_text, generate_callback_bundle, register_async_returns};
use crate::gen::compounds::{map_helper_spec, optional_helper_spec, render_map_helper, render_optional_helper, render_sequence_helper, sequence_helper_spec};
use crate::gen::enums::{enum_registry, enum_text, generate_enum, register_fields};
use crate::gen::interface::{find_callback, find_enum, find_object, find_record, ComponentInterface, Object};
use crate::gen::naming::{class_name, class_name_spec};
use crate::gen::objects::{
    generate_object_class, generate_trait_object, object_registry, object_text, object_type,
    object_type_exec, trait_object_text, traits_callable, traits_callable_check,
};
use crate::gen::primitives::{has_primitive_helper, primitive_helper_text, render_primitive_type_helper};
use crate::gen::records::{record_fields_typed, record_helper_text, render_record_helper};
use crate::gen::registry::TypeHelpersRenderer;
use crate::gen::functions::{function_text, generate_function};
use crate::gen::interface::{Callable, Enum, Record};
use crate::gen::order::{lemma_sorted_of, sorted_of, sorted_unique};
use crate::gen::records::{generate_record, record_text};
use crate::gen::registered::{
    closed, grows, keeps, lemma_enum_registry, lemma_keeps_refl, lemma_keeps_trans,
    lemma_object_registry, lemma_reg_tree, lemma_register_async_returns, lemma_register_fields,
    lemma_walk,
};
use crate::gen::text::{concat2, concat3, concat_all, lemma_concat_all_step, views};
use crate::gen::types::canonical_name_spec;
use crate::gen::walk::{reg_tree, register_component_interface_type_helpers, register_type_helpers, walk};
use crate::gen::types::{ffi_converter_name, ffi_converter_name_spec, has_dart_type, has_dart_type_check, type_label, type_label_spec, ObjectImpl, Type};

verus! {

/// Whether an object can be generated: the helpers of a struct's exported
/// traits take the arguments they are given.
pub open spec fn object_generable(o: Object) -> bool {
    o.imp == ObjectImpl::Struct ==> traits_callable(o.uniffi_traits@)
}

/// The Dart source of an object: a callback interface when foreign code
/// may implement it, an abstract class with a Rust implementation for a Rust
/// trait, a class otherwise; `emitted` are the support names emitted so far.
pub open spec fn object_source_text(ci: ComponentInterface, o: Object, emitted: Set<Seq<char>>) -> Seq<char> {
    match o.imp {
        ObjectImpl::CallbackTrait => callback_bundle_text(
            o.name@,
            "FfiConverterCallbackInterface"@ + o.name@,
            o.methods@,
            ci.namespace@,
            emitted,
        ),
        ObjectImpl::Trait => trait_object_text(o),
        ObjectImpl::Struct => object_text(ci, o),
    }
}

/// The registry after generating an object.
pub open spec fn object_source_registry(o: Object, m: Map<Seq<char>, Type>) -> Map<Seq<char>, Type> {
    match o.imp {
        ObjectImpl::CallbackTrait => register_async_returns(m.insert(o.name@, object_type(o)), o.methods@),
        ObjectImpl::Trait => m.insert(o.name@, object_type(o)),
        ObjectImpl::Struct => object_registry(o, m),
    }
}

/// The support names emitted after generating an object.
pub open spec fn object_source_emitted(o: Object, emitted: Set<Seq<char>>) -> Set<Seq<char>> {
    match o.imp {
        ObjectImpl::CallbackTrait => async_support_fold(emitted, o.methods@).2,
        _ => emitted,
    }
}

/// Generates the Dart source of an object and registers its type and the
/// types it uses.
pub fn generate_object(ci: &ComponentInterface, o: &Object, reg: &mut TypeHelpersRenderer) -> (r: String)
    requires
        old(reg).well_formed(),
        object_generable(*o),
    ensures
        final(reg).well_formed(),
        r@ == object_source_text(*ci, *o, old(reg).custom_names()),
        final(reg).helpers() == object_source_registry(*o, old(reg).helpers()),
        final(reg).custom_names() == object_source_emitted(*o, old(reg).custom_names()),
{
    let t = object_type_exec(o);
    match o.imp {
        ObjectImpl::CallbackTrait => {
            reg.include_once_check(o.name.as_str(), &t);
            let conv = ffi_converter_name(&t);
            generate_callback_bundle(o.name.as_str(), conv.as_str(), &o.methods, ci.namespace.as_str(), reg)
        },
        ObjectImpl::Trait => {
            reg.include_once_check(o.name.as_str(), &t);
            let r = generate_trait_object(o, reg);
            assert(reg.helpers() =~= old(reg).helpers().insert(o.name@, object_type(*o)));
            r
        },
        ObjectImpl::Struct => {
            let ghost m0 = reg.helpers();
            reg.include_once_check(o.name.as_str(), &t);
            assert(reg.helpers().insert(o.name@, object_type(*o)) =~= m0.insert(o.name@, object_type(*o)));
            generate_object_class(ci, o, reg)
        },
    }
}

/// The aliases a custom type is given: its class and converter are those
/// of its builtin type.
pub open spec fn custom_helper_text(name: Seq<char>, builtin: Type) -> Seq<char> {
    "typedef "@ + class_name_spec(name) + " = "@ + type_label_spec(builtin) + ";\ntypedef FfiConverter"@
        + class_name_spec(name) + " = "@ + ffi_converter_name_spec(builtin) + ";\n"@
}

/// Whether the helper of `t` can be rendered: a named definition must exist
/// unless a helper is registered under its name already, and a callback
/// interface's definition must exist.
pub open spec fn helper_ok(ci: ComponentInterface, t: Type, m: Map<Seq<char>, Type>) -> bool {
    match t {
        Type::Record { name } => m.contains_key(name@) || (find_record(ci.records@, name@) matches Some(
            r,
        ) && record_fields_typed(r)),
        Type::Enum { name } => m.contains_key(class_name_spec(name@)) || find_enum(ci.enums@, name@) is Some,
        Type::Object { name, .. } => m.contains_key(name@) || (find_object(ci.objects@, name@) matches Some(
            o,
        ) && object_generable(o)),
        Type::CallbackInterface { name } => find_callback(ci.callback_interfaces@, name@) is Some,
        _ => true,
    }
}

/// The helper text of a type, given the registry and the support names
/// emitted so far. Named definitions already registered render nothing;
/// the helpers of strings, booleans and durations are not generated here.
#[verifier::opaque]
pub open spec fn helper_text(ci: ComponentInterface, t: Type, m: Map<Seq<char>, Type>, emitted: Set<Seq<char>>) -> Seq<char> {
    match t {
        Type::Optional { .. } => optional_helper_spec(t, m).0,
        Type::Sequence { .. } => sequence_helper_spec(t, m).0,
        Type::Dict { .. } => map_helper_spec(t, m).0,
        Type::Record { name } => record_helper_text(ci, m, name@),
        Type::Enum { name } => if m.contains_key(class_name_spec(name@)) {
            Seq::empty()
        } else {
            enum_text(ci, find_enum(ci.enums@, name@)->0)
        },
        Type::Object { name, .. } => if m.contains_key(name@) {
            Seq::empty()
        } else {
            object_source_text(ci, find_object(ci.objects@, name@)->0, emitted)
        },
        Type::CallbackInterface { name } => {
            let cb = find_callback(ci.callback_interfaces@, name@)->0;
            callback_bundle_text(
                cb.name@,
                "FfiConverterCallbackInterface"@ + class_name_spec(name@),
                cb.methods@,
                ci.namespace@,
                emitted,
            )
        },
        Type::Custom { name, builtin } => custom_helper_text(name@, *builtin),
        _ => if has_primitive_helper(t) {
            primitive_helper_text(t)
        } else {
            Seq::empty()
        },
    }
}

/// The registry after rendering the helper of a type.
pub open spec fn helper_registry(ci: ComponentInterface, t: Type, m: Map<Seq<char>, Type>) -> Map<Seq<char>, Type> {
    match t {
        Type::Optional { .. } => optional_helper_spec(t, m).1,
        Type::Sequence { .. } => sequence_helper_spec(t, m).1,
        Type::Dict { .. } => map_helper_spec(t, m).1,
        Type::Record { name } => if m.contains_key(name@) {
            m
        } else {
            register_fields(m, find_record(ci.records@, name@)->0.fields@)
        },
        Type::Enum { name } => if m.contains_key(class_name_spec(name@)) {
            m
        } else {
            enum_registry(find_enum(ci.enums@, name@)->0, m)
        },
        Type::Object { name, .. } => if m.contains_key(name@) {
            m
        } else {
            object_source_registry(find_object(ci.objects@, name@)->0, m)
        },
        Type::CallbackInterface { name } => register_async_returns(
            m.insert("CallbackInterface"@ + class_name_spec(name@), t),
            find_callback(ci.callback_interfaces@, name@)->0.methods@,
        ),
        Type::Custom { name, .. } => m.insert(name@, t),
        _ => m,
    }
}

/// The support names emitted after rendering the helper of a type.
pub open spec fn helper_emitted(ci: ComponentInterface, t: Type, m: Map<Seq<char>, Type>, emitted: Set<Seq<char>>) -> Set<Seq<char>> {
    match t {
        Type::Object { name, .. } => if m.contains_key(name@) {
            emitted
        } else {
            object_source_emitted(find_object(ci.objects@, name@)->0, emitted)
        },
        Type::CallbackInterface { name } => async_support_fold(
            emitted,
            find_callback(ci.callback_interfaces@, name@)->0.methods@,
        ).2,
        _ => emitted,
    }
}

/// The helper text of a type, with the registry and the support names
/// after it.
pub open spec fn helper_spec(
    ci: ComponentInterface,
    t: Type,
    m: Map<Seq<char>, Type>,
    emitted: Set<Seq<char>>,
) -> (Seq<char>, Map<Seq<char>, Type>, Set<Seq<char>>) {
    (helper_text(ci, t, m, emitted), helper_registry(ci, t, m), helper_emitted(ci, t, m, emitted))
}

/// Renders the converter helper of a type.
pub fn render_type_helper(ci: &ComponentInterface, reg: &mut TypeHelpersRenderer, t: &Type) -> (r: String)
    requires
        old(reg).well_formed(),
        helper_ok(*ci, *t, old(reg).helpers()),
    ensures
        final(reg).well_formed(),
        (r@, final(reg).helpers(), final(reg).custom_names()) == helper_spec(
            *ci,
            *t,
            old(reg).helpers(),
            old(reg).custom_names(),
        ),
{
    proof {
        reveal(helper_text);
    }
    match t {
        Type::Optional { .. } => render_optional_helper(reg, t),
        Type::Sequence { .. } => render_sequence_helper(reg, t),
        Type::Dict { .. } => render_map_helper(reg, t),
        Type::Record { name } => render_record_helper(ci, reg, name.as_str()),
        Type::Enum { name } => {
            let canon = class_name(name.as_str());
            if reg.check(canon.as_str()) {
                String::new()
            } else {
                match ci.get_enum(name.as_str()) {
                    Some(e) => generate_enum(ci, e, reg),
                    None => String::new(),
                }
            }
        },
        Type::Object { name, .. } => {
            if reg.check(name.as_str()) {
                String::new()
            } else {
                match ci.get_object(name.as_str()) {
                    Some(o) => generate_object(ci, o, reg),
                    None => String::new(),
                }
            }
        },
        Type::CallbackInterface { name } => {
            let cls = class_name(name.as_str());
            let canon = concat2("CallbackInterface", cls.as_str());
            reg.include_once_check(canon.as_str(), t);
            match ci.get_callback_interface(name.as_str()) {
                Some(cb) => {
                    let conv = concat2("FfiConverterCallbackInterface", cls.as_str());
                    generate_callback_bundle(cb.name.as_str(), conv.as_str(), &cb.methods, ci.namespace.as_str(), reg)
                },
                None => String::new(),
            }
        },
        Type::Custom { name, builtin } => {
            reg.include_once_check(name.as_str(), t);
            let cls = class_name(name.as_str());
            let label = type_label(builtin);
            let conv = ffi_converter_name(builtin);
            let a = concat3("typedef ", cls.as_str(), " = ");
            let a = concat3(a.as_str(), label.as_str(), ";\ntypedef FfiConverter");
            let a = concat3(a.as_str(), cls.as_str(), " = ");
            concat3(a.as_str(), conv.as_str(), ";\n")
        },
        Type::Int8 | Type::Int16 | Type::Int32 | Type::Int64 | Type::UInt8 | Type::UInt16 | Type::UInt32
        | Type::UInt64 | Type::Float32 | Type::Float64 | Type::Bytes => render_primitive_type_helper(t),
        _ => String::new(),
    }
}

/// The fixed runtime support of the generated source around the imports, the type definitions and the type helpers.
pub open spec fn prelude_spec(imports: Seq<char>, defs: Seq<char>, alloc: Seq<char>, from_bytes: Seq<char>, free: Seq<char>, reserve: Seq<char>, helpers: Seq<char>) -> Seq<char> {
    "import \"dart:async\";\nimport \"dart:convert\";\nimport \"dart:ffi\";\nimport \"dart:io\" show Platform, File, Directory;\nimport \"dart:isolate\";\nimport \"dart:typed_data\";\nimport \"package:ffi/ffi.dart\";\n"@ +
    imports +
    "\n"@ +
    defs +
    "\nclass UniffiInternalError implements Exception {\n  static const int bufferOverflow = 0;\n  static const int incompleteData = 1;\n  static const int unexpectedOptionalTag = 2;\n  static const int unexpectedEnumCase = 3;\n  static const int unexpectedNullPointer = 4;\n  static const int unexpectedRustCallStatusCode = 5;\n  static const int unexpectedRustCallError = 6;\n  static const int unexpectedStaleHandle = 7;\n  static const int rustPanic = 8;\n\n  final int errorCode;\n  final String? panicMessage;\n\n  const UniffiInternalError(this.errorCode, this.panicMessage);\n\n  static UniffiInternalError panicked(String message) {\n    return UniffiInternalError(rustPanic, message);\n  }\n\n  @override\n  String toString() {\n    switch (errorCode) {\n      case bufferOverflow:\n        return \"UniFfi::BufferOverflow\";\n      case incompleteData:\n        return \"UniFfi::IncompleteData\";\n      case unexpectedOptionalTag:\n        return \"UniFfi::UnexpectedOptionalTag\";\n      case unexpectedEnumCase:\n        return \"UniFfi::UnexpectedEnumCase\";\n      case unexpectedNullPointer:\n        return \"UniFfi::UnexpectedNullPointer\";\n      case unexpectedRustCallStatusCode:\n        return \"UniFfi::UnexpectedRustCallStatusCode\";\n      case unexpectedRustCallError:\n        return \"UniFfi::UnexpectedRustCallError\";\n      case unexpectedStaleHandle:\n        return \"UniFfi::UnexpectedStaleHandle\";\n      case rustPanic:\n        return \"UniFfi::rustPanic: $panicMessage\";\n      default:\n        return \"UniFfi::UnknownError: $errorCode\";\n    }\n  }\n}\n\nconst int CALL_SUCCESS = 0;\nconst int CALL_ERROR = 1;\nconst int CALL_UNEXPECTED_ERROR = 2;\n\nfinal class RustCallStatus extends Struct {\n  @Int8()\n  external int code;\n\n  external RustBuffer errorBuf;\n}\n\nvoid checkCallStatus(UniffiRustCallStatusErrorHandler errorHandler, Pointer<RustCallStatus> status) {\n  if (status.ref.code == CALL_SUCCESS) {\n    return;\n  } else if (status.ref.code == CALL_ERROR) {\n    throw errorHandler.lift(status.ref.errorBuf);\n  } else if (status.ref.code == CALL_UNEXPECTED_ERROR) {\n    if (status.ref.errorBuf.len > 0) {\n      throw UniffiInternalError.panicked(FfiConverterString.lift(status.ref.errorBuf));\n    } else {\n      throw UniffiInternalError.panicked(\"Rust panic\");\n    }\n  } else {\n    throw UniffiInternalError.panicked(\"Unexpected RustCallStatus code: ${status.ref.code}\");\n  }\n}\n\nT rustCall<T>(T Function(Pointer<RustCallStatus>) callback, [UniffiRustCallStatusErrorHandler? errorHandler]) {\n  final status = calloc<RustCallStatus>();\n  try {\n    final result = callback(status);\n    checkCallStatus(errorHandler ?? NullRustCallStatusErrorHandler(), status);\n    return result;\n  } finally {\n    calloc.free(status);\n  }\n}\n\nT rustCallWithLifter<T, F>(F Function(Pointer<RustCallStatus>) ffiCall, T Function(F) lifter, [UniffiRustCallStatusErrorHandler? errorHandler]) {\n  final status = calloc<RustCallStatus>();\n  try {\n    final rawResult = ffiCall(status);\n    checkCallStatus(errorHandler ?? NullRustCallStatusErrorHandler(), status);\n    return lifter(rawResult);\n  } finally {\n    calloc.free(status);\n  }\n}\n\nclass NullRustCallStatusErrorHandler extends UniffiRustCallStatusErrorHandler {\n  @override\n  Exception lift(RustBuffer errorBuf) {\n    errorBuf.free();\n    return UniffiInternalError.panicked(\"Unexpected CALL_ERROR\");\n  }\n}\n\nabstract class UniffiRustCallStatusErrorHandler {\n  Exception lift(RustBuffer errorBuf);\n}\n\nfinal class RustBuffer extends Struct {\n  @Uint64()\n  external int capacity;\n\n  @Uint64()\n  external int len;\n\n  external Pointer<Uint8> data;\n\n  static RustBuffer alloc(int size) {\n    return rustCall((status) => "@ +
    alloc +
    "(size, status));\n  }\n\n  static RustBuffer fromBytes(ForeignBytes bytes) {\n    return rustCall((status) => "@ +
    from_bytes +
    "(bytes, status));\n  }\n\n  void free() {\n    rustCall((status) => "@ +
    free +
    "(this, status));\n  }\n\n  RustBuffer reserve(int additionalCapacity) {\n    return rustCall((status) => "@ +
    reserve +
    "(this, additionalCapacity, status));\n  }\n\n  Uint8List asUint8List() {\n    final dataList = data.asTypedList(len);\n    final byteData = ByteData.sublistView(dataList);\n    return Uint8List.view(byteData.buffer);\n  }\n\n  @override\n  String toString() {\n    return \"RustBuffer{capacity: $capacity, len: $len, data: $data}\";\n  }\n}\n\nRustBuffer toRustBuffer(Uint8List data) {\n  final length = data.length;\n\n  final Pointer<Uint8> frameData = calloc<Uint8>(length);\n  final pointerList = frameData.asTypedList(length);\n  pointerList.setAll(0, data);\n\n  final bytes = calloc<ForeignBytes>();\n  bytes.ref.len = length;\n  bytes.ref.data = frameData;\n  return RustBuffer.fromBytes(bytes.ref);\n}\n\nfinal class ForeignBytes extends Struct {\n  @Int32()\n  external int len;\n  external Pointer<Uint8> data;\n\n  void free() {\n    calloc.free(data);\n  }\n}\n\nclass LiftRetVal<T> {\n  final T value;\n  final int bytesRead;\n  const LiftRetVal(this.value, this.bytesRead);\n\n  LiftRetVal<T> copyWithOffset(int offset) {\n    return LiftRetVal(value, bytesRead + offset);\n  }\n}\n\nabstract class FfiConverter<D, F> {\n  const FfiConverter();\n\n  D lift(F value);\n  F lower(D value);\n  D read(ByteData buffer, int offset);\n  void write(D value, ByteData buffer, int offset);\n  int size(D value);\n}\n\nmixin FfiConverterPrimitive<T> on FfiConverter<T, T> {\n  @override\n  T lift(T value) => value;\n\n  @override\n  T lower(T value) => value;\n}\n\nUint8List createUint8ListFromInt(int value) {\n  int length = value.bitLength ~/ 8 + 1;\n\n  if (length != 4 && length != 8) {\n    length = (value < 0x100000000) ? 4 : 8;\n  }\n\n  Uint8List uint8List = Uint8List(length);\n\n  for (int i = length - 1; i >= 0; i--) {\n    uint8List[i] = value & 0xFF;\n    value >>= 8;\n  }\n\n  return uint8List;\n}\n\n"@ +
    helpers +
    "\nconst int UNIFFI_RUST_FUTURE_POLL_READY = 0;\nconst int UNIFFI_RUST_FUTURE_POLL_MAYBE_READY = 1;\n\ntypedef UniffiRustFutureContinuationCallback = Void Function(Uint64, Int8);\n\nfinal _uniffiRustFutureContinuationHandles = UniffiHandleMap<Completer<int>>();\n\nFuture<T> uniffiRustCallAsync<T, F>(\n  Pointer<Void> Function() rustFutureFunc,\n  void Function(Pointer<Void>, Pointer<NativeFunction<UniffiRustFutureContinuationCallback>>, Pointer<Void>) pollFunc,\n  F Function(Pointer<Void>, Pointer<RustCallStatus>) completeFunc,\n  void Function(Pointer<Void>) freeFunc,\n  T Function(F) liftFunc, [\n  UniffiRustCallStatusErrorHandler? errorHandler,\n]) async {\n  final rustFuture = rustFutureFunc();\n  final completer = Completer<int>();\n  final handle = _uniffiRustFutureContinuationHandles.insert(completer);\n  final callbackData = Pointer<Void>.fromAddress(handle);\n\n  late final NativeCallable<UniffiRustFutureContinuationCallback> callback;\n\n  void repoll() {\n    pollFunc(\n      rustFuture,\n      callback.nativeFunction,\n      callbackData,\n    );\n  }\n\n  void onResponse(int data, int pollResult) {\n    if (pollResult == UNIFFI_RUST_FUTURE_POLL_READY) {\n      final readyCompleter = _uniffiRustFutureContinuationHandles.maybeRemove(data);\n      if (readyCompleter != null && !readyCompleter.isCompleted) {\n        readyCompleter.complete(pollResult);\n      }\n    } else if (pollResult == UNIFFI_RUST_FUTURE_POLL_MAYBE_READY) {\n      repoll();\n    } else {\n      final errorCompleter = _uniffiRustFutureContinuationHandles.maybeRemove(data);\n      if (errorCompleter != null && !errorCompleter.isCompleted) {\n        errorCompleter.completeError(\n          UniffiInternalError.panicked(\n            \"Unexpected poll result from Rust future: $pollResult\",\n          ),\n        );\n      }\n    }\n  }\n\n  callback = NativeCallable<UniffiRustFutureContinuationCallback>.listener(\n    onResponse,\n  );\n\n  try {\n    repoll();\n    await completer.future;\n\n    final status = calloc<RustCallStatus>();\n    try {\n      final result = completeFunc(rustFuture, status);\n      checkCallStatus(\n        errorHandler ?? NullRustCallStatusErrorHandler(),\n        status,\n      );\n      return liftFunc(result);\n    } finally {\n      calloc.free(status);\n    }\n  } finally {\n    callback.close();\n    _uniffiRustFutureContinuationHandles.maybeRemove(handle);\n    freeFunc(rustFuture);\n  }\n}\n\ntypedef UniffiForeignFutureFree = Void Function(Uint64);\ntypedef UniffiForeignFutureFreeDart = void Function(int);\n\nclass _UniffiForeignFutureState {\n  bool cancelled = false;\n}\n\nfinal _uniffiForeignFutureHandleMap = UniffiHandleMap<_UniffiForeignFutureState>();\n\nvoid _uniffiForeignFutureFree(int handle) {\n  final state = _uniffiForeignFutureHandleMap.maybeRemove(handle);\n  if (state != null) {\n    state.cancelled = true;\n  }\n}\n\nfinal Pointer<NativeFunction<UniffiForeignFutureFree>>\n    _uniffiForeignFutureFreePointer =\n    Pointer.fromFunction<UniffiForeignFutureFree>(_uniffiForeignFutureFree);\n\nfinal class UniffiForeignFuture extends Struct {\n  @Uint64()\n  external int handle;\n\n  external Pointer<NativeFunction<UniffiForeignFutureFree>> free;\n}\n\nclass UniffiHandleMap<T> {\n  final Map<int, T> _map = {};\n  int _counter = 1;\n\n  int insert(T obj) {\n    final handle = _counter;\n    _counter += 2;\n    _map[handle] = obj;\n    return handle;\n  }\n\n  T get(int handle) {\n    final obj = _map[handle];\n    if (obj == null) {\n      throw UniffiInternalError(\n          UniffiInternalError.unexpectedStaleHandle, \"Handle not found\");\n    }\n    return obj;\n  }\n\n  T remove(int handle) {\n    final obj = maybeRemove(handle);\n    if (obj == null) {\n      throw UniffiInternalError(\n          UniffiInternalError.unexpectedStaleHandle, \"Handle not found\");\n    }\n    return obj;\n  }\n\n  T? maybeRemove(int handle) {\n    return _map.remove(handle);\n  }\n}\n"@
}

fn prelude(imports: &str, defs: &str, alloc: &str, from_bytes: &str, free: &str, reserve: &str, helpers: &str) -> (s: String)
    ensures
        s@ == prelude_spec(imports@, defs@, alloc@, from_bytes@, free@, reserve@, helpers@),
{
    let mut s = String::from_str("import \"dart:async\";\nimport \"dart:convert\";\nimport \"dart:ffi\";\nimport \"dart:io\" show Platform, File, Directory;\nimport \"dart:isolate\";\nimport \"dart:typed_data\";\nimport \"package:ffi/ffi.dart\";\n");
    s.append(imports);
    s.append("\n");
    s.append(defs);
    s.append("\nclass UniffiInternalError implements Exception {\n  static const int bufferOverflow = 0;\n  static const int incompleteData = 1;\n  static const int unexpectedOptionalTag = 2;\n  static const int unexpectedEnumCase = 3;\n  static const int unexpectedNullPointer = 4;\n  static const int unexpectedRustCallStatusCode = 5;\n  static const int unexpectedRustCallError = 6;\n  static const int unexpectedStaleHandle = 7;\n  static const int rustPanic = 8;\n\n  final int errorCode;\n  final String? panicMessage;\n\n  const UniffiInternalError(this.errorCode, this.panicMessage);\n\n  static UniffiInternalError panicked(String message) {\n    return UniffiInternalError(rustPanic, message);\n  }\n\n  @override\n  String toString() {\n    switch (errorCode) {\n      case bufferOverflow:\n        return \"UniFfi::BufferOverflow\";\n      case incompleteData:\n        return \"UniFfi::IncompleteData\";\n      case unexpectedOptionalTag:\n        return \"UniFfi::UnexpectedOptionalTag\";\n      case unexpectedEnumCase:\n        return \"UniFfi::UnexpectedEnumCase\";\n      case unexpectedNullPointer:\n        return \"UniFfi::UnexpectedNullPointer\";\n      case unexpectedRustCallStatusCode:\n        return \"UniFfi::UnexpectedRustCallStatusCode\";\n      case unexpectedRustCallError:\n        return \"UniFfi::UnexpectedRustCallError\";\n      case unexpectedStaleHandle:\n        return \"UniFfi::UnexpectedStaleHandle\";\n      case rustPanic:\n        return \"UniFfi::rustPanic: $panicMessage\";\n      default:\n        return \"UniFfi::UnknownError: $errorCode\";\n    }\n  }\n}\n\nconst int CALL_SUCCESS = 0;\nconst int CALL_ERROR = 1;\nconst int CALL_UNEXPECTED_ERROR = 2;\n\nfinal class RustCallStatus extends Struct {\n  @Int8()\n  external int code;\n\n  external RustBuffer errorBuf;\n}\n\nvoid checkCallStatus(UniffiRustCallStatusErrorHandler errorHandler, Pointer<RustCallStatus> status) {\n  if (status.ref.code == CALL_SUCCESS) {\n    return;\n  } else if (status.ref.code == CALL_ERROR) {\n    throw errorHandler.lift(status.ref.errorBuf);\n  } else if (status.ref.code == CALL_UNEXPECTED_ERROR) {\n    if (status.ref.errorBuf.len > 0) {\n      throw UniffiInternalError.panicked(FfiConverterString.lift(status.ref.errorBuf));\n    } else {\n      throw UniffiInternalError.panicked(\"Rust panic\");\n    }\n  } else {\n    throw UniffiInternalError.panicked(\"Unexpected RustCallStatus code: ${status.ref.code}\");\n  }\n}\n\nT rustCall<T>(T Function(Pointer<RustCallStatus>) callback, [UniffiRustCallStatusErrorHandler? errorHandler]) {\n  final status = calloc<RustCallStatus>();\n  try {\n    final result = callback(status);\n    checkCallStatus(errorHandler ?? NullRustCallStatusErrorHandler(), status);\n    return result;\n  } finally {\n    calloc.free(status);\n  }\n}\n\nT rustCallWithLifter<T, F>(F Function(Pointer<RustCallStatus>) ffiCall, T Function(F) lifter, [UniffiRustCallStatusErrorHandler? errorHandler]) {\n  final status = calloc<RustCallStatus>();\n  try {\n    final rawResult = ffiCall(status);\n    checkCallStatus(errorHandler ?? NullRustCallStatusErrorHandler(), status);\n    return lifter(rawResult);\n  } finally {\n    calloc.free(status);\n  }\n}\n\nclass NullRustCallStatusErrorHandler extends UniffiRustCallStatusErrorHandler {\n  @override\n  Exception lift(RustBuffer errorBuf) {\n    errorBuf.free();\n    return UniffiInternalError.panicked(\"Unexpected CALL_ERROR\");\n  }\n}\n\nabstract class UniffiRustCallStatusErrorHandler {\n  Exception lift(RustBuffer errorBuf);\n}\n\nfinal class RustBuffer extends Struct {\n  @Uint64()\n  external int capacity;\n\n  @Uint64()\n  external int len;\n\n  external Pointer<Uint8> data;\n\n  static RustBuffer alloc(int size) {\n    return rustCall((status) => ");
    s.append(alloc);
    s.append("(size, status));\n  }\n\n  static RustBuffer fromBytes(ForeignBytes bytes) {\n    return rustCall((status) => ");
    s.append(from_bytes);
    s.append("(bytes, status));\n  }\n\n  void free() {\n    rustCall((status) => ");
    s.append(free);
    s.append("(this, status));\n  }\n\n  RustBuffer reserve(int additionalCapacity) {\n    return rustCall((status) => ");
    s.append(reserve);
    s.append("(this, additionalCapacity, status));\n  }\n\n  Uint8List asUint8List() {\n    final dataList = data.asTypedList(len);\n    final byteData = ByteData.sublistView(dataList);\n    return Uint8List.view(byteData.buffer);\n  }\n\n  @override\n  String toString() {\n    return \"RustBuffer{capacity: $capacity, len: $len, data: $data}\";\n  }\n}\n\nRustBuffer toRustBuffer(Uint8List data) {\n  final length = data.length;\n\n  final Pointer<Uint8> frameData = calloc<Uint8>(length);\n  final pointerList = frameData.asTypedList(length);\n  pointerList.setAll(0, data);\n\n  final bytes = calloc<ForeignBytes>();\n  bytes.ref.len = length;\n  bytes.ref.data = frameData;\n  return RustBuffer.fromBytes(bytes.ref);\n}\n\nfinal class ForeignBytes extends Struct {\n  @Int32()\n  external int len;\n  external Pointer<Uint8> data;\n\n  void free() {\n    calloc.free(data);\n  }\n}\n\nclass LiftRetVal<T> {\n  final T value;\n  final int bytesRead;\n  const LiftRetVal(this.value, this.bytesRead);\n\n  LiftRetVal<T> copyWithOffset(int offset) {\n    return LiftRetVal(value, bytesRead + offset);\n  }\n}\n\nabstract class FfiConverter<D, F> {\n  const FfiConverter();\n\n  D lift(F value);\n  F lower(D value);\n  D read(ByteData buffer, int offset);\n  void write(D value, ByteData buffer, int offset);\n  int size(D value);\n}\n\nmixin FfiConverterPrimitive<T> on FfiConverter<T, T> {\n  @override\n  T lift(T value) => value;\n\n  @override\n  T lower(T value) => value;\n}\n\nUint8List createUint8ListFromInt(int value) {\n  int length = value.bitLength ~/ 8 + 1;\n\n  if (length != 4 && length != 8) {\n    length = (value < 0x100000000) ? 4 : 8;\n  }\n\n  Uint8List uint8List = Uint8List(length);\n\n  for (int i = length - 1; i >= 0; i--) {\n    uint8List[i] = value & 0xFF;\n    value >>= 8;\n  }\n\n  return uint8List;\n}\n\n");
    s.append(helpers);
    s.append("\nconst int UNIFFI_RUST_FUTURE_POLL_READY = 0;\nconst int UNIFFI_RUST_FUTURE_POLL_MAYBE_READY = 1;\n\ntypedef UniffiRustFutureContinuationCallback = Void Function(Uint64, Int8);\n\nfinal _uniffiRustFutureContinuationHandles = UniffiHandleMap<Completer<int>>();\n\nFuture<T> uniffiRustCallAsync<T, F>(\n  Pointer<Void> Function() rustFutureFunc,\n  void Function(Pointer<Void>, Pointer<NativeFunction<UniffiRustFutureContinuationCallback>>, Pointer<Void>) pollFunc,\n  F Function(Pointer<Void>, Pointer<RustCallStatus>) completeFunc,\n  void Function(Pointer<Void>) freeFunc,\n  T Function(F) liftFunc, [\n  UniffiRustCallStatusErrorHandler? errorHandler,\n]) async {\n  final rustFuture = rustFutureFunc();\n  final completer = Completer<int>();\n  final handle = _uniffiRustFutureContinuationHandles.insert(completer);\n  final callbackData = Pointer<Void>.fromAddress(handle);\n\n  late final NativeCallable<UniffiRustFutureContinuationCallback> callback;\n\n  void repoll() {\n    pollFunc(\n      rustFuture,\n      callback.nativeFunction,\n      callbackData,\n    );\n  }\n\n  void onResponse(int data, int pollResult) {\n    if (pollResult == UNIFFI_RUST_FUTURE_POLL_READY) {\n      final readyCompleter = _uniffiRustFutureContinuationHandles.maybeRemove(data);\n      if (readyCompleter != null && !readyCompleter.isCompleted) {\n        readyCompleter.complete(pollResult);\n      }\n    } else if (pollResult == UNIFFI_RUST_FUTURE_POLL_MAYBE_READY) {\n      repoll();\n    } else {\n      final errorCompleter = _uniffiRustFutureContinuationHandles.maybeRemove(data);\n      if (errorCompleter != null && !errorCompleter.isCompleted) {\n        errorCompleter.completeError(\n          UniffiInternalError.panicked(\n            \"Unexpected poll result from Rust future: $pollResult\",\n          ),\n        );\n      }\n    }\n  }\n\n  callback = NativeCallable<UniffiRustFutureContinuationCallback>.listener(\n    onResponse,\n  );\n\n  try {\n    repoll();\n    await completer.future;\n\n    final status = calloc<RustCallStatus>();\n    try {\n      final result = completeFunc(rustFuture, status);\n      checkCallStatus(\n        errorHandler ?? NullRustCallStatusErrorHandler(),\n        status,\n      );\n      return liftFunc(result);\n    } finally {\n      calloc.free(status);\n    }\n  } finally {\n    callback.close();\n    _uniffiRustFutureContinuationHandles.maybeRemove(handle);\n    freeFunc(rustFuture);\n  }\n}\n\ntypedef UniffiForeignFutureFree = Void Function(Uint64);\ntypedef UniffiForeignFutureFreeDart = void Function(int);\n\nclass _UniffiForeignFutureState {\n  bool cancelled = false;\n}\n\nfinal _uniffiForeignFutureHandleMap = UniffiHandleMap<_UniffiForeignFutureState>();\n\nvoid _uniffiForeignFutureFree(int handle) {\n  final state = _uniffiForeignFutureHandleMap.maybeRemove(handle);\n  if (state != null) {\n    state.cancelled = true;\n  }\n}\n\nfinal Pointer<NativeFunction<UniffiForeignFutureFree>>\n    _uniffiForeignFutureFreePointer =\n    Pointer.fromFunction<UniffiForeignFutureFree>(_uniffiForeignFutureFree);\n\nfinal class UniffiForeignFuture extends Struct {\n  @Uint64()\n  external int handle;\n\n  external Pointer<NativeFunction<UniffiForeignFutureFree>> free;\n}\n\nclass UniffiHandleMap<T> {\n  final Map<int, T> _map = {};\n  int _counter = 1;\n\n  int insert(T obj) {\n    final handle = _counter;\n    _counter += 2;\n    _map[handle] = obj;\n    return handle;\n  }\n\n  T get(int handle) {\n    final obj = _map[handle];\n    if (obj == null) {\n      throw UniffiInternalError(\n          UniffiInternalError.unexpectedStaleHandle, \"Handle not found\");\n    }\n    return obj;\n  }\n\n  T remove(int handle) {\n    final obj = maybeRemove(handle);\n    if (obj == null) {\n      throw UniffiInternalError(\n          UniffiInternalError.unexpectedStaleHandle, \"Handle not found\");\n    }\n    return obj;\n  }\n\n  T? maybeRemove(int handle) {\n    return _map.remove(handle);\n  }\n}\n");
    s
}

/// The two imports of an external module: plain, and under its name.
pub open spec fn import_line_spec(ns: Seq<char>) -> Seq<char> {
    "import \""@ +
    ns +
    ".dart\";\nimport \""@ +
    ns +
    ".dart\" as "@ +
    ns +
    ";\n"@
}

fn import_line(ns: &str) -> (s: String)
    ensures
        s@ == import_line_spec(ns@),
{
    let mut s = String::from_str("import \"");
    s.append(ns);
    s.append(".dart\";\nimport \"");
    s.append(ns);
    s.append(".dart\" as ");
    s.append(ns);
    s.append(";\n");
    s
}

/// The Dart source of the records, with the registry after them.
pub open spec fn records_fold(rs: Seq<Record>, m: Map<Seq<char>, Type>) -> (Seq<char>, Map<Seq<char>, Type>)
    decreases rs.len(),
{
    if rs.len() == 0 {
        (Seq::empty(), m)
    } else {
        let p = records_fold(rs.drop_last(), m);
        (p.0 + record_text(rs.last()), register_fields(p.1, rs.last().fields@))
    }
}

/// The Dart source of the enums, with the registry after them.
pub open spec fn enums_fold(ci: ComponentInterface, es: Seq<Enum>, m: Map<Seq<char>, Type>) -> (Seq<char>, Map<Seq<char>, Type>)
    decreases es.len(),
{
    if es.len() == 0 {
        (Seq::empty(), m)
    } else {
        let p = enums_fold(ci, es.drop_last(), m);
        (p.0 + enum_text(ci, es.last()), enum_registry(es.last(), p.1))
    }
}

/// The Dart source of the objects, with the registry and the emitted
/// support names after them.
pub open spec fn objects_fold(
    ci: ComponentInterface,
    os: Seq<Object>,
    m: Map<Seq<char>, Type>,
    emitted: Set<Seq<char>>,
) -> (Seq<char>, Map<Seq<char>, Type>, Set<Seq<char>>)
    decreases os.len(),
{
    if os.len() == 0 {
        (Seq::empty(), m, emitted)
    } else {
        let p = objects_fold(ci, os.drop_last(), m, emitted);
        let o = os.last();
        (p.0 + object_source_text(ci, o, p.2), object_source_registry(o, p.1), object_source_emitted(o, p.2))
    }
}

/// The definitions of the interface's types: records, enums, objects.
pub open spec fn defs_spec(ci: ComponentInterface, m: Map<Seq<char>, Type>, emitted: Set<Seq<char>>) -> (
    Seq<char>,
    Map<Seq<char>, Type>,
    Set<Seq<char>>,
) {
    let r = records_fold(ci.records@, m);
    let e = enums_fold(ci, ci.enums@, r.1);
    let o = objects_fold(ci, ci.objects@, e.1, emitted);
    (r.0 + e.0 + o.0, o.1, o.2)
}

/// The helpers of the types, in order, threading the registry and the
/// emitted support names.
pub open spec fn helpers_fold(
    ci: ComponentInterface,
    ts: Seq<Type>,
    m: Map<Seq<char>, Type>,
    emitted: Set<Seq<char>>,
) -> (Seq<char>, Map<Seq<char>, Type>, Set<Seq<char>>)
    decreases ts.len(),
{
    if ts.len() == 0 {
        (Seq::empty(), m, emitted)
    } else {
        let p = helpers_fold(ci, ts.drop_last(), m, emitted);
        let h = helper_spec(ci, ts.last(), p.1, p.2);
        (p.0 + h.0, h.1, h.2)
    }
}

/// The Dart source of the functions.
pub open spec fn functions_text(fs: Seq<Callable>) -> Seq<char> {
    concat_all(Seq::new(fs.len(), |i: int| function_text(fs[i])))
}

/// The registry whose helpers are rendered: after the definitions, every
/// type the interface uses, and strings.
pub open spec fn snapshot(ci: ComponentInterface, m: Map<Seq<char>, Type>, emitted: Set<Seq<char>>) -> Map<Seq<char>, Type> {
    reg_tree(walk(ci, defs_spec(ci, m, emitted).1), Type::String)
}

/// The types registered in `s`, in the order of their names.
pub open spec fn types_in_name_order(s: Map<Seq<char>, Type>) -> Seq<Type> {
    sorted_of(s.dom()).map_values(|k: Seq<char>| s[k])
}

/// The imports of the external modules, each module once, in name order.
pub open spec fn imports_text(ci: ComponentInterface) -> Seq<char> {
    let ns = sorted_of(views(ci.external_namespaces@).to_set());
    concat_all(Seq::new(ns.len(), |i: int| import_line_spec(ns[i])))
}

/// The Dart source of the type helpers and runtime support, and that of the
/// functions.
pub open spec fn render_spec(ci: ComponentInterface, m: Map<Seq<char>, Type>, emitted: Set<Seq<char>>) -> (Seq<char>, Seq<char>) {
    let d = defs_spec(ci, m, emitted);
    let s = snapshot(ci, m, emitted);
    let h = helpers_fold(ci, types_in_name_order(s), s, d.2);
    (
        prelude_spec(
            imports_text(ci),
            d.0,
            ci.ffi_rustbuffer_alloc@,
            ci.ffi_rustbuffer_from_bytes@,
            ci.ffi_rustbuffer_free@,
            ci.ffi_rustbuffer_reserve@,
            h.0,
        ),
        functions_text(ci.functions@),
    )
}

/// The registry and the emitted support names that rendering leaves: those
/// after the helpers of every type of the snapshot are rendered.
pub open spec fn render_state(ci: ComponentInterface, m: Map<Seq<char>, Type>, emitted: Set<Seq<char>>) -> (Map<Seq<char>, Type>, Set<Seq<char>>) {
    let d = defs_spec(ci, m, emitted);
    let s = snapshot(ci, m, emitted);
    let h = helpers_fold(ci, types_in_name_order(s), s, d.2);
    (h.1, h.2)
}

/// What rendering needs of the interface: records whose fields have Dart
/// types, objects whose helpers can be made, and a definition for every
/// callback interface that is registered.
pub open spec fn renderable(ci: ComponentInterface, m: Map<Seq<char>, Type>, emitted: Set<Seq<char>>) -> bool {
    &&& forall|i: int| 0 <= i < ci.records@.len() ==> record_fields_typed(#[trigger] ci.records@[i])
    &&& forall|i: int| 0 <= i < ci.objects@.len() ==> object_generable(#[trigger] ci.objects@[i])
    &&& forall|k: Seq<char>| #[trigger] snapshot(ci, m, emitted).contains_key(k) ==> (snapshot(ci, m, emitted)[k] matches Type::CallbackInterface { name }
        ==> find_callback(ci.callback_interfaces@, name@) is Some)
}

proof fn lemma_object_source_registry(o: Object, m: Map<Seq<char>, Type>)
    ensures
        keeps(m, object_source_registry(o, m)),
{
    lemma_object_registry(o, m);
    let a = m.insert(o.name@, object_type(o));
    match o.imp {
        ObjectImpl::CallbackTrait => {
            lemma_register_async_returns(a, o.methods@);
            lemma_keeps_trans(m, a, object_source_registry(o, m));
        },
        _ => {},
    }
}

proof fn lemma_records_fold(rs: Seq<Record>, m: Map<Seq<char>, Type>)
    ensures
        keeps(m, records_fold(rs, m).1),
    decreases rs.len(),
{
    if rs.len() == 0 {
        lemma_keeps_refl(m);
    } else {
        lemma_records_fold(rs.drop_last(), m);
        let a = records_fold(rs.drop_last(), m).1;
        lemma_register_fields(a, rs.last().fields@);
        lemma_keeps_trans(m, a, records_fold(rs, m).1);
    }
}

proof fn lemma_enums_fold(ci: ComponentInterface, es: Seq<Enum>, m: Map<Seq<char>, Type>)
    ensures
        keeps(m, enums_fold(ci, es, m).1),
    decreases es.len(),
{
    if es.len() == 0 {
        lemma_keeps_refl(m);
    } else {
        lemma_enums_fold(ci, es.drop_last(), m);
        let a = enums_fold(ci, es.drop_last(), m).1;
        lemma_enum_registry(es.last(), a);
        lemma_keeps_trans(m, a, enums_fold(ci, es, m).1);
    }
}

proof fn lemma_objects_fold(ci: ComponentInterface, os: Seq<Object>, m: Map<Seq<char>, Type>, e: Set<Seq<char>>)
    ensures
        keeps(m, objects_fold(ci, os, m, e).1),
    decreases os.len(),
{
    if os.len() == 0 {
        lemma_keeps_refl(m);
    } else {
        lemma_objects_fold(ci, os.drop_last(), m, e);
        let a = objects_fold(ci, os.drop_last(), m, e).1;
        lemma_object_source_registry(os.last(), a);
        lemma_keeps_trans(m, a, objects_fold(ci, os, m, e).1);
    }
}

/// Rendering is determined by the interface and the registry it starts
/// from: two registries with the same helpers and support names, such as two
/// new ones, give the same texts and leave the same registry; the second
/// text is that of the interface's functions, in order.
pub proof fn renderings_agree(ci: ComponentInterface, r1: TypeHelpersRenderer, r2: TypeHelpersRenderer)
    requires
        r1.helpers() == r2.helpers(),
        r1.custom_names() == r2.custom_names(),
    ensures
        render_spec(ci, r1.helpers(), r1.custom_names()) == render_spec(ci, r2.helpers(), r2.custom_names()),
        render_state(ci, r1.helpers(), r1.custom_names()) == render_state(ci, r2.helpers(), r2.custom_names()),
        render_spec(ci, r1.helpers(), r1.custom_names()).1 == concat_all(
            Seq::new(ci.functions@.len(), |i: int| function_text(ci.functions@[i])),
        ),
{
}

/// The registry that is rendered holds every type under its canonical name
/// too, when the registry it started from did.
pub proof fn lemma_snapshot_closed(ci: ComponentInterface, m: Map<Seq<char>, Type>, e: Set<Seq<char>>)
    requires
        closed(m),
    ensures
        closed(snapshot(ci, m, e)),
        grows(defs_spec(ci, m, e).1, snapshot(ci, m, e)),
{
    let r = records_fold(ci.records@, m);
    let en = enums_fold(ci, ci.enums@, r.1);
    let d = defs_spec(ci, m, e).1;
    lemma_records_fold(ci.records@, m);
    lemma_enums_fold(ci, ci.enums@, r.1);
    lemma_objects_fold(ci, ci.objects@, en.1, e);
    lemma_keeps_trans(m, r.1, en.1);
    lemma_keeps_trans(m, en.1, d);
    lemma_walk(ci, d);
    lemma_reg_tree(walk(ci, d), Type::String);
    lemma_keeps_trans(d, walk(ci, d), snapshot(ci, m, e));
}

proof fn lemma_sequence_grows(t: Type, m: Map<Seq<char>, Type>)
    ensures
        grows(m, sequence_helper_spec(t, m).1),
{
}

proof fn lemma_optional_grows(t: Type, m: Map<Seq<char>, Type>)
    ensures
        grows(m, optional_helper_spec(t, m).1),
{
    let inner = crate::gen::compounds::inner_of(t);
    let m1 = m.insert(ffi_converter_name_spec(t), t);
    let orig = canonical_name_spec(inner);
    let safe = crate::gen::naming::exception_safe_spec(orig);
    let m2 = m1.insert(orig, inner);
    let m3 = if !m1.contains_key(orig) && safe != orig {
        m2.insert(safe, inner)
    } else {
        m2
    };
    assert(grows(m, m3));
    lemma_sequence_grows(inner, m3);
}

proof fn lemma_helper_grows(ci: ComponentInterface, t: Type, m: Map<Seq<char>, Type>)
    ensures
        grows(m, helper_registry(ci, t, m)),
{
    match t {
        Type::Optional { .. } => {
            lemma_optional_grows(t, m);
            assert(helper_registry(ci, t, m) == optional_helper_spec(t, m).1);
        },
        Type::Sequence { .. } => {
            lemma_sequence_grows(t, m);
            assert(helper_registry(ci, t, m) == sequence_helper_spec(t, m).1);
        },
        Type::Dict { key_type, value_type } => {
            assert(helper_registry(ci, t, m) == m.insert(ffi_converter_name_spec(t), t).insert(
                canonical_name_spec(*key_type),
                *key_type,
            ).insert(canonical_name_spec(*value_type), *value_type));
        },
        Type::Custom { name, .. } => {
            assert(helper_registry(ci, t, m) == m.insert(name@, t));
        },
        Type::Record { name } => {
            if !m.contains_key(name@) {
                lemma_register_fields(m, find_record(ci.records@, name@)->0.fields@);
            }
        },
        Type::Enum { name } => {
            if !m.contains_key(class_name_spec(name@)) {
                lemma_enum_registry(find_enum(ci.enums@, name@)->0, m);
            }
        },
        Type::Object { name, .. } => {
            if !m.contains_key(name@) {
                lemma_object_source_registry(find_object(ci.objects@, name@)->0, m);
            }
        },
        Type::CallbackInterface { name } => {
            let cb = find_callback(ci.callback_interfaces@, name@)->0;
            let m1 = m.insert("CallbackInterface"@ + class_name_spec(name@), t);
            lemma_register_async_returns(m1, cb.methods@);
            assert(grows(m, m1));
            assert(helper_registry(ci, t, m) == register_async_returns(m1, cb.methods@));
        },
        _ => {},
    }
}

proof fn lemma_helper_ok(ci: ComponentInterface, s: Map<Seq<char>, Type>, m: Map<Seq<char>, Type>, k: Seq<char>)
    requires
        closed(s),
        grows(s, m),
        s.contains_key(k),
        s[k] matches Type::CallbackInterface { name } ==> find_callback(ci.callback_interfaces@, name@) is Some,
    ensures
        helper_ok(ci, s[k], m),
{
    assert(s.contains_key(canonical_name_spec(s[k])));
    assert(m.contains_key(canonical_name_spec(s[k])));
}

fn render_records(ci: &ComponentInterface, reg: &mut TypeHelpersRenderer) -> (r: String)
    requires
        old(reg).well_formed(),
        forall|i: int| 0 <= i < ci.records@.len() ==> record_fields_typed(#[trigger] ci.records@[i]),
    ensures
        final(reg).well_formed(),
        (r@, final(reg).helpers()) == records_fold(ci.records@, old(reg).helpers()),
        final(reg).custom_names() == old(reg).custom_names(),
{
    let ghost m0 = reg.helpers();
    let mut recs = String::new();
    let n = ci.records.len();
    assert(ci.records@.take(0) =~= Seq::<Record>::empty());
    for i in 0..n
        invariant
            n == ci.records@.len(),
            forall|i: int| 0 <= i < ci.records@.len() ==> record_fields_typed(#[trigger] ci.records@[i]),
            reg.well_formed(),
            (recs@, reg.helpers()) == records_fold(ci.records@.take(i as int), m0),
            reg.custom_names() == old(reg).custom_names(),
    {
        assert(ci.records@.take(i + 1).drop_last() =~= ci.records@.take(i as int));
        assert(record_fields_typed(ci.records@[i as int]));
        let x = generate_record(&ci.records[i], reg);
        recs.append(x.as_str());
    }
    assert(ci.records@.take(n as int) =~= ci.records@);
    recs
}

fn render_enums(ci: &ComponentInterface, reg: &mut TypeHelpersRenderer) -> (r: String)
    requires
        old(reg).well_formed(),
    ensures
        final(reg).well_formed(),
        (r@, final(reg).helpers()) == enums_fold(*ci, ci.enums@, old(reg).helpers()),
        final(reg).custom_names() == old(reg).custom_names(),
{
    let ghost m1 = reg.helpers();
    let mut enums = String::new();
    let n = ci.enums.len();
    assert(ci.enums@.take(0) =~= Seq::<Enum>::empty());
    for i in 0..n
        invariant
            n == ci.enums@.len(),
            reg.well_formed(),
            (enums@, reg.helpers()) == enums_fold(*ci, ci.enums@.take(i as int), m1),
            reg.custom_names() == old(reg).custom_names(),
    {
        assert(ci.enums@.take(i + 1).drop_last() =~= ci.enums@.take(i as int));
        let x = generate_enum(ci, &ci.enums[i], reg);
        enums.append(x.as_str());
    }
    assert(ci.enums@.take(n as int) =~= ci.enums@);
    enums
}

fn render_objects(ci: &ComponentInterface, reg: &mut TypeHelpersRenderer) -> (r: String)
    requires
        old(reg).well_formed(),
        forall|i: int| 0 <= i < ci.objects@.len() ==> object_generable(#[trigger] ci.objects@[i]),
    ensures
        final(reg).well_formed(),
        (r@, final(reg).helpers(), final(reg).custom_names()) == objects_fold(
            *ci,
            ci.objects@,
            old(reg).helpers(),
            old(reg).custom_names(),
        ),
{
    let ghost m2 = reg.helpers();
    let ghost e0 = reg.custom_names();
    let mut objs = String::new();
    let n = ci.objects.len();
    assert(ci.objects@.take(0) =~= Seq::<Object>::empty());
    for i in 0..n
        invariant
            n == ci.objects@.len(),
            forall|i: int| 0 <= i < ci.objects@.len() ==> object_generable(#[trigger] ci.objects@[i]),
            reg.well_formed(),
            (objs@, reg.helpers(), reg.custom_names()) == objects_fold(*ci, ci.objects@.take(i as int), m2, e0),
    {
        let ghost prev = objects_fold(*ci, ci.objects@.take(i as int), m2, e0);
        assert(ci.objects@.take(i + 1).drop_last() =~= ci.objects@.take(i as int));
        assert(object_generable(ci.objects@[i as int]));
        let x = generate_object(ci, &ci.objects[i], reg);
        objs.append(x.as_str());
        assert(objects_fold(*ci, ci.objects@.take(i + 1), m2, e0) == (
            prev.0 + object_source_text(*ci, ci.objects@[i as int], prev.2),
            object_source_registry(ci.objects@[i as int], prev.1),
            object_source_emitted(ci.objects@[i as int], prev.2),
        ));
    }
    assert(ci.objects@.take(n as int) =~= ci.objects@);
    objs
}

/// Generates the definitions of the interface's types: records, enums,
/// objects; registers what they use.
pub fn generate_definitions(ci: &ComponentInterface, reg: &mut TypeHelpersRenderer) -> (r: String)
    requires
        old(reg).well_formed(),
        forall|i: int| 0 <= i < ci.records@.len() ==> record_fields_typed(#[trigger] ci.records@[i]),
        forall|i: int| 0 <= i < ci.objects@.len() ==> object_generable(#[trigger] ci.objects@[i]),
    ensures
        final(reg).well_formed(),
        (r@, final(reg).helpers(), final(reg).custom_names()) == defs_spec(*ci, old(reg).helpers(), old(reg).custom_names()),
{
    let recs = render_records(ci, reg);
    let enums = render_enums(ci, reg);
    let objs = render_objects(ci, reg);
    concat3(recs.as_str(), enums.as_str(), objs.as_str())
}

/// The imports of the external modules, each once, in name order.
pub fn render_imports(ci: &ComponentInterface) -> (r: String)
    ensures
        r@ == imports_text(*ci),
{
    let namespaces = sorted_unique(&ci.external_namespaces);
    let ghost ns = views(namespaces@);
    let ghost p = Seq::new(ns.len(), |i: int| import_line_spec(ns[i]));
    let mut imports = String::new();
    let n = namespaces.len();
    assert(p.take(0) =~= Seq::<Seq<char>>::empty());
    for i in 0..n
        invariant
            n == ns.len(),
            ns == views(namespaces@),
            p == Seq::new(ns.len(), |i: int| import_line_spec(ns[i])),
            imports@ == concat_all(p.take(i as int)),
    {
        proof {
            lemma_concat_all_step(p, i as int);
        }
        let x = import_line(namespaces[i].as_str());
        imports.append(x.as_str());
    }
    assert(p.take(n as int) =~= p);
    imports
}

/// The Dart source of the functions.
pub fn render_functions(fs: &Vec<Callable>) -> (r: String)
    ensures
        r@ == functions_text(fs@),
{
    let ghost fp = Seq::new(fs@.len(), |i: int| function_text(fs@[i]));
    let mut functions = String::new();
    let n = fs.len();
    assert(fp.take(0) =~= Seq::<Seq<char>>::empty());
    for i in 0..n
        invariant
            n == fs@.len(),
            fp == Seq::new(fs@.len(), |i: int| function_text(fs@[i])),
            functions@ == concat_all(fp.take(i as int)),
    {
        proof {
            lemma_concat_all_step(fp, i as int);
        }
        let x = generate_function(&fs[i]);
        functions.append(x.as_str());
    }
    assert(fp.take(n as int) =~= fp);
    functions
}

/// Every callback interface registered in `m` is defined.
pub open spec fn callbacks_defined(ci: ComponentInterface, m: Map<Seq<char>, Type>) -> bool {
    forall|k: Seq<char>| #[trigger] m.contains_key(k) ==> (m[k] matches Type::CallbackInterface { name }
        ==> find_callback(ci.callback_interfaces@, name@) is Some)
}

/// Renders the helper of every registered type, in the order of the names
/// they are registered under.
pub fn render_helpers(ci: &ComponentInterface, reg: &mut TypeHelpersRenderer) -> (r: String)
    requires
        old(reg).well_formed(),
        closed(old(reg).helpers()),
        callbacks_defined(*ci, old(reg).helpers()),
    ensures
        final(reg).well_formed(),
        r@ == helpers_fold(*ci, types_in_name_order(old(reg).helpers()), old(reg).helpers(), old(reg).custom_names()).0,
        final(reg).helpers() == helpers_fold(*ci, types_in_name_order(old(reg).helpers()), old(reg).helpers(), old(reg).custom_names()).1,
        final(reg).custom_names() == helpers_fold(*ci, types_in_name_order(old(reg).helpers()), old(reg).helpers(), old(reg).custom_names()).2,
        grows(old(reg).helpers(), final(reg).helpers()),
{
    let ghost s = reg.helpers();
    let ghost ed = reg.custom_names();
    let names = reg.get_include_names();
    let ghost keys = Seq::new(names@.len(), |i: int| names@[i].0@);
    proof {
        assert(keys =~= reg.names());
        assert forall|x: Seq<char>| #[trigger] keys.contains(x) <==> s.dom().contains(x) by {
            if keys.contains(x) {
                let i = choose|i: int| 0 <= i < keys.len() && keys[i] == x;
                assert(names@[i].0@ == x);
            }
            if s.dom().contains(x) {
                let i = choose|i: int| 0 <= i < names@.len() && #[trigger] names@[i].0@ == x;
                assert(keys[i] == x);
            }
        }
        lemma_sorted_of(keys, s.dom());
    }
    let ghost ts = types_in_name_order(s);
    assert(ts.len() == names@.len());
    assert forall|j: int| 0 <= j < names@.len() implies ts[j] == (#[trigger] names@[j]).1 && s.contains_key(
        names@[j].0@,
    ) && s[names@[j].0@] == names@[j].1 by {
        assert(keys[j] == names@[j].0@);
    }
    let mut helpers = String::new();
    let n = names.len();
    assert(ts.take(0) =~= Seq::<Type>::empty());
    for i in 0..n
        invariant
            n == names@.len(),
            ts.len() == n,
            forall|j: int| 0 <= j < names@.len() ==> ts[j] == (#[trigger] names@[j]).1 && s.contains_key(names@[j].0@)
                && s[names@[j].0@] == names@[j].1,
            closed(s),
            callbacks_defined(*ci, s),
            reg.well_formed(),
            grows(s, reg.helpers()),
            (helpers@, reg.helpers(), reg.custom_names()) == helpers_fold(*ci, ts.take(i as int), s, ed),
    {
        assert(ts.take(i + 1).drop_last() =~= ts.take(i as int));
        let ghost k = names@[i as int].0@;
        proof {
            assert(s.contains_key(k));
            lemma_helper_ok(*ci, s, reg.helpers(), k);
        }
        let ghost before = reg.helpers();
        let x = render_type_helper(ci, reg, &names[i].1);
        proof {
            lemma_helper_grows(*ci, ts[i as int], before);
        }
        helpers.append(x.as_str());
    }
    assert(ts.take(n as int) =~= ts);
    helpers
}

/// Renders the whole Dart source: the definitions of the interface's types,
/// the helpers of every registered type in name order, the imports of the
/// external modules and the runtime support; and, apart, the functions.
pub fn render(ci: &ComponentInterface, reg: &mut TypeHelpersRenderer) -> (r: (String, String))
    requires
        old(reg).well_formed(),
        closed(old(reg).helpers()),
        renderable(*ci, old(reg).helpers(), old(reg).custom_names()),
    ensures
        final(reg).well_formed(),
        (r.0@, r.1@) == render_spec(*ci, old(reg).helpers(), old(reg).custom_names()),
        (final(reg).helpers(), final(reg).custom_names()) == render_state(*ci, old(reg).helpers(), old(reg).custom_names()),
        grows(snapshot(*ci, old(reg).helpers(), old(reg).custom_names()), final(reg).helpers()),
{
    let ghost m0 = reg.helpers();
    let ghost e0 = reg.custom_names();
    let defs = generate_definitions(ci, reg);
    let imports = render_imports(ci);
    let functions = render_functions(&ci.functions);
    register_component_interface_type_helpers(ci, reg);
    register_type_helpers(reg, &Type::String);
    proof {
        lemma_snapshot_closed(*ci, m0, e0);
        assert(reg.helpers() == snapshot(*ci, m0, e0));
        assert(callbacks_defined(*ci, reg.helpers()));
    }
    let helpers = render_helpers(ci, reg);
    let code = prelude(
        imports.as_str(),
        defs.as_str(),
        ci.ffi_rustbuffer_alloc.as_str(),
        ci.ffi_rustbuffer_from_bytes.as_str(),
        ci.ffi_rustbuffer_free.as_str(),
        ci.ffi_rustbuffer_reserve.as_str(),
        helpers.as_str(),
    );
    (code, functions)
}

/// Whether the whole interface can be rendered from an empty registry:
/// every record field has a Dart type, the trait implementations of every
/// Rust struct take the arguments their helpers pass, and every callback
/// interface that a registered type names is defined.
pub fn is_renderable(ci: &ComponentInterface) -> (b: bool)
    ensures
        b == renderable(*ci, Map::empty(), Set::empty()),
{
    let nr = ci.records.len();
    for i in 0..nr
        invariant
            nr == ci.records@.len(),
            forall|k: int| 0 <= k < i ==> record_fields_typed(#[trigger] ci.records@[k]),
    {
        let fs = &ci.records[i].fields;
        let nf = fs.len();
        for j in 0..nf
            invariant
                i < nr,
                nr == ci.records@.len(),
                fs@ == ci.records@[i as int].fields@,
                nf == fs@.len(),
                forall|l: int| 0 <= l < j ==> has_dart_type(#[trigger] fs@[l].ty),
        {
            if !has_dart_type_check(&fs[j].ty) {
                assert(!record_fields_typed(ci.records@[i as int]));
                return false;
            }
        }
    }
    let no = ci.objects.len();
    for i in 0..no
        invariant
            no == ci.objects@.len(),
            forall|k: int| 0 <= k < i ==> object_generable(#[trigger] ci.objects@[k]),
    {
        if ci.objects[i].imp == ObjectImpl::Struct && !traits_callable_check(&ci.objects[i].uniffi_traits) {
            assert(!object_generable(ci.objects@[i as int]));
            return false;
        }
    }
    let mut reg = TypeHelpersRenderer::new();
    let _defs = generate_definitions(ci, &mut reg);
    register_component_interface_type_helpers(ci, &mut reg);
    register_type_helpers(&mut reg, &Type::String);
    let ghost s = reg.helpers();
    assert(s == snapshot(*ci, Map::empty(), Set::empty()));
    let names = reg.get_include_names();
    let n = names.len();
    for i in 0..n
        invariant
            n == names@.len(),
            s == snapshot(*ci, Map::empty(), Set::empty()),
            forall|k: int| 0 <= k < ci.records@.len() ==> record_fields_typed(#[trigger] ci.records@[k]),
            forall|k: int| 0 <= k < ci.objects@.len() ==> object_generable(#[trigger] ci.objects@[k]),
            forall|j: int| 0 <= j < names@.len() ==> s[names@[j].0@] == (#[trigger] names@[j]).1,
            forall|k: Seq<char>| s.contains_key(k) <==> exists|j: int| 0 <= j < names@.len() && #[trigger] names@[j].0@ == k,
            forall|j: int| 0 <= j < i ==> ((#[trigger] names@[j]).1 matches Type::CallbackInterface { name }
                ==> find_callback(ci.callback_interfaces@, name@) is Some),
    {
        match &names[i].1 {
            Type::CallbackInterface { name } => {
                if ci.get_callback_interface(name.as_str()).is_none() {
                    assert(s.contains_key(names@[i as int].0@));
                    assert(s[names@[i as int].0@] == names@[i as int].1);
                    assert(!callbacks_defined(*ci, s));
                    return false;
                }
            },
            _ => {},
        }
    }
    assert(callbacks_defined(*ci, s)) by {
        assert forall|k: Seq<char>| #[trigger] s.contains_key(k) implies (s[k] matches Type::CallbackInterface { name }
            ==> find_callback(ci.callback_interfaces@, name@) is Some) by {
            let j = choose|j: int| 0 <= j < names@.len() && #[trigger] names@[j].0@ == k;
            assert(s[names@[j].0@] == names@[j].1);
        }
    }
    true
}

} // verus!
