//! Dart code generated for callback interfaces: the abstract class foreign
//! code implements, the converter that hands implementations to Rust as
//! handles, and the functions Rust calls them through.
use vstd::prelude::*;
use crate::gen::functions::{arg_pieces, args_decl, args_decl_spec, return_label, return_label_spec};
use crate::gen::interface::{Argument, Callable, FfiField, FfiStruct, FfiType};
use crate::gen::naming::{class_name, class_name_spec, fn_name, lowercase, member_name_spec, to_lowercase, to_upper_camel, upper_camel_case, var_name};
use crate::gen::objects::method_return_spec;
use crate::gen::registry::TypeHelpersRenderer;
use crate::gen::text::{concat2, concat3, concat_all, lemma_concat_all_step, u64_decimal, unsigned_decimal};
use crate::gen::types::{canonical_name, canonical_name_spec, ffi_converter_name, ffi_converter_name_spec, Type};

verus! {

/// The abstract class foreign code implements, its converter, the support definitions of its asynchronous methods and the signatures of its methods.
pub open spec fn callback_interface_spec(cls: Seq<char>, conv: Seq<char>, defs: Seq<char>, init: Seq<char>, lift_rust: Seq<char>, lower_rust: Seq<char>, async_support: Seq<char>, signatures: Seq<char>) -> Seq<char> {
    "abstract class "@ +
    cls +
    " {\n"@ +
    defs +
    "}\n\nclass "@ +
    conv +
    " {\n  static final _handleMap = UniffiHandleMap<"@ +
    cls +
    ">();\n  static bool _vtableInitialized = false;\n  static "@ +
    cls +
    " lift(Pointer<Void> handle) {\n    final rawHandle = handle.address;\n    if ((rawHandle & 0x1) == 0) {\n      "@ +
    lift_rust +
    "\n    }\n    return _handleMap.remove(rawHandle);\n  }\n  static Pointer<Void> lower("@ +
    cls +
    " value) {\n"@ +
    lower_rust +
    "    _ensureVTableInitialized();\n    final handle = _handleMap.insert(value);\n    return Pointer<Void>.fromAddress(handle);\n  }\n  static void _ensureVTableInitialized() {\n    if (!_vtableInitialized) {\n      "@ +
    init +
    "();\n      _vtableInitialized = true;\n    }\n  }\n  static LiftRetVal<"@ +
    cls +
    "> read(Uint8List buf) {\n    final handle = buf.buffer.asByteData(buf.offsetInBytes).getInt64(0);\n    final pointer = Pointer<Void>.fromAddress(handle);\n    return LiftRetVal(lift(pointer), 8);\n  }\n  static int write("@ +
    cls +
    " value, Uint8List buf) {\n    final handle = lower(value);\n    buf.buffer.asByteData(buf.offsetInBytes).setInt64(0, handle.address);\n    return 8;\n  }\n  static int allocationSize("@ +
    cls +
    " value) {\n    return 8;\n  }\n}\n\n"@ +
    async_support +
    signatures
}

fn callback_interface(cls: &str, conv: &str, defs: &str, init: &str, lift_rust: &str, lower_rust: &str, async_support: &str, signatures: &str) -> (s: String)
    ensures
        s@ == callback_interface_spec(cls@, conv@, defs@, init@, lift_rust@, lower_rust@, async_support@, signatures@),
{
    let mut s = String::from_str("abstract class ");
    s.append(cls);
    s.append(" {\n");
    s.append(defs);
    s.append("}\n\nclass ");
    s.append(conv);
    s.append(" {\n  static final _handleMap = UniffiHandleMap<");
    s.append(cls);
    s.append(">();\n  static bool _vtableInitialized = false;\n  static ");
    s.append(cls);
    s.append(" lift(Pointer<Void> handle) {\n    final rawHandle = handle.address;\n    if ((rawHandle & 0x1) == 0) {\n      ");
    s.append(lift_rust);
    s.append("\n    }\n    return _handleMap.remove(rawHandle);\n  }\n  static Pointer<Void> lower(");
    s.append(cls);
    s.append(" value) {\n");
    s.append(lower_rust);
    s.append("    _ensureVTableInitialized();\n    final handle = _handleMap.insert(value);\n    return Pointer<Void>.fromAddress(handle);\n  }\n  static void _ensureVTableInitialized() {\n    if (!_vtableInitialized) {\n      ");
    s.append(init);
    s.append("();\n      _vtableInitialized = true;\n    }\n  }\n  static LiftRetVal<");
    s.append(cls);
    s.append("> read(Uint8List buf) {\n    final handle = buf.buffer.asByteData(buf.offsetInBytes).getInt64(0);\n    final pointer = Pointer<Void>.fromAddress(handle);\n    return LiftRetVal(lift(pointer), 8);\n  }\n  static int write(");
    s.append(cls);
    s.append(" value, Uint8List buf) {\n    final handle = lower(value);\n    buf.buffer.asByteData(buf.offsetInBytes).setInt64(0, handle.address);\n    return 8;\n  }\n  static int allocationSize(");
    s.append(cls);
    s.append(" value) {\n    return 8;\n  }\n}\n\n");
    s.append(async_support);
    s.append(signatures);
    s
}

/// The native and Dart signatures of an asynchronous callback method.
pub open spec fn async_signature_spec(fty: Seq<char>, dty: Seq<char>, natives: Seq<char>, darts: Seq<char>, completion: Seq<char>) -> Seq<char> {
    "typedef "@ +
    fty +
    " = Void Function(\n    Uint64, "@ +
    natives +
    "\n    "@ +
    completion +
    ", Uint64, Pointer<UniffiForeignFuture>);\ntypedef "@ +
    dty +
    " = void Function(\n    int, "@ +
    darts +
    "\n    "@ +
    completion +
    ", int, Pointer<UniffiForeignFuture>);\n"@
}

fn async_signature(fty: &str, dty: &str, natives: &str, darts: &str, completion: &str) -> (s: String)
    ensures
        s@ == async_signature_spec(fty@, dty@, natives@, darts@, completion@),
{
    let mut s = String::from_str("typedef ");
    s.append(fty);
    s.append(" = Void Function(\n    Uint64, ");
    s.append(natives);
    s.append("\n    ");
    s.append(completion);
    s.append(", Uint64, Pointer<UniffiForeignFuture>);\ntypedef ");
    s.append(dty);
    s.append(" = void Function(\n    int, ");
    s.append(darts);
    s.append("\n    ");
    s.append(completion);
    s.append(", int, Pointer<UniffiForeignFuture>);\n");
    s
}

/// The native and Dart signatures of a callback method.
pub open spec fn sync_signature_spec(fty: Seq<char>, dty: Seq<char>, natives: Seq<char>, darts: Seq<char>, ret: Seq<char>) -> Seq<char> {
    "typedef "@ +
    fty +
    " = Void Function(\n    Uint64, "@ +
    natives +
    "\n    Pointer<"@ +
    ret +
    ">, Pointer<RustCallStatus>);\ntypedef "@ +
    dty +
    " = void Function(\n    int, "@ +
    darts +
    "\n    Pointer<"@ +
    ret +
    ">, Pointer<RustCallStatus>);\n"@
}

fn sync_signature(fty: &str, dty: &str, natives: &str, darts: &str, ret: &str) -> (s: String)
    ensures
        s@ == sync_signature_spec(fty@, dty@, natives@, darts@, ret@),
{
    let mut s = String::from_str("typedef ");
    s.append(fty);
    s.append(" = Void Function(\n    Uint64, ");
    s.append(natives);
    s.append("\n    Pointer<");
    s.append(ret);
    s.append(">, Pointer<RustCallStatus>);\ntypedef ");
    s.append(dty);
    s.append(" = void Function(\n    int, ");
    s.append(darts);
    s.append("\n    Pointer<");
    s.append(ret);
    s.append(">, Pointer<RustCallStatus>);\n");
    s
}

/// The signatures of the functions that free and clone a handle.
pub open spec fn handle_signatures_spec(cb: Seq<char>) -> Seq<char> {
    "typedef UniffiCallbackInterface"@ +
    cb +
    "Free = Void Function(Uint64);\ntypedef UniffiCallbackInterface"@ +
    cb +
    "FreeDart = void Function(int);\ntypedef UniffiCallbackInterface"@ +
    cb +
    "Clone = Uint64 Function(Uint64);\ntypedef UniffiCallbackInterface"@ +
    cb +
    "CloneDart = int Function(int);\n"@
}

fn handle_signatures(cb: &str) -> (s: String)
    ensures
        s@ == handle_signatures_spec(cb@),
{
    let mut s = String::from_str("typedef UniffiCallbackInterface");
    s.append(cb);
    s.append("Free = Void Function(Uint64);\ntypedef UniffiCallbackInterface");
    s.append(cb);
    s.append("FreeDart = void Function(int);\ntypedef UniffiCallbackInterface");
    s.append(cb);
    s.append("Clone = Uint64 Function(Uint64);\ntypedef UniffiCallbackInterface");
    s.append(cb);
    s.append("CloneDart = int Function(int);\n");
    s
}

/// The struct of function pointers Rust calls a callback interface through.
pub open spec fn vtable_interface_spec(cb: Seq<char>, fields: Seq<char>) -> Seq<char> {
    "final class UniffiVTableCallbackInterface"@ +
    cb +
    " extends Struct {\n  external Pointer<NativeFunction<UniffiCallbackInterface"@ +
    cb +
    "Free>> uniffiFree;\n  external Pointer<NativeFunction<UniffiCallbackInterface"@ +
    cb +
    "Clone>> uniffiClone;\n"@ +
    fields +
    "}\n"@
}

fn vtable_interface(cb: &str, fields: &str) -> (s: String)
    ensures
        s@ == vtable_interface_spec(cb@, fields@),
{
    let mut s = String::from_str("final class UniffiVTableCallbackInterface");
    s.append(cb);
    s.append(" extends Struct {\n  external Pointer<NativeFunction<UniffiCallbackInterface");
    s.append(cb);
    s.append("Free>> uniffiFree;\n  external Pointer<NativeFunction<UniffiCallbackInterface");
    s.append(cb);
    s.append("Clone>> uniffiClone;\n");
    s.append(fields);
    s.append("}\n");
    s
}

/// The function pointer of one method in the vtable.
pub open spec fn vtable_field_spec(cb: Seq<char>, idx: Seq<char>, name: Seq<char>) -> Seq<char> {
    "  external Pointer<NativeFunction<UniffiCallbackInterface"@ +
    cb +
    "Method"@ +
    idx +
    ">> "@ +
    name +
    ";\n"@
}

fn vtable_field(cb: &str, idx: &str, name: &str) -> (s: String)
    ensures
        s@ == vtable_field_spec(cb@, idx@, name@),
{
    let mut s = String::from_str("  external Pointer<NativeFunction<UniffiCallbackInterface");
    s.append(cb);
    s.append("Method");
    s.append(idx);
    s.append(">> ");
    s.append(name);
    s.append(";\n");
    s
}

/// The Dart function Rust calls for an asynchronous callback method, and its pointer.
pub open spec fn async_callback_fn_spec(fname: Seq<char>, params: Seq<char>, completion: Seq<char>, completion_dart: Seq<char>, cls: Seq<char>, lifts: Seq<char>, method: Seq<char>, args: Seq<char>, strct: Seq<char>, success: Seq<char>, fty: Seq<char>) -> Seq<char> {
    "void "@ +
    fname +
    "(\n  int uniffiHandle,\n  "@ +
    params +
    "\n  "@ +
    completion +
    " uniffiFutureCallback,\n  int uniffiCallbackData,\n  Pointer<UniffiForeignFuture> outReturn,\n) {\n  final obj = FfiConverterCallbackInterface"@ +
    cls +
    "._handleMap.get(uniffiHandle);\n"@ +
    lifts +
    "  final callback = uniffiFutureCallback.asFunction<"@ +
    completion_dart +
    ">();\n  final state = _UniffiForeignFutureState();\n  final handle = _uniffiForeignFutureHandleMap.insert(state);\n  outReturn.ref.handle = handle;\n  outReturn.ref.free = _uniffiForeignFutureFreePointer;\n  () async {\n    try {\n      final result = await obj."@ +
    method +
    "("@ +
    args +
    ");\n      final removedState = _uniffiForeignFutureHandleMap.maybeRemove(handle);\n      final effectiveState = removedState ?? state;\n      if (effectiveState.cancelled) {\n        return;\n      }\n      effectiveState.cancelled = true;\n      final resultStructPtr = calloc<"@ +
    strct +
    ">();\n      try {\n        "@ +
    success +
    "\n        resultStructPtr.ref.callStatus.code = CALL_SUCCESS;\n        callback(uniffiCallbackData, resultStructPtr.ref);\n      } finally {\n        calloc.free(resultStructPtr);\n      }\n    } catch (e) {\n      final removedState = _uniffiForeignFutureHandleMap.maybeRemove(handle);\n      final effectiveState = removedState ?? state;\n      if (effectiveState.cancelled) {\n        return;\n      }\n      effectiveState.cancelled = true;\n      final resultStructPtr = calloc<"@ +
    strct +
    ">();\n      try {\n        resultStructPtr.ref.callStatus.code = CALL_UNEXPECTED_ERROR;\n        resultStructPtr.ref.callStatus.errorBuf =\n            FfiConverterString.lower(e.toString());\n        callback(uniffiCallbackData, resultStructPtr.ref);\n      } finally {\n        calloc.free(resultStructPtr);\n      }\n    }\n  }();\n}\n\nfinal Pointer<NativeFunction<"@ +
    fty +
    ">> "@ +
    fname +
    "Pointer =\n    Pointer.fromFunction<"@ +
    fty +
    ">("@ +
    fname +
    ");\n"@
}

fn async_callback_fn(fname: &str, params: &str, completion: &str, completion_dart: &str, cls: &str, lifts: &str, method: &str, args: &str, strct: &str, success: &str, fty: &str) -> (s: String)
    ensures
        s@ == async_callback_fn_spec(fname@, params@, completion@, completion_dart@, cls@, lifts@, method@, args@, strct@, success@, fty@),
{
    let mut s = String::from_str("void ");
    s.append(fname);
    s.append("(\n  int uniffiHandle,\n  ");
    s.append(params);
    s.append("\n  ");
    s.append(completion);
    s.append(" uniffiFutureCallback,\n  int uniffiCallbackData,\n  Pointer<UniffiForeignFuture> outReturn,\n) {\n  final obj = FfiConverterCallbackInterface");
    s.append(cls);
    s.append("._handleMap.get(uniffiHandle);\n");
    s.append(lifts);
    s.append("  final callback = uniffiFutureCallback.asFunction<");
    s.append(completion_dart);
    s.append(">();\n  final state = _UniffiForeignFutureState();\n  final handle = _uniffiForeignFutureHandleMap.insert(state);\n  outReturn.ref.handle = handle;\n  outReturn.ref.free = _uniffiForeignFutureFreePointer;\n  () async {\n    try {\n      final result = await obj.");
    s.append(method);
    s.append("(");
    s.append(args);
    s.append(");\n      final removedState = _uniffiForeignFutureHandleMap.maybeRemove(handle);\n      final effectiveState = removedState ?? state;\n      if (effectiveState.cancelled) {\n        return;\n      }\n      effectiveState.cancelled = true;\n      final resultStructPtr = calloc<");
    s.append(strct);
    s.append(">();\n      try {\n        ");
    s.append(success);
    s.append("\n        resultStructPtr.ref.callStatus.code = CALL_SUCCESS;\n        callback(uniffiCallbackData, resultStructPtr.ref);\n      } finally {\n        calloc.free(resultStructPtr);\n      }\n    } catch (e) {\n      final removedState = _uniffiForeignFutureHandleMap.maybeRemove(handle);\n      final effectiveState = removedState ?? state;\n      if (effectiveState.cancelled) {\n        return;\n      }\n      effectiveState.cancelled = true;\n      final resultStructPtr = calloc<");
    s.append(strct);
    s.append(">();\n      try {\n        resultStructPtr.ref.callStatus.code = CALL_UNEXPECTED_ERROR;\n        resultStructPtr.ref.callStatus.errorBuf =\n            FfiConverterString.lower(e.toString());\n        callback(uniffiCallbackData, resultStructPtr.ref);\n      } finally {\n        calloc.free(resultStructPtr);\n      }\n    }\n  }();\n}\n\nfinal Pointer<NativeFunction<");
    s.append(fty);
    s.append(">> ");
    s.append(fname);
    s.append("Pointer =\n    Pointer.fromFunction<");
    s.append(fty);
    s.append(">(");
    s.append(fname);
    s.append(");\n");
    s
}

/// The Dart function Rust calls for a callback method, and its pointer.
pub open spec fn sync_callback_fn_spec(fname: Seq<char>, params: Seq<char>, out: Seq<char>, cls: Seq<char>, lifts: Seq<char>, call: Seq<char>, fty: Seq<char>) -> Seq<char> {
    "void "@ +
    fname +
    "(int uniffiHandle, "@ +
    params +
    out +
    " outReturn, Pointer<RustCallStatus> callStatus) {\n  final status = callStatus.ref;\n  try {\n    final obj = FfiConverterCallbackInterface"@ +
    cls +
    "._handleMap.get(uniffiHandle);\n"@ +
    lifts +
    call +
    "  } catch (e) {\n    status.code = CALL_UNEXPECTED_ERROR;\n    status.errorBuf = FfiConverterString.lower(e.toString());\n  }\n}\n\nfinal Pointer<NativeFunction<"@ +
    fty +
    ">> "@ +
    fname +
    "Pointer =\n    Pointer.fromFunction<"@ +
    fty +
    ">("@ +
    fname +
    ");\n"@
}

fn sync_callback_fn(fname: &str, params: &str, out: &str, cls: &str, lifts: &str, call: &str, fty: &str) -> (s: String)
    ensures
        s@ == sync_callback_fn_spec(fname@, params@, out@, cls@, lifts@, call@, fty@),
{
    let mut s = String::from_str("void ");
    s.append(fname);
    s.append("(int uniffiHandle, ");
    s.append(params);
    s.append(out);
    s.append(" outReturn, Pointer<RustCallStatus> callStatus) {\n  final status = callStatus.ref;\n  try {\n    final obj = FfiConverterCallbackInterface");
    s.append(cls);
    s.append("._handleMap.get(uniffiHandle);\n");
    s.append(lifts);
    s.append(call);
    s.append("  } catch (e) {\n    status.code = CALL_UNEXPECTED_ERROR;\n    status.errorBuf = FfiConverterString.lower(e.toString());\n  }\n}\n\nfinal Pointer<NativeFunction<");
    s.append(fty);
    s.append(">> ");
    s.append(fname);
    s.append("Pointer =\n    Pointer.fromFunction<");
    s.append(fty);
    s.append(">(");
    s.append(fname);
    s.append(");\n");
    s
}

/// The functions that free and clone a handle, and their pointers.
pub open spec fn handle_fns_spec(cb: Seq<char>, fcb: Seq<char>, cls: Seq<char>) -> Seq<char> {
    "void "@ +
    fcb +
    "FreeCallback(int handle) {\n  try {\n    FfiConverterCallbackInterface"@ +
    cls +
    "._handleMap.remove(handle);\n  } catch (e) {\n  }\n}\n\nfinal Pointer<NativeFunction<UniffiCallbackInterface"@ +
    cb +
    "Free>> "@ +
    fcb +
    "FreePointer =\n    Pointer.fromFunction<UniffiCallbackInterface"@ +
    cb +
    "Free>("@ +
    fcb +
    "FreeCallback);\n\nint "@ +
    fcb +
    "CloneCallback(int handle) {\n  try {\n    final obj = FfiConverterCallbackInterface"@ +
    cls +
    "._handleMap.get(handle);\n    final newHandle = FfiConverterCallbackInterface"@ +
    cls +
    "._handleMap.insert(obj);\n    return newHandle;\n  } catch (e) {\n    return 0;\n  }\n}\n\nfinal Pointer<NativeFunction<UniffiCallbackInterface"@ +
    cb +
    "Clone>> "@ +
    fcb +
    "ClonePointer =\n    Pointer.fromFunction<UniffiCallbackInterface"@ +
    cb +
    "Clone>("@ +
    fcb +
    "CloneCallback, 0);\n"@
}

fn handle_fns(cb: &str, fcb: &str, cls: &str) -> (s: String)
    ensures
        s@ == handle_fns_spec(cb@, fcb@, cls@),
{
    let mut s = String::from_str("void ");
    s.append(fcb);
    s.append("FreeCallback(int handle) {\n  try {\n    FfiConverterCallbackInterface");
    s.append(cls);
    s.append("._handleMap.remove(handle);\n  } catch (e) {\n  }\n}\n\nfinal Pointer<NativeFunction<UniffiCallbackInterface");
    s.append(cb);
    s.append("Free>> ");
    s.append(fcb);
    s.append("FreePointer =\n    Pointer.fromFunction<UniffiCallbackInterface");
    s.append(cb);
    s.append("Free>(");
    s.append(fcb);
    s.append("FreeCallback);\n\nint ");
    s.append(fcb);
    s.append("CloneCallback(int handle) {\n  try {\n    final obj = FfiConverterCallbackInterface");
    s.append(cls);
    s.append("._handleMap.get(handle);\n    final newHandle = FfiConverterCallbackInterface");
    s.append(cls);
    s.append("._handleMap.insert(obj);\n    return newHandle;\n  } catch (e) {\n    return 0;\n  }\n}\n\nfinal Pointer<NativeFunction<UniffiCallbackInterface");
    s.append(cb);
    s.append("Clone>> ");
    s.append(fcb);
    s.append("ClonePointer =\n    Pointer.fromFunction<UniffiCallbackInterface");
    s.append(cb);
    s.append("Clone>(");
    s.append(fcb);
    s.append("CloneCallback, 0);\n");
    s
}

/// The native and Dart signatures of a foreign future's completion callback.
pub open spec fn completion_typedef_spec(native: Seq<char>, strct: Seq<char>) -> Seq<char> {
    "typedef "@ +
    native +
    " = Void Function(Uint64, "@ +
    strct +
    ");\ntypedef "@ +
    native +
    "Dart = void Function(int, "@ +
    strct +
    ");\n"@
}

fn completion_typedef(native: &str, strct: &str) -> (s: String)
    ensures
        s@ == completion_typedef_spec(native@, strct@),
{
    let mut s = String::from_str("typedef ");
    s.append(native);
    s.append(" = Void Function(Uint64, ");
    s.append(strct);
    s.append(");\ntypedef ");
    s.append(native);
    s.append("Dart = void Function(int, ");
    s.append(strct);
    s.append(");\n");
    s
}

/// The function that fills the vtable and hands it to Rust, once.
pub open spec fn vtable_init_spec(vt: Seq<char>, vs: Seq<char>, cb: Seq<char>, cls: Seq<char>, fcb: Seq<char>, assigns: Seq<char>, module: Seq<char>, lower: Seq<char>) -> Seq<char> {
    "late final Pointer<"@ +
    vt +
    "> "@ +
    vs +
    ";\n\nvoid init"@ +
    cb +
    "VTable() {\n  if (FfiConverterCallbackInterface"@ +
    cls +
    "._vtableInitialized) {\n    return;\n  }\n  "@ +
    vs +
    " = calloc<"@ +
    vt +
    ">();\n  "@ +
    vs +
    ".ref.uniffiFree = "@ +
    fcb +
    "FreePointer;\n  "@ +
    vs +
    ".ref.uniffiClone = "@ +
    fcb +
    "ClonePointer;\n"@ +
    assigns +
    "  rustCall((status) {\n    uniffi_"@ +
    module +
    "_fn_init_callback_vtable_"@ +
    lower +
    "(\n      "@ +
    vs +
    ",\n    );\n    checkCallStatus(NullRustCallStatusErrorHandler(), status);\n  });\n  FfiConverterCallbackInterface"@ +
    cls +
    "._vtableInitialized = true;\n}\n"@
}

fn vtable_init(vt: &str, vs: &str, cb: &str, cls: &str, fcb: &str, assigns: &str, module: &str, lower: &str) -> (s: String)
    ensures
        s@ == vtable_init_spec(vt@, vs@, cb@, cls@, fcb@, assigns@, module@, lower@),
{
    let mut s = String::from_str("late final Pointer<");
    s.append(vt);
    s.append("> ");
    s.append(vs);
    s.append(";\n\nvoid init");
    s.append(cb);
    s.append("VTable() {\n  if (FfiConverterCallbackInterface");
    s.append(cls);
    s.append("._vtableInitialized) {\n    return;\n  }\n  ");
    s.append(vs);
    s.append(" = calloc<");
    s.append(vt);
    s.append(">();\n  ");
    s.append(vs);
    s.append(".ref.uniffiFree = ");
    s.append(fcb);
    s.append("FreePointer;\n  ");
    s.append(vs);
    s.append(".ref.uniffiClone = ");
    s.append(fcb);
    s.append("ClonePointer;\n");
    s.append(assigns);
    s.append("  rustCall((status) {\n    uniffi_");
    s.append(module);
    s.append("_fn_init_callback_vtable_");
    s.append(lower);
    s.append("(\n      ");
    s.append(vs);
    s.append(",\n    );\n    checkCallStatus(NullRustCallStatusErrorHandler(), status);\n  });\n  FfiConverterCallbackInterface");
    s.append(cls);
    s.append("._vtableInitialized = true;\n}\n");
    s
}

/// The low-level type a value of `t` crosses as: booleans as a byte,
/// objects as handles, callback interfaces as 64-bit handles, custom types
/// as their builtin, everything else serialized in a buffer.
pub open spec fn ffi_type_of(t: Type) -> FfiType
    decreases t,
{
    match t {
        Type::UInt8 => FfiType::UInt8,
        Type::Int8 => FfiType::Int8,
        Type::UInt16 => FfiType::UInt16,
        Type::Int16 => FfiType::Int16,
        Type::UInt32 => FfiType::UInt32,
        Type::Int32 => FfiType::Int32,
        Type::UInt64 => FfiType::UInt64,
        Type::Int64 => FfiType::Int64,
        Type::Float32 => FfiType::Float32,
        Type::Float64 => FfiType::Float64,
        Type::Boolean => FfiType::Int8,
        Type::Object { .. } => FfiType::Handle,
        Type::CallbackInterface { .. } => FfiType::UInt64,
        Type::Custom { builtin, .. } => ffi_type_of(*builtin),
        _ => FfiType::RustBuffer,
    }
}

/// The low-level type a value of `t` crosses as.
pub fn ffi_type(t: &Type) -> (f: FfiType)
    ensures
        f == ffi_type_of(*t),
    decreases t,
{
    match t {
        Type::UInt8 => FfiType::UInt8,
        Type::Int8 => FfiType::Int8,
        Type::UInt16 => FfiType::UInt16,
        Type::Int16 => FfiType::Int16,
        Type::UInt32 => FfiType::UInt32,
        Type::Int32 => FfiType::Int32,
        Type::UInt64 => FfiType::UInt64,
        Type::Int64 => FfiType::Int64,
        Type::Float32 => FfiType::Float32,
        Type::Float64 => FfiType::Float64,
        Type::Boolean => FfiType::Int8,
        Type::Object { .. } => FfiType::Handle,
        Type::CallbackInterface { .. } => FfiType::UInt64,
        Type::Custom { builtin, .. } => ffi_type(builtin),
        _ => FfiType::RustBuffer,
    }
}

/// The unique name of a low-level return type; `void` for none.
pub open spec fn return_type_name(f: Option<FfiType>) -> Seq<char> {
    match f {
        Some(FfiType::UInt8) => "u8"@,
        Some(FfiType::Int8) => "i8"@,
        Some(FfiType::UInt16) => "u16"@,
        Some(FfiType::Int16) => "i16"@,
        Some(FfiType::UInt32) => "u32"@,
        Some(FfiType::Int32) => "i32"@,
        Some(FfiType::UInt64) => "u64"@,
        Some(FfiType::Int64) => "i64"@,
        Some(FfiType::Float32) => "f32"@,
        Some(FfiType::Float64) => "f64"@,
        Some(FfiType::Handle) => "u64"@,
        Some(FfiType::RustBuffer) => "rust_buffer"@,
        Some(_) => Seq::empty(),
        None => "void"@,
    }
}

/// The name of the completion callback of an asynchronous method, after its
/// low-level return type.
pub open spec fn completion_name_spec(m: Callable) -> Seq<char> {
    let f = match m.return_type {
        Some(t) => Some(ffi_type_of(t)),
        None => None,
    };
    "ForeignFutureComplete"@ + upper_camel_case(return_type_name(f))
}

/// The native type name of a completion callback.
pub open spec fn completion_native_spec(m: Callable) -> Seq<char> {
    "Uniffi"@ + upper_camel_case(completion_name_spec(m))
}

fn return_type_name_text(f: &Option<FfiType>) -> (r: &'static str)
    ensures
        r@ == return_type_name(*f),
{
    proof {
        reveal_strlit("");
    }
    match f {
        Some(FfiType::UInt8) => "u8",
        Some(FfiType::Int8) => "i8",
        Some(FfiType::UInt16) => "u16",
        Some(FfiType::Int16) => "i16",
        Some(FfiType::UInt32) => "u32",
        Some(FfiType::Int32) => "i32",
        Some(FfiType::UInt64) => "u64",
        Some(FfiType::Int64) => "i64",
        Some(FfiType::Float32) => "f32",
        Some(FfiType::Float64) => "f64",
        Some(FfiType::Handle) => "u64",
        Some(FfiType::RustBuffer) => "rust_buffer",
        Some(_) => "",
        None => "void",
    }
}

fn completion_name(m: &Callable) -> (r: String)
    ensures
        r@ == completion_name_spec(*m),
{
    let f = match &m.return_type {
        Some(t) => Some(ffi_type(t)),
        None => None,
    };
    let u = to_upper_camel(return_type_name_text(&f));
    concat2("ForeignFutureComplete", u.as_str())
}

fn completion_native(m: &Callable) -> (r: String)
    ensures
        r@ == completion_native_spec(*m),
{
    let c = completion_name(m);
    let u = to_upper_camel(c.as_str());
    concat2("Uniffi", u.as_str())
}

/// The native type of a low-level value, as a signature declares it.
pub open spec fn native_label(f: FfiType) -> Seq<char>
    decreases f,
{
    match f {
        FfiType::UInt8 => "Uint8"@,
        FfiType::Int8 => "Int8"@,
        FfiType::UInt16 => "Uint16"@,
        FfiType::Int16 => "Int16"@,
        FfiType::UInt32 => "Uint32"@,
        FfiType::Int32 => "Int32"@,
        FfiType::UInt64 => "Uint64"@,
        FfiType::Int64 => "Int64"@,
        FfiType::Float32 => "Float"@,
        FfiType::Float64 => "Double"@,
        FfiType::RustBuffer => "RustBuffer"@,
        FfiType::ForeignBytes => "ForeignBytes"@,
        FfiType::Callback(n) => "Pointer<NativeFunction<Uniffi"@ + n@ + ">>"@,
        FfiType::Struct(n) => "Uniffi"@ + n@,
        FfiType::RustCallStatus => "RustCallStatus"@,
        FfiType::Reference(inner) => "Pointer<"@ + native_label(*inner) + ">"@,
        FfiType::MutReference(inner) => "Pointer<"@ + native_label(*inner) + ">"@,
        FfiType::Handle | FfiType::VoidPointer => "Pointer<Void>"@,
    }
}

/// The Dart type of a low-level value: numbers are `int` or `double`,
/// everything else keeps its native type.
pub open spec fn native_dart_label(f: FfiType) -> Seq<char> {
    match f {
        FfiType::UInt8 | FfiType::Int8 | FfiType::UInt16 | FfiType::Int16 | FfiType::UInt32
        | FfiType::Int32 | FfiType::UInt64 | FfiType::Int64 => "int"@,
        FfiType::Float32 | FfiType::Float64 => "double"@,
        _ => native_label(f),
    }
}

/// The annotation a struct field of a low-level numeric type carries.
pub open spec fn field_annotation(f: FfiType) -> Option<Seq<char>> {
    match f {
        FfiType::Int8 => Some("@Int8()"@),
        FfiType::UInt8 => Some("@Uint8()"@),
        FfiType::Int16 => Some("@Int16()"@),
        FfiType::UInt16 => Some("@Uint16()"@),
        FfiType::Int32 => Some("@Int32()"@),
        FfiType::UInt32 => Some("@Uint32()"@),
        FfiType::Int64 => Some("@Int64()"@),
        FfiType::UInt64 => Some("@Uint64()"@),
        FfiType::Float32 => Some("@Float()"@),
        FfiType::Float64 => Some("@Double()"@),
        _ => None,
    }
}

pub(crate) fn native_label_text(f: &FfiType) -> (r: String)
    ensures
        r@ == native_label(*f),
    decreases f,
{
    match f {
        FfiType::UInt8 => String::from_str("Uint8"),
        FfiType::Int8 => String::from_str("Int8"),
        FfiType::UInt16 => String::from_str("Uint16"),
        FfiType::Int16 => String::from_str("Int16"),
        FfiType::UInt32 => String::from_str("Uint32"),
        FfiType::Int32 => String::from_str("Int32"),
        FfiType::UInt64 => String::from_str("Uint64"),
        FfiType::Int64 => String::from_str("Int64"),
        FfiType::Float32 => String::from_str("Float"),
        FfiType::Float64 => String::from_str("Double"),
        FfiType::RustBuffer => String::from_str("RustBuffer"),
        FfiType::ForeignBytes => String::from_str("ForeignBytes"),
        FfiType::Callback(n) => concat3("Pointer<NativeFunction<Uniffi", n.as_str(), ">>"),
        FfiType::Struct(n) => concat2("Uniffi", n.as_str()),
        FfiType::RustCallStatus => String::from_str("RustCallStatus"),
        FfiType::Reference(inner) => {
            let i = native_label_text(inner);
            concat3("Pointer<", i.as_str(), ">")
        },
        FfiType::MutReference(inner) => {
            let i = native_label_text(inner);
            concat3("Pointer<", i.as_str(), ">")
        },
        FfiType::Handle | FfiType::VoidPointer => String::from_str("Pointer<Void>"),
    }
}

pub(crate) fn native_dart_label_text(f: &FfiType) -> (r: String)
    ensures
        r@ == native_dart_label(*f),
{
    match f {
        FfiType::UInt8 | FfiType::Int8 | FfiType::UInt16 | FfiType::Int16 | FfiType::UInt32
        | FfiType::Int32 | FfiType::UInt64 | FfiType::Int64 => String::from_str("int"),
        FfiType::Float32 | FfiType::Float64 => String::from_str("double"),
        _ => native_label_text(f),
    }
}

fn field_annotation_text(f: &FfiType) -> (r: Option<&'static str>)
    ensures
        r.is_some() == field_annotation(*f).is_some(),
        r matches Some(s) ==> s@ == field_annotation(*f)->0,
{
    match f {
        FfiType::Int8 => Some("@Int8()"),
        FfiType::UInt8 => Some("@Uint8()"),
        FfiType::Int16 => Some("@Int16()"),
        FfiType::UInt16 => Some("@Uint16()"),
        FfiType::Int32 => Some("@Int32()"),
        FfiType::UInt32 => Some("@Uint32()"),
        FfiType::Int64 => Some("@Int64()"),
        FfiType::UInt64 => Some("@Uint64()"),
        FfiType::Float32 => Some("@Float()"),
        FfiType::Float64 => Some("@Double()"),
        _ => None,
    }
}

/// The Dart name of a low-level struct.
pub open spec fn ffi_struct_name_spec(name: Seq<char>) -> Seq<char> {
    "Uniffi"@ + name
}

/// A field of a low-level struct, annotated with its native type when it is
/// numeric.
pub open spec fn struct_field_text(f: FfiField) -> Seq<char> {
    let decl = "  external "@ + native_dart_label(f.ty) + " "@ + member_name_spec(f.name@) + ";\n"@;
    match field_annotation(f.ty) {
        Some(a) => "  "@ + a + "\n"@ + decl,
        None => decl,
    }
}

/// The Dart struct a foreign future completes with.
pub open spec fn struct_def_text(s: FfiStruct) -> Seq<char> {
    "final class "@ + ffi_struct_name_spec(s.name@) + " extends Struct {\n"@ + concat_all(
        Seq::new(s.fields@.len(), |i: int| struct_field_text(s.fields@[i])),
    ) + "}\n"@
}

fn struct_def(s: &FfiStruct) -> (r: String)
    ensures
        r@ == struct_def_text(*s),
{
    let ghost p = Seq::new(s.fields@.len(), |i: int| struct_field_text(s.fields@[i]));
    let mut fields = String::new();
    let n = s.fields.len();
    assert(p.take(0) =~= Seq::<Seq<char>>::empty());
    for i in 0..n
        invariant
            n == s.fields@.len(),
            p == Seq::new(s.fields@.len(), |i: int| struct_field_text(s.fields@[i])),
            fields@ == concat_all(p.take(i as int)),
    {
        proof {
            lemma_concat_all_step(p, i as int);
        }
        let f = &s.fields[i];
        let name = var_name(f.name.as_str());
        let dl = native_dart_label_text(&f.ty);
        let head = concat3("  external ", dl.as_str(), " ");
        let decl = concat3(head.as_str(), name.as_str(), ";\n");
        match field_annotation_text(&f.ty) {
            Some(a) => {
                let x = concat3("  ", a, "\n");
                fields.append(x.as_str());
                fields.append(decl.as_str());
            },
            None => {
                fields.append(decl.as_str());
            },
        }
    }
    assert(p.take(n as int) =~= p);
    let sn = concat2("Uniffi", s.name.as_str());
    let head = concat3("final class ", sn.as_str(), " extends Struct {\n");
    concat3(head.as_str(), fields.as_str(), "}\n")
}

/// The declaration of a callback method in the abstract class.
pub open spec fn callback_def_text(m: Callable) -> Seq<char> {
    "  "@ + method_return_spec(m) + " "@ + member_name_spec(m.name@) + "("@ + args_decl_spec(m.arguments@) + ");\n"@
}

/// The declarations of the callback methods.
pub open spec fn callback_defs_text(ms: Seq<Callable>) -> Seq<char> {
    concat_all(Seq::new(ms.len(), |i: int| callback_def_text(ms[i])))
}

fn callback_defs(ms: &Vec<Callable>) -> (r: String)
    ensures
        r@ == callback_defs_text(ms@),
{
    let ghost p = Seq::new(ms@.len(), |i: int| callback_def_text(ms@[i]));
    let mut r = String::new();
    let n = ms.len();
    assert(p.take(0) =~= Seq::<Seq<char>>::empty());
    for i in 0..n
        invariant
            n == ms@.len(),
            p == Seq::new(ms@.len(), |i: int| callback_def_text(ms@[i])),
            r@ == concat_all(p.take(i as int)),
    {
        proof {
            lemma_concat_all_step(p, i as int);
        }
        let m = &ms[i];
        let base = return_label(&m.return_type);
        let ret = if m.is_async {
            concat3("Future<", base.as_str(), ">")
        } else {
            base
        };
        let name = fn_name(m.name.as_str());
        let args = args_decl(&m.arguments);
        let head = concat3("  ", ret.as_str(), " ");
        let head = concat3(head.as_str(), name.as_str(), "(");
        let x = concat3(head.as_str(), args.as_str(), ");\n");
        r.append(x.as_str());
    }
    assert(p.take(n as int) =~= p);
    r
}

/// The native types of the arguments, each followed by a comma.
pub open spec fn natives_spec(args: Seq<Argument>) -> Seq<char> {
    concat_all(arg_pieces(args, |a: Argument| native_label(ffi_type_of(a.ty)) + ", "@))
}

/// The Dart types of the arguments' low-level values, each followed by a
/// comma.
pub open spec fn darts_spec(args: Seq<Argument>) -> Seq<char> {
    concat_all(arg_pieces(args, |a: Argument| native_dart_label(ffi_type_of(a.ty)) + ", "@))
}

/// The parameters of the function Rust calls: low-level Dart type and name.
pub open spec fn cb_params_spec(args: Seq<Argument>) -> Seq<char> {
    concat_all(arg_pieces(args, |a: Argument| native_dart_label(ffi_type_of(a.ty)) + " "@ + member_name_spec(a.name@) + ", "@))
}

/// The arguments lifted into locals numbered by position.
pub open spec fn cb_lifts_spec(args: Seq<Argument>) -> Seq<char> {
    concat_all(Seq::new(args.len(), |i: int| "    final arg"@ + unsigned_decimal(i as nat) + " = "@
        + ffi_converter_name_spec(args[i].ty) + ".lift("@ + member_name_spec(args[i].name@) + ");\n"@))
}

/// The numbered locals passed on, each followed by a comma.
pub open spec fn cb_args_spec(n: nat) -> Seq<char> {
    concat_all(Seq::new(n, |i: int| "arg"@ + unsigned_decimal(i as nat) + ", "@))
}

/// The pieces of a callback method that are made argument by argument.
struct ArgParts {
    natives: String,
    darts: String,
    params: String,
    lifts: String,
    args: String,
}

fn arg_parts(args: &Vec<Argument>) -> (p: ArgParts)
    ensures
        p.natives@ == natives_spec(args@),
        p.darts@ == darts_spec(args@),
        p.params@ == cb_params_spec(args@),
        p.lifts@ == cb_lifts_spec(args@),
        p.args@ == cb_args_spec(args@.len()),
{
    let ghost na = arg_pieces(args@, |a: Argument| native_label(ffi_type_of(a.ty)) + ", "@);
    let ghost da = arg_pieces(args@, |a: Argument| native_dart_label(ffi_type_of(a.ty)) + ", "@);
    let ghost pa = arg_pieces(args@, |a: Argument| native_dart_label(ffi_type_of(a.ty)) + " "@ + member_name_spec(a.name@) + ", "@);
    let ghost li = Seq::new(args@.len(), |i: int| "    final arg"@ + unsigned_decimal(i as nat) + " = "@
        + ffi_converter_name_spec(args@[i].ty) + ".lift("@ + member_name_spec(args@[i].name@) + ");\n"@);
    let ghost ar = Seq::new(args@.len(), |i: int| "arg"@ + unsigned_decimal(i as nat) + ", "@);
    let mut p = ArgParts {
        natives: String::new(),
        darts: String::new(),
        params: String::new(),
        lifts: String::new(),
        args: String::new(),
    };
    let n = args.len();
    proof {
        assert(na.take(0) =~= Seq::<Seq<char>>::empty());
        assert(da.take(0) =~= Seq::<Seq<char>>::empty());
        assert(pa.take(0) =~= Seq::<Seq<char>>::empty());
        assert(li.take(0) =~= Seq::<Seq<char>>::empty());
        assert(ar.take(0) =~= Seq::<Seq<char>>::empty());
    }
    for i in 0..n
        invariant
            n == args@.len(),
            na == arg_pieces(args@, |a: Argument| native_label(ffi_type_of(a.ty)) + ", "@),
            da == arg_pieces(args@, |a: Argument| native_dart_label(ffi_type_of(a.ty)) + ", "@),
            pa == arg_pieces(args@, |a: Argument| native_dart_label(ffi_type_of(a.ty)) + " "@ + member_name_spec(a.name@) + ", "@),
            li == Seq::new(args@.len(), |i: int| "    final arg"@ + unsigned_decimal(i as nat) + " = "@
                + ffi_converter_name_spec(args@[i].ty) + ".lift("@ + member_name_spec(args@[i].name@) + ");\n"@),
            ar == Seq::new(args@.len(), |i: int| "arg"@ + unsigned_decimal(i as nat) + ", "@),
            p.natives@ == concat_all(na.take(i as int)),
            p.darts@ == concat_all(da.take(i as int)),
            p.params@ == concat_all(pa.take(i as int)),
            p.lifts@ == concat_all(li.take(i as int)),
            p.args@ == concat_all(ar.take(i as int)),
    {
        proof {
            lemma_concat_all_step(na, i as int);
            lemma_concat_all_step(da, i as int);
            lemma_concat_all_step(pa, i as int);
            lemma_concat_all_step(li, i as int);
            lemma_concat_all_step(ar, i as int);
        }
        let a = &args[i];
        let f = ffi_type(&a.ty);
        let name = var_name(a.name.as_str());
        let conv = ffi_converter_name(&a.ty);
        let idx = u64_decimal(i as u64);
        let nl = native_label_text(&f);
        let dl = native_dart_label_text(&f);
        let x = concat2(nl.as_str(), ", ");
        p.natives.append(x.as_str());
        let x = concat2(dl.as_str(), ", ");
        p.darts.append(x.as_str());
        let x = concat3(dl.as_str(), " ", name.as_str());
        p.params.append(x.as_str());
        p.params.append(", ");
        let x = concat3("    final arg", idx.as_str(), " = ");
        let x = concat3(x.as_str(), conv.as_str(), ".lift(");
        let x = concat3(x.as_str(), name.as_str(), ");\n");
        p.lifts.append(x.as_str());
        let x = concat3("arg", idx.as_str(), ", ");
        p.args.append(x.as_str());
    }
    proof {
        assert(na.take(n as int) =~= na);
        assert(da.take(n as int) =~= da);
        assert(pa.take(n as int) =~= pa);
        assert(li.take(n as int) =~= li);
        assert(ar.take(n as int) =~= ar);
    }
    p
}

/// The name of the type of the `i`-th callback method.
pub open spec fn method_type_name(cb: Seq<char>, i: int) -> Seq<char> {
    "UniffiCallbackInterface"@ + cb + "Method"@ + unsigned_decimal(i as nat)
}

/// The native and Dart signatures of the `i`-th callback method.
pub open spec fn signature_text(cb: Seq<char>, i: int, m: Callable) -> Seq<char> {
    let mt = method_type_name(cb, i);
    if m.is_async {
        async_signature_spec(
            mt,
            mt + "Dart"@,
            natives_spec(m.arguments@),
            darts_spec(m.arguments@),
            "Pointer<NativeFunction<"@ + completion_native_spec(m) + ">>"@,
        )
    } else {
        sync_signature_spec(
            mt,
            mt + "Dart"@,
            natives_spec(m.arguments@),
            darts_spec(m.arguments@),
            match m.return_type {
                Some(t) => native_label(ffi_type_of(t)),
                None => "Void"@,
            },
        )
    }
}

/// The signatures of the callback methods and of the handle functions.
pub open spec fn signatures_text(cb: Seq<char>, ms: Seq<Callable>) -> Seq<char> {
    concat_all(Seq::new(ms.len(), |i: int| signature_text(cb, i, ms[i]))) + handle_signatures_spec(cb)
}

fn signatures(cb: &str, ms: &Vec<Callable>) -> (r: String)
    ensures
        r@ == signatures_text(cb@, ms@),
{
    let ghost p = Seq::new(ms@.len(), |i: int| signature_text(cb@, i, ms@[i]));
    let mut r = String::new();
    let n = ms.len();
    assert(p.take(0) =~= Seq::<Seq<char>>::empty());
    for i in 0..n
        invariant
            n == ms@.len(),
            p == Seq::new(ms@.len(), |i: int| signature_text(cb@, i, ms@[i])),
            r@ == concat_all(p.take(i as int)),
    {
        proof {
            lemma_concat_all_step(p, i as int);
        }
        let m = &ms[i];
        let idx = u64_decimal(i as u64);
        let head = concat3("UniffiCallbackInterface", cb, "Method");
        let mt = concat2(head.as_str(), idx.as_str());
        let mtd = concat2(mt.as_str(), "Dart");
        let parts = arg_parts(&m.arguments);
        let x = if m.is_async {
            let cn = completion_native(m);
            let ptr = concat3("Pointer<NativeFunction<", cn.as_str(), ">>");
            async_signature(mt.as_str(), mtd.as_str(), parts.natives.as_str(), parts.darts.as_str(), ptr.as_str())
        } else {
            let ret = match &m.return_type {
                Some(t) => native_label_text(&ffi_type(t)),
                None => String::from_str("Void"),
            };
            sync_signature(mt.as_str(), mtd.as_str(), parts.natives.as_str(), parts.darts.as_str(), ret.as_str())
        };
        r.append(x.as_str());
    }
    assert(p.take(n as int) =~= p);
    let h = handle_signatures(cb);
    r.append(h.as_str());
    r
}

/// The vtable struct of a callback interface.
pub open spec fn vtable_interface_text(cb: Seq<char>, ms: Seq<Callable>) -> Seq<char> {
    vtable_interface_spec(
        cb,
        concat_all(Seq::new(ms.len(), |i: int| vtable_field_spec(cb, unsigned_decimal(i as nat), member_name_spec(ms[i].name@)))),
    )
}

/// Generates the vtable struct of a callback interface.
pub fn generate_callback_vtable_interface(cb: &str, ms: &Vec<Callable>) -> (r: String)
    ensures
        r@ == vtable_interface_text(cb@, ms@),
{
    let ghost p = Seq::new(ms@.len(), |i: int| vtable_field_spec(cb@, unsigned_decimal(i as nat), member_name_spec(ms@[i].name@)));
    let mut fields = String::new();
    let n = ms.len();
    assert(p.take(0) =~= Seq::<Seq<char>>::empty());
    for i in 0..n
        invariant
            n == ms@.len(),
            p == Seq::new(ms@.len(), |i: int| vtable_field_spec(cb@, unsigned_decimal(i as nat), member_name_spec(ms@[i].name@))),
            fields@ == concat_all(p.take(i as int)),
    {
        proof {
            lemma_concat_all_step(p, i as int);
        }
        let idx = u64_decimal(i as u64);
        let name = fn_name(ms[i].name.as_str());
        let x = vtable_field(cb, idx.as_str(), name.as_str());
        fields.append(x.as_str());
    }
    assert(p.take(n as int) =~= p);
    vtable_interface(cb, fields.as_str())
}

/// What the function Rust calls does with a synchronous method's result:
/// lowers it into the out-parameter, or just calls the method.
pub open spec fn sync_call_spec(m: Callable) -> Seq<char> {
    let method = member_name_spec(m.name@);
    let args = cb_args_spec(m.arguments@.len());
    match m.return_type {
        Some(t) => "    final result = obj."@ + method + "("@ + args + ");\n    outReturn."@ + (if ffi_type_of(t) is RustBuffer {
            "ref"@
        } else {
            "value"@
        }) + " = "@ + ffi_converter_name_spec(t) + ".lower(result);\n    status.code = CALL_SUCCESS;\n"@,
        None => "    obj."@ + method + "("@ + args + ");\n    status.code = CALL_SUCCESS;\n"@,
    }
}

/// The function Rust calls for the `i`-th method of the callback interface
/// `cb`, and its pointer.
pub open spec fn callback_fn_text(cb: Seq<char>, i: int, m: Callable) -> Seq<char> {
    let cls = class_name_spec(cb);
    let fname = member_name_spec(cb) + class_name_spec(m.name@);
    let fty = method_type_name(cb, i);
    let method = member_name_spec(m.name@);
    if m.is_async {
        async_callback_fn_spec(
            fname,
            cb_params_spec(m.arguments@),
            "Pointer<NativeFunction<"@ + completion_native_spec(m) + ">>"@,
            completion_native_spec(m) + "Dart"@,
            cls,
            cb_lifts_spec(m.arguments@),
            method,
            cb_args_spec(m.arguments@.len()),
            ffi_struct_name_spec(m.foreign_future_result.name@),
            match m.return_type {
                Some(t) => "resultStructPtr.ref.returnValue = "@ + ffi_converter_name_spec(t) + ".lower(result);"@,
                None => Seq::empty(),
            },
            fty,
        )
    } else {
        sync_callback_fn_spec(
            fname,
            cb_params_spec(m.arguments@),
            match m.return_type {
                Some(t) => "Pointer<"@ + native_label(ffi_type_of(t)) + ">"@,
                None => "Pointer<Void>"@,
            },
            cls,
            cb_lifts_spec(m.arguments@),
            sync_call_spec(m),
            fty,
        )
    }
}

/// The functions Rust calls the callback interface through.
pub open spec fn callback_functions_text(cb: Seq<char>, ms: Seq<Callable>) -> Seq<char> {
    concat_all(Seq::new(ms.len(), |i: int| callback_fn_text(cb, i, ms[i]))) + handle_fns_spec(
        cb,
        member_name_spec(cb),
        class_name_spec(cb),
    )
}

/// The registry after the callback functions are made: the return type of
/// each asynchronous method is registered.
pub open spec fn register_async_returns(m: Map<Seq<char>, Type>, ms: Seq<Callable>) -> Map<Seq<char>, Type>
    decreases ms.len(),
{
    if ms.len() == 0 {
        m
    } else {
        let prev = register_async_returns(m, ms.drop_last());
        let c = ms.last();
        if c.is_async {
            match c.return_type {
                Some(t) => prev.insert(canonical_name_spec(t), t),
                None => prev,
            }
        } else {
            prev
        }
    }
}

fn callback_fn(cb: &str, i: usize, m: &Callable) -> (r: String)
    ensures
        r@ == callback_fn_text(cb@, i as int, *m),
{
    let cls = class_name(cb);
    let fcb = fn_name(cb);
    let mc = class_name(m.name.as_str());
    let fname = concat2(fcb.as_str(), mc.as_str());
    let idx = u64_decimal(i as u64);
    let head = concat3("UniffiCallbackInterface", cb, "Method");
    let fty = concat2(head.as_str(), idx.as_str());
    let method = fn_name(m.name.as_str());
    let parts = arg_parts(&m.arguments);
    if m.is_async {
        let cn = completion_native(m);
        let ptr = concat3("Pointer<NativeFunction<", cn.as_str(), ">>");
        let cd = concat2(cn.as_str(), "Dart");
        let st = concat2("Uniffi", m.foreign_future_result.name.as_str());
        let success = match &m.return_type {
            Some(t) => {
                let conv = ffi_converter_name(t);
                concat3("resultStructPtr.ref.returnValue = ", conv.as_str(), ".lower(result);")
            },
            None => String::new(),
        };
        async_callback_fn(
            fname.as_str(),
            parts.params.as_str(),
            ptr.as_str(),
            cd.as_str(),
            cls.as_str(),
            parts.lifts.as_str(),
            method.as_str(),
            parts.args.as_str(),
            st.as_str(),
            success.as_str(),
            fty.as_str(),
        )
    } else {
        let out = match &m.return_type {
            Some(t) => {
                let nl = native_label_text(&ffi_type(t));
                concat3("Pointer<", nl.as_str(), ">")
            },
            None => String::from_str("Pointer<Void>"),
        };
        let call = match &m.return_type {
            Some(t) => {
                let conv = ffi_converter_name(t);
                let field = match ffi_type(t) {
                    FfiType::RustBuffer => "ref",
                    _ => "value",
                };
                let x = concat3("    final result = obj.", method.as_str(), "(");
                let x = concat3(x.as_str(), parts.args.as_str(), ");\n    outReturn.");
                let x = concat3(x.as_str(), field, " = ");
                concat3(x.as_str(), conv.as_str(), ".lower(result);\n    status.code = CALL_SUCCESS;\n")
            },
            None => {
                let x = concat3("    obj.", method.as_str(), "(");
                concat3(x.as_str(), parts.args.as_str(), ");\n    status.code = CALL_SUCCESS;\n")
            },
        };
        sync_callback_fn(
            fname.as_str(),
            parts.params.as_str(),
            out.as_str(),
            cls.as_str(),
            parts.lifts.as_str(),
            call.as_str(),
            fty.as_str(),
        )
    }
}

proof fn lemma_register_async_step(m: Map<Seq<char>, Type>, ms: Seq<Callable>, i: int)
    requires
        0 <= i < ms.len(),
    ensures
        register_async_returns(m, ms.take(i + 1)) == (if ms[i].is_async {
            match ms[i].return_type {
                Some(t) => register_async_returns(m, ms.take(i)).insert(canonical_name_spec(t), t),
                None => register_async_returns(m, ms.take(i)),
            }
        } else {
            register_async_returns(m, ms.take(i))
        }),
{
    assert(ms.take(i + 1).drop_last() =~= ms.take(i));
}

/// Generates the functions Rust calls the callback interface `cb` through,
/// and registers the return types of its asynchronous methods.
pub fn generate_callback_functions(cb: &str, ms: &Vec<Callable>, reg: &mut TypeHelpersRenderer) -> (r: String)
    requires
        old(reg).well_formed(),
    ensures
        final(reg).well_formed(),
        r@ == callback_functions_text(cb@, ms@),
        final(reg).helpers() == register_async_returns(old(reg).helpers(), ms@),
        final(reg).custom_names() == old(reg).custom_names(),
{
    let ghost m0 = reg.helpers();
    let ghost p = Seq::new(ms@.len(), |i: int| callback_fn_text(cb@, i, ms@[i]));
    let mut r = String::new();
    let n = ms.len();
    assert(p.take(0) =~= Seq::<Seq<char>>::empty());
    assert(ms@.take(0) =~= Seq::<Callable>::empty());
    for i in 0..n
        invariant
            n == ms@.len(),
            p == Seq::new(ms@.len(), |i: int| callback_fn_text(cb@, i, ms@[i])),
            r@ == concat_all(p.take(i as int)),
            reg.well_formed(),
            reg.helpers() == register_async_returns(m0, ms@.take(i as int)),
            reg.custom_names() == old(reg).custom_names(),
    {
        proof {
            lemma_concat_all_step(p, i as int);
            lemma_register_async_step(m0, ms@, i as int);
        }
        let m = &ms[i];
        if m.is_async {
            if let Some(t) = &m.return_type {
                let canon = canonical_name(t);
                reg.include_once_check(canon.as_str(), t);
            }
        }
        let x = callback_fn(cb, i, m);
        r.append(x.as_str());
    }
    assert(p.take(n as int) =~= p);
    assert(ms@.take(n as int) =~= ms@);
    let fcb = fn_name(cb);
    let cls = class_name(cb);
    let h = handle_fns(cb, fcb.as_str(), cls.as_str());
    r.append(h.as_str());
    r
}

/// The function that fills the vtable of the callback interface `cb` and
/// hands it to Rust, for the module `module`.
pub open spec fn vtable_init_text(cb: Seq<char>, ms: Seq<Callable>, module: Seq<char>) -> Seq<char> {
    let vs = member_name_spec(cb) + "VTable"@;
    let fcb = member_name_spec(cb);
    vtable_init_spec(
        "UniffiVTableCallbackInterface"@ + cb,
        vs,
        cb,
        class_name_spec(cb),
        fcb,
        concat_all(Seq::new(ms.len(), |i: int| "  "@ + vs + ".ref."@ + member_name_spec(ms[i].name@) + " = "@ + fcb
            + class_name_spec(ms[i].name@) + "Pointer;\n"@)),
        module,
        lowercase(cb),
    )
}

/// Generates the function that fills the vtable of a callback interface.
pub fn generate_callback_interface_vtable_init_function(cb: &str, ms: &Vec<Callable>, module: &str) -> (r: String)
    ensures
        r@ == vtable_init_text(cb@, ms@, module@),
{
    let fcb = fn_name(cb);
    let vs = concat2(fcb.as_str(), "VTable");
    let ghost p = Seq::new(ms@.len(), |i: int| "  "@ + vs@ + ".ref."@ + member_name_spec(ms@[i].name@) + " = "@ + fcb@
        + class_name_spec(ms@[i].name@) + "Pointer;\n"@);
    let mut assigns = String::new();
    let n = ms.len();
    assert(p.take(0) =~= Seq::<Seq<char>>::empty());
    for i in 0..n
        invariant
            n == ms@.len(),
            p == Seq::new(ms@.len(), |i: int| "  "@ + vs@ + ".ref."@ + member_name_spec(ms@[i].name@) + " = "@ + fcb@
                + class_name_spec(ms@[i].name@) + "Pointer;\n"@),
            assigns@ == concat_all(p.take(i as int)),
    {
        proof {
            lemma_concat_all_step(p, i as int);
        }
        let mn = fn_name(ms[i].name.as_str());
        let mc = class_name(ms[i].name.as_str());
        let x = concat3("  ", vs.as_str(), ".ref.");
        let x = concat3(x.as_str(), mn.as_str(), " = ");
        let x = concat3(x.as_str(), fcb.as_str(), mc.as_str());
        let x = concat2(x.as_str(), "Pointer;\n");
        assigns.append(x.as_str());
    }
    assert(p.take(n as int) =~= p);
    let vt = concat2("UniffiVTableCallbackInterface", cb);
    let cls = class_name(cb);
    let lower = to_lowercase(cb);
    vtable_init(
        vt.as_str(),
        vs.as_str(),
        cb,
        cls.as_str(),
        fcb.as_str(),
        assigns.as_str(),
        module,
        lower.as_str(),
    )
}

/// The support definitions of the asynchronous methods: for each, the
/// completion signature and the result struct, each emitted once across the
/// whole source; returns the signatures, the structs and the names emitted.
pub open spec fn async_support_fold(set: Set<Seq<char>>, ms: Seq<Callable>) -> (Seq<char>, Seq<char>, Set<Seq<char>>)
    decreases ms.len(),
{
    if ms.len() == 0 {
        (Seq::empty(), Seq::empty(), set)
    } else {
        let prev = async_support_fold(set, ms.drop_last());
        let m = ms.last();
        if !m.is_async {
            prev
        } else {
            let sname = m.foreign_future_result.name@;
            let structs = if prev.2.contains(sname) {
                prev.1
            } else {
                prev.1 + struct_def_text(m.foreign_future_result)
            };
            let set2 = prev.2.insert(sname);
            let cname = completion_name_spec(m);
            let typedefs = if set2.contains(cname) {
                prev.0
            } else {
                prev.0 + completion_typedef_spec(completion_native_spec(m), ffi_struct_name_spec(sname))
            };
            (typedefs, structs, set2.insert(cname))
        }
    }
}

proof fn lemma_async_support_step(set: Set<Seq<char>>, ms: Seq<Callable>, i: int)
    requires
        0 <= i < ms.len(),
    ensures
        async_support_fold(set, ms.take(i + 1)) == ({
            let prev = async_support_fold(set, ms.take(i));
            let m = ms[i];
            if !m.is_async {
                prev
            } else {
                let sname = m.foreign_future_result.name@;
                let structs = if prev.2.contains(sname) {
                    prev.1
                } else {
                    prev.1 + struct_def_text(m.foreign_future_result)
                };
                let set2 = prev.2.insert(sname);
                let cname = completion_name_spec(m);
                let typedefs = if set2.contains(cname) {
                    prev.0
                } else {
                    prev.0 + completion_typedef_spec(completion_native_spec(m), ffi_struct_name_spec(sname))
                };
                (typedefs, structs, set2.insert(cname))
            }
        }),
{
    assert(ms.take(i + 1).drop_last() =~= ms.take(i));
}

/// The Dart source of a callback interface: the abstract class, its
/// converter, the support definitions of asynchronous methods not emitted
/// before (given the names emitted so far), and the method signatures.
pub open spec fn callback_interface_text(
    cb: Seq<char>,
    conv: Seq<char>,
    ms: Seq<Callable>,
    rust_impl: Option<Seq<char>>,
    emitted: Set<Seq<char>>,
) -> Seq<char> {
    let cls = class_name_spec(cb);
    let support = async_support_fold(emitted, ms);
    callback_interface_spec(
        cls,
        class_name_spec(conv),
        callback_defs_text(ms),
        "init"@ + cb + "VTable"@,
        match rust_impl {
            Some(n) => "return "@ + n + "._internal(handle);"@,
            None => "throw UniffiInternalError(\n        UniffiInternalError.unexpectedStaleHandle,\n        \"Rust-owned callback interface handle is not supported for "@
                + cls + "\",\n      );"@,
        },
        match rust_impl {
            Some(n) => "    if (value is "@ + n + ") {\n      return value.uniffiClonePointer();\n    }\n"@,
            None => Seq::empty(),
        },
        support.0 + support.1,
        signatures_text(cls, ms),
    )
}

/// Generates the Dart source of a callback interface, and records the
/// support definitions it emits.
pub fn generate_callback_interface(
    cb: &str,
    conv: &str,
    ms: &Vec<Callable>,
    reg: &mut TypeHelpersRenderer,
    rust_impl: Option<&str>,
) -> (r: String)
    requires
        old(reg).well_formed(),
    ensures
        final(reg).well_formed(),
        r@ == callback_interface_text(
            cb@,
            conv@,
            ms@,
            match rust_impl {
                Some(n) => Some(n@),
                None => None,
            },
            old(reg).custom_names(),
        ),
        final(reg).custom_names() == async_support_fold(old(reg).custom_names(), ms@).2,
        final(reg).helpers() == old(reg).helpers(),
{
    let cls = class_name(cb);
    let conv_cls = class_name(conv);
    let init = concat3("init", cb, "VTable");
    let lift_rust = match rust_impl {
        Some(n) => concat3("return ", n, "._internal(handle);"),
        None => {
            let x = concat2(
                "throw UniffiInternalError(\n        UniffiInternalError.unexpectedStaleHandle,\n        \"Rust-owned callback interface handle is not supported for ",
                cls.as_str(),
            );
            concat2(x.as_str(), "\",\n      );")
        },
    };
    let lower_rust = match rust_impl {
        Some(n) => concat3("    if (value is ", n, ") {\n      return value.uniffiClonePointer();\n    }\n"),
        None => String::new(),
    };
    let ghost set0 = reg.custom_names();
    let mut typedefs = String::new();
    let mut structs = String::new();
    let n = ms.len();
    assert(ms@.take(0) =~= Seq::<Callable>::empty());
    for i in 0..n
        invariant
            n == ms@.len(),
            reg.well_formed(),
            reg.helpers() == old(reg).helpers(),
            (typedefs@, structs@, reg.custom_names()) == async_support_fold(set0, ms@.take(i as int)),
    {
        proof {
            lemma_async_support_step(set0, ms@, i as int);
        }
        let m = &ms[i];
        if m.is_async {
            let sname = &m.foreign_future_result.name;
            if !reg.include_once_by_name(sname.as_str()) {
                let x = struct_def(&m.foreign_future_result);
                structs.append(x.as_str());
            }
            let cname = completion_name(m);
            if !reg.include_once_by_name(cname.as_str()) {
                let cn = completion_native(m);
                let sn = concat2("Uniffi", sname.as_str());
                let x = completion_typedef(cn.as_str(), sn.as_str());
                typedefs.append(x.as_str());
            }
        }
    }
    assert(ms@.take(n as int) =~= ms@);
    let defs = callback_defs(ms);
    let support = concat2(typedefs.as_str(), structs.as_str());
    let sigs = signatures(cls.as_str(), ms);
    callback_interface(
        cls.as_str(),
        conv_cls.as_str(),
        defs.as_str(),
        init.as_str(),
        lift_rust.as_str(),
        lower_rust.as_str(),
        support.as_str(),
        sigs.as_str(),
    )
}

/// Everything generated for a callback interface `cb` of the module
/// `module`: the interface, its vtable struct, the functions Rust calls and
/// the vtable's initialization, given the support names emitted so far.
#[verifier::opaque]
pub open spec fn callback_bundle_text(
    cb: Seq<char>,
    conv: Seq<char>,
    ms: Seq<Callable>,
    module: Seq<char>,
    emitted: Set<Seq<char>>,
) -> Seq<char> {
    callback_interface_text(cb, conv, ms, None, emitted) + vtable_interface_text(cb, ms)
        + callback_functions_text(cb, ms) + vtable_init_text(cb, ms, module)
}

/// Generates everything for a callback interface: the interface, its vtable
/// struct, the functions Rust calls and the vtable's initialization.
pub fn generate_callback_bundle(
    cb: &str,
    conv: &str,
    ms: &Vec<Callable>,
    module: &str,
    reg: &mut TypeHelpersRenderer,
) -> (r: String)
    requires
        old(reg).well_formed(),
    ensures
        final(reg).well_formed(),
        r@ == callback_bundle_text(cb@, conv@, ms@, module@, old(reg).custom_names()),
        final(reg).custom_names() == async_support_fold(old(reg).custom_names(), ms@).2,
        final(reg).helpers() == register_async_returns(old(reg).helpers(), ms@),
{
    proof {
        reveal(callback_bundle_text);
    }
    let iface = generate_callback_interface(cb, conv, ms, reg, None);
    let vtable = generate_callback_vtable_interface(cb, ms);
    let functions = generate_callback_functions(cb, ms, reg);
    let init = generate_callback_interface_vtable_init_function(cb, ms, module);
    let a = concat2(iface.as_str(), vtable.as_str());
    let b = concat2(a.as_str(), functions.as_str());
    concat2(b.as_str(), init.as_str())
}

/// Support names are recorded: after the methods of an interface are
/// processed, every name recorded before is still recorded, and so are the
/// result struct and the completion of each asynchronous method.
pub proof fn async_support_recorded(set: Set<Seq<char>>, ms: Seq<Callable>)
    ensures
        set.subset_of(async_support_fold(set, ms).2),
        forall|i: int| 0 <= i < ms.len() && (#[trigger] ms[i]).is_async ==> async_support_fold(set, ms).2.contains(
            ms[i].foreign_future_result.name@,
        ) && async_support_fold(set, ms).2.contains(completion_name_spec(ms[i])),
    decreases ms.len(),
{
    if ms.len() > 0 {
        async_support_recorded(set, ms.drop_last());
        let prev = async_support_fold(set, ms.drop_last());
        let fin = async_support_fold(set, ms);
        assert(prev.2.subset_of(fin.2));
        assert forall|i: int| 0 <= i < ms.len() && (#[trigger] ms[i]).is_async implies fin.2.contains(
            ms[i].foreign_future_result.name@,
        ) && fin.2.contains(completion_name_spec(ms[i])) by {
            if i < ms.len() - 1 {
                assert(ms.drop_last()[i] == ms[i]);
            }
        }
    }
}


/// What the support fold emits, in order: the result structs it defines, and
/// the asynchronous methods whose completion signature it defines.
pub open spec fn async_support_emitted(set: Set<Seq<char>>, ms: Seq<Callable>) -> (Seq<FfiStruct>, Seq<Callable>)
    decreases ms.len(),
{
    if ms.len() == 0 {
        (Seq::empty(), Seq::empty())
    } else {
        let prev = async_support_emitted(set, ms.drop_last());
        let f = async_support_fold(set, ms.drop_last());
        let m = ms.last();
        if !m.is_async {
            prev
        } else {
            let sname = m.foreign_future_result.name@;
            let structs = if f.2.contains(sname) {
                prev.0
            } else {
                prev.0.push(m.foreign_future_result)
            };
            let set2 = f.2.insert(sname);
            let cs = if set2.contains(completion_name_spec(m)) {
                prev.1
            } else {
                prev.1.push(m)
            };
            (structs, cs)
        }
    }
}

/// The completion signature the support fold defines for an asynchronous
/// method.
pub open spec fn completion_typedef_text(m: Callable) -> Seq<char> {
    completion_typedef_spec(completion_native_spec(m), ffi_struct_name_spec(m.foreign_future_result.name@))
}

proof fn lemma_concat_push(ps: Seq<Seq<char>>, x: Seq<char>)
    ensures
        concat_all(ps.push(x)) == concat_all(ps) + x,
{
    assert(ps.push(x).drop_last() =~= ps);
}

/// What the support definitions of one interface's methods are: the
/// signatures are those of the emitted completions and the structs those of
/// the emitted result structs, in order; every emitted name was not
/// recorded before and is recorded after; no name is emitted twice; and
/// every name recorded before stays recorded.
pub proof fn async_support_emits_new_names(set: Set<Seq<char>>, ms: Seq<Callable>)
    ensures
        ({
            let f = async_support_fold(set, ms);
            let e = async_support_emitted(set, ms);
            &&& f.1 == concat_all(e.0.map_values(|x: FfiStruct| struct_def_text(x)))
            &&& f.0 == concat_all(e.1.map_values(|m: Callable| completion_typedef_text(m)))
            &&& set.subset_of(f.2)
            &&& forall|i: int| 0 <= i < e.0.len() ==> !set.contains((#[trigger] e.0[i]).name@) && f.2.contains(e.0[i].name@)
            &&& forall|i: int| 0 <= i < e.1.len() ==> !set.contains(completion_name_spec(#[trigger] e.1[i]))
                && f.2.contains(completion_name_spec(e.1[i]))
            &&& forall|i: int, j: int| 0 <= i < j < e.0.len() ==> (#[trigger] e.0[i]).name@ != (#[trigger] e.0[j]).name@
            &&& forall|i: int, j: int| 0 <= i < j < e.1.len() ==> completion_name_spec(#[trigger] e.1[i])
                != completion_name_spec(#[trigger] e.1[j])
            &&& (forall|i: int| 0 <= i < ms.len() ==> !(#[trigger] ms[i]).is_async) ==> e.0.len() == 0 && e.1.len()
                == 0
        }),
    decreases ms.len(),
{
    if ms.len() > 0 {
        async_support_emits_new_names(set, ms.drop_last());
        assert forall|i: int| 0 <= i < ms.drop_last().len() implies ms.drop_last()[i] == ms[i] by {}
        let f = async_support_fold(set, ms.drop_last());
        let e = async_support_emitted(set, ms.drop_last());
        let m = ms.last();
        if m.is_async {
            let sname = m.foreign_future_result.name@;
            let fs = |x: FfiStruct| struct_def_text(x);
            let fc = |c: Callable| completion_typedef_text(c);
            if !f.2.contains(sname) {
                assert(e.0.push(m.foreign_future_result).map_values(fs) =~= e.0.map_values(fs).push(
                    struct_def_text(m.foreign_future_result),
                ));
                lemma_concat_push(e.0.map_values(fs), struct_def_text(m.foreign_future_result));
            }
            let set2 = f.2.insert(sname);
            if !set2.contains(completion_name_spec(m)) {
                assert(e.1.push(m).map_values(fc) =~= e.1.map_values(fc).push(completion_typedef_text(m)));
                lemma_concat_push(e.1.map_values(fc), completion_typedef_text(m));
            }
        }
    }
}

/// Across the interfaces of one source, each result struct and each
/// completion signature is defined in at most one of them: what the next
/// interface's methods emit, starting from the names recorded after the
/// previous interface's, shares no name with what the previous emitted.
pub proof fn async_support_emitted_once(set: Set<Seq<char>>, ms1: Seq<Callable>, ms2: Seq<Callable>)
    ensures
        ({
            let s1 = async_support_fold(set, ms1).2;
            let e1 = async_support_emitted(set, ms1);
            let e2 = async_support_emitted(s1, ms2);
            &&& forall|i: int, j: int| 0 <= i < e1.0.len() && 0 <= j < e2.0.len() ==> (#[trigger] e1.0[i]).name@
                != (#[trigger] e2.0[j]).name@
            &&& forall|i: int, j: int| 0 <= i < e1.1.len() && 0 <= j < e2.1.len() ==> completion_name_spec(
                #[trigger] e1.1[i],
            ) != completion_name_spec(#[trigger] e2.1[j])
        }),
{
    async_support_emits_new_names(set, ms1);
    async_support_emits_new_names(async_support_fold(set, ms1).2, ms2);
}


/// The names recorded after the methods of the first `k` interfaces of
/// `mss` are processed in turn, starting from `set`.
pub open spec fn support_set_after(set: Set<Seq<char>>, mss: Seq<Seq<Callable>>, k: int) -> Set<Seq<char>>
    decreases k,
{
    if k <= 0 {
        set
    } else {
        async_support_fold(support_set_after(set, mss, k - 1), mss[k - 1]).2
    }
}

/// What the `k`-th interface of `mss` emits when the interfaces are
/// processed in turn.
pub open spec fn support_emitted_at(set: Set<Seq<char>>, mss: Seq<Seq<Callable>>, k: int) -> (Seq<FfiStruct>, Seq<Callable>) {
    async_support_emitted(support_set_after(set, mss, k), mss[k])
}

proof fn lemma_support_sets_grow(set: Set<Seq<char>>, mss: Seq<Seq<Callable>>, i: int, j: int)
    requires
        0 <= i <= j,
    ensures
        support_set_after(set, mss, i).subset_of(support_set_after(set, mss, j)),
    decreases j - i,
{
    if i < j {
        lemma_support_sets_grow(set, mss, i, j - 1);
        async_support_emits_new_names(support_set_after(set, mss, j - 1), mss[j - 1]);
    }
}

/// Across any sequence of interfaces processed in turn, each result struct
/// and each completion signature is defined in at most one of them: two
/// different interfaces never emit the same name; an interface without
/// asynchronous methods emits nothing.
pub proof fn async_support_emitted_once_in_sequence(set: Set<Seq<char>>, mss: Seq<Seq<Callable>>, i: int, j: int)
    requires
        0 <= i < j < mss.len(),
    ensures
        forall|a: int, b: int|
            0 <= a < support_emitted_at(set, mss, i).0.len() && 0 <= b < support_emitted_at(set, mss, j).0.len()
                ==> (#[trigger] support_emitted_at(set, mss, i).0[a]).name@ != (#[trigger] support_emitted_at(
                set,
                mss,
                j,
            ).0[b]).name@,
        forall|a: int, b: int|
            0 <= a < support_emitted_at(set, mss, i).1.len() && 0 <= b < support_emitted_at(set, mss, j).1.len()
                ==> completion_name_spec(#[trigger] support_emitted_at(set, mss, i).1[a]) != completion_name_spec(
                #[trigger] support_emitted_at(set, mss, j).1[b],
            ),
        (forall|k: int| 0 <= k < mss[j].len() ==> !(#[trigger] mss[j][k]).is_async) ==> support_emitted_at(
            set,
            mss,
            j,
        ).0.len() == 0 && support_emitted_at(set, mss, j).1.len() == 0,
{
    async_support_emits_new_names(support_set_after(set, mss, i), mss[i]);
    async_support_emits_new_names(support_set_after(set, mss, j), mss[j]);
    lemma_support_sets_grow(set, mss, i + 1, j);
}

} // verus!
