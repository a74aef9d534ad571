//! Dart classes generated for objects: Rust structs and Rust traits handed
//! across by reference.
use vstd::prelude::*;
use crate::gen::functions::{
    arg_decl_piece, arg_pieces, args_decl, args_decl_spec, args_lower, args_lower_spec, async_call,
    async_call_spec, error_handler_name, error_handler_name_spec, lemma_async_calls, lifter, lifter_spec, return_label,
    return_label_spec, method_value_call, method_value_call_spec, void_call, void_call_spec,
};
use crate::gen::enums::{to_string_method, to_string_method_spec};
use crate::gen::interface::{Argument, Callable, ComponentInterface, Object, UniffiTrait, used_as_error};
use crate::gen::naming::{class_name, class_name_spec, fn_name, lower_camel_case, member_name_spec, to_lower_camel, var_name};
use crate::gen::registry::TypeHelpersRenderer;
use crate::gen::text::{
    concat2, concat3, concat_all, contains, contains_spec, join_spec, join_strings, lemma_concat_all_step, lemma_contains_extend,
    lemma_contains_mid, views,
};
use crate::gen::types::{canonical_name, canonical_name_spec, ffi_converter_name, ffi_converter_name_spec, type_label, type_label_spec, ObjectImpl, Type};

verus! {

/// The declaration of a method in an abstract class.
pub open spec fn interface_method_spec(ret: Seq<char>, name: Seq<char>, params: Seq<char>) -> Seq<char> {
    "  "@ +
    ret +
    " "@ +
    name +
    "("@ +
    params +
    ");\n"@
}

fn interface_method(ret: &str, name: &str, params: &str) -> (s: String)
    ensures
        s@ == interface_method_spec(ret@, name@, params@),
{
    let mut s = String::from_str("  ");
    s.append(ret);
    s.append(" ");
    s.append(name);
    s.append("(");
    s.append(params);
    s.append(");\n");
    s
}

/// A call of an exported trait method that returns a value.
pub open spec fn trait_value_call_spec(lifter: Seq<char>, ffi: Seq<char>, lowered: Seq<char>, handler: Seq<char>) -> Seq<char> {
    "rustCall((status) => "@ +
    lifter +
    "(_UniffiLib.instance."@ +
    ffi +
    "(\n      uniffiClonePointer(),\n      "@ +
    lowered +
    "status\n    )), "@ +
    handler +
    ")"@
}

fn trait_value_call(lifter: &str, ffi: &str, lowered: &str, handler: &str) -> (s: String)
    ensures
        s@ == trait_value_call_spec(lifter@, ffi@, lowered@, handler@),
{
    let mut s = String::from_str("rustCall((status) => ");
    s.append(lifter);
    s.append("(_UniffiLib.instance.");
    s.append(ffi);
    s.append("(\n      uniffiClonePointer(),\n      ");
    s.append(lowered);
    s.append("status\n    )), ");
    s.append(handler);
    s.append(")");
    s
}

/// A call of an exported trait method that returns nothing.
pub open spec fn trait_void_call_spec(ffi: Seq<char>, lowered: Seq<char>, handler: Seq<char>) -> Seq<char> {
    "rustCall((status) {\n      _UniffiLib.instance."@ +
    ffi +
    "(\n        uniffiClonePointer(),\n        "@ +
    lowered +
    "status\n      );\n    }, "@ +
    handler +
    ")"@
}

fn trait_void_call(ffi: &str, lowered: &str, handler: &str) -> (s: String)
    ensures
        s@ == trait_void_call_spec(ffi@, lowered@, handler@),
{
    let mut s = String::from_str("rustCall((status) {\n      _UniffiLib.instance.");
    s.append(ffi);
    s.append("(\n        uniffiClonePointer(),\n        ");
    s.append(lowered);
    s.append("status\n      );\n    }, ");
    s.append(handler);
    s.append(")");
    s
}

/// `toString` through the exported `Display`.
pub open spec fn display_helper_spec(call: Seq<char>) -> Seq<char> {
    "  @override\n  String toString() {\n    return "@ +
    call +
    ";\n  }\n"@
}

fn display_helper(call: &str) -> (s: String)
    ensures
        s@ == display_helper_spec(call@),
{
    let mut s = String::from_str("  @override\n  String toString() {\n    return ");
    s.append(call);
    s.append(";\n  }\n");
    s
}

/// `debugString` through the exported `Debug`.
pub open spec fn debug_helper_spec(call: Seq<char>) -> Seq<char> {
    "  String debugString() {\n    return "@ +
    call +
    ";\n  }\n"@
}

fn debug_helper(call: &str) -> (s: String)
    ensures
        s@ == debug_helper_spec(call@),
{
    let mut s = String::from_str("  String debugString() {\n    return ");
    s.append(call);
    s.append(";\n  }\n");
    s
}

/// `==` through the exported `Eq`.
pub open spec fn eq_helper_spec(cls: Seq<char>, call: Seq<char>) -> Seq<char> {
    "  @override\n  bool operator ==(Object other) {\n    if (identical(this, other)) {\n      return true;\n    }\n    if (other is! "@ +
    cls +
    ") {\n      return false;\n    }\n    return "@ +
    call +
    ";\n  }\n"@
}

fn eq_helper(cls: &str, call: &str) -> (s: String)
    ensures
        s@ == eq_helper_spec(cls@, call@),
{
    let mut s = String::from_str("  @override\n  bool operator ==(Object other) {\n    if (identical(this, other)) {\n      return true;\n    }\n    if (other is! ");
    s.append(cls);
    s.append(") {\n      return false;\n    }\n    return ");
    s.append(call);
    s.append(";\n  }\n");
    s
}

/// `hashCode` through the exported `Hash`.
pub open spec fn hash_helper_spec(call: Seq<char>) -> Seq<char> {
    "  @override\n  int get hashCode {\n    return "@ +
    call +
    ";\n  }\n"@
}

fn hash_helper(call: &str) -> (s: String)
    ensures
        s@ == hash_helper_spec(call@),
{
    let mut s = String::from_str("  @override\n  int get hashCode {\n    return ");
    s.append(call);
    s.append(";\n  }\n");
    s
}

/// A Rust trait handed across as an object: its abstract class and the class of Rust implementations.
pub open spec fn trait_object_spec(cls: Seq<char>, imp: Seq<char>, fin: Seq<char>, free: Seq<char>, clone: Seq<char>, abstract_methods: Seq<char>, methods: Seq<char>) -> Seq<char> {
    "abstract class "@ +
    cls +
    " {\n  factory "@ +
    cls +
    ".lift(Pointer<Void> ptr) => "@ +
    imp +
    "._internal(ptr);\n  static Pointer<Void> lower("@ +
    cls +
    " value) {\n    if (value is "@ +
    imp +
    ") {\n      return value.uniffiClonePointer();\n    }\n    throw UnsupportedError(\"Only Rust-implemented "@ +
    cls +
    " values are supported.\");\n  }\n  static int allocationSize("@ +
    cls +
    " value) {\n    if (value is "@ +
    imp +
    ") {\n      return "@ +
    imp +
    ".allocationSize(value);\n    }\n    throw UnsupportedError(\"Only Rust-implemented "@ +
    cls +
    " values are supported.\");\n  }\n  static LiftRetVal<"@ +
    cls +
    "> read(Uint8List buf) {\n    final handle = buf.buffer.asByteData(buf.offsetInBytes).getInt64(0);\n    final pointer = Pointer<Void>.fromAddress(handle);\n    return LiftRetVal("@ +
    cls +
    ".lift(pointer), 8);\n  }\n  static int write("@ +
    cls +
    " value, Uint8List buf) {\n    final handle = lower(value);\n    buf.buffer.asByteData(buf.offsetInBytes).setInt64(0, handle.address);\n    return 8;\n  }\n  void dispose();\n"@ +
    abstract_methods +
    "}\n\nfinal class "@ +
    imp +
    " implements "@ +
    cls +
    " {\n  "@ +
    imp +
    "._internal(this._ptr) {\n    "@ +
    fin +
    ".attach(this, _ptr, detach: this);\n  }\n  static final Finalizer<Pointer<Void>> "@ +
    fin +
    " =\n      Finalizer<Pointer<Void>>((ptr) {\n    rustCall((status) => _UniffiLib.instance."@ +
    free +
    "(ptr, status));\n  });\n  Pointer<Void> _ptr;\n  static int allocationSize("@ +
    imp +
    " _) => 8;\n  Pointer<Void> uniffiClonePointer() {\n    return rustCall((status) => _UniffiLib.instance."@ +
    clone +
    "(_ptr, status));\n  }\n  @override\n  void dispose() {\n    "@ +
    fin +
    ".detach(this);\n    rustCall((status) => _UniffiLib.instance."@ +
    free +
    "(_ptr, status));\n  }\n"@ +
    methods +
    "}\n"@
}

fn trait_object(cls: &str, imp: &str, fin: &str, free: &str, clone: &str, abstract_methods: &str, methods: &str) -> (s: String)
    ensures
        s@ == trait_object_spec(cls@, imp@, fin@, free@, clone@, abstract_methods@, methods@),
{
    let mut s = String::from_str("abstract class ");
    s.append(cls);
    s.append(" {\n  factory ");
    s.append(cls);
    s.append(".lift(Pointer<Void> ptr) => ");
    s.append(imp);
    s.append("._internal(ptr);\n  static Pointer<Void> lower(");
    s.append(cls);
    s.append(" value) {\n    if (value is ");
    s.append(imp);
    s.append(") {\n      return value.uniffiClonePointer();\n    }\n    throw UnsupportedError(\"Only Rust-implemented ");
    s.append(cls);
    s.append(" values are supported.\");\n  }\n  static int allocationSize(");
    s.append(cls);
    s.append(" value) {\n    if (value is ");
    s.append(imp);
    s.append(") {\n      return ");
    s.append(imp);
    s.append(".allocationSize(value);\n    }\n    throw UnsupportedError(\"Only Rust-implemented ");
    s.append(cls);
    s.append(" values are supported.\");\n  }\n  static LiftRetVal<");
    s.append(cls);
    s.append("> read(Uint8List buf) {\n    final handle = buf.buffer.asByteData(buf.offsetInBytes).getInt64(0);\n    final pointer = Pointer<Void>.fromAddress(handle);\n    return LiftRetVal(");
    s.append(cls);
    s.append(".lift(pointer), 8);\n  }\n  static int write(");
    s.append(cls);
    s.append(" value, Uint8List buf) {\n    final handle = lower(value);\n    buf.buffer.asByteData(buf.offsetInBytes).setInt64(0, handle.address);\n    return 8;\n  }\n  void dispose();\n");
    s.append(abstract_methods);
    s.append("}\n\nfinal class ");
    s.append(imp);
    s.append(" implements ");
    s.append(cls);
    s.append(" {\n  ");
    s.append(imp);
    s.append("._internal(this._ptr) {\n    ");
    s.append(fin);
    s.append(".attach(this, _ptr, detach: this);\n  }\n  static final Finalizer<Pointer<Void>> ");
    s.append(fin);
    s.append(" =\n      Finalizer<Pointer<Void>>((ptr) {\n    rustCall((status) => _UniffiLib.instance.");
    s.append(free);
    s.append("(ptr, status));\n  });\n  Pointer<Void> _ptr;\n  static int allocationSize(");
    s.append(imp);
    s.append(" _) => 8;\n  Pointer<Void> uniffiClonePointer() {\n    return rustCall((status) => _UniffiLib.instance.");
    s.append(clone);
    s.append("(_ptr, status));\n  }\n  @override\n  void dispose() {\n    ");
    s.append(fin);
    s.append(".detach(this);\n    rustCall((status) => _UniffiLib.instance.");
    s.append(free);
    s.append("(_ptr, status));\n  }\n");
    s.append(methods);
    s.append("}\n");
    s
}

/// A public constructor of an object class.
pub open spec fn constructor_spec(decl: Seq<char>, params: Seq<char>, ffi: Seq<char>, args: Seq<char>, handler: Seq<char>, fin: Seq<char>) -> Seq<char> {
    "  "@ +
    decl +
    "("@ +
    params +
    ") : _ptr = rustCall((status) =>\n      _UniffiLib.instance."@ +
    ffi +
    "(\n        "@ +
    args +
    "status\n      ),\n      "@ +
    handler +
    "\n    ) {\n    _"@ +
    fin +
    ".attach(this, _ptr, detach: this);\n  }\n"@
}

fn constructor(decl: &str, params: &str, ffi: &str, args: &str, handler: &str, fin: &str) -> (s: String)
    ensures
        s@ == constructor_spec(decl@, params@, ffi@, args@, handler@, fin@),
{
    let mut s = String::from_str("  ");
    s.append(decl);
    s.append("(");
    s.append(params);
    s.append(") : _ptr = rustCall((status) =>\n      _UniffiLib.instance.");
    s.append(ffi);
    s.append("(\n        ");
    s.append(args);
    s.append("status\n      ),\n      ");
    s.append(handler);
    s.append("\n    ) {\n    _");
    s.append(fin);
    s.append(".attach(this, _ptr, detach: this);\n  }\n");
    s
}

/// The error handler of an object thrown as an error.
pub open spec fn object_error_handler_spec(cls: Seq<char>, inst: Seq<char>) -> Seq<char> {
    "class "@ +
    cls +
    "ErrorHandler extends UniffiRustCallStatusErrorHandler {\n  @override\n  Exception lift(RustBuffer errorBuf) {\n    return "@ +
    cls +
    ".read(errorBuf.asUint8List()).value;\n  }\n}\n\nfinal "@ +
    cls +
    "ErrorHandler "@ +
    inst +
    "ErrorHandler = "@ +
    cls +
    "ErrorHandler();\n"@
}

fn object_error_handler(cls: &str, inst: &str) -> (s: String)
    ensures
        s@ == object_error_handler_spec(cls@, inst@),
{
    let mut s = String::from_str("class ");
    s.append(cls);
    s.append("ErrorHandler extends UniffiRustCallStatusErrorHandler {\n  @override\n  Exception lift(RustBuffer errorBuf) {\n    return ");
    s.append(cls);
    s.append(".read(errorBuf.asUint8List()).value;\n  }\n}\n\nfinal ");
    s.append(cls);
    s.append("ErrorHandler ");
    s.append(inst);
    s.append("ErrorHandler = ");
    s.append(cls);
    s.append("ErrorHandler();\n");
    s
}

/// The class of an object, with its interface, finalizer and error handler.
pub open spec fn object_class_spec(iface: Seq<char>, cls: Seq<char>, fin: Seq<char>, free: Seq<char>, clone: Seq<char>, implements: Seq<char>, ctors: Seq<char>, to_string: Seq<char>, helpers: Seq<char>, methods: Seq<char>, handler: Seq<char>) -> Seq<char> {
    iface +
    "\nfinal _"@ +
    fin +
    " = Finalizer<Pointer<Void>>((ptr) {\n  rustCall((status) => _UniffiLib.instance."@ +
    free +
    "(ptr, status));\n});\n\nclass "@ +
    cls +
    implements +
    " {\n  late final Pointer<Void> _ptr;\n  "@ +
    cls +
    "._(this._ptr) {\n    _"@ +
    fin +
    ".attach(this, _ptr, detach: this);\n  }\n"@ +
    ctors +
    "  factory "@ +
    cls +
    ".lift(Pointer<Void> ptr) {\n    return "@ +
    cls +
    "._(ptr);\n  }\n  static Pointer<Void> lower("@ +
    cls +
    " value) {\n    return value.uniffiClonePointer();\n  }\n  Pointer<Void> uniffiClonePointer() {\n    return rustCall((status) => _UniffiLib.instance."@ +
    clone +
    "(_ptr, status));\n  }\n  static int allocationSize("@ +
    cls +
    " value) {\n    return 8;\n  }\n  static LiftRetVal<"@ +
    cls +
    "> read(Uint8List buf) {\n    final handle = buf.buffer.asByteData(buf.offsetInBytes).getInt64(0);\n    final pointer = Pointer<Void>.fromAddress(handle);\n    return LiftRetVal("@ +
    cls +
    ".lift(pointer), 8);\n  }\n  static int write("@ +
    cls +
    " value, Uint8List buf) {\n    final handle = lower(value);\n    buf.buffer.asByteData(buf.offsetInBytes).setInt64(0, handle.address);\n    return 8;\n  }\n  void dispose() {\n    _"@ +
    fin +
    ".detach(this);\n    rustCall((status) => _UniffiLib.instance."@ +
    free +
    "(_ptr, status));\n  }\n"@ +
    to_string +
    helpers +
    methods +
    "}\n\n"@ +
    handler
}

fn object_class(iface: &str, cls: &str, fin: &str, free: &str, clone: &str, implements: &str, ctors: &str, to_string: &str, helpers: &str, methods: &str, handler: &str) -> (s: String)
    ensures
        s@ == object_class_spec(iface@, cls@, fin@, free@, clone@, implements@, ctors@, to_string@, helpers@, methods@, handler@),
{
    let mut s = String::from_str(iface);
    s.append("\nfinal _");
    s.append(fin);
    s.append(" = Finalizer<Pointer<Void>>((ptr) {\n  rustCall((status) => _UniffiLib.instance.");
    s.append(free);
    s.append("(ptr, status));\n});\n\nclass ");
    s.append(cls);
    s.append(implements);
    s.append(" {\n  late final Pointer<Void> _ptr;\n  ");
    s.append(cls);
    s.append("._(this._ptr) {\n    _");
    s.append(fin);
    s.append(".attach(this, _ptr, detach: this);\n  }\n");
    s.append(ctors);
    s.append("  factory ");
    s.append(cls);
    s.append(".lift(Pointer<Void> ptr) {\n    return ");
    s.append(cls);
    s.append("._(ptr);\n  }\n  static Pointer<Void> lower(");
    s.append(cls);
    s.append(" value) {\n    return value.uniffiClonePointer();\n  }\n  Pointer<Void> uniffiClonePointer() {\n    return rustCall((status) => _UniffiLib.instance.");
    s.append(clone);
    s.append("(_ptr, status));\n  }\n  static int allocationSize(");
    s.append(cls);
    s.append(" value) {\n    return 8;\n  }\n  static LiftRetVal<");
    s.append(cls);
    s.append("> read(Uint8List buf) {\n    final handle = buf.buffer.asByteData(buf.offsetInBytes).getInt64(0);\n    final pointer = Pointer<Void>.fromAddress(handle);\n    return LiftRetVal(");
    s.append(cls);
    s.append(".lift(pointer), 8);\n  }\n  static int write(");
    s.append(cls);
    s.append(" value, Uint8List buf) {\n    final handle = lower(value);\n    buf.buffer.asByteData(buf.offsetInBytes).setInt64(0, handle.address);\n    return 8;\n  }\n  void dispose() {\n    _");
    s.append(fin);
    s.append(".detach(this);\n    rustCall((status) => _UniffiLib.instance.");
    s.append(free);
    s.append("(_ptr, status));\n  }\n");
    s.append(to_string);
    s.append(helpers);
    s.append(methods);
    s.append("}\n\n");
    s.append(handler);
    s
}

/// A parameter as an abstract method declares it: type and name.
pub open spec fn arg_param_piece(a: Argument) -> Seq<char> {
    type_label_spec(a.ty) + " "@ + member_name_spec(a.name@)
}

/// The Dart return type of a method: a future of it when asynchronous.
pub open spec fn method_return_spec(m: Callable) -> Seq<char> {
    if m.is_async {
        "Future<"@ + return_label_spec(m.return_type) + ">"@
    } else {
        return_label_spec(m.return_type)
    }
}

/// The declaration of a method in an abstract class.
pub open spec fn interface_method_text(m: Callable) -> Seq<char> {
    interface_method_spec(
        method_return_spec(m),
        member_name_spec(m.name@),
        join_spec(arg_pieces(m.arguments@, |a: Argument| arg_param_piece(a)), ", "@),
    )
}

/// Declares a method in an abstract class.
pub fn generate_interface_method(m: &Callable) -> (r: String)
    ensures
        r@ == interface_method_text(*m),
{
    let base = return_label(&m.return_type);
    let ret = if m.is_async {
        concat3("Future<", base.as_str(), ">")
    } else {
        base
    };
    let mut params: Vec<String> = Vec::new();
    let n = m.arguments.len();
    for i in 0..n
        invariant
            n == m.arguments@.len(),
            params@.len() == i,
            forall|j: int| 0 <= j < i ==> (#[trigger] params@[j])@ == arg_param_piece(m.arguments@[j]),
    {
        let t = type_label(&m.arguments[i].ty);
        let v = var_name(m.arguments[i].name.as_str());
        params.push(concat3(t.as_str(), " ", v.as_str()));
    }
    proof {
        assert(views(params@) =~= arg_pieces(m.arguments@, |a: Argument| arg_param_piece(a)));
    }
    let joined = join_strings(&params, ", ");
    let name = fn_name(m.name.as_str());
    interface_method(ret.as_str(), name.as_str(), joined.as_str())
}

/// The lifter of an asynchronous method: a returned object arrives as an
/// address.
pub open spec fn async_lifter_spec(rt: Option<Type>) -> Seq<char> {
    match rt {
        Some(Type::Object { .. }) => "(ptr) => "@ + lifter_spec(rt) + "(Pointer<Void>.fromAddress(ptr))"@,
        _ => lifter_spec(rt),
    }
}

/// The Dart source of a method, called on the object's own handle.
pub open spec fn method_text(m: Callable) -> Seq<char> {
    let name = member_name_spec(m.name@);
    let args = args_decl_spec(m.arguments@);
    let callee = "_UniffiLib.instance."@ + m.ffi_name@;
    let lowered = "uniffiClonePointer(), "@ + args_lower_spec(m.arguments@);
    let handler = error_handler_name_spec(m.throws);
    if m.is_async {
        async_call_spec(
            return_label_spec(m.return_type),
            name,
            args,
            callee,
            lowered,
            m.future_poll@,
            m.future_complete@,
            m.future_free@,
            async_lifter_spec(m.return_type),
            handler,
        )
    } else if m.return_type is None {
        void_call_spec(name, args, callee, lowered, handler)
    } else {
        method_value_call_spec(return_label_spec(m.return_type), name, args, callee, lowered, lifter_spec(m.return_type), handler)
    }
}

/// Generates the Dart source of a method.
pub fn generate_method(m: &Callable) -> (r: String)
    ensures
        r@ == method_text(*m),
{
    let name = fn_name(m.name.as_str());
    let args = args_decl(&m.arguments);
    let callee = concat2("_UniffiLib.instance.", m.ffi_name.as_str());
    let raw = args_lower(&m.arguments);
    let lowered = concat2("uniffiClonePointer(), ", raw.as_str());
    let handler = error_handler_name(&m.throws);
    if m.is_async {
        let ret = return_label(&m.return_type);
        let base = lifter(&m.return_type);
        let lift = match &m.return_type {
            Some(Type::Object { .. }) => concat3("(ptr) => ", base.as_str(), "(Pointer<Void>.fromAddress(ptr))"),
            _ => base,
        };
        async_call(
            ret.as_str(),
            name.as_str(),
            args.as_str(),
            callee.as_str(),
            lowered.as_str(),
            m.future_poll.as_str(),
            m.future_complete.as_str(),
            m.future_free.as_str(),
            lift.as_str(),
            handler.as_str(),
        )
    } else if m.return_type.is_none() {
        void_call(name.as_str(), args.as_str(), callee.as_str(), lowered.as_str(), handler.as_str())
    } else {
        let ret = return_label(&m.return_type);
        let lift = lifter(&m.return_type);
        method_value_call(
            ret.as_str(),
            name.as_str(),
            args.as_str(),
            callee.as_str(),
            lowered.as_str(),
            lift.as_str(),
            handler.as_str(),
        )
    }
}

/// Registers the type of each argument under its canonical name, in order.
pub open spec fn register_args(m: Map<Seq<char>, Type>, args: Seq<Argument>) -> Map<Seq<char>, Type>
    decreases args.len(),
{
    if args.len() == 0 {
        m
    } else {
        register_args(m, args.drop_last()).insert(canonical_name_spec(args.last().ty), args.last().ty)
    }
}

/// Registers the argument types of a call, then its return type.
pub open spec fn register_call(m: Map<Seq<char>, Type>, c: Callable) -> Map<Seq<char>, Type> {
    let after_args = register_args(m, c.arguments@);
    match c.return_type {
        Some(t) => after_args.insert(canonical_name_spec(t), t),
        None => after_args,
    }
}

proof fn lemma_register_args_step(m: Map<Seq<char>, Type>, args: Seq<Argument>, j: int)
    requires
        0 <= j < args.len(),
    ensures
        register_args(m, args.take(j + 1)) == register_args(m, args.take(j)).insert(
            canonical_name_spec(args[j].ty),
            args[j].ty,
        ),
{
    assert(args.take(j + 1).drop_last() =~= args.take(j));
}

/// Registers the type of each argument.
fn register_arg_types(reg: &mut TypeHelpersRenderer, args: &Vec<Argument>)
    requires
        old(reg).well_formed(),
    ensures
        final(reg).well_formed(),
        final(reg).helpers() == register_args(old(reg).helpers(), args@),
        final(reg).custom_names() == old(reg).custom_names(),
{
    let ghost m0 = reg.helpers();
    let n = args.len();
    assert(args@.take(0) =~= Seq::<Argument>::empty());
    for j in 0..n
        invariant
            n == args@.len(),
            reg.well_formed(),
            reg.helpers() == register_args(m0, args@.take(j as int)),
            reg.custom_names() == old(reg).custom_names(),
    {
        proof {
            lemma_register_args_step(m0, args@, j as int);
        }
        let canon = canonical_name(&args[j].ty);
        reg.include_once_check(canon.as_str(), &args[j].ty);
    }
    assert(args@.take(n as int) =~= args@);
}

/// The argument expressions of a call, each lowered by its argument's
/// converter.
pub open spec fn lowered_exprs_spec(args: Seq<Argument>, exprs: Seq<Seq<char>>) -> Seq<char> {
    concat_all(Seq::new(args.len(), |i: int| ffi_converter_name_spec(args[i].ty) + ".lower("@ + exprs[i] + "), "@))
}

/// A call of an exported trait method on the object's handle, with the
/// given argument expressions.
pub open spec fn trait_call_spec(c: Callable, exprs: Seq<Seq<char>>) -> Seq<char> {
    let lowered = lowered_exprs_spec(c.arguments@, exprs);
    let handler = error_handler_name_spec(c.throws);
    match c.return_type {
        Some(t) => trait_value_call_spec(lifter_spec(c.return_type), c.ffi_name@, lowered, handler),
        None => trait_void_call_spec(c.ffi_name@, lowered, handler),
    }
}

/// Makes the call of an exported trait method and registers the types it
/// passes and returns.
fn trait_method_call(reg: &mut TypeHelpersRenderer, c: &Callable, exprs: &Vec<String>) -> (r: String)
    requires
        old(reg).well_formed(),
        c.arguments@.len() == exprs@.len(),
    ensures
        final(reg).well_formed(),
        r@ == trait_call_spec(*c, views(exprs@)),
        final(reg).helpers() == register_call(old(reg).helpers(), *c),
        final(reg).custom_names() == old(reg).custom_names(),
{
    let ghost es = views(exprs@);
    let ghost p = Seq::new(c.arguments@.len(), |i: int| ffi_converter_name_spec(c.arguments@[i].ty) + ".lower("@ + es[i] + "), "@);
    let mut lowered = String::new();
    let n = c.arguments.len();
    assert(p.take(0) =~= Seq::<Seq<char>>::empty());
    for i in 0..n
        invariant
            n == c.arguments@.len(),
            n == exprs@.len(),
            es == views(exprs@),
            p == Seq::new(c.arguments@.len(), |i: int| ffi_converter_name_spec(c.arguments@[i].ty) + ".lower("@ + es[i] + "), "@),
            lowered@ == concat_all(p.take(i as int)),
    {
        proof {
            lemma_concat_all_step(p, i as int);
        }
        let conv = ffi_converter_name(&c.arguments[i].ty);
        let x = concat3(conv.as_str(), ".lower(", exprs[i].as_str());
        lowered.append(x.as_str());
        lowered.append("), ");
    }
    assert(p.take(n as int) =~= p);
    register_arg_types(reg, &c.arguments);
    let handler = error_handler_name(&c.throws);
    match &c.return_type {
        Some(t) => {
            let canon = canonical_name(t);
            reg.include_once_check(canon.as_str(), t);
            let lift = lifter(&c.return_type);
            trait_value_call(lift.as_str(), c.ffi_name.as_str(), lowered.as_str(), handler.as_str())
        },
        None => trait_void_call(c.ffi_name.as_str(), lowered.as_str(), handler.as_str()),
    }
}

/// Which exported trait a trait implementation is: display, debug,
/// equality, hashing, ordering.
pub open spec fn trait_kind(t: UniffiTrait) -> int {
    match t {
        UniffiTrait::Display { .. } => 0,
        UniffiTrait::Debug { .. } => 1,
        UniffiTrait::Eq { .. } => 2,
        UniffiTrait::Hash { .. } => 3,
        UniffiTrait::Ord { .. } => 4,
    }
}

/// Whether the `i`-th trait implementation is the first of its kind.
pub open spec fn first_of_kind(ts: Seq<UniffiTrait>, i: int) -> bool {
    forall|j: int| 0 <= j < i ==> trait_kind(#[trigger] ts[j]) != trait_kind(ts[i])
}

/// Whether a trait implementation's method takes the arguments its helper
/// passes: none, or the other value for equality.
pub open spec fn trait_arity_ok(t: UniffiTrait) -> bool {
    match t {
        UniffiTrait::Display { fmt } => fmt.arguments@.len() == 0,
        UniffiTrait::Debug { fmt } => fmt.arguments@.len() == 0,
        UniffiTrait::Eq { eq, .. } => eq.arguments@.len() == 1,
        UniffiTrait::Hash { hash } => hash.arguments@.len() == 0,
        UniffiTrait::Ord { .. } => true,
    }
}

/// Whether each trait implementation that generates a helper has the
/// arguments the helper passes.
pub open spec fn traits_callable(ts: Seq<UniffiTrait>) -> bool {
    forall|i: int| 0 <= i < ts.len() && first_of_kind(ts, i) ==> trait_arity_ok(#[trigger] ts[i])
}

/// The Dart member a trait implementation generates in the class `cls`;
/// ordering generates none.
pub open spec fn trait_helper_text(t: UniffiTrait, cls: Seq<char>) -> Seq<char> {
    match t {
        UniffiTrait::Display { fmt } => display_helper_spec(trait_call_spec(fmt, Seq::empty())),
        UniffiTrait::Debug { fmt } => debug_helper_spec(trait_call_spec(fmt, Seq::empty())),
        UniffiTrait::Eq { eq, .. } => eq_helper_spec(cls, trait_call_spec(eq, seq!["other"@])),
        UniffiTrait::Hash { hash } => hash_helper_spec(trait_call_spec(hash, Seq::empty())),
        UniffiTrait::Ord { .. } => Seq::empty(),
    }
}

/// The helpers of the exported traits: one for the first implementation of
/// each kind, in order.
pub open spec fn trait_helpers_text(ts: Seq<UniffiTrait>, cls: Seq<char>) -> Seq<char> {
    concat_all(Seq::new(ts.len(), |i: int| if first_of_kind(ts, i) {
        trait_helper_text(ts[i], cls)
    } else {
        Seq::empty()
    }))
}

/// The call an exported trait's helper makes, if it makes one.
pub open spec fn trait_helper_call(t: UniffiTrait) -> Option<Callable> {
    match t {
        UniffiTrait::Display { fmt } => Some(fmt),
        UniffiTrait::Debug { fmt } => Some(fmt),
        UniffiTrait::Eq { eq, .. } => Some(eq),
        UniffiTrait::Hash { hash } => Some(hash),
        UniffiTrait::Ord { .. } => None,
    }
}

/// The registry after the helpers of the exported traits were made.
pub open spec fn register_trait_helpers(m: Map<Seq<char>, Type>, ts: Seq<UniffiTrait>) -> Map<Seq<char>, Type>
    decreases ts.len(),
{
    if ts.len() == 0 {
        m
    } else {
        let prev = register_trait_helpers(m, ts.drop_last());
        if first_of_kind(ts, ts.len() - 1) {
            match trait_helper_call(ts.last()) {
                Some(c) => register_call(prev, c),
                None => prev,
            }
        } else {
            prev
        }
    }
}

proof fn lemma_trait_helpers_step(m: Map<Seq<char>, Type>, ts: Seq<UniffiTrait>, i: int)
    requires
        0 <= i < ts.len(),
    ensures
        register_trait_helpers(m, ts.take(i + 1)) == (if first_of_kind(ts, i) {
            match trait_helper_call(ts[i]) {
                Some(c) => register_call(register_trait_helpers(m, ts.take(i)), c),
                None => register_trait_helpers(m, ts.take(i)),
            }
        } else {
            register_trait_helpers(m, ts.take(i))
        }),
{
    let t = ts.take(i + 1);
    assert(t.drop_last() =~= ts.take(i));
    assert(first_of_kind(t, i) == first_of_kind(ts, i)) by {
        assert forall|j: int| 0 <= j < i implies t[j] == ts[j] by {}
    }
}

/// Whether a trait implementation of kind `k` occurs among the first `i`.
pub open spec fn kind_seen(ts: Seq<UniffiTrait>, i: int, k: int) -> bool
    decreases i,
{
    if i <= 0 {
        false
    } else {
        kind_seen(ts, i - 1, k) || trait_kind(ts[i - 1]) == k
    }
}

proof fn lemma_first_of_kind(ts: Seq<UniffiTrait>, i: int)
    requires
        0 <= i < ts.len(),
    ensures
        first_of_kind(ts, i) == !kind_seen(ts, i, trait_kind(ts[i])),
{
    lemma_kind_seen_exists(ts, i, trait_kind(ts[i]));
}

proof fn lemma_kind_seen_exists(ts: Seq<UniffiTrait>, i: int, k: int)
    requires
        0 <= i <= ts.len(),
    ensures
        kind_seen(ts, i, k) <==> exists|j: int| 0 <= j < i && trait_kind(#[trigger] ts[j]) == k,
    decreases i,
{
    if i > 0 {
        lemma_kind_seen_exists(ts, i - 1, k);
        if kind_seen(ts, i - 1, k) {
            let j = choose|j: int| 0 <= j < i - 1 && trait_kind(#[trigger] ts[j]) == k;
            assert(0 <= j < i && trait_kind(ts[j]) == k);
        }
        if trait_kind(ts[i - 1]) == k {
            assert(trait_kind(ts[i - 1]) == k);
        }
    }
}

fn trait_kind_index(t: &UniffiTrait) -> (k: u8)
    ensures
        k as int == trait_kind(*t),
{
    match t {
        UniffiTrait::Display { .. } => 0,
        UniffiTrait::Debug { .. } => 1,
        UniffiTrait::Eq { .. } => 2,
        UniffiTrait::Hash { .. } => 3,
        UniffiTrait::Ord { .. } => 4,
    }
}

/// Whether a trait implementation's method takes the arguments its helper
/// passes.
fn trait_arity_check(t: &UniffiTrait) -> (b: bool)
    ensures
        b == trait_arity_ok(*t),
{
    match t {
        UniffiTrait::Display { fmt } => fmt.arguments.len() == 0,
        UniffiTrait::Debug { fmt } => fmt.arguments.len() == 0,
        UniffiTrait::Eq { eq, .. } => eq.arguments.len() == 1,
        UniffiTrait::Hash { hash } => hash.arguments.len() == 0,
        UniffiTrait::Ord { .. } => true,
    }
}

/// Whether each trait implementation that generates a helper has the
/// arguments that helper passes.
pub fn traits_callable_check(ts: &Vec<UniffiTrait>) -> (b: bool)
    ensures
        b == traits_callable(ts@),
{
    let n = ts.len();
    for i in 0..n
        invariant
            n == ts@.len(),
            forall|k: int| 0 <= k < i && first_of_kind(ts@, k) ==> trait_arity_ok(#[trigger] ts@[k]),
    {
        let ki = trait_kind_index(&ts[i]);
        let mut first = true;
        for j in 0..i
            invariant
                i < n,
                n == ts@.len(),
                ki as int == trait_kind(ts@[i as int]),
                first == (forall|l: int| 0 <= l < j ==> trait_kind(#[trigger] ts@[l]) != trait_kind(ts@[i as int])),
        {
            let kj = trait_kind_index(&ts[j]);
            if kj == ki {
                first = false;
            }
            assert(first == (forall|l: int| 0 <= l < j + 1 ==> trait_kind(#[trigger] ts@[l]) != trait_kind(ts@[i as int]))) by {
                if kj == ki {
                    assert(trait_kind(ts@[j as int]) == trait_kind(ts@[i as int]));
                }
            }
        }
        if first && !trait_arity_check(&ts[i]) {
            assert(first_of_kind(ts@, i as int));
            return false;
        }
    }
    true
}

/// The helper of one trait implementation, when it is to be emitted.
fn trait_helper(reg: &mut TypeHelpersRenderer, t: &UniffiTrait, cls: &str, emit: bool) -> (r: String)
    requires
        old(reg).well_formed(),
        emit ==> trait_arity_ok(*t),
    ensures
        final(reg).well_formed(),
        r@ == (if emit {
            trait_helper_text(*t, cls@)
        } else {
            Seq::empty()
        }),
        final(reg).helpers() == (if emit {
            match trait_helper_call(*t) {
                Some(c) => register_call(old(reg).helpers(), c),
                None => old(reg).helpers(),
            }
        } else {
            old(reg).helpers()
        }),
        final(reg).custom_names() == old(reg).custom_names(),
{
    if !emit {
        return String::new();
    }
    match t {
        UniffiTrait::Display { fmt } => {
            let exprs: Vec<String> = Vec::new();
            assert(views(exprs@) =~= Seq::<Seq<char>>::empty());
            let call = trait_method_call(reg, fmt, &exprs);
            display_helper(call.as_str())
        },
        UniffiTrait::Debug { fmt } => {
            let exprs: Vec<String> = Vec::new();
            assert(views(exprs@) =~= Seq::<Seq<char>>::empty());
            let call = trait_method_call(reg, fmt, &exprs);
            debug_helper(call.as_str())
        },
        UniffiTrait::Eq { eq, .. } => {
            let mut exprs: Vec<String> = Vec::new();
            exprs.push(String::from_str("other"));
            assert(views(exprs@) =~= seq!["other"@]);
            let call = trait_method_call(reg, eq, &exprs);
            eq_helper(cls, call.as_str())
        },
        UniffiTrait::Hash { hash } => {
            let exprs: Vec<String> = Vec::new();
            assert(views(exprs@) =~= Seq::<Seq<char>>::empty());
            let call = trait_method_call(reg, hash, &exprs);
            hash_helper(call.as_str())
        },
        UniffiTrait::Ord { .. } => String::new(),
    }
}

/// Generates the helpers of the exported traits of an object: for the first
/// implementation of each kind, `toString`, `debugString`, `==` or
/// `hashCode`; ordering is not supported and generates nothing.
pub fn generate_trait_helpers(obj: &Object, reg: &mut TypeHelpersRenderer) -> (r: String)
    requires
        old(reg).well_formed(),
        traits_callable(obj.uniffi_traits@),
    ensures
        final(reg).well_formed(),
        r@ == trait_helpers_text(obj.uniffi_traits@, class_name_spec(obj.name@)),
        final(reg).helpers() == register_trait_helpers(old(reg).helpers(), obj.uniffi_traits@),
        final(reg).custom_names() == old(reg).custom_names(),
{
    let cls = class_name(obj.name.as_str());
    let ghost ts = obj.uniffi_traits@;
    let ghost m0 = reg.helpers();
    let ghost p = Seq::new(ts.len(), |i: int| if first_of_kind(ts, i) {
        trait_helper_text(ts[i], cls@)
    } else {
        Seq::empty()
    });
    let mut out = String::new();
    let mut seen_display = false;
    let mut seen_debug = false;
    let mut seen_eq = false;
    let mut seen_hash = false;
    let mut seen_ord = false;
    let n = obj.uniffi_traits.len();
    assert(p.take(0) =~= Seq::<Seq<char>>::empty());
    assert(ts.take(0) =~= Seq::<UniffiTrait>::empty());
    for i in 0..n
        invariant
            n == ts.len(),
            ts == obj.uniffi_traits@,
            traits_callable(ts),
            p == Seq::new(ts.len(), |i: int| if first_of_kind(ts, i) {
                trait_helper_text(ts[i], cls@)
            } else {
                Seq::empty()
            }),
            out@ == concat_all(p.take(i as int)),
            reg.well_formed(),
            reg.helpers() == register_trait_helpers(m0, ts.take(i as int)),
            reg.custom_names() == old(reg).custom_names(),
            seen_display == kind_seen(ts, i as int, 0),
            seen_debug == kind_seen(ts, i as int, 1),
            seen_eq == kind_seen(ts, i as int, 2),
            seen_hash == kind_seen(ts, i as int, 3),
            seen_ord == kind_seen(ts, i as int, 4),
    {
        proof {
            lemma_concat_all_step(p, i as int);
            lemma_trait_helpers_step(m0, ts, i as int);
        }
        let k = trait_kind_index(&obj.uniffi_traits[i]);
        let seen = if k == 0 {
            seen_display
        } else if k == 1 {
            seen_debug
        } else if k == 2 {
            seen_eq
        } else if k == 3 {
            seen_hash
        } else {
            seen_ord
        };
        proof {
            lemma_first_of_kind(ts, i as int);
        }
        let x = trait_helper(reg, &obj.uniffi_traits[i], cls.as_str(), !seen);
        out.append(x.as_str());
        if k == 0 {
            seen_display = true;
        } else if k == 1 {
            seen_debug = true;
        } else if k == 2 {
            seen_eq = true;
        } else if k == 3 {
            seen_hash = true;
        } else {
            seen_ord = true;
        }
    }
    assert(p.take(n as int) =~= p);
    assert(ts.take(n as int) =~= ts);
    out
}

/// The declarations of the methods in an abstract class.
pub open spec fn interface_methods_text(ms: Seq<Callable>) -> Seq<char> {
    concat_all(Seq::new(ms.len(), |i: int| interface_method_text(ms[i])))
}

/// The Dart source of the methods.
pub open spec fn methods_text(ms: Seq<Callable>) -> Seq<char> {
    concat_all(Seq::new(ms.len(), |i: int| method_text(ms[i])))
}

fn interface_methods(ms: &Vec<Callable>) -> (r: String)
    ensures
        r@ == interface_methods_text(ms@),
{
    let ghost p = Seq::new(ms@.len(), |i: int| interface_method_text(ms@[i]));
    let mut r = String::new();
    let n = ms.len();
    assert(p.take(0) =~= Seq::<Seq<char>>::empty());
    for i in 0..n
        invariant
            n == ms@.len(),
            p == Seq::new(ms@.len(), |i: int| interface_method_text(ms@[i])),
            r@ == concat_all(p.take(i as int)),
    {
        proof {
            lemma_concat_all_step(p, i as int);
        }
        let x = generate_interface_method(&ms[i]);
        r.append(x.as_str());
    }
    assert(p.take(n as int) =~= p);
    r
}

fn methods(ms: &Vec<Callable>) -> (r: String)
    ensures
        r@ == methods_text(ms@),
{
    let ghost p = Seq::new(ms@.len(), |i: int| method_text(ms@[i]));
    let mut r = String::new();
    let n = ms.len();
    assert(p.take(0) =~= Seq::<Seq<char>>::empty());
    for i in 0..n
        invariant
            n == ms@.len(),
            p == Seq::new(ms@.len(), |i: int| method_text(ms@[i])),
            r@ == concat_all(p.take(i as int)),
    {
        proof {
            lemma_concat_all_step(p, i as int);
        }
        let x = generate_method(&ms[i]);
        r.append(x.as_str());
    }
    assert(p.take(n as int) =~= p);
    r
}

/// The interface type of an object.
pub open spec fn object_type(obj: Object) -> Type {
    Type::Object { name: obj.name, imp: obj.imp }
}

pub(crate) fn object_type_exec(obj: &Object) -> (t: Type)
    ensures
        t == object_type(*obj),
{
    Type::Object { name: obj.name.clone(), imp: obj.imp }
}

/// The Dart source of a Rust trait handed across as an object.
#[verifier::opaque]
pub open spec fn trait_object_text(obj: Object) -> Seq<char> {
    let cls = class_name_spec(obj.name@);
    trait_object_spec(
        cls,
        "_"@ + cls + "Impl"@,
        "_"@ + cls + "ImplFinalizer"@,
        obj.ffi_free@,
        obj.ffi_clone@,
        interface_methods_text(obj.methods@),
        methods_text(obj.methods@),
    )
}

/// Generates the Dart source of a Rust trait handed across as an object,
/// and registers the object's type.
pub fn generate_trait_object(obj: &Object, reg: &mut TypeHelpersRenderer) -> (r: String)
    requires
        old(reg).well_formed(),
    ensures
        final(reg).well_formed(),
        r@ == trait_object_text(*obj),
        final(reg).helpers() == old(reg).helpers().insert(obj.name@, object_type(*obj)),
        final(reg).custom_names() == old(reg).custom_names(),
{
    proof {
        reveal(trait_object_text);
    }
    let t = object_type_exec(obj);
    reg.include_once_check(obj.name.as_str(), &t);
    let cls = class_name(obj.name.as_str());
    let imp = concat3("_", cls.as_str(), "Impl");
    let fin = concat3("_", cls.as_str(), "ImplFinalizer");
    let abstract_methods = interface_methods(&obj.methods);
    let concrete = methods(&obj.methods);
    trait_object(
        cls.as_str(),
        imp.as_str(),
        fin.as_str(),
        obj.ffi_free.as_str(),
        obj.ffi_clone.as_str(),
        abstract_methods.as_str(),
        concrete.as_str(),
    )
}

/// The name of the abstract class that declares an object's methods.
pub open spec fn object_interface_name_spec(obj: Object) -> Seq<char> {
    class_name_spec(obj.name@) + "Interface"@
}

/// The abstract class that declares an object's methods.
pub open spec fn object_interface_text(name: Seq<char>, ms: Seq<Callable>) -> Seq<char> {
    if ms.len() == 0 {
        "abstract class "@ + name + " {}\n"@
    } else {
        "abstract class "@ + name + " {\n"@ + interface_methods_text(ms) + "}\n"@
    }
}

/// How a constructor is declared: the unnamed constructor for `new`, a named
/// one otherwise.
pub open spec fn ctor_decl_spec(cls: Seq<char>, c: Callable) -> Seq<char> {
    if c.name@ == "new"@ {
        cls
    } else {
        cls + "."@ + member_name_spec(c.name@)
    }
}

/// A public constructor of the object class `cls`.
pub open spec fn ctor_text(cls: Seq<char>, c: Callable) -> Seq<char> {
    constructor_spec(
        ctor_decl_spec(cls, c),
        args_decl_spec(c.arguments@),
        c.ffi_name@,
        args_lower_spec(c.arguments@),
        error_handler_name_spec(c.throws),
        cls + "Finalizer"@,
    )
}

/// The public constructors of the object class `cls`.
pub open spec fn ctors_text(cls: Seq<char>, cs: Seq<Callable>) -> Seq<char> {
    concat_all(Seq::new(cs.len(), |i: int| ctor_text(cls, cs[i])))
}

/// Registers the argument types of each constructor, in order.
pub open spec fn register_ctors(m: Map<Seq<char>, Type>, cs: Seq<Callable>) -> Map<Seq<char>, Type>
    decreases cs.len(),
{
    if cs.len() == 0 {
        m
    } else {
        register_args(register_ctors(m, cs.drop_last()), cs.last().arguments@)
    }
}

/// `x` added at the end unless the list holds it already.
pub open spec fn add_unique(l: Seq<Seq<char>>, x: Seq<char>) -> Seq<Seq<char>> {
    if l.contains(x) {
        l
    } else {
        l.push(x)
    }
}

/// The types an object class implements: its interface, `Exception` when it
/// is thrown as an error, and the interface traits it implements, each once.
pub open spec fn implements_list(iface: Seq<char>, is_error: bool, traits: Seq<String>) -> Seq<Seq<char>>
    decreases traits.len(),
{
    if traits.len() == 0 {
        if is_error && iface != "Exception"@ {
            seq![iface, "Exception"@]
        } else {
            seq![iface]
        }
    } else {
        add_unique(implements_list(iface, is_error, traits.drop_last()), class_name_spec(traits.last()@))
    }
}

/// Whether the object exports `Display`.
pub open spec fn has_display_trait(ts: Seq<UniffiTrait>) -> bool {
    exists|i: int| 0 <= i < ts.len() && (#[trigger] ts[i]) is Display
}

/// The type of the items a stream object yields: what the first method
/// called `next` returns when that is optional, else `dynamic`.
pub open spec fn stream_item_label(ms: Seq<Callable>) -> Seq<char>
    decreases ms.len(),
{
    if ms.len() == 0 {
        "dynamic"@
    } else if ms[0].name@ == "next"@ {
        match ms[0].return_type {
            Some(Type::Optional { inner_type }) => type_label_spec(*inner_type),
            _ => "dynamic"@,
        }
    } else {
        stream_item_label(ms.drop_first())
    }
}

/// The extension of a stream object's class `cls` that turns it into a Dart
/// stream: it awaits `next` until that gives `null`, yielding each item.
pub open spec fn stream_glue_spec(cls: Seq<char>, item: Seq<char>, next: Seq<char>) -> Seq<char> {
    "\nextension "@ + cls + "Stream on "@ + cls + " {\n  Stream<"@ + item
        + "> stream() async* {\n    while (true) {\n      final value = await "@ + next
        + "();\n      if (value == null) {\n        break;\n      }\n      yield value;\n    }\n  }\n}\n"@
}

/// The stream code of an object: its stream extension when its name
/// contains `StreamExt`, nothing otherwise.
pub open spec fn object_stream_text(obj: Object) -> Seq<char> {
    if contains_spec(obj.name@, "StreamExt"@) {
        stream_glue_spec(class_name_spec(obj.name@), stream_item_label(obj.methods@), member_name_spec("next"@))
    } else {
        Seq::empty()
    }
}

fn stream_glue(cls: &str, item: &str, next: &str) -> (s: String)
    ensures
        s@ == stream_glue_spec(cls@, item@, next@),
{
    let mut s = String::from_str("\nextension ");
    s.append(cls);
    s.append("Stream on ");
    s.append(cls);
    s.append(" {\n  Stream<");
    s.append(item);
    s.append("> stream() async* {\n    while (true) {\n      final value = await ");
    s.append(next);
    s.append("();\n      if (value == null) {\n        break;\n      }\n      yield value;\n    }\n  }\n}\n");
    s
}

fn stream_item(ms: &Vec<Callable>) -> (r: String)
    ensures
        r@ == stream_item_label(ms@),
{
    let mut i: usize = 0;
    assert(ms@.skip(0) =~= ms@);
    while i < ms.len()
        invariant
            i <= ms@.len(),
            stream_item_label(ms@) == stream_item_label(ms@.skip(i as int)),
        decreases ms@.len() - i,
    {
        let ghost rest = ms@.skip(i as int);
        assert(rest[0] == ms@[i as int]);
        assert(rest.drop_first() =~= ms@.skip(i + 1));
        if ms[i].name == String::from_str("next") {
            return match &ms[i].return_type {
                Some(Type::Optional { inner_type }) => type_label(inner_type),
                _ => String::from_str("dynamic"),
            };
        }
        i = i + 1;
    }
    assert(ms@.skip(i as int).len() == 0);
    String::from_str("dynamic")
}

/// The stream code of an object.
pub fn generate_stream(obj: &Object) -> (r: String)
    ensures
        r@ == object_stream_text(*obj),
{
    if contains(obj.name.as_str(), "StreamExt") {
        let cls = class_name(obj.name.as_str());
        let item = stream_item(&obj.methods);
        let next = fn_name("next");
        stream_glue(cls.as_str(), item.as_str(), next.as_str())
    } else {
        String::new()
    }
}

/// The Dart source of an object implemented by a Rust struct: its class,
/// followed by its stream code.
#[verifier::opaque]
pub open spec fn object_text(ci: ComponentInterface, obj: Object) -> Seq<char> {
    let cls = class_name_spec(obj.name@);
    let iface = object_interface_name_spec(obj);
    let is_error = used_as_error(ci, obj.name@);
    object_class_spec(
        object_interface_text(iface, obj.methods@),
        cls,
        cls + "Finalizer"@,
        obj.ffi_free@,
        obj.ffi_clone@,
        " implements "@ + join_spec(implements_list(iface, is_error, obj.trait_impls@), ", "@),
        ctors_text(cls, obj.constructors@),
        if is_error && !has_display_trait(obj.uniffi_traits@) {
            to_string_method_spec("\""@ + cls + "\""@)
        } else {
            Seq::empty()
        },
        trait_helpers_text(obj.uniffi_traits@, cls),
        methods_text(obj.methods@),
        if is_error {
            object_error_handler_spec(cls, lower_camel_case(cls))
        } else {
            Seq::empty()
        },
    ) + object_stream_text(obj)
}

/// The registry after generating an object class: the object's type, the
/// types the trait helpers pass and return, then the constructors'
/// argument types.
pub open spec fn object_registry(obj: Object, m: Map<Seq<char>, Type>) -> Map<Seq<char>, Type> {
    register_ctors(register_trait_helpers(m.insert(obj.name@, object_type(obj)), obj.uniffi_traits@), obj.constructors@)
}

pub(crate) fn list_contains(l: &Vec<String>, x: &String) -> (b: bool)
    ensures
        b == views(l@).contains(x@),
{
    let mut i: usize = 0;
    while i < l.len()
        invariant
            i <= l@.len(),
            forall|j: int| 0 <= j < i ==> l@[j]@ != x@,
        decreases l@.len() - i,
    {
        if l[i] == *x {
            assert(views(l@)[i as int] == x@);
            return true;
        }
        i = i + 1;
    }
    false
}

proof fn lemma_implements_step(iface: Seq<char>, is_error: bool, traits: Seq<String>, i: int)
    requires
        0 <= i < traits.len(),
    ensures
        implements_list(iface, is_error, traits.take(i + 1)) == add_unique(
            implements_list(iface, is_error, traits.take(i)),
            class_name_spec(traits[i]@),
        ),
{
    assert(traits.take(i + 1).drop_last() =~= traits.take(i));
}

/// The types an object class implements, each once.
fn implements_names(iface: &str, is_error: bool, traits: &Vec<String>) -> (r: Vec<String>)
    ensures
        views(r@) == implements_list(iface@, is_error, traits@),
{
    proof {
        reveal_strlit("Exception");
    }
    let mut r: Vec<String> = Vec::new();
    r.push(String::from_str(iface));
    let exc = String::from_str("Exception");
    if is_error && !(String::from_str(iface) == exc) {
        r.push(exc);
    }
    let n = traits.len();
    assert(traits@.take(0) =~= Seq::<String>::empty());
    assert(views(r@) =~= implements_list(iface@, is_error, traits@.take(0)));
    for i in 0..n
        invariant
            n == traits@.len(),
            views(r@) == implements_list(iface@, is_error, traits@.take(i as int)),
    {
        proof {
            lemma_implements_step(iface@, is_error, traits@, i as int);
        }
        let t = class_name(traits[i].as_str());
        if !list_contains(&r, &t) {
            let ghost before = views(r@);
            r.push(t);
            assert(views(r@) =~= before.push(class_name_spec(traits@[i as int]@)));
        }
    }
    assert(traits@.take(n as int) =~= traits@);
    r
}

proof fn lemma_register_ctors_step(m: Map<Seq<char>, Type>, cs: Seq<Callable>, i: int)
    requires
        0 <= i < cs.len(),
    ensures
        register_ctors(m, cs.take(i + 1)) == register_args(register_ctors(m, cs.take(i)), cs[i].arguments@),
{
    assert(cs.take(i + 1).drop_last() =~= cs.take(i));
}

/// The public constructors of an object class; registers their argument
/// types.
fn constructors(cls: &str, cs: &Vec<Callable>, reg: &mut TypeHelpersRenderer) -> (r: String)
    requires
        old(reg).well_formed(),
    ensures
        final(reg).well_formed(),
        r@ == ctors_text(cls@, cs@),
        final(reg).helpers() == register_ctors(old(reg).helpers(), cs@),
        final(reg).custom_names() == old(reg).custom_names(),
{
    proof {
        reveal_strlit("new");
    }
    let ghost m0 = reg.helpers();
    let ghost p = Seq::new(cs@.len(), |i: int| ctor_text(cls@, cs@[i]));
    let fin = concat2(cls, "Finalizer");
    let mut r = String::new();
    let n = cs.len();
    assert(p.take(0) =~= Seq::<Seq<char>>::empty());
    assert(cs@.take(0) =~= Seq::<Callable>::empty());
    for i in 0..n
        invariant
            n == cs@.len(),
            fin@ == cls@ + "Finalizer"@,
            p == Seq::new(cs@.len(), |i: int| ctor_text(cls@, cs@[i])),
            r@ == concat_all(p.take(i as int)),
            reg.well_formed(),
            reg.helpers() == register_ctors(m0, cs@.take(i as int)),
            reg.custom_names() == old(reg).custom_names(),
    {
        proof {
            lemma_concat_all_step(p, i as int);
            lemma_register_ctors_step(m0, cs@, i as int);
        }
        let c = &cs[i];
        let decl = if c.name == String::from_str("new") {
            String::from_str(cls)
        } else {
            let f = fn_name(c.name.as_str());
            concat3(cls, ".", f.as_str())
        };
        let params = args_decl(&c.arguments);
        let lowered = args_lower(&c.arguments);
        let handler = error_handler_name(&c.throws);
        let x = constructor(
            decl.as_str(),
            params.as_str(),
            c.ffi_name.as_str(),
            lowered.as_str(),
            handler.as_str(),
            fin.as_str(),
        );
        r.append(x.as_str());
        register_arg_types(reg, &c.arguments);
    }
    assert(p.take(n as int) =~= p);
    assert(cs@.take(n as int) =~= cs@);
    r
}

fn has_display(ts: &Vec<UniffiTrait>) -> (b: bool)
    ensures
        b == has_display_trait(ts@),
{
    let mut i: usize = 0;
    while i < ts.len()
        invariant
            i <= ts@.len(),
            forall|j: int| 0 <= j < i ==> !(ts@[j] is Display),
        decreases ts@.len() - i,
    {
        if let UniffiTrait::Display { .. } = &ts[i] {
            return true;
        }
        i = i + 1;
    }
    false
}

/// Generates the Dart source of an object implemented by a Rust struct: its
/// interface, finalizer, class, its error handler when it is thrown as an
/// error, and its stream extension when it is a stream object; registers the
/// types it uses.
pub fn generate_object_class(ci: &ComponentInterface, obj: &Object, reg: &mut TypeHelpersRenderer) -> (r: String)
    requires
        old(reg).well_formed(),
        traits_callable(obj.uniffi_traits@),
    ensures
        final(reg).well_formed(),
        r@ == object_text(*ci, *obj),
        final(reg).helpers() == object_registry(*obj, old(reg).helpers()),
        final(reg).custom_names() == old(reg).custom_names(),
{
    proof {
        reveal(object_text);
    }
    let t = object_type_exec(obj);
    reg.include_once_check(obj.name.as_str(), &t);
    let cls = class_name(obj.name.as_str());
    let iface = concat2(cls.as_str(), "Interface");
    let ms = interface_methods(&obj.methods);
    let iface_def = if obj.methods.len() == 0 {
        concat3("abstract class ", iface.as_str(), " {}\n")
    } else {
        let head = concat3("abstract class ", iface.as_str(), " {\n");
        concat3(head.as_str(), ms.as_str(), "}\n")
    };
    let fin = concat2(cls.as_str(), "Finalizer");
    let is_error = ci.is_name_used_as_error(obj.name.as_str());
    let list = implements_names(iface.as_str(), is_error, &obj.trait_impls);
    let joined = join_strings(&list, ", ");
    let implements = concat2(" implements ", joined.as_str());
    let to_string = if is_error && !has_display(&obj.uniffi_traits) {
        let q = concat3("\"", cls.as_str(), "\"");
        to_string_method(q.as_str())
    } else {
        String::new()
    };
    let helpers = generate_trait_helpers(obj, reg);
    let ctors = constructors(cls.as_str(), &obj.constructors, reg);
    let body = methods(&obj.methods);
    let handler = if is_error {
        let inst = to_lower_camel(cls.as_str());
        object_error_handler(cls.as_str(), inst.as_str())
    } else {
        String::new()
    };
    let class_text = object_class(
        iface_def.as_str(),
        cls.as_str(),
        fin.as_str(),
        obj.ffi_free.as_str(),
        obj.ffi_clone.as_str(),
        implements.as_str(),
        ctors.as_str(),
        to_string.as_str(),
        helpers.as_str(),
        body.as_str(),
        handler.as_str(),
    );
    let glue = generate_stream(obj);
    concat2(class_text.as_str(), glue.as_str())
}

/// An object class implements each type once: the list after `implements`
/// holds no name twice, whatever traits the object implements.
pub proof fn implements_listed_once(iface: Seq<char>, is_error: bool, traits: Seq<String>)
    ensures
        implements_list(iface, is_error, traits).no_duplicates(),
        implements_list(iface, is_error, traits)[0] == iface,
    decreases traits.len(),
{
    if traits.len() > 0 {
        implements_listed_once(iface, is_error, traits.drop_last());
        let l = implements_list(iface, is_error, traits.drop_last());
        let x = class_name_spec(traits.last()@);
        if !l.contains(x) {
            assert forall|i: int, j: int| 0 <= i < l.push(x).len() && 0 <= j < l.push(x).len() && i != j implies l.push(x)[i]
                != l.push(x)[j] by {
                if i == l.len() {
                    assert(l[j] == l.push(x)[j]);
                } else if j == l.len() {
                    assert(l[i] == l.push(x)[i]);
                }
            }
        }
    }
}

/// An object class gets at most one helper of each kind: two exported trait
/// implementations that both generate a helper are of different kinds.
pub proof fn one_helper_per_kind(ts: Seq<UniffiTrait>, i: int, j: int)
    requires
        0 <= i < j < ts.len(),
        first_of_kind(ts, i),
        first_of_kind(ts, j),
    ensures
        trait_kind(ts[i]) != trait_kind(ts[j]),
{
    assert(trait_kind(ts[i]) != trait_kind(ts[j]));
}


proof fn lemma_object_clone_call(ci: ComponentInterface, obj: Object)
    ensures
        contains_spec(
            object_text(ci, obj),
            "Pointer<Void> uniffiClonePointer() {\n    return rustCall((status) => _UniffiLib.instance."@
                + obj.ffi_clone@ + "(_ptr, status));"@,
        ),
{
    reveal(object_text);
    broadcast use lemma_contains_extend;
    let cls = class_name_spec(obj.name@);
    let fin = cls + "Finalizer"@;
    let clone = obj.ffi_clone@;
    let free = obj.ffi_free@;
    reveal_strlit(" value) {\n    return value.uniffiClonePointer();\n  }\n  Pointer<Void> uniffiClonePointer() {\n    return rustCall((status) => _UniffiLib.instance.");
    reveal_strlit(" value) {\n    return value.uniffiClonePointer();\n  }\n  ");
    reveal_strlit("Pointer<Void> uniffiClonePointer() {\n    return rustCall((status) => _UniffiLib.instance.");
    reveal_strlit("(_ptr, status));\n  }\n  static int allocationSize(");
    reveal_strlit("(_ptr, status));");
    reveal_strlit("\n  }\n  static int allocationSize(");
    let pc = "Pointer<Void> uniffiClonePointer() {\n    return rustCall((status) => _UniffiLib.instance."@ + clone
        + "(_ptr, status));"@;
    assert forall|a: Seq<char>|
        #[trigger] contains_spec(
            a
                + " value) {\n    return value.uniffiClonePointer();\n  }\n  Pointer<Void> uniffiClonePointer() {\n    return rustCall((status) => _UniffiLib.instance."@
                + clone + "(_ptr, status));\n  }\n  static int allocationSize("@,
            pc,
        ) by {
        let a2 = a + " value) {\n    return value.uniffiClonePointer();\n  }\n  "@;
        assert(a
            + " value) {\n    return value.uniffiClonePointer();\n  }\n  Pointer<Void> uniffiClonePointer() {\n    return rustCall((status) => _UniffiLib.instance."@
            + clone + "(_ptr, status));\n  }\n  static int allocationSize("@ =~= a2 + pc
            + "\n  }\n  static int allocationSize("@);
        lemma_contains_mid(a2, pc, "\n  }\n  static int allocationSize("@);
    }
    assert(contains_spec(object_text(ci, obj), pc));
}

proof fn lemma_object_dispose_call(ci: ComponentInterface, obj: Object)
    ensures
        contains_spec(
            object_text(ci, obj),
            "void dispose() {\n    _"@ + class_name_spec(obj.name@)
                + "Finalizer.detach(this);\n    rustCall((status) => _UniffiLib.instance."@ + obj.ffi_free@
                + "(_ptr, status));"@,
        ),
{
    reveal(object_text);
    broadcast use lemma_contains_extend;
    let cls = class_name_spec(obj.name@);
    let fin = cls + "Finalizer"@;
    let clone = obj.ffi_clone@;
    let free = obj.ffi_free@;
    let lb = " value, Uint8List buf) {\n    final handle = lower(value);\n    buf.buffer.asByteData(buf.offsetInBytes).setInt64(0, handle.address);\n    return 8;\n  }\n  void dispose() {\n    _"@;
    let lu = " value, Uint8List buf) {\n    final handle = lower(value);\n    buf.buffer.asByteData(buf.offsetInBytes).setInt64(0, handle.address);\n    return 8;\n  }\n  "@;
    let mid = ".detach(this);\n    rustCall((status) => _UniffiLib.instance."@;
    let la = "(_ptr, status));\n  }\n"@;
    reveal_strlit(" value, Uint8List buf) {\n    final handle = lower(value);\n    buf.buffer.asByteData(buf.offsetInBytes).setInt64(0, handle.address);\n    return 8;\n  }\n  void dispose() {\n    _");
    reveal_strlit(" value, Uint8List buf) {\n    final handle = lower(value);\n    buf.buffer.asByteData(buf.offsetInBytes).setInt64(0, handle.address);\n    return 8;\n  }\n  ");
    reveal_strlit("void dispose() {\n    _");
    reveal_strlit(".detach(this);\n    rustCall((status) => _UniffiLib.instance.");
    reveal_strlit("Finalizer.detach(this);\n    rustCall((status) => _UniffiLib.instance.");
    reveal_strlit("Finalizer");
    reveal_strlit("(_ptr, status));\n  }\n");
    reveal_strlit("\n  }\n");
    let pd = "void dispose() {\n    _"@ + cls + "Finalizer.detach(this);\n    rustCall((status) => _UniffiLib.instance."@ + free
        + "(_ptr, status));"@;
    assert forall|a: Seq<char>| #[trigger] contains_spec(a + lb + fin + mid + free + la, pd) by {
        assert(lb =~= lu + "void dispose() {\n    _"@);
        assert("Finalizer"@ + mid =~= "Finalizer.detach(this);\n    rustCall((status) => _UniffiLib.instance."@);
        reveal_strlit("(_ptr, status));");
        assert(la =~= "(_ptr, status));"@ + "\n  }\n"@);
        assert(a + lb + fin + mid + free + la =~= (a + lu) + pd + "\n  }\n"@);
        lemma_contains_mid(a + lu, pd, "\n  }\n"@);
    }
    assert(contains_spec(object_text(ci, obj), pd));
}

proof fn lemma_object_finalizer_call(ci: ComponentInterface, obj: Object)
    ensures
        contains_spec(
            object_text(ci, obj),
            "final _"@ + class_name_spec(obj.name@)
                + "Finalizer = Finalizer<Pointer<Void>>((ptr) {\n  rustCall((status) => _UniffiLib.instance."@
                + obj.ffi_free@ + "(ptr, status));"@,
        ),
{
    reveal(object_text);
    broadcast use lemma_contains_extend;
    let cls = class_name_spec(obj.name@);
    let fin = cls + "Finalizer"@;
    let clone = obj.ffi_clone@;
    let free = obj.ffi_free@;
    let fb = "\nfinal _"@;
    let fm = " = Finalizer<Pointer<Void>>((ptr) {\n  rustCall((status) => _UniffiLib.instance."@;
    let fa = "(ptr, status));\n});\n\nclass "@;
    reveal_strlit("\nfinal _");
    reveal_strlit("final _");
    reveal_strlit("\n");
    reveal_strlit(" = Finalizer<Pointer<Void>>((ptr) {\n  rustCall((status) => _UniffiLib.instance.");
    reveal_strlit("Finalizer = Finalizer<Pointer<Void>>((ptr) {\n  rustCall((status) => _UniffiLib.instance.");
    reveal_strlit("(ptr, status));\n});\n\nclass ");
    reveal_strlit("(ptr, status));");
    reveal_strlit("\n});\n\nclass ");
    let pf = "final _"@ + cls + "Finalizer = Finalizer<Pointer<Void>>((ptr) {\n  rustCall((status) => _UniffiLib.instance."@
        + free + "(ptr, status));"@;
    assert forall|a: Seq<char>| #[trigger] contains_spec(a + fb + fin + fm + free + fa, pf) by {
        assert(fb =~= "\n"@ + "final _"@);
        reveal_strlit("Finalizer");
        assert("Finalizer"@ + fm =~= "Finalizer = Finalizer<Pointer<Void>>((ptr) {\n  rustCall((status) => _UniffiLib.instance."@);
        assert(fa =~= "(ptr, status));"@ + "\n});\n\nclass "@);
        assert(a + fb + fin + fm + free + fa =~= (a + "\n"@) + pf + "\n});\n\nclass "@);
        lemma_contains_mid(a + "\n"@, pf, "\n});\n\nclass "@);
    }
    assert(contains_spec(object_text(ci, obj), pf));
}

/// The class of an object keeps its handle with the object's own low-level
/// functions: `uniffiClonePointer` clones it with `ffi_clone`, and both
/// `dispose` and the finalizer release it with `ffi_free`.
pub proof fn object_class_handles(ci: ComponentInterface, obj: Object)
    ensures
        contains_spec(
            object_text(ci, obj),
            "Pointer<Void> uniffiClonePointer() {\n    return rustCall((status) => _UniffiLib.instance."@
                + obj.ffi_clone@ + "(_ptr, status));"@,
        ),
        contains_spec(
            object_text(ci, obj),
            "void dispose() {\n    _"@ + class_name_spec(obj.name@)
                + "Finalizer.detach(this);\n    rustCall((status) => _UniffiLib.instance."@ + obj.ffi_free@
                + "(_ptr, status));"@,
        ),
        contains_spec(
            object_text(ci, obj),
            "final _"@ + class_name_spec(obj.name@)
                + "Finalizer = Finalizer<Pointer<Void>>((ptr) {\n  rustCall((status) => _UniffiLib.instance."@
                + obj.ffi_free@ + "(ptr, status));"@,
        ),
{
    lemma_object_clone_call(ci, obj);
    lemma_object_dispose_call(ci, obj);
    lemma_object_finalizer_call(ci, obj);
}


/// An asynchronous method's future is driven by its own low-level functions,
/// each in its own role: `future_poll` polls it, `future_complete` completes
/// it and gives the result, and `future_free` frees it.
pub proof fn async_method_drives_its_future(m: Callable)
    requires
        m.is_async,
    ensures
        contains_spec(
            method_text(m),
            "(future, callback, continuation) => _UniffiLib.instance."@ + m.future_poll@
                + "(future, callback, continuation)"@,
        ),
        contains_spec(
            method_text(m),
            "(future, status) => _UniffiLib.instance."@ + m.future_complete@ + "(future, status)"@,
        ),
        contains_spec(method_text(m), "(future) => _UniffiLib.instance."@ + m.future_free@ + "(future)"@),
{
    lemma_async_calls(
        return_label_spec(m.return_type),
        member_name_spec(m.name@),
        args_decl_spec(m.arguments@),
        "_UniffiLib.instance."@ + m.ffi_name@,
        "uniffiClonePointer(), "@ + args_lower_spec(m.arguments@),
        m.future_poll@,
        m.future_complete@,
        m.future_free@,
        async_lifter_spec(m.return_type),
        error_handler_name_spec(m.throws),
    );
}

} // verus!