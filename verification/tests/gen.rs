use uniffi_dart::gen::callback_interface::{generate_callback_interface_vtable_init_function, generate_callback_vtable_interface};
use uniffi_dart::gen::enums::generate_enum;
use uniffi_dart::gen::functions::generate_function;
use uniffi_dart::gen::interface::{
    Argument, Callable, CallbackInterface, ComponentInterface, Enum, FfiArgument, FfiFunction, FfiStruct, FfiType, Field, Object,
    Record, UniffiTrait, Variant,
};
use uniffi_dart::gen::naming::{class_name, exception_safe_name, fn_name, var_name};
use uniffi_dart::gen::objects::{generate_interface_method, generate_object_class, generate_trait_helpers};
use uniffi_dart::gen::primitives::{render_literal, Literal, Radix};
use uniffi_dart::gen::records::{default_value_text, generate_record};
use uniffi_dart::gen::registry::TypeHelpersRenderer;
use uniffi_dart::gen::render::{is_renderable, render};
use uniffi_dart::gen::types::{canonical_name, ffi_converter_name, generate_type, type_label, ObjectImpl, Type};
use uniffi_dart::gen::wrapper::{native_defs, Config, DartWrapper};

fn ci(namespace: &str) -> ComponentInterface {
    ComponentInterface {
        namespace: namespace.to_string(),
        records: vec![],
        enums: vec![],
        objects: vec![],
        functions: vec![],
        callback_interfaces: vec![],
        error_names: vec![],
        ffi_functions: vec![],
        checksums: vec![],
        uniffi_contract_version: 30,
        ffi_contract_version_fn: format!("ffi_{namespace}_uniffi_contract_version"),
        external_namespaces: vec![],
        ffi_rustbuffer_alloc: format!("ffi_{namespace}_rustbuffer_alloc"),
        ffi_rustbuffer_from_bytes: format!("ffi_{namespace}_rustbuffer_from_bytes"),
        ffi_rustbuffer_free: format!("ffi_{namespace}_rustbuffer_free"),
        ffi_rustbuffer_reserve: format!("ffi_{namespace}_rustbuffer_reserve"),
    }
}

fn callable(name: &str, args: Vec<(&str, Type)>, ret: Option<Type>) -> Callable {
    Callable {
        name: name.to_string(),
        arguments: args.into_iter().map(|(n, t)| Argument { name: n.to_string(), ty: t }).collect(),
        return_type: ret,
        throws: None,
        is_async: false,
        ffi_name: format!("uniffi_fn_{name}"),
        future_poll: "ffi_rust_future_poll_u8".to_string(),
        future_complete: "ffi_rust_future_complete_u8".to_string(),
        future_free: "ffi_rust_future_free_u8".to_string(),
        foreign_future_result: FfiStruct { name: "ForeignFutureResultU8".to_string(), fields: vec![] },
    }
}

fn field(name: &str, ty: Type, default_value: Option<Literal>) -> Field {
    Field { name: name.to_string(), ty, default_value }
}

#[test]
fn names_follow_dart_conventions() {
    assert_eq!(class_name("my_record"), "MyRecord");
    assert_eq!(fn_name("do_the_thing"), "doTheThing");
    assert_eq!(var_name("some_field"), "someField");
    assert_eq!(exception_safe_name("MyError"), "MyException");
    assert_eq!(exception_safe_name("ErrorOrError"), "ExceptionOrException");
}

#[test]
fn type_labels_and_converters() {
    let t = Type::Optional { inner_type: Box::new(Type::Sequence { inner_type: Box::new(Type::UInt8) }) };
    assert_eq!(type_label(&t), "List<int>?");
    assert_eq!(canonical_name(&t), "OptionalSequenceUInt8");
    assert_eq!(ffi_converter_name(&t), "FfiConverterOptionalSequenceUInt8");
    let m = Type::Dict { key_type: Box::new(Type::String), value_type: Box::new(Type::Int32) };
    assert_eq!(canonical_name(&m), "MapStringToInt32");
    assert_eq!(type_label(&m), "Map<String, int>");
    let cb = Type::Object { name: "Listener".to_string(), imp: ObjectImpl::CallbackTrait };
    assert_eq!(ffi_converter_name(&cb), "FfiConverterCallbackInterfaceListener");
    assert_eq!(generate_type(&Type::Record { name: "point_2d".to_string() }), "point_2d");
}

#[test]
fn literals_render_as_dart() {
    assert_eq!(render_literal(&Literal::UInt(255, Radix::Hexadecimal, Type::UInt8)), "0xff");
    assert_eq!(render_literal(&Literal::Int(-5, Radix::Decimal, Type::Int32)), "-5");
    assert_eq!(render_literal(&Literal::String("hi".to_string())), "'hi'");
    assert_eq!(render_literal(&Literal::Boolean(false)), "false");
}

#[test]
fn default_values_of_record_fields() {
    let animal = Type::Optional { inner_type: Box::new(Type::Enum { name: "animal_kind".to_string() }) };
    let lit = Literal::Enum("dog_house".to_string(), Type::Enum { name: "animal_kind".to_string() });
    assert_eq!(default_value_text(&lit, &animal), Some("AnimalKind.dogHouse".to_string()));
    assert_eq!(default_value_text(&lit, &Type::String), None);
    assert_eq!(default_value_text(&Literal::EmptySequence, &Type::Sequence { inner_type: Box::new(Type::String) }), Some("[]".to_string()));
    let present = Literal::Present { inner: Box::new(Literal::UInt(7, Radix::Decimal, Type::UInt32)) };
    let opt = Type::Optional { inner_type: Box::new(Type::UInt32) };
    assert_eq!(default_value_text(&present, &opt), Some("7".to_string()));
}

#[test]
fn record_class_and_converter() {
    let rec = Record {
        name: "point".to_string(),
        fields: vec![
            field("x", Type::Int32, None),
            field("label", Type::Optional { inner_type: Box::new(Type::String) }, None),
            field("flag", Type::Boolean, Some(Literal::Boolean(true))),
        ],
    };
    let mut reg = TypeHelpersRenderer::new();
    let text = generate_record(&rec, &mut reg);
    assert!(text.starts_with("class Point {\n  final int x;\n  final String? label;\n  final bool flag;\n\n  Point({required this.x, this.label, this.flag = true, });\n}\n"));
    assert!(text.contains("    return LiftRetVal(Point(\n      x: x,\n      label: label,\n      flag: flag,\n    ), new_offset - buf.offsetInBytes);\n"));
    assert!(text.contains("    final total_length = FfiConverterInt32.allocationSize(value.x) + FfiConverterOptionalString.allocationSize(value.label) + FfiConverterBool.allocationSize(value.flag) + 0;\n"));
    assert!(reg.check("Int32"));
    assert!(reg.check("OptionalString"));
    assert!(reg.check("Bool"));
    assert_eq!(reg.get_include_names().len(), 3);
}

#[test]
fn flat_enum_is_a_dart_enum() {
    let e = Enum {
        name: "color".to_string(),
        variants: vec![
            Variant { name: "light_red".to_string(), fields: vec![] },
            Variant { name: "green".to_string(), fields: vec![] },
        ],
        flat: true,
    };
    let mut reg = TypeHelpersRenderer::new();
    let text = generate_enum(&ci("demo"), &e, &mut reg);
    assert!(text.starts_with("enum Color {\n  lightRed,\n  green,\n  ;\n}\n"));
    assert!(text.contains("      case 2:\n        return LiftRetVal(\n          Color.green,\n          4,\n        );\n"));
}

#[test]
fn void_function_passes_the_call_status() {
    let f = callable("say_hi", vec![], None);
    assert_eq!(
        generate_function(&f),
        "  void sayHi() {\n    return rustCall((status) {\n      uniffi_fn_say_hi(\n        status\n      );\n    }, null);\n  }\n"
    );
}

#[test]
fn function_with_result_lifts_it_and_names_its_error_handler() {
    let mut f = callable("get_count", vec![("the_name", Type::String)], Some(Type::UInt32));
    f.throws = Some(Type::Enum { name: "count_error".to_string() });
    assert_eq!(
        generate_function(&f),
        "  int getCount(String theName, ) {\n    return rustCallWithLifter(\n      (status) => uniffi_fn_get_count(\n        FfiConverterString.lower(theName), status\n      ),\n      FfiConverterUInt32.lift,\n      countErrorErrorHandler\n    );\n  }\n"
    );
}

#[test]
fn interface_method_of_async_method_returns_a_future() {
    let mut m = callable("fetch", vec![("id", Type::UInt64), ("tag", Type::String)], Some(Type::String));
    m.is_async = true;
    assert_eq!(generate_interface_method(&m), "  Future<String> fetch(int id, String tag);\n");
}

fn object(name: &str) -> Object {
    Object {
        name: name.to_string(),
        imp: ObjectImpl::Struct,
        constructors: vec![],
        methods: vec![],
        uniffi_traits: vec![],
        trait_impls: vec![],
        ffi_free: format!("uniffi_free_{name}"),
        ffi_clone: format!("uniffi_clone_{name}"),
    }
}

#[test]
fn object_implements_each_interface_once() {
    let mut o = object("demo");
    o.trait_impls = vec!["trait_a".to_string(), "TraitA".to_string(), "trait_b".to_string()];
    o.constructors = vec![callable("new", vec![("x", Type::Int32)], None), callable("with_name", vec![], None)];
    let mut c = ci("demo");
    c.error_names = vec!["demo".to_string()];
    let mut reg = TypeHelpersRenderer::new();
    let text = generate_object_class(&c, &o, &mut reg);
    assert!(text.contains("class Demo implements DemoInterface, Exception, TraitA, TraitB {\n"));
    assert!(text.contains("  Demo(int x, ) : _ptr = rustCall((status) =>\n"));
    assert!(text.contains("  Demo.withName() : _ptr = rustCall((status) =>\n"));
    assert!(text.contains("class DemoErrorHandler extends UniffiRustCallStatusErrorHandler {"));
    assert!(text.contains("    return \"Demo\";\n"));
    assert!(reg.check("demo"));
    assert!(reg.check("Int32"));
}

#[test]
fn one_trait_helper_per_kind() {
    let mut o = object("thing");
    let fmt = callable("fmt", vec![], Some(Type::String));
    o.uniffi_traits = vec![
        UniffiTrait::Display { fmt: callable("fmt", vec![], Some(Type::String)) },
        UniffiTrait::Display { fmt },
        UniffiTrait::Ord { order: callable("cmp", vec![("other", Type::String)], Some(Type::Int8)) },
    ];
    let mut reg = TypeHelpersRenderer::new();
    let text = generate_trait_helpers(&o, &mut reg);
    assert_eq!(text.matches("String toString()").count(), 1);
    assert!(!text.contains("cmp"));
    assert!(reg.check("String"));
    assert!(!reg.check("Int8"));
}

#[test]
fn callback_vtable_is_named_after_the_interface() {
    let ms = vec![callable("on_event", vec![], None), callable("on_close", vec![], None)];
    let vt = generate_callback_vtable_interface("Listener", &ms);
    assert!(vt.contains("  external Pointer<NativeFunction<UniffiCallbackInterfaceListenerMethod1>> onClose;\n"));
    let init = generate_callback_interface_vtable_init_function("MyCallback", &ms, "demo");
    assert!(init.contains("uniffi_demo_fn_init_callback_vtable_mycallback("));
    assert!(init.contains("  myCallbackVTable.ref.onEvent = myCallbackOnEventPointer;\n"));
}

#[test]
fn native_functions_are_declared_once() {
    let f = |name: &str| FfiFunction {
        name: name.to_string(),
        arguments: vec![FfiArgument { name: "handle".to_string(), ty: FfiType::UInt64 }],
        return_type: Some(FfiType::Int8),
        has_rust_call_status_arg: true,
    };
    let text = native_defs(&vec![f("a"), f("b"), f("a")]);
    assert_eq!(text.matches("@Native").count(), 2);
    assert!(text.starts_with("@Native<Int8 Function(Uint64, Pointer<RustCallStatus>)>(\n  assetId: _uniffiAssetId\n)\nexternal int a(int handle, Pointer<RustCallStatus> uniffiStatus);\n\n"));
}

#[test]
fn config_defaults() {
    let c = Config { package_name: None, cdylib_name: None, external_packages: vec![], asset_id: None };
    assert_eq!(c.package_name(), "uniffi");
    assert_eq!(c.asset_id(), "uniffi:uniffi");
    let mut d = Config::from_namespace("demo");
    assert_eq!(d.asset_id(), "uniffi:demo");
    d.cdylib_name = None;
    d.fill_cdylib_name(None, "demo");
    assert_eq!(d.cdylib_name(), "uniffi_demo");
    d.fill_cdylib_name(Some("other".to_string()), "demo");
    assert_eq!(d.cdylib_name(), "uniffi_demo");
}

#[test]
fn rendered_library_has_sorted_imports_and_one_helper_per_type() {
    let mut c = ci("demo");
    c.external_namespaces = vec!["zeta".to_string(), "alpha".to_string(), "zeta".to_string()];
    c.records = vec![Record { name: "point".to_string(), fields: vec![field("x", Type::Int32, None), field("y", Type::Int32, None)] }];
    c.functions = vec![callable("make_point", vec![], Some(Type::Record { name: "point".to_string() }))];
    let mut reg = TypeHelpersRenderer::new();
    let (code, functions) = render(&c, &mut reg);
    let a = code.find("import \"alpha.dart\" as alpha;").unwrap();
    let z = code.find("import \"zeta.dart\" as zeta;").unwrap();
    assert!(a < z);
    assert_eq!(code.matches("import \"zeta.dart\";").count(), 1);
    assert_eq!(code.matches("class FfiConverterInt32 {").count(), 1);
    assert_eq!(code.matches("class Point {").count(), 1);
    assert!(code.contains("return rustCall((status) => ffi_demo_rustbuffer_alloc(size, status));"));
    assert!(functions.contains("  Point makePoint() {\n"));

    let config = Config::from_namespace("demo");
    let lib = DartWrapper::new(&c, &config).generate();
    assert!(lib.starts_with("library demo;\n\n"));
    assert!(lib.contains("const _uniffiAssetId = \"package:demo/uniffi:demo\";\n"));
    assert!(lib.contains("  final bindingsVersion = 30;\n"));
}

#[test]
fn unset_default_makes_a_field_required() {
    assert_eq!(default_value_text(&Literal::Default, &Type::UInt32), None);
    let present_default = Literal::Present { inner: Box::new(Literal::Default) };
    assert_eq!(default_value_text(&present_default, &Type::Optional { inner_type: Box::new(Type::UInt32) }), None);
    let rec = Record { name: "counter".to_string(), fields: vec![field("n", Type::UInt32, Some(Literal::Default))] };
    let mut reg = TypeHelpersRenderer::new();
    let text = generate_record(&rec, &mut reg);
    assert!(text.contains("  Counter({required this.n, });\n"));
}

#[test]
fn renderable_interfaces() {
    let mut c = ci("demo");
    c.records = vec![Record { name: "point".to_string(), fields: vec![field("x", Type::Int32, None)] }];
    assert!(is_renderable(&c));

    let listener = || Type::CallbackInterface { name: "listener".to_string() };
    let mut bad_field = ci("demo");
    bad_field.records = vec![Record {
        name: "holder".to_string(),
        fields: vec![field("l", Type::Optional { inner_type: Box::new(listener()) }, None)],
    }];
    assert!(!is_renderable(&bad_field));

    let mut bad_trait = ci("demo");
    let mut o = object("thing");
    o.uniffi_traits = vec![UniffiTrait::Display { fmt: callable("fmt", vec![("extra", Type::Int32)], Some(Type::String)) }];
    bad_trait.objects = vec![o];
    assert!(!is_renderable(&bad_trait));

    let mut undefined_callback = ci("demo");
    undefined_callback.functions = vec![callable("register", vec![("l", listener())], None)];
    assert!(!is_renderable(&undefined_callback));
    undefined_callback.callback_interfaces =
        vec![CallbackInterface { name: "listener".to_string(), methods: vec![callable("on_event", vec![], None)] }];
    assert!(is_renderable(&undefined_callback));
}

#[test]
fn stream_objects_get_a_stream_extension() {
    let mut o = object("count_stream_ext");
    o.name = "CountStreamExt".to_string();
    o.methods = vec![callable(
        "next",
        vec![],
        Some(Type::Optional { inner_type: Box::new(Type::UInt32) }),
    )];
    let c = ci("demo");
    let mut reg = TypeHelpersRenderer::new();
    let text = generate_object_class(&c, &o, &mut reg);
    assert!(text.ends_with(
        "\nextension CountStreamExtStream on CountStreamExt {\n  Stream<int> stream() async* {\n    while (true) {\n      final value = await next();\n      if (value == null) {\n        break;\n      }\n      yield value;\n    }\n  }\n}\n"
    ));
    let plain = object("counter");
    let mut reg2 = TypeHelpersRenderer::new();
    assert!(!generate_object_class(&c, &plain, &mut reg2).contains("extension"));
}

#[test]
fn rendering_an_empty_interface_registers_only_strings() {
    let c = ci("determinism");
    let mut reg = TypeHelpersRenderer::new();
    let (_code, functions) = render(&c, &mut reg);
    assert!(functions.is_empty());
    let names = reg.get_include_names();
    assert!(!names.is_empty());
    assert!(names.iter().all(|(_, t)| matches!(t, Type::String)));
    let mut reg3 = TypeHelpersRenderer::new();
    assert_eq!(render(&c, &mut reg3), render(&c, &mut TypeHelpersRenderer::new()));
}

#[test]
fn checked_generation_refuses_what_cannot_be_rendered() {
    let c = ci("demo");
    let config = Config::from_namespace("demo");
    let w = DartWrapper::new(&c, &config);
    assert_eq!(w.generate_checked(), Some(w.generate()));
    let mut bad = ci("demo");
    bad.records = vec![Record {
        name: "holder".to_string(),
        fields: vec![field("l", Type::CallbackInterface { name: "listener".to_string() }, None)],
    }];
    assert_eq!(DartWrapper::new(&bad, &config).generate_checked(), None);
}
