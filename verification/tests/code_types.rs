use uniffi_dart::gen::code_types::{
    CallbackInterfaceCodeType, CustomCodeType, EnumCodeType, MapCodeType, ObjectCodeType, RecordCodeType,
};
use uniffi_dart::gen::primitives::Literal;
use uniffi_dart::gen::types::{ObjectImpl, Type};

#[test]
fn named_code_types() {
    let r = RecordCodeType::new("point".to_string());
    assert_eq!(r.type_label(), "Point");
    assert_eq!(r.canonical_name(), "point");
    let e = EnumCodeType::new("animal_kind".to_string());
    assert_eq!(e.type_label(), "AnimalKind");
    assert_eq!(e.canonical_name(), "AnimalKind");
    assert_eq!(e.ffi_converter_name(), "FfiConverterAnimalKind");
    let o = ObjectCodeType::new("Listener".to_string(), ObjectImpl::CallbackTrait);
    assert_eq!(o.ffi_converter_name(), "FfiConverterCallbackInterfaceListener");
    assert!(matches!(o.as_type(), Type::Object { imp: ObjectImpl::CallbackTrait, .. }));
    let c = CallbackInterfaceCodeType::new(
        "on_event".to_string(),
        Type::CallbackInterface { name: "on_event".to_string() },
    );
    assert_eq!(c.canonical_name(), "CallbackInterfaceOnEvent");
    let u = CustomCodeType::new("url".to_string(), "demo".to_string(), Box::new(Type::String));
    assert_eq!(u.type_label(), "Url");
    assert_eq!(u.ffi_converter_name(), "FfiConverterUrl");
}

#[test]
fn map_code_type() {
    let m = MapCodeType::new(
        Type::Dict { key_type: Box::new(Type::String), value_type: Box::new(Type::UInt64) },
        Type::String,
        Type::UInt64,
    );
    assert_eq!(m.type_label(), "Map<String, int>");
    assert_eq!(m.canonical_name(), "MapStringToUInt64");
    assert!(matches!(m.key(), Type::String));
    assert!(matches!(m.value(), Type::UInt64));
}

#[test]
fn enum_literal_joins_label_and_variant() {
    let e = EnumCodeType::new("animal_kind".to_string());
    let lit = Literal::Enum("dog_house".to_string(), Type::Enum { name: "animal_kind".to_string() });
    assert_eq!(e.literal(&lit), "AnimalKinddogHouse");
}
