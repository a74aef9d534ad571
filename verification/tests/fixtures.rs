use uniffi_dart::fixtures::benchmarks::{test_function, TestData};
use uniffi_dart::fixtures::callbacks::{
    InMemoryEventPersister, JsonEventPersister, RustStringifier, SimpleError, StoredForeignStringifier,
};
use uniffi_dart::fixtures::custom_types::{get_zen_engine_response, return_zen_engine_response};
use uniffi_dart::fixtures::dart_async::{fallible_me, greet, list_async_items, AsyncItemState, Megaphone, MyError};
use uniffi_dart::fixtures::enum_types::{
    get_animal, get_animal_enum, Animal, AnimalEnum, AnimalLargeUInt, AnimalObject, AnimalRecord, AnimalSignedInt,
};
use uniffi_dart::fixtures::large_error::{error_code_from_error, error_message_from_error, ErrorPayload, LargeError};
use uniffi_dart::fixtures::proc_macro::{get_bool, get_one, make_hashmap, MaybeBool, One};
use uniffi_dart::fixtures::simple_iface::{get_protocol_error, make_object};

#[test]
fn test_function_returns_the_second_string() {
    let r = test_function(10, 100, TestData { foo: "SomeStringData".to_string(), bar: "SomeMoreStringData".to_string() });
    assert_eq!(r, "SomeMoreStringData");
}

#[test]
fn in_memory_persister_loads_what_was_saved_in_order() {
    let mut p = InMemoryEventPersister::new().as_persister();
    p.save("first".to_string());
    p.save("second".to_string());
    assert_eq!(p.load(), vec!["first".to_string(), "second".to_string()]);
}

#[test]
fn simple_error_messages() {
    assert_eq!(SimpleError::BadArgument.message(), "BadArgument");
    assert_eq!(SimpleError::UnexpectedError.message(), "InternalTelephoneError");
}

#[test]
fn zen_engine_response_round_trips() {
    let r = get_zen_engine_response();
    assert_eq!(r.performance, "ready");
    assert_eq!(r.result.0, vec![1, 2, 3]);
    let r = return_zen_engine_response(r);
    let trace = r.trace.unwrap();
    assert_eq!(trace.len(), 1);
    assert_eq!(trace[0].0, "primary");
    assert_eq!(trace[0].1.value.0, vec![4, 5, 6]);
}

#[test]
fn async_fixture_values() {
    assert_eq!(greet("World"), "Hello, World");
    assert_eq!(fallible_me(false), Ok(42));
    assert_eq!(fallible_me(true), Err(MyError::Foo));
    assert_eq!(Megaphone::new().say_now("Alice"), "HELLO, ALICE!");
    let items = list_async_items();
    assert_eq!(items.len(), 2);
    assert!(matches!(items[1].state, AsyncItemState::Pending { ref reason } if reason == "syncing"));
}

#[test]
fn animals() {
    assert_eq!(get_animal(None), Animal::Dog);
    assert_eq!(get_animal(Some(Animal::Cat)), Animal::Cat);
    assert!(matches!(get_animal_enum(Animal::Dog), AnimalEnum::Dog(_)));
    assert_eq!(AnimalLargeUInt::Dog.value(), u32::MAX as u64 + 3);
    assert_eq!(AnimalSignedInt::Wombat.value(), 1);
    let o = AnimalObject::new("dog");
    let _ = o.get_record();
}

#[test]
fn large_error_messages_and_codes() {
    let e = LargeError::Case20 { arg1: 7, arg2: 8 };
    assert_eq!(
        error_message_from_error(&e),
        "Important debug description of what went wrong, arg1: '7', arg2: '8'"
    );
    assert_eq!(error_code_from_error(&e), 10006);
    assert_eq!(error_code_from_error(&LargeError::Case1), 10001);
    let p = ErrorPayload::default();
    assert_eq!(
        p.to_text(),
        "is_important: true, index: 42, message: Very important error payload that greatly helps with debugging"
    );
}

#[test]
fn proc_macro_defaults() {
    assert_eq!(get_one(None), One { inner: 0 });
    assert_eq!(get_bool(None), MaybeBool::Uncertain);
    let m = make_hashmap(3, 9);
    assert_eq!(m.get(&3), Some(&9));
}

#[test]
fn simple_iface_objects() {
    assert_eq!(make_object(5).get_inner(), 5);
    let e = get_protocol_error("boom".to_string());
    assert_eq!(e.payload_error().unwrap().message(), "boom");
}

struct Decimal;

impl StoredForeignStringifier for Decimal {
    fn from_simple_type(&self, value: i32) -> String {
        format!("C: {value}")
    }
}

#[test]
fn stringifier_converts_through_the_kept_callback() {
    let s = RustStringifier::new(Decimal);
    assert_eq!(s.from_simple_type(42), "C: 42");
}

#[test]
fn animal_records_compare_by_name() {
    assert_eq!(AnimalRecord::new(""), AnimalRecord::default());
    assert_eq!(AnimalRecord::new("dog"), AnimalRecord::new("dog"));
    assert_ne!(AnimalRecord::new("dog"), AnimalRecord::new("cat"));
    let r = AnimalRecord::new("koala");
    assert_eq!(r.clone(), r);
    assert_eq!(AnimalObject::new(""), AnimalObject::default());
}
