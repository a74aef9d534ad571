use uniffi_dart::gen::registry::TypeHelpersRenderer;
use uniffi_dart::gen::types::Type;

#[test]
fn include_names_iterate_in_name_order() {
    let mut renderer = TypeHelpersRenderer::new();

    renderer.include_once_check("z", &Type::String);
    renderer.include_once_check("a", &Type::UInt8);
    renderer.include_once_check("m", &Type::Boolean);

    let names: Vec<String> = renderer.get_include_names().into_iter().map(|(n, _)| n).collect();
    assert_eq!(names, ["a", "m", "z"]);
}

#[test]
fn registering_a_name_again_reports_it_and_keeps_one_entry() {
    let mut renderer = TypeHelpersRenderer::new();
    assert!(!renderer.include_once_check("String", &Type::String));
    assert!(renderer.include_once_check("String", &Type::String));
    assert!(renderer.check("String"));
    assert!(!renderer.check("Bool"));
    assert_eq!(renderer.get_include_names().len(), 1);
}

#[test]
fn support_definitions_are_emitted_once() {
    let mut renderer = TypeHelpersRenderer::new();
    assert!(!renderer.include_once_by_name("UniffiHandleMap"));
    assert!(renderer.include_once_by_name("UniffiHandleMap"));
    assert!(renderer.get_include_names().is_empty());
}
