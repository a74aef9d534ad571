use uniffi_dart::testing::{cdylib_stem, parse_u64, test_files, waits_after_failure, TestConfig};

#[test]
fn decimal_numbers_read_as_std_reads_them() {
    assert_eq!(parse_u64("42"), Some(42));
    assert_eq!(parse_u64("+7"), Some(7));
    assert_eq!(parse_u64("18446744073709551615"), Some(u64::MAX));
    assert_eq!(parse_u64("18446744073709551616"), None);
    assert_eq!(parse_u64(""), None);
    assert_eq!(parse_u64("+"), None);
    assert_eq!(parse_u64("-1"), None);
    assert_eq!(parse_u64("12a"), None);
    for n in [0u64, 9, 10, 12345, u64::MAX] {
        assert_eq!(parse_u64(&n.to_string()), Some(n));
    }
}

#[test]
fn test_config_from_environment_values() {
    let c = TestConfig::from_env_values(Some("out".to_string()), true, Some("5"));
    assert_eq!(c.custom_output_dir.as_deref(), Some("out"));
    assert!(c.no_delete);
    assert_eq!(c.failure_delay(), 5);
    let c = TestConfig::from_env_values(None, false, Some("soon"));
    assert_eq!(c.failure_delay_secs, None);
    assert_eq!(c.failure_delay(), 2);
    let c = TestConfig::default().with_failure_delay(0).with_no_delete(true).with_output_dir("x".to_string());
    assert_eq!(c.failure_delay(), 0);
    assert!(c.no_delete);
    assert!(!waits_after_failure(0, false));
    assert!(waits_after_failure(2, false));
    assert!(!waits_after_failure(2, true));
}

#[test]
fn library_stems() {
    assert_eq!(cdylib_stem("libuniffi_fixture.so"), "uniffi_fixture");
    assert_eq!(cdylib_stem("liblibfoo.dylib"), "foo");
    assert_eq!(cdylib_stem("fixture.dll"), "fixture");
    assert_eq!(cdylib_stem(".hidden"), ".hidden");
    assert_eq!(cdylib_stem("noext"), "noext");
    assert_eq!(cdylib_stem("libarchive.tar.gz"), "archive.tar");
}

#[test]
fn test_package_files() {
    let files = test_files(None, "libhello.so");
    assert!(files.pubspec.starts_with("\nname: uniffi\ndescription: testing module for uniffi\n"));
    assert!(files.build_hook.contains("'package:$packageName/uniffi:hello'"));
    assert!(files.build_hook.contains("input.packageRoot.resolve('libhello.so')"));
    let files = test_files(Some("my_pkg".to_string()), "hello.dll");
    assert!(files.pubspec.contains("name: my_pkg\n"));
}

#[test]
fn package_name_comes_from_the_config_text() {
    let named = uniffi_dart::testing::test_files_from_config(
        Some("[bindings.dart]\npackage_name = \"my_pkg\"\n"),
        "libdemo.so",
    );
    assert!(named.pubspec.starts_with("\nname: my_pkg\n"));
    assert!(named.build_hook.contains("name: 'uniffi:demo'"));
    for config in [None, Some("not = [toml"), Some("[bindings.kotlin]\npackage_name = \"k\"\n")] {
        let files = uniffi_dart::testing::test_files_from_config(config, "libdemo.so");
        assert!(files.pubspec.starts_with("\nname: uniffi\n"));
    }
}

#[test]
fn package_name_is_read_from_the_dart_bindings_table() {
    use_package_name_reader();
}

fn use_package_name_reader() {
    let read = uniffi_dart::testing::dart_package_name_in;
    assert_eq!(read("[bindings.dart]\npackage_name = \"pkg\"\n"), Some("pkg".to_string()));
    assert_eq!(read("bindings = { dart = { package_name = \"inline\" } }\n"), Some("inline".to_string()));
    assert_eq!(read("[bindings.dart]\npackage_name = 3\n"), None);
    assert_eq!(read("[bindings]\ndart = \"x\"\n"), None);
    assert_eq!(read("= nonsense"), None);
}
