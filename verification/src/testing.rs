//! The options of a test run and the files a test package is set up with.
use vstd::prelude::*;
use crate::gen::text::{chars_of, digit_char, push_char, unsigned_decimal};
use crate::stream_export::opt_view;

verus! {

/// The package description of a test package.
pub open spec fn pubspec_spec(name: Seq<char>) -> Seq<char> {
    "\nname: "@ +
    name +
    "\ndescription: testing module for uniffi\nversion: 1.0.0\n\nenvironment:\n  sdk: '>=3.10.0'\ndev_dependencies:\n  test: ^1.24.3\ndependencies:\n  ffi: ^2.0.1\n  code_assets: any\n  hooks: any\n"@
}

pub fn pubspec(name: &str) -> (s: String)
    ensures
        s@ == pubspec_spec(name@),
{
    let mut s = String::from_str("\nname: ");
    s.append(name);
    s.append("\ndescription: testing module for uniffi\nversion: 1.0.0\n\nenvironment:\n  sdk: '>=3.10.0'\ndev_dependencies:\n  test: ^1.24.3\ndependencies:\n  ffi: ^2.0.1\n  code_assets: any\n  hooks: any\n");
    s
}

/// The build hook that registers the native library as an asset of the test package.
pub open spec fn build_hook_spec(stem: Seq<char>, file: Seq<char>) -> Seq<char> {
    "import 'dart:io';\nimport 'package:code_assets/code_assets.dart';\nimport 'package:hooks/hooks.dart';\n\n// Dart automatically prefixes the 'name' with 'package:$packageName/', so we construct the full ID here\nString _makeAssetId(String packageName) => 'package:$packageName/uniffi:"@ +
    stem +
    "';\n\nvoid main(List<String> args) async {\n  await build(args, (input, output) async {\n    // The native library is in the package root (copied by test infrastructure)\n    final libPath = input.packageRoot.resolve('"@ +
    file +
    "');\n\n    // Register the asset - Dart will automatically prefix the name with package:$packageName/\n    // So if name is \"uniffi:hello_world\", the full ID becomes \"package:uniffi/uniffi:hello_world\"\n    output.assets.code.add(\n      CodeAsset(\n        package: input.packageName,\n        name: 'uniffi:"@ +
    stem +
    "',  // Dart prefixes this with \"package:$packageName/\"\n        linkMode: DynamicLoadingBundled(),\n        file: libPath,\n      ),\n    );\n\n    // Verify the asset ID matches what's in generated code\n    print('Registered asset: ${_makeAssetId(input.packageName)}');\n  });\n}\n"@
}

pub fn build_hook(stem: &str, file: &str) -> (s: String)
    ensures
        s@ == build_hook_spec(stem@, file@),
{
    let mut s = String::from_str("import 'dart:io';\nimport 'package:code_assets/code_assets.dart';\nimport 'package:hooks/hooks.dart';\n\n// Dart automatically prefixes the 'name' with 'package:$packageName/', so we construct the full ID here\nString _makeAssetId(String packageName) => 'package:$packageName/uniffi:");
    s.append(stem);
    s.append("';\n\nvoid main(List<String> args) async {\n  await build(args, (input, output) async {\n    // The native library is in the package root (copied by test infrastructure)\n    final libPath = input.packageRoot.resolve('");
    s.append(file);
    s.append("');\n\n    // Register the asset - Dart will automatically prefix the name with package:$packageName/\n    // So if name is \"uniffi:hello_world\", the full ID becomes \"package:uniffi/uniffi:hello_world\"\n    output.assets.code.add(\n      CodeAsset(\n        package: input.packageName,\n        name: 'uniffi:");
    s.append(stem);
    s.append("',  // Dart prefixes this with \"package:$packageName/\"\n        linkMode: DynamicLoadingBundled(),\n        file: libPath,\n      ),\n    );\n\n    // Verify the asset ID matches what's in generated code\n    print('Registered asset: ${_makeAssetId(input.packageName)}');\n  });\n}\n");
    s
}

/// Options of a test run.
#[derive(Debug)]
pub struct TestConfig {
    /// Where the test package is made; a temporary directory when absent.
    pub custom_output_dir: Option<String>,
    /// Whether the test files are kept after the run.
    pub no_delete: bool,
    /// How long to wait after a failure, in seconds; a default when absent.
    pub failure_delay_secs: Option<u64>,
}

impl Default for TestConfig {
    fn default() -> (r: Self)
        ensures
            r.custom_output_dir is None,
            !r.no_delete,
            r.failure_delay_secs is None,
    {
        TestConfig { custom_output_dir: None, no_delete: false, failure_delay_secs: None }
    }
}

/// Whether `c` is a decimal digit.
pub open spec fn is_digit(c: char) -> bool {
    '0' <= c && c <= '9'
}

/// The value of a string of decimal digits.
pub open spec fn decimal_value(ds: Seq<char>) -> nat
    decreases ds.len(),
{
    if ds.len() == 0 {
        0
    } else {
        decimal_value(ds.drop_last()) * 10 + ((ds.last() as u32) - ('0' as u32)) as nat
    }
}

/// Whether every character is a decimal digit.
pub open spec fn all_digits(ds: Seq<char>) -> bool {
    forall|i: int| 0 <= i < ds.len() ==> is_digit(#[trigger] ds[i])
}

/// The text after an optional leading `+`.
pub open spec fn unsigned_part(s: Seq<char>) -> Seq<char> {
    if s.len() > 0 && s[0] == '+' {
        s.drop_first()
    } else {
        s
    }
}

/// What `u64::from_str` reads: an optional `+`, then one or more decimal
/// digits whose value fits in 64 bits.
pub open spec fn parse_u64_spec(s: Seq<char>) -> Option<u64> {
    let ds = unsigned_part(s);
    if ds.len() > 0 && all_digits(ds) && decimal_value(ds) <= u64::MAX {
        Some(decimal_value(ds) as u64)
    } else {
        None
    }
}

proof fn lemma_char_code(c: char)
    ensures
        is_digit(c) <==> ('0' as u32) <= (c as u32) <= ('9' as u32),
        ('0' as u32) == 48,
        ('9' as u32) == 57,
{
}

/// Reads an unsigned decimal number as `u64::from_str` does.
pub fn parse_u64(s: &str) -> (r: Option<u64>)
    ensures
        r == parse_u64_spec(s@),
{
    let cs = chars_of(s);
    let start: usize = if cs.len() > 0 && cs[0] == '+' {
        1
    } else {
        0
    };
    let ghost ds = unsigned_part(s@);
    assert(ds =~= cs@.skip(start as int));
    if start >= cs.len() {
        return None;
    }
    let mut v: u64 = 0;
    let mut i: usize = start;
    while i < cs.len()
        invariant
            start <= i <= cs@.len(),
            cs@ == s@,
            ds == unsigned_part(s@),
            ds =~= cs@.skip(start as int),
            forall|j: int| start <= j < i ==> is_digit(#[trigger] cs@[j]),
            v as nat == decimal_value(cs@.subrange(start as int, i as int)),
        decreases cs@.len() - i,
    {
        let c = cs[i];
        proof {
            lemma_char_code(c);
        }
        assert(cs@.subrange(start as int, i + 1).drop_last() =~= cs@.subrange(start as int, i as int));
        if !('0' <= c && c <= '9') {
            assert(ds[i - start] == c);
            assert(!is_digit(ds[i - start]));
            assert(!all_digits(ds));
            return None;
        }
        assert(cs@.subrange(start as int, i + 1).last() == c);
        let d: u32 = (c as u32) - ('0' as u32);
        assert(decimal_value(cs@.subrange(start as int, i + 1)) == v * 10 + d);
        assert(cs@.subrange(start as int, cs@.len() as int) =~= ds);
        match v.checked_mul(10) {
            Some(t) => match t.checked_add(d as u64) {
                Some(u) => {
                    v = u;
                },
                None => {
                    proof {
                        lemma_decimal_grows(cs@, start as int, i + 1);
                        assert(decimal_value(ds) > u64::MAX);
                                }
                    return None;
                },
            },
            None => {
                proof {
                    lemma_decimal_grows(cs@, start as int, i + 1);
                    assert(decimal_value(ds) > u64::MAX);
                        }
                return None;
            },
        }
        i = i + 1;
    }
    assert(cs@.subrange(start as int, cs@.len() as int) =~= ds);
    Some(v)
}

proof fn lemma_decimal_grows(cs: Seq<char>, start: int, k: int)
    requires
        0 <= start < k <= cs.len(),
    ensures
        decimal_value(cs.subrange(start, k)) <= decimal_value(cs.subrange(start, cs.len() as int)),
    decreases cs.len() - k,
{
    if k < cs.len() {
        lemma_decimal_grows(cs, start, k + 1);
        assert(cs.subrange(start, k + 1).drop_last() =~= cs.subrange(start, k));
    }
}

impl TestConfig {
    /// The options given by the environment: an output directory, whether
    /// files are kept, and a failure delay that is used when it reads as a
    /// number.
    pub fn from_env_values(test_dir: Option<String>, no_delete_set: bool, failure_delay: Option<&str>) -> (r: Self)
        ensures
            r.custom_output_dir == test_dir,
            r.no_delete == no_delete_set,
            r.failure_delay_secs == (match failure_delay {
                Some(d) => parse_u64_spec(d@),
                None => None,
            }),
    {
        let delay = match failure_delay {
            Some(d) => parse_u64(d),
            None => None,
        };
        TestConfig { custom_output_dir: test_dir, no_delete: no_delete_set, failure_delay_secs: delay }
    }

    /// The options with files kept or not.
    pub fn with_no_delete(self, no_delete: bool) -> (r: Self)
        ensures
            r.no_delete == no_delete,
            r.custom_output_dir == self.custom_output_dir,
            r.failure_delay_secs == self.failure_delay_secs,
    {
        TestConfig { no_delete, ..self }
    }

    /// The options with an output directory.
    pub fn with_output_dir(self, dir: String) -> (r: Self)
        ensures
            r.custom_output_dir == Some(dir),
            r.no_delete == self.no_delete,
            r.failure_delay_secs == self.failure_delay_secs,
    {
        TestConfig { custom_output_dir: Some(dir), ..self }
    }

    /// The options with a failure delay.
    pub fn with_failure_delay(self, delay_secs: u64) -> (r: Self)
        ensures
            r.failure_delay_secs == Some(delay_secs),
            r.no_delete == self.no_delete,
            r.custom_output_dir == self.custom_output_dir,
    {
        TestConfig { failure_delay_secs: Some(delay_secs), ..self }
    }

    /// How long to wait after a failure: the configured delay, two seconds
    /// by default.
    pub fn failure_delay(&self) -> (r: u64)
        ensures
            r == (match self.failure_delay_secs {
                Some(d) => d,
                None => 2,
            }),
    {
        match self.failure_delay_secs {
            Some(d) => d,
            None => 2,
        }
    }
}

/// Whether to wait after a failed run: for a delay above zero, and never on
/// continuous integration.
pub fn waits_after_failure(delay_secs: u64, on_ci: bool) -> (r: bool)
    ensures
        r == (delay_secs > 0 && !on_ci),
{
    delay_secs > 0 && !on_ci
}

/// The position of the last `.` in a name.
pub open spec fn last_dot(s: Seq<char>) -> Option<int>
    decreases s.len(),
{
    if s.len() == 0 {
        None
    } else if s.last() == '.' {
        Some(s.len() - 1)
    } else {
        last_dot(s.drop_last())
    }
}

/// The stem of a file name: the name before its last `.`, unless it has
/// none or the only one starts the name.
pub open spec fn file_stem_spec(name: Seq<char>) -> Seq<char> {
    match last_dot(name) {
        Some(i) => if i == 0 {
            name
        } else {
            name.take(i)
        },
        None => name,
    }
}

/// The name with every leading `lib` removed.
pub open spec fn trim_lib(s: Seq<char>) -> Seq<char>
    decreases s.len(),
{
    if s.len() >= 3 && s[0] == 'l' && s[1] == 'i' && s[2] == 'b' {
        trim_lib(s.skip(3))
    } else {
        s
    }
}

fn stem_end(cs: &Vec<char>) -> (end: usize)
    ensures
        end <= cs@.len(),
        file_stem_spec(cs@) == cs@.take(end as int),
{
    let mut k: usize = cs.len();
    assert(cs@.take(k as int) =~= cs@);
    while k > 0 && cs[k - 1] != '.'
        invariant
            k <= cs@.len(),
            last_dot(cs@) == last_dot(cs@.take(k as int)),
        decreases k,
    {
        assert(cs@.take(k as int).drop_last() =~= cs@.take(k - 1));
        k = k - 1;
    }
    if k == 0 {
        assert(cs@.take(0) =~= Seq::<char>::empty());
        assert(cs@.take(cs@.len() as int) =~= cs@);
        cs.len()
    } else if k == 1 {
        assert(cs@.take(1).last() == '.');
        assert(cs@.take(cs@.len() as int) =~= cs@);
        cs.len()
    } else {
        assert(cs@.take(k as int).last() == '.');
        k - 1
    }
}

fn trimmed_start(cs: &Vec<char>, end: usize) -> (start: usize)
    requires
        end <= cs@.len(),
    ensures
        start <= end,
        trim_lib(cs@.take(end as int)) == cs@.subrange(start as int, end as int),
{
    let mut start: usize = 0;
    assert(cs@.subrange(0, end as int) =~= cs@.take(end as int));
    while end - start >= 3 && cs[start] == 'l' && cs[start + 1] == 'i' && cs[start + 2] == 'b'
        invariant
            start <= end <= cs@.len(),
            trim_lib(cs@.take(end as int)) == trim_lib(cs@.subrange(start as int, end as int)),
        decreases end - start,
    {
        assert(cs@.subrange(start as int, end as int).skip(3) =~= cs@.subrange(start + 3, end as int));
        start = start + 3;
    }
    start
}

/// The name a native library is registered under: the stem of its file
/// name, without the leading `lib`.
pub fn cdylib_stem(file_name: &str) -> (r: String)
    ensures
        r@ == trim_lib(file_stem_spec(file_name@)),
{
    let cs = chars_of(file_name);
    let end = stem_end(&cs);
    let start = trimmed_start(&cs, end);
    let mut r = String::new();
    for i in start..end
        invariant
            start <= end <= cs@.len(),
            r@ == cs@.subrange(start as int, i as int),
    {
        push_char(&mut r, cs[i]);
        assert(cs@.subrange(start as int, i + 1) =~= cs@.subrange(start as int, i as int).push(cs@[i as int]));
    }
    r
}

/// The files a test package is set up with.
pub struct TestFiles {
    pub pubspec: String,
    pub build_hook: String,
}

/// The package description and the build hook of a test package named
/// `package_name`, `uniffi` by default, for the native library file
/// `cdylib_file_name`.
pub fn test_files(package_name: Option<String>, cdylib_file_name: &str) -> (r: TestFiles)
    ensures
        r.pubspec@ == pubspec_spec(
            match package_name {
                Some(n) => n@,
                None => "uniffi"@,
            },
        ),
        r.build_hook@ == build_hook_spec(trim_lib(file_stem_spec(cdylib_file_name@)), cdylib_file_name@),
{
    let name = match package_name {
        Some(n) => n,
        None => String::from_str("uniffi"),
    };
    let stem = cdylib_stem(cdylib_file_name);
    TestFiles { pubspec: pubspec(name.as_str()), build_hook: build_hook(stem.as_str(), cdylib_file_name) }
}

#[verifier::external_type_specification]
#[verifier::external_body]
pub struct ExTomlValue(toml::Value);

/// What `toml::from_str` gives for a text read as a `toml::Value`; `None`
/// where it refuses the text.
pub uninterp spec fn toml_parsed(content: Seq<char>) -> Option<toml::Value>;

/// What `toml::Value::get` gives for a string key: the value under the key
/// when the value is a table that has it.
pub uninterp spec fn toml_get(v: toml::Value, key: Seq<char>) -> Option<toml::Value>;

/// What `toml::Value::as_str` gives: the string a string value holds.
pub uninterp spec fn toml_as_str(v: toml::Value) -> Option<Seq<char>>;

/// Calls `toml::from_str` for a `toml::Value`; its error becomes `None`. The
/// result depends on the text alone and is named `toml_parsed`; the TOML
/// grammar is not written out.
#[verifier::external_body]
fn toml_from_str(content: &str) -> (r: Option<toml::Value>)
    ensures
        r == toml_parsed(content@),
{
    toml::from_str::<toml::Value>(content).ok()
}

/// Calls `toml::Value::get` with a string key. The result depends on the
/// value and the key alone and is named `toml_get`.
#[verifier::external_body]
fn toml_value_get<'a>(v: &'a toml::Value, key: &str) -> (r: Option<&'a toml::Value>)
    ensures
        match r {
            Some(x) => toml_get(*v, key@) == Some(*x),
            None => toml_get(*v, key@) is None,
        },
{
    v.get(key)
}

/// Calls `toml::Value::as_str` and copies the string. The result depends on
/// the value alone and is named `toml_as_str`.
#[verifier::external_body]
fn toml_value_as_str(v: &toml::Value) -> (r: Option<String>)
    ensures
        opt_view(r) == toml_as_str(*v),
{
    v.as_str().map(|s| s.to_string())
}

/// The string a TOML text holds at `bindings.dart.package_name`, if it is
/// TOML and holds one there.
pub open spec fn toml_dart_package_name(content: Seq<char>) -> Option<Seq<char>> {
    match toml_parsed(content) {
        Some(v) => match toml_get(v, "bindings"@) {
            Some(b) => match toml_get(b, "dart"@) {
                Some(d) => match toml_get(d, "package_name"@) {
                    Some(p) => toml_as_str(p),
                    None => None,
                },
                None => None,
            },
            None => None,
        },
        None => None,
    }
}

/// Reads the string at `bindings.dart.package_name` of a TOML text.
pub fn dart_package_name_in(content: &str) -> (r: Option<String>)
    ensures
        opt_view(r) == toml_dart_package_name(content@),
{
    let value = match toml_from_str(content) {
        Some(v) => v,
        None => return None,
    };
    let bindings = match toml_value_get(&value, "bindings") {
        Some(b) => b,
        None => return None,
    };
    let dart = match toml_value_get(bindings, "dart") {
        Some(d) => d,
        None => return None,
    };
    match toml_value_get(dart, "package_name") {
        Some(p) => toml_value_as_str(p),
        None => None,
    }
}

/// The Dart package a configuration text names, `uniffi` when there is no
/// text or it names none.
pub open spec fn configured_package_spec(config: Option<Seq<char>>) -> Seq<char> {
    match config {
        Some(c) => match toml_dart_package_name(c) {
            Some(n) => n,
            None => "uniffi"@,
        },
        None => "uniffi"@,
    }
}

/// The files of a test package whose configuration file holds `config`, if
/// it could be read: the package is the one the configuration names at
/// `bindings.dart.package_name`, else `uniffi`.
pub fn test_files_from_config(config: Option<&str>, cdylib_file_name: &str) -> (r: TestFiles)
    ensures
        r.pubspec@ == pubspec_spec(
            configured_package_spec(
                match config {
                    Some(c) => Some(c@),
                    None => None,
                },
            ),
        ),
        r.build_hook@ == build_hook_spec(trim_lib(file_stem_spec(cdylib_file_name@)), cdylib_file_name@),
{
    let name = match config {
        Some(c) => dart_package_name_in(c),
        None => None,
    };
    test_files(name, cdylib_file_name)
}

proof fn lemma_decimal_digits(n: nat)
    ensures
        unsigned_decimal(n).len() > 0,
        all_digits(unsigned_decimal(n)),
        decimal_value(unsigned_decimal(n)) == n,
    decreases n,
{
    let ds = unsigned_decimal(n);
    if n < 10 {
        assert(n % 16 == n);
        let c = digit_char(n);
        assert(c as u32 == n + 48);
        assert(ds =~= seq![c]);
        assert(ds.drop_last() =~= Seq::<char>::empty());
        assert(('0' as u32) == 48);
        assert(ds.last() == c);
        assert(decimal_value(ds) == decimal_value(ds.drop_last()) * 10 + ((c as u32) - ('0' as u32)) as nat);
    } else {
        assert(n / 10 < n);
        lemma_decimal_digits(n / 10);
        let prev = unsigned_decimal(n / 10);
        let d = n % 10;
        assert(d < 10);
        assert(d % 16 == d);
        let c = digit_char(d);
        assert(c as u32 == d + 48);
        assert(ds == prev.push(c));
        assert(ds.drop_last() =~= prev);
        assert(('0' as u32) == 48);
        assert(ds.last() == c);
        assert(decimal_value(ds) == decimal_value(prev) * 10 + d);
        assert((n / 10) * 10 + n % 10 == n) by (nonlinear_arith);
        assert forall|i: int| 0 <= i < ds.len() implies is_digit(#[trigger] ds[i]) by {
            if i < prev.len() {
                assert(ds[i] == prev[i]);
            }
        }
    }
}

/// Reading back the decimal text of a number gives the number: what
/// `u64_decimal` writes, `parse_u64` reads.
pub proof fn decimal_text_reads_back(n: u64)
    ensures
        parse_u64_spec(unsigned_decimal(n as nat)) == Some(n),
{
    lemma_decimal_digits(n as nat);
    let ds = unsigned_decimal(n as nat);
    assert(is_digit(ds[0]));
    assert(unsigned_part(ds) == ds);
}

/// A registered library name never starts with `lib`.
pub proof fn stem_has_no_lib_prefix(s: Seq<char>)
    ensures
        !(trim_lib(s).len() >= 3 && trim_lib(s)[0] == 'l' && trim_lib(s)[1] == 'i' && trim_lib(s)[2] == 'b'),
    decreases s.len(),
{
    if s.len() >= 3 && s[0] == 'l' && s[1] == 'i' && s[2] == 'b' {
        stem_has_no_lib_prefix(s.skip(3));
    }
}

} // verus!
