//! The generated library as a whole, and the configuration it is made for.
use vstd::prelude::*;
use crate::gen::callback_interface::{native_dart_label, native_dart_label_text, native_label, native_label_text};
use crate::gen::interface::{ComponentInterface, FfiFunction};
use crate::gen::registered::closed;
use crate::gen::objects::list_contains;
use crate::gen::registry::TypeHelpersRenderer;
use crate::gen::render::{is_renderable, render, render_spec, renderable};
use crate::gen::text::{concat2, concat3, concat_all, join_spec, join_strings, lemma_concat_all_step, u64_decimal, unsigned_decimal, views};
use crate::gen::types::Type;

verus! {

/// The configuration bindings are generated with; each absent name has a
/// default.
#[derive(Debug)]
pub struct Config {
    pub package_name: Option<String>,
    pub cdylib_name: Option<String>,
    /// The Dart packages external modules are found in, by module.
    pub external_packages: Vec<(String, String)>,
    pub asset_id: Option<String>,
}

/// The Dart package name: the configured one, else `uniffi`.
pub open spec fn package_name_spec(c: Config) -> Seq<char> {
    match c.package_name {
        Some(n) => n@,
        None => "uniffi"@,
    }
}

/// The native library's name: the configured one, else `uniffi`.
pub open spec fn cdylib_name_spec(c: Config) -> Seq<char> {
    match c.cdylib_name {
        Some(n) => n@,
        None => "uniffi"@,
    }
}

/// The asset the native library is registered as: the configured one, else
/// `uniffi:` and the library's name.
pub open spec fn asset_id_spec(c: Config) -> Seq<char> {
    match c.asset_id {
        Some(n) => n@,
        None => "uniffi:"@ + cdylib_name_spec(c),
    }
}

impl Config {
    /// The configuration of an interface's namespace: package and library
    /// both named after it.
    pub fn from_namespace(namespace: &str) -> (r: Config)
        ensures
            r.package_name matches Some(n) && n@ == namespace@,
            r.cdylib_name matches Some(n) && n@ == namespace@,
            r.external_packages@.len() == 0,
            r.asset_id is None,
    {
        Config {
            package_name: Some(String::from_str(namespace)),
            cdylib_name: Some(String::from_str(namespace)),
            external_packages: Vec::new(),
            asset_id: None,
        }
    }

    /// The Dart package name.
    pub fn package_name(&self) -> (r: String)
        ensures
            r@ == package_name_spec(*self),
    {
        match &self.package_name {
            Some(n) => n.clone(),
            None => String::from_str("uniffi"),
        }
    }

    /// The native library's name.
    pub fn cdylib_name(&self) -> (r: String)
        ensures
            r@ == cdylib_name_spec(*self),
    {
        match &self.cdylib_name {
            Some(n) => n.clone(),
            None => String::from_str("uniffi"),
        }
    }

    /// The asset the native library is registered as.
    pub fn asset_id(&self) -> (r: String)
        ensures
            r@ == asset_id_spec(*self),
    {
        match &self.asset_id {
            Some(n) => n.clone(),
            None => {
                let c = self.cdylib_name();
                concat2("uniffi:", c.as_str())
            },
        }
    }

    /// Fills in the native library's name when none is configured: the one
    /// given for the build, else `uniffi_` and the namespace.
    pub fn fill_cdylib_name(&mut self, cdylib: Option<String>, namespace: &str)
        ensures
            final(self).package_name == old(self).package_name,
            final(self).asset_id == old(self).asset_id,
            final(self).external_packages == old(self).external_packages,
            old(self).cdylib_name is Some ==> final(self).cdylib_name == old(self).cdylib_name,
            old(self).cdylib_name is None ==> (final(self).cdylib_name matches Some(n) && n@ == (match cdylib {
                Some(c) => c@,
                None => "uniffi_"@ + namespace@,
            })),
    {
        if self.cdylib_name.is_none() {
            let n = match cdylib {
                Some(c) => c,
                None => concat2("uniffi_", namespace),
            };
            self.cdylib_name = Some(n);
        }
    }
}

/// The generated library: its name, the rendered source, the asset the native functions are found in, the functions, their low-level definitions and the checks of the native library's version and checksums.
pub open spec fn wrapper_spec(pkg: Seq<char>, code: Seq<char>, asset: Seq<char>, functions: Seq<char>, defs: Seq<char>, version: Seq<char>, version_fn: Seq<char>, checks: Seq<char>) -> Seq<char> {
    "library "@ +
    pkg +
    ";\n\n"@ +
    code +
    "\nconst _uniffiAssetId = \"package:"@ +
    pkg +
    "/"@ +
    asset +
    "\";\n\n"@ +
    functions +
    "\n"@ +
    defs +
    "\nvoid _checkApiVersion() {\n  final bindingsVersion = "@ +
    version +
    ";\n  final scaffoldingVersion = "@ +
    version_fn +
    "();\n  if (bindingsVersion != scaffoldingVersion) {\n    throw UniffiInternalError.panicked(\"UniFFI contract version mismatch: bindings version $bindingsVersion, scaffolding version $scaffoldingVersion\");\n  }\n}\n\nvoid _checkApiChecksums() {\n"@ +
    checks +
    "}\n\nvoid ensureInitialized() {\n  _checkApiVersion();\n  _checkApiChecksums();\n}\n"@
}

fn wrapper(pkg: &str, code: &str, asset: &str, functions: &str, defs: &str, version: &str, version_fn: &str, checks: &str) -> (s: String)
    ensures
        s@ == wrapper_spec(pkg@, code@, asset@, functions@, defs@, version@, version_fn@, checks@),
{
    let mut s = String::from_str("library ");
    s.append(pkg);
    s.append(";\n\n");
    s.append(code);
    s.append("\nconst _uniffiAssetId = \"package:");
    s.append(pkg);
    s.append("/");
    s.append(asset);
    s.append("\";\n\n");
    s.append(functions);
    s.append("\n");
    s.append(defs);
    s.append("\nvoid _checkApiVersion() {\n  final bindingsVersion = ");
    s.append(version);
    s.append(";\n  final scaffoldingVersion = ");
    s.append(version_fn);
    s.append("();\n  if (bindingsVersion != scaffoldingVersion) {\n    throw UniffiInternalError.panicked(\"UniFFI contract version mismatch: bindings version $bindingsVersion, scaffolding version $scaffoldingVersion\");\n  }\n}\n\nvoid _checkApiChecksums() {\n");
    s.append(checks);
    s.append("}\n\nvoid ensureInitialized() {\n  _checkApiVersion();\n  _checkApiChecksums();\n}\n");
    s
}

/// The declaration of a low-level function, looked up in the asset by its name.
pub open spec fn native_def_spec(native_ret: Seq<char>, natives: Seq<char>, dart_ret: Seq<char>, name: Seq<char>, darts: Seq<char>) -> Seq<char> {
    "@Native<"@ +
    native_ret +
    " Function("@ +
    natives +
    ")>(\n  assetId: _uniffiAssetId\n)\nexternal "@ +
    dart_ret +
    " "@ +
    name +
    "("@ +
    darts +
    ");\n\n"@
}

fn native_def(native_ret: &str, natives: &str, dart_ret: &str, name: &str, darts: &str) -> (s: String)
    ensures
        s@ == native_def_spec(native_ret@, natives@, dart_ret@, name@, darts@),
{
    let mut s = String::from_str("@Native<");
    s.append(native_ret);
    s.append(" Function(");
    s.append(natives);
    s.append(")>(\n  assetId: _uniffiAssetId\n)\nexternal ");
    s.append(dart_ret);
    s.append(" ");
    s.append(name);
    s.append("(");
    s.append(darts);
    s.append(");\n\n");
    s
}

/// The check of one API checksum.
pub open spec fn checksum_check_spec(name: Seq<char>, value: Seq<char>) -> Seq<char> {
    "  if ("@ +
    name +
    "() != "@ +
    value +
    ") {\n    throw UniffiInternalError.panicked(\"UniFFI API checksum mismatch\");\n  }\n"@
}

fn checksum_check(name: &str, value: &str) -> (s: String)
    ensures
        s@ == checksum_check_spec(name@, value@),
{
    let mut s = String::from_str("  if (");
    s.append(name);
    s.append("() != ");
    s.append(value);
    s.append(") {\n    throw UniffiInternalError.panicked(\"UniFFI API checksum mismatch\");\n  }\n");
    s
}

/// Whether the `i`-th function is the first of its name.
pub open spec fn first_of_name(fs: Seq<FfiFunction>, i: int) -> bool {
    forall|j: int| 0 <= j < i ==> (#[trigger] fs[j]).name@ != fs[i].name@
}

/// The native types of a function's parameters, the call status last when
/// it takes one.
pub open spec fn native_params(f: FfiFunction) -> Seq<Seq<char>> {
    let args = Seq::new(f.arguments@.len(), |i: int| native_label(f.arguments@[i].ty));
    if f.has_rust_call_status_arg {
        args.push("Pointer<RustCallStatus>"@)
    } else {
        args
    }
}

/// The Dart parameters of a function, the call status last when it takes
/// one.
pub open spec fn dart_params(f: FfiFunction) -> Seq<Seq<char>> {
    let args = Seq::new(f.arguments@.len(), |i: int| native_dart_label(f.arguments@[i].ty) + " "@ + f.arguments@[i].name@);
    if f.has_rust_call_status_arg {
        args.push("Pointer<RustCallStatus> uniffiStatus"@)
    } else {
        args
    }
}

/// The declaration of a low-level function.
pub open spec fn native_def_text(f: FfiFunction) -> Seq<char> {
    native_def_spec(
        match f.return_type {
            Some(t) => native_label(t),
            None => "Void"@,
        },
        join_spec(native_params(f), ", "@),
        match f.return_type {
            Some(t) => native_dart_label(t),
            None => "void"@,
        },
        f.name@,
        join_spec(dart_params(f), ", "@),
    )
}

/// The declarations of the low-level functions, each name declared once, at
/// its first occurrence.
pub open spec fn native_defs_text(fs: Seq<FfiFunction>) -> Seq<char> {
    concat_all(Seq::new(fs.len(), |i: int| if first_of_name(fs, i) {
        native_def_text(fs[i])
    } else {
        Seq::empty()
    }))
}

/// The checks of the API checksums.
pub open spec fn checks_text(cs: Seq<(String, u16)>) -> Seq<char> {
    concat_all(Seq::new(cs.len(), |i: int| checksum_check_spec(cs[i].0@, unsigned_decimal(cs[i].1 as nat))))
}

/// The generated library for an interface and a configuration.
pub open spec fn library_text(ci: ComponentInterface, c: Config) -> Seq<char> {
    let r = render_spec(ci, Map::empty(), Set::empty());
    wrapper_spec(
        package_name_spec(c),
        r.0,
        asset_id_spec(c),
        r.1,
        native_defs_text(ci.ffi_functions@),
        unsigned_decimal(ci.uniffi_contract_version as nat),
        ci.ffi_contract_version_fn@,
        checks_text(ci.checksums@),
    )
}

/// The declaration of a low-level function.
fn native_declaration(f: &FfiFunction) -> (r: String)
    ensures
        r@ == native_def_text(*f),
{
    let mut natives: Vec<String> = Vec::new();
    let mut darts: Vec<String> = Vec::new();
    let n = f.arguments.len();
    for i in 0..n
        invariant
            n == f.arguments@.len(),
            natives@.len() == i,
            darts@.len() == i,
            forall|j: int| 0 <= j < i ==> (#[trigger] natives@[j])@ == native_label(f.arguments@[j].ty),
            forall|j: int| 0 <= j < i ==> (#[trigger] darts@[j])@ == native_dart_label(f.arguments@[j].ty) + " "@
                + f.arguments@[j].name@,
    {
        let a = &f.arguments[i];
        natives.push(native_label_text(&a.ty));
        let d = native_dart_label_text(&a.ty);
        darts.push(concat3(d.as_str(), " ", a.name.as_str()));
    }
    if f.has_rust_call_status_arg {
        natives.push(String::from_str("Pointer<RustCallStatus>"));
        darts.push(String::from_str("Pointer<RustCallStatus> uniffiStatus"));
    }
    proof {
        assert(views(natives@) =~= native_params(*f));
        assert(views(darts@) =~= dart_params(*f));
    }
    let nj = join_strings(&natives, ", ");
    let dj = join_strings(&darts, ", ");
    let (nr, dr) = match &f.return_type {
        Some(t) => (native_label_text(t), native_dart_label_text(t)),
        None => (String::from_str("Void"), String::from_str("void")),
    };
    native_def(nr.as_str(), nj.as_str(), dr.as_str(), f.name.as_str(), dj.as_str())
}

/// The declarations of the low-level functions, each name once.
pub fn native_defs(fs: &Vec<FfiFunction>) -> (r: String)
    ensures
        r@ == native_defs_text(fs@),
{
    let ghost p = Seq::new(fs@.len(), |i: int| if first_of_name(fs@, i) {
        native_def_text(fs@[i])
    } else {
        Seq::empty()
    });
    let mut seen: Vec<String> = Vec::new();
    let mut r = String::new();
    let n = fs.len();
    assert(p.take(0) =~= Seq::<Seq<char>>::empty());
    for i in 0..n
        invariant
            n == fs@.len(),
            p == Seq::new(fs@.len(), |i: int| if first_of_name(fs@, i) {
                native_def_text(fs@[i])
            } else {
                Seq::empty()
            }),
            r@ == concat_all(p.take(i as int)),
            forall|x: Seq<char>| #[trigger] views(seen@).contains(x) <==> exists|j: int| 0 <= j < i && fs@[j].name@ == x,
    {
        proof {
            lemma_concat_all_step(p, i as int);
        }
        let f = &fs[i];
        let found = list_contains(&seen, &f.name);
        let ghost name = fs@[i as int].name@;
        proof {
            if found {
                let j = choose|j: int| 0 <= j < i && fs@[j].name@ == name;
                assert(fs@[j].name@ == fs@[i as int].name@);
                assert(!first_of_name(fs@, i as int));
            } else {
                assert forall|j: int| 0 <= j < i implies (#[trigger] fs@[j]).name@ != fs@[i as int].name@ by {
                    if fs@[j].name@ == name {
                        assert(exists|j2: int| 0 <= j2 < i && fs@[j2].name@ == name);
                    }
                }
            }
        }
        let ghost before = views(seen@);
        if !found {
            let d = native_declaration(f);
            r.append(d.as_str());
            seen.push(f.name.clone());
            assert(views(seen@) =~= before.push(name));
        }
        proof {
            assert forall|x: Seq<char>| #[trigger] views(seen@).contains(x) <==> exists|j: int| 0 <= j < i + 1 && fs@[j].name@ == x by {
                if exists|j: int| 0 <= j < i + 1 && fs@[j].name@ == x {
                    let j = choose|j: int| 0 <= j < i + 1 && fs@[j].name@ == x;
                    if j < i {
                        assert(before.contains(x));
                        let q = choose|q: int| 0 <= q < before.len() && before[q] == x;
                        assert(views(seen@)[q] == x);
                    } else if !found {
                        assert(views(seen@)[before.len() as int] == x);
                    } else {
                        assert(before.contains(x));
                    }
                }
                if views(seen@).contains(x) {
                    let q = choose|q: int| 0 <= q < views(seen@).len() && views(seen@)[q] == x;
                    if q < before.len() {
                        assert(before[q] == x);
                        assert(before.contains(x));
                        let j = choose|j: int| 0 <= j < i && fs@[j].name@ == x;
                        assert(0 <= j < i + 1 && fs@[j].name@ == x);
                    } else {
                        assert(fs@[i as int].name@ == x);
                    }
                }
            }
        }
    }
    assert(p.take(n as int) =~= p);
    r
}

/// The checks of the API checksums.
fn checks(cs: &Vec<(String, u16)>) -> (r: String)
    ensures
        r@ == checks_text(cs@),
{
    let ghost p = Seq::new(cs@.len(), |i: int| checksum_check_spec(cs@[i].0@, unsigned_decimal(cs@[i].1 as nat)));
    let mut r = String::new();
    let n = cs.len();
    assert(p.take(0) =~= Seq::<Seq<char>>::empty());
    for i in 0..n
        invariant
            n == cs@.len(),
            p == Seq::new(cs@.len(), |i: int| checksum_check_spec(cs@[i].0@, unsigned_decimal(cs@[i].1 as nat))),
            r@ == concat_all(p.take(i as int)),
    {
        proof {
            lemma_concat_all_step(p, i as int);
        }
        let v = u64_decimal(cs[i].1 as u64);
        let x = checksum_check(cs[i].0.as_str(), v.as_str());
        r.append(x.as_str());
    }
    assert(p.take(n as int) =~= p);
    r
}

/// Generates Dart bindings for an interface with a configuration.
pub struct DartWrapper<'a> {
    pub config: &'a Config,
    pub ci: &'a ComponentInterface,
}

impl<'a> DartWrapper<'a> {
    /// A generator for the interface with the configuration.
    pub fn new(ci: &'a ComponentInterface, config: &'a Config) -> (r: Self)
        ensures
            *r.ci == *ci,
            *r.config == *config,
    {
        DartWrapper { config, ci }
    }

    /// The generated library.
    pub fn generate(&self) -> (r: String)
        requires
            renderable(*self.ci, Map::empty(), Set::empty()),
        ensures
            r@ == library_text(*self.ci, *self.config),
    {
        let package_name = self.config.package_name();
        let mut reg = TypeHelpersRenderer::new();
        let (code, functions) = render(self.ci, &mut reg);
        let asset = self.config.asset_id();
        let defs = native_defs(&self.ci.ffi_functions);
        let version = u64_decimal(self.ci.uniffi_contract_version as u64);
        let checks = checks(&self.ci.checksums);
        wrapper(
            package_name.as_str(),
            code.as_str(),
            asset.as_str(),
            functions.as_str(),
            defs.as_str(),
            version.as_str(),
            self.ci.ffi_contract_version_fn.as_str(),
            checks.as_str(),
        )
    }

    /// The generated library, when the interface can be rendered; `None`
    /// when it cannot.
    pub fn generate_checked(&self) -> (r: Option<String>)
        ensures
            r is Some <==> renderable(*self.ci, Map::empty(), Set::empty()),
            r matches Some(s) ==> s@ == library_text(*self.ci, *self.config),
    {
        if is_renderable(self.ci) {
            Some(self.generate())
        } else {
            None
        }
    }
}

/// Every low-level function is declared exactly once: each name has one
/// declaring occurrence, the first, and no two declaring occurrences share a
/// name.
pub proof fn native_functions_declared_once(fs: Seq<FfiFunction>, i: int)
    requires
        0 <= i < fs.len(),
    ensures
        exists|j: int| 0 <= j <= i && first_of_name(fs, j) && #[trigger] fs[j].name@ == fs[i].name@,
        forall|j1: int, j2: int|
            0 <= j1 < fs.len() && 0 <= j2 < fs.len() && j1 != j2 && first_of_name(fs, j1) && first_of_name(fs, j2)
                ==> #[trigger] fs[j1].name@ != #[trigger] fs[j2].name@,
    decreases i,
{
    if !first_of_name(fs, i) {
        let j = choose|j: int| 0 <= j < i && (#[trigger] fs[j]).name@ == fs[i].name@;
        native_functions_declared_once(fs, j);
        let k = choose|k: int| 0 <= k <= j && first_of_name(fs, k) && #[trigger] fs[k].name@ == fs[j].name@;
        assert(0 <= k <= i && first_of_name(fs, k) && fs[k].name@ == fs[i].name@);
    } else {
        assert(fs[i].name@ == fs[i].name@);
    }
    assert forall|j1: int, j2: int|
        0 <= j1 < fs.len() && 0 <= j2 < fs.len() && j1 != j2 && first_of_name(fs, j1) && first_of_name(fs, j2)
            implies #[trigger] fs[j1].name@ != #[trigger] fs[j2].name@ by {
        if j1 < j2 {
            assert(fs[j1].name@ != fs[j2].name@);
        } else {
            assert(fs[j2].name@ != fs[j1].name@);
        }
    }
}

} // verus!
