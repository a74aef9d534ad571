# uniffi_dart

Dart bindings for UniFFI component interfaces, written in Verus.

The library (`src/`) works on a plain model of a component interface
(`gen::interface`) and decides every part of the generated Dart source: the
names of classes, functions and converters, the helper of each type used,
the definitions of records, enums, objects and callback interfaces, and the
declarations of the native functions. Each public function states in its
contract the exact text it produces, and the laws that hold across calls are
proved as public proof functions, among them:

- the type-helper registry remembers every registration and lists its names
  in name order, each once (`gen::registry`);
- every type that a rendered helper refers to has a helper of its own
  (`gen::render::lemma_snapshot_closed`);
- an object lists each implemented interface once, and emits one helper per
  kind of exported trait (`gen::objects`);
- each native function is declared once (`gen::wrapper`);
- each asynchronous result struct and completion signature is defined in
  at most one interface's source (`gen::callback_interface`).

An object whose name contains `StreamExt` gets, after its class, an
extension that turns it into a Dart `Stream`.

`src/testing.rs` holds the options of a test run and the files a Dart test
package is set up with; `src/stream_export.rs` the arguments and names of an
exported stream function; `src/fixtures/` the logic of the example crates.

`app/` is the ordinary Rust around the library: the `BindingGenerator` that
UniFFI drives (reading an interface into the model, writing files, running
`dart format`), the runner of the Dart tests, and the waiting and timing of
the example crates.
