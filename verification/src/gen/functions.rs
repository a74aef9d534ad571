//! Dart functions generated for the interface's functions, and the pieces
//! shared with methods: parameter lists, lowered arguments, lifters and
//! error handlers.
use vstd::prelude::*;
use crate::gen::interface::{Argument, Callable};
use crate::gen::naming::{class_name, class_name_spec, fn_name, lower_camel_case, member_name_spec, to_lower_camel, var_name};
use crate::gen::text::{concat2, concat3, concat_all, lemma_concat_all_step, contains_spec, lemma_contains_extend, lemma_contains_mid};
use crate::gen::types::{ffi_converter_name, ffi_converter_name_spec, type_label, type_label_spec, Type};

verus! {

/// A call that returns a future.
pub open spec fn async_call_spec(ret: Seq<char>, name: Seq<char>, args: Seq<char>, callee: Seq<char>, lowered: Seq<char>, poll: Seq<char>, complete: Seq<char>, free: Seq<char>, lifter: Seq<char>, handler: Seq<char>) -> Seq<char> {
    "  Future<"@ +
    ret +
    "> "@ +
    name +
    "("@ +
    args +
    ") {\n    return uniffiRustCallAsync(\n      () => "@ +
    callee +
    "(\n        "@ +
    lowered +
    "\n      ),\n      (future, callback, continuation) => _UniffiLib.instance."@ +
    poll +
    "(future, callback, continuation),\n      (future, status) => _UniffiLib.instance."@ +
    complete +
    "(future, status),\n      (future) => _UniffiLib.instance."@ +
    free +
    "(future),\n      "@ +
    lifter +
    ",\n      "@ +
    handler +
    ",\n    );\n  }\n"@
}

pub(crate) fn async_call(ret: &str, name: &str, args: &str, callee: &str, lowered: &str, poll: &str, complete: &str, free: &str, lifter: &str, handler: &str) -> (s: String)
    ensures
        s@ == async_call_spec(ret@, name@, args@, callee@, lowered@, poll@, complete@, free@, lifter@, handler@),
{
    let mut s = String::from_str("  Future<");
    s.append(ret);
    s.append("> ");
    s.append(name);
    s.append("(");
    s.append(args);
    s.append(") {\n    return uniffiRustCallAsync(\n      () => ");
    s.append(callee);
    s.append("(\n        ");
    s.append(lowered);
    s.append("\n      ),\n      (future, callback, continuation) => _UniffiLib.instance.");
    s.append(poll);
    s.append("(future, callback, continuation),\n      (future, status) => _UniffiLib.instance.");
    s.append(complete);
    s.append("(future, status),\n      (future) => _UniffiLib.instance.");
    s.append(free);
    s.append("(future),\n      ");
    s.append(lifter);
    s.append(",\n      ");
    s.append(handler);
    s.append(",\n    );\n  }\n");
    s
}

/// A call that returns nothing.
pub open spec fn void_call_spec(name: Seq<char>, args: Seq<char>, callee: Seq<char>, lowered: Seq<char>, handler: Seq<char>) -> Seq<char> {
    "  void "@ +
    name +
    "("@ +
    args +
    ") {\n    return rustCall((status) {\n      "@ +
    callee +
    "(\n        "@ +
    lowered +
    "status\n      );\n    }, "@ +
    handler +
    ");\n  }\n"@
}

pub(crate) fn void_call(name: &str, args: &str, callee: &str, lowered: &str, handler: &str) -> (s: String)
    ensures
        s@ == void_call_spec(name@, args@, callee@, lowered@, handler@),
{
    let mut s = String::from_str("  void ");
    s.append(name);
    s.append("(");
    s.append(args);
    s.append(") {\n    return rustCall((status) {\n      ");
    s.append(callee);
    s.append("(\n        ");
    s.append(lowered);
    s.append("status\n      );\n    }, ");
    s.append(handler);
    s.append(");\n  }\n");
    s
}

/// A call whose result is lifted once the call status is checked.
pub open spec fn lifted_call_spec(ret: Seq<char>, name: Seq<char>, args: Seq<char>, callee: Seq<char>, lowered: Seq<char>, lifter: Seq<char>, handler: Seq<char>) -> Seq<char> {
    "  "@ +
    ret +
    " "@ +
    name +
    "("@ +
    args +
    ") {\n    return rustCallWithLifter(\n      (status) => "@ +
    callee +
    "(\n        "@ +
    lowered +
    "status\n      ),\n      "@ +
    lifter +
    ",\n      "@ +
    handler +
    "\n    );\n  }\n"@
}

fn lifted_call(ret: &str, name: &str, args: &str, callee: &str, lowered: &str, lifter: &str, handler: &str) -> (s: String)
    ensures
        s@ == lifted_call_spec(ret@, name@, args@, callee@, lowered@, lifter@, handler@),
{
    let mut s = String::from_str("  ");
    s.append(ret);
    s.append(" ");
    s.append(name);
    s.append("(");
    s.append(args);
    s.append(") {\n    return rustCallWithLifter(\n      (status) => ");
    s.append(callee);
    s.append("(\n        ");
    s.append(lowered);
    s.append("status\n      ),\n      ");
    s.append(lifter);
    s.append(",\n      ");
    s.append(handler);
    s.append("\n    );\n  }\n");
    s
}

/// A method call whose result is lifted inside the call.
pub open spec fn method_value_call_spec(ret: Seq<char>, name: Seq<char>, args: Seq<char>, callee: Seq<char>, lowered: Seq<char>, lifter: Seq<char>, handler: Seq<char>) -> Seq<char> {
    "  "@ +
    ret +
    " "@ +
    name +
    "("@ +
    args +
    ") {\n    return rustCall((status) => "@ +
    lifter +
    "("@ +
    callee +
    "(\n      "@ +
    lowered +
    "status\n    )), "@ +
    handler +
    ");\n  }\n"@
}

pub(crate) fn method_value_call(ret: &str, name: &str, args: &str, callee: &str, lowered: &str, lifter: &str, handler: &str) -> (s: String)
    ensures
        s@ == method_value_call_spec(ret@, name@, args@, callee@, lowered@, lifter@, handler@),
{
    let mut s = String::from_str("  ");
    s.append(ret);
    s.append(" ");
    s.append(name);
    s.append("(");
    s.append(args);
    s.append(") {\n    return rustCall((status) => ");
    s.append(lifter);
    s.append("(");
    s.append(callee);
    s.append("(\n      ");
    s.append(lowered);
    s.append("status\n    )), ");
    s.append(handler);
    s.append(");\n  }\n");
    s
}

/// A parameter declaration: type and name.
pub open spec fn arg_decl_piece(a: Argument) -> Seq<char> {
    type_label_spec(a.ty) + " "@ + member_name_spec(a.name@) + ", "@
}

/// An argument lowered by its converter.
pub open spec fn arg_lower_piece(a: Argument) -> Seq<char> {
    ffi_converter_name_spec(a.ty) + ".lower("@ + member_name_spec(a.name@) + "), "@
}

/// The pieces `piece(a)` of all arguments in order.
pub open spec fn arg_pieces(args: Seq<Argument>, piece: spec_fn(Argument) -> Seq<char>) -> Seq<Seq<char>> {
    Seq::new(args.len(), |i: int| piece(args[i]))
}

/// The parameter list of a callable.
pub open spec fn args_decl_spec(args: Seq<Argument>) -> Seq<char> {
    concat_all(arg_pieces(args, |a: Argument| arg_decl_piece(a)))
}

/// The lowered arguments of a call.
pub open spec fn args_lower_spec(args: Seq<Argument>) -> Seq<char> {
    concat_all(arg_pieces(args, |a: Argument| arg_lower_piece(a)))
}

/// The name of a named type; `UnknownError` for the others.
pub open spec fn type_name_or_unknown(t: Type) -> Seq<char> {
    match t {
        Type::Object { name, .. } => name@,
        Type::Record { name } => name@,
        Type::Enum { name } => name@,
        Type::CallbackInterface { name } => name@,
        Type::Custom { name, .. } => name@,
        _ => "UnknownError"@,
    }
}

/// The error handler a call passes: the handler of the thrown type, or
/// `null`.
pub open spec fn error_handler_name_spec(throws: Option<Type>) -> Seq<char> {
    match throws {
        Some(t) => lower_camel_case(class_name_spec(type_name_or_unknown(t))) + "ErrorHandler"@,
        None => "null"@,
    }
}

/// The Dart return type of a callable.
pub open spec fn return_label_spec(rt: Option<Type>) -> Seq<char> {
    match rt {
        Some(t) => type_label_spec(t),
        None => "void"@,
    }
}

/// The function that lifts a callable's result.
pub open spec fn lifter_spec(rt: Option<Type>) -> Seq<char> {
    match rt {
        Some(t) => ffi_converter_name_spec(t) + ".lift"@,
        None => "(_) {}"@,
    }
}

/// The Dart source of a function.
pub open spec fn function_text(f: Callable) -> Seq<char> {
    let name = member_name_spec(f.name@);
    let args = args_decl_spec(f.arguments@);
    let lowered = args_lower_spec(f.arguments@);
    let handler = error_handler_name_spec(f.throws);
    if f.is_async {
        async_call_spec(
            return_label_spec(f.return_type),
            name,
            args,
            f.ffi_name@,
            lowered,
            f.future_poll@,
            f.future_complete@,
            f.future_free@,
            lifter_spec(f.return_type),
            handler,
        )
    } else if f.return_type is None {
        void_call_spec(name, args, f.ffi_name@, lowered, handler)
    } else {
        lifted_call_spec(return_label_spec(f.return_type), name, args, f.ffi_name@, lowered, lifter_spec(f.return_type), handler)
    }
}

/// The parameter list of a callable.
pub fn args_decl(args: &Vec<Argument>) -> (r: String)
    ensures
        r@ == args_decl_spec(args@),
{
    let ghost p = arg_pieces(args@, |a: Argument| arg_decl_piece(a));
    let mut r = String::new();
    let n = args.len();
    assert(p.take(0) =~= Seq::<Seq<char>>::empty());
    for i in 0..n
        invariant
            n == args@.len(),
            p == arg_pieces(args@, |a: Argument| arg_decl_piece(a)),
            r@ == concat_all(p.take(i as int)),
    {
        proof {
            lemma_concat_all_step(p, i as int);
        }
        let t = type_label(&args[i].ty);
        let v = var_name(args[i].name.as_str());
        let x = concat3(t.as_str(), " ", v.as_str());
        r.append(x.as_str());
        r.append(", ");
    }
    assert(p.take(n as int) =~= p);
    r
}

/// The lowered arguments of a call.
pub fn args_lower(args: &Vec<Argument>) -> (r: String)
    ensures
        r@ == args_lower_spec(args@),
{
    let ghost p = arg_pieces(args@, |a: Argument| arg_lower_piece(a));
    let mut r = String::new();
    let n = args.len();
    assert(p.take(0) =~= Seq::<Seq<char>>::empty());
    for i in 0..n
        invariant
            n == args@.len(),
            p == arg_pieces(args@, |a: Argument| arg_lower_piece(a)),
            r@ == concat_all(p.take(i as int)),
    {
        proof {
            lemma_concat_all_step(p, i as int);
        }
        let c = ffi_converter_name(&args[i].ty);
        let v = var_name(args[i].name.as_str());
        let x = concat3(c.as_str(), ".lower(", v.as_str());
        r.append(x.as_str());
        r.append("), ");
    }
    assert(p.take(n as int) =~= p);
    r
}

/// The error handler a call passes.
pub fn error_handler_name(throws: &Option<Type>) -> (r: String)
    ensures
        r@ == error_handler_name_spec(*throws),
{
    match throws {
        Some(t) => {
            let n = match t {
                Type::Object { name, .. } => name.as_str(),
                Type::Record { name } => name.as_str(),
                Type::Enum { name } => name.as_str(),
                Type::CallbackInterface { name } => name.as_str(),
                Type::Custom { name, .. } => name.as_str(),
                _ => "UnknownError",
            };
            let c = class_name(n);
            let l = to_lower_camel(c.as_str());
            concat2(l.as_str(), "ErrorHandler")
        },
        None => String::from_str("null"),
    }
}

/// The Dart return type of a callable.
pub fn return_label(rt: &Option<Type>) -> (r: String)
    ensures
        r@ == return_label_spec(*rt),
{
    match rt {
        Some(t) => type_label(t),
        None => String::from_str("void"),
    }
}

/// The function that lifts a callable's result.
pub fn lifter(rt: &Option<Type>) -> (r: String)
    ensures
        r@ == lifter_spec(*rt),
{
    match rt {
        Some(t) => {
            let c = ffi_converter_name(t);
            concat2(c.as_str(), ".lift")
        },
        None => String::from_str("(_) {}"),
    }
}

/// Generates the Dart source of a function.
pub fn generate_function(f: &Callable) -> (r: String)
    ensures
        r@ == function_text(*f),
{
    let name = fn_name(f.name.as_str());
    let args = args_decl(&f.arguments);
    let lowered = args_lower(&f.arguments);
    let handler = error_handler_name(&f.throws);
    if f.is_async {
        let ret = return_label(&f.return_type);
        let lift = lifter(&f.return_type);
        async_call(
            ret.as_str(),
            name.as_str(),
            args.as_str(),
            f.ffi_name.as_str(),
            lowered.as_str(),
            f.future_poll.as_str(),
            f.future_complete.as_str(),
            f.future_free.as_str(),
            lift.as_str(),
            handler.as_str(),
        )
    } else if f.return_type.is_none() {
        void_call(name.as_str(), args.as_str(), f.ffi_name.as_str(), lowered.as_str(), handler.as_str())
    } else {
        let ret = return_label(&f.return_type);
        let lift = lifter(&f.return_type);
        lifted_call(
            ret.as_str(),
            name.as_str(),
            args.as_str(),
            f.ffi_name.as_str(),
            lowered.as_str(),
            lift.as_str(),
            handler.as_str(),
        )
    }
}


/// An asynchronous function's future is driven by its own low-level
/// functions, each in its own role: `future_poll` polls it, `future_complete`
/// completes it and gives the result, and `future_free` frees it.
pub proof fn async_function_drives_its_future(f: Callable)
    requires
        f.is_async,
    ensures
        contains_spec(
            function_text(f),
            "(future, callback, continuation) => _UniffiLib.instance."@ + f.future_poll@
                + "(future, callback, continuation)"@,
        ),
        contains_spec(
            function_text(f),
            "(future, status) => _UniffiLib.instance."@ + f.future_complete@ + "(future, status)"@,
        ),
        contains_spec(function_text(f), "(future) => _UniffiLib.instance."@ + f.future_free@ + "(future)"@),
{
    lemma_async_calls(
        return_label_spec(f.return_type),
        member_name_spec(f.name@),
        args_decl_spec(f.arguments@),
        f.ffi_name@,
        args_lower_spec(f.arguments@),
        f.future_poll@,
        f.future_complete@,
        f.future_free@,
        lifter_spec(f.return_type),
        error_handler_name_spec(f.throws),
    );
}

/// An asynchronous call drives its future with the functions it is given,
/// each in its own role.
pub proof fn lemma_async_calls(ret: Seq<char>, name: Seq<char>, args: Seq<char>, callee: Seq<char>, lowered: Seq<char>, poll: Seq<char>, complete: Seq<char>, free: Seq<char>, lifter: Seq<char>, handler: Seq<char>)
    ensures
        contains_spec(
            async_call_spec(ret, name, args, callee, lowered, poll, complete, free, lifter, handler),
            "(future, callback, continuation) => _UniffiLib.instance."@ + poll + "(future, callback, continuation)"@,
        ),
        contains_spec(async_call_spec(ret, name, args, callee, lowered, poll, complete, free, lifter, handler), "(future, status) => _UniffiLib.instance."@ + complete + "(future, status)"@),
        contains_spec(async_call_spec(ret, name, args, callee, lowered, poll, complete, free, lifter, handler), "(future) => _UniffiLib.instance."@ + free + "(future)"@),
{
    lemma_async_poll_call(ret, name, args, callee, lowered, poll, complete, free, lifter, handler);
    lemma_async_complete_call(ret, name, args, callee, lowered, poll, complete, free, lifter, handler);
    lemma_async_free_call(ret, name, args, callee, lowered, poll, complete, free, lifter, handler);
}

proof fn lemma_async_poll_call(ret: Seq<char>, name: Seq<char>, args: Seq<char>, callee: Seq<char>, lowered: Seq<char>, poll: Seq<char>, complete: Seq<char>, free: Seq<char>, lifter: Seq<char>, handler: Seq<char>)
    ensures
        contains_spec(
            async_call_spec(ret, name, args, callee, lowered, poll, complete, free, lifter, handler),
            "(future, callback, continuation) => _UniffiLib.instance."@ + poll
                + "(future, callback, continuation)"@,
        ),
{
    broadcast use lemma_contains_extend;
    let lb = "\n      ),\n      (future, callback, continuation) => _UniffiLib.instance."@;
    let la = "(future, callback, continuation),\n      (future, status) => _UniffiLib.instance."@;
    let v = "(future, callback, continuation) => _UniffiLib.instance."@;
    let w = "(future, callback, continuation)"@;
    reveal_strlit("\n      ),\n      (future, callback, continuation) => _UniffiLib.instance.");
    reveal_strlit("(future, callback, continuation),\n      (future, status) => _UniffiLib.instance.");
    reveal_strlit("(future, callback, continuation) => _UniffiLib.instance.");
    reveal_strlit("(future, callback, continuation)");
    reveal_strlit("\n      ),\n      ");
    reveal_strlit(",\n      (future, status) => _UniffiLib.instance.");
    let p = v + poll + w;
    assert forall|a: Seq<char>| #[trigger] contains_spec(a + lb + poll + la, p) by {
        assert(lb =~= "\n      ),\n      "@ + v);
        assert(la =~= w + ",\n      (future, status) => _UniffiLib.instance."@);
        assert(a + lb + poll + la =~= (a + "\n      ),\n      "@) + p
            + ",\n      (future, status) => _UniffiLib.instance."@);
        lemma_contains_mid(a + "\n      ),\n      "@, p, ",\n      (future, status) => _UniffiLib.instance."@);
    }
    assert(contains_spec(async_call_spec(ret, name, args, callee, lowered, poll, complete, free, lifter, handler), p));
}

proof fn lemma_async_complete_call(ret: Seq<char>, name: Seq<char>, args: Seq<char>, callee: Seq<char>, lowered: Seq<char>, poll: Seq<char>, complete: Seq<char>, free: Seq<char>, lifter: Seq<char>, handler: Seq<char>)
    ensures
        contains_spec(
            async_call_spec(ret, name, args, callee, lowered, poll, complete, free, lifter, handler),
            "(future, status) => _UniffiLib.instance."@ + complete + "(future, status)"@,
        ),
{
    broadcast use lemma_contains_extend;
    let lb = "(future, callback, continuation),\n      (future, status) => _UniffiLib.instance."@;
    let la = "(future, status),\n      (future) => _UniffiLib.instance."@;
    let u = "(future, callback, continuation),\n      "@;
    let v = "(future, status) => _UniffiLib.instance."@;
    let w = "(future, status)"@;
    let x = ",\n      (future) => _UniffiLib.instance."@;
    reveal_strlit("(future, callback, continuation),\n      (future, status) => _UniffiLib.instance.");
    reveal_strlit("(future, status),\n      (future) => _UniffiLib.instance.");
    reveal_strlit("(future, callback, continuation),\n      ");
    reveal_strlit("(future, status) => _UniffiLib.instance.");
    reveal_strlit("(future, status)");
    reveal_strlit(",\n      (future) => _UniffiLib.instance.");
    let p = v + complete + w;
    assert forall|a: Seq<char>| #[trigger] contains_spec(a + lb + complete + la, p) by {
        assert(lb =~= u + v);
        assert(la =~= w + x);
        assert(a + lb + complete + la =~= (a + u) + p + x);
        lemma_contains_mid(a + u, p, x);
    }
    assert(contains_spec(async_call_spec(ret, name, args, callee, lowered, poll, complete, free, lifter, handler), p));
}

proof fn lemma_async_free_call(ret: Seq<char>, name: Seq<char>, args: Seq<char>, callee: Seq<char>, lowered: Seq<char>, poll: Seq<char>, complete: Seq<char>, free: Seq<char>, lifter: Seq<char>, handler: Seq<char>)
    ensures
        contains_spec(async_call_spec(ret, name, args, callee, lowered, poll, complete, free, lifter, handler), "(future) => _UniffiLib.instance."@ + free + "(future)"@),
{
    broadcast use lemma_contains_extend;
    let lb = "(future, status),\n      (future) => _UniffiLib.instance."@;
    let la = "(future),\n      "@;
    let u = "(future, status),\n      "@;
    let v = "(future) => _UniffiLib.instance."@;
    let w = "(future)"@;
    let x = ",\n      "@;
    reveal_strlit("(future, status),\n      (future) => _UniffiLib.instance.");
    reveal_strlit("(future),\n      ");
    reveal_strlit("(future, status),\n      ");
    reveal_strlit("(future) => _UniffiLib.instance.");
    reveal_strlit("(future)");
    reveal_strlit(",\n      ");
    let p = v + free + w;
    assert forall|a: Seq<char>| #[trigger] contains_spec(a + lb + free + la, p) by {
        assert(lb =~= u + v);
        assert(la =~= w + x);
        assert(a + lb + free + la =~= (a + u) + p + x);
        lemma_contains_mid(a + u, p, x);
    }
    assert(contains_spec(async_call_spec(ret, name, args, callee, lowered, poll, complete, free, lifter, handler), p));
}

} // verus!
