//! An example crate with an error enum of many variants.
use vstd::prelude::*;
use crate::gen::text::{concat2, concat3, u64_decimal, unsigned_decimal};

verus! {

/// The data some errors carry.
#[derive(Debug)]
pub struct ErrorPayload {
    pub is_important: bool,
    pub index: u64,
    pub message: String,
}

/// `true` or `false`.
pub open spec fn bool_text(b: bool) -> Seq<char> {
    if b {
        "true"@
    } else {
        "false"@
    }
}

/// How a payload displays.
pub open spec fn payload_text(p: ErrorPayload) -> Seq<char> {
    "is_important: "@ + bool_text(p.is_important) + ", index: "@ + unsigned_decimal(p.index as nat)
        + ", message: "@ + p.message@
}

impl Default for ErrorPayload {
    fn default() -> (r: Self)
        ensures
            r.is_important,
            r.index == 42,
            r.message@ == "Very important error payload that greatly helps with debugging"@,
    {
        ErrorPayload {
            is_important: true,
            index: 42,
            message: String::from_str("Very important error payload that greatly helps with debugging"),
        }
    }
}

impl ErrorPayload {
    /// How the payload displays.
    pub fn to_text(&self) -> (r: String)
        ensures
            r@ == payload_text(*self),
    {
        let b = if self.is_important {
            String::from_str("true")
        } else {
            String::from_str("false")
        };
        let head = concat3("is_important: ", b.as_str(), ", index: ");
        let idx = u64_decimal(self.index);
        let mid = concat3(head.as_str(), idx.as_str(), ", message: ");
        concat2(mid.as_str(), self.message.as_str())
    }
}

/// An error with many variants; the values of the variants count up from
/// 10001.
#[derive(Debug)]
pub enum LargeError {
    Case1,
    Case2 { arg1: String },
    Case3 { arg1: String },
    Case4 { arg1: String },
    Case5 { arg1: String },
    Case20 { arg1: u64, arg2: u32 },
    Case21 { arg1: u64, arg2: u32 },
    Case30 { arg1: ErrorPayload },
    Case31 { arg1: ErrorPayload },
    Case40 { arg1: ErrorPayload, arg2: ErrorPayload, arg3: ErrorPayload, arg4: ErrorPayload },
    Case100 { arg1: ErrorPayload, arg2: ErrorPayload, arg3: ErrorPayload, arg4: ErrorPayload },
}

/// The value of each variant.
pub open spec fn large_error_code(e: LargeError) -> u32 {
    match e {
        LargeError::Case1 => 10001,
        LargeError::Case2 { .. } => 10002,
        LargeError::Case3 { .. } => 10003,
        LargeError::Case4 { .. } => 10004,
        LargeError::Case5 { .. } => 10005,
        LargeError::Case20 { .. } => 10006,
        LargeError::Case21 { .. } => 10007,
        LargeError::Case30 { .. } => 10008,
        LargeError::Case31 { .. } => 10009,
        LargeError::Case40 { .. } => 10010,
        LargeError::Case100 { .. } => 10011,
    }
}

/// `, name: 'value'`, as messages show an argument.
pub open spec fn arg_text(name: Seq<char>, value: Seq<char>) -> Seq<char> {
    ", "@ + name + ": '"@ + value + "'"@
}

/// The message of an error, which starts alike for all variants.
pub open spec fn large_error_message(e: LargeError) -> Seq<char> {
    let p = "Important debug description of what went wrong"@;
    match e {
        LargeError::Case1 => p + "."@,
        LargeError::Case2 { arg1 } => p + arg_text("arg"@, arg1@),
        LargeError::Case3 { arg1 } => p + arg_text("arg"@, arg1@),
        LargeError::Case4 { arg1 } => p + arg_text("arg"@, arg1@),
        LargeError::Case5 { arg1 } => p + arg_text("arg"@, arg1@),
        LargeError::Case20 { arg1, arg2 } => p + arg_text("arg1"@, unsigned_decimal(arg1 as nat))
            + arg_text("arg2"@, unsigned_decimal(arg2 as nat)),
        LargeError::Case21 { arg1, arg2 } => p + arg_text("arg1"@, unsigned_decimal(arg1 as nat))
            + arg_text("arg2"@, unsigned_decimal(arg2 as nat)),
        LargeError::Case30 { arg1 } => p + arg_text("arg1"@, payload_text(arg1)),
        LargeError::Case31 { arg1 } => p + arg_text("arg1"@, payload_text(arg1)),
        LargeError::Case40 { arg1, arg2, arg3, arg4 } => four_payloads(p, arg1, arg2, arg3, arg4),
        LargeError::Case100 { arg1, arg2, arg3, arg4 } => four_payloads(p, arg1, arg2, arg3, arg4),
    }
}

/// The message of a variant with four payloads.
pub open spec fn four_payloads(
    p: Seq<char>,
    a1: ErrorPayload,
    a2: ErrorPayload,
    a3: ErrorPayload,
    a4: ErrorPayload,
) -> Seq<char> {
    p + arg_text("arg1"@, payload_text(a1)) + arg_text("arg2"@, payload_text(a2)) + arg_text(
        "arg3"@,
        payload_text(a3),
    ) + arg_text("arg4"@, payload_text(a4))
}

impl LargeError {
    /// The value of the variant.
    pub fn discriminant(&self) -> (r: u32)
        ensures
            r == large_error_code(*self),
    {
        match self {
            LargeError::Case1 => 10001,
            LargeError::Case2 { .. } => 10002,
            LargeError::Case3 { .. } => 10003,
            LargeError::Case4 { .. } => 10004,
            LargeError::Case5 { .. } => 10005,
            LargeError::Case20 { .. } => 10006,
            LargeError::Case21 { .. } => 10007,
            LargeError::Case30 { .. } => 10008,
            LargeError::Case31 { .. } => 10009,
            LargeError::Case40 { .. } => 10010,
            LargeError::Case100 { .. } => 10011,
        }
    }
}

fn quoted_arg(head: &str, name: &str, value: &str) -> (r: String)
    ensures
        r@ == head@ + arg_text(name@, value@),
{
    let a = concat3(head, ", ", name);
    let b = concat3(a.as_str(), ": '", value);
    let r = concat2(b.as_str(), "'");
    assert(r@ =~= head@ + arg_text(name@, value@));
    r
}

fn four_payloads_text(
    p: &str,
    a1: &ErrorPayload,
    a2: &ErrorPayload,
    a3: &ErrorPayload,
    a4: &ErrorPayload,
) -> (r: String)
    ensures
        r@ == four_payloads(p@, *a1, *a2, *a3, *a4),
{
    let t1 = a1.to_text();
    let t2 = a2.to_text();
    let t3 = a3.to_text();
    let t4 = a4.to_text();
    let s = quoted_arg(p, "arg1", t1.as_str());
    let s = quoted_arg(s.as_str(), "arg2", t2.as_str());
    let s = quoted_arg(s.as_str(), "arg3", t3.as_str());
    quoted_arg(s.as_str(), "arg4", t4.as_str())
}

/// The message the error displays.
pub fn error_message_from_error(error: &LargeError) -> (r: String)
    ensures
        r@ == large_error_message(*error),
{
    let p = "Important debug description of what went wrong";
    proof {
        reveal_strlit("Important debug description of what went wrong");
    }
    match error {
        LargeError::Case1 => concat2(p, "."),
        LargeError::Case2 { arg1 } => quoted_arg(p, "arg", arg1.as_str()),
        LargeError::Case3 { arg1 } => quoted_arg(p, "arg", arg1.as_str()),
        LargeError::Case4 { arg1 } => quoted_arg(p, "arg", arg1.as_str()),
        LargeError::Case5 { arg1 } => quoted_arg(p, "arg", arg1.as_str()),
        LargeError::Case20 { arg1, arg2 } | LargeError::Case21 { arg1, arg2 } => {
            let d1 = u64_decimal(*arg1);
            let d2 = u64_decimal(*arg2 as u64);
            let s = quoted_arg(p, "arg1", d1.as_str());
            quoted_arg(s.as_str(), "arg2", d2.as_str())
        },
        LargeError::Case30 { arg1 } | LargeError::Case31 { arg1 } => {
            let t = arg1.to_text();
            quoted_arg(p, "arg1", t.as_str())
        },
        LargeError::Case40 { arg1, arg2, arg3, arg4 } | LargeError::Case100 {
            arg1,
            arg2,
            arg3,
            arg4,
        } => four_payloads_text(p, arg1, arg2, arg3, arg4),
    }
}

/// The value of the error's variant.
pub fn error_code_from_error(error: &LargeError) -> (r: u32)
    ensures
        r == large_error_code(*error),
{
    error.discriminant()
}

/// An error with a description of where it came from.
#[derive(Debug)]
pub struct ErrorWithContext {
    pub error: LargeError,
    pub context: String,
}

} // verus!
