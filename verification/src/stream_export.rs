//! Exporting a stream function: reading the arguments of the export
//! attribute, and the names of the object and the constructor function that
//! the export adds.
use vstd::prelude::*;
use crate::gen::text::concat2;

verus! {

/// What `stringcase::pascal_case` returns for a string.
pub uninterp spec fn pascal_case_of(s: Seq<char>) -> Seq<char>;

/// Calls `stringcase::pascal_case`. Its result depends on the string alone
/// and is named `pascal_case_of`; the case conversion is not written out.
#[verifier::external_body]
fn to_pascal_case(s: &str) -> (r: String)
    ensures
        r@ == pascal_case_of(s@),
{
    stringcase::pascal_case(s)
}

/// A token of the export attribute's arguments after the item type.
#[derive(Debug)]
pub enum AttrToken {
    Comma,
    Eq,
    Ident(String),
    Str(String),
    /// Any other token.
    Other,
}

/// Why the export attribute's arguments were refused.
#[derive(Clone, Copy, Debug, PartialEq, Eq, Structural)]
pub enum StreamAttrError {
    /// An argument name other than `runtime`.
    ExpectedRuntime,
    /// `runtime` given twice.
    DuplicateRuntime,
    /// No name after a comma.
    ExpectedIdent,
    /// No `=` after `runtime`.
    ExpectedEq,
    /// No string after `runtime =`.
    ExpectedString,
    /// Something other than a comma after the item type or an argument.
    UnexpectedToken,
}

/// The runtime the arguments name, given the one named before them: the
/// arguments are comma-separated `runtime = "..."` pairs, each after a comma,
/// with an optional trailing comma, and `runtime` at most once.
pub open spec fn parse_runtime_spec(ts: Seq<AttrToken>, rt: Option<Seq<char>>) -> Result<Option<Seq<char>>, StreamAttrError>
    decreases ts.len(),
{
    if ts.len() == 0 {
        Ok(rt)
    } else if !(ts[0] is Comma) {
        Err(StreamAttrError::UnexpectedToken)
    } else if ts.len() == 1 {
        Ok(rt)
    } else {
        match ts[1] {
            AttrToken::Ident(id) => if id@ != "runtime"@ {
                Err(StreamAttrError::ExpectedRuntime)
            } else if ts.len() < 3 || !(ts[2] is Eq) {
                Err(StreamAttrError::ExpectedEq)
            } else if rt is Some {
                Err(StreamAttrError::DuplicateRuntime)
            } else {
                match if ts.len() < 4 { AttrToken::Other } else { ts[3] } {
                    AttrToken::Str(s) => parse_runtime_spec(ts.skip(4), Some(s@)),
                    _ => Err(StreamAttrError::ExpectedString),
                }
            },
            _ => Err(StreamAttrError::ExpectedIdent),
        }
    }
}

/// The view of an optional string.
pub open spec fn opt_view(o: Option<String>) -> Option<Seq<char>> {
    match o {
        Some(s) => Some(s@),
        None => None,
    }
}

/// Reads the export attribute's arguments after the item type: the runtime
/// they name, if any.
pub fn parse_stream_runtime(ts: &Vec<AttrToken>) -> (r: Result<Option<String>, StreamAttrError>)
    ensures
        match parse_runtime_spec(ts@, None) {
            Ok(o) => r matches Ok(x) && opt_view(x) == o,
            Err(e) => r == Err::<Option<String>, StreamAttrError>(e),
        },
{
    let n = ts.len();
    let mut i: usize = 0;
    let mut rt: Option<String> = None;
    assert(ts@.skip(0) =~= ts@);
    while i < n
        invariant
            n == ts@.len(),
            i <= n,
            parse_runtime_spec(ts@, None) == parse_runtime_spec(ts@.skip(i as int), opt_view(rt)),
        decreases n - i,
    {
        let ghost rest = ts@.skip(i as int);
        assert(rest.len() == n - i);
        assert(rest[0] == ts@[i as int]);
        match &ts[i] {
            AttrToken::Comma => {},
            _ => return Err(StreamAttrError::UnexpectedToken),
        }
        if i + 1 == n {
            return Ok(rt);
        }
        assert(rest[1] == ts@[i + 1]);
        match &ts[i + 1] {
            AttrToken::Ident(id) => {
                if *id != String::from_str("runtime") {
                    return Err(StreamAttrError::ExpectedRuntime);
                }
            },
            _ => return Err(StreamAttrError::ExpectedIdent),
        }
        if i + 2 == n {
            return Err(StreamAttrError::ExpectedEq);
        }
        assert(rest[2] == ts@[i + 2]);
        match &ts[i + 2] {
            AttrToken::Eq => {},
            _ => return Err(StreamAttrError::ExpectedEq),
        }
        if rt.is_some() {
            return Err(StreamAttrError::DuplicateRuntime);
        }
        if i + 3 == n {
            return Err(StreamAttrError::ExpectedString);
        }
        assert(rest[3] == ts@[i + 3]);
        match &ts[i + 3] {
            AttrToken::Str(s) => {
                rt = Some(s.clone());
            },
            _ => return Err(StreamAttrError::ExpectedString),
        }
        assert(rest.skip(4) =~= ts@.skip(i + 4));
        i = i + 4;
    }
    assert(ts@.skip(i as int).len() == 0);
    Ok(rt)
}

/// The names an exported stream function adds: the object that holds the
/// stream, the function that creates it, and the runtime its methods run on.
#[derive(Debug)]
pub struct StreamNames {
    pub struct_name: String,
    pub create_fn_name: String,
    pub runtime: String,
}

/// The names of an exported stream function `fn_name`, whose name in Pascal
/// case is `pascal_name`: the object is that name and `StreamExt`, the
/// function `create_stream_` and the function's name, and the runtime the
/// one named, else `tokio`.
pub fn stream_names_from(pascal_name: &str, fn_name: &str, runtime: Option<String>) -> (r: StreamNames)
    ensures
        r.struct_name@ == pascal_name@ + "StreamExt"@,
        r.create_fn_name@ == "create_stream_"@ + fn_name@,
        r.runtime@ == (match runtime {
            Some(s) => s@,
            None => "tokio"@,
        }),
{
    StreamNames {
        struct_name: concat2(pascal_name, "StreamExt"),
        create_fn_name: concat2("create_stream_", fn_name),
        runtime: match runtime {
            Some(s) => s,
            None => String::from_str("tokio"),
        },
    }
}

/// The names of an exported stream function `fn_name`.
pub fn stream_names(fn_name: &str, runtime: Option<String>) -> (r: StreamNames)
    ensures
        r.struct_name@ == pascal_case_of(fn_name@) + "StreamExt"@,
        r.create_fn_name@ == "create_stream_"@ + fn_name@,
        r.runtime@ == (match runtime {
            Some(s) => s@,
            None => "tokio"@,
        }),
{
    let pascal = to_pascal_case(fn_name);
    stream_names_from(pascal.as_str(), fn_name, runtime)
}

} // verus!
