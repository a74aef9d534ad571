//! An example crate with a type carried as its builtin representation.
use vstd::prelude::*;

verus! {

/// Bytes of JSON, carried across as a byte sequence.
#[derive(Debug, PartialEq, Eq)]
pub struct JsonBuffer(pub Vec<u8>);

/// One trace entry.
#[derive(Debug)]
pub struct ZenEngineTrace {
    pub id: String,
    pub value: JsonBuffer,
}

/// A response with an optional trace, keyed by name; `trace_names_unique`
/// says when each name occurs once.
#[derive(Debug)]
pub struct ZenEngineResponse {
    pub performance: String,
    pub result: JsonBuffer,
    pub trace: Option<Vec<(String, ZenEngineTrace)>>,
}

impl ZenEngineResponse {
    /// Each name of the trace occurs once, as the keys of a map do.
    pub open spec fn trace_names_unique(&self) -> bool {
        match self.trace {
            Some(t) => forall|i: int, j: int|
                0 <= i < j < t@.len() ==> (#[trigger] t@[i]).0@ != (#[trigger] t@[j]).0@,
            None => true,
        }
    }
}

/// The response with one trace entry, `primary`.
pub fn get_zen_engine_response() -> (r: ZenEngineResponse)
    ensures
        r.performance@ == "ready"@,
        r.result.0@ == seq![1u8, 2u8, 3u8],
        r.trace matches Some(t) && t@.len() == 1 && t@[0].0@ == "primary"@ && t@[0].1.id@
            == "primary"@ && t@[0].1.value.0@ == seq![4u8, 5u8, 6u8],
        r.trace_names_unique(),
{
    let mut t: Vec<(String, ZenEngineTrace)> = Vec::new();
    t.push(
        (
            String::from_str("primary"),
            ZenEngineTrace { id: String::from_str("primary"), value: JsonBuffer(vec![4u8, 5u8, 6u8]) },
        ),
    );
    let r = ZenEngineResponse {
        performance: String::from_str("ready"),
        result: JsonBuffer(vec![1u8, 2u8, 3u8]),
        trace: Some(t),
    };
    assert(r.result.0@ =~= seq![1u8, 2u8, 3u8]);
    r
}

/// The response handed in; its trace names stay as unique as they were.
pub fn return_zen_engine_response(response: ZenEngineResponse) -> (r: ZenEngineResponse)
    ensures
        r == response,
        r.trace_names_unique() == response.trace_names_unique(),
{
    response
}

} // verus!
