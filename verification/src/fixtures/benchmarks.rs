//! An example crate whose calls measure the cost of crossing the interface.
use vstd::prelude::*;

verus! {

/// The data handed across in each call.
#[derive(Debug)]
pub struct TestData {
    pub foo: String,
    pub bar: String,
}

/// The kinds of call that are measured.
#[derive(Clone, Copy, Debug, PartialEq, Eq, Structural)]
pub enum TestCase {
    Function,
    VoidReturn,
    NoArgsVoidReturn,
}

/// The calls that foreign code answers when measured from Rust.
pub trait TestCallbackInterface {
    fn method(&self, a: i32, b: i32, data: TestData) -> String;

    fn method_with_void_return(&self, a: i32, b: i32, data: TestData);

    fn method_with_no_args_and_void_return(&self);

    fn run_test(&self, test_case: TestCase, count: u64) -> u64;
}

/// Returns the second string of the data.
pub fn test_function(_a: i32, _b: i32, data: TestData) -> (r: String)
    ensures
        r@ == data.bar@,
{
    data.bar
}

/// Does nothing with its arguments.
pub fn test_void_return(_a: i32, _b: i32, _data: TestData) {
}

/// Does nothing.
pub fn test_no_args_void_return() {
}

} // verus!
