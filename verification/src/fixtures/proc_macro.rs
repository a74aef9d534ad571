//! An example crate exported with attribute macros: records, objects,
//! traits, enums and errors, and the functions that hand them out.
use vstd::prelude::*;
use std::collections::HashMap;

verus! {

broadcast use vstd::std_specs::hash::group_hash_axioms;

/// A record of one integer.
#[derive(Debug, PartialEq, Eq, Structural)]
pub struct One {
    pub inner: i32,
}

/// A record of one string.
#[derive(Debug)]
pub struct Two {
    pub a: String,
}

/// A record of bytes.
#[derive(Debug)]
pub struct RecordWithBytes {
    pub some_bytes: Vec<u8>,
}

/// A record declared in the interface definition file.
#[derive(Debug)]
pub struct Zero {
    pub inner: String,
}

/// Three-valued truth.
#[derive(Clone, Copy, Debug, PartialEq, Eq, Structural)]
pub enum MaybeBool {
    True,
    False,
    Uncertain,
}

/// An enum whose variants carry different data.
#[derive(Debug)]
pub enum MixedEnum {
    Empty,
    String(String),
    Int(i64),
    Both(String, i64),
}

/// The errors of this crate.
#[derive(Debug)]
pub enum BasicError {
    InvalidInput,
    OsError,
    UnexpectedError { reason: String },
}

/// The message each error displays.
pub open spec fn basic_error_message(e: BasicError) -> Seq<char> {
    match e {
        BasicError::InvalidInput => "InvalidInput"@,
        BasicError::OsError => "OsError"@,
        BasicError::UnexpectedError { .. } => "UnexpectedError"@,
    }
}

impl BasicError {
    /// The message the error displays.
    pub fn message(&self) -> (r: String)
        ensures
            r@ == basic_error_message(*self),
    {
        match self {
            BasicError::InvalidInput => String::from_str("InvalidInput"),
            BasicError::OsError => String::from_str("OsError"),
            BasicError::UnexpectedError { .. } => String::from_str("UnexpectedError"),
        }
    }
}

/// A trait implemented in Rust only.
pub trait Trait {
    fn concat_strings(&self, a: &str, b: &str) -> String;
}

/// A trait that foreign code may implement as well.
pub trait TraitWithForeign {
    fn name(&self) -> String;
}

/// The implementation of `Trait` handed out when none is given.
pub struct TraitImpl {}

impl Trait for TraitImpl {
    fn concat_strings(&self, a: &str, b: &str) -> (r: String)
        ensures
            r@ == a@ + b@,
    {
        let mut s = String::from_str(a);
        s.append(b);
        s
    }
}

/// The implementation of `TraitWithForeign` handed out when none is given.
pub struct RustTraitImpl {}

impl TraitWithForeign for RustTraitImpl {
    fn name(&self) -> (r: String)
        ensures
            r@ == "RustTraitImpl"@,
    {
        String::from_str("RustTraitImpl")
    }
}

/// A trait object that was either handed in or made here.
pub enum OrDefault<T, D> {
    Given(T),
    Default(D),
}

impl<T: Trait, D: Trait> Trait for OrDefault<T, D> {
    fn concat_strings(&self, a: &str, b: &str) -> (r: String)
        ensures
            match *self {
                OrDefault::Given(t) => call_ensures(T::concat_strings, (&t, a, b), r),
                OrDefault::Default(d) => call_ensures(D::concat_strings, (&d, a, b), r),
            },
    {
        match self {
            OrDefault::Given(t) => t.concat_strings(a, b),
            OrDefault::Default(d) => d.concat_strings(a, b),
        }
    }
}

impl<T: TraitWithForeign, D: TraitWithForeign> TraitWithForeign for OrDefault<T, D> {
    fn name(&self) -> (r: String)
        ensures
            match *self {
                OrDefault::Given(t) => call_ensures(T::name, (&t,), r),
                OrDefault::Default(d) => call_ensures(D::name, (&d,), r),
            },
    {
        match self {
            OrDefault::Given(t) => t.name(),
            OrDefault::Default(d) => d.name(),
        }
    }
}

/// An object without state.
#[derive(Debug)]
pub struct Object;

impl Object {
    /// A new object.
    pub fn new() -> (r: Self) {
        Object
    }

    /// Whether the object is heavy: never known.
    pub fn is_heavy(&self) -> (r: MaybeBool)
        ensures
            r == MaybeBool::Uncertain,
    {
        MaybeBool::Uncertain
    }

    /// The given trait object, or the Rust implementation.
    pub fn get_trait<T: Trait>(&self, inc: Option<T>) -> (r: OrDefault<T, TraitImpl>)
        ensures
            match inc {
                Some(t) => r == OrDefault::<T, TraitImpl>::Given(t),
                None => r is Default,
            },
    {
        get_trait(inc)
    }

    /// The given trait object, or the Rust implementation.
    pub fn get_trait_with_foreign<T: TraitWithForeign>(&self, inc: Option<T>) -> (r: OrDefault<T, RustTraitImpl>)
        ensures
            match inc {
                Some(t) => r == OrDefault::<T, RustTraitImpl>::Given(t),
                None => r is Default,
            },
    {
        get_trait_with_foreign(inc)
    }
}

/// A record made from an integer.
pub fn make_one(inner: i32) -> (r: One)
    ensures
        r.inner == inner,
{
    One { inner }
}

/// The string of a record.
pub fn take_two(two: Two) -> (r: String)
    ensures
        r@ == two.a@,
{
    two.a
}

/// A map of one entry.
pub fn make_hashmap(k: i8, v: u64) -> (r: HashMap<i8, u64>)
    ensures
        r@ == map![k => v],
{
    let mut m: HashMap<i8, u64> = HashMap::new();
    m.insert(k, v);
    assert(m@ =~= map![k => v]);
    m
}

/// Always fails, with `OsError`.
pub fn always_fails() -> (r: Result<(), BasicError>)
    ensures
        r matches Err(BasicError::OsError),
{
    Err(BasicError::OsError)
}

/// The record declared in the interface definition file.
pub fn make_zero() -> (r: Zero)
    ensures
        r.inner@ == "ZERO"@,
{
    Zero { inner: String::from_str("ZERO") }
}

/// The given record, or one holding zero.
pub fn get_one(one: Option<One>) -> (r: One)
    ensures
        r == (match one {
            Some(o) => o,
            None => One { inner: 0 },
        }),
{
    match one {
        Some(o) => o,
        None => One { inner: 0 },
    }
}

/// The given truth value, or `Uncertain`.
pub fn get_bool(b: Option<MaybeBool>) -> (r: MaybeBool)
    ensures
        r == (match b {
            Some(v) => v,
            None => MaybeBool::Uncertain,
        }),
{
    match b {
        Some(v) => v,
        None => MaybeBool::Uncertain,
    }
}

/// The given object, or a new one.
pub fn get_object(o: Option<Object>) -> (r: Object)
    ensures
        o matches Some(x) ==> r == x,
{
    match o {
        Some(x) => x,
        None => Object::new(),
    }
}

/// The given trait object, or the Rust implementation.
pub fn get_trait<T: Trait>(o: Option<T>) -> (r: OrDefault<T, TraitImpl>)
    ensures
        match o {
            Some(t) => r == OrDefault::<T, TraitImpl>::Given(t),
            None => r is Default,
        },
{
    match o {
        Some(t) => OrDefault::Given(t),
        None => OrDefault::Default(TraitImpl {}),
    }
}

/// The given trait object, or the Rust implementation.
pub fn get_trait_with_foreign<T: TraitWithForeign>(o: Option<T>) -> (r: OrDefault<T, RustTraitImpl>)
    ensures
        match o {
            Some(t) => r == OrDefault::<T, RustTraitImpl>::Given(t),
            None => r is Default,
        },
{
    match o {
        Some(t) => OrDefault::Given(t),
        None => OrDefault::Default(RustTraitImpl {}),
    }
}

/// Optional values of records and enums of the crate.
#[derive(Debug, PartialEq, Eq, Structural)]
pub struct Externals {
    pub one: Option<One>,
    pub bool: Option<MaybeBool>,
}

impl Default for Externals {
    fn default() -> (r: Self)
        ensures
            r.one is None,
            r.bool is None,
    {
        Externals { one: None, bool: None }
    }
}

/// The given values, or the empty ones.
pub fn get_externals(e: Option<Externals>) -> (r: Externals)
    ensures
        r == (match e {
            Some(x) => x,
            None => Externals { one: None, bool: None },
        }),
{
    match e {
        Some(x) => x,
        None => Externals::default(),
    }
}

/// A callback interface that foreign code implements.
pub trait TestCallbackInterface {
    type Other: OtherCallbackInterface;

    fn do_nothing(&self);

    fn add(&self, a: i32, b: i32) -> i32;

    fn optional(&self, a: Option<i32>) -> i32;

    fn with_bytes(&self, rwb: RecordWithBytes) -> Vec<u8>;

    fn try_parse_int(&self, value: String) -> Result<i32, BasicError>;

    fn callback_handler(&self, o: Object) -> i32;

    fn get_other_callback_interface(&self) -> Self::Other;
}

/// A second callback interface that foreign code implements.
pub trait OtherCallbackInterface {
    fn multiply(&self, a: i32, b: i32) -> i32;
}

} // verus!
