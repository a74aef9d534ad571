//! An example crate that calls back into foreign code.
use vstd::prelude::*;

verus! {

/// An item with a value.
#[derive(Debug)]
pub struct Item {
    pub name: String,
    pub value: u64,
}

/// A tag with an id.
#[derive(Debug)]
pub struct Tag {
    pub id: u32,
    pub label: String,
}

/// A simple error.
#[derive(Clone, Copy, Debug, PartialEq, Eq, Structural)]
pub enum SimpleError {
    BadArgument,
    UnexpectedError,
}

/// An error that carries data.
#[derive(Debug)]
pub enum ComplexError {
    ReallyBadArgument { code: i32 },
    UnexpectedErrorWithReason { reason: String },
}

/// The message each simple error displays.
pub open spec fn simple_error_message(e: SimpleError) -> Seq<char> {
    match e {
        SimpleError::BadArgument => "BadArgument"@,
        SimpleError::UnexpectedError => "InternalTelephoneError"@,
    }
}

/// The message each complex error displays.
pub open spec fn complex_error_message(e: ComplexError) -> Seq<char> {
    match e {
        ComplexError::ReallyBadArgument { .. } => "ReallyBadArgument"@,
        ComplexError::UnexpectedErrorWithReason { .. } => "InternalTelephoneError"@,
    }
}

impl SimpleError {
    /// The message the error displays.
    pub fn message(&self) -> (r: String)
        ensures
            r@ == simple_error_message(*self),
    {
        match self {
            SimpleError::BadArgument => String::from_str("BadArgument"),
            SimpleError::UnexpectedError => String::from_str("InternalTelephoneError"),
        }
    }

    /// The error a callback that failed unexpectedly is reported as.
    pub fn from_unexpected_callback_error() -> (r: SimpleError)
        ensures
            r == SimpleError::UnexpectedError,
    {
        SimpleError::UnexpectedError
    }
}

impl ComplexError {
    /// The message the error displays.
    pub fn message(&self) -> (r: String)
        ensures
            r@ == complex_error_message(*self),
    {
        match self {
            ComplexError::ReallyBadArgument { .. } => String::from_str("ReallyBadArgument"),
            ComplexError::UnexpectedErrorWithReason { .. } => String::from_str("InternalTelephoneError"),
        }
    }

    /// The error a callback that failed unexpectedly, for `reason`, is
    /// reported as.
    pub fn from_unexpected_callback_error(reason: String) -> (r: ComplexError)
        ensures
            r matches ComplexError::UnexpectedErrorWithReason { reason: x } && x@ == reason@,
    {
        ComplexError::UnexpectedErrorWithReason { reason }
    }
}

/// Getters that foreign code implements.
pub trait ForeignGetters {
    fn get_bool(&self, v: bool, argument_two: bool) -> Result<bool, SimpleError>;

    fn get_string(&self, v: String, arg2: bool) -> Result<String, SimpleError>;

    fn get_option(&self, v: Option<String>, arg2: bool) -> Result<Option<String>, ComplexError>;

    fn get_list(&self, v: Vec<i32>, arg2: bool) -> Result<Vec<i32>, SimpleError>;

    fn get_nothing(&self, v: String) -> Result<(), SimpleError>;

    fn get_items(&self, v: Vec<Item>) -> Vec<Item>;

    fn get_tag(&self, v: Option<Tag>) -> Option<Tag>;
}

/// A stringifier that foreign code implements and Rust keeps. Its
/// conversion of lists of optional floats is left to the foreign side.
pub trait StoredForeignStringifier {
    fn from_simple_type(&self, value: i32) -> String;
}

/// Keeps a foreign stringifier and converts through it.
#[derive(Debug)]
pub struct RustStringifier<S> {
    callback: S,
}

impl<S: StoredForeignStringifier> RustStringifier<S> {
    /// The stringifier it converts through.
    pub closed spec fn callback(&self) -> S {
        self.callback
    }

    /// Keeps `callback`.
    pub fn new(callback: S) -> (r: Self)
        ensures
            r.callback() == callback,
    {
        RustStringifier { callback }
    }

    /// What the kept stringifier's `from_simple_type` returns for `value`.
    pub fn from_simple_type(&self, value: i32) -> (r: String)
        ensures
            call_ensures(S::from_simple_type, (&self.callback(), value), r),
    {
        self.callback.from_simple_type(value)
    }
}

/// Calls the getters of a foreign implementation and hands back what they
/// return.
#[derive(Debug)]
pub struct RustGetters;

impl RustGetters {
    /// The getters.
    pub fn new() -> (r: Self) {
        RustGetters
    }

    /// What the callback's `get_bool` returns for these arguments.
    pub fn get_bool<G: ForeignGetters>(&self, callback: &G, v: bool, argument_two: bool) -> (r: Result<bool, SimpleError>)
        ensures
            call_ensures(G::get_bool, (callback, v, argument_two), r),
    {
        callback.get_bool(v, argument_two)
    }

    /// What the callback's `get_string` returns for these arguments.
    pub fn get_string<G: ForeignGetters>(&self, callback: &G, v: String, arg2: bool) -> (r: Result<String, SimpleError>)
        ensures
            call_ensures(G::get_string, (callback, v, arg2), r),
    {
        callback.get_string(v, arg2)
    }

    /// What the callback's `get_option` returns for these arguments.
    pub fn get_option<G: ForeignGetters>(&self, callback: &G, v: Option<String>, arg2: bool) -> (r: Result<Option<String>, ComplexError>)
        ensures
            call_ensures(G::get_option, (callback, v, arg2), r),
    {
        callback.get_option(v, arg2)
    }

    /// What the callback's `get_list` returns for these arguments.
    pub fn get_list<G: ForeignGetters>(&self, callback: &G, v: Vec<i32>, arg2: bool) -> (r: Result<Vec<i32>, SimpleError>)
        ensures
            call_ensures(G::get_list, (callback, v, arg2), r),
    {
        callback.get_list(v, arg2)
    }

    /// Without a callback, `Ok(None)`; with one, what its `get_string`
    /// returns for `v` and `arg2`, the string wrapped in `Some`.
    pub fn get_string_optional_callback<G: ForeignGetters>(
        &self,
        callback: Option<&G>,
        v: String,
        arg2: bool,
    ) -> (r: Result<Option<String>, SimpleError>)
        ensures
            callback is None ==> r matches Ok(None),
            callback is Some ==> !(r matches Ok(None)),
            callback matches Some(c) ==> exists|x: Result<String, SimpleError>|
                #[trigger] call_ensures(G::get_string, (c, v, arg2), x) && r == (match x {
                    Ok(s) => Ok::<Option<String>, SimpleError>(Some(s)),
                    Err(e) => Err::<Option<String>, SimpleError>(e),
                }),
    {
        match callback {
            None => Ok(None),
            Some(c) => match c.get_string(v, arg2) {
                Ok(s) => Ok(Some(s)),
                Err(e) => Err(e),
            },
        }
    }

    /// What the callback's `get_nothing` returns for this argument.
    pub fn get_nothing<G: ForeignGetters>(&self, callback: &G, v: String) -> (r: Result<(), SimpleError>)
        ensures
            call_ensures(G::get_nothing, (callback, v), r),
    {
        callback.get_nothing(v)
    }

    /// What the callback's `get_items` returns for this argument.
    pub fn get_items<G: ForeignGetters>(&self, callback: &G, v: Vec<Item>) -> (r: Vec<Item>)
        ensures
            call_ensures(G::get_items, (callback, v), r),
    {
        callback.get_items(v)
    }

    /// What the callback's `get_tag` returns for this argument.
    pub fn get_tag<G: ForeignGetters>(&self, callback: &G, v: Option<Tag>) -> (r: Option<Tag>)
        ensures
            call_ensures(G::get_tag, (callback, v), r),
    {
        callback.get_tag(v)
    }
}

impl Default for RustGetters {
    fn default() -> (r: Self) {
        RustGetters::new()
    }
}

/// A store of events that foreign code may implement too.
pub trait JsonEventPersister {
    fn save(&mut self, event: String);

    fn load(&self) -> Vec<String>;

    fn close(&self);
}

/// The views of a list of strings.
pub open spec fn string_views(v: Seq<String>) -> Seq<Seq<char>> {
    v.map_values(|s: String| s@)
}

/// Events kept in memory, in the order they were saved.
#[derive(Debug)]
pub struct InMemoryEventPersister {
    events: Vec<String>,
}

impl InMemoryEventPersister {
    /// The events saved so far, in order.
    pub closed spec fn events(&self) -> Seq<Seq<char>> {
        string_views(self.events@)
    }

    /// An empty store.
    pub fn new() -> (r: Self)
        ensures
            r.events() == Seq::<Seq<char>>::empty(),
    {
        let r = InMemoryEventPersister { events: Vec::new() };
        assert(r.events() =~= Seq::<Seq<char>>::empty());
        r
    }

    /// The store, to be used as a `JsonEventPersister`.
    pub fn as_persister(self) -> (r: Self)
        ensures
            r.events() == self.events(),
    {
        self
    }
}

impl JsonEventPersister for InMemoryEventPersister {
    fn save(&mut self, event: String)
        ensures
            final(self).events() == old(self).events().push(event@),
    {
        let ghost e = event@;
        self.events.push(event);
        assert(self.events() =~= old(self).events().push(e));
    }

    fn load(&self) -> (r: Vec<String>)
        ensures
            string_views(r@) == self.events(),
    {
        let mut r: Vec<String> = Vec::new();
        let n = self.events.len();
        for i in 0..n
            invariant
                n == self.events@.len(),
                r@.len() == i,
                forall|j: int| 0 <= j < i ==> (#[trigger] r@[j])@ == self.events@[j]@,
        {
            r.push(self.events[i].clone());
        }
        assert(string_views(r@) =~= string_views(self.events@));
        r
    }

    fn close(&self) {
    }
}

/// Saves `event` in the store and loads all events back: the store ends in
/// a state that the store's `save` of `event` may leave, and the result is
/// what its `load` may return there.
pub fn save_and_load_persister<P: JsonEventPersister>(persister: &mut P, event: String) -> (r: Vec<String>)
    ensures
        exists|m: &mut P|
            mut_ref_current(m) == *old(persister) && mut_ref_future(m) == *final(persister) && #[trigger] call_ensures(
                P::save,
                (m, event),
                (),
            ),
        call_ensures(P::load, (&*final(persister),), r),
{
    persister.save(event);
    persister.load()
}

} // verus!
