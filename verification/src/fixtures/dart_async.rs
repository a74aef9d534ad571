//! An example crate of asynchronous functions and objects. What they compute
//! stands here; the waiting they do before is left to the caller.
use vstd::prelude::*;
use crate::gen::text::{concat2, concat3};

verus! {

/// What `str::to_uppercase` returns for a string.
pub uninterp spec fn uppercase(s: Seq<char>) -> Seq<char>;

/// Calls `str::to_uppercase`. Its result depends on the string alone and is
/// named `uppercase`; the Unicode case mapping is not written out.
#[verifier::external_body]
fn to_uppercase(s: &str) -> (r: String)
    ensures
        r@ == uppercase(s@),
{
    s.to_uppercase()
}

/// The outcome of polling a timer.
#[derive(Clone, Copy, Debug, PartialEq, Eq, Structural)]
pub enum TimerPoll {
    Ready,
    Pending,
}

/// The state a timer shares with what completes it: whether it completed,
/// and the waker to wake then, by its number.
#[derive(Debug)]
pub struct SharedState {
    pub completed: bool,
    pub waker: Option<u64>,
}

/// A timer that completes once its time has passed.
#[derive(Debug)]
pub struct TimerFuture {
    shared_state: SharedState,
}

impl TimerFuture {
    /// Whether the timer completed.
    pub closed spec fn completed(&self) -> bool {
        self.shared_state.completed
    }

    /// The waker registered by the last poll before completion.
    pub closed spec fn waker(&self) -> Option<u64> {
        self.shared_state.waker
    }

    /// A timer that has not completed.
    pub fn new() -> (r: Self)
        ensures
            !r.completed(),
            r.waker() is None,
    {
        TimerFuture { shared_state: SharedState { completed: false, waker: None } }
    }

    /// Ready once completed; else registers `waker` and is pending.
    pub fn poll(&mut self, waker: u64) -> (r: TimerPoll)
        ensures
            old(self).completed() ==> r == TimerPoll::Ready && *final(self) == *old(self),
            !old(self).completed() ==> r == TimerPoll::Pending && !final(self).completed()
                && final(self).waker() == Some(waker),
    {
        if self.shared_state.completed {
            TimerPoll::Ready
        } else {
            self.shared_state.waker = Some(waker);
            TimerPoll::Pending
        }
    }

    /// Completes the timer and hands out the registered waker, to be woken.
    pub fn complete(&mut self) -> (woken: Option<u64>)
        ensures
            final(self).completed(),
            final(self).waker() is None,
            woken == old(self).waker(),
    {
        self.shared_state.completed = true;
        let w = self.shared_state.waker;
        self.shared_state.waker = None;
        w
    }
}

/// The wakes a misbehaving timer performs when it completes.
#[derive(Clone, Copy, Debug, PartialEq, Eq, Structural)]
pub enum WakePlan {
    /// No waker was registered.
    Nothing,
    /// Wake the waker twice, now.
    WakeTwiceNow(u64),
    /// Wake the waker now, and once more after the failure delay.
    WakeAgainLater(u64),
}

/// A timer that wakes its waker twice, to test that a second wake is harmless.
#[derive(Debug)]
pub struct BrokenTimerFuture {
    shared_state: SharedState,
}

impl BrokenTimerFuture {
    /// Whether the timer completed.
    pub closed spec fn completed(&self) -> bool {
        self.shared_state.completed
    }

    /// The waker registered by the last poll before completion.
    pub closed spec fn waker(&self) -> Option<u64> {
        self.shared_state.waker
    }

    /// A timer that has not completed.
    pub fn new() -> (r: Self)
        ensures
            !r.completed(),
            r.waker() is None,
    {
        BrokenTimerFuture { shared_state: SharedState { completed: false, waker: None } }
    }

    /// Ready once completed; else registers `waker` and is pending.
    pub fn poll(&mut self, waker: u64) -> (r: TimerPoll)
        ensures
            old(self).completed() ==> r == TimerPoll::Ready && *final(self) == *old(self),
            !old(self).completed() ==> r == TimerPoll::Pending && !final(self).completed()
                && final(self).waker() == Some(waker),
    {
        if self.shared_state.completed {
            TimerPoll::Ready
        } else {
            self.shared_state.waker = Some(waker);
            TimerPoll::Pending
        }
    }

    /// Completes the timer. The registered waker is woken twice: both now
    /// when the failure delay is zero, else once now and once after it.
    pub fn complete(&mut self, fail_after_is_zero: bool) -> (plan: WakePlan)
        ensures
            final(self).completed(),
            final(self).waker() is None,
            plan == (match old(self).waker() {
                None => WakePlan::Nothing,
                Some(w) => if fail_after_is_zero {
                    WakePlan::WakeTwiceNow(w)
                } else {
                    WakePlan::WakeAgainLater(w)
                },
            }),
    {
        self.shared_state.completed = true;
        let w = self.shared_state.waker;
        self.shared_state.waker = None;
        match w {
            None => WakePlan::Nothing,
            Some(x) => if fail_after_is_zero {
                WakePlan::WakeTwiceNow(x)
            } else {
                WakePlan::WakeAgainLater(x)
            },
        }
    }
}

/// A greeting.
pub fn greet(who: &str) -> (r: String)
    ensures
        r@ == "Hello, "@ + who@,
{
    concat2("Hello, ", who)
}

/// Always true, at once.
pub fn always_ready() -> (r: bool)
    ensures
        r,
{
    true
}

/// What is said after the delay.
pub fn say() -> (r: String)
    ensures
        r@ == "Hello, Future!"@,
{
    String::from_str("Hello, Future!")
}

/// What is said to `who` after a delay.
pub fn say_after(who: &str) -> (r: String)
    ensures
        r@ == "Hello, "@ + who@ + "!"@,
{
    concat3("Hello, ", who, "!")
}

/// What is said to `who` after a delay kept by the Tokio timer.
pub fn say_after_with_tokio(who: &str) -> (r: String)
    ensures
        r@ == "Hello, "@ + who@ + " (with Tokio)!"@,
{
    concat3("Hello, ", who, " (with Tokio)!")
}

/// The error of the asynchronous functions.
#[derive(Clone, Copy, Debug, PartialEq, Eq, Structural)]
pub enum MyError {
    Foo,
}

/// 42, or `Foo` when asked to fail.
pub fn fallible_me(do_fail: bool) -> (r: Result<u8, MyError>)
    ensures
        r == (if do_fail {
            Err::<u8, MyError>(MyError::Foo)
        } else {
            Ok::<u8, MyError>(42u8)
        }),
{
    if do_fail {
        Err(MyError::Foo)
    } else {
        Ok(42)
    }
}

/// A new megaphone, or `Foo` when asked to fail.
pub fn fallible_struct(do_fail: bool) -> (r: Result<Megaphone, MyError>)
    ensures
        do_fail <==> r is Err,
        r matches Err(e) ==> e == MyError::Foo,
{
    if do_fail {
        Err(MyError::Foo)
    } else {
        Ok(Megaphone::new())
    }
}

/// A record of a string and a number.
#[derive(Debug)]
pub struct MyRecord {
    pub a: String,
    pub b: u32,
}

/// The record of `a` and `b`.
pub fn new_my_record(a: String, b: u32) -> (r: MyRecord)
    ensures
        r.a@ == a@,
        r.b == b,
{
    MyRecord { a, b }
}

/// Where an item stands.
#[derive(Debug)]
pub enum AsyncItemState {
    Ready { timestamp_ms: u64 },
    Pending { reason: String },
}

/// An item and where it stands.
#[derive(Debug)]
pub struct AsyncItem {
    pub id: u64,
    pub state: AsyncItemState,
}

/// Two items: the first ready at 1111 ms, the second pending while syncing.
pub fn list_async_items() -> (r: Vec<AsyncItem>)
    ensures
        r@.len() == 2,
        r@[0].id == 1,
        r@[0].state matches AsyncItemState::Ready { timestamp_ms } && timestamp_ms == 1111,
        r@[1].id == 2,
        r@[1].state matches AsyncItemState::Pending { reason } && reason@ == "syncing"@,
{
    let mut r: Vec<AsyncItem> = Vec::new();
    r.push(AsyncItem { id: 1, state: AsyncItemState::Ready { timestamp_ms: 1111 } });
    r.push(AsyncItem { id: 2, state: AsyncItemState::Pending { reason: String::from_str("syncing") } });
    r
}

/// An object that says things loudly.
#[derive(Debug)]
pub struct Megaphone;

impl Megaphone {
    /// A megaphone.
    pub fn new() -> (r: Self) {
        Megaphone
    }

    /// A second way to make a megaphone.
    pub fn secondary() -> (r: Self) {
        Megaphone
    }

    /// What is said to `who` after a delay, in capitals.
    pub fn say_after(&self, who: &str) -> (r: String)
        ensures
            r@ == uppercase("Hello, "@ + who@ + "!"@),
    {
        let s = say_after(who);
        to_uppercase(s.as_str())
    }

    /// What is said to `who` at once, in capitals.
    pub fn say_now(&self, who: &str) -> (r: String)
        ensures
            r@ == uppercase("Hello, "@ + who@ + "!"@),
    {
        let s = concat3("Hello, ", who, "!");
        to_uppercase(s.as_str())
    }

    /// What is said to `who` after a delay kept by the Tokio timer, in
    /// capitals.
    pub fn say_after_with_tokio(&self, who: &str) -> (r: String)
        ensures
            r@ == uppercase("Hello, "@ + who@ + " (with Tokio)!"@),
    {
        let s = say_after_with_tokio(who);
        to_uppercase(s.as_str())
    }

    /// Nothing.
    pub fn silence(&self) -> (r: String)
        ensures
            r@ == Seq::<char>::empty(),
    {
        String::new()
    }

    /// 42, or `Foo` when asked to fail.
    pub fn fallible_me(&self, do_fail: bool) -> (r: Result<u8, MyError>)
        ensures
            r == (if do_fail {
                Err::<u8, MyError>(MyError::Foo)
            } else {
                Ok::<u8, MyError>(42u8)
            }),
    {
        fallible_me(do_fail)
    }
}

/// A new megaphone.
pub fn new_megaphone() -> (r: Megaphone) {
    Megaphone::new()
}

/// A megaphone when `y` holds.
pub fn async_maybe_new_megaphone(y: bool) -> (r: Option<Megaphone>)
    ensures
        r is Some <==> y,
{
    if y {
        Some(new_megaphone())
    } else {
        None
    }
}

/// An object whose construction always fails.
#[derive(Debug)]
pub struct FallibleMegaphone;

impl FallibleMegaphone {
    /// Fails with `Foo`.
    pub fn new() -> (r: Result<FallibleMegaphone, MyError>)
        ensures
            r matches Err(e) && e == MyError::Foo,
    {
        Err(MyError::Foo)
    }
}

/// How long a shared resource is held, and how long a caller waits for it.
#[derive(Debug)]
pub struct SharedResourceOptions {
    pub release_after_ms: u16,
    pub timeout_ms: u16,
}

/// The error of waiting for the shared resource.
#[derive(Clone, Copy, Debug, PartialEq, Eq, Structural)]
pub enum AsyncError {
    Timeout,
}

/// Says something after a delay.
pub trait SayAfterTrait {
    fn say_after(&self, ms: u16, who: String) -> String;
}

/// Says something after a delay; declared in the interface definition file.
pub trait SayAfterUdlTrait {
    fn say_after(&self, ms: u16, who: String) -> String;
}

/// A Rust implementation of `SayAfterTrait`.
pub struct SayAfterImpl1;

/// A second Rust implementation of `SayAfterTrait`.
pub struct SayAfterImpl2;

impl SayAfterTrait for SayAfterImpl1 {
    fn say_after(&self, ms: u16, who: String) -> (r: String)
        ensures
            r@ == "Hello, "@ + who@ + "!"@,
    {
        say_after(who.as_str())
    }
}

impl SayAfterTrait for SayAfterImpl2 {
    fn say_after(&self, ms: u16, who: String) -> (r: String)
        ensures
            r@ == "Hello, "@ + who@ + "!"@,
    {
        say_after(who.as_str())
    }
}

/// A megaphone declared in the interface definition file.
#[derive(Debug)]
pub struct UdlMegaphone;

impl UdlMegaphone {
    /// A megaphone.
    pub fn new() -> (r: Self) {
        UdlMegaphone
    }

    /// A second way to make a megaphone.
    pub fn secondary() -> (r: Self) {
        UdlMegaphone
    }

    /// What is said to `who` after a delay, in capitals.
    pub fn say_after(&self, who: &str) -> (r: String)
        ensures
            r@ == uppercase("Hello, "@ + who@ + " (from UDL Megaphone)!"@),
    {
        let s = concat3("Hello, ", who, " (from UDL Megaphone)!");
        to_uppercase(s.as_str())
    }
}

/// The error of parsing.
#[derive(Clone, Copy, Debug, PartialEq, Eq, Structural)]
pub enum ParserError {
    NotAnInt,
    UnexpectedError,
}

impl ParserError {
    /// The error a callback that failed unexpectedly is reported as.
    pub fn from_unexpected_callback_error() -> (r: ParserError)
        ensures
            r == ParserError::UnexpectedError,
    {
        ParserError::UnexpectedError
    }
}

/// A parser that foreign code implements; each method answers after a delay.
pub trait AsyncParser {
    fn as_string(&self, delay_ms: i32, value: i32) -> String;

    fn try_from_string(&self, delay_ms: i32, value: String) -> Result<i32, ParserError>;

    fn delay(&self, delay_ms: i32);

    fn try_delay(&self, delay_ms: String) -> Result<(), ParserError>;
}

/// A second parser interface that foreign code implements.
pub trait AsyncParserMirror {
    fn mirror_string(&self, delay_ms: i32, value: i32) -> String;

    fn mirror_delay(&self, delay_ms: i32);
}

} // verus!
