//! An example crate with objects declared in an interface definition file.
use vstd::prelude::*;
use std::sync::Arc;

verus! {

/// An object holding an integer.
#[derive(Debug)]
pub struct Object {
    inner: i32,
}

/// An error object with a message.
#[derive(Debug)]
pub struct PayloadError {
    message: String,
}

/// An error object that holds a payload error.
#[derive(Debug)]
pub struct ProtocolError {
    payload_error: Arc<PayloadError>,
}

impl Object {
    /// The integer the object holds.
    pub closed spec fn inner_value(&self) -> i32 {
        self.inner
    }

    /// An object holding `inner`.
    pub fn new(inner: i32) -> (r: Self)
        ensures
            r.inner_value() == inner,
    {
        Object { inner }
    }

    /// The integer the object holds.
    pub fn get_inner(&self) -> (r: i32)
        ensures
            r == self.inner_value(),
    {
        self.inner
    }

    /// No object.
    pub fn some_method(&self) -> (r: Option<Arc<Object>>)
        ensures
            r is None,
    {
        None
    }
}

impl PayloadError {
    /// The message of the error.
    pub closed spec fn message_value(&self) -> Seq<char> {
        self.message@
    }

    /// An error with `message`.
    pub fn new(message: String) -> (r: Self)
        ensures
            r.message_value() == message@,
    {
        PayloadError { message }
    }

    /// The message of the error.
    pub fn message(&self) -> (r: String)
        ensures
            r@ == self.message_value(),
    {
        self.message.clone()
    }
}

impl ProtocolError {
    /// The message of the payload error held.
    pub closed spec fn payload_message(&self) -> Seq<char> {
        (*self.payload_error).message@
    }

    /// An error whose payload error has `message`.
    pub fn new(message: String) -> (r: Self)
        ensures
            r.payload_message() == message@,
    {
        ProtocolError { payload_error: Arc::new(PayloadError::new(message)) }
    }

    /// The payload error held, shared: another pointer to the same error.
    pub fn payload_error(&self) -> (r: Option<Arc<PayloadError>>)
        ensures
            r matches Some(p) && (*p).message_value() == self.payload_message(),
    {
        Some(self.payload_error.clone())
    }
}

/// An object holding `inner`.
pub fn make_object(inner: i32) -> (r: Arc<Object>)
    ensures
        (*r).inner_value() == inner,
{
    Arc::new(Object::new(inner))
}

/// An error whose payload error has `message`.
pub fn get_protocol_error(message: String) -> (r: Arc<ProtocolError>)
    ensures
        (*r).payload_message() == message@,
{
    Arc::new(ProtocolError::new(message))
}

} // verus!
