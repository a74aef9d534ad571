//! The model of a component interface that bindings are generated from.
use vstd::prelude::*;
use crate::gen::primitives::Literal;
use crate::gen::types::{ObjectImpl, Type};

verus! {

/// A field of a record or of an enum variant.
#[derive(Debug)]
pub struct Field {
    pub name: String,
    pub ty: Type,
    pub default_value: Option<Literal>,
}

/// A variant of an enum.
#[derive(Debug)]
pub struct Variant {
    pub name: String,
    pub fields: Vec<Field>,
}

/// An enum: flat when its variants carry no data on the wire.
#[derive(Debug)]
pub struct Enum {
    pub name: String,
    pub variants: Vec<Variant>,
    pub flat: bool,
}

/// A record.
#[derive(Debug)]
pub struct Record {
    pub name: String,
    pub fields: Vec<Field>,
}

/// A named argument of a function or method.
#[derive(Debug)]
pub struct Argument {
    pub name: String,
    pub ty: Type,
}

/// The low-level types values cross the interface as.
#[derive(Debug)]
pub enum FfiType {
    UInt8,
    Int8,
    UInt16,
    Int16,
    UInt32,
    Int32,
    UInt64,
    Int64,
    Float32,
    Float64,
    RustBuffer,
    ForeignBytes,
    /// A pointer to the callback function of that name.
    Callback(String),
    /// A low-level struct of that name.
    Struct(String),
    Handle,
    RustCallStatus,
    Reference(Box<FfiType>),
    MutReference(Box<FfiType>),
    VoidPointer,
}

/// A field of a low-level struct.
#[derive(Debug)]
pub struct FfiField {
    pub name: String,
    pub ty: FfiType,
}

/// A low-level struct, such as the result a foreign future completes with.
#[derive(Debug)]
pub struct FfiStruct {
    pub name: String,
    pub fields: Vec<FfiField>,
}

/// A function, method or constructor, with the names of the low-level
/// functions that call it.
#[derive(Debug)]
pub struct Callable {
    pub name: String,
    pub arguments: Vec<Argument>,
    pub return_type: Option<Type>,
    /// The type it throws, if it throws.
    pub throws: Option<Type>,
    pub is_async: bool,
    /// The low-level function that calls it.
    pub ffi_name: String,
    /// The low-level functions that poll, complete and free its future.
    pub future_poll: String,
    pub future_complete: String,
    pub future_free: String,
    /// The struct an asynchronous callback method completes with.
    pub foreign_future_result: FfiStruct,
}

/// A trait implementation exported for an object.
#[derive(Debug)]
pub enum UniffiTrait {
    Display { fmt: Callable },
    Debug { fmt: Callable },
    Eq { eq: Callable, ne: Callable },
    Hash { hash: Callable },
    Ord { order: Callable },
}

/// An object: a Rust struct or trait handed across by reference.
#[derive(Debug)]
pub struct Object {
    pub name: String,
    pub imp: ObjectImpl,
    pub constructors: Vec<Callable>,
    pub methods: Vec<Callable>,
    pub uniffi_traits: Vec<UniffiTrait>,
    /// The names of the interface traits the object implements.
    pub trait_impls: Vec<String>,
    /// The low-level functions that free and clone a handle.
    pub ffi_free: String,
    pub ffi_clone: String,
}

/// An argument of a low-level function.
#[derive(Debug)]
pub struct FfiArgument {
    pub name: String,
    pub ty: FfiType,
}

/// A low-level function the native library exports.
#[derive(Debug)]
pub struct FfiFunction {
    pub name: String,
    pub arguments: Vec<FfiArgument>,
    pub return_type: Option<FfiType>,
    /// Whether it takes the call status as its last argument.
    pub has_rust_call_status_arg: bool,
}

/// A callback interface that foreign code implements.
#[derive(Debug)]
pub struct CallbackInterface {
    pub name: String,
    pub methods: Vec<Callable>,
}

/// The definitions of a component interface that generation reads.
#[derive(Debug)]
pub struct ComponentInterface {
    pub namespace: String,
    pub records: Vec<Record>,
    pub enums: Vec<Enum>,
    pub objects: Vec<Object>,
    pub functions: Vec<Callable>,
    pub callback_interfaces: Vec<CallbackInterface>,
    /// Names of the types thrown as errors.
    pub error_names: Vec<String>,
    /// The low-level functions the native library exports.
    pub ffi_functions: Vec<FfiFunction>,
    /// The functions that return the API checksums, each with the checksum
    /// the bindings were made for.
    pub checksums: Vec<(String, u16)>,
    /// The version of the contract the bindings were made for, and the
    /// function that returns the native library's.
    pub uniffi_contract_version: u32,
    pub ffi_contract_version_fn: String,
    /// The modules the external types used come from.
    pub external_namespaces: Vec<String>,
    /// The low-level functions that allocate, fill, free and grow buffers.
    pub ffi_rustbuffer_alloc: String,
    pub ffi_rustbuffer_from_bytes: String,
    pub ffi_rustbuffer_free: String,
    pub ffi_rustbuffer_reserve: String,
}

/// The first enum called `name`.
pub open spec fn find_enum(enums: Seq<Enum>, name: Seq<char>) -> Option<Enum>
    decreases enums.len(),
{
    if enums.len() == 0 {
        None
    } else if enums[0].name@ == name {
        Some(enums[0])
    } else {
        find_enum(enums.drop_first(), name)
    }
}

/// The first record called `name`.
pub open spec fn find_record(records: Seq<Record>, name: Seq<char>) -> Option<Record>
    decreases records.len(),
{
    if records.len() == 0 {
        None
    } else if records[0].name@ == name {
        Some(records[0])
    } else {
        find_record(records.drop_first(), name)
    }
}

/// The first object called `name`.
pub open spec fn find_object(objects: Seq<Object>, name: Seq<char>) -> Option<Object>
    decreases objects.len(),
{
    if objects.len() == 0 {
        None
    } else if objects[0].name@ == name {
        Some(objects[0])
    } else {
        find_object(objects.drop_first(), name)
    }
}

/// The first callback interface called `name`.
pub open spec fn find_callback(cbs: Seq<CallbackInterface>, name: Seq<char>) -> Option<CallbackInterface>
    decreases cbs.len(),
{
    if cbs.len() == 0 {
        None
    } else if cbs[0].name@ == name {
        Some(cbs[0])
    } else {
        find_callback(cbs.drop_first(), name)
    }
}

/// Whether `name` is thrown as an error.
pub open spec fn used_as_error(ci: ComponentInterface, name: Seq<char>) -> bool {
    exists|i: int| 0 <= i < ci.error_names@.len() && ci.error_names@[i]@ == name
}

impl ComponentInterface {
    /// Whether an enum called `name` exists and is flat.
    pub fn is_flat_enum_name(&self, name: &str) -> (b: bool)
        ensures
            b == (find_enum(self.enums@, name@) matches Some(e) && e.flat),
    {
        let mut i: usize = 0;
        assert(self.enums@.skip(0) =~= self.enums@);
        while i < self.enums.len()
            invariant
                i <= self.enums@.len(),
                find_enum(self.enums@, name@) == find_enum(self.enums@.skip(i as int), name@),
            decreases self.enums@.len() - i,
        {
            let ghost rest = self.enums@.skip(i as int);
            assert(rest.drop_first() =~= self.enums@.skip(i + 1));
            if self.enums[i].name == String::from_str(name) {
                return self.enums[i].flat;
            }
            i = i + 1;
        }
        assert(self.enums@.skip(i as int).len() == 0);
        false
    }

    /// The first record called `name`.
    pub fn get_record(&self, name: &str) -> (r: Option<&Record>)
        ensures
            r is None <==> find_record(self.records@, name@) is None,
            r matches Some(x) ==> find_record(self.records@, name@) == Some(*x),
    {
        let mut i: usize = 0;
        assert(self.records@.skip(0) =~= self.records@);
        while i < self.records.len()
            invariant
                i <= self.records@.len(),
                find_record(self.records@, name@) == find_record(self.records@.skip(i as int), name@),
            decreases self.records@.len() - i,
        {
            let ghost rest = self.records@.skip(i as int);
            assert(rest.drop_first() =~= self.records@.skip(i + 1));
            if self.records[i].name == String::from_str(name) {
                return Some(&self.records[i]);
            }
            i = i + 1;
        }
        assert(self.records@.skip(i as int).len() == 0);
        None
    }

    /// The first enum called `name`.
    pub fn get_enum(&self, name: &str) -> (r: Option<&Enum>)
        ensures
            r is None <==> find_enum(self.enums@, name@) is None,
            r matches Some(x) ==> find_enum(self.enums@, name@) == Some(*x),
    {
        let mut i: usize = 0;
        assert(self.enums@.skip(0) =~= self.enums@);
        while i < self.enums.len()
            invariant
                i <= self.enums@.len(),
                find_enum(self.enums@, name@) == find_enum(self.enums@.skip(i as int), name@),
            decreases self.enums@.len() - i,
        {
            let ghost rest = self.enums@.skip(i as int);
            assert(rest.drop_first() =~= self.enums@.skip(i + 1));
            if self.enums[i].name == String::from_str(name) {
                return Some(&self.enums[i]);
            }
            i = i + 1;
        }
        assert(self.enums@.skip(i as int).len() == 0);
        None
    }

    /// The first object called `name`.
    pub fn get_object(&self, name: &str) -> (r: Option<&Object>)
        ensures
            r is None <==> find_object(self.objects@, name@) is None,
            r matches Some(x) ==> find_object(self.objects@, name@) == Some(*x),
    {
        let mut i: usize = 0;
        assert(self.objects@.skip(0) =~= self.objects@);
        while i < self.objects.len()
            invariant
                i <= self.objects@.len(),
                find_object(self.objects@, name@) == find_object(self.objects@.skip(i as int), name@),
            decreases self.objects@.len() - i,
        {
            let ghost rest = self.objects@.skip(i as int);
            assert(rest.drop_first() =~= self.objects@.skip(i + 1));
            if self.objects[i].name == String::from_str(name) {
                return Some(&self.objects[i]);
            }
            i = i + 1;
        }
        assert(self.objects@.skip(i as int).len() == 0);
        None
    }

    /// The first callback interface called `name`.
    pub fn get_callback_interface(&self, name: &str) -> (r: Option<&CallbackInterface>)
        ensures
            r is None <==> find_callback(self.callback_interfaces@, name@) is None,
            r matches Some(x) ==> find_callback(self.callback_interfaces@, name@) == Some(*x),
    {
        let mut i: usize = 0;
        assert(self.callback_interfaces@.skip(0) =~= self.callback_interfaces@);
        while i < self.callback_interfaces.len()
            invariant
                i <= self.callback_interfaces@.len(),
                find_callback(self.callback_interfaces@, name@) == find_callback(self.callback_interfaces@.skip(i as int), name@),
            decreases self.callback_interfaces@.len() - i,
        {
            let ghost rest = self.callback_interfaces@.skip(i as int);
            assert(rest.drop_first() =~= self.callback_interfaces@.skip(i + 1));
            if self.callback_interfaces[i].name == String::from_str(name) {
                return Some(&self.callback_interfaces[i]);
            }
            i = i + 1;
        }
        assert(self.callback_interfaces@.skip(i as int).len() == 0);
        None
    }

    /// Whether `name` is thrown as an error.
    pub fn is_name_used_as_error(&self, name: &str) -> (b: bool)
        ensures
            b == used_as_error(*self, name@),
    {
        let key = String::from_str(name);
        let mut i: usize = 0;
        while i < self.error_names.len()
            invariant
                i <= self.error_names@.len(),
                key@ == name@,
                forall|j: int| 0 <= j < i ==> self.error_names@[j]@ != name@,
            decreases self.error_names@.len() - i,
        {
            if self.error_names[i] == key {
                return true;
            }
            i = i + 1;
        }
        false
    }
}

} // verus!
