//! The model of interface types and the Dart names each type is given.
use vstd::prelude::*;
use crate::gen::naming::{class_name, class_name_spec};
use crate::gen::text::{concat2, concat3};

verus! {

/// How an interface object is implemented.
#[derive(Clone, Copy, Debug, PartialEq, Eq, Structural)]
pub enum ObjectImpl {
    /// A Rust struct.
    Struct,
    /// A Rust trait, implemented in Rust only.
    Trait,
    /// A trait that foreign code may implement as well.
    CallbackTrait,
}

/// A type that crosses the interface.
#[derive(Debug)]
pub enum Type {
    UInt8,
    Int8,
    UInt16,
    Int16,
    UInt32,
    Int32,
    UInt64,
    Int64,
    Float32,
    Float64,
    Boolean,
    String,
    Bytes,
    Duration,
    Object { name: String, imp: ObjectImpl },
    Record { name: String },
    Enum { name: String },
    CallbackInterface { name: String },
    Custom { name: String, builtin: Box<Type> },
    Optional { inner_type: Box<Type> },
    Sequence { inner_type: Box<Type> },
    Dict { key_type: Box<Type>, value_type: Box<Type> },
}

/// Whether `t` is a type without parameters or names.
pub open spec fn is_builtin(t: Type) -> bool {
    match t {
        Type::Object { .. } | Type::Record { .. } | Type::Enum { .. } | Type::CallbackInterface {
            ..
        } | Type::Custom { .. } | Type::Optional { .. } | Type::Sequence { .. } | Type::Dict {
            ..
        } => false,
        _ => true,
    }
}

/// The Dart type of a type without parameters or names.
pub open spec fn builtin_label_spec(t: Type) -> Seq<char> {
    match t {
        Type::Bytes => "Uint8List"@,
        Type::Float32 | Type::Float64 => "double"@,
        Type::Boolean => "bool"@,
        Type::String => "String"@,
        Type::Duration => "Duration"@,
        _ => "int"@,
    }
}

/// The canonical name of a type without parameters or names.
pub open spec fn builtin_canonical_spec(t: Type) -> Seq<char> {
    match t {
        Type::Bytes => "Uint8List"@,
        Type::Int8 => "Int8"@,
        Type::Int16 => "Int16"@,
        Type::Int32 => "Int32"@,
        Type::Int64 => "Int64"@,
        Type::UInt8 => "UInt8"@,
        Type::UInt16 => "UInt16"@,
        Type::UInt32 => "UInt32"@,
        Type::UInt64 => "UInt64"@,
        Type::Float32 => "Double32"@,
        Type::Float64 => "Double64"@,
        Type::Boolean => "Bool"@,
        Type::String => "String"@,
        _ => "Duration"@,
    }
}

/// The Dart type a value of `t` has in generated code.
pub open spec fn type_label_spec(t: Type) -> Seq<char>
    decreases t,
{
    match t {
        Type::Object { name, .. } => class_name_spec(name@),
        Type::Record { name } => class_name_spec(name@),
        Type::Enum { name } => class_name_spec(name@),
        Type::CallbackInterface { name } => class_name_spec(name@),
        Type::Custom { name, .. } => class_name_spec(name@),
        Type::Optional { inner_type } => type_label_spec(*inner_type) + "?"@,
        Type::Sequence { inner_type } => "List<"@ + type_label_spec(*inner_type) + ">"@,
        Type::Dict { key_type, value_type } => "Map<"@ + type_label_spec(*key_type) + ", "@
            + type_label_spec(*value_type) + ">"@,
        _ => builtin_label_spec(t),
    }
}

/// The name that identifies `t` among generated helpers.
pub open spec fn canonical_name_spec(t: Type) -> Seq<char>
    decreases t,
{
    match t {
        Type::Object { name, .. } => name@,
        Type::Record { name } => name@,
        Type::Enum { name } => class_name_spec(name@),
        Type::CallbackInterface { name } => "CallbackInterface"@ + class_name_spec(name@),
        Type::Custom { name, .. } => class_name_spec(name@),
        Type::Optional { inner_type } => "Optional"@ + canonical_name_spec(*inner_type),
        Type::Sequence { inner_type } => "Sequence"@ + canonical_name_spec(*inner_type),
        Type::Dict { key_type, value_type } => "Map"@ + canonical_name_spec(*key_type) + "To"@
            + canonical_name_spec(*value_type),
        _ => builtin_canonical_spec(t),
    }
}

/// The Dart class that converts values of `t` across the interface.
pub open spec fn ffi_converter_name_spec(t: Type) -> Seq<char> {
    match t {
        Type::Object { name, imp } => match imp {
            ObjectImpl::CallbackTrait => "FfiConverterCallbackInterface"@ + name@,
            _ => name@,
        },
        _ => "FfiConverter"@ + canonical_name_spec(t),
    }
}

/// The Dart type name written for `t` in record fields; named types that are
/// not classes keep their interface name.
pub open spec fn dart_type_spec(t: Type) -> Seq<char>
    decreases t,
{
    match t {
        Type::Object { name, .. } => class_name_spec(name@),
        Type::Enum { name } => class_name_spec(name@),
        Type::Record { name } => name@,
        Type::Custom { name, .. } => name@,
        Type::Optional { inner_type } => dart_type_spec(*inner_type) + "?"@,
        Type::Sequence { inner_type } => "List<"@ + dart_type_spec(*inner_type) + ">"@,
        Type::Dict { key_type, value_type } => "Map<"@ + dart_type_spec(*key_type) + ", "@
            + dart_type_spec(*value_type) + ">"@,
        _ => builtin_label_spec(t),
    }
}

/// Whether `dart_type` is defined for `t`: callback interfaces have no
/// field type, at any depth.
pub open spec fn has_dart_type(t: Type) -> bool
    decreases t,
{
    match t {
        Type::CallbackInterface { .. } => false,
        Type::Optional { inner_type } => has_dart_type(*inner_type),
        Type::Sequence { inner_type } => has_dart_type(*inner_type),
        Type::Dict { key_type, value_type } => has_dart_type(*key_type) && has_dart_type(
            *value_type,
        ),
        _ => true,
    }
}

pub(crate) fn builtin_label(t: &Type) -> (r: String)
    requires
        is_builtin(*t),
    ensures
        r@ == builtin_label_spec(*t),
{
    match t {
        Type::Bytes => String::from_str("Uint8List"),
        Type::Float32 | Type::Float64 => String::from_str("double"),
        Type::Boolean => String::from_str("bool"),
        Type::String => String::from_str("String"),
        Type::Duration => String::from_str("Duration"),
        _ => String::from_str("int"),
    }
}

pub(crate) fn builtin_canonical(t: &Type) -> (r: String)
    requires
        is_builtin(*t),
    ensures
        r@ == builtin_canonical_spec(*t),
{
    match t {
        Type::Bytes => String::from_str("Uint8List"),
        Type::Int8 => String::from_str("Int8"),
        Type::Int16 => String::from_str("Int16"),
        Type::Int32 => String::from_str("Int32"),
        Type::Int64 => String::from_str("Int64"),
        Type::UInt8 => String::from_str("UInt8"),
        Type::UInt16 => String::from_str("UInt16"),
        Type::UInt32 => String::from_str("UInt32"),
        Type::UInt64 => String::from_str("UInt64"),
        Type::Float32 => String::from_str("Double32"),
        Type::Float64 => String::from_str("Double64"),
        Type::Boolean => String::from_str("Bool"),
        Type::String => String::from_str("String"),
        _ => String::from_str("Duration"),
    }
}

/// Whether values of `t` have a Dart type of their own.
pub fn has_dart_type_check(t: &Type) -> (b: bool)
    ensures
        b == has_dart_type(*t),
    decreases t,
{
    match t {
        Type::CallbackInterface { .. } => false,
        Type::Optional { inner_type } => has_dart_type_check(inner_type),
        Type::Sequence { inner_type } => has_dart_type_check(inner_type),
        Type::Dict { key_type, value_type } => has_dart_type_check(key_type) && has_dart_type_check(
            value_type,
        ),
        _ => true,
    }
}

/// The Dart type of values of `t`.
pub fn type_label(t: &Type) -> (r: String)
    ensures
        r@ == type_label_spec(*t),
    decreases t,
{
    match t {
        Type::Object { name, .. } => class_name(name.as_str()),
        Type::Record { name } => class_name(name.as_str()),
        Type::Enum { name } => class_name(name.as_str()),
        Type::CallbackInterface { name } => class_name(name.as_str()),
        Type::Custom { name, .. } => class_name(name.as_str()),
        Type::Optional { inner_type } => {
            let inner = type_label(inner_type);
            concat2(inner.as_str(), "?")
        },
        Type::Sequence { inner_type } => {
            let inner = type_label(inner_type);
            concat3("List<", inner.as_str(), ">")
        },
        Type::Dict { key_type, value_type } => {
            let k = type_label(key_type);
            let v = type_label(value_type);
            let head = concat3("Map<", k.as_str(), ", ");
            concat3(head.as_str(), v.as_str(), ">")
        },
        _ => builtin_label(t),
    }
}

/// The canonical helper name of `t`.
pub fn canonical_name(t: &Type) -> (r: String)
    ensures
        r@ == canonical_name_spec(*t),
    decreases t,
{
    match t {
        Type::Object { name, .. } => name.clone(),
        Type::Record { name } => name.clone(),
        Type::Enum { name } => class_name(name.as_str()),
        Type::CallbackInterface { name } => {
            let c = class_name(name.as_str());
            concat2("CallbackInterface", c.as_str())
        },
        Type::Custom { name, .. } => class_name(name.as_str()),
        Type::Optional { inner_type } => {
            let inner = canonical_name(inner_type);
            concat2("Optional", inner.as_str())
        },
        Type::Sequence { inner_type } => {
            let inner = canonical_name(inner_type);
            concat2("Sequence", inner.as_str())
        },
        Type::Dict { key_type, value_type } => {
            let k = canonical_name(key_type);
            let v = canonical_name(value_type);
            let head = concat3("Map", k.as_str(), "To");
            concat2(head.as_str(), v.as_str())
        },
        _ => builtin_canonical(t),
    }
}

/// The Dart converter class of `t`.
pub fn ffi_converter_name(t: &Type) -> (r: String)
    ensures
        r@ == ffi_converter_name_spec(*t),
{
    match t {
        Type::Object { name, imp: ObjectImpl::CallbackTrait } => concat2(
            "FfiConverterCallbackInterface",
            name.as_str(),
        ),
        Type::Object { name, .. } => name.clone(),
        _ => {
            let c = canonical_name(t);
            concat2("FfiConverter", c.as_str())
        },
    }
}

/// The Dart type written for a record field of type `t`.
pub fn generate_type(t: &Type) -> (r: String)
    requires
        has_dart_type(*t),
    ensures
        r@ == dart_type_spec(*t),
    decreases t,
{
    match t {
        Type::Object { name, .. } => class_name(name.as_str()),
        Type::Enum { name } => class_name(name.as_str()),
        Type::Record { name } => name.clone(),
        Type::Custom { name, .. } => name.clone(),
        Type::Optional { inner_type } => {
            let inner = generate_type(inner_type);
            concat2(inner.as_str(), "?")
        },
        Type::Sequence { inner_type } => {
            let inner = generate_type(inner_type);
            concat3("List<", inner.as_str(), ">")
        },
        Type::Dict { key_type, value_type } => {
            let k = generate_type(key_type);
            let v = generate_type(value_type);
            let head = concat3("Map<", k.as_str(), ", ");
            concat3(head.as_str(), v.as_str(), ">")
        },
        _ => builtin_label(t),
    }
}

} // verus!

verus! {

impl Type {
    /// A copy of the type, equal to it.
    pub fn duplicate(&self) -> (r: Type)
        ensures
            r == *self,
        decreases self,
    {
        match self {
            Type::UInt8 => Type::UInt8,
            Type::Int8 => Type::Int8,
            Type::UInt16 => Type::UInt16,
            Type::Int16 => Type::Int16,
            Type::UInt32 => Type::UInt32,
            Type::Int32 => Type::Int32,
            Type::UInt64 => Type::UInt64,
            Type::Int64 => Type::Int64,
            Type::Float32 => Type::Float32,
            Type::Float64 => Type::Float64,
            Type::Boolean => Type::Boolean,
            Type::String => Type::String,
            Type::Bytes => Type::Bytes,
            Type::Duration => Type::Duration,
            Type::Object { name, imp } => Type::Object { name: name.clone(), imp: *imp },
            Type::Record { name } => Type::Record { name: name.clone() },
            Type::Enum { name } => Type::Enum { name: name.clone() },
            Type::CallbackInterface { name } => Type::CallbackInterface { name: name.clone() },
            Type::Custom { name, builtin } => Type::Custom {
                name: name.clone(),
                builtin: Box::new(builtin.duplicate()),
            },
            Type::Optional { inner_type } => Type::Optional {
                inner_type: Box::new(inner_type.duplicate()),
            },
            Type::Sequence { inner_type } => Type::Sequence {
                inner_type: Box::new(inner_type.duplicate()),
            },
            Type::Dict { key_type, value_type } => Type::Dict {
                key_type: Box::new(key_type.duplicate()),
                value_type: Box::new(value_type.duplicate()),
            },
        }
    }
}

} // verus!
