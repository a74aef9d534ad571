//! The named kinds of interface type, each with the Dart names it is given:
//! its type label, its canonical helper name and its converter class.
use vstd::prelude::*;
use crate::gen::naming::{enum_variant_name, member_name_spec};
use crate::gen::primitives::Literal;
use crate::gen::text::concat2;
use crate::gen::types::{
    canonical_name, canonical_name_spec, ffi_converter_name, ffi_converter_name_spec, type_label,
    type_label_spec, ObjectImpl, Type,
};

verus! {

/// A record type.
#[derive(Debug)]
pub struct RecordCodeType {
    id: String,
}

/// An enum type.
#[derive(Debug)]
pub struct EnumCodeType {
    id: String,
}

/// An object type.
#[derive(Debug)]
pub struct ObjectCodeType {
    id: String,
    imp: ObjectImpl,
}

/// A callback interface type.
#[derive(Debug)]
pub struct CallbackInterfaceCodeType {
    name: String,
    self_type: Type,
}

/// A custom type over a builtin one.
#[derive(Debug)]
pub struct CustomCodeType {
    name: String,
    module: String,
    builtin: Box<Type>,
}

/// A map type.
#[derive(Debug)]
pub struct MapCodeType {
    self_type: Type,
    key: Type,
    value: Type,
}

impl RecordCodeType {
    /// The type it stands for.
    pub closed spec fn ty(&self) -> Type {
        Type::Record { name: self.id }
    }

    pub fn new(id: String) -> (r: Self)
        ensures
            r.ty() == (Type::Record { name: id }),
    {
        RecordCodeType { id }
    }

    pub fn as_type(&self) -> (r: Type)
        ensures
            r == self.ty(),
    {
        Type::Record { name: self.id.clone() }
    }

    pub fn type_label(&self) -> (r: String)
        ensures
            r@ == type_label_spec(self.ty()),
    {
        type_label(&self.as_type())
    }

    pub fn canonical_name(&self) -> (r: String)
        ensures
            r@ == canonical_name_spec(self.ty()),
    {
        canonical_name(&self.as_type())
    }

    pub fn ffi_converter_name(&self) -> (r: String)
        ensures
            r@ == ffi_converter_name_spec(self.ty()),
    {
        ffi_converter_name(&self.as_type())
    }
}

impl EnumCodeType {
    /// The type it stands for.
    pub closed spec fn ty(&self) -> Type {
        Type::Enum { name: self.id }
    }

    pub fn new(id: String) -> (r: Self)
        ensures
            r.ty() == (Type::Enum { name: id }),
    {
        EnumCodeType { id }
    }

    /// A variant of the enum written as the enum's type label directly
    /// followed by the variant's member name.
    pub fn literal(&self, literal: &Literal) -> (r: String)
        requires
            literal is Enum,
        ensures
            r@ == type_label_spec(self.ty()) + member_name_spec(literal->Enum_0@),
    {
        match literal {
            Literal::Enum(v, _) => {
                let label = self.type_label();
                let variant = enum_variant_name(v.as_str());
                concat2(label.as_str(), variant.as_str())
            },
            _ => String::new(),
        }
    }

    pub fn as_type(&self) -> (r: Type)
        ensures
            r == self.ty(),
    {
        Type::Enum { name: self.id.clone() }
    }

    pub fn type_label(&self) -> (r: String)
        ensures
            r@ == type_label_spec(self.ty()),
    {
        type_label(&self.as_type())
    }

    pub fn canonical_name(&self) -> (r: String)
        ensures
            r@ == canonical_name_spec(self.ty()),
    {
        canonical_name(&self.as_type())
    }

    pub fn ffi_converter_name(&self) -> (r: String)
        ensures
            r@ == ffi_converter_name_spec(self.ty()),
    {
        ffi_converter_name(&self.as_type())
    }
}

impl ObjectCodeType {
    /// The type it stands for.
    pub closed spec fn ty(&self) -> Type {
        Type::Object { name: self.id, imp: self.imp }
    }

    pub fn new(id: String, imp: ObjectImpl) -> (r: Self)
        ensures
            r.ty() == (Type::Object { name: id, imp }),
    {
        ObjectCodeType { id, imp }
    }

    pub fn as_type(&self) -> (r: Type)
        ensures
            r == self.ty(),
    {
        Type::Object { name: self.id.clone(), imp: self.imp }
    }

    pub fn type_label(&self) -> (r: String)
        ensures
            r@ == type_label_spec(self.ty()),
    {
        type_label(&self.as_type())
    }

    pub fn canonical_name(&self) -> (r: String)
        ensures
            r@ == canonical_name_spec(self.ty()),
    {
        canonical_name(&self.as_type())
    }

    pub fn ffi_converter_name(&self) -> (r: String)
        ensures
            r@ == ffi_converter_name_spec(self.ty()),
    {
        ffi_converter_name(&self.as_type())
    }
}

impl CallbackInterfaceCodeType {
    /// The type it stands for.
    pub closed spec fn ty(&self) -> Type {
        self.self_type
    }

    /// The callback interface's name.
    pub closed spec fn name_spec(&self) -> Seq<char> {
        self.name@
    }

    pub fn new(name: String, self_type: Type) -> (r: Self)
        ensures
            r.ty() == self_type,
            r.name_spec() == name@,
    {
        CallbackInterfaceCodeType { name, self_type }
    }

    pub fn as_type(&self) -> (r: Type)
        ensures
            r == self.ty(),
    {
        self.self_type.duplicate()
    }

    pub fn type_label(&self) -> (r: String)
        ensures
            r@ == type_label_spec(self.ty()),
    {
        type_label(&self.self_type)
    }

    pub fn canonical_name(&self) -> (r: String)
        ensures
            r@ == canonical_name_spec(self.ty()),
    {
        canonical_name(&self.self_type)
    }

    pub fn ffi_converter_name(&self) -> (r: String)
        ensures
            r@ == ffi_converter_name_spec(self.ty()),
    {
        ffi_converter_name(&self.self_type)
    }
}

impl CustomCodeType {
    /// The type it stands for.
    pub closed spec fn ty(&self) -> Type {
        Type::Custom { name: self.name, builtin: self.builtin }
    }

    /// The module the type is defined in.
    pub closed spec fn module_spec(&self) -> Seq<char> {
        self.module@
    }

    pub fn new(name: String, module: String, builtin: Box<Type>) -> (r: Self)
        ensures
            r.ty() == (Type::Custom { name, builtin }),
            r.module_spec() == module@,
    {
        CustomCodeType { name, module, builtin }
    }

    pub fn as_type(&self) -> (r: Type)
        ensures
            r == self.ty(),
    {
        Type::Custom { name: self.name.clone(), builtin: Box::new(self.builtin.duplicate()) }
    }

    pub fn type_label(&self) -> (r: String)
        ensures
            r@ == type_label_spec(self.ty()),
    {
        type_label(&self.as_type())
    }

    pub fn canonical_name(&self) -> (r: String)
        ensures
            r@ == canonical_name_spec(self.ty()),
    {
        canonical_name(&self.as_type())
    }

    pub fn ffi_converter_name(&self) -> (r: String)
        ensures
            r@ == ffi_converter_name_spec(self.ty()),
    {
        ffi_converter_name(&self.as_type())
    }
}

impl MapCodeType {
    /// The type it stands for.
    pub closed spec fn ty(&self) -> Type {
        self.self_type
    }

    /// The key and value types.
    pub closed spec fn key_spec(&self) -> Type {
        self.key
    }

    pub closed spec fn value_spec(&self) -> Type {
        self.value
    }

    pub fn new(self_type: Type, key: Type, value: Type) -> (r: Self)
        ensures
            r.ty() == self_type,
            r.key_spec() == key,
            r.value_spec() == value,
    {
        MapCodeType { self_type, key, value }
    }

    pub fn as_type(&self) -> (r: Type)
        ensures
            r == self.ty(),
    {
        self.self_type.duplicate()
    }

    pub fn key(&self) -> (r: &Type)
        ensures
            *r == self.key_spec(),
    {
        &self.key
    }

    pub fn value(&self) -> (r: &Type)
        ensures
            *r == self.value_spec(),
    {
        &self.value
    }

    pub fn type_label(&self) -> (r: String)
        ensures
            r@ == type_label_spec(self.ty()),
    {
        type_label(&self.self_type)
    }

    pub fn canonical_name(&self) -> (r: String)
        ensures
            r@ == canonical_name_spec(self.ty()),
    {
        canonical_name(&self.self_type)
    }

    pub fn ffi_converter_name(&self) -> (r: String)
        ensures
            r@ == ffi_converter_name_spec(self.ty()),
    {
        ffi_converter_name(&self.self_type)
    }
}

} // verus!
