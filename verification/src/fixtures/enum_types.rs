//! An example crate with enums of several representations.
use vstd::prelude::*;

verus! {

/// An animal.
#[derive(Clone, Copy, Debug, PartialEq, Eq, Structural)]
pub enum Animal {
    Dog,
    Cat,
}

/// An animal whose variants have values but no integer representation.
#[derive(Clone, Copy, Debug, PartialEq, Eq, Structural)]
pub enum AnimalNoReprInt {
    Dog,
    Cat,
}

/// An animal represented as a `u8`.
#[derive(Clone, Copy, Debug, PartialEq, Eq, Structural)]
pub enum AnimalUInt {
    Dog,
    Cat,
}

/// An animal represented as a `u64` above the `u32` range.
#[derive(Clone, Copy, Debug, PartialEq, Eq, Structural)]
pub enum AnimalLargeUInt {
    Dog,
    Cat,
}

/// An animal represented as an `i8`, some values negative.
#[derive(Clone, Copy, Debug, PartialEq, Eq, Structural)]
pub enum AnimalSignedInt {
    Dog,
    Cat,
    Koala,
    Wallaby,
    Wombat,
}

impl AnimalNoReprInt {
    /// The value of the variant.
    pub fn value(&self) -> (r: isize)
        ensures
            r == (match *self {
                AnimalNoReprInt::Dog => 3isize,
                AnimalNoReprInt::Cat => 4isize,
            }),
    {
        match self {
            AnimalNoReprInt::Dog => 3,
            AnimalNoReprInt::Cat => 4,
        }
    }
}

impl AnimalUInt {
    /// The value of the variant.
    pub fn value(&self) -> (r: u8)
        ensures
            r == (match *self {
                AnimalUInt::Dog => 3u8,
                AnimalUInt::Cat => 4u8,
            }),
    {
        match self {
            AnimalUInt::Dog => 3,
            AnimalUInt::Cat => 4,
        }
    }
}

impl AnimalLargeUInt {
    /// The value of the variant: three and four past `u32::MAX`.
    pub fn value(&self) -> (r: u64)
        ensures
            r == (match *self {
                AnimalLargeUInt::Dog => 4294967298u64,
                AnimalLargeUInt::Cat => 4294967299u64,
            }),
    {
        match self {
            AnimalLargeUInt::Dog => 4294967298,
            AnimalLargeUInt::Cat => 4294967299,
        }
    }
}

impl AnimalSignedInt {
    /// The value of the variant; after `Cat` each counts one up.
    pub fn value(&self) -> (r: i8)
        ensures
            r == (match *self {
                AnimalSignedInt::Dog => -3i8,
                AnimalSignedInt::Cat => -2i8,
                AnimalSignedInt::Koala => -1i8,
                AnimalSignedInt::Wallaby => 0i8,
                AnimalSignedInt::Wombat => 1i8,
            }),
    {
        match self {
            AnimalSignedInt::Dog => -3,
            AnimalSignedInt::Cat => -2,
            AnimalSignedInt::Koala => -1,
            AnimalSignedInt::Wallaby => 0,
            AnimalSignedInt::Wombat => 1,
        }
    }
}

/// A record naming an animal.
#[derive(Debug, PartialEq, Eq, Clone)]
pub struct AnimalRecord {
    name: String,
}

impl AnimalRecord {
    /// The name held.
    pub closed spec fn name_value(&self) -> Seq<char> {
        self.name@
    }

    /// A record naming `name`.
    pub fn new(name: &str) -> (r: Self)
        ensures
            r.name_value() == name@,
    {
        AnimalRecord { name: String::from_str(name) }
    }
}

impl Default for AnimalRecord {
    /// A record naming no animal: the empty name.
    fn default() -> (r: Self)
        ensures
            r.name_value() == Seq::<char>::empty(),
    {
        AnimalRecord { name: String::new() }
    }
}

/// An object holding an animal record.
#[derive(Debug, PartialEq, Eq)]
pub struct AnimalObject {
    pub value: AnimalRecord,
}

impl AnimalObject {
    /// An object whose record names `name`.
    pub fn new(name: &str) -> (r: Self)
        ensures
            r.value.name_value() == name@,
    {
        AnimalObject { value: AnimalRecord::new(name) }
    }

    /// A copy of the record held.
    pub fn get_record(&self) -> (r: AnimalRecord)
        ensures
            r.name_value() == self.value.name_value(),
    {
        AnimalRecord::new(self.value.name.as_str())
    }
}

impl Default for AnimalObject {
    /// An object holding the default record.
    fn default() -> (r: Self)
        ensures
            r.value.name_value() == Seq::<char>::empty(),
    {
        AnimalObject { value: AnimalRecord::default() }
    }
}

/// An enum whose variants carry an object or a record.
#[derive(Debug)]
pub enum AnimalEnum {
    Empty,
    Dog(AnimalObject),
    Cat(AnimalRecord),
}

/// An enum whose variants carry named values.
#[derive(Debug)]
pub enum AnimalNamedEnum {
    Empty,
    Dog { object: AnimalObject },
    Cat { record: AnimalRecord },
}

/// A dog object named `dog`, or a cat record named `cat`.
pub fn get_animal_enum(animal: Animal) -> (r: AnimalEnum)
    ensures
        match animal {
            Animal::Dog => r matches AnimalEnum::Dog(o) && o.value.name_value() == "dog"@,
            Animal::Cat => r matches AnimalEnum::Cat(c) && c.name_value() == "cat"@,
        },
{
    match animal {
        Animal::Dog => AnimalEnum::Dog(AnimalObject::new("dog")),
        Animal::Cat => AnimalEnum::Cat(AnimalRecord::new("cat")),
    }
}

/// The given animal, or `Dog`.
pub fn get_animal(a: Option<Animal>) -> (r: Animal)
    ensures
        r == (match a {
            Some(x) => x,
            None => Animal::Dog,
        }),
{
    match a {
        Some(x) => x,
        None => Animal::Dog,
    }
}

} // verus!
