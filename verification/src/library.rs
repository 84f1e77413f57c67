//! The records of the introspection model that the analysis reads.

use crate::version::Version;
use vstd::prelude::*;

verus! {

/// A reference to a type of the introspection model: the namespace that
/// declares it and its place there.
#[derive(Clone, Copy, Debug, PartialEq, Eq, Structural)]
pub struct TypeId {
    pub ns_id: u16,
    pub id: u32,
}

/// The primitive type categories.
#[derive(Clone, Copy, Debug, PartialEq, Eq, Structural)]
pub enum Fundamental {
    Void,
    Boolean,
    Int8,
    UInt8,
    Int16,
    UInt16,
    Int32,
    UInt32,
    Int64,
    UInt64,
    Char,
    UChar,
    Short,
    UShort,
    Int,
    UInt,
    Long,
    ULong,
    Size,
    SSize,
    Float,
    Double,
    Pointer,
    VarArgs,
    UniChar,
    Utf8,
    Filename,
    Type,
    Unsupported,
}

/// The category of a type: what kind of thing a type reference stands for.
#[derive(Clone, Copy, Debug, PartialEq, Eq, Structural)]
pub enum TypeCategory {
    Fundamental(Fundamental),
    Alias,
    Enumeration,
    Bitfield,
    Record,
    Union,
    Function,
    Interface,
    Class,
    Custom,
    Array,
    CArray,
    FixedArray,
    PtrArray,
    HashTable,
    List,
    SList,
}

impl TypeCategory {
    /// An object or an interface: a type whose values any conforming
    /// implementer can stand for.
    pub open spec fn is_object_like(self) -> bool {
        self is Class || self is Interface
    }

    /// Decides `is_object_like`.
    pub fn object_like(&self) -> (r: bool)
        ensures
            r == self.is_object_like(),
    {
        match self {
            TypeCategory::Class => true,
            TypeCategory::Interface => true,
            TypeCategory::Fundamental(_) => false,
            TypeCategory::Alias => false,
            TypeCategory::Enumeration => false,
            TypeCategory::Bitfield => false,
            TypeCategory::Record => false,
            TypeCategory::Union => false,
            TypeCategory::Function => false,
            TypeCategory::Custom => false,
            TypeCategory::Array => false,
            TypeCategory::CArray => false,
            TypeCategory::FixedArray => false,
            TypeCategory::PtrArray => false,
            TypeCategory::HashTable => false,
            TypeCategory::List => false,
            TypeCategory::SList => false,
        }
    }
}

/// A property as the introspection model declares it.
#[derive(Debug)]
pub struct Property {
    pub name: String,
    pub readable: bool,
    pub writable: bool,
    pub construct_only: bool,
    pub typ: TypeId,
    /// The model's own hint. The analysis derives the nullability of a
    /// binding from how its value is passed, not from this.
    pub nullable: bool,
    pub version: Option<Version>,
    pub deprecated_version: Option<Version>,
}

/// The mathematical value of a `Property`.
pub struct PropertyView {
    pub name: Seq<char>,
    pub readable: bool,
    pub writable: bool,
    pub construct_only: bool,
    pub typ: TypeId,
    pub nullable: bool,
    pub version: Option<Version>,
    pub deprecated_version: Option<Version>,
}

impl View for Property {
    type V = PropertyView;

    open spec fn view(&self) -> PropertyView {
        PropertyView {
            name: self.name@,
            readable: self.readable,
            writable: self.writable,
            construct_only: self.construct_only,
            typ: self.typ,
            nullable: self.nullable,
            version: self.version,
            deprecated_version: self.deprecated_version,
        }
    }
}

impl Clone for Property {
    fn clone(&self) -> (copy: Property)
        ensures
            copy@ == self@,
    {
        Property {
            name: self.name.clone(),
            readable: self.readable,
            writable: self.writable,
            construct_only: self.construct_only,
            typ: self.typ,
            nullable: self.nullable,
            version: self.version,
            deprecated_version: self.deprecated_version,
        }
    }
}

/// The shape of a signal handed to the trampoline synthesizer: its name, the
/// types of its parameters, and the type it returns, if it returns a value.
#[derive(Debug)]
pub struct Signal {
    pub name: String,
    pub parameters: Vec<TypeId>,
    pub ret: Option<TypeId>,
    pub version: Option<Version>,
    pub deprecated_version: Option<Version>,
}

/// The mathematical value of a `Signal`.
pub struct SignalView {
    pub name: Seq<char>,
    pub parameters: Seq<TypeId>,
    pub ret: Option<TypeId>,
    pub version: Option<Version>,
    pub deprecated_version: Option<Version>,
}

impl View for Signal {
    type V = SignalView;

    open spec fn view(&self) -> SignalView {
        SignalView {
            name: self.name@,
            parameters: self.parameters@,
            ret: self.ret,
            version: self.version,
            deprecated_version: self.deprecated_version,
        }
    }
}

} // verus!
