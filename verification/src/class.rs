//! Class identifiers, type descriptors and the signature resolved for a
//! class.

use vstd::prelude::*;
use vstd::string::StrSliceExecFns;
use crate::native::JavaClass;
use crate::native::NULL_HANDLE;

verus! {

/// An opaque wrapper around a native class handle. Two of them are equal
/// when the handles are.
#[derive(Clone, Copy, Debug, PartialEq, Eq, Structural)]
pub struct ClassId {
    pub native_id: JavaClass,
}

impl ClassId {
    /// The identifier that stands for a class that could not be resolved.
    pub open spec fn spec_unknown() -> ClassId {
        ClassId { native_id: NULL_HANDLE }
    }

    /// The identifier that stands for a class that could not be resolved.
    pub fn unknown() -> (id: ClassId)
        ensures
            id == ClassId::spec_unknown(),
    {
        ClassId { native_id: NULL_HANDLE }
    }
}

/// A type as a type descriptor names it.
#[derive(Debug, PartialEq, Eq)]
pub enum JavaType {
    Boolean,
    Byte,
    Char,
    Double,
    Float,
    Int,
    Long,
    Short,
    Void,
    /// A class, by its name as it stands between `L` and `;`.
    Class(String),
    /// An array of the given component type.
    Array(Box<JavaType>),
}

/// True for the one-letter descriptors of the primitive types and of void.
pub open spec fn is_primitive_tag(tag: char) -> bool {
    tag == 'Z' || tag == 'B' || tag == 'C' || tag == 'D' || tag == 'F' || tag == 'I' || tag == 'J'
        || tag == 'S' || tag == 'V'
}

/// True when `text` is a type descriptor: one letter for a primitive type,
/// `L`, a non-empty name and `;` for a class, or `[` and a descriptor for
/// an array.
pub open spec fn is_descriptor(text: Seq<char>) -> bool
    decreases text.len(),
{
    if text.len() == 0 {
        false
    } else if text[0] == '[' {
        is_descriptor(text.subrange(1, text.len() as int))
    } else if text.len() == 1 {
        is_primitive_tag(text[0])
    } else {
        text.len() >= 3 && text[0] == 'L' && text[text.len() - 1] == ';'
    }
}

impl JavaType {
    /// The descriptor that names this type.
    pub open spec fn descriptor(self) -> Seq<char>
        decreases self,
    {
        match self {
            JavaType::Boolean => seq!['Z'],
            JavaType::Byte => seq!['B'],
            JavaType::Char => seq!['C'],
            JavaType::Double => seq!['D'],
            JavaType::Float => seq!['F'],
            JavaType::Int => seq!['I'],
            JavaType::Long => seq!['J'],
            JavaType::Short => seq!['S'],
            JavaType::Void => seq!['V'],
            JavaType::Class(name) => seq!['L'] + name@ + seq![';'],
            JavaType::Array(component) => seq!['['] + component.descriptor(),
        }
    }

    /// Reads a type descriptor. The result is the type that the text names;
    /// there is none when the text is no descriptor.
    pub fn parse(signature: &str) -> (parsed: Option<JavaType>)
        ensures
            parsed is Some <==> is_descriptor(signature@),
            parsed matches Some(java_type) ==> java_type.descriptor() == signature@,
        decreases signature@.len(),
    {
        let len = signature.unicode_len();
        if len == 0 {
            return None;
        }
        let first = signature.get_char(0);
        if first == '[' {
            let rest = signature.substring_char(1, len);
            match JavaType::parse(rest) {
                Some(component) => {
                    let parsed = JavaType::Array(Box::new(component));
                    assert(parsed.descriptor() =~= signature@);
                    Some(parsed)
                },
                None => None,
            }
        } else if len == 1 {
            let parsed = match first {
                'Z' => Some(JavaType::Boolean),
                'B' => Some(JavaType::Byte),
                'C' => Some(JavaType::Char),
                'D' => Some(JavaType::Double),
                'F' => Some(JavaType::Float),
                'I' => Some(JavaType::Int),
                'J' => Some(JavaType::Long),
                'S' => Some(JavaType::Short),
                'V' => Some(JavaType::Void),
                _ => None,
            };
            assert(parsed matches Some(java_type) ==> java_type.descriptor() =~= signature@);
            parsed
        } else if len >= 3 && first == 'L' && signature.get_char(len - 1) == ';' {
            let name = signature.substring_char(1, len - 1).to_string();
            let parsed = JavaType::Class(name);
            assert(parsed.descriptor() =~= signature@);
            Some(parsed)
        } else {
            None
        }
    }
}

/// The signature of a class: the type its descriptor names, and the
/// descriptor as the runtime gave it.
#[derive(Debug, PartialEq, Eq)]
pub struct ClassSignature {
    pub java_type: JavaType,
    pub signature: String,
}

impl ClassSignature {
    /// True for the placeholder of an unresolved class.
    pub open spec fn is_unknown(self) -> bool {
        &&& self.java_type == JavaType::Void
        &&& self.signature@ == "<UNKNOWN CLASS>"@
    }

    pub fn new(java_type: JavaType, signature: String) -> (sig: ClassSignature)
        ensures
            sig.java_type == java_type,
            sig.signature == signature,
    {
        ClassSignature { java_type, signature }
    }

    /// The signature that stands for a class that could not be resolved.
    pub fn unknown() -> (sig: ClassSignature)
        ensures
            sig.is_unknown(),
    {
        ClassSignature { java_type: JavaType::Void, signature: "<UNKNOWN CLASS>".to_string() }
    }
}

/// A class: its identifier and its resolved signature.
#[derive(Debug, PartialEq, Eq)]
pub struct Class {
    pub id: ClassId,
    pub signature: ClassSignature,
}

impl Class {
    pub fn new(id: ClassId, signature: ClassSignature) -> (class: Class)
        ensures
            class.id == id,
            class.signature == signature,
    {
        Class { id, signature }
    }

    /// The class that stands for one that could not be resolved.
    pub fn unknown() -> (class: Class)
        ensures
            class.id == ClassId::spec_unknown(),
            class.signature.is_unknown(),
    {
        Class { id: ClassId::unknown(), signature: ClassSignature::unknown() }
    }
}

} // verus!
