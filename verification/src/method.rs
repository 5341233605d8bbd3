//! Method identifiers and the name and signature resolved for them.

use vstd::prelude::*;
use crate::native::JavaMethod;
use crate::native::NULL_HANDLE;

verus! {

/// An opaque wrapper around a native method identifier. Two of them are
/// equal when the identifiers are.
#[derive(Clone, Copy, Debug, PartialEq, Eq, Structural)]
pub struct MethodId {
    pub native_id: JavaMethod,
}

impl MethodId {
    /// The identifier that stands for a method that could not be resolved.
    pub open spec fn spec_unknown() -> MethodId {
        MethodId { native_id: NULL_HANDLE }
    }

    /// The identifier that stands for a method that could not be resolved.
    pub fn unknown() -> (id: MethodId)
        ensures
            id == MethodId::spec_unknown(),
    {
        MethodId { native_id: NULL_HANDLE }
    }
}

#[derive(Clone, Copy, Debug, PartialEq, Eq, Structural)]
pub struct Method {
    pub id: MethodId,
}

impl Method {
    /// The method that stands for one that could not be resolved.
    pub fn unknown() -> (method: Method)
        ensures
            method.id == MethodId::spec_unknown(),
    {
        Method { id: MethodId::unknown() }
    }
}

/// The name of a method and its type signature.
#[derive(Clone, Debug, PartialEq, Eq)]
pub struct MethodSignature {
    pub name: String,
    pub signature: String,
}

impl MethodSignature {
    /// True when both parts hold the placeholder of an unresolved method.
    pub open spec fn is_unknown(self) -> bool {
        &&& self.name@ == "<UNKNOWN METHOD>"@
        &&& self.signature@ == "<UNKNOWN METHOD>"@
    }

    pub fn new(raw_signature: String, signature: String) -> (sig: MethodSignature)
        ensures
            sig.name == raw_signature,
            sig.signature == signature,
    {
        MethodSignature { name: raw_signature, signature }
    }

    /// The signature that stands for a method that could not be resolved.
    pub fn unknown() -> (sig: MethodSignature)
        ensures
            sig.is_unknown(),
    {
        MethodSignature {
            name: "<UNKNOWN METHOD>".to_string(),
            signature: "<UNKNOWN METHOD>".to_string(),
        }
    }
}

} // verus!
