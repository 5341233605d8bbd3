//! The object-interop interface: calling methods and reading fields of the
//! runtime's objects. Every accessor checks its handles before it lets a
//! call through.

use vstd::prelude::*;
use crate::class::ClassId;
use crate::method::MethodId;
use crate::native::is_null;
use crate::native::null_handle;
use crate::native::JavaArray;
use crate::native::JavaClass;
use crate::native::JavaField;
use crate::native::JavaMethod;
use crate::native::JavaObject;
use crate::native::JavaObjectArray;
use crate::native::JavaString;
use crate::native::NativeAddress;
use crate::native::RawString;
use crate::native::NULL_HANDLE;
use crate::util::has_no_terminator;
use crate::util::stringified;
use crate::util::stringify;

verus! {

/// The native truth value.
pub const TRUE: u8 = 1;

/// The native falsehood value.
pub const FALSE: u8 = 0;

/// What an interop operation can fail with.
#[derive(Clone, Debug, PartialEq, Eq)]
pub enum JNIError {
    ClassNotFound(String),
    MethodNotFound(String, String),
    FieldNotFound(String),
    ObjectIsNull,
    ClassObjectIsNull,
    MethodIsNull,
    FieldIsNull,
}

/// An argument of a call into the runtime. Floating-point arguments travel
/// as their bit patterns.
#[derive(Clone, Copy, Debug, PartialEq, Eq, Structural)]
pub enum JavaValue {
    Boolean(u8),
    Byte(i8),
    Char(u16),
    Short(i16),
    Int(i32),
    Long(i64),
    Float(u32),
    Double(u64),
    Object(JavaObject),
}

impl From<i32> for JavaValue {
    fn from(value: i32) -> (target: JavaValue) {
        JavaValue::Int(value)
    }
}

impl vstd::std_specs::convert::FromSpecImpl<i32> for JavaValue {
    open spec fn obeys_from_spec() -> bool {
        true
    }

    open spec fn from_spec(value: i32) -> JavaValue {
        JavaValue::Int(value)
    }
}

impl From<i64> for JavaValue {
    fn from(value: i64) -> (target: JavaValue) {
        JavaValue::Long(value)
    }
}

impl vstd::std_specs::convert::FromSpecImpl<i64> for JavaValue {
    open spec fn obeys_from_spec() -> bool {
        true
    }

    open spec fn from_spec(value: i64) -> JavaValue {
        JavaValue::Long(value)
    }
}

impl From<u64> for JavaValue {
    fn from(value: u64) -> (target: JavaValue) {
        JavaValue::Object(value)
    }
}

impl vstd::std_specs::convert::FromSpecImpl<u64> for JavaValue {
    open spec fn obeys_from_spec() -> bool {
        true
    }

    open spec fn from_spec(value: u64) -> JavaValue {
        JavaValue::Object(value)
    }
}

impl From<u8> for JavaValue {
    fn from(value: u8) -> (target: JavaValue) {
        JavaValue::Boolean(value)
    }
}

impl vstd::std_specs::convert::FromSpecImpl<u8> for JavaValue {
    open spec fn obeys_from_spec() -> bool {
        true
    }

    open spec fn from_spec(value: u8) -> JavaValue {
        JavaValue::Boolean(value)
    }
}

impl From<i8> for JavaValue {
    fn from(value: i8) -> (target: JavaValue) {
        JavaValue::Byte(value)
    }
}

impl vstd::std_specs::convert::FromSpecImpl<i8> for JavaValue {
    open spec fn obeys_from_spec() -> bool {
        true
    }

    open spec fn from_spec(value: i8) -> JavaValue {
        JavaValue::Byte(value)
    }
}

impl From<u16> for JavaValue {
    fn from(value: u16) -> (target: JavaValue) {
        JavaValue::Char(value)
    }
}

impl vstd::std_specs::convert::FromSpecImpl<u16> for JavaValue {
    open spec fn obeys_from_spec() -> bool {
        true
    }

    open spec fn from_spec(value: u16) -> JavaValue {
        JavaValue::Char(value)
    }
}

impl From<i16> for JavaValue {
    fn from(value: i16) -> (target: JavaValue) {
        JavaValue::Short(value)
    }
}

impl vstd::std_specs::convert::FromSpecImpl<i16> for JavaValue {
    open spec fn obeys_from_spec() -> bool {
        true
    }

    open spec fn from_spec(value: i16) -> JavaValue {
        JavaValue::Short(value)
    }
}

impl JavaValue {
    /// The argument that holds the null object.
    pub fn null() -> (value: JavaValue)
        ensures
            value == JavaValue::Object(NULL_HANDLE),
    {
        JavaValue::Object(NULL_HANDLE)
    }
}

/// The function table of the interop interface, as plain values see it.
/// Each function makes one native call and returns what the call gave.
/// Nothing is promised of the results: they are the runtime's.
pub trait NativeInterop {
    fn get_object_class(&self, object: JavaObject) -> JavaClass;

    fn find_class(&self, name: &str) -> JavaClass
        requires
            has_no_terminator(name@),
    ;

    fn get_method_id(&self, class: JavaClass, name: &str, signature: &str) -> JavaMethod
        requires
            has_no_terminator(name@),
            has_no_terminator(signature@),
    ;

    fn get_static_method_id(&self, class: JavaClass, name: &str, signature: &str) -> JavaMethod
        requires
            has_no_terminator(name@),
            has_no_terminator(signature@),
    ;

    fn get_field_id(&self, class: JavaClass, name: &str, signature: &str) -> JavaField
        requires
            has_no_terminator(name@),
            has_no_terminator(signature@),
    ;

    fn get_int_field(&self, object: JavaObject, field: JavaField) -> i32;

    fn get_object_field(&self, object: JavaObject, field: JavaField) -> JavaObject;

    fn new_string_utf(&self, text: &str) -> JavaString
        requires
            has_no_terminator(text@),
    ;

    fn new_object(&self, class: JavaClass, method: JavaMethod, args: &[JavaValue]) -> JavaObject;

    fn is_instance_of(&self, object: JavaObject, class: JavaClass) -> u8;

    fn is_assignable_from(&self, sub: JavaClass, sup: JavaClass) -> u8;

    fn call_static_boolean_method(&self, class: JavaClass, method: JavaMethod, args: &[JavaValue]) -> u8;

    fn call_static_object_method(
        &self,
        class: JavaClass,
        method: JavaMethod,
        args: &[JavaValue],
    ) -> JavaObject;

    fn get_string_utf_chars(&self, string: JavaString) -> RawString;

    fn release_string_utf_chars(&self, string: JavaString, chars: NativeAddress);

    fn call_long_method(&self, object: JavaObject, method: JavaMethod, args: &[JavaValue]) -> i64;

    fn call_object_method(&self, object: JavaObject, method: JavaMethod, args: &[JavaValue]) -> JavaObject;

    fn delete_local_ref(&self, object: JavaObject);

    fn new_global_ref(&self, object: JavaObject) -> JavaObject;

    fn delete_global_ref(&self, object: JavaObject);

    fn get_array_length(&self, array: JavaArray) -> i32;

    fn get_object_array_element(&self, array: JavaObjectArray, index: i32) -> JavaObject;
}

/// What a class lookup that returned `raw` amounts to: the class, or a
/// failure that names the class when the runtime returned null.
pub open spec fn class_found(raw: JavaClass, name: Seq<char>, result: Result<ClassId, JNIError>) -> bool {
    if null_handle(raw) {
        result matches Err(JNIError::ClassNotFound(missing)) && missing@ == name
    } else {
        result == Ok::<ClassId, JNIError>(ClassId { native_id: raw })
    }
}

/// What a method lookup that returned `raw` amounts to: the method, or a
/// failure that names it when the runtime returned null.
pub open spec fn method_found(
    raw: JavaMethod,
    name: Seq<char>,
    signature: Seq<char>,
    result: Result<MethodId, JNIError>,
) -> bool {
    if null_handle(raw) {
        result matches Err(JNIError::MethodNotFound(missing, missing_signature)) && missing@ == name
            && missing_signature@ == signature
    } else {
        result == Ok::<MethodId, JNIError>(MethodId { native_id: raw })
    }
}

/// Turns the handle a class lookup returned into its result.
pub fn class_lookup(raw: JavaClass, name: &str) -> (result: Result<ClassId, JNIError>)
    ensures
        class_found(raw, name@, result),
{
    if is_null(raw) {
        Err(JNIError::ClassNotFound(name.to_string()))
    } else {
        Ok(ClassId { native_id: raw })
    }
}

/// Turns the identifier a method lookup returned into its result.
pub fn method_lookup(raw: JavaMethod, name: &str, signature: &str) -> (result: Result<MethodId, JNIError>)
    ensures
        method_found(raw, name@, signature@, result),
{
    if is_null(raw) {
        Err(JNIError::MethodNotFound(name.to_string(), signature.to_string()))
    } else {
        Ok(MethodId { native_id: raw })
    }
}

/// The operations the runtime offers through its interop interface. A null
/// handle is refused with the error of its kind, object before class before
/// method before field, and no call is made for it.
pub trait JNI {
    /// The class of the given object.
    fn get_object_class(&self, object: &JavaObject) -> (result: Result<JavaClass, JNIError>)
        ensures
            null_handle(*object) ==> result matches Err(JNIError::ObjectIsNull),
    ;

    fn find_class(&self, clazz: &str) -> (result: Result<ClassId, JNIError>)
        requires
            has_no_terminator(clazz@),
        ensures
            result matches Ok(id) ==> !null_handle(id.native_id),
            result matches Err(error) ==> error matches JNIError::ClassNotFound(missing) && missing@ == clazz@,
    ;

    fn get_method(&self, class: &JavaClass, name: &str, sig: &str) -> (result: Result<MethodId, JNIError>)
        requires
            has_no_terminator(name@),
            has_no_terminator(sig@),
        ensures
            null_handle(*class) ==> result matches Err(JNIError::ClassObjectIsNull),
            result matches Ok(id) ==> !null_handle(id.native_id),
            !null_handle(*class) ==> (result matches Err(error) ==> {
                &&& error matches JNIError::MethodNotFound(missing, missing_signature)
                &&& missing@ == name@
                &&& missing_signature@ == sig@
            }),
    ;

    fn get_static_method(
        &self,
        class: &JavaClass,
        name: &str,
        sig: &str,
    ) -> (result: Result<MethodId, JNIError>)
        requires
            has_no_terminator(name@),
            has_no_terminator(sig@),
        ensures
            null_handle(*class) ==> result matches Err(JNIError::ClassObjectIsNull),
            result matches Ok(id) ==> !null_handle(id.native_id),
            !null_handle(*class) ==> (result matches Err(error) ==> {
                &&& error matches JNIError::MethodNotFound(missing, missing_signature)
                &&& missing@ == name@
                &&& missing_signature@ == sig@
            }),
    ;

    fn get_field_id(&self, class: &JavaClass, name: &str, sig: &str) -> (result: Result<JavaField, JNIError>)
        requires
            has_no_terminator(name@),
            has_no_terminator(sig@),
        ensures
            null_handle(*class) ==> result matches Err(JNIError::ClassObjectIsNull),
            !null_handle(*class) ==> result is Ok,
    ;

    fn new_string_utf(&self, str: &str) -> (result: Result<JavaString, JNIError>)
        requires
            has_no_terminator(str@),
        ensures
            result is Ok,
    ;

    fn get_string_utf_chars(&self, string: &JavaString) -> (result: Result<String, JNIError>)
        ensures
            null_handle(*string) ==> result matches Err(JNIError::ObjectIsNull),
            !null_handle(*string) ==> result is Ok,
    ;

    fn release_string_utf_chars(
        &self,
        str: &JavaString,
        chars: NativeAddress,
    ) -> (result: Result<(), JNIError>)
        ensures
            null_handle(*str) ==> result matches Err(JNIError::ObjectIsNull),
            !null_handle(*str) ==> result is Ok,
    ;

    fn new_object(
        &self,
        class: &JavaClass,
        method: &JavaMethod,
        args: &[JavaValue],
    ) -> (result: Result<JavaObject, JNIError>)
        ensures
            null_handle(*class) ==> result matches Err(JNIError::ClassObjectIsNull),
            !null_handle(*class) && null_handle(*method) ==> result matches Err(JNIError::MethodIsNull),
            !null_handle(*class) && !null_handle(*method) ==> result is Ok,
    ;

    fn new_global_ref(&self, object: &JavaObject) -> (result: Result<JavaObject, JNIError>)
        ensures
            null_handle(*object) ==> result matches Err(JNIError::ObjectIsNull),
            !null_handle(*object) ==> result is Ok,
    ;

    fn delete_global_ref(&self, object: &JavaObject) -> (result: Result<(), JNIError>)
        ensures
            null_handle(*object) ==> result matches Err(JNIError::ObjectIsNull),
            !null_handle(*object) ==> result is Ok,
    ;

    fn is_instance_of(&self, object: &JavaObject, class: &JavaClass) -> (result: Result<bool, JNIError>)
        ensures
            null_handle(*object) ==> result matches Err(JNIError::ObjectIsNull),
            !null_handle(*object) && null_handle(*class) ==> result matches Err(JNIError::ClassObjectIsNull),
            !null_handle(*object) && !null_handle(*class) ==> result is Ok,
    ;

    fn is_assignable_from(&self, sub: &JavaClass, sup: &JavaClass) -> (result: Result<bool, JNIError>)
        ensures
            null_handle(*sub) || null_handle(*sup) ==> result matches Err(JNIError::ClassObjectIsNull),
            !null_handle(*sub) && !null_handle(*sup) ==> result is Ok,
    ;

    fn call_static_boolean_method(
        &self,
        class: &JavaClass,
        method: &JavaMethod,
        args: &[JavaValue],
    ) -> (result: Result<bool, JNIError>)
        ensures
            null_handle(*class) ==> result matches Err(JNIError::ClassObjectIsNull),
            !null_handle(*class) && null_handle(*method) ==> result matches Err(JNIError::MethodIsNull),
            !null_handle(*class) && !null_handle(*method) ==> result is Ok,
    ;

    fn call_static_object_method(
        &self,
        class: &JavaClass,
        method: &JavaMethod,
        args: &[JavaValue],
    ) -> (result: Result<JavaObject, JNIError>)
        ensures
            null_handle(*class) ==> result matches Err(JNIError::ClassObjectIsNull),
            !null_handle(*class) && null_handle(*method) ==> result matches Err(JNIError::MethodIsNull),
            !null_handle(*class) && !null_handle(*method) ==> result is Ok,
    ;

    fn call_long_method(
        &self,
        object: &JavaObject,
        method: &JavaMethod,
        args: &[JavaValue],
    ) -> (result: Result<i64, JNIError>)
        ensures
            null_handle(*object) ==> result matches Err(JNIError::ObjectIsNull),
            !null_handle(*object) && null_handle(*method) ==> result matches Err(JNIError::MethodIsNull),
            !null_handle(*object) && !null_handle(*method) ==> result is Ok,
    ;

    fn call_object_method(
        &self,
        object: &JavaObject,
        method: &JavaMethod,
        args: &[JavaValue],
    ) -> (result: Result<JavaObject, JNIError>)
        ensures
            null_handle(*object) ==> result matches Err(JNIError::ObjectIsNull),
            !null_handle(*object) && null_handle(*method) ==> result matches Err(JNIError::MethodIsNull),
            !null_handle(*object) && !null_handle(*method) ==> result is Ok,
    ;

    fn delete_local_ref(&self, obj: &JavaObject) -> (result: Result<(), JNIError>)
        ensures
            null_handle(*obj) ==> result matches Err(JNIError::ObjectIsNull),
            !null_handle(*obj) ==> result is Ok,
    ;

    fn get_int_field(&self, obj: &JavaObject, field: &JavaField) -> (result: Result<i32, JNIError>)
        ensures
            null_handle(*obj) ==> result matches Err(JNIError::ObjectIsNull),
            !null_handle(*obj) && null_handle(*field) ==> result matches Err(JNIError::FieldIsNull),
            !null_handle(*obj) && !null_handle(*field) ==> result is Ok,
    ;

    fn get_object_field(&self, obj: &JavaObject, field: &JavaField) -> (result: Result<JavaObject, JNIError>)
        ensures
            null_handle(*obj) ==> result matches Err(JNIError::ObjectIsNull),
            !null_handle(*obj) && null_handle(*field) ==> result matches Err(JNIError::FieldIsNull),
            !null_handle(*obj) && !null_handle(*field) ==> result is Ok,
    ;

    fn get_array_length(&self, array: &JavaArray) -> (result: Result<i32, JNIError>)
        ensures
            null_handle(*array) ==> result matches Err(JNIError::ObjectIsNull),
            !null_handle(*array) ==> result is Ok,
    ;

    fn get_object_array_element(
        &self,
        array: &JavaObjectArray,
        index: i32,
    ) -> (result: Result<JavaObject, JNIError>)
        ensures
            null_handle(*array) ==> result matches Err(JNIError::ObjectIsNull),
            !null_handle(*array) ==> result is Ok,
    ;
}

/// The interop interface of a running process: each operation checks its
/// handles, makes the one native call, and turns what came back into a
/// result.
pub struct JNIEnvironment<N: NativeInterop> {
    pub jni: N,
}

impl<N: NativeInterop> JNIEnvironment<N> {
    pub fn new(jni: N) -> (environment: JNIEnvironment<N>)
        ensures
            environment.jni == jni,
    {
        JNIEnvironment { jni }
    }
}

impl<N: NativeInterop> JNI for JNIEnvironment<N> {
    fn get_object_class(&self, object: &JavaObject) -> (result: Result<JavaClass, JNIError>)
        ensures
            !null_handle(*object) ==> exists|raw: JavaClass|
                #[trigger] call_ensures(N::get_object_class, (&self.jni, *object), raw)
                    && result == Ok::<JavaClass, JNIError>(raw),
    {
        if is_null(*object) {
            return Err(JNIError::ObjectIsNull);
        }
        let raw = self.jni.get_object_class(*object);
        let result = Ok(raw);
        assert(call_ensures(N::get_object_class, (&self.jni, *object), raw)
            && result == Ok::<JavaClass, JNIError>(raw));
        result
    }

    fn find_class(&self, clazz: &str) -> (result: Result<ClassId, JNIError>)
        ensures
            exists|raw: JavaClass|
                #[trigger] call_ensures(N::find_class, (&self.jni, clazz), raw)
                    && class_found(raw, clazz@, result),
    {
        let raw = self.jni.find_class(clazz);
        let result = class_lookup(raw, clazz);
        assert(call_ensures(N::find_class, (&self.jni, clazz), raw) && class_found(raw, clazz@, result));
        result
    }

    fn get_method(&self, class: &JavaClass, name: &str, sig: &str) -> (result: Result<MethodId, JNIError>)
        ensures
            !null_handle(*class) ==> exists|raw: JavaMethod|
                #[trigger] call_ensures(N::get_method_id, (&self.jni, *class, name, sig), raw)
                    && method_found(raw, name@, sig@, result),
    {
        if is_null(*class) {
            return Err(JNIError::ClassObjectIsNull);
        }
        let raw = self.jni.get_method_id(*class, name, sig);
        let result = method_lookup(raw, name, sig);
        assert(call_ensures(N::get_method_id, (&self.jni, *class, name, sig), raw)
            && method_found(raw, name@, sig@, result));
        result
    }

    fn get_static_method(
        &self,
        class: &JavaClass,
        name: &str,
        sig: &str,
    ) -> (result: Result<MethodId, JNIError>)
        ensures
            !null_handle(*class) ==> exists|raw: JavaMethod|
                #[trigger] call_ensures(N::get_static_method_id, (&self.jni, *class, name, sig), raw)
                    && method_found(raw, name@, sig@, result),
    {
        if is_null(*class) {
            return Err(JNIError::ClassObjectIsNull);
        }
        let raw = self.jni.get_static_method_id(*class, name, sig);
        let result = method_lookup(raw, name, sig);
        assert(call_ensures(N::get_static_method_id, (&self.jni, *class, name, sig), raw)
            && method_found(raw, name@, sig@, result));
        result
    }

    fn get_field_id(&self, class: &JavaClass, name: &str, sig: &str) -> (result: Result<JavaField, JNIError>)
        ensures
            !null_handle(*class) ==> exists|raw: JavaField|
                #[trigger] call_ensures(N::get_field_id, (&self.jni, *class, name, sig), raw)
                    && result == Ok::<JavaField, JNIError>(raw),
    {
        if is_null(*class) {
            return Err(JNIError::ClassObjectIsNull);
        }
        let raw = self.jni.get_field_id(*class, name, sig);
        let result = Ok(raw);
        assert(call_ensures(N::get_field_id, (&self.jni, *class, name, sig), raw)
            && result == Ok::<JavaField, JNIError>(raw));
        result
    }

    fn new_string_utf(&self, str: &str) -> (result: Result<JavaString, JNIError>)
        ensures
            exists|raw: JavaString|
                #[trigger] call_ensures(N::new_string_utf, (&self.jni, str), raw)
                    && result == Ok::<JavaString, JNIError>(raw),
    {
        let raw = self.jni.new_string_utf(str);
        let result = Ok(raw);
        assert(call_ensures(N::new_string_utf, (&self.jni, str), raw)
            && result == Ok::<JavaString, JNIError>(raw));
        result
    }

    fn get_string_utf_chars(&self, string: &JavaString) -> (result: Result<String, JNIError>)
        ensures
            !null_handle(*string) ==> exists|raw: RawString|
                #[trigger] call_ensures(N::get_string_utf_chars, (&self.jni, *string), raw)
                    && (result matches Ok(text) && text@ == stringified(raw))
                    && (!null_handle(raw.address) ==> call_ensures(
                    N::release_string_utf_chars,
                    (&self.jni, *string, raw.address),
                    (),
                )),
    {
        if is_null(*string) {
            return Err(JNIError::ObjectIsNull);
        }
        let raw = self.jni.get_string_utf_chars(*string);
        let text = stringify(&raw);
        if !is_null(raw.address) {
            self.jni.release_string_utf_chars(*string, raw.address);
        }
        let result = Ok(text);
        assert(call_ensures(N::get_string_utf_chars, (&self.jni, *string), raw)
            && (result matches Ok(text) && text@ == stringified(raw))
            && (!null_handle(raw.address) ==> call_ensures(
            N::release_string_utf_chars,
            (&self.jni, *string, raw.address),
            (),
        )));
        result
    }

    fn release_string_utf_chars(
        &self,
        str: &JavaString,
        chars: NativeAddress,
    ) -> (result: Result<(), JNIError>)
        ensures
            !null_handle(*str) ==> call_ensures(N::release_string_utf_chars, (&self.jni, *str, chars), ())
                && result == Ok::<(), JNIError>(()),
    {
        if is_null(*str) {
            return Err(JNIError::ObjectIsNull);
        }
        self.jni.release_string_utf_chars(*str, chars);
        Ok(())
    }

    fn new_object(
        &self,
        class: &JavaClass,
        method: &JavaMethod,
        args: &[JavaValue],
    ) -> (result: Result<JavaObject, JNIError>)
        ensures
            !null_handle(*class) && !null_handle(*method) ==> exists|raw: JavaObject|
                #[trigger] call_ensures(N::new_object, (&self.jni, *class, *method, args), raw)
                    && result == Ok::<JavaObject, JNIError>(raw),
    {
        if is_null(*class) {
            return Err(JNIError::ClassObjectIsNull);
        }
        if is_null(*method) {
            return Err(JNIError::MethodIsNull);
        }
        let raw = self.jni.new_object(*class, *method, args);
        let result = Ok(raw);
        assert(call_ensures(N::new_object, (&self.jni, *class, *method, args), raw)
            && result == Ok::<JavaObject, JNIError>(raw));
        result
    }

    fn new_global_ref(&self, object: &JavaObject) -> (result: Result<JavaObject, JNIError>)
        ensures
            !null_handle(*object) ==> exists|raw: JavaObject|
                #[trigger] call_ensures(N::new_global_ref, (&self.jni, *object), raw)
                    && result == Ok::<JavaObject, JNIError>(raw),
    {
        if is_null(*object) {
            return Err(JNIError::ObjectIsNull);
        }
        let raw = self.jni.new_global_ref(*object);
        let result = Ok(raw);
        assert(call_ensures(N::new_global_ref, (&self.jni, *object), raw)
            && result == Ok::<JavaObject, JNIError>(raw));
        result
    }

    fn delete_global_ref(&self, object: &JavaObject) -> (result: Result<(), JNIError>)
        ensures
            !null_handle(*object) ==> call_ensures(N::delete_global_ref, (&self.jni, *object), ())
                && result == Ok::<(), JNIError>(()),
    {
        if is_null(*object) {
            return Err(JNIError::ObjectIsNull);
        }
        self.jni.delete_global_ref(*object);
        Ok(())
    }

    fn is_instance_of(&self, object: &JavaObject, class: &JavaClass) -> (result: Result<bool, JNIError>)
        ensures
            !null_handle(*object) && !null_handle(*class) ==> exists|raw: u8|
                #[trigger] call_ensures(N::is_instance_of, (&self.jni, *object, *class), raw)
                    && result == Ok::<bool, JNIError>(raw == TRUE),
    {
        if is_null(*object) {
            return Err(JNIError::ObjectIsNull);
        }
        if is_null(*class) {
            return Err(JNIError::ClassObjectIsNull);
        }
        let raw = self.jni.is_instance_of(*object, *class);
        let result = Ok(raw == TRUE);
        assert(call_ensures(N::is_instance_of, (&self.jni, *object, *class), raw)
            && result == Ok::<bool, JNIError>(raw == TRUE));
        result
    }

    fn is_assignable_from(&self, sub: &JavaClass, sup: &JavaClass) -> (result: Result<bool, JNIError>)
        ensures
            !null_handle(*sub) && !null_handle(*sup) ==> exists|raw: u8|
                #[trigger] call_ensures(N::is_assignable_from, (&self.jni, *sub, *sup), raw)
                    && result == Ok::<bool, JNIError>(raw == TRUE),
    {
        if is_null(*sub) {
            return Err(JNIError::ClassObjectIsNull);
        }
        if is_null(*sup) {
            return Err(JNIError::ClassObjectIsNull);
        }
        let raw = self.jni.is_assignable_from(*sub, *sup);
        let result = Ok(raw == TRUE);
        assert(call_ensures(N::is_assignable_from, (&self.jni, *sub, *sup), raw)
            && result == Ok::<bool, JNIError>(raw == TRUE));
        result
    }

    fn call_static_boolean_method(
        &self,
        class: &JavaClass,
        method: &JavaMethod,
        args: &[JavaValue],
    ) -> (result: Result<bool, JNIError>)
        ensures
            !null_handle(*class) && !null_handle(*method) ==> exists|raw: u8|
                #[trigger] call_ensures(N::call_static_boolean_method, (&self.jni, *class, *method, args), raw)
                    && result == Ok::<bool, JNIError>(raw == TRUE),
    {
        if is_null(*class) {
            return Err(JNIError::ClassObjectIsNull);
        }
        if is_null(*method) {
            return Err(JNIError::MethodIsNull);
        }
        let raw = self.jni.call_static_boolean_method(*class, *method, args);
        let result = Ok(raw == TRUE);
        assert(call_ensures(N::call_static_boolean_method, (&self.jni, *class, *method, args), raw)
            && result == Ok::<bool, JNIError>(raw == TRUE));
        result
    }

    fn call_static_object_method(
        &self,
        class: &JavaClass,
        method: &JavaMethod,
        args: &[JavaValue],
    ) -> (result: Result<JavaObject, JNIError>)
        ensures
            !null_handle(*class) && !null_handle(*method) ==> exists|raw: JavaObject|
                #[trigger] call_ensures(N::call_static_object_method, (&self.jni, *class, *method, args), raw)
                    && result == Ok::<JavaObject, JNIError>(raw),
    {
        if is_null(*class) {
            return Err(JNIError::ClassObjectIsNull);
        }
        if is_null(*method) {
            return Err(JNIError::MethodIsNull);
        }
        let raw = self.jni.call_static_object_method(*class, *method, args);
        let result = Ok(raw);
        assert(call_ensures(N::call_static_object_method, (&self.jni, *class, *method, args), raw)
            && result == Ok::<JavaObject, JNIError>(raw));
        result
    }

    fn call_long_method(
        &self,
        object: &JavaObject,
        method: &JavaMethod,
        args: &[JavaValue],
    ) -> (result: Result<i64, JNIError>)
        ensures
            !null_handle(*object) && !null_handle(*method) ==> exists|raw: i64|
                #[trigger] call_ensures(N::call_long_method, (&self.jni, *object, *method, args), raw)
                    && result == Ok::<i64, JNIError>(raw),
    {
        if is_null(*object) {
            return Err(JNIError::ObjectIsNull);
        }
        if is_null(*method) {
            return Err(JNIError::MethodIsNull);
        }
        let raw = self.jni.call_long_method(*object, *method, args);
        let result = Ok(raw);
        assert(call_ensures(N::call_long_method, (&self.jni, *object, *method, args), raw)
            && result == Ok::<i64, JNIError>(raw));
        result
    }

    fn call_object_method(
        &self,
        object: &JavaObject,
        method: &JavaMethod,
        args: &[JavaValue],
    ) -> (result: Result<JavaObject, JNIError>)
        ensures
            !null_handle(*object) && !null_handle(*method) ==> exists|raw: JavaObject|
                #[trigger] call_ensures(N::call_object_method, (&self.jni, *object, *method, args), raw)
                    && result == Ok::<JavaObject, JNIError>(raw),
    {
        if is_null(*object) {
            return Err(JNIError::ObjectIsNull);
        }
        if is_null(*method) {
            return Err(JNIError::MethodIsNull);
        }
        let raw = self.jni.call_object_method(*object, *method, args);
        let result = Ok(raw);
        assert(call_ensures(N::call_object_method, (&self.jni, *object, *method, args), raw)
            && result == Ok::<JavaObject, JNIError>(raw));
        result
    }

    fn delete_local_ref(&self, obj: &JavaObject) -> (result: Result<(), JNIError>)
        ensures
            !null_handle(*obj) ==> call_ensures(N::delete_local_ref, (&self.jni, *obj), ())
                && result == Ok::<(), JNIError>(()),
    {
        if is_null(*obj) {
            return Err(JNIError::ObjectIsNull);
        }
        self.jni.delete_local_ref(*obj);
        Ok(())
    }

    fn get_int_field(&self, obj: &JavaObject, field: &JavaField) -> (result: Result<i32, JNIError>)
        ensures
            !null_handle(*obj) && !null_handle(*field) ==> exists|raw: i32|
                #[trigger] call_ensures(N::get_int_field, (&self.jni, *obj, *field), raw)
                    && result == Ok::<i32, JNIError>(raw),
    {
        if is_null(*obj) {
            return Err(JNIError::ObjectIsNull);
        }
        if is_null(*field) {
            return Err(JNIError::FieldIsNull);
        }
        let raw = self.jni.get_int_field(*obj, *field);
        let result = Ok(raw);
        assert(call_ensures(N::get_int_field, (&self.jni, *obj, *field), raw)
            && result == Ok::<i32, JNIError>(raw));
        result
    }

    fn get_object_field(&self, obj: &JavaObject, field: &JavaField) -> (result: Result<JavaObject, JNIError>)
        ensures
            !null_handle(*obj) && !null_handle(*field) ==> exists|raw: JavaObject|
                #[trigger] call_ensures(N::get_object_field, (&self.jni, *obj, *field), raw)
                    && result == Ok::<JavaObject, JNIError>(raw),
    {
        if is_null(*obj) {
            return Err(JNIError::ObjectIsNull);
        }
        if is_null(*field) {
            return Err(JNIError::FieldIsNull);
        }
        let raw = self.jni.get_object_field(*obj, *field);
        let result = Ok(raw);
        assert(call_ensures(N::get_object_field, (&self.jni, *obj, *field), raw)
            && result == Ok::<JavaObject, JNIError>(raw));
        result
    }

    fn get_array_length(&self, array: &JavaArray) -> (result: Result<i32, JNIError>)
        ensures
            !null_handle(*array) ==> exists|raw: i32|
                #[trigger] call_ensures(N::get_array_length, (&self.jni, *array), raw)
                    && result == Ok::<i32, JNIError>(raw),
    {
        if is_null(*array) {
            return Err(JNIError::ObjectIsNull);
        }
        let raw = self.jni.get_array_length(*array);
        let result = Ok(raw);
        assert(call_ensures(N::get_array_length, (&self.jni, *array), raw)
            && result == Ok::<i32, JNIError>(raw));
        result
    }

    fn get_object_array_element(
        &self,
        array: &JavaObjectArray,
        index: i32,
    ) -> (result: Result<JavaObject, JNIError>)
        ensures
            !null_handle(*array) ==> exists|raw: JavaObject|
                #[trigger] call_ensures(N::get_object_array_element, (&self.jni, *array, index), raw)
                    && result == Ok::<JavaObject, JNIError>(raw),
    {
        if is_null(*array) {
            return Err(JNIError::ObjectIsNull);
        }
        let raw = self.jni.get_object_array_element(*array, index);
        let result = Ok(raw);
        assert(call_ensures(N::get_object_array_element, (&self.jni, *array, index), raw)
            && result == Ok::<JavaObject, JNIError>(raw));
        result
    }
}

} // verus!
