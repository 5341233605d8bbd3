use std::cell::Cell;
use std::cell::RefCell;

use jvmti::class::ClassId;
use jvmti::environment::jni::JNIEnvironment;
use jvmti::environment::jni::JNIError;
use jvmti::environment::jni::JavaValue;
use jvmti::environment::jni::NativeInterop;
use jvmti::environment::jni::JNI;
use jvmti::environment::jni::class_lookup;
use jvmti::environment::jni::method_lookup;
use jvmti::method::MethodId;
use jvmti::native::RawString;
use jvmti::object::ObjectRef;
use jvmti::object::ReferenceKind;

/// An interop table that counts the calls made through it and answers each
/// with the handle it was set up with.
struct RecordingInterop {
    calls: Cell<u32>,
    answer: u64,
    truth: u8,
    chars: RawString,
    log: RefCell<Vec<String>>,
}

impl RecordingInterop {
    fn new(answer: u64) -> RecordingInterop {
        RecordingInterop {
            calls: Cell::new(0),
            answer,
            truth: 1,
            chars: RawString { address: 0x900, bytes: "text".as_bytes().to_vec() },
            log: RefCell::new(Vec::new()),
        }
    }

    fn note(&self, what: String) {
        self.calls.set(self.calls.get() + 1);
        self.log.borrow_mut().push(what);
    }
}

impl NativeInterop for RecordingInterop {
    fn get_object_class(&self, object: u64) -> u64 {
        self.note(format!("GetObjectClass {}", object));
        self.answer
    }

    fn find_class(&self, name: &str) -> u64 {
        self.note(format!("FindClass {}", name));
        self.answer
    }

    fn get_method_id(&self, class: u64, name: &str, signature: &str) -> u64 {
        self.note(format!("GetMethodID {} {} {}", class, name, signature));
        self.answer
    }

    fn get_static_method_id(&self, class: u64, name: &str, signature: &str) -> u64 {
        self.note(format!("GetStaticMethodID {} {} {}", class, name, signature));
        self.answer
    }

    fn get_field_id(&self, class: u64, name: &str, signature: &str) -> u64 {
        self.note(format!("GetFieldID {} {} {}", class, name, signature));
        self.answer
    }

    fn get_int_field(&self, object: u64, field: u64) -> i32 {
        self.note(format!("GetIntField {} {}", object, field));
        -17
    }

    fn get_object_field(&self, object: u64, field: u64) -> u64 {
        self.note(format!("GetObjectField {} {}", object, field));
        self.answer
    }

    fn new_string_utf(&self, text: &str) -> u64 {
        self.note(format!("NewStringUTF {}", text));
        self.answer
    }

    fn new_object(&self, class: u64, method: u64, args: &[JavaValue]) -> u64 {
        self.note(format!("NewObjectA {} {} {}", class, method, args.len()));
        self.answer
    }

    fn is_instance_of(&self, object: u64, class: u64) -> u8 {
        self.note(format!("IsInstanceOf {} {}", object, class));
        self.truth
    }

    fn is_assignable_from(&self, sub: u64, sup: u64) -> u8 {
        self.note(format!("IsAssignableFrom {} {}", sub, sup));
        self.truth
    }

    fn call_static_boolean_method(&self, class: u64, method: u64, args: &[JavaValue]) -> u8 {
        self.note(format!("CallStaticBooleanMethodA {} {} {}", class, method, args.len()));
        self.truth
    }

    fn call_static_object_method(&self, class: u64, method: u64, args: &[JavaValue]) -> u64 {
        self.note(format!("CallStaticObjectMethodA {} {} {}", class, method, args.len()));
        self.answer
    }

    fn get_string_utf_chars(&self, string: u64) -> RawString {
        self.note(format!("GetStringUTFChars {}", string));
        self.chars.clone()
    }

    fn release_string_utf_chars(&self, string: u64, chars: u64) {
        self.note(format!("ReleaseStringUTFChars {} {}", string, chars));
    }

    fn call_long_method(&self, object: u64, method: u64, args: &[JavaValue]) -> i64 {
        self.note(format!("CallLongMethodA {} {} {}", object, method, args.len()));
        1 << 40
    }

    fn call_object_method(&self, object: u64, method: u64, args: &[JavaValue]) -> u64 {
        self.note(format!("CallObjectMethodA {} {} {}", object, method, args.len()));
        self.answer
    }

    fn delete_local_ref(&self, object: u64) {
        self.note(format!("DeleteLocalRef {}", object));
    }

    fn new_global_ref(&self, object: u64) -> u64 {
        self.note(format!("NewGlobalRef {}", object));
        self.answer
    }

    fn delete_global_ref(&self, object: u64) {
        self.note(format!("DeleteGlobalRef {}", object));
    }

    fn get_array_length(&self, array: u64) -> i32 {
        self.note(format!("GetArrayLength {}", array));
        12
    }

    fn get_object_array_element(&self, array: u64, index: i32) -> u64 {
        self.note(format!("GetObjectArrayElement {} {}", array, index));
        self.answer
    }
}

fn interop(answer: u64) -> JNIEnvironment<RecordingInterop> {
    JNIEnvironment::new(RecordingInterop::new(answer))
}

#[test]
fn null_object_is_refused_without_a_native_call() {
    let env = interop(5);
    let args = [JavaValue::Int(1)];
    assert_eq!(env.get_object_class(&0), Err(JNIError::ObjectIsNull));
    assert_eq!(env.get_int_field(&0, &3), Err(JNIError::ObjectIsNull));
    assert_eq!(env.get_object_field(&0, &3), Err(JNIError::ObjectIsNull));
    assert_eq!(env.is_instance_of(&0, &3), Err(JNIError::ObjectIsNull));
    assert_eq!(env.call_long_method(&0, &3, &args), Err(JNIError::ObjectIsNull));
    assert_eq!(env.call_object_method(&0, &3, &args), Err(JNIError::ObjectIsNull));
    assert_eq!(env.delete_local_ref(&0), Err(JNIError::ObjectIsNull));
    assert_eq!(env.new_global_ref(&0), Err(JNIError::ObjectIsNull));
    assert_eq!(env.delete_global_ref(&0), Err(JNIError::ObjectIsNull));
    assert_eq!(env.get_string_utf_chars(&0), Err(JNIError::ObjectIsNull));
    assert_eq!(env.release_string_utf_chars(&0, 0x900), Err(JNIError::ObjectIsNull));
    assert_eq!(env.get_array_length(&0), Err(JNIError::ObjectIsNull));
    assert_eq!(env.get_object_array_element(&0, 2), Err(JNIError::ObjectIsNull));
    assert_eq!(env.jni.calls.get(), 0);
}

#[test]
fn null_class_is_refused_without_a_native_call() {
    let env = interop(5);
    let args = [JavaValue::Int(1)];
    assert_eq!(env.get_method(&0, "run", "()V"), Err(JNIError::ClassObjectIsNull));
    assert_eq!(env.get_static_method(&0, "run", "()V"), Err(JNIError::ClassObjectIsNull));
    assert_eq!(env.get_field_id(&0, "count", "I"), Err(JNIError::ClassObjectIsNull));
    assert_eq!(env.new_object(&0, &3, &args), Err(JNIError::ClassObjectIsNull));
    assert_eq!(env.is_instance_of(&4, &0), Err(JNIError::ClassObjectIsNull));
    assert_eq!(env.is_assignable_from(&0, &4), Err(JNIError::ClassObjectIsNull));
    assert_eq!(env.is_assignable_from(&4, &0), Err(JNIError::ClassObjectIsNull));
    assert_eq!(env.is_assignable_from(&0, &0), Err(JNIError::ClassObjectIsNull));
    assert_eq!(env.call_static_boolean_method(&0, &3, &args), Err(JNIError::ClassObjectIsNull));
    assert_eq!(env.call_static_object_method(&0, &3, &args), Err(JNIError::ClassObjectIsNull));
    assert_eq!(env.jni.calls.get(), 0);
}

#[test]
fn null_method_is_refused_without_a_native_call() {
    let env = interop(5);
    let args = [JavaValue::Int(1)];
    assert_eq!(env.new_object(&4, &0, &args), Err(JNIError::MethodIsNull));
    assert_eq!(env.call_static_boolean_method(&4, &0, &args), Err(JNIError::MethodIsNull));
    assert_eq!(env.call_static_object_method(&4, &0, &args), Err(JNIError::MethodIsNull));
    assert_eq!(env.call_long_method(&4, &0, &args), Err(JNIError::MethodIsNull));
    assert_eq!(env.call_object_method(&4, &0, &args), Err(JNIError::MethodIsNull));
    assert_eq!(env.jni.calls.get(), 0);
}

#[test]
fn null_field_is_refused_without_a_native_call() {
    let env = interop(5);
    assert_eq!(env.get_int_field(&4, &0), Err(JNIError::FieldIsNull));
    assert_eq!(env.get_object_field(&4, &0), Err(JNIError::FieldIsNull));
    assert_eq!(env.jni.calls.get(), 0);
}

#[test]
fn the_object_is_checked_before_the_other_handles() {
    let env = interop(5);
    let args: [JavaValue; 0] = [];
    assert_eq!(env.get_int_field(&0, &0), Err(JNIError::ObjectIsNull));
    assert_eq!(env.is_instance_of(&0, &0), Err(JNIError::ObjectIsNull));
    assert_eq!(env.call_long_method(&0, &0, &args), Err(JNIError::ObjectIsNull));
    assert_eq!(env.new_object(&0, &0, &args), Err(JNIError::ClassObjectIsNull));
    assert_eq!(env.jni.calls.get(), 0);
}

#[test]
fn valid_handles_make_one_call_and_return_its_answer() {
    let env = interop(5);
    let args = [JavaValue::Int(1), JavaValue::null()];
    assert_eq!(env.get_object_class(&7), Ok(5));
    assert_eq!(env.get_field_id(&7, "count", "I"), Ok(5));
    assert_eq!(env.get_int_field(&7, &8), Ok(-17));
    assert_eq!(env.get_object_field(&7, &8), Ok(5));
    assert_eq!(env.new_string_utf("hello"), Ok(5));
    assert_eq!(env.new_object(&7, &8, &args), Ok(5));
    assert_eq!(env.is_instance_of(&7, &8), Ok(true));
    assert_eq!(env.is_assignable_from(&7, &8), Ok(true));
    assert_eq!(env.call_static_boolean_method(&7, &8, &args), Ok(true));
    assert_eq!(env.call_static_object_method(&7, &8, &args), Ok(5));
    assert_eq!(env.call_long_method(&7, &8, &args), Ok(1 << 40));
    assert_eq!(env.call_object_method(&7, &8, &args), Ok(5));
    assert_eq!(env.delete_local_ref(&7), Ok(()));
    assert_eq!(env.new_global_ref(&7), Ok(5));
    assert_eq!(env.delete_global_ref(&7), Ok(()));
    assert_eq!(env.get_array_length(&7), Ok(12));
    assert_eq!(env.get_object_array_element(&7, 3), Ok(5));
    assert_eq!(env.release_string_utf_chars(&7, 0x900), Ok(()));
    assert_eq!(env.jni.calls.get(), 18);
    let log = env.jni.log.borrow();
    assert_eq!(log[0], "GetObjectClass 7");
    assert_eq!(log[1], "GetFieldID 7 count I");
    assert_eq!(log[5], "NewObjectA 7 8 2");
    assert_eq!(log[16], "GetObjectArrayElement 7 3");
    assert_eq!(log[17], "ReleaseStringUTFChars 7 2304");
}

#[test]
fn native_truth_values_other_than_one_are_false() {
    let mut table = RecordingInterop::new(5);
    table.truth = 0;
    let env = JNIEnvironment::new(table);
    assert_eq!(env.is_instance_of(&7, &8), Ok(false));
    assert_eq!(env.is_assignable_from(&7, &8), Ok(false));
    assert_eq!(env.call_static_boolean_method(&7, &8, &[]), Ok(false));
    let mut table = RecordingInterop::new(5);
    table.truth = 2;
    let env = JNIEnvironment::new(table);
    assert_eq!(env.is_instance_of(&7, &8), Ok(false));
}

#[test]
fn find_class_names_the_class_it_did_not_find() {
    let env = interop(0);
    assert_eq!(env.find_class("java/lang/Missing"), Err(JNIError::ClassNotFound("java/lang/Missing".to_string())));
    assert_eq!(env.jni.calls.get(), 1);
    let env = interop(44);
    assert_eq!(env.find_class("java/lang/String"), Ok(ClassId { native_id: 44 }));
}

#[test]
fn method_lookups_name_the_method_they_did_not_find() {
    let env = interop(0);
    assert_eq!(
        env.get_method(&7, "run", "()V"),
        Err(JNIError::MethodNotFound("run".to_string(), "()V".to_string()))
    );
    assert_eq!(
        env.get_static_method(&7, "main", "([Ljava/lang/String;)V"),
        Err(JNIError::MethodNotFound("main".to_string(), "([Ljava/lang/String;)V".to_string()))
    );
    let env = interop(45);
    assert_eq!(env.get_method(&7, "run", "()V"), Ok(MethodId { native_id: 45 }));
    assert_eq!(env.get_static_method(&7, "main", "()V"), Ok(MethodId { native_id: 45 }));
    assert_eq!(env.jni.log.borrow()[0], "GetMethodID 7 run ()V");
    assert_eq!(env.jni.log.borrow()[1], "GetStaticMethodID 7 main ()V");
}

#[test]
fn lookups_turn_the_returned_handle_into_a_result() {
    assert_eq!(class_lookup(3, "A"), Ok(ClassId { native_id: 3 }));
    assert_eq!(class_lookup(0, "A"), Err(JNIError::ClassNotFound("A".to_string())));
    assert_eq!(method_lookup(3, "m", "()I"), Ok(MethodId { native_id: 3 }));
    assert_eq!(method_lookup(0, "m", "()I"), Err(JNIError::MethodNotFound("m".to_string(), "()I".to_string())));
}

#[test]
fn get_string_utf_chars_reads_and_releases_the_characters() {
    let env = interop(5);
    assert_eq!(env.get_string_utf_chars(&7), Ok("text".to_string()));
    let log = env.jni.log.borrow();
    assert_eq!(log.len(), 2);
    assert_eq!(log[0], "GetStringUTFChars 7");
    assert_eq!(log[1], "ReleaseStringUTFChars 7 2304");
}

#[test]
fn get_string_utf_chars_releases_nothing_for_null_characters() {
    let mut table = RecordingInterop::new(5);
    table.chars = RawString { address: 0, bytes: Vec::new() };
    let env = JNIEnvironment::new(table);
    assert_eq!(env.get_string_utf_chars(&7), Ok("(NULL)".to_string()));
    assert_eq!(env.jni.calls.get(), 1);
}

#[test]
fn java_value_null_is_the_null_object() {
    assert_eq!(JavaValue::null(), JavaValue::Object(0));
}

#[test]
fn java_values_are_made_from_plain_values() {
    assert_eq!(JavaValue::from(7i32), JavaValue::Int(7));
    assert_eq!(JavaValue::from(-7i64), JavaValue::Long(-7));
    assert_eq!(JavaValue::from(9u64), JavaValue::Object(9));
    assert_eq!(JavaValue::from(1u8), JavaValue::Boolean(1));
    assert_eq!(JavaValue::from(-1i8), JavaValue::Byte(-1));
    assert_eq!(JavaValue::from(65u16), JavaValue::Char(65));
    assert_eq!(JavaValue::from(-300i16), JavaValue::Short(-300));
    let value: JavaValue = 5i32.into();
    assert_eq!(value, JavaValue::Int(5));
}

#[test]
fn a_local_reference_is_released_as_a_local_one() {
    let env = interop(5);
    let reference = ObjectRef::local(7);
    assert_eq!(reference, ObjectRef { native_id: 7, kind: ReferenceKind::Local });
    assert_eq!(reference.release(&env), Ok(()));
    assert_eq!(*env.jni.log.borrow(), vec!["DeleteLocalRef 7"]);
}

#[test]
fn a_promoted_reference_is_global_and_released_as_a_global_one() {
    let env = interop(55);
    let reference = ObjectRef::local(7);
    let promoted = reference.promote(&env).unwrap();
    assert_eq!(promoted, ObjectRef { native_id: 55, kind: ReferenceKind::Global });
    assert_eq!(promoted.release(&env), Ok(()));
    assert_eq!(reference.release(&env), Ok(()));
    assert_eq!(*env.jni.log.borrow(), vec!["NewGlobalRef 7", "DeleteGlobalRef 55", "DeleteLocalRef 7"]);
}

#[test]
fn a_null_reference_is_neither_promoted_nor_released() {
    let env = interop(55);
    assert_eq!(ObjectRef::unknown(), ObjectRef { native_id: 0, kind: ReferenceKind::Local });
    assert_eq!(ObjectRef::unknown().promote(&env), Err(JNIError::ObjectIsNull));
    assert_eq!(ObjectRef::unknown().release(&env), Err(JNIError::ObjectIsNull));
    assert_eq!(ObjectRef { native_id: 0, kind: ReferenceKind::Global }.release(&env), Err(JNIError::ObjectIsNull));
    assert_eq!(env.jni.calls.get(), 0);
}
