//! The JavaScript values the effect reads its options from, and the calls into
//! `wasm-bindgen` and `js-sys` that it makes on them.
//!
//! A `JsValue` is a handle into the JavaScript heap; what it holds, and so what
//! these calls return, depends on that heap, which nothing here can see. The
//! wrappers therefore state nothing of their results: the verified code that
//! calls them takes whatever comes back.

use vstd::prelude::*;
use wasm_bindgen::JsValue;

verus! {

#[verifier::external_type_specification]
#[verifier::external_body]
pub struct ExJsValue(JsValue);

/// Calls `JsValue::from_str`, which copies `s` into a new JavaScript string.
/// Nothing is stated of the handle returned.
#[verifier::external_body]
pub(crate) fn js_string(s: &str) -> JsValue {
    JsValue::from_str(s)
}

/// Calls `js_sys::Reflect::get`, which reads property `key` of `target` (or fails
/// with the exception thrown). Nothing is stated of the result: it depends on the
/// JavaScript object.
#[verifier::external_body]
pub(crate) fn reflect_get(target: &JsValue, key: &JsValue) -> Result<JsValue, JsValue> {
    js_sys::Reflect::get(target, key)
}

/// Calls `js_sys::Reflect::set`, which sets property `key` of `target` to `value`.
/// Nothing is stated of the result.
#[verifier::external_body]
pub(crate) fn reflect_set(target: &JsValue, key: &JsValue, value: &JsValue) -> Result<bool, JsValue> {
    js_sys::Reflect::set(target, key, value)
}

/// Calls `JsValue::as_string`: the text of a JavaScript string, `None` for any
/// other value. Nothing is stated of the result: it depends on the JavaScript value.
#[verifier::external_body]
pub(crate) fn js_as_string(v: &JsValue) -> Option<String> {
    v.as_string()
}

/// Calls `JsValue::as_bool`: the value of a JavaScript boolean, `None` for any
/// other value. Nothing is stated of the result: it depends on the JavaScript value.
#[verifier::external_body]
pub(crate) fn js_as_bool(v: &JsValue) -> Option<bool> {
    v.as_bool()
}

/// Calls `JsValue::is_string`: whether the value is a JavaScript string. Nothing
/// is stated of the result: it depends on the JavaScript value.
#[verifier::external_body]
pub(crate) fn js_is_string(v: &JsValue) -> bool {
    v.is_string()
}

/// Calls `js_sys::Object::new`, which creates an empty JavaScript object, and hands
/// it back as a `JsValue`. Nothing is stated of the handle returned.
#[verifier::external_body]
pub(crate) fn js_new_object() -> JsValue {
    JsValue::from(js_sys::Object::new())
}

} // verus!
