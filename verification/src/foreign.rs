//! The calls into `wasm_bindgen`, `js_sys` and `web_sys`.
//!
//! Everything in this file is taken on trust: Verus reads the contracts and
//! not the bodies. A value of the JavaScript runtime is opaque here and the
//! runtime may change it at any time, so nothing is promised about what comes
//! back, and the code that calls these is proved for every value that may.
//!
//! `wasm_bindgen` links its imports only on wasm targets. On any other target
//! each of these panics when called.

use vstd::prelude::*;

verus! {

/// `wasm_bindgen::JsValue`: a handle to a value that the JavaScript runtime
/// owns. Nothing of the value is visible to Verus.
#[verifier::external_type_specification]
#[verifier::external_body]
pub struct ExJsValue(wasm_bindgen::JsValue);

/// `js_sys::Array`: a handle to a JavaScript array. The entries live in the
/// runtime, which may change them at any time.
#[verifier::external_type_specification]
#[verifier::external_body]
#[verifier::reject_recursive_types(T)]
pub struct ExArray<T>(js_sys::Array<T>);

/// `web_sys::SvgsvgElement`: a handle to an `<svg>` node of a document.
#[verifier::external_type_specification]
#[verifier::external_body]
pub struct ExSvgsvgElement(web_sys::SvgsvgElement);

/// `js_sys::Array::length`: the number of entries at the time of the call.
/// The runtime may change a list between two calls, so nothing is promised
/// about the number.
#[verifier::external_body]
pub(crate) fn list_len(list: &js_sys::Array) -> (len: u32) {
    list.length()
}

/// `js_sys::Array::get`, then `JsValue::as_string` on the entry: the entry at
/// `index` as text, or `None` if it is not a string. An index past the end
/// reads `undefined`, which is not a string.
#[verifier::external_body]
pub(crate) fn list_text_at(list: &js_sys::Array, index: u32) -> (text: Option<String>) {
    list.get(index).as_string()
}

/// `JsValue::as_string`: the text of a value that is a string, or `None`.
/// Nothing is promised about which.
#[verifier::external_body]
pub(crate) fn text_of(value: &wasm_bindgen::JsValue) -> (text: Option<String>) {
    value.as_string()
}

/// `JsCast::dyn_into` to `js_sys::Array`: the value as a list, if
/// `Array.isArray` says it is one.
#[verifier::external_body]
pub(crate) fn as_list(value: wasm_bindgen::JsValue) -> (list: Option<js_sys::Array>) {
    wasm_bindgen::JsCast::dyn_into::<js_sys::Array>(value).ok()
}

/// `JsCast::dyn_into` to `web_sys::SvgsvgElement`: the value as an element, if
/// it is an instance of `SVGSVGElement`.
#[verifier::external_body]
pub(crate) fn as_element(value: wasm_bindgen::JsValue) -> (element: Option<
    web_sys::SvgsvgElement,
>) {
    wasm_bindgen::JsCast::dyn_into::<web_sys::SvgsvgElement>(value).ok()
}

/// `JsCast::is_instance_of` for `js_sys::Object`: whether the value is an
/// instance of `Object`.
#[verifier::external_body]
pub(crate) fn is_object(value: &wasm_bindgen::JsValue) -> (yes: bool) {
    wasm_bindgen::JsCast::is_instance_of::<js_sys::Object>(value)
}

/// `JsCast::is_instance_of` for `web_sys::Window`: whether the value is an
/// instance of `Window`.
#[verifier::external_body]
pub(crate) fn is_window(value: &wasm_bindgen::JsValue) -> (yes: bool) {
    wasm_bindgen::JsCast::is_instance_of::<web_sys::Window>(value)
}

/// `js_sys::global`: the global scope object, or `undefined` where the runtime
/// has none.
#[verifier::external_body]
pub(crate) fn global_scope() -> (scope: wasm_bindgen::JsValue) {
    js_sys::global().into()
}

/// `js_sys::Reflect::get`: reads `target[key]`. `Err` holds what the runtime
/// threw.
#[verifier::external_body]
pub(crate) fn property(target: &wasm_bindgen::JsValue, key: &str) -> (read: Result<
    wasm_bindgen::JsValue,
    wasm_bindgen::JsValue,
>) {
    js_sys::Reflect::get(target, &wasm_bindgen::JsValue::from_str(key))
}

/// `js_sys::Reflect::set`: writes `target[key] = value`. `Err` holds what the
/// runtime threw.
#[verifier::external_body]
pub(crate) fn set_property(
    target: &wasm_bindgen::JsValue,
    key: &str,
    value: &wasm_bindgen::JsValue,
) -> (written: Result<bool, wasm_bindgen::JsValue>) {
    js_sys::Reflect::set(target, &wasm_bindgen::JsValue::from_str(key), value)
}

/// `js_sys::Function::call0`: calls `function` with `this` and no argument.
/// `Err` holds what was thrown, also where `function` is no function.
#[verifier::external_body]
pub(crate) fn call0(function: &wasm_bindgen::JsValue, this: &wasm_bindgen::JsValue) -> (returned:
    Result<wasm_bindgen::JsValue, wasm_bindgen::JsValue>) {
    wasm_bindgen::JsCast::unchecked_ref::<js_sys::Function>(function).call0(this)
}

/// `js_sys::Function::call2`: calls `function` with `this` and two arguments.
/// `Err` holds what was thrown, also where `function` is no function.
#[verifier::external_body]
pub(crate) fn call2(
    function: &wasm_bindgen::JsValue,
    this: &wasm_bindgen::JsValue,
    first: &wasm_bindgen::JsValue,
    second: &wasm_bindgen::JsValue,
) -> (returned: Result<wasm_bindgen::JsValue, wasm_bindgen::JsValue>) {
    wasm_bindgen::JsCast::unchecked_ref::<js_sys::Function>(function).call2(this, first, second)
}

/// `js_sys::Object::new`: a fresh object without properties of its own.
#[verifier::external_body]
pub(crate) fn new_object() -> (object: wasm_bindgen::JsValue) {
    js_sys::Object::new().into()
}

/// `JsValue::from_str`: a JavaScript string with the text of `text`.
#[verifier::external_body]
pub(crate) fn js_string(text: &str) -> (value: wasm_bindgen::JsValue) {
    wasm_bindgen::JsValue::from_str(text)
}

/// `JsValue::from_bool`: the JavaScript `true` or `false`.
#[verifier::external_body]
pub(crate) fn js_bool(flag: bool) -> (value: wasm_bindgen::JsValue) {
    wasm_bindgen::JsValue::from_bool(flag)
}

} // verus!
