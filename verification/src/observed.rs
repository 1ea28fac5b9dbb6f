//! Records of what the browser was asked and what it answered.
//!
//! What WebGL and the JavaScript heap answer cannot be stated in advance, so the
//! library states its results in terms of these answers instead. Each record here
//! can only be made by the function beside it that makes the call: its fields are
//! private, so a record says which call, with which arguments, gave which answer,
//! and the reports built from records cannot claim any other.

use vstd::prelude::*;
use wasm_bindgen::JsValue;
use web_sys::{WebGl2RenderingContext, WebGlProgram, WebGlShader, WebGlUniformLocation};

use crate::js::{js_as_bool, js_as_string, js_is_string, reflect_get, js_string};
use crate::setup::text_option;
use crate::shader::{gl_create_shader, gl_get_uniform_location};

verus! {

/// A shader object the context was asked to create, with the type asked for.
pub struct ShaderCreation {
    kind: u32,
    shader: Option<WebGlShader>,
}

impl ShaderCreation {
    /// The shader type the context was asked for.
    pub closed spec fn kind(self) -> u32 {
        self.kind
    }

    /// The shader object the context created, if any.
    pub closed spec fn shader(self) -> Option<WebGlShader> {
        self.shader
    }
}

/// Asks the context for a new shader object of type `kind`.
pub fn create_shader(gl: &WebGl2RenderingContext, kind: u32) -> (r: (Option<WebGlShader>, Ghost<ShaderCreation>))
    ensures
        r.1@.kind() == kind,
        r.1@.shader() == r.0,
{
    let shader = gl_create_shader(gl, kind);
    let ghost rec = ShaderCreation { kind, shader };
    (shader, Ghost(rec))
}

/// Where a program was asked to keep a uniform, and its answer.
pub struct UniformAnswer {
    program: WebGlProgram,
    name: Seq<char>,
    location: Option<WebGlUniformLocation>,
}

impl UniformAnswer {
    /// The program asked.
    pub closed spec fn program(self) -> WebGlProgram {
        self.program
    }

    /// The uniform asked for.
    pub closed spec fn name(self) -> Seq<char> {
        self.name
    }

    /// Where the program keeps it, if it has it.
    pub closed spec fn location(self) -> Option<WebGlUniformLocation> {
        self.location
    }
}

/// Asks `program` where it keeps uniform `name`.
pub fn uniform_location(gl: &WebGl2RenderingContext, program: &WebGlProgram, name: &str) -> (r: (
    Option<WebGlUniformLocation>,
    Ghost<UniformAnswer>,
))
    ensures
        r.1@.program() == *program,
        r.1@.name() == name@,
        r.1@.location() == r.0,
{
    let location = gl_get_uniform_location(gl, program, name);
    let ghost rec = UniformAnswer { program: *program, name: name@, location };
    (location, Ghost(rec))
}

/// A property of a JavaScript object that was read, and the value read (none when
/// reading threw).
pub struct PropertyAnswer {
    target: JsValue,
    key: Seq<char>,
    value: Option<JsValue>,
}

impl PropertyAnswer {
    /// The object read.
    pub closed spec fn target(self) -> JsValue {
        self.target
    }

    /// The property read.
    pub closed spec fn key(self) -> Seq<char> {
        self.key
    }

    /// The value read, none when reading threw.
    pub closed spec fn value(self) -> Option<JsValue> {
        self.value
    }
}

/// Reads property `key` of `target`; none when reading throws.
pub fn get_property(target: &JsValue, key: &str) -> (r: (Option<JsValue>, Ghost<PropertyAnswer>))
    ensures
        r.1@.target() == *target,
        r.1@.key() == key@,
        r.1@.value() == r.0,
{
    match reflect_get(target, &js_string(key)) {
        Ok(v) => {
            let ghost rec = PropertyAnswer { target: *target, key: key@, value: Some(v) };
            (Some(v), Ghost(rec))
        },
        Err(_) => (None, Ghost(PropertyAnswer { target: *target, key: key@, value: None })),
    }
}

/// A JavaScript value that was converted to a Rust value, and what the conversion
/// gave (none when the value is not of that kind).
pub struct ConversionAnswer<T> {
    value: JsValue,
    converted: Option<T>,
}

impl<T> ConversionAnswer<T> {
    /// The value converted.
    pub closed spec fn value(self) -> JsValue {
        self.value
    }

    /// What the conversion gave.
    pub closed spec fn converted(self) -> Option<T> {
        self.converted
    }
}

/// The text of `v` when it is a JavaScript string.
pub fn as_text(v: &JsValue) -> (r: (Option<String>, Ghost<ConversionAnswer<Seq<char>>>))
    ensures
        r.1@.value() == *v,
        r.1@.converted() == text_option(r.0),
{
    let text = js_as_string(v);
    let ghost rec = ConversionAnswer { value: *v, converted: text_option(text) };
    (text, Ghost(rec))
}

/// The value of `v` when it is a JavaScript boolean.
pub fn as_flag(v: &JsValue) -> (r: (Option<bool>, Ghost<ConversionAnswer<bool>>))
    ensures
        r.1@.value() == *v,
        r.1@.converted() == r.0,
{
    let flag = js_as_bool(v);
    (flag, Ghost(ConversionAnswer { value: *v, converted: flag }))
}

/// A JavaScript value that was asked whether it is a string, and the answer.
pub struct StringCheck {
    value: JsValue,
    is_string: bool,
}

impl StringCheck {
    /// The value asked.
    pub closed spec fn value(self) -> JsValue {
        self.value
    }

    /// Whether it is a string.
    pub closed spec fn is_string(self) -> bool {
        self.is_string
    }
}

/// Whether `v` is a JavaScript string.
pub fn check_string(v: &JsValue) -> (r: (bool, Ghost<StringCheck>))
    ensures
        r.1@.value() == *v,
        r.1@.is_string() == r.0,
{
    let is_string = js_is_string(v);
    (is_string, Ghost(StringCheck { value: *v, is_string }))
}

} // verus!
