//! The calls into the WebGL bindings that the library makes.
//!
//! Nothing in this file is proved. What a call returns is decided by the
//! browser's graphics driver, so no contract here promises anything of a
//! result: the callers are verified for every value that may come back.
//! The bindings exist on the `wasm32` target only; on any other target each
//! of these calls panics, and no value of the handle types below can be
//! obtained from a browser there.

use vstd::prelude::*;
use wasm_bindgen::JsValue;
use web_sys::{WebGlProgram, WebGlRenderingContext, WebGlShader, WebGlUniformLocation};

verus! {

/// `web_sys::WebGlRenderingContext`: the handle of a WebGL 1 context. Opaque.
#[verifier::external_type_specification]
#[verifier::external_body]
pub struct ExWebGlRenderingContext(web_sys::WebGlRenderingContext);

/// `web_sys::WebGlShader`: the handle of a shader object. Opaque.
#[verifier::external_type_specification]
#[verifier::external_body]
pub struct ExWebGlShader(web_sys::WebGlShader);

/// `web_sys::WebGlProgram`: the handle of a program object. Opaque.
#[verifier::external_type_specification]
#[verifier::external_body]
pub struct ExWebGlProgram(web_sys::WebGlProgram);

/// `web_sys::WebGlUniformLocation`: the handle of a uniform of a linked
/// program. Opaque.
#[verifier::external_type_specification]
#[verifier::external_body]
pub struct ExWebGlUniformLocation(web_sys::WebGlUniformLocation);

/// `wasm_bindgen::JsValue`: any JavaScript value. Opaque.
#[verifier::external_type_specification]
#[verifier::external_body]
pub struct ExJsValue(wasm_bindgen::JsValue);

/// `WebGlRenderingContext::create_shader`: asks the context for a new shader
/// object of the given kind. Nothing is claimed of the result: `None` is the
/// context's way of saying that it could not allocate one.
#[verifier::external_body]
pub(crate) fn create_shader(gl: &WebGlRenderingContext, kind: u32) -> Option<WebGlShader> {
    gl.create_shader(kind)
}

/// `WebGlRenderingContext::shader_source`: hands the source text to the
/// shader object. Returns nothing.
#[verifier::external_body]
pub(crate) fn shader_source(gl: &WebGlRenderingContext, shader: &WebGlShader, source: &str) {
    gl.shader_source(shader, source)
}

/// `WebGlRenderingContext::compile_shader`: compiles the shader object's
/// source. Returns nothing; the outcome is read with `get_shader_parameter`.
#[verifier::external_body]
pub(crate) fn compile_shader(gl: &WebGlRenderingContext, shader: &WebGlShader) {
    gl.compile_shader(shader)
}

/// `WebGlRenderingContext::get_shader_parameter`: reads one parameter of the
/// shader object as a JavaScript value. Nothing is claimed of the result.
#[verifier::external_body]
pub(crate) fn get_shader_parameter(
    gl: &WebGlRenderingContext,
    shader: &WebGlShader,
    pname: u32,
) -> JsValue {
    gl.get_shader_parameter(shader, pname)
}

/// `WebGlRenderingContext::get_shader_info_log`: the compiler's diagnostic
/// for the shader object, if the context has one. Nothing is claimed of the
/// result.
#[verifier::external_body]
pub(crate) fn get_shader_info_log(gl: &WebGlRenderingContext, shader: &WebGlShader) -> Option<
    String,
> {
    gl.get_shader_info_log(shader)
}

/// `WebGlRenderingContext::create_program`: asks the context for a new
/// program object. Nothing is claimed of the result: `None` is the context's
/// way of saying that it could not allocate one.
#[verifier::external_body]
pub(crate) fn create_program(gl: &WebGlRenderingContext) -> Option<WebGlProgram> {
    gl.create_program()
}

/// `WebGlRenderingContext::attach_shader`: attaches the shader object to the
/// program object. Returns nothing.
#[verifier::external_body]
pub(crate) fn attach_shader(
    gl: &WebGlRenderingContext,
    program: &WebGlProgram,
    shader: &WebGlShader,
) {
    gl.attach_shader(program, shader)
}

/// `WebGlRenderingContext::link_program`: links the attached stages. Returns
/// nothing; the outcome is read with `get_program_parameter`.
#[verifier::external_body]
pub(crate) fn link_program(gl: &WebGlRenderingContext, program: &WebGlProgram) {
    gl.link_program(program)
}

/// `WebGlRenderingContext::get_program_parameter`: reads one parameter of the
/// program object as a JavaScript value. Nothing is claimed of the result.
#[verifier::external_body]
pub(crate) fn get_program_parameter(
    gl: &WebGlRenderingContext,
    program: &WebGlProgram,
    pname: u32,
) -> JsValue {
    gl.get_program_parameter(program, pname)
}

/// `WebGlRenderingContext::get_program_info_log`: the linker's diagnostic for
/// the program object, if the context has one. Nothing is claimed of the
/// result.
#[verifier::external_body]
pub(crate) fn get_program_info_log(gl: &WebGlRenderingContext, program: &WebGlProgram) -> Option<
    String,
> {
    gl.get_program_info_log(program)
}

/// `WebGlRenderingContext::use_program`: makes the program object the
/// current one of the context. Returns nothing.
#[verifier::external_body]
pub(crate) fn use_program(gl: &WebGlRenderingContext, program: &WebGlProgram) {
    gl.use_program(Some(program))
}

/// `WebGlRenderingContext::get_uniform_location`: looks a uniform up by its
/// name in the program object. Nothing is claimed of the result: `None`
/// stands for a name that the program does not have.
#[verifier::external_body]
pub(crate) fn get_uniform_location(
    gl: &WebGlRenderingContext,
    program: &WebGlProgram,
    name: &str,
) -> Option<WebGlUniformLocation> {
    gl.get_uniform_location(program, name)
}

/// `WebGlRenderingContext::clear`: clears the buffers that `mask` names.
/// Returns nothing.
#[verifier::external_body]
pub(crate) fn clear(gl: &WebGlRenderingContext, mask: u32) {
    gl.clear(mask)
}

/// `WebGlRenderingContext::draw_arrays`: issues one draw call over `count`
/// vertices of the bound buffer, from vertex `first`, as primitives of
/// `mode`. Returns nothing.
#[verifier::external_body]
pub(crate) fn draw_arrays(gl: &WebGlRenderingContext, mode: u32, first: i32, count: i32) {
    gl.draw_arrays(mode, first, count)
}

/// `JsValue::as_bool`: the value as a `bool` where it is a JavaScript
/// boolean, `None` where it is anything else. Nothing is claimed of the
/// result, since nothing is known of the value.
#[verifier::external_body]
pub(crate) fn as_bool(value: &JsValue) -> Option<bool> {
    value.as_bool()
}

} // verus!
