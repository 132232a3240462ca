//! The shader program builder: compiles the two stages, links them, and
//! turns every failure into a typed error that carries the driver's
//! diagnostic.
//!
//! The functions that talk to the context say what holds of every answer the
//! context may give. The decisions taken on those answers are functions of
//! their own, from plain values to plain values, with exact contracts.

use vstd::prelude::*;
use web_sys::{WebGlProgram, WebGlRenderingContext, WebGlShader, WebGlUniformLocation};
use crate::error::RenderError;
use crate::stage::Stage;
use crate::gl;
use crate::sources::{fragment_source, vertex_source, ANGLE_UNIFORM};

verus! {

/// The parameter under which WebGL reports whether a shader compiled.
pub const COMPILE_STATUS: u32 = 35713;

/// The parameter under which WebGL reports whether a program linked.
pub const LINK_STATUS: u32 = 35714;

/// A shader object that the context compiled without error. Only
/// [`compile`] makes one.
#[derive(Debug)]
pub struct CompiledShader {
    stage: Stage,
    handle: WebGlShader,
}

impl CompiledShader {
    /// The stage that the shader was compiled for, as a mathematical value.
    pub closed spec fn spec_stage(&self) -> Stage {
        self.stage
    }

    /// The context's shader object, as a mathematical value.
    pub closed spec fn spec_handle(&self) -> WebGlShader {
        self.handle
    }

    /// The stage that the shader was compiled for.
    pub fn stage(&self) -> (stage: Stage)
        ensures
            stage == self.spec_stage(),
    {
        self.stage
    }

    /// The context's shader object.
    pub fn handle(&self) -> (handle: &WebGlShader)
        ensures
            *handle == self.spec_handle(),
    {
        &self.handle
    }
}

/// A program object that the context linked without error. Only [`link`]
/// makes one.
#[derive(Debug)]
pub struct ShaderProgram {
    handle: WebGlProgram,
}

impl ShaderProgram {
    /// The context's program object, as a mathematical value.
    pub closed spec fn spec_handle(&self) -> WebGlProgram {
        self.handle
    }

    /// The context's program object.
    pub fn handle(&self) -> (handle: &WebGlProgram)
        ensures
            *handle == self.spec_handle(),
    {
        &self.handle
    }
}

/// A uniform of a linked program, found by its name.
#[derive(Debug)]
pub struct UniformHandle {
    name: String,
    location: WebGlUniformLocation,
}

impl UniformHandle {
    /// The name that the uniform was found by, as a mathematical value.
    pub closed spec fn spec_name(&self) -> Seq<char> {
        self.name@
    }

    /// The context's location of the uniform, as a mathematical value.
    pub closed spec fn spec_location(&self) -> WebGlUniformLocation {
        self.location
    }

    /// The name that the uniform was found by.
    pub fn name(&self) -> (name: &str)
        ensures
            name@ == self.spec_name(),
    {
        self.name.as_str()
    }

    /// The context's location of the uniform.
    pub fn location(&self) -> (location: &WebGlUniformLocation)
        ensures
            *location == self.spec_location(),
    {
        &self.location
    }
}

/// The diagnostic used where a compile failed and the context has no log.
pub open spec fn missing_compile_log() -> Seq<char> {
    "Unknown error creating shader"@
}

/// The diagnostic used where a link failed and the context has no log.
pub open spec fn missing_link_log() -> Seq<char> {
    "Unknown error linking program"@
}

/// The diagnostic to report: the log as the context gave it, or `fallback`
/// where it gave none.
pub open spec fn reported_log(log: Option<String>, fallback: Seq<char>) -> Seq<char> {
    match log {
        Some(text) => text@,
        None => fallback,
    }
}

/// Whether `e` is an error that compiling `stage` can end in.
pub open spec fn is_compile_error(e: RenderError, stage: Stage) -> bool {
    match e {
        RenderError::ShaderAllocationFailed { stage: s } => s == stage,
        RenderError::ShaderCompileFailed { stage: s, .. } => s == stage,
        _ => false,
    }
}

/// Whether `e` is an error that linking can end in.
pub open spec fn is_link_error(e: RenderError) -> bool {
    e is ProgramAllocationFailed || e is ProgramLinkFailed
}

/// Whether `e` is an error that building a program can end in.
pub open spec fn is_build_error(e: RenderError) -> bool {
    is_compile_error(e, Stage::Vertex) || is_compile_error(e, Stage::Fragment) || is_link_error(e)
}

/// Reads a status parameter: the step succeeded only where the context
/// answered with the boolean `true`.
pub fn succeeded(status: Option<bool>) -> (ok: bool)
    ensures
        ok == (status == Some(true)),
{
    match status {
        Some(flag) => flag,
        None => false,
    }
}

/// The outcome of asking the context for a shader object of `stage`: the
/// object, or the failure to allocate one for this stage.
pub fn created_shader(created: Option<WebGlShader>, stage: Stage) -> (r: Result<
    WebGlShader,
    RenderError,
>)
    ensures
        created matches Some(shader) ==> r == Ok::<WebGlShader, RenderError>(shader),
        created is None ==> r == Err::<WebGlShader, RenderError>(
            RenderError::ShaderAllocationFailed { stage },
        ),
{
    match created {
        Some(shader) => Ok(shader),
        None => Err(RenderError::ShaderAllocationFailed { stage }),
    }
}

/// The outcome of asking the context for a program object: the object, or
/// the failure to allocate one.
pub fn created_program(created: Option<WebGlProgram>) -> (r: Result<WebGlProgram, RenderError>)
    ensures
        created matches Some(program) ==> r == Ok::<WebGlProgram, RenderError>(program),
        created is None ==> r == Err::<WebGlProgram, RenderError>(
            RenderError::ProgramAllocationFailed,
        ),
{
    match created {
        Some(program) => Ok(program),
        None => Err(RenderError::ProgramAllocationFailed),
    }
}

/// The error of a failed compile of `stage`: it carries the compiler's log
/// unchanged, or a fixed text where the context had no log to give.
pub fn compile_failure(stage: Stage, log: Option<String>) -> (e: RenderError)
    ensures
        e matches RenderError::ShaderCompileFailed { stage: s, log: text } && s == stage && text@
            == reported_log(log, missing_compile_log()),
        is_compile_error(e, stage),
{
    match log {
        Some(text) => RenderError::ShaderCompileFailed { stage, log: text },
        None => RenderError::ShaderCompileFailed {
            stage,
            log: "Unknown error creating shader".to_owned(),
        },
    }
}

/// The error of a failed link: it carries the linker's log unchanged, or a
/// fixed text where the context had no log to give.
pub fn link_failure(log: Option<String>) -> (e: RenderError)
    ensures
        e matches RenderError::ProgramLinkFailed { log: text } && text@ == reported_log(
            log,
            missing_link_log(),
        ),
        is_link_error(e),
{
    match log {
        Some(text) => RenderError::ProgramLinkFailed { log: text },
        None => RenderError::ProgramLinkFailed { log: "Unknown error linking program".to_owned() },
    }
}

/// The outcome of a uniform lookup: a handle of the location under the name
/// it was found by, or the name that the program does not have.
pub fn located(found: Option<WebGlUniformLocation>, name: &str) -> (r: Result<
    UniformHandle,
    RenderError,
>)
    ensures
        found matches Some(location) ==> (r matches Ok(handle) && handle.spec_location()
            == location && handle.spec_name() == name@),
        found is None ==> (r matches Err(RenderError::UniformNotFound { name: n }) && n@ == name@),
{
    match found {
        Some(location) => Ok(UniformHandle { name: name.to_owned(), location }),
        None => Err(RenderError::UniformNotFound { name: name.to_owned() }),
    }
}

/// Compiles `source` as a shader of `stage`.
///
/// Whether the context allocates the shader object and whether the source
/// compiles is for the driver to say. Whatever it says, a shader that comes
/// back is of this stage, and a failure is `ShaderAllocationFailed` or
/// `ShaderCompileFailed`, of this stage; the latter is made by
/// [`compile_failure`] from the driver's log.
pub fn compile(gl: &WebGlRenderingContext, stage: Stage, source: &str) -> (r: Result<
    CompiledShader,
    RenderError,
>)
    requires
        source@.len() > 0,
    ensures
        r matches Ok(shader) ==> shader.spec_stage() == stage,
        r matches Err(e) ==> is_compile_error(e, stage),
{
    match created_shader(gl::create_shader(gl, stage.kind()), stage) {
        Err(e) => Err(e),
        Ok(shader) => {
            gl::shader_source(gl, &shader, source);
            gl::compile_shader(gl, &shader);
            let status = gl::get_shader_parameter(gl, &shader, COMPILE_STATUS);
            if succeeded(gl::as_bool(&status)) {
                Ok(CompiledShader { stage, handle: shader })
            } else {
                Err(compile_failure(stage, gl::get_shader_info_log(gl, &shader)))
            }
        },
    }
}

/// Links a compiled vertex shader and a compiled fragment shader into a
/// program.
///
/// Whatever the driver says, a failure is `ProgramAllocationFailed` or
/// `ProgramLinkFailed`; the latter is made by [`link_failure`] from the
/// driver's log.
pub fn link(gl: &WebGlRenderingContext, vertex: &CompiledShader, fragment: &CompiledShader) -> (r:
    Result<ShaderProgram, RenderError>)
    ensures
        r matches Err(e) ==> is_link_error(e),
{
    match created_program(gl::create_program(gl)) {
        Err(e) => Err(e),
        Ok(program) => {
            gl::attach_shader(gl, &program, vertex.handle());
            gl::attach_shader(gl, &program, fragment.handle());
            gl::link_program(gl, &program);
            let status = gl::get_program_parameter(gl, &program, LINK_STATUS);
            if succeeded(gl::as_bool(&status)) {
                Ok(ShaderProgram { handle: program })
            } else {
                Err(link_failure(gl::get_program_info_log(gl, &program)))
            }
        },
    }
}

/// Builds a program from the two sources: compiles the vertex stage, then
/// the fragment stage, then links, and stops at the first failure. The
/// program is not made current.
pub fn build(gl: &WebGlRenderingContext, vertex_source: &str, fragment_source: &str) -> (r: Result<
    ShaderProgram,
    RenderError,
>)
    requires
        vertex_source@.len() > 0,
        fragment_source@.len() > 0,
    ensures
        r matches Err(e) ==> is_build_error(e),
{
    match compile(gl, Stage::Vertex, vertex_source) {
        Err(e) => Err(e),
        Ok(vertex) => match compile(gl, Stage::Fragment, fragment_source) {
            Err(e) => Err(e),
            Ok(fragment) => link(gl, &vertex, &fragment),
        },
    }
}

/// Builds the program of the animation, from the two sources that the
/// library holds.
pub fn build_default(gl: &WebGlRenderingContext) -> (r: Result<ShaderProgram, RenderError>)
    ensures
        r matches Err(e) ==> is_build_error(e),
{
    build(gl, vertex_source(), fragment_source())
}

/// Makes a built program the current one of the context.
pub fn activate(gl: &WebGlRenderingContext, program: &ShaderProgram) {
    gl::use_program(gl, program.handle())
}

/// Looks up the uniform `name` of a linked program. Whether the program has
/// it is for the driver to say: a handle that comes back goes by this name,
/// and the error is `UniformNotFound` with this name.
pub fn resolve_uniform(gl: &WebGlRenderingContext, program: &ShaderProgram, name: &str) -> (r:
    Result<UniformHandle, RenderError>)
    ensures
        r matches Ok(handle) ==> handle.spec_name() == name@,
        r matches Err(e) ==> (e matches RenderError::UniformNotFound { name: n } && n@ == name@),
{
    located(gl::get_uniform_location(gl, program.handle(), name), name)
}

/// Whether `e` is an error that setting the animation up can end in.
pub open spec fn is_setup_error(e: RenderError) -> bool {
    is_build_error(e) || (e matches RenderError::UniformNotFound { name } && name@
        == ANGLE_UNIFORM@)
}

/// Sets the animation's program up: builds it, makes it current, and looks
/// up the uniform that the frames write. Stops at the first failure, so that
/// a program that did not build is never made current.
pub fn prepare(gl: &WebGlRenderingContext) -> (r: Result<
    (ShaderProgram, UniformHandle),
    RenderError,
>)
    ensures
        r matches Ok(ready) ==> ready.1.spec_name() == ANGLE_UNIFORM@,
        r matches Err(e) ==> is_setup_error(e),
{
    match build_default(gl) {
        Err(e) => Err(e),
        Ok(program) => {
            activate(gl, &program);
            match resolve_uniform(gl, &program, ANGLE_UNIFORM) {
                Err(e) => Err(e),
                Ok(angle) => Ok((program, angle)),
            }
        },
    }
}

/// A failure reports all that the driver said: the diagnostic is the
/// driver's log where it gave one, and it is empty only where that log
/// itself was empty. A driver that gave no log leaves a fixed text, never an
/// empty one.
pub proof fn reported_log_is_empty_only_for_empty_log(log: Option<String>)
    ensures
        log matches Some(text) ==> reported_log(log, missing_compile_log()) == text@
            && reported_log(log, missing_link_log()) == text@,
        reported_log(log, missing_compile_log()).len() == 0 <==> (log matches Some(text)
            && text@.len() == 0),
        reported_log(log, missing_link_log()).len() == 0 <==> (log matches Some(text)
            && text@.len() == 0),
{
    reveal_strlit("Unknown error creating shader");
    reveal_strlit("Unknown error linking program");
}

/// No error of one step can be taken for an error of another: what compiling
/// one stage can end in, compiling the other stage and linking cannot.
pub proof fn build_errors_name_their_step(e: RenderError)
    ensures
        !(is_compile_error(e, Stage::Vertex) && is_compile_error(e, Stage::Fragment)),
        !(is_compile_error(e, Stage::Vertex) && is_link_error(e)),
        !(is_compile_error(e, Stage::Fragment) && is_link_error(e)),
        e is UniformNotFound || e is TickFailed ==> !is_build_error(e),
{
}

} // verus!
