use wasm_bindgen::{JsCast, JsValue};
use web_sys::{WebGlProgram, WebGlRenderingContext, WebGlShader, WebGlUniformLocation};
use webgl_spin::error::RenderError;
use webgl_spin::stage::{Stage, FRAGMENT_SHADER, VERTEX_SHADER};
use webgl_spin::shader::{
    compile_failure, created_program, created_shader, link_failure, located, succeeded,
    COMPILE_STATUS, LINK_STATUS,
};

#[test]
fn stage_kinds_are_the_enumerants_of_webgl() {
    assert_eq!(Stage::Vertex.kind(), WebGlRenderingContext::VERTEX_SHADER);
    assert_eq!(Stage::Fragment.kind(), WebGlRenderingContext::FRAGMENT_SHADER);
    assert_eq!(VERTEX_SHADER, 35633);
    assert_eq!(FRAGMENT_SHADER, 35632);
}

#[test]
fn status_parameters_are_the_enumerants_of_webgl() {
    assert_eq!(COMPILE_STATUS, WebGlRenderingContext::COMPILE_STATUS);
    assert_eq!(LINK_STATUS, WebGlRenderingContext::LINK_STATUS);
}

#[test]
fn a_step_succeeded_only_on_the_boolean_true() {
    assert!(succeeded(Some(true)));
    assert!(!succeeded(Some(false)));
    assert!(!succeeded(None));
}

#[test]
fn compile_failure_carries_the_log_verbatim() {
    let log = "ERROR: 0:3: 'vec5' : undeclared identifier\n\u{0}";
    assert_eq!(
        compile_failure(Stage::Vertex, Some(log.to_string())),
        RenderError::ShaderCompileFailed { stage: Stage::Vertex, log: log.to_string() }
    );
}

#[test]
fn compile_failure_without_a_log_names_an_unknown_error() {
    assert_eq!(
        compile_failure(Stage::Vertex, None),
        RenderError::ShaderCompileFailed {
            stage: Stage::Vertex,
            log: "Unknown error creating shader".to_string(),
        }
    );
}

#[test]
fn compile_failure_keeps_an_empty_log_empty() {
    assert_eq!(
        compile_failure(Stage::Fragment, Some(String::new())),
        RenderError::ShaderCompileFailed { stage: Stage::Fragment, log: String::new() }
    );
}

#[test]
fn a_fragment_stage_without_main_fails_as_a_fragment_compile() {
    let log = "ERROR: Missing main()";
    let e = compile_failure(Stage::Fragment, Some(log.to_string()));
    match e {
        RenderError::ShaderCompileFailed { stage, log: text } => {
            assert_eq!(stage, Stage::Fragment);
            assert!(!text.is_empty());
            assert_eq!(text, log);
        }
        other => panic!("unexpected error: {:?}", other),
    }
}

#[test]
fn link_failure_carries_the_log_verbatim() {
    let log = "Varyings do not match between stages.";
    assert_eq!(
        link_failure(Some(log.to_string())),
        RenderError::ProgramLinkFailed { log: log.to_string() }
    );
}

#[test]
fn link_failure_without_a_log_names_an_unknown_error() {
    assert_eq!(
        link_failure(None),
        RenderError::ProgramLinkFailed { log: "Unknown error linking program".to_string() }
    );
}

#[test]
fn a_missing_uniform_is_reported_by_its_name() {
    assert_eq!(
        located(None, "angle").err(),
        Some(RenderError::UniformNotFound { name: "angle".to_string() })
    );
    assert_eq!(
        located(None, "").err(),
        Some(RenderError::UniformNotFound { name: String::new() })
    );
}

#[test]
fn a_found_uniform_goes_by_its_name() {
    let location: WebGlUniformLocation = JsValue::NULL.unchecked_into();
    let handle = located(Some(location), "angle").unwrap();
    assert_eq!(handle.name(), "angle");
}

#[test]
fn a_shader_that_was_not_allocated_fails_for_its_stage() {
    assert_eq!(
        created_shader(None, Stage::Vertex).err(),
        Some(RenderError::ShaderAllocationFailed { stage: Stage::Vertex })
    );
    assert_eq!(
        created_shader(None, Stage::Fragment).err(),
        Some(RenderError::ShaderAllocationFailed { stage: Stage::Fragment })
    );
}

#[test]
fn an_allocated_shader_is_handed_on() {
    let shader: WebGlShader = JsValue::NULL.unchecked_into();
    assert!(created_shader(Some(shader), Stage::Fragment).is_ok());
}

#[test]
fn a_program_that_was_not_allocated_fails() {
    assert_eq!(created_program(None).err(), Some(RenderError::ProgramAllocationFailed));
}

#[test]
fn an_allocated_program_is_handed_on() {
    let program: WebGlProgram = JsValue::NULL.unchecked_into();
    assert!(created_program(Some(program)).is_ok());
}
