use opengl::info_log::{log_len, log_text};
use opengl::{
    check_error, check_uniform_err, Command, Context, Error, Program, ProgramState, Shader,
    ShaderState, ShaderType, UniformValue,
};

fn shader(ctx: &Context) -> Shader {
    ctx.new_shader(ShaderType::Fragmet, 11)
}

#[test]
fn invalid_source_fails_to_compile_with_its_log() {
    let mut ctx = Context::new();
    let mut s = shader(&ctx);
    s.source(&mut ctx, "void main( {");
    assert_eq!(s.status(), ShaderState::SourceLoaded);
    s.compile(&mut ctx);
    assert_eq!(
        ctx.take_commands(),
        vec![Command::ShaderSource(11, "void main( {".to_string()), Command::CompileShader(11)]
    );
    assert!(!s.compiled(0));
    let log = b"0:1(12): error: syntax error, unexpected '{'\0";
    assert_eq!(log_len(log.len() as i32), log.len());
    let err = s.compile_failed(log);
    assert_eq!(s.status(), ShaderState::CompileFailed);
    match err {
        Error::CompileFailure(text) => {
            assert!(!text.is_empty());
            assert_eq!(text, "0:1(12): error: syntax error, unexpected '{'");
        }
        other => panic!("unexpected {:?}", other),
    }
}

#[test]
fn valid_source_compiles() {
    let mut ctx = Context::new();
    let mut s = shader(&ctx);
    assert_eq!(s.status(), ShaderState::Created);
    s.source(&mut ctx, "#version 450\nvoid main() {}\n");
    s.compile(&mut ctx);
    assert!(s.compiled(1));
    assert_eq!(s.status(), ShaderState::Compiled);
}

#[test]
fn unchecked_compile_counts_as_compiled() {
    let mut ctx = Context::new();
    let mut s = shader(&ctx);
    s.compile_unchecked(&mut ctx);
    assert_eq!(s.status(), ShaderState::Compiled);
    assert_eq!(ctx.take_commands(), vec![Command::CompileShader(11)]);
}

#[test]
fn program_links_or_reports_its_log() {
    let mut ctx = Context::new();
    let s = shader(&ctx);
    let mut p = ctx.new_program(20);
    assert_eq!(p.status(), ProgramState::Created);
    p.attach(&mut ctx, &s);
    assert_eq!(p.status(), ProgramState::ShadersAttached);
    p.link(&mut ctx);
    assert!(!p.linked(0));
    let err = p.link_failed(b"error: no main\0\0\0");
    assert_eq!(err, Error::LinkFailure("error: no main".to_string()));
    assert_eq!(p.status(), ProgramState::LinkFailed);
    assert!(p.linked(1));
    assert_eq!(p.status(), ProgramState::Linked);
    p.using(&mut ctx);
    assert_eq!(
        ctx.take_commands(),
        vec![Command::AttachShader(20, 11), Command::LinkProgram(20), Command::UseProgram(20)]
    );
}

#[test]
fn missing_uniform_is_not_found_and_uploads_nothing() {
    let mut ctx = Context::new();
    let p = ctx.new_program(3);
    let r = p.set_uniform(&mut ctx, "u_missing", -1, UniformValue::Float(1.0f32.to_bits()));
    assert_eq!(r, Err(Error::NotFound("u_missing".to_string())));
    assert!(ctx.commands().is_empty());
}

#[test]
fn found_uniform_is_uploaded_at_its_location() {
    let mut ctx = Context::new();
    let p = ctx.new_program(3);
    let v = UniformValue::Vec3([0.5f32.to_bits(), 1.0f32.to_bits(), 0.0f32.to_bits()]);
    assert_eq!(p.set_uniform(&mut ctx, "u_color", 4, v), Ok(()));
    let m = [1.0f32.to_bits(); 16];
    assert_eq!(p.set_uniform_matrix(&mut ctx, "u_model", 0, m), Ok(()));
    assert_eq!(
        ctx.take_commands(),
        vec![
            Command::Uniform { program: 3, location: 4, value: v },
            Command::Uniform { program: 3, location: 0, value: UniformValue::Mat4(m) },
        ]
    );
}

#[test]
fn uniform_name_with_nul_is_refused() {
    let mut ctx = Context::new();
    let p = ctx.new_program(3);
    assert!(matches!(Program::uniform_name("a\0b"), Err(Error::InvalidArgument(_))));
    assert_eq!(Program::uniform_name("u_time"), Ok(b"u_time\0".to_vec()));
    let r = p.set_uniform(&mut ctx, "a\0b", 2, UniformValue::Int(1));
    assert!(matches!(r, Err(Error::InvalidArgument(_))));
    assert!(ctx.commands().is_empty());
    assert_eq!(p.location("u_time", 6), Ok(6));
}

#[test]
fn error_flag_is_reported_by_name_and_code() {
    assert_eq!(check_uniform_err(gl::NO_ERROR), Ok(()));
    assert_eq!(
        check_uniform_err(gl::INVALID_OPERATION),
        Err(Error::DeviceError("GL_INVALID_OPERATION".to_string(), gl::INVALID_OPERATION))
    );
    assert_eq!(
        check_error(gl::INVALID_ENUM),
        Err(Error::DeviceError("GL_INVALID_ENUM".to_string(), gl::INVALID_ENUM))
    );
    assert_eq!(
        check_error(gl::INVALID_VALUE),
        Err(Error::DeviceError("GL_INVALID_VALUE".to_string(), gl::INVALID_VALUE))
    );
    assert_eq!(
        check_error(gl::OUT_OF_MEMORY),
        Err(Error::DeviceError("Unknown Error".to_string(), gl::OUT_OF_MEMORY))
    );
}

#[test]
fn logs_are_read_up_to_their_terminator() {
    assert_eq!(log_len(-4), 0);
    assert_eq!(log_len(0), 0);
    assert_eq!(log_len(17), 17);
    assert_eq!(log_text(b"abc\0def"), "abc");
    assert_eq!(log_text(b"abc"), "abc");
    assert_eq!(log_text(b"\0"), "");
    assert_eq!(log_text(b"x\xffy"), "x\u{fffd}y");
}
