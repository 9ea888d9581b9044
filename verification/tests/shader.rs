use glkit::command::{
    GlCommand, GlReply, GL_COMPILE_STATUS, GL_FRAGMENT_SHADER, GL_LINK_STATUS, GL_VERTEX_SHADER,
    INFO_LOG_CAPACITY,
};
use glkit::shader::{LoadStage, Shader, ShaderLoad, ShaderType, UniformLookup};

const VS: &str = "void main() {}";
const FS: &str = "out vec4 c; void main() { c = vec4(1.0); }";

fn feed(load: &mut ShaderLoad, reply: GlReply) -> Vec<GlCommand> {
    assert!(load.accepts(&reply));
    load.step(reply)
}

#[test]
fn shader_type_gl_values() {
    assert_eq!(ShaderType::VERTEX.get_gl_value(), 0x8B31);
    assert_eq!(ShaderType::FRAGMENT.get_gl_value(), 0x8B30);
}

#[test]
fn new_shader_has_no_program() {
    let shader = Shader::new();
    assert_eq!(shader.program, 0);
    assert_eq!(shader.bind(), GlCommand::UseProgram { program: 0 });
    assert_eq!(shader.unbind(), GlCommand::UseProgram { program: 0 });
    assert_eq!(shader.release(), GlCommand::DeleteProgram { program: 0 });
}

#[test]
fn load_that_compiles_and_links() {
    let mut shader = Shader::new();
    let (mut load, first) = shader.load_from_memory(VS, FS);
    assert_eq!(first, vec![GlCommand::CreateShader { kind: GL_VERTEX_SHADER }]);
    assert!(!load.is_finished());
    assert!(!load.accepts(&GlReply::Status(1)));

    assert_eq!(
        feed(&mut load, GlReply::Name(1)),
        vec![
            GlCommand::ShaderSource { shader: 1, source: VS.to_string() },
            GlCommand::CompileShader { shader: 1 },
            GlCommand::GetShaderiv { shader: 1, pname: GL_COMPILE_STATUS },
        ]
    );
    assert_eq!(
        feed(&mut load, GlReply::Status(1)),
        vec![GlCommand::CreateShader { kind: GL_FRAGMENT_SHADER }]
    );
    assert_eq!(
        feed(&mut load, GlReply::Name(2)),
        vec![
            GlCommand::ShaderSource { shader: 2, source: FS.to_string() },
            GlCommand::CompileShader { shader: 2 },
            GlCommand::GetShaderiv { shader: 2, pname: GL_COMPILE_STATUS },
        ]
    );
    assert_eq!(feed(&mut load, GlReply::Status(1)), vec![GlCommand::CreateProgram]);
    assert_eq!(
        feed(&mut load, GlReply::Name(3)),
        vec![
            GlCommand::AttachShader { program: 3, shader: 1 },
            GlCommand::AttachShader { program: 3, shader: 2 },
            GlCommand::LinkProgram { program: 3 },
            GlCommand::GetProgramiv { program: 3, pname: GL_LINK_STATUS },
        ]
    );
    assert_eq!(
        feed(&mut load, GlReply::Status(1)),
        vec![GlCommand::DeleteShader { shader: 1 }, GlCommand::DeleteShader { shader: 2 }]
    );
    assert!(load.is_finished());
    assert!(!load.accepts(&GlReply::Name(4)));
    assert!(matches!(load.stage, LoadStage::Loaded { program: 3 }));
    assert_eq!(shader.finish_load(load), Ok(()));
    assert_eq!(shader.program, 3);
    assert_eq!(shader.bind(), GlCommand::UseProgram { program: 3 });
    assert_eq!(shader.release(), GlCommand::DeleteProgram { program: 3 });
}

#[test]
fn vertex_compile_error_returns_its_log() {
    let mut shader = Shader::new();
    shader.program = 8;
    let (mut load, _) = shader.load_from_memory(VS, FS);
    feed(&mut load, GlReply::Name(4));
    assert_eq!(
        feed(&mut load, GlReply::Status(0)),
        vec![GlCommand::GetShaderInfoLog { shader: 4, max_length: INFO_LOG_CAPACITY }]
    );
    assert!(!load.accepts(&GlReply::Name(5)));
    assert!(feed(&mut load, GlReply::Log("bad vertex".to_string())).is_empty());
    assert!(load.is_finished());
    assert_eq!(shader.finish_load(load), Err("bad vertex".to_string()));
    assert_eq!(shader.program, 8);
}

#[test]
fn fragment_compile_error_returns_its_log() {
    let mut shader = Shader::new();
    let (mut load, _) = shader.load_from_memory(VS, FS);
    feed(&mut load, GlReply::Name(1));
    feed(&mut load, GlReply::Status(1));
    feed(&mut load, GlReply::Name(2));
    assert_eq!(
        feed(&mut load, GlReply::Status(0)),
        vec![GlCommand::GetShaderInfoLog { shader: 2, max_length: INFO_LOG_CAPACITY }]
    );
    assert!(feed(&mut load, GlReply::Log("bad fragment".to_string())).is_empty());
    assert_eq!(shader.finish_load(load), Err("bad fragment".to_string()));
    assert_eq!(shader.program, 0);
}

#[test]
fn link_error_returns_program_log() {
    let mut shader = Shader::new();
    let (mut load, _) = shader.load_from_memory(VS, FS);
    feed(&mut load, GlReply::Name(1));
    feed(&mut load, GlReply::Status(1));
    feed(&mut load, GlReply::Name(2));
    feed(&mut load, GlReply::Status(1));
    feed(&mut load, GlReply::Name(6));
    assert_eq!(
        feed(&mut load, GlReply::Status(0)),
        vec![GlCommand::GetProgramInfoLog { program: 6, max_length: INFO_LOG_CAPACITY }]
    );
    assert!(feed(&mut load, GlReply::Log("link failed".to_string())).is_empty());
    assert_eq!(shader.finish_load(load), Err("link failed".to_string()));
    assert_eq!(shader.program, 0);
}

#[test]
fn any_nonzero_status_counts_as_success() {
    let mut shader = Shader::new();
    let (mut load, _) = shader.load_from_memory(VS, FS);
    feed(&mut load, GlReply::Name(1));
    feed(&mut load, GlReply::Status(-3));
    feed(&mut load, GlReply::Name(2));
    feed(&mut load, GlReply::Status(7));
    feed(&mut load, GlReply::Name(9));
    feed(&mut load, GlReply::Status(2));
    assert_eq!(shader.finish_load(load), Ok(()));
    assert_eq!(shader.program, 9);
}

#[test]
fn uniform_location_is_queried_once_then_cached() {
    let mut shader = Shader::new();
    shader.program = 4;
    match shader.get_uniform_locacion("color") {
        UniformLookup::Query(cmd) => assert_eq!(
            cmd,
            GlCommand::GetUniformLocation { program: 4, name: "color".to_string() }
        ),
        UniformLookup::Cached(_) => panic!("nothing was recorded"),
    }
    assert_eq!(shader.record_uniform_location("color", 2), 2);
    assert!(matches!(shader.get_uniform_locacion("color"), UniformLookup::Cached(2)));
    assert!(matches!(shader.get_uniform_locacion("model"), UniformLookup::Query(_)));
    assert_eq!(shader.record_uniform_location("model", -1), -1);
    assert!(matches!(shader.get_uniform_locacion("model"), UniformLookup::Cached(-1)));
    assert!(matches!(shader.get_uniform_locacion("color"), UniformLookup::Cached(2)));
    shader.record_uniform_location("color", 5);
    assert!(matches!(shader.get_uniform_locacion("color"), UniformLookup::Cached(5)));
    assert!(matches!(shader.get_uniform_locacion("model"), UniformLookup::Cached(-1)));
    assert_eq!(shader.program, 4);
}

#[test]
fn uniform_cache_survives_a_load() {
    let mut shader = Shader::new();
    shader.record_uniform_location("t", 1);
    let (mut load, _) = shader.load_from_memory(VS, FS);
    feed(&mut load, GlReply::Name(1));
    feed(&mut load, GlReply::Status(0));
    feed(&mut load, GlReply::Log(String::new()));
    assert_eq!(shader.finish_load(load), Err(String::new()));
    assert!(matches!(shader.get_uniform_locacion("t"), UniformLookup::Cached(1)));
}
