use std::cell::RefCell;

use shader_pipeline::driver::{Command, Progress, Reply, Stage, Value};
use shader_pipeline::shader::{Build, Shader};

/// A driver that lives in memory: it hands out handles, keeps count of what
/// it created and deleted, records every call, and fails where it is told
/// to.
struct Stub {
    next_handle: u32,
    live: Vec<u32>,
    created: usize,
    deleted: usize,
    calls: Vec<Command>,
    stages: Vec<(u32, Stage)>,
    vertex_compiles: bool,
    fragment_compiles: bool,
    links: bool,
    log: Vec<u8>,
    uniforms: Vec<(String, i32)>,
    active: u32,
}

impl Stub {
    fn new() -> Stub {
        Stub {
            next_handle: 1,
            live: Vec::new(),
            created: 0,
            deleted: 0,
            calls: Vec::new(),
            stages: Vec::new(),
            vertex_compiles: true,
            fragment_compiles: true,
            links: true,
            log: b"0:1(1): error: syntax error\0".to_vec(),
            uniforms: vec![("color".to_string(), 0), ("scale".to_string(), 3)],
            active: 0,
        }
    }

    fn create(&mut self) -> u32 {
        let handle = self.next_handle;
        self.next_handle += 1;
        self.live.push(handle);
        self.created += 1;
        handle
    }

    fn delete(&mut self, handle: u32) {
        let at = self.live.iter().position(|live| *live == handle);
        self.live.remove(at.expect("deleted a handle that is not live"));
        self.deleted += 1;
    }

    fn stage_of(&self, shader: u32) -> Stage {
        self.stages.iter().find(|(handle, _)| *handle == shader).expect("unknown shader").1
    }

    fn execute(&mut self, command: &Command) -> Reply {
        self.calls.push(command.clone());
        let value = match command {
            Command::CreateShader { stage } => {
                let handle = self.create();
                self.stages.push((handle, *stage));
                Value::Handle(handle)
            }
            Command::CreateProgram => Value::Handle(self.create()),
            Command::GetCompileStatus { shader } => {
                let compiles = match self.stage_of(*shader) {
                    Stage::Vertex => self.vertex_compiles,
                    Stage::Fragment => self.fragment_compiles,
                };
                Value::Integer(if compiles { 1 } else { 0 })
            }
            Command::GetLinkStatus { .. } => Value::Integer(if self.links { 1 } else { 0 }),
            Command::GetShaderLogLength { .. } | Command::GetProgramLogLength { .. } => {
                Value::Integer(self.log.len() as i32)
            }
            Command::GetShaderInfoLog { capacity, .. }
            | Command::GetProgramInfoLog { capacity, .. } => {
                assert_eq!(*capacity as usize, self.log.len());
                Value::Log(self.log.clone())
            }
            Command::DeleteShader { shader } => {
                self.delete(*shader);
                Value::Done
            }
            Command::DeleteProgram { program } => {
                self.delete(*program);
                Value::Done
            }
            Command::UseProgram { program } => {
                self.active = *program;
                Value::Done
            }
            Command::GetUniformLocation { name, .. } => {
                let found = self.uniforms.iter().find(|(known, _)| known == name);
                Value::Integer(found.map(|(_, location)| *location).unwrap_or(-1))
            }
            _ => Value::Done,
        };
        Reply { error: 0, value }
    }

    fn count(&self, wanted: impl Fn(&Command) -> bool) -> usize {
        self.calls.iter().filter(|call| wanted(call)).count()
    }
}

fn run(mut build: Build, stub: &mut Stub) -> Result<Shader, String> {
    loop {
        let command = build.command();
        let reply = stub.execute(&command);
        assert!(command.accepts(&reply), "bridge fault on {:?}", command);
        match build.advance(reply) {
            Progress::Next(next) => build = next,
            Progress::Finished(outcome) => return outcome,
        }
    }
}

const VERTEX: &str = "void main() { gl_Position = vec4(0.0); }";
const FRAGMENT: &str = "void main() { gl_FragColor = vec4(1.0); }";

#[test]
fn sources_that_compile_and_link_give_a_usable_shader() {
    let mut stub = Stub::new();
    let shader = run(Shader::new_from_source(VERTEX, FRAGMENT), &mut stub).expect("a shader");
    assert_eq!(shader.handle(), 3);
    let bind = shader.bind();
    assert_eq!(bind, Command::UseProgram { program: 3 });
    let reply = stub.execute(&bind);
    assert!(bind.accepts(&reply));
    assert_eq!(stub.active, 3);
}

#[test]
fn a_successful_build_makes_fifteen_calls_in_order() {
    let mut stub = Stub::new();
    run(Shader::new_from_source(VERTEX, FRAGMENT), &mut stub).expect("a shader");
    let expected = vec![
        Command::CreateShader { stage: Stage::Vertex },
        Command::ShaderSource { shader: 1, source: VERTEX.to_string() },
        Command::CompileShader { shader: 1 },
        Command::GetCompileStatus { shader: 1 },
        Command::CreateShader { stage: Stage::Fragment },
        Command::ShaderSource { shader: 2, source: FRAGMENT.to_string() },
        Command::CompileShader { shader: 2 },
        Command::GetCompileStatus { shader: 2 },
        Command::CreateProgram,
        Command::AttachShader { program: 3, shader: 1 },
        Command::AttachShader { program: 3, shader: 2 },
        Command::LinkProgram { program: 3 },
        Command::GetLinkStatus { program: 3 },
        Command::DeleteShader { shader: 2 },
        Command::DeleteShader { shader: 1 },
    ];
    assert_eq!(stub.calls, expected);
}

#[test]
fn a_successful_build_reads_no_log() {
    let mut stub = Stub::new();
    run(Shader::new_from_source(VERTEX, FRAGMENT), &mut stub).expect("a shader");
    let logs = stub.count(|call| {
        matches!(
            call,
            Command::GetShaderLogLength { .. }
                | Command::GetShaderInfoLog { .. }
                | Command::GetProgramLogLength { .. }
                | Command::GetProgramInfoLog { .. }
        )
    });
    assert_eq!(logs, 0);
}

#[test]
fn a_vertex_error_fails_with_its_heading_and_the_log() {
    let mut stub = Stub::new();
    stub.vertex_compiles = false;
    let message = run(Shader::new_from_source("void main() {", FRAGMENT), &mut stub)
        .expect_err("a diagnostic");
    assert!(message.contains("Vertex shader compilation failed"));
    assert!(message.contains("0:1(1): error: syntax error"));
    assert_eq!(message, "Vertex shader compilation failed:\n0:1(1): error: syntax error\0");
}

#[test]
fn a_vertex_error_keeps_the_fragment_source_from_the_driver() {
    let mut stub = Stub::new();
    stub.vertex_compiles = false;
    run(Shader::new_from_source("void main() {", FRAGMENT), &mut stub).expect_err("a diagnostic");
    assert_eq!(stub.count(|call| matches!(call, Command::CompileShader { .. })), 1);
    assert_eq!(
        stub.count(|call| matches!(call, Command::CreateShader { stage: Stage::Fragment })),
        0
    );
    let expected = vec![
        Command::CreateShader { stage: Stage::Vertex },
        Command::ShaderSource { shader: 1, source: "void main() {".to_string() },
        Command::CompileShader { shader: 1 },
        Command::GetCompileStatus { shader: 1 },
        Command::GetShaderLogLength { shader: 1 },
        Command::GetShaderInfoLog { shader: 1, capacity: 28 },
        Command::DeleteShader { shader: 1 },
    ];
    assert_eq!(stub.calls, expected);
    assert!(stub.live.is_empty());
}

#[test]
fn a_fragment_error_fails_with_its_heading() {
    let mut stub = Stub::new();
    stub.fragment_compiles = false;
    stub.log = b"fragment: undeclared identifier\0".to_vec();
    let message = run(Shader::new_from_source(VERTEX, "void main() { x; }"), &mut stub)
        .expect_err("a diagnostic");
    assert!(message.contains("Fragment shader compilation failed"));
    assert_eq!(message, "Fragment shader compilation failed:\nfragment: undeclared identifier\0");
}

#[test]
fn a_fragment_error_deletes_both_shaders_and_creates_no_program() {
    let mut stub = Stub::new();
    stub.fragment_compiles = false;
    run(Shader::new_from_source(VERTEX, "void main() { x; }"), &mut stub)
        .expect_err("a diagnostic");
    let expected = vec![
        Command::CreateShader { stage: Stage::Vertex },
        Command::ShaderSource { shader: 1, source: VERTEX.to_string() },
        Command::CompileShader { shader: 1 },
        Command::GetCompileStatus { shader: 1 },
        Command::CreateShader { stage: Stage::Fragment },
        Command::ShaderSource { shader: 2, source: "void main() { x; }".to_string() },
        Command::CompileShader { shader: 2 },
        Command::GetCompileStatus { shader: 2 },
        Command::GetShaderLogLength { shader: 2 },
        Command::GetShaderInfoLog { shader: 2, capacity: 28 },
        Command::DeleteShader { shader: 2 },
        Command::DeleteShader { shader: 1 },
    ];
    assert_eq!(stub.calls, expected);
    assert_eq!(stub.created, 2);
    assert_eq!(stub.deleted, 2);
    assert!(stub.live.is_empty());
}

#[test]
fn a_link_error_fails_with_its_heading_and_leaks_nothing() {
    let mut stub = Stub::new();
    stub.links = false;
    stub.log = b"error: varying 'uv' has mismatched types\0".to_vec();
    let message =
        run(Shader::new_from_source(VERTEX, FRAGMENT), &mut stub).expect_err("a diagnostic");
    assert!(message.contains("Shader linking failed"));
    assert!(message.contains("varying 'uv' has mismatched types"));
    assert_eq!(message, "Shader linking failed:\nerror: varying 'uv' has mismatched types\0");
    assert_eq!(stub.created, 3);
    assert_eq!(stub.deleted, 3);
    assert!(stub.live.is_empty());
}

#[test]
fn a_link_error_makes_eighteen_calls_in_order() {
    let mut stub = Stub::new();
    stub.links = false;
    run(Shader::new_from_source(VERTEX, FRAGMENT), &mut stub).expect_err("a diagnostic");
    let expected = vec![
        Command::CreateShader { stage: Stage::Vertex },
        Command::ShaderSource { shader: 1, source: VERTEX.to_string() },
        Command::CompileShader { shader: 1 },
        Command::GetCompileStatus { shader: 1 },
        Command::CreateShader { stage: Stage::Fragment },
        Command::ShaderSource { shader: 2, source: FRAGMENT.to_string() },
        Command::CompileShader { shader: 2 },
        Command::GetCompileStatus { shader: 2 },
        Command::CreateProgram,
        Command::AttachShader { program: 3, shader: 1 },
        Command::AttachShader { program: 3, shader: 2 },
        Command::LinkProgram { program: 3 },
        Command::GetLinkStatus { program: 3 },
        Command::GetProgramLogLength { program: 3 },
        Command::GetProgramInfoLog { program: 3, capacity: 28 },
        Command::DeleteProgram { program: 3 },
        Command::DeleteShader { shader: 2 },
        Command::DeleteShader { shader: 1 },
    ];
    assert_eq!(stub.calls, expected);
}

#[test]
fn a_name_that_is_no_uniform_is_absent() {
    let mut stub = Stub::new();
    let shader = run(Shader::new_from_source(VERTEX, FRAGMENT), &mut stub).expect("a shader");
    let query = shader.uniform_location("nonexistent_name");
    assert_eq!(
        query,
        Command::GetUniformLocation { program: 3, name: "nonexistent_name".to_string() }
    );
    let reply = stub.execute(&query);
    assert!(query.accepts(&reply));
    assert_eq!(reply.value, Value::Integer(-1));
    assert_eq!(shader.get_uniform(-1), None);
}

#[test]
fn a_found_uniform_keeps_its_location() {
    let mut stub = Stub::new();
    let shader = run(Shader::new_from_source(VERTEX, FRAGMENT), &mut stub).expect("a shader");
    assert_eq!(shader.get_uniform(0).expect("a uniform").location(), 0);
    assert_eq!(shader.get_uniform(3).expect("a uniform").location(), 3);
    assert_eq!(shader.get_uniform(i32::MAX).expect("a uniform").location(), i32::MAX);
    assert_eq!(shader.get_uniform(-2).expect("a uniform").location(), -2);
    assert_eq!(shader.get_uniform(3), shader.get_uniform(3));
    assert_ne!(shader.get_uniform(3), shader.get_uniform(0));
}

#[test]
fn setting_a_float_is_one_call_with_that_location_and_value() {
    let mut stub = Stub::new();
    let shader = run(Shader::new_from_source(VERTEX, FRAGMENT), &mut stub).expect("a shader");
    let reply = stub.execute(&shader.uniform_location("scale"));
    let location = match reply.value {
        Value::Integer(location) => location,
        other => panic!("no location: {:?}", other),
    };
    let uniform = shader.get_uniform(location).expect("a uniform");
    stub.execute(&shader.bind());
    let before = stub.calls.len();
    let command = shader.set_uniform_f32(uniform, 3.14f32.to_bits());
    let reply = stub.execute(&command);
    assert!(command.accepts(&reply));
    assert_eq!(stub.calls.len(), before + 1);
    assert_eq!(stub.count(|call| matches!(call, Command::Uniform1f { .. })), 1);
    match stub.calls.last() {
        Some(Command::Uniform1f { location, bits }) => {
            assert_eq!(*location, 3);
            assert_eq!(f32::from_bits(*bits), 3.14f32);
        }
        other => panic!("not a float write: {:?}", other),
    }
}

#[test]
fn setting_an_integer_names_location_and_value() {
    let mut stub = Stub::new();
    let shader = run(Shader::new_from_source(VERTEX, FRAGMENT), &mut stub).expect("a shader");
    let uniform = shader.get_uniform(0).expect("a uniform");
    assert_eq!(
        shader.set_uniform_i32(uniform, -7),
        Command::Uniform1i { location: 0, value: -7 }
    );
}

#[test]
fn setting_a_vector_keeps_three_floats_in_order() {
    let mut stub = Stub::new();
    let shader = run(Shader::new_from_source(VERTEX, FRAGMENT), &mut stub).expect("a shader");
    let uniform = shader.get_uniform(5).expect("a uniform");
    let vector = [1.0f32, -2.5, 0.25];
    let bits = [vector[0].to_bits(), vector[1].to_bits(), vector[2].to_bits()];
    match shader.set_uniform_vec3f(uniform, bits) {
        Command::Uniform3fv { location, vector: written } => {
            assert_eq!(location, 5);
            assert_eq!(written.map(f32::from_bits), vector);
        }
        other => panic!("not a vector write: {:?}", other),
    }
}

#[test]
fn setting_a_matrix_keeps_column_major_order() {
    let mut stub = Stub::new();
    let shader = run(Shader::new_from_source(VERTEX, FRAGMENT), &mut stub).expect("a shader");
    let uniform = shader.get_uniform(2).expect("a uniform");
    let mut matrix: [f32; 16] = mat4::new_identity();
    mat4::set_position(&mut matrix, &[7.0, 8.0, 9.0]);
    match shader.set_uniform_mat4(uniform, matrix.map(f32::to_bits)) {
        Command::UniformMatrix4fv { location, matrix: written } => {
            assert_eq!(location, 2);
            let floats = written.map(f32::from_bits);
            assert_eq!(floats, matrix);
            assert_eq!(&floats[12..15], &[7.0, 8.0, 9.0]);
        }
        other => panic!("not a matrix write: {:?}", other),
    }
}

#[test]
fn a_whole_life_balances_creations_and_deletions() {
    let mut stub = Stub::new();
    let shader = run(Shader::new_from_source(VERTEX, FRAGMENT), &mut stub).expect("a shader");
    assert_eq!(stub.live, vec![3]);
    stub.execute(&shader.bind());
    assert_eq!(stub.active, 3);
    let unbind = shader.unbind();
    assert_eq!(unbind, Command::UseProgram { program: 0 });
    stub.execute(&unbind);
    assert_eq!(stub.active, 0);
    let release = shader.release();
    assert_eq!(release, Command::DeleteProgram { program: 3 });
    stub.execute(&release);
    assert_eq!(stub.created, 3);
    assert_eq!(stub.deleted, 3);
    assert!(stub.live.is_empty());
}

#[test]
fn empty_sources_go_to_the_driver_as_they_are() {
    let mut stub = Stub::new();
    run(Shader::new_from_source("", ""), &mut stub).expect("a shader");
    assert_eq!(stub.calls[1], Command::ShaderSource { shader: 1, source: String::new() });
    assert_eq!(stub.calls[5], Command::ShaderSource { shader: 2, source: String::new() });
}

#[test]
fn a_log_of_many_bytes_per_character_is_kept_whole() {
    let mut stub = Stub::new();
    stub.vertex_compiles = false;
    stub.log = "Fehler: unerwartetes Zeichen \u{201e}\u{00df}\u{201c}\0".as_bytes().to_vec();
    let message =
        run(Shader::new_from_source("\u{00df}", FRAGMENT), &mut stub).expect_err("a diagnostic");
    assert_eq!(
        message,
        "Vertex shader compilation failed:\nFehler: unerwartetes Zeichen \u{201e}\u{00df}\u{201c}\0"
    );
}

#[test]
fn no_build_takes_more_than_eighteen_calls() {
    for (vertex, fragment, links) in
        [(true, true, true), (false, true, true), (true, false, true), (true, true, false)]
    {
        let mut stub = Stub::new();
        stub.vertex_compiles = vertex;
        stub.fragment_compiles = fragment;
        stub.links = links;
        let _ = run(Shader::new_from_source(VERTEX, FRAGMENT), &mut stub);
        assert!(stub.calls.len() <= 18);
    }
}

#[test]
fn a_driver_error_is_a_bridge_fault() {
    let command = Command::CompileShader { shader: 1 };
    assert!(command.accepts(&Reply { error: 0, value: Value::Done }));
    assert!(!command.accepts(&Reply { error: 0x0502, value: Value::Done }));
    assert!(!command.accepts(&Reply { error: 1, value: Value::Done }));
}

#[test]
fn a_zero_handle_is_a_bridge_fault() {
    let shader = Command::CreateShader { stage: Stage::Vertex };
    assert!(shader.accepts(&Reply { error: 0, value: Value::Handle(1) }));
    assert!(!shader.accepts(&Reply { error: 0, value: Value::Handle(0) }));
    let program = Command::CreateProgram;
    assert!(program.accepts(&Reply { error: 0, value: Value::Handle(u32::MAX) }));
    assert!(!program.accepts(&Reply { error: 0, value: Value::Handle(0) }));
}

#[test]
fn an_empty_log_is_a_bridge_fault() {
    let shader = Command::GetShaderLogLength { shader: 1 };
    assert!(shader.accepts(&Reply { error: 0, value: Value::Integer(1) }));
    assert!(!shader.accepts(&Reply { error: 0, value: Value::Integer(0) }));
    assert!(!shader.accepts(&Reply { error: 0, value: Value::Integer(-1) }));
    let program = Command::GetProgramLogLength { program: 1 };
    assert!(program.accepts(&Reply { error: 0, value: Value::Integer(40) }));
    assert!(!program.accepts(&Reply { error: 0, value: Value::Integer(0) }));
}

#[test]
fn a_log_that_is_no_text_is_a_bridge_fault() {
    let shader = Command::GetShaderInfoLog { shader: 1, capacity: 2 };
    assert!(shader.accepts(&Reply { error: 0, value: Value::Log(b"ok".to_vec()) }));
    assert!(shader.accepts(&Reply { error: 0, value: Value::Log(Vec::new()) }));
    assert!(!shader.accepts(&Reply { error: 0, value: Value::Log(vec![0xff, 0xfe]) }));
    assert!(!shader.accepts(&Reply { error: 0, value: Value::Log(vec![0xc3]) }));
    let program = Command::GetProgramInfoLog { program: 1, capacity: 2 };
    assert!(program.accepts(&Reply { error: 0, value: Value::Log(vec![0xc3, 0x9f]) }));
    assert!(!program.accepts(&Reply { error: 0, value: Value::Log(vec![0x9f, 0xc3]) }));
}

#[test]
fn an_answer_of_the_wrong_shape_is_a_bridge_fault() {
    let status = Command::GetCompileStatus { shader: 1 };
    assert!(status.accepts(&Reply { error: 0, value: Value::Integer(0) }));
    assert!(status.accepts(&Reply { error: 0, value: Value::Integer(1) }));
    assert!(!status.accepts(&Reply { error: 0, value: Value::Done }));
    assert!(!status.accepts(&Reply { error: 0, value: Value::Handle(1) }));
    let link = Command::GetLinkStatus { program: 1 };
    assert!(link.accepts(&Reply { error: 0, value: Value::Integer(-5) }));
    assert!(!link.accepts(&Reply { error: 0, value: Value::Log(Vec::new()) }));
    let bind = Command::UseProgram { program: 1 };
    assert!(!bind.accepts(&Reply { error: 0, value: Value::Integer(0) }));
    let write = Command::Uniform1i { location: 0, value: 1 };
    assert!(write.accepts(&Reply { error: 0, value: Value::Done }));
    assert!(!write.accepts(&Reply { error: 0, value: Value::Handle(1) }));
    let query = Command::GetUniformLocation { program: 1, name: "x".to_string() };
    assert!(query.accepts(&Reply { error: 0, value: Value::Integer(-1) }));
    assert!(!query.accepts(&Reply { error: 0, value: Value::Done }));
}

#[test]
fn stages_carry_the_driver_s_shader_types() {
    assert_eq!(Stage::Vertex.shader_type(), gl::VERTEX_SHADER);
    assert_eq!(Stage::Fragment.shader_type(), gl::FRAGMENT_SHADER);
    assert_eq!(Stage::Vertex.shader_type(), 0x8B31);
    assert_eq!(Stage::Fragment.shader_type(), 0x8B30);
}

#[test]
fn any_nonzero_status_is_success() {
    for status in [1, -1, 2, i32::MAX, i32::MIN] {
        let mut build = Shader::new_from_source(VERTEX, FRAGMENT);
        let replies = [Value::Handle(9), Value::Done, Value::Done, Value::Integer(status)];
        for value in replies {
            build = match build.advance(Reply { error: 0, value }) {
                Progress::Next(next) => next,
                Progress::Finished(outcome) => panic!("ended early: {:?}", outcome),
            };
        }
        assert_eq!(build.command(), Command::CreateShader { stage: Stage::Fragment });
    }
}

#[test]
fn a_driver_may_reuse_a_handle() {
    let mut build = Shader::new_from_source(VERTEX, FRAGMENT);
    let mut calls = Vec::new();
    let replies = [
        Value::Handle(4),
        Value::Done,
        Value::Done,
        Value::Integer(1),
        Value::Handle(4),
        Value::Done,
        Value::Done,
        Value::Integer(0),
        Value::Integer(3),
        Value::Log(b"no".to_vec()),
        Value::Done,
        Value::Done,
    ];
    let mut outcome = None;
    for value in replies {
        let command = build.command();
        let reply = Reply { error: 0, value };
        assert!(command.accepts(&reply));
        calls.push(command);
        match build.advance(reply) {
            Progress::Next(next) => build = next,
            Progress::Finished(result) => {
                outcome = Some(result);
                break;
            }
        }
    }
    assert_eq!(outcome, Some(Err("Fragment shader compilation failed:\nno".to_string())));
    assert_eq!(calls.len(), 12);
    assert_eq!(calls[10], Command::DeleteShader { shader: 4 });
    assert_eq!(calls[11], Command::DeleteShader { shader: 4 });
}

#[test]
fn running_a_build_gives_the_shader_of_its_session() {
    let stub = RefCell::new(Stub::new());
    let shader = Shader::new_from_source(VERTEX, FRAGMENT)
        .run(|command| {
            let reply = stub.borrow_mut().execute(command);
            assert!(command.accepts(&reply));
            reply
        })
        .expect("a shader");
    assert_eq!(shader.handle(), 3);
    assert_eq!(stub.borrow().calls.len(), 15);
    assert_eq!(stub.borrow().live, vec![3]);
}

#[test]
fn running_a_build_gives_the_diagnostic_of_its_session() {
    let stub = RefCell::new(Stub::new());
    stub.borrow_mut().fragment_compiles = false;
    let outcome = Shader::new_from_source(VERTEX, FRAGMENT).run(|command| {
        let reply = stub.borrow_mut().execute(command);
        assert!(command.accepts(&reply));
        reply
    });
    assert_eq!(
        outcome,
        Err("Fragment shader compilation failed:\n0:1(1): error: syntax error\0".to_string())
    );
    assert_eq!(stub.borrow().calls.len(), 12);
    assert!(stub.borrow().live.is_empty());
}
