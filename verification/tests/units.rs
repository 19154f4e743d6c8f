use shader_pipeline::compile::{compilation_succeeded, Compilation, CompilationUnit};
use shader_pipeline::driver::{Command, Progress, Reply, Stage, Value};
use shader_pipeline::program::{link_succeeded, Linking, Program};

fn answer(value: Value) -> Reply {
    Reply { error: 0, value }
}

fn compile(stage: Stage, source: &str, handle: u32) -> CompilationUnit {
    let mut compilation = CompilationUnit::compile(stage, source);
    for value in [Value::Handle(handle), Value::Done, Value::Done] {
        compilation = match compilation.advance(answer(value)) {
            Progress::Next(next) => next,
            Progress::Finished(outcome) => panic!("ended early: {:?}", outcome),
        };
    }
    match compilation.advance(answer(Value::Integer(1))) {
        Progress::Finished(Ok(unit)) => unit,
        other => panic!("not compiled: {:?}", other),
    }
}

fn drive_compilation(
    mut compilation: Compilation,
    replies: Vec<Value>,
) -> (Vec<Command>, Result<CompilationUnit, String>) {
    let mut calls = Vec::new();
    for value in replies {
        let command = compilation.command();
        let reply = answer(value);
        assert!(command.accepts(&reply));
        calls.push(command);
        match compilation.advance(reply) {
            Progress::Next(next) => compilation = next,
            Progress::Finished(outcome) => return (calls, outcome),
        }
    }
    panic!("the compilation did not end: {:?}", compilation);
}

fn drive_linking(mut linking: Linking, replies: Vec<Value>) -> (Vec<Command>, Result<Program, String>) {
    let mut calls = Vec::new();
    for value in replies {
        let command = linking.command();
        let reply = answer(value);
        assert!(command.accepts(&reply));
        calls.push(command);
        match linking.advance(reply) {
            Progress::Next(next) => linking = next,
            Progress::Finished(outcome) => return (calls, outcome),
        }
    }
    panic!("the link did not end: {:?}", linking);
}

#[test]
fn a_unit_that_compiles_keeps_stage_and_handle() {
    let (calls, outcome) = drive_compilation(
        CompilationUnit::compile(Stage::Fragment, "void main() {}"),
        vec![Value::Handle(11), Value::Done, Value::Done, Value::Integer(1)],
    );
    let unit = outcome.expect("a unit");
    assert_eq!(unit.stage(), Stage::Fragment);
    assert_eq!(unit.handle(), 11);
    assert_eq!(
        calls,
        vec![
            Command::CreateShader { stage: Stage::Fragment },
            Command::ShaderSource { shader: 11, source: "void main() {}".to_string() },
            Command::CompileShader { shader: 11 },
            Command::GetCompileStatus { shader: 11 },
        ]
    );
    assert_eq!(unit.release(), Command::DeleteShader { shader: 11 });
}

#[test]
fn a_unit_that_fails_is_deleted_before_its_diagnostic_is_handed_out() {
    let (calls, outcome) = drive_compilation(
        CompilationUnit::compile(Stage::Vertex, "garbage"),
        vec![
            Value::Handle(5),
            Value::Done,
            Value::Done,
            Value::Integer(0),
            Value::Integer(9),
            Value::Log(b"bad code\0".to_vec()),
            Value::Done,
        ],
    );
    assert_eq!(outcome, Err("Vertex shader compilation failed:\nbad code\0".to_string()));
    assert_eq!(calls.len(), 7);
    assert_eq!(calls[4], Command::GetShaderLogLength { shader: 5 });
    assert_eq!(calls[5], Command::GetShaderInfoLog { shader: 5, capacity: 9 });
    assert_eq!(calls[6], Command::DeleteShader { shader: 5 });
}

#[test]
fn a_link_that_succeeds_deletes_both_units_and_keeps_the_program() {
    let vertex = compile(Stage::Vertex, "v", 21);
    let fragment = compile(Stage::Fragment, "f", 22);
    let (calls, outcome) = drive_linking(
        Program::link(vertex, fragment),
        vec![
            Value::Handle(30),
            Value::Done,
            Value::Done,
            Value::Done,
            Value::Integer(1),
            Value::Done,
            Value::Done,
        ],
    );
    let program = outcome.expect("a program");
    assert_eq!(program.handle(), 30);
    assert_eq!(
        calls,
        vec![
            Command::CreateProgram,
            Command::AttachShader { program: 30, shader: 21 },
            Command::AttachShader { program: 30, shader: 22 },
            Command::LinkProgram { program: 30 },
            Command::GetLinkStatus { program: 30 },
            Command::DeleteShader { shader: 22 },
            Command::DeleteShader { shader: 21 },
        ]
    );
    assert_eq!(program.release(), Command::DeleteProgram { program: 30 });
}

#[test]
fn a_link_that_fails_deletes_the_program_and_both_units() {
    let vertex = compile(Stage::Vertex, "v", 21);
    let fragment = compile(Stage::Fragment, "f", 22);
    let (calls, outcome) = drive_linking(
        Program::link(vertex, fragment),
        vec![
            Value::Handle(30),
            Value::Done,
            Value::Done,
            Value::Done,
            Value::Integer(0),
            Value::Integer(14),
            Value::Log(b"no entry point".to_vec()),
            Value::Done,
            Value::Done,
            Value::Done,
        ],
    );
    assert_eq!(outcome, Err("Shader linking failed:\nno entry point".to_string()));
    assert_eq!(
        calls[5..].to_vec(),
        vec![
            Command::GetProgramLogLength { program: 30 },
            Command::GetProgramInfoLog { program: 30, capacity: 14 },
            Command::DeleteProgram { program: 30 },
            Command::DeleteShader { shader: 22 },
            Command::DeleteShader { shader: 21 },
        ]
    );
}

#[test]
fn a_status_is_a_failure_only_when_it_is_zero() {
    assert!(!compilation_succeeded(0));
    assert!(compilation_succeeded(1));
    assert!(compilation_succeeded(-1));
    assert!(!link_succeeded(0));
    assert!(link_succeeded(1));
    assert!(link_succeeded(i32::MIN));
}
