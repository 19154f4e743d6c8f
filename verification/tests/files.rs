use shader_pipeline::driver::{Command, Stage};
use shader_pipeline::shader::Shader;
use shader_pipeline::text::{compile_failure, decode, file_contents, is_text, link_failure};

#[test]
fn a_file_that_cannot_be_read_names_its_path() {
    let read = Err("No such file or directory (os error 2)".to_string());
    let message = file_contents("shaders/missing.vert", read).expect_err("a diagnostic");
    assert!(message.contains("shaders/missing.vert"));
    assert_eq!(
        message,
        "File at 'shaders/missing.vert' could not be read: No such file or directory (os error 2)"
    );
}

#[test]
fn a_file_that_is_no_text_says_so_and_names_its_path() {
    let message =
        file_contents("shaders/blob.frag", Ok(vec![0x66, 0x6f, 0x80, 0x6f])).expect_err("a diagnostic");
    assert!(message.contains("shaders/blob.frag"));
    assert!(message.contains("is not valid UTF-8"));
    assert_eq!(message, "File at 'shaders/blob.frag' is not valid UTF-8.");
}

#[test]
fn a_file_of_text_gives_its_text() {
    let text = file_contents("a.vert", Ok("void main() {}\n".as_bytes().to_vec()));
    assert_eq!(text, Ok("void main() {}\n".to_string()));
    assert_eq!(file_contents("empty.vert", Ok(Vec::new())), Ok(String::new()));
    assert_eq!(
        file_contents("umlaut.vert", Ok(vec![0x2f, 0x2f, 0x20, 0xc3, 0xa4])),
        Ok("// \u{e4}".to_string())
    );
}

#[test]
fn files_that_load_begin_a_build_from_their_texts() {
    let build = Shader::new_from_files(
        "a.vert",
        Ok(b"vertex text".to_vec()),
        "a.frag",
        Ok(b"fragment text".to_vec()),
    )
    .expect("a build");
    assert_eq!(build.command(), Command::CreateShader { stage: Stage::Vertex });
    assert_eq!(format!("{:?}", build), format!("{:?}", Shader::new_from_source("vertex text", "fragment text")));
}

#[test]
fn a_missing_vertex_file_is_reported_before_the_fragment_file() {
    let outcome = Shader::new_from_files(
        "gone.vert",
        Err("not found".to_string()),
        "bad.frag",
        Ok(vec![0xff]),
    );
    assert_eq!(
        outcome.expect_err("a diagnostic"),
        "File at 'gone.vert' could not be read: not found"
    );
}

#[test]
fn a_missing_fragment_file_is_reported_when_the_vertex_file_loads() {
    let outcome = Shader::new_from_files(
        "a.vert",
        Ok(b"void main() {}".to_vec()),
        "gone.frag",
        Err("permission denied".to_string()),
    );
    assert_eq!(
        outcome.expect_err("a diagnostic"),
        "File at 'gone.frag' could not be read: permission denied"
    );
}

#[test]
fn a_vertex_file_that_is_no_text_is_reported() {
    let outcome =
        Shader::new_from_files("bad.vert", Ok(vec![0xc0, 0x80]), "a.frag", Ok(b"x".to_vec()));
    assert_eq!(outcome.expect_err("a diagnostic"), "File at 'bad.vert' is not valid UTF-8.");
}

#[test]
fn a_fragment_file_that_is_no_text_is_reported() {
    let outcome =
        Shader::new_from_files("a.vert", Ok(b"x".to_vec()), "bad.frag", Ok(vec![0xed, 0xa0, 0x80]));
    assert_eq!(outcome.expect_err("a diagnostic"), "File at 'bad.frag' is not valid UTF-8.");
}

#[test]
fn decoding_gives_the_text_or_nothing() {
    assert_eq!(decode(&b"plain".to_vec()), Some("plain".to_string()));
    assert_eq!(decode(&Vec::new()), Some(String::new()));
    assert_eq!(decode(&vec![0xe2, 0x82, 0xac]), Some("\u{20ac}".to_string()));
    assert_eq!(decode(&vec![0xf0, 0x9f, 0x98, 0x80, 0x00]), Some("\u{1f600}\0".to_string()));
    assert_eq!(decode(&vec![0xe2, 0x82]), None);
    assert_eq!(decode(&vec![0x80]), None);
    assert_eq!(decode(&vec![0xf5, 0x80, 0x80, 0x80]), None);
}

#[test]
fn text_is_told_from_other_bytes() {
    assert!(is_text(&b"#version 330 core".to_vec()));
    assert!(is_text(&vec![0xc3, 0xa9]));
    assert!(!is_text(&vec![0xc3]));
    assert!(!is_text(&vec![0xc0, 0xaf]));
}

#[test]
fn compile_diagnostics_name_the_stage() {
    assert_eq!(
        compile_failure(Stage::Vertex, "line 3: oops"),
        "Vertex shader compilation failed:\nline 3: oops"
    );
    assert_eq!(
        compile_failure(Stage::Fragment, "line 9: oops"),
        "Fragment shader compilation failed:\nline 9: oops"
    );
    assert_eq!(compile_failure(Stage::Vertex, ""), "Vertex shader compilation failed:\n");
}

#[test]
fn link_diagnostics_carry_the_log() {
    assert_eq!(link_failure("missing main"), "Shader linking failed:\nmissing main");
    assert_eq!(link_failure(""), "Shader linking failed:\n");
}
