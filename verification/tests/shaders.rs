use render_loop::error::RenderError;
use render_loop::shader::{
    assemble_shader, compile_shader, ShaderKind, COMPILE_ENTRY_POINT, OPTIONS_SEPARATOR,
    PIPELINE_ENTRY_POINT, SHADER_NAME,
};

#[test]
fn shader_constants() {
    assert_eq!(OPTIONS_SEPARATOR, b'\n');
    assert_eq!(SHADER_NAME, "Vertex");
    assert_eq!(COMPILE_ENTRY_POINT, "compile_shader()");
    assert_eq!(PIPELINE_ENTRY_POINT, "pipeline()");
}

#[test]
fn options_come_first_and_on_their_own_line() {
    let options = b"#version 450".to_vec();
    let shader = b"void main() {}".to_vec();
    assert_eq!(
        assemble_shader(Some(&options), &shader),
        Some(String::from("#version 450\nvoid main() {}"))
    );
}

#[test]
fn a_shader_without_options_is_taken_as_it_is() {
    let shader = b"void main() {}\n".to_vec();
    assert_eq!(assemble_shader(None, &shader), Some(String::from("void main() {}\n")));
}

#[test]
fn empty_parts_still_get_their_separator() {
    assert_eq!(assemble_shader(Some(&Vec::new()), &Vec::new()), Some(String::from("\n")));
    assert_eq!(assemble_shader(None, &Vec::new()), Some(String::new()));
    assert_eq!(assemble_shader(Some(&b"a".to_vec()), &Vec::new()), Some(String::from("a\n")));
}

#[test]
fn text_beyond_ascii_is_kept() {
    let options = "// größe".as_bytes().to_vec();
    let shader = "// 三角形 \u{1F53A}".as_bytes().to_vec();
    assert_eq!(
        assemble_shader(Some(&options), &shader),
        Some(String::from("// größe\n// 三角形 \u{1F53A}"))
    );
}

#[test]
fn bytes_that_are_not_utf8_give_no_source() {
    assert_eq!(assemble_shader(None, &vec![0xff]), None);
    assert_eq!(assemble_shader(Some(&vec![0xc3, 0x28]), &b"void main() {}".to_vec()), None);
    assert_eq!(assemble_shader(Some(&b"fine".to_vec()), &vec![0xed, 0xa0, 0x80]), None);
    assert_eq!(assemble_shader(None, &vec![0xc0, 0x80]), None);
}

#[test]
fn a_character_cannot_span_the_separator() {
    // The two bytes of one character, with the line feed put between them.
    assert_eq!(assemble_shader(Some(&vec![0xc3]), &vec![0xa9]), None);
    assert_eq!(assemble_shader(None, &vec![0xc3, 0xa9]), Some(String::from("é")));
}

#[test]
fn compiled_words_are_handed_on() {
    let words = vec![0x0723_0203, 0x0001_0000, 7, 8, 9];
    assert_eq!(compile_shader(ShaderKind::Vertex, Some(Ok(words.clone()))), Ok(words));
    assert_eq!(compile_shader(ShaderKind::Fragment, Some(Ok(Vec::new()))), Ok(Vec::new()));
}

#[test]
fn a_rejected_shader_carries_the_diagnostic() {
    let diagnostic = String::from("Vertex:1: error: 'vod' : undeclared identifier");
    assert_eq!(
        compile_shader(ShaderKind::Fragment, Some(Err(diagnostic.clone()))),
        Err(RenderError::ShaderCompileFailed(diagnostic))
    );
}

#[test]
fn a_missing_compiler_is_a_compile_failure() {
    assert_eq!(
        compile_shader(ShaderKind::Vertex, None),
        Err(RenderError::ShaderCompileFailed(String::from("Failed to compile shader: Vertex")))
    );
    assert_eq!(
        compile_shader(ShaderKind::Fragment, None),
        Err(RenderError::ShaderCompileFailed(String::from("Failed to compile shader: Fragment")))
    );
}
