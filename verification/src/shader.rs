use crate::error::RenderError;
use vstd::prelude::*;
use vstd::utf8::{decode_utf8, valid_utf8};

verus! {

/// The pipeline stage a shader is written for.
#[derive(Clone, Copy, Debug, PartialEq, Eq, Structural)]
pub enum ShaderKind {
    Vertex,
    Fragment,
}

/// The byte that parts the shared options from the shader that follows them: a line feed.
pub const OPTIONS_SEPARATOR: u8 = 0xA;

/// The file name under which every shader is handed to the compiler.
pub const SHADER_NAME: &'static str = "Vertex";

/// The entry point named to the compiler.
pub const COMPILE_ENTRY_POINT: &'static str = "compile_shader()";

/// The entry point named to the pipeline for both of its stages.
pub const PIPELINE_ENTRY_POINT: &'static str = "pipeline()";

/// The bytes of a shader as they are compiled: the shared options, a line
/// feed and the shader itself, or the shader alone where no options are shared.
pub open spec fn with_options(options: Option<Seq<u8>>, shader: Seq<u8>) -> Seq<u8> {
    match options {
        Some(options) => options + seq![OPTIONS_SEPARATOR] + shader,
        None => shader,
    }
}

/// What is reported when no compiler could be had for a shader of `kind`.
pub open spec fn no_compiler_message(kind: ShaderKind) -> Seq<char> {
    match kind {
        ShaderKind::Vertex => "Failed to compile shader: Vertex"@,
        ShaderKind::Fragment => "Failed to compile shader: Fragment"@,
    }
}

/// Calls `String::from_utf8` and drops the description of the error. The
/// standard library returns the string made of exactly these bytes, and
/// refuses exactly the byte sequences that are not UTF-8.
#[verifier::external_body]
fn string_from_utf8(bytes: Vec<u8>) -> (text: Option<String>)
    ensures
        text is Some <==> valid_utf8(bytes@),
        text matches Some(text) ==> text@ == decode_utf8(bytes@),
{
    String::from_utf8(bytes).ok()
}

/// Appends the bytes of `more` to `bytes`.
fn append_bytes(bytes: &mut Vec<u8>, more: &Vec<u8>)
    ensures
        final(bytes)@ == old(bytes)@ + more@,
{
    let mut at: usize = 0;
    while at < more.len()
        invariant
            at <= more.len(),
            bytes@ == old(bytes)@ + more@.take(at as int),
        decreases more.len() - at,
    {
        bytes.push(more[at]);
        at += 1;
    }
}

/// The bytes that `assemble_shader` decodes.
pub open spec fn source_bytes(options: Option<&Vec<u8>>, shader: &Vec<u8>) -> Seq<u8> {
    match options {
        Some(options) => with_options(Some(options@), shader@),
        None => with_options(None, shader@),
    }
}

/// Puts a shader source together from what was read: the shared options
/// first, if there are any, then a line feed, then the shader. Returns the
/// text, or `None` where the bytes are not UTF-8.
pub fn assemble_shader(options: Option<&Vec<u8>>, shader: &Vec<u8>) -> (source: Option<String>)
    ensures
        source is Some <==> valid_utf8(source_bytes(options, shader)),
        source matches Some(text) ==> text@ == decode_utf8(source_bytes(options, shader)),
{
    let mut bytes: Vec<u8> = Vec::new();
    match options {
        Some(options) => {
            append_bytes(&mut bytes, options);
            bytes.push(OPTIONS_SEPARATOR);
        },
        None => {},
    }
    append_bytes(&mut bytes, shader);
    assert(bytes@ =~= source_bytes(options, shader));
    string_from_utf8(bytes)
}

/// Turns what the shader compiler returned for a shader of `kind` into
/// its SPIR-V words or the error that ends start-up. `compiled` is `None`
/// where no compiler could be had, else the words of the binary or the
/// compiler's diagnostic.
pub fn compile_shader(kind: ShaderKind, compiled: Option<Result<Vec<u32>, String>>) -> (outcome: Result<
    Vec<u32>,
    RenderError,
>)
    ensures
        match compiled {
            Some(Ok(words)) => outcome == Ok::<Vec<u32>, RenderError>(words),
            Some(Err(diagnostic)) => outcome == Err::<Vec<u32>, RenderError>(
                RenderError::ShaderCompileFailed(diagnostic),
            ),
            None => outcome matches Err(RenderError::ShaderCompileFailed(message)) && message@
                == no_compiler_message(kind),
        },
{
    match compiled {
        Some(Ok(words)) => Ok(words),
        Some(Err(diagnostic)) => Err(RenderError::ShaderCompileFailed(diagnostic)),
        None => {
            let message: String = match kind {
                ShaderKind::Vertex => String::from_str("Failed to compile shader: Vertex"),
                ShaderKind::Fragment => String::from_str("Failed to compile shader: Fragment"),
            };
            Err(RenderError::ShaderCompileFailed(message))
        },
    }
}

} // verus!
