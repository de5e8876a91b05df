use vstd::prelude::*;

use crate::options::{resolve_config, resolved_config, CompileOptions, CompilerConfig, JsxRuntime};

verus! {

/// What the MDX compiler gives for `content` under `config`: the generated
/// code, or the text of the message that says why it failed.
pub uninterp spec fn mdx_output(content: Seq<char>, config: CompilerConfig) -> Result<
    Seq<char>,
    Seq<char>,
>;

/// The view of an outcome that carries text on both sides.
pub open spec fn text_outcome(r: Result<String, String>) -> Result<Seq<char>, Seq<char>> {
    match r {
        Ok(code) => Ok(code@),
        Err(message) => Err(message@),
    }
}

/// Relies on `mdxjs::compile`: it turns MDX into JavaScript or returns a
/// message, and what it returns depends on the source and the options alone.
/// The message is taken as text through its `Display` impl.
#[verifier::external_body]
fn run_mdx(content: &str, config: &CompilerConfig) -> (r: Result<String, String>)
    ensures
        text_outcome(r) == mdx_output(content@, *config),
{
    let options = mdxjs::Options {
        development: config.development,
        jsx: config.jsx,
        jsx_runtime: config.jsx_runtime.map(|k| match k {
            JsxRuntime::Automatic => mdxjs::JsxRuntime::Automatic,
            JsxRuntime::Classic => mdxjs::JsxRuntime::Classic,
        }),
        jsx_import_source: config.jsx_import_source.clone(),
        pragma: config.pragma.clone(),
        pragma_frag: config.pragma_frag.clone(),
        pragma_import_source: config.pragma_import_source.clone(),
        ..mdxjs::Options::default()
    };
    mdxjs::compile(content, &options).map_err(|e| e.to_string())
}

/// The generated module of a successful compilation.
pub struct CompileResult {
    /// The generated JavaScript.
    pub code: String,
    /// A source map; never produced.
    pub map: Option<String>,
}

/// A failed compilation, described in one message.
pub struct CompileError {
    /// The labelled description of what went wrong.
    pub message: String,
}

/// The label that opens every failure message.
pub open spec fn failure_label() -> Seq<char> {
    "MDX compilation failed: "@
}

/// The message reported for a compiler failure described by `detail`.
pub fn failure_message(detail: &str) -> (r: String)
    ensures
        r@ == failure_label() + detail@,
        r@.len() > 0,
{
    let mut message = "MDX compilation failed: ".to_string();
    message.append(detail);
    proof {
        reveal_strlit("MDX compilation failed: ");
    }
    message
}

/// What a call reports for a compiler outcome: the code with no source map,
/// or the labelled failure message.
pub open spec fn reported(outcome: Result<Seq<char>, Seq<char>>) -> Result<Seq<char>, Seq<char>> {
    match outcome {
        Ok(code) => Ok(code),
        Err(detail) => Err(failure_label() + detail),
    }
}

/// The view of what a call reports: the code, or the error's message.
pub open spec fn report_view(r: Result<CompileResult, CompileError>) -> Result<
    Seq<char>,
    Seq<char>,
> {
    match r {
        Ok(res) => Ok(res.code@),
        Err(e) => Err(e.message@),
    }
}

/// Turns the compiler's outcome into the caller's result: the generated code
/// with no source map, or an error whose message is the labelled failure text.
pub fn into_compile_result(outcome: Result<String, String>) -> (r: Result<
    CompileResult,
    CompileError,
>)
    ensures
        report_view(r) == reported(text_outcome(outcome)),
        r matches Ok(res) ==> res.map is None,
        r matches Err(e) ==> e.message@.len() > 0,
{
    match outcome {
        Ok(code) => Ok(CompileResult { code, map: None }),
        Err(detail) => Err(CompileError { message: failure_message(&detail) }),
    }
}

/// Compiles MDX `content` under the compiler's defaults with each field of
/// `options` written over its slot. Succeeds exactly when the compiler does,
/// with its code and no source map; otherwise reports its message, labelled.
pub fn compile_sync(content: String, options: Option<CompileOptions>) -> (r: Result<
    CompileResult,
    CompileError,
>)
    ensures
        report_view(r) == reported(mdx_output(content@, resolved_config(options))),
        r is Ok <==> mdx_output(content@, resolved_config(options)) is Ok,
        r matches Ok(res) ==> res.map is None,
        r matches Err(e) ==> e.message@.len() > 0,
{
    let config = resolve_config(options);
    let outcome = run_mdx(content.as_str(), &config);
    into_compile_result(outcome)
}

/// Tells the host that the compiler is present. Always true.
pub fn is_available() -> (r: bool)
    ensures
        r,
{
    true
}

} // verus!
