//! Compiles MDX (Markdown with embedded JSX) into JavaScript component code.
//!
//! The library maps a caller's optional options record onto the MDX
//! compiler's configuration, runs the compiler, and turns its outcome into a
//! result record or a single descriptive error.
mod compile;
mod lemmas;
mod options;

pub use compile::{
    compile_sync, failure_label, failure_message, into_compile_result, is_available, mdx_output,
    report_view, reported, text_outcome, CompileError, CompileResult,
};
pub use lemmas::{lemma_absent_fields_keep_defaults, lemma_no_options_means_defaults, lemma_runtime_names};
pub use options::{
    apply_options, default_config, resolve_config, resolved_config, runtime_from_name,
    runtime_named, CompileOptions, CompilerConfig, JsxRuntime,
};
