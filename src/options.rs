use vstd::prelude::*;

verus! {

/// How JSX is lowered to JavaScript.
#[derive(Clone, Copy, Debug, PartialEq, Eq, Structural)]
pub enum JsxRuntime {
    /// Element helpers are imported from a configured module.
    Automatic,
    /// Elements are built by the pragma functions named in the configuration.
    Classic,
}

/// The runtime that a name selects; any name but the two known ones selects none.
pub open spec fn runtime_named(name: Seq<char>) -> Option<JsxRuntime> {
    if name == "automatic"@ {
        Some(JsxRuntime::Automatic)
    } else if name == "classic"@ {
        Some(JsxRuntime::Classic)
    } else {
        None
    }
}

/// Reads a runtime name: `"automatic"` and `"classic"` select their runtime,
/// anything else selects none.
pub fn runtime_from_name(name: &String) -> (r: Option<JsxRuntime>)
    ensures
        r == runtime_named(name@),
{
    if *name == "automatic".to_string() {
        Some(JsxRuntime::Automatic)
    } else if *name == "classic".to_string() {
        Some(JsxRuntime::Classic)
    } else {
        None
    }
}

/// What a caller may set for one compilation. Each field is optional, and a
/// field that is absent leaves the compiler's default in place.
pub struct CompileOptions {
    /// Development mode, with richer diagnostics in the generated code.
    pub development: Option<bool>,
    /// Keep JSX syntax in the output instead of lowering it to calls.
    pub jsx: Option<bool>,
    /// `"automatic"` or `"classic"`; any other name is ignored.
    pub jsx_runtime: Option<String>,
    /// Module that provides the helpers of the automatic runtime.
    pub jsx_import_source: Option<String>,
    /// Function that creates elements under the classic runtime.
    pub pragma: Option<String>,
    /// Function that creates fragments under the classic runtime.
    pub pragma_frag: Option<String>,
    /// Module that provides `pragma` and `pragma_frag`.
    pub pragma_import_source: Option<String>,
}

/// The configuration slots of the MDX compiler that a caller can reach.
/// The compiler's other settings always keep their defaults.
pub struct CompilerConfig {
    /// Generate development code.
    pub development: bool,
    /// Keep JSX in the output.
    pub jsx: bool,
    /// The runtime that lowers JSX, if any is chosen.
    pub jsx_runtime: Option<JsxRuntime>,
    /// Module that provides the automatic runtime's helpers.
    pub jsx_import_source: Option<String>,
    /// Element factory of the classic runtime.
    pub pragma: Option<String>,
    /// Fragment factory of the classic runtime.
    pub pragma_frag: Option<String>,
    /// Module that provides the classic runtime's factories.
    pub pragma_import_source: Option<String>,
}

/// The compiler's own defaults: production code, JSX lowered by the
/// automatic runtime, and no module or pragma names set.
pub open spec fn default_config() -> CompilerConfig {
    CompilerConfig {
        development: false,
        jsx: false,
        jsx_runtime: Some(JsxRuntime::Automatic),
        jsx_import_source: None,
        pragma: None,
        pragma_frag: None,
        pragma_import_source: None,
    }
}

/// `base` with each field that `o` holds written over its slot.
pub open spec fn apply_options(base: CompilerConfig, o: CompileOptions) -> CompilerConfig {
    CompilerConfig {
        development: match o.development {
            Some(d) => d,
            None => base.development,
        },
        jsx: match o.jsx {
            Some(j) => j,
            None => base.jsx,
        },
        jsx_runtime: match o.jsx_runtime {
            Some(name) => match runtime_named(name@) {
                Some(k) => Some(k),
                None => base.jsx_runtime,
            },
            None => base.jsx_runtime,
        },
        jsx_import_source: if o.jsx_import_source is Some {
            o.jsx_import_source
        } else {
            base.jsx_import_source
        },
        pragma: if o.pragma is Some {
            o.pragma
        } else {
            base.pragma
        },
        pragma_frag: if o.pragma_frag is Some {
            o.pragma_frag
        } else {
            base.pragma_frag
        },
        pragma_import_source: if o.pragma_import_source is Some {
            o.pragma_import_source
        } else {
            base.pragma_import_source
        },
    }
}

/// The configuration that a call with `options` compiles under.
pub open spec fn resolved_config(options: Option<CompileOptions>) -> CompilerConfig {
    match options {
        Some(o) => apply_options(default_config(), o),
        None => default_config(),
    }
}

/// Relies on `mdxjs::Options::default`, whose source sets the slots named
/// here to the values that `default_config` gives.
#[verifier::external_body]
fn compiler_defaults() -> (r: CompilerConfig)
    ensures
        r == default_config(),
{
    let o = mdxjs::Options::default();
    CompilerConfig {
        development: o.development,
        jsx: o.jsx,
        jsx_runtime: o.jsx_runtime.map(|k| match k {
            mdxjs::JsxRuntime::Automatic => JsxRuntime::Automatic,
            mdxjs::JsxRuntime::Classic => JsxRuntime::Classic,
        }),
        jsx_import_source: o.jsx_import_source,
        pragma: o.pragma,
        pragma_frag: o.pragma_frag,
        pragma_import_source: o.pragma_import_source,
    }
}

/// Builds the compiler configuration for a call: the compiler's defaults,
/// with each field that `options` holds written over its slot. An unknown
/// runtime name is ignored.
pub fn resolve_config(options: Option<CompileOptions>) -> (r: CompilerConfig)
    ensures
        r == resolved_config(options),
{
    let mut config = compiler_defaults();
    if let Some(opts) = options {
        if let Some(development) = opts.development {
            config.development = development;
        }
        if let Some(jsx) = opts.jsx {
            config.jsx = jsx;
        }
        if let Some(name) = opts.jsx_runtime {
            if let Some(kind) = runtime_from_name(&name) {
                config.jsx_runtime = Some(kind);
            }
        }
        if let Some(source) = opts.jsx_import_source {
            config.jsx_import_source = Some(source);
        }
        if let Some(pragma) = opts.pragma {
            config.pragma = Some(pragma);
        }
        if let Some(pragma_frag) = opts.pragma_frag {
            config.pragma_frag = Some(pragma_frag);
        }
        if let Some(source) = opts.pragma_import_source {
            config.pragma_import_source = Some(source);
        }
    }
    config
}

} // verus!
