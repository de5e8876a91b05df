use vstd::prelude::*;

use crate::options::{
    default_config, resolved_config, runtime_named, CompileOptions, JsxRuntime,
};

verus! {

/// Without options a call compiles under the compiler's defaults: production
/// code, JSX lowered by the automatic runtime, no module or pragma names.
pub proof fn lemma_no_options_means_defaults()
    ensures
        resolved_config(None) == default_config(),
        !resolved_config(None).development,
        !resolved_config(None).jsx,
        resolved_config(None).jsx_runtime == Some(JsxRuntime::Automatic),
        resolved_config(None).jsx_import_source is None,
        resolved_config(None).pragma is None,
        resolved_config(None).pragma_frag is None,
        resolved_config(None).pragma_import_source is None,
{
}

/// A field left out of the options never moves its slot off the default,
/// whatever the other fields hold; a field that is present sets its slot,
/// `false` included.
pub proof fn lemma_absent_fields_keep_defaults(o: CompileOptions)
    ensures
        o.development is None ==> resolved_config(Some(o)).development
            == default_config().development,
        o.jsx is None ==> resolved_config(Some(o)).jsx == default_config().jsx,
        o.jsx_runtime is None ==> resolved_config(Some(o)).jsx_runtime
            == default_config().jsx_runtime,
        o.jsx_import_source is None ==> resolved_config(Some(o)).jsx_import_source
            == default_config().jsx_import_source,
        o.pragma is None ==> resolved_config(Some(o)).pragma == default_config().pragma,
        o.pragma_frag is None ==> resolved_config(Some(o)).pragma_frag
            == default_config().pragma_frag,
        o.pragma_import_source is None ==> resolved_config(Some(o)).pragma_import_source
            == default_config().pragma_import_source,
        o.development matches Some(d) ==> resolved_config(Some(o)).development == d,
        o.jsx matches Some(j) ==> resolved_config(Some(o)).jsx == j,
        o.jsx_import_source is Some ==> resolved_config(Some(o)).jsx_import_source
            == o.jsx_import_source,
        o.pragma is Some ==> resolved_config(Some(o)).pragma == o.pragma,
        o.pragma_frag is Some ==> resolved_config(Some(o)).pragma_frag == o.pragma_frag,
        o.pragma_import_source is Some ==> resolved_config(Some(o)).pragma_import_source
            == o.pragma_import_source,
{
}

/// The runtime name `"automatic"` selects the automatic runtime and
/// `"classic"` the classic one; any other name leaves the default runtime in
/// place, and no name makes the call fail before the compiler runs.
pub proof fn lemma_runtime_names(o: CompileOptions)
    ensures
        o.jsx_runtime matches Some(n) && n@ == "automatic"@ ==> resolved_config(
            Some(o),
        ).jsx_runtime == Some(JsxRuntime::Automatic),
        o.jsx_runtime matches Some(n) && n@ == "classic"@ ==> resolved_config(
            Some(o),
        ).jsx_runtime == Some(JsxRuntime::Classic),
        o.jsx_runtime matches Some(n) && n@ != "automatic"@ && n@ != "classic"@
            ==> resolved_config(Some(o)).jsx_runtime == default_config().jsx_runtime,
{
    reveal_strlit("automatic");
    reveal_strlit("classic");
    assert(runtime_named("automatic"@) == Some(JsxRuntime::Automatic));
    assert("classic"@ != "automatic"@) by {
        assert("classic"@[0] != "automatic"@[0]);
    }
    assert(runtime_named("classic"@) == Some(JsxRuntime::Classic));
}

} // verus!
