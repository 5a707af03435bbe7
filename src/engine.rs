//! The embedded JavaScript engine: the few calls into rquickjs that a filter
//! run makes. What a script does is not known here, so these state only what
//! holds whatever the script is.
use rquickjs::context::EvalOptions;
use rquickjs::{CatchResultExt, CaughtError, Context, Function, Persistent, Runtime};
use vstd::prelude::*;

use crate::filter::ScriptRun;

verus! {

#[verifier::external_type_specification]
#[verifier::external_body]
pub struct ExRuntime(Runtime);

#[verifier::external_type_specification]
#[verifier::external_body]
pub struct ExContext(Context);

/// Relies on `rquickjs::Runtime::new` to create a runtime; it fails only
/// when memory runs out, with the error's text.
#[verifier::external_body]
pub(crate) fn new_runtime() -> (r: Result<Runtime, String>) {
    Runtime::new().map_err(|e| e.to_string())
}

/// Relies on `rquickjs::Context::full` to create a context with the standard
/// intrinsics in `runtime`; it fails only when memory runs out.
#[verifier::external_body]
pub(crate) fn new_context(runtime: &Runtime) -> (r: Result<Context, String>) {
    Context::full(runtime).map_err(|e| e.to_string())
}

#[verifier::external_type_specification]
#[verifier::external_body]
pub struct ExFunction<'js>(Function<'js>);

#[verifier::external_type_specification]
#[verifier::external_body]
#[verifier::reject_recursive_types(T)]
pub struct ExPersistent<T>(Persistent<T>);

/// A script function kept beyond the scope in which it was found.
pub type FilterFn = Persistent<Function<'static>>;

/// Relies on `rquickjs::Ctx::eval_with_options`, inside `Context::with`, to
/// run `source` as a global program outside strict mode, and on
/// `CatchResultExt::catch` to take what it threw, with the thrown error's
/// `name` property where it has one.
#[verifier::external_body]
pub(crate) fn run_script(context: &Context, source: &str) -> (r: ScriptRun) {
    let mut options = EvalOptions::default();
    options.strict = false;
    context.with(|ctx| match ctx.eval_with_options::<(), _>(source, options).catch(&ctx) {
        Ok(()) => ScriptRun::Completed,
        Err(CaughtError::Error(e)) => ScriptRun::Failed(e.to_string()),
        Err(CaughtError::Exception(ex)) => {
            ScriptRun::Thrown(ex.as_object().get("name").ok(), ex.to_string())
        },
        Err(e) => ScriptRun::Thrown(None, e.to_string()),
    })
}

/// Relies on `rquickjs::Object::get` on the context's globals, and on
/// `Persistent::save`: the global `filter` where it is a function.
#[verifier::external_body]
pub(crate) fn find_filter(context: &Context) -> (r: Option<FilterFn>) {
    context.with(
        |ctx| ctx.globals().get::<_, Function>("filter").catch(&ctx).ok().map(|f| Persistent::save(&ctx, f)),
    )
}

/// Relies on `rquickjs::Function::call`: calls `filter`, restored with
/// `Persistent::restore`, on the value that `Ctx::json_parse` makes of
/// `node`, and reads a boolean back. A thrown value or a result that is not
/// a boolean is an error, with its text.
#[verifier::external_body]
pub(crate) fn call_filter(context: &Context, filter: &FilterFn, node: &str) -> (r: Result<bool, String>) {
    context.with(|ctx| {
        let call = || -> rquickjs::Result<bool> {
            let f = filter.clone().restore(&ctx)?;
            f.call((ctx.json_parse(node)?,))
        };
        call().catch(&ctx).map_err(|e| e.to_string())
    })
}

} // verus!
