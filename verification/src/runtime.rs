//! The decisions of one sandboxed execution: its heap budget, the modules it
//! may import, the wrapper module that hands the script its context, how a
//! failure is classified and what an execution reports.
//!
//! The engine itself is driven by the host, which performs each step that
//! needs the engine and hands the outcome back to the functions here.
use crate::error::SandboxError;
use crate::json::{
    json_error_into_anyhow, json_null, json_text_accepted, json_text_of, json_value_of,
    json_value_text,
    parse_json_text,
};
use crate::limits::LimitFlags;
use crate::metrics::ExecutionMetrics;
use crate::module_loader::AllowlistModuleLoader;
use crate::module_map::ModuleMap;
use std::time::Duration;
use vstd::prelude::*;
use vstd::string::to_string_from_display_ensures;

verus! {

/// The specifier under which the user's script is registered.
pub const USER_MAIN: &'static str = "user:main";

/// The specifier of the wrapper module that runs the user's script.
pub const WRAPPER_MAIN: &'static str = "sandbox:wrapper";

/// The wrapper module's text before the arguments' JSON.
pub const WRAPPER_HEAD: &'static str = "import handler from \"user:main\";\nconst ctx = {\n  db: {\n    get: (collection, id) => Deno.core.ops.op_db_get(collection, id),\n    put: (collection, doc) => Deno.core.ops.op_db_put(collection, doc),\n    query: (collection, filter) => Deno.core.ops.op_db_query(collection, filter),\n  },\n  args: ";

/// The wrapper module's text after the arguments' JSON.
pub const WRAPPER_TAIL: &'static str = ",\n};\nconst result = await handler(ctx);\nDeno.core.ops.op_set_result(JSON.stringify(result));\n";

/// Bytes in a mebibyte.
pub const BYTES_PER_MB: usize = 1048576;

/// The seconds of the default time limit.
pub const DEFAULT_TIMEOUT_SECS: u64 = 5;

/// The mebibytes of the default heap limit.
pub const DEFAULT_MAX_HEAP_MB: usize = 64;

/// The duration that `Duration::from_secs(secs)` makes.
pub uninterp spec fn duration_of_secs(secs: u64) -> Duration;

/// `Duration::from_secs`, trusted to be a function of `secs` alone.
#[verifier::external_body]
fn duration_from_secs(secs: u64) -> (res: Duration)
    ensures
        res == duration_of_secs(secs),
{
    Duration::from_secs(secs)
}

/// The text of the wrapper module for arguments whose JSON is `args_json`.
pub open spec fn wrapper_text(args_json: Seq<char>) -> Seq<char> {
    WRAPPER_HEAD@ + args_json + WRAPPER_TAIL@
}

/// The modules that an execution can import: the user's script is always
/// importable as `user:main` and the wrapper as `sandbox:wrapper`, and any
/// other specifier exactly when the configuration allows it, with the
/// configured source.
pub proof fn lemma_execution_modules(
    allowed: Map<Seq<char>, Seq<char>>,
    code: Seq<char>,
    args_json: Seq<char>,
    specifier: Seq<char>,
)
    ensures
        ({
            let table = allowed.insert(USER_MAIN@, code).insert(
                WRAPPER_MAIN@,
                wrapper_text(args_json),
            );
            &&& table.contains_key(USER_MAIN@) && table[USER_MAIN@] == code
            &&& table.contains_key(WRAPPER_MAIN@) && table[WRAPPER_MAIN@] == wrapper_text(
                args_json,
            )
            &&& specifier != USER_MAIN@ && specifier != WRAPPER_MAIN@ ==> {
                &&& table.contains_key(specifier) == allowed.contains_key(specifier)
                &&& table.contains_key(specifier) ==> table[specifier] == allowed[specifier]
            }
        }),
{
    reveal_strlit("user:main");
    reveal_strlit("sandbox:wrapper");
    assert(USER_MAIN@.len() != WRAPPER_MAIN@.len());
}

/// The wrapper always imports its handler from `user:main`, the specifier
/// under which the user's script is registered.
pub proof fn lemma_wrapper_imports_user_main(args_json: Seq<char>)
    ensures
        wrapper_text(args_json).subrange(21, 30) == USER_MAIN@,
{
    reveal_strlit("user:main");
    reveal_strlit("import handler from \"user:main\";\nconst ctx = {\n  db: {\n    get: (collection, id) => Deno.core.ops.op_db_get(collection, id),\n    put: (collection, doc) => Deno.core.ops.op_db_put(collection, doc),\n    query: (collection, filter) => Deno.core.ops.op_db_query(collection, filter),\n  },\n  args: ");
    assert(wrapper_text(args_json).subrange(21, 30) =~= USER_MAIN@);
}

/// The wrapper embeds the arguments' JSON verbatim: between the fixed head
/// and tail stands exactly `args_json`, and so different arguments give
/// different wrappers.
pub proof fn lemma_wrapper_embeds_arguments(args_json: Seq<char>, other: Seq<char>)
    ensures
        wrapper_text(args_json).len() == WRAPPER_HEAD@.len() + args_json.len()
            + WRAPPER_TAIL@.len(),
        wrapper_text(args_json).subrange(0, WRAPPER_HEAD@.len() as int) == WRAPPER_HEAD@,
        wrapper_text(args_json).subrange(
            WRAPPER_HEAD@.len() as int,
            (WRAPPER_HEAD@.len() + args_json.len()) as int,
        ) == args_json,
        wrapper_text(args_json).subrange(
            (WRAPPER_HEAD@.len() + args_json.len()) as int,
            wrapper_text(args_json).len() as int,
        ) == WRAPPER_TAIL@,
        wrapper_text(args_json) == wrapper_text(other) ==> args_json == other,
{
    let w = wrapper_text(args_json);
    let h = WRAPPER_HEAD@.len() as int;
    assert(w.subrange(0, h) =~= WRAPPER_HEAD@);
    assert(w.subrange(h, h + args_json.len()) =~= args_json);
    assert(w.subrange(h + args_json.len(), w.len() as int) =~= WRAPPER_TAIL@);
    let v = wrapper_text(other);
    if w == v {
        assert(other.len() == args_json.len());
        assert(v.subrange(h, h + other.len()) =~= other);
    }
}

/// The modules that an execution of `code` with `args` can import under
/// `config`: the allowed modules, the script under `user:main` and the
/// wrapper that embeds the arguments' JSON under `sandbox:wrapper`.
pub open spec fn execution_modules(
    config: SandboxConfig,
    code: Seq<char>,
    args: serde_json::Value,
) -> Map<Seq<char>, Seq<char>> {
    config.allowed_modules@.insert(USER_MAIN@, code).insert(
        WRAPPER_MAIN@,
        wrapper_text(json_text_of(args)),
    )
}

/// Runtimes with the same limits and the same allowed modules give the same
/// script and arguments the same heap limit and the same importable modules.
pub proof fn lemma_runs_independent(
    c1: SandboxConfig,
    c2: SandboxConfig,
    code: Seq<char>,
    args: serde_json::Value,
)
    requires
        c1.max_heap_mb == c2.max_heap_mb,
        c1.allowed_modules@ == c2.allowed_modules@,
    ensures
        c1.max_heap_mb * BYTES_PER_MB == c2.max_heap_mb * BYTES_PER_MB,
        execution_modules(c1, code, args) == execution_modules(c2, code, args),
{
}

/// Limits and modules of a sandbox.
pub struct SandboxConfig {
    pub max_heap_mb: usize,
    pub timeout: Duration,
    pub allowed_modules: ModuleMap,
}

impl Default for SandboxConfig {
    /// 64 MiB of heap, five seconds, and no importable modules.
    fn default() -> (res: Self)
        ensures
            res.max_heap_mb == DEFAULT_MAX_HEAP_MB,
            res.timeout == duration_of_secs(DEFAULT_TIMEOUT_SECS),
            res.allowed_modules@ == Map::<Seq<char>, Seq<char>>::empty(),
    {
        SandboxConfig {
            max_heap_mb: DEFAULT_MAX_HEAP_MB,
            timeout: duration_from_secs(DEFAULT_TIMEOUT_SECS),
            allowed_modules: ModuleMap::new(),
        }
    }
}

/// What an execution needs before the engine starts.
pub struct Prepared {
    /// The heap limit in bytes.
    pub max_heap_bytes: usize,
    /// The JSON text of the script's arguments.
    pub args_json: String,
    /// The loader that serves the script, its wrapper and the allowed modules.
    pub loader: AllowlistModuleLoader,
}

/// What an execution ends with, and the metrics to report, if any.
pub struct Finished {
    /// The script's result, or why there is none.
    pub outcome: Result<serde_json::Value, SandboxError>,
    /// The metrics to report; absent when the result could not be decoded.
    pub metrics: Option<ExecutionMetrics>,
}

/// The value of the result text that a script left: the JSON value of the
/// text, or `null` when the script left none.
pub open spec fn result_value(text: Option<String>) -> serde_json::Value {
    match text {
        Some(t) => json_value_of(t@),
        None => json_value_of("null"@),
    }
}

/// The value of a script's result is what the JSON parser gives for exactly
/// the text it left, and `null` only when it left none.
pub proof fn lemma_result_value_is_parsed_text(text: Option<String>)
    ensures
        text matches Some(t) ==> result_value(text) == json_value_of(t@),
        text is None ==> result_value(text) == json_value_of("null"@),
{
}

/// Whether `res` is how a failure `error` is classified, given what the
/// flags were seen to hold: a reached heap limit first, then a passed time
/// limit, and otherwise the script's own error.
pub open spec fn classified_as(
    config: SandboxConfig,
    oom: bool,
    timed_out: bool,
    error: anyhow::Error,
    max_heap_bytes: usize,
    res: SandboxError,
) -> bool {
    if oom {
        res == SandboxError::MemoryLimitExceeded { limit_bytes: max_heap_bytes }
    } else if timed_out {
        res == SandboxError::ExecutionTimeout { limit: config.timeout }
    } else {
        &&& res is JsError
        &&& to_string_from_display_ensures::<anyhow::Error>(&error, res->JsError_0)
    }
}

/// Whether `m` is what a failed execution reports: its measurements, the
/// flags as seen after the failure, and the message of `error`.
pub open spec fn failure_metrics(
    m: ExecutionMetrics,
    duration: Duration,
    heap_used_bytes: usize,
    heap_total_bytes: usize,
    error: SandboxError,
) -> bool {
    &&& m.duration == duration
    &&& m.heap_used_bytes == heap_used_bytes
    &&& m.heap_peak_bytes == heap_total_bytes
    &&& m.error matches Some(msg) && crate::error::is_message_of(error, msg)
}

/// What a successful execution reports: its measurements, no limit reached
/// and no error.
pub open spec fn success_metrics(
    duration: Duration,
    heap_used_bytes: usize,
    heap_total_bytes: usize,
) -> ExecutionMetrics {
    ExecutionMetrics {
        duration,
        heap_used_bytes,
        heap_peak_bytes: heap_total_bytes,
        timed_out: false,
        oom: false,
        error: None,
    }
}

/// Whether `fin` is how an execution ends that failed with `error`: the
/// outcome is the classification of `error` by the flag values that the
/// failure's metrics report, and the metrics carry the outcome's message.
pub open spec fn failed_with(
    config: SandboxConfig,
    fin: Finished,
    error: anyhow::Error,
    max_heap_bytes: usize,
    duration: Duration,
    heap_used_bytes: usize,
    heap_total_bytes: usize,
) -> bool {
    &&& fin.outcome is Err
    &&& fin.metrics matches Some(m) && classified_as(
        config,
        m.oom,
        m.timed_out,
        error,
        max_heap_bytes,
        fin.outcome->Err_0,
    )
    &&& fin.metrics matches Some(m) && failure_metrics(
        m,
        duration,
        heap_used_bytes,
        heap_total_bytes,
        fin.outcome->Err_0,
    )
}

/// A failed execution ends as the flags that its metrics report say: a
/// reached heap limit gives the memory error with the heap limit in bytes,
/// otherwise a passed time limit gives the timeout error with the configured
/// limit, and otherwise the error is the script's own, carrying the failure's
/// text; the metrics carry the message of that error.
pub proof fn lemma_failure_follows_reported_flags(
    config: SandboxConfig,
    fin: Finished,
    error: anyhow::Error,
    max_heap_bytes: usize,
    duration: Duration,
    heap_used_bytes: usize,
    heap_total_bytes: usize,
)
    requires
        failed_with(
            config,
            fin,
            error,
            max_heap_bytes,
            duration,
            heap_used_bytes,
            heap_total_bytes,
        ),
    ensures
        fin.outcome is Err,
        fin.metrics is Some,
        fin.metrics->Some_0.oom ==> fin.outcome->Err_0 == (SandboxError::MemoryLimitExceeded {
            limit_bytes: max_heap_bytes,
        }),
        fin.metrics->Some_0.oom ==> fin.metrics->Some_0.error->Some_0@ == "memory limit exceeded ("@
            + crate::error::decimal(max_heap_bytes as nat) + " bytes)"@,
        !fin.metrics->Some_0.oom && fin.metrics->Some_0.timed_out ==> fin.outcome->Err_0
            == (SandboxError::ExecutionTimeout { limit: config.timeout }),
        !fin.metrics->Some_0.oom && !fin.metrics->Some_0.timed_out ==> {
            &&& fin.outcome->Err_0 is JsError
            &&& to_string_from_display_ensures::<anyhow::Error>(
                &error,
                fin.outcome->Err_0->JsError_0,
            )
            &&& fin.metrics->Some_0.error->Some_0@ == "JS error: "@
                + fin.outcome->Err_0->JsError_0@
        },
        fin.metrics->Some_0.duration == duration,
        fin.metrics->Some_0.heap_used_bytes == heap_used_bytes,
        fin.metrics->Some_0.heap_peak_bytes == heap_total_bytes,
{
}

/// The runtime that executes scripts under one configuration.
pub struct SandboxRuntime {
    config: SandboxConfig,
}

impl SandboxRuntime {
    /// The configuration that this runtime executes under.
    pub closed spec fn settings(&self) -> SandboxConfig {
        self.config
    }

    /// A runtime for `config`.
    pub fn new(config: SandboxConfig) -> (res: Self)
        ensures
            res.settings() == config,
    {
        SandboxRuntime { config }
    }

    /// The configuration that this runtime executes under.
    pub fn config(&self) -> (res: &SandboxConfig)
        ensures
            *res == self.settings(),
    {
        &self.config
    }

    /// The heap limit in bytes.
    pub fn max_heap_bytes(&self) -> (res: usize)
        requires
            self.settings().max_heap_mb * BYTES_PER_MB <= usize::MAX,
        ensures
            res == self.settings().max_heap_mb * BYTES_PER_MB,
    {
        self.config.max_heap_mb * BYTES_PER_MB
    }

    /// The wrapper module: it imports the user's script, hands it a context
    /// with the database functions and the arguments, and records the JSON
    /// of what the script's handler returns.
    pub fn wrapper_source(args_json: &str) -> (res: String)
        ensures
            res@ == wrapper_text(args_json@),
            res@ == WRAPPER_HEAD@ + args_json@ + WRAPPER_TAIL@,
    {
        String::from_str(WRAPPER_HEAD).concat(args_json).concat(WRAPPER_TAIL)
    }

    /// The modules of one execution: the allowed modules, the user's script
    /// under `user:main` and the wrapper under `sandbox:wrapper`, these two
    /// replacing any allowed module of the same name.
    pub fn module_table(&self, code: &str, wrapper: String) -> (res: ModuleMap)
        ensures
            res@ == self.settings().allowed_modules@.insert(USER_MAIN@, code@).insert(
                WRAPPER_MAIN@,
                wrapper@,
            ),
    {
        let mut modules = self.config.allowed_modules.duplicate();
        modules.insert(String::from_str(USER_MAIN), code.to_owned());
        modules.insert(String::from_str(WRAPPER_MAIN), wrapper);
        modules
    }

    /// The JSON text of the script's arguments. Serialising a JSON value
    /// always succeeds.
    pub fn serialize_args(args: &serde_json::Value) -> (res: Result<String, SandboxError>)
        ensures
            res is Ok,
            res matches Ok(text) ==> text@ == json_text_of(*args),
    {
        match json_value_text(args) {
            Ok(text) => Ok(text),
            Err(e) => Err(SandboxError::Internal(json_error_into_anyhow(e))),
        }
    }

    /// Everything an execution of `code` with `args` needs before the engine
    /// starts: the heap limit in bytes, and a loader that serves the allowed
    /// modules, the script and a wrapper that passes it the arguments. It
    /// always succeeds, and depends on the configuration, `code` and `args`
    /// alone.
    pub fn prepare(&self, code: &str, args: &serde_json::Value) -> (res: Result<Prepared, SandboxError>)
        requires
            self.settings().max_heap_mb * BYTES_PER_MB <= usize::MAX,
        ensures
            res is Ok,
            res matches Ok(p) ==> {
                &&& p.max_heap_bytes == self.settings().max_heap_mb * BYTES_PER_MB
                &&& p.args_json@ == json_text_of(*args)
                &&& p.loader.allowed() == execution_modules(self.settings(), code@, *args)
            },
    {
        let max_heap_bytes = self.max_heap_bytes();
        let args_json = match Self::serialize_args(args) {
            Ok(text) => text,
            Err(e) => {
                return Err(e);
            },
        };
        let wrapper = Self::wrapper_source(args_json.as_str());
        let modules = self.module_table(code, wrapper);
        Ok(Prepared { max_heap_bytes, args_json, loader: AllowlistModuleLoader::new(modules) })
    }

    /// Classifies a failure `error`, given that the heap limit was (`oom`) or
    /// the time limit was (`timed_out`) seen reached: the heap limit wins,
    /// then the time limit, and otherwise it is the script's own error.
    pub fn classify(&self, oom: bool, timed_out: bool, error: anyhow::Error, max_heap_bytes: usize) -> (res: SandboxError)
        ensures
            classified_as(self.settings(), oom, timed_out, error, max_heap_bytes, res),
    {
        if oom {
            SandboxError::MemoryLimitExceeded { limit_bytes: max_heap_bytes }
        } else if timed_out {
            SandboxError::ExecutionTimeout { limit: self.config.timeout }
        } else {
            SandboxError::JsError(error.to_string())
        }
    }

    /// Classifies a failure `error` by what the limit flags hold when they are
    /// read: the heap flag first, and the time flag only when the heap flag
    /// is down.
    pub fn classify_error(&self, flags: &LimitFlags, error: anyhow::Error, max_heap_bytes: usize) -> (res: SandboxError)
        ensures
            exists|oom: bool, timed_out: bool|
                classified_as(self.settings(), oom, timed_out, error, max_heap_bytes, res),
    {
        if flags.is_oom() {
            self.classify(true, false, error, max_heap_bytes)
        } else {
            let timed_out = flags.is_timed_out();
            self.classify(false, timed_out, error, max_heap_bytes)
        }
    }

    /// Decodes the result text that the script left: no text is JSON `null`,
    /// text that does not parse is an internal error.
    pub fn decode_result(text: Option<String>) -> (res: Result<serde_json::Value, SandboxError>)
        ensures
            res is Ok <==> match text {
                Some(t) => json_text_accepted(t@),
                None => true,
            },
            res matches Ok(v) ==> v == result_value(text),
            match text {
                Some(t) => res matches Ok(v) ==> v == json_value_of(t@),
                None => res == Ok::<serde_json::Value, SandboxError>(json_value_of("null"@)),
            },
            res matches Err(e) ==> e is Internal,
    {
        match text {
            Some(t) => match parse_json_text(t.as_str()) {
                Ok(v) => Ok(v),
                Err(e) => Err(SandboxError::Internal(json_error_into_anyhow(e))),
            },
            None => Ok(json_null()),
        }
    }

    /// The end of a failed execution.
    fn fail(
        &self,
        flags: &LimitFlags,
        error: anyhow::Error,
        max_heap_bytes: usize,
        heap_used_bytes: usize,
        heap_total_bytes: usize,
        duration: Duration,
    ) -> (res: Finished)
        ensures
            failed_with(
                self.settings(),
                res,
                error,
                max_heap_bytes,
                duration,
                heap_used_bytes,
                heap_total_bytes,
            ),
    {
        let oom = flags.is_oom();
        let timed_out = flags.is_timed_out();
        let e = self.classify(oom, timed_out, error, max_heap_bytes);
        let message = e.message();
        let metrics = ExecutionMetrics::for_failure(
            duration,
            heap_used_bytes,
            heap_total_bytes,
            timed_out,
            oom,
            message,
        );
        Finished { outcome: Err(e), metrics: Some(metrics) }
    }

    /// How an execution ends, from what the engine reported: a failure of the
    /// event loop decides first, then a failure of the module's evaluation;
    /// without either, the script's result is decoded. A failure reports
    /// metrics with its message, a success reports metrics with no limit
    /// reached and no error, and a result that cannot be decoded reports none.
    pub fn finish(
        &self,
        flags: &LimitFlags,
        max_heap_bytes: usize,
        event_loop_err: Option<anyhow::Error>,
        mod_eval_err: Option<anyhow::Error>,
        execution_result: Option<String>,
        heap_used_bytes: usize,
        heap_total_bytes: usize,
        duration: Duration,
    ) -> (res: Finished)
        ensures
            event_loop_err matches Some(e) ==> failed_with(
                self.settings(),
                res,
                e,
                max_heap_bytes,
                duration,
                heap_used_bytes,
                heap_total_bytes,
            ),
            event_loop_err is None && mod_eval_err is Some ==> failed_with(
                self.settings(),
                res,
                mod_eval_err->Some_0,
                max_heap_bytes,
                duration,
                heap_used_bytes,
                heap_total_bytes,
            ),
            event_loop_err is None && mod_eval_err is None ==> {
                &&& res.outcome is Ok <==> match execution_result {
                    Some(t) => json_text_accepted(t@),
                    None => true,
                }
                &&& res.outcome matches Ok(v) ==> v == result_value(execution_result)
                &&& match execution_result {
                    Some(t) => res.outcome matches Ok(v) ==> v == json_value_of(t@),
                    None => res.outcome == Ok::<serde_json::Value, SandboxError>(
                        json_value_of("null"@),
                    ),
                }
                &&& res.outcome is Ok ==> res.metrics == Some(
                    success_metrics(duration, heap_used_bytes, heap_total_bytes),
                )
                &&& res.outcome matches Err(e) ==> e is Internal && res.metrics is None
            },
    {
        if let Some(e) = event_loop_err {
            return self.fail(flags, e, max_heap_bytes, heap_used_bytes, heap_total_bytes, duration);
        }
        if let Some(e) = mod_eval_err {
            return self.fail(flags, e, max_heap_bytes, heap_used_bytes, heap_total_bytes, duration);
        }
        match Self::decode_result(execution_result) {
            Ok(value) => {
                let metrics = ExecutionMetrics::for_success(duration, heap_used_bytes, heap_total_bytes);
                Finished { outcome: Ok(value), metrics: Some(metrics) }
            },
            Err(e) => Finished { outcome: Err(e), metrics: None },
        }
    }
}

} // verus!
