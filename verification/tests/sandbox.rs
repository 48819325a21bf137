use std::sync::atomic::Ordering;
use std::time::Duration;

use deno_sandbox_poc::error::{decimal_text, SandboxError};
use deno_sandbox_poc::limits::{heap_limit_after_oom, LimitFlags};
use deno_sandbox_poc::metrics::ExecutionMetrics;
use deno_sandbox_poc::module_loader::AllowlistModuleLoader;
use deno_sandbox_poc::module_map::ModuleMap;
use deno_sandbox_poc::ops::db::{get_document, put_document, query_documents};
use deno_sandbox_poc::ops::result::ExecutionResult;
use deno_sandbox_poc::runtime::{
    SandboxConfig, SandboxRuntime, USER_MAIN, WRAPPER_HEAD, WRAPPER_MAIN, WRAPPER_TAIL,
};

fn test_config() -> SandboxConfig {
    SandboxConfig {
        max_heap_mb: 8,
        timeout: Duration::from_secs(1),
        allowed_modules: ModuleMap::new(),
    }
}

fn helper_config() -> SandboxConfig {
    let mut config = test_config();
    config.allowed_modules.insert(
        "sandbox:helper".to_string(),
        r#"export function greet(name) { return "Hello, " + name; }"#.to_string(),
    );
    config
}

fn json(text: &str) -> serde_json::Value {
    serde_json::from_str(text).unwrap()
}

#[test]
fn module_map_insert_then_get() {
    let mut m = ModuleMap::new();
    assert!(!m.contains_key("a"));
    assert!(m.get("a").is_none());
    m.insert("a".to_string(), "one".to_string());
    m.insert("b".to_string(), "two".to_string());
    assert!(m.contains_key("a"));
    assert_eq!(m.get("a").unwrap(), "one");
    assert_eq!(m.get("b").unwrap(), "two");
    assert!(m.get("c").is_none());
}

#[test]
fn module_map_insert_replaces() {
    let mut m = ModuleMap::new();
    m.insert("a".to_string(), "one".to_string());
    m.insert("a".to_string(), "uno".to_string());
    assert_eq!(m.get("a").unwrap(), "uno");
}

#[test]
fn module_map_duplicate_is_independent() {
    let mut m = ModuleMap::new();
    m.insert("a".to_string(), "one".to_string());
    let mut d = m.duplicate();
    assert_eq!(d.get("a").unwrap(), "one");
    d.insert("b".to_string(), "two".to_string());
    assert!(d.contains_key("b"));
    assert!(!m.contains_key("b"));
}

#[test]
fn loader_serves_registered_source() {
    let mut m = ModuleMap::new();
    m.insert("sandbox:helper".to_string(), "export const x = 1;".to_string());
    let loader = AllowlistModuleLoader::new(m);
    assert_eq!(loader.load_source("sandbox:helper"), Ok("export const x = 1;".to_string()));
    assert_eq!(loader.check_resolve("sandbox:helper"), Ok(()));
}

#[test]
fn loader_refuses_blocked_import() {
    let loader = AllowlistModuleLoader::new(ModuleMap::new());
    let spec = "https://evil.com/malware.js";
    let load = loader.load_source(spec).unwrap_err();
    let resolve = loader.check_resolve(spec).unwrap_err();
    assert_eq!(load, "module not allowed: https://evil.com/malware.js");
    assert_eq!(resolve, load);
    assert!(load.contains("not allowed"));
}

#[test]
fn not_allowed_message_names_the_specifier() {
    assert_eq!(
        AllowlistModuleLoader::not_allowed_message("fs"),
        "module not allowed: fs"
    );
}

#[test]
fn default_config() {
    let config = SandboxConfig::default();
    assert_eq!(config.max_heap_mb, 64);
    assert_eq!(config.timeout, Duration::from_secs(5));
    assert!(!config.allowed_modules.contains_key("user:main"));
}

#[test]
fn runtime_keeps_config() {
    let rt = SandboxRuntime::new(helper_config());
    assert_eq!(rt.config().max_heap_mb, 8);
    assert_eq!(rt.config().timeout, Duration::from_secs(1));
    assert!(rt.config().allowed_modules.contains_key("sandbox:helper"));
}

#[test]
fn max_heap_bytes_is_mebibytes() {
    assert_eq!(SandboxRuntime::new(test_config()).max_heap_bytes(), 8388608);
    assert_eq!(SandboxRuntime::new(SandboxConfig::default()).max_heap_bytes(), 67108864);
}

#[test]
fn wrapper_embeds_arguments() {
    let w = SandboxRuntime::wrapper_source("{\"n\":3}");
    assert_eq!(w, format!("{}{}{}", WRAPPER_HEAD, "{\"n\":3}", WRAPPER_TAIL));
    assert!(w.starts_with("import handler from \"user:main\";\n"));
    assert!(w.contains("  args: {\"n\":3},\n};\n"));
    assert!(w.ends_with("Deno.core.ops.op_set_result(JSON.stringify(result));\n"));
    assert_eq!(&w[21..30], USER_MAIN);
}

#[test]
fn module_table_registers_script_and_wrapper() {
    let rt = SandboxRuntime::new(helper_config());
    let table = rt.module_table("export default 1;", "wrapper text".to_string());
    assert_eq!(table.get(USER_MAIN).unwrap(), "export default 1;");
    assert_eq!(table.get(WRAPPER_MAIN).unwrap(), "wrapper text");
    assert!(table.get("sandbox:helper").unwrap().contains("greet"));
    assert!(table.get("https://evil.com/malware.js").is_none());
}

#[test]
fn module_table_script_replaces_allowed_module_of_same_name() {
    let mut config = test_config();
    config.allowed_modules.insert("user:main".to_string(), "old".to_string());
    let rt = SandboxRuntime::new(config);
    let table = rt.module_table("new", "w".to_string());
    assert_eq!(table.get("user:main").unwrap(), "new");
    assert_eq!(rt.config().allowed_modules.get("user:main").unwrap(), "old");
}

#[test]
fn prepare_builds_loader() {
    let rt = SandboxRuntime::new(helper_config());
    let p = rt.prepare("export default async function(ctx) { return 1; }", &json("{\"k\":1}")).unwrap();
    assert_eq!(p.max_heap_bytes, 8388608);
    assert_eq!(p.args_json, "{\"k\":1}");
    assert_eq!(
        p.loader.load_source("sandbox:wrapper").unwrap(),
        SandboxRuntime::wrapper_source("{\"k\":1}")
    );
    assert!(p.loader.load_source("user:main").unwrap().contains("return 1"));
    assert!(p.loader.load_source("sandbox:helper").is_ok());
    assert!(p.loader.load_source("https://evil.com/malware.js").is_err());
}

#[test]
fn serialize_args_writes_json() {
    assert_eq!(SandboxRuntime::serialize_args(&json("{}")).unwrap(), "{}");
    assert_eq!(SandboxRuntime::serialize_args(&json(" [1, true, null] ")).unwrap(), "[1,true,null]");
}

#[test]
fn classify_prefers_heap_then_time() {
    let rt = SandboxRuntime::new(test_config());
    let e = rt.classify(true, true, anyhow::Error::msg("x"), 8388608);
    assert!(matches!(e, SandboxError::MemoryLimitExceeded { limit_bytes: 8388608 }));
    let e = rt.classify(false, true, anyhow::Error::msg("x"), 8388608);
    match e {
        SandboxError::ExecutionTimeout { limit } => assert_eq!(limit, Duration::from_secs(1)),
        other => panic!("unexpected {:?}", other),
    }
    let e = rt.classify(false, false, anyhow::Error::msg("boom"), 8388608);
    match e {
        SandboxError::JsError(msg) => assert_eq!(msg, "boom"),
        other => panic!("unexpected {:?}", other),
    }
}

#[test]
fn blocked_import_becomes_js_error() {
    let rt = SandboxRuntime::new(test_config());
    let loader = AllowlistModuleLoader::new(ModuleMap::new());
    let refusal = loader.load_source("https://evil.com/malware.js").unwrap_err();
    let e = rt.classify_error(&LimitFlags::new(), anyhow::Error::msg(refusal), 8388608);
    match e {
        SandboxError::JsError(msg) => assert!(msg.contains("not allowed")),
        other => panic!("unexpected {:?}", other),
    }
}

#[test]
fn classify_error_reads_flags() {
    let rt = SandboxRuntime::new(test_config());
    let flags = LimitFlags::new();
    flags.timed_out.store(true, Ordering::SeqCst);
    assert!(matches!(
        rt.classify_error(&flags, anyhow::Error::msg("x"), 1),
        SandboxError::ExecutionTimeout { .. }
    ));
    flags.oom.store(true, Ordering::SeqCst);
    assert!(matches!(
        rt.classify_error(&flags, anyhow::Error::msg("x"), 1),
        SandboxError::MemoryLimitExceeded { limit_bytes: 1 }
    ));
}

#[test]
fn limit_flags_start_down_and_are_shared() {
    let flags = LimitFlags::new();
    assert!(!flags.is_oom());
    assert!(!flags.is_timed_out());
    let watcher = flags.clone();
    watcher.timed_out.store(true, Ordering::SeqCst);
    assert!(flags.is_timed_out());
    assert!(!flags.is_oom());
}

#[test]
fn decode_result_cases() {
    assert!(SandboxRuntime::decode_result(None).unwrap().is_null());
    assert_eq!(
        SandboxRuntime::decode_result(Some("{\"hello\":\"world\"}".to_string())).unwrap(),
        json("{\"hello\": \"world\"}")
    );
    match SandboxRuntime::decode_result(Some("{not json".to_string())) {
        Err(SandboxError::Internal(e)) => assert!(!e.to_string().is_empty()),
        other => panic!("unexpected {:?}", other),
    }
}

#[test]
fn finish_success_reports_clean_metrics() {
    let rt = SandboxRuntime::new(test_config());
    let d = Duration::from_millis(12);
    let fin = rt.finish(&LimitFlags::new(), 8388608, None, None, Some("{\"ok\":true}".to_string()), 100, 200, d);
    assert_eq!(fin.outcome.unwrap(), json("{\"ok\":true}"));
    let m = fin.metrics.unwrap();
    assert_eq!(m.duration, d);
    assert_eq!(m.heap_used_bytes, 100);
    assert_eq!(m.heap_peak_bytes, 200);
    assert!(!m.timed_out);
    assert!(!m.oom);
    assert!(m.error.is_none());
}

#[test]
fn finish_without_result_is_null() {
    let rt = SandboxRuntime::new(test_config());
    let fin = rt.finish(&LimitFlags::new(), 1, None, None, None, 0, 0, Duration::from_secs(0));
    assert!(fin.outcome.unwrap().is_null());
    assert!(fin.metrics.is_some());
}

#[test]
fn finish_timeout_reports_error_metrics() {
    let rt = SandboxRuntime::new(test_config());
    let flags = LimitFlags::new();
    flags.timed_out.store(true, Ordering::SeqCst);
    let fin = rt.finish(&flags, 8388608, Some(anyhow::Error::msg("terminated")), None, Some("1".to_string()), 5, 6, Duration::from_secs(1));
    assert!(matches!(fin.outcome, Err(SandboxError::ExecutionTimeout { .. })));
    let m = fin.metrics.unwrap();
    assert!(m.timed_out);
    assert!(!m.oom);
    assert_eq!(m.error.unwrap(), "execution timed out after 1s");
}

#[test]
fn finish_event_loop_error_comes_before_evaluation_error() {
    let rt = SandboxRuntime::new(test_config());
    let fin = rt.finish(
        &LimitFlags::new(),
        1,
        Some(anyhow::Error::msg("loop failed")),
        Some(anyhow::Error::msg("eval failed")),
        None,
        0,
        0,
        Duration::from_secs(0),
    );
    match fin.outcome {
        Err(SandboxError::JsError(msg)) => assert_eq!(msg, "loop failed"),
        other => panic!("unexpected {:?}", other),
    }
    assert_eq!(fin.metrics.unwrap().error.unwrap(), "JS error: loop failed");
}

#[test]
fn finish_evaluation_error() {
    let rt = SandboxRuntime::new(test_config());
    let flags = LimitFlags::new();
    flags.oom.store(true, Ordering::SeqCst);
    let fin = rt.finish(&flags, 8388608, None, Some(anyhow::Error::msg("eval failed")), None, 0, 0, Duration::from_secs(0));
    assert!(matches!(fin.outcome, Err(SandboxError::MemoryLimitExceeded { limit_bytes: 8388608 })));
    let m = fin.metrics.unwrap();
    assert!(m.oom);
    assert_eq!(m.error.unwrap(), "memory limit exceeded (8388608 bytes)");
}

#[test]
fn finish_undecodable_result_reports_no_metrics() {
    let rt = SandboxRuntime::new(test_config());
    let fin = rt.finish(&LimitFlags::new(), 1, None, None, Some("undefined".to_string()), 0, 0, Duration::from_secs(0));
    assert!(matches!(fin.outcome, Err(SandboxError::Internal(_))));
    assert!(fin.metrics.is_none());
}

#[test]
fn error_messages() {
    assert_eq!(SandboxError::ModuleNotAllowed("x".to_string()).message(), "module not allowed: x");
    assert_eq!(
        SandboxError::ExecutionTimeout { limit: Duration::from_millis(1500) }.message(),
        "execution timed out after 1.5s"
    );
    assert_eq!(
        SandboxError::MemoryLimitExceeded { limit_bytes: 67108864 }.message(),
        "memory limit exceeded (67108864 bytes)"
    );
    assert_eq!(SandboxError::JsError("boom".to_string()).message(), "JS error: boom");
    assert_eq!(SandboxError::Internal(anyhow::Error::msg("inner")).message(), "inner");
}

#[test]
fn decimal_text_values() {
    assert_eq!(decimal_text(0), "0");
    assert_eq!(decimal_text(7), "7");
    assert_eq!(decimal_text(10), "10");
    assert_eq!(decimal_text(1048576), "1048576");
    assert_eq!(decimal_text(usize::MAX), usize::MAX.to_string());
}

#[test]
fn heap_limit_doubles() {
    assert_eq!(heap_limit_after_oom(8388608), 16777216);
    assert_eq!(heap_limit_after_oom(0), 0);
}

#[test]
fn db_stubs() {
    let id = put_document();
    assert_eq!(id, "1");
    let user = get_document("users", &id);
    assert_eq!(user.id, "1");
    assert_eq!(user.collection, "users");
    assert_eq!(user.name, "Mock User");
    assert_eq!(user.email, "mock@example.com");
    let results = query_documents("users");
    assert_eq!(results.len(), 1);
    assert_eq!(results[0].id, "1");
    assert_eq!(results[0].collection, "users");
}

#[test]
fn execution_result_read_gives_back_write() {
    let mut slot = ExecutionResult::new();
    assert_eq!(slot.get(), None);
    slot.set("{\"a\":1}".to_string());
    assert_eq!(slot.get(), Some("{\"a\":1}".to_string()));
    slot.set("2".to_string());
    assert_eq!(slot.get(), Some("2".to_string()));
    assert_eq!(slot.0, Some("2".to_string()));
}

#[test]
fn metrics_error_label() {
    let mut m = ExecutionMetrics {
        duration: Duration::from_secs(1),
        heap_used_bytes: 1,
        heap_peak_bytes: 2,
        timed_out: false,
        oom: false,
        error: None,
    };
    assert_eq!(m.error_label(), "none");
    m.error = Some("JS error: boom".to_string());
    assert_eq!(m.error_label(), "JS error: boom");
    let c = m.clone();
    assert_eq!(c.error, m.error);
    assert_eq!(c.duration, m.duration);
}

#[test]
fn limit_flags_default_start_down() {
    let flags = LimitFlags::default();
    assert!(!flags.is_oom());
    assert!(!flags.is_timed_out());
}

#[test]
fn classify_error_timeout_message() {
    let rt = SandboxRuntime::new(test_config());
    let flags = LimitFlags::new();
    flags.timed_out.store(true, Ordering::SeqCst);
    let e = rt.classify_error(&flags, anyhow::Error::msg("boom"), 8388608);
    assert_eq!(e.message(), "execution timed out after 1s");
}

#[test]
fn decode_result_keeps_nested_value() {
    let v = SandboxRuntime::decode_result(Some("{\"message\":\"Hello, World\"}".to_string())).unwrap();
    assert_eq!(v["message"], "Hello, World");
}

#[test]
fn metrics_constructors() {
    let d = Duration::from_millis(3);
    let f = ExecutionMetrics::for_failure(d, 10, 20, true, false, "JS error: x".to_string());
    assert_eq!(f.duration, d);
    assert_eq!(f.heap_used_bytes, 10);
    assert_eq!(f.heap_peak_bytes, 20);
    assert!(f.timed_out);
    assert!(!f.oom);
    assert_eq!(f.error.as_deref(), Some("JS error: x"));
    let s = ExecutionMetrics::for_success(d, 1, 2);
    assert!(!s.timed_out && !s.oom && s.error.is_none());
    assert_eq!((s.heap_used_bytes, s.heap_peak_bytes), (1, 2));
}
