use codex_agent_core::agent::AgentType;
use codex_agent_core::agents::analysis_agent::{code_review, security_analysis, AnalysisOperation};
use codex_agent_core::agents::code_agent::{
    code_generation, code_modification, code_refactoring, file_extension, generated_code, CodeOperation,
};
use codex_agent_core::agents::test_agent::{
    generated_tests, integration_testing, test_file_name, test_generation, TestOperation,
};
use codex_agent_core::agents::text::{decimal, prefix_before, replace};
use codex_agent_core::agents::{
    missing_parameter, require_text, text_list_parameter, text_parameter, unsupported_task,
    AnalysisAgent, CodeAgent, TestAgent,
};
use codex_agent_core::error::AgentError;
use codex_agent_core::task::{ParamValue, Task, TaskStatus};
use serde_json::Value;

fn s(v: &str) -> ParamValue {
    ParamValue::Text(v.to_string())
}

fn list(vs: &[&str]) -> ParamValue {
    ParamValue::List(vs.iter().map(|v| s(v)).collect())
}

fn missing(r: &AgentError, name: &str) -> bool {
    matches!(r, AgentError::InvalidTaskConfig(m) if *m == format!("Missing '{}' parameter", name))
}

#[test]
fn code_agent_describes_itself() {
    let agent = CodeAgent::new("CodeGen-1");
    assert_eq!(agent.name(), "CodeGen-1");
    assert_eq!(agent.agent_type(), AgentType::CodeAgent);
    assert_eq!(
        agent.description(),
        "Specialized agent for code generation, modification, and refactoring"
    );
    let names: Vec<&str> = agent.capabilities().iter().iter().map(|c| c.name.as_str()).collect();
    assert_eq!(names, vec!["code_generation", "code_modification", "code_refactoring"]);
    assert!(agent.health_check().is_healthy());
    let info = agent.info(std::time::SystemTime::UNIX_EPOCH);
    assert_eq!(info.created_at, std::time::SystemTime::UNIX_EPOCH);
    assert_eq!(info.id, agent.id());
    assert_eq!(info.name, "CodeGen-1");
    assert_eq!(info.version, "1.0.0");
    assert_eq!(info.capabilities.len(), 3);
    assert!(agent.can_handle(&Task::new("x", "x").with_capability("code_refactoring")));
    assert!(!agent.can_handle(&Task::new("x", "x").with_capability("code_review")));
    assert_ne!(CodeAgent::new("a").id(), CodeAgent::new("a").id());
}

#[test]
fn agents_name_their_operations() {
    assert_eq!(CodeAgent::operation("code_generation"), Some(CodeOperation::CodeGeneration));
    assert_eq!(CodeAgent::operation("code_modification"), Some(CodeOperation::CodeModification));
    assert_eq!(CodeAgent::operation("code_refactoring"), Some(CodeOperation::CodeRefactoring));
    assert_eq!(CodeAgent::operation("code_review"), None);
    assert_eq!(AnalysisAgent::operation("code_review"), Some(AnalysisOperation::CodeReview));
    assert_eq!(AnalysisAgent::operation("security_analysis"), Some(AnalysisOperation::SecurityAnalysis));
    assert_eq!(
        AnalysisAgent::operation("performance_analysis"),
        Some(AnalysisOperation::PerformanceAnalysis)
    );
    assert_eq!(
        AnalysisAgent::operation("dependency_analysis"),
        Some(AnalysisOperation::DependencyAnalysis)
    );
    assert_eq!(AnalysisAgent::operation("lint"), None);
    assert_eq!(TestAgent::operation("test_generation"), Some(TestOperation::TestGeneration));
    assert_eq!(TestAgent::operation("test_execution"), Some(TestOperation::TestExecution));
    assert_eq!(TestAgent::operation("coverage_analysis"), Some(TestOperation::CoverageAnalysis));
    assert_eq!(TestAgent::operation("integration_testing"), Some(TestOperation::IntegrationTesting));
    assert_eq!(TestAgent::operation(""), None);
}

#[test]
fn generated_code_per_language() {
    let spec = "add two numbers".to_string();
    assert_eq!(
        generated_code(&"rust".to_string(), &spec),
        "// Generated Rust code for: add two numbers\nfn main() {\n    println!(\"Hello, world!\");\n}"
    );
    assert_eq!(
        generated_code(&"python".to_string(), &spec),
        "# Generated Python code for: add two numbers\ndef main():\n    print(\"Hello, world!\")"
    );
    assert_eq!(
        generated_code(&"javascript".to_string(), &spec),
        "// Generated JavaScript code for: add two numbers\nconsole.log(\"Hello, world!\");"
    );
    assert_eq!(
        generated_code(&"cobol".to_string(), &spec),
        "// Generated code for: add two numbers (language: cobol)\n// Code generation not implemented for this language"
    );
    assert_eq!(file_extension(&"rust".to_string()), "rs");
    assert_eq!(file_extension(&"python".to_string()), "py");
    assert_eq!(file_extension(&"javascript".to_string()), "js");
    assert_eq!(file_extension(&"go".to_string()), "txt");
}

#[test]
fn code_generation_checks_language_first() {
    let e = code_generation(None, None).unwrap_err();
    assert!(missing(&e, "language"));
    let e = code_generation(Some("rust".to_string()), None).unwrap_err();
    assert!(missing(&e, "specification"));
    let g = code_generation(Some("python".to_string()), Some("x".to_string())).unwrap();
    assert_eq!(g.language, "python");
    assert_eq!(g.specification, "x");
    assert_eq!(g.file_extension, "py");
}

#[test]
fn code_agent_reads_task_parameters() {
    let agent = CodeAgent::new("c");
    let task = Task::new("code_generation", "gen")
        .with_parameter("language", s("rust"))
        .with_parameter("specification", s("adder"));
    let g = agent.handle_code_generation(&task).unwrap();
    assert_eq!(g.file_extension, "rs");
    assert!(g.generated_code.starts_with("// Generated Rust code for: adder"));

    let bare = Task::new("code_generation", "gen");
    assert!(missing(&agent.handle_code_generation(&bare).unwrap_err(), "language"));
    // A parameter that is not a JSON string counts as missing.
    let wrong = Task::new("code_generation", "gen")
        .with_parameter("language", ParamValue::Other(Value::Bool(true)))
        .with_parameter("specification", s("adder"));
    assert!(missing(&agent.handle_code_generation(&wrong).unwrap_err(), "language"));

    let m = agent
        .handle_code_modification(
            &Task::new("code_modification", "m")
                .with_parameter("file_path", s("src/lib.rs"))
                .with_parameter("changes", s("rename")),
        )
        .unwrap();
    assert_eq!(m.file_path, "src/lib.rs");
    assert_eq!(m.changes_applied, "rename");
    assert_eq!(m.diff, "+ // Modified: rename");
    assert_eq!(m.status, "modified");
    assert!(missing(
        &agent
            .handle_code_modification(&Task::new("m", "m").with_parameter("file_path", s("a")))
            .unwrap_err(),
        "changes"
    ));

    let r = agent
        .handle_code_refactoring(
            &Task::new("code_refactoring", "r")
                .with_parameter("target_files", ParamValue::List(vec![s("a.rs"), ParamValue::Other(Value::Null), list(&["c.rs"]), s("b.rs")])),
        )
        .unwrap();
    assert_eq!(r.file_count, 2);
    assert_eq!(r.summary, "Refactored 2 files");
    assert_eq!(
        r.improvements,
        vec!["Improved code structure", "Enhanced readability", "Reduced complexity"]
    );
    assert_eq!(r.refactored_files[0], ("a.rs".to_string(), "// Refactored: a.rs".to_string()));
    assert_eq!(r.refactored_files[1], ("b.rs".to_string(), "// Refactored: b.rs".to_string()));
    assert!(missing(&agent.handle_code_refactoring(&Task::new("r", "r")).unwrap_err(), "target_files"));
}

#[test]
fn free_code_operations() {
    let m = code_modification(Some("p".to_string()), Some("c".to_string())).unwrap();
    assert_eq!(m.diff, "+ // Modified: c");
    assert!(missing(&code_modification(None, Some("c".to_string())).unwrap_err(), "file_path"));
    let r = code_refactoring(Some(vec![])).unwrap();
    assert_eq!(r.file_count, 0);
    assert_eq!(r.summary, "Refactored 0 files");
    assert!(missing(&code_refactoring(None).unwrap_err(), "target_files"));
}

#[test]
fn analysis_agent_operations() {
    let agent = AnalysisAgent::new("Analyzer-1");
    assert_eq!(agent.agent_type(), AgentType::AnalysisAgent);
    assert_eq!(
        agent.description(),
        "Specialized agent for code analysis, security review, and performance optimization"
    );
    let names: Vec<&str> = agent.capabilities().iter().iter().map(|c| c.name.as_str()).collect();
    assert_eq!(
        names,
        vec!["code_review", "security_analysis", "performance_analysis", "dependency_analysis"]
    );

    let review = agent
        .handle_code_review(&Task::new("code_review", "r").with_parameter("files", list(&["a", "b", "c"])))
        .unwrap();
    assert_eq!(review.files_reviewed, 3);
    assert_eq!(review.total_issues, 6);
    assert_eq!(review.reviews.len(), 3);
    assert_eq!(review.reviews[1].file, "b");
    assert_eq!(review.reviews[1].issues.len(), 2);
    assert_eq!(review.reviews[1].issues[0].issue_type, "style");
    assert_eq!(review.reviews[1].issues[0].line, 42);
    assert_eq!(review.reviews[1].issues[0].message, "Consider using more descriptive variable names");
    assert_eq!(review.reviews[1].issues[0].severity, "minor");
    assert_eq!(review.reviews[1].issues[1].issue_type, "logic");
    assert_eq!(review.reviews[1].issues[1].line, 58);
    assert_eq!(review.reviews[1].issues[1].message, "Potential null pointer dereference");
    assert_eq!(review.reviews[1].issues[1].severity, "major");
    assert_eq!(
        review.reviews[1].suggestions,
        vec![
            "Add more comprehensive error handling",
            "Consider extracting this function for better testability"
        ]
    );
    assert!(missing(&agent.handle_code_review(&Task::new("r", "r")).unwrap_err(), "files"));

    let sec = agent
        .handle_security_analysis(&Task::new("s", "s").with_parameter("target_path", s("src")))
        .unwrap();
    assert_eq!(sec.target_path, "src");
    assert_eq!(sec.vulnerabilities.len(), 2);
    assert_eq!(sec.vulnerabilities[0].vulnerability_type, "SQL Injection");
    assert_eq!(sec.vulnerabilities[0].severity, "high");
    assert_eq!(sec.vulnerabilities[0].file, "src/database.rs");
    assert_eq!(sec.vulnerabilities[0].line, 123);
    assert_eq!(
        sec.vulnerabilities[0].description,
        "User input not properly sanitized before database query"
    );
    assert_eq!(sec.vulnerabilities[1].vulnerability_type, "Insecure Randomness");
    assert_eq!(sec.vulnerabilities[1].severity, "medium");
    assert_eq!(sec.vulnerabilities[1].file, "src/auth.rs");
    assert_eq!(sec.vulnerabilities[1].line, 67);
    assert_eq!(sec.recommendations.len(), 3);
    assert_eq!(sec.recommendations[2], "Add rate limiting to authentication endpoints");

    let perf = agent.handle_performance_analysis(&Task::new("p", "p")).unwrap();
    assert_eq!(perf.issues.len(), 2);
    assert_eq!(perf.issues[0].issue_type, "Memory Leak");
    assert_eq!(perf.issues[0].location, "main_loop");
    assert_eq!(perf.issues[1].issue_type, "Inefficient Algorithm");
    assert_eq!(perf.issues[1].description, "O(n²) algorithm could be optimized to O(n log n)");
    assert_eq!(perf.memory_usage, "85%");
    assert_eq!(perf.cpu_usage, "45%");
    assert_eq!(perf.response_time, "250ms");
    assert_eq!(perf.optimizations.len(), 3);
    assert!(missing(&security_analysis(None).unwrap_err(), "target_path"));

    let deps = agent
        .handle_dependency_analysis(&Task::new("d", "d").with_parameter("manifest_file", s("Cargo.toml")))
        .unwrap();
    assert_eq!(deps.manifest_file, "Cargo.toml");
    assert_eq!((deps.total, deps.outdated, deps.vulnerable, deps.unused), (42, 5, 2, 3));
    assert_eq!(deps.vulnerabilities.len(), 1);
    assert_eq!(deps.vulnerabilities[0].package, "old-crypto-lib");
    assert_eq!(deps.vulnerabilities[0].version, "1.2.3");
    assert_eq!(deps.recommendations[0], "Update 5 outdated dependencies");
    assert!(deps.license_issues.is_empty());
    assert!(missing(&agent.handle_dependency_analysis(&Task::new("d", "d")).unwrap_err(), "manifest_file"));

    let c = code_review(Some(vec![])).unwrap();
    assert_eq!(c.files_reviewed, 0);
    assert_eq!(c.total_issues, 0);
}

#[test]
fn generated_tests_per_framework() {
    let rust = generated_tests(&"calc.rs".to_string(), &"rust".to_string());
    assert!(rust.starts_with("#[cfg(test)]\nmod tests {\n    use super::*;"));
    assert!(rust.contains("fn test_error_handling()"));
    assert_eq!(generated_tests(&"calc.rs".to_string(), &"default".to_string()), rust);

    let py = generated_tests(&"pkg/calc.py".to_string(), &"python".to_string());
    assert!(py.starts_with("import unittest\nfrom pkg/calc import *\n\nclass Testpkg_calc(unittest.TestCase):"));
    assert!(py.contains("# Generated test for pkg/calc.py\n"));
    assert!(py.ends_with("if __name__ == '__main__':\n    unittest.main()\n"));

    assert_eq!(
        generated_tests(&"a.js".to_string(), &"jest".to_string()),
        "// Generated tests for a.js using jest"
    );
    assert_eq!(test_file_name(&"calc.rs".to_string(), &"rust".to_string()), "calc_test.rs");
    assert_eq!(test_file_name(&"pkg/calc.py".to_string(), &"python".to_string()), "pkg/calc_test.py");
    assert_eq!(test_file_name(&"noext".to_string(), &"jest".to_string()), "noext_test.rs");
    assert_eq!(test_file_name(&"a.b.c".to_string(), &"default".to_string()), "a_test.rs");
}

#[test]
fn test_agent_operations() {
    let agent = TestAgent::new("Tester-1");
    assert_eq!(agent.agent_type(), AgentType::TestAgent);
    let names: Vec<&str> = agent.capabilities().iter().iter().map(|c| c.name.as_str()).collect();
    assert_eq!(
        names,
        vec!["test_generation", "test_execution", "coverage_analysis", "integration_testing"]
    );
    let g = agent
        .handle_test_generation(&Task::new("t", "t").with_parameter("source_file", s("calculator.rs")))
        .unwrap();
    assert_eq!(g.test_framework, "default");
    assert_eq!(g.test_count, 3);
    assert_eq!(g.test_file, "calculator_test.rs");
    assert!(missing(&test_generation(None, None).unwrap_err(), "source_file"));
    let g = test_generation(Some("m.py".to_string()), Some("python".to_string())).unwrap();
    assert_eq!(g.test_file, "m_test.py");

    let run = agent
        .handle_test_execution(&Task::new("t", "t").with_parameter("test_path", s("tests/")))
        .unwrap();
    assert_eq!(run.test_path, "tests/");
    assert_eq!((run.total_tests, run.passed, run.failed, run.skipped), (15, 13, 2, 0));
    assert_eq!(run.passed + run.failed + run.skipped, run.total_tests);
    assert_eq!(run.execution_time, "2.34s");
    assert_eq!(run.failed_tests.len(), run.failed);
    assert_eq!(run.failed_tests[0].name, "test_complex_calculation");
    assert_eq!(run.failed_tests[0].error, "AssertionError: Expected 42, got 41");
    assert_eq!(run.failed_tests[0].file, "math_utils_test.rs");
    assert_eq!(run.failed_tests[0].line, 25);
    assert_eq!(run.failed_tests[1].name, "test_network_timeout");
    assert_eq!(run.failed_tests[1].error, "TimeoutError: Request timed out after 5s");
    assert_eq!(run.failed_tests[1].file, "network_test.rs");
    assert_eq!(run.failed_tests[1].line, 67);
    assert!(missing(&agent.handle_test_execution(&Task::new("t", "t")).unwrap_err(), "test_path"));
    assert!(missing(&agent.handle_coverage_analysis(&Task::new("t", "t")).unwrap_err(), "source_path"));
    let cov = agent
        .handle_coverage_analysis(&Task::new("t", "t").with_parameter("source_path", s("src/")))
        .unwrap();
    assert_eq!(cov.source_path, "src/");
    assert_eq!(cov.files.len(), 2);
    assert_eq!(cov.files[0].file, "src/main.rs");
    assert_eq!(cov.files[0].uncovered_lines, vec![45, 67, 89]);
    assert_eq!(cov.files[1].file, "src/utils.rs");
    assert_eq!(cov.files[1].uncovered_lines, vec![12, 23, 34, 45, 56]);
    assert_eq!(cov.recommendations.len(), 3);

    let it = agent
        .handle_integration_testing(
            &Task::new("t", "t").with_parameter("service_endpoints", list(&["/a", "/b"])),
        )
        .unwrap();
    assert_eq!(it.endpoints, vec!["/a".to_string(), "/b".to_string()]);
    assert_eq!(it.total_endpoints, 2);
    assert_eq!(it.passed, 2);
    assert_eq!(it.failed, 0);
    assert_eq!(it.average_response_time, "125ms");
    assert_eq!(it.results.len(), 2);
    assert_eq!(it.results[1].endpoint, "/b");
    assert_eq!(it.results[1].status, "passed");
    assert_eq!(it.results[1].response_time, "125ms");
    let names: Vec<&str> = it.results[1].tests.iter().map(|t| t.name.as_str()).collect();
    assert_eq!(names, vec!["test_endpoint_availability", "test_response_format", "test_error_handling"]);
    assert!(missing(&integration_testing(None).unwrap_err(), "service_endpoints"));
}

#[test]
fn unsupported_task_fails_with_its_type() {
    let r = unsupported_task(9, "dance");
    assert_eq!(r.task_id, 9);
    assert!(matches!(&r.status, TaskStatus::Failed(m) if m == "Unsupported task type: dance"));
    assert_eq!(r.error.as_deref(), Some("Unsupported task type: dance"));
    assert!(r.output.is_none());
}

#[test]
fn parameter_helpers() {
    assert!(missing(&missing_parameter("k"), "k"));
    assert_eq!(require_text(Some("v".to_string()), "k").unwrap(), "v");
    assert!(missing(&require_text(None, "k").unwrap_err(), "k"));
    let t = Task::new("t", "t")
        .with_parameter("name", s("value"))
        .with_parameter("num", ParamValue::Other(Value::from(3)))
        .with_parameter("items", list(&["x", "y"]));
    assert_eq!(text_parameter(&t, "name"), Some("value".to_string()));
    assert_eq!(text_parameter(&t, "num"), None);
    assert_eq!(text_parameter(&t, "absent"), None);
    assert_eq!(text_list_parameter(&t, "items"), Some(vec!["x".to_string(), "y".to_string()]));
    assert_eq!(text_list_parameter(&t, "name"), None);
    assert_eq!(text_list_parameter(&t, "absent"), None);
}

#[test]
fn decimal_texts() {
    assert_eq!(decimal(0), "0");
    assert_eq!(decimal(7), "7");
    assert_eq!(decimal(10), "10");
    assert_eq!(decimal(1203), "1203");
    assert_eq!(decimal(usize::MAX), usize::MAX.to_string());
}

#[test]
fn text_replacement() {
    assert_eq!(replace("a.py.py", ".py", ""), "a");
    assert_eq!(replace("a/b/c", "/", "_"), "a_b_c");
    assert_eq!(replace("aaa", "aa", "b"), "ba");
    assert_eq!(replace("", "x", "y"), "");
    assert_eq!(prefix_before("a.b.c", '.'), "a");
    assert_eq!(prefix_before("abc", '.'), "abc");
    assert_eq!(prefix_before(".x", '.'), "");
}

#[test]
fn parameter_set_then_read_back() {
    let t = Task::new("t", "t")
        .with_parameter("a", s("first"))
        .with_parameter("b", list(&["x"]))
        .with_parameter("a", s("second"));
    assert_eq!(text_parameter(&t, "a"), Some("second".to_string()));
    assert_eq!(text_list_parameter(&t, "b"), Some(vec!["x".to_string()]));
    assert_eq!(text_list_parameter(&t, "a"), None);
    assert_eq!(text_parameter(&t, "b"), None);
}
