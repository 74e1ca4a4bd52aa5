use vstd::prelude::*;

use super::text::{before_first, prefix_before, replace, replace_all, same_text};
use super::{
    capability_spec, is_missing_parameter, lemma_add_new_name, opt_text, opt_texts, param_spec,
    parameter, require_text, require_texts, text_list_parameter, text_param, text_parameter,
    text_triple, texts_param,
};
use crate::agent::{AgentHealth, AgentInfo, AgentType};
use crate::capability::{add_one, meets_all, texts, Capability, CapabilitySet, CapabilityView, ParameterType};
use crate::error::AgentError;
use crate::ids::{is_v4_id, new_id, AgentId};
use crate::task::Task;

verus! {

/// The capabilities of a test agent.
pub open spec fn test_agent_capabilities() -> Seq<CapabilityView> {
    seq![
        capability_spec(
            "test_generation"@,
            "Generate unit tests for code"@,
            seq![
                param_spec("source_file"@, ParameterType::String, true, "Source file to generate tests for"@),
                param_spec("test_framework"@, ParameterType::String, false, "Testing framework to use"@),
            ],
        ),
        capability_spec(
            "test_execution"@,
            "Execute test suites"@,
            seq![param_spec("test_path"@, ParameterType::String, true, "Path to test files or directory"@)],
        ),
        capability_spec(
            "coverage_analysis"@,
            "Analyze test coverage"@,
            seq![param_spec("source_path"@, ParameterType::String, true, "Path to source code"@)],
        ),
        capability_spec(
            "integration_testing"@,
            "Generate and run integration tests"@,
            seq![
                param_spec(
                    "service_endpoints"@,
                    ParameterType::Array(Box::new(ParameterType::String)),
                    true,
                    "Service endpoints to test"@,
                ),
            ],
        ),
    ]
}

/// The operations of a test agent.
#[derive(Debug, Clone, Copy, PartialEq, Eq, Structural)]
pub enum TestOperation {
    TestGeneration,
    TestExecution,
    CoverageAnalysis,
    IntegrationTesting,
}

/// The operation a task type names, if the test agent has it.
pub open spec fn test_operation_for(task_type: Seq<char>) -> Option<TestOperation> {
    if task_type == "test_generation"@ {
        Some(TestOperation::TestGeneration)
    } else if task_type == "test_execution"@ {
        Some(TestOperation::TestExecution)
    } else if task_type == "coverage_analysis"@ {
        Some(TestOperation::CoverageAnalysis)
    } else if task_type == "integration_testing"@ {
        Some(TestOperation::IntegrationTesting)
    } else {
        None
    }
}

/// The Rust test module generated for any source file.
pub open spec fn rust_test_module() -> Seq<char> {
    "\x23[cfg(test)]\nmod tests {\n    use super::\x2a;\n\n    \x23[test]\n    fn test_basic_functionality() {\n        assert\x21(true);\n    }\n\n    \x23[test]\n    fn test_edge_cases() {\n        assert\x21(true);\n    }\n\n    \x23[test]\n    fn test_error_handling() {\n        assert\x21(true);\n    }\n}"@
}

/// The Python test module generated for `source`: it imports the module named
/// by `source` without ".py" and names its class after that path with "/"
/// replaced by "_".
pub open spec fn python_test_module(source: Seq<char>) -> Seq<char> {
    let module = replace_all(source, ".py"@, ""@);
    "import unittest\nfrom "@ + module + " import *\n\nclass Test"@ + replace_all(module, "/"@, "_"@)
        + "(unittest.TestCase):\n    def test_basic_functionality(self):\n        # Generated test for "@
        + source
        + "\n        self.assertTrue(True)\n    \n    def test_edge_cases(self):\n        # Test edge cases\n        self.assertTrue(True)\n    \n    def test_error_handling(self):\n        # Test error conditions\n        self.assertTrue(True)\n\nif __name__ == '__main__':\n    unittest.main()\n"@
}

/// The tests generated for `source` with `framework`.
pub open spec fn generated_tests_text(source: Seq<char>, framework: Seq<char>) -> Seq<char> {
    if framework == "rust"@ || framework == "default"@ {
        rust_test_module()
    } else if framework == "python"@ {
        python_test_module(source)
    } else {
        "// Generated tests for "@ + source + " using "@ + framework
    }
}

/// The name of the test file for `source`: its part before the first ".",
/// then "_test." and "py" for the python framework or "rs" otherwise.
pub open spec fn test_file_text(source: Seq<char>, framework: Seq<char>) -> Seq<char> {
    before_first(source, '.') + "_test."@ + if framework == "python"@ {
        "py"@
    } else {
        "rs"@
    }
}

/// The framework used when none is given.
pub open spec fn default_framework() -> Seq<char> {
    "default"@
}

/// What a test generation produces.
#[derive(Debug)]
pub struct TestGeneration {
    pub source_file: String,
    pub test_framework: String,
    pub generated_tests: String,
    pub test_count: usize,
    pub test_file: String,
}

/// A named check and its status.
#[derive(Debug)]
pub struct EndpointTest {
    pub name: String,
    pub status: String,
}

/// The tests run against one endpoint.
#[derive(Debug)]
pub struct EndpointResult {
    pub endpoint: String,
    pub status: String,
    pub response_time: String,
    pub tests: Vec<EndpointTest>,
}

/// The result every endpoint gets: passed in 125ms, with its availability,
/// response format and error handling tests passed.
pub open spec fn is_endpoint_result(r: EndpointResult, endpoint: Seq<char>) -> bool {
    &&& r.endpoint@ == endpoint
    &&& r.status@ == "passed"@
    &&& r.response_time@ == "125ms"@
    &&& r.tests@.len() == 3
    &&& r.tests@[0].name@ == "test_endpoint_availability"@ && r.tests@[0].status@ == "passed"@
    &&& r.tests@[1].name@ == "test_response_format"@ && r.tests@[1].status@ == "passed"@
    &&& r.tests@[2].name@ == "test_error_handling"@ && r.tests@[2].status@ == "passed"@
}

/// The tests of `endpoint`.
fn endpoint_result(endpoint: &String) -> (r: EndpointResult)
    ensures
        is_endpoint_result(r, endpoint@),
{
    let mut tests: Vec<EndpointTest> = Vec::new();
    tests.push(
        EndpointTest {
            name: String::from_str("test_endpoint_availability"),
            status: String::from_str("passed"),
        },
    );
    tests.push(
        EndpointTest { name: String::from_str("test_response_format"), status: String::from_str("passed") },
    );
    tests.push(
        EndpointTest { name: String::from_str("test_error_handling"), status: String::from_str("passed") },
    );
    EndpointResult {
        endpoint: endpoint.clone(),
        status: String::from_str("passed"),
        response_time: String::from_str("125ms"),
        tests,
    }
}

/// What an integration test run covers: the endpoints, the result of each, how
/// many, how many passed (all of them) and failed (none), and the average
/// response time.
#[derive(Debug)]
pub struct IntegrationTesting {
    pub endpoints: Vec<String>,
    pub results: Vec<EndpointResult>,
    pub total_endpoints: usize,
    pub passed: usize,
    pub failed: usize,
    pub average_response_time: String,
}

/// A file's coverage: the lines no test reaches.
#[derive(Debug)]
pub struct FileCoverage {
    pub file: String,
    pub uncovered_lines: Vec<u32>,
}

/// What a coverage analysis reports on a source path, apart from the
/// percentages: the files with their uncovered lines, and the recommendations.
#[derive(Debug)]
pub struct CoverageAnalysis {
    pub source_path: String,
    pub files: Vec<FileCoverage>,
    pub recommendations: Vec<String>,
}

/// What a coverage analysis gives for the `source_path` text: an error when it
/// is missing, or src/main.rs with lines 45, 67 and 89 uncovered, src/utils.rs
/// with lines 12, 23, 34, 45 and 56 uncovered, and three recommendations.
pub open spec fn coverage_analysis_result(source_path: Option<Seq<char>>, r: Result<CoverageAnalysis, AgentError>) -> bool {
    match source_path {
        None => r matches Err(e) && is_missing_parameter(e, "source_path"@),
        Some(p) => r matches Ok(c) && c.source_path@ == p && c.files@.len() == 2 && c.files@[0].file@
            == "src/main.rs"@ && c.files@[0].uncovered_lines@ == seq![45u32, 67, 89] && c.files@[1].file@
            == "src/utils.rs"@ && c.files@[1].uncovered_lines@ == seq![12u32, 23, 34, 45, 56] && texts(
            c.recommendations@,
        ) == seq![
            "Add tests for error handling paths"@,
            "Increase coverage for utility functions"@,
            "Test edge cases in main business logic"@,
        ],
    }
}

/// The coverage analysis of the `source_path` parameter.
pub fn coverage_analysis(source_path: Option<String>) -> (r: Result<CoverageAnalysis, AgentError>)
    ensures
        coverage_analysis_result(opt_text(source_path), r),
{
    let source_path = require_text(source_path, "source_path")?;
    let mut main_lines: Vec<u32> = Vec::new();
    main_lines.push(45);
    main_lines.push(67);
    main_lines.push(89);
    let mut utils_lines: Vec<u32> = Vec::new();
    utils_lines.push(12);
    utils_lines.push(23);
    utils_lines.push(34);
    utils_lines.push(45);
    utils_lines.push(56);
    proof {
        assert(main_lines@ =~= seq![45u32, 67, 89]);
        assert(utils_lines@ =~= seq![12u32, 23, 34, 45, 56]);
    }
    let mut files: Vec<FileCoverage> = Vec::new();
    files.push(FileCoverage { file: String::from_str("src/main.rs"), uncovered_lines: main_lines });
    files.push(FileCoverage { file: String::from_str("src/utils.rs"), uncovered_lines: utils_lines });
    let recommendations = text_triple(
        "Add tests for error handling paths",
        "Increase coverage for utility functions",
        "Test edge cases in main business logic",
    );
    Ok(CoverageAnalysis { source_path, files, recommendations })
}

/// The tests generated for `source` with `framework`.
pub fn generated_tests(source: &String, framework: &String) -> (r: String)
    ensures
        r@ == generated_tests_text(source@, framework@),
{
    if same_text(framework.as_str(), "rust") || same_text(framework.as_str(), "default") {
        String::from_str("\x23[cfg(test)]\nmod tests {\n    use super::\x2a;\n\n    \x23[test]\n    fn test_basic_functionality() {\n        assert\x21(true);\n    }\n\n    \x23[test]\n    fn test_edge_cases() {\n        assert\x21(true);\n    }\n\n    \x23[test]\n    fn test_error_handling() {\n        assert\x21(true);\n    }\n}")
    } else if same_text(framework.as_str(), "python") {
        proof {
            reveal_strlit(".py");
            reveal_strlit("/");
        }
        let module = replace(source.as_str(), ".py", "");
        let class = replace(module.as_str(), "/", "_");
        let mut s = String::from_str("import unittest\nfrom ");
        s.append(module.as_str());
        s.append(" import *\n\nclass Test");
        s.append(class.as_str());
        s.append("(unittest.TestCase):\n    def test_basic_functionality(self):\n        # Generated test for ");
        s.append(source.as_str());
        s.append("\n        self.assertTrue(True)\n    \n    def test_edge_cases(self):\n        # Test edge cases\n        self.assertTrue(True)\n    \n    def test_error_handling(self):\n        # Test error conditions\n        self.assertTrue(True)\n\nif __name__ == '__main__':\n    unittest.main()\n");
        s
    } else {
        let mut s = String::from_str("// Generated tests for ");
        s.append(source.as_str());
        s.append(" using ");
        s.append(framework.as_str());
        s
    }
}

/// The name of the test file for `source` with `framework`.
pub fn test_file_name(source: &String, framework: &String) -> (r: String)
    ensures
        r@ == test_file_text(source@, framework@),
{
    let mut s = prefix_before(source.as_str(), '.');
    s.append("_test.");
    if same_text(framework.as_str(), "python") {
        s.append("py");
    } else {
        s.append("rs");
    }
    s
}

/// The framework a test generation uses: the one given, or "default".
pub open spec fn framework_or_default(framework: Option<Seq<char>>) -> Seq<char> {
    match framework {
        Some(f) => f,
        None => default_framework(),
    }
}

/// What a test generation gives for the `source_file` and `test_framework`
/// texts: an error when the source is missing, or three tests for it.
pub open spec fn test_generation_result(
    source_file: Option<Seq<char>>,
    test_framework: Option<Seq<char>>,
    r: Result<TestGeneration, AgentError>,
) -> bool {
    match source_file {
        None => r matches Err(e) && is_missing_parameter(e, "source_file"@),
        Some(s) => {
            let f = framework_or_default(test_framework);
            r matches Ok(g) && g.source_file@ == s && g.test_framework@ == f && g.generated_tests@
                == generated_tests_text(s, f) && g.test_file@ == test_file_text(s, f) && g.test_count
                == 3
        },
    }
}

/// Test generation from the `source_file` and optional `test_framework`
/// parameters (the framework is "default" when not given); three tests are
/// generated.
pub fn test_generation(source_file: Option<String>, test_framework: Option<String>) -> (r: Result<
    TestGeneration,
    AgentError,
>)
    ensures
        test_generation_result(opt_text(source_file), opt_text(test_framework), r),
{
    let source_file = require_text(source_file, "source_file")?;
    let test_framework = match test_framework {
        Some(f) => f,
        None => String::from_str("default"),
    };
    let generated_tests = generated_tests(&source_file, &test_framework);
    let test_file = test_file_name(&source_file, &test_framework);
    Ok(TestGeneration { source_file, test_framework, generated_tests, test_count: 3, test_file })
}

/// What integration testing gives for the `service_endpoints` texts: an error
/// when they are missing, or the endpoints with the result of each, all passed
/// and none failed, at an average of 125ms.
pub open spec fn integration_testing_result(
    service_endpoints: Option<Seq<Seq<char>>>,
    r: Result<IntegrationTesting, AgentError>,
) -> bool {
    match service_endpoints {
        None => r matches Err(e) && is_missing_parameter(e, "service_endpoints"@),
        Some(es) => r matches Ok(t) && texts(t.endpoints@) == es && t.results@.len() == es.len() && (
        forall|i: int| 0 <= i < es.len() ==> is_endpoint_result(#[trigger] t.results@[i], es[i]))
            && t.total_endpoints == es.len() && t.passed == es.len() && t.failed == 0
            && t.average_response_time@ == "125ms"@,
    }
}

/// The integration tests of the endpoints in the `service_endpoints` parameter;
/// every endpoint passes.
pub fn integration_testing(service_endpoints: Option<Vec<String>>) -> (r: Result<
    IntegrationTesting,
    AgentError,
>)
    ensures
        integration_testing_result(opt_texts(service_endpoints), r),
{
    let endpoints = require_texts(service_endpoints, "service_endpoints")?;
    let n = endpoints.len();
    let mut results: Vec<EndpointResult> = Vec::new();
    let mut i: usize = 0;
    while i < n
        invariant
            n == endpoints@.len(),
            i <= n,
            results@.len() == i,
            forall|j: int| 0 <= j < i ==> is_endpoint_result(#[trigger] results@[j], endpoints@[j]@),
        decreases n - i,
    {
        results.push(endpoint_result(&endpoints[i]));
        i = i + 1;
    }
    Ok(
        IntegrationTesting {
            endpoints,
            results,
            total_endpoints: n,
            passed: n,
            failed: 0,
            average_response_time: String::from_str("125ms"),
        },
    )
}

/// A test that failed in a run: its name, the error, and where it is.
#[derive(Debug)]
pub struct FailedTest {
    pub name: String,
    pub error: String,
    pub file: String,
    pub line: u32,
}

/// Whether `f` is the failed test with these name, error, file and line.
pub open spec fn is_failed_test(f: FailedTest, name: Seq<char>, error: Seq<char>, file: Seq<char>, line: u32) -> bool {
    f.name@ == name && f.error@ == error && f.file@ == file && f.line == line
}

/// What a test run reports: the path run, the counts of tests, how long the
/// run took, and the tests that failed.
#[derive(Debug)]
pub struct TestExecution {
    pub test_path: String,
    pub total_tests: usize,
    pub passed: usize,
    pub failed: usize,
    pub skipped: usize,
    pub execution_time: String,
    pub failed_tests: Vec<FailedTest>,
}

/// What a test run gives for the `test_path` text: an error when it is
/// missing, or the report of 15 tests, 13 passed and 2 failed, none skipped,
/// with the two failures listed.
pub open spec fn test_execution_result(test_path: Option<Seq<char>>, r: Result<TestExecution, AgentError>) -> bool {
    match test_path {
        None => r matches Err(e) && is_missing_parameter(e, "test_path"@),
        Some(p) => r matches Ok(x) && x.test_path@ == p && x.total_tests == 15 && x.passed == 13
            && x.failed == 2 && x.skipped == 0 && x.passed + x.failed + x.skipped == x.total_tests
            && x.execution_time@ == "2.34s"@ && x.failed_tests@.len() == x.failed && is_failed_test(
            x.failed_tests@[0],
            "test_complex_calculation"@,
            "AssertionError: Expected 42, got 41"@,
            "math_utils_test.rs"@,
            25,
        ) && is_failed_test(
            x.failed_tests@[1],
            "test_network_timeout"@,
            "TimeoutError: Request timed out after 5s"@,
            "network_test.rs"@,
            67,
        ),
    }
}

/// The report of running the tests at the `test_path` parameter.
pub fn test_execution(test_path: Option<String>) -> (r: Result<TestExecution, AgentError>)
    ensures
        test_execution_result(opt_text(test_path), r),
{
    let test_path = require_text(test_path, "test_path")?;
    let mut failed_tests: Vec<FailedTest> = Vec::new();
    failed_tests.push(
        FailedTest {
            name: String::from_str("test_complex_calculation"),
            error: String::from_str("AssertionError: Expected 42, got 41"),
            file: String::from_str("math_utils_test.rs"),
            line: 25,
        },
    );
    failed_tests.push(
        FailedTest {
            name: String::from_str("test_network_timeout"),
            error: String::from_str("TimeoutError: Request timed out after 5s"),
            file: String::from_str("network_test.rs"),
            line: 67,
        },
    );
    Ok(
        TestExecution {
            test_path,
            total_tests: 15,
            passed: 13,
            failed: 2,
            skipped: 0,
            execution_time: String::from_str("2.34s"),
            failed_tests,
        },
    )
}

/// An agent that generates and runs tests and analyses coverage.
#[derive(Debug)]
pub struct TestAgent {
    id: AgentId,
    name: String,
    capabilities: CapabilitySet,
}

impl TestAgent {
    /// The agent has exactly the test capabilities.
    #[verifier::type_invariant]
    closed spec fn has_test_capabilities(&self) -> bool {
        self.capabilities@ == test_agent_capabilities()
    }

    /// A test agent with a fresh random id and the four test capabilities.
    pub fn new(name: &str) -> (a: TestAgent)
        ensures
            is_v4_id(a.agent_id()),
            a.name_view() == name@,
    {
        let mut capabilities = CapabilitySet::new();
        let c1 = Capability::new("test_generation")
            .with_description("Generate unit tests for code")
            .with_parameter(parameter("source_file", ParameterType::String, true, "Source file to generate tests for"))
            .with_parameter(parameter("test_framework", ParameterType::String, false, "Testing framework to use"));
        let c2 = Capability::new("test_execution")
            .with_description("Execute test suites")
            .with_parameter(parameter("test_path", ParameterType::String, true, "Path to test files or directory"));
        let c3 = Capability::new("coverage_analysis")
            .with_description("Analyze test coverage")
            .with_parameter(parameter("source_path", ParameterType::String, true, "Path to source code"));
        let c4 = Capability::new("integration_testing")
            .with_description("Generate and run integration tests")
            .with_parameter(parameter(
                "service_endpoints",
                ParameterType::Array(Box::new(ParameterType::String)),
                true,
                "Service endpoints to test",
            ));
        let ghost v1 = c1@;
        let ghost v2 = c2@;
        let ghost v3 = c3@;
        let ghost v4 = c4@;
        proof {
            let e = test_agent_capabilities();
            assert(v1.parameters =~= e[0].parameters);
            assert(v2.parameters =~= e[1].parameters);
            assert(v3.parameters =~= e[2].parameters);
            assert(v4.parameters =~= e[3].parameters);
            reveal_strlit("test_generation");
            reveal_strlit("test_execution");
            reveal_strlit("coverage_analysis");
            reveal_strlit("integration_testing");
            assert(v1.name.len() == 15);
            assert(v2.name.len() == 14);
            assert(v3.name.len() == 17);
            assert(v4.name.len() == 19);
            lemma_add_new_name(Seq::empty(), v1);
            lemma_add_new_name(seq![v1], v2);
            lemma_add_new_name(seq![v1, v2], v3);
            lemma_add_new_name(seq![v1, v2, v3], v4);
            assert(seq![v1].push(v2) =~= seq![v1, v2]);
            assert(seq![v1, v2].push(v3) =~= seq![v1, v2, v3]);
            assert(seq![v1, v2, v3].push(v4) =~= seq![v1, v2, v3, v4]);
            assert(Seq::<CapabilityView>::empty().push(v1) =~= seq![v1]);
        }
        capabilities.add(c1);
        capabilities.add(c2);
        capabilities.add(c3);
        capabilities.add(c4);
        proof {
            assert(capabilities@ =~= test_agent_capabilities());
        }
        TestAgent { id: new_id(), name: String::from_str(name), capabilities }
    }

    /// The agent's name as text.
    pub closed spec fn name_view(&self) -> Seq<char> {
        self.name@
    }

    /// The agent's id.
    pub closed spec fn agent_id(&self) -> AgentId {
        self.id
    }

    /// The agent's id.
    pub fn id(&self) -> (r: AgentId)
        ensures
            r == self.agent_id(),
    {
        self.id
    }

    /// The agent's type: a test agent.
    pub fn agent_type(&self) -> (r: AgentType)
        ensures
            r == AgentType::TestAgent,
    {
        AgentType::TestAgent
    }

    /// The agent's name.
    pub fn name(&self) -> (r: &str)
        ensures
            r@ == self.name_view(),
    {
        self.name.as_str()
    }

    /// What the agent does.
    pub fn description(&self) -> (r: &str)
        ensures
            r@ == "Specialized agent for test generation, execution, and coverage analysis"@,
    {
        "Specialized agent for test generation, execution, and coverage analysis"
    }

    /// The agent's capabilities.
    pub fn capabilities(&self) -> (r: &CapabilitySet)
        ensures
            r@ == test_agent_capabilities(),
    {
        proof {
            use_type_invariant(self);
        }
        &self.capabilities
    }

    /// Whether the agent offers every capability `task` requires.
    pub fn can_handle(&self, task: &Task) -> (r: bool)
        ensures
            r == meets_all(test_agent_capabilities(), task.required()),
    {
        proof {
            use_type_invariant(self);
        }
        let req = task.required_capabilities.as_slice();
        proof {
            assert(texts(req@) == task.required());
        }
        self.capabilities.matches_requirements(req)
    }

    /// The agent's health: always healthy.
    pub fn health_check(&self) -> (r: AgentHealth)
        ensures
            r@ is Healthy,
    {
        AgentHealth::Healthy
    }

    /// The operation a task type names, if the agent has it.
    pub fn operation(task_type: &str) -> (r: Option<TestOperation>)
        ensures
            r == test_operation_for(task_type@),
    {
        if same_text(task_type, "test_generation") {
            Some(TestOperation::TestGeneration)
        } else if same_text(task_type, "test_execution") {
            Some(TestOperation::TestExecution)
        } else if same_text(task_type, "coverage_analysis") {
            Some(TestOperation::CoverageAnalysis)
        } else if same_text(task_type, "integration_testing") {
            Some(TestOperation::IntegrationTesting)
        } else {
            None
        }
    }

    /// Test generation from the task's `source_file` and optional
    /// `test_framework` string parameters.
    pub fn handle_test_generation(&self, task: &Task) -> (r: Result<TestGeneration, AgentError>)
        ensures
            test_generation_result(
                text_param(task.parameters@, "source_file"@),
                text_param(task.parameters@, "test_framework"@),
                r,
            ),
    {
        test_generation(text_parameter(task, "source_file"), text_parameter(task, "test_framework"))
    }

    /// The report of running the tests at the task's `test_path` string
    /// parameter.
    pub fn handle_test_execution(&self, task: &Task) -> (r: Result<TestExecution, AgentError>)
        ensures
            test_execution_result(text_param(task.parameters@, "test_path"@), r),
    {
        test_execution(text_parameter(task, "test_path"))
    }

    /// The coverage analysis of the task's `source_path` string parameter.
    pub fn handle_coverage_analysis(&self, task: &Task) -> (r: Result<CoverageAnalysis, AgentError>)
        ensures
            coverage_analysis_result(text_param(task.parameters@, "source_path"@), r),
    {
        coverage_analysis(text_parameter(task, "source_path"))
    }

    /// The integration tests of the endpoints in the task's `service_endpoints`
    /// array parameter.
    pub fn handle_integration_testing(&self, task: &Task) -> (r: Result<IntegrationTesting, AgentError>)
        ensures
            integration_testing_result(texts_param(task.parameters@, "service_endpoints"@), r),
    {
        integration_testing(text_list_parameter(task, "service_endpoints"))
    }

    /// The registry record for this agent, created at `created_at`.
    pub fn info(&self, created_at: std::time::SystemTime) -> (r: AgentInfo)
        ensures
            r.id == self.agent_id(),
            r@.agent_type == crate::agent::AgentTypeView::TestAgent,
            r@.name == self.name_view(),
            r@.capabilities == test_agent_capabilities(),
            r@.health is Healthy,
            r.created_at == created_at,
    {
        proof {
            use_type_invariant(self);
        }
        AgentInfo::new(
            self.id,
            AgentType::TestAgent,
            self.name.as_str(),
            self.description(),
            &self.capabilities,
            created_at,
        )
    }
}

} // verus!
