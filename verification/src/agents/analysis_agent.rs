use vstd::prelude::*;

use super::text::same_text;
use super::{
    capability_spec, is_missing_parameter, lemma_add_new_name, opt_text, opt_texts, param_spec,
    parameter, require_text, require_texts, text_list_parameter, text_pair, text_param,
    text_parameter, text_triple, texts_param,
};
use crate::agent::{AgentHealth, AgentInfo, AgentType};
use crate::capability::{add_one, meets_all, texts, Capability, CapabilitySet, CapabilityView, ParameterType};
use crate::error::AgentError;
use crate::ids::{is_v4_id, new_id, AgentId};
use crate::task::Task;

verus! {

/// The capabilities of an analysis agent.
pub open spec fn analysis_agent_capabilities() -> Seq<CapabilityView> {
    seq![
        capability_spec(
            "code_review"@,
            "Perform comprehensive code review"@,
            seq![
                param_spec(
                    "files"@,
                    ParameterType::Array(Box::new(ParameterType::String)),
                    true,
                    "Files to review"@,
                ),
            ],
        ),
        capability_spec(
            "security_analysis"@,
            "Analyze code for security vulnerabilities"@,
            seq![param_spec("target_path"@, ParameterType::String, true, "Path to analyze for security issues"@)],
        ),
        capability_spec(
            "performance_analysis"@,
            "Analyze code for performance issues"@,
            seq![param_spec("profile_data"@, ParameterType::Object, false, "Optional profiling data"@)],
        ),
        capability_spec(
            "dependency_analysis"@,
            "Analyze project dependencies"@,
            seq![
                param_spec(
                    "manifest_file"@,
                    ParameterType::String,
                    true,
                    "Path to dependency manifest (Cargo.toml, package.json, etc.)"@,
                ),
            ],
        ),
    ]
}

/// The operations of an analysis agent.
#[derive(Debug, Clone, Copy, PartialEq, Eq, Structural)]
pub enum AnalysisOperation {
    CodeReview,
    SecurityAnalysis,
    PerformanceAnalysis,
    DependencyAnalysis,
}

/// The operation a task type names, if the analysis agent has it.
pub open spec fn analysis_operation_for(task_type: Seq<char>) -> Option<AnalysisOperation> {
    if task_type == "code_review"@ {
        Some(AnalysisOperation::CodeReview)
    } else if task_type == "security_analysis"@ {
        Some(AnalysisOperation::SecurityAnalysis)
    } else if task_type == "performance_analysis"@ {
        Some(AnalysisOperation::PerformanceAnalysis)
    } else if task_type == "dependency_analysis"@ {
        Some(AnalysisOperation::DependencyAnalysis)
    } else {
        None
    }
}

/// An issue found in a reviewed file.
#[derive(Debug)]
pub struct CodeIssue {
    pub issue_type: String,
    pub line: u32,
    pub message: String,
    pub severity: String,
}

/// Whether `x` is the issue with these type, line, message and severity.
pub open spec fn is_code_issue(
    x: CodeIssue,
    issue_type: Seq<char>,
    line: u32,
    message: Seq<char>,
    severity: Seq<char>,
) -> bool {
    x.issue_type@ == issue_type && x.line == line && x.message@ == message && x.severity@ == severity
}

/// The review of one file: its issues and suggestions.
#[derive(Debug)]
pub struct FileReview {
    pub file: String,
    pub issues: Vec<CodeIssue>,
    pub suggestions: Vec<String>,
}

/// The review every file gets: a minor style issue at line 42, a major logic
/// issue at line 58, and two suggestions.
pub open spec fn is_file_review(r: FileReview, file: Seq<char>) -> bool {
    &&& r.file@ == file
    &&& r.issues@.len() == 2
    &&& is_code_issue(
        r.issues@[0],
        "style"@,
        42,
        "Consider using more descriptive variable names"@,
        "minor"@,
    )
    &&& is_code_issue(r.issues@[1], "logic"@, 58, "Potential null pointer dereference"@, "major"@)
    &&& texts(r.suggestions@) == seq![
        "Add more comprehensive error handling"@,
        "Consider extracting this function for better testability"@,
    ]
}

/// The review of `file`.
fn file_review(file: &String) -> (r: FileReview)
    ensures
        is_file_review(r, file@),
{
    let mut issues: Vec<CodeIssue> = Vec::new();
    issues.push(
        CodeIssue {
            issue_type: String::from_str("style"),
            line: 42,
            message: String::from_str("Consider using more descriptive variable names"),
            severity: String::from_str("minor"),
        },
    );
    issues.push(
        CodeIssue {
            issue_type: String::from_str("logic"),
            line: 58,
            message: String::from_str("Potential null pointer dereference"),
            severity: String::from_str("major"),
        },
    );
    let suggestions = text_pair(
        "Add more comprehensive error handling",
        "Consider extracting this function for better testability",
    );
    FileReview { file: file.clone(), issues, suggestions }
}

/// What a code review covers: the files, the review of each, how many files,
/// and how many issues are reported (two per file).
#[derive(Debug)]
pub struct CodeReview {
    pub files: Vec<String>,
    pub reviews: Vec<FileReview>,
    pub files_reviewed: usize,
    pub total_issues: usize,
}

/// What a review gives for the `files` texts: an error when they are missing,
/// or the files with the review of each, two issues per file (the count
/// saturating at `usize::MAX`).
pub open spec fn code_review_result(files: Option<Seq<Seq<char>>>, r: Result<CodeReview, AgentError>) -> bool {
    match files {
        None => r matches Err(e) && is_missing_parameter(e, "files"@),
        Some(fs) => r matches Ok(c) && texts(c.files@) == fs && c.files_reviewed == fs.len()
            && c.reviews@.len() == fs.len() && (forall|i: int|
            0 <= i < fs.len() ==> is_file_review(#[trigger] c.reviews@[i], fs[i]))
            && c.total_issues == if fs.len() * 2 <= usize::MAX {
            fs.len() * 2
        } else {
            usize::MAX as nat
        },
    }
}

/// The review of the files in the `files` parameter; two issues are reported per
/// file.
pub fn code_review(files: Option<Vec<String>>) -> (r: Result<CodeReview, AgentError>)
    ensures
        code_review_result(opt_texts(files), r),
{
    let files = require_texts(files, "files")?;
    let n = files.len();
    let mut reviews: Vec<FileReview> = Vec::new();
    let mut i: usize = 0;
    while i < n
        invariant
            n == files@.len(),
            i <= n,
            reviews@.len() == i,
            forall|j: int| 0 <= j < i ==> is_file_review(#[trigger] reviews@[j], files@[j]@),
        decreases n - i,
    {
        reviews.push(file_review(&files[i]));
        i = i + 1;
    }
    let total_issues = if n <= usize::MAX / 2 {
        n * 2
    } else {
        usize::MAX
    };
    Ok(CodeReview { files, reviews, files_reviewed: n, total_issues })
}

/// A vulnerability found in a file.
#[derive(Debug)]
pub struct Vulnerability {
    pub vulnerability_type: String,
    pub severity: String,
    pub file: String,
    pub line: u32,
    pub description: String,
}

/// Whether `v` is the vulnerability with these type, severity, file, line and
/// description.
pub open spec fn is_vulnerability(
    v: Vulnerability,
    vulnerability_type: Seq<char>,
    severity: Seq<char>,
    file: Seq<char>,
    line: u32,
    description: Seq<char>,
) -> bool {
    v.vulnerability_type@ == vulnerability_type && v.severity@ == severity && v.file@ == file && v.line
        == line && v.description@ == description
}

/// What a security analysis reports on a target: the vulnerabilities found and
/// the recommendations.
#[derive(Debug)]
pub struct SecurityAnalysis {
    pub target_path: String,
    pub vulnerabilities: Vec<Vulnerability>,
    pub recommendations: Vec<String>,
}

/// The file of `target` where the database finding is placed.
pub open spec fn database_file_text(target: Seq<char>) -> Seq<char> {
    target + "/database.rs"@
}

/// The file of `target` where the authentication finding is placed.
pub open spec fn auth_file_text(target: Seq<char>) -> Seq<char> {
    target + "/auth.rs"@
}

/// What a security analysis gives for the `target_path` text: an error when it
/// is missing, or a high SQL injection in the target's database file, a medium
/// insecure randomness in its authentication file, and three recommendations.
pub open spec fn security_analysis_result(
    target_path: Option<Seq<char>>,
    r: Result<SecurityAnalysis, AgentError>,
) -> bool {
    match target_path {
        None => r matches Err(e) && is_missing_parameter(e, "target_path"@),
        Some(t) => r matches Ok(a) && a.target_path@ == t && a.vulnerabilities@.len() == 2
            && is_vulnerability(
            a.vulnerabilities@[0],
            "SQL Injection"@,
            "high"@,
            database_file_text(t),
            123,
            "User input not properly sanitized before database query"@,
        ) && is_vulnerability(
            a.vulnerabilities@[1],
            "Insecure Randomness"@,
            "medium"@,
            auth_file_text(t),
            67,
            "Using predictable random number generator for security tokens"@,
        ) && texts(a.recommendations@) == seq![
            "Implement input validation and parameterized queries"@,
            "Use cryptographically secure random number generator"@,
            "Add rate limiting to authentication endpoints"@,
        ],
    }
}

/// The security analysis of the `target_path` parameter.
pub fn security_analysis(target_path: Option<String>) -> (r: Result<SecurityAnalysis, AgentError>)
    ensures
        security_analysis_result(opt_text(target_path), r),
{
    let target_path = require_text(target_path, "target_path")?;
    let mut database_file = target_path.clone();
    database_file.append("/database.rs");
    let mut auth_file = target_path.clone();
    auth_file.append("/auth.rs");
    let mut vulnerabilities: Vec<Vulnerability> = Vec::new();
    vulnerabilities.push(
        Vulnerability {
            vulnerability_type: String::from_str("SQL Injection"),
            severity: String::from_str("high"),
            file: database_file,
            line: 123,
            description: String::from_str("User input not properly sanitized before database query"),
        },
    );
    vulnerabilities.push(
        Vulnerability {
            vulnerability_type: String::from_str("Insecure Randomness"),
            severity: String::from_str("medium"),
            file: auth_file,
            line: 67,
            description: String::from_str("Using predictable random number generator for security tokens"),
        },
    );
    let recommendations = text_triple(
        "Implement input validation and parameterized queries",
        "Use cryptographically secure random number generator",
        "Add rate limiting to authentication endpoints",
    );
    Ok(SecurityAnalysis { target_path, vulnerabilities, recommendations })
}

/// A performance issue found at a location.
#[derive(Debug)]
pub struct PerformanceIssue {
    pub issue_type: String,
    pub severity: String,
    pub location: String,
    pub description: String,
}

/// Whether `x` is the performance issue with these type, severity, location
/// and description.
pub open spec fn is_performance_issue(
    x: PerformanceIssue,
    issue_type: Seq<char>,
    severity: Seq<char>,
    location: Seq<char>,
    description: Seq<char>,
) -> bool {
    x.issue_type@ == issue_type && x.severity@ == severity && x.location@ == location && x.description@
        == description
}

/// What a performance analysis reports: the issues, the resource figures, and
/// the optimizations proposed.
#[derive(Debug)]
pub struct PerformanceAnalysis {
    pub issues: Vec<PerformanceIssue>,
    pub memory_usage: String,
    pub cpu_usage: String,
    pub response_time: String,
    pub optimizations: Vec<String>,
}

/// The performance report: a high memory leak in the main loop, a medium
/// inefficient algorithm in the sort function, memory 85%, CPU 45%, response
/// time 250ms, and three optimizations.
pub open spec fn performance_report(p: PerformanceAnalysis) -> bool {
    &&& p.issues@.len() == 2
    &&& is_performance_issue(
        p.issues@[0],
        "Memory Leak"@,
        "high"@,
        "main_loop"@,
        "Objects not being properly deallocated"@,
    )
    &&& is_performance_issue(
        p.issues@[1],
        "Inefficient Algorithm"@,
        "medium"@,
        "sort_function"@,
        "O(n²) algorithm could be optimized to O(n log n)"@,
    )
    &&& p.memory_usage@ == "85%"@
    &&& p.cpu_usage@ == "45%"@
    &&& p.response_time@ == "250ms"@
    &&& texts(p.optimizations@) == seq![
        "Implement object pooling"@,
        "Use more efficient sorting algorithm"@,
        "Add caching layer for frequently accessed data"@,
    ]
}

/// The performance report.
pub fn performance_analysis() -> (r: PerformanceAnalysis)
    ensures
        performance_report(r),
{
    let mut issues: Vec<PerformanceIssue> = Vec::new();
    issues.push(
        PerformanceIssue {
            issue_type: String::from_str("Memory Leak"),
            severity: String::from_str("high"),
            location: String::from_str("main_loop"),
            description: String::from_str("Objects not being properly deallocated"),
        },
    );
    issues.push(
        PerformanceIssue {
            issue_type: String::from_str("Inefficient Algorithm"),
            severity: String::from_str("medium"),
            location: String::from_str("sort_function"),
            description: String::from_str("O(n²) algorithm could be optimized to O(n log n)"),
        },
    );
    let optimizations = text_triple(
        "Implement object pooling",
        "Use more efficient sorting algorithm",
        "Add caching layer for frequently accessed data",
    );
    PerformanceAnalysis {
        issues,
        memory_usage: String::from_str("85%"),
        cpu_usage: String::from_str("45%"),
        response_time: String::from_str("250ms"),
        optimizations,
    }
}

/// A dependency with a known vulnerability.
#[derive(Debug)]
pub struct VulnerablePackage {
    pub package: String,
    pub version: String,
    pub severity: String,
    pub description: String,
}

/// What a dependency analysis reports on a manifest: the counts of
/// dependencies, the vulnerable packages, the recommendations, and the license
/// issues.
#[derive(Debug)]
pub struct DependencyAnalysis {
    pub manifest_file: String,
    pub total: usize,
    pub outdated: usize,
    pub vulnerable: usize,
    pub unused: usize,
    pub vulnerabilities: Vec<VulnerablePackage>,
    pub recommendations: Vec<String>,
    pub license_issues: Vec<String>,
}

/// What a dependency analysis gives for the `manifest_file` text: an error when
/// it is missing, or 42 dependencies of which 5 outdated, 2 vulnerable and 3
/// unused, one vulnerable package, three recommendations and no license issue.
pub open spec fn dependency_analysis_result(
    manifest_file: Option<Seq<char>>,
    r: Result<DependencyAnalysis, AgentError>,
) -> bool {
    match manifest_file {
        None => r matches Err(e) && is_missing_parameter(e, "manifest_file"@),
        Some(m) => r matches Ok(d) && d.manifest_file@ == m && d.total == 42 && d.outdated == 5
            && d.vulnerable == 2 && d.unused == 3 && d.vulnerabilities@.len() == 1
            && d.vulnerabilities@[0].package@ == "old-crypto-lib"@ && d.vulnerabilities@[0].version@
            == "1.2.3"@ && d.vulnerabilities@[0].severity@ == "high"@
            && d.vulnerabilities@[0].description@ == "Known cryptographic vulnerability"@ && texts(
            d.recommendations@,
        ) == seq![
            "Update 5 outdated dependencies"@,
            "Remove 3 unused dependencies"@,
            "Replace vulnerable crypto library with secure alternative"@,
        ] && d.license_issues@.len() == 0,
    }
}

/// The dependency analysis of the `manifest_file` parameter.
pub fn dependency_analysis(manifest_file: Option<String>) -> (r: Result<DependencyAnalysis, AgentError>)
    ensures
        dependency_analysis_result(opt_text(manifest_file), r),
{
    let manifest_file = require_text(manifest_file, "manifest_file")?;
    let mut vulnerabilities: Vec<VulnerablePackage> = Vec::new();
    vulnerabilities.push(
        VulnerablePackage {
            package: String::from_str("old-crypto-lib"),
            version: String::from_str("1.2.3"),
            severity: String::from_str("high"),
            description: String::from_str("Known cryptographic vulnerability"),
        },
    );
    let recommendations = text_triple(
        "Update 5 outdated dependencies",
        "Remove 3 unused dependencies",
        "Replace vulnerable crypto library with secure alternative",
    );
    Ok(
        DependencyAnalysis {
            manifest_file,
            total: 42,
            outdated: 5,
            vulnerable: 2,
            unused: 3,
            vulnerabilities,
            recommendations,
            license_issues: Vec::new(),
        },
    )
}

/// An agent that reviews code and analyses security, performance and
/// dependencies.
#[derive(Debug)]
pub struct AnalysisAgent {
    id: AgentId,
    name: String,
    capabilities: CapabilitySet,
}

impl AnalysisAgent {
    /// The agent has exactly the analysis capabilities.
    #[verifier::type_invariant]
    closed spec fn has_analysis_capabilities(&self) -> bool {
        self.capabilities@ == analysis_agent_capabilities()
    }

    /// An analysis agent with a fresh random id and the four analysis
    /// capabilities.
    pub fn new(name: &str) -> (a: AnalysisAgent)
        ensures
            is_v4_id(a.agent_id()),
            a.name_view() == name@,
    {
        let mut capabilities = CapabilitySet::new();
        let c1 = Capability::new("code_review")
            .with_description("Perform comprehensive code review")
            .with_parameter(parameter(
                "files",
                ParameterType::Array(Box::new(ParameterType::String)),
                true,
                "Files to review",
            ));
        let c2 = Capability::new("security_analysis")
            .with_description("Analyze code for security vulnerabilities")
            .with_parameter(parameter("target_path", ParameterType::String, true, "Path to analyze for security issues"));
        let c3 = Capability::new("performance_analysis")
            .with_description("Analyze code for performance issues")
            .with_parameter(parameter("profile_data", ParameterType::Object, false, "Optional profiling data"));
        let c4 = Capability::new("dependency_analysis")
            .with_description("Analyze project dependencies")
            .with_parameter(parameter(
                "manifest_file",
                ParameterType::String,
                true,
                "Path to dependency manifest (Cargo.toml, package.json, etc.)",
            ));
        let ghost v1 = c1@;
        let ghost v2 = c2@;
        let ghost v3 = c3@;
        let ghost v4 = c4@;
        proof {
            let e = analysis_agent_capabilities();
            assert(v1.parameters =~= e[0].parameters);
            assert(v2.parameters =~= e[1].parameters);
            assert(v3.parameters =~= e[2].parameters);
            assert(v4.parameters =~= e[3].parameters);
            reveal_strlit("code_review");
            reveal_strlit("security_analysis");
            reveal_strlit("performance_analysis");
            reveal_strlit("dependency_analysis");
            assert(v1.name.len() == 11);
            assert(v2.name.len() == 17);
            assert(v3.name.len() == 20);
            assert(v4.name.len() == 19);
            lemma_add_new_name(Seq::empty(), v1);
            lemma_add_new_name(seq![v1], v2);
            lemma_add_new_name(seq![v1, v2], v3);
            lemma_add_new_name(seq![v1, v2, v3], v4);
            assert(seq![v1].push(v2) =~= seq![v1, v2]);
            assert(seq![v1, v2].push(v3) =~= seq![v1, v2, v3]);
            assert(seq![v1, v2, v3].push(v4) =~= seq![v1, v2, v3, v4]);
            assert(Seq::<CapabilityView>::empty().push(v1) =~= seq![v1]);
        }
        capabilities.add(c1);
        capabilities.add(c2);
        capabilities.add(c3);
        capabilities.add(c4);
        proof {
            assert(capabilities@ =~= analysis_agent_capabilities());
        }
        AnalysisAgent { id: new_id(), name: String::from_str(name), capabilities }
    }

    /// The agent's name as text.
    pub closed spec fn name_view(&self) -> Seq<char> {
        self.name@
    }

    /// The agent's id.
    pub closed spec fn agent_id(&self) -> AgentId {
        self.id
    }

    /// The agent's id.
    pub fn id(&self) -> (r: AgentId)
        ensures
            r == self.agent_id(),
    {
        self.id
    }

    /// The agent's type: an analysis agent.
    pub fn agent_type(&self) -> (r: AgentType)
        ensures
            r == AgentType::AnalysisAgent,
    {
        AgentType::AnalysisAgent
    }

    /// The agent's name.
    pub fn name(&self) -> (r: &str)
        ensures
            r@ == self.name_view(),
    {
        self.name.as_str()
    }

    /// What the agent does.
    pub fn description(&self) -> (r: &str)
        ensures
            r@ == "Specialized agent for code analysis, security review, and performance optimization"@,
    {
        "Specialized agent for code analysis, security review, and performance optimization"
    }

    /// The agent's capabilities.
    pub fn capabilities(&self) -> (r: &CapabilitySet)
        ensures
            r@ == analysis_agent_capabilities(),
    {
        proof {
            use_type_invariant(self);
        }
        &self.capabilities
    }

    /// Whether the agent offers every capability `task` requires.
    pub fn can_handle(&self, task: &Task) -> (r: bool)
        ensures
            r == meets_all(analysis_agent_capabilities(), task.required()),
    {
        proof {
            use_type_invariant(self);
        }
        let req = task.required_capabilities.as_slice();
        proof {
            assert(texts(req@) == task.required());
        }
        self.capabilities.matches_requirements(req)
    }

    /// The agent's health: always healthy.
    pub fn health_check(&self) -> (r: AgentHealth)
        ensures
            r@ is Healthy,
    {
        AgentHealth::Healthy
    }

    /// The operation a task type names, if the agent has it.
    pub fn operation(task_type: &str) -> (r: Option<AnalysisOperation>)
        ensures
            r == analysis_operation_for(task_type@),
    {
        if same_text(task_type, "code_review") {
            Some(AnalysisOperation::CodeReview)
        } else if same_text(task_type, "security_analysis") {
            Some(AnalysisOperation::SecurityAnalysis)
        } else if same_text(task_type, "performance_analysis") {
            Some(AnalysisOperation::PerformanceAnalysis)
        } else if same_text(task_type, "dependency_analysis") {
            Some(AnalysisOperation::DependencyAnalysis)
        } else {
            None
        }
    }

    /// The review of the files in the task's `files` array parameter.
    pub fn handle_code_review(&self, task: &Task) -> (r: Result<CodeReview, AgentError>)
        ensures
            code_review_result(texts_param(task.parameters@, "files"@), r),
    {
        code_review(text_list_parameter(task, "files"))
    }

    /// The security analysis of the task's `target_path` string parameter.
    pub fn handle_security_analysis(&self, task: &Task) -> (r: Result<SecurityAnalysis, AgentError>)
        ensures
            security_analysis_result(text_param(task.parameters@, "target_path"@), r),
    {
        security_analysis(text_parameter(task, "target_path"))
    }

    /// The performance report; it reads no parameter.
    pub fn handle_performance_analysis(&self, _task: &Task) -> (r: Result<PerformanceAnalysis, AgentError>)
        ensures
            r matches Ok(p) && performance_report(p),
    {
        Ok(performance_analysis())
    }

    /// The dependency analysis of the task's `manifest_file` string parameter.
    pub fn handle_dependency_analysis(&self, task: &Task) -> (r: Result<DependencyAnalysis, AgentError>)
        ensures
            dependency_analysis_result(text_param(task.parameters@, "manifest_file"@), r),
    {
        dependency_analysis(text_parameter(task, "manifest_file"))
    }

    /// The registry record for this agent, created at `created_at`.
    pub fn info(&self, created_at: std::time::SystemTime) -> (r: AgentInfo)
        ensures
            r.id == self.agent_id(),
            r@.agent_type == crate::agent::AgentTypeView::AnalysisAgent,
            r@.name == self.name_view(),
            r@.capabilities == analysis_agent_capabilities(),
            r@.health is Healthy,
            r.created_at == created_at,
    {
        proof {
            use_type_invariant(self);
        }
        AgentInfo::new(
            self.id,
            AgentType::AnalysisAgent,
            self.name.as_str(),
            self.description(),
            &self.capabilities,
            created_at,
        )
    }
}

} // verus!
