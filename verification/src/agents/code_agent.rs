use vstd::prelude::*;

use super::text::{decimal, decimal_text, same_text};
use super::{
    capability_spec, is_missing_parameter, opt_text, opt_texts, param_spec, parameter, require_text,
    require_texts, text_list_parameter, text_param, text_parameter, text_triple, texts_param,
};
use crate::agent::{AgentHealth, AgentInfo, AgentType};
use crate::capability::{add_one, meets_all, texts, Capability, CapabilitySet, CapabilityView, ParameterType};
use crate::error::AgentError;
use crate::ids::{is_v4_id, new_id, AgentId};
use crate::task::Task;

verus! {

/// The capabilities of a code agent.
pub open spec fn code_agent_capabilities() -> Seq<CapabilityView> {
    seq![
        capability_spec(
            "code_generation"@,
            "Generate code based on specifications"@,
            seq![
                param_spec("language"@, ParameterType::String, true, "Programming language to generate code in"@),
                param_spec("specification"@, ParameterType::String, true, "Code specification or requirements"@),
            ],
        ),
        capability_spec(
            "code_modification"@,
            "Modify existing code"@,
            seq![
                param_spec("file_path"@, ParameterType::String, true, "Path to the file to modify"@),
                param_spec("changes"@, ParameterType::String, true, "Description of changes to make"@),
            ],
        ),
        capability_spec(
            "code_refactoring"@,
            "Refactor code to improve structure and maintainability"@,
            seq![
                param_spec(
                    "target_files"@,
                    ParameterType::Array(Box::new(ParameterType::String)),
                    true,
                    "Files to refactor"@,
                ),
            ],
        ),
    ]
}

/// The operations of a code agent.
#[derive(Debug, Clone, Copy, PartialEq, Eq, Structural)]
pub enum CodeOperation {
    CodeGeneration,
    CodeModification,
    CodeRefactoring,
}

/// The operation a task type names, if the code agent has it.
pub open spec fn code_operation_for(task_type: Seq<char>) -> Option<CodeOperation> {
    if task_type == "code_generation"@ {
        Some(CodeOperation::CodeGeneration)
    } else if task_type == "code_modification"@ {
        Some(CodeOperation::CodeModification)
    } else if task_type == "code_refactoring"@ {
        Some(CodeOperation::CodeRefactoring)
    } else {
        None
    }
}

/// The code generated for `specification` in `language`.
pub open spec fn generated_code_text(language: Seq<char>, specification: Seq<char>) -> Seq<char> {
    if language == "rust"@ {
        "// Generated Rust code for: "@ + specification
            + "\nfn main() {\n    println!(\"Hello, world!\");\n}"@
    } else if language == "python"@ {
        "# Generated Python code for: "@ + specification
            + "\ndef main():\n    print(\"Hello, world!\")"@
    } else if language == "javascript"@ {
        "// Generated JavaScript code for: "@ + specification
            + "\nconsole.log(\"Hello, world!\");"@
    } else {
        "// Generated code for: "@ + specification + " (language: "@ + language
            + ")\n// Code generation not implemented for this language"@
    }
}

/// The file extension of code in `language`.
pub open spec fn file_extension_text(language: Seq<char>) -> Seq<char> {
    if language == "rust"@ {
        "rs"@
    } else if language == "python"@ {
        "py"@
    } else if language == "javascript"@ {
        "js"@
    } else {
        "txt"@
    }
}

/// What a code generation produces.
#[derive(Debug)]
pub struct CodeGeneration {
    pub generated_code: String,
    pub language: String,
    pub specification: String,
    pub file_extension: String,
}

/// What a code modification produces.
#[derive(Debug)]
pub struct CodeModification {
    pub file_path: String,
    pub changes_applied: String,
    pub status: String,
    pub diff: String,
}

/// What a refactoring produces: each file with its note, how many files, a
/// summary, and the improvements made.
#[derive(Debug)]
pub struct CodeRefactoring {
    pub refactored_files: Vec<(String, String)>,
    pub file_count: usize,
    pub summary: String,
    pub improvements: Vec<String>,
}

/// The code generated for `specification` in `language`.
pub fn generated_code(language: &String, specification: &String) -> (r: String)
    ensures
        r@ == generated_code_text(language@, specification@),
{
    if same_text(language.as_str(), "rust") {
        let mut s = String::from_str("// Generated Rust code for: ");
        s.append(specification.as_str());
        s.append("\nfn main() {\n    println!(\"Hello, world!\");\n}");
        s
    } else if same_text(language.as_str(), "python") {
        let mut s = String::from_str("# Generated Python code for: ");
        s.append(specification.as_str());
        s.append("\ndef main():\n    print(\"Hello, world!\")");
        s
    } else if same_text(language.as_str(), "javascript") {
        let mut s = String::from_str("// Generated JavaScript code for: ");
        s.append(specification.as_str());
        s.append("\nconsole.log(\"Hello, world!\");");
        s
    } else {
        let mut s = String::from_str("// Generated code for: ");
        s.append(specification.as_str());
        s.append(" (language: ");
        s.append(language.as_str());
        s.append(")\n// Code generation not implemented for this language");
        s
    }
}

/// The file extension of code in `language`.
pub fn file_extension(language: &String) -> (r: String)
    ensures
        r@ == file_extension_text(language@),
{
    if same_text(language.as_str(), "rust") {
        String::from_str("rs")
    } else if same_text(language.as_str(), "python") {
        String::from_str("py")
    } else if same_text(language.as_str(), "javascript") {
        String::from_str("js")
    } else {
        String::from_str("txt")
    }
}

/// What code generation gives for the `language` and `specification` texts:
/// an error naming the first that is missing, or the generated code.
pub open spec fn code_generation_result(
    language: Option<Seq<char>>,
    specification: Option<Seq<char>>,
    r: Result<CodeGeneration, AgentError>,
) -> bool {
    match language {
        None => r matches Err(e) && is_missing_parameter(e, "language"@),
        Some(l) => match specification {
            None => r matches Err(e) && is_missing_parameter(e, "specification"@),
            Some(s) => r matches Ok(g) && g.language@ == l && g.specification@ == s
                && g.generated_code@ == generated_code_text(l, s) && g.file_extension@
                == file_extension_text(l),
        },
    }
}

/// Code generation from the `language` and `specification` parameters, the
/// language checked first.
pub fn code_generation(language: Option<String>, specification: Option<String>) -> (r: Result<
    CodeGeneration,
    AgentError,
>)
    ensures
        code_generation_result(opt_text(language), opt_text(specification), r),
{
    let language = require_text(language, "language")?;
    let specification = require_text(specification, "specification")?;
    let generated_code = generated_code(&language, &specification);
    let file_extension = file_extension(&language);
    Ok(CodeGeneration { generated_code, language, specification, file_extension })
}

/// The diff recorded for a modification.
pub open spec fn modification_diff(changes: Seq<char>) -> Seq<char> {
    "+ // Modified: "@ + changes
}

/// What code modification gives for the `file_path` and `changes` texts: an
/// error naming the first that is missing, or the modification.
pub open spec fn code_modification_result(
    file_path: Option<Seq<char>>,
    changes: Option<Seq<char>>,
    r: Result<CodeModification, AgentError>,
) -> bool {
    match file_path {
        None => r matches Err(e) && is_missing_parameter(e, "file_path"@),
        Some(p) => match changes {
            None => r matches Err(e) && is_missing_parameter(e, "changes"@),
            Some(c) => r matches Ok(m) && m.file_path@ == p && m.changes_applied@ == c && m.status@
                == "modified"@ && m.diff@ == modification_diff(c),
        },
    }
}

/// Code modification from the `file_path` and `changes` parameters, the path
/// checked first.
pub fn code_modification(file_path: Option<String>, changes: Option<String>) -> (r: Result<
    CodeModification,
    AgentError,
>)
    ensures
        code_modification_result(opt_text(file_path), opt_text(changes), r),
{
    let file_path = require_text(file_path, "file_path")?;
    let changes = require_text(changes, "changes")?;
    let mut diff = String::from_str("+ // Modified: ");
    diff.append(changes.as_str());
    Ok(CodeModification { file_path, changes_applied: changes, status: String::from_str("modified"), diff })
}

/// The note recorded for a refactored file.
pub open spec fn refactoring_note(path: Seq<char>) -> Seq<char> {
    "// Refactored: "@ + path
}

/// The summary of a refactoring of `n` files.
pub open spec fn refactoring_summary(n: nat) -> Seq<char> {
    "Refactored "@ + decimal_text(n) + " files"@
}

/// The improvements every refactoring reports.
pub open spec fn refactoring_improvements() -> Seq<Seq<char>> {
    seq!["Improved code structure"@, "Enhanced readability"@, "Reduced complexity"@]
}

/// What refactoring gives for the `target_files` texts: an error when they are
/// missing, or each file with its note, in order.
pub open spec fn code_refactoring_result(
    target_files: Option<Seq<Seq<char>>>,
    r: Result<CodeRefactoring, AgentError>,
) -> bool {
    match target_files {
        None => r matches Err(e) && is_missing_parameter(e, "target_files"@),
        Some(fs) => r matches Ok(out) && out.file_count == fs.len() && out.summary@
            == refactoring_summary(fs.len()) && texts(out.improvements@) == refactoring_improvements()
            && out.refactored_files@.len() == fs.len() && forall|i: int|
            0 <= i < fs.len() ==> (#[trigger] out.refactored_files@[i]).0@ == fs[i]
                && out.refactored_files@[i].1@ == refactoring_note(fs[i]),
    }
}

/// Refactoring of the files in the `target_files` parameter: each file with its
/// note, in order.
pub fn code_refactoring(target_files: Option<Vec<String>>) -> (r: Result<
    CodeRefactoring,
    AgentError,
>)
    ensures
        code_refactoring_result(opt_texts(target_files), r),
{
    let files = require_texts(target_files, "target_files")?;
    let mut refactored: Vec<(String, String)> = Vec::new();
    let mut i: usize = 0;
    while i < files.len()
        invariant
            i <= files@.len(),
            refactored@.len() == i,
            forall|j: int|
                0 <= j < i ==> (#[trigger] refactored@[j]).0@ == files@[j]@ && refactored@[j].1@
                    == refactoring_note(files@[j]@),
        decreases files.len() - i,
    {
        let mut note = String::from_str("// Refactored: ");
        note.append(files[i].as_str());
        refactored.push((files[i].clone(), note));
        i = i + 1;
    }
    let mut summary = String::from_str("Refactored ");
    let count = decimal(files.len());
    summary.append(count.as_str());
    summary.append(" files");
    let improvements = text_triple("Improved code structure", "Enhanced readability", "Reduced complexity");
    Ok(CodeRefactoring { refactored_files: refactored, file_count: files.len(), summary, improvements })
}

/// An agent that generates, modifies and refactors code.
#[derive(Debug)]
pub struct CodeAgent {
    id: AgentId,
    name: String,
    capabilities: CapabilitySet,
}

impl CodeAgent {
    /// A code agent has exactly the code capabilities.
    #[verifier::type_invariant]
    closed spec fn has_code_capabilities(&self) -> bool {
        self.capabilities@ == code_agent_capabilities()
    }

    /// A code agent with a fresh random id and the three code capabilities.
    pub fn new(name: &str) -> (a: CodeAgent)
        ensures
            is_v4_id(a.agent_id()),
            a.name_view() == name@,
    {
        let mut capabilities = CapabilitySet::new();
        let c1 = Capability::new("code_generation")
            .with_description("Generate code based on specifications")
            .with_parameter(parameter("language", ParameterType::String, true, "Programming language to generate code in"))
            .with_parameter(parameter("specification", ParameterType::String, true, "Code specification or requirements"));
        let c2 = Capability::new("code_modification")
            .with_description("Modify existing code")
            .with_parameter(parameter("file_path", ParameterType::String, true, "Path to the file to modify"))
            .with_parameter(parameter("changes", ParameterType::String, true, "Description of changes to make"));
        let c3 = Capability::new("code_refactoring")
            .with_description("Refactor code to improve structure and maintainability")
            .with_parameter(parameter(
                "target_files",
                ParameterType::Array(Box::new(ParameterType::String)),
                true,
                "Files to refactor",
            ));
        let ghost v1 = c1@;
        let ghost v2 = c2@;
        let ghost v3 = c3@;
        proof {
            let e = code_agent_capabilities();
            assert(v1.parameters =~= e[0].parameters);
            assert(v2.parameters =~= e[1].parameters);
            assert(v3.parameters =~= e[2].parameters);
            assert(v1 == e[0]);
            assert(v2 == e[1]);
            assert(v3 == e[2]);
            reveal_strlit("code_generation");
            reveal_strlit("code_modification");
            reveal_strlit("code_refactoring");
            assert(v1.name.len() == 15);
            assert(v2.name.len() == 17);
            assert(v3.name[5] == 'r');
            assert(v2.name[5] == 'm');
        }
        capabilities.add(c1);
        capabilities.add(c2);
        proof {
            assert(v2.name != v1.name);
            assert(!seq![v1].contains(v2)) by {
                if seq![v1].contains(v2) {
                    assert(seq![v1][0] == v2);
                }
            }
        }
        capabilities.add(c3);
        proof {
            let s = add_one(Seq::empty(), v1);
            assert(s =~= seq![v1]);
            assert(add_one(s, v2) =~= seq![v1, v2]);
            assert(v3.name != v1.name && v3.name != v2.name);
            assert(!seq![v1, v2].contains(v3)) by {
                if seq![v1, v2].contains(v3) {
                    let i = choose|i: int| 0 <= i < 2 && seq![v1, v2][i] == v3;
                }
            }
            assert(capabilities@ =~= code_agent_capabilities());
        }
        CodeAgent { id: new_id(), name: String::from_str(name), capabilities }
    }

    /// The agent's name as text.
    pub closed spec fn name_view(&self) -> Seq<char> {
        self.name@
    }

    /// The agent's id.
    pub closed spec fn agent_id(&self) -> AgentId {
        self.id
    }

    /// The agent's id.
    pub fn id(&self) -> (r: AgentId)
        ensures
            r == self.agent_id(),
    {
        self.id
    }

    /// The agent's type: a code agent.
    pub fn agent_type(&self) -> (r: AgentType)
        ensures
            r == AgentType::CodeAgent,
    {
        AgentType::CodeAgent
    }

    /// The agent's name.
    pub fn name(&self) -> (r: &str)
        ensures
            r@ == self.name_view(),
    {
        self.name.as_str()
    }

    /// What the agent does.
    pub fn description(&self) -> (r: &str)
        ensures
            r@ == "Specialized agent for code generation, modification, and refactoring"@,
    {
        "Specialized agent for code generation, modification, and refactoring"
    }

    /// The agent's capabilities.
    pub fn capabilities(&self) -> (r: &CapabilitySet)
        ensures
            r@ == code_agent_capabilities(),
    {
        proof {
            use_type_invariant(self);
        }
        &self.capabilities
    }

    /// Whether the agent offers every capability `task` requires.
    pub fn can_handle(&self, task: &Task) -> (r: bool)
        ensures
            r == meets_all(code_agent_capabilities(), task.required()),
    {
        proof {
            use_type_invariant(self);
        }
        let req = task.required_capabilities.as_slice();
        proof {
            assert(texts(req@) == task.required());
        }
        self.capabilities.matches_requirements(req)
    }

    /// The agent's health: always healthy.
    pub fn health_check(&self) -> (r: AgentHealth)
        ensures
            r@ is Healthy,
    {
        AgentHealth::Healthy
    }

    /// The operation a task type names, if the agent has it.
    pub fn operation(task_type: &str) -> (r: Option<CodeOperation>)
        ensures
            r == code_operation_for(task_type@),
    {
        if same_text(task_type, "code_generation") {
            Some(CodeOperation::CodeGeneration)
        } else if same_text(task_type, "code_modification") {
            Some(CodeOperation::CodeModification)
        } else if same_text(task_type, "code_refactoring") {
            Some(CodeOperation::CodeRefactoring)
        } else {
            None
        }
    }

    /// Code generation from the task's `language` and `specification` string
    /// parameters.
    pub fn handle_code_generation(&self, task: &Task) -> (r: Result<CodeGeneration, AgentError>)
        ensures
            code_generation_result(
                text_param(task.parameters@, "language"@),
                text_param(task.parameters@, "specification"@),
                r,
            ),
    {
        code_generation(text_parameter(task, "language"), text_parameter(task, "specification"))
    }

    /// Code modification from the task's `file_path` and `changes` string
    /// parameters.
    pub fn handle_code_modification(&self, task: &Task) -> (r: Result<CodeModification, AgentError>)
        ensures
            code_modification_result(
                text_param(task.parameters@, "file_path"@),
                text_param(task.parameters@, "changes"@),
                r,
            ),
    {
        code_modification(text_parameter(task, "file_path"), text_parameter(task, "changes"))
    }

    /// Refactoring of the files in the task's `target_files` array parameter.
    pub fn handle_code_refactoring(&self, task: &Task) -> (r: Result<CodeRefactoring, AgentError>)
        ensures
            code_refactoring_result(texts_param(task.parameters@, "target_files"@), r),
    {
        code_refactoring(text_list_parameter(task, "target_files"))
    }

    /// The registry record for this agent, created at `created_at`.
    pub fn info(&self, created_at: std::time::SystemTime) -> (r: AgentInfo)
        ensures
            r.id == self.agent_id(),
            r@.agent_type == crate::agent::AgentTypeView::CodeAgent,
            r@.name == self.name_view(),
            r@.capabilities == code_agent_capabilities(),
            r@.health is Healthy,
            r.created_at == created_at,
    {
        proof {
            use_type_invariant(self);
        }
        AgentInfo::new(
            self.id,
            AgentType::CodeAgent,
            self.name.as_str(),
            self.description(),
            &self.capabilities,
            created_at,
        )
    }
}

} // verus!
