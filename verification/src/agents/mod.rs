//! The built-in agents: their capabilities and the work their operations do,
//! up to the JSON documents that report the work.
pub mod analysis_agent;
pub mod code_agent;
pub mod test_agent;
pub mod text;

pub use analysis_agent::AnalysisAgent;
pub use code_agent::CodeAgent;
pub use test_agent::TestAgent;

use vstd::prelude::*;

use crate::capability::{
    add_one, default_version, Capability, CapabilityParameter, CapabilityView, ParameterType, ParameterView,
};
use crate::error::AgentError;
use crate::ids::TaskId;
use crate::capability::texts;
use crate::task::{param_text, param_texts, texts_among, ParamValue, Task, TaskResult};

verus! {

/// A parameter with a description.
pub open spec fn param_spec(
    name: Seq<char>,
    param_type: ParameterType,
    required: bool,
    description: Seq<char>,
) -> ParameterView {
    ParameterView { name, param_type, required, description: Some(description) }
}

/// A capability of the default version with a description.
pub open spec fn capability_spec(
    name: Seq<char>,
    description: Seq<char>,
    parameters: Seq<ParameterView>,
) -> CapabilityView {
    CapabilityView { name, version: default_version(), description: Some(description), parameters }
}

/// Adding a capability whose name no member has appends it.
pub proof fn lemma_add_new_name(s: Seq<CapabilityView>, c: CapabilityView)
    requires
        forall|i: int| 0 <= i < s.len() ==> #[trigger] s[i].name != c.name,
    ensures
        add_one(s, c) == s.push(c),
{
    if s.contains(c) {
        let i = choose|i: int| 0 <= i < s.len() && s[i] == c;
        assert(s[i].name == c.name);
    }
}

/// Builds a described parameter.
pub fn parameter(name: &str, param_type: ParameterType, required: bool, description: &str) -> (p:
    CapabilityParameter)
    ensures
        p@ == param_spec(name@, param_type, required, description@),
{
    CapabilityParameter {
        name: String::from_str(name),
        param_type,
        required,
        description: Some(String::from_str(description)),
    }
}

/// The message of a task whose type an agent does not handle.
pub open spec fn unsupported_message(task_type: Seq<char>) -> Seq<char> {
    "Unsupported task type: "@ + task_type
}

/// The failed result for a task whose type an agent does not handle.
pub fn unsupported_task(task_id: TaskId, task_type: &str) -> (r: TaskResult)
    ensures
        r.task_id == task_id,
        r.status matches crate::task::TaskStatus::Failed(e) && e@ == unsupported_message(task_type@),
        r.error matches Some(e) && e@ == unsupported_message(task_type@),
        r.output is None,
        r.execution_time_ms is None,
{
    let mut m = String::from_str("Unsupported task type: ");
    m.append(task_type);
    TaskResult::failure(task_id, m.as_str())
}

/// The message for a parameter that a task lacks.
pub open spec fn missing_parameter_message(name: Seq<char>) -> Seq<char> {
    "Missing '"@ + name + "' parameter"@
}

/// Whether `e` reports that the task lacks parameter `name`.
pub open spec fn is_missing_parameter(e: AgentError, name: Seq<char>) -> bool {
    e matches AgentError::InvalidTaskConfig(m) && m@ == missing_parameter_message(name)
}

/// The error for a parameter that a task lacks.
pub fn missing_parameter(name: &str) -> (e: AgentError)
    ensures
        is_missing_parameter(e, name@),
{
    let mut m = String::from_str("Missing '");
    m.append(name);
    m.append("' parameter");
    AgentError::InvalidTaskConfig(m)
}

/// What reading a required text gives: the text, or an error naming the
/// missing parameter.
pub open spec fn text_result(v: Option<Seq<char>>, name: Seq<char>, r: Result<String, AgentError>) -> bool {
    match v {
        Some(t) => r matches Ok(s) && s@ == t,
        None => r matches Err(e) && is_missing_parameter(e, name),
    }
}

/// What reading a required list of texts gives: the texts, or an error naming
/// the missing parameter.
pub open spec fn texts_result(
    v: Option<Seq<Seq<char>>>,
    name: Seq<char>,
    r: Result<Vec<String>, AgentError>,
) -> bool {
    match v {
        Some(t) => r matches Ok(s) && texts(s@) == t,
        None => r matches Err(e) && is_missing_parameter(e, name),
    }
}

/// `v`'s text, or an error naming the missing parameter.
pub fn require_text(v: Option<String>, name: &str) -> (r: Result<String, AgentError>)
    ensures
        text_result(opt_text(v), name@, r),
{
    match v {
        Some(s) => Ok(s),
        None => Err(missing_parameter(name)),
    }
}

/// `v`'s texts, or an error naming the missing parameter.
pub fn require_texts(v: Option<Vec<String>>, name: &str) -> (r: Result<Vec<String>, AgentError>)
    ensures
        texts_result(opt_texts(v), name@, r),
{
    match v {
        Some(s) => Ok(s),
        None => Err(missing_parameter(name)),
    }
}

/// The text of a possibly absent string.
pub open spec fn opt_text(o: Option<String>) -> Option<Seq<char>> {
    match o {
        Some(s) => Some(s@),
        None => None,
    }
}

/// The texts of a possibly absent list of strings.
pub open spec fn opt_texts(o: Option<Vec<String>>) -> Option<Seq<Seq<char>>> {
    match o {
        Some(v) => Some(texts(v@)),
        None => None,
    }
}

/// The text of parameter `key` when it is a string.
pub open spec fn text_param(params: Map<Seq<char>, ParamValue>, key: Seq<char>) -> Option<Seq<char>> {
    if params.contains_key(key) {
        param_text(params[key])
    } else {
        None
    }
}

/// The texts among the elements of parameter `key` when it is an array.
pub open spec fn texts_param(params: Map<Seq<char>, ParamValue>, key: Seq<char>) -> Option<
    Seq<Seq<char>>,
> {
    if params.contains_key(key) {
        param_texts(params[key])
    } else {
        None
    }
}

/// The text of parameter `key` when it is a string; `None` when the task has
/// no such parameter or it is not a string.
pub fn text_parameter(task: &Task, key: &str) -> (r: Option<String>)
    ensures
        opt_text(r) == text_param(task.parameters@, key@),
{
    match task.parameters.get(key) {
        Some(v) => match v {
            ParamValue::Text(s) => Some(s.clone()),
            _ => None,
        },
        None => None,
    }
}

/// The string elements, in order, of parameter `key` when it is an array
/// (elements that are not strings are skipped); `None` when the task has no
/// such parameter or it is not an array.
pub fn text_list_parameter(task: &Task, key: &str) -> (r: Option<Vec<String>>)
    ensures
        opt_texts(r) == texts_param(task.parameters@, key@),
{
    match task.parameters.get(key) {
        Some(v) => match v {
            ParamValue::List(items) => {
                let mut out: Vec<String> = Vec::new();
                let mut i: usize = 0;
                while i < items.len()
                    invariant
                        i <= items@.len(),
                        texts(out@) == texts_among(items@.take(i as int)),
                    decreases items.len() - i,
                {
                    proof {
                        assert(items@.take(i + 1).drop_last() =~= items@.take(i as int));
                        assert(items@.take(i + 1).last() == items@[i as int]);
                    }
                    match &items[i] {
                        ParamValue::Text(s) => {
                            let ghost o0 = out@;
                            let c = s.clone();
                            out.push(c);
                            proof {
                                assert(out@ =~= o0.push(c));
                                assert(texts(out@) =~= texts(o0).push(c@));
                            }
                        },
                        _ => {},
                    }
                    i = i + 1;
                }
                proof {
                    assert(items@.take(i as int) =~= items@);
                }
                Some(out)
            },
            _ => None,
        },
        None => None,
    }
}

/// The texts `a` and `b`, in order.
pub fn text_pair(a: &str, b: &str) -> (r: Vec<String>)
    ensures
        texts(r@) == seq![a@, b@],
{
    let mut r: Vec<String> = Vec::new();
    r.push(String::from_str(a));
    r.push(String::from_str(b));
    proof {
        assert(texts(r@) =~= seq![a@, b@]);
    }
    r
}

/// The texts `a`, `b` and `c`, in order.
pub fn text_triple(a: &str, b: &str, c: &str) -> (r: Vec<String>)
    ensures
        texts(r@) == seq![a@, b@, c@],
{
    let mut r: Vec<String> = Vec::new();
    r.push(String::from_str(a));
    r.push(String::from_str(b));
    r.push(String::from_str(c));
    proof {
        assert(texts(r@) =~= seq![a@, b@, c@]);
    }
    r
}

} // verus!
