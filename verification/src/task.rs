use vstd::prelude::*;

pub use crate::capability::texts;
use crate::ids::{is_v4_id, new_id, TaskId};
use crate::text_map::TextMap;

verus! {

/// A JSON value, carried through the library without being inspected.
#[verifier::external_type_specification]
#[verifier::external_body]
pub struct ExJsonValue(serde_json::Value);

/// `Clone` of `serde_json::Value`, which parameters and results that are not
/// strings or arrays carry. The impl is derived, so the copy is the same JSON
/// value.
pub assume_specification[ <serde_json::Value as Clone>::clone ](v: &serde_json::Value) -> (r: serde_json::Value)
    ensures
        r == *v,
;

/// The value of a task parameter. Agents read parameters that are JSON
/// strings and JSON arrays; any other JSON value is carried as it is.
#[derive(Debug)]
pub enum ParamValue {
    /// A JSON string.
    Text(String),
    /// A JSON array, element by element.
    List(Vec<ParamValue>),
    /// Any other JSON value.
    Other(serde_json::Value),
}

/// The text of a parameter that is a string.
pub open spec fn param_text(v: ParamValue) -> Option<Seq<char>> {
    match v {
        ParamValue::Text(s) => Some(s@),
        _ => None,
    }
}

/// The texts among `items`, in order; elements that are not strings are
/// skipped.
pub open spec fn texts_among(items: Seq<ParamValue>) -> Seq<Seq<char>>
    decreases items.len(),
{
    if items.len() == 0 {
        Seq::empty()
    } else {
        let rest = texts_among(items.drop_last());
        match items.last() {
            ParamValue::Text(s) => rest.push(s@),
            _ => rest,
        }
    }
}

/// The texts among the elements of a parameter that is an array.
pub open spec fn param_texts(v: ParamValue) -> Option<Seq<Seq<char>>> {
    match v {
        ParamValue::List(items) => Some(texts_among(items@)),
        _ => None,
    }
}

impl Clone for ParamValue {
    /// A copy that reads the same: the same text or the same other JSON value,
    /// or an array with the same texts among its elements.
    fn clone(&self) -> (r: Self)
        ensures
            param_text(r) == param_text(*self),
            param_texts(r) == param_texts(*self),
            !(*self is List) ==> r == *self,
        decreases self,
    {
        match self {
            ParamValue::Text(s) => ParamValue::Text(s.clone()),
            ParamValue::List(items) => {
                let mut out: Vec<ParamValue> = Vec::new();
                let mut i: usize = 0;
                while i < items.len()
                    invariant
                        i <= items@.len(),
                        *self == ParamValue::List(*items),
                        texts_among(out@) == texts_among(items@.take(i as int)),
                    decreases items.len() - i,
                {
                    proof {
                        assert(decreases_to!(*items => items[i as int])) by {
                            vstd::std_specs::vec::axiom_vec_index_decreases(*items, i as int);
                        }
                        assert(decreases_to!(*self => (*self)->List_0));
                        assert(decreases_to!(*self => items[i as int]));
                        assert(items@.take(i + 1).drop_last() =~= items@.take(i as int));
                    }
                    let ghost o0 = out@;
                    let c = items[i].clone();
                    out.push(c);
                    proof {
                        assert(out@.drop_last() =~= o0);
                    }
                    i = i + 1;
                }
                proof {
                    assert(items@.take(i as int) =~= items@);
                }
                ParamValue::List(out)
            },
            ParamValue::Other(v) => ParamValue::Other(v.clone()),
        }
    }
}

/// The urgency of a task; higher priorities are scheduled first.
#[derive(Debug, Clone, Copy, PartialEq, Eq, PartialOrd, Ord, Hash, Structural)]
pub enum Priority {
    Low,
    Normal,
    High,
    Critical,
}

/// The numeric level of a priority: Low 1, Normal 2, High 3, Critical 4.
pub open spec fn priority_level(p: Priority) -> int {
    match p {
        Priority::Low => 1,
        Priority::Normal => 2,
        Priority::High => 3,
        Priority::Critical => 4,
    }
}

impl Priority {
    /// The numeric level: Low 1, Normal 2, High 3, Critical 4.
    pub fn level(&self) -> (r: u8)
        ensures
            r == priority_level(*self),
    {
        match self {
            Priority::Low => 1,
            Priority::Normal => 2,
            Priority::High => 3,
            Priority::Critical => 4,
        }
    }
}

impl Default for Priority {
    /// Normal priority.
    fn default() -> (p: Priority)
        ensures
            p == Priority::Normal,
    {
        Priority::Normal
    }
}

/// The state of a task.
#[derive(Debug, Clone)]
pub enum TaskStatus {
    Pending,
    Running,
    Completed,
    Failed(String),
    Cancelled,
}

/// A unit of work for an agent.
#[derive(Debug)]
pub struct Task {
    pub id: TaskId,
    pub task_type: String,
    pub description: String,
    pub parameters: TextMap<ParamValue>,
    pub required_capabilities: Vec<String>,
    pub priority: Priority,
    pub dependencies: Vec<TaskId>,
    pub metadata: TextMap<String>,
}

impl Task {
    /// The names of the capabilities the task requires.
    pub open spec fn required(&self) -> Seq<Seq<char>> {
        texts(self.required_capabilities@)
    }

    /// A task of the given type with a fresh random version-4 id, normal priority
    /// and no parameters, requirements, dependencies or metadata.
    pub fn new(task_type: &str, description: &str) -> (t: Task)
        ensures
            is_v4_id(t.id),
            t.task_type@ == task_type@,
            t.description@ == description@,
            t.parameters@ == Map::<Seq<char>, ParamValue>::empty(),
            t.required_capabilities@.len() == 0,
            t.priority == Priority::Normal,
            t.dependencies@.len() == 0,
            t.metadata@ == Map::<Seq<char>, String>::empty(),
    {
        Task {
            id: new_id(),
            task_type: String::from_str(task_type),
            description: String::from_str(description),
            parameters: TextMap::new(),
            required_capabilities: Vec::new(),
            priority: Priority::Normal,
            dependencies: Vec::new(),
            metadata: TextMap::new(),
        }
    }

    /// Sets parameter `key` to `value`, replacing any earlier value.
    pub fn with_parameter(self, key: &str, value: ParamValue) -> (t: Task)
        ensures
            t.parameters@ == self.parameters@.insert(key@, value),
            t.id == self.id,
            t.task_type == self.task_type,
            t.description == self.description,
            t.required_capabilities == self.required_capabilities,
            t.priority == self.priority,
            t.dependencies == self.dependencies,
            t.metadata == self.metadata,
    {
        let mut t = self;
        t.parameters.insert(String::from_str(key), value);
        t
    }

    /// Adds a required capability name.
    pub fn with_capability(self, capability: &str) -> (t: Task)
        ensures
            t.required() == self.required().push(capability@),
            t.id == self.id,
            t.task_type == self.task_type,
            t.description == self.description,
            t.parameters == self.parameters,
            t.priority == self.priority,
            t.dependencies == self.dependencies,
            t.metadata == self.metadata,
    {
        let mut t = self;
        let ghost before = t.required_capabilities@;
        let c = String::from_str(capability);
        t.required_capabilities.push(c);
        proof {
            assert(t.required_capabilities@ == before.push(c));
            assert(texts(t.required_capabilities@) =~= texts(before).push(capability@));
        }
        t
    }

    /// Sets the priority.
    pub fn with_priority(self, priority: Priority) -> (t: Task)
        ensures
            t == (Task { priority, ..self }),
    {
        let mut t = self;
        t.priority = priority;
        t
    }

    /// Adds a task that must complete before this one may run.
    pub fn with_dependency(self, task_id: TaskId) -> (t: Task)
        ensures
            t.dependencies@ == self.dependencies@.push(task_id),
            t.id == self.id,
            t.task_type == self.task_type,
            t.description == self.description,
            t.parameters == self.parameters,
            t.required_capabilities == self.required_capabilities,
            t.priority == self.priority,
            t.metadata == self.metadata,
    {
        let mut t = self;
        t.dependencies.push(task_id);
        t
    }

    /// Sets metadata `key` to `value`, replacing any earlier value.
    pub fn with_metadata(self, key: &str, value: &str) -> (t: Task)
        ensures
            t.metadata@.dom() == self.metadata@.dom().insert(key@),
            t.metadata@[key@]@ == value@,
            forall|k: Seq<char>| k != key@ && #[trigger] self.metadata@.contains_key(k) ==> t.metadata@[k] == self.metadata@[k],
            t.id == self.id,
            t.task_type == self.task_type,
            t.description == self.description,
            t.parameters == self.parameters,
            t.required_capabilities == self.required_capabilities,
            t.priority == self.priority,
            t.dependencies == self.dependencies,
    {
        let mut t = self;
        let v = String::from_str(value);
        t.metadata.insert(String::from_str(key), v);
        proof {
            assert(t.metadata@.dom() =~= self.metadata@.dom().insert(key@));
        }
        t
    }
}

fn copy_texts(v: &Vec<String>) -> (r: Vec<String>)
    ensures
        texts(r@) == texts(v@),
{
    let mut r: Vec<String> = Vec::new();
    let mut i: usize = 0;
    while i < v.len()
        invariant
            i <= v@.len(),
            texts(r@) == texts(v@).take(i as int),
        decreases v.len() - i,
    {
        let ghost r0 = r@;
        let s = v[i].clone();
        r.push(s);
        proof {
            assert(r@ =~= r0.push(s));
            assert(texts(r@) =~= texts(r0).push(s@));
            assert(texts(r@) =~= texts(v@).take(i + 1));
        }
        i = i + 1;
    }
    proof {
        assert(texts(v@).take(i as int) =~= texts(v@));
    }
    r
}

fn copy_ids(v: &Vec<TaskId>) -> (r: Vec<TaskId>)
    ensures
        r@ == v@,
{
    let mut r: Vec<TaskId> = Vec::new();
    let mut i: usize = 0;
    while i < v.len()
        invariant
            i <= v@.len(),
            r@ == v@.take(i as int),
        decreases v.len() - i,
    {
        r.push(v[i]);
        proof {
            assert(r@ =~= v@.take(i + 1));
        }
        i = i + 1;
    }
    proof {
        assert(v@.take(i as int) =~= v@);
    }
    r
}

impl Clone for Task {
    /// A copy: the same id, type, description, requirements, priority,
    /// dependencies and metadata, and parameters under the same keys that read
    /// the same.
    fn clone(&self) -> (r: Self)
        ensures
            r.id == self.id,
            r.task_type@ == self.task_type@,
            r.description@ == self.description@,
            r.required() == self.required(),
            r.priority == self.priority,
            r.dependencies@ == self.dependencies@,
            r.parameters@.dom() == self.parameters@.dom(),
            forall|k: Seq<char>| #[trigger] r.parameters@.contains_key(k) ==> param_text(r.parameters@[k])
                == param_text(self.parameters@[k]) && param_texts(r.parameters@[k]) == param_texts(
                self.parameters@[k],
            ),
            r.metadata@ == self.metadata@,
    {
        let metadata = self.metadata.clone();
        proof {
            assert(metadata@ =~= self.metadata@);
        }
        Task {
            id: self.id,
            task_type: self.task_type.clone(),
            description: self.description.clone(),
            parameters: self.parameters.clone(),
            required_capabilities: copy_texts(&self.required_capabilities),
            priority: self.priority,
            dependencies: copy_ids(&self.dependencies),
            metadata,
        }
    }
}

/// The outcome of executing a task.
#[derive(Debug, Clone)]
pub struct TaskResult {
    pub task_id: TaskId,
    pub status: TaskStatus,
    pub output: Option<serde_json::Value>,
    pub error: Option<String>,
    pub execution_time_ms: Option<u64>,
    pub metadata: TextMap<String>,
}

impl TaskResult {
    /// A completed result carrying `output`.
    pub fn success(task_id: TaskId, output: Option<serde_json::Value>) -> (r: TaskResult)
        ensures
            r.task_id == task_id,
            r.status is Completed,
            r.output == output,
            r.error is None,
            r.execution_time_ms is None,
            r.metadata@ == Map::<Seq<char>, String>::empty(),
    {
        TaskResult {
            task_id,
            status: TaskStatus::Completed,
            output,
            error: None,
            execution_time_ms: None,
            metadata: TextMap::new(),
        }
    }

    /// A failed result whose status and error both carry `error`.
    pub fn failure(task_id: TaskId, error: &str) -> (r: TaskResult)
        ensures
            r.task_id == task_id,
            r.status matches TaskStatus::Failed(e) && e@ == error@,
            r.output is None,
            r.error matches Some(e) && e@ == error@,
            r.execution_time_ms is None,
            r.metadata@ == Map::<Seq<char>, String>::empty(),
    {
        TaskResult {
            task_id,
            status: TaskStatus::Failed(String::from_str(error)),
            output: None,
            error: Some(String::from_str(error)),
            execution_time_ms: None,
            metadata: TextMap::new(),
        }
    }

    /// The result of executing task `task_id` in `elapsed_ms` milliseconds: a
    /// success carrying the output, or a failure carrying the error's text.
    pub fn finished(task_id: TaskId, outcome: Result<serde_json::Value, String>, elapsed_ms: u64) -> (r:
        TaskResult)
        ensures
            r.task_id == task_id,
            r.execution_time_ms == Some(elapsed_ms),
            r.metadata@ == Map::<Seq<char>, String>::empty(),
            match outcome {
                Ok(v) => r.status is Completed && r.output == Some(v) && r.error is None,
                Err(e) => {
                    &&& r.status matches TaskStatus::Failed(m) && m@ == e@
                    &&& r.output is None
                    &&& r.error matches Some(m2) && m2@ == e@
                },
            },
    {
        match outcome {
            Ok(output) => TaskResult::success(task_id, Some(output)).with_execution_time(elapsed_ms),
            Err(e) => TaskResult::failure(task_id, e.as_str()).with_execution_time(elapsed_ms),
        }
    }

    /// Records how long the execution took.
    pub fn with_execution_time(self, time_ms: u64) -> (r: TaskResult)
        ensures
            r == (TaskResult { execution_time_ms: Some(time_ms), ..self }),
    {
        let mut r = self;
        r.execution_time_ms = Some(time_ms);
        r
    }

    /// Whether the task completed.
    pub fn is_success(&self) -> (r: bool)
        ensures
            r == (self.status is Completed),
    {
        match self.status {
            TaskStatus::Completed => true,
            _ => false,
        }
    }

    /// Whether the task failed.
    pub fn is_failure(&self) -> (r: bool)
        ensures
            r == (self.status is Failed),
    {
        match self.status {
            TaskStatus::Failed(_) => true,
            _ => false,
        }
    }
}

} // verus!
