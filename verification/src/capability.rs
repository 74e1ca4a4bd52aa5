use vstd::prelude::*;

verus! {

/// The type of a capability parameter.
#[derive(Debug, PartialEq, Eq, Hash)]
pub enum ParameterType {
    String,
    Integer,
    Float,
    Boolean,
    Array(Box<ParameterType>),
    Object,
}

impl ParameterType {
    /// Structural equality of two parameter types.
    pub fn same_as(&self, other: &ParameterType) -> (r: bool)
        ensures
            r == (*self == *other),
        decreases self,
    {
        match (self, other) {
            (ParameterType::String, ParameterType::String) => true,
            (ParameterType::Integer, ParameterType::Integer) => true,
            (ParameterType::Float, ParameterType::Float) => true,
            (ParameterType::Boolean, ParameterType::Boolean) => true,
            (ParameterType::Object, ParameterType::Object) => true,
            (ParameterType::Array(a), ParameterType::Array(b)) => {
                let inner: &ParameterType = a;
                inner.same_as(b)
            },
            _ => false,
        }
    }
}

impl Clone for ParameterType {
    fn clone(&self) -> (r: Self)
        ensures
            r == *self,
        decreases self,
    {
        match self {
            ParameterType::String => ParameterType::String,
            ParameterType::Integer => ParameterType::Integer,
            ParameterType::Float => ParameterType::Float,
            ParameterType::Boolean => ParameterType::Boolean,
            ParameterType::Object => ParameterType::Object,
            ParameterType::Array(inner) => {
                let i: &ParameterType = inner;
                ParameterType::Array(Box::new(i.clone()))
            },
        }
    }
}

/// A parameter that a capability accepts.
#[derive(Debug, PartialEq, Eq, Hash)]
pub struct CapabilityParameter {
    pub name: String,
    pub param_type: ParameterType,
    pub required: bool,
    pub description: Option<String>,
}

/// Mathematical value of a capability parameter.
pub ghost struct ParameterView {
    pub name: Seq<char>,
    pub param_type: ParameterType,
    pub required: bool,
    pub description: Option<Seq<char>>,
}

impl View for CapabilityParameter {
    type V = ParameterView;

    open spec fn view(&self) -> ParameterView {
        ParameterView {
            name: self.name@,
            param_type: self.param_type,
            required: self.required,
            description: self.description.deep_view(),
        }
    }
}

/// Compares two optional strings by their text.
pub fn same_optional_text(a: &Option<String>, b: &Option<String>) -> (r: bool)
    ensures
        r == (a.deep_view() == b.deep_view()),
{
    match (a, b) {
        (Some(x), Some(y)) => *x == *y,
        (None, None) => true,
        _ => false,
    }
}

/// Copies an optional string, keeping its text.
pub fn copy_optional_text(a: &Option<String>) -> (r: Option<String>)
    ensures
        r.deep_view() == a.deep_view(),
{
    match a {
        Some(x) => Some(x.clone()),
        None => None,
    }
}

impl CapabilityParameter {
    /// Field-wise equality, as the derived `==` compares.
    pub fn same_as(&self, other: &CapabilityParameter) -> (r: bool)
        ensures
            r == (self@ == other@),
    {
        self.name == other.name && self.param_type.same_as(&other.param_type) && self.required
            == other.required && same_optional_text(&self.description, &other.description)
    }
}

impl Clone for CapabilityParameter {
    fn clone(&self) -> (r: Self)
        ensures
            r@ == self@,
    {
        CapabilityParameter {
            name: self.name.clone(),
            param_type: self.param_type.clone(),
            required: self.required,
            description: copy_optional_text(&self.description),
        }
    }
}

/// A named, versioned capability that an agent offers.
#[derive(Debug, PartialEq, Eq, Hash)]
pub struct Capability {
    pub name: String,
    pub version: String,
    pub description: Option<String>,
    pub parameters: Vec<CapabilityParameter>,
}

/// Mathematical value of a capability.
pub ghost struct CapabilityView {
    pub name: Seq<char>,
    pub version: Seq<char>,
    pub description: Option<Seq<char>>,
    pub parameters: Seq<ParameterView>,
}

/// The views of a sequence of parameters.
pub open spec fn parameter_views(ps: Seq<CapabilityParameter>) -> Seq<ParameterView> {
    ps.map_values(|p: CapabilityParameter| p@)
}

impl View for Capability {
    type V = CapabilityView;

    open spec fn view(&self) -> CapabilityView {
        CapabilityView {
            name: self.name@,
            version: self.version@,
            description: self.description.deep_view(),
            parameters: parameter_views(self.parameters@),
        }
    }
}

/// The version a capability has unless one is given.
pub open spec fn default_version() -> Seq<char> {
    seq!['1', '.', '0', '.', '0']
}

fn copy_parameters(ps: &Vec<CapabilityParameter>) -> (r: Vec<CapabilityParameter>)
    ensures
        parameter_views(r@) == parameter_views(ps@),
{
    let mut r: Vec<CapabilityParameter> = Vec::new();
    let mut i: usize = 0;
    while i < ps.len()
        invariant
            i <= ps.len(),
            parameter_views(r@) == parameter_views(ps@).take(i as int),
        decreases ps.len() - i,
    {
        let ghost r0 = r@;
        let p = ps[i].clone();
        r.push(p);
        proof {
            assert(r@ =~= r0.push(p));
            assert(parameter_views(r@) =~= parameter_views(r0).push(p@));
            assert(parameter_views(r@) =~= parameter_views(ps@).take(i + 1));
        }
        i = i + 1;
    }
    proof {
        assert(parameter_views(ps@).take(ps@.len() as int) =~= parameter_views(ps@));
    }
    r
}

fn same_parameters(a: &Vec<CapabilityParameter>, b: &Vec<CapabilityParameter>) -> (r: bool)
    ensures
        r == (parameter_views(a@) == parameter_views(b@)),
{
    if a.len() != b.len() {
        proof {
            assert(parameter_views(a@).len() != parameter_views(b@).len());
        }
        return false;
    }
    let mut i: usize = 0;
    while i < a.len()
        invariant
            a.len() == b.len(),
            i <= a.len(),
            forall|j: int| 0 <= j < i ==> a@[j]@ == b@[j]@,
        decreases a.len() - i,
    {
        if !a[i].same_as(&b[i]) {
            proof {
                assert(parameter_views(a@)[i as int] != parameter_views(b@)[i as int]);
            }
            return false;
        }
        i = i + 1;
    }
    proof {
        assert(parameter_views(a@) =~= parameter_views(b@));
    }
    true
}

impl Capability {
    /// A capability with the given name, version "1.0.0", no description and no
    /// parameters.
    pub fn new(name: &str) -> (c: Capability)
        ensures
            c@.name == name@,
            c@.version == default_version(),
            c@.description is None,
            c@.parameters.len() == 0,
    {
        let version = String::from_str("1.0.0");
        proof {
            reveal_strlit("1.0.0");
            assert(version@ =~= default_version());
        }
        let c = Capability {
            name: String::from_str(name),
            version,
            description: None,
            parameters: Vec::new(),
        };
        proof {
            assert(c@.parameters =~= Seq::<ParameterView>::empty());
        }
        c
    }

    /// Replaces the version.
    pub fn with_version(self, version: &str) -> (c: Capability)
        ensures
            c@ == (CapabilityView { version: version@, ..self@ }),
    {
        let mut c = self;
        c.version = String::from_str(version);
        c
    }

    /// Sets the description.
    pub fn with_description(self, description: &str) -> (c: Capability)
        ensures
            c@ == (CapabilityView { description: Some(description@), ..self@ }),
    {
        let mut c = self;
        c.description = Some(String::from_str(description));
        c
    }

    /// Appends a parameter.
    pub fn with_parameter(self, param: CapabilityParameter) -> (c: Capability)
        ensures
            c@ == (CapabilityView { parameters: self@.parameters.push(param@), ..self@ }),
    {
        let mut c = self;
        c.parameters.push(param);
        proof {
            assert(parameter_views(c.parameters@) =~= self@.parameters.push(param@));
        }
        c
    }

    /// Field-wise equality, as the derived `==` compares.
    pub fn same_as(&self, other: &Capability) -> (r: bool)
        ensures
            r == (self@ == other@),
    {
        self.name == other.name && self.version == other.version && same_optional_text(
            &self.description,
            &other.description,
        ) && same_parameters(&self.parameters, &other.parameters)
    }
}

impl Clone for Capability {
    fn clone(&self) -> (r: Self)
        ensures
            r@ == self@,
    {
        Capability {
            name: self.name.clone(),
            version: self.version.clone(),
            description: copy_optional_text(&self.description),
            parameters: copy_parameters(&self.parameters),
        }
    }
}

/// The texts of a sequence of strings.
pub open spec fn texts(s: Seq<String>) -> Seq<Seq<char>> {
    s.map_values(|x: String| x@)
}

/// Whether some capability in `caps` is named `name`.
pub open spec fn has_name(caps: Seq<CapabilityView>, name: Seq<char>) -> bool {
    exists|i: int| 0 <= i < caps.len() && #[trigger] caps[i].name == name
}

/// Whether every name in `required` is the name of a capability in `caps`.
pub open spec fn meets_all(caps: Seq<CapabilityView>, required: Seq<Seq<char>>) -> bool {
    forall|k: int| 0 <= k < required.len() ==> has_name(caps, #[trigger] required[k])
}

/// The set after adding `c`: unchanged if an equal capability is present,
/// otherwise `c` follows the others.
pub open spec fn add_one(caps: Seq<CapabilityView>, c: CapabilityView) -> Seq<CapabilityView> {
    if caps.contains(c) {
        caps
    } else {
        caps.push(c)
    }
}

/// The set after adding each of `items` in turn.
pub open spec fn add_all(caps: Seq<CapabilityView>, items: Seq<CapabilityView>) -> Seq<
    CapabilityView,
>
    decreases items.len(),
{
    if items.len() == 0 {
        caps
    } else {
        add_one(add_all(caps, items.drop_last()), items.last())
    }
}

/// The views of a sequence of capabilities.
pub open spec fn capability_views(cs: Seq<Capability>) -> Seq<CapabilityView> {
    cs.map_values(|c: Capability| c@)
}

/// A set of capabilities: no two members are equal.
#[derive(Debug)]
pub struct CapabilitySet {
    capabilities: Vec<Capability>,
}

impl View for CapabilitySet {
    type V = Seq<CapabilityView>;

    /// The members in the order in which they were first added.
    closed spec fn view(&self) -> Seq<CapabilityView> {
        capability_views(self.capabilities@)
    }
}

impl CapabilitySet {
    /// No two members are equal.
    #[verifier::type_invariant]
    closed spec fn no_equal_members(&self) -> bool {
        self@.no_duplicates()
    }

    /// The empty set.
    pub fn new() -> (s: CapabilitySet)
        ensures
            s@ == Seq::<CapabilityView>::empty(),
    {
        let s = CapabilitySet { capabilities: Vec::new() };
        proof {
            assert(s@ =~= Seq::<CapabilityView>::empty());
        }
        s
    }

    fn position_of(&self, capability: &Capability) -> (r: Option<usize>)
        ensures
            match r {
                Some(i) => i < self@.len() && self@[i as int] == capability@,
                None => !self@.contains(capability@),
            },
    {
        let mut i: usize = 0;
        while i < self.capabilities.len()
            invariant
                i <= self.capabilities@.len(),
                forall|j: int| 0 <= j < i ==> self@[j] != capability@,
            decreases self.capabilities.len() - i,
        {
            if self.capabilities[i].same_as(capability) {
                return Some(i);
            }
            i = i + 1;
        }
        None
    }

    /// Adds `capability` unless an equal one is already a member.
    pub fn add(&mut self, capability: Capability)
        ensures
            final(self)@ == add_one(old(self)@, capability@),
    {
        proof {
            use_type_invariant(&*self);
        }
        match self.position_of(&capability) {
            Some(_) => {},
            None => {
                let ghost before = self@;
                let mut caps: Vec<Capability> = Vec::new();
                std::mem::swap(&mut caps, &mut self.capabilities);
                caps.push(capability);
                proof {
                    assert(capability_views(caps@) =~= before.push(capability@));
                    let after = capability_views(caps@);
                    assert forall|a: int, b: int|
                        0 <= a < after.len() && 0 <= b < after.len() && a != b implies after[a]
                        != after[b] by {
                        if b == before.len() {
                            assert(before[a] == after[a]);
                        } else if a == before.len() {
                            assert(before[b] == after[b]);
                        } else {
                            assert(before[a] == after[a] && before[b] == after[b]);
                        }
                    }
                }
                self.capabilities = caps;
            },
        }
    }

    fn index_of_name(&self, name: &String) -> (r: Option<usize>)
        ensures
            match r {
                Some(i) => i < self@.len() && self@[i as int].name == name@ && forall|j: int|
                    0 <= j < i ==> self@[j].name != name@,
                None => !has_name(self@, name@),
            },
    {
        let mut i: usize = 0;
        while i < self.capabilities.len()
            invariant
                i <= self.capabilities@.len(),
                forall|j: int| 0 <= j < i ==> self@[j].name != name@,
            decreases self.capabilities.len() - i,
        {
            if self.capabilities[i].name == *name {
                return Some(i);
            }
            i = i + 1;
        }
        None
    }

    /// Whether some member is named `name`.
    pub fn has(&self, name: &str) -> (r: bool)
        ensures
            r == has_name(self@, name@),
    {
        let target = String::from_str(name);
        self.index_of_name(&target).is_some()
    }

    /// The first member named `name`, if any.
    pub fn get(&self, name: &str) -> (r: Option<&Capability>)
        ensures
            match r {
                Some(c) => exists|i: int|
                    0 <= i < self@.len() && self@[i] == c@ && c@.name == name@ && forall|j: int|
                        0 <= j < i ==> self@[j].name != name@,
                None => !has_name(self@, name@),
            },
    {
        let target = String::from_str(name);
        match self.index_of_name(&target) {
            Some(i) => Some(&self.capabilities[i]),
            None => None,
        }
    }

    /// The members, in the order in which they were first added.
    pub fn iter(&self) -> (r: &Vec<Capability>)
        ensures
            capability_views(r@) == self@,
    {
        &self.capabilities
    }

    /// The number of members.
    pub fn len(&self) -> (r: usize)
        ensures
            r == self@.len(),
    {
        self.capabilities.len()
    }

    /// Whether every name in `required` names a member.
    pub fn matches_requirements(&self, required: &[String]) -> (r: bool)
        ensures
            r == meets_all(self@, texts(required@)),
    {
        let ghost req = texts(required@);
        let mut k: usize = 0;
        while k < required.len()
            invariant
                k <= required@.len(),
                req == texts(required@),
                forall|m: int| 0 <= m < k ==> has_name(self@, #[trigger] req[m]),
            decreases required.len() - k,
        {
            let found = self.index_of_name(&required[k]).is_some();
            if !found {
                assert(!has_name(self@, req[k as int]));
                return false;
            }
            k = k + 1;
        }
        true
    }

    /// The set holding each of `capabilities`, equal ones once.
    pub fn from(capabilities: Vec<Capability>) -> (s: CapabilitySet)
        ensures
            s@ == add_all(Seq::empty(), capability_views(capabilities@)),
    {
        let mut s = CapabilitySet::new();
        let ghost all = capability_views(capabilities@);
        let mut i: usize = 0;
        while i < capabilities.len()
            invariant
                i <= capabilities@.len(),
                all == capability_views(capabilities@),
                s@ == add_all(Seq::empty(), all.take(i as int)),
            decreases capabilities.len() - i,
        {
            let c = capabilities[i].clone();
            proof {
                assert(all.take(i + 1).drop_last() =~= all.take(i as int));
                assert(all.take(i + 1).last() == c@);
            }
            s.add(c);
            i = i + 1;
        }
        proof {
            assert(all.take(i as int) =~= all);
        }
        s
    }
}

impl Clone for CapabilitySet {
    fn clone(&self) -> (r: Self)
        ensures
            r@ == self@,
    {
        proof {
            use_type_invariant(self);
        }
        let mut v: Vec<Capability> = Vec::new();
        let mut i: usize = 0;
        while i < self.capabilities.len()
            invariant
                i <= self.capabilities@.len(),
                capability_views(v@) == self@.take(i as int),
            decreases self.capabilities.len() - i,
        {
            let ghost v0 = v@;
            let c = self.capabilities[i].clone();
            v.push(c);
            proof {
                assert(v@ =~= v0.push(c));
                assert(capability_views(v@) =~= capability_views(v0).push(c@));
                assert(capability_views(v@) =~= self@.take(i + 1));
            }
            i = i + 1;
        }
        proof {
            assert(self@.take(i as int) =~= self@);
        }
        CapabilitySet { capabilities: v }
    }
}

} // verus!
