//! The API routing and validation layer: operation descriptors, HTTP-style
//! method descriptors and their typed parameter lists. Parameter values reach
//! this layer as coarse type tags — the payload text itself is decoded by the
//! JSON boundary outside the core — and validation checks presence and type
//! compatibility only, never a value's content.

use vstd::prelude::*;

use crate::error::{UnicomError, UnicomErrorKind};
use crate::text::{spec_all_digits, spec_assoc, spec_find_char, spec_parse_digits, find_char,
    parse_usize, str_eq};

verus! {

/// The HTTP-style verbs an operation's methods are keyed by.
#[derive(Debug, Clone, Copy, PartialEq, Eq, Structural)]
pub enum MethodKind {
    GET,
    PUT,
    POST,
    DELETE,
}

/// The verb a request names, defaulting to GET for anything unrecognized.
pub open spec fn spec_method_kind_of(s: Seq<char>) -> MethodKind {
    if s == "PUT"@ {
        MethodKind::PUT
    } else if s == "POST"@ {
        MethodKind::POST
    } else if s == "DELETE"@ {
        MethodKind::DELETE
    } else {
        MethodKind::GET
    }
}

/// The canonical name of each verb.
pub open spec fn spec_method_kind_name(k: MethodKind) -> Seq<char> {
    match k {
        MethodKind::GET => "GET"@,
        MethodKind::PUT => "PUT"@,
        MethodKind::POST => "POST"@,
        MethodKind::DELETE => "DELETE"@,
    }
}

impl MethodKind {
    /// Parse a verb name; anything unrecognized falls back to GET.
    pub fn from_str(s: &str) -> (k: MethodKind)
        ensures
            k == spec_method_kind_of(s@),
    {
        if str_eq(s, "PUT") {
            MethodKind::PUT
        } else if str_eq(s, "POST") {
            MethodKind::POST
        } else if str_eq(s, "DELETE") {
            MethodKind::DELETE
        } else {
            MethodKind::GET
        }
    }

    /// The verb's canonical name.
    pub fn name(&self) -> (r: &'static str)
        ensures
            r@ == spec_method_kind_name(*self),
    {
        match self {
            MethodKind::GET => "GET",
            MethodKind::PUT => "PUT",
            MethodKind::POST => "POST",
            MethodKind::DELETE => "DELETE",
        }
    }
}

/// The coarse type class of one JSON parameter value, as the JSON boundary
/// reports it: a signed integer, an unsigned number too large for a signed
/// word, a float, text, or a structured value.
#[derive(Debug, Clone, Copy, PartialEq, Eq, Structural)]
pub enum JsonKind {
    Null,
    Bool,
    Int,
    UInt,
    Float,
    Text,
    Array,
    Object,
}

/// The declared type of one parameter of an operation method.
#[derive(Debug, Clone)]
pub enum ValueKind {
    Integer,
    Float,
    Text,
    Url(usize),
    SessionID,
    Session(String),
    User,
    Input,
}

/// The characters of the second underscore-separated segment, if the string
/// has at least one underscore.
pub open spec fn spec_second_segment(s: Seq<char>) -> Option<Seq<char>> {
    match spec_find_char(s, '_') {
        None => None,
        Some(i) => {
            let rest = s.skip(i + 1);
            match spec_find_char(rest, '_') {
                Some(j) => Some(rest.take(j)),
                None => Some(rest),
            }
        },
    }
}

/// How a manifest kind string maps to a declared parameter type: the first
/// three characters pick the kind; session and URL kinds read their argument
/// from the second underscore-separated segment, falling back to text when
/// the segment is absent or (for URL indices) not a machine-word number.
pub open spec fn spec_value_kind_of(s: Seq<char>, k: ValueKind) -> bool {
    let p = s.take(3);
    if p == "int"@ {
        k == ValueKind::Integer
    } else if p == "str"@ {
        k == ValueKind::Text
    } else if p == "flt"@ {
        k == ValueKind::Float
    } else if p == "ipt"@ {
        k == ValueKind::Input
    } else if p == "sid"@ {
        k == ValueKind::SessionID
    } else if p == "usr"@ {
        k == ValueKind::User
    } else if p == "ses"@ {
        match spec_second_segment(s) {
            None => k == ValueKind::Text,
            Some(seg) => match k {
                ValueKind::Session(t) => t@ == seg,
                _ => false,
            },
        }
    } else if p == "url"@ {
        match spec_second_segment(s) {
            None => k == ValueKind::Text,
            Some(seg) => {
                if seg.len() > 0 && spec_all_digits(seg) && spec_parse_digits(seg) <= usize::MAX {
                    match k {
                        ValueKind::Url(v) => v == spec_parse_digits(seg),
                        _ => false,
                    }
                } else {
                    k == ValueKind::Text
                }
            },
        }
    } else {
        k == ValueKind::Text
    }
}

/// The second underscore-separated segment of an ASCII string.
fn second_segment(s: &str) -> (r: Option<String>)
    requires
        s.is_ascii(),
    ensures
        match r {
            Some(t) => spec_second_segment(s@) == Some(t@),
            None => spec_second_segment(s@) is None,
        },
{
    match find_char(s, '_') {
        None => None,
        Some(i) => {
            proof {
                crate::text::lemma_find_char_props(s@, '_');
            }
            let n = s.unicode_len();
            let rest = s.substring_ascii(i + 1, n);
            proof {
                assert(rest@ =~= s@.skip(i + 1));
            }
            let seg = match find_char(rest, '_') {
                Some(j) => {
                    proof {
                        crate::text::lemma_find_char_props(rest@, '_');
                    }
                    rest.substring_ascii(0, j)
                },
                None => rest,
            };
            Some(seg.to_owned())
        },
    }
}

impl ValueKind {
    /// Parse a manifest kind string (at least three ASCII characters, as the
    /// manifest keywords are) into a declared parameter type.
    pub fn from_str(s: &str) -> (k: ValueKind)
        requires
            s.is_ascii(),
            s@.len() >= 3,
        ensures
            spec_value_kind_of(s@, k),
    {
        let p = s.substring_ascii(0, 3);
        if str_eq(p, "int") {
            ValueKind::Integer
        } else if str_eq(p, "str") {
            ValueKind::Text
        } else if str_eq(p, "flt") {
            ValueKind::Float
        } else if str_eq(p, "ipt") {
            ValueKind::Input
        } else if str_eq(p, "sid") {
            ValueKind::SessionID
        } else if str_eq(p, "usr") {
            ValueKind::User
        } else if str_eq(p, "ses") {
            match second_segment(s) {
                None => ValueKind::Text,
                Some(seg) => ValueKind::Session(seg),
            }
        } else if str_eq(p, "url") {
            match second_segment(s) {
                None => ValueKind::Text,
                Some(seg) => match parse_usize(seg.as_str()) {
                    Some(v) => ValueKind::Url(v),
                    None => ValueKind::Text,
                },
            }
        } else {
            ValueKind::Text
        }
    }
}

/// Whether a value of the given coarse JSON class satisfies a declared
/// parameter type. Only the class is consulted; session references, user
/// contexts and opaque input accept any value.
pub open spec fn spec_check(k: ValueKind, v: JsonKind) -> bool {
    match k {
        ValueKind::Integer => v == JsonKind::Int,
        ValueKind::Float => v == JsonKind::Float,
        ValueKind::Text => v == JsonKind::Text,
        ValueKind::Url(_) => v == JsonKind::Text,
        ValueKind::SessionID => v == JsonKind::Text,
        ValueKind::Session(_) => true,
        ValueKind::User => true,
        ValueKind::Input => true,
    }
}

/// The parameter values attached to one request, as name/type-class pairs in
/// the order the JSON boundary handed them over; names are unique there.
#[derive(Debug, Clone)]
pub struct ParamMap {
    pub entries: Vec<(String, JsonKind)>,
}

impl ParamMap {
    /// An empty parameter map.
    pub fn new() -> (r: ParamMap)
        ensures
            r.entries@.len() == 0,
    {
        ParamMap { entries: Vec::new() }
    }

    /// Bind a name to a type class (appended; lookups see the first binding).
    pub fn push(&mut self, name: String, kind: JsonKind)
        ensures
            final(self).entries@ == old(self).entries@.push((name, kind)),
    {
        self.entries.push((name, kind));
    }

    /// The type class bound to a name, if any.
    pub fn get(&self, name: &str) -> (r: Option<JsonKind>)
        ensures
            r == spec_assoc(self.entries@, name@),
    {
        let n = self.entries.len();
        let mut i: usize = 0;
        proof {
            assert(self.entries@.skip(0) =~= self.entries@);
        }
        while i < n
            invariant
                n == self.entries@.len(),
                i <= n,
                spec_assoc(self.entries@, name@) == spec_assoc(
                    self.entries@.skip(i as int),
                    name@,
                ),
            decreases n - i,
        {
            proof {
                assert(self.entries@.skip(i as int)[0] == self.entries@[i as int]);
                assert(self.entries@.skip(i as int).skip(1) =~= self.entries@.skip(i as int + 1));
            }
            if str_eq(self.entries[i].0.as_str(), name) {
                return Some(self.entries[i].1);
            }
            i += 1;
        }
        None
    }
}

/// One declared parameter: its name, its type, and whether it must be given.
#[derive(Debug, Clone)]
pub struct Parameter {
    pub name: String,
    pub kind: ValueKind,
    pub mandatory: bool,
}

impl Parameter {
    /// Declare a parameter.
    pub fn new(name: &str, kind: ValueKind, mandatory: bool) -> (p: Parameter)
        ensures
            p.name@ == name@,
            p.kind == kind,
            p.mandatory == mandatory,
    {
        Parameter { name: name.to_owned(), kind, mandatory }
    }

    /// Whether a value of the given class satisfies this declaration.
    pub fn check(&self, value: JsonKind) -> (r: bool)
        ensures
            r == spec_check(self.kind, value),
    {
        match &self.kind {
            ValueKind::Integer => matches!(value, JsonKind::Int),
            ValueKind::Float => matches!(value, JsonKind::Float),
            ValueKind::Text => matches!(value, JsonKind::Text),
            ValueKind::Url(_) => matches!(value, JsonKind::Text),
            ValueKind::SessionID => matches!(value, JsonKind::Text),
            ValueKind::Session(_) => true,
            ValueKind::User => true,
            ValueKind::Input => true,
        }
    }
}

/// Whether the given parameter map satisfies one declared parameter: a bound
/// value must match the declared type, and an unbound name is accepted only
/// for optional parameters.
pub open spec fn spec_param_ok(p: Parameter, m: Seq<(String, JsonKind)>) -> bool {
    match spec_assoc(m, p.name@) {
        Some(v) => spec_check(p.kind, v),
        None => !p.mandatory,
    }
}

/// One registered method of an operation: its verb and its declared
/// parameters.
#[derive(Debug, Clone)]
pub struct ApiMethod {
    pub method: MethodKind,
    pub parameters: Vec<Parameter>,
}

impl ApiMethod {
    /// Declare a method.
    pub fn new(method: MethodKind, parameters: Vec<Parameter>) -> (m: ApiMethod)
        ensures
            m.method == method,
            m.parameters == parameters,
    {
        ApiMethod { method, parameters }
    }

    /// Validate a request's parameters against this method's declarations:
    /// accepted exactly when every declared parameter is satisfied, and
    /// rejected as parameter-invalid otherwise.
    pub fn generate_parameters(&self, parameters: &ParamMap) -> (r: Result<(), UnicomError>)
        ensures
            r is Ok <==> (forall|i: int|
                0 <= i < self.parameters@.len() ==> spec_param_ok(
                    #[trigger] self.parameters@[i],
                    parameters.entries@,
                )),
            r is Err ==> r->Err_0.kind == UnicomErrorKind::ParameterInvalid,
    {
        let n = self.parameters.len();
        let mut i: usize = 0;
        while i < n
            invariant
                n == self.parameters@.len(),
                i <= n,
                forall|j: int|
                    0 <= j < i ==> spec_param_ok(
                        #[trigger] self.parameters@[j],
                        parameters.entries@,
                    ),
            decreases n - i,
        {
            let p = &self.parameters[i];
            match parameters.get(p.name.as_str()) {
                Some(value) => {
                    if !p.check(value) {
                        return Err(
                            UnicomError::new(
                                UnicomErrorKind::ParameterInvalid,
                                "wrong type of parameter",
                            ),
                        );
                    }
                },
                None => {
                    if p.mandatory {
                        return Err(
                            UnicomError::new(
                                UnicomErrorKind::ParameterInvalid,
                                "parameter is missing",
                            ),
                        );
                    }
                },
            }
            i += 1;
        }
        Ok(())
    }
}

/// One operation a node exposes: a stable numeric identifier, a name, and
/// one descriptor per supported verb.
#[derive(Debug, Clone)]
pub struct Api {
    pub id: u64,
    pub name: String,
    pub methods: Vec<ApiMethod>,
}

impl Api {
    /// Describe an operation.
    pub fn new(id: u64, name: &str, methods: Vec<ApiMethod>) -> (a: Api)
        ensures
            a.id == id,
            a.name@ == name@,
            a.methods == methods,
    {
        Api { id, name: name.to_owned(), methods }
    }

    /// The first registered method matching the requested verb; fails as
    /// method-not-allowed exactly when no method carries that verb.
    pub fn get_method(&self, method: &MethodKind) -> (r: Result<&ApiMethod, UnicomError>)
        ensures
            match r {
                Ok(m) => spec_get_method(self.methods@, *method) == Some(*m),
                Err(e) => {
                    &&& spec_get_method(self.methods@, *method) is None
                    &&& e.kind == UnicomErrorKind::MethodNotAllowed
                },
            },
    {
        let n = self.methods.len();
        let mut i: usize = 0;
        proof {
            assert(self.methods@.skip(0) =~= self.methods@);
        }
        while i < n
            invariant
                n == self.methods@.len(),
                i <= n,
                spec_get_method(self.methods@, *method) == spec_get_method(
                    self.methods@.skip(i as int),
                    *method,
                ),
            decreases n - i,
        {
            proof {
                assert(self.methods@.skip(i as int)[0] == self.methods@[i as int]);
                assert(self.methods@.skip(i as int).skip(1) =~= self.methods@.skip(i as int + 1));
            }
            if self.methods[i].method == *method {
                return Ok(&self.methods[i]);
            }
            i += 1;
        }
        Err(UnicomError::new(UnicomErrorKind::MethodNotAllowed, "method not allowed"))
    }
}

/// The first method of the list carrying the given verb.
pub open spec fn spec_get_method(s: Seq<ApiMethod>, k: MethodKind) -> Option<ApiMethod>
    decreases s.len(),
{
    if s.len() == 0 {
        None
    } else if s[0].method == k {
        Some(s[0])
    } else {
        spec_get_method(s.skip(1), k)
    }
}

/// Law: a verb lookup fails exactly when no registered method carries the
/// verb, and a hit returns a method carrying it.
pub proof fn lemma_spec_get_method(s: Seq<ApiMethod>, k: MethodKind)
    ensures
        match spec_get_method(s, k) {
            Some(m) => m.method == k && exists|i: int| 0 <= i < s.len() && s[i] == m,
            None => forall|i: int| 0 <= i < s.len() ==> (#[trigger] s[i]).method != k,
        },
    decreases s.len(),
{
    if s.len() > 0 && s[0].method != k {
        lemma_spec_get_method(s.skip(1), k);
        assert(forall|j: int| 0 <= j < s.skip(1).len() ==> s.skip(1)[j] == s[j + 1]);
        match spec_get_method(s.skip(1), k) {
            Some(m) => {
                let i = choose|i: int| 0 <= i < s.skip(1).len() && s.skip(1)[i] == m;
                assert(s[i + 1] == m);
            },
            None => {
                assert forall|j: int| 0 <= j < s.len() implies (#[trigger] s[j]).method != k by {
                    if j > 0 {
                        assert(s.skip(1)[j - 1].method != k);
                    }
                }
            },
        }
    }
}

} // verus!
