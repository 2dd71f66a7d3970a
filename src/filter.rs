//! Worker filters: a tree of predicates over worker metadata, with a text
//! form for single predicates.
use vstd::prelude::*;
use vstd::string::*;
use crate::status::{
    iso8601_millis, status_name, status_rank, status_word, timestamp_text, Timestamp,
    WorkerMetadata, WorkerStatus,
};
use crate::text::{
    chars_eq_str, chars_of, contains_chars, decimal, push_decimal, contains_seq, lower_of, parse_unsigned,
    parse_unsigned_chars, split_words, string_of, sub_chars, to_lower, words, IntParseError,
};

verus! {

/// How two texts are compared.
#[derive(Clone, Copy, Debug, PartialEq, Eq, Hash, Structural)]
pub enum StringFilterComparator {
    Equal,
    NotEqual,
    /// The first text holds the second.
    Like,
    /// The first text does not hold the second.
    NotLike,
}

pub open spec fn string_matches(c: StringFilterComparator, v1: Seq<char>, v2: Seq<char>) -> bool {
    match c {
        StringFilterComparator::Equal => v1 == v2,
        StringFilterComparator::NotEqual => v1 != v2,
        StringFilterComparator::Like => contains_seq(v1, v2),
        StringFilterComparator::NotLike => !contains_seq(v1, v2),
    }
}

/// The text comparator that a lower-case word names.
pub open spec fn string_comparator_word(t: Seq<char>) -> Option<StringFilterComparator> {
    if t == "=="@ || t == "="@ || t == "equal"@ || t == "eq"@ {
        Some(StringFilterComparator::Equal)
    } else if t == "!="@ || t == "notequal"@ || t == "ne"@ {
        Some(StringFilterComparator::NotEqual)
    } else if t == "like"@ {
        Some(StringFilterComparator::Like)
    } else if t == "notlike"@ {
        Some(StringFilterComparator::NotLike)
    } else {
        None
    }
}

impl StringFilterComparator {
    /// Compares `value1` with `value2`.
    pub fn matches(&self, value1: &String, value2: &String) -> (r: bool)
        ensures
            r == string_matches(*self, value1@, value2@),
    {
        match self {
            StringFilterComparator::Equal => *value1 == *value2,
            StringFilterComparator::NotEqual => !(*value1 == *value2),
            StringFilterComparator::Like => contains_chars(
                &chars_of(value1.as_str()),
                &chars_of(value2.as_str()),
            ),
            StringFilterComparator::NotLike => !contains_chars(
                &chars_of(value1.as_str()),
                &chars_of(value2.as_str()),
            ),
        }
    }

    /// The comparator that the lower-case word `t` names.
    pub fn from_lowercase(t: &str) -> (r: Option<StringFilterComparator>)
        ensures
            r == string_comparator_word(t@),
    {
        let cs = chars_of(t);
        if chars_eq_str(&cs, "==") || chars_eq_str(&cs, "=") || chars_eq_str(&cs, "equal")
            || chars_eq_str(&cs, "eq") {
            Some(StringFilterComparator::Equal)
        } else if chars_eq_str(&cs, "!=") || chars_eq_str(&cs, "notequal") || chars_eq_str(
            &cs,
            "ne",
        ) {
            Some(StringFilterComparator::NotEqual)
        } else if chars_eq_str(&cs, "like") {
            Some(StringFilterComparator::Like)
        } else if chars_eq_str(&cs, "notlike") {
            Some(StringFilterComparator::NotLike)
        } else {
            None
        }
    }

    /// Reads a comparator in any letter case.
    pub fn parse(s: &str) -> (r: Result<StringFilterComparator, String>)
        ensures
            match string_comparator_word(lower_of(s@)) {
                Some(c) => r == Ok::<StringFilterComparator, String>(c),
                None => r is Err,
            },
    {
        let lower = to_lower(s);
        match Self::from_lowercase(lower.as_str()) {
            Some(c) => Ok(c),
            None => {
                let mut e = String::from_str("Unknown String Filter Comparator: ");
                e.append(s);
                Err(e)
            },
        }
    }

    pub fn to_string(&self) -> (r: String)
        ensures
            r@ == match self {
                StringFilterComparator::Equal => "=="@,
                StringFilterComparator::NotEqual => "!="@,
                StringFilterComparator::Like => "like"@,
                StringFilterComparator::NotLike => "notlike"@,
            },
    {
        match self {
            StringFilterComparator::Equal => String::from_str("=="),
            StringFilterComparator::NotEqual => String::from_str("!="),
            StringFilterComparator::Like => String::from_str("like"),
            StringFilterComparator::NotLike => String::from_str("notlike"),
        }
    }
}

impl StringFilterComparator {
    /// The comparator's number on the wire.
    pub fn to_i32(&self) -> (r: i32)
        ensures
            r == string_comparator_number(*self),
    {
        match self {
            StringFilterComparator::Equal => 0,
            StringFilterComparator::NotEqual => 1,
            StringFilterComparator::Like => 2,
            StringFilterComparator::NotLike => 3,
        }
    }

    /// The comparator with the wire number `value`.
    pub fn try_from_i32(value: i32) -> (r: Result<StringFilterComparator, String>)
        ensures
            r is Ok <==> 0 <= value <= 3,
            r is Ok ==> string_comparator_number(r->Ok_0) == value,
    {
        match value {
            0 => Ok(StringFilterComparator::Equal),
            1 => Ok(StringFilterComparator::NotEqual),
            2 => Ok(StringFilterComparator::Like),
            3 => Ok(StringFilterComparator::NotLike),
            _ => Err(String::from_str("Unknown String Filter Comparator")),
        }
    }
}

pub open spec fn string_comparator_number(c: StringFilterComparator) -> int {
    match c {
        StringFilterComparator::Equal => 0,
        StringFilterComparator::NotEqual => 1,
        StringFilterComparator::Like => 2,
        StringFilterComparator::NotLike => 3,
    }
}

impl std::str::FromStr for StringFilterComparator {
    type Err = String;

    fn from_str(s: &str) -> Result<StringFilterComparator, String> {
        StringFilterComparator::parse(s)
    }
}

/// How two ordered values are compared.
#[derive(Clone, Copy, Debug, PartialEq, Eq, Hash, Structural)]
pub enum FilterComparator {
    Equal,
    NotEqual,
    GreaterEqual,
    Greater,
    LessEqual,
    Less,
}

pub open spec fn ordered_matches(c: FilterComparator, v1: int, v2: int) -> bool {
    match c {
        FilterComparator::Equal => v1 == v2,
        FilterComparator::NotEqual => v1 != v2,
        FilterComparator::Less => v1 < v2,
        FilterComparator::LessEqual => v1 <= v2,
        FilterComparator::Greater => v1 > v2,
        FilterComparator::GreaterEqual => v1 >= v2,
    }
}

/// The ordering comparator that a lower-case word names.
pub open spec fn comparator_word(t: Seq<char>) -> Option<FilterComparator> {
    if t == "=="@ || t == "="@ || t == "equal"@ || t == "eq"@ {
        Some(FilterComparator::Equal)
    } else if t == "!="@ || t == "notequal"@ || t == "ne"@ {
        Some(FilterComparator::NotEqual)
    } else if t == ">="@ || t == "greaterequal"@ || t == "ge"@ {
        Some(FilterComparator::GreaterEqual)
    } else if t == ">"@ || t == "greater"@ || t == "gt"@ {
        Some(FilterComparator::Greater)
    } else if t == "<="@ || t == "lessequal"@ || t == "le"@ {
        Some(FilterComparator::LessEqual)
    } else if t == "<"@ || t == "less"@ || t == "lt"@ {
        Some(FilterComparator::Less)
    } else {
        None
    }
}

impl FilterComparator {
    /// Compares `value1` with `value2` in their natural order.
    pub fn matches(&self, value1: i128, value2: i128) -> (r: bool)
        ensures
            r == ordered_matches(*self, value1 as int, value2 as int),
    {
        match self {
            FilterComparator::Equal => value1 == value2,
            FilterComparator::NotEqual => value1 != value2,
            FilterComparator::Less => value1 < value2,
            FilterComparator::LessEqual => value1 <= value2,
            FilterComparator::Greater => value1 > value2,
            FilterComparator::GreaterEqual => value1 >= value2,
        }
    }

    /// The comparator that the lower-case word `t` names.
    pub fn from_lowercase(t: &str) -> (r: Option<FilterComparator>)
        ensures
            r == comparator_word(t@),
    {
        let cs = chars_of(t);
        if chars_eq_str(&cs, "==") || chars_eq_str(&cs, "=") || chars_eq_str(&cs, "equal")
            || chars_eq_str(&cs, "eq") {
            Some(FilterComparator::Equal)
        } else if chars_eq_str(&cs, "!=") || chars_eq_str(&cs, "notequal") || chars_eq_str(
            &cs,
            "ne",
        ) {
            Some(FilterComparator::NotEqual)
        } else if chars_eq_str(&cs, ">=") || chars_eq_str(&cs, "greaterequal") || chars_eq_str(
            &cs,
            "ge",
        ) {
            Some(FilterComparator::GreaterEqual)
        } else if chars_eq_str(&cs, ">") || chars_eq_str(&cs, "greater") || chars_eq_str(
            &cs,
            "gt",
        ) {
            Some(FilterComparator::Greater)
        } else if chars_eq_str(&cs, "<=") || chars_eq_str(&cs, "lessequal") || chars_eq_str(
            &cs,
            "le",
        ) {
            Some(FilterComparator::LessEqual)
        } else if chars_eq_str(&cs, "<") || chars_eq_str(&cs, "less") || chars_eq_str(&cs, "lt") {
            Some(FilterComparator::Less)
        } else {
            None
        }
    }

    /// Reads a comparator in any letter case.
    pub fn parse(s: &str) -> (r: Result<FilterComparator, String>)
        ensures
            match comparator_word(lower_of(s@)) {
                Some(c) => r == Ok::<FilterComparator, String>(c),
                None => r is Err,
            },
    {
        let lower = to_lower(s);
        match Self::from_lowercase(lower.as_str()) {
            Some(c) => Ok(c),
            None => {
                let mut e = String::from_str("Unknown Filter Comparator: ");
                e.append(s);
                Err(e)
            },
        }
    }

    pub fn to_string(&self) -> (r: String)
        ensures
            r@ == match self {
                FilterComparator::Equal => "=="@,
                FilterComparator::NotEqual => "!="@,
                FilterComparator::GreaterEqual => ">="@,
                FilterComparator::Greater => ">"@,
                FilterComparator::LessEqual => "<="@,
                FilterComparator::Less => "<"@,
            },
    {
        match self {
            FilterComparator::Equal => String::from_str("=="),
            FilterComparator::NotEqual => String::from_str("!="),
            FilterComparator::GreaterEqual => String::from_str(">="),
            FilterComparator::Greater => String::from_str(">"),
            FilterComparator::LessEqual => String::from_str("<="),
            FilterComparator::Less => String::from_str("<"),
        }
    }
}

pub open spec fn comparator_number(c: FilterComparator) -> int {
    match c {
        FilterComparator::Equal => 0,
        FilterComparator::NotEqual => 1,
        FilterComparator::Less => 2,
        FilterComparator::LessEqual => 3,
        FilterComparator::Greater => 4,
        FilterComparator::GreaterEqual => 5,
    }
}

impl FilterComparator {
    /// The comparator's number on the wire.
    pub fn to_i32(&self) -> (r: i32)
        ensures
            r == comparator_number(*self),
    {
        match self {
            FilterComparator::Equal => 0,
            FilterComparator::NotEqual => 1,
            FilterComparator::Less => 2,
            FilterComparator::LessEqual => 3,
            FilterComparator::Greater => 4,
            FilterComparator::GreaterEqual => 5,
        }
    }

    /// The comparator with the wire number `value`.
    pub fn try_from_i32(value: i32) -> (r: Result<FilterComparator, String>)
        ensures
            r is Ok <==> 0 <= value <= 5,
            r is Ok ==> comparator_number(r->Ok_0) == value,
    {
        match value {
            0 => Ok(FilterComparator::Equal),
            1 => Ok(FilterComparator::NotEqual),
            2 => Ok(FilterComparator::Less),
            3 => Ok(FilterComparator::LessEqual),
            4 => Ok(FilterComparator::Greater),
            5 => Ok(FilterComparator::GreaterEqual),
            _ => Err(String::from_str("Unknown Filter Comparator")),
        }
    }
}

impl std::str::FromStr for FilterComparator {
    type Err = String;

    fn from_str(s: &str) -> Result<FilterComparator, String> {
        FilterComparator::parse(s)
    }
}


#[derive(Debug, PartialEq, Eq, Hash)]
pub struct WorkerNameFilter {
    pub comparator: StringFilterComparator,
    pub value: String,
}

#[derive(Clone, Copy, Debug, PartialEq, Eq, Hash, Structural)]
pub struct WorkerStatusFilter {
    pub comparator: FilterComparator,
    pub value: WorkerStatus,
}

#[derive(Clone, Copy, Debug, PartialEq, Eq, Hash, Structural)]
pub struct WorkerVersionFilter {
    pub comparator: FilterComparator,
    pub value: u64,
}

#[derive(Clone, Copy, Debug, PartialEq, Eq, Hash, Structural)]
pub struct WorkerCreatedAtFilter {
    pub comparator: FilterComparator,
    pub value: Timestamp,
}

#[derive(Debug, PartialEq, Eq, Hash)]
pub struct WorkerEnvFilter {
    pub name: String,
    pub comparator: StringFilterComparator,
    pub value: String,
}

#[derive(Debug, PartialEq, Eq, Hash)]
pub struct WorkerAndFilter {
    pub filters: Vec<WorkerFilter>,
}

#[derive(Debug, PartialEq, Eq, Hash)]
pub struct WorkerOrFilter {
    pub filters: Vec<WorkerFilter>,
}

#[derive(Debug, PartialEq, Eq, Hash)]
pub struct WorkerNotFilter {
    pub filter: Box<WorkerFilter>,
}

/// A predicate over worker metadata. Each node owns its children.
#[derive(Debug, PartialEq, Eq, Hash)]
pub enum WorkerFilter {
    Name(WorkerNameFilter),
    Status(WorkerStatusFilter),
    Version(WorkerVersionFilter),
    CreatedAt(WorkerCreatedAtFilter),
    Env(WorkerEnvFilter),
    And(WorkerAndFilter),
    Or(WorkerOrFilter),
    Not(WorkerNotFilter),
}

/// The environment variable that decides an env filter: the first whose name
/// equals `name` once both are lower-cased; no such variable matches nothing.
pub open spec fn env_matches(
    env: Seq<(String, String)>,
    name: Seq<char>,
    c: StringFilterComparator,
    value: Seq<char>,
) -> bool
    decreases env.len(),
{
    if env.len() == 0 {
        false
    } else if lower_of(env[0].0@) == lower_of(name) {
        string_matches(c, env[0].1@, value)
    } else {
        env_matches(env.subrange(1, env.len() as int), name, c, value)
    }
}

/// Whether a filter holds of a worker.
pub open spec fn filter_matches(f: WorkerFilter, m: WorkerMetadata) -> bool
    decreases f,
{
    match f {
        WorkerFilter::Name(n) => string_matches(n.comparator, m.worker_id.worker_name@, n.value@),
        WorkerFilter::Status(st) => ordered_matches(
            st.comparator,
            status_rank(m.last_known_status.status),
            status_rank(st.value),
        ),
        WorkerFilter::Version(v) => ordered_matches(
            v.comparator,
            m.last_known_status.component_version as int,
            v.value as int,
        ),
        WorkerFilter::CreatedAt(c) => ordered_matches(
            c.comparator,
            m.created_at.millis as int,
            c.value.millis as int,
        ),
        WorkerFilter::Env(e) => env_matches(m.env@, e.name@, e.comparator, e.value@),
        WorkerFilter::And(a) => all_match(a.filters@, m),
        WorkerFilter::Or(o) => any_match(o.filters@, m),
        WorkerFilter::Not(n) => !filter_matches(*n.filter, m),
    }
}

/// Every filter holds (true of none).
pub open spec fn all_match(fs: Seq<WorkerFilter>, m: WorkerMetadata) -> bool
    decreases fs,
{
    if fs.len() == 0 {
        true
    } else {
        filter_matches(fs[0], m) && all_match(fs.subrange(1, fs.len() as int), m)
    }
}

/// Some filter holds (false of none).
pub open spec fn any_match(fs: Seq<WorkerFilter>, m: WorkerMetadata) -> bool
    decreases fs,
{
    if fs.len() == 0 {
        false
    } else {
        filter_matches(fs[0], m) || any_match(fs.subrange(1, fs.len() as int), m)
    }
}

proof fn lemma_all_any(fs: Seq<WorkerFilter>, m: WorkerMetadata)
    ensures
        all_match(fs, m) <==> forall|i: int| 0 <= i < fs.len() ==> filter_matches(fs[i], m),
        any_match(fs, m) <==> exists|i: int| 0 <= i < fs.len() && filter_matches(fs[i], m),
    decreases fs.len(),
{
    if fs.len() > 0 {
        let rest = fs.subrange(1, fs.len() as int);
        lemma_all_any(rest, m);
        assert forall|i: int| 1 <= i < fs.len() implies fs[i] == rest[i - 1] by {}
        if any_match(fs, m) && !filter_matches(fs[0], m) {
            let j = choose|j: int| 0 <= j < rest.len() && filter_matches(rest[j], m);
            assert(fs[j + 1] == rest[j]);
        }
        if !all_match(fs, m) && filter_matches(fs[0], m) {
            let j = choose|j: int| 0 <= j < rest.len() && !filter_matches(rest[j], m);
            assert(fs[j + 1] == rest[j]);
        }
    }
}

/// Two filters are the same tree with the same comparators and texts.
pub open spec fn same_filter(x: WorkerFilter, y: WorkerFilter) -> bool
    decreases x,
{
    match x {
        WorkerFilter::Name(a) => match y {
            WorkerFilter::Name(b) => a.comparator == b.comparator && a.value@ == b.value@,
            _ => false,
        },
        WorkerFilter::Status(a) => y == WorkerFilter::Status(a),
        WorkerFilter::Version(a) => y == WorkerFilter::Version(a),
        WorkerFilter::CreatedAt(a) => y == WorkerFilter::CreatedAt(a),
        WorkerFilter::Env(a) => match y {
            WorkerFilter::Env(b) => a.name@ == b.name@ && a.comparator == b.comparator && a.value@
                == b.value@,
            _ => false,
        },
        WorkerFilter::And(a) => match y {
            WorkerFilter::And(b) => same_filters(a.filters@, b.filters@),
            _ => false,
        },
        WorkerFilter::Or(a) => match y {
            WorkerFilter::Or(b) => same_filters(a.filters@, b.filters@),
            _ => false,
        },
        WorkerFilter::Not(a) => match y {
            WorkerFilter::Not(b) => same_filter(*a.filter, *b.filter),
            _ => false,
        },
    }
}

/// Two lists of filters are the same, element by element.
pub open spec fn same_filters(xs: Seq<WorkerFilter>, ys: Seq<WorkerFilter>) -> bool
    decreases xs,
{
    if xs.len() == 0 {
        ys.len() == 0
    } else {
        ys.len() > 0 && same_filter(xs[0], ys[0]) && same_filters(
            xs.subrange(1, xs.len() as int),
            ys.subrange(1, ys.len() as int),
        )
    }
}

proof fn lemma_same_filters(xs: Seq<WorkerFilter>, ys: Seq<WorkerFilter>)
    ensures
        same_filters(xs, ys) <==> xs.len() == ys.len() && forall|i: int|
            0 <= i < xs.len() ==> same_filter(xs[i], ys[i]),
    decreases xs.len(),
{
    if xs.len() > 0 && ys.len() > 0 {
        let xr = xs.subrange(1, xs.len() as int);
        let yr = ys.subrange(1, ys.len() as int);
        lemma_same_filters(xr, yr);
        assert forall|i: int| 1 <= i < xs.len() implies xs[i] == xr[i - 1] by {}
        assert forall|i: int| 1 <= i < ys.len() implies ys[i] == yr[i - 1] by {}
        if xs.len() == ys.len() && forall|i: int|
            0 <= i < xs.len() ==> same_filter(xs[i], ys[i]) {
            assert forall|i: int| 0 <= i < xr.len() implies same_filter(xr[i], yr[i]) by {
                assert(same_filter(xs[i + 1], ys[i + 1]));
            }
        }
        if same_filters(xs, ys) {
            assert forall|i: int| 0 <= i < xs.len() implies same_filter(xs[i], ys[i]) by {
                if i > 0 {
                    assert(same_filter(xr[i - 1], yr[i - 1]));
                }
            }
        }
    }
}

/// Filters that are the same hold of the same workers.
pub proof fn same_filters_match_alike(x: WorkerFilter, y: WorkerFilter, m: WorkerMetadata)
    requires
        same_filter(x, y),
    ensures
        filter_matches(x, m) == filter_matches(y, m),
    decreases x,
{
    match x {
        WorkerFilter::And(a) => {
            let b = y->And_0;
            lemma_same_filters(a.filters@, b.filters@);
            lemma_all_any(a.filters@, m);
            lemma_all_any(b.filters@, m);
            assert forall|i: int| 0 <= i < a.filters@.len() implies filter_matches(
                a.filters@[i],
                m,
            ) == filter_matches(b.filters@[i], m) by {
                same_filters_match_alike(a.filters@[i], b.filters@[i], m);
            }
        },
        WorkerFilter::Or(a) => {
            let b = y->Or_0;
            lemma_same_filters(a.filters@, b.filters@);
            lemma_all_any(a.filters@, m);
            lemma_all_any(b.filters@, m);
            assert forall|i: int| 0 <= i < a.filters@.len() implies filter_matches(
                a.filters@[i],
                m,
            ) == filter_matches(b.filters@[i], m) by {
                same_filters_match_alike(a.filters@[i], b.filters@[i], m);
            }
        },
        WorkerFilter::Not(a) => {
            same_filters_match_alike(*a.filter, *y->Not_0.filter, m);
        },
        _ => {},
    }
}


fn clone_filters(fs: &Vec<WorkerFilter>) -> (r: Vec<WorkerFilter>)
    ensures
        same_filters(r@, fs@),
    decreases fs,
{
    let mut r: Vec<WorkerFilter> = Vec::new();
    let mut i: usize = 0;
    while i < fs.len()
        invariant
            i <= fs@.len(),
            r@.len() == i,
            forall|j: int| 0 <= j < i ==> same_filter(r@[j], fs@[j]),
        decreases fs@.len() - i,
    {
        proof {
            assert(decreases_to!(fs => fs[i as int]));
        }
        r.push(fs[i].clone());
        i = i + 1;
    }
    proof {
        lemma_same_filters(r@, fs@);
    }
    r
}

impl Clone for WorkerFilter {
    fn clone(&self) -> (r: Self)
        ensures
            same_filter(r, *self),
        decreases self,
    {
        match self {
            WorkerFilter::Name(f) => WorkerFilter::Name(
                WorkerNameFilter { comparator: f.comparator, value: f.value.clone() },
            ),
            WorkerFilter::Status(f) => WorkerFilter::Status(*f),
            WorkerFilter::Version(f) => WorkerFilter::Version(*f),
            WorkerFilter::CreatedAt(f) => WorkerFilter::CreatedAt(*f),
            WorkerFilter::Env(f) => WorkerFilter::Env(
                WorkerEnvFilter {
                    name: f.name.clone(),
                    comparator: f.comparator,
                    value: f.value.clone(),
                },
            ),
            WorkerFilter::And(f) => WorkerFilter::And(
                WorkerAndFilter { filters: clone_filters(&f.filters) },
            ),
            WorkerFilter::Or(f) => WorkerFilter::Or(
                WorkerOrFilter { filters: clone_filters(&f.filters) },
            ),
            WorkerFilter::Not(f) => {
                let inner: &WorkerFilter = &f.filter;
                WorkerFilter::Not(WorkerNotFilter { filter: Box::new(inner.clone()) })
            },
        }
    }
}

impl WorkerNameFilter {
    pub fn new(comparator: StringFilterComparator, value: String) -> (r: Self)
        ensures
            r.comparator == comparator,
            r.value == value,
    {
        WorkerNameFilter { comparator, value }
    }
}

impl WorkerStatusFilter {
    pub fn new(comparator: FilterComparator, value: WorkerStatus) -> (r: Self)
        ensures
            r.comparator == comparator,
            r.value == value,
    {
        WorkerStatusFilter { comparator, value }
    }
}

impl WorkerVersionFilter {
    pub fn new(comparator: FilterComparator, value: u64) -> (r: Self)
        ensures
            r.comparator == comparator,
            r.value == value,
    {
        WorkerVersionFilter { comparator, value }
    }
}

impl WorkerCreatedAtFilter {
    pub fn new(comparator: FilterComparator, value: Timestamp) -> (r: Self)
        ensures
            r.comparator == comparator,
            r.value == value,
    {
        WorkerCreatedAtFilter { comparator, value }
    }
}

impl WorkerEnvFilter {
    pub fn new(name: String, comparator: StringFilterComparator, value: String) -> (r: Self)
        ensures
            r.name == name,
            r.comparator == comparator,
            r.value == value,
    {
        WorkerEnvFilter { name, comparator, value }
    }
}

impl WorkerAndFilter {
    pub fn new(filters: Vec<WorkerFilter>) -> (r: Self)
        ensures
            r.filters == filters,
    {
        WorkerAndFilter { filters }
    }
}

impl WorkerOrFilter {
    pub fn new(filters: Vec<WorkerFilter>) -> (r: Self)
        ensures
            r.filters == filters,
    {
        WorkerOrFilter { filters }
    }
}

impl WorkerNotFilter {
    pub fn new(filter: WorkerFilter) -> (r: Self)
        ensures
            *r.filter == filter,
    {
        WorkerNotFilter { filter: Box::new(filter) }
    }
}

impl WorkerFilter {
    /// `self` and `filter`. Added to the end of an `And` node, otherwise a
    /// new `And` node of the two.
    pub fn and(&self, filter: WorkerFilter) -> (r: WorkerFilter)
        ensures
            r is And,
            match *self {
                WorkerFilter::And(a) => {
                    &&& r->And_0.filters@.len() == a.filters@.len() + 1
                    &&& same_filters(r->And_0.filters@.drop_last(), a.filters@)
                    &&& r->And_0.filters@.last() == filter
                },
                _ => {
                    &&& r->And_0.filters@.len() == 2
                    &&& same_filter(r->And_0.filters@[0], *self)
                    &&& r->And_0.filters@[1] == filter
                },
            },
    {
        match self {
            WorkerFilter::And(a) => {
                let mut fs = clone_filters(&a.filters);
                let ghost before = fs@;
                proof {
                    lemma_same_filters(before, a.filters@);
                }
                fs.push(filter);
                assert(fs@.drop_last() == before);
                Self::new_and(fs)
            },
            _ => Self::new_and(vec![self.clone(), filter]),
        }
    }

    /// `self` or `filter`. Added to the end of an `Or` node, otherwise a new
    /// `Or` node of the two.
    pub fn or(&self, filter: WorkerFilter) -> (r: WorkerFilter)
        ensures
            r is Or,
            match *self {
                WorkerFilter::Or(a) => {
                    &&& r->Or_0.filters@.len() == a.filters@.len() + 1
                    &&& same_filters(r->Or_0.filters@.drop_last(), a.filters@)
                    &&& r->Or_0.filters@.last() == filter
                },
                _ => {
                    &&& r->Or_0.filters@.len() == 2
                    &&& same_filter(r->Or_0.filters@[0], *self)
                    &&& r->Or_0.filters@[1] == filter
                },
            },
    {
        match self {
            WorkerFilter::Or(a) => {
                let mut fs = clone_filters(&a.filters);
                let ghost before = fs@;
                proof {
                    lemma_same_filters(before, a.filters@);
                }
                fs.push(filter);
                assert(fs@.drop_last() == before);
                Self::new_or(fs)
            },
            _ => Self::new_or(vec![self.clone(), filter]),
        }
    }

    /// Not `self`.
    pub fn not(&self) -> (r: WorkerFilter)
        ensures
            r is Not,
            same_filter(*r->Not_0.filter, *self),
    {
        Self::new_not(self.clone())
    }

    pub fn new_and(filters: Vec<WorkerFilter>) -> (r: WorkerFilter)
        ensures
            r == WorkerFilter::And(WorkerAndFilter { filters }),
    {
        WorkerFilter::And(WorkerAndFilter::new(filters))
    }

    pub fn new_or(filters: Vec<WorkerFilter>) -> (r: WorkerFilter)
        ensures
            r == WorkerFilter::Or(WorkerOrFilter { filters }),
    {
        WorkerFilter::Or(WorkerOrFilter::new(filters))
    }

    pub fn new_not(filter: WorkerFilter) -> (r: WorkerFilter)
        ensures
            r is Not,
            *r->Not_0.filter == filter,
    {
        WorkerFilter::Not(WorkerNotFilter::new(filter))
    }

    pub fn new_name(comparator: StringFilterComparator, value: String) -> (r: WorkerFilter)
        ensures
            r == WorkerFilter::Name(WorkerNameFilter { comparator, value }),
    {
        WorkerFilter::Name(WorkerNameFilter::new(comparator, value))
    }

    pub fn new_env(name: String, comparator: StringFilterComparator, value: String) -> (r:
        WorkerFilter)
        ensures
            r == WorkerFilter::Env(WorkerEnvFilter { name, comparator, value }),
    {
        WorkerFilter::Env(WorkerEnvFilter::new(name, comparator, value))
    }

    pub fn new_version(comparator: FilterComparator, value: u64) -> (r: WorkerFilter)
        ensures
            r == WorkerFilter::Version(WorkerVersionFilter { comparator, value }),
    {
        WorkerFilter::Version(WorkerVersionFilter::new(comparator, value))
    }

    pub fn new_status(comparator: FilterComparator, value: WorkerStatus) -> (r: WorkerFilter)
        ensures
            r == WorkerFilter::Status(WorkerStatusFilter { comparator, value }),
    {
        WorkerFilter::Status(WorkerStatusFilter::new(comparator, value))
    }

    pub fn new_created_at(comparator: FilterComparator, value: Timestamp) -> (r: WorkerFilter)
        ensures
            r == WorkerFilter::CreatedAt(WorkerCreatedAtFilter { comparator, value }),
    {
        WorkerFilter::CreatedAt(WorkerCreatedAtFilter::new(comparator, value))
    }

    /// Whether the filter holds of `metadata`. `And` stops at the first filter
    /// that fails, `Or` at the first that holds.
    pub fn matches(&self, metadata: &WorkerMetadata) -> (r: bool)
        ensures
            r == filter_matches(*self, *metadata),
        decreases self,
    {
        match self {
            WorkerFilter::Name(f) => f.comparator.matches(&metadata.worker_id.worker_name, &f.value),
            WorkerFilter::Version(f) => f.comparator.matches(
                metadata.last_known_status.component_version as i128,
                f.value as i128,
            ),
            WorkerFilter::Env(f) => {
                let name = to_lower(f.name.as_str());
                let env = &metadata.env;
                let mut i: usize = 0;
                assert(env@.subrange(0, env@.len() as int) == env@);
                while i < env.len()
                    invariant
                        *self == WorkerFilter::Env(*f),
                        env == &metadata.env,
                        i <= env@.len(),
                        name@ == lower_of(f.name@),
                        env_matches(env@, f.name@, f.comparator, f.value@) == env_matches(
                            env@.subrange(i as int, env@.len() as int),
                            f.name@,
                            f.comparator,
                            f.value@,
                        ),
                    decreases env@.len() - i,
                {
                    let ghost rest = env@.subrange(i as int, env@.len() as int);
                    assert(rest[0] == env@[i as int]);
                    assert(rest.subrange(1, rest.len() as int) == env@.subrange(
                        i + 1,
                        env@.len() as int,
                    ));
                    let entry_name = to_lower(env[i].0.as_str());
                    if entry_name == name {
                        assert(lower_of(rest[0].0@) == lower_of(f.name@));
                        assert(env_matches(rest, f.name@, f.comparator, f.value@) == string_matches(
                            f.comparator,
                            env@[i as int].1@,
                            f.value@,
                        ));
                        return f.comparator.matches(&env[i].1, &f.value);
                    }
                    i = i + 1;
                }
                false
            },
            WorkerFilter::CreatedAt(f) => f.comparator.matches(
                metadata.created_at.millis as i128,
                f.value.millis as i128,
            ),
            WorkerFilter::Status(f) => f.comparator.matches(
                metadata.last_known_status.status.to_i32() as i128,
                f.value.to_i32() as i128,
            ),
            WorkerFilter::Not(f) => {
                let inner: &WorkerFilter = &f.filter;
                !inner.matches(metadata)
            },
            WorkerFilter::And(f) => all_filters_match(&f.filters, metadata),
            WorkerFilter::Or(f) => any_filter_matches(&f.filters, metadata),
        }
    }
}

/// Whether every filter holds, stopping at the first that fails.
fn all_filters_match(fs: &Vec<WorkerFilter>, metadata: &WorkerMetadata) -> (r: bool)
    ensures
        r == all_match(fs@, *metadata),
    decreases fs,
{
    proof {
        lemma_all_any(fs@, *metadata);
    }
    let mut i: usize = 0;
    while i < fs.len()
        invariant
            i <= fs@.len(),
            forall|j: int| 0 <= j < i ==> filter_matches(fs@[j], *metadata),
            all_match(fs@, *metadata) <==> forall|j: int|
                0 <= j < fs@.len() ==> filter_matches(fs@[j], *metadata),
        decreases fs@.len() - i,
    {
        proof {
            assert(decreases_to!(fs => fs[i as int]));
        }
        if !fs[i].matches(metadata) {
            return false;
        }
        i = i + 1;
    }
    true
}

/// Whether some filter holds, stopping at the first that does.
fn any_filter_matches(fs: &Vec<WorkerFilter>, metadata: &WorkerMetadata) -> (r: bool)
    ensures
        r == any_match(fs@, *metadata),
    decreases fs,
{
    proof {
        lemma_all_any(fs@, *metadata);
    }
    let mut i: usize = 0;
    while i < fs.len()
        invariant
            i <= fs@.len(),
            forall|j: int| 0 <= j < i ==> !filter_matches(fs@[j], *metadata),
            any_match(fs@, *metadata) <==> exists|j: int|
                0 <= j < fs@.len() && filter_matches(fs@[j], *metadata),
        decreases fs@.len() - i,
    {
        proof {
            assert(decreases_to!(fs => fs[i as int]));
        }
        if fs[i].matches(metadata) {
            return true;
        }
        i = i + 1;
    }
    false
}


/// A field word `env.<name>` addresses an environment variable.
pub open spec fn is_env_key(key: Seq<char>) -> bool {
    key.len() >= 4 && key.subrange(0, 4) == "env."@
}

/// Whether the filter text `<field> <comparator> <value>` (exactly three
/// words) can be read.
pub open spec fn filter_text_valid(s: Seq<char>) -> bool {
    let ws = words(s);
    ws.len() == 3 && {
        let key = ws[0];
        let cmp = lower_of(ws[1]);
        let val = ws[2];
        if key == "name"@ {
            string_comparator_word(cmp) is Some
        } else if key == "version"@ {
            comparator_word(cmp) is Some && parse_unsigned(val, u64::MAX as nat) is Ok
        } else if key == "status"@ {
            comparator_word(cmp) is Some && status_word(lower_of(val)) is Some
        } else if key == "created_at"@ || key == "createdAt"@ {
            comparator_word(cmp) is Some && iso8601_millis(val) is Some
        } else {
            is_env_key(key) && string_comparator_word(cmp) is Some
        }
    }
}

/// The filter text `s` describes the predicate `f`.
pub open spec fn filter_text_describes(s: Seq<char>, f: WorkerFilter) -> bool {
    let ws = words(s);
    ws.len() == 3 && {
        let key = ws[0];
        let cmp = lower_of(ws[1]);
        let val = ws[2];
        match f {
            WorkerFilter::Name(n) => key == "name"@ && string_comparator_word(cmp) == Some(
                n.comparator,
            ) && n.value@ == val,
            WorkerFilter::Version(v) => key == "version"@ && comparator_word(cmp) == Some(
                v.comparator,
            ) && parse_unsigned(val, u64::MAX as nat) == Ok::<nat, IntParseError>(v.value as nat),
            WorkerFilter::Status(st) => key == "status"@ && comparator_word(cmp) == Some(
                st.comparator,
            ) && status_word(lower_of(val)) == Some(st.value),
            WorkerFilter::CreatedAt(c) => (key == "created_at"@ || key == "createdAt"@)
                && comparator_word(cmp) == Some(c.comparator) && iso8601_millis(val) == Some(
                c.value.millis,
            ),
            WorkerFilter::Env(e) => key != "name"@ && key != "version"@ && key != "status"@ && key
                != "created_at"@ && key != "createdAt"@ && is_env_key(key) && e.name@
                == key.subrange(4, key.len() as int) && string_comparator_word(cmp) == Some(
                e.comparator,
            ) && e.value@ == val,
            _ => false,
        }
    }
}

fn invalid_filter(s: &str) -> (r: String) {
    let mut e = String::from_str("Invalid filter: ");
    e.append(s);
    e
}

impl WorkerFilter {
    /// Reads one predicate from its text `<field> <comparator> <value>`:
    /// three words apart by white space. The field is `name`, `version`,
    /// `status`, `created_at` (or `createdAt`), or `env.<name>`.
    pub fn parse(s: &str) -> (r: Result<WorkerFilter, String>)
        ensures
            r is Ok <==> filter_text_valid(s@),
            r is Ok ==> filter_text_describes(s@, r->Ok_0),
    {
        let cs = chars_of(s);
        let ws = split_words(&cs);
        if ws.len() != 3 {
            return Err(invalid_filter(s));
        }
        assert(ws@[0]@ == words(s@)[0] && ws@[1]@ == words(s@)[1] && ws@[2]@ == words(s@)[2]);
        let key = &ws[0];
        let cmp = string_of(&ws[1]);
        let val = &ws[2];
        if chars_eq_str(key, "name") {
            match StringFilterComparator::parse(cmp.as_str()) {
                Ok(c) => Ok(WorkerFilter::new_name(c, string_of(val))),
                Err(e) => Err(e),
            }
        } else if chars_eq_str(key, "version") {
            match FilterComparator::parse(cmp.as_str()) {
                Ok(c) => match parse_unsigned_chars(val, u64::MAX) {
                    Ok(v) => Ok(WorkerFilter::new_version(c, v)),
                    Err(e) => {
                        let mut m = String::from_str("Invalid filter value: ");
                        let text = e.message();
                        m.append(text.as_str());
                        Err(m)
                    },
                },
                Err(e) => Err(e),
            }
        } else if chars_eq_str(key, "status") {
            match FilterComparator::parse(cmp.as_str()) {
                Ok(c) => match WorkerStatus::parse(string_of(val).as_str()) {
                    Ok(st) => Ok(WorkerFilter::new_status(c, st)),
                    Err(e) => Err(e),
                },
                Err(e) => Err(e),
            }
        } else if chars_eq_str(key, "created_at") || chars_eq_str(key, "createdAt") {
            match FilterComparator::parse(cmp.as_str()) {
                Ok(c) => match Timestamp::parse(string_of(val).as_str()) {
                    Ok(t) => Ok(WorkerFilter::new_created_at(c, t)),
                    Err(e) => Err(e),
                },
                Err(e) => Err(e),
            }
        } else if key.len() >= 4 && chars_eq_str(&sub_chars(key, 0, 4), "env.") {
            match StringFilterComparator::parse(cmp.as_str()) {
                Ok(c) => {
                    let name = string_of(&sub_chars(key, 4, key.len()));
                    Ok(WorkerFilter::new_env(name, c, string_of(val)))
                },
                Err(e) => Err(e),
            }
        } else {
            Err(invalid_filter(s))
        }
    }

    /// The conjunction of the filters that the texts describe; the first text
    /// that cannot be read gives the error.
    pub fn from(filters: Vec<String>) -> (r: Result<WorkerFilter, String>)
        ensures
            r is Ok <==> forall|i: int| 0 <= i < filters@.len() ==> filter_text_valid(filters@[i]@),
            r is Ok ==> r->Ok_0 is And && r->Ok_0->And_0.filters@.len() == filters@.len()
                && forall|i: int|
                0 <= i < filters@.len() ==> filter_text_describes(
                    filters@[i]@,
                    r->Ok_0->And_0.filters@[i],
                ),
    {
        let mut fs: Vec<WorkerFilter> = Vec::new();
        let mut i: usize = 0;
        while i < filters.len()
            invariant
                i <= filters@.len(),
                fs@.len() == i,
                forall|j: int| 0 <= j < i ==> #[trigger] filter_text_valid(filters@[j]@),
                forall|j: int| 0 <= j < i ==> #[trigger] filter_text_describes(filters@[j]@, fs@[j]),
            decreases filters@.len() - i,
        {
            let ghost before = fs@;
            let text = filters[i].as_str();
            assert(text@ == filters@[i as int]@);
            match Self::parse(text) {
                Ok(f) => {
                    fs.push(f);
                    assert(fs@[i as int] == f);
                    assert(filter_text_valid(filters@[i as int]@));
                    assert(filter_text_describes(filters@[i as int]@, fs@[i as int]));
                },
                Err(e) => {
                    assert(!filter_text_valid(filters@[i as int]@));
                    return Err(e);
                },
            }
            assert forall|j: int| 0 <= j < i + 1 implies filter_text_describes(filters@[j]@, fs@[j]) by {
                if j < i {
                    assert(fs@[j] == before[j]);
                }
            }
            i = i + 1;
        }
        assert(fs@.len() == filters@.len());
        Ok(WorkerFilter::new_and(fs))
    }
}

impl std::str::FromStr for WorkerFilter {
    type Err = String;

    fn from_str(s: &str) -> Result<WorkerFilter, String> {
        WorkerFilter::parse(s)
    }
}

/// An empty `And` holds of every worker and an empty `Or` of none; `Not`
/// negates.
pub proof fn empty_and_or_and_not(
    a: WorkerAndFilter,
    o: WorkerOrFilter,
    n: WorkerNotFilter,
    m: WorkerMetadata,
)
    requires
        a.filters@.len() == 0,
        o.filters@.len() == 0,
    ensures
        filter_matches(WorkerFilter::And(a), m),
        !filter_matches(WorkerFilter::Or(o), m),
        filter_matches(WorkerFilter::Not(n), m) == !filter_matches(*n.filter, m),
{
    lemma_all_any(a.filters@, m);
    lemma_all_any(o.filters@, m);
}

/// An `And` holds when each of its filters does, an `Or` when one of them does.
pub proof fn and_or_semantics(a: WorkerAndFilter, o: WorkerOrFilter, m: WorkerMetadata)
    ensures
        filter_matches(WorkerFilter::And(a), m) <==> forall|i: int|
            0 <= i < a.filters@.len() ==> filter_matches(a.filters@[i], m),
        filter_matches(WorkerFilter::Or(o), m) <==> exists|i: int|
            0 <= i < o.filters@.len() && filter_matches(o.filters@[i], m),
{
    lemma_all_any(a.filters@, m);
    lemma_all_any(o.filters@, m);
}

/// An env filter is decided by the first variable whose name equals the
/// filter's once both are lower-cased; later variables of that name do not
/// count, and with no such variable it fails.
pub proof fn env_filter_uses_first_match(e: WorkerEnvFilter, m: WorkerMetadata, i: int)
    requires
        0 <= i < m.env@.len(),
        lower_of(m.env@[i].0@) == lower_of(e.name@),
        forall|j: int| 0 <= j < i ==> lower_of(m.env@[j].0@) != lower_of(e.name@),
    ensures
        filter_matches(WorkerFilter::Env(e), m) == string_matches(
            e.comparator,
            m.env@[i].1@,
            e.value@,
        ),
{
    lemma_env_first(m.env@, e.name@, e.comparator, e.value@, i);
}

proof fn lemma_env_first(
    env: Seq<(String, String)>,
    name: Seq<char>,
    c: StringFilterComparator,
    value: Seq<char>,
    i: int,
)
    requires
        0 <= i < env.len(),
        lower_of(env[i].0@) == lower_of(name),
        forall|j: int| 0 <= j < i ==> lower_of(env[j].0@) != lower_of(name),
    ensures
        env_matches(env, name, c, value) == string_matches(c, env[i].1@, value),
    decreases i,
{
    if i > 0 {
        let rest = env.subrange(1, env.len() as int);
        assert(lower_of(env[0].0@) != lower_of(name));
        assert(rest[i - 1] == env[i]);
        assert forall|j: int| 0 <= j < i - 1 implies lower_of(rest[j].0@) != lower_of(name) by {
            assert(rest[j] == env[j + 1]);
        }
        lemma_env_first(rest, name, c, value, i - 1);
    }
}


pub open spec fn string_comparator_text(c: StringFilterComparator) -> Seq<char> {
    match c {
        StringFilterComparator::Equal => "=="@,
        StringFilterComparator::NotEqual => "!="@,
        StringFilterComparator::Like => "like"@,
        StringFilterComparator::NotLike => "notlike"@,
    }
}

pub open spec fn comparator_text(c: FilterComparator) -> Seq<char> {
    match c {
        FilterComparator::Equal => "=="@,
        FilterComparator::NotEqual => "!="@,
        FilterComparator::GreaterEqual => ">="@,
        FilterComparator::Greater => ">"@,
        FilterComparator::LessEqual => "<="@,
        FilterComparator::Less => "<"@,
    }
}

/// The text of a filter. Leaves read `<field> <comparator> <value>` (a
/// status leaf is always written with `==`); `And` and `Or` nodes join their
/// filters with ` AND ` / ` OR ` in parentheses; `Not` reads `NOT (<filter>)`.
pub open spec fn filter_text(f: WorkerFilter) -> Seq<char>
    decreases f,
{
    match f {
        WorkerFilter::Name(n) => "name "@ + string_comparator_text(n.comparator) + " "@ + n.value@,
        WorkerFilter::Status(st) => "status == "@ + status_name(st.value),
        WorkerFilter::Version(v) => "version "@ + comparator_text(v.comparator) + " "@ + decimal(
            v.value as nat,
        ),
        WorkerFilter::CreatedAt(c) => "created_at "@ + comparator_text(c.comparator) + " "@
            + timestamp_text(c.value.millis),
        WorkerFilter::Env(e) => "env."@ + e.name@ + " "@ + string_comparator_text(e.comparator)
            + " "@ + e.value@,
        WorkerFilter::And(a) => "("@ + joined_text(a.filters@, " AND "@) + ")"@,
        WorkerFilter::Or(o) => "("@ + joined_text(o.filters@, " OR "@) + ")"@,
        WorkerFilter::Not(n) => "NOT ("@ + filter_text(*n.filter) + ")"@,
    }
}

/// The texts of the filters, with `sep` between each two.
pub open spec fn joined_text(fs: Seq<WorkerFilter>, sep: Seq<char>) -> Seq<char>
    decreases fs,
{
    if fs.len() == 0 {
        Seq::empty()
    } else if fs.len() == 1 {
        filter_text(fs[0])
    } else {
        joined_text(fs.subrange(0, fs.len() - 1), sep) + sep + filter_text(fs[fs.len() - 1])
    }
}

fn push_joined(s: &mut String, fs: &Vec<WorkerFilter>, sep: &str)
    ensures
        final(s)@ == old(s)@ + joined_text(fs@, sep@),
    decreases fs,
{
    let ghost start = s@;
    let mut i: usize = 0;
    while i < fs.len()
        invariant
            i <= fs@.len(),
            s@ == start + joined_text(fs@.subrange(0, i as int), sep@),
        decreases fs@.len() - i,
    {
        proof {
            assert(decreases_to!(fs => fs[i as int]));
        }
        let ghost prefix = fs@.subrange(0, i + 1);
        assert(prefix.subrange(0, prefix.len() - 1) == fs@.subrange(0, i as int));
        assert(prefix[prefix.len() - 1] == fs@[i as int]);
        if i > 0 {
            s.append(sep);
        }
        let t = fs[i].to_string();
        s.append(t.as_str());
        proof {
            if i == 0 {
                assert(fs@.subrange(0, 0) == Seq::<WorkerFilter>::empty());
            }
        }
        i = i + 1;
    }
    assert(fs@.subrange(0, i as int) == fs@);
}

impl WorkerFilter {
    /// The filter's text.
    pub fn to_string(&self) -> (r: String)
        ensures
            r@ == filter_text(*self),
        decreases self,
    {
        match self {
            WorkerFilter::Name(n) => {
                let mut s = String::from_str("name ");
                let c = n.comparator.to_string();
                s.append(c.as_str());
                s.append(" ");
                s.append(n.value.as_str());
                s
            },
            WorkerFilter::Status(st) => {
                let mut s = String::from_str("status == ");
                let v = st.value.to_string();
                s.append(v.as_str());
                s
            },
            WorkerFilter::Version(v) => {
                let mut s = String::from_str("version ");
                let c = v.comparator.to_string();
                s.append(c.as_str());
                s.append(" ");
                push_decimal(&mut s, v.value);
                s
            },
            WorkerFilter::CreatedAt(c) => {
                let mut s = String::from_str("created_at ");
                let t = c.comparator.to_string();
                s.append(t.as_str());
                s.append(" ");
                let v = c.value.to_string();
                s.append(v.as_str());
                s
            },
            WorkerFilter::Env(e) => {
                let mut s = String::from_str("env.");
                s.append(e.name.as_str());
                s.append(" ");
                let c = e.comparator.to_string();
                s.append(c.as_str());
                s.append(" ");
                s.append(e.value.as_str());
                s
            },
            WorkerFilter::And(a) => {
                let mut s = String::from_str("(");
                push_joined(&mut s, &a.filters, " AND ");
                s.append(")");
                s
            },
            WorkerFilter::Or(o) => {
                let mut s = String::from_str("(");
                push_joined(&mut s, &o.filters, " OR ");
                s.append(")");
                s
            },
            WorkerFilter::Not(n) => {
                let mut s = String::from_str("NOT (");
                let inner: &WorkerFilter = &n.filter;
                let t = inner.to_string();
                s.append(t.as_str());
                s.append(")");
                s
            },
        }
    }
}

} // verus!
