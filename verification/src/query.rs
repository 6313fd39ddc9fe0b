//! The requests that the USDⓈ-M futures REST endpoints are sent: their path,
//! HTTP method, signing and query parameters.
use vstd::prelude::*;
use rust_decimal::Decimal;

verus! {

/// `rust_decimal::Decimal` is carried through the library unchanged; nothing
/// here looks inside it.
#[verifier::external_type_specification]
#[verifier::external_body]
pub struct ExDecimal(Decimal);

/// `Decimal` is `Copy`, and its `Clone` is derived: a clone is the value
/// itself.
pub assume_specification[ <rust_decimal::Decimal as Clone>::clone ](d: &rust_decimal::Decimal) -> (r: rust_decimal::Decimal)
    ensures
        r == *d,
;

/// `serde_json::Value` is carried through the library unchanged (the batch
/// orders of the multiple-order endpoints); nothing here looks inside it.
#[verifier::external_type_specification]
#[verifier::external_body]
pub struct ExJsonValue(serde_json::Value);

/// The derived `Clone` of `serde_json::Value`; nothing is stated of the
/// copy it returns.
pub assume_specification[ <serde_json::Value as Clone>::clone ](v: &serde_json::Value) -> serde_json::Value;

/// The value of one query parameter, in the type its field had.
pub enum QueryValue {
    Text(String),
    Integer(i64),
    DecimalNumber(Decimal),
    IntegerList(Vec<i64>),
    TextList(Vec<String>),
    JsonList(Vec<serde_json::Value>),
}

/// The mathematical value of a [`QueryValue`].
pub enum QueryValueView {
    Text(Seq<char>),
    Integer(i64),
    DecimalNumber(Decimal),
    IntegerList(Seq<i64>),
    TextList(Seq<Seq<char>>),
    JsonList(Seq<serde_json::Value>),
}

impl View for QueryValue {
    type V = QueryValueView;

    open spec fn view(&self) -> QueryValueView {
        match self {
            QueryValue::Text(s) => QueryValueView::Text(s@),
            QueryValue::Integer(i) => QueryValueView::Integer(*i),
            QueryValue::DecimalNumber(d) => QueryValueView::DecimalNumber(*d),
            QueryValue::IntegerList(v) => QueryValueView::IntegerList(v@),
            QueryValue::TextList(v) => QueryValueView::TextList(v.deep_view()),
            QueryValue::JsonList(v) => QueryValueView::JsonList(v@),
        }
    }
}

/// The query parameters of a request, as a map from parameter name to value.
pub type QueryMap = Map<Seq<char>, QueryValueView>;

/// No two entries have the same key.
pub open spec fn keys_unique<V>(s: Seq<(Seq<char>, V)>) -> bool {
    forall|i: int, j: int| 0 <= i < s.len() && 0 <= j < s.len() && i != j ==> s[i].0 != s[j].0
}

/// The map whose entries are those of `s`, a later entry winning over an
/// earlier one with the same key.
pub open spec fn map_of<V>(s: Seq<(Seq<char>, V)>) -> Map<Seq<char>, V>
    decreases s.len(),
{
    if s.len() == 0 {
        Map::empty()
    } else {
        map_of(s.drop_last()).insert(s.last().0, s.last().1)
    }
}

proof fn lemma_map_of_push<V>(s: Seq<(Seq<char>, V)>, e: (Seq<char>, V))
    ensures
        map_of(s.push(e)) == map_of(s).insert(e.0, e.1),
{
    assert(s.push(e).drop_last() =~= s);
}

proof fn lemma_map_of_dom<V>(s: Seq<(Seq<char>, V)>, k: Seq<char>)
    ensures
        map_of(s).dom().contains(k) <==> exists|i: int| 0 <= i < s.len() && s[i].0 == k,
    decreases s.len(),
{
    if s.len() > 0 {
        lemma_map_of_dom(s.drop_last(), k);
        if map_of(s).dom().contains(k) && k != s.last().0 {
            let i = choose|i: int| 0 <= i < s.drop_last().len() && s.drop_last()[i].0 == k;
            assert(s[i].0 == k);
        }
        if exists|i: int| 0 <= i < s.len() && s[i].0 == k {
            let i = choose|i: int| 0 <= i < s.len() && s[i].0 == k;
            if i < s.len() - 1 {
                assert(s.drop_last()[i].0 == k);
            }
        }
    }
}

proof fn lemma_map_of_index<V>(s: Seq<(Seq<char>, V)>, i: int)
    requires
        keys_unique(s),
        0 <= i < s.len(),
    ensures
        map_of(s).dom().contains(s[i].0),
        map_of(s)[s[i].0] == s[i].1,
    decreases s.len(),
{
    if i < s.len() - 1 {
        assert(s.drop_last()[i] == s[i]);
        lemma_map_of_index(s.drop_last(), i);
    }
}

proof fn lemma_map_of_update<V>(s: Seq<(Seq<char>, V)>, i: int, v: V)
    requires
        keys_unique(s),
        0 <= i < s.len(),
    ensures
        map_of(s.update(i, (s[i].0, v))) == map_of(s).insert(s[i].0, v),
    decreases s.len(),
{
    let t = s.update(i, (s[i].0, v));
    if i == s.len() - 1 {
        assert(t.drop_last() =~= s.drop_last());
        assert(map_of(t) =~= map_of(s).insert(s[i].0, v));
    } else {
        let d = s.drop_last();
        assert(t.drop_last() =~= d.update(i, (d[i].0, v)));
        lemma_map_of_update(d, i, v);
        assert(s.last().0 != s[i].0);
        assert(map_of(t) =~= map_of(s).insert(s[i].0, v));
    }
}

/// The query parameters of a request. Like the ordered map that the request
/// layer sends, it holds each parameter name at most once, and setting a name
/// again replaces its value.
pub struct QueryParams {
    entries: Vec<(String, QueryValue)>,
}

/// The mathematical form of one entry.
pub open spec fn entry_view(e: (String, QueryValue)) -> (Seq<char>, QueryValueView) {
    (e.0@, e.1@)
}

impl QueryParams {
    /// The entries in the order in which their names were first set.
    pub closed spec fn entries_view(&self) -> Seq<(Seq<char>, QueryValueView)> {
        self.entries@.map_values(|e: (String, QueryValue)| entry_view(e))
    }

    #[verifier::type_invariant]
    closed spec fn names_unique(&self) -> bool {
        keys_unique(self.entries_view())
    }

    /// An empty set of parameters.
    pub fn new() -> (q: QueryParams)
        ensures
            q@ == QueryMap::empty(),
    {
        let q = QueryParams { entries: Vec::new() };
        assert(q.entries_view() =~= Seq::empty());
        q
    }

    /// Sets parameter `name` to `value`, replacing any value it had.
    pub fn insert(&mut self, name: String, value: QueryValue)
        ensures
            final(self)@ == old(self)@.insert(name@, value@),
    {
        proof {
            use_type_invariant(&*self);
        }
        let ghost old_entries = self.entries_view();
        let mut entries: Vec<(String, QueryValue)> = Vec::new();
        std::mem::swap(&mut entries, &mut self.entries);
        let n = entries.len();
        let mut i: usize = 0;
        while i < n
            invariant
                n == entries.len(),
                old_entries == entries@.map_values(|e: (String, QueryValue)| entry_view(e)),
                keys_unique(old_entries),
                old_entries == old(self).entries_view(),
                i <= n,
                forall|j: int| 0 <= j < i ==> old_entries[j].0 != name@,
            decreases n - i,
        {
            if entries[i].0 == name {
                let ghost e = old_entries[i as int];
                assert(e == entry_view(entries@[i as int]));
                assert(e.0 == name@);
                proof {
                    lemma_map_of_update(old_entries, i as int, value@);
                }
                entries.set(i, (name, value));
                assert(entries@.map_values(|e: (String, QueryValue)| entry_view(e)) =~= old_entries.update(
                    i as int,
                    (e.0, value@),
                ));
                self.entries = entries;
                assert(self.entries_view() =~= old_entries.update(i as int, (e.0, value@)));
                return;
            }
            assert(old_entries[i as int] == entry_view(entries@[i as int]));
            i = i + 1;
        }
        let ghost e = (name@, value@);
        entries.push((name, value));
        proof {
            lemma_map_of_push(old_entries, e);
            assert(entries@.map_values(|e: (String, QueryValue)| entry_view(e)) =~= old_entries.push(e));
        }
        self.entries = entries;
    }

    /// The value of parameter `name`, if it is set.
    pub fn get(&self, name: &str) -> (v: Option<&QueryValue>)
        ensures
            match v {
                Some(v) => self@.dom().contains(name@) && self@[name@] == v@,
                None => !self@.dom().contains(name@),
            },
    {
        proof {
            use_type_invariant(self);
        }
        let ghost s = self.entries_view();
        let key = name.to_owned();
        let n = self.entries.len();
        let mut i: usize = 0;
        while i < n
            invariant
                n == self.entries.len(),
                s == self.entries_view(),
                keys_unique(s),
                key@ == name@,
                i <= n,
                forall|j: int| 0 <= j < i ==> s[j].0 != name@,
            decreases n - i,
        {
            if self.entries[i].0 == key {
                assert(s[i as int] == entry_view(self.entries@[i as int]));
                proof {
                    lemma_map_of_index(s, i as int);
                }
                return Some(&self.entries[i].1);
            }
            assert(s[i as int] == entry_view(self.entries@[i as int]));
            i = i + 1;
        }
        proof {
            lemma_map_of_dom(s, name@);
        }
        None
    }

    /// The entries, each name once.
    pub fn into_entries(self) -> (entries: Vec<(String, QueryValue)>)
        ensures
            keys_unique(entries@.map_values(|e: (String, QueryValue)| entry_view(e))),
            map_of(entries@.map_values(|e: (String, QueryValue)| entry_view(e))) == self@,
    {
        proof {
            use_type_invariant(&self);
        }
        self.entries
    }
}

impl View for QueryParams {
    type V = QueryMap;

    closed spec fn view(&self) -> QueryMap {
        map_of(self.entries_view())
    }
}

/// Adding parameters to the mathematical form of a query, one at a time, as
/// the endpoints do.
pub trait QueryMapBuild: Sized {
    /// The query with `name` set to `value`.
    spec fn put(self, name: Seq<char>, value: QueryValueView) -> Self;

    /// The query with `name` set to the value, when there is one.
    spec fn put_opt(self, name: Seq<char>, value: Option<QueryValueView>) -> Self;
}

impl QueryMapBuild for QueryMap {
    open spec fn put(self, name: Seq<char>, value: QueryValueView) -> QueryMap {
        self.insert(name, value)
    }

    open spec fn put_opt(self, name: Seq<char>, value: Option<QueryValueView>) -> QueryMap {
        match value {
            Some(v) => self.insert(name, v),
            None => self,
        }
    }
}

/// An optional text parameter.
pub open spec fn opt_text(v: Option<String>) -> Option<QueryValueView> {
    match v {
        Some(s) => Some(QueryValueView::Text(s@)),
        None => None,
    }
}

/// An optional integer parameter.
pub open spec fn opt_integer(v: Option<i64>) -> Option<QueryValueView> {
    match v {
        Some(i) => Some(QueryValueView::Integer(i)),
        None => None,
    }
}

/// An optional decimal parameter.
pub open spec fn opt_decimal(v: Option<Decimal>) -> Option<QueryValueView> {
    match v {
        Some(d) => Some(QueryValueView::DecimalNumber(d)),
        None => None,
    }
}

/// An optional list of integers.
pub open spec fn opt_integer_list(v: Option<Vec<i64>>) -> Option<QueryValueView> {
    match v {
        Some(l) => Some(QueryValueView::IntegerList(l@)),
        None => None,
    }
}

/// An optional list of texts.
pub open spec fn opt_text_list(v: Option<Vec<String>>) -> Option<QueryValueView> {
    match v {
        Some(l) => Some(QueryValueView::TextList(l.deep_view())),
        None => None,
    }
}

/// An optional parameter that is sent by its wire name.
pub open spec fn opt_name(v: Option<Seq<char>>) -> Option<QueryValueView> {
    match v {
        Some(s) => Some(QueryValueView::Text(s)),
        None => None,
    }
}

/// Whether two texts are the same.
pub fn str_eq(a: &str, b: &str) -> (r: bool)
    ensures
        r == (a@ == b@),
{
    a.to_owned() == b.to_owned()
}

/// The HTTP method of a request.
#[derive(Debug, Clone, Copy, PartialEq, Eq, Structural)]
pub enum HttpMethod {
    Get,
    Post,
    Put,
    Delete,
}

/// Whether the endpoints forward the configured time unit; none of them does.
pub const HAS_TIME_UNIT: bool = false;

/// One request to a REST endpoint.
pub struct RestRequest {
    /// The endpoint's path.
    pub path: &'static str,
    pub method: HttpMethod,
    pub query: QueryParams,
    /// Whether the configured time unit goes with the request.
    pub uses_time_unit: bool,
    /// Whether the request is signed with the API secret.
    pub signed: bool,
}

/// The mathematical form of a [`RestRequest`].
pub struct RestRequestView {
    pub path: Seq<char>,
    pub method: HttpMethod,
    pub query: QueryMap,
    pub uses_time_unit: bool,
    pub signed: bool,
}

impl View for RestRequest {
    type V = RestRequestView;

    open spec fn view(&self) -> RestRequestView {
        RestRequestView {
            path: self.path@,
            method: self.method,
            query: self.query@,
            uses_time_unit: self.uses_time_unit,
            signed: self.signed,
        }
    }
}

} // verus!
