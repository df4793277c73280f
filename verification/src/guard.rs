use vstd::prelude::*;
use crate::ascii::{ascii_lower, to_ascii_lower};
use crate::text::chars_of;
use crate::event::EventRequest;

verus! {

/// Access control run before a use case deserializes its input or executes:
/// the use case runs only when every guard lets it proceed.
pub trait Guard: Default + Send + Sync + 'static {
    fn can_proceed(&self, context: &GuardContext) -> bool;
}

/// What a guard sees of a request: its HTTP headers and the JSON-RPC request.
#[derive(Debug, PartialEq)]
pub struct GuardContext {
    headers: RequestHeaders,
    request: EventRequest,
}

impl GuardContext {
    /// The headers of the request.
    pub closed spec fn spec_headers(&self) -> RequestHeaders {
        self.headers
    }

    /// The JSON-RPC request snapshot.
    pub closed spec fn spec_request(&self) -> EventRequest {
        self.request
    }

    pub fn new(headers: RequestHeaders, request: EventRequest) -> (context: Self)
        ensures
            context.spec_headers() == headers,
            context.spec_request() == request,
    {
        GuardContext { headers, request }
    }

    pub fn headers(&self) -> (headers: &RequestHeaders)
        ensures
            *headers == self.spec_headers(),
    {
        &self.headers
    }

    pub fn request(&self) -> (request: &EventRequest)
        ensures
            *request == self.spec_request(),
    {
        &self.request
    }
}

/// `a` and `b` are equal once ASCII letters are compared without case.
pub open spec fn eq_ignore_ascii_case(a: Seq<char>, b: Seq<char>) -> bool {
    a.len() == b.len() && forall|i: int| 0 <= i < a.len() ==> ascii_lower(#[trigger] a[i]) == ascii_lower(b[i])
}

/// Whether `a` and `b` are equal once ASCII letters are compared without case.
pub fn str_eq_ignore_ascii_case(a: &str, b: &str) -> (equal: bool)
    ensures
        equal == eq_ignore_ascii_case(a@, b@),
{
    let left = chars_of(a);
    let right = chars_of(b);
    if left.len() != right.len() {
        return false;
    }
    let mut i: usize = 0;
    while i < left.len()
        invariant
            left.len() == right.len(),
            left@ == a@,
            right@ == b@,
            i <= left.len(),
            forall|k: int| 0 <= k < i ==> ascii_lower(#[trigger] left@[k]) == ascii_lower(right@[k]),
        decreases left.len() - i,
    {
        if to_ascii_lower(left[i]) != to_ascii_lower(right[i]) {
            assert(ascii_lower(left@[i as int]) != ascii_lower(right@[i as int]));
            return false;
        }
        i += 1;
    }
    true
}

/// One HTTP request header as a name and a value.
#[derive(Clone, Debug)]
pub struct RequestHeader {
    name: String,
    value: String,
}

impl View for RequestHeader {
    type V = (Seq<char>, Seq<char>);

    closed spec fn view(&self) -> (Seq<char>, Seq<char>) {
        (self.name@, self.value@)
    }
}

impl RequestHeader {
    pub fn name(&self) -> (name: &str)
        ensures
            name@ == self@.0,
    {
        self.name.as_str()
    }

    pub fn value(&self) -> (value: &str)
        ensures
            value@ == self@.1,
    {
        self.value.as_str()
    }
}

impl PartialEq for RequestHeader {
    fn eq(&self, other: &Self) -> (equal: bool) {
        self.name == other.name && self.value == other.value
    }
}

impl Eq for RequestHeader {}

impl vstd::std_specs::cmp::PartialEqSpecImpl for RequestHeader {
    open spec fn obeys_eq_spec() -> bool {
        true
    }

    open spec fn eq_spec(&self, other: &RequestHeader) -> bool {
        self@ == other@
    }
}

/// The HTTP request headers, in the order they were received.
#[derive(Clone, Debug)]
pub struct RequestHeaders {
    headers: Vec<RequestHeader>,
}

/// The views of `headers`, in order.
pub open spec fn header_views(headers: Seq<RequestHeader>) -> Seq<(Seq<char>, Seq<char>)> {
    headers.map_values(|header: RequestHeader| header@)
}

/// The values of the headers called `name` (ignoring ASCII case), in order.
pub open spec fn spec_header_values(
    headers: Seq<(Seq<char>, Seq<char>)>,
    name: Seq<char>,
) -> Seq<Seq<char>>
    decreases headers.len(),
{
    if headers.len() == 0 {
        Seq::empty()
    } else if eq_ignore_ascii_case(headers[0].0, name) {
        seq![headers[0].1] + spec_header_values(headers.drop_first(), name)
    } else {
        spec_header_values(headers.drop_first(), name)
    }
}

impl View for RequestHeaders {
    type V = Seq<(Seq<char>, Seq<char>)>;

    closed spec fn view(&self) -> Seq<(Seq<char>, Seq<char>)> {
        header_views(self.headers@)
    }
}

impl PartialEq for RequestHeaders {
    fn eq(&self, other: &Self) -> (equal: bool) {
        if self.headers.len() != other.headers.len() {
            assert(self@.len() != other@.len());
            return false;
        }
        let mut i: usize = 0;
        while i < self.headers.len()
            invariant
                self.headers.len() == other.headers.len(),
                i <= self.headers.len(),
                forall|k: int| 0 <= k < i ==> #[trigger] self@[k] == other@[k],
            decreases self.headers.len() - i,
        {
            if !(self.headers[i] == other.headers[i]) {
                assert(self@[i as int] != other@[i as int]);
                return false;
            }
            i += 1;
        }
        assert(self@ =~= other@);
        true
    }
}

impl Eq for RequestHeaders {}

impl vstd::std_specs::cmp::PartialEqSpecImpl for RequestHeaders {
    open spec fn obeys_eq_spec() -> bool {
        true
    }

    open spec fn eq_spec(&self, other: &RequestHeaders) -> bool {
        self@ == other@
    }
}

impl Default for RequestHeaders {
    fn default() -> (headers: Self)
        ensures
            headers@ == Seq::<(Seq<char>, Seq<char>)>::empty(),
    {
        let headers = RequestHeaders { headers: Vec::new() };
        assert(headers@ =~= Seq::<(Seq<char>, Seq<char>)>::empty());
        headers
    }
}

impl RequestHeaders {
    /// Headers from `(name, value)` pairs, kept in the given order.
    pub fn new(headers: Vec<(String, String)>) -> (result: Self)
        ensures
            result@ == headers@.map_values(|pair: (String, String)| (pair.0@, pair.1@)),
    {
        let ghost pairs = headers@;
        let mut collected: Vec<RequestHeader> = Vec::new();
        for pair in it: headers.into_iter()
            invariant
                it.seq() == pairs,
                header_views(collected@) == pairs.take(it.index() as int).map_values(
                    |pair: (String, String)| (pair.0@, pair.1@),
                ),
        {
            let ghost k = it.index();
            let ghost before = collected@;
            let (name, value) = pair;
            collected.push(RequestHeader { name, value });
            assert(collected@ == before.push(RequestHeader { name, value }));
            assert(header_views(collected@) =~= header_views(before).push((name@, value@)));
            assert(pairs.take(k + 1) =~= pairs.take(k as int).push(pairs[k as int]));
            assert(pairs.take(k + 1).map_values(|pair: (String, String)| (pair.0@, pair.1@))
                =~= pairs.take(k as int).map_values(|pair: (String, String)| (pair.0@, pair.1@)).push(
                (name@, value@),
            ));
        }
        assert(pairs.take(pairs.len() as int) == pairs);
        RequestHeaders { headers: collected }
    }

    /// The first value of a header called `name`, ignoring ASCII case.
    pub fn get(&self, name: &str) -> (value: Option<&str>)
        ensures
            match value {
                Some(v) => spec_header_values(self@, name@).len() > 0 && v@ == spec_header_values(
                    self@,
                    name@,
                )[0],
                None => spec_header_values(self@, name@).len() == 0,
            },
    {
        let mut i: usize = 0;
        assert(self@.skip(0) == self@);
        while i < self.headers.len()
            invariant
                i <= self.headers.len(),
                spec_header_values(self@, name@) == spec_header_values(self@.skip(i as int), name@),
            decreases self.headers.len() - i,
        {
            assert(self@.skip(i as int).drop_first() == self@.skip(i + 1));
            assert(self@.skip(i as int)[0] == self@[i as int]);
            if str_eq_ignore_ascii_case(self.headers[i].name.as_str(), name) {
                return Some(self.headers[i].value.as_str());
            }
            i += 1;
        }
        None
    }

    /// The values of all headers called `name`, ignoring ASCII case, in order.
    pub fn values(&self, name: &str) -> (values: Vec<&str>)
        ensures
            values@.map_values(|v: &str| v@) == spec_header_values(self@, name@),
    {
        let mut found: Vec<&str> = Vec::new();
        let mut i: usize = self.headers.len();
        while i > 0
            invariant
                i <= self.headers.len(),
                found@.map_values(|v: &str| v@) == spec_header_values(self@.skip(i as int), name@),
            decreases i,
        {
            i -= 1;
            assert(self@.skip(i as int).drop_first() == self@.skip(i + 1));
            assert(self@.skip(i as int)[0] == self@[i as int]);
            if str_eq_ignore_ascii_case(self.headers[i].name.as_str(), name) {
                let ghost before = found@;
                found.insert(0, self.headers[i].value.as_str());
                assert(found@.map_values(|v: &str| v@) =~= seq![self@[i as int].1] + before.map_values(|v: &str| v@));
            }
        }
        assert(self@.skip(0) == self@);
        found
    }

    /// Every header as a `(name, value)` pair, in order.
    pub fn iter(&self) -> (pairs: Vec<(&str, &str)>)
        ensures
            pairs@.map_values(|pair: (&str, &str)| (pair.0@, pair.1@)) == self@,
    {
        let mut pairs: Vec<(&str, &str)> = Vec::new();
        let mut i: usize = 0;
        while i < self.headers.len()
            invariant
                i <= self.headers.len(),
                pairs@.map_values(|pair: (&str, &str)| (pair.0@, pair.1@)) == self@.take(i as int),
            decreases self.headers.len() - i,
        {
            let ghost before = pairs@;
            pairs.push((self.headers[i].name.as_str(), self.headers[i].value.as_str()));
            assert(pairs@.map_values(|pair: (&str, &str)| (pair.0@, pair.1@)) =~= before.map_values(
                |pair: (&str, &str)| (pair.0@, pair.1@),
            ).push(self@[i as int]));
            assert(self@.take(i + 1) =~= self@.take(i as int).push(self@[i as int]));
            i += 1;
        }
        assert(self@.take(self@.len() as int) =~= self@);
        pairs
    }

    pub fn is_empty(&self) -> (empty: bool)
        ensures
            empty == (self@.len() == 0),
    {
        self.headers.len() == 0
    }
}

/// Header lookup ignores ASCII case: two names equal up to ASCII case find
/// the same values.
pub proof fn header_lookup_ignores_ascii_case(
    headers: Seq<(Seq<char>, Seq<char>)>,
    name: Seq<char>,
    other: Seq<char>,
)
    requires
        eq_ignore_ascii_case(name, other),
    ensures
        spec_header_values(headers, name) == spec_header_values(headers, other),
    decreases headers.len(),
{
    if headers.len() > 0 {
        header_lookup_ignores_ascii_case(headers.drop_first(), name, other);
        let n = headers[0].0;
        if eq_ignore_ascii_case(n, name) {
            assert forall|i: int| 0 <= i < n.len() implies ascii_lower(#[trigger] n[i]) == ascii_lower(other[i]) by {
                assert(ascii_lower(n[i]) == ascii_lower(name[i]));
                assert(ascii_lower(name[i]) == ascii_lower(other[i]));
            }
        }
        if eq_ignore_ascii_case(n, other) {
            assert forall|i: int| 0 <= i < n.len() implies ascii_lower(#[trigger] n[i]) == ascii_lower(name[i]) by {
                assert(ascii_lower(n[i]) == ascii_lower(other[i]));
                assert(ascii_lower(name[i]) == ascii_lower(other[i]));
            }
        }
    }
}

} // verus!
