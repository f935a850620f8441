//! Classification of request paths into the role that must serve them.

use vstd::prelude::*;

verus! {

/// The role a node of the cluster serves.
#[derive(Clone, Copy, Debug, PartialEq, Eq, Structural)]
pub enum Role {
    Ingester,
    Querier,
}

/// How many path markers send a request to the queriers.
pub const QUERIER_ROUTE_COUNT: usize = 10;

/// The path markers that send a request to the queriers, in their fixed order.
pub open spec fn querier_marker(i: int) -> Seq<char> {
    if i == 0 {
        "/_search"@
    } else if i == 1 {
        "/_around"@
    } else if i == 2 {
        "/_values"@
    } else if i == 3 {
        "/api/cache/status"@
    } else if i == 4 {
        "/prometheus/api/v1/series"@
    } else if i == 5 {
        "/prometheus/api/v1/query_range"@
    } else if i == 6 {
        "/prometheus/api/v1/query"@
    } else if i == 7 {
        "/prometheus/api/v1/metadata"@
    } else if i == 8 {
        "/prometheus/api/v1/labels"@
    } else {
        "/prometheus/api/v1/label/"@
    }
}

/// `needle` stands in `hay` starting at position `k`.
pub open spec fn occurs_at(needle: Seq<char>, hay: Seq<char>, k: int) -> bool {
    0 <= k && k + needle.len() <= hay.len() && hay.subrange(k, k + needle.len()) == needle
}

/// `needle` is a substring of `hay`.
pub open spec fn occurs_in(needle: Seq<char>, hay: Seq<char>) -> bool {
    exists|k: int| occurs_at(needle, hay, k)
}

/// The path contains at least one of the querier markers.
pub open spec fn is_querier_path(path: Seq<char>) -> bool {
    exists|i: int| 0 <= i < QUERIER_ROUTE_COUNT && occurs_in(querier_marker(i), path)
}

/// The role that serves a request for `path`.
pub open spec fn role_of_path(path: Seq<char>) -> Role {
    if is_querier_path(path) {
        Role::Querier
    } else {
        Role::Ingester
    }
}

/// The querier marker at position `i`.
fn querier_route(i: usize) -> (r: &'static str)
    requires
        i < QUERIER_ROUTE_COUNT,
    ensures
        r@ == querier_marker(i as int),
{
    if i == 0 {
        "/_search"
    } else if i == 1 {
        "/_around"
    } else if i == 2 {
        "/_values"
    } else if i == 3 {
        "/api/cache/status"
    } else if i == 4 {
        "/prometheus/api/v1/series"
    } else if i == 5 {
        "/prometheus/api/v1/query_range"
    } else if i == 6 {
        "/prometheus/api/v1/query"
    } else if i == 7 {
        "/prometheus/api/v1/metadata"
    } else if i == 8 {
        "/prometheus/api/v1/labels"
    } else {
        "/prometheus/api/v1/label/"
    }
}

/// The characters of `s`, in order.
pub fn chars_of(s: &str) -> (r: Vec<char>)
    ensures
        r@ == s@,
{
    let mut out: Vec<char> = Vec::new();
    for c in it: s.chars()
        invariant
            it.seq() == s@,
            out@ == it.seq().take(it.index() as int),
    {
        out.push(c);
    }
    out
}

/// Whether `needle` stands in `hay` at position `k`.
fn matches_at(hay: &Vec<char>, needle: &Vec<char>, k: usize) -> (r: bool)
    requires
        k + needle@.len() <= hay@.len(),
    ensures
        r == occurs_at(needle@, hay@, k as int),
{
    let hay_len: usize = hay.len();
    let mut j: usize = 0;
    while j < needle.len()
        invariant
            j <= needle@.len(),
            k + needle@.len() <= hay@.len(),
            hay@.len() == hay_len,
            forall|m: int| 0 <= m < j ==> hay@[k + m] == needle@[m],
        decreases needle@.len() - j,
    {
        if hay[k + j] != needle[j] {
            assert(hay@.subrange(k as int, k + needle@.len())[j as int] != needle@[j as int]);
            return false;
        }
        j = j + 1;
    }
    assert(hay@.subrange(k as int, k + needle@.len()) =~= needle@);
    true
}

/// Whether `needle` is a substring of `hay`.
pub fn contains_chars(hay: &Vec<char>, needle: &Vec<char>) -> (r: bool)
    ensures
        r == occurs_in(needle@, hay@),
{
    if needle.len() > hay.len() {
        return false;
    }
    let last: usize = hay.len() - needle.len();
    let mut k: usize = 0;
    while k < last
        invariant
            last == hay@.len() - needle@.len(),
            k <= last,
            forall|m: int| 0 <= m < k ==> !occurs_at(needle@, hay@, m),
        decreases last - k,
    {
        if matches_at(hay, needle, k) {
            return true;
        }
        k = k + 1;
    }
    matches_at(hay, needle, last)
}

/// Whether a request for `path` must go to a querier: the path contains one
/// of the querier markers anywhere, not only as a prefix or a whole segment.
pub fn check_querier_route(path: &str) -> (r: bool)
    ensures
        r == is_querier_path(path@),
{
    let hay = chars_of(path);
    let mut i: usize = 0;
    while i < QUERIER_ROUTE_COUNT
        invariant
            hay@ == path@,
            i <= QUERIER_ROUTE_COUNT,
            forall|m: int| 0 <= m < i ==> !occurs_in(querier_marker(m), path@),
        decreases QUERIER_ROUTE_COUNT - i,
    {
        let needle = chars_of(querier_route(i));
        if contains_chars(&hay, &needle) {
            return true;
        }
        i = i + 1;
    }
    false
}

/// The role that must serve a request for `path`.
pub fn classify(path: &str) -> (r: Role)
    ensures
        r == role_of_path(path@),
{
    if check_querier_route(path) {
        Role::Querier
    } else {
        Role::Ingester
    }
}

/// A path goes to the queriers exactly where it contains one of the querier
/// markers, and to the ingesters exactly where it contains none of them.
pub proof fn lemma_querier_markers_decide_role(path: Seq<char>)
    ensures
        (exists|i: int| 0 <= i < QUERIER_ROUTE_COUNT && occurs_in(querier_marker(i), path))
            <==> role_of_path(path) == Role::Querier,
        (forall|i: int| 0 <= i < QUERIER_ROUTE_COUNT ==> !occurs_in(querier_marker(i), path))
            <==> role_of_path(path) == Role::Ingester,
{
}

/// Classification depends on the path alone: equal paths get the same role,
/// whatever was classified before.
pub proof fn lemma_classify_deterministic(p: Seq<char>, q: Seq<char>)
    requires
        p == q,
    ensures
        role_of_path(p) == role_of_path(q),
{
}

} // verus!
