//! Response headers, and the one that is never forwarded.

use vstd::prelude::*;

use crate::route::chars_of;

verus! {

/// One HTTP header: its name and its raw value.
#[derive(Clone, Debug, PartialEq, Eq)]
pub struct Header {
    pub name: String,
    pub value: Vec<u8>,
}

/// `a` and `b` are the same character once ASCII letters are folded to lower case.
pub open spec fn same_char_ignoring_ascii_case(a: char, b: char) -> bool {
    ||| a == b
    ||| (65 <= a as u32 <= 90 && a as u32 + 32 == b as u32)
    ||| (65 <= b as u32 <= 90 && b as u32 + 32 == a as u32)
}

/// `a` and `b` are the same text once ASCII letters are folded to lower case.
pub open spec fn same_ignoring_ascii_case(a: Seq<char>, b: Seq<char>) -> bool {
    &&& a.len() == b.len()
    &&& forall|i: int| 0 <= i < a.len() ==> same_char_ignoring_ascii_case(#[trigger] a[i], b[i])
}

/// A header of this name describes an encoding of the body that no longer
/// holds once the body is re-streamed, so it is never forwarded.
pub open spec fn is_content_encoding(name: Seq<char>) -> bool {
    same_ignoring_ascii_case(name, "content-encoding"@)
}

/// A header that the proxy passes on to the caller.
pub open spec fn is_forwarded(h: Header) -> bool {
    !is_content_encoding(h.name@)
}

/// The headers of `headers` that are passed on, in their order.
pub open spec fn forwarded_headers(headers: Seq<Header>) -> Seq<Header> {
    headers.filter(|h: Header| is_forwarded(h))
}

fn same_char_ignore_ascii_case(a: char, b: char) -> (r: bool)
    ensures
        r == same_char_ignoring_ascii_case(a, b),
{
    let x = a as u32;
    let y = b as u32;
    x == y || (65 <= x && x <= 90 && x + 32 == y) || (65 <= y && y <= 90 && y + 32 == x)
}

/// Whether `name` is `content-encoding`, in any ASCII case.
pub fn is_content_encoding_name(name: &str) -> (r: bool)
    ensures
        r == is_content_encoding(name@),
{
    let a = chars_of(name);
    let b = chars_of("content-encoding");
    if a.len() != b.len() {
        return false;
    }
    let mut i: usize = 0;
    while i < a.len()
        invariant
            a@ == name@,
            b@ == "content-encoding"@,
            a@.len() == b@.len(),
            i <= a@.len(),
            forall|m: int| 0 <= m < i ==> same_char_ignoring_ascii_case(#[trigger] a@[m], b@[m]),
        decreases a@.len() - i,
    {
        if !same_char_ignore_ascii_case(a[i], b[i]) {
            return false;
        }
        i = i + 1;
    }
    true
}

/// The headers that are passed on to the caller: all of `headers` but
/// `content-encoding`, in their order.
pub fn forwardable_headers(headers: Vec<Header>) -> (r: Vec<Header>)
    ensures
        r@ == forwarded_headers(headers@),
{
    let mut out: Vec<Header> = Vec::new();
    for h in it: headers.into_iter()
        invariant
            it.seq() == headers@,
            out@ == forwarded_headers(it.seq().take(it.index() as int)),
    {
        let ghost k = it.index() as int;
        proof {
            reveal(Seq::filter);
            assert(headers@.take(k + 1).drop_last() == headers@.take(k));
            assert(headers@.take(k + 1).last() == h);
        }
        if !is_content_encoding_name(h.name.as_str()) {
            out.push(h);
        }
    }
    proof {
        assert(headers@.take(headers@.len() as int) == headers@);
    }
    out
}

/// No header that the proxy passes on is a `content-encoding` header, in any
/// case, whatever the backend sent.
pub proof fn lemma_forwarded_headers_drop_content_encoding(headers: Seq<Header>)
    ensures
        forall|i: int|
            0 <= i < forwarded_headers(headers).len() ==> !is_content_encoding(
                #[trigger] forwarded_headers(headers)[i].name@,
            ),
{
    headers.filter_lemma(|h: Header| is_forwarded(h));
}

} // verus!
