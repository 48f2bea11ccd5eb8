//! Header values and the header map of the HTTP transport, with a model of
//! what a map holds.
use vstd::prelude::*;
use reqwest::header::{HeaderMap, HeaderValue, InvalidHeaderValue};

verus! {

#[verifier::external_type_specification]
#[verifier::external_body]
#[verifier::reject_recursive_types(T)]
pub struct ExHeaderMap<T>(HeaderMap<T>);

#[verifier::external_type_specification]
#[verifier::external_body]
pub struct ExHeaderValue(HeaderValue);

#[verifier::external_type_specification]
#[verifier::external_body]
pub struct ExInvalidHeaderValue(InvalidHeaderValue);

/// The entries of a header map: each (lower-case) header name with its values,
/// as bytes, in the order in which they were added.
pub uninterp spec fn header_entries(m: HeaderMap) -> Map<Seq<char>, Seq<Seq<u8>>>;

/// The names of a header map whose values are all marked sensitive, so that
/// the transport never shows them in a debug or trace rendering.
pub uninterp spec fn sensitive_names(m: HeaderMap) -> Set<Seq<char>>;

/// The most names that the map of one request is built to hold; a header map
/// this small never reaches the transport's size limit.
pub const MAX_HEADER_NAMES: usize = 4096;

/// A byte that may stand in an HTTP header value: visible ASCII, a space, a
/// tab, or any byte of 128 or more.
pub open spec fn valid_header_byte(b: u8) -> bool {
    (b >= 32 && b != 127) || b == 9
}

pub open spec fn valid_header_bytes(bs: Seq<u8>) -> bool {
    forall|i: int| 0 <= i < bs.len() ==> valid_header_byte(#[trigger] bs[i])
}

/// A name that the transport takes as a constant: lower-case letters and `-`.
pub open spec fn is_static_header_name(name: Seq<char>) -> bool {
    &&& 0 < name.len() <= 64
    &&& forall|i: int|
        0 <= i < name.len() ==> (('a' <= #[trigger] name[i] && name[i] <= 'z') || name[i] == '-')
}

/// Relies on `HeaderMap::new`: a new map is empty.
#[verifier::external_body]
pub(crate) fn empty_header_map() -> (r: HeaderMap)
    ensures
        header_entries(r) =~= Map::empty(),
        sensitive_names(r) =~= Set::empty(),
{
    HeaderMap::new()
}

/// Relies on `HeaderValue::from_bytes`, which accepts exactly the bytes of
/// `valid_header_byte`, on `HeaderValue::set_sensitive`, and on
/// `HeaderMap::insert`, which replaces all earlier values of the name.
/// A map of fewer than `MAX_HEADER_NAMES` names never overflows.
#[verifier::external_body]
pub(crate) fn insert_header(
    m: &mut HeaderMap,
    name: &'static str,
    value: &[u8],
    sensitive: bool,
) -> (r: Result<(), InvalidHeaderValue>)
    requires
        is_static_header_name(name@),
        header_entries(*old(m)).dom().finite(),
        header_entries(*old(m)).dom().len() < MAX_HEADER_NAMES,
    ensures
        r is Ok <==> valid_header_bytes(value@),
        r is Ok ==> header_entries(*final(m)) == header_entries(*old(m)).insert(
            name@,
            seq![value@],
        ),
        r is Ok && sensitive ==> sensitive_names(*final(m)) == sensitive_names(*old(m)).insert(
            name@,
        ),
        r is Ok && !sensitive ==> sensitive_names(*final(m)) == sensitive_names(*old(m)).remove(
            name@,
        ),
        r is Err ==> header_entries(*final(m)) == header_entries(*old(m)),
        r is Err ==> sensitive_names(*final(m)) == sensitive_names(*old(m)),
{
    let mut v = HeaderValue::from_bytes(value)?;
    v.set_sensitive(sensitive);
    m.insert(name, v);
    Ok(())
}

/// Relies on `HeaderMap::keys_len`: the number of distinct names in the map.
#[verifier::external_body]
pub(crate) fn header_names_len(m: &HeaderMap) -> (r: usize)
    ensures
        r == header_entries(*m).dom().len(),
{
    m.keys_len()
}

/// Relies on `Extend<(Option<HeaderName>, T)>` of `HeaderMap`: each name of
/// `other` replaces all values that `m` held under that name by its own.
/// Maps of at most `MAX_HEADER_NAMES` names in all never overflow.
#[verifier::external_body]
pub(crate) fn extend_headers(m: &mut HeaderMap, other: HeaderMap)
    requires
        header_entries(*old(m)).dom().finite(),
        header_entries(*old(m)).dom().len() + header_entries(other).dom().len()
            <= MAX_HEADER_NAMES,
    ensures
        header_entries(*final(m)) == header_entries(*old(m)).union_prefer_right(
            header_entries(other),
        ),
        sensitive_names(*final(m)) == sensitive_names(*old(m)).difference(
            header_entries(other).dom(),
        ).union(sensitive_names(other)),
{
    m.extend(other);
}

/// The bytes of a non-negative decimal text may all stand in a header value.
pub proof fn lemma_digits_valid(n: nat)
    ensures
        valid_header_bytes(vstd::utf8::encode_utf8(crate::text::digits_of(n))),
{
    let cs = crate::text::digits_of(n);
    crate::text::lemma_digits_ascii(n);
    assert(vstd::utf8::is_ascii_chars(cs));
    vstd::utf8::is_ascii_chars_encode_utf8(cs);
    let bs = vstd::utf8::encode_utf8(cs);
    assert forall|i: int| 0 <= i < bs.len() implies valid_header_byte(#[trigger] bs[i]) by {
        assert(cs[i] as u8 == bs[i]);
        assert('0' <= cs[i] <= '9');
    }
}

} // verus!
