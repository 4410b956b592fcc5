//! The bearer-token check that guards the restart action.

use vstd::prelude::*;
use vstd::string::StringSliceAdditionalSpecFns;
use vstd::utf8::encode_utf8;
use axum::http::{HeaderMap, HeaderValue};

verus! {

#[verifier::external_type_specification]
#[verifier::external_body]
#[verifier::reject_recursive_types(T)]
pub struct ExHeaderMap<T>(HeaderMap<T>);

#[verifier::external_type_specification]
#[verifier::external_body]
pub struct ExHeaderValue(HeaderValue);

/// What a header map holds: for each header name, in lower case, the bytes of its values
/// in the order they were added.
pub uninterp spec fn header_fields(h: HeaderMap) -> Map<Seq<char>, Seq<Seq<u8>>>;

/// A header name as the map stores it: lower-case ASCII letters and dashes.
pub open spec fn is_lower_header_name(name: Seq<char>) -> bool {
    name.len() > 0 && forall|i: int| 0 <= i < name.len() ==> ('a' <= #[trigger] name[i] <= 'z' || name[i] == '-')
}

/// Relies on http's `HeaderMap::get`, which hands out the first value stored under a
/// name, and `HeaderValue::as_bytes`, which gives that value's bytes.
#[verifier::external_body]
fn first_header_value(headers: &HeaderMap, name: &str) -> (r: Option<Vec<u8>>)
    requires
        is_lower_header_name(name@),
    ensures
        match r {
            Some(v) => header_fields(*headers).contains_key(name@) && header_fields(
                *headers,
            )[name@].len() > 0 && v@ == header_fields(*headers)[name@][0],
            None => !header_fields(*headers).contains_key(name@),
        },
{
    match headers.get(name) {
        Some(v) => Some(v.as_bytes().to_vec()),
        None => None,
    }
}

/// Whether a header value reads as text: visible ASCII characters and tabs only.
pub open spec fn visible_ascii(v: Seq<u8>) -> bool {
    forall|i: int| 0 <= i < v.len() ==> #[trigger] v[i] == 9 || (32 <= v[i] && v[i] < 127)
}

/// The bytes of `Bearer`.
pub open spec fn bearer_scheme() -> Seq<u8> {
    seq![66u8, 101u8, 97u8, 114u8, 101u8, 114u8]
}

/// The index of the first space of `v` at or after `i`, or the length of `v` if there is
/// none.
pub open spec fn token_end(v: Seq<u8>, i: int) -> int
    decreases v.len() - i,
{
    if i >= v.len() || v[i] == 32 {
        i
    } else {
        token_end(v, i + 1)
    }
}

/// The key an authorization value presents: the value's space-separated words are
/// `Bearer`, then the key, then possibly more; `None` when the first word is not `Bearer`
/// or no second word follows it.
pub open spec fn bearer_key(v: Seq<u8>) -> Option<Seq<u8>> {
    if v.len() > 6 && v.subrange(0, 6) == bearer_scheme() && v[6] == 32 {
        Some(v.subrange(7, token_end(v, 7)))
    } else {
        None
    }
}

/// Whether an authorization value is text that presents a key of `keys`.
pub open spec fn authorizes(value: Seq<u8>, keys: Seq<String>) -> bool {
    &&& visible_ascii(value)
    &&& bearer_key(value) is Some
    &&& exists|i: int| 0 <= i < keys.len() && encode_utf8(#[trigger] keys[i]@) == bearer_key(value)->0
}

/// Whether a request's headers carry an `Authorization` value that presents a key of
/// `keys`.
pub open spec fn bearer_authorized(fields: Map<Seq<char>, Seq<Seq<u8>>>, keys: Seq<String>) -> bool {
    fields.contains_key("authorization"@) && fields["authorization"@].len() > 0 && authorizes(
        fields["authorization"@][0],
        keys,
    )
}

/// Whether `key` equals `value[from..to]`.
fn bytes_match(key: &[u8], value: &[u8], from: usize, to: usize) -> (r: bool)
    requires
        from <= to <= value@.len(),
    ensures
        r == (key@ == value@.subrange(from as int, to as int)),
{
    if key.len() != to - from {
        return false;
    }
    let mut i: usize = 0;
    while i < key.len()
        invariant
            key@.len() == to - from,
            from <= to <= value@.len(),
            i <= key@.len(),
            forall|k: int| 0 <= k < i ==> key@[k] == value@[from + k],
        decreases key.len() - i,
    {
        if key[i] != value[from + i] {
            assert(value@.subrange(from as int, to as int)[i as int] == value@[from + i]);
            return false;
        }
        i = i + 1;
    }
    assert(key@ =~= value@.subrange(from as int, to as int));
    true
}

/// Whether an authorization value is text of the form `Bearer <key>`, possibly followed by
/// a space and more, with `<key>` one of `keys`.
pub fn authorizes_value(value: &[u8], keys: &[String]) -> (r: bool)
    ensures
        r == authorizes(value@, keys@),
{
    let mut i: usize = 0;
    while i < value.len()
        invariant
            i <= value@.len(),
            forall|k: int| 0 <= k < i ==> #[trigger] value@[k] == 9 || (32 <= value@[k] && value@[k] < 127),
        decreases value.len() - i,
    {
        let b = value[i];
        if !(b == 9 || (32 <= b && b < 127)) {
            assert(!visible_ascii(value@));
            return false;
        }
        i = i + 1;
    }
    assert(visible_ascii(value@));
    if value.len() <= 6 {
        return false;
    }
    let ghost scheme = value@.subrange(0, 6);
    assert(scheme[0] == value@[0] && scheme[1] == value@[1] && scheme[2] == value@[2] && scheme[3]
        == value@[3] && scheme[4] == value@[4] && scheme[5] == value@[5]);
    if !(value[0] == 66 && value[1] == 101 && value[2] == 97 && value[3] == 114 && value[4] == 101
        && value[5] == 114 && value[6] == 32) {
        return false;
    }
    assert(scheme =~= bearer_scheme());
    let mut j: usize = 7;
    while j < value.len() && value[j] != 32
        invariant
            7 <= j <= value@.len(),
            token_end(value@, 7) == token_end(value@, j as int),
            visible_ascii(value@),
            bearer_key(value@) == Some(value@.subrange(7, token_end(value@, 7))),
        decreases value.len() - j,
    {
        j = j + 1;
    }
    let ghost key = value@.subrange(7, j as int);
    let mut k: usize = 0;
    while k < keys.len()
        invariant
            k <= keys@.len(),
            j == token_end(value@, 7),
            7 <= j <= value@.len(),
            key == value@.subrange(7, j as int),
            visible_ascii(value@),
            bearer_key(value@) == Some(key),
            forall|m: int| 0 <= m < k ==> encode_utf8(#[trigger] keys@[m]@) != key,
        decreases keys.len() - k,
    {
        let key_str = keys[k].as_str();
        if bytes_match(key_str.as_bytes(), value, 7, j) {
            assert(key_str.spec_bytes() == encode_utf8(keys@[k as int]@));
            return true;
        }
        k = k + 1;
    }
    false
}

/// Whether a request's `Authorization` header presents one of `keys` as a bearer token.
/// A missing header, one that is not text, or one of another form is refused, and so is
/// every header when `keys` is empty.
pub fn check_bearer_token(headers: &HeaderMap, keys: &[String]) -> (r: bool)
    ensures
        r == bearer_authorized(header_fields(*headers), keys@),
{
    proof {
        reveal_strlit("authorization");
    }
    match first_header_value(headers, "authorization") {
        Some(v) => authorizes_value(v.as_slice(), keys),
        None => false,
    }
}

} // verus!
