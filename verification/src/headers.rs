//! The header map of an outbound request: the content type, the caller's own
//! headers as far as they can be represented, and the signature.

use reqwest::header::{HeaderMap, HeaderName, HeaderValue};
use vstd::prelude::*;

verus! {

/// The value type of `reqwest::header::HeaderMap`; nothing is read from it here.
#[verifier::external_type_specification]
#[verifier::external_body]
pub struct ExHeaderValue(HeaderValue);

/// `reqwest::header::HeaderMap`, the map a request's headers are collected in.
#[verifier::external_type_specification]
#[verifier::external_body]
#[verifier::reject_recursive_types(T)]
pub struct ExHeaderMap<T>(HeaderMap<T>);

/// The characters of a header name: letters, digits and
/// ``! # $ % & ' * + - . ^ _ ` | ~``.
pub open spec fn is_header_name_byte(b: u8) -> bool {
    ||| 48 <= b <= 57
    ||| 65 <= b <= 90
    ||| 97 <= b <= 122
    ||| b == 33
    ||| 35 <= b <= 39
    ||| b == 42
    ||| b == 43
    ||| b == 45
    ||| b == 46
    ||| 94 <= b <= 96
    ||| b == 124
    ||| b == 126
}

/// A byte with an upper-case letter turned to lower case.
pub open spec fn lower_case_byte(b: u8) -> u8 {
    if 65 <= b <= 90 {
        (b + 32) as u8
    } else {
        b
    }
}

/// The most bytes a header name may have.
pub const MAX_HEADER_NAME_LEN: usize = 65535;

/// The name under which `HeaderName::try_from` files the text `name`, or
/// `None` where it refuses the text as a header name: a name has 1 to 65535
/// bytes, each a header name character, and is filed in lower case.
pub open spec fn canonical_header_name(name: Seq<char>) -> Option<Seq<char>> {
    let bytes = vstd::utf8::encode_utf8(name);
    if 1 <= bytes.len() <= MAX_HEADER_NAME_LEN && (forall|i: int|
        0 <= i < bytes.len() ==> is_header_name_byte(#[trigger] bytes[i])) {
        Some(Seq::new(bytes.len(), |i: int| lower_case_byte(bytes[i]) as char))
    } else {
        None
    }
}

/// The bytes of a header value: a tab, or any byte from 32 on but 127.
pub open spec fn is_header_value_byte(b: u8) -> bool {
    b == 9 || (b >= 32 && b != 127)
}

/// Whether `HeaderValue::try_from` takes the text `value` as a header
/// value: every byte of it is a header value byte.
pub open spec fn header_value_accepted(value: Seq<char>) -> bool {
    let bytes = vstd::utf8::encode_utf8(value);
    forall|i: int| 0 <= i < bytes.len() ==> is_header_value_byte(#[trigger] bytes[i])
}

/// What a header map holds: for each header name in it, the text that its
/// value was made from.
pub uninterp spec fn header_entries(map: HeaderMap) -> Map<Seq<char>, Seq<char>>;

/// A map that holds at most this many entries takes one more without
/// `HeaderMap::insert` panicking.
pub const HEADER_MAP_SAFE_LEN: usize = 6553;

/// The most header entries a message may carry: with the content type they
/// fill the map as far as it safely goes before the signature is added.
pub const MAX_CUSTOM_HEADERS: usize = 6552;

/// The name of the content type header, as the map files it.
pub const CONTENT_TYPE_NAME: &'static str = "content-type";

/// The content type of every request.
pub const JSON_CONTENT_TYPE: &'static str = "application/json";

/// The name of the signature header, as the map files it.
pub const SIGNATURE_NAME: &'static str = "x-firecrawl-signature";

/// The name of the signature header.
pub const SIGNATURE_HEADER: &'static str = "X-Firecrawl-Signature";

/// The entries of a map that holds nothing.
pub open spec fn no_headers() -> Map<Seq<char>, Seq<char>> {
    Map::empty()
}

/// Calls `HeaderName::try_from(&str)`. Trusted: it succeeds exactly on the
/// texts for which `canonical_header_name` gives a name, that is on 1 to
/// 65535 bytes that are all header name characters.
#[verifier::external_body]
fn header_name_is_valid(name: &str) -> (valid: bool)
    ensures
        valid == canonical_header_name(name@).is_some(),
{
    HeaderName::try_from(name).is_ok()
}

/// Calls `HeaderValue::try_from(&str)`. Trusted: it succeeds exactly on the
/// texts whose bytes are all header value bytes.
#[verifier::external_body]
fn header_value_is_valid(value: &str) -> (valid: bool)
    ensures
        valid == header_value_accepted(value@),
{
    HeaderValue::try_from(value).is_ok()
}

/// Calls `HeaderMap::new`. Trusted: the new map holds nothing.
#[verifier::external_body]
fn new_header_map() -> (headers: HeaderMap)
    ensures
        header_entries(headers) == no_headers(),
{
    HeaderMap::new()
}

/// Calls `HeaderMap::insert` with the name and value that `try_from` makes of
/// the two texts, which are required to be ones that `try_from` takes.
/// Trusted: afterwards the map holds `value` under the lower-case form of
/// `name`, in place of whatever it held there, and is otherwise unchanged.
/// `insert` panics only where a table of 32768 slots has to grow, which it
/// does not do with fewer than 6554 entries.
#[verifier::external_body]
fn insert_header(map: &mut HeaderMap, name: &str, value: &str)
    requires
        canonical_header_name(name@).is_some(),
        header_value_accepted(value@),
        header_entries(*old(map)).dom().finite(),
        header_entries(*old(map)).dom().len() <= HEADER_MAP_SAFE_LEN,
    ensures
        header_entries(*final(map)) == header_entries(*old(map)).insert(
            canonical_header_name(name@).unwrap(),
            value@,
        ),
{
    map.insert(HeaderName::try_from(name).unwrap(), HeaderValue::try_from(value).unwrap());
}

/// The entries `m` with the header `name: value` applied: stored under the
/// canonical name where both texts can be represented, skipped otherwise.
pub open spec fn with_header(
    m: Map<Seq<char>, Seq<char>>,
    name: Seq<char>,
    value: Seq<char>,
) -> Map<Seq<char>, Seq<char>> {
    if canonical_header_name(name).is_some() && header_value_accepted(value) {
        m.insert(canonical_header_name(name).unwrap(), value)
    } else {
        m
    }
}

/// The entries `m` with the first `n` of the headers `custom` applied in order.
pub open spec fn with_headers(
    m: Map<Seq<char>, Seq<char>>,
    custom: Seq<(Seq<char>, Seq<char>)>,
    n: nat,
) -> Map<Seq<char>, Seq<char>>
    decreases n,
{
    if n == 0 || n > custom.len() {
        m
    } else {
        with_header(with_headers(m, custom, (n - 1) as nat), custom[n - 1].0, custom[n - 1].1)
    }
}

/// The headers of a request: the JSON content type, then the caller's
/// headers in order, then the signature where there is one. A later header
/// replaces an earlier one of the same canonical name.
pub open spec fn request_headers(
    custom: Seq<(Seq<char>, Seq<char>)>,
    signature: Option<Seq<char>>,
) -> Map<Seq<char>, Seq<char>> {
    let base = with_header(no_headers(), CONTENT_TYPE_NAME@, JSON_CONTENT_TYPE@);
    let with_custom = with_headers(base, custom, custom.len());
    match signature {
        Some(s) => with_header(with_custom, SIGNATURE_HEADER@, s),
        None => with_custom,
    }
}

/// The texts of a list of header entries.
pub open spec fn header_texts(custom: Seq<(String, String)>) -> Seq<(Seq<char>, Seq<char>)> {
    custom.map_values(|entry: (String, String)| (entry.0@, entry.1@))
}

/// Applies one header to `map`, or skips it where the name or the value
/// cannot be represented.
fn apply_header(map: &mut HeaderMap, name: &str, value: &str)
    requires
        header_entries(*old(map)).dom().finite(),
        header_entries(*old(map)).dom().len() <= HEADER_MAP_SAFE_LEN,
    ensures
        header_entries(*final(map)) == with_header(header_entries(*old(map)), name@, value@),
        header_entries(*final(map)).dom().finite(),
        header_entries(*final(map)).dom().len() <= header_entries(*old(map)).dom().len() + 1,
{
    if header_name_is_valid(name) && header_value_is_valid(value) {
        insert_header(map, name, value);
    }
}

/// Builds the headers of the request for a message with the header entries
/// `custom`, signed with `signature` where the tenant has a secret.
pub fn build_headers(custom: &Vec<(String, String)>, signature: Option<&str>) -> (map: HeaderMap)
    requires
        custom.len() <= MAX_CUSTOM_HEADERS,
    ensures
        header_entries(map) == request_headers(
            header_texts(custom@),
            match signature {
                Some(s) => Some(s@),
                None => None,
            },
        ),
{
    let mut map = new_header_map();
    apply_header(&mut map, CONTENT_TYPE_NAME, JSON_CONTENT_TYPE);
    let ghost base = header_entries(map);
    let ghost texts = header_texts(custom@);
    let mut i: usize = 0;
    while i < custom.len()
        invariant
            i <= custom.len(),
            custom.len() <= MAX_CUSTOM_HEADERS,
            texts == header_texts(custom@),
            header_entries(map) == with_headers(base, texts, i as nat),
            header_entries(map).dom().finite(),
            header_entries(map).dom().len() <= 1 + i,
        decreases custom.len() - i,
    {
        let entry = &custom[i];
        assert(texts[i as int] == (entry.0@, entry.1@));
        apply_header(&mut map, entry.0.as_str(), entry.1.as_str());
        i = i + 1;
    }
    match signature {
        Some(s) => {
            apply_header(&mut map, SIGNATURE_HEADER, s);
        },
        None => {},
    }
    map
}

/// The bytes of a text of ASCII characters are its characters.
proof fn lemma_ascii_bytes(text: Seq<char>)
    requires
        vstd::utf8::is_ascii_chars(text),
    ensures
        vstd::utf8::encode_utf8(text).len() == text.len(),
        forall|i: int|
            0 <= i < text.len() ==> (#[trigger] vstd::utf8::encode_utf8(text)[i]) == text[i] as u8,
{
    vstd::utf8::is_ascii_chars_encode_utf8(text);
}

/// The content type header can always be represented: its name is filed as
/// it stands, and its value is taken.
pub proof fn lemma_content_type_is_representable()
    ensures
        canonical_header_name(CONTENT_TYPE_NAME@) == Some(CONTENT_TYPE_NAME@),
        header_value_accepted(JSON_CONTENT_TYPE@),
{
    reveal_strlit("content-type");
    reveal_strlit("application/json");
    let name = CONTENT_TYPE_NAME@;
    lemma_ascii_bytes(name);
    lemma_ascii_bytes(JSON_CONTENT_TYPE@);
    let bytes = vstd::utf8::encode_utf8(name);
    assert forall|i: int| 0 <= i < bytes.len() implies is_header_name_byte(
        #[trigger] bytes[i],
    ) && lower_case_byte(bytes[i]) as char == name[i] by {
        assert(bytes[i] == name[i] as u8);
    }
    assert(canonical_header_name(name).unwrap() =~= name);
}

/// The signature header's name is filed in lower case.
pub proof fn lemma_signature_name_is_representable()
    ensures
        canonical_header_name(SIGNATURE_HEADER@) == Some(SIGNATURE_NAME@),
{
    reveal_strlit("X-Firecrawl-Signature");
    reveal_strlit("x-firecrawl-signature");
    let name = SIGNATURE_HEADER@;
    let filed = SIGNATURE_NAME@;
    lemma_ascii_bytes(name);
    let bytes = vstd::utf8::encode_utf8(name);
    assert forall|i: int| 0 <= i < bytes.len() implies is_header_name_byte(
        #[trigger] bytes[i],
    ) && lower_case_byte(bytes[i]) as char == filed[i] by {
        assert(bytes[i] == name[i] as u8);
    }
    assert(canonical_header_name(name).unwrap() =~= filed);
}

/// No entry of `custom` is filed under the name `key`.
pub open spec fn names_no_header(custom: Seq<(Seq<char>, Seq<char>)>, key: Seq<char>) -> bool {
    forall|i: int|
        0 <= i < custom.len() ==> canonical_header_name(#[trigger] custom[i].0) != Some(key)
}

/// Applying headers never removes one, and adds none but under the names
/// the applied entries are filed under; what no applied entry is filed
/// under keeps its value.
pub proof fn lemma_with_headers_keys(
    m: Map<Seq<char>, Seq<char>>,
    custom: Seq<(Seq<char>, Seq<char>)>,
    n: nat,
    key: Seq<char>,
)
    requires
        n <= custom.len(),
    ensures
        m.contains_key(key) ==> with_headers(m, custom, n).contains_key(key),
        names_no_header(custom, key) ==> (with_headers(m, custom, n).contains_key(key)
            <==> m.contains_key(key)),
        names_no_header(custom, key) && m.contains_key(key) ==> with_headers(m, custom, n)[key]
            == m[key],
    decreases n,
{
    if n > 0 {
        lemma_with_headers_keys(m, custom, (n - 1) as nat, key);
        if names_no_header(custom, key) {
            assert(canonical_header_name(custom[n - 1].0) != Some(key));
        }
    }
}

/// The two headers the library sets itself: the content type is always
/// stored, the signature header is filed under its lower-case name, and
/// the two names differ.
proof fn lemma_fixed_headers()
    ensures
        with_header(no_headers(), CONTENT_TYPE_NAME@, JSON_CONTENT_TYPE@) == no_headers().insert(
            CONTENT_TYPE_NAME@,
            JSON_CONTENT_TYPE@,
        ),
        canonical_header_name(SIGNATURE_HEADER@) == Some(SIGNATURE_NAME@),
        CONTENT_TYPE_NAME@ != SIGNATURE_NAME@,
{
    lemma_content_type_is_representable();
    lemma_signature_name_is_representable();
    reveal_strlit("content-type");
    reveal_strlit("x-firecrawl-signature");
    assert(CONTENT_TYPE_NAME@.len() != SIGNATURE_NAME@.len());
}

/// Every request carries a content type; it is the JSON one unless the
/// caller's headers name another.
pub proof fn lemma_request_has_content_type(
    custom: Seq<(Seq<char>, Seq<char>)>,
    signature: Option<Seq<char>>,
)
    ensures
        request_headers(custom, signature).contains_key(CONTENT_TYPE_NAME@),
        names_no_header(custom, CONTENT_TYPE_NAME@) ==> request_headers(
            custom,
            signature,
        )[CONTENT_TYPE_NAME@] == JSON_CONTENT_TYPE@,
{
    lemma_fixed_headers();
    let base = no_headers().insert(CONTENT_TYPE_NAME@, JSON_CONTENT_TYPE@);
    lemma_with_headers_keys(base, custom, custom.len(), CONTENT_TYPE_NAME@);
}

/// A request without a signature carries no signature header, unless the
/// caller's own headers name it; a request with a signature that can be
/// represented carries that signature, whatever the caller's headers say.
pub proof fn lemma_signature_header(custom: Seq<(Seq<char>, Seq<char>)>, signature: Seq<char>)
    ensures
        names_no_header(custom, SIGNATURE_NAME@) ==> !request_headers(custom, None).contains_key(
            SIGNATURE_NAME@,
        ),
        header_value_accepted(signature) ==> request_headers(custom, Some(signature)).contains_key(
            SIGNATURE_NAME@,
        ) && request_headers(custom, Some(signature))[SIGNATURE_NAME@] == signature,
{
    lemma_fixed_headers();
    let base = no_headers().insert(CONTENT_TYPE_NAME@, JSON_CONTENT_TYPE@);
    lemma_with_headers_keys(base, custom, custom.len(), SIGNATURE_NAME@);
}

} // verus!
