use vstd::prelude::*;
use reqwest::header::{HeaderMap, HeaderValue};

verus! {

/// The header collection of the transport layer; opaque, read through [`header_fields`].
#[verifier::external_type_specification]
#[verifier::external_body]
#[verifier::reject_recursive_types(T)]
pub struct ExHeaderMap<T>(reqwest::header::HeaderMap<T>);

/// One header value of the transport layer; opaque, read through [`header_value_text`].
#[verifier::external_type_specification]
#[verifier::external_body]
pub struct ExHeaderValue(reqwest::header::HeaderValue);

/// What a header collection holds: for each field name (in lower case) the text of its
/// value.
pub uninterp spec fn header_fields(map: HeaderMap) -> Map<Seq<char>, Seq<char>>;

/// How many values a header collection holds.
pub uninterp spec fn header_count(map: HeaderMap) -> nat;

/// The characters that a header value holds.
pub uninterp spec fn header_value_text(value: HeaderValue) -> Seq<char>;

/// A character that may stand in a header value: a tab, or anything from the space
/// upwards but the delete character.
pub open spec fn is_field_char(c: char) -> bool {
    c == '\t' || (c as u32 >= 32 && c as u32 != 127)
}

/// Text that is valid as a header value: each of its characters is.
pub open spec fn is_field_text(text: Seq<char>) -> bool {
    forall|i: int| 0 <= i < text.len() ==> is_field_char(#[trigger] text[i])
}

/// A field name as this library writes them: lower-case letters and hyphens, not empty
/// and of at most 32 characters.
pub open spec fn is_field_name(name: Seq<char>) -> bool {
    &&& 0 < name.len() <= 32
    &&& forall|i: int| 0 <= i < name.len() ==> {
        let c = #[trigger] name[i];
        ('a' <= c && c <= 'z') || c == '-'
    }
}

/// The contents of a collection that holds nothing.
pub open spec fn no_fields() -> Map<Seq<char>, Seq<char>> {
    Map::empty()
}

/// The most values a collection may hold where this library hands it to the transport
/// layer or adds to it; far below what the transport layer's collection can take.
pub const FIELD_LIMIT: usize = 1024;

/// `HeaderValue::from_str`: it accepts a text exactly when each of its bytes is a tab, or
/// at least 32 and not 127, which for encoded characters is [`is_field_text`]; the value
/// it gives holds the bytes of that text.
#[verifier::external_body]
pub(crate) fn field_value(text: &str) -> (r: Option<HeaderValue>)
    ensures
        r.is_some() == is_field_text(text@),
        r matches Some(v) ==> header_value_text(v) == text@,
{
    HeaderValue::from_str(text).ok()
}

/// `HeaderMap::new`: a collection that holds nothing.
#[verifier::external_body]
pub(crate) fn empty_fields() -> (made: HeaderMap)
    ensures
        header_fields(made) == no_fields(),
        header_count(made) == 0,
{
    HeaderMap::new()
}

/// `HeaderMap::insert` with a name given as text: the value takes the place of whatever
/// the name had, and no other field changes; under a name that the collection did not
/// hold, it is one value more. The call panics on a name that is no field name and where
/// the collection cannot grow, which it cannot beyond 24576 entries; `requires` leaves
/// both out.
#[verifier::external_body]
pub(crate) fn insert_field(map: &mut HeaderMap, name: &'static str, value: HeaderValue)
    requires
        is_field_name(name@),
        header_count(*old(map)) < FIELD_LIMIT,
    ensures
        header_fields(*final(map)) == header_fields(*old(map)).insert(
            name@,
            header_value_text(value),
        ),
        header_count(*final(map)) <= header_count(*old(map)) + 1,
        !header_fields(*old(map)).contains_key(name@) ==> header_count(*final(map))
            == header_count(*old(map)) + 1,
{
    map.insert(name, value);
}

} // verus!
