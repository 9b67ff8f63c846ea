//! Text that is known to be neither empty nor longer than a fixed bound.

use crate::json::{str_to_json, string_literal};
use vstd::prelude::*;
use vstd::std_specs::convert::TryFromSpecImpl;
use vstd::utf8::encode_utf8;

verus! {

/// Length of `text` as the service measures it: the bytes of its UTF-8 form.
pub open spec fn encoded_len(text: Seq<char>) -> nat {
    encode_utf8(text).len()
}

/// Every character takes from one to four bytes, so a text has at least as
/// many bytes as characters, and at most four times as many.
pub proof fn lemma_encoded_len_bounds(text: Seq<char>)
    ensures
        text.len() <= encoded_len(text) <= 4 * text.len(),
    decreases text.len(),
{
    if text.len() > 0 {
        lemma_encoded_len_bounds(text.drop_first());
    }
}

/// A text has no bytes exactly when it has no characters.
pub proof fn lemma_encoded_len_zero(text: Seq<char>)
    ensures
        encoded_len(text) == 0 <==> text.len() == 0,
{
    lemma_encoded_len_bounds(text);
}

/// Why a text was refused.
#[derive(Debug, PartialEq, Eq)]
pub enum ContentStringError {
    /// The text has no bytes.
    Empty,
    /// The text has `length` bytes, more than the `max` allowed.
    TooLong { length: usize, max: usize },
}

/// A text of 1 to 2000 bytes.
#[derive(Debug, PartialEq, Eq)]
pub struct ContentString(String);

impl Clone for ContentString {
    fn clone(&self) -> (r: Self)
        ensures
            r@ == self@,
    {
        proof {
            use_type_invariant(self);
        }
        ContentString(self.0.clone())
    }
}

impl View for ContentString {
    type V = Seq<char>;

    closed spec fn view(&self) -> Seq<char> {
        self.0@
    }
}

impl ContentString {
    /// Greatest number of bytes a text may have.
    pub const MAX_LEN: usize = 2000;

    /// Whether `text` may be held: it has at least one byte and at most `MAX_LEN`.
    pub open spec fn admits(text: Seq<char>) -> bool {
        1 <= encoded_len(text) <= Self::MAX_LEN
    }

    /// Whether `r` is what validating `text` gives: `Empty` for a text without
    /// bytes, `TooLong` with the byte count for one over the bound, and else
    /// a value that holds exactly `text`.
    pub open spec fn validated(text: Seq<char>, r: Result<Self, ContentStringError>) -> bool {
        if encoded_len(text) == 0 {
            r == Err::<Self, _>(ContentStringError::Empty)
        } else if encoded_len(text) > Self::MAX_LEN {
            r matches Err(ContentStringError::TooLong { length, max }) && length == encoded_len(
                text,
            ) && max == Self::MAX_LEN
        } else {
            r matches Ok(c) && c@ == text
        }
    }

    #[verifier::type_invariant]
    spec fn well_formed(self) -> bool {
        Self::admits(self.0@)
    }

    /// Validates `s` and takes it over unchanged.
    pub fn new(s: String) -> (r: Result<Self, ContentStringError>)
        ensures
            Self::validated(s@, r),
    {
        let len: usize = s.as_str().as_bytes().len();
        if len == 0 {
            Err(ContentStringError::Empty)
        } else if len > Self::MAX_LEN {
            Err(ContentStringError::TooLong { length: len, max: Self::MAX_LEN })
        } else {
            Ok(Self(s))
        }
    }

    /// The text, borrowed.
    #[must_use]
    pub fn as_str(&self) -> (r: &str)
        ensures
            r@ == self@,
            Self::admits(r@),
    {
        proof {
            use_type_invariant(self);
        }
        self.0.as_str()
    }

    /// The text, owned.
    #[must_use]
    pub fn into_inner(self) -> (r: String)
        ensures
            r@ == self@,
            Self::admits(r@),
    {
        proof {
            use_type_invariant(&self);
        }
        self.0
    }

    /// The text as JSON: its string literal and nothing around it.
    pub fn to_json(&self) -> (r: Result<String, serde_json::Error>)
        ensures
            r matches Ok(json) && json@ == string_literal(self@),
    {
        str_to_json(self.0.as_str())
    }
}

/// A text of 1 to `MAX_LEN` bytes is accepted, and the value made of it
/// gives that text back unchanged, borrowed or owned.
pub proof fn lemma_accepted_text_comes_back(
    s: String,
    made: Result<ContentString, ContentStringError>,
    borrowed: &str,
    owned: String,
)
    requires
        ContentString::admits(s@),
        call_ensures(ContentString::new, (s,), made),
        made matches Ok(c) ==> call_ensures(ContentString::as_str, (&c,), borrowed) && call_ensures(
            ContentString::into_inner,
            (c,),
            owned,
        ),
    ensures
        made is Ok,
        borrowed@ == s@,
        owned@ == s@,
{
}

/// The JSON of a value is the string literal of the text that it was made
/// of.
pub proof fn lemma_json_is_literal_of_text(
    s: String,
    made: ContentString,
    json: Result<String, serde_json::Error>,
)
    requires
        call_ensures(ContentString::new, (s,), Ok::<_, ContentStringError>(made)),
        call_ensures(ContentString::to_json, (&made,), json),
    ensures
        json matches Ok(literal) && literal@ == string_literal(s@),
{
}

impl TryFrom<String> for ContentString {
    type Error = ContentStringError;

    fn try_from(value: String) -> (r: Result<Self, ContentStringError>)
        ensures
            Self::validated(value@, r),
    {
        Self::new(value)
    }
}

/// What `try_from` returns is stated on `try_from` itself, by `validated`.
impl TryFromSpecImpl<String> for ContentString {
    open spec fn obeys_try_from_spec() -> bool {
        false
    }

    open spec fn try_from_spec(v: String) -> Result<Self, Self::Error> {
        arbitrary()
    }
}

impl TryFrom<&str> for ContentString {
    type Error = ContentStringError;

    fn try_from(value: &str) -> (r: Result<Self, ContentStringError>)
        ensures
            Self::validated(value@, r),
    {
        Self::new(value.to_owned())
    }
}

/// What `try_from` returns is stated on `try_from` itself, by `validated`.
impl TryFromSpecImpl<&str> for ContentString {
    open spec fn obeys_try_from_spec() -> bool {
        false
    }

    open spec fn try_from_spec(v: &str) -> Result<Self, Self::Error> {
        arbitrary()
    }
}

} // verus!
