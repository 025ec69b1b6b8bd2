//! Trimming and normalising free-text input.
use vstd::prelude::*;
#[allow(unused_imports)]
use vstd::string::StringExecFns;

verus! {

/// Characters with the Unicode `White_Space` property, which `char::is_whitespace` tests.
pub open spec fn is_unicode_whitespace(c: char) -> bool {
    let u = c as u32;
    ||| 0x09 <= u <= 0x0D
    ||| u == 0x20
    ||| u == 0x85
    ||| u == 0xA0
    ||| u == 0x1680
    ||| 0x2000 <= u <= 0x200A
    ||| u == 0x2028
    ||| u == 0x2029
    ||| u == 0x202F
    ||| u == 0x205F
    ||| u == 0x3000
}

pub open spec fn trim_start(s: Seq<char>) -> Seq<char>
    decreases s.len(),
{
    if s.len() > 0 && is_unicode_whitespace(s[0]) {
        trim_start(s.drop_first())
    } else {
        s
    }
}

pub open spec fn trim_end(s: Seq<char>) -> Seq<char>
    decreases s.len(),
{
    if s.len() > 0 && is_unicode_whitespace(s.last()) {
        trim_end(s.drop_last())
    } else {
        s
    }
}

/// `s` without its leading and trailing white space.
pub open spec fn trim(s: Seq<char>) -> Seq<char> {
    trim_end(trim_start(s))
}

/// `s` holds nothing but white space.
pub open spec fn is_blank(s: Seq<char>) -> bool {
    trim(s).len() == 0
}

/// `str::trim` followed by `to_string`.
///
/// Trusted: the documentation of `str::trim` says it removes leading and trailing white space
/// as defined by the Unicode `White_Space` property; `to_string` copies the characters.
#[verifier::external_body]
pub(crate) fn trim_to_string(s: &str) -> (r: String)
    ensures
        r@ == trim(s@),
{
    s.trim().to_string()
}

/// `s.trim().is_empty()`.
pub fn is_blank_str(s: &str) -> (r: bool)
    ensures
        r == is_blank(s@),
{
    let t = trim_to_string(s);
    t.as_str().is_empty()
}

/// The trimmed text, or `None` where nothing but white space is left.
pub fn normalize_optional_string(value: String) -> (r: Option<String>)
    ensures
        r is None <==> is_blank(value@),
        r matches Some(t) ==> t@ == trim(value@),
{
    let trimmed = trim_to_string(value.as_str());
    if trimmed.as_str().is_empty() {
        None
    } else {
        Some(trimmed)
    }
}

/// `normalize_optional_string` mapped over an optional value.
pub fn normalize_optional_input(value: Option<String>) -> (r: Option<String>)
    ensures
        value is None ==> r is None,
        value matches Some(v) ==> (r is None <==> is_blank(v@)),
        value matches Some(v) ==> (r matches Some(t) ==> t@ == trim(v@)),
{
    match value {
        Some(v) => normalize_optional_string(v),
        None => None,
    }
}

/// The trimmed text of a required field; `error` where nothing but white space is given.
pub fn normalize_required_string<E>(value: String, error: E) -> (r: Result<String, E>)
    ensures
        is_blank(value@) ==> r == Err::<String, E>(error),
        !is_blank(value@) ==> (r matches Ok(t) && t@ == trim(value@)),
{
    let trimmed = trim_to_string(value.as_str());
    if trimmed.as_str().is_empty() {
        Err(error)
    } else {
        Ok(trimmed)
    }
}

/// Normalising text that is already normalised changes nothing: trimming twice trims once.
pub proof fn lemma_trim_idempotent(s: Seq<char>)
    ensures
        trim(trim(s)) == trim(s),
{
    let t = trim(s);
    lemma_trim_start_end(s);
    lemma_trim_end_of_trimmed(trim_start(s));
    assert(trim_start(t) == t);
    assert(trim_end(t) == t);
}

/// After `trim_start`, the sequence is empty or starts with a non-space.
proof fn lemma_trim_start_end(s: Seq<char>)
    ensures
        trim_start(s).len() == 0 || !is_unicode_whitespace(trim_start(s)[0]),
    decreases s.len(),
{
    if s.len() > 0 && is_unicode_whitespace(s[0]) {
        lemma_trim_start_end(s.drop_first());
    }
}

/// `trim_end` of a sequence that starts with a non-space keeps that first character,
/// and its result ends with a non-space.
proof fn lemma_trim_end_of_trimmed(s: Seq<char>)
    requires
        s.len() == 0 || !is_unicode_whitespace(s[0]),
    ensures
        trim_end(s).len() == 0 || !is_unicode_whitespace(trim_end(s)[0]),
        trim_end(s).len() == 0 || !is_unicode_whitespace(trim_end(s).last()),
        trim_end(s).len() <= s.len(),
        forall|i: int| 0 <= i < trim_end(s).len() ==> trim_end(s)[i] == s[i],
        trim_start(trim_end(s)) == trim_end(s),
        trim_end(trim_end(s)) == trim_end(s),
    decreases s.len(),
{
    if s.len() > 0 && is_unicode_whitespace(s.last()) {
        let d = s.drop_last();
        lemma_trim_end_of_trimmed(d);
        assert forall|i: int| 0 <= i < trim_end(s).len() implies trim_end(s)[i] == s[i] by {
            assert(trim_end(s)[i] == d[i]);
        }
    }
    let t = trim_end(s);
    if t.len() > 0 {
        assert(trim_start(t) == t);
        assert(trim_end(t) == t);
    } else {
        assert(trim_start(t) == t);
        assert(trim_end(t) == t);
    }
}

} // verus!
