use vstd::prelude::*;

verus! {

/// What `str::trim` leaves of a string: leading and trailing Unicode
/// white space removed.
pub uninterp spec fn trimmed(s: Seq<char>) -> Seq<char>;

/// Relies on `str::trim`: the result depends on the characters alone, and an
/// empty string stays empty.
#[verifier::external_body]
pub(crate) fn trim_str<'a>(s: &'a str) -> (r: &'a str)
    ensures
        r@ == trimmed(s@),
        s@.len() == 0 ==> r@.len() == 0,
{
    s.trim()
}

/// View of an optional string.
pub open spec fn opt_view(o: Option<String>) -> Option<Seq<char>> {
    match o {
        Some(s) => Some(s@),
        None => None,
    }
}

/// A blank setting is absent; anything else is kept as it is.
pub open spec fn non_blank(t: Seq<char>) -> Option<Seq<char>> {
    if t.len() == 0 {
        None
    } else {
        Some(t)
    }
}

/// Turns an already trimmed language name into the optional setting.
pub fn language_from_trimmed(t: &str) -> (r: Option<String>)
    ensures
        opt_view(r) == non_blank(t@),
{
    if t.unicode_len() == 0 {
        None
    } else {
        Some(t.to_owned())
    }
}

/// The programming language setting of a classroom: trimmed, and absent when
/// blank.
pub fn normalize_language(value: &str) -> (r: Option<String>)
    ensures
        opt_view(r) == non_blank(trimmed(value@)),
{
    language_from_trimmed(trim_str(value))
}

/// Trimmed copy of `value`.
pub fn trim_owned(value: &str) -> (r: String)
    ensures
        r@ == trimmed(value@),
{
    trim_str(value).to_owned()
}

} // verus!
