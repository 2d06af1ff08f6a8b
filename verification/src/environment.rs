//! What the surroundings of the process say, once read: defaults for what is
//! absent and the meaning of the few settings.

use crate::text::same_text;
use vstd::prelude::*;

verus! {

/// The ambient values that a scope is resolved against.
#[derive(Debug)]
pub struct Ambient {
    /// The identifier of the current shell session; empty if there is none.
    pub session_id: String,
    /// The current working directory.
    pub dir: String,
    /// The label of this host.
    pub host: String,
}

/// The lower-case form of `text` as the standard library computes it.
pub uninterp spec fn lowercased(text: Seq<char>) -> Seq<char>;

/// Calls `str::to_lowercase`. The contract only gives the result its name:
/// the lower-case form of a text depends on the text alone.
#[verifier::external_body]
fn lowercase(text: &str) -> (lower: String)
    ensures
        lower@ == lowercased(text@),
{
    text.to_lowercase()
}

/// The value of a variable, or the empty text where it is not set.
pub open spec fn or_empty(raw: Option<Seq<char>>) -> Seq<char> {
    match raw {
        Some(value) => value,
        None => Seq::empty(),
    }
}

/// The date pattern with the month first.
pub open spec fn us_date_format() -> Seq<char> {
    "%m/%d/%Y"@
}

/// The date pattern with the day first.
pub open spec fn non_us_date_format() -> Seq<char> {
    "%d/%m/%Y"@
}

/// The date pattern that a selector in lower case asks for.
pub open spec fn date_format_of(selector: Seq<char>) -> Seq<char> {
    if selector == "us"@ {
        us_date_format()
    } else {
        non_us_date_format()
    }
}

/// The date pattern in force: the one the selector asks for, whatever
/// its case, and the day-first pattern where no selector is set.
pub open spec fn forced_date_format(raw: Option<Seq<char>>) -> Seq<char> {
    match raw {
        Some(value) => date_format_of(lowercased(value)),
        None => non_us_date_format(),
    }
}

/// The date pattern for a selector that is already in lower case:
/// month first for `us`, day first for anything else.
pub fn date_format_for(selector: &str) -> (format: String)
    ensures
        format@ == date_format_of(selector@),
{
    if same_text(selector, "us") {
        String::from_str("%m/%d/%Y")
    } else {
        String::from_str("%d/%m/%Y")
    }
}

/// The date pattern that the date-format variable selects.
pub fn get_date_format(forced: Option<&str>) -> (format: String)
    ensures
        format@ == forced_date_format(forced.deep_view()),
{
    match forced {
        Some(value) => {
            let selector = lowercase(value);
            date_format_for(selector.as_str())
        },
        None => String::from_str("%d/%m/%Y"),
    }
}

/// The path of the history database: the variable's value, or the empty
/// path where it is not set.
pub fn get_histdb_database(raw: Option<&str>) -> (path: String)
    ensures
        path@ == or_empty(raw.deep_view()),
{
    match raw {
        Some(value) => String::from_str(value),
        None => String::new(),
    }
}

/// The identifier of the current session: the variable's value, or the
/// empty text where it is not set.
pub fn get_current_session_id(raw: Option<&str>) -> (session: String)
    ensures
        session@ == or_empty(raw.deep_view()),
{
    match raw {
        Some(value) => String::from_str(value),
        None => String::new(),
    }
}

/// Whether `text` stands between two single quotes.
pub open spec fn is_quoted(text: Seq<char>) -> bool {
    text.len() >= 2 && text.first() == '\'' && text.last() == '\''
}

/// `text` without the pair of single quotes around it, if there is one.
pub open spec fn unquoted(text: Seq<char>) -> Seq<char> {
    if is_quoted(text) {
        text.subrange(1, text.len() - 1)
    } else {
        text
    }
}

/// The label of this host: the variable's value without the single quotes
/// that may wrap it, or the empty text where it is not set.
pub fn get_current_host(raw: Option<&str>) -> (host: String)
    ensures
        host@ == unquoted(or_empty(raw.deep_view())),
{
    match raw {
        Some(value) => {
            let n = value.unicode_len();
            if n >= 2 && value.get_char(0) == '\'' && value.get_char(n - 1) == '\'' {
                String::from_str(value.substring_char(1, n - 1))
            } else {
                String::from_str(value)
            }
        },
        None => String::new(),
    }
}

/// Whether a no-sort setting switches sorting off, given the setting and
/// its lower-case form.
pub open spec fn nosort_of(value: Seq<char>, lowered: Seq<char>) -> bool {
    lowered == "true"@ || value == "1"@
}

/// Whether results are left unsorted: the variable says `true`, whatever
/// its case, or `1`. Where it is not set they are sorted.
pub open spec fn nosort_option(raw: Option<Seq<char>>) -> bool {
    match raw {
        Some(value) => nosort_of(value, lowercased(value)),
        None => false,
    }
}

/// Decides the no-sort setting from its value and the lower-case form of it.
pub fn nosort_for(value: &str, lowered: &str) -> (nosort: bool)
    ensures
        nosort == nosort_of(value@, lowered@),
{
    same_text(lowered, "true") || same_text(value, "1")
}

/// Whether the no-sort variable switches sorting off.
pub fn get_nosort_option(raw: Option<&str>) -> (nosort: bool)
    ensures
        nosort == nosort_option(raw.deep_view()),
{
    match raw {
        Some(value) => {
            let lowered = lowercase(value);
            nosort_for(value, lowered.as_str())
        },
        None => false,
    }
}

/// Removing the quotes takes two characters away from a quoted text and
/// leaves any other text as it is; what was between the quotes stays.
pub proof fn lemma_unquoted_keeps_inside(inside: Seq<char>)
    ensures
        unquoted(seq!['\''] + inside + seq!['\'']) == inside,
{
    let text = seq!['\''] + inside + seq!['\''];
    assert(text.subrange(1, text.len() - 1) =~= inside);
}

} // verus!
