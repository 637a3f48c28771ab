//! Display helpers and the conversion counter.

use crate::text::{
    decimal, decimal_text, join, join_with, owned, replace, replace_all, split, split_on,
    zero_padded, zero_padded_text,
};
use vstd::prelude::*;
use vstd::string::*;

verus! {

/// A duration of `millis` milliseconds as `h:mm:ss`, with as many hour
/// digits as the whole hours need. Fractions of a second are dropped. A
/// zero hour component is left out, and with it a zero minute component:
/// what remains is the two-digit seconds alone.
pub open spec fn hhmmss(millis: nat) -> Seq<char> {
    let seconds = millis / 1000;
    let ss = seconds % 60;
    let mm = (seconds / 60) % 60;
    let hh = seconds / 3600;
    if hh == 0 && mm == 0 {
        zero_padded(ss)
    } else if hh == 0 {
        zero_padded(mm) + ":"@ + zero_padded(ss)
    } else {
        decimal(hh) + ":"@ + zero_padded(mm) + ":"@ + zero_padded(ss)
    }
}

/// An artwork URL template with its `{w}` and `{h}` placeholders filled in,
/// all the widths first.
pub open spec fn sized(url: Seq<char>, w: nat, h: nat) -> Seq<char> {
    replace_all(replace_all(url, "{w}"@, decimal(w)), "{h}"@, decimal(h))
}

/// A colon-separated list of authors, rewritten with `", "` between them.
pub open spec fn comma_separated(authors: Seq<char>) -> Seq<char> {
    join_with(split_on(authors, ':'), ", "@)
}

/// A text, or `N/A` in place of a missing one.
pub open spec fn or_na(text: Option<Seq<char>>) -> Seq<char> {
    match text {
        Some(t) => t,
        None => "N/A"@,
    }
}

/// A text, or `N/A` in place of a missing one.
pub fn na(text: &Option<String>) -> (shown: String)
    ensures
        shown@ == or_na(text.deep_view()),
{
    match text {
        Some(text) => text.clone(),
        None => owned("N/A"),
    }
}

/// Formats a duration given in milliseconds for display.
pub fn milli_to_hhmmss(millis: u128) -> (text: String)
    ensures
        text@ == hhmmss(millis as nat),
{
    let seconds: u128 = millis / 1000;
    let ss: u128 = seconds % 60;
    let mm: u128 = (seconds / 60) % 60;
    let hh: u128 = seconds / 3600;
    if hh == 0 && mm == 0 {
        zero_padded_text(ss)
    } else if hh == 0 {
        let mut text = zero_padded_text(mm);
        text.append(":");
        text.append(zero_padded_text(ss).as_str());
        text
    } else {
        let mut text = decimal_text(hh);
        text.append(":");
        text.append(zero_padded_text(mm).as_str());
        text.append(":");
        text.append(zero_padded_text(ss).as_str());
        text
    }
}

/// Fills the `{w}` and `{h}` placeholders of an artwork URL template.
pub fn wh(url: &str, w: u32, h: u32) -> (text: String)
    ensures
        text@ == sized(url@, w as nat, h as nat),
{
    let width = decimal_text(w as u128);
    let height = decimal_text(h as u128);
    let widened = replace(url, "{w}", width.as_str());
    replace(widened.as_str(), "{h}", height.as_str())
}

/// Rewrites a colon-separated list of authors with `", "` between them.
pub fn split_authors(authors: &str) -> (text: String)
    ensures
        text@ == comma_separated(authors@),
{
    let names = split(authors, ':');
    join(&names, ", ")
}

/// The persistent count of conversions made so far.
#[derive(Debug, Clone, Copy)]
pub struct Store {
    pub total_conversions: u64,
}

impl Default for Store {
    fn default() -> (store: Store)
        ensures
            store.total_conversions == 0,
    {
        Store { total_conversions: 0 }
    }
}

/// A counter that has seen no conversion yet.
pub fn create_conversion_counter() -> (store: Store)
    ensures
        store.total_conversions == 0,
{
    Store { total_conversions: 0 }
}

/// Counts one more conversion.
pub fn increment_conversion(store: &mut Store)
    requires
        old(store).total_conversions < u64::MAX,
    ensures
        final(store).total_conversions == old(store).total_conversions + 1,
{
    store.total_conversions = store.total_conversions + 1;
}

} // verus!
