//! Text as sequences of characters: decimal numerals, splitting on a
//! separator, joining, and replacing every occurrence of a pattern.
//!
//! Each executable function is specified by a spec function of the same
//! purpose over `Seq<char>`.

use vstd::prelude::*;
use vstd::string::*;

verus! {

/// The character that writes the decimal digit `d`; `'9'` for anything above 8.
pub open spec fn digit_char(d: nat) -> char {
    if d == 0 {
        '0'
    } else if d == 1 {
        '1'
    } else if d == 2 {
        '2'
    } else if d == 3 {
        '3'
    } else if d == 4 {
        '4'
    } else if d == 5 {
        '5'
    } else if d == 6 {
        '6'
    } else if d == 7 {
        '7'
    } else if d == 8 {
        '8'
    } else {
        '9'
    }
}

/// The decimal numeral of `n`, without sign or leading zeros.
pub open spec fn decimal(n: nat) -> Seq<char>
    decreases n,
{
    if n < 10 {
        seq![digit_char(n)]
    } else {
        decimal(n / 10).push(digit_char(n % 10))
    }
}

/// The decimal numeral of `n`, with one leading zero when `n` has a single digit.
pub open spec fn zero_padded(n: nat) -> Seq<char> {
    if n < 10 {
        seq!['0'] + decimal(n)
    } else {
        decimal(n)
    }
}

/// The characters of `s`, in order.
pub fn to_chars(s: &str) -> (chars: Vec<char>)
    ensures
        chars@ == s@,
{
    let mut chars: Vec<char> = Vec::new();
    for c in it: s.chars()
        invariant
            chars@ == it.seq().take(it.index() as int),
            it.seq() == s@,
    {
        chars.push(c);
    }
    chars
}

/// An owned copy of `s`.
pub fn owned(s: &str) -> (text: String)
    ensures
        text@ == s@,
{
    let mut text = String::new();
    text.append(s);
    assert(text@ =~= s@);
    text
}

/// The one-character text of the decimal digit `d`.
fn digit_text(d: u8) -> (text: &'static str)
    requires
        d < 10,
    ensures
        text@ == seq![digit_char(d as nat)],
{
    proof {
        reveal_strlit("0");
        reveal_strlit("1");
        reveal_strlit("2");
        reveal_strlit("3");
        reveal_strlit("4");
        reveal_strlit("5");
        reveal_strlit("6");
        reveal_strlit("7");
        reveal_strlit("8");
        reveal_strlit("9");
    }
    let text = if d == 0 {
        "0"
    } else if d == 1 {
        "1"
    } else if d == 2 {
        "2"
    } else if d == 3 {
        "3"
    } else if d == 4 {
        "4"
    } else if d == 5 {
        "5"
    } else if d == 6 {
        "6"
    } else if d == 7 {
        "7"
    } else if d == 8 {
        "8"
    } else {
        "9"
    };
    assert(text@ =~= seq![digit_char(d as nat)]);
    text
}

/// Writes `n` in decimal.
pub fn decimal_text(n: u128) -> (text: String)
    ensures
        text@ == decimal(n as nat),
    decreases n,
{
    if n < 10 {
        owned(digit_text(n as u8))
    } else {
        let mut text = decimal_text(n / 10);
        let last = digit_text((n % 10) as u8);
        text.append(last);
        assert(text@ =~= decimal(n as nat));
        text
    }
}

/// Writes `n` in decimal, at least two digits wide.
pub fn zero_padded_text(n: u128) -> (text: String)
    ensures
        text@ == zero_padded(n as nat),
{
    let digits = decimal_text(n);
    if n < 10 {
        proof {
            reveal_strlit("0");
        }
        let mut text = owned("0");
        text.append(digits.as_str());
        assert(text@ =~= zero_padded(n as nat));
        text
    } else {
        digits
    }
}

/// The position of the first `c` in `s`, or the length of `s` when it holds none.
pub open spec fn index_of(s: Seq<char>, c: char) -> int
    decreases s.len(),
{
    if s.len() == 0 || s[0] == c {
        0
    } else {
        1 + index_of(s.skip(1), c)
    }
}

/// The pieces of `s` between occurrences of `sep`: one more piece than
/// there are separators, empty pieces included.
pub open spec fn split_on(s: Seq<char>, sep: char) -> Seq<Seq<char>>
    decreases s.len(),
{
    let k = index_of(s, sep);
    if 0 <= k < s.len() {
        seq![s.take(k)] + split_on(s.skip(k + 1), sep)
    } else {
        seq![s]
    }
}

/// The pieces written one after another with `sep` between neighbours.
pub open spec fn join_with(parts: Seq<Seq<char>>, sep: Seq<char>) -> Seq<char>
    decreases parts.len(),
{
    if parts.len() == 0 {
        Seq::empty()
    } else if parts.len() == 1 {
        parts[0]
    } else {
        join_with(parts.drop_last(), sep) + sep + parts.last()
    }
}

/// Whether `pattern` stands in `s` at position `at`.
pub open spec fn occurs_at(s: Seq<char>, at: int, pattern: Seq<char>) -> bool {
    &&& 0 <= at
    &&& at + pattern.len() <= s.len()
    &&& s.subrange(at, at + pattern.len()) == pattern
}

/// `s` with every occurrence of `from` replaced by `to`, scanning from the
/// left and never looking again at what a replaced occurrence covered.
/// An empty `from` replaces nothing.
pub open spec fn replace_all(s: Seq<char>, from: Seq<char>, to: Seq<char>) -> Seq<char>
    decreases s.len(),
{
    if from.len() == 0 || s.len() < from.len() {
        s
    } else if occurs_at(s, 0, from) {
        to + replace_all(s.skip(from.len() as int), from, to)
    } else {
        seq![s[0]] + replace_all(s.skip(1), from, to)
    }
}

/// `index_of` finds `k` when `k` is the first position that holds `c`, or
/// the length of a sequence without `c`.
pub proof fn lemma_index_of(s: Seq<char>, c: char, k: int)
    requires
        0 <= k <= s.len(),
        forall|j: int| 0 <= j < k ==> s[j] != c,
        k < s.len() ==> s[k] == c,
    ensures
        index_of(s, c) == k,
    decreases k,
{
    if k > 0 {
        let rest = s.skip(1);
        assert forall|j: int| 0 <= j < k - 1 implies rest[j] != c by {
            assert(rest[j] == s[j + 1]);
        }
        lemma_index_of(rest, c, k - 1);
    }
}

/// Splitting the tail of `s` from `start` takes off the piece up to the
/// first separator at `k`.
proof fn lemma_split_step(s: Seq<char>, sep: char, start: int, k: int)
    requires
        0 <= start <= k < s.len(),
        forall|j: int| start <= j < k ==> s[j] != sep,
        s[k] == sep,
    ensures
        split_on(s.skip(start), sep) == seq![s.subrange(start, k)] + split_on(
            s.skip(k + 1),
            sep,
        ),
{
    let tail = s.skip(start);
    lemma_index_of(tail, sep, k - start);
    assert(tail.take(k - start) =~= s.subrange(start, k));
    assert(tail.skip(k - start + 1) =~= s.skip(k + 1));
}

/// A tail without a separator is a single piece.
proof fn lemma_split_last(s: Seq<char>, sep: char, start: int)
    requires
        0 <= start <= s.len(),
        forall|j: int| start <= j < s.len() ==> s[j] != sep,
    ensures
        split_on(s.skip(start), sep) == seq![s.skip(start)],
{
    lemma_index_of(s.skip(start), sep, s.len() - start);
}

/// The pieces of `s` between occurrences of `sep`.
pub fn split(s: &str, sep: char) -> (parts: Vec<String>)
    ensures
        parts.deep_view() == split_on(s@, sep),
{
    let chars = to_chars(s);
    let mut parts: Vec<String> = Vec::new();
    let mut start: usize = 0;
    let mut i: usize = 0;
    assert(s@.skip(0) =~= s@);
    assert(parts.deep_view() + split_on(s@, sep) =~= split_on(s@, sep));
    while i < chars.len()
        invariant
            chars@ == s@,
            start <= i <= chars.len(),
            forall|j: int| start <= j < i ==> chars@[j] != sep,
            split_on(s@, sep) == parts.deep_view() + split_on(s@.skip(start as int), sep),
        decreases chars.len() - i,
    {
        if chars[i] == sep {
            let ghost before = parts.deep_view();
            parts.push(owned(s.substring_char(start, i)));
            proof {
                lemma_split_step(s@, sep, start as int, i as int);
                assert(parts.deep_view() =~= before.push(s@.subrange(start as int, i as int)));
                assert(parts.deep_view() + split_on(s@.skip(i + 1), sep) =~= before + split_on(
                    s@.skip(start as int),
                    sep,
                ));
            }
            start = i + 1;
        }
        i += 1;
    }
    let ghost before = parts.deep_view();
    parts.push(owned(s.substring_char(start, chars.len())));
    proof {
        lemma_split_last(s@, sep, start as int);
        assert(s@.subrange(start as int, s@.len() as int) =~= s@.skip(start as int));
        assert(parts.deep_view() =~= before.push(s@.skip(start as int)));
    }
    parts
}

/// The pieces written one after another with `sep` between neighbours.
pub fn join(parts: &Vec<String>, sep: &str) -> (text: String)
    ensures
        text@ == join_with(parts.deep_view(), sep@),
{
    let mut text = String::new();
    let mut i: usize = 0;
    assert(parts.deep_view().take(0) =~= Seq::empty());
    while i < parts.len()
        invariant
            i <= parts.len(),
            text@ == join_with(parts.deep_view().take(i as int), sep@),
        decreases parts.len() - i,
    {
        let ghost done = parts.deep_view().take(i as int);
        let ghost next = parts.deep_view().take(i + 1);
        proof {
            assert(next.drop_last() =~= done);
            assert(next.last() == parts[i as int]@);
        }
        if i > 0 {
            text.append(sep);
        }
        text.append(parts[i].as_str());
        proof {
            if i == 0 {
                assert(text@ =~= next[0]);
            } else {
                assert(text@ =~= join_with(done, sep@) + sep@ + next.last());
            }
        }
        i += 1;
    }
    assert(parts.deep_view().take(parts.len() as int) =~= parts.deep_view());
    text
}

/// One step of `replace_all` at position `i` of `s`: an occurrence of
/// `from` gives way to `to`, any other character is kept.
proof fn lemma_replace_step(s: Seq<char>, from: Seq<char>, to: Seq<char>, i: int)
    requires
        0 <= i < s.len(),
        from.len() > 0,
    ensures
        occurs_at(s, i, from) ==> replace_all(s.skip(i), from, to) == to + replace_all(
            s.skip(i + from.len()),
            from,
            to,
        ),
        !occurs_at(s, i, from) ==> replace_all(s.skip(i), from, to) == seq![s[i]] + replace_all(
            s.skip(i + 1),
            from,
            to,
        ),
{
    let tail = s.skip(i);
    if i + from.len() <= s.len() {
        assert(tail.subrange(0, from.len() as int) =~= s.subrange(i, i + from.len()));
        assert(tail.skip(from.len() as int) =~= s.skip(i + from.len()));
    }
    assert(tail.skip(1) =~= s.skip(i + 1));
    if tail.len() < from.len() {
        assert(tail =~= seq![s[i]] + s.skip(i + 1));
    }
}

/// Whether `pattern` stands in `chars` at position `at`.
fn matches_at(chars: &Vec<char>, at: usize, pattern: &Vec<char>) -> (found: bool)
    ensures
        found == occurs_at(chars@, at as int, pattern@),
{
    if pattern.len() > chars.len() || at > chars.len() - pattern.len() {
        return false;
    }
    let mut j: usize = 0;
    while j < pattern.len()
        invariant
            at + pattern.len() <= chars.len(),
            j <= pattern.len(),
            forall|k: int| 0 <= k < j ==> chars@[at + k] == pattern@[k],
        decreases pattern.len() - j,
    {
        if chars[at + j] != pattern[j] {
            assert(chars@.subrange(at as int, at + pattern.len())[j as int] != pattern@[j as int]);
            return false;
        }
        j += 1;
    }
    assert(chars@.subrange(at as int, at + pattern.len()) =~= pattern@);
    true
}

/// `s` with every occurrence of `from` replaced by `to`.
pub fn replace(s: &str, from: &str, to: &str) -> (text: String)
    ensures
        text@ == replace_all(s@, from@, to@),
{
    let chars = to_chars(s);
    let pattern = to_chars(from);
    if pattern.len() == 0 {
        return owned(s);
    }
    let mut text = String::new();
    let mut start: usize = 0;
    let mut i: usize = 0;
    proof {
        assert(s@.skip(0) =~= s@);
        assert(s@.subrange(0, 0) + replace_all(s@, from@, to@) =~= replace_all(s@, from@, to@));
        assert(text@ + replace_all(s@, from@, to@) =~= replace_all(s@, from@, to@));
    }
    while i < chars.len()
        invariant
            chars@ == s@,
            pattern@ == from@,
            pattern.len() > 0,
            start <= i <= chars.len(),
            replace_all(s@, from@, to@) == text@ + replace_all(s@.skip(start as int), from@, to@),
            replace_all(s@.skip(start as int), from@, to@) == s@.subrange(start as int, i as int)
                + replace_all(s@.skip(i as int), from@, to@),
        decreases chars.len() - i,
    {
        proof {
            lemma_replace_step(s@, from@, to@, i as int);
        }
        if matches_at(&chars, i, &pattern) {
            let ghost before = text@;
            text.append(s.substring_char(start, i));
            text.append(to);
            i = i + pattern.len();
            start = i;
            proof {
                let rest = replace_all(s@.skip(i as int), from@, to@);
                assert(s@.subrange(i as int, i as int) + rest =~= rest);
                assert(text@ + rest =~= replace_all(s@, from@, to@));
            }
        } else {
            proof {
                let rest = replace_all(s@.skip(i + 1), from@, to@);
                assert(s@.subrange(start as int, i + 1) + rest =~= s@.subrange(
                    start as int,
                    i as int,
                ) + (seq![s@[i as int]] + rest));
            }
            i += 1;
        }
    }
    text.append(s.substring_char(start, chars.len()));
    proof {
        let rest = replace_all(s@.skip(i as int), from@, to@);
        assert(rest =~= Seq::<char>::empty());
        assert(text@ =~= replace_all(s@, from@, to@));
    }
    text
}

/// Whether two texts hold the same characters.
pub fn same_text(a: &str, b: &str) -> (same: bool)
    ensures
        same == (a@ == b@),
{
    let left = owned(a);
    let right = owned(b);
    left == right
}

/// `s` without `prefix` at its start, `None` where `s` does not start
/// with it.
pub open spec fn without_prefix(s: Seq<char>, prefix: Seq<char>) -> Option<Seq<char>> {
    if occurs_at(s, 0, prefix) {
        Some(s.skip(prefix.len() as int))
    } else {
        None
    }
}

/// `s` without `prefix` at its start, `None` where `s` does not start
/// with it.
pub fn strip_prefix(s: &str, prefix: &str) -> (rest: Option<String>)
    ensures
        rest.deep_view() == without_prefix(s@, prefix@),
{
    let chars = to_chars(s);
    let start = to_chars(prefix);
    if matches_at(&chars, 0, &start) {
        let rest = owned(s.substring_char(start.len(), chars.len()));
        assert(rest@ =~= s@.skip(prefix@.len() as int));
        Some(rest)
    } else {
        None
    }
}

} // verus!
