//! Extraction of a value from loosely structured text.
use vstd::prelude::*;

use crate::text::{
    chars_of, find, find_in, first_ws, opt_view, split, split_bounds, starts_with,
    starts_with_at, trim, trim_bounds, trim_of, trim_start, find_whitespace, skip_forward,
    TrimSet,
};

verus! {

/// An implementation to match on simple strings.
#[derive(Debug, Copy, Clone)]
pub enum Matcher {
    /// Considers the entire string (trimmed) to be the match.
    AllTrimmed,
    /// After finding the `prefix` followed by one or more spaces, returns the following word.
    PrefixedWord { prefix: &'static str },
    /// Similar to `PrefixedWord`, but only if the word is a valid version.
    PrefixedVersion { prefix: &'static str },
    /// Takes a set of lines (separated by `\n`) and searches for the value in a key/value pair
    /// separated by the `=` character. For example `VERSION_ID="8.1"`.
    KeyValue { key: &'static str },
}

/// The word after the first occurrence of `prefix` in `s`: the prefix and the whitespace
/// that follows it are skipped, and the word ends before the next whitespace.
pub open spec fn prefixed_word(s: Seq<char>, prefix: Seq<char>) -> Option<Seq<char>> {
    match find(s, prefix) {
        None => None,
        Some(i) => {
            let rest = trim_start(s.subrange(i + prefix.len(), s.len() as int));
            Some(rest.subrange(0, first_ws(rest, 0)))
        },
    }
}

/// A version word neither starts nor ends with a `.`.
pub open spec fn is_valid_version_word(w: Seq<char>) -> bool {
    !(w.len() > 0 && (w[0] == '.' || w.last() == '.'))
}

/// The value of the first of `lines`, from the `j`-th on, that starts with `key_eq`: the
/// rest of that line, with whitespace and double quotes trimmed from both ends.
pub open spec fn value_in_lines(lines: Seq<Seq<char>>, key_eq: Seq<char>, j: int) -> Option<
    Seq<char>,
>
    decreases lines.len() - j,
{
    if j < 0 || j >= lines.len() {
        None
    } else if starts_with(lines[j], key_eq) {
        Some(
            trim_of(
                lines[j].subrange(key_eq.len() as int, lines[j].len() as int),
                TrimSet::WhitespaceAndQuote,
            ),
        )
    } else {
        value_in_lines(lines, key_eq, j + 1)
    }
}

/// The value of `key` in the `KEY=value` lines of `s`.
pub open spec fn key_value(s: Seq<char>, key: Seq<char>) -> Option<Seq<char>> {
    value_in_lines(split(s, '\n'), key.push('='), 0)
}

/// What `m` finds in `s`.
pub open spec fn spec_find(m: Matcher, s: Seq<char>) -> Option<Seq<char>> {
    match m {
        Matcher::AllTrimmed => Some(trim(s)),
        Matcher::PrefixedWord { prefix } => prefixed_word(s, prefix@),
        Matcher::PrefixedVersion { prefix } => match prefixed_word(s, prefix@) {
            Some(w) => if is_valid_version_word(w) {
                Some(w)
            } else {
                None
            },
            None => None,
        },
        Matcher::KeyValue { key } => key_value(s, key@),
    }
}

/// The prefixed-version strategy rejects a word that starts or ends with `.`, while the
/// prefixed-word strategy with the same prefix returns it.
pub proof fn lemma_version_word_rejects_dots(s: Seq<char>, prefix: &'static str)
    requires
        prefixed_word(s, prefix@) matches Some(w) && w.len() > 0 && (w[0] == '.' || w.last()
            == '.'),
    ensures
        spec_find(Matcher::PrefixedVersion { prefix }, s) is None,
        spec_find(Matcher::PrefixedWord { prefix }, s) == prefixed_word(s, prefix@),
        spec_find(Matcher::PrefixedWord { prefix }, s) is Some,
{
}

/// Where the word after the prefix is a valid version, both strategies return it.
pub proof fn lemma_version_word_accepts_valid(s: Seq<char>, prefix: &'static str)
    requires
        prefixed_word(s, prefix@) matches Some(w) && is_valid_version_word(w),
    ensures
        spec_find(Matcher::PrefixedVersion { prefix }, s) == spec_find(
            Matcher::PrefixedWord { prefix },
            s,
        ),
{
}

impl Matcher {
    /// Find the match on the input `string`.
    pub fn find(&self, string: &str) -> (r: Option<String>)
        ensures
            opt_view(r) == spec_find(*self, string@),
    {
        match self {
            Matcher::AllTrimmed => {
                let cs = chars_of(string);
                let (a, b) = trim_bounds(&cs, 0, cs.len(), TrimSet::Whitespace);
                assert(cs@.subrange(0, cs@.len() as int) =~= string@);
                Some(string.substring_char(a, b).to_owned())
            },
            Matcher::PrefixedWord { prefix } => find_prefixed_word(string, prefix),
            Matcher::PrefixedVersion { prefix } => match find_prefixed_word(string, prefix) {
                Some(w) => {
                    if is_valid_version(&w) {
                        Some(w)
                    } else {
                        None
                    }
                },
                None => None,
            },
            Matcher::KeyValue { key } => find_by_key(string, key),
        }
    }
}

/// The word that follows `prefix` in `string`; see `prefixed_word`.
pub fn find_prefixed_word(string: &str, prefix: &str) -> (r: Option<String>)
    ensures
        opt_view(r) == prefixed_word(string@, prefix@),
{
    let cs = chars_of(string);
    let pc = chars_of(prefix);
    match find_in(&cs, &pc) {
        None => None,
        Some(i) => {
            let n = cs.len();
            let lo = i + pc.len();
            let a = skip_forward(&cs, lo, n, TrimSet::Whitespace);
            let e = find_whitespace(&cs, a, n);
            proof {
                let rest = trim_start(string@.subrange(lo as int, n as int));
                assert(rest =~= cs@.subrange(a as int, n as int));
                assert(rest.subrange(0, e - a) =~= cs@.subrange(a as int, e as int));
            }
            Some(string.substring_char(a, e).to_owned())
        },
    }
}

/// Whether `word` can be a version: it neither starts nor ends with a `.`.
pub fn is_valid_version(word: &str) -> (r: bool)
    ensures
        r == is_valid_version_word(word@),
{
    let n = word.unicode_len();
    if n == 0 {
        true
    } else {
        !(word.get_char(0) == '.' || word.get_char(n - 1) == '.')
    }
}

/// The value of `key` in the `KEY=value` lines of `string`; see `key_value`.
pub fn find_by_key(string: &str, key: &str) -> (r: Option<String>)
    ensures
        opt_view(r) == key_value(string@, key@),
{
    let cs = chars_of(string);
    let mut kc = chars_of(key);
    kc.push('=');
    let n = cs.len();
    let lines = split_bounds(&cs, 0, n, '\n');
    let ghost all = split(string@, '\n');
    proof {
        assert(cs@.subrange(0, n as int) =~= string@);
    }
    let mut j: usize = 0;
    while j < lines.len()
        invariant
            n == cs@.len(),
            cs@ == string@,
            kc@ == key@.push('='),
            all == split(string@, '\n'),
            lines@.len() == all.len(),
            forall|k: int|
                0 <= k < lines@.len() ==> 0 <= (#[trigger] lines@[k]).0 <= lines@[k].1 <= n
                    && cs@.subrange(lines@[k].0 as int, lines@[k].1 as int) == all[k],
            j <= lines@.len(),
            key_value(string@, key@) == value_in_lines(all, kc@, j as int),
        decreases lines@.len() - j,
    {
        let (lo, hi) = lines[j];
        assert(cs@.subrange(lo as int, hi as int) == all[j as int]);
        if starts_with_at(&cs, lo, hi, &kc) {
            let (a, b) = trim_bounds(&cs, lo + kc.len(), hi, TrimSet::WhitespaceAndQuote);
            proof {
                let line = all[j as int];
                assert(line.subrange(kc@.len() as int, line.len() as int) =~= cs@.subrange(
                    lo + kc@.len(),
                    hi as int,
                ));
            }
            return Some(string.substring_char(a, b).to_owned());
        }
        j = j + 1;
    }
    None
}

} // verus!
