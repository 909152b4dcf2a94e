//! Parsed API versions, and the parser that extracts one from a driver
//! info string.
//!
//! The info string is scanned word by word (words are runs of
//! non-whitespace characters, split on ASCII whitespace).  The first word
//! whose first six characters spell the API name, case-insensitively,
//! selects the following word as the version word; that word must be two
//! runs of decimal digits joined by a single dot, each fitting a `u16`.

use vstd::prelude::*;
use vstd::string::*;

use crate::error::{OclError, OclResult};
use crate::text::{dec_digits, u64_to_string};

verus! {

/// True of the ASCII whitespace characters that separate words.
pub open spec fn is_space(c: char) -> bool {
    c == ' ' || c == '\t' || c == '\n' || c == '\r' || c == '\u{000B}' || c == '\u{000C}'
}

/// The position of the first non-space character at or after `i`, or the
/// length when only spaces remain.
pub open spec fn next_word_start(s: Seq<char>, i: int) -> int
    recommends
        0 <= i <= s.len(),
    decreases s.len() - i,
{
    if i < 0 || i >= s.len() {
        s.len() as int
    } else if !is_space(s[i]) {
        i
    } else {
        next_word_start(s, i + 1)
    }
}

/// The position of the first space character at or after `i`, or the
/// length when no space remains.
pub open spec fn next_space(s: Seq<char>, i: int) -> int
    recommends
        0 <= i <= s.len(),
    decreases s.len() - i,
{
    if i < 0 || i >= s.len() {
        s.len() as int
    } else if is_space(s[i]) {
        i
    } else {
        next_space(s, i + 1)
    }
}

proof fn lemma_nws_bounds(s: Seq<char>, i: int)
    requires
        0 <= i <= s.len(),
    ensures
        i <= next_word_start(s, i) <= s.len(),
        next_word_start(s, i) < s.len() ==> !is_space(s[next_word_start(s, i)]),
    decreases s.len() - i,
{
    if i < s.len() && is_space(s[i]) {
        lemma_nws_bounds(s, i + 1);
    }
}

proof fn lemma_ns_bounds(s: Seq<char>, i: int)
    requires
        0 <= i <= s.len(),
    ensures
        i <= next_space(s, i) <= s.len(),
    decreases s.len() - i,
{
    if i < s.len() && !is_space(s[i]) {
        lemma_ns_bounds(s, i + 1);
    }
}

/// The words of `s` from position `i` on: maximal runs of non-space
/// characters, in order.
pub open spec fn words_from(s: Seq<char>, i: int) -> Seq<Seq<char>>
    recommends
        0 <= i <= s.len(),
    decreases s.len() - i,
    via words_from_decreases
{
    if !(0 <= i <= s.len()) {
        Seq::empty()
    } else {
        let start = next_word_start(s, i);
        if start >= s.len() {
            Seq::empty()
        } else {
            let end = next_space(s, start);
            seq![s.subrange(start, end)] + words_from(s, end)
        }
    }
}

#[via_fn]
proof fn words_from_decreases(s: Seq<char>, i: int) {
    if 0 <= i <= s.len() {
        let start = next_word_start(s, i);
        if start < s.len() {
            lemma_nws_bounds(s, i);
            lemma_ns_bounds(s, start + 1);
            assert(next_space(s, start) == next_space(s, start + 1));
        }
    }
}

/// The words of the whole of `s`.
pub open spec fn spec_words(s: Seq<char>) -> Seq<Seq<char>> {
    words_from(s, 0)
}

proof fn lemma_words_skip_space(s: Seq<char>, i: int)
    requires
        0 <= i < s.len(),
        is_space(s[i]),
    ensures
        words_from(s, i) == words_from(s, i + 1),
{
    assert(next_word_start(s, i) == next_word_start(s, i + 1));
}

proof fn lemma_next_space_scan(s: Seq<char>, start: int, end: int)
    requires
        0 <= start <= end <= s.len(),
        forall|j: int| start <= j < end ==> !is_space(s[j]),
        end == s.len() || is_space(s[end]),
    ensures
        next_space(s, start) == end,
    decreases end - start,
{
    if start < end {
        lemma_next_space_scan(s, start + 1, end);
    }
}

proof fn lemma_words_at_word(s: Seq<char>, start: int)
    requires
        0 <= start < s.len(),
        !is_space(s[start]),
    ensures
        words_from(s, start) == seq![s.subrange(start, next_space(s, start))] + words_from(
            s,
            next_space(s, start),
        ),
{
    assert(next_word_start(s, start) == start);
}

proof fn lemma_words_at_end(s: Seq<char>, i: int)
    requires
        s.len() <= i,
    ensures
        words_from(s, i) == Seq::<Seq<char>>::empty(),
{
}

/// Splits `s` into its whitespace-separated words.
fn split_words(s: &str) -> (ws: Vec<String>)
    ensures
        ws.deep_view() =~~= spec_words(s@),
{
    let n = s.unicode_len();
    let mut ws: Vec<String> = Vec::new();
    let mut i: usize = 0;
    while i < n
        invariant
            n == s@.len(),
            i <= n,
            spec_words(s@) =~~= ws.deep_view() + words_from(s@, i as int),
        decreases n - i,
    {
        let c = s.get_char(i);
        if char_is_space(c) {
            proof {
                lemma_words_skip_space(s@, i as int);
            }
            i = i + 1;
        } else {
            let start = i;
            i = i + 1;
            while i < n && !char_is_space(s.get_char(i))
                invariant
                    n == s@.len(),
                    start < i <= n,
                    forall|j: int| start <= j < i ==> !is_space(s@[j]),
                decreases n - i,
            {
                i = i + 1;
            }
            proof {
                lemma_next_space_scan(s@, start as int, i as int);
                lemma_words_at_word(s@, start as int);
            }
            let word = s.substring_char(start, i);
            let ghost pre = ws.deep_view();
            ws.push(String::from_str(word));
            proof {
                assert(ws.deep_view() =~~= pre.push(s@.subrange(start as int, i as int)));
                assert(spec_words(s@) =~~= ws.deep_view() + words_from(s@, i as int));
            }
        }
    }
    proof {
        lemma_words_at_end(s@, i as int);
        assert(ws.deep_view() + words_from(s@, i as int) =~~= ws.deep_view());
    }
    ws
}

/// True exactly when `c` is an ASCII whitespace separator.
fn char_is_space(c: char) -> (b: bool)
    ensures
        b == is_space(c),
{
    c == ' ' || c == '\t' || c == '\n' || c == '\r' || c == '\u{000B}' || c == '\u{000C}'
}

/// True of a word whose first six characters spell the API name,
/// case-insensitively.
pub open spec fn opencl_word(w: Seq<char>) -> bool {
    &&& w.len() >= 6
    &&& (w[0] == 'O' || w[0] == 'o')
    &&& (w[1] == 'P' || w[1] == 'p')
    &&& (w[2] == 'E' || w[2] == 'e')
    &&& (w[3] == 'N' || w[3] == 'n')
    &&& (w[4] == 'C' || w[4] == 'c')
    &&& (w[5] == 'L' || w[5] == 'l')
}

/// The index of the first API-name word, if any.
pub open spec fn find_opencl(ws: Seq<Seq<char>>) -> Option<int>
    decreases ws.len(),
{
    if ws.len() == 0 {
        None
    } else if opencl_word(ws[0]) {
        Some(0)
    } else {
        match find_opencl(ws.drop_first()) {
            None => None,
            Some(i) => Some(i + 1),
        }
    }
}

proof fn lemma_find_opencl_step(ws: Seq<Seq<char>>, j: int)
    requires
        0 <= j < ws.len(),
    ensures
        opencl_word(ws[j]) ==> find_opencl(ws.skip(j)) == Some(0int),
        !opencl_word(ws[j]) ==> find_opencl(ws.skip(j)) == (match find_opencl(ws.skip(j + 1)) {
            None => None,
            Some(t) => Some(t + 1),
        }),
{
    assert(ws.skip(j).len() > 0);
    assert(ws.skip(j)[0] == ws[j]);
    assert(ws.skip(j).drop_first() =~~= ws.skip(j + 1));
}

/// True of a decimal digit.
pub open spec fn is_digit(c: char) -> bool {
    48 <= c as u32 <= 57
}

/// The numeric value of a run of decimal digits, most significant first.
pub open spec fn digits_val(w: Seq<char>) -> int
    decreases w.len(),
{
    if w.len() == 0 {
        0
    } else {
        digits_val(w.drop_last()) * 10 + (w.last() as u32 - 48)
    }
}

/// True of a non-empty, all-digit word.
pub open spec fn all_digits(w: Seq<char>) -> bool {
    w.len() > 0 && forall|i: int| 0 <= i < w.len() ==> is_digit(w[i])
}

/// The `u16` a word encodes: a non-empty run of decimal digits whose
/// value fits.
pub open spec fn spec_parse_u16(w: Seq<char>) -> Option<u16> {
    if all_digits(w) && digits_val(w) <= 65535 {
        Some(digits_val(w) as u16)
    } else {
        None
    }
}

proof fn lemma_digits_val_nonneg(w: Seq<char>)
    requires
        forall|i: int| 0 <= i < w.len() ==> is_digit(w[i]),
    ensures
        digits_val(w) >= 0,
    decreases w.len(),
{
    if w.len() > 0 {
        lemma_digits_val_nonneg(w.drop_last());
    }
}

proof fn lemma_digits_val_step(w: Seq<char>, i: int)
    requires
        0 <= i < w.len(),
    ensures
        digits_val(w.take(i + 1)) == digits_val(w.take(i)) * 10 + (w[i] as u32 - 48),
{
    let t = w.take(i + 1);
    assert(t.drop_last() =~~= w.take(i));
    assert(t.last() == w[i]);
}

proof fn lemma_digits_val_prefix_le(w: Seq<char>, i: int)
    requires
        0 <= i <= w.len(),
        forall|j: int| 0 <= j < w.len() ==> is_digit(w[j]),
    ensures
        digits_val(w.take(i)) <= digits_val(w),
    decreases w.len() - i,
{
    if i == w.len() {
        assert(w.take(i) =~~= w);
    } else {
        lemma_digits_val_step(w, i);
        assert(forall|j: int| 0 <= j < w.take(i).len() ==> is_digit(w.take(i)[j]));
        lemma_digits_val_nonneg(w.take(i));
        lemma_digits_val_prefix_le(w, i + 1);
    }
}

/// Parses a `u16` from a non-empty run of decimal digits.
fn parse_u16_str(w: &str) -> (r: Option<u16>)
    ensures
        r == spec_parse_u16(w@),
{
    let n = w.unicode_len();
    if n == 0 {
        return None;
    }
    let mut v: u32 = 0;
    let mut i: usize = 0;
    while i < n
        invariant
            n == w@.len(),
            i <= n,
            v <= 65535,
            forall|j: int| 0 <= j < i ==> is_digit(w@[j]),
            v == digits_val(w@.take(i as int)),
        decreases n - i,
    {
        let c = w.get_char(i);
        let code = c as u32;
        if code < 48 || code > 57 {
            proof {
                assert(!is_digit(w@[i as int]));
                assert(!all_digits(w@));
            }
            return None;
        }
        proof {
            lemma_digits_val_step(w@, i as int);
        }
        v = v * 10 + (code - 48);
        i = i + 1;
        if v > 65535 {
            proof {
                // a prefix already exceeds the range, so the whole word does
                if all_digits(w@) {
                    lemma_digits_val_prefix_le(w@, i as int);
                    assert(digits_val(w@) > 65535);
                }
            }
            return None;
        }
    }
    proof {
        assert(w@.take(n as int) =~~= w@);
        assert(all_digits(w@));
    }
    Some(v as u16)
}

/// The number of dots in a word.
pub open spec fn dot_count(w: Seq<char>) -> int
    decreases w.len(),
{
    if w.len() == 0 {
        0
    } else {
        dot_count(w.drop_last()) + if w.last() == '.' {
            1int
        } else {
            0int
        }
    }
}

/// The position of the first dot, or the length when there is none.
pub open spec fn first_dot(w: Seq<char>) -> int
    decreases w.len(),
{
    if w.len() == 0 {
        0
    } else if w[0] == '.' {
        0
    } else {
        1 + first_dot(w.drop_first())
    }
}

/// The two `u16`s of a version word: two digit runs joined by a single
/// dot.
pub open spec fn spec_parse_version_word(w: Seq<char>) -> Option<(u16, u16)> {
    if dot_count(w) == 1 {
        let d = first_dot(w);
        match (spec_parse_u16(w.take(d)), spec_parse_u16(w.skip(d + 1))) {
            (Some(major), Some(minor)) => Some((major, minor)),
            _ => None,
        }
    } else {
        None
    }
}

proof fn lemma_dot_count_step(w: Seq<char>, i: int)
    requires
        0 <= i < w.len(),
    ensures
        dot_count(w.take(i + 1)) == dot_count(w.take(i)) + if w[i] == '.' {
            1int
        } else {
            0int
        },
{
    let t = w.take(i + 1);
    assert(t.drop_last() =~~= w.take(i));
    assert(t.last() == w[i]);
}

proof fn lemma_first_dot_scan(w: Seq<char>, d: int)
    requires
        0 <= d <= w.len(),
        forall|j: int| 0 <= j < d ==> w[j] != '.',
        d == w.len() || w[d] == '.',
    ensures
        d == w.len() ==> first_dot(w) >= w.len(),
        d < w.len() ==> first_dot(w) == d,
    decreases w.len(),
{
    if w.len() > 0 && w[0] != '.' {
        lemma_first_dot_scan(w.drop_first(), d - 1);
    }
}

/// Parses a version word: two `u16` digit runs joined by a single dot.
fn parse_version_word(w: &str) -> (r: Option<(u16, u16)>)
    ensures
        r == spec_parse_version_word(w@),
{
    let n = w.unicode_len();
    let mut dots: usize = 0;
    let mut dpos: usize = n;
    let mut i: usize = 0;
    while i < n
        invariant
            n == w@.len(),
            i <= n,
            dots <= i,
            dots as int == dot_count(w@.take(i as int)),
            dots == 0 ==> dpos == n && (forall|j: int| 0 <= j < i ==> w@[j] != '.'),
            dots > 0 ==> dpos < i && w@[dpos as int] == '.' && (forall|j: int|
                0 <= j < dpos ==> w@[j] != '.'),
        decreases n - i,
    {
        proof {
            lemma_dot_count_step(w@, i as int);
        }
        let c = w.get_char(i);
        if c == '.' {
            if dots == 0 {
                dpos = i;
            }
            dots = dots + 1;
        }
        i = i + 1;
    }
    proof {
        assert(w@.take(n as int) =~~= w@);
    }
    if dots != 1 {
        return None;
    }
    proof {
        lemma_first_dot_scan(w@, dpos as int);
    }
    let major_part = w.substring_char(0, dpos);
    let minor_part = w.substring_char(dpos + 1, n);
    proof {
        assert(major_part@ =~~= w@.take(dpos as int));
        assert(minor_part@ =~~= w@.skip(dpos + 1 as int));
    }
    let major = match parse_u16_str(major_part) {
        Some(v) => v,
        None => {
            return None;
        },
    };
    let minor = match parse_u16_str(minor_part) {
        Some(v) => v,
        None => {
            return None;
        },
    };
    Some((major, minor))
}

/// The version encoded in a driver info string, if any: the word after
/// the first API-name word, parsed as `major.minor`.
pub open spec fn spec_parse_info(s: Seq<char>) -> Option<(u16, u16)> {
    let ws = spec_words(s);
    match find_opencl(ws) {
        None => None,
        Some(i) => if i + 1 < ws.len() {
            spec_parse_version_word(ws[i + 1])
        } else {
            None
        },
    }
}

/// True of a word's first six characters spelling the API name.
fn is_opencl_word(w: &str) -> (b: bool)
    ensures
        b == opencl_word(w@),
{
    let n = w.unicode_len();
    if n < 6 {
        return false;
    }
    let c0 = w.get_char(0);
    let c1 = w.get_char(1);
    let c2 = w.get_char(2);
    let c3 = w.get_char(3);
    let c4 = w.get_char(4);
    let c5 = w.get_char(5);
    (c0 == 'O' || c0 == 'o') && (c1 == 'P' || c1 == 'p') && (c2 == 'E' || c2 == 'e') && (c3 == 'N'
        || c3 == 'n') && (c4 == 'C' || c4 == 'c') && (c5 == 'L' || c5 == 'l')
}

/// A parsed API version, as `(major, minor)`.
#[derive(Debug, Clone, Copy, PartialEq, Eq, PartialOrd, Ord)]
pub struct OpenclVersion {
    ver: [u16; 2],
}

impl OpenclVersion {
    /// The major version number.
    pub closed spec fn spec_major(&self) -> u16 {
        self.ver@[0]
    }

    /// The minor version number.
    pub closed spec fn spec_minor(&self) -> u16 {
        self.ver@[1]
    }

    /// A version from its major and minor numbers.
    pub fn new(major: u16, minor: u16) -> (v: OpenclVersion)
        ensures
            v.spec_major() == major,
            v.spec_minor() == minor,
    {
        let ver = [major, minor];
        proof {
            assert(ver@[0] == major && ver@[1] == minor);
        }
        OpenclVersion { ver }
    }

    /// The greatest representable version.
    pub fn max(&self) -> (v: OpenclVersion)
        ensures
            v.spec_major() == u16::MAX,
            v.spec_minor() == u16::MAX,
    {
        OpenclVersion::new(u16::MAX, u16::MAX)
    }

    /// Renders this version as `major.minor`.
    pub fn version_string(&self) -> (s: String)
        ensures
            s@ == dec_digits(self.spec_major() as nat) + "."@ + dec_digits(
                self.spec_minor() as nat,
            ),
    {
        let major = self.major_value();
        let minor = self.minor_value();
        let mut s = u64_to_string(major as u64);
        s.append(".");
        let minor_text = u64_to_string(minor as u64);
        s.append(minor_text.as_str());
        s
    }

    /// Returns the major version number.
    pub fn major_value(&self) -> (m: u16)
        ensures
            m == self.spec_major(),
    {
        self.ver[0]
    }

    /// Returns the minor version number.
    pub fn minor_value(&self) -> (m: u16)
        ensures
            m == self.spec_minor(),
    {
        self.ver[1]
    }

    /// The version a raw `[major, minor]` pair converts to.
    pub closed spec fn spec_from_pair(ver: [u16; 2]) -> OpenclVersion {
        OpenclVersion { ver }
    }

    /// Parses a driver info string.
    ///
    /// Looks for a word starting with the API name, case-insensitively,
    /// then splits the word just after it at the dot and parses the two
    /// parts as the major and minor version numbers.
    pub fn from_info_str(ver: &str) -> (r: OclResult<OpenclVersion>)
        ensures
            match r {
                Ok(v) => spec_parse_info(ver@) == Some((v.spec_major(), v.spec_minor())),
                Err(e) => spec_parse_info(ver@) is None && (e matches OclError::Configuration(m)
                    && m@ == "OpenclVersion::from_info_str: Error parsing version from the string: '"@
                    + ver@ + "'."@),
            },
    {
        let words = split_words(ver);
        let ghost ws = spec_words(ver@);
        let count = words.len();
        let mut j: usize = 0;
        let mut found: Option<(u16, u16)> = None;
        proof {
            assert(ws.skip(0) =~~= ws);
        }
        while j < count
            invariant
                ws == spec_words(ver@),
                count == words@.len(),
                j <= count,
                words.deep_view() =~~= ws,
                found is None,
                find_opencl(ws) == (match find_opencl(ws.skip(j as int)) {
                    None => None::<int>,
                    Some(t) => Some(t + j),
                }),
            decreases count - j,
        {
            proof {
                assert(words.deep_view()[j as int] == ws[j as int]);
            }
            if is_opencl_word(words[j].as_str()) {
                proof {
                    lemma_find_opencl_step(ws, j as int);
                    assert(find_opencl(ws) == Some(j as int));
                }
                if j + 1 < count {
                    found = parse_version_word(words[j + 1].as_str());
                    proof {
                        assert(words.deep_view()[j + 1 as int] == ws[j + 1 as int]);
                        assert(found == spec_parse_info(ver@));
                    }
                } else {
                    proof {
                        assert(spec_parse_info(ver@) is None);
                    }
                }
                return OpenclVersion::result_from(found, ver);
            }
            proof {
                lemma_find_opencl_step(ws, j as int);
            }
            j = j + 1;
        }
        proof {
            assert(ws.skip(count as int) =~~= Seq::<Seq<char>>::empty());
            assert(find_opencl(ws) is None);
            assert(spec_parse_info(ver@) is None);
        }
        OpenclVersion::result_from(None, ver)
    }

    /// Wraps a parse outcome, rendering the standard error for a string
    /// that holds no version.
    fn result_from(found: Option<(u16, u16)>, ver: &str) -> (r: OclResult<OpenclVersion>)
        ensures
            match found {
                Some((major, minor)) => r matches Ok(v) && v.spec_major() == major
                    && v.spec_minor() == minor,
                None => r matches Err(e) && (e matches OclError::Configuration(m) && m@
                    == "OpenclVersion::from_info_str: Error parsing version from the string: '"@
                    + ver@ + "'."@),
            },
    {
        match found {
            Some((major, minor)) => Ok(OpenclVersion::new(major, minor)),
            None => {
                let mut m = String::from_str(
                    "OpenclVersion::from_info_str: Error parsing version from the string: '",
                );
                m.append(ver);
                m.append("'.");
                Err(OclError::Configuration(m))
            },
        }
    }
}

/// The components of a converted `[major, minor]` pair are the pair's.
pub proof fn lemma_from_pair_components(ver: [u16; 2])
    ensures
        OpenclVersion::spec_from_pair(ver).spec_major() == ver@[0],
        OpenclVersion::spec_from_pair(ver).spec_minor() == ver@[1],
{
}

impl From<[u16; 2]> for OpenclVersion {
    fn from(ver: [u16; 2]) -> (r: OpenclVersion) {
        OpenclVersion { ver }
    }
}

impl vstd::std_specs::convert::FromSpecImpl<[u16; 2]> for OpenclVersion {
    open spec fn obeys_from_spec() -> bool {
        true
    }

    open spec fn from_spec(ver: [u16; 2]) -> OpenclVersion {
        OpenclVersion::spec_from_pair(ver)
    }
}

} // verus!
