//! Characters and strings: what is taken from the standard library on
//! trust, and what the crate needs beyond it, such as decimal numbers, the
//! search for a run of characters and its replacement.

use vstd::prelude::*;
use vstd::string::StringExecFns;

verus! {

/// Whether `c` is an ASCII letter or an ASCII digit.
pub open spec fn is_ascii_alphanumeric(c: char) -> bool {
    ('0' <= c && c <= '9') || ('A' <= c && c <= 'Z') || ('a' <= c && c <= 'z')
}

/// Whether a character beyond the ASCII range is alphabetic or numeric in the
/// Unicode character database, as `char::is_alphanumeric` reports it.
pub uninterp spec fn unicode_alphanumeric(c: char) -> bool;

/// What `char::is_alphanumeric` returns: on ASCII exactly the letters and the
/// digits, beyond ASCII what the Unicode tables say.
pub open spec fn char_is_alphanumeric(c: char) -> bool {
    if c <= '\x7f' {
        is_ascii_alphanumeric(c)
    } else {
        unicode_alphanumeric(c)
    }
}

/// `char::is_alphanumeric`: true for the ASCII letters and digits, false for
/// every other ASCII character, and for the rest of Unicode whatever the
/// character database says (left unspecified here).
pub assume_specification[ char::is_alphanumeric ](c: char) -> (r: bool)
    ensures
        r == char_is_alphanumeric(c),
        c > '\x7f' ==> r == unicode_alphanumeric(c),
;

/// The character `c` with `a..=z` mapped to `A..=Z` and all else unchanged.
pub open spec fn ascii_uppercase(c: char) -> char {
    if 'a' <= c && c <= 'z' {
        ((c as u32) - 32) as char
    } else {
        c
    }
}

/// `char::to_ascii_uppercase`: ASCII lower-case letters become upper-case,
/// every other character is returned as it is.
pub assume_specification[ char::to_ascii_uppercase ](c: &char) -> (r: char)
    ensures
        r == ascii_uppercase(*c),
;

/// `==` on string slices: true exactly when both hold the same characters.
pub assume_specification[ <str as PartialEq>::eq ](a: &str, b: &str) -> (r: bool)
    ensures
        r == (a@ == b@),
;

/// Whether `a` comes before `b` or equals it, character by character, a
/// prefix before what it is a prefix of.
pub open spec fn lex_le(a: Seq<char>, b: Seq<char>) -> bool
    decreases a.len(),
{
    if a.len() == 0 {
        true
    } else if b.len() == 0 {
        false
    } else if a[0] != b[0] {
        a[0] < b[0]
    } else {
        lex_le(a.drop_first(), b.drop_first())
    }
}

/// Of two strings one comes before the other or equals it.
pub proof fn lemma_lex_le_total(a: Seq<char>, b: Seq<char>)
    ensures
        lex_le(a, b) || lex_le(b, a),
    decreases a.len(),
{
    if a.len() > 0 && b.len() > 0 && a[0] == b[0] {
        lemma_lex_le_total(a.drop_first(), b.drop_first());
    }
}

/// What comes before something that comes before a third comes before the
/// third.
pub proof fn lemma_lex_le_transitive(a: Seq<char>, b: Seq<char>, c: Seq<char>)
    requires
        lex_le(a, b),
        lex_le(b, c),
    ensures
        lex_le(a, c),
    decreases a.len(),
{
    if a.len() > 0 && b.len() > 0 && c.len() > 0 && a[0] == b[0] && b[0] == c[0] {
        lemma_lex_le_transitive(a.drop_first(), b.drop_first(), c.drop_first());
    }
}

/// `<=` on string slices: the lexicographic order of the bytes, which is
/// that of the characters.
#[verifier::external_body]
pub(crate) fn str_le(a: &str, b: &str) -> (r: bool)
    ensures
        r == lex_le(a@, b@),
{
    a <= b
}

/// The lower-case form of a string by the Unicode character database, as
/// `str::to_lowercase` gives it.
pub uninterp spec fn unicode_lowercase(s: Seq<char>) -> Seq<char>;

/// `str::to_lowercase`: the lower-case form of the string. One string always
/// has the same lower-case form; nothing else is claimed of it.
#[verifier::external_body]
pub(crate) fn to_lowercase(s: &str) -> (lower: String)
    ensures
        lower@ == unicode_lowercase(s@),
{
    s.to_lowercase()
}

/// `String::push`: appends one character at the end.
pub assume_specification[ String::push ](s: &mut String, c: char)
    ensures
        final(s)@ == old(s)@.push(c),
;

/// The character for a decimal digit.
pub open spec fn digit_char(digit: nat) -> char {
    if digit == 0 {
        '0'
    } else if digit == 1 {
        '1'
    } else if digit == 2 {
        '2'
    } else if digit == 3 {
        '3'
    } else if digit == 4 {
        '4'
    } else if digit == 5 {
        '5'
    } else if digit == 6 {
        '6'
    } else if digit == 7 {
        '7'
    } else if digit == 8 {
        '8'
    } else {
        '9'
    }
}

/// A number in decimal digits, without leading zeros.
pub open spec fn decimal(n: nat) -> Seq<char>
    decreases n,
{
    if n < 10 {
        seq![digit_char(n)]
    } else {
        decimal(n / 10).push(digit_char(n % 10))
    }
}

/// A number in decimal digits, with a minus sign where it is negative.
pub open spec fn signed_decimal(n: int) -> Seq<char> {
    if n < 0 {
        seq!['-'] + decimal((-n) as nat)
    } else {
        decimal(n as nat)
    }
}

/// The character for a decimal digit.
fn digit_of(digit: u64) -> (c: char)
    requires
        digit < 10,
    ensures
        c == digit_char(digit as nat),
{
    if digit == 0 {
        '0'
    } else if digit == 1 {
        '1'
    } else if digit == 2 {
        '2'
    } else if digit == 3 {
        '3'
    } else if digit == 4 {
        '4'
    } else if digit == 5 {
        '5'
    } else if digit == 6 {
        '6'
    } else if digit == 7 {
        '7'
    } else if digit == 8 {
        '8'
    } else {
        '9'
    }
}

/// Writes `n` in decimal digits at the end of `text`.
pub fn push_decimal(text: &mut String, n: u64)
    ensures
        final(text)@ == old(text)@ + decimal(n as nat),
    decreases n,
{
    if n >= 10 {
        push_decimal(text, n / 10);
    }
    text.push(digit_of(n % 10));
    proof {
        if n >= 10 {
            assert(old(text)@ + decimal(n as nat) =~= (old(text)@ + decimal((n / 10) as nat)).push(
                digit_char((n % 10) as nat),
            ));
        } else {
            assert(old(text)@ + decimal(n as nat) =~= old(text)@.push(digit_char(n as nat)));
        }
    }
}

/// Writes `n` in decimal digits, with its sign, at the end of `text`.
pub fn push_signed_decimal(text: &mut String, n: i64)
    ensures
        final(text)@ == old(text)@ + signed_decimal(n as int),
{
    if n < 0 {
        text.push('-');
        let magnitude: u64 = if n == i64::MIN {
            0x8000_0000_0000_0000
        } else {
            (-n) as u64
        };
        push_decimal(text, magnitude);
        proof {
            assert(old(text)@ + signed_decimal(n as int) =~= old(text)@.push('-') + decimal(
                magnitude as nat,
            ));
        }
    } else {
        push_decimal(text, n as u64);
    }
}

/// Whether `needle` stands somewhere in `hay`.
pub open spec fn contains_run(hay: Seq<char>, needle: Seq<char>) -> bool {
    exists|at: int| starts_at(hay, needle, at)
}

/// Whether `needle` stands in `hay` from position `at` on.
pub open spec fn starts_at(hay: Seq<char>, needle: Seq<char>, at: int) -> bool {
    &&& 0 <= at
    &&& at + needle.len() <= hay.len()
    &&& hay.subrange(at, at + needle.len()) == needle
}

/// The characters of a string.
pub fn chars_of(text: &str) -> (chars: Vec<char>)
    ensures
        chars@ == text@,
{
    let mut chars: Vec<char> = Vec::new();
    for c in it: text.chars()
        invariant
            it.seq() == text@,
            chars@ == text@.take(it.index()),
    {
        proof {
            assert(text@.take(it.index() + 1) == text@.take(it.index()).push(c));
        }
        chars.push(c);
    }
    proof {
        assert(text@.take(text@.len() as int) == text@);
    }
    chars
}

/// Whether `text` begins with `prefix`.
pub open spec fn begins_with(text: Seq<char>, prefix: Seq<char>) -> bool {
    starts_at(text, prefix, 0)
}

/// Whether `text` begins with `prefix`.
pub fn has_prefix(text: &Vec<char>, prefix: &Vec<char>) -> (found: bool)
    ensures
        found == begins_with(text@, prefix@),
{
    prefix.len() <= text.len() && run_starts_at(text, prefix, 0)
}

/// Whether `needle` stands in `hay` from position `at` on.
fn run_starts_at(hay: &Vec<char>, needle: &Vec<char>, at: usize) -> (found: bool)
    requires
        at + needle@.len() <= hay@.len(),
    ensures
        found == starts_at(hay@, needle@, at as int),
{
    let mut matched: usize = 0;
    while matched < needle.len() && hay[at + matched] == needle[matched]
        invariant
            at + needle@.len() <= hay@.len() == hay.len(),
            matched <= needle@.len(),
            forall|k: int| 0 <= k < matched ==> hay@[at + k] == needle@[k],
        decreases needle@.len() - matched,
    {
        matched = matched + 1;
    }
    proof {
        if matched == needle@.len() {
            assert(hay@.subrange(at as int, at + needle@.len()) =~= needle@);
        } else if starts_at(hay@, needle@, at as int) {
            assert(hay@.subrange(at as int, at + needle@.len())[matched as int]
                == needle@[matched as int]);
        }
    }
    matched == needle.len()
}

/// Whether `needle` stands somewhere in `hay`.
pub fn find_run(hay: &Vec<char>, needle: &Vec<char>) -> (found: bool)
    ensures
        found == contains_run(hay@, needle@),
{
    if needle.len() > hay.len() {
        assert forall|at: int| !starts_at(hay@, needle@, at) by {}
        return false;
    }
    let last = hay.len() - needle.len();
    let mut at: usize = 0;
    while at < last
        invariant
            at <= last,
            last == hay@.len() - needle@.len(),
            forall|before: int| 0 <= before < at ==> !starts_at(hay@, needle@, before),
        decreases last - at,
    {
        if run_starts_at(hay, needle, at) {
            return true;
        }
        at = at + 1;
    }
    let found = run_starts_at(hay, needle, last);
    proof {
        if !found {
            assert forall|any: int| !starts_at(hay@, needle@, any) by {}
        }
    }
    found
}

/// `text` with each run of `pattern` replaced by `with`, from the left,
/// runs that overlap a replaced one not counted. An empty pattern has no
/// runs.
pub open spec fn replace_all(text: Seq<char>, pattern: Seq<char>, with: Seq<char>) -> Seq<char>
    decreases text.len(),
{
    if pattern.len() == 0 || text.len() < pattern.len() {
        text
    } else if text.take(pattern.len() as int) == pattern {
        with + replace_all(text.skip(pattern.len() as int), pattern, with)
    } else {
        seq![text[0]] + replace_all(text.skip(1), pattern, with)
    }
}

/// `text` with each run of `pattern` replaced by `with`.
pub fn replace(text: &str, pattern: &str, with: &str) -> (replaced: String)
    ensures
        replaced@ == replace_all(text@, pattern@, with@),
{
    let chars = chars_of(text);
    let run = chars_of(pattern);
    if run.len() == 0 {
        return String::from_str(text);
    }
    let mut replaced = String::new();
    let mut at: usize = 0;
    proof {
        assert(chars@.skip(0) =~= chars@);
        assert(replaced@ + replace_all(chars@, run@, with@) =~= replace_all(chars@, run@, with@));
    }
    while at < chars.len()
        invariant
            at <= chars@.len(),
            chars@ == text@,
            run@ == pattern@,
            run@.len() > 0,
            replaced@ + replace_all(chars@.skip(at as int), run@, with@) == replace_all(
                chars@,
                run@,
                with@,
            ),
        decreases chars@.len() - at,
    {
        let ghost rest = chars@.skip(at as int);
        let ghost before = replaced@;
        if run.len() <= chars.len() - at && run_starts_at(&chars, &run, at) {
            replaced.append(with);
            proof {
                assert(rest.take(run@.len() as int) =~= chars@.subrange(
                    at as int,
                    at + run@.len(),
                ));
                assert(rest.skip(run@.len() as int) =~= chars@.skip(at + run@.len()));
                assert(before + (with@ + replace_all(rest.skip(run@.len() as int), run@, with@))
                    =~= (before + with@) + replace_all(rest.skip(run@.len() as int), run@, with@));
            }
            at = at + run.len();
        } else {
            replaced.push(chars[at]);
            proof {
                assert(rest.skip(1) =~= chars@.skip(at + 1));
                if rest.len() >= run@.len() {
                    assert(rest.take(run@.len() as int) =~= chars@.subrange(
                        at as int,
                        at + run@.len(),
                    ));
                    assert(before + (seq![rest[0]] + replace_all(rest.skip(1), run@, with@))
                        =~= before.push(chars@[at as int]) + replace_all(
                        rest.skip(1),
                        run@,
                        with@,
                    ));
                } else {
                    lemma_replace_short(rest, run@, with@);
                    lemma_replace_short(rest.skip(1), run@, with@);
                    assert(before + rest =~= before.push(chars@[at as int]) + rest.skip(1));
                }
            }
            at = at + 1;
        }
    }
    proof {
        assert(chars@.skip(chars@.len() as int) =~= Seq::<char>::empty());
        assert(replaced@ + Seq::<char>::empty() =~= replaced@);
    }
    replaced
}

/// Text that is shorter than the pattern holds no run of it.
pub proof fn lemma_replace_short(text: Seq<char>, pattern: Seq<char>, with: Seq<char>)
    requires
        text.len() < pattern.len(),
    ensures
        replace_all(text, pattern, with) == text,
{
}

} // verus!
