//! Small verified text utilities: decimal rendering, list joining, and
//! substring replacement. They back the duration formatter and the email
//! templates.

use vstd::prelude::*;
use vstd::string::StrSliceExecFns;
use vstd::string::StringExecFns;

use crate::validate::ascii_digit;

verus! {

/// The ASCII character for a single decimal digit.
pub open spec fn spec_digit_char(d: int) -> char {
    if d == 0 {
        '0'
    } else if d == 1 {
        '1'
    } else if d == 2 {
        '2'
    } else if d == 3 {
        '3'
    } else if d == 4 {
        '4'
    } else if d == 5 {
        '5'
    } else if d == 6 {
        '6'
    } else if d == 7 {
        '7'
    } else if d == 8 {
        '8'
    } else {
        '9'
    }
}

/// The usual decimal rendering of a natural number, without sign or
/// leading zeros.
pub open spec fn spec_u64_string(n: nat) -> Seq<char>
    decreases n,
{
    if n < 10 {
        seq![spec_digit_char(n as int)]
    } else {
        spec_u64_string(n / 10) + seq![spec_digit_char((n % 10) as int)]
    }
}

/// The decimal rendering of a signed number: a minus sign, if negative,
/// followed by the rendering of the magnitude.
pub open spec fn spec_i64_string(n: int) -> Seq<char> {
    if n >= 0 {
        spec_u64_string(n as nat)
    } else {
        seq!['-'] + spec_u64_string((-n) as nat)
    }
}

fn digit_str(d: u64) -> (r: &'static str)
    requires
        d < 10,
    ensures
        r@ == seq![spec_digit_char(d as int)],
{
    let r: &'static str = match d {
        0 => "0",
        1 => "1",
        2 => "2",
        3 => "3",
        4 => "4",
        5 => "5",
        6 => "6",
        7 => "7",
        8 => "8",
        _ => "9",
    };
    proof {
        reveal_strlit("0");
        reveal_strlit("1");
        reveal_strlit("2");
        reveal_strlit("3");
        reveal_strlit("4");
        reveal_strlit("5");
        reveal_strlit("6");
        reveal_strlit("7");
        reveal_strlit("8");
        reveal_strlit("9");
    }
    r
}

/// Renders a number in decimal.
pub fn u64_to_string(n: u64) -> (r: String)
    ensures
        r@ == spec_u64_string(n as nat),
    decreases n,
{
    if n < 10 {
        digit_str(n).to_owned()
    } else {
        let mut r = u64_to_string(n / 10);
        r.append(digit_str(n % 10));
        r
    }
}

/// Renders a signed number in decimal.
pub fn i64_to_string(n: i64) -> (r: String)
    ensures
        r@ == spec_i64_string(n as int),
{
    if n >= 0 {
        u64_to_string(n as u64)
    } else {
        let wide: i128 = n as i128;
        let magnitude: u64 = (-wide) as u64;
        let mut r = "-".to_owned();
        proof {
            reveal_strlit("-");
        }
        r.append(u64_to_string(magnitude).as_str());
        r
    }
}

/// The elements of `parts` in order, separated by `sep`.
pub open spec fn spec_join(parts: Seq<Seq<char>>, sep: Seq<char>) -> Seq<char>
    decreases parts.len(),
{
    if parts.len() == 0 {
        Seq::empty()
    } else if parts.len() == 1 {
        parts[0]
    } else {
        parts[0] + sep + spec_join(parts.drop_first(), sep)
    }
}

/// Joining one more part appends a separator and the part.
proof fn lemma_join_push(parts: Seq<Seq<char>>, sep: Seq<char>, part: Seq<char>)
    requires
        parts.len() > 0,
    ensures
        spec_join(parts.push(part), sep) == spec_join(parts, sep) + sep + part,
    decreases parts.len(),
{
    let grown = parts.push(part);
    assert(grown[0] == parts[0]);
    if parts.len() == 1 {
        assert(grown.drop_first() =~= seq![part]);
        assert(spec_join(grown.drop_first(), sep) == part);
        assert(spec_join(grown, sep) =~= spec_join(parts, sep) + sep + part);
    } else {
        lemma_join_push(parts.drop_first(), sep, part);
        assert(grown.drop_first() =~= parts.drop_first().push(part));
        assert(spec_join(grown, sep) =~= spec_join(parts, sep) + sep + part);
    }
}

/// Joins rendered parts with `", "`, tracking the joined view in a ghost
/// sequence so that callers can speak of the result.
pub struct JoinedParts {
    text: String,
    count: usize,
    parts: Ghost<Seq<Seq<char>>>,
}

impl JoinedParts {
    /// The parts joined so far.
    pub closed spec fn parts(self) -> Seq<Seq<char>> {
        self.parts@
    }

    pub closed spec fn wf(self) -> bool {
        &&& self.text@ == spec_join(self.parts@, ", "@)
        &&& self.count == self.parts@.len()
    }

    pub fn new() -> (r: JoinedParts)
        ensures
            r.wf(),
            r.parts() == Seq::<Seq<char>>::empty(),
    {
        JoinedParts { text: String::new(), count: 0, parts: Ghost(Seq::empty()) }
    }

    pub fn is_empty(&self) -> (r: bool)
        requires
            self.wf(),
        ensures
            r == (self.parts().len() == 0),
    {
        self.count == 0
    }

    pub fn push(&mut self, part: &str)
        requires
            old(self).wf(),
            old(self).parts().len() < usize::MAX,
        ensures
            final(self).wf(),
            final(self).parts() == old(self).parts().push(part@),
    {
        if self.count > 0 {
            proof {
                reveal_strlit(", ");
                lemma_join_push(self.parts@, ", "@, part@);
            }
            self.text.append(", ");
            self.text.append(part);
        } else {
            self.text.append(part);
            proof {
                assert(self.parts@.push(part@) =~= seq![part@]);
            }
        }
        self.count = self.count + 1;
        proof {
            self.parts = Ghost(self.parts@.push(part@));
        }
    }

    pub fn into_string(self) -> (r: String)
        requires
            self.wf(),
        ensures
            r@ == spec_join(self.parts(), ", "@),
    {
        self.text
    }
}

/// `s` with every non-overlapping occurrence of `pat` replaced by `rep`,
/// scanning left to right. A pattern longer than the rest of the text
/// never matches; an empty pattern is treated as matching nowhere.
pub open spec fn spec_replace(s: Seq<char>, pat: Seq<char>, rep: Seq<char>) -> Seq<char>
    decreases s.len(),
{
    if pat.len() == 0 || s.len() < pat.len() {
        s
    } else if s.subrange(0, pat.len() as int) == pat {
        rep + spec_replace(s.skip(pat.len() as int), pat, rep)
    } else {
        seq![s[0]] + spec_replace(s.skip(1), pat, rep)
    }
}

/// The index of the first occurrence of `c` in `s`, or a negative value
/// if `c` does not occur.
pub open spec fn spec_index_of(s: Seq<char>, c: char) -> int
    decreases s.len(),
{
    if s.len() == 0 {
        -1
    } else if s[0] == c {
        0
    } else {
        let sub = spec_index_of(s.drop_first(), c);
        if sub < 0 {
            -1
        } else {
            1 + sub
        }
    }
}

/// What `spec_index_of` returns: the first position holding `c`, or a
/// negative value exactly when `c` is absent.
pub proof fn lemma_index_of(s: Seq<char>, c: char)
    ensures
        spec_index_of(s, c) < 0 ==> forall|j: int| 0 <= j < s.len() ==> s[j] != c,
        spec_index_of(s, c) >= 0 ==> {
            let i = spec_index_of(s, c);
            &&& i < s.len()
            &&& s[i] == c
            &&& forall|j: int| 0 <= j < i ==> s[j] != c
        },
    decreases s.len(),
{
    if s.len() == 0 {
    } else if s[0] == c {
    } else {
        lemma_index_of(s.drop_first(), c);
        let rest = s.drop_first();
        let sub = spec_index_of(rest, c);
        if sub < 0 {
            assert(spec_index_of(s, c) == -1);
            assert forall|j: int| 0 <= j < s.len() implies s[j] != c by {
                if j > 0 {
                    assert(rest[j - 1] == s[j]);
                }
            }
        } else {
            assert(spec_index_of(s, c) == 1 + sub);
            assert(s[1 + sub] == rest[sub]);
            assert forall|j: int| 0 <= j < 1 + sub implies s[j] != c by {
                if j > 0 {
                    assert(rest[j - 1] == s[j]);
                }
            }
        }
    }
}

/// The prefix of `s` before the first `c`, or all of `s` if `c` is
/// absent: the first segment that splitting at `c` yields.
pub open spec fn spec_before(s: Seq<char>, c: char) -> Seq<char> {
    let i = spec_index_of(s, c);
    if i < 0 {
        s
    } else {
        s.subrange(0, i)
    }
}

/// What follows the first `c` in `s`, or nothing if `c` is absent.
pub open spec fn spec_after(s: Seq<char>, c: char) -> Option<Seq<char>> {
    let i = spec_index_of(s, c);
    if i < 0 {
        None
    } else {
        Some(s.skip(i + 1))
    }
}

/// The position of the first occurrence of `c`, if any.
pub fn find_char(s: &str, c: char) -> (r: Option<usize>)
    ensures
        match r {
            Some(i) => i == spec_index_of(s@, c),
            None => spec_index_of(s@, c) < 0,
        },
{
    let n = s.unicode_len();
    for i in 0..n
        invariant
            n == s@.len(),
            forall|j: int| 0 <= j < i ==> s@[j] != c,
    {
        proof {
            lemma_index_of(s@, c);
        }
        if s.get_char(i) == c {
            return Some(i);
        }
    }
    proof {
        lemma_index_of(s@, c);
    }
    None
}

/// Splits `s` at the first occurrence of `c`: the prefix, and what
/// follows (or nothing, when `c` is absent).
pub fn split_once_char(s: &str, c: char) -> (r: (String, Option<String>))
    ensures
        r.0@ == spec_before(s@, c),
        match r.1 {
            Some(rest) => spec_after(s@, c) matches Some(a) && rest@ == a,
            None => spec_after(s@, c) is None,
        },
{
    let n = s.unicode_len();
    match find_char(s, c) {
        Some(i) => {
            proof {
                lemma_index_of(s@, c);
            }
            let before = s.substring_char(0, i).to_owned();
            let after = s.substring_char(i + 1, n).to_owned();
            proof {
                assert(s@.subrange(i + 1, s@.len() as int) =~= s@.skip(i + 1));
            }
            (before, Some(after))
        },
        None => {
            let whole = s.substring_char(0, n).to_owned();
            proof {
                assert(s@.subrange(0, s@.len() as int) =~= s@);
            }
            (whole, None)
        },
    }
}

/// An ASCII whitespace character, as the URL parser trims them.
pub open spec fn ascii_whitespace(c: char) -> bool {
    c == ' ' || c == '\t' || c == '\n' || c == '\r'
}

/// `s` without leading ASCII whitespace.
pub open spec fn spec_trim_start(s: Seq<char>) -> Seq<char>
    decreases s.len(),
{
    if s.len() > 0 && ascii_whitespace(s[0]) {
        spec_trim_start(s.drop_first())
    } else {
        s
    }
}

/// `s` without trailing ASCII whitespace.
pub open spec fn spec_trim_end(s: Seq<char>) -> Seq<char>
    decreases s.len(),
{
    if s.len() > 0 && ascii_whitespace(s.last()) {
        spec_trim_end(s.drop_last())
    } else {
        s
    }
}

/// `s` without leading and trailing ASCII whitespace.
pub open spec fn spec_ascii_trim(s: Seq<char>) -> Seq<char> {
    spec_trim_end(spec_trim_start(s))
}

proof fn lemma_trim_start_at(s: Seq<char>, i: int)
    requires
        0 <= i <= s.len(),
        forall|j: int| 0 <= j < i ==> ascii_whitespace(s[j]),
        i < s.len() ==> !ascii_whitespace(s[i]),
    ensures
        spec_trim_start(s) == s.skip(i),
    decreases i,
{
    if i == 0 {
        assert(s.skip(0) =~= s);
    } else {
        lemma_trim_start_at(s.drop_first(), i - 1);
        assert(s.drop_first().skip(i - 1) =~= s.skip(i));
    }
}

proof fn lemma_trim_end_at(s: Seq<char>, i: int)
    requires
        0 <= i <= s.len(),
        forall|j: int| i <= j < s.len() ==> ascii_whitespace(s[j]),
        i > 0 ==> !ascii_whitespace(s[i - 1]),
    ensures
        spec_trim_end(s) == s.subrange(0, i),
    decreases s.len() - i,
{
    if i == s.len() as int {
        assert(s.subrange(0, i) =~= s);
    } else {
        assert(ascii_whitespace(s.last()));
        lemma_trim_end_at(s.drop_last(), i);
        assert(s.drop_last().subrange(0, i) =~= s.subrange(0, i));
    }
}

/// Trims ASCII whitespace from both ends.
pub fn ascii_trim(s: &str) -> (r: String)
    ensures
        r@ == spec_ascii_trim(s@),
{
    let n = s.unicode_len();
    let mut start: usize = 0;
    while start < n
        invariant
            start <= n,
            n == s@.len(),
            forall|j: int| 0 <= j < start ==> ascii_whitespace(s@[j]),
        ensures
            start <= n,
            forall|j: int| 0 <= j < start ==> ascii_whitespace(s@[j]),
            start < n ==> !ascii_whitespace(s@[start as int]),
        decreases n - start,
    {
        let c = s.get_char(start);
        if !(c == ' ' || c == '\t' || c == '\n' || c == '\r') {
            break;
        }
        start = start + 1;
    }
    let mut end: usize = n;
    while end > start
        invariant
            start <= end <= n,
            n == s@.len(),
            forall|j: int| end <= j < s@.len() ==> ascii_whitespace(s@[j]),
        ensures
            start <= end <= n,
            forall|j: int| end <= j < s@.len() ==> ascii_whitespace(s@[j]),
            end > start ==> !ascii_whitespace(s@[end - 1]),
        decreases end,
    {
        let c = s.get_char(end - 1);
        if !(c == ' ' || c == '\t' || c == '\n' || c == '\r') {
            break;
        }
        end = end - 1;
    }
    proof {
        lemma_trim_start_at(s@, start as int);
        if end == start {
            lemma_trim_end_at(s@.skip(start as int), 0);
        } else {
            lemma_trim_end_at(s@.skip(start as int), end - start);
        }
        assert(s@.skip(start as int).subrange(0, end - start) =~= s@.subrange(
            start as int,
            end as int,
        ));
    }
    s.substring_char(start, end).to_owned()
}

/// The ASCII-lowercase counterpart of a character; others are unchanged.
pub open spec fn spec_ascii_lower_char(c: char) -> char {
    if 65 <= c as u32 <= 90 {
        ((c as u32) + 32) as char
    } else {
        c
    }
}

/// `s` with every ASCII uppercase letter lowered.
pub open spec fn spec_ascii_lower(s: Seq<char>) -> Seq<char> {
    Seq::new(s.len(), |i: int| spec_ascii_lower_char(s[i]))
}

/// Lowers every ASCII uppercase letter.
pub fn ascii_lower(s: &str) -> (r: String)
    ensures
        r@ == spec_ascii_lower(s@),
{
    let n = s.unicode_len();
    let mut out = String::new();
    for i in 0..n
        invariant
            n == s@.len(),
            out@ =~= spec_ascii_lower(s@).subrange(0, i as int),
    {
        let c = s.get_char(i);
        let code = c as u32;
        if 65 <= code && code <= 90 {
            let lowered = char_from_code(code + 32);
            append_char(&mut out, lowered);
        } else {
            append_char(&mut out, c);
        }
        proof {
            assert(out@ =~= spec_ascii_lower(s@).subrange(0, i + 1));
        }
    }
    proof {
        assert(spec_ascii_lower(s@).subrange(0, s@.len() as int) =~= spec_ascii_lower(s@));
    }
    out
}

/// Relies on char::from_u32: the inverse of `char as u32` on every valid
/// scalar value.
#[verifier::external_body]
fn char_from_code(code: u32) -> (r: char)
    requires
        code < 0xD800 || (0xE000 <= code && code < 0x11_0000),
    ensures
        r == (code as char),
{
    char::from_u32(code).unwrap_or(' ')
}

/// Relies on String::push: appends exactly the one character.
#[verifier::external_body]
fn append_char(s: &mut String, c: char)
    ensures
        final(s)@ == old(s)@.push(c),
{
    s.push(c);
}

/// The numeric value of a digit string read in base ten. Meaningful only
/// when every character is an ASCII digit.
pub open spec fn spec_digits_value(s: Seq<char>) -> int
    decreases s.len(),
{
    if s.len() == 0 {
        0
    } else {
        spec_digits_value(s.drop_last()) * 10 + (s.last() as u32 - 48)
    }
}

/// The digits of a port string: everything after an optional leading
/// `+`.
pub open spec fn spec_port_digits(s: Seq<char>) -> Seq<char> {
    if s.len() > 0 && s[0] == '+' {
        s.drop_first()
    } else {
        s
    }
}

/// The port number the string denotes, read as std's unsigned parse
/// does: an optional leading `+`, then at least one digit, value at most
/// the largest port.
pub open spec fn spec_parse_u16(s: Seq<char>) -> Option<u16> {
    if spec_port_digits(s).len() == 0 {
        None
    } else if exists|j: int|
        0 <= j < spec_port_digits(s).len() && !ascii_digit(#[trigger] spec_port_digits(s)[j]) {
        None
    } else if spec_digits_value(spec_port_digits(s)) > 65535 {
        None
    } else {
        Some(spec_digits_value(spec_port_digits(s)) as u16)
    }
}

proof fn lemma_digits_value_grows(s: Seq<char>, i: int)
    requires
        0 <= i <= s.len(),
        forall|j: int| 0 <= j < s.len() ==> ascii_digit(#[trigger] s[j]),
    ensures
        spec_digits_value(s.subrange(0, i)) <= spec_digits_value(s),
        spec_digits_value(s) >= 0,
    decreases s.len() - i,
{
    if i == s.len() as int {
        assert(s.subrange(0, i) =~= s);
        lemma_digits_value_nonneg(s);
    } else {
        lemma_digits_value_grows(s, i + 1);
        assert(s.subrange(0, i + 1).drop_last() =~= s.subrange(0, i));
        lemma_digits_value_nonneg(s.subrange(0, i));
    }
}

proof fn lemma_digits_value_nonneg(s: Seq<char>)
    requires
        forall|j: int| 0 <= j < s.len() ==> ascii_digit(#[trigger] s[j]),
    ensures
        spec_digits_value(s) >= 0,
    decreases s.len(),
{
    if s.len() > 0 {
        lemma_digits_value_nonneg(s.drop_last());
    }
}

/// Parses a base-ten port number as std's unsigned parse does: an
/// optional leading `+`, then digits only, and the value must fit.
pub fn parse_u16(s: &str) -> (r: Option<u16>)
    ensures
        r == spec_parse_u16(s@),
{
    let n = s.unicode_len();
    let start: usize = if n > 0 && s.get_char(0) == '+' {
        1
    } else {
        0
    };
    let ghost digits = spec_port_digits(s@);
    proof {
        assert(digits =~= s@.subrange(start as int, n as int));
    }
    if n == start {
        return None;
    }
    let mut acc: u32 = 0;
    let mut i: usize = start;
    while i < n
        invariant
            n == s@.len(),
            start <= i <= n,
            n > start,
            digits == spec_port_digits(s@),
            digits == s@.subrange(start as int, n as int),
            forall|j: int| 0 <= j < i - start ==> ascii_digit(#[trigger] digits[j]),
            acc <= 65535 ==> acc == spec_digits_value(digits.subrange(0, i - start)),
            acc > 65535 ==> acc == 65536 && spec_digits_value(digits.subrange(0, i - start))
                > 65535,
        decreases n - i,
    {
        let c = s.get_char(i);
        let code = c as u32;
        proof {
            assert(digits[i - start] == s@[i as int]);
        }
        if code < 48 || code > 57 {
            proof {
                assert(0 <= i - start < digits.len() && !ascii_digit(
                    spec_port_digits(s@)[i - start],
                ));
            }
            return None;
        }
        let d = code - 48;
        proof {
            assert(digits.subrange(0, i - start + 1).drop_last() =~= digits.subrange(
                0,
                i - start,
            ));
        }
        if acc <= 65535 {
            acc = acc * 10 + d;
            if acc > 65535 {
                acc = 65536;
            }
        }
        i = i + 1;
    }
    proof {
        assert(digits.subrange(0, (n - start) as int) =~= digits);
    }
    if acc > 65535 {
        None
    } else {
        Some(acc as u16)
    }
}

/// Replaces every non-overlapping occurrence of `pat` in `s` with `rep`,
/// scanning left to right.
pub fn replace_all(s: &str, pat: &str, rep: &str) -> (r: String)
    requires
        pat@.len() > 0,
    ensures
        r@ == spec_replace(s@, pat@, rep@),
{
    let n = s.unicode_len();
    let m = pat.unicode_len();
    let mut out = String::new();
    let mut i: usize = 0;
    proof {
        assert(s@.skip(0) =~= s@);
        assert(out@ + spec_replace(s@, pat@, rep@) =~= spec_replace(s@, pat@, rep@));
    }
    while i < n
        invariant
            i <= n,
            n == s@.len(),
            m == pat@.len(),
            m > 0,
            out@ + spec_replace(s@.skip(i as int), pat@, rep@) == spec_replace(s@, pat@, rep@),
        decreases n - i,
    {
        let mut matched = m <= n - i;
        if matched {
            for j in 0..m
                invariant
                    i + m <= n,
                    n == s@.len(),
                    m == pat@.len(),
                    matched <==> forall|k: int| 0 <= k < j ==> s@[i + k] == #[trigger] pat@[k],
            {
                if s.get_char(i + j) != pat.get_char(j) {
                    matched = false;
                }
            }
        }
        proof {
            if matched {
                assert(s@.subrange(i as int, i + m) =~= pat@);
            } else if i + m <= s@.len() {
                assert(s@.subrange(i as int, i + m) != pat@);
            }
            assert(s@.skip(i as int).len() == n - i);
        }
        if matched {
            proof {
                assert(s@.skip(i as int).subrange(0, m as int) =~= s@.subrange(i as int, i + m));
                assert(s@.skip(i as int).skip(m as int) =~= s@.skip(i + m));
            }
            out.append(rep);
            i = i + m;
        } else {
            proof {
                assert(s@.skip(i as int).subrange(0, 1) =~= s@.subrange(i as int, i + 1));
                assert(s@.skip(i as int).skip(1) =~= s@.skip(i + 1));
                if i + m <= s@.len() {
                    assert(s@.skip(i as int).subrange(0, m as int) =~= s@.subrange(
                        i as int,
                        i + m,
                    ));
                }
            }
            let one = s.substring_char(i, i + 1);
            out.append(one);
            i = i + 1;
        }
    }
    proof {
        assert(s@.skip(n as int) =~= Seq::empty());
    }
    out
}

} // verus!
