//! Text building blocks shared by the authoring compilers: string equality,
//! decimal numbers, quoted lists and line-oriented documents.

use vstd::prelude::*;
use vstd::string::StringExecFns;
use vstd::string::StringSliceAdditionalSpecFns;
use vstd::string::StrSliceExecFns;

verus! {

broadcast use vstd::utf8::encode_utf8_decode_utf8;

/// Two strings are equal exactly when their characters are.
pub fn str_eq(a: &str, b: &str) -> (equal: bool)
    ensures
        equal == (a@ == b@),
{
    let ab = a.as_bytes();
    let bb = b.as_bytes();
    proof {
        assert(vstd::utf8::decode_utf8(a.spec_bytes()) == a@);
        assert(vstd::utf8::decode_utf8(b.spec_bytes()) == b@);
    }
    if ab.len() != bb.len() {
        return false;
    }
    let mut i: usize = 0;
    while i < ab.len()
        invariant
            ab@ == a.spec_bytes(),
            bb@ == b.spec_bytes(),
            ab.len() == bb.len(),
            0 <= i <= ab.len(),
            forall|k: int| 0 <= k < i ==> ab@[k] == bb@[k],
        decreases ab.len() - i,
    {
        if ab[i] != bb[i] {
            return false;
        }
        i = i + 1;
    }
    assert(ab@ =~= bb@);
    true
}

/// The character of a decimal digit.
pub open spec fn digit_char(d: nat) -> char {
    if d == 0 {
        '0'
    } else if d == 1 {
        '1'
    } else if d == 2 {
        '2'
    } else if d == 3 {
        '3'
    } else if d == 4 {
        '4'
    } else if d == 5 {
        '5'
    } else if d == 6 {
        '6'
    } else if d == 7 {
        '7'
    } else if d == 8 {
        '8'
    } else {
        '9'
    }
}

/// Decimal representation of a natural number, without leading zeros.
pub open spec fn decimal(n: nat) -> Seq<char>
    decreases n,
{
    if n < 10 {
        seq![digit_char(n)]
    } else {
        decimal(n / 10) + seq![digit_char(n % 10)]
    }
}

fn digit_str(d: u64) -> (s: &'static str)
    requires
        d < 10,
    ensures
        s@ == seq![digit_char(d as nat)],
{
    match d {
        0 => {
            proof {
                reveal_strlit("0");
            }
            "0"
        },
        1 => {
            proof {
                reveal_strlit("1");
            }
            "1"
        },
        2 => {
            proof {
                reveal_strlit("2");
            }
            "2"
        },
        3 => {
            proof {
                reveal_strlit("3");
            }
            "3"
        },
        4 => {
            proof {
                reveal_strlit("4");
            }
            "4"
        },
        5 => {
            proof {
                reveal_strlit("5");
            }
            "5"
        },
        6 => {
            proof {
                reveal_strlit("6");
            }
            "6"
        },
        7 => {
            proof {
                reveal_strlit("7");
            }
            "7"
        },
        8 => {
            proof {
                reveal_strlit("8");
            }
            "8"
        },
        _ => {
            proof {
                reveal_strlit("9");
            }
            "9"
        },
    }
}

/// Appends the decimal representation of `v`.
pub fn push_decimal(out: &mut String, v: u64)
    ensures
        final(out)@ == old(out)@ + decimal(v as nat),
    decreases v,
{
    if v >= 10 {
        push_decimal(out, v / 10);
    }
    out.append(digit_str(v % 10));
    assert(final(out)@ =~= old(out)@ + decimal(v as nat));
}

/// A new string holding `s`.
pub fn string_of(s: &str) -> (out: String)
    ensures
        out@ == s@,
{
    String::from_str(s)
}

/// The text of a sequence of lines, each ended by a newline.
pub open spec fn join_lines(lines: Seq<Seq<char>>) -> Seq<char>
    decreases lines.len(),
{
    if lines.len() == 0 {
        Seq::empty()
    } else {
        join_lines(lines.drop_last()) + lines.last() + seq!['\n']
    }
}

/// A single item in double quotes.
pub open spec fn quoted(item: Seq<char>) -> Seq<char> {
    seq!['"'] + item + seq!['"']
}

/// Items in double quotes, separated by a comma and a space.
pub open spec fn quoted_list(items: Seq<Seq<char>>) -> Seq<char>
    decreases items.len(),
{
    if items.len() == 0 {
        Seq::empty()
    } else if items.len() == 1 {
        quoted(items[0])
    } else {
        quoted_list(items.drop_last()) + seq![',', ' '] + quoted(items.last())
    }
}

/// Appends `"item"`.
pub fn push_quoted(out: &mut String, item: &str)
    ensures
        final(out)@ == old(out)@ + quoted(item@),
{
    proof {
        reveal_strlit("\"");
    }
    out.append("\"");
    out.append(item);
    out.append("\"");
    assert(final(out)@ =~= old(out)@ + quoted(item@));
}

/// Appends the quoted, comma-separated list of `items`.
pub fn push_quoted_list(out: &mut String, items: &[&str])
    ensures
        final(out)@ == old(out)@ + quoted_list(items@.map_values(|s: &str| s@)),
{
    let ghost start = out@;
    let ghost all = items@.map_values(|s: &str| s@);
    let mut i: usize = 0;
    proof {
        reveal_strlit(", ");
        assert(all.take(0) =~= Seq::<Seq<char>>::empty());
    }
    while i < items.len()
        invariant
            0 <= i <= items.len(),
            all == items@.map_values(|s: &str| s@),
            out@ == start + quoted_list(all.take(i as int)),
        decreases items.len() - i,
    {
        let ghost before = out@;
        if i > 0 {
            out.append(", ");
        }
        let ghost mid = out@;
        push_quoted(out, items[i]);
        proof {
            let t = all.take(i + 1);
            assert(t.drop_last() =~= all.take(i as int));
            assert(t.last() == items@[i as int]@);
            if i == 0 {
                assert(t.len() == 1);
                assert(t[0] == items@[0]@);
                assert(quoted_list(all.take(0)) =~= Seq::<char>::empty());
                assert(out@ =~= start + quoted_list(t));
            } else {
                reveal_strlit(", ");
                assert(", "@ =~= seq![',', ' ']);
                assert(mid == before + seq![',', ' ']);
                assert(out@ =~= start + quoted_list(t));
            }
        }
        i = i + 1;
    }
    assert(all.take(items.len() as int) =~= all);
}


/// Appends each item of `items` in double quotes, separated by a comma and a space.
pub fn push_quoted_strings(out: &mut String, items: &Vec<String>)
    ensures
        final(out)@ == old(out)@ + quoted_list(items@.map_values(|s: String| s@)),
{
    let ghost start = out@;
    let ghost all = items@.map_values(|s: String| s@);
    let mut i: usize = 0;
    proof {
        reveal_strlit(", ");
        assert(all.take(0) =~= Seq::<Seq<char>>::empty());
    }
    while i < items.len()
        invariant
            0 <= i <= items.len(),
            all == items@.map_values(|s: String| s@),
            out@ == start + quoted_list(all.take(i as int)),
        decreases items.len() - i,
    {
        let ghost before = out@;
        if i > 0 {
            out.append(", ");
        }
        let ghost mid = out@;
        push_quoted(out, items[i].as_str());
        proof {
            let t = all.take(i + 1);
            assert(t.drop_last() =~= all.take(i as int));
            assert(t.last() == items@[i as int]@);
            if i == 0 {
                assert(t.len() == 1);
                assert(quoted_list(all.take(0)) =~= Seq::<char>::empty());
                assert(out@ =~= start + quoted_list(t));
            } else {
                reveal_strlit(", ");
                assert(", "@ =~= seq![',', ' ']);
                assert(mid == before + seq![',', ' ']);
                assert(out@ =~= start + quoted_list(t));
            }
        }
        i = i + 1;
    }
    assert(all.take(items.len() as int) =~= all);
}

/// `s` with every `from` replaced by `to`.
pub open spec fn replace_char(s: Seq<char>, from: char, to: char) -> Seq<char> {
    s.map_values(|c: char| if c == from { to } else { c })
}

/// `s` with every `from` replaced by the one-character string `to`.
pub fn replaced_char(s: &str, from: char, to: &str) -> (r: String)
    requires
        to@.len() == 1,
    ensures
        r@ == replace_char(s@, from, to@[0]),
{
    let n = s.unicode_len();
    let mut r = String::new();
    let mut i: usize = 0;
    assert(s@.take(0) =~= Seq::<char>::empty());
    assert(r@ =~= replace_char(s@.take(0), from, to@[0]));
    while i < n
        invariant
            0 <= i <= n,
            n == s@.len(),
            to@.len() == 1,
            r@ == replace_char(s@.take(i as int), from, to@[0]),
        decreases n - i,
    {
        let c = s.get_char(i);
        if c == from {
            r.append(to);
        } else {
            let one = s.substring_char(i, i + 1);
            assert(one@ =~= seq![c]);
            r.append(one);
        }
        assert(s@.take(i + 1) =~= s@.take(i as int).push(c));
        assert(r@ =~= replace_char(s@.take(i + 1), from, to@[0]));
        i = i + 1;
    }
    assert(s@.take(n as int) =~= s@);
    r
}

/// `marker` occurs in `text` starting at index `i`.
pub open spec fn occurs_at(text: Seq<char>, marker: Seq<char>, i: int) -> bool {
    0 <= i && i + marker.len() <= text.len() && text.subrange(i, i + marker.len()) == marker
}

/// Index of the last occurrence of `marker` in `text`, if any.
pub fn rfind(text: &str, marker: &str) -> (r: Option<usize>)
    ensures
        match r {
            Some(i) => occurs_at(text@, marker@, i as int) && forall|j: int|
                i < j ==> !occurs_at(text@, marker@, j),
            None => forall|j: int| !occurs_at(text@, marker@, j),
        },
{
    let n = text.unicode_len();
    let m = marker.unicode_len();
    if m > n {
        return None;
    }
    let mut k: usize = n - m;
    loop
        invariant
            0 <= k <= n - m,
            n == text@.len(),
            m == marker@.len(),
            m <= n,
            forall|j: int| k < j ==> !occurs_at(text@, marker@, j),
        decreases k,
    {
        let window = text.substring_char(k, k + m);
        if str_eq(window, marker) {
            return Some(k);
        }
        if k == 0 {
            return None;
        }
        k = k - 1;
    }
}

/// `s` begins with `p`.
pub open spec fn has_prefix(s: Seq<char>, p: Seq<char>) -> bool {
    p.len() <= s.len() && s.subrange(0, p.len() as int) == p
}

/// `s` ends with `p`.
pub open spec fn has_suffix(s: Seq<char>, p: Seq<char>) -> bool {
    p.len() <= s.len() && s.subrange(s.len() - p.len(), s.len() as int) == p
}

pub fn starts_with(s: &str, p: &str) -> (b: bool)
    ensures
        b == has_prefix(s@, p@),
{
    let n = s.unicode_len();
    let m = p.unicode_len();
    if m > n {
        return false;
    }
    str_eq(s.substring_char(0, m), p)
}

pub fn ends_with(s: &str, p: &str) -> (b: bool)
    ensures
        b == has_suffix(s@, p@),
{
    let n = s.unicode_len();
    let m = p.unicode_len();
    if m > n {
        return false;
    }
    str_eq(s.substring_char(n - m, n), p)
}

/// `s` without the prefix `p`, or `s` itself when it does not begin with `p`.
pub open spec fn strip_prefix_or_self(s: Seq<char>, p: Seq<char>) -> Seq<char> {
    if has_prefix(s, p) {
        s.subrange(p.len() as int, s.len() as int)
    } else {
        s
    }
}

pub fn stripped_prefix_or_self<'a>(s: &'a str, p: &str) -> (r: &'a str)
    ensures
        r@ == strip_prefix_or_self(s@, p@),
{
    if starts_with(s, p) {
        s.substring_char(p.unicode_len(), s.unicode_len())
    } else {
        s
    }
}

/// Characters with the Unicode `White_Space` property.
pub open spec fn is_unicode_whitespace(c: char) -> bool {
    ('\u{9}' <= c && c <= '\u{d}') || c == ' ' || c == '\u{85}' || c == '\u{a0}' || c
        == '\u{1680}' || ('\u{2000}' <= c && c <= '\u{200a}') || c == '\u{2028}' || c == '\u{2029}'
        || c == '\u{202f}' || c == '\u{205f}' || c == '\u{3000}'
}

pub fn is_whitespace_char(c: char) -> (b: bool)
    ensures
        b == is_unicode_whitespace(c),
{
    ('\u{9}' <= c && c <= '\u{d}') || c == ' ' || c == '\u{85}' || c == '\u{a0}' || c
        == '\u{1680}' || ('\u{2000}' <= c && c <= '\u{200a}') || c == '\u{2028}' || c == '\u{2029}'
        || c == '\u{202f}' || c == '\u{205f}' || c == '\u{3000}'
}

/// `s` without its trailing whitespace.
pub open spec fn trim_end(s: Seq<char>) -> Seq<char>
    decreases s.len(),
{
    if s.len() > 0 && is_unicode_whitespace(s.last()) {
        trim_end(s.drop_last())
    } else {
        s
    }
}

pub fn trimmed_end(s: &str) -> (r: &str)
    ensures
        r@ == trim_end(s@),
{
    let n = s.unicode_len();
    let mut end: usize = n;
    assert(s@.take(n as int) =~= s@);
    while end > 0 && is_whitespace_char(s.get_char(end - 1))
        invariant
            0 <= end <= n,
            n == s@.len(),
            trim_end(s@.take(end as int)) == trim_end(s@),
        decreases end,
    {
        assert(s@.take(end as int).drop_last() =~= s@.take(end - 1));
        end = end - 1;
    }
    let r = s.substring_char(0, end);
    assert(r@ =~= s@.take(end as int));
    r
}

/// Lexicographic order of texts by code point, which is the order in which
/// Rust compares strings.
pub open spec fn text_le(a: Seq<char>, b: Seq<char>) -> bool
    decreases a.len(),
{
    if a.len() == 0 {
        true
    } else if b.len() == 0 {
        false
    } else if a[0] != b[0] {
        a[0] < b[0]
    } else {
        text_le(a.drop_first(), b.drop_first())
    }
}

pub proof fn lemma_text_le_total(a: Seq<char>, b: Seq<char>)
    ensures
        text_le(a, b) || text_le(b, a),
    decreases a.len(),
{
    if a.len() > 0 && b.len() > 0 && a[0] == b[0] {
        lemma_text_le_total(a.drop_first(), b.drop_first());
    }
}

pub proof fn lemma_text_le_antisymmetric(a: Seq<char>, b: Seq<char>)
    requires
        text_le(a, b),
        text_le(b, a),
    ensures
        a == b,
    decreases a.len(),
{
    if a.len() > 0 && b.len() > 0 {
        lemma_text_le_antisymmetric(a.drop_first(), b.drop_first());
        assert(a =~= seq![a[0]] + a.drop_first());
        assert(b =~= seq![b[0]] + b.drop_first());
    } else {
        assert(a =~= b);
    }
}

pub proof fn lemma_text_le_transitive(a: Seq<char>, b: Seq<char>, c: Seq<char>)
    requires
        text_le(a, b),
        text_le(b, c),
    ensures
        text_le(a, c),
    decreases a.len(),
{
    if a.len() > 0 && b.len() > 0 && c.len() > 0 && a[0] == b[0] && b[0] == c[0] {
        lemma_text_le_transitive(a.drop_first(), b.drop_first(), c.drop_first());
    }
}

pub proof fn lemma_text_le_reflexive(a: Seq<char>)
    ensures
        text_le(a, a),
    decreases a.len(),
{
    if a.len() > 0 {
        lemma_text_le_reflexive(a.drop_first());
    }
}

/// Compares two texts in [`text_le`] order.
pub fn str_le(a: &str, b: &str) -> (le: bool)
    ensures
        le == text_le(a@, b@),
{
    let n = a.unicode_len();
    let m = b.unicode_len();
    let mut i: usize = 0;
    assert(a@.skip(0) =~= a@);
    assert(b@.skip(0) =~= b@);
    while i < n && i < m && a.get_char(i) == b.get_char(i)
        invariant
            0 <= i <= n,
            i <= m,
            n == a@.len(),
            m == b@.len(),
            text_le(a@, b@) == text_le(a@.skip(i as int), b@.skip(i as int)),
            a@.skip(i as int).len() == n - i,
            b@.skip(i as int).len() == m - i,
        decreases n - i,
    {
        assert(a@.skip(i as int).drop_first() =~= a@.skip(i + 1));
        assert(b@.skip(i as int).drop_first() =~= b@.skip(i + 1));
        i = i + 1;
    }
    if i == n {
        true
    } else if i == m {
        false
    } else {
        let ca = a.get_char(i);
        let cb = b.get_char(i);
        assert(a@.skip(i as int)[0] == ca);
        assert(b@.skip(i as int)[0] == cb);
        ca < cb
    }
}

/// A text built line by line; every line ends with a newline.
pub struct LineBuffer {
    text: String,
    lines: Ghost<Seq<Seq<char>>>,
}

impl LineBuffer {
    /// The lines pushed so far.
    pub closed spec fn lines(&self) -> Seq<Seq<char>> {
        self.lines@
    }

    pub closed spec fn wf(&self) -> bool {
        self.text@ == join_lines(self.lines@)
    }

    pub fn new() -> (b: Self)
        ensures
            b.wf(),
            b.lines() == Seq::<Seq<char>>::empty(),
    {
        LineBuffer { text: String::new(), lines: Ghost(Seq::empty()) }
    }

    /// Appends `line` and a newline.
    pub fn push(&mut self, line: &str)
        requires
            old(self).wf(),
        ensures
            final(self).wf(),
            final(self).lines() == old(self).lines().push(line@),
    {
        proof {
            reveal_strlit("\n");
        }
        self.text.append(line);
        self.text.append("\n");
        self.lines = Ghost(self.lines@.push(line@));
        assert(self.lines@.drop_last() =~= old(self).lines@);
        assert(self.text@ =~= join_lines(self.lines@));
    }

    /// The text of all lines.
    pub fn into_string(self) -> (s: String)
        requires
            self.wf(),
        ensures
            s@ == join_lines(self.lines()),
    {
        self.text
    }
}

/// `prefix` followed by `value`.
pub fn joined(prefix: &str, value: &str) -> (s: String)
    ensures
        s@ == prefix@ + value@,
{
    let mut s = string_of(prefix);
    s.append(value);
    s
}

/// `a`, `b` and `c`, one after the other.
pub fn concat3(a: &str, b: &str, c: &str) -> (s: String)
    ensures
        s@ == a@ + b@ + c@,
{
    let mut s = string_of(a);
    s.append(b);
    s.append(c);
    s
}

/// `a` to `e`, one after the other.
pub fn concat5(a: &str, b: &str, c: &str, d: &str, e: &str) -> (s: String)
    ensures
        s@ == a@ + b@ + c@ + d@ + e@,
{
    let mut s = string_of(a);
    s.append(b);
    s.append(c);
    s.append(d);
    s.append(e);
    s
}

/// A line `prefix "value"`.
pub open spec fn quoted_line(prefix: Seq<char>, value: Seq<char>) -> Seq<char> {
    prefix + "\""@ + value + "\""@
}

/// The line `prefix "value"`.
pub fn quoted_line_string(prefix: &str, value: &str) -> (s: String)
    ensures
        s@ == quoted_line(prefix@, value@),
{
    let mut s = string_of(prefix);
    s.append("\"");
    s.append(value);
    s.append("\"");
    s
}

/// The line `prefix` followed by the decimal form of `v`.
pub fn decimal_line(prefix: &str, v: u64) -> (s: String)
    ensures
        s@ == prefix@ + decimal(v as nat),
{
    let mut s = string_of(prefix);
    push_decimal(&mut s, v);
    s
}

/// The text of a boolean.
pub open spec fn bool_text(b: bool) -> Seq<char> {
    if b {
        "true"@
    } else {
        "false"@
    }
}

/// The line `prefix` followed by `true` or `false`.
pub fn bool_line(prefix: &str, b: bool) -> (s: String)
    ensures
        s@ == prefix@ + bool_text(b),
{
    if b {
        joined(prefix, "true")
    } else {
        joined(prefix, "false")
    }
}
} // verus!
