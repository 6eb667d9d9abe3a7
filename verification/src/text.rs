//! Character-level helpers shared by the palette, the file generators and the
//! editor state: ASCII classification, hex and decimal rendering, and the
//! string operations the rest of the crate is built from.
use vstd::prelude::*;

verus! {

/// `String::push` appends one character.
pub assume_specification[ String::push ](string: &mut String, ch: char)
    ensures
        final(string)@ == old(string)@.push(ch),
;

/// `String::pop` removes and returns the last character, or returns `None`
/// and leaves the string alone when it is empty.
pub assume_specification[ String::pop ](string: &mut String) -> (popped: Option<char>)
    ensures
        old(string)@.len() == 0 ==> popped is None && final(string)@ == old(string)@,
        old(string)@.len() > 0 ==> popped == Some(old(string)@.last()) && final(string)@
            == old(string)@.drop_last(),
;

// ── ASCII classification ─────────────────────────────────────────────────────

pub open spec fn is_ascii_digit_spec(c: char) -> bool {
    '0' <= c <= '9'
}

pub open spec fn is_ascii_upper_spec(c: char) -> bool {
    'A' <= c <= 'Z'
}

pub open spec fn is_ascii_lower_spec(c: char) -> bool {
    'a' <= c <= 'z'
}

pub open spec fn is_ascii_alphanumeric_spec(c: char) -> bool {
    is_ascii_digit_spec(c) || is_ascii_upper_spec(c) || is_ascii_lower_spec(c)
}

/// The characters that `char::is_ascii_whitespace` accepts: space, tab, line
/// feed, form feed and carriage return.
pub open spec fn is_ascii_whitespace_spec(c: char) -> bool {
    c == ' ' || c == '\t' || c == '\n' || c == '\x0C' || c == '\r'
}

pub open spec fn to_ascii_lowercase_spec(c: char) -> char {
    if is_ascii_upper_spec(c) {
        ((c as u32) + 32) as char
    } else {
        c
    }
}

pub open spec fn lowercase_seq(s: Seq<char>) -> Seq<char> {
    s.map_values(|c: char| to_ascii_lowercase_spec(c))
}

pub fn is_ascii_alphanumeric(c: char) -> (r: bool)
    ensures
        r == is_ascii_alphanumeric_spec(c),
{
    ('0' <= c && c <= '9') || ('A' <= c && c <= 'Z') || ('a' <= c && c <= 'z')
}

pub fn is_ascii_whitespace(c: char) -> (r: bool)
    ensures
        r == is_ascii_whitespace_spec(c),
{
    c == ' ' || c == '\t' || c == '\n' || c == '\x0C' || c == '\r'
}

pub fn to_ascii_lowercase(c: char) -> (r: char)
    ensures
        r == to_ascii_lowercase_spec(c),
{
    if 'A' <= c && c <= 'Z' {
        let b = c as u8;
        (b + 32) as char
    } else {
        c
    }
}

// ── Reading and building strings ─────────────────────────────────────────────

/// The characters of `s`, in order.
pub fn chars_of(s: &str) -> (r: Vec<char>)
    ensures
        r@ == s@,
{
    let n = s.unicode_len();
    let mut out: Vec<char> = Vec::new();
    let mut i: usize = 0;
    while i < n
        invariant
            n == s@.len(),
            i <= n,
            out@ == s@.subrange(0, i as int),
        decreases n - i,
    {
        out.push(s.get_char(i));
        i = i + 1;
    }
    assert(out@ =~= s@);
    out
}

/// A `String` holding exactly the given characters.
pub fn string_from_chars(cs: &Vec<char>) -> (r: String)
    ensures
        r@ == cs@,
{
    let mut out = String::new();
    let mut i: usize = 0;
    while i < cs.len()
        invariant
            i <= cs.len(),
            out@ == cs@.subrange(0, i as int),
        decreases cs.len() - i,
    {
        out.push(cs[i]);
        i = i + 1;
    }
    assert(out@ =~= cs@);
    out
}

/// Whether two strings hold the same characters.
pub fn str_equal(a: &str, b: &str) -> (r: bool)
    ensures
        r == (a@ == b@),
{
    let ca = chars_of(a);
    let cb = chars_of(b);
    if ca.len() != cb.len() {
        return false;
    }
    let mut i: usize = 0;
    while i < ca.len()
        invariant
            ca@ == a@,
            cb@ == b@,
            ca.len() == cb.len(),
            i <= ca.len(),
            forall|j: int| 0 <= j < i ==> ca@[j] == cb@[j],
        decreases ca.len() - i,
    {
        if ca[i] != cb[i] {
            return false;
        }
        i = i + 1;
    }
    assert(a@ =~= b@);
    true
}

/// ASCII-lowercased copy of `s`.
pub fn lowercase_string(s: &str) -> (r: String)
    ensures
        r@ == lowercase_seq(s@),
{
    let cs = chars_of(s);
    let mut out = String::new();
    let mut i: usize = 0;
    while i < cs.len()
        invariant
            cs@ == s@,
            i <= cs.len(),
            out@ == lowercase_seq(s@.subrange(0, i as int)),
        decreases cs.len() - i,
    {
        out.push(to_ascii_lowercase(cs[i]));
        assert(lowercase_seq(s@.subrange(0, i + 1)) =~= lowercase_seq(s@.subrange(0, i as int)).push(
            to_ascii_lowercase_spec(s@[i as int]),
        ));
        i = i + 1;
    }
    assert(s@.subrange(0, cs.len() as int) =~= s@);
    out
}

// ── Substring and subsequence search ─────────────────────────────────────────

/// `needle` occurs as a contiguous run of characters inside `hay`.
pub open spec fn contains_substring(hay: Seq<char>, needle: Seq<char>) -> bool {
    exists|i: int| 0 <= i && i + needle.len() <= hay.len() && #[trigger] hay.subrange(i, i + needle.len()) == needle
}

/// `needle` can be obtained from `hay` by deleting characters.
pub open spec fn is_subsequence(needle: Seq<char>, hay: Seq<char>) -> bool
    decreases hay.len(),
{
    if needle.len() == 0 {
        true
    } else if hay.len() == 0 {
        false
    } else if needle[0] == hay[0] {
        is_subsequence(needle.drop_first(), hay.drop_first())
    } else {
        is_subsequence(needle, hay.drop_first())
    }
}

fn matches_at(hay: &Vec<char>, needle: &Vec<char>, start: usize) -> (r: bool)
    requires
        start + needle.len() <= hay.len(),
    ensures
        r == (hay@.subrange(start as int, start + needle.len()) == needle@),
{
    let mut j: usize = 0;
    while j < needle.len()
        invariant
            start + needle.len() <= hay.len(),
            j <= needle.len(),
            forall|k: int| 0 <= k < j ==> hay@[start + k] == needle@[k],
        decreases needle.len() - j,
    {
        if hay[start + j] != needle[j] {
            assert(hay@.subrange(start as int, start + needle.len())[j as int] != needle@[j as int]);
            return false;
        }
        j = j + 1;
    }
    assert(hay@.subrange(start as int, start + needle.len()) =~= needle@);
    true
}

/// Whether `needle` occurs inside `hay` (what `str::contains` answers for a
/// string pattern).
pub fn contains_str(hay: &str, needle: &str) -> (r: bool)
    ensures
        r == contains_substring(hay@, needle@),
{
    let h = chars_of(hay);
    let n = chars_of(needle);
    if n.len() > h.len() {
        assert(!contains_substring(hay@, needle@));
        return false;
    }
    let last = h.len() - n.len();
    let mut i: usize = 0;
    while i < last
        invariant
            h@ == hay@,
            n@ == needle@,
            last == h.len() - n.len(),
            n.len() <= h.len(),
            i <= last,
            forall|k: int| 0 <= k < i ==> #[trigger] hay@.subrange(k, k + needle@.len()) != needle@,
        decreases last - i,
    {
        if matches_at(&h, &n, i) {
            return true;
        }
        i = i + 1;
    }
    if matches_at(&h, &n, last) {
        return true;
    }
    assert forall|k: int|
        0 <= k && k + needle@.len() <= hay@.len() implies #[trigger] hay@.subrange(
        k,
        k + needle@.len(),
    ) != needle@ by {
        if k < last {
            assert(k < i);
        }
    }
    false
}

proof fn lemma_subsequence_skip(needle: Seq<char>, hay: Seq<char>, k: int)
    requires
        0 <= k <= hay.len(),
        forall|j: int| 0 <= j < k ==> hay[j] != needle[0],
        needle.len() > 0,
    ensures
        is_subsequence(needle, hay) == is_subsequence(needle, hay.skip(k)),
    decreases k,
{
    if k > 0 {
        assert(hay.skip(1) =~= hay.drop_first());
        assert(hay.drop_first().skip(k - 1) =~= hay.skip(k));
        lemma_subsequence_skip(needle, hay.drop_first(), k - 1);
    } else {
        assert(hay.skip(0) =~= hay);
    }
}

/// Whether the characters of `needle` appear in `hay` in order, not
/// necessarily next to each other.
pub fn is_subsequence_of(hay: &str, needle: &str) -> (r: bool)
    ensures
        r == is_subsequence(needle@, hay@),
{
    let h = chars_of(hay);
    let n = chars_of(needle);
    let mut hi: usize = 0;
    let mut ni: usize = 0;
    assert(needle@.skip(0) =~= needle@);
    assert(hay@.skip(0) =~= hay@);
    while ni < n.len()
        invariant
            h@ == hay@,
            n@ == needle@,
            hi <= h.len(),
            ni <= n.len(),
            is_subsequence(needle@, hay@) == is_subsequence(needle@.skip(ni as int), hay@.skip(hi as int)),
        decreases n.len() - ni,
    {
        let c = n[ni];
        let ghost rest = needle@.skip(ni as int);
        let ghost start = hi;
        let mut found = false;
        while hi < h.len()
            invariant_except_break
                !found,
            invariant
                h@ == hay@,
                start <= hi <= h.len(),
                forall|j: int| start <= j < hi ==> hay@[j] != c,
            ensures
                found ==> hi < h.len() && hay@[hi as int] == c,
                !found ==> hi == h.len(),
            decreases h.len() - hi,
        {
            if h[hi] == c {
                found = true;
                break;
            }
            hi = hi + 1;
        }
        proof {
            assert(rest[0] == c);
            let tail = hay@.skip(start as int);
            assert forall|j: int| 0 <= j < hi - start implies tail[j] != rest[0] by {
                assert(tail[j] == hay@[start + j]);
            }
            lemma_subsequence_skip(rest, tail, hi - start);
            assert(tail.skip(hi - start) =~= hay@.skip(hi as int));
        }
        if !found {
            proof {
                assert(hay@.skip(hi as int).len() == 0);
            }
            return false;
        }
        proof {
            let t = hay@.skip(hi as int);
            assert(t[0] == c);
            assert(t.drop_first() =~= hay@.skip(hi + 1));
            assert(rest.drop_first() =~= needle@.skip(ni + 1));
        }
        hi = hi + 1;
        ni = ni + 1;
    }
    proof {
        assert(needle@.skip(ni as int).len() == 0);
    }
    true
}

// ── Hex and decimal rendering ────────────────────────────────────────────────

/// The lowercase hex digit for a value below 16.
pub open spec fn hex_digit_char(d: int) -> char {
    if d < 10 {
        (48 + d) as char
    } else {
        (87 + d) as char
    }
}

/// A byte as two lowercase hex digits (`{:02x}`).
pub open spec fn hex_byte(b: u8) -> Seq<char> {
    seq![hex_digit_char(b as int / 16), hex_digit_char(b as int % 16)]
}

/// A byte in decimal, without leading zeros (`{}`).
pub open spec fn decimal_u8(b: u8) -> Seq<char> {
    if b < 10 {
        seq![(48 + b) as char]
    } else if b < 100 {
        seq![(48 + b / 10) as char, (48 + b % 10) as char]
    } else {
        seq![(48 + b / 100) as char, (48 + (b / 10) % 10) as char, (48 + b % 10) as char]
    }
}

fn hex_digit(d: u8) -> (c: char)
    requires
        d < 16,
    ensures
        c == hex_digit_char(d as int),
{
    if d < 10 {
        (48u8 + d) as char
    } else {
        (87u8 + d) as char
    }
}

/// Appends `b` as two lowercase hex digits.
pub fn push_hex_byte(s: &mut String, b: u8)
    ensures
        final(s)@ == old(s)@ + hex_byte(b),
{
    s.push(hex_digit(b / 16));
    s.push(hex_digit(b % 16));
    assert(final(s)@ =~= old(s)@ + hex_byte(b));
}

/// Appends `b` in decimal.
pub fn push_decimal_u8(s: &mut String, b: u8)
    ensures
        final(s)@ == old(s)@ + decimal_u8(b),
{
    if b < 10 {
        s.push((48u8 + b) as char);
    } else if b < 100 {
        s.push((48u8 + b / 10) as char);
        s.push((48u8 + b % 10) as char);
    } else {
        s.push((48u8 + b / 100) as char);
        s.push((48u8 + (b / 10) % 10) as char);
        s.push((48u8 + b % 10) as char);
    }
    assert(final(s)@ =~= old(s)@ + decimal_u8(b));
}

// ── Ordering names ───────────────────────────────────────────────────────────

/// `a` sorts no later than `b`: character by character on code points, a
/// proper prefix first (the order of `str`'s `Ord`, since UTF-8 preserves
/// code point order).
pub open spec fn lex_le(a: Seq<char>, b: Seq<char>) -> bool
    decreases a.len(),
{
    if a.len() == 0 {
        true
    } else if b.len() == 0 {
        false
    } else if a[0] != b[0] {
        a[0] < b[0]
    } else {
        lex_le(a.drop_first(), b.drop_first())
    }
}

/// The order is total: of any two names one sorts no later than the other.
pub proof fn lemma_lex_le_total(a: Seq<char>, b: Seq<char>)
    ensures
        lex_le(a, b) || lex_le(b, a),
    decreases a.len(),
{
    if a.len() > 0 && b.len() > 0 && a[0] == b[0] {
        lemma_lex_le_total(a.drop_first(), b.drop_first());
    }
}

/// The order is transitive.
pub proof fn lemma_lex_le_transitive(a: Seq<char>, b: Seq<char>, c: Seq<char>)
    requires
        lex_le(a, b),
        lex_le(b, c),
    ensures
        lex_le(a, c),
    decreases a.len(),
{
    if a.len() > 0 && b.len() > 0 && c.len() > 0 && a[0] == b[0] && b[0] == c[0] {
        lemma_lex_le_transitive(a.drop_first(), b.drop_first(), c.drop_first());
    }
}

/// The order is antisymmetric: names that each sort no later than the other
/// are equal.
pub proof fn lemma_lex_le_antisymmetric(a: Seq<char>, b: Seq<char>)
    requires
        lex_le(a, b),
        lex_le(b, a),
    ensures
        a == b,
    decreases a.len(),
{
    if a.len() > 0 && b.len() > 0 {
        lemma_lex_le_antisymmetric(a.drop_first(), b.drop_first());
        assert(a =~= seq![a[0]] + a.drop_first());
        assert(b =~= seq![b[0]] + b.drop_first());
    }
}

/// Whether `a` sorts no later than `b`.
pub fn str_lex_le(a: &str, b: &str) -> (r: bool)
    ensures
        r == lex_le(a@, b@),
{
    let ca = chars_of(a);
    let cb = chars_of(b);
    let mut i: usize = 0;
    proof {
        assert(a@.skip(0) =~= a@);
        assert(b@.skip(0) =~= b@);
    }
    while i < ca.len() && i < cb.len() && ca[i] == cb[i]
        invariant
            ca@ == a@,
            cb@ == b@,
            i <= ca.len(),
            i <= cb.len(),
            lex_le(a@, b@) == lex_le(a@.skip(i as int), b@.skip(i as int)),
        decreases ca.len() - i,
    {
        proof {
            assert(a@.skip(i as int).drop_first() =~= a@.skip(i + 1));
            assert(b@.skip(i as int).drop_first() =~= b@.skip(i + 1));
        }
        i = i + 1;
    }
    proof {
        let sa = a@.skip(i as int);
        let sb = b@.skip(i as int);
        if sa.len() > 0 {
            assert(sa[0] == a@[i as int]);
        }
        if sb.len() > 0 {
            assert(sb[0] == b@[i as int]);
        }
    }
    if i == ca.len() {
        true
    } else if i == cb.len() {
        false
    } else {
        ca[i] < cb[i]
    }
}

pub open spec fn string_views(v: Seq<String>) -> Seq<Seq<char>> {
    v.map_values(|s: String| s@)
}

/// Every name sorts no later than every name after it.
pub open spec fn is_sorted_names(s: Seq<Seq<char>>) -> bool {
    forall|i: int, j: int| 0 <= i < j < s.len() ==> lex_le(#[trigger] s[i], #[trigger] s[j])
}

/// The names of `v`, sorted (as `sort` on a `Vec<String>` orders them).
pub fn sort_strings(v: Vec<String>) -> (r: Vec<String>)
    ensures
        is_sorted_names(string_views(r@)),
        string_views(r@).to_multiset() == string_views(v@).to_multiset(),
{
    let mut out: Vec<String> = Vec::new();
    let mut i: usize = 0;
    proof {
        assert(string_views(v@.take(0)) =~= Seq::<Seq<char>>::empty());
        assert(string_views(out@) =~= Seq::<Seq<char>>::empty());
    }
    while i < v.len()
        invariant
            i <= v.len(),
            is_sorted_names(string_views(out@)),
            string_views(out@).to_multiset() == string_views(v@.take(i as int)).to_multiset(),
        decreases v.len() - i,
    {
        let x = v[i].clone();
        let mut p: usize = 0;
        while p < out.len() && str_lex_le(out[p].as_str(), x.as_str())
            invariant
                p <= out.len(),
                i < v.len(),
                x@ == v@[i as int]@,
                forall|k: int| 0 <= k < p ==> lex_le(#[trigger] out@[k]@, x@),
            decreases out.len() - p,
        {
            p = p + 1;
        }
        let ghost before = out@;
        proof {
            if p < out.len() {
                lemma_lex_le_total(out@[p as int]@, x@);
                assert forall|k: int| p <= k < out@.len() implies lex_le(x@, #[trigger] out@[k]@) by {
                    if k > p {
                        assert(lex_le(string_views(out@)[p as int], string_views(out@)[k]));
                        lemma_lex_le_transitive(x@, out@[p as int]@, out@[k]@);
                    }
                }
            }
        }
        out.insert(p, x);
        proof {
            let names = string_views(out@);
            assert(names =~= string_views(before).insert(p as int, x@));
            assert forall|a: int, b: int| 0 <= a < b < names.len() implies lex_le(
                #[trigger] names[a],
                #[trigger] names[b],
            ) by {
                if a < p && b == p {
                } else if a == p {
                } else if a < p && b > p {
                    lemma_lex_le_transitive(names[a], x@, names[b]);
                } else {
                    let a0 = if a < p {
                        a
                    } else {
                        a - 1
                    };
                    let b0 = if b < p {
                        b
                    } else {
                        b - 1
                    };
                    assert(names[a] == string_views(before)[a0]);
                    assert(names[b] == string_views(before)[b0]);
                    assert(lex_le(string_views(before)[a0], string_views(before)[b0]));
                }
            }
            assert(string_views(v@.take(i + 1)) =~= string_views(v@.take(i as int)).push(x@));
            vstd::seq_lib::to_multiset_insert(string_views(before), p as int, x@);
            vstd::seq_lib::to_multiset_build(string_views(v@.take(i as int)), x@);
        }
        i = i + 1;
    }
    proof {
        assert(v@.take(v.len() as int) =~= v@);
    }
    out
}

/// A count in decimal, without leading zeros.
pub open spec fn decimal_usize(n: nat) -> Seq<char>
    decreases n,
{
    if n < 10 {
        seq![(48 + n) as char]
    } else {
        decimal_usize(n / 10).push((48 + n % 10) as char)
    }
}

/// Appends `n` in decimal.
pub fn push_decimal_usize(s: &mut String, n: usize)
    ensures
        final(s)@ == old(s)@ + decimal_usize(n as nat),
    decreases n,
{
    if n >= 10 {
        push_decimal_usize(s, n / 10);
    }
    let d = (n % 10) as u8;
    s.push((48u8 + d) as char);
    assert(final(s)@ =~= old(s)@ + decimal_usize(n as nat));
}

} // verus!
