//! Character-sequence helpers used to render labels: decimal and hexadecimal
//! integers, substring search, ASCII case folding and string comparison.

use vstd::prelude::*;

verus! {

broadcast use vstd::string::group_string_axioms;

/// The character for digit `d` in base 16 (lower case), `d < 16`.
pub open spec fn digit_char(d: int) -> char {
    if d < 10 {
        (48 + d) as char
    } else {
        (87 + d) as char
    }
}

/// Decimal rendering of `n`, no leading zeros (`"0"` for zero).
pub open spec fn dec_seq(n: nat) -> Seq<char>
    decreases n,
{
    if n < 10 {
        seq![digit_char(n as int)]
    } else {
        dec_seq(n / 10).push(digit_char((n % 10) as int))
    }
}

/// Lower-case hexadecimal rendering of `n`, no leading zeros.
pub open spec fn hex_seq(n: nat) -> Seq<char>
    decreases n,
{
    if n < 16 {
        seq![digit_char(n as int)]
    } else {
        hex_seq(n / 16).push(digit_char((n % 16) as int))
    }
}

/// `k` copies of `c`.
pub open spec fn repeat_char(c: char, k: nat) -> Seq<char>
    decreases k,
{
    if k == 0 {
        Seq::empty()
    } else {
        repeat_char(c, (k - 1) as nat).push(c)
    }
}

/// `a` sorts strictly before `b`: the order of std's `str`, which compares
/// the UTF-8 bytes and so orders by code point, character by character, a
/// proper prefix first.
pub open spec fn text_lt(a: Seq<char>, b: Seq<char>) -> bool
    decreases a.len(),
{
    if a.len() == 0 {
        b.len() > 0
    } else if b.len() == 0 {
        false
    } else if a[0] != b[0] {
        (a[0] as int) < (b[0] as int)
    } else {
        text_lt(a.drop_first(), b.drop_first())
    }
}

/// Lower-case hexadecimal rendering of `n`, left-padded with zeros to at
/// least `width` characters (the `{:0width$x}` format).
pub open spec fn hex_pad(n: nat, width: nat) -> Seq<char> {
    let h = hex_seq(n);
    if h.len() < width {
        repeat_char('0', (width - h.len()) as nat) + h
    } else {
        h
    }
}

/// Decimal rendering of `n` left-padded with zeros to at least `width`.
pub open spec fn dec_pad(n: nat, width: nat) -> Seq<char> {
    let h = dec_seq(n);
    if h.len() < width {
        repeat_char('0', (width - h.len()) as nat) + h
    } else {
        h
    }
}

/// Decimal rendering of a signed integer (`-` sign for negatives).
pub open spec fn int_seq(n: int) -> Seq<char> {
    if n < 0 {
        seq!['-'] + dec_seq((-n) as nat)
    } else {
        dec_seq(n as nat)
    }
}

/// `true` when `needle` occurs as a contiguous run inside `hay`.
pub open spec fn has_sub(hay: Seq<char>, needle: Seq<char>) -> bool {
    exists|i: int|
        0 <= i <= hay.len() - needle.len() && #[trigger] hay.subrange(i, i + needle.len())
            == needle
}

/// `true` when `hay` begins with `pre`.
pub open spec fn has_prefix(hay: Seq<char>, pre: Seq<char>) -> bool {
    pre.len() <= hay.len() && hay.subrange(0, pre.len() as int) == pre
}

/// ASCII lower-casing of one character; other characters are unchanged.
pub open spec fn lower_char(c: char) -> char {
    if 'A' <= c && c <= 'Z' {
        ((c as int) + 32) as char
    } else {
        c
    }
}

/// ASCII lower-casing of a sequence.
pub open spec fn lower_seq(s: Seq<char>) -> Seq<char> {
    Seq::new(s.len(), |i: int| lower_char(s[i]))
}

/// `parts` joined with `sep` between consecutive entries.
pub open spec fn join_seq(parts: Seq<Seq<char>>, sep: Seq<char>) -> Seq<char>
    decreases parts.len(),
{
    if parts.len() == 0 {
        Seq::empty()
    } else if parts.len() == 1 {
        parts[0]
    } else {
        join_seq(parts.drop_last(), sep) + sep + parts.last()
    }
}

/// The characters of `s`, in order.
pub fn chars_of(s: &str) -> (v: Vec<char>)
    ensures
        v@ == s@,
{
    let mut v: Vec<char> = Vec::new();
    for c in it: s.chars()
        invariant
            v@ == it.seq().take(it.index() as int),
    {
        v.push(c);
    }
    v
}

/// The one-character string for digit `d` (lower-case hexadecimal).
pub fn digit_str(d: u64) -> (s: &'static str)
    requires
        d < 16,
    ensures
        s@ == seq![digit_char(d as int)],
{
    proof {
        reveal_strlit("0");
        reveal_strlit("1");
        reveal_strlit("2");
        reveal_strlit("3");
        reveal_strlit("4");
        reveal_strlit("5");
        reveal_strlit("6");
        reveal_strlit("7");
        reveal_strlit("8");
        reveal_strlit("9");
        reveal_strlit("a");
        reveal_strlit("b");
        reveal_strlit("c");
        reveal_strlit("d");
        reveal_strlit("e");
        reveal_strlit("f");
    }
    match d {
        0 => "0",
        1 => "1",
        2 => "2",
        3 => "3",
        4 => "4",
        5 => "5",
        6 => "6",
        7 => "7",
        8 => "8",
        9 => "9",
        10 => "a",
        11 => "b",
        12 => "c",
        13 => "d",
        14 => "e",
        _ => "f",
    }
}

/// A new string holding `s`.
pub fn owned(s: &str) -> (r: String)
    ensures
        r@ == s@,
{
    String::from_str(s)
}

/// Append `s` to `dst`.
pub fn push_str(dst: &mut String, s: &str)
    ensures
        final(dst)@ == old(dst)@ + s@,
{
    dst.append(s);
}

/// Decimal rendering of `n`.
pub fn dec_string(n: u128) -> (r: String)
    ensures
        r@ == dec_seq(n as nat),
    decreases n,
{
    if n < 10 {
        owned(digit_str(n as u64))
    } else {
        let mut r = dec_string(n / 10);
        push_str(&mut r, digit_str((n % 10) as u64));
        r
    }
}

/// Lower-case hexadecimal rendering of `n`.
pub fn hex_string(n: u64) -> (r: String)
    ensures
        r@ == hex_seq(n as nat),
    decreases n,
{
    if n < 16 {
        owned(digit_str(n))
    } else {
        let mut r = hex_string(n / 16);
        push_str(&mut r, digit_str(n % 16));
        r
    }
}

/// `k` zeros.
pub fn zeros(k: u64) -> (r: String)
    ensures
        r@ == repeat_char('0', k as nat),
    decreases k,
{
    if k == 0 {
        String::new()
    } else {
        let mut r = zeros(k - 1);
        push_str(&mut r, digit_str(0));
        r
    }
}

/// Zero-padded lower-case hexadecimal (`{:0width$x}`).
pub fn hex_padded(n: u64, width: u64) -> (r: String)
    ensures
        r@ == hex_pad(n as nat, width as nat),
{
    let h = hex_string(n);
    let len = h.as_str().unicode_len();
    if (len as u64) < width {
        let mut r = zeros(width - len as u64);
        push_str(&mut r, h.as_str());
        r
    } else {
        h
    }
}

/// Zero-padded decimal (`{:0width$}`).
pub fn dec_padded(n: u128, width: u64) -> (r: String)
    ensures
        r@ == dec_pad(n as nat, width as nat),
{
    let h = dec_string(n);
    let len = h.as_str().unicode_len();
    if (len as u64) < width {
        let mut r = zeros(width - len as u64);
        push_str(&mut r, h.as_str());
        r
    } else {
        h
    }
}

/// Decimal rendering of a signed 64-bit integer.
pub fn int_string(n: i64) -> (r: String)
    ensures
        r@ == int_seq(n as int),
{
    if n < 0 {
        proof {
            reveal_strlit("-");
        }
        let mag: u64 = if n == i64::MIN {
            9223372036854775808u64
        } else {
            (-n) as u64
        };
        let mut r = owned("-");
        let d = dec_string(mag as u128);
        push_str(&mut r, d.as_str());
        r
    } else {
        dec_string(n as u128)
    }
}

/// ASCII lower-casing of one character.
pub fn lower(c: char) -> (r: char)
    ensures
        r == lower_char(c),
{
    if 'A' <= c && c <= 'Z' {
        ((c as u8) + 32) as char
    } else {
        c
    }
}

/// ASCII lower-cased characters of `s`.
pub fn lower_chars(s: &str) -> (v: Vec<char>)
    ensures
        v@ == lower_seq(s@),
{
    let cs = chars_of(s);
    let mut v: Vec<char> = Vec::new();
    let mut i: usize = 0;
    while i < cs.len()
        invariant
            i <= cs.len(),
            cs@ == s@,
            v@ == lower_seq(s@).take(i as int),
        decreases cs.len() - i,
    {
        v.push(lower(cs[i]));
        i = i + 1;
    }
    v
}

/// `true` when `needle` occurs inside `hay`.
pub fn contains_seq(hay: &Vec<char>, needle: &Vec<char>) -> (b: bool)
    ensures
        b == has_sub(hay@, needle@),
{
    let n = needle.len();
    if n > hay.len() {
        return false;
    }
    let limit = hay.len() - n;
    let mut i: usize = 0;
    loop
        invariant
            n == needle.len(),
            n <= hay.len(),
            limit == hay.len() - n,
            i <= limit,
            forall|k: int| 0 <= k < i ==> #[trigger] hay@.subrange(k, k + n as int) != needle@,
        ensures
            forall|k: int| 0 <= k <= limit ==> #[trigger] hay@.subrange(k, k + n as int) != needle@,
        decreases limit - i,
    {
        let mut j: usize = 0;
        let mut ok = true;
        while j < n
            invariant
                n == needle.len(),
                i + n <= hay.len(),
                j <= n,
                ok ==> forall|t: int| 0 <= t < j ==> hay@[i + t] == needle@[t],
                !ok ==> hay@.subrange(i as int, i + n as int) != needle@,
            decreases n - j,
        {
            if ok && hay[i + j] != needle[j] {
                ok = false;
                assert(hay@.subrange(i as int, i + n as int)[j as int] != needle@[j as int]);
            }
            j = j + 1;
        }
        if ok {
            assert(hay@.subrange(i as int, i + n as int) =~= needle@);
            return true;
        }
        if i == limit {
            break;
        }
        i = i + 1;
    }
    assert forall|k: int| 0 <= k <= hay.len() - needle.len() implies #[trigger] hay@.subrange(
        k,
        k + needle.len(),
    ) != needle@ by {}
    false
}

/// `true` when the text `hay` contains the text `needle`.
pub fn str_contains(hay: &str, needle: &str) -> (b: bool)
    ensures
        b == has_sub(hay@, needle@),
{
    let h = chars_of(hay);
    let n = chars_of(needle);
    contains_seq(&h, &n)
}

/// `true` when two character vectors are equal.
pub fn chars_eq(a: &Vec<char>, b: &Vec<char>) -> (r: bool)
    ensures
        r == (a@ == b@),
{
    if a.len() != b.len() {
        return false;
    }
    let mut i: usize = 0;
    while i < a.len()
        invariant
            a.len() == b.len(),
            i <= a.len(),
            forall|k: int| 0 <= k < i ==> a@[k] == b@[k],
        decreases a.len() - i,
    {
        if a[i] != b[i] {
            return false;
        }
        i = i + 1;
    }
    assert(a@ =~= b@);
    true
}

/// `true` when two texts are equal.
pub fn str_eq(a: &str, b: &str) -> (r: bool)
    ensures
        r == (a@ == b@),
{
    let x = chars_of(a);
    let y = chars_of(b);
    chars_eq(&x, &y)
}

/// Concatenation of two texts.
pub fn concat2(a: &str, b: &str) -> (r: String)
    ensures
        r@ == a@ + b@,
{
    let mut r = owned(a);
    push_str(&mut r, b);
    r
}

/// Concatenation of three texts.
pub fn concat3(a: &str, b: &str, c: &str) -> (r: String)
    ensures
        r@ == a@ + b@ + c@,
{
    let mut r = owned(a);
    push_str(&mut r, b);
    push_str(&mut r, c);
    r
}

/// `parts` joined with `sep`.
pub fn join(parts: &Vec<String>, sep: &str) -> (r: String)
    ensures
        r@ == join_seq(parts@.map_values(|p: String| p@), sep@),
{
    let ghost views = parts@.map_values(|p: String| p@);
    let mut r = String::new();
    let mut i: usize = 0;
    while i < parts.len()
        invariant
            i <= parts.len(),
            views == parts@.map_values(|p: String| p@),
            r@ == join_seq(views.take(i as int), sep@),
        decreases parts.len() - i,
    {
        if i > 0 {
            push_str(&mut r, sep);
        }
        push_str(&mut r, parts[i].as_str());
        assert(views.take(i + 1).drop_last() =~= views.take(i as int));
        i = i + 1;
    }
    assert(views.take(parts.len() as int) =~= views);
    r
}

/// The substring of `s` from character `from` to character `to`.
pub fn substring(s: &str, from: usize, to: usize) -> (r: String)
    requires
        from <= to <= s@.len(),
    ensures
        r@ == s@.subrange(from as int, to as int),
{
    owned(s.substring_char(from, to))
}

/// `true` when the text `needle` occurs inside `hay`.
pub fn vec_has(hay: &Vec<char>, needle: &str) -> (b: bool)
    ensures
        b == has_sub(hay@, needle@),
{
    let n = chars_of(needle);
    contains_seq(hay, &n)
}

/// `true` when the characters of `a` spell the text `b`.
pub fn vec_is(a: &Vec<char>, b: &str) -> (r: bool)
    ensures
        r == (a@ == b@),
{
    let y = chars_of(b);
    chars_eq(a, &y)
}

/// `true` when the text `s` begins with the text `pre`.
pub fn str_starts_with(s: &str, pre: &str) -> (r: bool)
    ensures
        r == has_prefix(s@, pre@),
{
    let n = pre.unicode_len();
    if n > s.unicode_len() {
        return false;
    }
    let head = substring(s, 0, n);
    str_eq(head.as_str(), pre)
}

/// No text sorts before itself.
pub proof fn lemma_text_lt_irreflexive(a: Seq<char>)
    ensures
        !text_lt(a, a),
    decreases a.len(),
{
    if a.len() > 0 {
        lemma_text_lt_irreflexive(a.drop_first());
    }
}

/// Sorting before is transitive.
pub proof fn lemma_text_lt_transitive(a: Seq<char>, b: Seq<char>, c: Seq<char>)
    requires
        text_lt(a, b),
        text_lt(b, c),
    ensures
        text_lt(a, c),
    decreases a.len(),
{
    if a.len() > 0 && a[0] == b[0] && b[0] == c[0] {
        lemma_text_lt_transitive(a.drop_first(), b.drop_first(), c.drop_first());
    }
}

/// Whether `a` sorts strictly before `b` (see [`text_lt`]).
pub fn text_less(a: &str, b: &str) -> (r: bool)
    ensures
        r == text_lt(a@, b@),
{
    let x = chars_of(a);
    let y = chars_of(b);
    let mut i: usize = 0;
    assert(x@.skip(0) =~= x@);
    assert(y@.skip(0) =~= y@);
    while i < x.len() && i < y.len()
        invariant
            i <= x@.len(),
            i <= y@.len(),
            x@ == a@,
            y@ == b@,
            text_lt(a@, b@) == text_lt(x@.skip(i as int), y@.skip(i as int)),
        decreases x@.len() - i,
    {
        if x[i] != y[i] {
            return x[i] < y[i];
        }
        assert(x@.skip(i as int).drop_first() =~= x@.skip(i + 1));
        assert(y@.skip(i as int).drop_first() =~= y@.skip(i + 1));
        i = i + 1;
    }
    i == x.len() && i < y.len()
}

} // verus!
