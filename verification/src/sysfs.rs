//! Interpretation of `/sys` attribute files.
//!
//! sysfs files are tiny line-oriented pseudo-files. Their contents are
//! trimmed and parsed on demand; anything missing or malformed yields
//! `None`, which callers read as "not available on this kernel/hardware".
//! Reading the files is the caller's part: these functions take what a
//! file held.

use vstd::prelude::*;
use std::collections::BTreeMap;
use std::path::PathBuf;
use crate::power::{PdoType, PowerDataObject, PowerDeliveryPort};
use crate::text::{
    chars_of, has_prefix, has_sub, lemma_text_lt_irreflexive, lemma_text_lt_transitive, owned,
    str_contains, str_eq, str_starts_with, substring, text_less, text_lt,
};
use crate::thunderbolt::ThunderboltRouter;
use crate::typec::{find_from, TypeCAltMode, TypeCIdentity, TypeCPowerSupply};
use crate::usb::{UsbDevice, UsbInterface};

verus! {

broadcast use vstd::string::group_string_axioms;

/// Errors a sysfs backend can surface. Enumeration itself is infallible
/// (missing files give empty results); this is for a configuration that
/// is wrong, such as a root that is not a directory.
#[derive(Debug)]
pub enum Error {
    /// The supplied sysfs root does not exist or is not a directory.
    InvalidRoot(PathBuf),
}

/// Unicode white space, as `char::is_whitespace` classifies it.
pub open spec fn is_ws(c: char) -> bool {
    c == ' ' || ('\t' <= c && c <= '\r') || c == '\u{85}' || c == '\u{a0}' || c == '\u{1680}' || (
    '\u{2000}' <= c && c <= '\u{200a}') || c == '\u{2028}' || c == '\u{2029}' || c == '\u{202f}'
        || c == '\u{205f}' || c == '\u{3000}'
}

/// `s` without its leading white space.
pub open spec fn trim_start_text(s: Seq<char>) -> Seq<char>
    decreases s.len(),
{
    if s.len() > 0 && is_ws(s[0]) {
        trim_start_text(s.drop_first())
    } else {
        s
    }
}

/// `s` without its trailing white space.
pub open spec fn trim_end_text(s: Seq<char>) -> Seq<char>
    decreases s.len(),
{
    if s.len() > 0 && is_ws(s.last()) {
        trim_end_text(s.drop_last())
    } else {
        s
    }
}

/// `s` without leading and trailing white space (`str::trim`).
pub open spec fn trim_text(s: Seq<char>) -> Seq<char> {
    trim_end_text(trim_start_text(s))
}

fn is_ws_char(c: char) -> (r: bool)
    ensures
        r == is_ws(c),
{
    c == ' ' || ('\t' <= c && c <= '\r') || c == '\u{85}' || c == '\u{a0}' || c == '\u{1680}' || (
    '\u{2000}' <= c && c <= '\u{200a}') || c == '\u{2028}' || c == '\u{2029}' || c == '\u{202f}'
        || c == '\u{205f}' || c == '\u{3000}'
}

/// `s` without leading and trailing white space.
pub fn trim(s: &str) -> (r: String)
    ensures
        r@ == trim_text(s@),
{
    let v = chars_of(s);
    let n = v.len();
    let mut i: usize = 0;
    assert(v@.subrange(0, n as int) =~= v@);
    while i < n && is_ws_char(v[i])
        invariant
            i <= n,
            n == v@.len(),
            v@ == s@,
            trim_start_text(s@) == trim_start_text(v@.subrange(i as int, n as int)),
        decreases n - i,
    {
        assert(v@.subrange(i as int, n as int).drop_first() =~= v@.subrange(i + 1, n as int));
        i = i + 1;
    }
    let ghost front = v@.subrange(i as int, n as int);
    assert(trim_start_text(front) == front);
    let mut j: usize = n;
    assert(front.subrange(0, (j - i) as int) =~= front);
    while j > i && is_ws_char(v[j - 1])
        invariant
            i <= j <= n,
            n == v@.len(),
            front == v@.subrange(i as int, n as int),
            trim_end_text(front) == trim_end_text(v@.subrange(i as int, j as int)),
        decreases j,
    {
        assert(v@.subrange(i as int, j as int).drop_last() =~= v@.subrange(i as int, j - 1));
        j = j - 1;
    }
    assert(trim_end_text(v@.subrange(i as int, j as int)) == v@.subrange(i as int, j as int));
    substring(s, i, j)
}

/// The trimmed contents of an attribute file, `None` when nothing but
/// white space is left.
pub fn read_attr(contents: &str) -> (r: Option<String>)
    ensures
        match r {
            Some(t) => t@ == trim_text(contents@) && t@.len() > 0,
            None => trim_text(contents@).len() == 0,
        },
{
    let t = trim(contents);
    if t.as_str().unicode_len() == 0 {
        None
    } else {
        Some(t)
    }
}

/// The value of a digit in base `radix` (at most 16), if it is one.
pub open spec fn digit_val(c: char, radix: nat) -> Option<nat> {
    let v: int = if '0' <= c && c <= '9' {
        c as int - '0' as int
    } else if 'a' <= c && c <= 'z' {
        c as int - 'a' as int + 10
    } else if 'A' <= c && c <= 'Z' {
        c as int - 'A' as int + 10
    } else {
        radix as int
    };
    if v < radix {
        Some(v as nat)
    } else {
        None
    }
}

/// Every character of `s` is a digit in base `radix`.
pub open spec fn all_digits(s: Seq<char>, radix: nat) -> bool {
    forall|i: int| 0 <= i < s.len() ==> #[trigger] digit_val(s[i], radix) is Some
}

/// The number the digits `s` spell in base `radix`.
pub open spec fn digits_value(s: Seq<char>, radix: nat) -> nat
    decreases s.len(),
{
    if s.len() == 0 {
        0
    } else {
        digits_value(s.drop_last(), radix) * radix + match digit_val(s.last(), radix) {
            Some(d) => d,
            None => 0,
        }
    }
}

/// Appending digits never makes a number smaller.
proof fn lemma_digits_grow(s: Seq<char>, radix: nat, k: int)
    requires
        0 <= k <= s.len(),
        radix >= 1,
    ensures
        digits_value(s.take(k), radix) <= digits_value(s, radix),
    decreases s.len() - k,
{
    if k < s.len() {
        lemma_digits_grow(s, radix, k + 1);
        assert(s.take(k + 1).drop_last() =~= s.take(k));
        let a = digits_value(s.take(k), radix);
        assert(a * radix >= a) by (nonlinear_arith)
            requires
                radix >= 1,
        ;
    }
    assert(s.take(s.len() as int) =~= s);
}

/// The magnitude of the digits `s` in base `radix`, if `s` is a non-empty
/// run of such digits whose value is at most `limit`.
fn digits_up_to(s: &Vec<char>, from: usize, radix: u32, limit: u64) -> (r: Option<u64>)
    requires
        from <= s@.len(),
        2 <= radix <= 16,
        limit >= 16,
    ensures
        match r {
            Some(v) => {
                let body = s@.subrange(from as int, s@.len() as int);
                &&& body.len() > 0
                &&& all_digits(body, radix as nat)
                &&& v == digits_value(body, radix as nat)
                &&& v <= limit
            },
            None => {
                let body = s@.subrange(from as int, s@.len() as int);
                body.len() == 0 || !all_digits(body, radix as nat) || digits_value(
                    body,
                    radix as nat,
                ) > limit
            },
        },
{
    let ghost body = s@.subrange(from as int, s@.len() as int);
    if from == s.len() {
        return None;
    }
    let mut acc: u64 = 0;
    let mut i: usize = from;
    while i < s.len()
        invariant
            from <= i <= s@.len(),
            2 <= radix <= 16,
            body == s@.subrange(from as int, s@.len() as int),
            all_digits(body.take(i - from), radix as nat),
            acc == digits_value(body.take(i - from), radix as nat),
            acc <= limit,
            limit >= 16,
        decreases s@.len() - i,
    {
        let c = s[i];
        let d: u32 = if '0' <= c && c <= '9' {
            (c as u32) - ('0' as u32)
        } else if 'a' <= c && c <= 'z' {
            (c as u32) - ('a' as u32) + 10
        } else if 'A' <= c && c <= 'Z' {
            (c as u32) - ('A' as u32) + 10
        } else {
            radix
        };
        assert(body[i - from] == c);
        if d >= radix {
            assert(!all_digits(body, radix as nat) || false) by {
                assert(digit_val(body[i - from], radix as nat) is None);
            }
            return None;
        }
        assert(digit_val(c, radix as nat) == Some(d as nat));
        let ghost next = body.take(i - from + 1);
        assert(next.drop_last() =~= body.take(i - from));
        assert(next.last() == c);
        assert(digits_value(next, radix as nat) == acc * radix + d);
        if acc > (limit - d as u64) / radix as u64 {
            assert(acc * radix + d > limit) by (nonlinear_arith)
                requires
                    acc > (limit - d) / (radix as int),
                    radix >= 2,
                    d <= limit,
            ;
            proof {
                lemma_digits_grow(body, radix as nat, i - from + 1);
            }
            return None;
        }
        assert(acc * radix + d <= limit) by (nonlinear_arith)
            requires
                acc <= (limit - d) / (radix as int),
                radix >= 2,
                d <= limit,
        ;
        acc = acc * radix as u64 + d as u64;
        assert forall|k: int| 0 <= k < next.len() implies #[trigger] digit_val(next[k], radix as nat) is Some by {
            if k < i - from {
                assert(next[k] == body.take(i - from)[k]);
            }
        }
        i = i + 1;
    }
    assert(body.take(i - from) =~= body);
    Some(acc)
}

/// A sign character followed by nothing, or a digit run: the shape
/// `i64::from_str` and `u32::from_str_radix` accept, before the range
/// check. `signed` tells whether `-` may lead.
pub open spec fn split_sign(s: Seq<char>, signed: bool) -> (bool, Seq<char>) {
    if s.len() > 0 && s[0] == '+' {
        (false, s.drop_first())
    } else if signed && s.len() > 0 && s[0] == '-' {
        (true, s.drop_first())
    } else {
        (false, s)
    }
}

/// `str::parse::<i64>`: an optional sign, then decimal digits whose value
/// fits.
pub open spec fn int_text(s: Seq<char>) -> Option<i64> {
    let (neg, body) = split_sign(s, true);
    if body.len() > 0 && all_digits(body, 10) {
        let v: int = if neg {
            -digits_value(body, 10)
        } else {
            digits_value(body, 10) as int
        };
        if i64::MIN <= v <= i64::MAX {
            Some(v as i64)
        } else {
            None
        }
    } else {
        None
    }
}

/// `u32::from_str_radix(s, radix)`: an optional `+`, then digits whose
/// value fits.
pub open spec fn unsigned_text(s: Seq<char>, radix: nat) -> Option<u32> {
    let (_, body) = split_sign(s, false);
    if body.len() > 0 && all_digits(body, radix) && digits_value(body, radix) <= u32::MAX {
        Some(digits_value(body, radix) as u32)
    } else {
        None
    }
}

/// Decimal integer in `s`, as `str::parse::<i64>` reads it.
pub fn parse_i64(s: &str) -> (r: Option<i64>)
    ensures
        r == int_text(s@),
{
    let v = chars_of(s);
    let mut from: usize = 0;
    let mut neg = false;
    if v.len() > 0 && v[0] == '+' {
        from = 1;
    } else if v.len() > 0 && v[0] == '-' {
        from = 1;
        neg = true;
    }
    let ghost body = split_sign(s@, true).1;
    assert(body =~= v@.subrange(from as int, v@.len() as int));
    let limit: u64 = if neg {
        9223372036854775808u64
    } else {
        9223372036854775807u64
    };
    match digits_up_to(&v, from, 10, limit) {
        Some(m) => {
            if neg {
                if m == 9223372036854775808u64 {
                    Some(i64::MIN)
                } else {
                    Some(-(m as i64))
                }
            } else {
                Some(m as i64)
            }
        },
        None => None,
    }
}

/// Unsigned integer in base `radix`, as `u32::from_str_radix` reads it.
pub fn parse_u32(s: &str, radix: u32) -> (r: Option<u32>)
    requires
        2 <= radix <= 16,
    ensures
        r == unsigned_text(s@, radix as nat),
{
    let v = chars_of(s);
    let from: usize = if v.len() > 0 && v[0] == '+' {
        1
    } else {
        0
    };
    let ghost body = split_sign(s@, false).1;
    assert(body =~= v@.subrange(from as int, v@.len() as int));
    match digits_up_to(&v, from, radix, 4294967295u64) {
        Some(m) => Some(m as u32),
        None => None,
    }
}

/// A decimal attribute: the trimmed contents parsed as an `i64`.
pub fn read_int(contents: &str) -> (r: Option<i64>)
    ensures
        r == int_text(trim_text(contents@)),
{
    let t = trim(contents);
    parse_i64(t.as_str())
}

/// `s` without one leading `0x` or `0X`.
pub open spec fn strip_hex_prefix(s: Seq<char>) -> Seq<char> {
    if has_prefix(s, "0x"@) || has_prefix(s, "0X"@) {
        s.subrange(2, s.len() as int)
    } else {
        s
    }
}

/// A hexadecimal attribute, with or without a `0x` prefix.
pub fn read_hex(contents: &str) -> (r: Option<u32>)
    ensures
        r == unsigned_text(strip_hex_prefix(trim_text(contents@)), 16),
{
    let t = trim(contents);
    proof {
        reveal_strlit("0x");
        reveal_strlit("0X");
    }
    if str_starts_with(t.as_str(), "0x") || str_starts_with(t.as_str(), "0X") {
        let n = t.as_str().unicode_len();
        let rest = substring(t.as_str(), 2, n);
        parse_u32(rest.as_str(), 16)
    } else {
        parse_u32(t.as_str(), 16)
    }
}

/// The kind of a PDO from the kernel's name for it; the directory-name
/// form `programmable_supply` and older `... (pps)` spellings mean PPS.
pub open spec fn pdo_type_of(raw: Seq<char>) -> PdoType {
    if raw == "fixed_supply"@ {
        PdoType::FixedSupply
    } else if raw == "battery"@ {
        PdoType::Battery
    } else if raw == "variable_supply"@ {
        PdoType::VariableSupply
    } else if has_sub(raw, "pps"@) || has_sub(raw, "programmable"@) {
        PdoType::Pps
    } else {
        PdoType::Unknown
    }
}

/// The kind of a PDO from its kernel name (see [`pdo_type_of`]).
pub fn parse_pdo_type(raw: &str) -> (r: PdoType)
    ensures
        r == pdo_type_of(raw@),
{
    if str_eq(raw, "fixed_supply") {
        PdoType::FixedSupply
    } else if str_eq(raw, "battery") {
        PdoType::Battery
    } else if str_eq(raw, "variable_supply") {
        PdoType::VariableSupply
    } else if str_contains(raw, "pps") || str_contains(raw, "programmable") {
        PdoType::Pps
    } else {
        PdoType::Unknown
    }
}

/// An ASCII decimal digit.
pub open spec fn is_digit(c: char) -> bool {
    '0' <= c && c <= '9'
}

/// The run of decimal digits `s` starts with.
pub open spec fn leading_digits(s: Seq<char>) -> Seq<char>
    decreases s.len(),
{
    if s.len() > 0 && is_digit(s[0]) {
        seq![s[0]] + leading_digits(s.drop_first())
    } else {
        Seq::empty()
    }
}

/// A PDO attribute: the kernel writes unit suffixes (`5000mV`, `3000mA`),
/// so the leading digits of the trimmed contents are read.
pub open spec fn pdo_int_text(contents: Seq<char>) -> Option<i64> {
    int_text(leading_digits(trim_text(contents)))
}

/// The leading digits of `s` are its first `k` characters.
proof fn lemma_leading_digits(s: Seq<char>, k: int)
    requires
        0 <= k <= s.len(),
        forall|j: int| 0 <= j < k ==> is_digit(#[trigger] s[j]),
        k == s.len() || !is_digit(s[k]),
    ensures
        leading_digits(s) == s.take(k),
    decreases k,
{
    if k > 0 {
        lemma_leading_digits(s.drop_first(), k - 1);
        assert(seq![s[0]] + s.drop_first().take(k - 1) =~= s.take(k));
    } else {
        assert(s.take(0) =~= Seq::<char>::empty());
    }
}

/// A PDO attribute's value (see [`pdo_int_text`]).
pub fn pdo_int(contents: &str) -> (r: Option<i64>)
    ensures
        r == pdo_int_text(contents@),
{
    let t = trim(contents);
    let v = chars_of(t.as_str());
    let mut k: usize = 0;
    while k < v.len() && '0' <= v[k] && v[k] <= '9'
        invariant
            k <= v@.len(),
            forall|j: int| 0 <= j < k ==> is_digit(#[trigger] v@[j]),
        decreases v@.len() - k,
    {
        k = k + 1;
    }
    proof {
        lemma_leading_digits(v@, k as int);
    }
    let digits = substring(t.as_str(), 0, k);
    parse_i64(digits.as_str())
}

/// What one PDO directory held: each attribute file's contents, `None`
/// when the file is missing. Real kernels publish no `type` file (the kind
/// is in the directory name) and range voltages for PPS.
#[derive(Debug, Clone, Default)]
pub struct PdoFiles {
    /// `type`.
    pub pdo_type: Option<String>,
    /// `voltage`.
    pub voltage: Option<String>,
    /// `maximum_voltage`.
    pub maximum_voltage: Option<String>,
    /// `minimum_voltage`.
    pub minimum_voltage: Option<String>,
    /// `maximum_current`.
    pub maximum_current: Option<String>,
    /// `current`.
    pub current: Option<String>,
    /// `maximum_power`.
    pub maximum_power: Option<String>,
}

/// A PDO attribute's value, `None` when the file is missing or unreadable
/// as a number.
pub open spec fn file_int(f: Option<String>) -> Option<i64> {
    match f {
        Some(c) => pdo_int_text(c@),
        None => None,
    }
}

/// `s` split at its first `:`; all of it and nothing when there is none.
pub open spec fn split_colon(s: Seq<char>) -> (Seq<char>, Seq<char>) {
    match find_from(s, ':', 0) {
        Some(k) => (s.take(k as int), s.subrange(k + 1int, s.len() as int)),
        None => (s, Seq::empty()),
    }
}

/// The PDO a directory named `name` (`<index>:<kind>`) describes. An
/// explicit `type` file wins over the kind in the name. Without a single
/// `voltage`, the minimum of the range stands for it; without a maximum
/// current, `current`; without `maximum_power`, voltage × current. Values
/// are taken as `u32` the way `as` truncates.
pub open spec fn pdo_of(name: Seq<char>, f: PdoFiles) -> PowerDataObject {
    let (idx_part, kind_part) = split_colon(name);
    let index: u32 = match unsigned_text(idx_part, 10) {
        Some(v) => v,
        None => 0,
    };
    let kind = match f.pdo_type {
        Some(c) => if trim_text(c@).len() > 0 {
            pdo_type_of(trim_text(c@))
        } else {
            pdo_type_of(kind_part)
        },
        None => pdo_type_of(kind_part),
    };
    let voltage_mv: u32 = match file_int(f.voltage) {
        Some(v) => v as u32,
        None => match file_int(f.minimum_voltage) {
            Some(v) => v as u32,
            None => 0,
        },
    };
    let max_voltage_mv: u32 = match file_int(f.maximum_voltage) {
        Some(v) => v as u32,
        None => 0,
    };
    let current_ma: u32 = match file_int(f.maximum_current) {
        Some(v) => v as u32,
        None => match file_int(f.current) {
            Some(v) => v as u32,
            None => 0,
        },
    };
    let power_mw: u32 = match file_int(f.maximum_power) {
        Some(v) => v as u32,
        None => if voltage_mv > 0 && current_ma > 0 {
            ((voltage_mv as int * current_ma as int) / 1000) as u32
        } else {
            0
        },
    };
    PowerDataObject {
        pdo_type: kind,
        voltage_mv,
        max_voltage_mv,
        current_ma,
        power_mw,
        is_active: false,
        index,
    }
}

/// A file's PDO value.
fn file_value(f: &Option<String>) -> (r: Option<i64>)
    ensures
        r == file_int(*f),
{
    match f {
        Some(c) => pdo_int(c.as_str()),
        None => None,
    }
}

/// A value taken as `u32` by truncation.
#[verifier::truncate]
fn low32(v: i64) -> (r: u32)
    ensures
        r == v as u32,
{
    v as u32
}

/// The PDO described by directory `name` and its files (see [`pdo_of`]).
pub fn pdo_from_files(name: &str, f: &PdoFiles) -> (r: PowerDataObject)
    ensures
        r == pdo_of(name@, *f),
{
    let v = chars_of(name);
    let (idx_part, kind_part) = match crate::typec::find_char(&v, ':', 0) {
        Some(k) => {
            proof {
                crate::typec::lemma_find_from_bound(v@, ':', 0);
            }
            (substring(name, 0, k), substring(name, k + 1, v.len()))
        },
        None => {
            proof {
                reveal_strlit("");
            }
            (owned(name), String::new())
        },
    };
    assert(idx_part@ == split_colon(name@).0);
    assert(kind_part@ =~= split_colon(name@).1);
    let index = match parse_u32(idx_part.as_str(), 10) {
        Some(i) => i,
        None => 0,
    };
    let pdo_type = match &f.pdo_type {
        Some(c) => match read_attr(c.as_str()) {
            Some(t) => parse_pdo_type(t.as_str()),
            None => parse_pdo_type(kind_part.as_str()),
        },
        None => parse_pdo_type(kind_part.as_str()),
    };
    let voltage_mv: u32 = match file_value(&f.voltage) {
        Some(x) => low32(x),
        None => match file_value(&f.minimum_voltage) {
            Some(x) => low32(x),
            None => 0,
        },
    };
    let max_voltage_mv: u32 = match file_value(&f.maximum_voltage) {
        Some(x) => low32(x),
        None => 0,
    };
    let current_ma: u32 = match file_value(&f.maximum_current) {
        Some(x) => low32(x),
        None => match file_value(&f.current) {
            Some(x) => low32(x),
            None => 0,
        },
    };
    let power_mw: u32 = match file_value(&f.maximum_power) {
        Some(x) => low32(x),
        None => if voltage_mv > 0 && current_ma > 0 {
            assert((voltage_mv as u64) * (current_ma as u64) <= 0xffff_fffe_0000_0001u64) by (nonlinear_arith)
                requires
                    voltage_mv <= 0xffff_ffffu32,
                    current_ma <= 0xffff_ffffu32,
            ;
            let p: u64 = (voltage_mv as u64 * current_ma as u64) / 1000;
            assert(p == (voltage_mv as int * current_ma as int) / 1000);
            low32(p as i64)
        } else {
            0
        },
    };
    PowerDataObject {
        pdo_type,
        voltage_mv,
        max_voltage_mv,
        current_ma,
        power_mw,
        is_active: false,
        index,
    }
}

/// A capability-directory entry that names a PDO (`<index>:<kind>`): its
/// name starts with a digit. The kernel also puts a runtime-PM `power`
/// directory there, which is not one.
pub open spec fn is_pdo_entry(name: Seq<char>) -> bool {
    name.len() > 0 && is_digit(name[0])
}

/// The PDOs of the first `n` capability-directory entries, in order.
pub open spec fn pdos_of(entries: Seq<(String, PdoFiles)>, n: nat) -> Seq<PowerDataObject>
    decreases n,
{
    if n == 0 || n > entries.len() {
        Seq::empty()
    } else {
        pdos_of(entries, (n - 1) as nat) + (if is_pdo_entry(entries[n - 1].0@) {
            seq![pdo_of(entries[n - 1].0@, entries[n - 1].1)]
        } else {
            Seq::empty()
        })
    }
}

/// The PDOs of a `*-capabilities` directory from its entries, in the
/// order given (the caller sorts the names).
pub fn parse_pdos(entries: &Vec<(String, PdoFiles)>) -> (r: Vec<PowerDataObject>)
    ensures
        r@ == pdos_of(entries@, entries@.len()),
{
    let mut out: Vec<PowerDataObject> = Vec::new();
    let mut i: usize = 0;
    while i < entries.len()
        invariant
            i <= entries@.len(),
            out@ == pdos_of(entries@, i as nat),
        decreases entries@.len() - i,
    {
        let name = entries[i].0.as_str();
        let c = name.unicode_len();
        let keep = c > 0 && {
            let first = name.get_char(0);
            '0' <= first && first <= '9'
        };
        if keep {
            out.push(pdo_from_files(name, &entries[i].1));
        }
        assert(out@ =~= pdos_of(entries@, (i + 1) as nat));
        i = i + 1;
    }
    out
}

/// The highest power among `caps`, zero when there are none.
pub open spec fn max_power(caps: Seq<PowerDataObject>) -> u32
    decreases caps.len(),
{
    if caps.len() == 0 {
        0
    } else {
        let rest = max_power(caps.drop_last());
        if caps.last().power_mw > rest {
            caps.last().power_mw
        } else {
            rest
        }
    }
}

/// The PD port record of node `name`: `None` when it publishes no PDO
/// in either direction. `parent_port_number` holds the contents of the
/// fixture-convention file of that name; real kernels publish none, and
/// the port is then unlinked (`-1`) so that it never pairs with port 0.
pub fn pd_port_from(
    path: PathBuf,
    name: &str,
    parent_port_number: Option<&str>,
    source_capabilities: Vec<PowerDataObject>,
    sink_capabilities: Vec<PowerDataObject>,
    raw_attributes: BTreeMap<String, String>,
) -> (r: Option<PowerDeliveryPort>)
    ensures
        r is None <==> (source_capabilities@.len() == 0 && sink_capabilities@.len() == 0),
        r matches Some(p) ==> {
            &&& p.name@ == name@
            &&& p.parent_port_type@.len() == 0
            &&& p.parent_port_number == match parent_port_number {
                Some(c) => match int_text(trim_text(c@)) {
                    Some(v) => v as i32,
                    None => -1i32,
                },
                None => -1i32,
            }
            &&& p.source_capabilities@ == source_capabilities@
            &&& p.sink_capabilities@ == sink_capabilities@
            &&& p.max_source_power_mw == max_power(source_capabilities@)
            &&& p.active_source_pdo_index is None
            &&& p.raw_attributes == raw_attributes
        },
{
    if source_capabilities.len() == 0 && sink_capabilities.len() == 0 {
        return None;
    }
    let mut max: u32 = 0;
    let mut i: usize = 0;
    while i < source_capabilities.len()
        invariant
            i <= source_capabilities@.len(),
            max == max_power(source_capabilities@.take(i as int)),
        decreases source_capabilities@.len() - i,
    {
        assert(source_capabilities@.take(i + 1).drop_last() =~= source_capabilities@.take(i as int));
        if source_capabilities[i].power_mw > max {
            max = source_capabilities[i].power_mw;
        }
        i = i + 1;
    }
    assert(source_capabilities@.take(i as int) =~= source_capabilities@);
    let parent: i32 = match parent_port_number {
        Some(c) => match read_int(c) {
            Some(v) => low32_signed(v),
            None => -1,
        },
        None => -1,
    };
    Some(PowerDeliveryPort {
        sysfs_path: path,
        name: owned(name),
        parent_port_type: String::new(),
        parent_port_number: parent,
        source_capabilities,
        sink_capabilities,
        max_source_power_mw: max,
        active_source_pdo_index: None,
        raw_attributes,
    })
}

/// A value taken as `i32` by truncation.
#[verifier::truncate]
fn low32_signed(v: i64) -> (r: i32)
    ensures
        r == v as i32,
{
    v as i32
}

/// Position of the first `needle` in `s` at or after `i`.
pub open spec fn find_sub(s: Seq<char>, needle: Seq<char>, i: nat) -> Option<nat>
    decreases s.len() + 1 - i,
{
    if i + needle.len() > s.len() {
        None
    } else if s.subrange(i as int, (i + needle.len()) as int) == needle {
        Some(i)
    } else {
        find_sub(s, needle, i + 1)
    }
}

/// An ASCII hexadecimal digit.
pub open spec fn is_hex_digit(c: char) -> bool {
    digit_val(c, 16) is Some
}

/// Walk over a controller id from `j`: at most one `:`, then hex digits.
/// Gives where it stops, whether it crossed the `:`, and how many hex
/// digits followed it.
pub open spec fn ucsi_scan(s: Seq<char>, j: nat, colon: bool, hex: nat) -> (nat, bool, nat)
    decreases s.len() - j,
{
    if j >= s.len() {
        (j, colon, hex)
    } else if s[j as int] == ':' && !colon {
        ucsi_scan(s, j + 1, true, hex)
    } else if is_hex_digit(s[j as int]) {
        ucsi_scan(s, j + 1, colon, if colon {
            hex + 1
        } else {
            hex
        })
    } else {
        (j, colon, hex)
    }
}

proof fn lemma_ucsi_scan_bound(s: Seq<char>, j: nat, colon: bool, hex: nat)
    requires
        j <= s.len(),
    ensures
        j <= ucsi_scan(s, j, colon, hex).0 <= s.len(),
    decreases s.len() - j,
{
    if j < s.len() {
        if s[j as int] == ':' && !colon {
            lemma_ucsi_scan_bound(s, j + 1, true, hex);
        } else if is_hex_digit(s[j as int]) {
            lemma_ucsi_scan_bound(s, j + 1, colon, if colon {
                hex + 1
            } else {
                hex
            });
        }
    }
}

/// The UCSI controller id (`USBC000:00`) in a canonical sysfs path: from
/// the first `USBC`, hex digits, one `:` and at least one hex digit after
/// it; `None` when the path has no such id.
pub open spec fn ucsi_text(s: Seq<char>) -> Option<Seq<char>> {
    match find_sub(s, "USBC"@, 0) {
        Some(st) => {
            let (e, colon, hex) = ucsi_scan(s, st + 4, false, 0);
            if colon && hex > 0 {
                Some(s.subrange(st as int, e as int))
            } else {
                None
            }
        },
        None => None,
    }
}

/// The first `USBC` in `v`.
fn find_usbc(v: &Vec<char>) -> (r: Option<usize>)
    ensures
        match r {
            Some(k) => find_sub(v@, "USBC"@, 0) == Some(k as nat) && k + 4 <= v@.len(),
            None => find_sub(v@, "USBC"@, 0) is None,
        },
{
    proof {
        reveal_strlit("USBC");
    }
    let ghost needle = "USBC"@;
    assert(needle =~= seq!['U', 'S', 'B', 'C']);
    let n = v.len();
    let mut i: usize = 0;
    while n >= 4 && i <= n - 4
        invariant
            n == v@.len(),
            needle == "USBC"@,
            needle =~= seq!['U', 'S', 'B', 'C'],
            i <= n + 1,
            n >= 4 ==> i <= n - 3,
            find_sub(v@, needle, 0) == find_sub(v@, needle, i as nat),
        decreases n + 1 - i,
    {
        if v[i] == 'U' && v[i + 1] == 'S' && v[i + 2] == 'B' && v[i + 3] == 'C' {
            assert(v@.subrange(i as int, i + 4) =~= needle);
            return Some(i);
        }
        assert(v@.subrange(i as int, i + 4) != needle) by {
            if v@.subrange(i as int, i + 4) == needle {
                assert(v@.subrange(i as int, i + 4)[0] == needle[0]);
                assert(v@.subrange(i as int, i + 4)[1] == needle[1]);
                assert(v@.subrange(i as int, i + 4)[2] == needle[2]);
                assert(v@.subrange(i as int, i + 4)[3] == needle[3]);
            }
        }
        i = i + 1;
    }
    None
}

/// Extract a UCSI controller id like `USBC000:00` from a canonical sysfs
/// path (see [`ucsi_text`]).
pub fn ucsi_controller(path: &str) -> (r: Option<String>)
    ensures
        match r {
            Some(t) => ucsi_text(path@) == Some(t@),
            None => ucsi_text(path@) is None,
        },
{
    let v = chars_of(path);
    let n = v.len();
    proof {
        reveal_strlit("USBC");
    }
    let ghost needle = "USBC"@;
    let start = match find_usbc(&v) {
        Some(st) => st,
        None => {
            return None;
        },
    };
    assert(find_sub(v@, needle, 0) == Some(start as nat));
    let mut j: usize = start + 4;
    let mut colon = false;
    let mut hex: usize = 0;
    while j < n
        invariant
            n == v@.len(),
            start + 4 <= j <= n,
            hex <= j,
            ucsi_scan(v@, (start + 4) as nat, false, 0) == ucsi_scan(v@, j as nat, colon, hex as nat),
        ensures
            start + 4 <= j <= n,
            ucsi_scan(v@, (start + 4) as nat, false, 0) == (j as nat, colon, hex as nat),
        decreases n - j,
    {
        let c = v[j];
        if c == ':' && !colon {
            colon = true;
        } else if ('0' <= c && c <= '9') || ('a' <= c && c <= 'f') || ('A' <= c && c <= 'F') {
            assert(is_hex_digit(c));
            if colon {
                hex = hex + 1;
            }
        } else {
            assert(!is_hex_digit(c));
            assert(ucsi_scan(v@, j as nat, colon, hex as nat) == (j as nat, colon, hex as nat));
            break;
        }
        j = j + 1;
    }
    proof {
        lemma_ucsi_scan_bound(v@, (start + 4) as nat, false, 0);
    }
    if colon && hex > 0 {
        Some(substring(path, start, j))
    } else {
        None
    }
}

/// Name of the UCSI power supply of port `port_number` under controller
/// `controller`: `ucsi-source-psy-<controller><port + 1>`.
pub fn ucsi_psy_name(controller: &str, port_number: i32) -> (r: String)
    requires
        0 <= port_number < i32::MAX,
    ensures
        r@ == "ucsi-source-psy-"@ + controller@ + crate::text::dec_seq((port_number + 1) as nat),
{
    let mut r = owned("ucsi-source-psy-");
    crate::text::push_str(&mut r, controller);
    crate::text::push_str(&mut r, crate::text::dec_string((port_number + 1) as u128).as_str());
    r
}

/// A hexadecimal attribute file's value, `None` when it is missing or
/// unreadable.
pub open spec fn hex_file(f: Option<String>) -> Option<u32> {
    match f {
        Some(c) => unsigned_text(strip_hex_prefix(trim_text(c@)), 16),
        None => None,
    }
}

/// A decimal attribute file's value, `None` when it is missing or
/// unreadable.
pub open spec fn int_file(f: Option<String>) -> Option<i64> {
    match f {
        Some(c) => int_text(trim_text(c@)),
        None => None,
    }
}

/// A text attribute file's trimmed contents, empty when it is missing.
pub open spec fn text_file(f: Option<String>) -> Seq<char> {
    match f {
        Some(c) => trim_text(c@),
        None => Seq::empty(),
    }
}

fn hex_value(f: &Option<String>) -> (r: Option<u32>)
    ensures
        r == hex_file(*f),
{
    match f {
        Some(c) => read_hex(c.as_str()),
        None => None,
    }
}

fn int_value(f: &Option<String>) -> (r: Option<i64>)
    ensures
        r == int_file(*f),
{
    match f {
        Some(c) => read_int(c.as_str()),
        None => None,
    }
}

fn text_value(f: &Option<String>) -> (r: String)
    ensures
        r@ == text_file(*f),
{
    match f {
        Some(c) => trim(c.as_str()),
        None => String::new(),
    }
}

/// What a Discover Identity directory held: each VDO file's contents,
/// `None` when the file is missing.
#[derive(Debug, Clone, Default)]
pub struct IdentityFiles {
    /// `id_header`.
    pub id_header: Option<String>,
    /// `cert_stat`.
    pub cert_stat: Option<String>,
    /// `product`.
    pub product: Option<String>,
    /// `product_type_vdo1`.
    pub product_type_vdo1: Option<String>,
    /// `product_type_vdo2`.
    pub product_type_vdo2: Option<String>,
    /// `product_type_vdo3`.
    pub product_type_vdo3: Option<String>,
}

/// `v` without its trailing zeros.
pub open spec fn strip_zeros(v: Seq<u32>) -> Seq<u32>
    decreases v.len(),
{
    if v.len() > 0 && v.last() == 0 {
        strip_zeros(v.drop_last())
    } else {
        v
    }
}

/// A VDO slot: its value, zero when missing, so that later slots keep
/// their index.
pub open spec fn slot(f: Option<String>) -> u32 {
    match hex_file(f) {
        Some(v) => v,
        None => 0,
    }
}

/// The VDOs of an identity in USB-PD order (ID Header, Cert Stat,
/// Product, then the product-type VDOs), trailing zeros dropped.
pub open spec fn identity_vdos(f: IdentityFiles) -> Seq<u32> {
    strip_zeros(
        seq![
            slot(f.id_header),
            slot(f.cert_stat),
            slot(f.product),
            slot(f.product_type_vdo1),
            slot(f.product_type_vdo2),
            slot(f.product_type_vdo3),
        ],
    )
}

/// The low 16 bits of an optional value, zero when absent.
pub open spec fn low16(v: Option<u32>) -> u16 {
    match v {
        Some(x) => (x % 0x10000) as u16,
        None => 0,
    }
}

fn low16_of(v: Option<u32>) -> (r: u16)
    ensures
        r == low16(v),
{
    match v {
        Some(x) => (x % 0x10000) as u16,
        None => 0,
    }
}

/// The decoded identity of a partner or cable whose `identity` directory
/// held `f`: vendor from the ID Header's low 16 bits, product from the
/// Product VDO's; `None` when both the vendor and every VDO are zero.
pub fn identity_from(f: &IdentityFiles) -> (r: Option<TypeCIdentity>)
    ensures
        r is None <==> (low16(hex_file(f.id_header)) == 0 && identity_vdos(*f).len() == 0),
        r matches Some(id) ==> {
            &&& id.vendor_id == low16(hex_file(f.id_header))
            &&& id.product_id == low16(hex_file(f.product))
            &&& id.vdos@ == identity_vdos(*f)
        },
{
    let vendor_id = low16_of(hex_value(&f.id_header));
    let product_id = low16_of(hex_value(&f.product));
    let mut vdos: Vec<u32> = Vec::new();
    vdos.push(match hex_value(&f.id_header) { Some(v) => v, None => 0 });
    vdos.push(match hex_value(&f.cert_stat) { Some(v) => v, None => 0 });
    vdos.push(match hex_value(&f.product) { Some(v) => v, None => 0 });
    vdos.push(match hex_value(&f.product_type_vdo1) { Some(v) => v, None => 0 });
    vdos.push(match hex_value(&f.product_type_vdo2) { Some(v) => v, None => 0 });
    vdos.push(match hex_value(&f.product_type_vdo3) { Some(v) => v, None => 0 });
    let ghost all = seq![
        slot(f.id_header),
        slot(f.cert_stat),
        slot(f.product),
        slot(f.product_type_vdo1),
        slot(f.product_type_vdo2),
        slot(f.product_type_vdo3),
    ];
    assert(vdos@ =~= all);
    while vdos.len() > 0 && vdos[vdos.len() - 1] == 0
        invariant
            strip_zeros(all) == strip_zeros(vdos@),
        decreases vdos@.len(),
    {
        let ghost before = vdos@;
        vdos.pop();
        assert(vdos@ =~= before.drop_last());
    }
    assert(strip_zeros(vdos@) == vdos@);
    if vendor_id == 0 && vdos.len() == 0 {
        None
    } else {
        Some(TypeCIdentity { vendor_id, product_id, vdos })
    }
}

/// The port number of a Type-C class entry named `port<digits>`; `None`
/// for any other entry (`port0-partner`, `port0-cable`, ...). Digits that
/// overflow an `i32` give `-1`.
pub open spec fn port_number_text(name: Seq<char>) -> Option<i32> {
    if has_prefix(name, "port"@) {
        let trail = strip_ports(name);
        if trail.len() > 0 && forall|i: int| 0 <= i < trail.len() ==> is_digit(#[trigger] trail[i]) {
            Some(
                match int_text(trail) {
                    Some(v) => if v <= i32::MAX {
                        v as i32
                    } else {
                        -1i32
                    },
                    None => -1i32,
                },
            )
        } else {
            None
        }
    } else {
        None
    }
}

/// `name` without every leading `port` (`str::trim_start_matches`).
pub open spec fn strip_ports(name: Seq<char>) -> Seq<char>
    decreases name.len(),
{
    if has_prefix(name, "port"@) && name.len() >= 4 {
        strip_ports(name.subrange(4, name.len() as int))
    } else {
        name
    }
}

/// The port number of a Type-C class entry (see [`port_number_text`]).
pub fn port_number_of(name: &str) -> (r: Option<i32>)
    ensures
        r == port_number_text(name@),
{
    proof {
        reveal_strlit("port");
    }
    if !str_starts_with(name, "port") {
        return None;
    }
    let mut trail = owned(name);
    while str_starts_with(trail.as_str(), "port")
        invariant
            strip_ports(name@) == strip_ports(trail@),
            "port"@.len() == 4,
        decreases trail@.len(),
    {
        let n = trail.as_str().unicode_len();
        let ghost before = trail@;
        trail = substring(trail.as_str(), 4, n);
        assert(strip_ports(before) == strip_ports(trail@));
    }
    assert(strip_ports(trail@) == trail@);
    let t = chars_of(trail.as_str());
    if t.len() == 0 {
        return None;
    }
    let mut i: usize = 0;
    while i < t.len()
        invariant
            i <= t@.len(),
            t@ == trail@,
            trail@ == strip_ports(name@),
            has_prefix(name@, "port"@),
            forall|k: int| 0 <= k < i ==> is_digit(#[trigger] t@[k]),
        decreases t@.len() - i,
    {
        if !('0' <= t[i] && t[i] <= '9') {
            assert(!is_digit(t@[i as int]));
            return None;
        }
        i = i + 1;
    }
    match parse_i64(trail.as_str()) {
        Some(v) => if v <= 2147483647 {
            Some(v as i32)
        } else {
            Some(-1)
        },
        None => Some(-1),
    }
}

/// What a UCSI power-supply directory held: each attribute file's
/// contents, `None` when the file is missing.
#[derive(Debug, Clone, Default)]
pub struct SupplyFiles {
    /// `online`.
    pub online: Option<String>,
    /// `voltage_now`.
    pub voltage_now: Option<String>,
    /// `current_now`.
    pub current_now: Option<String>,
    /// `current_max`.
    pub current_max: Option<String>,
    /// `voltage_min`.
    pub voltage_min: Option<String>,
    /// `voltage_max`.
    pub voltage_max: Option<String>,
    /// `charge_type`.
    pub charge_type: Option<String>,
    /// `usb_type`.
    pub usb_type: Option<String>,
}

/// The power-supply record of directory `name` and its files: `online`
/// when that attribute reads non-zero, readings as given, texts trimmed.
pub fn power_supply_from(
    path: PathBuf,
    name: &str,
    f: &SupplyFiles,
    raw_attributes: BTreeMap<String, String>,
) -> (r: TypeCPowerSupply)
    ensures
        r.name@ == name@,
        r.online == (match int_file(f.online) {
            Some(v) => v != 0,
            None => false,
        }),
        r.voltage_now_uv == int_file(f.voltage_now),
        r.current_now_ua == int_file(f.current_now),
        r.current_max_ua == int_file(f.current_max),
        r.voltage_min_uv == int_file(f.voltage_min),
        r.voltage_max_uv == int_file(f.voltage_max),
        r.charge_type@ == text_file(f.charge_type),
        r.usb_type@ == text_file(f.usb_type),
        r.raw_attributes == raw_attributes,
{
    TypeCPowerSupply {
        sysfs_path: path,
        name: owned(name),
        online: match int_value(&f.online) {
            Some(v) => v != 0,
            None => false,
        },
        voltage_now_uv: int_value(&f.voltage_now),
        current_now_ua: int_value(&f.current_now),
        current_max_ua: int_value(&f.current_max),
        voltage_min_uv: int_value(&f.voltage_min),
        voltage_max_uv: int_value(&f.voltage_max),
        charge_type: text_value(&f.charge_type),
        usb_type: text_value(&f.usb_type),
        raw_attributes,
    }
}

/// The alternate mode of a sibling directory `name` of a partner or cable
/// named `owner`: it must be `<owner>.<digits>` and publish an `svid`.
/// The mode index defaults to zero; `active` reads `yes` or `1`.
pub open spec fn altmode_text(
    name: Seq<char>,
    owner: Seq<char>,
    svid: Option<String>,
    mode: Option<String>,
    active: Option<String>,
) -> Option<TypeCAltMode> {
    let pre = owner + "."@;
    if has_prefix(name, pre) && (forall|i: int|
        pre.len() <= i < name.len() ==> is_digit(#[trigger] name[i])) && hex_file(svid) is Some {
        Some(
            TypeCAltMode {
                svid: low16(hex_file(svid)),
                mode: match int_file(mode) {
                    Some(v) => v as u32,
                    None => 0,
                },
                active: text_file(active) == "yes"@ || text_file(active) == "1"@,
            },
        )
    } else {
        None
    }
}

/// An alternate mode from its directory (see [`altmode_text`]).
pub fn altmode_from(
    name: &str,
    owner: &str,
    svid: &Option<String>,
    mode: &Option<String>,
    active: &Option<String>,
) -> (r: Option<TypeCAltMode>)
    ensures
        r == altmode_text(name@, owner@, *svid, *mode, *active),
{
    let pre = crate::text::concat2(owner, ".");
    if !str_starts_with(name, pre.as_str()) {
        return None;
    }
    let v = chars_of(name);
    let mut i: usize = pre.as_str().unicode_len();
    while i < v.len()
        invariant
            pre@.len() <= i <= v@.len(),
            v@ == name@,
            pre@ == owner@ + "."@,
            has_prefix(name@, pre@),
            forall|k: int| pre@.len() <= k < i ==> is_digit(#[trigger] v@[k]),
        decreases v@.len() - i,
    {
        if !('0' <= v[i] && v[i] <= '9') {
            assert(!is_digit(v@[i as int]));
            return None;
        }
        i = i + 1;
    }
    let s = match hex_value(svid) {
        Some(x) => x,
        None => {
            return None;
        },
    };
    let m: u32 = match int_value(mode) {
        Some(x) => low32(x),
        None => 0,
    };
    let a = text_value(active);
    let on = str_eq(a.as_str(), "yes") || str_eq(a.as_str(), "1");
    Some(TypeCAltMode { svid: low16_of(Some(s)), mode: m, active: on })
}

/// What a Thunderbolt router directory held: each attribute file's
/// contents, `None` when the file is missing.
#[derive(Debug, Clone, Default)]
pub struct RouterFiles {
    /// `generation`.
    pub generation: Option<String>,
    /// `vendor`.
    pub vendor: Option<String>,
    /// `device`.
    pub device: Option<String>,
    /// `vendor_name`.
    pub vendor_name: Option<String>,
    /// `device_name`.
    pub device_name: Option<String>,
    /// `unique_id`.
    pub unique_id: Option<String>,
}

/// `v` clamped to `0..=255`.
pub open spec fn clamp_u8(v: i64) -> u8 {
    if v < 0 {
        0
    } else if v > 255 {
        255
    } else {
        v as u8
    }
}

/// The domain of a route `<domain>-<segment>...`, when it has one.
pub open spec fn route_domain(name: Seq<char>) -> Option<u32> {
    match find_from(name, '-', 0) {
        Some(k) => unsigned_text(name.take(k as int), 10),
        None => None,
    }
}

/// A route ends in `-0` on a host adapter.
pub open spec fn route_is_host(name: Seq<char>) -> bool {
    match crate::usb::last_index(name, '-') {
        Some(k) => name.subrange(k + 1int, name.len() as int) == "0"@,
        None => name == "0"@,
    }
}

/// The router record of entry `name`: `None` unless the name is a route
/// with a numeric domain and the router publishes a non-zero generation
/// (service nodes publish none). Ids keep their low 16 bits; texts are
/// trimmed, empty when missing.
pub fn router_from(
    path: PathBuf,
    name: &str,
    f: &RouterFiles,
    raw_attributes: BTreeMap<String, String>,
) -> (r: Option<ThunderboltRouter>)
    ensures
        r is Some <==> (route_domain(name@) is Some && int_file(f.generation) is Some && clamp_u8(
            int_file(f.generation)->0,
        ) != 0),
        r matches Some(t) ==> {
            &&& t.route@ == name@
            &&& t.domain == route_domain(name@)->0
            &&& t.is_host == route_is_host(name@)
            &&& t.generation == clamp_u8(int_file(f.generation)->0)
            &&& t.vendor_id == low16(hex_file(f.vendor))
            &&& t.device_id == low16(hex_file(f.device))
            &&& t.vendor_name@ == text_file(f.vendor_name)
            &&& t.device_name@ == text_file(f.device_name)
            &&& t.unique_id@ == text_file(f.unique_id)
            &&& t.raw_attributes == raw_attributes
        },
{
    let v = chars_of(name);
    let dash = match crate::typec::find_char(&v, '-', 0) {
        Some(k) => k,
        None => {
            return None;
        },
    };
    proof {
        crate::typec::lemma_find_from_bound(v@, '-', 0);
    }
    let head = substring(name, 0, dash);
    assert(head@ =~= name@.take(dash as int));
    let domain = match parse_u32(head.as_str(), 10) {
        Some(d) => d,
        None => {
            return None;
        },
    };
    let generation: u8 = match int_value(&f.generation) {
        Some(g) => if g < 0 {
            0
        } else if g > 255 {
            255
        } else {
            g as u8
        },
        None => {
            return None;
        },
    };
    if generation == 0 {
        return None;
    }
    let mut k = v.len();
    assert(name@.take(k as int) =~= name@);
    while k > 0 && v[k - 1] != '-'
        invariant
            k <= v@.len(),
            v@ == name@,
            crate::usb::last_index(name@, '-') == crate::usb::last_index(name@.take(k as int), '-'),
        decreases k,
    {
        assert(name@.take(k as int).drop_last() =~= name@.take(k - 1));
        k = k - 1;
    }
    proof {
        if k > 0 {
            assert(name@.take(k as int).last() == '-');
        } else {
            assert(name@.take(0) =~= Seq::<char>::empty());
        }
    }
    let tail = substring(name, k, v.len());
    proof {
        reveal_strlit("0");
        if k == 0 {
            assert(tail@ =~= name@);
            assert(crate::usb::last_index(name@, '-') is None);
        } else {
            assert(crate::usb::last_index(name@, '-') == Some((k - 1) as nat));
        }
    }
    let is_host = str_eq(tail.as_str(), "0");
    Some(ThunderboltRouter {
        sysfs_path: path,
        route: owned(name),
        domain,
        is_host,
        generation,
        vendor_id: low16_of(hex_value(&f.vendor)),
        device_id: low16_of(hex_value(&f.device)),
        vendor_name: text_value(&f.vendor_name),
        device_name: text_value(&f.device_name),
        unique_id: text_value(&f.unique_id),
        raw_attributes,
    })
}

/// The interface number in an entry name `<device>:<config>.<number>`:
/// the digits after the last `.`, zero when there are none.
pub open spec fn iface_number(name: Seq<char>) -> u32 {
    match crate::usb::last_index(name, '.') {
        Some(k) => match unsigned_text(name.subrange(k + 1int, name.len() as int), 10) {
            Some(n) => n,
            None => 0,
        },
        None => 0,
    }
}

/// The low byte of a value.
pub open spec fn low8(v: u32) -> u8 {
    (v % 256) as u8
}

/// The interface record of device-directory entry `name`: only entries
/// with a `:` are interfaces, and one without a readable
/// `bInterfaceClass` is skipped. Codes keep their low byte; a missing
/// subclass or protocol reads as zero.
pub fn iface_from(
    name: &str,
    class: &Option<String>,
    sub_class: &Option<String>,
    protocol: &Option<String>,
    driver: String,
) -> (r: Option<UsbInterface>)
    ensures
        r is Some <==> (find_from(name@, ':', 0) is Some && hex_file(*class) is Some),
        r matches Some(i) ==> {
            &&& i.number == iface_number(name@)
            &&& i.class_code == low8(hex_file(*class)->0)
            &&& i.sub_class == low8(slot(*sub_class))
            &&& i.protocol == low8(slot(*protocol))
            &&& i.driver == driver
        },
{
    let v = chars_of(name);
    if crate::typec::find_char(&v, ':', 0).is_none() {
        return None;
    }
    let c = match hex_value(class) {
        Some(c) => c,
        None => {
            return None;
        },
    };
    let mut k = v.len();
    assert(name@.take(k as int) =~= name@);
    while k > 0 && v[k - 1] != '.'
        invariant
            k <= v@.len(),
            v@ == name@,
            crate::usb::last_index(name@, '.') == crate::usb::last_index(name@.take(k as int), '.'),
        decreases k,
    {
        assert(name@.take(k as int).drop_last() =~= name@.take(k - 1));
        k = k - 1;
    }
    let number: u32 = if k == 0 {
        assert(name@.take(0) =~= Seq::<char>::empty());
        0
    } else {
        assert(name@.take(k as int).last() == '.');
        assert(crate::usb::last_index(name@, '.') == Some((k - 1) as nat));
        let tail = substring(name, k, v.len());
        match parse_u32(tail.as_str(), 10) {
            Some(n) => n,
            None => 0,
        }
    };
    let sc = match hex_value(sub_class) {
        Some(x) => x,
        None => 0,
    };
    let pr = match hex_value(protocol) {
        Some(x) => x,
        None => 0,
    };
    Some(UsbInterface {
        number,
        class_code: (c % 256) as u8,
        sub_class: (sc % 256) as u8,
        protocol: (pr % 256) as u8,
        driver,
    })
}

/// What a USB device directory held: each attribute file's contents,
/// `None` when the file is missing.
#[derive(Debug, Clone, Default)]
pub struct DeviceFiles {
    /// `idVendor`.
    pub id_vendor: Option<String>,
    /// `idProduct`.
    pub id_product: Option<String>,
    /// `bDeviceClass`.
    pub device_class: Option<String>,
    /// `bDeviceSubClass`.
    pub device_sub_class: Option<String>,
    /// `bDeviceProtocol`.
    pub device_protocol: Option<String>,
    /// `manufacturer`.
    pub manufacturer: Option<String>,
    /// `product`.
    pub product: Option<String>,
    /// `serial`.
    pub serial: Option<String>,
    /// `version`.
    pub version: Option<String>,
    /// `removable`.
    pub removable: Option<String>,
    /// `speed`.
    pub speed: Option<String>,
    /// `bMaxPower`.
    pub max_power: Option<String>,
    /// `busnum`.
    pub busnum: Option<String>,
    /// `devnum`.
    pub devnum: Option<String>,
    /// `rx_lanes`.
    pub rx_lanes: Option<String>,
    /// `tx_lanes`.
    pub tx_lanes: Option<String>,
    /// `bNumConfigurations`.
    pub num_configurations: Option<String>,
    /// `bNumInterfaces`.
    pub num_interfaces: Option<String>,
}

/// A count attribute: negative and missing values read as zero, others
/// keep their low 32 bits.
pub open spec fn count_file(f: Option<String>) -> u32 {
    match int_file(f) {
        Some(v) => if v < 0 {
            0
        } else {
            v as u32
        },
        None => 0,
    }
}

fn count_value(f: &Option<String>) -> (r: u32)
    ensures
        r == count_file(*f),
{
    match int_value(f) {
        Some(v) => if v < 0 {
            0
        } else {
            low32(v)
        },
        None => 0,
    }
}

/// The device record of entry `name` of the USB devices directory:
/// interface entries (with a `:`) and devices without readable ids are
/// skipped. Ids keep their low 16 bits and codes their low byte; counts
/// follow [`count_file`]; texts are trimmed, empty when missing; the
/// descriptor's `bMaxPower` is read by its leading digits. A root hub's
/// name starts with `usb`; class `0x09` marks a hub. Children are linked
/// afterwards; the remaining fields are left empty.
pub fn usb_device_from(
    path: PathBuf,
    name: &str,
    f: &DeviceFiles,
    interfaces: Vec<UsbInterface>,
    raw_attributes: BTreeMap<String, String>,
) -> (r: Option<UsbDevice>)
    ensures
        r is Some <==> (find_from(name@, ':', 0) is None && hex_file(f.id_vendor) is Some && hex_file(
            f.id_product,
        ) is Some),
        r matches Some(d) ==> {
            &&& d.bus_port@ == name@
            &&& d.vendor_id == low16(hex_file(f.id_vendor))
            &&& d.product_id == low16(hex_file(f.id_product))
            &&& d.manufacturer@ == text_file(f.manufacturer)
            &&& d.product@ == text_file(f.product)
            &&& d.serial@ == text_file(f.serial)
            &&& d.version@ == text_file(f.version)
            &&& d.removable@ == text_file(f.removable)
            &&& d.speed == count_file(f.speed)
            &&& d.max_power_ma as nat == crate::usb::leading_number(text_file(f.max_power), 0, 0)
            &&& d.bus_num == count_file(f.busnum)
            &&& d.dev_num == count_file(f.devnum)
            &&& d.rx_lanes == count_file(f.rx_lanes)
            &&& d.tx_lanes == count_file(f.tx_lanes)
            &&& d.num_configurations == count_file(f.num_configurations)
            &&& d.num_interfaces == match unsigned_text(text_file(f.num_interfaces), 10) {
                Some(n) => n,
                None => 0,
            }
            &&& d.device_class == low8(slot(f.device_class))
            &&& d.device_sub_class == low8(slot(f.device_sub_class))
            &&& d.device_protocol == low8(slot(f.device_protocol))
            &&& d.is_hub == (low8(slot(f.device_class)) == 9)
            &&& d.is_root_hub == has_prefix(name@, "usb"@)
            &&& d.interfaces@ == interfaces@
            &&& d.children@.len() == 0
            &&& d.bos is None
            &&& d.quirks == 0
            &&& d.raw_attributes == raw_attributes
        },
{
    let v = chars_of(name);
    if crate::typec::find_char(&v, ':', 0).is_some() {
        return None;
    }
    let vid = match hex_value(&f.id_vendor) {
        Some(x) => x,
        None => {
            return None;
        },
    };
    let pid = match hex_value(&f.id_product) {
        Some(x) => x,
        None => {
            return None;
        },
    };
    let dc = match hex_value(&f.device_class) {
        Some(x) => x,
        None => 0,
    };
    let dsc = match hex_value(&f.device_sub_class) {
        Some(x) => x,
        None => 0,
    };
    let dp = match hex_value(&f.device_protocol) {
        Some(x) => x,
        None => 0,
    };
    let device_class = (dc % 256) as u8;
    let max_power_text = text_value(&f.max_power);
    let ni = text_value(&f.num_interfaces);
    let num_interfaces = match parse_u32(ni.as_str(), 10) {
        Some(n) => n,
        None => 0,
    };
    proof {
        reveal_strlit("usb");
    }
    Some(UsbDevice {
        sysfs_path: path,
        bus_port: owned(name),
        vendor_id: low16_of(Some(vid)),
        product_id: low16_of(Some(pid)),
        manufacturer: text_value(&f.manufacturer),
        product: text_value(&f.product),
        serial: text_value(&f.serial),
        version: text_value(&f.version),
        speed: count_value(&f.speed),
        max_power_ma: crate::usb::parse_max_power(max_power_text.as_str()),
        device_class,
        device_sub_class: (dsc % 256) as u8,
        device_protocol: (dp % 256) as u8,
        bus_num: count_value(&f.busnum),
        dev_num: count_value(&f.devnum),
        rx_lanes: count_value(&f.rx_lanes),
        tx_lanes: count_value(&f.tx_lanes),
        removable: text_value(&f.removable),
        num_interfaces,
        num_configurations: count_value(&f.num_configurations),
        interfaces,
        children: Vec::new(),
        is_hub: device_class == 9,
        is_root_hub: str_starts_with(name, "usb"),
        bos: None,
        quirks: 0,
        port_id: String::new(),
        port_peer_id: String::new(),
        port_peer_state: String::new(),
        port_connect_type: String::new(),
        max_child: 0,
        ports_used: None,
        bm_attributes: 0,
        product_db: String::new(),
        raw_attributes,
    })
}

/// A USB Power Delivery node name: `pd` and at least one digit.
pub open spec fn is_pd_node(name: Seq<char>) -> bool {
    has_prefix(name, "pd"@) && name.len() > 2 && forall|i: int|
        2 <= i < name.len() ==> is_digit(#[trigger] name[i])
}

/// Whether `name` names a USB Power Delivery node (see [`is_pd_node`]).
pub fn pd_node_name(name: &str) -> (r: bool)
    ensures
        r == is_pd_node(name@),
{
    proof {
        reveal_strlit("pd");
    }
    if !str_starts_with(name, "pd") {
        return false;
    }
    let v = chars_of(name);
    if v.len() <= 2 {
        return false;
    }
    let mut i: usize = 2;
    while i < v.len()
        invariant
            2 <= i <= v@.len(),
            v@ == name@,
            forall|k: int| 2 <= k < i ==> is_digit(#[trigger] v@[k]),
        decreases v@.len() - i,
    {
        if !('0' <= v[i] && v[i] <= '9') {
            assert(!is_digit(v@[i as int]));
            return false;
        }
        i = i + 1;
    }
    true
}

/// The PD node a partner's directory holds when it has no
/// `usb_power_delivery` link: among the subdirectory `names`, the first in
/// sorted order that is a PD node name; empty when none is.
pub fn first_pd_node(names: &Vec<String>) -> (r: String)
    ensures
        (exists|i: int| 0 <= i < names@.len() && is_pd_node(#[trigger] names@[i]@)) ==> {
            &&& is_pd_node(r@)
            &&& exists|i: int| 0 <= i < names@.len() && #[trigger] names@[i]@ == r@
            &&& forall|j: int|
                0 <= j < names@.len() && is_pd_node(#[trigger] names@[j]@) ==> !text_lt(
                    names@[j]@,
                    r@,
                )
        },
        !(exists|i: int| 0 <= i < names@.len() && is_pd_node(#[trigger] names@[i]@)) ==> r@
            == Seq::<char>::empty(),
{
    let mut best: Option<usize> = None;
    let mut i: usize = 0;
    while i < names.len()
        invariant
            i <= names@.len(),
            match best {
                Some(b) => b < i && is_pd_node(names@[b as int]@) && forall|j: int|
                    0 <= j < i && is_pd_node(#[trigger] names@[j]@) ==> !text_lt(
                        names@[j]@,
                        names@[b as int]@,
                    ),
                None => forall|j: int| 0 <= j < i ==> !is_pd_node(#[trigger] names@[j]@),
            },
        decreases names@.len() - i,
    {
        if pd_node_name(names[i].as_str()) {
            match best {
                Some(b) => {
                    if text_less(names[i].as_str(), names[b].as_str()) {
                        proof {
                            assert forall|j: int|
                                0 <= j < i + 1 && is_pd_node(#[trigger] names@[j]@) implies !text_lt(
                                names@[j]@,
                                names@[i as int]@,
                            ) by {
                                if j == i {
                                    lemma_text_lt_irreflexive(names@[j]@);
                                } else if text_lt(names@[j]@, names@[i as int]@) {
                                    lemma_text_lt_transitive(
                                        names@[j]@,
                                        names@[i as int]@,
                                        names@[b as int]@,
                                    );
                                }
                            }
                        }
                        best = Some(i);
                    }
                },
                None => {
                    proof {
                        lemma_text_lt_irreflexive(names@[i as int]@);
                    }
                    best = Some(i);
                },
            }
        }
        i = i + 1;
    }
    match best {
        Some(b) => names[b].clone(),
        None => String::new(),
    }
}

} // verus!
