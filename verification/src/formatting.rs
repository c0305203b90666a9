//! Display formatting of key metadata: TTLs, memory sizes, type badges and JSON
//! values.
use vstd::prelude::*;
use crate::text::{
    chars_of, decimal, digit_char, push_decimal, push_str, string_from, trim, trim_chars,
};
use vstd::arithmetic::power2::pow2;

verus! {

/// The text shown for a TTL of `ttl` seconds.
pub open spec fn ttl_text(ttl: i64) -> Seq<char> {
    if ttl == -1 {
        "No expiration"@
    } else if ttl < 0 {
        "Expired"@
    } else if ttl < 60 {
        decimal(ttl as nat).push('s')
    } else if ttl < 3600 {
        decimal((ttl / 60) as nat) + "m "@ + decimal((ttl % 60) as nat).push('s')
    } else {
        decimal((ttl / 3600) as nat) + "h "@ + decimal(((ttl % 3600) / 60) as nat).push('m')
    }
}

/// Formats a TTL in seconds: "No expiration" for -1, "Expired" for other negative
/// values, then seconds, minutes and seconds, or hours and minutes.
pub fn format_ttl(ttl: i64) -> (r: String)
    ensures
        r@ == ttl_text(ttl),
{
    if ttl == -1 {
        return String::from_str("No expiration");
    } else if ttl < 0 {
        return String::from_str("Expired");
    }
    let mut out: Vec<char> = Vec::new();
    if ttl < 60 {
        push_decimal(&mut out, ttl as u128);
        out.push('s');
    } else if ttl < 3600 {
        push_decimal(&mut out, (ttl / 60) as u128);
        push_str(&mut out, "m ");
        push_decimal(&mut out, (ttl % 60) as u128);
        out.push('s');
    } else {
        push_decimal(&mut out, (ttl / 3600) as u128);
        push_str(&mut out, "h ");
        push_decimal(&mut out, ((ttl % 3600) / 60) as u128);
        out.push('m');
    }
    string_from(&out)
}

/// `c` lowered when it is an ASCII capital letter, as a code point.
pub open spec fn ascii_lower(c: char) -> u32 {
    let v = c as u32;
    if 65 <= v <= 90 {
        (v + 32) as u32
    } else {
        v
    }
}

/// Whether `s`, lowercased, is `word`, for a `word` of lowercase ASCII letters. No
/// character outside ASCII lowercases to one of the letters a, e, g, h, i, l, n, r,
/// s, t, z (U+0130 lowercases to two characters), so for the words compared here
/// only ASCII capitals matter.
pub open spec fn lowercases_to(s: Seq<char>, word: Seq<char>) -> bool {
    &&& s.len() == word.len()
    &&& forall|i: int| 0 <= i < s.len() ==> ascii_lower(#[trigger] s[i]) == word[i] as u32
}

/// The one-letter badge shown for a Redis type name.
pub open spec fn type_badge(key_type: Seq<char>) -> Seq<char> {
    if lowercases_to(key_type, "string"@) {
        "S"@
    } else if lowercases_to(key_type, "list"@) {
        "L"@
    } else if lowercases_to(key_type, "hash"@) {
        "H"@
    } else if lowercases_to(key_type, "set"@) {
        "U"@
    } else if lowercases_to(key_type, "zset"@) {
        "Z"@
    } else {
        "?"@
    }
}

fn lowercase_matches(s: &Vec<char>, word: &str) -> (r: bool)
    ensures
        r == lowercases_to(s@, word@),
{
    let w = chars_of(word);
    if s.len() != w.len() {
        return false;
    }
    let mut i: usize = 0;
    while i < s.len()
        invariant
            s.len() == w.len(),
            w@ == word@,
            i <= s.len(),
            forall|j: int| 0 <= j < i ==> ascii_lower(#[trigger] s@[j]) == w@[j] as u32,
        decreases s.len() - i,
    {
        let v = s[i] as u32;
        let lower = if 65 <= v && v <= 90 {
            v + 32
        } else {
            v
        };
        if lower != w[i] as u32 {
            return false;
        }
        i = i + 1;
    }
    true
}

/// The badge of a Redis type: S, L, H, U, Z for string, list, hash, set and sorted
/// set, in any letter case; "?" for any other type.
pub fn get_type_badge(key_type: &str) -> (r: &'static str)
    ensures
        r@ == type_badge(key_type@),
{
    let s = chars_of(key_type);
    if lowercase_matches(&s, "string") {
        "S"
    } else if lowercase_matches(&s, "list") {
        "L"
    } else if lowercase_matches(&s, "hash") {
        "H"
    } else if lowercase_matches(&s, "set") {
        "U"
    } else if lowercase_matches(&s, "zset") {
        "Z"
    } else {
        "?"
    }
}


/// The number of binary digits of `n`.
pub open spec fn bit_len(n: nat) -> nat
    decreases n,
{
    if n == 0 {
        0
    } else {
        1 + bit_len(n / 2)
    }
}

/// `n / d` rounded to the nearest integer, a tie going to the even one.
pub open spec fn div_round_even(n: nat, d: nat) -> nat {
    let q = n / d;
    let r = n % d;
    if 2 * r > d || (2 * r == d && q % 2 == 1) {
        q + 1
    } else {
        q
    }
}

/// The value of `n as f64`: `n` itself when it has at most 53 binary digits,
/// otherwise `n` rounded to 53 significant binary digits, a tie going to the even
/// one.
pub open spec fn f64_value(n: nat) -> nat {
    if bit_len(n) <= 53 {
        n
    } else {
        let p = pow2((bit_len(n) - 53) as nat);
        div_round_even(n, p) * p
    }
}

/// `bytes as f64 / unit as f64` in hundredths, rounded as `{:.2}` rounds the
/// exact quotient: to nearest, a tie going to the even one.
pub open spec fn hundredths(bytes: nat, unit: nat) -> nat {
    div_round_even(f64_value(bytes) * 100, unit)
}

/// A number of hundredths written with two decimals.
pub open spec fn fixed2(h: nat) -> Seq<char> {
    decimal(h / 100) + seq!['.', digit_char((h / 10) % 10), digit_char(h % 10)]
}

/// The text shown for a memory size of `bytes` bytes.
pub open spec fn bytes_text(bytes: u64) -> Seq<char> {
    if bytes >= 1073741824 {
        fixed2(hundredths(bytes as nat, 1073741824)) + " GB"@
    } else if bytes >= 1048576 {
        fixed2(hundredths(bytes as nat, 1048576)) + " MB"@
    } else if bytes >= 1024 {
        fixed2(hundredths(bytes as nat, 1024)) + " KB"@
    } else {
        decimal(bytes as nat) + " B"@
    }
}

proof fn lemma_bit_len_below(n: nat, k: nat)
    ensures
        bit_len(n) <= k <==> n < pow2(k),
    decreases n,
{
    vstd::arithmetic::power2::lemma_pow2_pos(k);
    if n > 0 {
        if k > 0 {
            lemma_bit_len_below(n / 2, (k - 1) as nat);
            vstd::arithmetic::power2::lemma_pow2_unfold(k);
        } else {
            vstd::arithmetic::power2::lemma2_to64();
        }
    }
}

fn bit_length(n: u64) -> (l: u64)
    ensures
        l == bit_len(n as nat),
    decreases n,
{
    proof {
        lemma_bit_len_below(n as nat, 64);
        vstd::arithmetic::power2::lemma2_to64();
    }
    if n == 0 {
        0
    } else {
        1 + bit_length(n / 2)
    }
}

fn pow2_small(e: u64) -> (p: u64)
    requires
        e <= 11,
    ensures
        p == pow2(e as nat),
        2 <= 2 * p <= 4096,
{
    proof {
        vstd::arithmetic::power2::lemma2_to64();
    }
    let mut p: u64 = 1;
    let mut i: u64 = 0;
    while i < e
        invariant
            i <= e <= 11,
            p == pow2(i as nat),
            pow2(11) == 2048,
        decreases e - i,
    {
        proof {
            vstd::arithmetic::power2::lemma_pow2_strictly_increases(i as nat, 11);
            vstd::arithmetic::power2::lemma_pow2_unfold((i + 1) as nat);
        }
        p = p * 2;
        i = i + 1;
    }
    proof {
        vstd::arithmetic::power2::lemma_pow2_pos(e as nat);
        if e < 11 {
            vstd::arithmetic::power2::lemma_pow2_strictly_increases(e as nat, 11);
        }
    }
    p
}

fn round_even_div(n: u128, d: u128) -> (q: u128)
    requires
        0 < d <= 0x1_0000_0000_0000_0000,
        n < 0x1_0000_0000_0000_0000_0000,
    ensures
        q == div_round_even(n as nat, d as nat),
{
    let q = n / d;
    let r = n % d;
    proof {
        vstd::arithmetic::div_mod::lemma_div_nonincreasing(n as int, d as int);
    }
    if 2 * r > d || (2 * r == d && q % 2 == 1) {
        q + 1
    } else {
        q
    }
}

/// The value of `bytes as f64`, which is an integer.
fn as_f64_value(bytes: u64) -> (r: u128)
    ensures
        r == f64_value(bytes as nat),
        r <= 0x1_0000_0000_0000_0800,
{
    proof {
        lemma_bit_len_below(bytes as nat, 53);
        lemma_bit_len_below(bytes as nat, 64);
        vstd::arithmetic::power2::lemma2_to64();
        vstd::arithmetic::power2::lemma2_to64_rest();
    }
    if bytes < 0x20_0000_0000_0000 {
        bytes as u128
    } else {
        let l = bit_length(bytes);
        let p = pow2_small(l - 53);
        let q = bytes / p;
        let rem = bytes % p;
        proof {
            vstd::arithmetic::div_mod::lemma_fundamental_div_mod(bytes as int, p as int);
            vstd::arithmetic::div_mod::lemma_div_nonincreasing(bytes as int, p as int);
        }
        assert(q <= 0x7FFF_FFFF_FFFF_FFFF) by (nonlinear_arith)
            requires
                p * q + rem == bytes,
                0 <= rem,
                2 <= p,
                bytes <= 0xFFFF_FFFF_FFFF_FFFF,
        ;
        let q2 = if 2 * rem > p || (2 * rem == p && q % 2 == 1) {
            q + 1
        } else {
            q
        };
        assert(q2 * p <= bytes + p) by (nonlinear_arith)
            requires
                q2 <= q + 1,
                p * q + rem == bytes,
                0 <= rem,
                0 < p,
        ;
        q2 as u128 * p as u128
    }
}

fn push_fixed2(out: &mut Vec<char>, h: u128)
    ensures
        final(out)@ == old(out)@ + fixed2(h as nat),
{
    push_decimal(out, h / 100);
    out.push('.');
    let tens: u8 = ((h / 10) % 10) as u8;
    let ones: u8 = (h % 10) as u8;
    out.push((48u8 + tens) as char);
    out.push((48u8 + ones) as char);
}

/// Formats a memory size: plain bytes below 1 KiB, otherwise KiB, MiB or GiB with
/// two decimals, exactly as `format!("{:.2} GB", bytes as f64 / GB as f64)` and its
/// siblings print it.
pub fn format_bytes(bytes: u64) -> (r: String)
    ensures
        r@ == bytes_text(bytes),
{
    let mut out: Vec<char> = Vec::new();
    if bytes < 1024 {
        push_decimal(&mut out, bytes as u128);
        push_str(&mut out, " B");
        return string_from(&out);
    }
    let unit: u128 = if bytes >= 1073741824 {
        1073741824
    } else if bytes >= 1048576 {
        1048576
    } else {
        1024
    };
    let value = as_f64_value(bytes);
    let h = round_even_div(value * 100, unit);
    push_fixed2(&mut out, h);
    if bytes >= 1073741824 {
        push_str(&mut out, " GB");
    } else if bytes >= 1048576 {
        push_str(&mut out, " MB");
    } else {
        push_str(&mut out, " KB");
    }
    string_from(&out)
}


/// The text that serde_json writes with `to_string_pretty` for the JSON document
/// `text` read with `from_str::<serde_json::Value>`, or `None` when `text` does not
/// parse as one JSON document.
pub uninterp spec fn pretty_json(text: Seq<char>) -> Option<Seq<char>>;

/// Calls `serde_json::from_str::<serde_json::Value>` on `text` and, when that
/// succeeds, `serde_json::to_string_pretty` on the value. The contract claims only
/// that the outcome is the one `pretty_json` names for `text`: the result depends on
/// the text alone. Nothing is stated of serde_json's grammar or of its layout.
#[verifier::external_body]
fn reformat_json(text: &str) -> (r: Option<String>)
    ensures
        r is Some <==> pretty_json(text@) is Some,
        r matches Some(p) ==> p@ == pretty_json(text@)->0,
{
    match serde_json::from_str::<serde_json::Value>(text) {
        Ok(v) => serde_json::to_string_pretty(&v).ok(),
        Err(_) => None,
    }
}

/// What is shown for `value` given the outcome of reformatting it as JSON: the
/// reformatted text when there is one, `value` otherwise.
pub open spec fn json_display(value: Seq<char>, reformatted: Option<Seq<char>>) -> Seq<char> {
    match reformatted {
        Some(p) => p,
        None => value,
    }
}

/// Chooses between a reformatted JSON text and the original value.
pub fn json_or_text(value: &str, reformatted: Option<String>) -> (r: String)
    ensures
        r@ == json_display(
            value@,
            match reformatted {
                Some(p) => Some(p@),
                None => None,
            },
        ),
{
    match reformatted {
        Some(p) => p,
        None => String::from_str(value),
    }
}

/// Pretty-prints `value` as JSON when it parses as JSON, and returns it unchanged
/// otherwise.
pub fn format_json(value: &str) -> (r: String)
    ensures
        r@ == json_display(value@, pretty_json(value@)),
{
    let reformatted = reformat_json(value);
    json_or_text(value, reformatted)
}

/// Whether `s`, trimmed, is delimited by braces or by brackets.
pub open spec fn looks_like_json(s: Seq<char>) -> bool {
    let t = trim(s);
    t.len() > 0 && ((t[0] == '{' && t.last() == '}') || (t[0] == '[' && t.last() == ']'))
}

/// What is shown for a stored value: its JSON pretty-print when it looks like JSON
/// and parses as JSON, the value itself otherwise.
pub open spec fn value_display(s: Seq<char>) -> Seq<char> {
    if looks_like_json(s) {
        json_display(s, pretty_json(s))
    } else {
        s
    }
}

/// Pretty-prints `value` as JSON when, trimmed, it starts and ends with matching
/// braces or brackets and parses as JSON; returns it unchanged otherwise.
pub fn try_format_as_json(value: &str) -> (r: String)
    ensures
        r@ == value_display(value@),
{
    let cs = chars_of(value);
    let t = trim_chars(&cs);
    let n = t.len();
    if n > 0 && ((t[0] == '{' && t[n - 1] == '}') || (t[0] == '[' && t[n - 1] == ']')) {
        format_json(value)
    } else {
        String::from_str(value)
    }
}

} // verus!
