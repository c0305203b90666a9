//! Character-level text operations used throughout the library, each stated over
//! `Seq<char>`: conversion between `String` and character vectors, decimal
//! rendering of integers, Unicode whitespace trimming, line splitting and the
//! UTF-8 byte positions that `str` indexing uses.
use vstd::prelude::*;

verus! {

/// The characters of `s`, in order.
pub fn chars_of(s: &str) -> (v: Vec<char>)
    ensures
        v@ == s@,
{
    let mut v: Vec<char> = Vec::new();
    for c in it: s.chars()
        invariant
            it.seq() == s@,
            v@ == it.seq().take(it.index() as int),
    {
        v.push(c);
    }
    v
}

/// `String::from_iter` over the characters of `v`: the string whose characters are
/// exactly those of `v`, in order.
#[verifier::external_body]
pub fn string_from(v: &Vec<char>) -> (s: String)
    ensures
        s@ == v@,
{
    String::from_iter(v.iter())
}


/// The decimal digit character for `d < 10`.
pub open spec fn digit_char(d: nat) -> char {
    (48 + d) as char
}

/// The decimal representation of `n`, as `{}` prints an unsigned integer.
pub open spec fn decimal(n: nat) -> Seq<char>
    decreases n,
{
    if n < 10 {
        seq![digit_char(n)]
    } else {
        decimal(n / 10).push(digit_char(n % 10))
    }
}

/// Appends the decimal representation of `n` to `out`.
pub fn push_decimal(out: &mut Vec<char>, n: u128)
    ensures
        final(out)@ == old(out)@ + decimal(n as nat),
    decreases n,
{
    if n >= 10 {
        push_decimal(out, n / 10);
    }
    let d: u8 = (n % 10) as u8;
    assert(d < 10);
    out.push((48u8 + d) as char);
    proof {
        assert(decimal(n as nat) == (if n < 10 { seq![digit_char(n as nat)] } else {
            decimal((n / 10) as nat).push(digit_char((n % 10) as nat))
        }));
    }
}

/// Whether `c` is one of the ASCII digits '0' to '9'.
pub open spec fn is_digit(c: char) -> bool {
    '0' <= c && c <= '9'
}

/// The number that the decimal digits `s` stand for, most significant first.
pub open spec fn digits_value(s: Seq<char>) -> int
    decreases s.len(),
{
    if s.len() == 0 {
        0
    } else {
        digits_value(s.drop_last()) * 10 + (s.last() as int - '0' as int)
    }
}

/// The decimal form of a number is a nonempty run of digits that reads back as
/// that number; so different numbers have different decimal forms.
pub proof fn lemma_decimal_reads_back(n: nat)
    ensures
        decimal(n).len() >= 1,
        forall|k: int| 0 <= k < decimal(n).len() ==> is_digit(#[trigger] decimal(n)[k]),
        digits_value(decimal(n)) == n,
        decimal(n).len() > 1 ==> decimal(n)[0] != '0',
    decreases n,
{
    if n < 10 {
        assert(decimal(n).drop_last() =~= Seq::<char>::empty());
        assert(digit_char(n) as int == 48 + n);
        assert('0' as int == 48);
        assert(decimal(n).last() == digit_char(n));
        assert(digits_value(decimal(n)) == digits_value(Seq::<char>::empty()) * 10 + (digit_char(n) as int - 48));
        assert(decimal(n).len() == 1);
    } else {
        lemma_decimal_reads_back(n / 10);
        let d = decimal(n / 10);
        let last = digit_char(n % 10);
        assert(last as int == 48 + n % 10);
        assert(decimal(n) == d.push(last));
        assert(d.push(last).drop_last() =~= d);
        assert(d.push(last)[0] == d[0]);
        if n / 10 < 10 {
            assert(d == seq![digit_char(n / 10)]);
            assert(d[0] as int == 48 + n / 10);
        } else {
            lemma_decimal_reads_back(n / 100);
            assert(d == decimal(n / 10 / 10).push(digit_char(n / 10 % 10)));
            assert(d.len() > 1);
        }
        assert(n == (n / 10) * 10 + n % 10);
        assert(digits_value(d.push(last)) == digits_value(d) * 10 + (last as int - '0' as int));
        assert(decimal(n)[0] == d[0]);
    }
}

/// Different numbers have different decimal forms.
pub proof fn lemma_decimal_injective(m: nat, n: nat)
    ensures
        decimal(m) == decimal(n) ==> m == n,
{
    lemma_decimal_reads_back(m);
    lemma_decimal_reads_back(n);
}

/// Appends the characters of `s` to `out`.
pub fn push_str(out: &mut Vec<char>, s: &str)
    ensures
        final(out)@ == old(out)@ + s@,
{
    let cs = chars_of(s);
    let mut i: usize = 0;
    while i < cs.len()
        invariant
            cs@ == s@,
            i <= cs.len(),
            out@ == old(out)@ + cs@.take(i as int),
        decreases cs.len() - i,
    {
        out.push(cs[i]);
        i = i + 1;
        assert(cs@.take(i as int) == cs@.take(i - 1).push(cs@[i - 1]));
    }
    assert(cs@.take(cs.len() as int) == cs@);
}

/// Appends the characters of `s` to `out`.
pub fn push_chars(out: &mut Vec<char>, s: &Vec<char>)
    ensures
        final(out)@ == old(out)@ + s@,
{
    let mut i: usize = 0;
    while i < s.len()
        invariant
            i <= s.len(),
            out@ == old(out)@ + s@.take(i as int),
        decreases s.len() - i,
    {
        out.push(s[i]);
        i = i + 1;
        assert(s@.take(i as int) == s@.take(i - 1).push(s@[i - 1]));
    }
    assert(s@.take(s.len() as int) == s@);
}

/// Unicode `White_Space`, the property that `char::is_whitespace` tests.
pub open spec fn is_white_space(c: char) -> bool {
    let v = c as u32;
    ||| 0x09 <= v <= 0x0D
    ||| v == 0x20
    ||| v == 0x85
    ||| v == 0xA0
    ||| v == 0x1680
    ||| 0x2000 <= v <= 0x200A
    ||| v == 0x2028
    ||| v == 0x2029
    ||| v == 0x202F
    ||| v == 0x205F
    ||| v == 0x3000
}

/// Whether `c` is Unicode white space.
pub fn white_space(c: char) -> (b: bool)
    ensures
        b == is_white_space(c),
{
    let v = c as u32;
    (0x09 <= v && v <= 0x0D) || v == 0x20 || v == 0x85 || v == 0xA0 || v == 0x1680 || (0x2000
        <= v && v <= 0x200A) || v == 0x2028 || v == 0x2029 || v == 0x202F || v == 0x205F || v
        == 0x3000
}

/// `s` without its leading white space.
pub open spec fn trim_start(s: Seq<char>) -> Seq<char>
    decreases s.len(),
{
    if s.len() > 0 && is_white_space(s[0]) {
        trim_start(s.drop_first())
    } else {
        s
    }
}

/// `s` without its trailing white space.
pub open spec fn trim_end(s: Seq<char>) -> Seq<char>
    decreases s.len(),
{
    if s.len() > 0 && is_white_space(s.last()) {
        trim_end(s.drop_last())
    } else {
        s
    }
}

/// `s` without leading and trailing white space, as `str::trim` returns it.
pub open spec fn trim(s: Seq<char>) -> Seq<char> {
    trim_end(trim_start(s))
}

proof fn lemma_trim_start_skip(s: Seq<char>, i: int)
    requires
        0 <= i <= s.len(),
        forall|j: int| 0 <= j < i ==> is_white_space(#[trigger] s[j]),
    ensures
        trim_start(s) == trim_start(s.skip(i)),
    decreases i,
{
    if i > 0 {
        assert(s.skip(i - 1).drop_first() == s.skip(i));
        lemma_trim_start_skip(s, i - 1);
    } else {
        assert(s.skip(0) == s);
    }
}

proof fn lemma_trim_end_take(s: Seq<char>, i: int)
    requires
        0 <= i <= s.len(),
        forall|j: int| i <= j < s.len() ==> is_white_space(#[trigger] s[j]),
    ensures
        trim_end(s) == trim_end(s.take(i)),
    decreases s.len() - i,
{
    if i < s.len() {
        assert(s.take(i + 1).drop_last() == s.take(i));
        lemma_trim_end_take(s, i + 1);
    } else {
        assert(s.take(i) == s);
    }
}

/// The characters of `s` without leading and trailing white space.
pub fn trim_chars(s: &Vec<char>) -> (r: Vec<char>)
    ensures
        r@ == trim(s@),
{
    let mut start: usize = 0;
    while start < s.len() && white_space(s[start])
        invariant
            start <= s.len(),
            forall|j: int| 0 <= j < start ==> is_white_space(#[trigger] s@[j]),
        decreases s.len() - start,
    {
        start = start + 1;
    }
    proof {
        lemma_trim_start_skip(s@, start as int);
        if start < s.len() {
            assert(s@.skip(start as int)[0] == s@[start as int]);
        }
    }
    let ghost rest = s@.skip(start as int);
    assert(trim_start(s@) == rest);
    let mut end: usize = s.len();
    while end > start && white_space(s[end - 1])
        invariant
            start <= end <= s.len(),
            rest == s@.skip(start as int),
            forall|j: int| end - start <= j < rest.len() ==> is_white_space(#[trigger] rest[j]),
        decreases end,
    {
        end = end - 1;
    }
    proof {
        lemma_trim_end_take(rest, end - start);
        let t = rest.take(end - start);
        if end > start {
            assert(t.last() == s@[end - 1]);
        }
    }
    let mut r: Vec<char> = Vec::new();
    let mut i: usize = start;
    while i < end
        invariant
            start <= i <= end <= s.len(),
            r@ == s@.subrange(start as int, i as int),
        decreases end - i,
    {
        r.push(s[i]);
        i = i + 1;
        assert(s@.subrange(start as int, i as int) == s@.subrange(start as int, i - 1).push(
            s@[i - 1],
        ));
    }
    assert(r@ == rest.take(end - start));
    r
}


/// A line as `str::lines` yields it: without its `'\n'` and without a `'\r'` just
/// before that `'\n'`.
pub open spec fn strip_cr(line: Seq<char>) -> Seq<char> {
    if line.len() > 0 && line.last() == '\r' {
        line.drop_last()
    } else {
        line
    }
}

/// The lines of `rest`, where `cur` holds the characters of the current line read so
/// far: a `'\n'` ends a line; a final line without `'\n'` counts only when it is not
/// empty.
pub open spec fn lines_from(rest: Seq<char>, cur: Seq<char>) -> Seq<Seq<char>>
    decreases rest.len(),
{
    if rest.len() == 0 {
        if cur.len() == 0 {
            seq![]
        } else {
            seq![cur]
        }
    } else if rest[0] == '\n' {
        seq![strip_cr(cur)] + lines_from(rest.drop_first(), seq![])
    } else {
        lines_from(rest.drop_first(), cur.push(rest[0]))
    }
}

/// The lines of `s`, as `str::lines` yields them.
pub open spec fn lines_of(s: Seq<char>) -> Seq<Seq<char>> {
    lines_from(s, seq![])
}

/// The lines of `s`, as `str::lines` yields them.
pub fn split_lines(s: &Vec<char>) -> (r: Vec<Vec<char>>)
    ensures
        r@.len() == lines_of(s@).len(),
        forall|k: int| 0 <= k < r@.len() ==> #[trigger] r@[k]@ == lines_of(s@)[k],
{
    let mut r: Vec<Vec<char>> = Vec::new();
    let ghost mut done: Seq<Seq<char>> = seq![];
    let mut cur: Vec<char> = Vec::new();
    let mut i: usize = 0;
    assert(s@.skip(0) =~= s@);
    assert(done + lines_of(s@) =~= lines_of(s@));
    while i < s.len()
        invariant
            i <= s.len(),
            r@.len() == done.len(),
            forall|k: int| 0 <= k < r@.len() ==> #[trigger] r@[k]@ == done[k],
            lines_of(s@) == done + lines_from(s@.skip(i as int), cur@),
        decreases s.len() - i,
    {
        let c = s[i];
        let ghost rest = s@.skip(i as int);
        assert(rest.drop_first() == s@.skip(i + 1));
        if c == '\n' {
            let ghost before = cur@;
            let n = cur.len();
            if n > 0 && cur[n - 1] == '\r' {
                cur.pop();
            }
            proof {
                done = done.push(cur@);
                assert(lines_from(rest, before) =~= seq![cur@] + lines_from(
                    rest.drop_first(),
                    seq![],
                )) by {
                    reveal_with_fuel(lines_from, 1);
                }
            }
            r.push(cur);
            cur = Vec::new();
            assert(done + lines_from(s@.skip(i + 1), cur@) =~= (done.drop_last() + seq![
                done.last(),
            ]) + lines_from(s@.skip(i + 1), cur@));
        } else {
            cur.push(c);
        }
        i = i + 1;
    }
    assert(s@.skip(i as int) =~= Seq::<char>::empty());
    if cur.len() > 0 {
        proof {
            done = done.push(cur@);
        }
        r.push(cur);
    }
    r
}


/// The number of bytes of the UTF-8 encoding of `c`.
pub open spec fn utf8_width(c: char) -> nat {
    let v = c as u32;
    if v < 0x80 {
        1
    } else if v < 0x800 {
        2
    } else if v < 0x10000 {
        3
    } else {
        4
    }
}

/// The number of bytes of the UTF-8 encoding of `s`: what `str::len` returns.
pub open spec fn byte_len(s: Seq<char>) -> nat
    decreases s.len(),
{
    if s.len() == 0 {
        0
    } else {
        utf8_width(s[0]) + byte_len(s.drop_first())
    }
}

/// The number of characters of `s` whose encoding fills exactly the first `b` bytes,
/// or `None` when byte `b` falls inside a character or past the end: `Some(_)`
/// exactly when `b` is a character boundary, where `str` may be cut.
pub open spec fn char_index_at_byte(s: Seq<char>, b: int) -> Option<nat>
    decreases s.len(),
{
    if b == 0 {
        Some(0)
    } else if s.len() == 0 || b < 0 {
        None
    } else {
        match char_index_at_byte(s.drop_first(), b - utf8_width(s[0])) {
            Some(k) => Some(k + 1),
            None => None,
        }
    }
}

/// Whether byte offset `b` is a character boundary of `s`.
pub open spec fn is_boundary(s: Seq<char>, b: int) -> bool {
    char_index_at_byte(s, b) is Some
}

/// The characters of `s` before byte offset `b`, for a boundary `b`.
pub open spec fn before_byte(s: Seq<char>, b: int) -> Seq<char> {
    s.take(char_index_at_byte(s, b).unwrap() as int)
}

/// The characters of `s` from byte offset `b` on, for a boundary `b`.
pub open spec fn from_byte(s: Seq<char>, b: int) -> Seq<char> {
    s.skip(char_index_at_byte(s, b).unwrap() as int)
}

/// `byte_len` agrees with the length of vstd's model of the UTF-8 encoding, which
/// vstd gives as the result of `str::len`.
pub proof fn lemma_byte_len_is_encoded_len(s: Seq<char>)
    ensures
        byte_len(s) == vstd::utf8::encode_utf8(s).len(),
    decreases s.len(),
{
    if s.len() > 0 {
        lemma_byte_len_is_encoded_len(s.drop_first());
        vstd::utf8::char_is_scalar(s[0]);
    }
}

/// A boundary splits the characters into a prefix of exactly `b` bytes.
pub proof fn lemma_char_index_at_byte(s: Seq<char>, b: int)
    requires
        is_boundary(s, b),
    ensures
        char_index_at_byte(s, b).unwrap() <= s.len(),
        byte_len(before_byte(s, b)) == b,
    decreases s.len(),
{
    if b != 0 {
        let w = utf8_width(s[0]);
        lemma_char_index_at_byte(s.drop_first(), b - w);
        let k = char_index_at_byte(s.drop_first(), b - w).unwrap();
        assert(s.take(k + 1 as int).drop_first() =~= s.drop_first().take(k as int));
    } else {
        assert(s.take(0).len() == 0);
    }
}

/// The number of UTF-8 bytes of `c`.
pub fn width_of(c: char) -> (w: usize)
    ensures
        w == utf8_width(c),
        1 <= w <= 4,
{
    let v = c as u32;
    if v < 0x80 {
        1
    } else if v < 0x800 {
        2
    } else if v < 0x10000 {
        3
    } else {
        4
    }
}

/// The number of characters before byte offset `b` of `s`, when `b` is a character
/// boundary of `s`.
pub fn char_index_of_byte(s: &Vec<char>, b: usize) -> (r: Option<usize>)
    ensures
        match r {
            Some(k) => char_index_at_byte(s@, b as int) == Some(k as nat),
            None => char_index_at_byte(s@, b as int) is None,
        },
{
    let mut i: usize = 0;
    let mut acc: usize = 0;
    assert(s@.skip(0) =~= s@);
    while i < s.len()
        invariant
            i <= s.len(),
            acc <= b,
            char_index_at_byte(s@, b as int) == (match char_index_at_byte(
                s@.skip(i as int),
                b - acc,
            ) {
                Some(k) => Some((k + i) as nat),
                None => None,
            }),
        decreases s.len() - i,
    {
        if acc == b {
            return Some(i);
        }
        let w = width_of(s[i]);
        assert(s@.skip(i as int).drop_first() =~= s@.skip(i + 1));
        assert(s@.skip(i as int)[0] == s@[i as int]);
        if w > b - acc {
            assert(char_index_at_byte(s@.skip(i + 1), b - acc - w) is None);
            return None;
        }
        acc = acc + w;
        i = i + 1;
    }
    assert(s@.skip(i as int) =~= Seq::<char>::empty());
    if acc == b {
        Some(i)
    } else {
        None
    }
}

/// Whether byte offset `b` is a character boundary of `s`, as `str::is_char_boundary`
/// tells it.
pub fn is_char_boundary(s: &str, b: usize) -> (r: bool)
    ensures
        r == is_boundary(s@, b as int),
{
    let cs = chars_of(s);
    char_index_of_byte(&cs, b).is_some()
}

/// Three dots, marking text cut short.
pub open spec fn ellipsis() -> Seq<char> {
    seq!['.', '.', '.']
}

/// `s` cut down to its first `keep` bytes and marked with "..." when it is longer
/// than `limit` bytes; `s` itself otherwise.
pub open spec fn shortened(s: Seq<char>, limit: nat, keep: nat) -> Seq<char> {
    if byte_len(s) > limit {
        before_byte(s, keep as int) + ellipsis()
    } else {
        s
    }
}

/// Whether the UTF-8 encoding of `s` takes more than `limit` bytes.
pub fn longer_than(s: &Vec<char>, limit: usize) -> (r: bool)
    ensures
        r == (byte_len(s@) > limit),
{
    let mut i: usize = 0;
    let mut acc: usize = 0;
    assert(s@.skip(0) =~= s@);
    while i < s.len()
        invariant
            i <= s.len(),
            acc <= limit,
            byte_len(s@) == acc + byte_len(s@.skip(i as int)),
        decreases s.len() - i,
    {
        let w = width_of(s[i]);
        assert(s@.skip(i as int).drop_first() =~= s@.skip(i + 1));
        assert(s@.skip(i as int)[0] == s@[i as int]);
        if w > limit - acc {
            return true;
        }
        acc = acc + w;
        i = i + 1;
    }
    assert(s@.skip(i as int) =~= Seq::<char>::empty());
    false
}

/// `s`, cut down to its first `keep` bytes followed by "..." when it is longer than
/// `limit` bytes, as `format!("{}...", &s[..keep])` does.
pub fn shorten(s: &str, limit: usize, keep: usize) -> (r: String)
    requires
        byte_len(s@) > limit ==> is_boundary(s@, keep as int),
    ensures
        r@ == shortened(s@, limit as nat, keep as nat),
{
    let cs = chars_of(s);
    if longer_than(&cs, limit) {
        let k = char_index_of_byte(&cs, keep).unwrap();
        proof {
            lemma_char_index_at_byte(s@, keep as int);
        }
        let mut out: Vec<char> = Vec::new();
        let mut i: usize = 0;
        while i < k
            invariant
                i <= k <= cs.len(),
                out@ == cs@.take(i as int),
            decreases k - i,
        {
            out.push(cs[i]);
            i = i + 1;
            assert(cs@.take(i as int) =~= cs@.take(i - 1).push(cs@[i - 1]));
        }
        out.push('.');
        out.push('.');
        out.push('.');
        string_from(&out)
    } else {
        string_from(&cs)
    }
}


/// The character sequences of a list of strings.
pub open spec fn text_lines(v: Seq<String>) -> Seq<Seq<char>> {
    v.map_values(|l: String| l@)
}

/// The lines of `s` as strings, as `s.lines().map(|l| l.to_string()).collect()`
/// gives them.
pub fn lines_of_str(s: &str) -> (r: Vec<String>)
    ensures
        text_lines(r@) == lines_of(s@),
{
    let cs = chars_of(s);
    let parts = split_lines(&cs);
    let mut r: Vec<String> = Vec::new();
    let mut i: usize = 0;
    while i < parts.len()
        invariant
            i <= parts.len(),
            parts@.len() == lines_of(s@).len(),
            cs@ == s@,
            forall|k: int| 0 <= k < parts@.len() ==> #[trigger] parts@[k]@ == lines_of(s@)[k],
            r@.len() == i,
            forall|k: int| 0 <= k < i ==> #[trigger] r@[k]@ == lines_of(s@)[k],
        decreases parts.len() - i,
    {
        r.push(string_from(&parts[i]));
        i = i + 1;
    }
    assert(text_lines(r@) =~= lines_of(s@));
    r
}


/// Whether `rest` begins with `prefix`.
pub open spec fn begins_with(rest: Seq<char>, prefix: Seq<char>) -> bool {
    prefix.len() <= rest.len() && rest.take(prefix.len() as int) == prefix
}

/// The pieces of `rest` between the occurrences of `sep`, found from left to right
/// without overlap, where `cur` holds the piece read so far.
pub open spec fn split_from(rest: Seq<char>, cur: Seq<char>, sep: Seq<char>) -> Seq<Seq<char>>
    decreases rest.len(),
{
    if rest.len() == 0 {
        seq![cur]
    } else if sep.len() > 0 && begins_with(rest, sep) {
        seq![cur] + split_from(rest.skip(sep.len() as int), seq![], sep)
    } else {
        split_from(rest.drop_first(), cur.push(rest[0]), sep)
    }
}

/// The pieces of `s` between the occurrences of a non-empty `sep`, as `str::split`
/// yields them.
pub open spec fn split_on(s: Seq<char>, sep: Seq<char>) -> Seq<Seq<char>> {
    split_from(s, seq![], sep)
}

/// Whether `sep` occurs in `s` at position `i`.
pub fn occurs_at(s: &Vec<char>, i: usize, sep: &Vec<char>) -> (r: bool)
    requires
        i <= s.len(),
    ensures
        r == begins_with(s@.skip(i as int), sep@),
{
    if sep.len() > s.len() - i {
        return false;
    }
    let mut j: usize = 0;
    while j < sep.len()
        invariant
            i + sep.len() <= s.len(),
            j <= sep.len(),
            forall|k: int| 0 <= k < j ==> s@[i + k] == sep@[k],
        decreases sep.len() - j,
    {
        if s[i + j] != sep[j] {
            assert(s@.skip(i as int).take(sep.len() as int)[j as int] != sep@[j as int]);
            return false;
        }
        j = j + 1;
    }
    assert(s@.skip(i as int).take(sep.len() as int) =~= sep@);
    true
}

/// The pieces of `s` between the occurrences of `sep`, as `s.split(sep)` yields
/// them.
pub fn split_str(s: &str, sep: &str) -> (r: Vec<String>)
    requires
        sep@.len() > 0,
    ensures
        text_lines(r@) == split_on(s@, sep@),
{
    let cs = chars_of(s);
    let sp = chars_of(sep);
    let mut r: Vec<String> = Vec::new();
    let ghost mut done: Seq<Seq<char>> = seq![];
    let mut cur: Vec<char> = Vec::new();
    let mut i: usize = 0;
    assert(cs@.skip(0) =~= cs@);
    assert(done + split_on(s@, sep@) =~= split_on(s@, sep@));
    while i < cs.len()
        invariant
            i <= cs.len(),
            cs@ == s@,
            sp@ == sep@,
            sep@.len() > 0,
            text_lines(r@) == done,
            split_on(s@, sep@) == done + split_from(cs@.skip(i as int), cur@, sep@),
        decreases cs.len() - i,
    {
        let ghost rest = cs@.skip(i as int);
        if occurs_at(&cs, i, &sp) {
            assert(rest.skip(sep@.len() as int) =~= cs@.skip(i + sp.len()));
            proof {
                done = done.push(cur@);
            }
            r.push(string_from(&cur));
            assert(text_lines(r@) =~= done);
            cur = Vec::new();
            assert(done + split_from(cs@.skip(i + sp.len()), cur@, sep@) =~= (done.drop_last()
                + seq![done.last()]) + split_from(cs@.skip(i + sp.len()), seq![], sep@));
            i = i + sp.len();
        } else {
            assert(rest.drop_first() =~= cs@.skip(i + 1));
            cur.push(cs[i]);
            i = i + 1;
        }
    }
    assert(cs@.skip(i as int) =~= Seq::<char>::empty());
    proof {
        done = done.push(cur@);
    }
    r.push(string_from(&cur));
    assert(text_lines(r@) =~= done);
    r
}


/// The pieces joined with `'\n'` between consecutive ones, as
/// `pieces.join("\n")` joins them.
pub open spec fn join_lines(pieces: Seq<Seq<char>>) -> Seq<char>
    decreases pieces.len(),
{
    if pieces.len() == 0 {
        seq![]
    } else if pieces.len() == 1 {
        pieces[0]
    } else {
        join_lines(pieces.drop_last()) + seq!['\n'] + pieces.last()
    }
}

/// The pieces joined with `'\n'` between consecutive ones.
pub fn join_with_newlines(pieces: &Vec<Vec<char>>) -> (r: Vec<char>)
    ensures
        r@ == join_lines(pieces@.map_values(|p: Vec<char>| p@)),
{
    let ghost views = pieces@.map_values(|p: Vec<char>| p@);
    let mut out: Vec<char> = Vec::new();
    let mut i: usize = 0;
    assert(views.take(0) =~= Seq::<Seq<char>>::empty());
    while i < pieces.len()
        invariant
            i <= pieces@.len(),
            views == pieces@.map_values(|p: Vec<char>| p@),
            out@ == join_lines(views.take(i as int)),
        decreases pieces.len() - i,
    {
        if i > 0 {
            out.push('\n');
        }
        push_chars(&mut out, &pieces[i]);
        assert(views.take(i + 1).drop_last() =~= views.take(i as int));
        assert(views.take(i + 1).last() == pieces@[i as int]@);
        if i == 0 {
            assert(views.take(1) =~= seq![pieces@[0]@]);
        }
        i = i + 1;
    }
    assert(views.take(pieces.len() as int) =~= views);
    out
}

/// Whether `c` occurs in `s`.
pub fn contains_char(s: &Vec<char>, c: char) -> (r: bool)
    ensures
        r == s@.contains(c),
{
    let mut i: usize = 0;
    while i < s.len()
        invariant
            i <= s.len(),
            forall|j: int| 0 <= j < i ==> s@[j] != c,
        decreases s.len() - i,
    {
        if s[i] == c {
            assert(s@[i as int] == c);
            return true;
        }
        i = i + 1;
    }
    false
}

} // verus!
