//! Character-level text utilities with specifications over `Seq<char>`.
//!
//! Every function here states its result as a spec function over the
//! character sequences of its arguments, so that callers can reason about
//! the exact text that the manager builds or reads.
use vstd::prelude::*;

verus! {

/// `String::push` appends one character to the end of the string.
pub assume_specification[ String::push ](s: &mut String, ch: char)
    ensures
        final(s)@ == old(s)@.push(ch),
;

// ---------------------------------------------------------------------------
// Specifications
// ---------------------------------------------------------------------------
/// The ASCII character of a decimal digit.
pub open spec fn digit_char(d: nat) -> char
    recommends
        d < 10,
{
    (48 + d) as char
}

/// The decimal representation of a natural number, without leading zeros.
pub open spec fn dec(n: nat) -> Seq<char>
    decreases n,
{
    if n < 10 {
        seq![digit_char(n)]
    } else {
        dec(n / 10).push(digit_char(n % 10))
    }
}

/// The lower-case hexadecimal digit of a value below sixteen.
pub open spec fn hex_digit(d: nat) -> char
    recommends
        d < 16,
{
    if d < 10 {
        (48 + d) as char
    } else {
        (87 + d) as char
    }
}

/// A byte as two lower-case hexadecimal digits (`{:02x}`).
pub open spec fn hex2(b: u8) -> Seq<char> {
    seq![hex_digit((b / 16) as nat), hex_digit((b % 16) as nat)]
}

/// The lower-case hexadecimal encoding of a byte sequence, two digits per byte.
pub open spec fn hex_lower(bytes: Seq<u8>) -> Seq<char>
    decreases bytes.len(),
{
    if bytes.len() == 0 {
        Seq::empty()
    } else {
        hex_lower(bytes.drop_last()) + hex2(bytes.last())
    }
}

/// The texts of a sequence of strings.
pub open spec fn views(v: Seq<String>) -> Seq<Seq<char>> {
    v.map_values(|s: String| s@)
}

/// Each piece with a prefix in front of it.
pub open spec fn prefixed(items: Seq<Seq<char>>, p: Seq<char>) -> Seq<Seq<char>> {
    items.map_values(|x: Seq<char>| p + x)
}

/// The pieces joined with the separator between consecutive pieces.
pub open spec fn join(parts: Seq<Seq<char>>, sep: Seq<char>) -> Seq<char>
    decreases parts.len(),
{
    if parts.len() == 0 {
        Seq::empty()
    } else if parts.len() == 1 {
        parts[0]
    } else {
        join(parts.drop_last(), sep) + sep + parts.last()
    }
}

/// The pieces of `s` between the characters that satisfy `is_sep`
/// (a text with `k` separators has `k + 1` pieces; the empty text has one).
pub open spec fn split_by(s: Seq<char>, is_sep: spec_fn(char) -> bool) -> Seq<Seq<char>>
    decreases s.len(),
{
    if s.len() == 0 {
        seq![Seq::empty()]
    } else {
        let parts = split_by(s.drop_last(), is_sep);
        if is_sep(s.last()) {
            parts.push(Seq::empty())
        } else {
            parts.update(parts.len() - 1, parts.last().push(s.last()))
        }
    }
}

/// The separator test that matches one character.
pub open spec fn char_sep(c: char) -> spec_fn(char) -> bool {
    |x: char| x == c
}

/// The separator test that matches white space.
pub open spec fn ws_sep() -> spec_fn(char) -> bool {
    |x: char| is_ws(x)
}

/// The pieces of `s` between occurrences of `c` (as `str::split` with a `char`).
pub open spec fn split(s: Seq<char>, c: char) -> Seq<Seq<char>> {
    split_by(s, char_sep(c))
}

/// Whether a character is Unicode white space (as `char::is_whitespace`).
pub open spec fn is_ws(c: char) -> bool {
    ||| c == '\t'
    ||| c == '\n'
    ||| c == '\u{b}'
    ||| c == '\u{c}'
    ||| c == '\r'
    ||| c == ' '
    ||| c == '\u{85}'
    ||| c == '\u{a0}'
    ||| c == '\u{1680}'
    ||| ('\u{2000}' <= c && c <= '\u{200a}')
    ||| c == '\u{2028}'
    ||| c == '\u{2029}'
    ||| c == '\u{202f}'
    ||| c == '\u{205f}'
    ||| c == '\u{3000}'
}

/// The pieces that are not empty, in order.
pub open spec fn nonempty(parts: Seq<Seq<char>>) -> Seq<Seq<char>>
    decreases parts.len(),
{
    if parts.len() == 0 {
        Seq::empty()
    } else if parts.last().len() == 0 {
        nonempty(parts.drop_last())
    } else {
        nonempty(parts.drop_last()).push(parts.last())
    }
}

/// The words of `s` (as `str::split_whitespace`).
pub open spec fn words(s: Seq<char>) -> Seq<Seq<char>> {
    nonempty(split_by(s, ws_sep()))
}

/// A line with one trailing carriage return removed.
pub open spec fn strip_cr(line: Seq<char>) -> Seq<char> {
    if line.len() > 0 && line.last() == '\r' {
        line.drop_last()
    } else {
        line
    }
}

/// The lines of `s` (as `str::lines`): the text is cut after each `'\n'`;
/// a line that ended with `"\r\n"` loses the `'\r'` too; a last piece that is
/// empty (after a final `'\n'`, or of an empty text) is no line.
pub open spec fn lines(s: Seq<char>) -> Seq<Seq<char>> {
    let p = split(s, '\n');
    let ended = p.drop_last().map_values(|l: Seq<char>| strip_cr(l));
    if p.last().len() == 0 {
        ended
    } else {
        ended.push(p.last())
    }
}

/// `s` without leading white space.
pub open spec fn trim_start(s: Seq<char>) -> Seq<char>
    decreases s.len(),
{
    if s.len() > 0 && is_ws(s[0]) {
        trim_start(s.drop_first())
    } else {
        s
    }
}

/// `s` without trailing white space.
pub open spec fn trim_end(s: Seq<char>) -> Seq<char>
    decreases s.len(),
{
    if s.len() > 0 && is_ws(s.last()) {
        trim_end(s.drop_last())
    } else {
        s
    }
}

/// `s` without leading and trailing white space (as `str::trim`).
pub open spec fn trim(s: Seq<char>) -> Seq<char> {
    trim_end(trim_start(s))
}

/// Whether `s` begins with `p`.
pub open spec fn starts_with(s: Seq<char>, p: Seq<char>) -> bool {
    p.len() <= s.len() && s.take(p.len() as int) == p
}

/// Whether `s` ends with `p`.
pub open spec fn ends_with(s: Seq<char>, p: Seq<char>) -> bool {
    p.len() <= s.len() && s.skip(s.len() - p.len()) == p
}

/// Whether `p` occurs in `s` at position `i`.
pub open spec fn occurs_at(s: Seq<char>, p: Seq<char>, i: int) -> bool {
    0 <= i && i + p.len() <= s.len() && s.subrange(i, i + p.len()) == p
}

/// Whether `p` occurs anywhere in `s`.
pub open spec fn contains_text(s: Seq<char>, p: Seq<char>) -> bool {
    exists|i: int| occurs_at(s, p, i)
}

/// The number of bytes of a character in UTF-8.
pub open spec fn utf8_len(c: char) -> nat {
    if '\u{80}' > c {
        1
    } else if '\u{800}' > c {
        2
    } else if '\u{10000}' > c {
        3
    } else {
        4
    }
}

/// The number of bytes of a text in UTF-8 (as `str::len`).
pub open spec fn byte_len(s: Seq<char>) -> nat
    decreases s.len(),
{
    if s.len() == 0 {
        0
    } else {
        byte_len(s.drop_last()) + utf8_len(s.last())
    }
}

/// The number of characters in the longest beginning of `s` whose UTF-8
/// form has at most `n` bytes.
pub open spec fn chars_within(s: Seq<char>, n: nat) -> nat
    decreases s.len(),
{
    if byte_len(s) <= n {
        s.len()
    } else {
        chars_within(s.drop_last(), n)
    }
}

/// The first `n` bytes of `s`, as `&s[..n]` where `n` falls between
/// characters.
pub open spec fn byte_prefix(s: Seq<char>, n: nat) -> Seq<char> {
    s.take(chars_within(s, n) as int)
}

/// Whether `&s[..n]` is allowed: `n` is at most the byte length of `s` and
/// falls between two characters (as `str::is_char_boundary`).
pub open spec fn is_char_boundary(s: Seq<char>, n: nat) -> bool {
    n <= byte_len(s) && byte_len(byte_prefix(s, n)) == n
}

/// Why a text is not an unsigned integer (as `std::num::IntErrorKind`).
#[derive(Debug, Clone, Copy, PartialEq, Eq, Structural)]
pub enum IntErrorKind {
    /// The text is empty.
    Empty,
    /// The text holds a character that is not a decimal digit.
    InvalidDigit,
    /// The number is above the largest value of the type.
    PosOverflow,
}

/// Whether a character is an ASCII decimal digit.
pub open spec fn is_digit(c: char) -> bool {
    '0' <= c && c <= '9'
}

/// The value of an ASCII decimal digit.
pub open spec fn digit_value(c: char) -> nat {
    (c as u32 - 48) as nat
}

/// Reads the decimal digits of `s` after the value `acc` read so far, up to
/// `max`: the first character that is no digit is an invalid digit, and the
/// first digit that takes the value above `max` an overflow.
pub open spec fn scan_digits(s: Seq<char>, acc: nat, max: nat) -> Result<nat, IntErrorKind>
    decreases s.len(),
{
    if s.len() == 0 {
        Ok(acc)
    } else if !is_digit(s[0]) {
        Err(IntErrorKind::InvalidDigit)
    } else if acc * 10 + digit_value(s[0]) > max {
        Err(IntErrorKind::PosOverflow)
    } else {
        scan_digits(s.drop_first(), acc * 10 + digit_value(s[0]), max)
    }
}

/// An unsigned integer read from text with `str::parse` for a type whose
/// largest value is `max`: an optional `+`, then decimal digits.
pub open spec fn parse_uint(s: Seq<char>, max: nat) -> Result<nat, IntErrorKind> {
    if s.len() == 0 {
        Err(IntErrorKind::Empty)
    } else if (s[0] == '+' || s[0] == '-') && s.len() == 1 {
        Err(IntErrorKind::InvalidDigit)
    } else if s[0] == '+' {
        scan_digits(s.drop_first(), 0, max)
    } else {
        scan_digits(s, 0, max)
    }
}

/// The message of a parse error (as `ParseIntError`'s `Display`).
pub open spec fn int_error_message(k: IntErrorKind) -> Seq<char> {
    match k {
        IntErrorKind::Empty => "cannot parse integer from empty string"@,
        IntErrorKind::InvalidDigit => "invalid digit found in string"@,
        IntErrorKind::PosOverflow => "number too large to fit in target type"@,
    }
}

// ---------------------------------------------------------------------------
// Lemmas
// ---------------------------------------------------------------------------
/// Different bytes have different hexadecimal digits.
pub proof fn lemma_hex2_injective(x: u8, y: u8)
    ensures
        hex2(x) == hex2(y) ==> x == y,
{
    if hex2(x) == hex2(y) {
        assert(hex2(x)[0] == hex2(y)[0] && hex2(x)[1] == hex2(y)[1]);
        let (a, b) = ((x / 16) as nat, (y / 16) as nat);
        let (c, d) = ((x % 16) as nat, (y % 16) as nat);
        assert(hex_digit(a) as int == (if a < 10 { 48 + a } else { 87 + a }));
        assert(hex_digit(b) as int == (if b < 10 { 48 + b } else { 87 + b }));
        assert(hex_digit(c) as int == (if c < 10 { 48 + c } else { 87 + c }));
        assert(hex_digit(d) as int == (if d < 10 { 48 + d } else { 87 + d }));
    }
}

/// A number read from digits is no larger than the bound.
pub proof fn lemma_scan_digits_bound(s: Seq<char>, acc: nat, max: nat)
    requires
        acc <= max,
    ensures
        scan_digits(s, acc, max) matches Ok(v) ==> v <= max,
    decreases s.len(),
{
    if s.len() > 0 && is_digit(s[0]) && acc * 10 + digit_value(s[0]) <= max {
        lemma_scan_digits_bound(s.drop_first(), acc * 10 + digit_value(s[0]), max);
    }
}

/// A number read from text is no larger than the bound.
pub proof fn lemma_parse_uint_bound(s: Seq<char>, max: nat)
    ensures
        parse_uint(s, max) matches Ok(v) ==> v <= max,
{
    lemma_scan_digits_bound(s, 0, max);
    if s.len() > 0 {
        lemma_scan_digits_bound(s.drop_first(), 0, max);
    }
}
/// A decimal representation has at least one digit.
pub proof fn lemma_dec_nonempty(n: nat)
    ensures
        dec(n).len() >= 1,
    decreases n,
{
    if n >= 10 {
        lemma_dec_nonempty(n / 10);
    }
}

/// Every piece of a split is free of separators.
pub proof fn lemma_split_by_pieces(s: Seq<char>, is_sep: spec_fn(char) -> bool)
    ensures
        split_by(s, is_sep).len() >= 1,
        forall|k: int, j: int|
            0 <= k < split_by(s, is_sep).len() && 0 <= j < split_by(s, is_sep)[k].len() ==> !is_sep(
                #[trigger] split_by(s, is_sep)[k][j],
            ),
    decreases s.len(),
{
    if s.len() > 0 {
        lemma_split_by_pieces(s.drop_last(), is_sep);
        let parts = split_by(s.drop_last(), is_sep);
        if !is_sep(s.last()) {
            let np = split_by(s, is_sep);
            assert forall|k: int, j: int| 0 <= k < np.len() && 0 <= j < np[k].len() implies !is_sep(
                #[trigger] np[k][j],
            ) by {
                if k == parts.len() - 1 {
                    if j < parts.last().len() {
                        assert(np[k][j] == parts[k][j]);
                    }
                }
            }
        }
    }
}

/// The first piece of a split is a prefix of the text; it is the whole text
/// when there is one piece, and a separator follows it otherwise.
pub proof fn lemma_split_first_piece(s: Seq<char>, c: char)
    ensures
        split(s, c)[0].len() <= s.len(),
        s.take(split(s, c)[0].len() as int) == split(s, c)[0],
        split(s, c).len() == 1 ==> split(s, c)[0] == s,
        split(s, c).len() >= 2 ==> split(s, c)[0].len() < s.len() && s[split(s, c)[0].len() as int]
            == c,
    decreases s.len(),
{
    lemma_split_by_pieces(s, char_sep(c));
    if s.len() == 0 {
        assert(s.take(0) =~= s);
    } else {
        let d = s.drop_last();
        lemma_split_first_piece(d, c);
        lemma_split_by_pieces(d, char_sep(c));
        let parts = split(d, c);
        let p0 = parts[0];
        assert(d.take(p0.len() as int) =~= s.take(p0.len() as int));
        if s.last() == c {
            assert(split(s, c) == parts.push(Seq::empty()));
            assert(split(s, c)[0] == p0);
        } else {
            assert(split(s, c) == parts.update(parts.len() - 1, parts.last().push(s.last())));
            if parts.len() == 1 {
                assert(split(s, c)[0] == p0.push(s.last()));
                assert(d.push(s.last()) =~= s);
                assert(s.take(s.len() as int) =~= s);
            } else {
                assert(split(s, c)[0] == p0);
            }
        }
    }
}

/// One more character adds its UTF-8 bytes.
pub proof fn lemma_byte_len_step(s: Seq<char>, i: int)
    requires
        0 <= i < s.len(),
    ensures
        byte_len(s.take(i + 1)) == byte_len(s.take(i)) + utf8_len(s[i]),
{
    assert(s.take(i + 1).drop_last() =~= s.take(i));
}

/// A longer beginning has at least as many bytes.
pub proof fn lemma_byte_len_monotone(s: Seq<char>, i: int, j: int)
    requires
        0 <= i <= j <= s.len(),
    ensures
        byte_len(s.take(i)) <= byte_len(s.take(j)),
    decreases j - i,
{
    if i < j {
        lemma_byte_len_monotone(s, i, j - 1);
        lemma_byte_len_step(s, j - 1);
    }
}

/// The longest beginning within `n` bytes has `i` characters when `i`
/// characters fit and `i + 1` do not.
pub proof fn lemma_chars_within(s: Seq<char>, n: nat, i: int)
    requires
        0 <= i <= s.len(),
        byte_len(s.take(i)) <= n,
        i == s.len() || byte_len(s.take(i + 1)) > n,
    ensures
        chars_within(s, n) == i,
    decreases s.len(),
{
    if i == s.len() {
        assert(s.take(i) =~= s);
    } else {
        assert(s.take(s.len() as int) =~= s);
        lemma_byte_len_monotone(s, i + 1, s.len() as int);
        let t = s.drop_last();
        assert(t.take(i) =~= s.take(i));
        if i + 1 <= t.len() {
            assert(t.take(i + 1) =~= s.take(i + 1));
        }
        lemma_chars_within(t, n, i);
    }
}

/// Cutting a text that follows a separator: the pieces of the first part
/// but its last (empty) one, then the pieces of the second.
pub proof fn lemma_split_by_append(a: Seq<char>, b: Seq<char>, is_sep: spec_fn(char) -> bool)
    requires
        a.len() > 0,
        is_sep(a.last()),
    ensures
        split_by(a + b, is_sep) == split_by(a, is_sep).drop_last() + split_by(b, is_sep),
    decreases b.len(),
{
    if b.len() == 0 {
        assert(a + b =~= a);
        assert(a.drop_last().push(a.last()) =~= a);
        assert(split_by(a, is_sep) == split_by(a.drop_last(), is_sep).push(Seq::empty()));
        assert(split_by(a, is_sep).drop_last() + seq![Seq::<char>::empty()] =~= split_by(
            a,
            is_sep,
        ));
    } else {
        lemma_split_by_append(a, b.drop_last(), is_sep);
        assert((a + b).drop_last() =~= a + b.drop_last());
        assert((a + b).last() == b.last());
        lemma_split_by_pieces(b.drop_last(), is_sep);
        let front = split_by(a, is_sep).drop_last();
        let back = split_by(b.drop_last(), is_sep);
        if is_sep(b.last()) {
            assert((front + back).push(Seq::empty()) =~= front + back.push(Seq::empty()));
        } else {
            let parts = front + back;
            assert(parts.update(parts.len() - 1, parts.last().push(b.last())) =~= front
                + back.update(back.len() - 1, back.last().push(b.last())));
        }
    }
}

/// A text without separators is a single piece.
pub proof fn lemma_split_by_no_sep(s: Seq<char>, is_sep: spec_fn(char) -> bool)
    requires
        forall|j: int| 0 <= j < s.len() ==> !is_sep(#[trigger] s[j]),
    ensures
        split_by(s, is_sep) == seq![s],
    decreases s.len(),
{
    if s.len() > 0 {
        assert forall|j: int| 0 <= j < s.drop_last().len() implies !is_sep(
            #[trigger] s.drop_last()[j],
        ) by {
            assert(s.drop_last()[j] == s[j]);
        }
        assert(!is_sep(s[s.len() - 1]));
        lemma_split_by_no_sep(s.drop_last(), is_sep);
        assert(s.drop_last().push(s.last()) =~= s);
        assert(split_by(s, is_sep) =~= seq![s]);
    } else {
        assert(s =~= Seq::<char>::empty());
    }
}

// ---------------------------------------------------------------------------
// Conversions between strings and character vectors
// ---------------------------------------------------------------------------
/// Copies the characters of a string slice into a vector.
pub fn chars_of(s: &str) -> (v: Vec<char>)
    ensures
        v@ == s@,
{
    let mut v: Vec<char> = Vec::new();
    for c in it: s.chars()
        invariant
            it.seq() == s@,
            v@ == it.seq().take(it.index() as int),
    {
        v.push(c);
    }
    v
}

/// Builds a string from a slice of characters.
pub fn string_of(cs: &[char]) -> (s: String)
    ensures
        s@ == cs@,
{
    let mut s = String::new();
    let n = cs.len();
    for i in 0..n
        invariant
            n == cs@.len(),
            s@ == cs@.take(i as int),
    {
        s.push(cs[i]);
        assert(cs@.take(i + 1) =~= cs@.take(i as int).push(cs@[i as int]));
    }
    assert(cs@.take(n as int) =~= cs@);
    s
}

/// Appends a line to a list of lines.
pub fn push_line(lines: &mut Vec<String>, line: String)
    ensures
        views(final(lines)@) == views(old(lines)@).push(line@),
{
    lines.push(line);
    assert(views(lines@) =~= views(old(lines)@).push(line@));
}

/// Appends a list of lines to another.
pub fn append_lines(lines: &mut Vec<String>, more: Vec<String>)
    ensures
        views(final(lines)@) == views(old(lines)@) + views(more@),
{
    let ghost given = more@;
    let mut more = more;
    lines.append(&mut more);
    assert(views(lines@) =~= views(old(lines)@) + views(given));
}

/// Appends each item, with a prefix in front of it, to a list of lines.
pub fn push_prefixed(lines: &mut Vec<String>, prefix: &str, items: &Vec<String>)
    ensures
        views(final(lines)@) == views(old(lines)@) + prefixed(views(items@), prefix@),
{
    let n = items.len();
    let ghost start = views(lines@);
    for i in 0..n
        invariant
            n == items@.len(),
            views(lines@) == start + prefixed(views(items@).take(i as int), prefix@),
    {
        let mut l = prefix.to_owned();
        l.append(items[i].as_str());
        push_line(lines, l);
        assert(prefixed(views(items@).take(i + 1), prefix@) =~= prefixed(
            views(items@).take(i as int),
            prefix@,
        ).push(prefix@ + items@[i as int]@));
    }
    assert(views(items@).take(n as int) =~= views(items@));
}

// ---------------------------------------------------------------------------
// Numbers
// ---------------------------------------------------------------------------
/// The ASCII character of a decimal digit.
pub fn digit(d: u64) -> (c: char)
    requires
        d < 10,
    ensures
        c == digit_char(d as nat),
{
    let b: u8 = 48u8 + (d as u8);
    b as char
}

/// Appends the decimal representation of `n` to `s` (as `{}` formatting).
pub fn push_dec(s: &mut String, n: u64)
    ensures
        final(s)@ == old(s)@ + dec(n as nat),
    decreases n,
{
    if n >= 10 {
        push_dec(s, n / 10);
    }
    let c = digit(n % 10);
    s.push(c);
    proof {
        if n >= 10 {
            assert(dec(n as nat) == dec((n / 10) as nat).push(digit_char((n % 10) as nat)));
        }
    }
}

/// The decimal representation of `n` (as `n.to_string()`).
pub fn dec_string(n: u64) -> (s: String)
    ensures
        s@ == dec(n as nat),
{
    let mut s = String::new();
    push_dec(&mut s, n);
    assert(Seq::<char>::empty() + dec(n as nat) =~= dec(n as nat));
    s
}

/// The lower-case hexadecimal digit of a value below sixteen.
pub fn hex_char(d: u8) -> (c: char)
    requires
        d < 16,
    ensures
        c == hex_digit(d as nat),
{
    if d < 10 {
        (48u8 + d) as char
    } else {
        (87u8 + d) as char
    }
}

/// Appends a byte as two lower-case hexadecimal digits (as `{:02x}`).
pub fn push_hex2(s: &mut String, b: u8)
    ensures
        final(s)@ == old(s)@ + hex2(b),
{
    s.push(hex_char(b / 16));
    s.push(hex_char(b % 16));
    assert(old(s)@.push(hex_digit((b / 16) as nat)).push(hex_digit((b % 16) as nat)) =~= old(s)@
        + hex2(b));
}

/// Reads an unsigned integer no larger than `max` from text (as `str::parse`
/// for an unsigned type whose largest value is `max`).
pub fn parse_unsigned(s: &str, max: u64) -> (r: Result<u64, IntErrorKind>)
    ensures
        parse_uint(s@, max as nat) matches Ok(v) ==> v <= max,
        match parse_uint(s@, max as nat) {
            Ok(v) => r == Ok::<u64, IntErrorKind>(v as u64),
            Err(k) => r == Err::<u64, IntErrorKind>(k),
        },
{
    proof {
        lemma_parse_uint_bound(s@, max as nat);
    }
    let v = chars_of(s);
    let n = v.len();
    if n == 0 {
        return Err(IntErrorKind::Empty);
    }
    if (v[0] == '+' || v[0] == '-') && n == 1 {
        return Err(IntErrorKind::InvalidDigit);
    }
    let start: usize = if v[0] == '+' {
        1
    } else {
        0
    };
    let ghost digits = if v@[0] == '+' {
        s@.drop_first()
    } else {
        s@
    };
    assert(digits =~= s@.skip(start as int));
    let mut acc: u64 = 0;
    let mut i: usize = start;
    while i < n
        invariant
            v@ == s@,
            n == v@.len(),
            start <= i <= n,
            acc <= max,
            scan_digits(digits, 0, max as nat) == scan_digits(s@.skip(i as int), acc as nat, max as nat),
            digits =~= s@.skip(start as int),
            parse_uint(s@, max as nat) == scan_digits(digits, 0, max as nat),
        decreases n - i,
    {
        let c = v[i];
        assert(s@.skip(i as int)[0] == c);
        assert(s@.skip(i as int).drop_first() =~= s@.skip(i + 1));
        if !('0' <= c && c <= '9') {
            assert(!is_digit(s@.skip(i as int)[0]));
            assert(scan_digits(s@.skip(i as int), acc as nat, max as nat) == Err::<nat, IntErrorKind>(
                IntErrorKind::InvalidDigit,
            ));
            return Err(IntErrorKind::InvalidDigit);
        }
        let d: u64 = (c as u32 - 48) as u64;
        assert(d == digit_value(s@.skip(i as int)[0]));
        let next = match acc.checked_mul(10) {
            Some(m) => m.checked_add(d),
            None => None,
        };
        match next {
            Some(x) => {
                if x > max {
                    assert(scan_digits(s@.skip(i as int), acc as nat, max as nat) == Err::<
                        nat,
                        IntErrorKind,
                    >(IntErrorKind::PosOverflow));
                    return Err(IntErrorKind::PosOverflow);
                }
                acc = x;
            },
            None => {
                assert(acc * 10 + d > u64::MAX);
                assert(scan_digits(s@.skip(i as int), acc as nat, max as nat) == Err::<
                    nat,
                    IntErrorKind,
                >(IntErrorKind::PosOverflow));
                return Err(IntErrorKind::PosOverflow);
            },
        }
        i = i + 1;
    }
    assert(s@.skip(n as int) =~= Seq::<char>::empty());
    Ok(acc)
}

/// The message of a parse error (as `ParseIntError`'s `Display`).
pub fn int_error_text(k: IntErrorKind) -> (r: String)
    ensures
        r@ == int_error_message(k),
{
    match k {
        IntErrorKind::Empty => "cannot parse integer from empty string".to_owned(),
        IntErrorKind::InvalidDigit => "invalid digit found in string".to_owned(),
        IntErrorKind::PosOverflow => "number too large to fit in target type".to_owned(),
    }
}

// ---------------------------------------------------------------------------
// Comparisons and searches
// ---------------------------------------------------------------------------
/// Whether two texts are equal.
pub fn text_eq(a: &str, b: &str) -> (r: bool)
    ensures
        r == (a@ == b@),
{
    let va = chars_of(a);
    let vb = chars_of(b);
    if va.len() != vb.len() {
        return false;
    }
    let n = va.len();
    for i in 0..n
        invariant
            n == va@.len(),
            n == vb@.len(),
            va@ == a@,
            vb@ == b@,
            forall|j: int| 0 <= j < i ==> va@[j] == vb@[j],
    {
        if va[i] != vb[i] {
            return false;
        }
    }
    assert(va@ =~= vb@);
    true
}

/// The order of texts: character by character, by code point, a proper
/// prefix first (as `str`'s `Ord`, since UTF-8 keeps the order of code
/// points).
pub open spec fn text_lt(a: Seq<char>, b: Seq<char>) -> bool
    decreases a.len(),
{
    if a.len() == 0 {
        b.len() > 0
    } else if b.len() == 0 {
        false
    } else if a[0] != b[0] {
        (a[0] as int) < (b[0] as int)
    } else {
        text_lt(a.drop_first(), b.drop_first())
    }
}

/// No text comes before itself, and of two texts at most one comes first.
pub proof fn lemma_text_lt_strict(a: Seq<char>, b: Seq<char>)
    ensures
        !text_lt(a, a),
        text_lt(a, b) ==> !text_lt(b, a),
    decreases a.len(),
{
    if a.len() > 0 && b.len() > 0 {
        lemma_text_lt_strict(a.drop_first(), b.drop_first());
    }
    if a.len() > 0 {
        lemma_text_lt_strict(a.drop_first(), a.drop_first());
    }
}

/// Of two different texts, one comes first.
pub proof fn lemma_text_lt_total(a: Seq<char>, b: Seq<char>)
    ensures
        a != b ==> text_lt(a, b) || text_lt(b, a),
    decreases a.len(),
{
    if a.len() > 0 && b.len() > 0 && a[0] == b[0] {
        lemma_text_lt_total(a.drop_first(), b.drop_first());
        if a.drop_first() == b.drop_first() {
            assert(a =~= seq![a[0]] + a.drop_first());
            assert(b =~= seq![b[0]] + b.drop_first());
        }
    }
    if a.len() == 0 && b.len() == 0 {
        assert(a =~= b);
    }
}

/// The order of texts is transitive.
pub proof fn lemma_text_lt_transitive(a: Seq<char>, b: Seq<char>, c: Seq<char>)
    requires
        text_lt(a, b),
        text_lt(b, c),
    ensures
        text_lt(a, c),
    decreases a.len(),
{
    if a.len() > 0 && b.len() > 0 && c.len() > 0 && a[0] == b[0] && b[0] == c[0] {
        lemma_text_lt_transitive(a.drop_first(), b.drop_first(), c.drop_first());
    }
}

/// The number of bytes of a character in UTF-8.
pub fn utf8_width(c: char) -> (w: usize)
    ensures
        w == utf8_len(c),
{
    if '\u{80}' > c {
        1
    } else if '\u{800}' > c {
        2
    } else if '\u{10000}' > c {
        3
    } else {
        4
    }
}

/// Whether the UTF-8 form of the characters has more than `n` bytes.
pub fn utf8_longer_than(v: &Vec<char>, n: usize) -> (r: bool)
    ensures
        r == (byte_len(v@) > n),
{
    let mut used: usize = 0;
    let mut i: usize = 0;
    assert(v@.take(0) =~= Seq::<char>::empty());
    while i < v.len()
        invariant
            i <= v@.len(),
            used == byte_len(v@.take(i as int)),
            used <= n,
        decreases v@.len() - i,
    {
        proof {
            lemma_byte_len_step(v@, i as int);
        }
        let w = utf8_width(v[i]);
        if w > n - used {
            proof {
                lemma_byte_len_monotone(v@, i + 1, v@.len() as int);
                assert(v@.take(v@.len() as int) =~= v@);
            }
            return true;
        }
        used = used + w;
        i = i + 1;
    }
    assert(v@.take(v@.len() as int) =~= v@);
    false
}

/// The number of characters in the longest beginning of the characters
/// whose UTF-8 form has at most `n` bytes.
pub fn chars_within_bytes(v: &Vec<char>, n: usize) -> (k: usize)
    ensures
        k == chars_within(v@, n as nat),
        k <= v@.len(),
{
    let mut used: usize = 0;
    let mut i: usize = 0;
    assert(v@.take(0) =~= Seq::<char>::empty());
    while i < v.len() && utf8_width(v[i]) <= n - used
        invariant
            i <= v@.len(),
            used == byte_len(v@.take(i as int)),
            used <= n,
        decreases v@.len() - i,
    {
        proof {
            lemma_byte_len_step(v@, i as int);
        }
        used = used + utf8_width(v[i]);
        i = i + 1;
    }
    proof {
        if i < v@.len() {
            lemma_byte_len_step(v@, i as int);
        }
        lemma_chars_within(v@, n as nat, i as int);
    }
    i
}

/// Whether `a` comes before `b` in the order of texts.
pub fn text_less(a: &str, b: &str) -> (r: bool)
    ensures
        r == text_lt(a@, b@),
{
    let va = chars_of(a);
    let vb = chars_of(b);
    let mut i: usize = 0;
    assert(a@.skip(0) =~= a@);
    assert(b@.skip(0) =~= b@);
    while i < va.len() && i < vb.len() && va[i] == vb[i]
        invariant
            va@ == a@,
            vb@ == b@,
            i <= va@.len(),
            i <= vb@.len(),
            text_lt(a@, b@) == text_lt(a@.skip(i as int), b@.skip(i as int)),
        decreases va@.len() - i,
    {
        assert(a@.skip(i as int).drop_first() =~= a@.skip(i + 1));
        assert(b@.skip(i as int).drop_first() =~= b@.skip(i + 1));
        i = i + 1;
    }
    if i == va.len() {
        assert(a@.skip(i as int).len() == 0);
        i < vb.len()
    } else if i == vb.len() {
        assert(b@.skip(i as int).len() == 0);
        false
    } else {
        let x = va[i];
        let y = vb[i];
        assert(a@.skip(i as int)[0] == x);
        assert(b@.skip(i as int)[0] == y);
        assert(x != y);
        let r = x < y;
        assert(r == ((x as int) < (y as int)));
        r
    }
}

/// Whether `p` occurs in `s` at position `i`, on character vectors.
fn occurs_at_exec(s: &Vec<char>, p: &Vec<char>, i: usize) -> (r: bool)
    ensures
        r == occurs_at(s@, p@, i as int),
{
    if i > s.len() || p.len() > s.len() - i {
        return false;
    }
    let n = p.len();
    for j in 0..n
        invariant
            n == p@.len(),
            i + n <= s.len(),
            forall|k: int| 0 <= k < j ==> s@[i + k] == p@[k],
    {
        if s[i + j] != p[j] {
            assert(s@.subrange(i as int, i + n)[j as int] != p@[j as int]);
            return false;
        }
    }
    assert(s@.subrange(i as int, i + n) =~= p@);
    true
}

/// Whether `s` begins with `p` (as `str::starts_with`).
pub fn text_starts_with(s: &str, p: &str) -> (r: bool)
    ensures
        r == starts_with(s@, p@),
{
    let vs = chars_of(s);
    let vp = chars_of(p);
    let r = occurs_at_exec(&vs, &vp, 0);
    proof {
        if r {
            assert(s@.take(p@.len() as int) =~= s@.subrange(0, p@.len() as int));
        } else if p@.len() <= s@.len() {
            assert(s@.take(p@.len() as int) =~= s@.subrange(0, p@.len() as int));
        }
    }
    r
}

/// Whether `s` ends with `p` (as `str::ends_with`).
pub fn text_ends_with(s: &str, p: &str) -> (r: bool)
    ensures
        r == ends_with(s@, p@),
{
    let vs = chars_of(s);
    let vp = chars_of(p);
    if vp.len() > vs.len() {
        return false;
    }
    let r = occurs_at_exec(&vs, &vp, vs.len() - vp.len());
    assert(s@.skip(s@.len() - p@.len()) =~= s@.subrange(
        s@.len() - p@.len(),
        s@.len() - p@.len() + p@.len(),
    ));
    r
}

/// Whether `p` occurs in `s` (as `str::contains` with a `&str`).
pub fn text_contains(s: &str, p: &str) -> (r: bool)
    ensures
        r == contains_text(s@, p@),
{
    let vs = chars_of(s);
    let vp = chars_of(p);
    if vp.len() > vs.len() {
        assert(!contains_text(s@, p@));
        return false;
    }
    let last = vs.len() - vp.len();
    for i in 0..last
        invariant
            vs@ == s@,
            vp@ == p@,
            last == vs@.len() - vp@.len(),
            forall|k: int| 0 <= k < i ==> !occurs_at(s@, p@, k),
    {
        if occurs_at_exec(&vs, &vp, i) {
            return true;
        }
    }
    if occurs_at_exec(&vs, &vp, last) {
        return true;
    }
    assert forall|k: int| !occurs_at(s@, p@, k) by {
        if 0 <= k && k + p@.len() <= s@.len() {
            assert(k <= last);
        }
    }
    false
}

/// Whether the character `c` occurs in `s` (as `str::contains` with a `char`).
pub fn text_has_char(s: &str, c: char) -> (r: bool)
    ensures
        r == s@.contains(c),
{
    let v = chars_of(s);
    let n = v.len();
    for i in 0..n
        invariant
            n == v@.len(),
            v@ == s@,
            forall|j: int| 0 <= j < i ==> v@[j] != c,
    {
        if v[i] == c {
            assert(s@[i as int] == c);
            return true;
        }
    }
    false
}

/// `s` without the prefix `p`, if it begins with it (as `str::strip_prefix`).
pub fn text_strip_prefix(s: &str, p: &str) -> (r: Option<String>)
    ensures
        r is Some <==> starts_with(s@, p@),
        r matches Some(rest) ==> rest@ == s@.skip(p@.len() as int),
{
    if text_starts_with(s, p) {
        let v = chars_of(s);
        let n = chars_of(p).len();
        let rest = string_of(v.as_slice().split_at(n).1);
        Some(rest)
    } else {
        None
    }
}

// ---------------------------------------------------------------------------
// White space
// ---------------------------------------------------------------------------
/// Whether a character is white space (as `char::is_whitespace`).
pub fn is_whitespace(c: char) -> (r: bool)
    ensures
        r == is_ws(c),
{
    c == '\t' || c == '\n' || c == '\u{b}' || c == '\u{c}' || c == '\r' || c == ' ' || c
        == '\u{85}' || c == '\u{a0}' || c == '\u{1680}' || ('\u{2000}' <= c && c <= '\u{200a}')
        || c == '\u{2028}' || c == '\u{2029}' || c == '\u{202f}' || c == '\u{205f}' || c
        == '\u{3000}'
}

proof fn lemma_trim_start_skip(s: Seq<char>, i: int)
    requires
        0 <= i <= s.len(),
        forall|j: int| 0 <= j < i ==> is_ws(#[trigger] s[j]),
    ensures
        trim_start(s) == trim_start(s.skip(i)),
    decreases i,
{
    if i > 0 {
        assert(is_ws(s[0]));
        assert forall|j: int| 0 <= j < i - 1 implies is_ws(#[trigger] s.drop_first()[j]) by {
            assert(s.drop_first()[j] == s[j + 1]);
        }
        lemma_trim_start_skip(s.drop_first(), i - 1);
        assert(s.drop_first().skip(i - 1) =~= s.skip(i));
    } else {
        assert(s.skip(0) =~= s);
    }
}

proof fn lemma_trim_end_take(s: Seq<char>, i: int)
    requires
        0 <= i <= s.len(),
        forall|j: int| i <= j < s.len() ==> is_ws(#[trigger] s[j]),
    ensures
        trim_end(s) == trim_end(s.take(i)),
    decreases s.len() - i,
{
    if i < s.len() {
        assert(is_ws(s[s.len() - 1]));
        assert forall|j: int| i <= j < s.drop_last().len() implies is_ws(
            #[trigger] s.drop_last()[j],
        ) by {
            assert(s.drop_last()[j] == s[j]);
        }
        lemma_trim_end_take(s.drop_last(), i);
        assert(s.drop_last().take(i) =~= s.take(i));
    } else {
        assert(s.take(i) =~= s);
    }
}

/// `s` without leading and trailing white space (as `str::trim`).
pub fn text_trim(s: &str) -> (r: String)
    ensures
        r@ == trim(s@),
{
    let v = chars_of(s);
    let n = v.len();
    let mut a: usize = 0;
    while a < n && is_whitespace(v[a])
        invariant
            n == v@.len(),
            v@ == s@,
            a <= n,
            forall|j: int| 0 <= j < a ==> is_ws(#[trigger] v@[j]),
        decreases n - a,
    {
        a = a + 1;
    }
    proof {
        lemma_trim_start_skip(s@, a as int);
        if a < n {
            assert(s@.skip(a as int)[0] == s@[a as int]);
        }
    }
    let mut b: usize = n;
    while b > a && is_whitespace(v[b - 1])
        invariant
            n == v@.len(),
            v@ == s@,
            a <= b <= n,
            forall|j: int| b <= j < n ==> is_ws(#[trigger] v@[j]),
        decreases b,
    {
        b = b - 1;
    }
    let ghost mid = s@.skip(a as int);
    proof {
        assert(trim_start(s@) == mid);
        assert forall|j: int| b - a <= j < mid.len() implies is_ws(#[trigger] mid[j]) by {
            assert(mid[j] == s@[a + j]);
        }
        lemma_trim_end_take(mid, b - a);
        if b > a {
            assert(mid.take(b - a).last() == s@[b - 1]);
        }
        assert(mid.take(b - a) =~= s@.subrange(a as int, b as int));
    }
    string_of(v.as_slice().split_at(b).0.split_at(a).1)
}

// ---------------------------------------------------------------------------
// Splitting and joining
// ---------------------------------------------------------------------------
spec fn sep_of(c: char, ws: bool) -> spec_fn(char) -> bool {
    if ws {
        ws_sep()
    } else {
        char_sep(c)
    }
}

/// The pieces of `s` between separators: white space when `ws` holds, else `c`.
fn split_exec(s: &str, c: char, ws: bool) -> (parts: Vec<String>)
    ensures
        parts@.map_values(|p: String| p@) == split_by(s@, sep_of(c, ws)),
{
    let v = chars_of(s);
    let n = v.len();
    let ghost sep = sep_of(c, ws);
    let mut parts: Vec<String> = Vec::new();
    let mut cur: Vec<char> = Vec::new();
    for i in 0..n
        invariant
            n == v@.len(),
            v@ == s@,
            sep == sep_of(c, ws),
            parts@.map_values(|p: String| p@).push(cur@) == split_by(s@.take(i as int), sep),
    {
        proof {
            assert(s@.take(i + 1).drop_last() =~= s@.take(i as int));
            assert(s@.take(i + 1).last() == v@[i as int]);
        }
        let is_sep = if ws {
            is_whitespace(v[i])
        } else {
            v[i] == c
        };
        assert(is_sep == sep(v@[i as int]));
        if is_sep {
            let piece = string_of(cur.as_slice());
            let ghost before = parts@.map_values(|p: String| p@);
            parts.push(piece);
            cur = Vec::new();
            assert(parts@.map_values(|p: String| p@) =~= before.push(piece@));
            assert(parts@.map_values(|p: String| p@).push(cur@) =~= before.push(piece@).push(
                Seq::empty(),
            ));
        } else {
            let ghost before = parts@.map_values(|p: String| p@);
            let ghost prev = cur@;
            cur.push(v[i]);
            assert(before.push(cur@) =~= before.push(prev).update(
                before.len() as int,
                prev.push(v@[i as int]),
            ));
        }
    }
    let piece = string_of(cur.as_slice());
    let ghost before = parts@.map_values(|p: String| p@);
    parts.push(piece);
    assert(s@.take(n as int) =~= s@);
    assert(parts@.map_values(|p: String| p@) =~= before.push(cur@));
    parts
}

/// The pieces of `s` between occurrences of `c` (as `str::split` with a `char`).
pub fn text_split(s: &str, c: char) -> (parts: Vec<String>)
    ensures
        parts@.map_values(|p: String| p@) == split(s@, c),
{
    split_exec(s, c, false)
}

/// The words of `s` (as `str::split_whitespace`).
pub fn text_words(s: &str) -> (ws: Vec<String>)
    ensures
        ws@.map_values(|p: String| p@) == words(s@),
{
    let parts = split_exec(s, ' ', true);
    let ghost pv = parts@.map_values(|p: String| p@);
    let mut ws: Vec<String> = Vec::new();
    let n = parts.len();
    for i in 0..n
        invariant
            n == parts@.len(),
            pv == parts@.map_values(|p: String| p@),
            ws@.map_values(|p: String| p@) == nonempty(pv.take(i as int)),
    {
        assert(pv.take(i + 1).drop_last() =~= pv.take(i as int));
        assert(pv.take(i + 1).last() == parts@[i as int]@);
        if chars_of(parts[i].as_str()).len() > 0 {
            let ghost before = ws@.map_values(|p: String| p@);
            ws.push(parts[i].clone());
            assert(ws@.map_values(|p: String| p@) =~= before.push(parts@[i as int]@));
        }
    }
    assert(pv.take(n as int) =~= pv);
    ws
}

/// `line` without one trailing carriage return.
fn strip_cr_exec(line: &str) -> (r: String)
    ensures
        r@ == strip_cr(line@),
{
    let v = chars_of(line);
    if v.len() > 0 && v[v.len() - 1] == '\r' {
        string_of(v.as_slice().split_at(v.len() - 1).0)
    } else {
        line.to_owned()
    }
}

/// The lines of `s` (as `str::lines`).
pub fn text_lines(s: &str) -> (ls: Vec<String>)
    ensures
        ls@.map_values(|p: String| p@) == lines(s@),
{
    let parts = text_split(s, '\n');
    let ghost pv = parts@.map_values(|p: String| p@);
    proof {
        lemma_split_by_pieces(s@, char_sep('\n'));
    }
    let n = parts.len();
    let mut ls: Vec<String> = Vec::new();
    for i in 0..n - 1
        invariant
            n == parts@.len(),
            n >= 1,
            pv == parts@.map_values(|p: String| p@),
            ls@.map_values(|p: String| p@) == pv.take(i as int).map_values(
                |l: Seq<char>| strip_cr(l),
            ),
    {
        let line = strip_cr_exec(parts[i].as_str());
        let ghost before = ls@.map_values(|p: String| p@);
        let ghost old_ls = ls@;
        ls.push(line);
        assert(ls@ == old_ls.push(line));
        assert(before.len() == i);
        let ghost target = pv.take(i + 1).map_values(|l: Seq<char>| strip_cr(l));
        let ghost now = ls@.map_values(|p: String| p@);
        assert forall|j: int| 0 <= j < i + 1 implies now[j] == target[j] by {
            if j < i {
                assert(ls@[j] == old_ls[j]);
                assert(now[j] == before[j]);
                assert(before[j] == pv.take(i as int).map_values(|l: Seq<char>| strip_cr(l))[j]);
            } else {
                assert(ls@[j] == line);
                assert(now[j] == line@);
                assert(pv[j] == parts@[j]@);
            }
        }
        assert(now =~= target);
    }
    assert(pv.take(n - 1) =~= pv.drop_last());
    if chars_of(parts[n - 1].as_str()).len() > 0 {
        let ghost before = ls@.map_values(|p: String| p@);
        ls.push(parts[n - 1].clone());
        assert(ls@.map_values(|p: String| p@) =~= before.push(pv.last()));
    }
    ls
}

/// The pieces joined with the separator between consecutive pieces
/// (as `[String]::join`).
pub fn text_join(parts: &Vec<String>, sep: &str) -> (r: String)
    ensures
        r@ == join(parts@.map_values(|p: String| p@), sep@),
{
    let ghost pv = parts@.map_values(|p: String| p@);
    let mut r = String::new();
    let n = parts.len();
    for i in 0..n
        invariant
            n == parts@.len(),
            pv == parts@.map_values(|p: String| p@),
            r@ == join(pv.take(i as int), sep@),
    {
        assert(pv.take(i + 1).drop_last() =~= pv.take(i as int));
        if i > 0 {
            r.append(sep);
        } else {
            assert(r@ =~= Seq::<char>::empty());
        }
        r.append(parts[i].as_str());
        proof {
            if i == 0 {
                assert(pv.take(1) =~= seq![pv[0]]);
            }
        }
    }
    assert(pv.take(n as int) =~= pv);
    r
}

} // verus!
