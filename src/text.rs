//! Character-level text handling shared by the rest of the library: trimming,
//! line splitting, searching, and decimal numbers.

use vstd::prelude::*;

verus! {

/// The view of each string of a sequence.
pub open spec fn views(v: Seq<String>) -> Seq<Seq<char>> {
    v.map_values(|x: String| x@)
}

/// Unicode `White_Space` characters, the set that `char::is_whitespace` tests.
pub open spec fn is_ws(c: char) -> bool {
    let u = c as u32;
    (9 <= u && u <= 13) || u == 32 || u == 0x85 || u == 0xa0 || u == 0x1680 || (0x2000 <= u
        && u <= 0x200a) || u == 0x2028 || u == 0x2029 || u == 0x202f || u == 0x205f || u == 0x3000
}

/// Characters that may wrap a suggestion as quotation marks.
pub open spec fn is_quote(c: char) -> bool {
    c == '"' || c == '\'' || c == '`'
}

/// Which characters a strip removes from both ends.
#[derive(PartialEq, Eq, Structural, Clone, Copy, Debug)]
pub enum CharClass {
    Whitespace,
    Quote,
}

pub open spec fn in_class(c: char, k: CharClass) -> bool {
    match k {
        CharClass::Whitespace => is_ws(c),
        CharClass::Quote => is_quote(c),
    }
}

/// `s` without its leading characters of class `k`.
pub open spec fn strip_start(s: Seq<char>, k: CharClass) -> Seq<char>
    decreases s.len(),
{
    if s.len() > 0 && in_class(s[0], k) {
        strip_start(s.drop_first(), k)
    } else {
        s
    }
}

/// `s` without its trailing characters of class `k`.
pub open spec fn strip_end(s: Seq<char>, k: CharClass) -> Seq<char>
    decreases s.len(),
{
    if s.len() > 0 && in_class(s.last(), k) {
        strip_end(s.drop_last(), k)
    } else {
        s
    }
}

pub open spec fn stripped(s: Seq<char>, k: CharClass) -> Seq<char> {
    strip_end(strip_start(s, k), k)
}

/// What `str::trim` leaves of `s`.
pub open spec fn trimmed(s: Seq<char>) -> Seq<char> {
    stripped(s, CharClass::Whitespace)
}

/// Whether `c` is a white-space character (`char::is_whitespace`).
pub fn is_whitespace(c: char) -> (r: bool)
    ensures
        r == is_ws(c),
{
    let u = c as u32;
    (9 <= u && u <= 13) || u == 32 || u == 0x85 || u == 0xa0 || u == 0x1680 || (0x2000 <= u
        && u <= 0x200a) || u == 0x2028 || u == 0x2029 || u == 0x202f || u == 0x205f || u == 0x3000
}

fn class_member(c: char, k: CharClass) -> (r: bool)
    ensures
        r == in_class(c, k),
{
    match k {
        CharClass::Whitespace => is_whitespace(c),
        CharClass::Quote => c == '"' || c == '\'' || c == '`',
    }
}

/// The characters of `s`, in order.
pub fn chars_of(s: &str) -> (r: Vec<char>)
    ensures
        r@ == s@,
{
    let mut out: Vec<char> = Vec::new();
    for c in it: s.chars()
        invariant
            out@ == s@.subrange(0, it.index()),
            it.seq() == s@,
    {
        out.push(c);
    }
    out
}

/// Relies on `String::push`: appends one character.
#[verifier::external_body]
pub(crate) fn push_char(s: &mut String, c: char)
    ensures
        final(s)@ == old(s)@.push(c),
{
    s.push(c);
}

/// The characters `v[from..to]` as a string.
pub fn string_of(v: &Vec<char>, from: usize, to: usize) -> (r: String)
    requires
        from <= to <= v@.len(),
    ensures
        r@ == v@.subrange(from as int, to as int),
{
    let mut out = String::new();
    let mut i = from;
    while i < to
        invariant
            from <= i <= to <= v@.len(),
            out@ == v@.subrange(from as int, i as int),
        decreases to - i,
    {
        push_char(&mut out, v[i]);
        assert(v@.subrange(from as int, i + 1) =~= v@.subrange(from as int, i as int).push(v@[i as int]));
        i += 1;
    }
    out
}

/// Bounds of what remains of `v` once characters of class `k` are stripped from both ends.
fn strip_bounds(v: &Vec<char>, k: CharClass) -> (r: (usize, usize))
    ensures
        r.0 <= r.1 <= v@.len(),
        v@.subrange(r.0 as int, r.1 as int) == stripped(v@, k),
{
    let n = v.len();
    let mut i: usize = 0;
    assert(v@.subrange(0, n as int) =~= v@);
    while i < n && class_member(v[i], k)
        invariant
            i <= n == v@.len(),
            strip_start(v@, k) == strip_start(v@.subrange(i as int, n as int), k),
        decreases n - i,
    {
        assert(v@.subrange(i as int, n as int).drop_first() =~= v@.subrange(i + 1, n as int));
        i += 1;
    }
    let mut j: usize = n;
    while j > i && class_member(v[j - 1], k)
        invariant
            i <= j <= n == v@.len(),
            stripped(v@, k) == strip_end(v@.subrange(i as int, j as int), k),
        decreases j,
    {
        assert(v@.subrange(i as int, j as int).drop_last() =~= v@.subrange(i as int, j - 1));
        j -= 1;
    }
    (i, j)
}

/// `s` without the characters of class `k` at either end.
pub fn strip(s: &str, k: CharClass) -> (r: String)
    ensures
        r@ == stripped(s@, k),
{
    let v = chars_of(s);
    let (i, j) = strip_bounds(&v, k);
    string_of(&v, i, j)
}

/// `s` without leading and trailing white space (`str::trim`).
pub fn trim(s: &str) -> (r: String)
    ensures
        r@ == trimmed(s@),
{
    strip(s, CharClass::Whitespace)
}

/// Whether two strings hold the same characters.
pub fn same_text(a: &str, b: &str) -> (r: bool)
    ensures
        r == (a@ == b@),
{
    let va = chars_of(a);
    let vb = chars_of(b);
    if va.len() != vb.len() {
        return false;
    }
    let mut i: usize = 0;
    while i < va.len()
        invariant
            va@ == a@,
            vb@ == b@,
            va@.len() == vb@.len(),
            i <= va@.len(),
            forall|k: int| 0 <= k < i ==> va@[k] == vb@[k],
        decreases va.len() - i,
    {
        if va[i] != vb[i] {
            return false;
        }
        i += 1;
    }
    assert(va@ =~= vb@);
    true
}

/// Whether `p` occurs in `s` at position `i`.
pub open spec fn occurs_at(s: Seq<char>, p: Seq<char>, i: int) -> bool {
    0 <= i && i + p.len() <= s.len() && s.subrange(i, i + p.len()) == p
}

/// Whether `p` occurs anywhere in `s` (`str::contains`).
pub open spec fn contains(s: Seq<char>, p: Seq<char>) -> bool {
    exists|i: int| occurs_at(s, p, i)
}

fn matches_at(s: &Vec<char>, p: &Vec<char>, i: usize) -> (r: bool)
    requires
        i + p@.len() <= s@.len(),
    ensures
        r == occurs_at(s@, p@, i as int),
{
    let n = s.len();
    let mut k: usize = 0;
    while k < p.len()
        invariant
            n == s@.len(),
            i + p@.len() <= s@.len(),
            k <= p@.len(),
            forall|m: int| 0 <= m < k ==> s@[i + m] == p@[m],
        decreases p.len() - k,
    {
        if s[i + k] != p[k] {
            assert(s@.subrange(i as int, i + p@.len())[k as int] != p@[k as int]);
            return false;
        }
        k += 1;
    }
    assert(s@.subrange(i as int, i + p@.len()) =~= p@);
    true
}

/// Whether `pattern` occurs in `s`.
pub fn contains_text(s: &str, pattern: &str) -> (r: bool)
    ensures
        r == contains(s@, pattern@),
{
    let v = chars_of(s);
    let p = chars_of(pattern);
    if p.len() > v.len() {
        assert forall|i: int| !occurs_at(s@, pattern@, i) by {}
        return false;
    }
    if p.len() == 0 {
        assert(s@.subrange(0, 0) =~= pattern@);
        assert(occurs_at(s@, pattern@, 0));
        return true;
    }
    let n = v.len();
    let last = n - p.len();
    let mut i: usize = 0;
    while i <= last
        invariant
            v@ == s@,
            p@ == pattern@,
            last == v@.len() - p@.len(),
            p@.len() > 0,
            n == v@.len(),
            i <= last + 1,
            forall|m: int| 0 <= m < i ==> !occurs_at(s@, pattern@, m),
        decreases last + 1 - i,
    {
        if matches_at(&v, &p, i) {
            return true;
        }
        i += 1;
    }
    assert forall|m: int| !occurs_at(s@, pattern@, m) by {
        if 0 <= m && m < i {
        }
    }
    false
}

/// The items of `s` with `sep` between each two.
pub open spec fn joined_by(s: Seq<Seq<char>>, sep: char) -> Seq<char>
    decreases s.len(),
{
    if s.len() == 0 {
        seq![]
    } else if s.len() == 1 {
        s[0]
    } else {
        joined_by(s.drop_last(), sep) + seq![sep] + s.last()
    }
}

/// The strings of `items` with `sep` between each two (`join`).
pub fn join_by(items: &Vec<String>, sep: char) -> (r: String)
    ensures
        r@ == joined_by(views(items@), sep),
{
    let mut out = String::new();
    let mut i: usize = 0;
    while i < items.len()
        invariant
            i <= items@.len(),
            out@ == joined_by(views(items@.subrange(0, i as int)), sep),
        decreases items.len() - i,
    {
        proof {
            let pre = views(items@.subrange(0, i as int));
            let next = views(items@.subrange(0, i + 1));
            assert(next.drop_last() =~= pre);
            assert(next.last() == items@[i as int]@);
        }
        if i > 0 {
            push_char(&mut out, sep);
        }
        out.append(items[i].as_str());
        i += 1;
    }
    assert(items@.subrange(0, i as int) =~= items@);
    out
}

/// A line without the carriage return that ends a `\r\n` line ending.
pub open spec fn drop_cr(line: Seq<char>) -> Seq<char> {
    if line.len() > 0 && line.last() == '\r' {
        line.drop_last()
    } else {
        line
    }
}

/// The lines of `s[start..]`, scanning from `i`, where the current line began at `start`:
/// a line ends at `\n` (a `\r` before it is dropped), and text after the last `\n`
/// is a last line when it is not empty.
pub open spec fn lines_from(s: Seq<char>, start: int, i: int) -> Seq<Seq<char>>
    decreases s.len() - i,
{
    if i >= s.len() {
        if start < s.len() {
            seq![s.subrange(start, s.len() as int)]
        } else {
            seq![]
        }
    } else if s[i] == '\n' {
        seq![drop_cr(s.subrange(start, i))] + lines_from(s, i + 1, i + 1)
    } else {
        lines_from(s, start, i + 1)
    }
}

/// The lines of `s`, as `str::lines` yields them.
pub open spec fn lines_of(s: Seq<char>) -> Seq<Seq<char>> {
    lines_from(s, 0, 0)
}

fn drop_cr_end(v: &Vec<char>, start: usize, end: usize) -> (r: usize)
    requires
        start <= end <= v@.len(),
    ensures
        start <= r <= end,
        v@.subrange(start as int, r as int) == drop_cr(v@.subrange(start as int, end as int)),
{
    if end > start && v[end - 1] == '\r' {
        assert(v@.subrange(start as int, end - 1) =~= v@.subrange(start as int, end as int).drop_last());
        end - 1
    } else {
        end
    }
}

/// The lines of `s` (`str::lines`).
pub fn lines(s: &str) -> (r: Vec<String>)
    ensures
        views(r@) == lines_of(s@),
{
    let v = chars_of(s);
    let n = v.len();
    let mut out: Vec<String> = Vec::new();
    let mut start: usize = 0;
    let mut i: usize = 0;
    while i < n
        invariant
            v@ == s@,
            n == v@.len(),
            start <= i <= n,
            lines_of(s@) == views(out@) + lines_from(s@, start as int, i as int),
        decreases n - i,
    {
        if v[i] == '\n' {
            let e = drop_cr_end(&v, start, i);
            let line = string_of(&v, start, e);
            proof {
                assert(views(out@.push(line)) =~= views(out@).push(line@));
                assert(lines_from(s@, start as int, i as int) == seq![line@] + lines_from(
                    s@,
                    i + 1,
                    i + 1,
                ));
                assert(views(out@) + lines_from(s@, start as int, i as int) =~= views(out@).push(
                    line@,
                ) + lines_from(s@, i + 1, i + 1));
            }
            out.push(line);
            start = i + 1;
        }
        i += 1;
    }
    if start < n {
        let line = string_of(&v, start, n);
        proof {
            assert(views(out@.push(line)) =~= views(out@) + seq![line@]);
        }
        out.push(line);
    } else {
        assert(views(out@) + lines_from(s@, start as int, i as int) =~= views(out@));
    }
    out
}

/// The first line of `s`, or all of `s` when it has no line.
pub open spec fn first_line_of(s: Seq<char>) -> Seq<char> {
    if lines_of(s).len() > 0 {
        lines_of(s)[0]
    } else {
        s
    }
}

/// The first line of `s` (`s.lines().next()`), or `s` itself when it has none.
pub fn first_line(s: &str) -> (r: String)
    ensures
        r@ == first_line_of(s@),
{
    let all = lines(s);
    if all.len() > 0 {
        assert(views(all@)[0] == all@[0]@);
        all[0].clone()
    } else {
        String::from_str(s)
    }
}

/// The character of a decimal digit `d < 10`.
pub open spec fn digit_char(d: nat) -> char {
    ((d + 48) as u32) as char
}

/// The decimal numeral of `n`, without sign or leading zeros.
pub open spec fn decimal(n: nat) -> Seq<char>
    decreases n,
{
    if n < 10 {
        seq![digit_char(n)]
    } else {
        decimal(n / 10).push(digit_char(n % 10))
    }
}

fn digit(d: u64) -> (r: char)
    requires
        d < 10,
    ensures
        r == digit_char(d as nat),
{
    ((d as u8) + 48) as char
}

/// The decimal numeral of `n` (`n.to_string()`).
pub fn to_decimal(n: u64) -> (r: String)
    ensures
        r@ == decimal(n as nat),
    decreases n,
{
    if n < 10 {
        let mut s = String::new();
        push_char(&mut s, digit(n));
        assert(s@ =~= seq![digit_char(n as nat)]);
        s
    } else {
        let mut s = to_decimal(n / 10);
        push_char(&mut s, digit(n % 10));
        s
    }
}

pub open spec fn is_digit(c: char) -> bool {
    '0' <= c && c <= '9'
}

pub open spec fn digit_value(c: char) -> nat {
    (c as u32 - 48) as nat
}

/// The value of a string of decimal digits.
pub open spec fn digits_value(s: Seq<char>) -> nat
    decreases s.len(),
{
    if s.len() == 0 {
        0
    } else {
        digits_value(s.drop_last()) * 10 + digit_value(s.last())
    }
}

/// The digits that an unsigned numeral holds after its optional `+` sign.
pub open spec fn unsigned_digits(s: Seq<char>) -> Seq<char> {
    if s.len() > 0 && s[0] == '+' {
        s.drop_first()
    } else {
        s
    }
}

/// The number an unsigned numeral `s` holds: an optional `+`, then one or more
/// decimal digits, whose value is at most `max`; as `from_str` of an unsigned
/// integer type whose largest value is `max` reads it.
pub open spec fn parsed_within(s: Seq<char>, max: nat) -> Option<nat> {
    let d = unsigned_digits(s);
    if d.len() > 0 && (forall|i: int| 0 <= i < d.len() ==> is_digit(d[i])) && digits_value(d)
        <= max {
        Some(digits_value(d))
    } else {
        None
    }
}

/// What `u32::from_str` reads from `s`.
pub open spec fn parsed_u32(s: Seq<char>) -> Option<u32> {
    match parsed_within(s, u32::MAX as nat) {
        Some(n) => Some(n as u32),
        None => None,
    }
}

/// What `usize::from_str` reads from `s`.
pub open spec fn parsed_usize(s: Seq<char>) -> Option<usize> {
    match parsed_within(s, usize::MAX as nat) {
        Some(n) => Some(n as usize),
        None => None,
    }
}

proof fn lemma_digits_value_grows(s: Seq<char>, c: char)
    requires
        is_digit(c),
    ensures
        digits_value(s.push(c)) == digits_value(s) * 10 + digit_value(c),
        digits_value(s.push(c)) >= digits_value(s),
{
    assert(s.push(c).drop_last() =~= s);
}

/// Reads an unsigned decimal numeral whose value is at most `max`.
pub fn parse_within(s: &str, max: u64) -> (r: Option<u64>)
    ensures
        match parsed_within(s@, max as nat) {
            Some(n) => r == Some(n as u64),
            None => r is None,
        },
{
    let v = chars_of(s);
    let n = v.len();
    let first: usize = if n > 0 && v[0] == '+' {
        1
    } else {
        0
    };
    let ghost d = unsigned_digits(s@);
    assert(d =~= v@.subrange(first as int, n as int));
    if first == n {
        return None;
    }
    let mut acc: u128 = 0;
    let mut over = false;
    let mut i: usize = first;
    while i < n
        invariant
            v@ == s@,
            n == v@.len(),
            first <= i <= n,
            d == v@.subrange(first as int, n as int),
            d == unsigned_digits(s@),
            forall|k: int| first <= k < i ==> is_digit(v@[k]),
            !over ==> acc as nat == digits_value(v@.subrange(first as int, i as int)) && acc
                <= max,
            over ==> digits_value(v@.subrange(first as int, i as int)) > max,
        decreases n - i,
    {
        let c = v[i];
        if !('0' <= c && c <= '9') {
            assert(d[i - first] == c);
            assert(!is_digit(d[(i - first) as int]));
            return None;
        }
        proof {
            lemma_digits_value_grows(v@.subrange(first as int, i as int), c);
            assert(v@.subrange(first as int, i + 1) =~= v@.subrange(first as int, i as int).push(c));
        }
        if !over {
            let next = acc * 10 + (c as u128 - 48);
            if next > max as u128 {
                over = true;
            } else {
                acc = next;
            }
        }
        i += 1;
    }
    assert(v@.subrange(first as int, i as int) == d);
    if over {
        None
    } else {
        Some(acc as u64)
    }
}

/// Reads a `u32` written in decimal (`str::parse::<u32>`).
pub fn parse_u32(s: &str) -> (r: Option<u32>)
    ensures
        r == parsed_u32(s@),
{
    match parse_within(s, 4294967295) {
        Some(n) => Some(n as u32),
        None => None,
    }
}

/// Reads a `usize` written in decimal (`str::parse::<usize>`).
pub fn parse_usize(s: &str) -> (r: Option<usize>)
    ensures
        r == parsed_usize(s@),
{
    match parse_within(s, usize::MAX as u64) {
        Some(n) => Some(n as usize),
        None => None,
    }
}

/// UTF-8 width of a character, in bytes.
pub open spec fn utf8_width(c: char) -> nat {
    let u = c as u32;
    if u < 0x80 {
        1
    } else if u < 0x800 {
        2
    } else if u < 0x10000 {
        3
    } else {
        4
    }
}

/// The longest prefix of `s` whose UTF-8 encoding takes at most `limit` bytes.
pub open spec fn prefix_within(s: Seq<char>, limit: nat) -> Seq<char>
    decreases s.len(),
{
    if s.len() > 0 && utf8_width(s[0]) <= limit {
        seq![s[0]] + prefix_within(s.drop_first(), (limit - utf8_width(s[0])) as nat)
    } else {
        seq![]
    }
}

fn width_of(c: char) -> (r: usize)
    ensures
        r == utf8_width(c),
{
    let u = c as u32;
    if u < 0x80 {
        1
    } else if u < 0x800 {
        2
    } else if u < 0x10000 {
        3
    } else {
        4
    }
}

/// The longest prefix of `s` that fits in `limit` bytes of UTF-8 without splitting a
/// character.
pub fn prefix_within_bytes(s: &str, limit: usize) -> (r: String)
    ensures
        r@ == prefix_within(s@, limit as nat),
{
    let v = chars_of(s);
    let n = v.len();
    let mut i: usize = 0;
    let mut room: usize = limit;
    assert(v@.subrange(0, n as int) =~= v@);
    while i < n && width_of(v[i]) <= room
        invariant
            v@ == s@,
            n == v@.len(),
            i <= n,
            prefix_within(s@, limit as nat) == v@.subrange(0, i as int) + prefix_within(
                v@.subrange(i as int, n as int),
                room as nat,
            ),
        decreases n - i,
    {
        let w = width_of(v[i]);
        proof {
            let rest = v@.subrange(i as int, n as int);
            assert(rest.drop_first() =~= v@.subrange(i + 1, n as int));
            assert(v@.subrange(0, i + 1) =~= v@.subrange(0, i as int) + seq![v@[i as int]]);
            assert(v@.subrange(0, i as int) + (seq![rest[0]] + prefix_within(
                rest.drop_first(),
                (room - w) as nat,
            )) =~= v@.subrange(0, i + 1) + prefix_within(rest.drop_first(), (room - w) as nat));
        }
        room = room - w;
        i += 1;
    }
    assert(v@.subrange(0, i as int) + prefix_within(v@.subrange(i as int, n as int), room as nat)
        =~= v@.subrange(0, i as int));
    string_of(&v, 0, i)
}

/// A numeral is all decimal digits, and reads back as the number it was made from.
pub proof fn lemma_decimal_reads_back(n: nat)
    ensures
        decimal(n).len() > 0,
        forall|i: int| 0 <= i < decimal(n).len() ==> is_digit(#[trigger] decimal(n)[i]),
        digits_value(decimal(n)) == n,
    decreases n,
{
    if n < 10 {
        let c = digit_char(n);
        assert(c as u32 == n + 48);
        assert(seq![c].drop_last() =~= Seq::<char>::empty());
        assert(digits_value(seq![c]) == digits_value(Seq::<char>::empty()) * 10 + digit_value(c));
    } else {
        lemma_decimal_reads_back(n / 10);
        let c = digit_char(n % 10);
        assert(c as u32 == n % 10 + 48);
        let s = decimal(n / 10);
        assert(s.push(c).drop_last() =~= s);
        assert(digit_value(c) == n % 10);
        assert((n / 10) * 10 + n % 10 == n) by (nonlinear_arith);
        assert forall|i: int| 0 <= i < decimal(n).len() implies is_digit(#[trigger] decimal(n)[i]) by {
            if i < s.len() {
                assert(decimal(n)[i] == s[i]);
            }
        }
    }
}

/// A string that starts and ends with a digit is left as it is by trimming.
pub proof fn lemma_trim_keeps_digits(s: Seq<char>)
    requires
        s.len() > 0,
        is_digit(s[0]),
        is_digit(s.last()),
    ensures
        trimmed(s) == s,
{
    assert(strip_start(s, CharClass::Whitespace) == s);
}

} // verus!
