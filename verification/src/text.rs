//! Text as sequences of characters: comparison, splitting at a separator,
//! decimal numbers in both directions, and lower case.

use vstd::prelude::*;

verus! {

/// `String::push` appends one character.
pub assume_specification[ String::push ](s: &mut String, ch: char)
    ensures
        final(s)@ == old(s)@.push(ch),
;

/// The lower-case form of a text, as `str::to_lowercase` of the standard
/// library computes it from the Unicode tables.
pub uninterp spec fn lowercase(s: Seq<char>) -> Seq<char>;

/// Calls `str::to_lowercase`. Its result depends on the text alone; nothing
/// more is claimed of it than that.
#[verifier::external_body]
pub(crate) fn to_lowercase(s: &str) -> (r: String)
    ensures
        r@ == lowercase(s@),
{
    s.to_lowercase()
}

/// The character that stands for the hexadecimal digit `d`, in lower case.
pub open spec fn hex_char(d: int) -> char {
    if d < 10 {
        digit_char(d)
    } else if d == 10 {
        'a'
    } else if d == 11 {
        'b'
    } else if d == 12 {
        'c'
    } else if d == 13 {
        'd'
    } else if d == 14 {
        'e'
    } else {
        'f'
    }
}

/// What stands for one character in a JSON string literal: the quote and
/// the backslash behind a backslash; backspace, tab, line feed, form feed
/// and carriage return as a backslash and their letter; the other
/// characters below the blank as `\u00` and two hexadecimal digits; every
/// other character as it is.
pub open spec fn json_char(c: char) -> Seq<char> {
    if c == '"' {
        seq!['\\', '"']
    } else if c == '\\' {
        seq!['\\', '\\']
    } else if c == '\u{8}' {
        seq!['\\', 'b']
    } else if c == '\t' {
        seq!['\\', 't']
    } else if c == '\n' {
        seq!['\\', 'n']
    } else if c == '\u{c}' {
        seq!['\\', 'f']
    } else if c == '\r' {
        seq!['\\', 'r']
    } else if (c as u32) < 0x20 {
        seq!['\\', 'u', '0', '0', hex_char((c as u32 / 16) as int), hex_char((c as u32 % 16) as int)]
    } else {
        seq![c]
    }
}

/// What stands for the characters of `s` in a JSON string literal, one
/// behind the other.
pub open spec fn json_chars(s: Seq<char>) -> Seq<char>
    decreases s.len(),
{
    if s.len() == 0 {
        Seq::empty()
    } else {
        json_chars(s.drop_last()) + json_char(s.last())
    }
}

/// The JSON string literal for a text: what stands for its characters,
/// between two quotes.
pub open spec fn json_escaped(s: Seq<char>) -> Seq<char> {
    seq!['"'] + json_chars(s) + seq!['"']
}

/// Calls `serde_json::to_string` on a text. Writing a text to memory cannot
/// fail there; what is written is the literal that `json_escaped`
/// describes.
#[verifier::external_body]
pub(crate) fn json_string(s: &str) -> (r: String)
    ensures
        r@ == json_escaped(s@),
{
    serde_json::to_string(s).unwrap_or_default()
}

/// The characters of `s`, in order.
pub fn chars_of(s: &str) -> (v: Vec<char>)
    ensures
        v@ == s@,
{
    let mut v: Vec<char> = Vec::new();
    for c in it: s.chars()
        invariant
            it.seq() == s@,
            v@ == s@.take(it.index() as int),
    {
        v.push(c);
    }
    v
}

/// Appends the characters `v[from..to]` to `s`.
pub fn push_chars(s: &mut String, v: &Vec<char>, from: usize, to: usize)
    requires
        from <= to <= v.len(),
    ensures
        final(s)@ == old(s)@ + v@.subrange(from as int, to as int),
{
    let mut i: usize = from;
    while i < to
        invariant
            from <= i <= to <= v.len(),
            s@ == old(s)@ + v@.subrange(from as int, i as int),
        decreases to - i,
    {
        s.push(v[i]);
        i = i + 1;
    }
}

/// The text made of the characters `v[from..to]`.
pub fn text_of(v: &Vec<char>, from: usize, to: usize) -> (s: String)
    requires
        from <= to <= v.len(),
    ensures
        s@ == v@.subrange(from as int, to as int),
{
    let mut s = String::new();
    push_chars(&mut s, v, from, to);
    s
}

/// Whether two texts hold the same characters.
pub fn text_eq(a: &str, b: &str) -> (r: bool)
    ensures
        r == (a@ == b@),
{
    let x = chars_of(a);
    let y = chars_of(b);
    if x.len() != y.len() {
        return false;
    }
    let mut i: usize = 0;
    while i < x.len()
        invariant
            i <= x.len(),
            x.len() == y.len(),
            x@ == a@,
            y@ == b@,
            x@.take(i as int) == y@.take(i as int),
        decreases x.len() - i,
    {
        if x[i] != y[i] {
            return false;
        }
        i = i + 1;
    }
    assert(x@.take(x@.len() as int) == x@);
    assert(y@.take(y@.len() as int) == y@);
    true
}

/// Whether `s` ends with `tail`.
pub open spec fn ends_with(s: Seq<char>, tail: Seq<char>) -> bool {
    tail.len() <= s.len() && s.subrange(s.len() - tail.len(), s.len() as int) == tail
}

/// Whether `s` starts with `head`.
pub open spec fn starts_with(s: Seq<char>, head: Seq<char>) -> bool {
    head.len() <= s.len() && s.subrange(0, head.len() as int) == head
}

/// Whether `v[from..]` begins with the characters of `w`.
pub fn has_at(v: &Vec<char>, from: usize, w: &Vec<char>) -> (r: bool)
    requires
        from <= v.len(),
    ensures
        r == (from + w.len() <= v.len() && v@.subrange(from as int, from + w.len()) == w@),
{
    if w.len() > v.len() - from {
        return false;
    }
    let mut i: usize = 0;
    while i < w.len()
        invariant
            i <= w.len(),
            from + w.len() <= v.len(),
            v@.subrange(from as int, from + i) == w@.take(i as int),
        decreases w.len() - i,
    {
        if v[from + i] != w[i] {
            return false;
        }
        i = i + 1;
    }
    assert(w@.take(w@.len() as int) == w@);
    true
}

/// The character that stands for the digit `d`.
pub open spec fn digit_char(d: int) -> char {
    if d == 0 {
        '0'
    } else if d == 1 {
        '1'
    } else if d == 2 {
        '2'
    } else if d == 3 {
        '3'
    } else if d == 4 {
        '4'
    } else if d == 5 {
        '5'
    } else if d == 6 {
        '6'
    } else if d == 7 {
        '7'
    } else if d == 8 {
        '8'
    } else {
        '9'
    }
}

/// The digit that `c` stands for, if it is one of `0` to `9`.
pub open spec fn digit_value(c: char) -> Option<nat> {
    if c == '0' {
        Some(0)
    } else if c == '1' {
        Some(1)
    } else if c == '2' {
        Some(2)
    } else if c == '3' {
        Some(3)
    } else if c == '4' {
        Some(4)
    } else if c == '5' {
        Some(5)
    } else if c == '6' {
        Some(6)
    } else if c == '7' {
        Some(7)
    } else if c == '8' {
        Some(8)
    } else if c == '9' {
        Some(9)
    } else {
        None
    }
}

/// The decimal digits of `n`, most significant first, without leading zeros.
pub open spec fn decimal(n: nat) -> Seq<char>
    decreases n,
{
    if n < 10 {
        seq![digit_char(n as int)]
    } else {
        decimal(n / 10).push(digit_char((n % 10) as int))
    }
}

/// The decimal text of an integer: a minus sign before a negative one.
pub open spec fn signed_decimal(i: int) -> Seq<char> {
    if i < 0 {
        seq!['-'] + decimal((-i) as nat)
    } else {
        decimal(i as nat)
    }
}

/// The number that a text of digits stands for: `None` for the empty text and
/// for one that holds anything but digits.
pub open spec fn digits_value(s: Seq<char>) -> Option<nat>
    decreases s.len(),
{
    if s.len() == 0 {
        None
    } else {
        match digit_value(s.last()) {
            None => None,
            Some(d) => if s.len() == 1 {
                Some(d)
            } else {
                match digits_value(s.drop_last()) {
                    None => None,
                    Some(h) => Some(h * 10 + d),
                }
            },
        }
    }
}

/// The number that a text stands for: digits, with one `+` allowed in front.
pub open spec fn number_value(s: Seq<char>) -> Option<nat> {
    if s.len() > 0 && s[0] == '+' {
        digits_value(s.skip(1))
    } else {
        digits_value(s)
    }
}

/// As `number_value`, but `None` for a number above `max`.
pub open spec fn bounded_value(s: Seq<char>, max: nat) -> Option<nat> {
    match number_value(s) {
        Some(n) => if n <= max {
            Some(n)
        } else {
            None
        },
        None => None,
    }
}

fn digit_of(d: u64) -> (c: char)
    requires
        d < 10,
    ensures
        c == digit_char(d as int),
{
    if d == 0 {
        '0'
    } else if d == 1 {
        '1'
    } else if d == 2 {
        '2'
    } else if d == 3 {
        '3'
    } else if d == 4 {
        '4'
    } else if d == 5 {
        '5'
    } else if d == 6 {
        '6'
    } else if d == 7 {
        '7'
    } else if d == 8 {
        '8'
    } else {
        '9'
    }
}

fn value_of(c: char) -> (r: Option<u64>)
    ensures
        r is Some <==> digit_value(c) is Some,
        r matches Some(d) ==> digit_value(c) == Some(d as nat) && d < 10,
{
    if c == '0' {
        Some(0)
    } else if c == '1' {
        Some(1)
    } else if c == '2' {
        Some(2)
    } else if c == '3' {
        Some(3)
    } else if c == '4' {
        Some(4)
    } else if c == '5' {
        Some(5)
    } else if c == '6' {
        Some(6)
    } else if c == '7' {
        Some(7)
    } else if c == '8' {
        Some(8)
    } else if c == '9' {
        Some(9)
    } else {
        None
    }
}

/// Appends the decimal digits of `n` to `s`.
pub fn push_decimal(s: &mut String, n: u64)
    ensures
        final(s)@ == old(s)@ + decimal(n as nat),
    decreases n,
{
    if n >= 10 {
        push_decimal(s, n / 10);
    }
    s.push(digit_of(n % 10));
}

/// Appends the decimal text of `i` to `s`.
pub fn push_signed(s: &mut String, i: i64)
    ensures
        final(s)@ == old(s)@ + signed_decimal(i as int),
{
    if i < 0 {
        s.push('-');
        let below: i64 = -(i + 1);
        let magnitude: u64 = below as u64 + 1;
        push_decimal(s, magnitude);
    } else {
        push_decimal(s, i as u64);
    }
}

/// Reads `v[from..to]` as a number of at most `max`.
pub fn parse_bounded(v: &Vec<char>, from: usize, to: usize, max: u64) -> (r: Option<u64>)
    requires
        from <= to <= v.len(),
        max <= u64::MAX / 16,
    ensures
        r is Some <==> bounded_value(v@.subrange(from as int, to as int), max as nat) is Some,
        r matches Some(n) ==> bounded_value(v@.subrange(from as int, to as int), max as nat)
            == Some(n as nat),
{
    let ghost whole = v@.subrange(from as int, to as int);
    let mut start: usize = from;
    if from < to && v[from] == '+' {
        start = from + 1;
        assert(whole.skip(1) == v@.subrange(start as int, to as int));
    }
    let ghost body = v@.subrange(start as int, to as int);
    if start == to {
        return None;
    }
    let mut acc: u64 = 0;
    let mut i: usize = start;
    while i < to
        invariant
            from <= start <= i <= to <= v.len(),
            start < to,
            max <= u64::MAX / 16,
            body == v@.subrange(start as int, to as int),
            number_value(v@.subrange(from as int, to as int)) == digits_value(body),
            acc <= max,
            i > start ==> digits_value(v@.subrange(start as int, i as int)) == Some(acc as nat),
            i == start ==> acc == 0,
        decreases to - i,
    {
        let ghost before = v@.subrange(start as int, i as int);
        let ghost now = v@.subrange(start as int, i + 1);
        assert(now.drop_last() == before);
        match value_of(v[i]) {
            None => {
                proof {
                    lemma_digits_prefix_none(body, (i - start) as int + 1);
                }
                return None;
            },
            Some(d) => {
                let next: u64 = acc * 10 + d;
                if next > max {
                    proof {
                        assert(body.take((i - start) as int + 1) == now);
                        lemma_digits_prefix_grows(body, (i - start) as int + 1);
                    }
                    return None;
                }
                acc = next;
            },
        }
        i = i + 1;
    }
    Some(acc)
}

/// Where a beginning of a text is no number, the text is none.
proof fn lemma_digits_prefix_none(s: Seq<char>, k: int)
    requires
        0 < k <= s.len(),
        digits_value(s.take(k)) is None,
    ensures
        digits_value(s) is None,
    decreases s.len(),
{
    if k < s.len() {
        assert(s.drop_last().take(k) == s.take(k));
        lemma_digits_prefix_none(s.drop_last(), k);
    } else {
        assert(s.take(k) == s);
    }
}

/// A text of digits stands for no less than any beginning of it.
proof fn lemma_digits_prefix_grows(s: Seq<char>, k: int)
    requires
        0 < k <= s.len(),
        digits_value(s.take(k)) is Some,
    ensures
        digits_value(s) matches Some(n) ==> n >= digits_value(s.take(k))->0,
    decreases s.len(),
{
    if k < s.len() {
        assert(s.drop_last().take(k) == s.take(k));
        lemma_digits_prefix_grows(s.drop_last(), k);
    } else {
        assert(s.take(k) == s);
    }
}

/// The decimals of a number of thousandths below one: nothing for zero, else a
/// point and up to three digits, without zeros at the end.
pub open spec fn fraction3(t: nat) -> Seq<char> {
    if t == 0 {
        Seq::empty()
    } else if t % 100 == 0 {
        seq!['.', digit_char((t / 100) as int)]
    } else if t % 10 == 0 {
        seq!['.', digit_char((t / 100) as int), digit_char((t / 10 % 10) as int)]
    } else {
        seq![
            '.',
            digit_char((t / 100) as int),
            digit_char((t / 10 % 10) as int),
            digit_char((t % 10) as int),
        ]
    }
}

/// A number of thousandths as a decimal number of units: `1500` reads `1.5`.
pub open spec fn thousandths(n: nat) -> Seq<char> {
    decimal(n / 1000) + fraction3(n % 1000)
}

/// Appends the decimals of `t` thousandths to `s`.
pub fn push_fraction3(s: &mut String, t: u64)
    requires
        t < 1000,
    ensures
        final(s)@ == old(s)@ + fraction3(t as nat),
{
    if t == 0 {
        return ;
    }
    s.push('.');
    s.push(digit_of(t / 100));
    if t % 100 != 0 {
        s.push(digit_of(t / 10 % 10));
        if t % 10 != 0 {
            s.push(digit_of(t % 10));
        }
    }
}

/// Appends `n` thousandths, written as a decimal number of units, to `s`.
pub fn push_thousandths(s: &mut String, n: u64)
    ensures
        final(s)@ == old(s)@ + thousandths(n as nat),
{
    push_decimal(s, n / 1000);
    push_fraction3(s, n % 1000);
}

/// Appends the characters of `t` to `s`.
pub fn push_text(s: &mut String, t: &str)
    ensures
        final(s)@ == old(s)@ + t@,
{
    let v = chars_of(t);
    push_chars(s, &v, 0, v.len());
}

/// Where `sep` first stands in `s`; the length of `s` if it stands nowhere.
pub open spec fn first_index(s: Seq<char>, sep: char) -> int
    decreases s.len(),
{
    if s.len() == 0 || s[0] == sep {
        0
    } else {
        1 + first_index(s.skip(1), sep)
    }
}

/// What stands in `s` before the first `sep`: all of `s` if there is none.
pub open spec fn head(s: Seq<char>, sep: char) -> Seq<char> {
    s.take(first_index(s, sep))
}

/// What stands in `s` behind the first `sep`, if there is one.
pub open spec fn tail(s: Seq<char>, sep: char) -> Option<Seq<char>> {
    if first_index(s, sep) < s.len() {
        Some(s.skip(first_index(s, sep) + 1))
    } else {
        None
    }
}

/// `first_index` is the one place that has `sep` and nothing but other
/// characters before it.
pub proof fn lemma_first_index(s: Seq<char>, sep: char, k: int)
    requires
        0 <= k <= s.len(),
        forall|i: int| 0 <= i < k ==> s[i] != sep,
        k < s.len() ==> s[k] == sep,
    ensures
        first_index(s, sep) == k,
    decreases s.len(),
{
    if k > 0 {
        let rest = s.skip(1);
        lemma_first_index(rest, sep, k - 1);
    }
}

/// The place of the first `sep` in `v[from..to]`, or `to`.
pub fn find_char(v: &Vec<char>, from: usize, to: usize, sep: char) -> (k: usize)
    requires
        from <= to <= v.len(),
    ensures
        from <= k <= to,
        k - from == first_index(v@.subrange(from as int, to as int), sep),
{
    let ghost part = v@.subrange(from as int, to as int);
    let mut k: usize = from;
    while k < to && v[k] != sep
        invariant
            from <= k <= to <= v.len(),
            part == v@.subrange(from as int, to as int),
            forall|i: int| 0 <= i < k - from ==> part[i] != sep,
        decreases to - k,
    {
        k = k + 1;
    }
    proof {
        lemma_first_index(part, sep, k - from);
    }
    k
}

} // verus!
