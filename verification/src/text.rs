//! Plain-text helpers with exact contracts over sequences of characters.

use vstd::prelude::*;

verus! {

/// A character with the Unicode `White_Space` property.
pub open spec fn is_white_space(c: char) -> bool {
    let n = c as u32;
    ||| 0x9 <= n <= 0xd
    ||| n == 0x20
    ||| n == 0x85
    ||| n == 0xa0
    ||| n == 0x1680
    ||| 0x2000 <= n <= 0x200a
    ||| n == 0x2028
    ||| n == 0x2029
    ||| n == 0x202f
    ||| n == 0x205f
    ||| n == 0x3000
}

/// `s` without its leading white space.
pub open spec fn trim_start(s: Seq<char>) -> Seq<char>
    decreases s.len(),
{
    if s.len() > 0 && is_white_space(s[0]) {
        trim_start(s.drop_first())
    } else {
        s
    }
}

/// `s` without its trailing white space.
pub open spec fn trim_end(s: Seq<char>) -> Seq<char>
    decreases s.len(),
{
    if s.len() > 0 && is_white_space(s.last()) {
        trim_end(s.drop_last())
    } else {
        s
    }
}

/// `s` without its leading and trailing white space.
pub open spec fn trimmed(s: Seq<char>) -> Seq<char> {
    trim_end(trim_start(s))
}

/// `c` with the letters A to Z mapped to lower case and every other character kept.
pub open spec fn ascii_lower(c: char) -> char {
    if 'A' <= c <= 'Z' {
        (c as u32 + 32) as char
    } else {
        c
    }
}

/// The text with its ASCII letters in lower case.
pub open spec fn ascii_lowered(s: Seq<char>) -> Seq<char> {
    Seq::new(s.len(), |i: int| ascii_lower(s[i]))
}

/// Every character of the text is an ASCII character.
pub open spec fn is_ascii_text(s: Seq<char>) -> bool {
    forall|i: int| 0 <= i < s.len() ==> (#[trigger] s[i]) as u32 <= 0x7f
}

/// Equal up to the case of the letters A to Z.
pub open spec fn same_ignoring_case(a: Seq<char>, b: Seq<char>) -> bool {
    &&& a.len() == b.len()
    &&& forall|i: int| 0 <= i < a.len() ==> ascii_lower(#[trigger] a[i]) == ascii_lower(b[i])
}

/// What follows `prefix` in `s`, if `s` starts with it.
pub open spec fn after_prefix(s: Seq<char>, prefix: Seq<char>) -> Option<Seq<char>> {
    if prefix.is_prefix_of(s) {
        Some(s.skip(prefix.len() as int))
    } else {
        None
    }
}

/// The position of the first `c` in `s`, or the length of `s` if there is none.
pub open spec fn first_position(s: Seq<char>, c: char) -> int
    decreases s.len(),
{
    if s.len() == 0 || s[0] == c {
        0
    } else {
        1 + first_position(s.drop_first(), c)
    }
}

/// The parts of `s` around the first `separator`, if there is one.
pub open spec fn around_first(s: Seq<char>, separator: char) -> Option<(Seq<char>, Seq<char>)> {
    let i = first_position(s, separator);
    if i < s.len() {
        Some((s.take(i), s.skip(i + 1)))
    } else {
        None
    }
}

/// The parts of `s` between the occurrences of `separator`.
pub open spec fn fields(s: Seq<char>, separator: char) -> Seq<Seq<char>>
    decreases s.len(),
{
    let i = first_position(s, separator);
    if 0 <= i < s.len() {
        seq![s.take(i)] + fields(s.skip(i + 1), separator)
    } else {
        seq![s]
    }
}

/// `needle` occurs somewhere in `s`.
pub open spec fn occurs_in(needle: Seq<char>, s: Seq<char>) -> bool {
    exists|i: int| #[trigger] occurs_at(needle, s, i)
}

/// `needle` occurs in `s` at position `i`.
pub open spec fn occurs_at(needle: Seq<char>, s: Seq<char>, i: int) -> bool {
    &&& 0 <= i <= s.len() - needle.len()
    &&& s.subrange(i, i + needle.len()) == needle
}

pub open spec fn is_digit(c: char) -> bool {
    '0' <= c <= '9'
}

/// The decimal digit with value `d`.
pub open spec fn digit_char(d: nat) -> char {
    (d + '0' as u32) as char
}

/// `n` in decimal, without leading zeros.
pub open spec fn decimal(n: nat) -> Seq<char>
    decreases n,
{
    if n < 10 {
        seq![digit_char(n)]
    } else {
        decimal(n / 10).push(digit_char(n % 10))
    }
}

/// The value of a sequence of decimal digits.
pub open spec fn digits_value(s: Seq<char>) -> nat
    decreases s.len(),
{
    if s.len() == 0 {
        0
    } else {
        digits_value(s.drop_last()) * 10 + (s.last() as u32 - '0' as u32) as nat
    }
}

/// `s` without a leading plus sign.
pub open spec fn without_plus(s: Seq<char>) -> Seq<char> {
    if s.len() > 0 && s[0] == '+' {
        s.drop_first()
    } else {
        s
    }
}

/// One or more decimal digits and nothing else.
pub open spec fn all_digits(s: Seq<char>) -> bool {
    s.len() > 0 && forall|i: int| 0 <= i < s.len() ==> is_digit(#[trigger] s[i])
}

/// The number from 0 to 255 that `s` writes down: an optional plus sign followed by one or more
/// decimal digits.
pub open spec fn u8_value(s: Seq<char>) -> Option<u8> {
    let digits = without_plus(s);
    if all_digits(digits) && digits_value(digits) <= 255 {
        Some(digits_value(digits) as u8)
    } else {
        None
    }
}

/// "true" or "false".
pub open spec fn bool_text(b: bool) -> Seq<char> {
    if b {
        "true"@
    } else {
        "false"@
    }
}

/// The characters of `s`.
pub fn chars_of(s: &str) -> (r: Vec<char>)
    ensures
        r@ == s@,
{
    let mut r: Vec<char> = Vec::new();
    for c in it: s.chars()
        invariant
            it.seq() == s@,
            r@ == s@.take(it.index() as int),
    {
        r.push(c);
    }
    r
}

/// Whether `c` has the Unicode `White_Space` property.
pub fn white_space(c: char) -> (r: bool)
    ensures
        r == is_white_space(c),
{
    let n: u32 = c as u32;
    (0x9 <= n && n <= 0xd) || n == 0x20 || n == 0x85 || n == 0xa0 || n == 0x1680
        || (0x2000 <= n && n <= 0x200a) || n == 0x2028 || n == 0x2029 || n == 0x202f || n == 0x205f
        || n == 0x3000
}

/// `s` without leading and trailing white space.
pub fn trim(s: &str) -> (r: &str)
    ensures
        r@ == trimmed(s@),
{
    let cs = chars_of(s);
    let mut from: usize = 0;
    assert(s@.skip(0) == s@);
    while from < cs.len() && white_space(cs[from])
        invariant
            cs@ == s@,
            from <= cs.len(),
            trim_start(s@) == trim_start(s@.skip(from as int)),
        decreases cs.len() - from,
    {
        assert(s@.skip(from as int).drop_first() == s@.skip(from + 1));
        from += 1;
    }
    assert(trim_start(s@) == s@.skip(from as int));
    let mut to: usize = cs.len();
    assert(s@.subrange(from as int, to as int) == s@.skip(from as int));
    while from < to && white_space(cs[to - 1])
        invariant
            cs@ == s@,
            from <= to <= cs.len(),
            trimmed(s@) == trim_end(s@.subrange(from as int, to as int)),
        decreases to - from,
    {
        assert(s@.subrange(from as int, to as int).drop_last() == s@.subrange(
            from as int,
            to - 1,
        ));
        to -= 1;
    }
    s.substring_char(from, to)
}

/// Whether `a` and `b` hold the same characters.
pub fn equal(a: &str, b: &str) -> (r: bool)
    ensures
        r == (a@ == b@),
{
    let x = chars_of(a);
    let y = chars_of(b);
    if x.len() != y.len() {
        return false;
    }
    for i in 0..x.len()
        invariant
            x@ == a@,
            y@ == b@,
            x.len() == y.len(),
            forall|j: int| 0 <= j < i ==> a@[j] == b@[j],
    {
        if x[i] != y[i] {
            return false;
        }
    }
    assert(a@ == b@);
    true
}

/// `c` with the letters A to Z mapped to lower case.
fn lower(c: char) -> (r: char)
    ensures
        r == ascii_lower(c),
{
    match c {
        'A' => 'a',
        'B' => 'b',
        'C' => 'c',
        'D' => 'd',
        'E' => 'e',
        'F' => 'f',
        'G' => 'g',
        'H' => 'h',
        'I' => 'i',
        'J' => 'j',
        'K' => 'k',
        'L' => 'l',
        'M' => 'm',
        'N' => 'n',
        'O' => 'o',
        'P' => 'p',
        'Q' => 'q',
        'R' => 'r',
        'S' => 's',
        'T' => 't',
        'U' => 'u',
        'V' => 'v',
        'W' => 'w',
        'X' => 'x',
        'Y' => 'y',
        'Z' => 'z',
        _ => c,
    }
}

/// Whether `a` and `b` are equal up to the case of the letters A to Z.
pub fn equal_ignoring_case(a: &str, b: &str) -> (r: bool)
    ensures
        r == same_ignoring_case(a@, b@),
{
    let x = chars_of(a);
    let y = chars_of(b);
    if x.len() != y.len() {
        return false;
    }
    for i in 0..x.len()
        invariant
            x@ == a@,
            y@ == b@,
            x.len() == y.len(),
            forall|j: int| 0 <= j < i ==> ascii_lower(#[trigger] a@[j]) == ascii_lower(b@[j]),
    {
        if lower(x[i]) != lower(y[i]) {
            assert(ascii_lower(a@[i as int]) != ascii_lower(b@[i as int]));
            return false;
        }
    }
    true
}

/// What follows `prefix` in `s`, if `s` starts with it.
pub fn strip_prefix<'a>(s: &'a str, prefix: &str) -> (r: Option<&'a str>)
    ensures
        match r {
            Some(rest) => after_prefix(s@, prefix@) == Some(rest@),
            None => after_prefix(s@, prefix@) is None,
        },
{
    let n = s.unicode_len();
    let k = prefix.unicode_len();
    if k <= n && equal(s.substring_char(0, k), prefix) {
        let rest = s.substring_char(k, n);
        assert(rest@ == s@.skip(k as int));
        Some(rest)
    } else {
        proof {
            if prefix@.is_prefix_of(s@) {
                assert(s@.subrange(0, k as int) == prefix@);
            }
        }
        None
    }
}

/// The position of the first `c` in `cs` at or after `from`, or the length of `cs`.
fn position_from(cs: &Vec<char>, from: usize, c: char) -> (r: usize)
    requires
        from <= cs.len(),
    ensures
        from <= r <= cs.len(),
        r - from == first_position(cs@.skip(from as int), c),
        r < cs.len() ==> cs[r as int] == c,
{
    let mut i: usize = from;
    while i < cs.len() && cs[i] != c
        invariant
            from <= i <= cs.len(),
            first_position(cs@.skip(from as int), c) == i - from + first_position(
                cs@.skip(i as int),
                c,
            ),
        decreases cs.len() - i,
    {
        assert(cs@.skip(i as int).drop_first() == cs@.skip(i + 1));
        i += 1;
    }
    i
}

/// The parts of `s` around the first `separator`, if there is one.
pub fn split_once<'a>(s: &'a str, separator: char) -> (r: Option<(&'a str, &'a str)>)
    ensures
        match r {
            Some((before, after)) => around_first(s@, separator) == Some((before@, after@)),
            None => around_first(s@, separator) is None,
        },
{
    let cs = chars_of(s);
    let i = position_from(&cs, 0, separator);
    assert(cs@.skip(0) == s@);
    if i < cs.len() {
        let before = s.substring_char(0, i);
        let after = s.substring_char(i + 1, cs.len());
        assert(before@ == s@.take(i as int));
        assert(after@ == s@.skip(i + 1));
        Some((before, after))
    } else {
        None
    }
}

/// The characters of each of the texts in `parts`.
pub open spec fn views(parts: Seq<&str>) -> Seq<Seq<char>> {
    Seq::new(parts.len(), |i: int| parts[i]@)
}

/// The parts of `s` between the occurrences of `separator`.
pub fn split<'a>(s: &'a str, separator: char) -> (r: Vec<&'a str>)
    ensures
        views(r@) == fields(s@, separator),
{
    let cs = chars_of(s);
    let mut r: Vec<&'a str> = Vec::new();
    let mut from: usize = 0;
    assert(cs@.skip(0) == s@);
    assert(views(r@) + fields(s@, separator) == fields(s@, separator));
    loop
        invariant
            cs@ == s@,
            from <= cs.len(),
            fields(s@, separator) == views(r@) + fields(s@.skip(from as int), separator),
        decreases cs.len() - from,
    {
        let ghost rest = s@.skip(from as int);
        let ghost done = views(r@);
        let i = position_from(&cs, from, separator);
        let part = s.substring_char(from, i);
        assert(part@ == rest.take(i - from));
        r.push(part);
        assert(views(r@) == done.push(part@));
        if i == cs.len() {
            assert(part@ == rest);
            assert(views(r@) == done + seq![rest]);
            return r;
        }
        assert(rest.skip(i - from + 1) == s@.skip(i + 1));
        assert(done + (seq![part@] + fields(s@.skip(i + 1), separator)) == views(r@) + fields(
            s@.skip(i + 1),
            separator,
        ));
        from = i + 1;
    }
}

/// Whether `needle` occurs somewhere in `s`.
pub fn contains(s: &str, needle: &str) -> (r: bool)
    ensures
        r == occurs_in(needle@, s@),
{
    let n = s.unicode_len();
    let k = needle.unicode_len();
    if k > n {
        return false;
    }
    let mut i: usize = 0;
    while i <= n - k
        invariant
            n == s@.len(),
            k == needle@.len(),
            k <= n,
            i <= n - k + 1,
            forall|j: int| 0 <= j < i ==> !#[trigger] occurs_at(needle@, s@, j),
        decreases n - k + 1 - i,
    {
        if equal(s.substring_char(i, i + k), needle) {
            assert(occurs_at(needle@, s@, i as int));
            return true;
        }
        assert(!occurs_at(needle@, s@, i as int));
        if i == n - k {
            return false;
        }
        i += 1;
    }
    false
}

/// The decimal digit with value `d`, as a text.
fn digit_text(d: u8) -> (r: &'static str)
    requires
        d < 10,
    ensures
        r@ == seq![digit_char(d as nat)],
{
    proof {
        reveal_strlit("0");
        reveal_strlit("1");
        reveal_strlit("2");
        reveal_strlit("3");
        reveal_strlit("4");
        reveal_strlit("5");
        reveal_strlit("6");
        reveal_strlit("7");
        reveal_strlit("8");
        reveal_strlit("9");
    }
    match d {
        0 => "0",
        1 => "1",
        2 => "2",
        3 => "3",
        4 => "4",
        5 => "5",
        6 => "6",
        7 => "7",
        8 => "8",
        _ => "9",
    }
}

/// Appends `n` in decimal.
pub fn append_decimal(out: &mut String, n: u8)
    ensures
        final(out)@ == old(out)@ + decimal(n as nat),
{
    let ghost before = out@;
    if n >= 100 {
        out.append(digit_text(n / 100));
    }
    if n >= 10 {
        out.append(digit_text(n / 10 % 10));
    }
    out.append(digit_text(n % 10));
    proof {
        reveal_with_fuel(decimal, 4);
        let n = n as nat;
        assert(out@ == before + decimal(n));
    }
}

/// Appends "true" or "false".
pub fn append_bool(out: &mut String, b: bool)
    ensures
        final(out)@ == old(out)@ + bool_text(b),
{
    if b {
        out.append("true");
    } else {
        out.append("false");
    }
}

/// The number from 0 to 255 that `s` writes down: an optional plus sign followed by one or more
/// decimal digits.
pub fn parse_u8(s: &str) -> (r: Option<u8>)
    ensures
        r == u8_value(s@),
{
    let cs = chars_of(s);
    let from: usize = if cs.len() > 0 && cs[0] == '+' { 1 } else { 0 };
    let ghost digits = s@.skip(from as int);
    assert(digits == without_plus(s@));
    let mut value: u32 = 0;
    let mut i: usize = from;
    while i < cs.len()
        invariant
            cs@ == s@,
            from <= i <= cs.len(),
            digits == s@.skip(from as int),
            digits == without_plus(s@),
            digits.len() == cs.len() - from,
            forall|j: int| 0 <= j < i - from ==> is_digit(#[trigger] digits[j]),
            value <= 2559,
            value <= 255 ==> value == digits_value(digits.take(i - from)),
            value > 255 ==> digits_value(digits.take(i - from)) > 255,
        decreases cs.len() - i,
    {
        let c = cs[i];
        assert(c == digits[i - from]);
        if !('0' <= c && c <= '9') {
            assert(!is_digit(digits[i - from]));
            return None;
        }
        assert(digits.take(i - from + 1).drop_last() == digits.take(i - from));
        if value <= 255 {
            value = value * 10 + (c as u32 - '0' as u32);
        }
        i += 1;
    }
    assert(digits.take(i - from) == digits);
    if from < cs.len() && value <= 255 {
        Some(value as u8)
    } else {
        None
    }
}

/// A name below a directory, as a path.
pub open spec fn path_below(dir: Seq<char>, name: Seq<char>) -> Seq<char> {
    if dir.len() == 0 || dir.last() == '/' {
        dir + name
    } else {
        dir + "/"@ + name
    }
}

/// The path of a name below a directory.
pub fn join_path(dir: &str, name: &str) -> (r: String)
    ensures
        r@ == path_below(dir@, name@),
{
    let mut out = dir.to_owned();
    let n: usize = dir.unicode_len();
    if n > 0 && dir.get_char(n - 1) != '/' {
        out.append("/");
    }
    out.append(name);
    out
}

/// The digits of a number from 0 to 255 read back as that number.
pub proof fn lemma_decimal_reads_back(n: u8)
    ensures
        u8_value(decimal(n as nat)) == Some(n),
{
    lemma_decimal_digits(n as nat);
    lemma_decimal_value(n as nat);
}

/// Decimal texts hold digits only, at least one.
pub proof fn lemma_decimal_digits(n: nat)
    ensures
        all_digits(decimal(n)),
    decreases n,
{
    if n >= 10 {
        lemma_decimal_digits(n / 10);
    }
}

proof fn lemma_decimal_value(n: nat)
    ensures
        digits_value(decimal(n)) == n,
    decreases n,
{
    if n < 10 {
        let s = decimal(n);
        assert(s.drop_last() == Seq::<char>::empty());
        reveal_with_fuel(digits_value, 2);
    } else {
        lemma_decimal_value(n / 10);
        assert(decimal(n).drop_last() == decimal(n / 10));
    }
}

/// A byte has at most three digits.
pub proof fn lemma_decimal_is_short(n: u8)
    ensures
        decimal(n as nat).len() <= 3,
{
    reveal_with_fuel(decimal, 4);
}

/// A text that neither starts nor ends with white space is what trimming leaves of its line.
pub proof fn lemma_line_trims(s: Seq<char>)
    requires
        s.len() > 0,
        !is_white_space(s[0]),
        !is_white_space(s.last()),
    ensures
        trimmed(s + "\n"@) == s,
        trimmed(s) == s,
{
    reveal_strlit("\n");
    let line = s + "\n"@;
    assert(line[0] == s[0]);
    assert(trim_start(line) == line);
    assert(line.last() == '\n');
    assert(line.drop_last() == s);
    reveal_with_fuel(trim_end, 2);
}

/// `c` does not occur in `s`.
pub open spec fn free_of(s: Seq<char>, c: char) -> bool {
    forall|i: int| 0 <= i < s.len() ==> #[trigger] s[i] != c
}

/// The first `c` of `a` followed by `c` and `rest` is the one after `a`, if `a` has none.
pub proof fn lemma_first_position(a: Seq<char>, c: char, rest: Seq<char>)
    requires
        free_of(a, c),
    ensures
        first_position(a + seq![c] + rest, c) == a.len(),
    decreases a.len(),
{
    let s = a + seq![c] + rest;
    if a.len() == 0 {
        assert(s[0] == c);
    } else {
        assert(s[0] == a[0]);
        assert(s.drop_first() == a.drop_first() + seq![c] + rest);
        assert forall|i: int| 0 <= i < a.drop_first().len() implies #[trigger] a.drop_first()[i]
            != c by {
            assert(a.drop_first()[i] == a[i + 1]);
        }
        lemma_first_position(a.drop_first(), c, rest);
    }
}

/// There is no position of `c` in a text without it.
pub proof fn lemma_no_position(s: Seq<char>, c: char)
    requires
        free_of(s, c),
    ensures
        first_position(s, c) == s.len(),
    decreases s.len(),
{
    if s.len() > 0 {
        assert forall|i: int| 0 <= i < s.drop_first().len() implies #[trigger] s.drop_first()[i]
            != c by {
            assert(s.drop_first()[i] == s[i + 1]);
        }
        lemma_no_position(s.drop_first(), c);
    }
}

/// A text is parted at its first separator.
pub proof fn lemma_around_first(a: Seq<char>, c: char, rest: Seq<char>)
    requires
        free_of(a, c),
    ensures
        around_first(a + seq![c] + rest, c) == Some((a, rest)),
{
    let s = a + seq![c] + rest;
    lemma_first_position(a, c, rest);
    assert(s.take(a.len() as int) == a);
    assert(s.skip(a.len() as int + 1) == rest);
}

/// The first field comes off at the first separator.
pub proof fn lemma_fields_cons(a: Seq<char>, c: char, rest: Seq<char>)
    requires
        free_of(a, c),
    ensures
        fields(a + seq![c] + rest, c) == seq![a] + fields(rest, c),
{
    let s = a + seq![c] + rest;
    lemma_first_position(a, c, rest);
    assert(s.take(a.len() as int) == a);
    assert(s.skip(a.len() as int + 1) == rest);
}

/// A text without the separator is one field.
pub proof fn lemma_fields_last(s: Seq<char>, c: char)
    requires
        free_of(s, c),
    ensures
        fields(s, c) == seq![s],
{
    lemma_no_position(s, c);
}

/// White space at the end comes off what follows a prefix that does not end with any, and a line
/// feed with it.
pub proof fn lemma_line_end_trims(prefix: Seq<char>, rest: Seq<char>)
    requires
        prefix.len() > 0,
        !is_white_space(prefix.last()),
    ensures
        trim_end(prefix + rest) == prefix + trim_end(rest),
        trim_end(prefix + rest + "\n"@) == prefix + trim_end(rest),
    decreases rest.len(),
{
    reveal_strlit("\n");
    let s = prefix + rest;
    if rest.len() == 0 {
        assert(s == prefix);
        assert(prefix + trim_end(rest) == prefix);
    } else {
        assert(s.last() == rest.last());
        assert(s.drop_last() == prefix + rest.drop_last());
        lemma_line_end_trims(prefix, rest.drop_last());
    }
    let line = s + "\n"@;
    assert(line.last() == '\n');
    assert(line.drop_last() == s);
}

/// What was put in front comes off again.
pub proof fn lemma_prefix_comes_off(prefix: Seq<char>, rest: Seq<char>)
    ensures
        after_prefix(prefix + rest, prefix) == Some(rest),
{
    assert(prefix.is_prefix_of(prefix + rest));
    assert((prefix + rest).skip(prefix.len() as int) == rest);
}

/// A number that stands between a prefix and a character that is no digit can be read back.
pub proof fn lemma_number_reads_back(prefix: Seq<char>, n: u8, after: char, rest: Seq<char>)
    requires
        !is_digit(after),
    ensures
        ({
            let s = prefix + (decimal(n as nat) + seq![after] + rest);
            &&& prefix.is_prefix_of(s)
            &&& around_first(s.skip(prefix.len() as int), after) == Some((decimal(n as nat), rest))
            &&& u8_value(decimal(n as nat)) == Some(n)
        }),
{
    let digits = decimal(n as nat);
    let s = prefix + (digits + seq![after] + rest);
    lemma_decimal_digits(n as nat);
    lemma_decimal_reads_back(n);
    assert(free_of(digits, after)) by {
        assert forall|i: int| 0 <= i < digits.len() implies #[trigger] digits[i] != after by {
            assert(is_digit(digits[i]));
        }
    }
    lemma_prefix_comes_off(prefix, digits + seq![after] + rest);
    assert(s.skip(prefix.len() as int) == digits + seq![after] + rest);
    lemma_around_first(digits, after, rest);
}

/// Only white space stands around what trimming leaves, and that neither starts nor ends with any.
pub proof fn trimming_takes_white_space_only(s: Seq<char>)
    ensures
        ({
            let t = trimmed(s);
            &&& t.len() > 0 ==> !is_white_space(t[0]) && !is_white_space(t.last())
            &&& exists|before: Seq<char>, after: Seq<char>| #[trigger]
                white_space_around(before, after) && s == before + t + after
        }),
{
    lemma_trim_start(s);
    let started = trim_start(s);
    lemma_trim_end(started);
    let t = trimmed(s);
    let before = s.take(s.len() - started.len());
    let after = started.skip(t.len() as int);
    assert(white_space_around(before, after));
    assert(s == before + t + after);
    if t.len() > 0 {
        assert(t[0] == started[0]);
    }
}

/// The two texts are white space.
pub open spec fn white_space_around(before: Seq<char>, after: Seq<char>) -> bool {
    &&& forall|i: int| 0 <= i < before.len() ==> is_white_space(#[trigger] before[i])
    &&& forall|i: int| 0 <= i < after.len() ==> is_white_space(#[trigger] after[i])
}

proof fn lemma_trim_start(s: Seq<char>)
    ensures
        ({
            let t = trim_start(s);
            let n = s.len() - t.len();
            &&& 0 <= n
            &&& s.skip(n) == t
            &&& forall|i: int| 0 <= i < n ==> is_white_space(#[trigger] s[i])
            &&& t.len() > 0 ==> !is_white_space(t[0])
        }),
    decreases s.len(),
{
    if s.len() > 0 && is_white_space(s[0]) {
        let rest = s.drop_first();
        lemma_trim_start(rest);
        let t = trim_start(s);
        let n = s.len() - t.len();
        assert(s.skip(n) == rest.skip(n - 1));
        assert forall|i: int| 0 <= i < n implies is_white_space(#[trigger] s[i]) by {
            if i > 0 {
                assert(rest[i - 1] == s[i]);
            }
        }
    } else {
        assert(s.skip(0) == s);
    }
}

proof fn lemma_trim_end(s: Seq<char>)
    ensures
        ({
            let t = trim_end(s);
            &&& t.len() <= s.len()
            &&& s.take(t.len() as int) == t
            &&& forall|i: int| t.len() <= i < s.len() ==> is_white_space(#[trigger] s[i])
            &&& t.len() > 0 ==> !is_white_space(t.last())
        }),
    decreases s.len(),
{
    if s.len() > 0 && is_white_space(s.last()) {
        let rest = s.drop_last();
        lemma_trim_end(rest);
        let t = trim_end(s);
        assert(s.take(t.len() as int) == rest.take(t.len() as int));
        assert forall|i: int| t.len() <= i < s.len() implies is_white_space(#[trigger] s[i]) by {
            if i < s.len() - 1 {
                assert(rest[i] == s[i]);
            }
        }
    } else {
        assert(s.take(s.len() as int) == s);
    }
}

/// Another digit at the end makes a number ten times as great and adds the digit, as long as it
/// stays below 256; anything else at the end makes it no number.
pub proof fn digits_make_numbers(s: Seq<char>, c: char)
    requires
        u8_value(s) is Some,
    ensures
        ({
            let value = u8_value(s)->Some_0;
            let digit = c as u32 - 48;
            let longer = u8_value(s.push(c));
            if 0 <= digit <= 9 && 10 * value + digit <= 255 {
                longer == Some((10 * value + digit) as u8)
            } else {
                longer is None
            }
        }),
{
    let digits = without_plus(s);
    assert(without_plus(s.push(c)) == digits.push(c));
    assert(digits.push(c).drop_last() == digits);
    assert(digits.push(c).last() == c);
    let longer = digits.push(c);
    if is_digit(c) {
        assert forall|i: int| 0 <= i < longer.len() implies is_digit(#[trigger] longer[i]) by {
            if i < digits.len() {
                assert(longer[i] == digits[i]);
            }
        }
    } else {
        assert(!is_digit(longer[longer.len() - 1]));
    }
}

/// One character is a number exactly if it is a digit, and then it is what the digit says. No
/// character at all is none.
pub proof fn single_digits_are_numbers(c: char)
    ensures
        u8_value(seq![c]) == if 48 <= c as u32 <= 57 {
            Some((c as u32 - 48) as u8)
        } else {
            None
        },
        u8_value(Seq::empty()) is None,
{
    reveal_with_fuel(digits_value, 2);
    let s = seq![c];
    assert(s.drop_last() == Seq::<char>::empty());
    assert(s.drop_first() == Seq::<char>::empty());
    assert(s[0] == c);
    if is_digit(c) {
        assert(all_digits(s));
    }
}

/// Every text is what its fields are, put together with the separator between them, and no field
/// holds the separator.
pub proof fn fields_join_back(s: Seq<char>, c: char)
    ensures
        fields(s, c).len() > 0,
        forall|i: int| 0 <= i < fields(s, c).len() ==> free_of(#[trigger] fields(s, c)[i], c),
        joined_fields(fields(s, c), c) == s,
    decreases s.len(),
{
    let i = first_position(s, c);
    lemma_position_is_first(s, c);
    let all = fields(s, c);
    if i < s.len() {
        let first = s.take(i);
        let rest = s.skip(i + 1);
        fields_join_back(rest, c);
        assert(all.drop_first() == fields(rest, c));
        assert(free_of(first, c)) by {
            assert forall|j: int| 0 <= j < first.len() implies #[trigger] first[j] != c by {
                assert(first[j] == s[j]);
            }
        }
        assert forall|k: int| 0 <= k < all.len() implies free_of(#[trigger] all[k], c) by {
            if k > 0 {
                assert(all[k] == fields(rest, c)[k - 1]);
            }
        }
        assert(joined_fields(all, c) == first + seq![c] + rest);
        assert(first + seq![c] + rest == s);
    } else {
        assert(all == seq![s]);
        assert(free_of(s, c));
    }
}

/// The fields with the separator between them.
pub open spec fn joined_fields(fields: Seq<Seq<char>>, c: char) -> Seq<char>
    decreases fields.len(),
{
    if fields.len() == 0 {
        Seq::empty()
    } else if fields.len() == 1 {
        fields[0]
    } else {
        fields[0] + seq![c] + joined_fields(fields.drop_first(), c)
    }
}

proof fn lemma_position_is_first(s: Seq<char>, c: char)
    ensures
        0 <= first_position(s, c) <= s.len(),
        first_position(s, c) < s.len() ==> s[first_position(s, c)] == c,
        forall|j: int| 0 <= j < first_position(s, c) ==> #[trigger] s[j] != c,
    decreases s.len(),
{
    if s.len() > 0 && s[0] != c {
        let rest = s.drop_first();
        lemma_position_is_first(rest, c);
        let i = first_position(s, c);
        assert forall|j: int| 0 <= j < i implies #[trigger] s[j] != c by {
            if j > 0 {
                assert(rest[j - 1] == s[j]);
            }
        }
        if i < s.len() {
            assert(rest[i - 1] == s[i]);
        }
    }
}

/// A text that is parted holds the two parts with the separator between them, the first part without
/// a separator; one that is not parted holds none.
pub proof fn parts_join_back(s: Seq<char>, c: char)
    ensures
        match around_first(s, c) {
            Some((before, after)) => free_of(before, c) && s == before + seq![c] + after,
            None => free_of(s, c),
        },
{
    lemma_position_is_first(s, c);
    let i = first_position(s, c);
    if i < s.len() {
        let before = s.take(i);
        assert forall|j: int| 0 <= j < before.len() implies #[trigger] before[j] != c by {
            assert(before[j] == s[j]);
        }
        assert(s == before + seq![c] + s.skip(i + 1));
    }
}

/// A text occurs in another exactly if that is made of something, the text and something more.
pub proof fn occurring_is_being_a_part(needle: Seq<char>, s: Seq<char>)
    ensures
        occurs_in(needle, s) <==> exists|before: Seq<char>, after: Seq<char>|
            s == #[trigger] (before + needle + after),
{
    if occurs_in(needle, s) {
        let i = choose|i: int| #[trigger] occurs_at(needle, s, i);
        let before = s.take(i);
        let after = s.skip(i + needle.len());
        assert(s == before + needle + after);
    }
    if exists|before: Seq<char>, after: Seq<char>| s == #[trigger] (before + needle + after) {
        let (before, after) = choose|before: Seq<char>, after: Seq<char>|
            s == #[trigger] (before + needle + after);
        let n = before.len() as int;
        assert(s.subrange(n, n + needle.len()) == needle);
        assert(occurs_at(needle, s, n));
    }
}

/// A path below a directory starts with the directory and ends with the name, and there is at most a
/// slash between them, which is there unless the directory is empty or ends with one.
pub proof fn paths_hold_directory_and_name(dir: Seq<char>, name: Seq<char>)
    ensures
        ({
            let path = path_below(dir, name);
            let between = path.len() - dir.len() - name.len();
            &&& dir.is_prefix_of(path)
            &&& 0 <= between <= 1
            &&& path.skip(path.len() - name.len()) == name
            &&& between == 1 ==> path[dir.len() as int] == '/'
            &&& between == 0 <==> dir.len() == 0 || dir[dir.len() - 1] == '/'
        }),
{
    reveal_strlit("/");
    let path = path_below(dir, name);
    assert(dir.is_prefix_of(path));
    assert(path.skip(path.len() - name.len()) == name);
}

/// Texts are the same without regard to case exactly if one is the other with some of the letters A
/// to Z, and nothing else, in the other case.
pub proof fn only_letters_have_a_case(a: Seq<char>, b: Seq<char>)
    ensures
        same_ignoring_case(a, b) <==> a.len() == b.len() && forall|i: int|
            0 <= i < a.len() ==> {
                let x = #[trigger] a[i] as u32;
                let y = b[i] as u32;
                ||| x == y
                ||| 65 <= x <= 90 && y == x + 32
                ||| 65 <= y <= 90 && x == y + 32
            },
{
    if same_ignoring_case(a, b) {
        assert forall|i: int| 0 <= i < a.len() implies {
            let x = #[trigger] a[i] as u32;
            let y = b[i] as u32;
            ||| x == y
            ||| 65 <= x <= 90 && y == x + 32
            ||| 65 <= y <= 90 && x == y + 32
        } by {
            assert(ascii_lower(a[i]) == ascii_lower(b[i]));
        }
    }
}

/// The code points of the Unicode property `White_Space`.
pub open spec fn white_space_codes() -> Seq<u32> {
    seq![
        0x9u32,
        0xa,
        0xb,
        0xc,
        0xd,
        0x20,
        0x85,
        0xa0,
        0x1680,
        0x2000,
        0x2001,
        0x2002,
        0x2003,
        0x2004,
        0x2005,
        0x2006,
        0x2007,
        0x2008,
        0x2009,
        0x200a,
        0x2028,
        0x2029,
        0x202f,
        0x205f,
        0x3000,
    ]
}

/// White space is what Unicode counts as such, 25 characters in all.
pub proof fn white_space_is_that_of_unicode(c: char, found: bool)
    requires
        call_ensures(white_space, (c,), found),
    ensures
        found == white_space_codes().contains(c as u32),
        white_space_codes().len() == 25,
{
    let codes = white_space_codes();
    assert(codes[0] == 0x9);
    assert(codes[1] == 0xa);
    assert(codes[2] == 0xb);
    assert(codes[3] == 0xc);
    assert(codes[4] == 0xd);
    assert(codes[5] == 0x20);
    assert(codes[6] == 0x85);
    assert(codes[7] == 0xa0);
    assert(codes[8] == 0x1680);
    assert(codes[9] == 0x2000);
    assert(codes[10] == 0x2001);
    assert(codes[11] == 0x2002);
    assert(codes[12] == 0x2003);
    assert(codes[13] == 0x2004);
    assert(codes[14] == 0x2005);
    assert(codes[15] == 0x2006);
    assert(codes[16] == 0x2007);
    assert(codes[17] == 0x2008);
    assert(codes[18] == 0x2009);
    assert(codes[19] == 0x200a);
    assert(codes[20] == 0x2028);
    assert(codes[21] == 0x2029);
    assert(codes[22] == 0x202f);
    assert(codes[23] == 0x205f);
    assert(codes[24] == 0x3000);
}

/// A prefix comes off exactly where it is one, and what is left is the rest.
pub proof fn prefixes_come_off(s: Seq<char>, prefix: Seq<char>, rest: Seq<char>)
    ensures
        after_prefix(s, prefix) == Some(rest) <==> s == prefix + rest,
{
    if s == prefix + rest {
        lemma_prefix_comes_off(prefix, rest);
    }
    if prefix.is_prefix_of(s) {
        assert(s == prefix + s.skip(prefix.len() as int));
    }
}

/// Numbers are written without zeros in front, and ten times a number and a digit is the number with
/// that digit behind it.
pub proof fn decimals_are_plain(n: nat, digit: nat)
    requires
        digit < 10,
    ensures
        decimal(digit) == seq![(48 + digit) as char],
        n > 0 ==> decimal(n).len() > 0 && decimal(n)[0] != '0',
        n > 0 ==> decimal(10 * n + digit) == decimal(n) + decimal(digit),
    decreases n,
{
    if n >= 10 {
        decimals_are_plain(n / 10, digit);
        assert(decimal(n)[0] == decimal(n / 10)[0]);
    }
    assert((10 * n + digit) / 10 == n);
    assert((10 * n + digit) % 10 == digit);
}

/// What is no number does not become one by a further character, unless nothing but a plus sign
/// stood there.
pub proof fn other_texts_are_no_numbers(s: Seq<char>, c: char)
    requires
        s.len() > 0,
        s != seq!['+'],
        u8_value(s) is None,
    ensures
        u8_value(s.push(c)) is None,
{
    let digits = without_plus(s);
    let longer = digits.push(c);
    assert(without_plus(s.push(c)) == longer);
    assert(longer.drop_last() == digits);
    if digits.len() == 0 {
        assert(s == seq!['+']);
    }
    if all_digits(longer) {
        assert forall|i: int| 0 <= i < digits.len() implies is_digit(#[trigger] digits[i]) by {
            assert(longer[i] == digits[i]);
        }
        assert(is_digit(longer[longer.len() - 1]));
    }
}

/// One plus sign in front does not matter, and a second one is no number.
pub proof fn a_plus_sign_does_not_matter(s: Seq<char>)
    ensures
        s.len() > 0 && s[0] != '+' ==> u8_value(seq!['+'] + s) == u8_value(s),
        s.len() == 0 || s[0] == '+' ==> u8_value(seq!['+'] + s) is None,
{
    let t = seq!['+'] + s;
    assert(t.drop_first() == s);
    if s.len() > 0 && s[0] == '+' {
        assert(!is_digit(s[0]));
    }
}

} // verus!
