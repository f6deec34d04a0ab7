//! Small text utilities shared by the pipeline stages: character classes,
//! conversions between strings and character vectors, and decimal numbers.

use vstd::prelude::*;
use vstd::std_specs::iter::IteratorSpec;

verus! {

/// The characters with the Unicode `White_Space` property.
pub open spec fn is_space(c: char) -> bool {
    let n = c as u32;
    ||| 0x09 <= n <= 0x0D
    ||| n == 0x20
    ||| n == 0x85
    ||| n == 0xA0
    ||| n == 0x1680
    ||| 0x2000 <= n <= 0x200A
    ||| n == 0x2028
    ||| n == 0x2029
    ||| n == 0x202F
    ||| n == 0x205F
    ||| n == 0x3000
}

/// Whether `c` is a white-space character.
pub fn is_space_char(c: char) -> (b: bool)
    ensures
        b == is_space(c),
{
    let n: u32 = c as u32;
    (0x09 <= n && n <= 0x0D) || n == 0x20 || n == 0x85 || n == 0xA0 || n == 0x1680 || (0x2000 <= n
        && n <= 0x200A) || n == 0x2028 || n == 0x2029 || n == 0x202F || n == 0x205F || n == 0x3000
}

/// The characters of `s`, in order.
pub fn chars_of(s: &str) -> (out: Vec<char>)
    ensures
        out@ == s@,
{
    let mut out: Vec<char> = Vec::new();
    let mut it = s.chars();
    loop
        invariant
            out@ + it.remaining() == s@,
        ensures
            out@ == s@,
        decreases s@.len() - out@.len(),
    {
        match it.next() {
            Some(c) => {
                out.push(c);
            },
            None => {
                break ;
            },
        }
    }
    out
}

/// Whether two strings hold the same characters.
pub fn same_text(a: &str, b: &str) -> (same: bool)
    ensures
        same == (a@ == b@),
{
    let x = a.to_owned();
    let y = b.to_owned();
    x == y
}

/// The decimal digit that stands for `d`, for `d` below ten.
pub open spec fn digit_char(d: nat) -> char {
    if d == 0 {
        '0'
    } else if d == 1 {
        '1'
    } else if d == 2 {
        '2'
    } else if d == 3 {
        '3'
    } else if d == 4 {
        '4'
    } else if d == 5 {
        '5'
    } else if d == 6 {
        '6'
    } else if d == 7 {
        '7'
    } else if d == 8 {
        '8'
    } else {
        '9'
    }
}

/// The decimal numeral of `n`, without sign or leading zeros.
pub open spec fn decimal(n: nat) -> Seq<char>
    decreases n,
{
    if n < 10 {
        seq![digit_char(n)]
    } else {
        decimal(n / 10).push(digit_char(n % 10))
    }
}

fn digit_text(d: u32) -> (s: &'static str)
    requires
        d < 10,
    ensures
        s@ == seq![digit_char(d as nat)],
{
    proof {
        reveal_strlit("0");
        reveal_strlit("1");
        reveal_strlit("2");
        reveal_strlit("3");
        reveal_strlit("4");
        reveal_strlit("5");
        reveal_strlit("6");
        reveal_strlit("7");
        reveal_strlit("8");
        reveal_strlit("9");
    }
    let s = if d == 0 {
        "0"
    } else if d == 1 {
        "1"
    } else if d == 2 {
        "2"
    } else if d == 3 {
        "3"
    } else if d == 4 {
        "4"
    } else if d == 5 {
        "5"
    } else if d == 6 {
        "6"
    } else if d == 7 {
        "7"
    } else if d == 8 {
        "8"
    } else {
        "9"
    };
    assert(s@ =~= seq![digit_char(d as nat)]);
    s
}

/// Writes `n` as a decimal numeral.
pub fn decimal_string(n: u32) -> (s: String)
    ensures
        s@ == decimal(n as nat),
    decreases n,
{
    if n < 10 {
        String::from_str(digit_text(n))
    } else {
        let mut s = decimal_string(n / 10);
        s.append(digit_text(n % 10));
        assert(s@ =~= decimal(n as nat));
        s
    }
}

/// `c` with an upper-case ASCII letter replaced by its lower-case form.
pub open spec fn lower_char(c: char) -> char {
    if 'A' <= c <= 'Z' {
        ((c as u32) + 32) as char
    } else {
        c
    }
}

/// `s` with every upper-case ASCII letter replaced by its lower-case form.
pub open spec fn lower(s: Seq<char>) -> Seq<char> {
    Seq::new(s.len(), |i: int| lower_char(s[i]))
}

fn same_letter(a: char, b: char) -> (same: bool)
    ensures
        same == (lower_char(a) == lower_char(b)),
{
    let x: u32 = a as u32;
    let y: u32 = b as u32;
    let lx: u32 = if 65 <= x && x <= 90 {
        x + 32
    } else {
        x
    };
    let ly: u32 = if 65 <= y && y <= 90 {
        y + 32
    } else {
        y
    };
    assert(lower_char(a) as u32 == lx);
    assert(lower_char(b) as u32 == ly);
    lx == ly
}

/// Whether two strings are equal once both are put in lower case.
pub fn same_text_ignoring_case(a: &str, b: &str) -> (same: bool)
    ensures
        same == (lower(a@) == lower(b@)),
{
    let x = chars_of(a);
    let y = chars_of(b);
    if x.len() != y.len() {
        assert(lower(a@).len() != lower(b@).len());
        return false;
    }
    let mut i: usize = 0;
    while i < x.len()
        invariant
            i <= x.len(),
            x.len() == y.len(),
            x@ == a@,
            y@ == b@,
            forall|j: int| 0 <= j < i ==> lower_char(x@[j]) == lower_char(y@[j]),
        decreases x.len() - i,
    {
        if !same_letter(x[i], y[i]) {
            assert(lower(a@)[i as int] != lower(b@)[i as int]);
            return false;
        }
        i += 1;
    }
    assert(lower(a@) =~= lower(b@));
    true
}

/// The first position at or after `from`, and before `to`, that holds no
/// white space; `to` if there is none.
pub open spec fn skip_spaces(s: Seq<char>, from: int, to: int) -> int
    decreases to - from,
{
    if 0 <= from < to <= s.len() && is_space(s[from]) {
        skip_spaces(s, from + 1, to)
    } else {
        from
    }
}

/// The first position at or after `from`, and before `to`, that holds
/// white space; `to` if there is none.
pub open spec fn skip_field(s: Seq<char>, from: int, to: int) -> int
    decreases to - from,
{
    if 0 <= from < to <= s.len() && !is_space(s[from]) {
        skip_field(s, from + 1, to)
    } else {
        from
    }
}

/// The first position at or after `from` that holds a line feed; the
/// length of `s` if there is none.
pub open spec fn line_end(s: Seq<char>, from: int) -> int
    decreases s.len() - from,
{
    if 0 <= from < s.len() && s[from] != '\n' {
        line_end(s, from + 1)
    } else {
        from
    }
}

/// `skip_spaces` stops within its window, after white space only and in
/// front of a character that is none.
pub proof fn lemma_skip_spaces_bounds(s: Seq<char>, from: int, to: int)
    requires
        0 <= from <= to <= s.len(),
    ensures
        from <= skip_spaces(s, from, to) <= to,
        forall|i: int| from <= i < skip_spaces(s, from, to) ==> is_space(s[i]),
        skip_spaces(s, from, to) < to ==> !is_space(s[skip_spaces(s, from, to)]),
    decreases to - from,
{
    if from < to && is_space(s[from]) {
        lemma_skip_spaces_bounds(s, from + 1, to);
    }
}

/// `skip_field` stops within its window, after characters that are no
/// white space and in front of one that is.
pub proof fn lemma_skip_field_bounds(s: Seq<char>, from: int, to: int)
    requires
        0 <= from <= to <= s.len(),
    ensures
        from <= skip_field(s, from, to) <= to,
        forall|i: int| from <= i < skip_field(s, from, to) ==> !is_space(s[i]),
        skip_field(s, from, to) < to ==> is_space(s[skip_field(s, from, to)]),
    decreases to - from,
{
    if from < to && !is_space(s[from]) {
        lemma_skip_field_bounds(s, from + 1, to);
    }
}

/// `line_end` stops within the text, after characters that are no line
/// feed and in front of one that is.
pub proof fn lemma_line_end_bounds(s: Seq<char>, from: int)
    requires
        0 <= from <= s.len(),
    ensures
        from <= line_end(s, from) <= s.len(),
        forall|i: int| from <= i < line_end(s, from) ==> s[i] != '\n',
        line_end(s, from) < s.len() ==> s[line_end(s, from)] == '\n',
    decreases s.len() - from,
{
    if from < s.len() && s[from] != '\n' {
        lemma_line_end_bounds(s, from + 1);
    }
}

/// Passes over white space: the exec form of `skip_spaces`.
pub(crate) fn scan_spaces(s: &Vec<char>, from: usize, to: usize) -> (at: usize)
    requires
        from <= to <= s.len(),
    ensures
        at == skip_spaces(s@, from as int, to as int),
        from <= at <= to,
{
    let mut at: usize = from;
    while at < to && is_space_char(s[at])
        invariant
            from <= at <= to <= s.len(),
            skip_spaces(s@, from as int, to as int) == skip_spaces(s@, at as int, to as int),
        decreases to - at,
    {
        at += 1;
    }
    at
}

/// Passes over a field: the exec form of `skip_field`.
pub(crate) fn scan_field(s: &Vec<char>, from: usize, to: usize) -> (at: usize)
    requires
        from <= to <= s.len(),
    ensures
        at == skip_field(s@, from as int, to as int),
        from <= at <= to,
{
    let mut at: usize = from;
    while at < to && !is_space_char(s[at])
        invariant
            from <= at <= to <= s.len(),
            skip_field(s@, from as int, to as int) == skip_field(s@, at as int, to as int),
        decreases to - at,
    {
        at += 1;
    }
    at
}

/// Finds the end of a line: the exec form of `line_end`.
pub(crate) fn scan_line(s: &Vec<char>, from: usize) -> (at: usize)
    requires
        from <= s.len(),
    ensures
        at == line_end(s@, from as int),
        from <= at <= s.len(),
{
    let mut at: usize = from;
    while at < s.len() && s[at] != '\n'
        invariant
            from <= at <= s.len(),
            line_end(s@, from as int) == line_end(s@, at as int),
        decreases s.len() - at,
    {
        at += 1;
    }
    at
}

/// Whether the characters of `s` from `from` up to `to` are those of `word`.
pub(crate) fn window_is(s: &Vec<char>, from: usize, to: usize, word: &Vec<char>) -> (same: bool)
    requires
        from <= to <= s.len(),
    ensures
        same == (s@.subrange(from as int, to as int) == word@),
{
    if to - from != word.len() {
        return false;
    }
    let mut i: usize = 0;
    while i < word.len()
        invariant
            from <= to <= s.len(),
            to - from == word.len(),
            i <= word.len(),
            forall|j: int| 0 <= j < i ==> s@[from + j] == word@[j],
        decreases word.len() - i,
    {
        if s[from + i] != word[i] {
            assert(s@.subrange(from as int, to as int)[i as int] != word@[i as int]);
            return false;
        }
        i += 1;
    }
    assert(s@.subrange(from as int, to as int) =~= word@);
    true
}

/// Whether `text` begins with `prefix`.
pub open spec fn begins_with(text: Seq<char>, prefix: Seq<char>) -> bool {
    text.len() >= prefix.len() && text.subrange(0, prefix.len() as int) == prefix
}

/// Whether `c` is a decimal digit.
pub open spec fn is_digit(c: char) -> bool {
    48 <= c as u32 <= 57
}

/// The number that the digits of `s` spell, the last digit counting ones.
pub open spec fn digits_value(s: Seq<char>) -> nat
    decreases s.len(),
{
    if s.len() == 0 {
        0
    } else {
        digits_value(s.drop_last()) * 10 + (s.last() as u32 - 48) as nat
    }
}

/// Whether every character of `s` is a decimal digit.
pub open spec fn all_digits(s: Seq<char>) -> bool {
    forall|i: int| 0 <= i < s.len() ==> is_digit(#[trigger] s[i])
}

/// The number that `s` spells, if `s` is a numeral that fits 32 bits:
/// one digit or more, after an optional `+`. Nothing else is a numeral:
/// no white space, no other sign.
pub open spec fn number_of(s: Seq<char>) -> Option<u32> {
    let digits = if s.len() > 0 && s[0] == '+' {
        s.subrange(1, s.len() as int)
    } else {
        s
    };
    if digits.len() > 0 && all_digits(digits) && digits_value(digits) <= u32::MAX {
        Some(digits_value(digits) as u32)
    } else {
        None
    }
}

/// The numeral of a number is made of digits and spells that number.
pub proof fn lemma_decimal_is_numeral(n: nat)
    ensures
        decimal(n).len() > 0,
        all_digits(decimal(n)),
        digits_value(decimal(n)) == n,
    decreases n,
{
    if n < 10 {
        let d = decimal(n);
        assert(d.len() == 1);
        assert(d[0] == digit_char(n));
        assert(d.drop_last() =~= Seq::<char>::empty());
        assert(digits_value(d.drop_last()) == 0);
        assert(d.last() as u32 - 48 == n);
    } else {
        lemma_decimal_is_numeral(n / 10);
        let head = decimal(n / 10);
        let d = decimal(n);
        assert(d == head.push(digit_char(n % 10)));
        assert(d.drop_last() =~= head);
        assert(d.last() == digit_char(n % 10));
        assert(d.last() as u32 - 48 == n % 10);
        assert forall|i: int| 0 <= i < d.len() implies is_digit(#[trigger] d[i]) by {
            if i < head.len() {
                assert(d[i] == head[i]);
            }
        }
    }
}

/// Writing a number and reading the numeral gives the number back.
pub proof fn decimal_round_trip(n: u32)
    ensures
        number_of(decimal(n as nat)) == Some(n),
{
    lemma_decimal_is_numeral(n as nat);
    let d = decimal(n as nat);
    assert(is_digit(d[0]));
}

/// Where the characters of `s` from `from` up to `to` end once white space
/// at their end is left off.
pub open spec fn trim_stop(s: Seq<char>, from: int, to: int) -> int
    decreases to - from,
{
    if 0 <= from < to <= s.len() && is_space(s[to - 1]) {
        trim_stop(s, from, to - 1)
    } else {
        to
    }
}

/// The characters of `s` from `from` up to `to`, without the white space
/// at either end.
pub open spec fn trimmed(s: Seq<char>, from: int, to: int) -> Seq<char> {
    let start = skip_spaces(s, from, to);
    s.subrange(start, trim_stop(s, start, to))
}

/// The first position at or after `from`, and before `to`, that holds
/// `c`; `to` if there is none.
pub open spec fn find_char(s: Seq<char>, c: char, from: int, to: int) -> int
    decreases to - from,
{
    if 0 <= from < to <= s.len() && s[from] != c {
        find_char(s, c, from + 1, to)
    } else {
        from
    }
}

/// The first position at or after `from`, and before `to`, that does not
/// hold `c`; `to` if there is none.
pub open spec fn skip_char(s: Seq<char>, c: char, from: int, to: int) -> int
    decreases to - from,
{
    if 0 <= from < to <= s.len() && s[from] == c {
        skip_char(s, c, from + 1, to)
    } else {
        from
    }
}

/// Where the characters of `s` from `from` up to `to` end once every `c`
/// at their end is left off.
pub open spec fn strip_stop(s: Seq<char>, c: char, from: int, to: int) -> int
    decreases to - from,
{
    if 0 <= from < to <= s.len() && s[to - 1] == c {
        strip_stop(s, c, from, to - 1)
    } else {
        to
    }
}

/// Whether `word` stands in `s` at position `at`.
pub open spec fn word_at(s: Seq<char>, word: Seq<char>, at: int) -> bool {
    s.subrange(at, at + word.len()) == word
}

/// Whether `word` stands somewhere among the characters of `s` from `from`
/// up to `to`.
pub open spec fn holds_word(s: Seq<char>, word: Seq<char>, from: int, to: int) -> bool {
    exists|at: int| from <= at && at + word.len() <= to && #[trigger] word_at(s, word, at)
}

/// Finds where trailing white space begins: the exec form of `trim_stop`.
pub(crate) fn scan_trim_stop(s: &Vec<char>, from: usize, to: usize) -> (at: usize)
    requires
        from <= to <= s.len(),
    ensures
        at == trim_stop(s@, from as int, to as int),
        from <= at <= to,
{
    let mut at: usize = to;
    while from < at && is_space_char(s[at - 1])
        invariant
            from <= at <= to <= s.len(),
            trim_stop(s@, from as int, to as int) == trim_stop(s@, from as int, at as int),
        decreases at - from,
    {
        at -= 1;
    }
    at
}

/// Finds a character: the exec form of `find_char`.
pub(crate) fn scan_find(s: &Vec<char>, c: char, from: usize, to: usize) -> (at: usize)
    requires
        from <= to <= s.len(),
    ensures
        at == find_char(s@, c, from as int, to as int),
        from <= at <= to,
{
    let mut at: usize = from;
    while at < to && s[at] != c
        invariant
            from <= at <= to <= s.len(),
            find_char(s@, c, from as int, to as int) == find_char(s@, c, at as int, to as int),
        decreases to - at,
    {
        at += 1;
    }
    at
}

/// Passes over repeats of a character: the exec form of `skip_char`.
pub(crate) fn scan_skip(s: &Vec<char>, c: char, from: usize, to: usize) -> (at: usize)
    requires
        from <= to <= s.len(),
    ensures
        at == skip_char(s@, c, from as int, to as int),
        from <= at <= to,
{
    let mut at: usize = from;
    while at < to && s[at] == c
        invariant
            from <= at <= to <= s.len(),
            skip_char(s@, c, from as int, to as int) == skip_char(s@, c, at as int, to as int),
        decreases to - at,
    {
        at += 1;
    }
    at
}

/// Finds where trailing repeats of a character begin: the exec form of
/// `strip_stop`.
pub(crate) fn scan_strip_stop(s: &Vec<char>, c: char, from: usize, to: usize) -> (at: usize)
    requires
        from <= to <= s.len(),
    ensures
        at == strip_stop(s@, c, from as int, to as int),
        from <= at <= to,
{
    let mut at: usize = to;
    while from < at && s[at - 1] == c
        invariant
            from <= at <= to <= s.len(),
            strip_stop(s@, c, from as int, to as int) == strip_stop(
                s@,
                c,
                from as int,
                at as int,
            ),
        decreases at - from,
    {
        at -= 1;
    }
    at
}

/// Whether `word` stands somewhere in a window of `s`.
pub(crate) fn window_holds(s: &Vec<char>, word: &Vec<char>, from: usize, to: usize) -> (found: bool)
    requires
        from <= to <= s.len(),
    ensures
        found == holds_word(s@, word@, from as int, to as int),
{
    let mut at: usize = from;
    while to - at >= word.len()
        invariant
            from <= at <= to <= s.len(),
            forall|k: int| from <= k < at ==> !#[trigger] word_at(s@, word@, k),
        decreases to - at,
    {
        if window_is(s, at, at + word.len(), word) {
            assert(word_at(s@, word@, at as int));
            return true;
        }
        assert(word.len() > 0) by {
            if word.len() == 0 {
                assert(s@.subrange(at as int, at as int) =~= word@);
            }
        }
        at += 1;
    }
    false
}

/// Reads a numeral in a window of `s`.
#[verifier::loop_isolation(false)]
pub(crate) fn parse_number(s: &Vec<char>, from: usize, to: usize) -> (r: Option<u32>)
    requires
        from <= to <= s.len(),
    ensures
        r == number_of(s@.subrange(from as int, to as int)),
{
    let ghost whole = s@.subrange(from as int, to as int);
    let start: usize = if from < to && s[from] == '+' {
        from + 1
    } else {
        from
    };
    let ghost digits = s@.subrange(start as int, to as int);
    assert(digits =~= if whole.len() > 0 && whole[0] == '+' {
        whole.subrange(1, whole.len() as int)
    } else {
        whole
    });
    if start == to {
        return None;
    }
    let mut at: usize = start;
    let mut value: u64 = 0;
    let mut over: bool = false;
    while at < to
        invariant
            start <= at <= to <= s.len(),
            digits == s@.subrange(start as int, to as int),
            all_digits(s@.subrange(start as int, at as int)),
            !over ==> value == digits_value(s@.subrange(start as int, at as int)) && value
                <= u32::MAX,
            over ==> digits_value(s@.subrange(start as int, at as int)) > u32::MAX,
        decreases to - at,
    {
        let code: u32 = s[at] as u32;
        if code < 48 || code > 57 {
            assert(!is_digit(digits[at - start]));
            return None;
        }
        let ghost before = s@.subrange(start as int, at as int);
        let ghost after = s@.subrange(start as int, at + 1);
        assert(after.drop_last() =~= before);
        assert(after.last() == s@[at as int]);
        assert(digits_value(after) == digits_value(before) * 10 + (code - 48) as nat);
        assert forall|i: int| 0 <= i < after.len() implies is_digit(#[trigger] after[i]) by {
            if i < before.len() {
                assert(after[i] == before[i]);
            }
        }
        if !over {
            value = value * 10 + (code - 48) as u64;
            if value > 0xFFFF_FFFF {
                over = true;
            }
        }
        at += 1;
    }
    assert(s@.subrange(start as int, at as int) =~= digits);
    if over {
        None
    } else {
        Some(value as u32)
    }
}

} // verus!
