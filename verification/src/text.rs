//! Text as a sequence of characters: what white space is, how a text is
//! trimmed and split into lines, and how a number is read from digits.
use vstd::prelude::*;
use vstd::std_specs::iter::IteratorSpec;
use vstd::string::*;

verus! {

/// The characters of a string, one by one.
pub fn chars_of(s: &str) -> (chars: Vec<char>)
    ensures
        chars@ == s@,
{
    let mut rest = s.chars();
    let mut chars: Vec<char> = Vec::new();
    loop
        invariant_except_break
            chars@ + rest.remaining() == s@,
            rest.obeys_prophetic_iter_laws(),
            rest.decrease() is Some,
        ensures
            chars@ == s@,
        decreases rest.decrease()->0,
    {
        match rest.next() {
            Some(c) => {
                chars.push(c);
            },
            None => {
                break ;
            },
        }
    }
    chars
}

/// Whether a character is white space: the characters that Unicode gives the
/// property `White_Space`.
pub open spec fn is_whitespace(c: char) -> bool {
    let n = c as u32;
    ||| 0x09 <= n <= 0x0D
    ||| n == 0x20
    ||| n == 0x85
    ||| n == 0xA0
    ||| n == 0x1680
    ||| 0x2000 <= n <= 0x200A
    ||| n == 0x2028
    ||| n == 0x2029
    ||| n == 0x202F
    ||| n == 0x205F
    ||| n == 0x3000
}

/// Whether a character is white space.
pub fn char_is_whitespace(c: char) -> (r: bool)
    ensures
        r == is_whitespace(c),
{
    let n: u32 = c as u32;
    (0x09 <= n && n <= 0x0D) || n == 0x20 || n == 0x85 || n == 0xA0 || n == 0x1680 || (0x2000 <= n
        && n <= 0x200A) || n == 0x2028 || n == 0x2029 || n == 0x202F || n == 0x205F || n == 0x3000
}

/// How many characters of white space a text begins with.
pub open spec fn leading_whitespace(s: Seq<char>) -> nat
    decreases s.len(),
{
    if s.len() > 0 && is_whitespace(s[0]) {
        1 + leading_whitespace(s.skip(1))
    } else {
        0
    }
}

/// How many characters of white space a text ends with.
pub open spec fn trailing_whitespace(s: Seq<char>) -> nat
    decreases s.len(),
{
    if s.len() > 0 && is_whitespace(s.last()) {
        1 + trailing_whitespace(s.drop_last())
    } else {
        0
    }
}

/// The text without the white space at its beginning and at its end.
pub open spec fn trimmed(s: Seq<char>) -> Seq<char> {
    let rest = s.skip(leading_whitespace(s) as int);
    rest.take(rest.len() - trailing_whitespace(rest))
}

/// The bounds of `s[from..to]` without the white space at its beginning and
/// at its end.
pub fn trim_bounds(s: &Vec<char>, from: usize, to: usize) -> (r: (usize, usize))
    requires
        from <= to <= s.len(),
    ensures
        from <= r.0 <= r.1 <= to,
        s@.subrange(r.0 as int, r.1 as int) == trimmed(s@.subrange(from as int, to as int)),
{
    let ghost whole = s@.subrange(from as int, to as int);
    let mut a: usize = from;
    while a < to && char_is_whitespace(s[a])
        invariant
            from <= a <= to <= s.len(),
            leading_whitespace(whole) == (a - from) + leading_whitespace(
                s@.subrange(a as int, to as int),
            ),
            whole == s@.subrange(from as int, to as int),
        decreases to - a,
    {
        assert(s@.subrange(a as int, to as int).skip(1) =~= s@.subrange(a as int + 1, to as int));
        a += 1;
    }
    let ghost rest = s@.subrange(a as int, to as int);
    assert(leading_whitespace(rest) == 0);
    assert(whole.skip(leading_whitespace(whole) as int) =~= rest);
    let mut b: usize = to;
    while b > a && char_is_whitespace(s[b - 1])
        invariant
            a <= b <= to <= s.len(),
            rest == s@.subrange(a as int, to as int),
            trailing_whitespace(rest) == (to - b) + trailing_whitespace(
                s@.subrange(a as int, b as int),
            ),
        decreases b - a,
    {
        assert(s@.subrange(a as int, b as int).drop_last() =~= s@.subrange(a as int, b as int - 1));
        b -= 1;
    }
    assert(trailing_whitespace(s@.subrange(a as int, b as int)) == 0);
    assert(rest.take(rest.len() - trailing_whitespace(rest)) =~= s@.subrange(a as int, b as int));
    (a, b)
}

/// How many characters a text has before the first `stop`.
pub open spec fn until(s: Seq<char>, stop: char) -> nat
    decreases s.len(),
{
    if s.len() > 0 && s[0] != stop {
        1 + until(s.skip(1), stop)
    } else {
        0
    }
}

/// The place of the first `stop` in `s[from..to]`, or `to` where there is
/// none.
pub fn find(s: &Vec<char>, from: usize, to: usize, stop: char) -> (r: usize)
    requires
        from <= to <= s.len(),
    ensures
        from <= r <= to,
        r - from == until(s@.subrange(from as int, to as int), stop),
        r < to ==> s[r as int] == stop,
{
    let ghost whole = s@.subrange(from as int, to as int);
    let mut end: usize = from;
    while end < to && s[end] != stop
        invariant
            from <= end <= to <= s.len(),
            whole == s@.subrange(from as int, to as int),
            until(whole, stop) == (end - from) + until(s@.subrange(end as int, to as int), stop),
        decreases to - end,
    {
        assert(s@.subrange(end as int, to as int).skip(1) =~= s@.subrange(end as int + 1, to as int));
        end += 1;
    }
    assert(until(s@.subrange(end as int, to as int), stop) == 0);
    end
}

/// How many characters a text has before its first line feed.
pub open spec fn line_len(s: Seq<char>) -> nat {
    until(s, '\n')
}

/// A line without the carriage return that it may end with.
pub open spec fn without_carriage_return(line: Seq<char>) -> Seq<char> {
    if line.len() > 0 && line.last() == '\r' {
        line.drop_last()
    } else {
        line
    }
}

/// The lines of a text.  A line ends with a line feed, which may follow a
/// carriage return; neither belongs to the line.  The last line needs no line
/// feed, and an empty text has no line.
pub open spec fn lines(s: Seq<char>) -> Seq<Seq<char>>
    decreases s.len(),
{
    if s.len() == 0 {
        Seq::empty()
    } else if line_len(s) >= s.len() {
        seq![s]
    } else {
        seq![without_carriage_return(s.take(line_len(s) as int))] + lines(
            s.skip(line_len(s) as int + 1),
        )
    }
}

/// The bounds of the line that begins at `from`, and where the next line
/// begins.
pub fn next_line(s: &Vec<char>, from: usize) -> (r: (usize, usize))
    requires
        from < s.len(),
    ensures
        from <= r.0 < r.1 <= s.len() || from <= r.0 == r.1 == s.len(),
        lines(s@.skip(from as int)) == seq![s@.subrange(from as int, r.0 as int)] + lines(
            s@.skip(r.1 as int),
        ),
        from < r.1,
{
    let ghost rest = s@.skip(from as int);
    assert(rest =~= s@.subrange(from as int, s@.len() as int));
    let end = find(s, from, s.len(), '\n');
    assert(line_len(rest) == end - from);
    if end == s.len() {
        assert(rest =~= s@.subrange(from as int, end as int));
        assert(s@.skip(end as int) =~= Seq::<char>::empty());
        assert(lines(s@.skip(end as int)) =~= Seq::<Seq<char>>::empty());
        assert(seq![rest] =~= seq![rest] + Seq::<Seq<char>>::empty());
        (end, end)
    } else {
        assert(rest.take(line_len(rest) as int) =~= s@.subrange(from as int, end as int));
        assert(rest.skip(line_len(rest) as int + 1) =~= s@.skip(end as int + 1));
        if end > from && s[end - 1] == '\r' {
            assert(s@.subrange(from as int, end as int).drop_last() =~= s@.subrange(
                from as int,
                end as int - 1,
            ));
            (end - 1, end + 1)
        } else {
            (end, end + 1)
        }
    }
}

/// Whether `s[from..to]` begins with `prefix`.
pub fn has_prefix(s: &Vec<char>, from: usize, to: usize, prefix: &Vec<char>) -> (r: bool)
    requires
        from <= to <= s.len(),
    ensures
        r == prefix@.is_prefix_of(s@.subrange(from as int, to as int)),
{
    if prefix.len() > to - from {
        return false;
    }
    let ghost whole = s@.subrange(from as int, to as int);
    let mut i: usize = 0;
    while i < prefix.len()
        invariant
            i <= prefix.len() <= to - from,
            from <= to <= s.len(),
            whole == s@.subrange(from as int, to as int),
            forall|j: int| 0 <= j < i ==> prefix[j] == whole[j],
        decreases prefix.len() - i,
    {
        if prefix[i] != s[from + i] {
            assert(whole[i as int] == s[from + i]);
            assert(whole.subrange(0, prefix@.len() as int)[i as int] != prefix@[i as int]);
            return false;
        }
        assert(whole[i as int] == s[from + i]);
        i += 1;
    }
    assert(whole.subrange(0, prefix@.len() as int) =~= prefix@);
    true
}

/// The value of a digit in the given radix: `0` to `9`, then the letters in
/// either case.
pub open spec fn digit_value(c: char, radix: int) -> Option<int> {
    let n = c as u32 as int;
    let value = if 0x30 <= n <= 0x39 {
        n - 0x30
    } else if 0x61 <= n <= 0x7a {
        n - 0x61 + 10
    } else if 0x41 <= n <= 0x5a {
        n - 0x41 + 10
    } else {
        radix
    };
    if value < radix {
        Some(value)
    } else {
        None
    }
}

/// Whether all of `digits` are digits in the given radix.
pub open spec fn all_digits(digits: Seq<char>, radix: int) -> bool {
    forall|i: int| 0 <= i < digits.len() ==> (#[trigger] digit_value(digits[i], radix)) is Some
}

/// The number that `digits` write in the given radix.
pub open spec fn digits_value(digits: Seq<char>, radix: int) -> int
    decreases digits.len(),
{
    if digits.len() == 0 {
        0
    } else {
        digits_value(digits.drop_last(), radix) * radix + digit_value(digits.last(), radix).unwrap()
    }
}

/// The number that a text writes in the given radix: an optional `+` sign
/// followed by at least one digit, and by nothing but digits.  There is no
/// number where the text is empty, holds any other character, or writes a
/// number that does not fit.
pub open spec fn parse_radix(s: Seq<char>, radix: int) -> Option<u64> {
    let digits = if s.len() > 1 && s[0] == '+' {
        s.skip(1)
    } else {
        s
    };
    if digits.len() > 0 && all_digits(digits, radix) && digits_value(digits, radix) <= u64::MAX {
        Some(digits_value(digits, radix) as u64)
    } else {
        None
    }
}

/// More digits never write a smaller number.
pub proof fn lemma_digits_value_grows(digits: Seq<char>, radix: int, n: int)
    requires
        0 <= n <= digits.len(),
        2 <= radix,
        all_digits(digits, radix),
    ensures
        0 <= digits_value(digits.take(n), radix) <= digits_value(digits, radix),
    decreases digits.len() - n,
{
    lemma_digits_value_nonnegative(digits.take(n), radix);
    if n < digits.len() {
        lemma_digits_value_grows(digits, radix, n + 1);
        let longer = digits.take(n + 1);
        assert(longer.drop_last() =~= digits.take(n));
        assert(longer.last() == digits[n]);
        let d = digit_value(digits[n], radix).unwrap();
        let v = digits_value(digits.take(n), radix);
        assert(v <= v * radix + d) by (nonlinear_arith)
            requires
                0 <= v,
                2 <= radix,
                0 <= d,
        ;
    } else {
        assert(digits.take(n) =~= digits);
    }
}

/// Digits write no negative number.
pub proof fn lemma_digits_value_nonnegative(digits: Seq<char>, radix: int)
    requires
        2 <= radix,
        all_digits(digits, radix),
    ensures
        0 <= digits_value(digits, radix),
    decreases digits.len(),
{
    if digits.len() > 0 {
        assert(forall|i: int|
            0 <= i < digits.drop_last().len() ==> digits.drop_last()[i] == digits[i]);
        lemma_digits_value_nonnegative(digits.drop_last(), radix);
        let v = digits_value(digits.drop_last(), radix);
        assert(digit_value(digits.last(), radix) is Some);
        assert(0 <= v * radix) by (nonlinear_arith)
            requires
                0 <= v,
                2 <= radix,
        ;
    }
}

/// The value of a digit in the given radix.
pub fn digit_of(c: char, radix: u32) -> (r: Option<u32>)
    requires
        2 <= radix <= 36,
    ensures
        match r {
            Some(value) => digit_value(c, radix as int) == Some(value as int),
            None => digit_value(c, radix as int) is None,
        },
{
    let n: u32 = c as u32;
    let value: u32 = if 0x30 <= n && n <= 0x39 {
        n - 0x30
    } else if 0x61 <= n && n <= 0x7a {
        n - 0x61 + 10
    } else if 0x41 <= n && n <= 0x5a {
        n - 0x41 + 10
    } else {
        radix
    };
    if value < radix {
        Some(value)
    } else {
        None
    }
}

/// Reads the number that `s[from..to]` writes in the given radix.
pub fn parse_radix_in(s: &Vec<char>, from: usize, to: usize, radix: u32) -> (r: Option<u64>)
    requires
        from <= to <= s.len(),
        2 <= radix <= 36,
    ensures
        r == parse_radix(s@.subrange(from as int, to as int), radix as int),
{
    let ghost whole = s@.subrange(from as int, to as int);
    let start: usize = if to - from > 1 && s[from] == '+' {
        from + 1
    } else {
        from
    };
    let ghost digits = s@.subrange(start as int, to as int);
    assert(digits =~= if whole.len() > 1 && whole[0] == '+' {
        whole.skip(1)
    } else {
        whole
    });
    if start == to {
        return None;
    }
    let mut value: u64 = 0;
    let mut i: usize = start;
    assert(digits.take(0) =~= Seq::<char>::empty());
    while i < to
        invariant
            start <= i <= to <= s.len(),
            2 <= radix <= 36,
            from <= start,
            whole == s@.subrange(from as int, to as int),
            digits == s@.subrange(start as int, to as int),
            digits == if whole.len() > 1 && whole[0] == '+' {
                whole.skip(1)
            } else {
                whole
            },
            all_digits(digits.take(i - start), radix as int),
            value == digits_value(digits.take(i - start), radix as int),
        decreases to - i,
    {
        let ghost seen = digits.take(i - start);
        let ghost more = digits.take(i - start + 1);
        proof {
            assert(more.drop_last() =~= seen);
            assert(more.last() == s[i as int]);
        }
        let digit = match digit_of(s[i], radix) {
            Some(digit) => digit,
            None => {
                assert(digit_value(digits[i - start], radix as int) is None);
                return None;
            },
        };
        proof {
            assert forall|j: int| 0 <= j < more.len() implies (#[trigger] digit_value(
                more[j],
                radix as int,
            )) is Some by {
                if j < seen.len() {
                    assert(more[j] == seen[j]);
                }
            }
        }
        let next = match value.checked_mul(radix as u64) {
            Some(scaled) => scaled.checked_add(digit as u64),
            None => None,
        };
        match next {
            Some(next) => {
                value = next;
            },
            None => {
                proof {
                    assert(digits_value(more, radix as int) > u64::MAX);
                    if all_digits(digits, radix as int) {
                        lemma_digits_value_grows(digits, radix as int, i - start + 1);
                    }
                }
                return None;
            },
        }
        i += 1;
    }
    assert(digits.take(i - start) =~= digits);
    Some(value)
}

/// Whether two strings hold the same text.
pub fn str_eq(a: &str, b: &str) -> (r: bool)
    ensures
        r == (a@ == b@),
{
    let left = a.to_owned();
    let right = b.to_owned();
    left == right
}

/// A copy of a list of strings.
pub fn clone_strings(words: &Vec<String>) -> (r: Vec<String>)
    ensures
        r.deep_view() == words.deep_view(),
{
    let mut copy: Vec<String> = Vec::new();
    let mut i: usize = 0;
    while i < words.len()
        invariant
            i <= words.len(),
            copy.len() == i,
            forall|j: int| 0 <= j < i ==> copy[j]@ == words[j]@,
        decreases words.len() - i,
    {
        copy.push(words[i].clone());
        i += 1;
    }
    assert(copy.deep_view() =~= words.deep_view());
    copy
}

/// A copy of the strings of `first`, followed by a copy of those of `second`.
pub fn concat_strings(first: &Vec<String>, second: &Vec<String>) -> (r: Vec<String>)
    ensures
        r.deep_view() == first.deep_view() + second.deep_view(),
{
    let mut all = clone_strings(first);
    let ghost head = all.deep_view();
    let mut i: usize = 0;
    assert(all.deep_view() =~= head + second.deep_view().take(0));
    while i < second.len()
        invariant
            i <= second.len(),
            head == first.deep_view(),
            all.deep_view() == head + second.deep_view().take(i as int),
        decreases second.len() - i,
    {
        let ghost before = all.deep_view();
        all.push(second[i].clone());
        assert(all.deep_view() =~= before.push(second[i as int]@));
        assert(all.deep_view() =~= head + second.deep_view().take(i + 1));
        i += 1;
    }
    assert(second.deep_view().take(i as int) =~= second.deep_view());
    all
}

} // verus!
