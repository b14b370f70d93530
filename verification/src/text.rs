//! Working with text: comparing it, writing numbers in decimal and reading
//! them back, and right-aligned columns.

use vstd::prelude::*;

verus! {

/// Whether two string slices hold the same text. The texts are read
/// character by character only where they are equally long.
pub fn same_text(value: &str, short: &str) -> (r: bool)
    ensures
        r == (value@ == short@),
{
    let n: usize = short.unicode_len();
    if value.unicode_len() != n {
        return false;
    }
    let mut i: usize = 0;
    while i < n
        invariant
            i <= n,
            n == short@.len(),
            n == value@.len(),
            forall|j: int| 0 <= j < i ==> value@[j] == short@[j],
        decreases n - i,
    {
        if value.get_char(i) != short.get_char(i) {
            return false;
        }
        i += 1;
    }
    assert(value@ =~= short@);
    true
}

/// The character that stands for a decimal digit.
pub open spec fn digit_char(d: int) -> char {
    if d == 0 {
        '0'
    } else if d == 1 {
        '1'
    } else if d == 2 {
        '2'
    } else if d == 3 {
        '3'
    } else if d == 4 {
        '4'
    } else if d == 5 {
        '5'
    } else if d == 6 {
        '6'
    } else if d == 7 {
        '7'
    } else if d == 8 {
        '8'
    } else {
        '9'
    }
}

/// A natural number written in decimal, without leading zeros.
pub open spec fn decimal_nat(n: nat) -> Seq<char>
    decreases n,
{
    if n < 10 {
        seq![digit_char(n as int)]
    } else {
        decimal_nat(n / 10).push(digit_char((n % 10) as int))
    }
}

/// An integer written in decimal, with a minus sign where it is negative.
pub open spec fn decimal(n: int) -> Seq<char> {
    if n < 0 {
        seq!['-'] + decimal_nat((-n) as nat)
    } else {
        decimal_nat(n as nat)
    }
}

/// A text moved to the right of a column: blanks are put before it until it
/// is `width` characters long; a longer text stays as it is.
pub open spec fn pad_left(s: Seq<char>, width: nat) -> Seq<char> {
    if s.len() >= width {
        s
    } else {
        Seq::new((width - s.len()) as nat, |i: int| ' ') + s
    }
}

/// The text of one decimal digit.
pub fn digit_str(d: u64) -> (r: &'static str)
    requires
        d < 10,
    ensures
        r@ == seq![digit_char(d as int)],
{
    proof {
        reveal_strlit("0");
        reveal_strlit("1");
        reveal_strlit("2");
        reveal_strlit("3");
        reveal_strlit("4");
        reveal_strlit("5");
        reveal_strlit("6");
        reveal_strlit("7");
        reveal_strlit("8");
        reveal_strlit("9");
    }
    let r = match d {
        0 => "0",
        1 => "1",
        2 => "2",
        3 => "3",
        4 => "4",
        5 => "5",
        6 => "6",
        7 => "7",
        8 => "8",
        _ => "9",
    };
    assert(r@ =~= seq![digit_char(d as int)]);
    r
}

/// Appends the decimal form of `n` to `out`.
pub fn push_u64(out: &mut String, n: u64)
    ensures
        final(out)@ == old(out)@ + decimal_nat(n as nat),
    decreases n,
{
    if n >= 10 {
        push_u64(out, n / 10);
    }
    out.append(digit_str(n % 10));
    assert(out@ =~= old(out)@ + decimal_nat(n as nat));
}

/// Appends the decimal form of `n` to `out`.
pub fn push_i64(out: &mut String, n: i64)
    ensures
        final(out)@ == old(out)@ + decimal(n as int),
{
    if n < 0 {
        proof {
            reveal_strlit("-");
        }
        out.append("-");
        let magnitude: u64 = if n == i64::MIN {
            9223372036854775808u64
        } else {
            (0 - n) as u64
        };
        push_u64(out, magnitude);
        assert(out@ =~= old(out)@ + decimal(n as int));
    } else {
        push_u64(out, n as u64);
    }
}

/// The decimal form of `n`.
pub fn u64_text(n: u64) -> (r: String)
    ensures
        r@ == decimal_nat(n as nat),
{
    let mut out = String::new();
    push_u64(&mut out, n);
    assert(out@ =~= decimal_nat(n as nat));
    out
}

/// The decimal form of `n`.
pub fn i64_text(n: i64) -> (r: String)
    ensures
        r@ == decimal(n as int),
{
    let mut out = String::new();
    push_i64(&mut out, n);
    assert(out@ =~= decimal(n as int));
    out
}

/// Appends `s` to `out`, moved to the right of a column of `width` characters.
pub fn push_padded(out: &mut String, s: &str, width: usize)
    ensures
        final(out)@ == old(out)@ + pad_left(s@, width as nat),
{
    let n: usize = s.unicode_len();
    let ghost before = out@;
    let mut i: usize = n;
    proof {
        reveal_strlit(" ");
    }
    while i < width
        invariant
            n == s@.len(),
            n <= i,
            i <= width || i == n,
            " "@ == seq![' '],
            out@ == before + Seq::new((i - n) as nat, |k: int| ' '),
        decreases width - i,
    {
        out.append(" ");
        i += 1;
        assert(out@ =~= before + Seq::new((i - n) as nat, |k: int| ' '));
    }
    out.append(s);
    assert(out@ =~= before + pad_left(s@, width as nat));
}

/// The digit that a character stands for, if it is a decimal digit.
pub open spec fn digit_value(c: char) -> Option<nat> {
    if '0' <= c <= '9' {
        Some((c as int - '0' as int) as nat)
    } else {
        None
    }
}

/// The number that a text of decimal digits stands for: none for the empty
/// text and for a text that holds anything but digits.
pub open spec fn digits_value(s: Seq<char>) -> Option<nat>
    decreases s.len(),
{
    if s.len() == 0 {
        None
    } else if s.len() == 1 {
        digit_value(s[0])
    } else {
        match (digits_value(s.drop_last()), digit_value(s.last())) {
            (Some(high), Some(d)) => Some(high * 10 + d),
            _ => None,
        }
    }
}

/// The text without a plus sign at its head.
pub open spec fn unsigned_body(s: Seq<char>) -> Seq<char> {
    if s.len() > 0 && s[0] == '+' {
        s.skip(1)
    } else {
        s
    }
}

/// The number that a text stands for: decimal digits, with or without a
/// plus sign before them, that give a number which fits.
pub open spec fn parsed_u64(s: Seq<char>) -> Option<u64> {
    match digits_value(unsigned_body(s)) {
        Some(n) => if n <= u64::MAX {
            Some(n as u64)
        } else {
            None
        },
        None => None,
    }
}

/// A text of digits has digits only.
proof fn lemma_digits_only(s: Seq<char>, i: int)
    requires
        0 <= i < s.len(),
        digits_value(s).is_some(),
    ensures
        digit_value(s[i]).is_some(),
    decreases s.len(),
{
    if s.len() > 1 {
        if i < s.len() - 1 {
            lemma_digits_only(s.drop_last(), i);
        }
    }
}

/// The head of a text of digits is a text of digits that stands for no
/// greater number.
proof fn lemma_prefix_value(s: Seq<char>, k: int)
    requires
        1 <= k <= s.len(),
        digits_value(s).is_some(),
    ensures
        digits_value(s.take(k)).is_some(),
        digits_value(s.take(k)).unwrap() <= digits_value(s).unwrap(),
    decreases s.len(),
{
    if k == s.len() {
        assert(s.take(k) =~= s);
    } else {
        lemma_prefix_value(s.drop_last(), k);
        assert(s.drop_last().take(k) =~= s.take(k));
    }
}

/// Reading back what was written gives the number: the decimal form of a
/// number that fits stands for that number.
pub proof fn lemma_decimal_round_trip(n: nat)
    ensures
        digits_value(decimal_nat(n)) == Some(n),
        decimal_nat(n).len() > 0,
        decimal_nat(n)[0] != '+',
        n <= u64::MAX ==> parsed_u64(decimal_nat(n)) == Some(n as u64),
    decreases n,
{
    if n >= 10 {
        lemma_decimal_round_trip(n / 10);
        let high = decimal_nat(n / 10);
        let all = decimal_nat(n);
        assert(all.drop_last() =~= high);
        assert(all.last() == digit_char((n % 10) as int));
        assert(all[0] == high[0]);
    }
}

/// The number that a text stands for, if it stands for one.
pub fn parse_u64(text: &str) -> (r: Option<u64>)
    ensures
        r == parsed_u64(text@),
{
    let ghost body = unsigned_body(text@);
    if !text.is_ascii() {
        proof {
            let i = choose|i: int|
                0 <= i < text@.len() && !('\0' <= #[trigger] text@[i] <= '\u{7f}');
            if digits_value(body).is_some() {
                if body.len() == text@.len() {
                    lemma_digits_only(body, i);
                } else if i > 0 {
                    lemma_digits_only(body, i - 1);
                }
            }
        }
        return None;
    }
    let n: usize = text.unicode_len();
    let start: usize = if n > 0 && text.get_ascii(0) == 43 {
        1
    } else {
        0
    };
    assert(body =~= text@.skip(start as int));
    if start == n {
        return None;
    }
    let mut acc: u64 = 0;
    let mut i: usize = start;
    while i < n
        invariant
            start <= i <= n,
            start < n,
            n == text@.len(),
            text.is_ascii(),
            body == unsigned_body(text@),
            body == text@.skip(start as int),
            i > start ==> digits_value(body.take(i - start)) == Some(acc as nat),
            i == start ==> acc == 0,
        decreases n - i,
    {
        let b: u8 = text.get_ascii(i);
        let ghost c = text@[i as int];
        assert(body[i - start] == c);
        assert(c as int == b as int);
        if b < 48 || b > 57 {
            proof {
                if digits_value(body).is_some() {
                    lemma_digits_only(body, i - start);
                }
            }
            return None;
        }
        let d: u64 = (b - 48) as u64;
        assert(digit_value(c) == Some(d as nat));
        let ghost head = body.take(i + 1 - start);
        proof {
            assert(head.last() == c);
            if i > start {
                assert(head.drop_last() =~= body.take(i - start));
            }
            assert(digits_value(head) == Some((acc * 10 + d) as nat));
        }
        let next: Option<u64> = match acc.checked_mul(10) {
            Some(shifted) => shifted.checked_add(d),
            None => None,
        };
        match next {
            Some(value) => {
                acc = value;
            },
            None => {
                proof {
                    if digits_value(body).is_some() {
                        lemma_prefix_value(body, i + 1 - start);
                    }
                }
                return None;
            },
        }
        i += 1;
    }
    assert(body.take(n - start) =~= body);
    Some(acc)
}

} // verus!
