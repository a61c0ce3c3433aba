//! Decimal digit strings: their numeric value, canonical rendering, and
//! bounded parsing for ports and IPv4 octets.
use vstd::prelude::*;

verus! {

pub open spec fn is_digit(c: char) -> bool {
    '0' <= c && c <= '9'
}

/// Numeric value of one decimal digit character.
pub open spec fn digit_val(c: char) -> int {
    c as u8 - 48
}

pub open spec fn all_digits(s: Seq<char>) -> bool {
    forall|i: int| 0 <= i < s.len() ==> is_digit(#[trigger] s[i])
}

/// Value of a digit string read in base ten; the empty string counts as zero.
pub open spec fn digits_val(s: Seq<char>) -> int
    decreases s.len(),
{
    if s.len() == 0 {
        0
    } else {
        digits_val(s.drop_last()) * 10 + digit_val(s.last())
    }
}

pub proof fn lemma_digits_val_nonneg(s: Seq<char>)
    requires
        all_digits(s),
    ensures
        digits_val(s) >= 0,
    decreases s.len(),
{
    if s.len() > 0 {
        assert(all_digits(s.drop_last()));
        lemma_digits_val_nonneg(s.drop_last());
    }
}

/// The canonical decimal rendering of a non-negative number: no sign and no
/// leading zero.
pub open spec fn dec_digits(n: int) -> Seq<char>
    decreases n,
{
    if n <= 9 {
        seq![digit_char(n)]
    } else {
        dec_digits(n / 10) + seq![digit_char(n % 10)]
    }
}

pub open spec fn digit_char(d: int) -> char {
    ((48 + d) as u8) as char
}

fn digit_char_of(d: u16) -> (c: char)
    requires
        d <= 9,
    ensures
        c == digit_char(d as int),
{
    ((48 + d) as u8) as char
}

/// Appends the canonical decimal rendering of `n` to `out`.
pub fn push_decimal(out: &mut Vec<char>, n: u16)
    ensures
        final(out)@ == old(out)@ + dec_digits(n as int),
    decreases n,
{
    if n <= 9 {
        out.push(digit_char_of(n));
        proof {
            assert(out@ =~= old(out)@ + dec_digits(n as int));
        }
    } else {
        push_decimal(out, n / 10);
        out.push(digit_char_of(n % 10));
        proof {
            assert(out@ =~= old(out)@ + dec_digits(n as int));
        }
    }
}

/// The canonical rendering denotes the number it was made from: it is
/// non-empty, digits throughout, and reading it back in base ten restores
/// the value.
pub proof fn lemma_dec_digits_value(n: int)
    requires
        n >= 0,
    ensures
        dec_digits(n).len() >= 1,
        all_digits(dec_digits(n)),
        digits_val(dec_digits(n)) == n,
    decreases n,
{
    if n <= 9 {
        let c = digit_char(n);
        assert(c as u8 == 48 + n);
        assert(is_digit(c));
        assert(dec_digits(n) == seq![c]);
        assert(seq![c].drop_last() =~= Seq::<char>::empty());
        assert(digits_val(Seq::<char>::empty()) == 0);
        assert(seq![c].last() == c);
        assert(digits_val(seq![c]) == digit_val(c));
    } else {
        lemma_dec_digits_value(n / 10);
        let head = dec_digits(n / 10);
        let d = digit_char(n % 10);
        let s = dec_digits(n);
        assert(s == head + seq![d]);
        assert(s.drop_last() =~= head);
        assert(s.last() == d);
        assert(d as u8 == 48 + n % 10);
        assert(is_digit(d));
        assert(digit_val(d) == n % 10);
        assert(digits_val(s) == digits_val(head) * 10 + (n % 10));
        assert(n / 10 * 10 + n % 10 == n);
        assert forall|i: int| 0 <= i < s.len() implies is_digit(s[i]) by {
            if i < s.len() - 1 {
                assert(s[i] == head[i]);
                assert(is_digit(head[i]));
            } else {
                assert(s[i] == d);
            }
        }
    }
}

/// The port number a digit string denotes, when it is one: non-empty, all
/// digits, and of value at most 65535.
pub open spec fn port_of(s: Seq<char>) -> Option<u16> {
    if s.len() > 0 && all_digits(s) && digits_val(s) <= 65535 {
        Some(digits_val(s) as u16)
    } else {
        None
    }
}

pub fn char_is_digit(c: char) -> (r: bool)
    ensures
        r == is_digit(c),
{
    '0' <= c && c <= '9'
}

/// Parses a digit string as a port number, rejecting anything else.
pub fn parse_port(s: &Vec<char>) -> (r: Option<u16>)
    ensures
        r == port_of(s@),
{
    if s.len() == 0 {
        return None;
    }
    let mut acc: u32 = 0;
    let mut i: usize = 0;
    while i < s.len()
        invariant
            i <= s@.len(),
            all_digits(s@.take(i as int)),
            acc <= 655359,
            digits_val(s@.take(i as int)) <= 65535 ==> acc == digits_val(s@.take(i as int)),
            digits_val(s@.take(i as int)) > 65535 ==> acc > 65535,
        decreases s@.len() - i,
    {
        let c = s[i];
        if c < '0' || c > '9' {
            proof {
                assert(!is_digit(s@[i as int]));
            }
            return None;
        }
        proof {
            let p = s@.take(i + 1);
            assert(p.drop_last() =~= s@.take(i as int));
            assert(p.last() == s@[i as int]);
            assert(all_digits(p));
            lemma_digits_val_nonneg(s@.take(i as int));
        }
        let d: u32 = c as u32 - 48;
        if acc <= 65535 {
            acc = acc * 10 + d;
        }
        i += 1;
    }
    proof {
        assert(s@.take(s@.len() as int) =~= s@);
    }
    if acc <= 65535 {
        Some(acc as u16)
    } else {
        None
    }
}

/// A decimal octet as an IPv4 address writes it: one to three digits, no
/// leading zero, value at most 255.
pub open spec fn valid_octet(s: Seq<char>) -> bool {
    1 <= s.len() <= 3 && all_digits(s) && digits_val(s) <= 255 && (s.len() == 1 || s[0] != '0')
}

/// Parses one dotted-quad octet; `None` exactly on text that is not one.
pub fn parse_octet(s: &Vec<char>) -> (r: Option<u8>)
    ensures
        r matches Some(b) ==> valid_octet(s@) && b == digits_val(s@),
        r is None ==> !valid_octet(s@),
{
    if s.len() < 1 || s.len() > 3 {
        return None;
    }
    if s.len() > 1 && s[0] == '0' {
        return None;
    }
    let mut acc: u32 = 0;
    let mut i: usize = 0;
    while i < s.len()
        invariant
            i <= s@.len() <= 3,
            all_digits(s@.take(i as int)),
            acc == digits_val(s@.take(i as int)),
            i == 0 ==> acc == 0,
            i <= 1 ==> acc <= 9,
            i <= 2 ==> acc <= 99,
            acc <= 999,
        decreases s@.len() - i,
    {
        let c = s[i];
        if c < '0' || c > '9' {
            proof {
                assert(!is_digit(s@[i as int]));
            }
            return None;
        }
        proof {
            let p = s@.take(i + 1);
            assert(p.drop_last() =~= s@.take(i as int));
            assert(p.last() == s@[i as int]);
            assert(all_digits(p));
            lemma_digits_val_nonneg(s@.take(i as int));
        }
        let d: u32 = c as u32 - 48;
        acc = acc * 10 + d;
        i += 1;
    }
    proof {
        assert(s@.take(s@.len() as int) =~= s@);
    }
    if acc <= 255 {
        Some(acc as u8)
    } else {
        None
    }
}

} // verus!
