//! Text encoding helpers: decimal rendering of unsigned integers, the
//! unpadded date-time format, and lenient UTF-8 decoding of byte strings.

use vstd::prelude::*;
use vstd::string::StringExecFns;
use vstd::utf8::decode_utf8;
use vstd::utf8::valid_utf8;

verus! {

/// The decimal digit character for `d` (meaningful for `d < 10`).
pub open spec fn digit_char(d: nat) -> char {
    if d == 0 {
        '0'
    } else if d == 1 {
        '1'
    } else if d == 2 {
        '2'
    } else if d == 3 {
        '3'
    } else if d == 4 {
        '4'
    } else if d == 5 {
        '5'
    } else if d == 6 {
        '6'
    } else if d == 7 {
        '7'
    } else if d == 8 {
        '8'
    } else {
        '9'
    }
}

/// The decimal digits of `n` without a leading zero: empty when `n == 0`.
pub open spec fn rep_pos(n: nat) -> Seq<char>
    decreases n,
{
    if n == 0 {
        Seq::empty()
    } else {
        rep_pos(n / 10).push(digit_char(n % 10))
    }
}

/// The decimal representation of `n`, as the standard formatter writes it.
pub open spec fn dec_rep(n: nat) -> Seq<char> {
    if n == 0 {
        seq!['0']
    } else {
        rep_pos(n)
    }
}

/// The characters named by a sequence of digit values collected least
/// significant first, read back most significant first.
pub open spec fn digits_to_chars(ds: Seq<u64>) -> Seq<char> {
    Seq::new(ds.len(), |i: int| digit_char(ds[ds.len() - 1 - i] as nat))
}

fn digit_str(d: u64) -> (r: &'static str)
    requires
        d < 10,
    ensures
        r@ == seq![digit_char(d as nat)],
{
    proof {
        reveal_strlit("0");
        reveal_strlit("1");
        reveal_strlit("2");
        reveal_strlit("3");
        reveal_strlit("4");
        reveal_strlit("5");
        reveal_strlit("6");
        reveal_strlit("7");
        reveal_strlit("8");
        reveal_strlit("9");
    }
    let r: &'static str = if d == 0 {
        "0"
    } else if d == 1 {
        "1"
    } else if d == 2 {
        "2"
    } else if d == 3 {
        "3"
    } else if d == 4 {
        "4"
    } else if d == 5 {
        "5"
    } else if d == 6 {
        "6"
    } else if d == 7 {
        "7"
    } else if d == 8 {
        "8"
    } else {
        "9"
    };
    proof {
        assert(r@ =~= seq![digit_char(d as nat)]);
    }
    r
}

/// Appends the decimal representation of `n` to `out`.
pub fn push_decimal(out: &mut String, n: u64)
    ensures
        final(out)@ == old(out)@ + dec_rep(n as nat),
{
    if n == 0 {
        proof {
            reveal_strlit("0");
        }
        out.append("0");
        proof {
            assert(out@ =~= old(out)@ + dec_rep(0));
        }
        return;
    }
    let mut digits: Vec<u64> = Vec::new();
    let mut m: u64 = n;
    while m > 0
        invariant
            rep_pos(n as nat) == rep_pos(m as nat) + digits_to_chars(digits@),
            forall|i: int| 0 <= i < digits@.len() ==> digits@[i] < 10,
        decreases m,
    {
        let ghost prev = digits@;
        let d: u64 = m % 10;
        digits.push(d);
        proof {
            assert(digits_to_chars(digits@) =~= seq![digit_char(d as nat)] + digits_to_chars(
                prev,
            ));
            assert(rep_pos(m as nat) =~= rep_pos((m / 10) as nat) + seq![
                digit_char((m % 10) as nat),
            ]);
        }
        m = m / 10;
    }
    let ghost chars = digits_to_chars(digits@);
    let mut j: usize = digits.len();
    while j > 0
        invariant
            j <= digits@.len(),
            forall|i: int| 0 <= i < digits@.len() ==> digits@[i] < 10,
            chars == digits_to_chars(digits@),
            rep_pos(n as nat) == chars,
            out@ == old(out)@ + chars.take(digits@.len() - j),
        decreases j,
    {
        j = j - 1;
        out.append(digit_str(digits[j]));
        proof {
            assert(chars[digits@.len() - 1 - j] == digit_char(digits@[j as int] as nat));
            assert(out@ =~= old(out)@ + chars.take(digits@.len() - j));
        }
    }
    proof {
        assert(chars.take(digits@.len() as int) =~= chars);
        assert(dec_rep(n as nat) == rep_pos(n as nat));
    }
}

/// The characters of the formatted date-time, with no zero padding:
/// year-month-day hour:minute:second.micro.
pub open spec fn date_chars(y: nat, mo: nat, d: nat, h: nat, mi: nat, s: nat, us: nat) -> Seq<
    char,
> {
    dec_rep(y) + seq!['-'] + dec_rep(mo) + seq!['-'] + dec_rep(d) + seq![' '] + dec_rep(h) + seq![
        ':',
    ] + dec_rep(mi) + seq![':'] + dec_rep(s) + seq!['.'] + dec_rep(us)
}

/// Renders a temporal value in the unpadded date-time format.
pub fn format_temporal(y: u16, mo: u8, d: u8, h: u8, mi: u8, s: u8, us: u32) -> (r: String)
    ensures
        r@ == date_chars(y as nat, mo as nat, d as nat, h as nat, mi as nat, s as nat, us as nat),
{
    proof {
        reveal_strlit("-");
        reveal_strlit(" ");
        reveal_strlit(":");
        reveal_strlit(".");
    }
    let mut out = String::new();
    push_decimal(&mut out, y as u64);
    out.append("-");
    push_decimal(&mut out, mo as u64);
    out.append("-");
    push_decimal(&mut out, d as u64);
    out.append(" ");
    push_decimal(&mut out, h as u64);
    out.append(":");
    push_decimal(&mut out, mi as u64);
    out.append(":");
    push_decimal(&mut out, s as u64);
    out.append(".");
    push_decimal(&mut out, us as u64);
    proof {
        assert(out@ =~= date_chars(
            y as nat,
            mo as nat,
            d as nat,
            h as nat,
            mi as nat,
            s as nat,
            us as nat,
        ));
    }
    out
}

/// What lenient UTF-8 decoding yields on bytes that are not valid UTF-8:
/// the input with each invalid sequence replaced.
pub uninterp spec fn replaced_of(bytes: Seq<u8>) -> Seq<char>;

/// The characters lenient UTF-8 decoding yields: valid UTF-8 decodes
/// exactly; anything else has its invalid sequences replaced.
pub open spec fn lossy_chars(bytes: Seq<u8>) -> Seq<char> {
    if valid_utf8(bytes) {
        decode_utf8(bytes)
    } else {
        replaced_of(bytes)
    }
}

/// Relies on `String::from_utf8_lossy`: valid UTF-8 is decoded unchanged,
/// and invalid sequences are replaced rather than rejected.
#[verifier::external_body]
pub fn decode_bytes_lossy(bytes: &Vec<u8>) -> (r: String)
    ensures
        r@ == lossy_chars(bytes@),
        !valid_utf8(bytes@) ==> r@ == replaced_of(bytes@),
{
    String::from_utf8_lossy(bytes).into_owned()
}

} // verus!
