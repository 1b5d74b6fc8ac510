use vstd::prelude::*;
use vstd::string::StringExecFns;

verus! {

/// The character of one decimal digit.
pub open spec fn digit_char(d: int) -> char {
    if d == 0 {
        '0'
    } else if d == 1 {
        '1'
    } else if d == 2 {
        '2'
    } else if d == 3 {
        '3'
    } else if d == 4 {
        '4'
    } else if d == 5 {
        '5'
    } else if d == 6 {
        '6'
    } else if d == 7 {
        '7'
    } else if d == 8 {
        '8'
    } else {
        '9'
    }
}

/// The decimal numeral of an octet: one to three digits, no leading zero.
pub open spec fn dec_octet(n: int) -> Seq<char> {
    if n < 10 {
        seq![digit_char(n)]
    } else if n < 100 {
        seq![digit_char(n / 10), digit_char(n % 10)]
    } else {
        seq![digit_char(n / 100), digit_char((n / 10) % 10), digit_char(n % 10)]
    }
}

/// The dotted-decimal text of an IPv4 address.
pub open spec fn ipv4_text(a: u8, b: u8, c: u8, d: u8) -> Seq<char> {
    dec_octet(a as int) + seq!['.'] + dec_octet(b as int) + seq!['.'] + dec_octet(c as int)
        + seq!['.'] + dec_octet(d as int)
}

/// The characters dotted-decimal text is made of.
pub open spec fn is_dotted_decimal_char(ch: char) -> bool {
    ch == '.' || ch == '0' || ch == '1' || ch == '2' || ch == '3' || ch == '4' || ch == '5' || ch
        == '6' || ch == '7' || ch == '8' || ch == '9'
}

/// The one-character string of a decimal digit.
fn digit_str(d: u8) -> (r: &'static str)
    requires
        d < 10,
    ensures
        r@ == seq![digit_char(d as int)],
{
    proof {
        reveal_strlit("0");
        reveal_strlit("1");
        reveal_strlit("2");
        reveal_strlit("3");
        reveal_strlit("4");
        reveal_strlit("5");
        reveal_strlit("6");
        reveal_strlit("7");
        reveal_strlit("8");
        reveal_strlit("9");
    }
    let r = match d {
        0 => "0",
        1 => "1",
        2 => "2",
        3 => "3",
        4 => "4",
        5 => "5",
        6 => "6",
        7 => "7",
        8 => "8",
        _ => "9",
    };
    proof {
        assert(r@ =~= seq![digit_char(d as int)]);
    }
    r
}

/// The decimal numeral of `n`, as [`dec_octet`] spells it.
pub fn octet_string(n: u8) -> (r: String)
    ensures
        r@ == dec_octet(n as int),
{
    let r = if n < 10 {
        String::from_str(digit_str(n))
    } else if n < 100 {
        String::from_str(digit_str(n / 10)).concat(digit_str(n % 10))
    } else {
        String::from_str(digit_str(n / 100)).concat(digit_str((n / 10) % 10)).concat(
            digit_str(n % 10),
        )
    };
    proof {
        assert(r@ =~= dec_octet(n as int));
    }
    r
}

/// The dotted-decimal text of an IPv4 address, as [`ipv4_text`] spells it.
pub fn ipv4_string(a: u8, b: u8, c: u8, d: u8) -> (r: String)
    ensures
        r@ == ipv4_text(a, b, c, d),
{
    proof {
        reveal_strlit(".");
        assert("."@ =~= seq!['.']);
    }
    let r = octet_string(a).concat(".").concat(octet_string(b).as_str()).concat(".").concat(
        octet_string(c).as_str(),
    ).concat(".").concat(octet_string(d).as_str());
    proof {
        assert(r@ =~= ipv4_text(a, b, c, d));
    }
    r
}

/// Every character of an octet's numeral is a decimal digit.
proof fn lemma_dec_octet_chars(n: int)
    requires
        0 <= n < 256,
    ensures
        1 <= dec_octet(n).len() <= 3,
        forall|i: int|
            0 <= i < dec_octet(n).len() ==> is_dotted_decimal_char(#[trigger] dec_octet(n)[i])
                && dec_octet(n)[i] != '.',
{
}

/// Dotted-decimal text spells the loopback literal only for the loopback
/// address itself.
proof fn lemma_ipv4_text_eq_loopback(a: u8, b: u8, c: u8, d: u8)
    requires
        ipv4_text(a, b, c, d) == "127.0.0.1"@,
    ensures
        a == 127,
{
    reveal_strlit("127.0.0.1");
    lemma_dec_octet_chars(a as int);
    lemma_dec_octet_chars(b as int);
    lemma_dec_octet_chars(c as int);
    lemma_dec_octet_chars(d as int);
    let s = ipv4_text(a, b, c, d);
    if a < 10 {
        assert(s[1] == '.');
        assert(false);
    } else if a < 100 {
        assert(s[2] == '.');
        assert(false);
    } else {
        assert(s[0] == digit_char(a as int / 100));
        assert(s[1] == digit_char((a as int / 10) % 10));
        assert(s[2] == digit_char(a as int % 10));
        assert(a as int / 100 == 1 && (a as int / 10) % 10 == 2 && a as int % 10 == 7);
        vstd::arithmetic::div_mod::lemma_fundamental_div_mod(a as int, 10);
        vstd::arithmetic::div_mod::lemma_fundamental_div_mod(a as int / 10, 10);
        vstd::arithmetic::div_mod::lemma_div_denominator(a as int, 10, 10);
        assert(a == 127);
    }
}

/// Dotted-decimal text spells the unspecified literal only for the
/// unspecified address itself.
proof fn lemma_ipv4_text_eq_unspecified(a: u8, b: u8, c: u8, d: u8)
    requires
        ipv4_text(a, b, c, d) == "0.0.0.0"@,
    ensures
        a == 0 && b == 0 && c == 0 && d == 0,
{
    reveal_strlit("0.0.0.0");
    lemma_dec_octet_chars(a as int);
    lemma_dec_octet_chars(b as int);
    lemma_dec_octet_chars(c as int);
    lemma_dec_octet_chars(d as int);
    let s = ipv4_text(a, b, c, d);
    assert(s.len() == 7);
    assert(dec_octet(a as int).len() == 1 && dec_octet(b as int).len() == 1 && dec_octet(
        c as int,
    ).len() == 1 && dec_octet(d as int).len() == 1);
    assert(s[0] == digit_char(a as int) && s[2] == digit_char(b as int) && s[4] == digit_char(
        c as int,
    ) && s[6] == digit_char(d as int));
    assert(a < 10 && b < 10 && c < 10 && d < 10);
    assert(a == 0 && b == 0 && c == 0 && d == 0);
}

/// The dotted-decimal text of a usable address — one that is neither in the
/// loopback block nor unspecified — never spells the loopback literal nor
/// the unspecified literal.
pub proof fn lemma_usable_ipv4_text_excluded(a: u8, b: u8, c: u8, d: u8)
    requires
        a != 127,
        !(a == 0 && b == 0 && c == 0 && d == 0),
    ensures
        ipv4_text(a, b, c, d) != "127.0.0.1"@,
        ipv4_text(a, b, c, d) != "0.0.0.0"@,
{
    if ipv4_text(a, b, c, d) == "127.0.0.1"@ {
        lemma_ipv4_text_eq_loopback(a, b, c, d);
    }
    if ipv4_text(a, b, c, d) == "0.0.0.0"@ {
        lemma_ipv4_text_eq_unspecified(a, b, c, d);
    }
}

/// Dotted-decimal text consists of digits and dots alone; in particular it
/// never contains a colon, so it is never an IPv6 literal.
pub proof fn lemma_ipv4_text_is_dotted_decimal(a: u8, b: u8, c: u8, d: u8)
    ensures
        forall|i: int|
            0 <= i < ipv4_text(a, b, c, d).len() ==> is_dotted_decimal_char(
                #[trigger] ipv4_text(a, b, c, d)[i],
            ),
        forall|i: int| 0 <= i < ipv4_text(a, b, c, d).len() ==> ipv4_text(a, b, c, d)[i] != ':',
{
    lemma_dec_octet_chars(a as int);
    lemma_dec_octet_chars(b as int);
    lemma_dec_octet_chars(c as int);
    lemma_dec_octet_chars(d as int);
}

} // verus!
