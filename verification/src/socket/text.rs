//! Mathematical models of the texts the server reads and writes: decimal
//! numbers, IPv4 socket addresses and numeric settings.

use vstd::prelude::*;

verus! {

/// The ASCII character of the decimal digit `d` (for `d < 10`).
pub open spec fn digit_char(d: nat) -> char {
    (d + 48) as char
}

/// Whether `c` is one of the ASCII digits `'0'..='9'`.
pub open spec fn is_digit(c: char) -> bool {
    48 <= (c as int) && (c as int) <= 57
}

/// The numeric value of an ASCII digit.
pub open spec fn digit_value(c: char) -> int {
    (c as int) - 48
}

/// Whether every character of `s` is an ASCII digit.
pub open spec fn all_digits(s: Seq<char>) -> bool {
    forall|i: int| 0 <= i < s.len() ==> #[trigger] is_digit(s[i])
}

/// The value of a run of decimal digits, most significant first.
pub open spec fn digits_value(s: Seq<char>) -> int
    decreases s.len(),
{
    if s.len() == 0 {
        0
    } else {
        digits_value(s.drop_last()) * 10 + digit_value(s.last())
    }
}

/// The shortest decimal text of `n`.
pub open spec fn decimal(n: nat) -> Seq<char>
    decreases n,
{
    if n < 10 {
        seq![digit_char(n)]
    } else {
        decimal(n / 10).push(digit_char(n % 10))
    }
}

/// The integer that `str::parse` reads from text made of an optional `+`
/// followed by one or more ASCII digits; `None` for any other text.
pub open spec fn unsigned_value(s: Seq<char>) -> Option<int> {
    let body = if s.len() > 0 && s[0] == '+' {
        s.drop_first()
    } else {
        s
    };
    if body.len() > 0 && all_digits(body) {
        Some(digits_value(body))
    } else {
        None
    }
}

/// The integer that `str::parse` reads from text made of an optional `-` or
/// `+` followed by one or more ASCII digits; `None` for any other text.
pub open spec fn signed_value(s: Seq<char>) -> Option<int> {
    if s.len() > 0 && s[0] == '-' {
        let body = s.drop_first();
        if body.len() > 0 && all_digits(body) {
            Some(-digits_value(body))
        } else {
            None
        }
    } else {
        unsigned_value(s)
    }
}

/// `v` when it is present and lies in `min..=max`, else `None`: a value read
/// from text fits the integer type whose range is `min..=max`.
pub open spec fn within(v: Option<int>, min: int, max: int) -> Option<int> {
    match v {
        Some(x) => if min <= x && x <= max {
            Some(x)
        } else {
            None
        },
        None => None,
    }
}

/// Whether `part` is a contiguous piece of `whole`.
pub open spec fn is_slice_of(part: Seq<char>, whole: Seq<char>) -> bool {
    exists|i: int, j: int| 0 <= i <= j <= whole.len() && part == whole.subrange(i, j)
}

/// The text that stands for a peer whose address could not be obtained.
pub open spec fn unknown_peer_text() -> Seq<char> {
    seq!['U', 'n', 'k', 'n', 'o', 'w', 'n']
}

/// The text of an IPv4 socket address: the four octets of `ip` (most
/// significant first) in decimal, separated by dots, then a colon and `port`.
pub open spec fn inet_text(ip: u32, port: u16) -> Seq<char> {
    decimal(ip as nat / 16777216) + seq!['.'] + decimal((ip as nat / 65536) % 256) + seq!['.']
        + decimal((ip as nat / 256) % 256) + seq!['.'] + decimal(ip as nat % 256) + seq![':']
        + decimal(port as nat)
}

/// The decimal text of `n` is a non-empty run of digits whose value is `n`.
pub proof fn lemma_decimal_digits(n: nat)
    ensures
        decimal(n).len() > 0,
        all_digits(decimal(n)),
        digits_value(decimal(n)) == n,
    decreases n,
{
    if n < 10 {
        assert(digit_value(digit_char(n)) == n);
        assert(is_digit(decimal(n)[0]));
        assert(decimal(n).drop_last() =~= Seq::<char>::empty());
        assert(digits_value(Seq::<char>::empty()) == 0);
    } else {
        lemma_decimal_digits(n / 10);
        let s = decimal(n / 10);
        let t = decimal(n);
        assert(t.drop_last() =~= s);
        assert forall|i: int| 0 <= i < t.len() implies #[trigger] is_digit(t[i]) by {
            if i < s.len() {
                assert(t[i] == s[i]);
            }
        }
        assert(digit_value(t.last()) == n % 10);
        assert(digits_value(t) == digits_value(s) * 10 + digit_value(t.last()));
        assert(n == (n / 10) * 10 + n % 10);
    }
}

/// Reading the decimal text of a number gives the number back, with or
/// without a leading sign.
pub proof fn lemma_decimal_text_reads_back(n: nat)
    ensures
        unsigned_value(decimal(n)) == Some(n as int),
        signed_value(decimal(n)) == Some(n as int),
        unsigned_value(seq!['+'] + decimal(n)) == Some(n as int),
        signed_value(seq!['+'] + decimal(n)) == Some(n as int),
        signed_value(seq!['-'] + decimal(n)) == Some(-(n as int)),
{
    lemma_decimal_digits(n);
    let d = decimal(n);
    assert(is_digit(d[0]));
    assert((seq!['+'] + d)[0] == '+');
    assert((seq!['+'] + d).drop_first() =~= d);
    assert((seq!['-'] + d)[0] == '-');
    assert((seq!['-'] + d).drop_first() =~= d);
}

/// The text of a socket address never reads as the text that stands for an
/// unknown peer: the two can always be told apart.
pub proof fn lemma_address_text_is_not_unknown(ip: u32, port: u16)
    ensures
        inet_text(ip, port) != unknown_peer_text(),
{
    let first = decimal(ip as nat / 16777216);
    lemma_decimal_digits(ip as nat / 16777216);
    assert(is_digit(first[0]));
    assert(inet_text(ip, port)[0] == first[0]);
    assert(unknown_peer_text()[0] == 'U');
}

/// Two numbers with the same decimal text are equal.
proof fn lemma_decimal_injective(n: nat, m: nat)
    requires
        decimal(n) == decimal(m),
    ensures
        n == m,
{
    lemma_decimal_digits(n);
    lemma_decimal_digits(m);
}

/// A run of digits, a separator that is not a digit, then the rest: the run
/// and the rest are determined by the whole text.
proof fn lemma_split_at_separator(a1: Seq<char>, r1: Seq<char>, a2: Seq<char>, r2: Seq<char>, sep: char)
    requires
        all_digits(a1),
        all_digits(a2),
        !is_digit(sep),
        a1 + seq![sep] + r1 == a2 + seq![sep] + r2,
    ensures
        a1 == a2,
        r1 == r2,
{
    let w1 = a1 + seq![sep] + r1;
    let w2 = a2 + seq![sep] + r2;
    if a1.len() < a2.len() {
        assert(w1[a1.len() as int] == sep);
        assert(w2[a1.len() as int] == a2[a1.len() as int]);
        assert(is_digit(a2[a1.len() as int]));
    } else if a2.len() < a1.len() {
        assert(w2[a2.len() as int] == sep);
        assert(w1[a2.len() as int] == a1[a2.len() as int]);
        assert(is_digit(a1[a2.len() as int]));
    } else {
        assert forall|i: int| 0 <= i < a1.len() implies a1[i] == a2[i] by {
            assert(w1[i] == a1[i]);
            assert(w2[i] == a2[i]);
        }
        assert(a1 =~= a2);
        assert(w1.len() == w2.len());
        assert(r1.len() == r2.len());
        assert forall|i: int| 0 <= i < r1.len() implies r1[i] == r2[i] by {
            assert(w1[a1.len() + 1 + i] == r1[i]);
            assert(w2[a2.len() + 1 + i] == r2[i]);
        }
        assert(r1 =~= r2);
    }
}

/// A 32-bit number is determined by its four octets.
proof fn lemma_octets_determine(x: u32, y: u32)
    requires
        x / 16777216 == y / 16777216,
        (x / 65536) % 256 == (y / 65536) % 256,
        (x / 256) % 256 == (y / 256) % 256,
        x % 256 == y % 256,
    ensures
        x == y,
{
    assert(x == y) by (bit_vector)
        requires
            x / 16777216 == y / 16777216,
            (x / 65536) % 256 == (y / 65536) % 256,
            (x / 256) % 256 == (y / 256) % 256,
            x % 256 == y % 256,
    ;
}

/// The text of a socket address, grouped from the right.
proof fn lemma_inet_text_grouped(ip: u32, port: u16)
    ensures
        inet_text(ip, port) == decimal(ip as nat / 16777216) + seq!['.'] + (decimal((ip as nat / 65536) % 256)
            + seq!['.'] + (decimal((ip as nat / 256) % 256) + seq!['.'] + (decimal(ip as nat % 256) + seq![':']
            + decimal(port as nat)))),
{
    let a = decimal(ip as nat / 16777216);
    let b = decimal((ip as nat / 65536) % 256);
    let c = decimal((ip as nat / 256) % 256);
    let d = decimal(ip as nat % 256);
    let p = decimal(port as nat);
    assert(inet_text(ip, port) =~= a + seq!['.'] + (b + seq!['.'] + (c + seq!['.'] + (d + seq![':'] + p))));
}

/// The text of a socket address determines the address and the port: reading
/// the text back gives the address and port it was written from.
pub proof fn lemma_address_text_determines_address(ip1: u32, port1: u16, ip2: u32, port2: u16)
    requires
        inet_text(ip1, port1) == inet_text(ip2, port2),
    ensures
        ip1 == ip2,
        port1 == port2,
{
    let (o1, o2, o3, o4) = (ip1 as nat / 16777216, (ip1 as nat / 65536) % 256, (ip1 as nat / 256) % 256, ip1 as nat % 256);
    let (n1, n2, n3, n4) = (ip2 as nat / 16777216, (ip2 as nat / 65536) % 256, (ip2 as nat / 256) % 256, ip2 as nat % 256);
    let t1 = decimal(o4) + seq![':'] + decimal(port1 as nat);
    let t2 = decimal(n4) + seq![':'] + decimal(port2 as nat);
    let s1 = decimal(o3) + seq!['.'] + t1;
    let s2 = decimal(n3) + seq!['.'] + t2;
    let q1 = decimal(o2) + seq!['.'] + s1;
    let q2 = decimal(n2) + seq!['.'] + s2;
    lemma_inet_text_grouped(ip1, port1);
    lemma_inet_text_grouped(ip2, port2);
    lemma_decimal_digits(o1);
    lemma_decimal_digits(o2);
    lemma_decimal_digits(o3);
    lemma_decimal_digits(o4);
    lemma_decimal_digits(n1);
    lemma_decimal_digits(n2);
    lemma_decimal_digits(n3);
    lemma_decimal_digits(n4);
    assert(!is_digit('.'));
    assert(!is_digit(':'));
    lemma_split_at_separator(decimal(o1), q1, decimal(n1), q2, '.');
    lemma_split_at_separator(decimal(o2), s1, decimal(n2), s2, '.');
    lemma_split_at_separator(decimal(o3), t1, decimal(n3), t2, '.');
    lemma_split_at_separator(decimal(o4), decimal(port1 as nat), decimal(n4), decimal(port2 as nat), ':');
    lemma_decimal_injective(o1, n1);
    lemma_decimal_injective(o2, n2);
    lemma_decimal_injective(o3, n3);
    lemma_decimal_injective(o4, n4);
    lemma_decimal_injective(port1 as nat, port2 as nat);
    lemma_octets_determine(ip1, ip2);
}

} // verus!
