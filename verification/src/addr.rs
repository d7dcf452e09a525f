//! IPv4 addresses as the library holds them: four octets, read from and
//! written as dotted decimal text.

use vstd::prelude::*;
use vstd::string::*;
use crate::text::{
    all_digits, chars_of, decimal_text, decimal_value, digit_char, digit_value, fields_view,
    format_decimal, is_digit, join, lemma_decimal_text_value, lemma_join_split,
    lemma_split_append_plain, lemma_split_push_sep, parse_decimal, split, split_fields,
};

verus! {

/// An IPv4 address.
#[derive(Clone, Copy, Debug, PartialEq, Eq, Hash, Structural)]
pub struct Ipv4Addr {
    pub a: u8,
    pub b: u8,
    pub c: u8,
    pub d: u8,
}

/// The octet written by `s`: one to three digits, no leading zero on a
/// longer field, value at most 255.
pub open spec fn octet_of(s: Seq<char>) -> Option<u8> {
    if 1 <= s.len() <= 3 && all_digits(s) && (s.len() == 1 || s[0] != '0') && decimal_value(s)
        <= 255 {
        Some(decimal_value(s) as u8)
    } else {
        None
    }
}

/// The address written by `s`: exactly four octets separated by dots.
pub open spec fn ipv4_of(s: Seq<char>) -> Option<Ipv4Addr> {
    let parts = split(s, '.');
    if parts.len() == 4 && octet_of(parts[0]) is Some && octet_of(parts[1]) is Some && octet_of(
        parts[2],
    ) is Some && octet_of(parts[3]) is Some {
        Some(
            Ipv4Addr {
                a: octet_of(parts[0]).unwrap(),
                b: octet_of(parts[1]).unwrap(),
                c: octet_of(parts[2]).unwrap(),
                d: octet_of(parts[3]).unwrap(),
            },
        )
    } else {
        None
    }
}

impl Ipv4Addr {
    /// The dotted decimal text of the address.
    pub open spec fn text(self) -> Seq<char> {
        decimal_text(self.a as nat) + seq!['.'] + decimal_text(self.b as nat) + seq!['.']
            + decimal_text(self.c as nat) + seq!['.'] + decimal_text(self.d as nat)
    }

    /// Whether the address lies in `127.0.0.0/8`.
    pub open spec fn spec_is_loopback(self) -> bool {
        self.a == 127
    }

    /// The address with the given octets, most significant first.
    pub fn new(a: u8, b: u8, c: u8, d: u8) -> (r: Ipv4Addr)
        ensures
            r == (Ipv4Addr { a, b, c, d }),
    {
        Ipv4Addr { a, b, c, d }
    }

    /// The address with the given octets, most significant first.
    pub fn from_octets(octets: [u8; 4]) -> (r: Ipv4Addr)
        ensures
            r == (Ipv4Addr { a: octets@[0], b: octets@[1], c: octets@[2], d: octets@[3] }),
    {
        Ipv4Addr { a: octets[0], b: octets[1], c: octets[2], d: octets[3] }
    }

    /// The four octets, most significant first.
    pub fn octets(&self) -> (r: [u8; 4])
        ensures
            r@ == seq![self.a, self.b, self.c, self.d],
    {
        let r: [u8; 4] = [self.a, self.b, self.c, self.d];
        proof {
            assert(r@ =~= seq![self.a, self.b, self.c, self.d]);
        }
        r
    }

    /// Whether the address lies in `127.0.0.0/8`.
    pub fn is_loopback(&self) -> (r: bool)
        ensures
            r == self.spec_is_loopback(),
    {
        self.a == 127
    }

    /// Reads dotted decimal text; anything else gives nothing. The text of
    /// an address is the only text that reads as that address.
    pub fn parse(s: &str) -> (r: Option<Ipv4Addr>)
        ensures
            r == ipv4_of(s@),
            r is Some ==> s@ == r.unwrap().text(),
    {
        proof {
            if ipv4_of(s@) is Some {
                lemma_ipv4_text_unique(s@);
            }
        }
        let chars: Vec<char> = chars_of(s);
        let parts: Vec<Vec<char>> = split_fields(&chars, '.');
        if parts.len() != 4 {
            return None;
        }
        proof {
            assert(fields_view(parts@)[0] == parts@[0]@);
            assert(fields_view(parts@)[1] == parts@[1]@);
            assert(fields_view(parts@)[2] == parts@[2]@);
            assert(fields_view(parts@)[3] == parts@[3]@);
        }
        let a: u8 = match parse_octet(&parts[0]) {
            Some(v) => v,
            None => { return None; },
        };
        let b: u8 = match parse_octet(&parts[1]) {
            Some(v) => v,
            None => { return None; },
        };
        let c: u8 = match parse_octet(&parts[2]) {
            Some(v) => v,
            None => { return None; },
        };
        let d: u8 = match parse_octet(&parts[3]) {
            Some(v) => v,
            None => { return None; },
        };
        Some(Ipv4Addr { a, b, c, d })
    }

    /// Writes the address as dotted decimal text, which reads back as the
    /// same address.
    pub fn to_string(&self) -> (r: String)
        ensures
            r@ == self.text(),
            ipv4_of(r@) == Some(*self),
    {
        proof {
            reveal_strlit(".");
            lemma_ipv4_text_round_trip(*self);
        }
        let mut out: String = format_decimal(self.a as u64);
        out.append(".");
        out.append(format_decimal(self.b as u64).as_str());
        out.append(".");
        out.append(format_decimal(self.c as u64).as_str());
        out.append(".");
        out.append(format_decimal(self.d as u64).as_str());
        proof {
            assert("."@ =~= seq!['.']);
            assert(out@ =~= self.text());
        }
        out
    }
}

/// The decimal writing of an octet reads back as that octet.
pub proof fn lemma_octet_text_round_trip(n: u8)
    ensures
        octet_of(decimal_text(n as nat)) == Some(n),
        all_digits(decimal_text(n as nat)),
{
    let m = n as nat;
    lemma_decimal_text_value(m);
    reveal_with_fuel(decimal_text, 4);
    let t = decimal_text(m);
    if m < 10 {
        assert(t.len() == 1);
    } else if m < 100 {
        assert(t =~= seq![digit_char(m / 10), digit_char(m % 10)]);
        assert(t[0] != '0');
    } else {
        assert(t =~= seq![digit_char(m / 100), digit_char((m / 10) % 10), digit_char(m % 10)]);
        assert(t[0] != '0');
    }
}

/// Only the decimal writing of an octet reads as that octet.
pub proof fn lemma_octet_text_unique(s: Seq<char>)
    requires
        octet_of(s) is Some,
    ensures
        s == decimal_text(octet_of(s).unwrap() as nat),
{
    reveal_with_fuel(decimal_value, 4);
    reveal_with_fuel(decimal_text, 4);
    let n = decimal_value(s);
    assert forall|c: char| is_digit(c) implies digit_char(digit_value(c)) == c by {}
    if s.len() == 1 {
        assert(s.drop_last() =~= Seq::<char>::empty());
        assert(is_digit(s[0]));
        assert(s =~= decimal_text(n));
    } else if s.len() == 2 {
        assert(s.drop_last() =~= seq![s[0]]);
        assert(s.drop_last().drop_last() =~= Seq::<char>::empty());
        assert(is_digit(s[0]) && is_digit(s[1]));
        assert(n == digit_value(s[0]) * 10 + digit_value(s[1]));
        assert(s =~= decimal_text(n));
    } else {
        assert(s.drop_last() =~= seq![s[0], s[1]]);
        assert(s.drop_last().drop_last() =~= seq![s[0]]);
        assert(s.drop_last().drop_last().drop_last() =~= Seq::<char>::empty());
        assert(is_digit(s[0]) && is_digit(s[1]) && is_digit(s[2]));
        assert(n == (digit_value(s[0]) * 10 + digit_value(s[1])) * 10 + digit_value(s[2]));
        assert(s =~= decimal_text(n));
    }
}

/// Only the text of an address reads as that address: no other writing is
/// accepted.
pub proof fn lemma_ipv4_text_unique(s: Seq<char>)
    requires
        ipv4_of(s) is Some,
    ensures
        s == ipv4_of(s).unwrap().text(),
{
    let parts = split(s, '.');
    lemma_join_split(s, '.');
    lemma_octet_text_unique(parts[0]);
    lemma_octet_text_unique(parts[1]);
    lemma_octet_text_unique(parts[2]);
    lemma_octet_text_unique(parts[3]);
    reveal_with_fuel(join, 5);
    let p3 = parts.drop_last();
    let p2 = p3.drop_last();
    let p1 = p2.drop_last();
    assert(p3.last() == parts[2]);
    assert(p2.last() == parts[1]);
    assert(p1[0] == parts[0]);
    assert(join(p1, '.') == parts[0]);
    assert(join(p2, '.') == join(p1, '.').push('.') + parts[1]);
    assert(join(p3, '.') == join(p2, '.').push('.') + parts[2]);
    assert(join(parts, '.') == join(p3, '.').push('.') + parts[3]);
    assert(join(parts, '.') =~= ipv4_of(s).unwrap().text());
}

/// An address written as text and read again is the same address.
pub proof fn lemma_ipv4_text_round_trip(ip: Ipv4Addr)
    ensures
        ipv4_of(ip.text()) == Some(ip),
{
    let a = decimal_text(ip.a as nat);
    let b = decimal_text(ip.b as nat);
    let c = decimal_text(ip.c as nat);
    let d = decimal_text(ip.d as nat);
    lemma_octet_text_round_trip(ip.a);
    lemma_octet_text_round_trip(ip.b);
    lemma_octet_text_round_trip(ip.c);
    lemma_octet_text_round_trip(ip.d);
    let none = Seq::<char>::empty();
    let s1 = none + a;
    lemma_split_append_plain(none, a, '.');
    assert(split(none, '.') =~= seq![none]);
    assert(none + a =~= a);
    assert(split(s1, '.') =~= seq![a]);
    let s2 = s1.push('.');
    lemma_split_push_sep(s1, '.');
    assert(split(s2, '.') =~= seq![a, none]);
    let s3 = s2 + b;
    lemma_split_append_plain(s2, b, '.');
    assert(none + b =~= b);
    assert(split(s3, '.') =~= seq![a, b]);
    let s4 = s3.push('.');
    lemma_split_push_sep(s3, '.');
    assert(split(s4, '.') =~= seq![a, b, none]);
    let s5 = s4 + c;
    lemma_split_append_plain(s4, c, '.');
    assert(none + c =~= c);
    assert(split(s5, '.') =~= seq![a, b, c]);
    let s6 = s5.push('.');
    lemma_split_push_sep(s5, '.');
    assert(split(s6, '.') =~= seq![a, b, c, none]);
    let s7 = s6 + d;
    lemma_split_append_plain(s6, d, '.');
    assert(none + d =~= d);
    assert(split(s7, '.') =~= seq![a, b, c, d]);
    assert(ip.text() =~= s7);
}

/// Reads one octet of dotted decimal text.
pub fn parse_octet(field: &Vec<char>) -> (r: Option<u8>)
    ensures
        r == octet_of(field@),
{
    if field.len() < 1 || field.len() > 3 {
        return None;
    }
    if field.len() > 1 && field[0] == '0' {
        return None;
    }
    match parse_decimal(field, 255) {
        Some(v) => Some(v as u8),
        None => None,
    }
}

} // verus!
