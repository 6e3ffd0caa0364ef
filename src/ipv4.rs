use vstd::prelude::*;
use vstd::std_specs::bits::{axiom_u32_leading_zeros, u32_leading_ones};
use vstd::string::StrSliceExecFns;
use vstd::string::StringExecFns;

use crate::text::{decimal_text, push_decimal};

verus! {

/// An IPv4 address, held as its four octets from the most significant one.
#[derive(Clone, Copy, Debug, PartialEq, Eq, Structural)]
pub struct Ipv4Address {
    pub a: u8,
    pub b: u8,
    pub c: u8,
    pub d: u8,
}

pub open spec fn is_digit(c: char) -> bool {
    '0' <= c && c <= '9'
}

pub open spec fn digit_value(c: char) -> nat {
    (c as u32 - '0' as u32) as nat
}

/// The number written by the decimal digits `p`.
pub open spec fn decimal_value(p: Seq<char>) -> nat
    decreases p.len(),
{
    if p.len() == 0 {
        0
    } else {
        decimal_value(p.drop_last()) * 10 + digit_value(p.last())
    }
}

/// The octet that `p` writes: one to three digits, no leading zero, at most 255.
pub open spec fn octet_of(p: Seq<char>) -> Option<u8> {
    if 1 <= p.len() <= 3 && (forall|j: int| 0 <= j < p.len() ==> is_digit(#[trigger] p[j])) && (
    p.len() == 1 || p[0] != '0') && decimal_value(p) <= 255 {
        Some(decimal_value(p) as u8)
    } else {
        None
    }
}

/// The pieces of `s` between its dots (one piece more than there are dots).
pub open spec fn split_dots(s: Seq<char>) -> Seq<Seq<char>>
    decreases s.len(),
{
    if s.len() == 0 {
        seq![Seq::empty()]
    } else {
        let init = split_dots(s.drop_last());
        if s.last() == '.' {
            init.push(Seq::empty())
        } else {
            init.update(init.len() - 1, init.last().push(s.last()))
        }
    }
}

/// The address that dotted-decimal text `s` writes, if it writes one: exactly
/// four pieces between dots, each a canonical decimal octet.
pub open spec fn parse_ipv4(s: Seq<char>) -> Option<Ipv4Address> {
    let parts = split_dots(s);
    if parts.len() == 4 && octet_of(parts[0]) is Some && octet_of(parts[1]) is Some && octet_of(
        parts[2],
    ) is Some && octet_of(parts[3]) is Some {
        Some(
            Ipv4Address {
                a: octet_of(parts[0]).unwrap(),
                b: octet_of(parts[1]).unwrap(),
                c: octet_of(parts[2]).unwrap(),
                d: octet_of(parts[3]).unwrap(),
            },
        )
    } else {
        None
    }
}

/// The address in dotted-decimal text.
pub open spec fn ipv4_text(x: Ipv4Address) -> Seq<char> {
    decimal_text(x.a as nat) + seq!['.'] + decimal_text(x.b as nat) + seq!['.'] + decimal_text(
        x.c as nat,
    ) + seq!['.'] + decimal_text(x.d as nat)
}

/// The address as one 32-bit number, first octet highest.
pub open spec fn ipv4_bits(x: Ipv4Address) -> u32 {
    ((x.a as int) * 0x100_0000 + (x.b as int) * 0x1_0000 + (x.c as int) * 0x100 + (
    x.d as int)) as u32
}

/// `n` is the number of one bits at the top of `m`, before its first zero bit.
pub open spec fn has_leading_ones(m: u32, n: nat) -> bool {
    &&& n <= 32
    &&& forall|j: u32| 32 - n <= j < 32 ==> #[trigger] ((m >> j) & 1u32) == 1u32
    &&& n < 32 ==> (m >> ((31 - n) as u32)) & 1u32 == 0u32
}

proof fn lemma_split_dots_nonempty(s: Seq<char>)
    ensures
        split_dots(s).len() >= 1,
    decreases s.len(),
{
    if s.len() > 0 {
        lemma_split_dots_nonempty(s.drop_last());
    }
}

proof fn lemma_decimal_step(p: Seq<char>, i: int)
    requires
        0 <= i < p.len(),
    ensures
        decimal_value(p.take(i + 1)) == decimal_value(p.take(i)) * 10 + digit_value(p[i]),
{
    assert(p.take(i + 1).drop_last() =~= p.take(i));
}

/// The octet that the characters `p` write, as `octet_of` says.
pub fn parse_octet(p: &Vec<char>) -> (r: Option<u8>)
    ensures
        r == octet_of(p@),
{
    let n = p.len();
    if n < 1 || n > 3 {
        return None;
    }
    if n > 1 && p[0] == '0' {
        return None;
    }
    let mut v: u32 = 0;
    let mut i: usize = 0;
    while i < n
        invariant
            n == p@.len(),
            1 <= n <= 3,
            i <= n,
            forall|j: int| 0 <= j < i ==> is_digit(#[trigger] p@[j]),
            v == decimal_value(p@.take(i as int)),
            (i == 0 && v == 0) || (i == 1 && v < 10) || (i == 2 && v < 100) || (i == 3 && v
                < 1000),
        decreases n - i,
    {
        let c = p[i];
        if !('0' <= c && c <= '9') {
            return None;
        }
        proof {
            lemma_decimal_step(p@, i as int);
        }
        v = v * 10 + (c as u32 - '0' as u32);
        i = i + 1;
    }
    assert(p@.take(n as int) =~= p@);
    if v > 255 {
        None
    } else {
        Some(v as u8)
    }
}

impl Ipv4Address {
    /// Reads an address from dotted-decimal text such as `10.0.2.15`.
    pub fn parse(s: &str) -> (r: Option<Ipv4Address>)
        ensures
            r == parse_ipv4(s@),
    {
        let n = s.unicode_len();
        let mut done: Vec<Option<u8>> = Vec::new();
        let mut cur: Vec<char> = Vec::new();
        let mut i: usize = 0;
        while i < n
            invariant
                n == s@.len(),
                i <= n,
                split_dots(s@.take(i as int)).len() == done@.len() + 1,
                forall|j: int|
                    0 <= j < done@.len() ==> #[trigger] done@[j] == octet_of(
                        split_dots(s@.take(i as int))[j],
                    ),
                cur@ == split_dots(s@.take(i as int)).last(),
            decreases n - i,
        {
            let c = s.get_char(i);
            proof {
                assert(s@.take(i + 1).drop_last() =~= s@.take(i as int));
            }
            if c == '.' {
                let o = parse_octet(&cur);
                done.push(o);
                cur = Vec::new();
            } else {
                cur.push(c);
            }
            i = i + 1;
        }
        assert(s@.take(n as int) =~= s@);
        let last = parse_octet(&cur);
        if done.len() != 3 {
            return None;
        }
        match (done[0], done[1], done[2], last) {
            (Some(a), Some(b), Some(c), Some(d)) => Some(Ipv4Address { a, b, c, d }),
            _ => None,
        }
    }

    /// The address as one 32-bit number, first octet highest.
    pub fn to_bits(&self) -> (r: u32)
        ensures
            r == ipv4_bits(*self),
    {
        (self.a as u32) * 0x100_0000 + (self.b as u32) * 0x1_0000 + (self.c as u32) * 0x100
            + (self.d as u32)
    }

    /// The address in dotted-decimal text.
    pub fn to_text(&self) -> (r: String)
        ensures
            r@ == ipv4_text(*self),
    {
        let mut out = String::new();
        push_decimal(&mut out, self.a as u32);
        out.append(".");
        push_decimal(&mut out, self.b as u32);
        out.append(".");
        push_decimal(&mut out, self.c as u32);
        out.append(".");
        push_decimal(&mut out, self.d as u32);
        proof {
            reveal_strlit(".");
        }
        out
    }
}

/// The prefix length of a subnet mask: the number of one bits at its top. For a
/// mask whose ones are not all at the top, this counts only those before the
/// first zero.
pub fn prefix_len(mask: Ipv4Address) -> (r: u8)
    ensures
        r == u32_leading_ones(ipv4_bits(mask)),
        has_leading_ones(ipv4_bits(mask), r as nat),
{
    let m = mask.to_bits();
    let inv = !m;
    let z = inv.leading_zeros();
    proof {
        axiom_u32_leading_zeros(inv);
        assert forall|j: u32| 32 - z <= j < 32 implies #[trigger] ((m >> j) & 1u32) == 1u32 by {
            assert((inv >> j) & 1u32 == 0u32);
            assert(inv == !m && j < 32 ==> ((inv >> j) & 1u32 == 0u32 <==> (m >> j) & 1u32
                == 1u32)) by (bit_vector);
        }
        if z < 32 {
            let k = (31 - z) as u32;
            assert(vstd::prelude::sub(31u32, z) == k);
            assert((inv >> k) & 1u32 != 0u32);
            assert(inv == !m && k < 32 ==> ((inv >> k) & 1u32 != 0u32 <==> (m >> k) & 1u32
                == 0u32)) by (bit_vector);
        }
    }
    z as u8
}

} // verus!
