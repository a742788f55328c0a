//! Field-element codec: canonical decimal literals for elements of a prime
//! field given by a `u64` modulus.
//!
//! A valid literal is non-empty, consists of decimal digits only, and carries
//! no unnecessary leading zero (`"0"` is valid, `"007"` is not). Parsing
//! reduces the literal's integer value modulo the field modulus; serialization
//! produces the canonical literal of a reduced element.
use vstd::prelude::*;
use vstd::arithmetic::div_mod::{
    lemma_add_mod_noop, lemma_fundamental_div_mod, lemma_mod_bound, lemma_mul_mod_noop_left,
    lemma_small_mod,
};

verus! {

/// A malformed decimal literal.
#[derive(Clone, Copy, Debug, PartialEq, Eq, Structural)]
pub struct ParseError;

pub open spec fn is_digit(c: char) -> bool {
    48 <= c as int && c as int <= 57
}

pub open spec fn is_digit_seq(s: Seq<char>) -> bool {
    forall|i: int| 0 <= i < s.len() ==> is_digit(s[i])
}

/// A canonical decimal literal: non-empty, all digits, no leading zero.
pub open spec fn is_dec_literal(s: Seq<char>) -> bool {
    &&& s.len() > 0
    &&& is_digit_seq(s)
    &&& (s.len() > 1 ==> s[0] != '0')
}

/// The integer a digit string denotes in base 10.
pub open spec fn dec_value(s: Seq<char>) -> int
    decreases s.len(),
{
    if s.len() == 0 {
        0
    } else {
        dec_value(s.drop_last()) * 10 + (s.last() as int - 48)
    }
}

pub open spec fn digit_char(d: int) -> char {
    if d == 0 {
        '0'
    } else if d == 1 {
        '1'
    } else if d == 2 {
        '2'
    } else if d == 3 {
        '3'
    } else if d == 4 {
        '4'
    } else if d == 5 {
        '5'
    } else if d == 6 {
        '6'
    } else if d == 7 {
        '7'
    } else if d == 8 {
        '8'
    } else {
        '9'
    }
}

/// The canonical decimal literal of a non-negative integer.
pub open spec fn dec_literal_of(x: nat) -> Seq<char>
    decreases x,
{
    if x < 10 {
        seq![digit_char(x as int)]
    } else {
        dec_literal_of((x / 10) as nat).push(digit_char((x % 10) as int))
    }
}

proof fn lemma_digit_char_value(d: int)
    requires
        0 <= d <= 9,
    ensures
        digit_char(d) as int == d + 48,
        is_digit(digit_char(d)),
        d != 0 ==> digit_char(d) != '0',
{
}

/// The canonical literal of `x` is a valid literal and denotes `x`.
pub proof fn lemma_dec_literal_of_value(x: nat)
    ensures
        is_dec_literal(dec_literal_of(x)),
        dec_value(dec_literal_of(x)) == x,
        x > 0 ==> dec_literal_of(x)[0] != '0',
    decreases x,
{
    if x < 10 {
        lemma_digit_char_value(x as int);
        let s = dec_literal_of(x);
        assert(s.drop_last() =~= Seq::<char>::empty());
        assert(dec_value(Seq::<char>::empty()) == 0);
        assert(dec_value(s) == dec_value(s.drop_last()) * 10 + (s.last() as int - 48));
        assert(s.last() == digit_char(x as int));
    } else {
        lemma_dec_literal_of_value((x / 10) as nat);
        lemma_digit_char_value((x % 10) as int);
        let prefix = dec_literal_of((x / 10) as nat);
        let s = dec_literal_of(x);
        assert(s.drop_last() =~= prefix);
        assert(dec_value(s) == dec_value(prefix) * 10 + (x % 10));
        lemma_fundamental_div_mod(x as int, 10);
        assert(s[0] == prefix[0]);
    }
}

/// Round trip: parsing the serialized form of a reduced field element
/// gives the element back. Together with the contracts of
/// `serialize_field_element` and `parse_field_element` this states that
/// `parse_field_element(&serialize_field_element(x), m) == Ok(x)`
/// whenever `x < m`, and that the serialized form is canonical.
pub proof fn lemma_parse_serialize_round_trip(x: u64, m: u64)
    requires
        m >= 2,
        x < m,
    ensures
        is_dec_literal(dec_literal_of(x as nat)),
        dec_value(dec_literal_of(x as nat)) % (m as int) == x,
{
    lemma_dec_literal_of_value(x as nat);
    lemma_small_mod(x as nat, m as nat);
}

fn digit_str(d: u64) -> (s: &'static str)
    requires
        d < 10,
    ensures
        s@ == seq![digit_char(d as int)],
{
    if d == 0 {
        proof {
            reveal_strlit("0");
            assert("0"@ =~= seq![digit_char(0)]);
        }
        "0"
    } else if d == 1 {
        proof {
            reveal_strlit("1");
            assert("1"@ =~= seq![digit_char(1)]);
        }
        "1"
    } else if d == 2 {
        proof {
            reveal_strlit("2");
            assert("2"@ =~= seq![digit_char(2)]);
        }
        "2"
    } else if d == 3 {
        proof {
            reveal_strlit("3");
            assert("3"@ =~= seq![digit_char(3)]);
        }
        "3"
    } else if d == 4 {
        proof {
            reveal_strlit("4");
            assert("4"@ =~= seq![digit_char(4)]);
        }
        "4"
    } else if d == 5 {
        proof {
            reveal_strlit("5");
            assert("5"@ =~= seq![digit_char(5)]);
        }
        "5"
    } else if d == 6 {
        proof {
            reveal_strlit("6");
            assert("6"@ =~= seq![digit_char(6)]);
        }
        "6"
    } else if d == 7 {
        proof {
            reveal_strlit("7");
            assert("7"@ =~= seq![digit_char(7)]);
        }
        "7"
    } else if d == 8 {
        proof {
            reveal_strlit("8");
            assert("8"@ =~= seq![digit_char(8)]);
        }
        "8"
    } else {
        proof {
            reveal_strlit("9");
            assert("9"@ =~= seq![digit_char(9)]);
        }
        "9"
    }
}

/// Serialize a field element to its canonical decimal literal.
pub fn serialize_field_element(x: u64) -> (s: String)
    ensures
        s@ == dec_literal_of(x as nat),
    decreases x,
{
    if x < 10 {
        String::from_str(digit_str(x))
    } else {
        let mut s = serialize_field_element(x / 10);
        s.append(digit_str(x % 10));
        proof {
            assert(dec_literal_of(((x as nat) / 10) as nat).push(
                digit_char(((x as nat) % 10) as int),
            ) =~= dec_literal_of(((x as nat) / 10) as nat) + seq![
                digit_char(((x as nat) % 10) as int),
            ]);
            assert((x / 10) as nat == (x as nat) / 10) by (nonlinear_arith);
            assert((x % 10) as nat == (x as nat) % 10) by (nonlinear_arith);
        }
        s
    }
}

/// Parse a canonical decimal literal into a field element, reducing its
/// value modulo `m`. Fails exactly on strings that are not valid literals.
pub fn parse_field_element(s: &str, m: u64) -> (r: Result<u64, ParseError>)
    requires
        m >= 2,
    ensures
        r is Ok <==> is_dec_literal(s@),
        r is Ok ==> r->Ok_0 == dec_value(s@) % (m as int),
{
    let n = s.unicode_len();
    if n == 0 {
        return Err(ParseError);
    }
    let mut acc: u64 = 0;
    let mut i: usize = 0;
    proof {
        assert(s@.take(0) =~= Seq::<char>::empty());
        assert(dec_value(Seq::<char>::empty()) == 0);
        lemma_small_mod(0, m as nat);
    }
    while i < n
        invariant
            m >= 2,
            n == s@.len(),
            0 <= i <= n,
            acc < m,
            acc == dec_value(s@.take(i as int)) % (m as int),
            forall|j: int| 0 <= j < i ==> is_digit(s@[j]),
        decreases n - i,
    {
        let c = s.get_char(i);
        let code: u32 = c as u32;
        if code < 48 || code > 57 {
            return Err(ParseError);
        }
        let d: u64 = (code - 48) as u64;
        let wide: u128 = ((acc as u128) * 10 + (d as u128)) % (m as u128);
        proof {
            let prefix = s@.take(i as int);
            let ext = s@.take(i as int + 1);
            assert(ext.drop_last() =~= prefix);
            assert(ext.last() == s@[i as int]);
            let a = dec_value(prefix);
            let mi = m as int;
            lemma_mul_mod_noop_left(a, 10, mi);
            lemma_add_mod_noop((a % mi) * 10, d as int, mi);
            lemma_add_mod_noop(a * 10, d as int, mi);
            assert(((a % mi) * 10 + d) % mi == (a * 10 + d) % mi);
            assert(dec_value(ext) == a * 10 + d);
            lemma_mod_bound((acc as int) * 10 + d, mi);
        }
        acc = wide as u64;
        i = i + 1;
    }
    proof {
        assert(s@.take(n as int) =~= s@);
    }
    if n > 1 {
        let c0 = s.get_char(0);
        if c0 == '0' {
            return Err(ParseError);
        }
    }
    Ok(acc)
}

} // verus!
