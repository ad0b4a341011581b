use vstd::prelude::*;
use vstd::slice::{slice_subrange, slice_to_vec};
use vstd::utf8::{encode_utf8, valid_utf8};

verus! {

/// The character for one decimal digit.
pub open spec fn spec_digit_char(d: int) -> char {
    if d == 0 {
        '0'
    } else if d == 1 {
        '1'
    } else if d == 2 {
        '2'
    } else if d == 3 {
        '3'
    } else if d == 4 {
        '4'
    } else if d == 5 {
        '5'
    } else if d == 6 {
        '6'
    } else if d == 7 {
        '7'
    } else if d == 8 {
        '8'
    } else {
        '9'
    }
}

/// The usual decimal rendering of an unsigned integer, most significant
/// digit first, without leading zeroes.
pub open spec fn spec_dec_u64(n: u64) -> Seq<char>
    decreases n,
{
    if n < 10 {
        seq![spec_digit_char(n as int)]
    } else {
        spec_dec_u64(n / 10) + seq![spec_digit_char((n % 10) as int)]
    }
}

/// The decimal rendering of a signed integer: a minus sign before the
/// rendering of the magnitude.
pub open spec fn spec_dec_i64(t: i64) -> Seq<char> {
    if t >= 0 {
        spec_dec_u64(t as u64)
    } else {
        seq!['-'] + spec_dec_u64((-(t as int)) as u64)
    }
}

fn digit_str(d: u64) -> (r: &'static str)
    requires
        d < 10,
    ensures
        r@ == seq![spec_digit_char(d as int)],
{
    proof {
        reveal_strlit("0");
        reveal_strlit("1");
        reveal_strlit("2");
        reveal_strlit("3");
        reveal_strlit("4");
        reveal_strlit("5");
        reveal_strlit("6");
        reveal_strlit("7");
        reveal_strlit("8");
        reveal_strlit("9");
    }
    let r = if d == 0 {
        "0"
    } else if d == 1 {
        "1"
    } else if d == 2 {
        "2"
    } else if d == 3 {
        "3"
    } else if d == 4 {
        "4"
    } else if d == 5 {
        "5"
    } else if d == 6 {
        "6"
    } else if d == 7 {
        "7"
    } else if d == 8 {
        "8"
    } else {
        "9"
    };
    proof {
        assert(r@ =~= seq![spec_digit_char(d as int)]);
    }
    r
}

pub fn u64_to_dec(n: u64) -> (r: String)
    ensures
        r@ == spec_dec_u64(n),
    decreases n,
{
    if n < 10 {
        let r = String::from_str(digit_str(n));
        proof {
            assert(r@ =~= spec_dec_u64(n));
        }
        r
    } else {
        let mut s = u64_to_dec(n / 10);
        s.append(digit_str(n % 10));
        proof {
            assert(s@ =~= spec_dec_u64(n));
        }
        s
    }
}

pub fn u32_to_dec(n: u32) -> (r: String)
    ensures
        r@ == spec_dec_u64(n as u64),
{
    u64_to_dec(n as u64)
}

pub fn i64_to_dec(t: i64) -> (r: String)
    ensures
        r@ == spec_dec_i64(t),
{
    if t >= 0 {
        u64_to_dec(t as u64)
    } else {
        let magnitude: u64 = (-(t as i128)) as u64;
        proof {
            reveal_strlit("-");
        }
        let mut s = String::from_str("-");
        let m = u64_to_dec(magnitude);
        s.append(m.as_str());
        proof {
            assert(s@ =~= spec_dec_i64(t));
        }
        s
    }
}

/// The character for one hexadecimal digit (lower case).
pub open spec fn spec_hex_digit_char(d: int) -> char {
    if d < 10 {
        spec_digit_char(d)
    } else if d == 10 {
        'a'
    } else if d == 11 {
        'b'
    } else if d == 12 {
        'c'
    } else if d == 13 {
        'd'
    } else if d == 14 {
        'e'
    } else {
        'f'
    }
}

/// One byte rendered as exactly two hexadecimal digits.
pub open spec fn spec_hex_byte(b: u8) -> Seq<char> {
    seq![spec_hex_digit_char((b >> 4) as int), spec_hex_digit_char((b & 15) as int)]
}

/// A byte sequence rendered as hexadecimal digit pairs, first byte first.
pub open spec fn spec_hex_bytes(s: Seq<u8>) -> Seq<char>
    decreases s.len(),
{
    if s.len() == 0 {
        Seq::empty()
    } else {
        spec_hex_byte(s[0]) + spec_hex_bytes(s.drop_first())
    }
}

proof fn lemma_hex_bytes_push(s: Seq<u8>, b: u8)
    ensures
        spec_hex_bytes(s.push(b)) == spec_hex_bytes(s) + spec_hex_byte(b),
    decreases s.len(),
{
    if s.len() == 0 {
        assert(s.push(b).drop_first() =~= Seq::<u8>::empty());
        assert(s.push(b)[0] == b);
        assert(spec_hex_bytes(s.push(b)) == spec_hex_byte(b) + spec_hex_bytes(
            Seq::<u8>::empty(),
        ));
        assert(spec_hex_bytes(s.push(b)) =~= spec_hex_bytes(s) + spec_hex_byte(b));
    } else {
        assert(s.push(b).drop_first() =~= s.drop_first().push(b));
        lemma_hex_bytes_push(s.drop_first(), b);
        assert(s.push(b)[0] == s[0]);
        assert(spec_hex_bytes(s.push(b)) == spec_hex_byte(s[0]) + spec_hex_bytes(
            s.drop_first().push(b),
        ));
        assert(spec_hex_bytes(s) == spec_hex_byte(s[0]) + spec_hex_bytes(s.drop_first()));
        assert(spec_hex_bytes(s.push(b)) =~= spec_hex_bytes(s) + spec_hex_byte(b));
    }
}

fn hex_digit_str(d: u8) -> (r: &'static str)
    requires
        d < 16,
    ensures
        r@ == seq![spec_hex_digit_char(d as int)],
{
    if d < 10 {
        digit_str(d as u64)
    } else {
        proof {
            reveal_strlit("a");
            reveal_strlit("b");
            reveal_strlit("c");
            reveal_strlit("d");
            reveal_strlit("e");
            reveal_strlit("f");
        }
        let r = if d == 10 {
            "a"
        } else if d == 11 {
            "b"
        } else if d == 12 {
            "c"
        } else if d == 13 {
            "d"
        } else if d == 14 {
            "e"
        } else {
            "f"
        };
        proof {
            assert(r@ =~= seq![spec_hex_digit_char(d as int)]);
        }
        r
    }
}

pub fn bytes_to_hex(data: &[u8]) -> (r: String)
    ensures
        r@ == spec_hex_bytes(data@),
{
    let mut s = String::new();
    let mut i: usize = 0;
    while i < data.len()
        invariant
            i <= data@.len(),
            s@ == spec_hex_bytes(data@.take(i as int)),
        decreases data@.len() - i,
    {
        let b = data[i];
        proof {
            assert((b >> 4) < 16 && (b & 15) < 16) by (bit_vector);
        }
        s.append(hex_digit_str(b >> 4));
        s.append(hex_digit_str(b & 15));
        proof {
            lemma_hex_bytes_push(data@.take(i as int), b);
            assert(data@.take(i as int).push(b) =~= data@.take(i as int + 1));
            assert(s@ =~= spec_hex_bytes(data@.take(i as int + 1)));
        }
        i = i + 1;
    }
    proof {
        assert(data@.take(data@.len() as int) =~= data@);
    }
    s
}

/// The bytes of a string: its UTF-8 encoding.
pub fn str_to_bytes(s: &str) -> (r: Vec<u8>)
    ensures
        r@ == encode_utf8(s@),
{
    let b = s.as_bytes();
    slice_to_vec(b)
}

/// A copy of the given range of a byte slice.
pub fn bytes_range(data: &[u8], i: usize, j: usize) -> (r: Vec<u8>)
    requires
        i <= j <= data@.len(),
    ensures
        r@ == data@.subrange(i as int, j as int),
{
    slice_to_vec(slice_subrange(data, i, j))
}

/// Relies on String::from_utf8: it succeeds exactly on valid UTF-8 input,
/// and the returned string consists of exactly those bytes.
#[verifier::external_body]
pub fn string_from_utf8(v: Vec<u8>) -> (r: Option<String>)
    ensures
        r is Some <==> valid_utf8(v@),
        r is Some ==> encode_utf8(r.unwrap()@) == v@,
{
    String::from_utf8(v).ok()
}

/// What str::to_lowercase returns: a pure function of the characters alone.
pub uninterp spec fn lower_of(s: Seq<char>) -> Seq<char>;

/// Relies on str::to_lowercase, whose result depends only on the characters
/// of its input (it consults no locale or other ambient state).
#[verifier::external_body]
pub fn to_lowercase_string(s: &str) -> (r: String)
    ensures
        r@ == lower_of(s@),
{
    s.to_lowercase()
}

} // verus!
