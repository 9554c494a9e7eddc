//! The `application/x-www-form-urlencoded` format that every request
//! serializes into: its mathematical model, the outside serializer that
//! produces it, and the proof that encoding is lossless.
//!
//! The model works on the UTF-8 bytes of keys and values. A byte that is
//! alphanumeric or one of `*`, `-`, `.`, `_` stays as it is, a space
//! becomes `+`, and every other byte becomes `%` followed by two
//! uppercase hex digits. Pairs join as `key=value`, separated by `&`.

use vstd::prelude::*;

verus! {

/// True of the bytes the format keeps unchanged: ASCII alphanumerics
/// and `*`, `-`, `.`, `_`.
pub open spec fn is_unreserved_byte(b: u8) -> bool {
    b == 42 || b == 45 || b == 46 || b == 95 || (48 <= b && b <= 57) || (65 <= b && b <= 90) || (
    97 <= b && b <= 122)
}

/// The uppercase hex digit for a value below 16.
pub open spec fn hex_digit(n: u8) -> u8
    recommends
        n < 16,
{
    if n < 10 {
        (48 + n) as u8
    } else {
        (55 + n) as u8
    }
}

/// True of the bytes that can stand for a hex digit in an escape:
/// `0`-`9` and `A`-`F`.
pub open spec fn is_hex_byte(b: u8) -> bool {
    (48 <= b && b <= 57) || (65 <= b && b <= 70)
}

/// The value of a hex digit byte.
pub open spec fn hex_value(b: u8) -> u8
    recommends
        is_hex_byte(b),
{
    if b < 58 {
        (b - 48) as u8
    } else {
        (b - 55) as u8
    }
}

/// How one byte serializes: kept, `+`, or a `%XX` escape.
pub open spec fn encode_byte(b: u8) -> Seq<u8> {
    if b == 32 {
        seq![43u8]
    } else if is_unreserved_byte(b) {
        seq![b]
    } else {
        seq![37u8, hex_digit(b / 16), hex_digit(b % 16)]
    }
}

/// The percent-encoding of a byte string, one byte at a time.
pub open spec fn percent_encode(bs: Seq<u8>) -> Seq<u8>
    decreases bs.len(),
{
    if bs.len() == 0 {
        Seq::empty()
    } else {
        encode_byte(bs[0]) + percent_encode(bs.drop_first())
    }
}

/// The inverse of `percent_encode`: `+` back to space, `%XX` back to
/// one byte, unreserved bytes kept; anything else rejects the input.
pub open spec fn percent_decode(cs: Seq<u8>) -> Option<Seq<u8>>
    decreases cs.len(),
{
    if cs.len() == 0 {
        Some(Seq::empty())
    } else if cs[0] == 43 {
        match percent_decode(cs.drop_first()) {
            Some(t) => Some(seq![32u8] + t),
            None => None,
        }
    } else if cs[0] == 37 {
        if cs.len() >= 3 && is_hex_byte(cs[1]) && is_hex_byte(cs[2]) {
            match percent_decode(cs.skip(3)) {
                Some(t) => Some(seq![(hex_value(cs[1]) * 16 + hex_value(cs[2])) as u8] + t),
                None => None,
            }
        } else {
            None
        }
    } else if is_unreserved_byte(cs[0]) {
        match percent_decode(cs.drop_first()) {
            Some(t) => Some(seq![cs[0]] + t),
            None => None,
        }
    } else {
        None
    }
}

/// One serialized pair: percent-encoded key, `=`, percent-encoded value.
pub open spec fn encode_pair(p: (Seq<u8>, Seq<u8>)) -> Seq<u8> {
    percent_encode(p.0) + seq![61u8] + percent_encode(p.1)
}

/// The whole serialized form: the pairs, joined by `&`.
pub open spec fn spec_form_urlencode(ps: Seq<(Seq<u8>, Seq<u8>)>) -> Seq<u8>
    decreases ps.len(),
{
    if ps.len() == 0 {
        Seq::empty()
    } else if ps.len() == 1 {
        encode_pair(ps[0])
    } else {
        encode_pair(ps[0]) + seq![38u8] + spec_form_urlencode(ps.drop_first())
    }
}

/// The position of the first occurrence of `t`, if any.
pub open spec fn find_byte(cs: Seq<u8>, t: u8) -> Option<int>
    decreases cs.len(),
{
    if cs.len() == 0 {
        None
    } else if cs[0] == t {
        Some(0)
    } else {
        match find_byte(cs.drop_first(), t) {
            Some(i) => Some(i + 1),
            None => None,
        }
    }
}

/// True when `t` occurs nowhere in `cs`.
pub open spec fn avoids(cs: Seq<u8>, t: u8) -> bool {
    forall|i: int| 0 <= i < cs.len() ==> cs[i] != t
}

/// Decodes one `key=value` chunk.
pub open spec fn decode_pair(chunk: Seq<u8>) -> Option<(Seq<u8>, Seq<u8>)> {
    match find_byte(chunk, 61) {
        Some(j) => match (percent_decode(chunk.take(j)), percent_decode(
            chunk.skip(j + 1),
        )) {
            (Some(k), Some(v)) => Some((k, v)),
            _ => None,
        },
        None => None,
    }
}

/// The inverse of `spec_form_urlencode`: splits on `&`, then decodes
/// each `key=value` chunk.
pub open spec fn spec_form_decode(cs: Seq<u8>) -> Option<Seq<(Seq<u8>, Seq<u8>)>>
    decreases cs.len(),
    via spec_form_decode_decreases
{
    if cs.len() == 0 {
        Some(Seq::empty())
    } else {
        match find_byte(cs, 38) {
            None => match decode_pair(cs) {
                Some(p) => Some(seq![p]),
                None => None,
            },
            Some(i) => match (decode_pair(cs.take(i)), spec_form_decode(cs.skip(i + 1))) {
                (Some(p), Some(t)) => Some(seq![p] + t),
                _ => None,
            },
        }
    }
}

/// Where `find_byte` answers, the position is in range and holds `t`.
pub proof fn lemma_find_byte_bounds(cs: Seq<u8>, t: u8)
    ensures
        match find_byte(cs, t) {
            Some(i) => 0 <= i < cs.len() && cs[i] == t,
            None => true,
        },
    decreases cs.len(),
{
    if cs.len() != 0 && cs[0] != t {
        lemma_find_byte_bounds(cs.drop_first(), t);
    }
}

#[via_fn]
proof fn spec_form_decode_decreases(cs: Seq<u8>) {
    lemma_find_byte_bounds(cs, 38);
}

/// Where `t` never occurs, `find_byte` finds nothing.
pub proof fn lemma_find_byte_absent(cs: Seq<u8>, t: u8)
    requires
        avoids(cs, t),
    ensures
        find_byte(cs, t) is None,
    decreases cs.len(),
{
    if cs.len() != 0 {
        lemma_find_byte_absent(cs.drop_first(), t);
    }
}

/// `find_byte` skips over a prefix that avoids `t`.
pub proof fn lemma_find_byte_concat(a: Seq<u8>, b: Seq<u8>, t: u8)
    requires
        avoids(a, t),
    ensures
        find_byte(a + b, t) == match find_byte(b, t) {
            Some(i) => Some(i + a.len()),
            None => None::<int>,
        },
    decreases a.len(),
{
    if a.len() == 0 {
        assert(a + b =~= b);
    } else {
        lemma_find_byte_concat(a.drop_first(), b, t);
        assert((a + b).drop_first() =~= a.drop_first() + b);
    }
}

/// Decoding undoes the serialization of one byte, whatever follows it.
proof fn lemma_decode_encode_byte(b: u8, rest: Seq<u8>)
    ensures
        percent_decode(encode_byte(b) + rest) == match percent_decode(rest) {
            Some(t) => Some(seq![b] + t),
            None => None::<Seq<u8>>,
        },
{
    let cs = encode_byte(b) + rest;
    if b == 32 {
        assert(cs[0] == 43);
        assert(cs.drop_first() =~= rest);
    } else if is_unreserved_byte(b) {
        assert(cs[0] == b && b != 43 && b != 37);
        assert(cs.drop_first() =~= rest);
    } else {
        assert(cs[0] == 37);
        assert(cs.len() >= 3);
        assert(cs[1] == hex_digit(b / 16) && cs[2] == hex_digit(b % 16));
        assert(is_hex_byte(hex_digit(b / 16)) && is_hex_byte(hex_digit(b % 16)));
        assert(hex_value(hex_digit(b / 16)) == b / 16 && hex_value(hex_digit(b % 16)) == b % 16);
        assert((b / 16) * 16 + b % 16 == b) by {
            vstd::arithmetic::div_mod::lemma_fundamental_div_mod(b as int, 16);
        }
        assert(cs.skip(3) =~= rest);
    }
}

/// Percent-decoding undoes percent-encoding on every byte string.
pub proof fn lemma_percent_round_trip(bs: Seq<u8>)
    ensures
        percent_decode(percent_encode(bs)) == Some(bs),
    decreases bs.len(),
{
    if bs.len() == 0 {
        assert(percent_encode(bs) =~= Seq::<u8>::empty());
        assert(Seq::<u8>::empty() =~= bs);
    } else {
        lemma_percent_round_trip(bs.drop_first());
        lemma_decode_encode_byte(bs[0], percent_encode(bs.drop_first()));
        assert(seq![bs[0]] + bs.drop_first() =~= bs);
    }
}

/// A serialized byte never reads as `&` or `=`.
proof fn lemma_encode_byte_avoids(b: u8, t: u8)
    requires
        t == 38 || t == 61,
    ensures
        avoids(encode_byte(b), t),
{
}

/// A percent-encoded string never holds `&` or `=`.
pub proof fn lemma_percent_encode_avoids(bs: Seq<u8>, t: u8)
    requires
        t == 38 || t == 61,
    ensures
        avoids(percent_encode(bs), t),
    decreases bs.len(),
{
    if bs.len() != 0 {
        lemma_encode_byte_avoids(bs[0], t);
        lemma_percent_encode_avoids(bs.drop_first(), t);
        assert forall|i: int| 0 <= i < percent_encode(bs).len() implies percent_encode(bs)[i]
            != t by {
            let e = encode_byte(bs[0]);
            if i >= e.len() {
                assert(percent_encode(bs)[i] == percent_encode(bs.drop_first())[i - e.len()]);
            }
        }
    }
}

/// Decoding undoes the serialization of one pair.
proof fn lemma_decode_encode_pair(p: (Seq<u8>, Seq<u8>))
    ensures
        avoids(encode_pair(p), 38),
        decode_pair(encode_pair(p)) == Some(p),
{
    let ek = percent_encode(p.0);
    let ev = percent_encode(p.1);
    let chunk = encode_pair(p);
    lemma_percent_encode_avoids(p.0, 38);
    lemma_percent_encode_avoids(p.1, 38);
    lemma_percent_encode_avoids(p.0, 61);
    lemma_percent_encode_avoids(p.1, 61);
    assert forall|i: int| 0 <= i < chunk.len() implies chunk[i] != 38 by {
        if i < ek.len() {
        } else if i == ek.len() {
            assert(chunk[i] == 61);
        } else {
            assert(chunk[i] == ev[i - ek.len() - 1]);
        }
    }
    lemma_find_byte_concat(ek, seq![61u8] + ev, 61);
    assert((seq![61u8] + ev)[0] == 61);
    assert(find_byte(seq![61u8] + ev, 61) == Some(0int));
    assert(find_byte(chunk, 61) == Some(ek.len() as int)) by {
        assert(chunk =~= ek + (seq![61u8] + ev));
    }
    assert(chunk.take(ek.len() as int) =~= ek);
    assert(chunk.skip(ek.len() as int + 1) =~= ev);
    lemma_percent_round_trip(p.0);
    lemma_percent_round_trip(p.1);
}

/// Decoding the serialized form gives every pair back unchanged: the
/// serialization is lossless, for all keys and values.
pub proof fn lemma_form_urlencode_round_trip(ps: Seq<(Seq<u8>, Seq<u8>)>)
    ensures
        spec_form_decode(spec_form_urlencode(ps)) == Some(ps),
    decreases ps.len(),
{
    let cs = spec_form_urlencode(ps);
    if ps.len() == 0 {
        assert(cs =~= Seq::<u8>::empty());
        assert(ps =~= Seq::<(Seq<u8>, Seq<u8>)>::empty());
    } else if ps.len() == 1 {
        lemma_decode_encode_pair(ps[0]);
        lemma_find_byte_absent(cs, 38);
        assert(cs.len() != 0);
        assert(ps =~= seq![ps[0]]);
    } else {
        let chunk = encode_pair(ps[0]);
        let rest = spec_form_urlencode(ps.drop_first());
        lemma_decode_encode_pair(ps[0]);
        lemma_form_urlencode_round_trip(ps.drop_first());
        lemma_find_byte_concat(chunk, seq![38u8] + rest, 38);
        assert((seq![38u8] + rest)[0] == 38);
        assert(find_byte(seq![38u8] + rest, 38) == Some(0int));
        assert(cs =~= chunk + (seq![38u8] + rest));
        assert(find_byte(cs, 38) == Some(chunk.len() as int));
        assert(cs.len() != 0);
        assert(cs.take(chunk.len() as int) =~= chunk);
        assert(cs.skip(chunk.len() as int + 1) =~= rest);
        assert(seq![ps[0]] + ps.drop_first() =~= ps);
    }
}

/// The pairs' keys and values as UTF-8 bytes: what the serializer
/// actually encodes.
pub open spec fn pairs_utf8(ps: Seq<(String, String)>) -> Seq<(Seq<u8>, Seq<u8>)> {
    ps.map_values(|p: (String, String)| (vstd::utf8::encode_utf8(p.0@), vstd::utf8::encode_utf8(p.1@)))
}

/// Relies on `serde_urlencoded::to_string`: a sequence of string pairs
/// serializes to `key=value` chunks joined by `&`, each key and value
/// form-urlencoded from its UTF-8 bytes (alphanumerics and `*-._` kept,
/// space as `+`, other bytes as uppercase `%XX`); its serializer takes
/// every string pair down an infallible path, so the call returns `Ok`.
#[verifier::external_body]
pub(crate) fn urlencode_string_pairs(pairs: &Vec<(String, String)>) -> (r: Result<String, String>)
    ensures
        r is Ok,
        r matches Ok(s) ==> vstd::utf8::encode_utf8(s@) == spec_form_urlencode(pairs_utf8(pairs@)),
{
    match serde_urlencoded::to_string(pairs) {
        Ok(s) => Ok(s),
        Err(e) => Err(e.to_string()),
    }
}

/// The decimal digit character for a value below 10.
pub open spec fn digit_char(n: nat) -> char
    recommends
        n < 10,
{
    if n == 0 {
        '0'
    } else if n == 1 {
        '1'
    } else if n == 2 {
        '2'
    } else if n == 3 {
        '3'
    } else if n == 4 {
        '4'
    } else if n == 5 {
        '5'
    } else if n == 6 {
        '6'
    } else if n == 7 {
        '7'
    } else if n == 8 {
        '8'
    } else {
        '9'
    }
}

/// The decimal digit characters of `n`, most significant first, with
/// no leading zero except for `n == 0` itself.
pub open spec fn spec_decimal_chars(n: nat) -> Seq<char>
    decreases n,
{
    if n < 10 {
        seq![digit_char(n)]
    } else {
        spec_decimal_chars(n / 10) + seq![digit_char(n % 10)]
    }
}

/// The one-character string for a decimal digit.
fn decimal_digit_str(d: u64) -> (r: &'static str)
    requires
        d < 10,
    ensures
        r@ == seq![digit_char(d as nat)],
{
    let r: &'static str = if d == 0 {
        "0"
    } else if d == 1 {
        "1"
    } else if d == 2 {
        "2"
    } else if d == 3 {
        "3"
    } else if d == 4 {
        "4"
    } else if d == 5 {
        "5"
    } else if d == 6 {
        "6"
    } else if d == 7 {
        "7"
    } else if d == 8 {
        "8"
    } else {
        "9"
    };
    proof {
        reveal_strlit("0");
        reveal_strlit("1");
        reveal_strlit("2");
        reveal_strlit("3");
        reveal_strlit("4");
        reveal_strlit("5");
        reveal_strlit("6");
        reveal_strlit("7");
        reveal_strlit("8");
        reveal_strlit("9");
    }
    assert(r@ =~= seq![digit_char(d as nat)]);
    r
}

/// Renders `n` in decimal, exactly as `spec_decimal_chars` says.
pub fn u64_to_decimal(n: u64) -> (r: String)
    ensures
        r@ == spec_decimal_chars(n as nat),
    decreases n,
{
    if n < 10 {
        decimal_digit_str(n).to_owned()
    } else {
        let mut s = u64_to_decimal(n / 10);
        s.append(decimal_digit_str(n % 10));
        assert(s@ =~= spec_decimal_chars(n as nat));
        s
    }
}

} // verus!
