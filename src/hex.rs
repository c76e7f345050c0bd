use vstd::prelude::*;

verus! {

/// The sixteen lowercase hexadecimal digits, in order of value.
pub open spec fn hex_alphabet() -> Seq<char> {
    seq!['0', '1', '2', '3', '4', '5', '6', '7', '8', '9', 'a', 'b', 'c', 'd', 'e', 'f']
}

/// The lowercase digit that stands for `n`, for `0 <= n < 16`.
pub open spec fn hex_digit(n: int) -> char {
    hex_alphabet()[n]
}

/// Two lowercase digits per byte, high nibble first.
pub open spec fn hex_chars(b: Seq<u8>) -> Seq<char> {
    Seq::new(
        2 * b.len(),
        |i: int|
            if i % 2 == 0 {
                hex_digit(b[i / 2] as int / 16)
            } else {
                hex_digit(b[i / 2] as int % 16)
            },
    )
}

/// The value of one ASCII hexadecimal digit (either case), or -1 for any other byte.
pub open spec fn hex_value(c: u8) -> int {
    if 48 <= c <= 57 {
        c - 48
    } else if 97 <= c <= 102 {
        c - 87
    } else if 65 <= c <= 70 {
        c - 55
    } else {
        -1
    }
}

/// Whether every byte of `s` is a hexadecimal digit and their number is even.
pub open spec fn is_hex(s: Seq<u8>) -> bool {
    s.len() % 2 == 0 && forall|i: int| 0 <= i < s.len() ==> hex_value(#[trigger] s[i]) >= 0
}

/// The bytes that a run of hexadecimal digit pairs stands for.
pub open spec fn hex_decode(s: Seq<u8>) -> Seq<u8> {
    Seq::new(s.len() / 2, |k: int| (hex_value(s[2 * k]) * 16 + hex_value(s[2 * k + 1])) as u8)
}

/// The ASCII byte of each character, for a run of ASCII characters.
pub open spec fn ascii_bytes(s: Seq<char>) -> Seq<u8> {
    Seq::new(s.len(), |i: int| s[i] as u8)
}

/// The byte of each hexadecimal digit is a digit again, and its value is the nibble it was made from.
pub proof fn lemma_hex_digit_value(n: int)
    requires
        0 <= n < 16,
    ensures
        hex_value(hex_digit(n) as u8) == n,
        '\0' <= hex_digit(n) <= '\u{7f}',
{
    assert(hex_value('0' as u8) == 0);
    assert(hex_value('9' as u8) == 9);
    assert(hex_value('a' as u8) == 10);
    assert(hex_value('f' as u8) == 15);
}

/// The digit for the nibble `n`, as a one-character string.
fn digit_str(n: u8) -> (r: &'static str)
    requires
        n < 16,
    ensures
        r@ == seq![hex_digit(n as int)],
{
    match n {
        0 => { proof { reveal_strlit("0"); } "0" },
        1 => { proof { reveal_strlit("1"); } "1" },
        2 => { proof { reveal_strlit("2"); } "2" },
        3 => { proof { reveal_strlit("3"); } "3" },
        4 => { proof { reveal_strlit("4"); } "4" },
        5 => { proof { reveal_strlit("5"); } "5" },
        6 => { proof { reveal_strlit("6"); } "6" },
        7 => { proof { reveal_strlit("7"); } "7" },
        8 => { proof { reveal_strlit("8"); } "8" },
        9 => { proof { reveal_strlit("9"); } "9" },
        10 => { proof { reveal_strlit("a"); } "a" },
        11 => { proof { reveal_strlit("b"); } "b" },
        12 => { proof { reveal_strlit("c"); } "c" },
        13 => { proof { reveal_strlit("d"); } "d" },
        14 => { proof { reveal_strlit("e"); } "e" },
        _ => { proof { reveal_strlit("f"); } "f" },
    }
}

/// Appends the lowercase hexadecimal form of `b` to `out`.
pub fn push_hex(out: &mut String, b: &Vec<u8>)
    ensures
        final(out)@ == old(out)@ + hex_chars(b@),
{
    let ghost start = out@;
    let mut i: usize = 0;
    while i < b.len()
        invariant
            i <= b@.len(),
            out@ == start + hex_chars(b@.take(i as int)),
        decreases b@.len() - i,
    {
        let byte = b[i];
        let hi = digit_str(byte / 16);
        let lo = digit_str(byte % 16);
        out.append(hi);
        out.append(lo);
        proof {
            assert(b@.take(i + 1) == b@.take(i as int).push(byte));
        }
        i = i + 1;
        assert(hex_chars(b@.take(i as int)) =~= hex_chars(b@.take(i - 1)) + seq![hex_digit(byte as int / 16), hex_digit(byte as int % 16)]);
    }
    assert(b@.take(i as int) =~= b@);
}

/// The lowercase hexadecimal form of `b`.
pub fn to_hex(b: &Vec<u8>) -> (r: String)
    ensures
        r@ == hex_chars(b@),
{
    let mut r = String::new();
    push_hex(&mut r, b);
    assert(r@ =~= hex_chars(b@));
    r
}

/// The value of one hexadecimal digit byte, if it is one.
fn digit_value(c: u8) -> (r: Option<u8>)
    ensures
        r.is_some() == (hex_value(c) >= 0),
        r.is_some() ==> r.unwrap() == hex_value(c),
{
    if 48 <= c && c <= 57 {
        Some(c - 48)
    } else if 97 <= c && c <= 102 {
        Some(c - 87)
    } else if 65 <= c && c <= 70 {
        Some(c - 55)
    } else {
        None
    }
}

/// Decodes `s[start..end]` as hexadecimal digit pairs; `None` where a byte is not a digit.
pub fn decode_hex(s: &[u8], start: usize, end: usize) -> (r: Option<Vec<u8>>)
    requires
        start <= end <= s@.len(),
        (end - start) % 2 == 0,
    ensures
        r.is_some() == is_hex(s@.subrange(start as int, end as int)),
        r.is_some() ==> r.unwrap()@ == hex_decode(s@.subrange(start as int, end as int)),
{
    let ghost sub = s@.subrange(start as int, end as int);
    let mut out: Vec<u8> = Vec::new();
    let mut k: usize = start;
    while k < end
        invariant
            start <= k <= end <= s@.len(),
            (k - start) % 2 == 0,
            (end - start) % 2 == 0,
            sub == s@.subrange(start as int, end as int),
            out@.len() == (k - start) / 2,
            forall|j: int| 0 <= j < k - start ==> hex_value(#[trigger] sub[j]) >= 0,
            forall|j: int| 0 <= j < out@.len() ==> #[trigger] out@[j] == hex_decode(sub)[j],
        decreases end - k,
    {
        let hi = digit_value(s[k]);
        let lo = digit_value(s[k + 1]);
        match (hi, lo) {
            (Some(h), Some(l)) => {
                out.push(h * 16 + l);
                k = k + 2;
            },
            _ => {
                assert(hex_value(sub[k - start]) < 0 || hex_value(sub[k - start + 1]) < 0);
                return None;
            },
        }
    }
    assert(out@ =~= hex_decode(sub));
    Some(out)
}

/// Decoding the hexadecimal form of some bytes gives those bytes back.
pub proof fn lemma_hex_round_trip(b: Seq<u8>)
    ensures
        is_hex(ascii_bytes(hex_chars(b))),
        hex_decode(ascii_bytes(hex_chars(b))) == b,
        ascii_bytes(hex_chars(b)).len() == 2 * b.len(),
        vstd::utf8::is_ascii_chars(hex_chars(b)),
{
    let s = ascii_bytes(hex_chars(b));
    assert forall|i: int| 0 <= i < s.len() implies hex_value(#[trigger] s[i]) >= 0
        && '\0' <= hex_chars(b)[i] <= '\u{7f}' by {
        let v = b[i / 2] as int;
        if i % 2 == 0 {
            lemma_hex_digit_value(v / 16);
        } else {
            lemma_hex_digit_value(v % 16);
        }
    }
    assert forall|k: int| 0 <= k < b.len() implies #[trigger] hex_decode(s)[k] == b[k] by {
        let v = b[k] as int;
        lemma_hex_digit_value(v / 16);
        lemma_hex_digit_value(v % 16);
        assert((2 * k) % 2 == 0);
        assert((2 * k + 1) % 2 == 1);
        assert((2 * k) / 2 == k);
        assert((2 * k + 1) / 2 == k);
    }
    assert(hex_decode(s) =~= b);
}

} // verus!
