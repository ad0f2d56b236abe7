//! UTF-8 encoding of single code points and of short runs of characters.
use vstd::prelude::*;
use vstd::string::*;
use vstd::utf8::*;

verus! {

/// Number of bytes that the code point `cp` takes in UTF-8.
pub open spec fn utf8_len(cp: u32) -> nat {
    if cp < 0x80 {
        1
    } else if cp < 0x800 {
        2
    } else if cp < 0x10000 {
        3
    } else {
        4
    }
}

/// The continuation byte that carries the six bits of `cp` that start at the
/// place value `unit`.
pub open spec fn continuation(cp: u32, unit: int) -> u8 {
    (0x80 + (cp as int / unit) % 64) as u8
}

/// The bytes that stand for `cp`. Values above the Unicode range keep only the
/// low four bits of what would go into their leading byte.
pub open spec fn utf8_bytes(cp: u32) -> Seq<u8> {
    let c = cp as int;
    if cp < 0x80 {
        seq![cp as u8]
    } else if cp < 0x800 {
        seq![(0xC0 + c / 0x40) as u8, continuation(cp, 1)]
    } else if cp < 0x10000 {
        seq![(0xE0 + c / 0x1000) as u8, continuation(cp, 0x40), continuation(cp, 1)]
    } else {
        seq![
            (0xF0 + (c / 0x40000) % 16) as u8,
            continuation(cp, 0x1000),
            continuation(cp, 0x40),
            continuation(cp, 1),
        ]
    }
}

proof fn lemma_low_bits(cp: u32)
    by (bit_vector)
    ensures
        (0x80u32 | (cp & 0x3F)) as u8 == 0x80 + cp % 64,
        (0x80u32 | ((cp >> 6) & 0x3F)) as u8 == 0x80 + (cp / 0x40) % 64,
        (0x80u32 | ((cp >> 12) & 0x3F)) as u8 == 0x80 + (cp / 0x1000) % 64,
        cp < 0x800 ==> (0xC0u32 | (cp >> 6)) as u8 == 0xC0 + cp / 0x40,
        cp < 0x10000 ==> (0xE0u32 | (cp >> 12)) as u8 == 0xE0 + cp / 0x1000,
        (0xF0u32 | (cp >> 18)) as u8 == 0xF0 + (cp / 0x40000) % 16,
{
}

proof fn lemma_scalar_bits(cp: u32)
    by (bit_vector)
    ensures
        cp < 0x80 ==> (cp & 0x7F) as u8 == cp,
        0x80u8 | (cp & 0x3F) as u8 == 0x80 + cp % 64,
        0x80u8 | ((cp >> 6) & 0x3F) as u8 == 0x80 + (cp / 0x40) % 64,
        0x80u8 | ((cp >> 12) & 0x3F) as u8 == 0x80 + (cp / 0x1000) % 64,
        cp < 0x800 ==> 0xC0u8 | ((cp >> 6) & 0x1F) as u8 == 0xC0 + cp / 0x40,
        cp < 0x10000 ==> 0xE0u8 | ((cp >> 12) & 0x0F) as u8 == 0xE0 + cp / 0x1000,
        cp < 0x200000 ==> 0xF0u8 | ((cp >> 18) & 0x7) as u8 == 0xF0 + (cp / 0x40000) % 16,
{
}

/// On every Unicode scalar value the bytes are its standard UTF-8 encoding.
pub proof fn law_utf8_bytes_are_standard(cp: u32)
    requires
        is_scalar(cp),
    ensures
        utf8_bytes(cp) == encode_scalar(cp),
        utf8_bytes(cp).len() == utf8_len(cp),
{
    lemma_scalar_bits(cp);
    assert(utf8_bytes(cp) =~= encode_scalar(cp));
}

/// A character that was encoded is read back as itself.
pub proof fn law_utf8_round_trip(c: char)
    ensures
        valid_utf8(utf8_bytes(c as u32)),
        decode_utf8(utf8_bytes(c as u32)) == seq![c],
{
    char_is_scalar(c);
    law_utf8_bytes_are_standard(c as u32);
    let s = seq![c];
    assert(s.drop_first() =~= Seq::<char>::empty());
    assert(encode_utf8(s.drop_first()) =~= Seq::<u8>::empty());
    assert(encode_utf8(s) =~= encode_scalar(c as u32));
    encode_utf8_valid_utf8(s);
    encode_utf8_decode_utf8(s);
}

/// Encodes one code point into the front of `out` and returns the number of
/// bytes written; the rest of `out` keeps its value.
pub fn utf8_encode(cp: u32, out: &mut [u8; 4]) -> (n: usize)
    ensures
        n == utf8_len(cp),
        final(out)@.take(n as int) == utf8_bytes(cp),
        final(out)@.skip(n as int) == old(out)@.skip(n as int),
{
    proof {
        lemma_low_bits(cp);
    }
    if cp < 0x80 {
        out[0] = cp as u8;
        assert(out@.take(1) =~= utf8_bytes(cp));
        1
    } else if cp < 0x800 {
        out[0] = (0xC0 | (cp >> 6)) as u8;
        out[1] = (0x80 | (cp & 0x3F)) as u8;
        assert(out@.take(2) =~= utf8_bytes(cp));
        2
    } else if cp < 0x10000 {
        out[0] = (0xE0 | (cp >> 12)) as u8;
        out[1] = (0x80 | ((cp >> 6) & 0x3F)) as u8;
        out[2] = (0x80 | (cp & 0x3F)) as u8;
        assert(out@.take(3) =~= utf8_bytes(cp));
        3
    } else {
        out[0] = (0xF0 | (cp >> 18)) as u8;
        out[1] = (0x80 | ((cp >> 12) & 0x3F)) as u8;
        out[2] = (0x80 | ((cp >> 6) & 0x3F)) as u8;
        out[3] = (0x80 | (cp & 0x3F)) as u8;
        assert(out@.take(4) =~= utf8_bytes(cp));
        4
    }
}

/// Appending one character to a run appends its bytes to the run's encoding.
pub proof fn lemma_encode_utf8_push(chars: Seq<char>, c: char)
    ensures
        encode_utf8(chars.push(c)) == encode_utf8(chars) + utf8_bytes(c as u32),
    decreases chars.len(),
{
    char_is_scalar(c);
    law_utf8_bytes_are_standard(c as u32);
    let all = chars.push(c);
    if chars.len() == 0 {
        assert(all.drop_first() =~= Seq::<char>::empty());
        assert(encode_utf8(all.drop_first()) =~= Seq::<u8>::empty());
        assert(encode_utf8(all) =~= encode_utf8(chars) + utf8_bytes(c as u32));
    } else {
        assert(all.drop_first() =~= chars.drop_first().push(c));
        lemma_encode_utf8_push(chars.drop_first(), c);
        assert(encode_utf8(all) =~= encode_utf8(chars) + utf8_bytes(c as u32));
    }
}

/// Number of bytes that `c` takes in UTF-8.
pub fn char_len(c: char) -> (n: usize)
    ensures
        n == utf8_len(c as u32),
{
    let cp: u32 = c as u32;
    if cp < 0x80 {
        1
    } else if cp < 0x800 {
        2
    } else if cp < 0x10000 {
        3
    } else {
        4
    }
}

/// `std::str::from_utf8`, without its account of where the first fault lies:
/// there is a result exactly where the bytes are valid UTF-8, and it is the text
/// that they encode.
#[verifier::external_body]
pub(crate) fn text_from_utf8<'a>(bytes: &'a [u8]) -> (r: Option<&'a str>)
    ensures
        r is Some <==> valid_utf8(bytes@),
        r is Some ==> encode_utf8(r->0@) == bytes@,
{
    std::str::from_utf8(bytes).ok()
}

/// The string that holds the characters of `chars`.
pub fn text_of(chars: &[char]) -> (s: String)
    ensures
        s@ == chars@,
{
    let mut bytes: Vec<u8> = Vec::new();
    let mut buf: [u8; 4] = [0, 0, 0, 0];
    let mut i: usize = 0;
    while i < chars.len()
        invariant
            i <= chars@.len(),
            bytes@ == encode_utf8(chars@.take(i as int)),
        decreases chars@.len() - i,
    {
        let n: usize = utf8_encode(chars[i] as u32, &mut buf);
        let ghost before = bytes@;
        let mut k: usize = 0;
        while k < n
            invariant
                k <= n <= 4,
                bytes@ == before + buf@.take(k as int),
            decreases n - k,
        {
            bytes.push(buf[k]);
            k = k + 1;
            assert(bytes@ =~= before + buf@.take(k as int));
        }
        proof {
            lemma_encode_utf8_push(chars@.take(i as int), chars@[i as int]);
            assert(chars@.take(i as int).push(chars@[i as int]) =~= chars@.take(i + 1));
        }
        i = i + 1;
    }
    assert(chars@.take(i as int) =~= chars@);
    proof {
        encode_utf8_valid_utf8(chars@);
        encode_utf8_decode_utf8(chars@);
    }
    match text_from_utf8(bytes.as_slice()) {
        Some(text) => {
            proof {
                encode_utf8_decode_utf8(text@);
            }
            text.to_owned()
        },
        None => String::new(),
    }
}

/// A run of characters takes as many bytes as its characters together.
pub proof fn lemma_encoded_len_push(chars: Seq<char>, c: char)
    ensures
        encode_utf8(chars.push(c)).len() == encode_utf8(chars).len() + utf8_len(c as u32),
{
    char_is_scalar(c);
    law_utf8_bytes_are_standard(c as u32);
    lemma_encode_utf8_push(chars, c);
}

/// The bytes of a code point read back as the code point. The first tells how many
/// there are, and every other one carries six bits. What stands behind them in the
/// buffer stays.
pub proof fn law_encoded_code_points_read_back(cp: u32, out: &mut [u8; 4], n: usize)
    requires
        call_ensures(utf8_encode, (cp, out), n),
        cp < 0x40_0000,
    ensures
        1 <= n <= 4,
        n == 1 <==> cp < 0x80,
        n <= 2 <==> cp < 0x800,
        n <= 3 <==> cp < 0x10000,
        ({
            let b = final(out)@;
            &&& n == 1 ==> b[0] < 0x80 && b[0] == cp
            &&& n == 2 ==> 0xC0 <= b[0] < 0xE0 && (b[0] - 0xC0) * 0x40 + (b[1] - 0x80) == cp
            &&& n == 3 ==> 0xE0 <= b[0] < 0xF0 && (b[0] - 0xE0) * 0x1000 + (b[1] - 0x80) * 0x40 + (
            b[2] - 0x80) == cp
            &&& n == 4 ==> 0xF0 <= b[0] && (b[0] - 0xF0) * 0x4_0000 + (b[1] - 0x80) * 0x1000 + (b[2]
                - 0x80) * 0x40 + (b[3] - 0x80) == cp
            &&& forall|i: int| 1 <= i < n ==> 0x80 <= #[trigger] b[i] < 0xC0
            &&& forall|i: int| n <= i < 4 ==> #[trigger] b[i] == old(out)@[i]
        }),
{
    let b = final(out)@;
    let bytes = utf8_bytes(cp);
    assert forall|i: int| 0 <= i < n implies #[trigger] b[i] == bytes[i] by {
        assert(b.take(n as int)[i] == bytes[i]);
    }
    assert forall|i: int| n <= i < 4 implies #[trigger] b[i] == old(out)@[i] by {
        assert(b.skip(n as int)[i - n] == old(out)@.skip(n as int)[i - n]);
    }
    assert(cp / 0x40 == cp / 0x1000 * 0x40 + (cp / 0x40) % 64);
    assert(cp / 0x1000 == cp / 0x4_0000 * 0x40 + (cp / 0x1000) % 64);
}

/// A character takes as many bytes as its encoding has, and a string made of
/// characters holds them in order.
pub proof fn law_characters_are_kept(c: char, n: usize, chars: &[char], s: String)
    requires
        call_ensures(char_len, (c,), n),
        call_ensures(text_of, (chars,), s),
    ensures
        n == encode_utf8(seq![c]).len(),
        s@.len() == chars@.len(),
        forall|i: int| 0 <= i < chars@.len() ==> #[trigger] s@[i] == chars@[i],
{
    assert(Seq::<char>::empty().push(c) =~= seq![c]);
    assert(encode_utf8(Seq::<char>::empty()) =~= Seq::<u8>::empty());
    lemma_encoded_len_push(Seq::<char>::empty(), c);
}

} // verus!
