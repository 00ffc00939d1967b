use vstd::prelude::*;
use vstd::string::StrSliceExecFns;
use vstd::utf8::*;

use crate::text::push_char;

verus! {

/// Characters that stand for themselves in a query string.
pub open spec fn is_unreserved(c: char) -> bool {
    ||| ('A' <= c && c <= 'Z')
    ||| ('a' <= c && c <= 'z')
    ||| ('0' <= c && c <= '9')
    ||| c == '-'
    ||| c == '_'
    ||| c == '.'
    ||| c == '~'
}

/// Upper-case hexadecimal digit of a nibble.
pub open spec fn hex_digit(n: u8) -> char {
    if n < 10 {
        (('0' as u8) + n) as char
    } else {
        (('A' as u8) + (n - 10)) as char
    }
}

/// `%XX` for every byte, upper-case hex.
pub open spec fn percent_bytes(bytes: Seq<u8>) -> Seq<char>
    decreases bytes.len(),
{
    if bytes.len() == 0 {
        Seq::empty()
    } else {
        percent_bytes(bytes.drop_last()) + seq![
            '%',
            hex_digit(bytes.last() >> 4),
            hex_digit(bytes.last() & 0x0F),
        ]
    }
}

/// The query-string form of one character: unreserved characters stay,
/// a space becomes `%20`, anything else becomes its UTF-8 bytes in `%XX`.
pub open spec fn encode_query_char(c: char) -> Seq<char> {
    if is_unreserved(c) {
        seq![c]
    } else if c == ' ' {
        seq!['%', '2', '0']
    } else {
        percent_bytes(encode_scalar(c as u32))
    }
}

/// The query-string form of a text.
pub open spec fn encode_query(s: Seq<char>) -> Seq<char>
    decreases s.len(),
{
    if s.len() == 0 {
        Seq::empty()
    } else {
        encode_query(s.drop_last()) + encode_query_char(s.last())
    }
}

/// The UTF-8 bytes of a character.
pub fn utf8_bytes(c: char) -> (bytes: Vec<u8>)
    ensures
        bytes@ == encode_scalar(c as u32),
{
    let v = c as u32;
    proof {
        char_is_scalar(c);
    }
    if v <= 0x7F {
        vec![(v & 0x7F) as u8]
    } else if v <= 0x7FF {
        vec![0xC0u8 | ((v >> 6) & 0x1F) as u8, 0x80u8 | (v & 0x3F) as u8]
    } else if v <= 0xFFFF {
        vec![
            0xE0u8 | ((v >> 12) & 0x0F) as u8,
            0x80u8 | ((v >> 6) & 0x3F) as u8,
            0x80u8 | (v & 0x3F) as u8,
        ]
    } else {
        vec![
            0xF0u8 | ((v >> 18) & 0x7) as u8,
            0x80u8 | ((v >> 12) & 0x3F) as u8,
            0x80u8 | ((v >> 6) & 0x3F) as u8,
            0x80u8 | (v & 0x3F) as u8,
        ]
    }
}

fn hex_char(n: u8) -> (c: char)
    requires
        n < 16,
    ensures
        c == hex_digit(n),
{
    if n < 10 {
        (('0' as u8) + n) as char
    } else {
        (('A' as u8) + (n - 10)) as char
    }
}

/// Percent-encodes `raw` for use as a query-string value.
pub fn urlencoding(raw: &str) -> (out: String)
    ensures
        out@ == encode_query(raw@),
{
    let mut out = String::new();
    let n = raw.unicode_len();
    let mut i: usize = 0;
    while i < n
        invariant
            n == raw@.len(),
            i <= n,
            out@ == encode_query(raw@.take(i as int)),
        decreases n - i,
    {
        let ch = raw.get_char(i);
        let ghost before = out@;
        if ('A' <= ch && ch <= 'Z') || ('a' <= ch && ch <= 'z') || ('0' <= ch && ch <= '9')
            || ch == '-' || ch == '_' || ch == '.' || ch == '~' {
            push_char(&mut out, ch);
        } else if ch == ' ' {
            push_char(&mut out, '%');
            push_char(&mut out, '2');
            push_char(&mut out, '0');
        } else {
            let bytes = utf8_bytes(ch);
            let mut k: usize = 0;
            while k < bytes.len()
                invariant
                    k <= bytes.len(),
                    out@ == before + percent_bytes(bytes@.take(k as int)),
                decreases bytes.len() - k,
            {
                let b = bytes[k];
                let hi = b >> 4;
                let lo = b & 0x0F;
                assert(hi < 16 && lo < 16) by (bit_vector)
                    requires
                        hi == b >> 4,
                        lo == b & 0x0F,
                ;
                push_char(&mut out, '%');
                push_char(&mut out, hex_char(hi));
                push_char(&mut out, hex_char(lo));
                proof {
                    assert(bytes@.take(k + 1).drop_last() =~= bytes@.take(k as int));
                }
                k = k + 1;
            }
            assert(bytes@.take(bytes.len() as int) =~= bytes@);
        }
        proof {
            assert(raw@.take(i + 1).drop_last() =~= raw@.take(i as int));
            assert(raw@.take(i + 1).last() == ch);
        }
        i = i + 1;
    }
    assert(raw@.take(n as int) =~= raw@);
    out
}


/// Characters that can appear in an encoded query value.
pub open spec fn is_query_safe(c: char) -> bool {
    is_unreserved(c) || c == '%' || ('0' <= c && c <= '9') || ('A' <= c && c <= 'F')
}

proof fn lemma_hex_digit_safe(n: u8)
    requires
        n < 16,
    ensures
        is_query_safe(hex_digit(n)),
{
}

proof fn lemma_percent_bytes_safe(bytes: Seq<u8>)
    ensures
        forall|i: int| 0 <= i < percent_bytes(bytes).len() ==> is_query_safe(#[trigger] percent_bytes(bytes)[i]),
        percent_bytes(bytes).len() == 3 * bytes.len(),
    decreases bytes.len(),
{
    if bytes.len() > 0 {
        lemma_percent_bytes_safe(bytes.drop_last());
        let b = bytes.last();
        assert(b >> 4 < 16 && b & 0x0F < 16) by (bit_vector);
        lemma_hex_digit_safe(b >> 4);
        lemma_hex_digit_safe(b & 0x0F);
        let p = percent_bytes(bytes.drop_last());
        let tail = seq!['%', hex_digit(b >> 4), hex_digit(b & 0x0F)];
        assert forall|i: int| 0 <= i < percent_bytes(bytes).len() implies is_query_safe(#[trigger] percent_bytes(bytes)[i]) by {
            if i < p.len() {
                assert(percent_bytes(bytes)[i] == p[i]);
            } else {
                assert(percent_bytes(bytes)[i] == tail[i - p.len()]);
            }
        }
    }
}

/// An encoded query value only uses unreserved characters, `%` and
/// upper-case hex digits: it can never end the value or start another
/// parameter (no `&`, `=`, `#`, `?`, `+` or space survives).
pub proof fn lemma_encoded_query_is_safe(s: Seq<char>)
    ensures
        forall|i: int| 0 <= i < encode_query(s).len() ==> is_query_safe(#[trigger] encode_query(s)[i]),
    decreases s.len(),
{
    if s.len() > 0 {
        lemma_encoded_query_is_safe(s.drop_last());
        let c = s.last();
        let p = encode_query(s.drop_last());
        let e = encode_query_char(c);
        if !is_unreserved(c) && c != ' ' {
            lemma_percent_bytes_safe(encode_scalar(c as u32));
        }
        assert forall|i: int| 0 <= i < e.len() implies is_query_safe(#[trigger] e[i]) by {}
        assert forall|i: int| 0 <= i < encode_query(s).len() implies is_query_safe(#[trigger] encode_query(s)[i]) by {
            if i < p.len() {
                assert(encode_query(s)[i] == p[i]);
            } else {
                assert(encode_query(s)[i] == e[i - p.len()]);
            }
        }
    }
}

/// Value of a hexadecimal digit (either case).
pub open spec fn hex_value(c: char) -> int {
    if '0' <= c && c <= '9' {
        c as int - '0' as int
    } else if 'A' <= c && c <= 'F' {
        c as int - 'A' as int + 10
    } else if 'a' <= c && c <= 'f' {
        c as int - 'a' as int + 10
    } else {
        0
    }
}

/// The bytes a query value stands for, read front to back: `%XX` is the
/// byte `0xXX`, any other character stands for its own (ASCII) byte.
pub open spec fn query_bytes(q: Seq<char>) -> Seq<u8>
    decreases q.len(),
{
    if q.len() == 0 {
        Seq::empty()
    } else if q[0] == '%' && q.len() >= 3 {
        seq![(hex_value(q[1]) * 16 + hex_value(q[2])) as u8] + query_bytes(q.skip(3))
    } else {
        seq![q[0] as u8] + query_bytes(q.skip(1))
    }
}

/// The text a server reads from a percent-encoded query value: its bytes,
/// decoded as UTF-8.
pub open spec fn decode_query(q: Seq<char>) -> Seq<char> {
    decode_utf8(query_bytes(q))
}

proof fn lemma_hex_roundtrip(b: u8)
    ensures
        hex_value(hex_digit(b >> 4)) * 16 + hex_value(hex_digit(b & 0x0F)) == b as int,
{
    let hi = b >> 4;
    let lo = b & 0x0F;
    assert(hi < 16 && lo < 16 && hi as int * 16 + lo as int == b as int) by (bit_vector)
        requires
            hi == b >> 4,
            lo == b & 0x0F,
    ;
}

proof fn lemma_percent_bytes_decode(b: Seq<u8>, x: Seq<char>)
    ensures
        query_bytes(percent_bytes(b) + x) == b + query_bytes(x),
    decreases b.len(),
{
    if b.len() == 0 {
        assert(percent_bytes(b) + x =~= x);
        assert(b + query_bytes(x) =~= query_bytes(x));
    } else {
        let last = b.last();
        let tail = seq!['%', hex_digit(last >> 4), hex_digit(last & 0x0F)];
        lemma_percent_bytes_decode(b.drop_last(), tail + x);
        assert(percent_bytes(b) + x =~= percent_bytes(b.drop_last()) + (tail + x));
        lemma_hex_roundtrip(last);
        assert((tail + x).skip(3) =~= x);
        assert(query_bytes(tail + x) =~= seq![last] + query_bytes(x));
        assert(b =~= b.drop_last().push(last));
        assert(b.drop_last() + (seq![last] + query_bytes(x)) =~= b + query_bytes(x));
    }
}

proof fn lemma_char_decode(c: char, x: Seq<char>)
    ensures
        query_bytes(encode_query_char(c) + x) == encode_scalar(c as u32) + query_bytes(x),
{
    let v = c as u32;
    if is_unreserved(c) {
        assert(v <= 0x7F);
        assert((v & 0x7F) as u8 == v as u8) by (bit_vector)
            requires
                v <= 0x7F,
        ;
        assert((seq![c] + x)[0] == c);
        assert((seq![c] + x).skip(1) =~= x);
        assert(c as u8 == v as u8);
    } else if c == ' ' {
        let e = seq!['%', '2', '0'];
        assert((e + x).skip(3) =~= x);
        assert(hex_value('2') * 16 + hex_value('0') == 32);
        assert((32u32 & 0x7F) as u8 == 32u8) by (bit_vector);
    } else {
        lemma_percent_bytes_decode(encode_scalar(v), x);
    }
}

proof fn lemma_encode_utf8_push(s: Seq<char>, c: char)
    ensures
        encode_utf8(s.push(c)) == encode_utf8(s) + encode_scalar(c as u32),
    decreases s.len(),
{
    if s.len() == 0 {
        assert(s.push(c).drop_first() =~= Seq::<char>::empty());
        assert(encode_utf8(Seq::<char>::empty()) == Seq::<u8>::empty());
        assert(s.push(c)[0] == c);
        assert(encode_utf8(s.push(c)) == encode_scalar(c as u32) + encode_utf8(Seq::<char>::empty()));
        assert(encode_utf8(s.push(c)) =~= encode_scalar(c as u32));
        assert(encode_utf8(s) =~= Seq::<u8>::empty());
    } else {
        lemma_encode_utf8_push(s.drop_first(), c);
        assert(s.push(c).drop_first() =~= s.drop_first().push(c));
        assert(encode_utf8(s.push(c)) =~= encode_scalar(s[0] as u32) + (encode_utf8(s.drop_first()) + encode_scalar(c as u32)));
    }
}

proof fn lemma_query_bytes_of_encoding(s: Seq<char>, x: Seq<char>)
    ensures
        query_bytes(encode_query(s) + x) == encode_utf8(s) + query_bytes(x),
    decreases s.len(),
{
    if s.len() == 0 {
        assert(encode_query(s) + x =~= x);
        assert(encode_utf8(s) + query_bytes(x) =~= query_bytes(x));
    } else {
        let front = s.drop_last();
        let c = s.last();
        let e = encode_query_char(c);
        lemma_query_bytes_of_encoding(front, e + x);
        assert(encode_query(s) + x =~= encode_query(front) + (e + x));
        lemma_char_decode(c, x);
        lemma_encode_utf8_push(front, c);
        assert(front.push(c) =~= s);
        assert(encode_utf8(front) + (encode_scalar(c as u32) + query_bytes(x)) =~= encode_utf8(s) + query_bytes(x));
    }
}

/// Percent-encoding loses nothing: a server that reads `%XX` as bytes and
/// decodes them as UTF-8 gets back exactly the text that was encoded.
pub proof fn lemma_query_roundtrip(s: Seq<char>)
    ensures
        decode_query(encode_query(s)) == s,
{
    lemma_query_bytes_of_encoding(s, Seq::empty());
    assert(encode_query(s) + Seq::<char>::empty() =~= encode_query(s));
    assert(encode_utf8(s) + query_bytes(Seq::<char>::empty()) =~= encode_utf8(s));
    encode_utf8_decode_utf8(s);
}

} // verus!
