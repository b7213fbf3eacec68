//! Standard Base64 (RFC 4648 alphabet, `=` padding) used to store protected
//! secrets as text, with the decoder's tolerance of padding and ASCII
//! whitespace.

use vstd::prelude::*;
use vstd::string::StringSliceAdditionalSpecFns;
use vstd::utf8::{
    encode_scalar, encode_utf8, has_width_1_encoding, is_ascii_chars, is_ascii_chars_encode_utf8,
    leading_byte_width_1,
};

verus! {

/// The alphabet byte of a 6-bit value: `A-Z a-z 0-9 + /`.
pub open spec fn symbol_byte(k: u32) -> u8 {
    if k < 26 {
        (65 + k) as u8
    } else if k < 52 {
        (97 + (k - 26)) as u8
    } else if k < 62 {
        (48 + (k - 52)) as u8
    } else if k == 62 {
        43u8
    } else {
        47u8
    }
}

/// Length of the next chunk of at most `k` items.
pub open spec fn chunk_len(len: int, k: int) -> int {
    if len < k {
        len
    } else {
        k
    }
}

/// The 24-bit group of up to three bytes (missing bytes are zero).
pub open spec fn group_bits(b0: u8, b1: u8, b2: u8) -> u32 {
    ((b0 as u32) << 16u32) | ((b1 as u32) << 8u32) | (b2 as u32)
}

/// Four output bytes for a chunk of one to three input bytes.
pub open spec fn enc_group(d: Seq<u8>) -> Seq<u8> {
    let b1: u8 = if d.len() > 1 {
        d[1]
    } else {
        0
    };
    let b2: u8 = if d.len() > 2 {
        d[2]
    } else {
        0
    };
    let n = group_bits(d[0], b1, b2);
    seq![
        symbol_byte((n >> 18u32) & 63u32),
        symbol_byte((n >> 12u32) & 63u32),
        if d.len() > 1 {
            symbol_byte((n >> 6u32) & 63u32)
        } else {
            61u8
        },
        if d.len() > 2 {
            symbol_byte(n & 63u32)
        } else {
            61u8
        },
    ]
}

/// Base64 encoding of `d`, as bytes.
pub open spec fn encode_bytes(d: Seq<u8>) -> Seq<u8>
    decreases d.len(),
{
    if d.len() == 0 {
        Seq::empty()
    } else {
        let k = chunk_len(d.len() as int, 3);
        enc_group(d.take(k)) + encode_bytes(d.skip(k))
    }
}

/// Base64 encoding of `d`, as text.
pub open spec fn spec_base64_encode(d: Seq<u8>) -> Seq<char> {
    encode_bytes(d).map_values(|b: u8| b as char)
}

/// The 6-bit value of an alphabet byte.
pub open spec fn b64_value(c: u8) -> Option<u32> {
    if 65 <= c <= 90 {
        Some((c - 65) as u32)
    } else if 97 <= c <= 122 {
        Some((c - 97 + 26) as u32)
    } else if 48 <= c <= 57 {
        Some((c - 48 + 52) as u32)
    } else if c == 43 {
        Some(62)
    } else if c == 47 {
        Some(63)
    } else {
        None
    }
}

/// `u8::is_ascii_whitespace`.
pub open spec fn is_ascii_ws_byte(b: u8) -> bool {
    b == 32 || b == 9 || b == 10 || b == 12 || b == 13
}

/// Input bytes with padding and ASCII whitespace removed.
pub open spec fn kept_bytes(bs: Seq<u8>) -> Seq<u8>
    decreases bs.len(),
{
    if bs.len() == 0 {
        Seq::empty()
    } else if bs[0] != 61 && !is_ascii_ws_byte(bs[0]) {
        seq![bs[0]] + kept_bytes(bs.drop_first())
    } else {
        kept_bytes(bs.drop_first())
    }
}

/// The 6-bit values of the alphabet bytes of a chunk, other bytes skipped.
pub open spec fn chunk_values(bs: Seq<u8>) -> Seq<u32>
    decreases bs.len(),
{
    if bs.len() == 0 {
        Seq::empty()
    } else {
        match b64_value(bs[0]) {
            Some(v) => seq![v] + chunk_values(bs.drop_first()),
            None => chunk_values(bs.drop_first()),
        }
    }
}

/// Output bytes of one chunk with at least two values.
pub open spec fn dec_group(v: Seq<u32>) -> Seq<u8> {
    let v2: u32 = if v.len() > 2 {
        v[2]
    } else {
        0
    };
    let v3: u32 = if v.len() > 3 {
        v[3]
    } else {
        0
    };
    let n = (v[0] << 18u32) | (v[1] << 12u32) | (v2 << 6u32) | v3;
    seq![(n >> 16u32) as u8] + (if v.len() > 2 {
        seq![((n >> 8u32) & 0xffu32) as u8]
    } else {
        Seq::empty()
    }) + (if v.len() > 3 {
        seq![(n & 0xffu32) as u8]
    } else {
        Seq::empty()
    })
}

/// Decoding of the kept bytes, four at a time, stopping at the first
/// chunk with fewer than two alphabet bytes.
pub open spec fn dec_chunks(bs: Seq<u8>) -> Seq<u8>
    decreases bs.len(),
{
    if bs.len() == 0 {
        Seq::empty()
    } else {
        let k = chunk_len(bs.len() as int, 4);
        let v = chunk_values(bs.take(k));
        if v.len() < 2 {
            Seq::empty()
        } else {
            dec_group(v) + dec_chunks(bs.skip(k))
        }
    }
}

/// Base64 decoding of the UTF-8 bytes of the input.
pub open spec fn spec_base64_decode(input: Seq<u8>) -> Seq<u8> {
    dec_chunks(kept_bytes(input))
}

fn symbol(k: u32) -> (b: u8)
    requires
        k < 64,
    ensures
        b == symbol_byte(k),
{
    if k < 26 {
        (65 + k) as u8
    } else if k < 52 {
        (97 + (k - 26)) as u8
    } else if k < 62 {
        (48 + (k - 52)) as u8
    } else if k == 62 {
        43u8
    } else {
        47u8
    }
}

proof fn lemma_encode_step(d: Seq<u8>, i: int)
    requires
        0 <= i < d.len(),
    ensures
        encode_bytes(d.skip(i)) == enc_group(d.skip(i).take(chunk_len(d.len() - i, 3)))
            + encode_bytes(d.skip(i + chunk_len(d.len() - i, 3))),
{
    let k = chunk_len(d.len() - i, 3);
    assert(d.skip(i).skip(k) =~= d.skip(i + k));
}

/// Base64 encoding with the standard alphabet and `=` padding.
pub fn base64_encode(data: &[u8]) -> (out: String)
    ensures
        out@ == spec_base64_encode(data@),
{
    let n = data.len();
    let mut bytes: Vec<u8> = Vec::new();
    let mut i: usize = 0;
    assert(data@.skip(0) =~= data@);
    while i < n
        invariant
            n == data@.len(),
            i <= n,
            bytes@ + encode_bytes(data@.skip(i as int)) == encode_bytes(data@),
        decreases n - i,
    {
        let k: usize = if n - i < 3 {
            n - i
        } else {
            3
        };
        let b0 = data[i] as u32;
        let b1 = if k > 1 {
            data[i + 1] as u32
        } else {
            0
        };
        let b2 = if k > 2 {
            data[i + 2] as u32
        } else {
            0
        };
        let g = (b0 << 16u32) | (b1 << 8u32) | b2;
        let ghost chunk = data@.skip(i as int).take(k as int);
        proof {
            lemma_encode_step(data@, i as int);
            assert(g == group_bits(chunk[0], if chunk.len() > 1 {
                chunk[1]
            } else {
                0u8
            }, if chunk.len() > 2 {
                chunk[2]
            } else {
                0u8
            }));
        }
        assert((g >> 18u32) & 63u32 < 64) by (bit_vector);
        assert((g >> 12u32) & 63u32 < 64) by (bit_vector);
        assert((g >> 6u32) & 63u32 < 64) by (bit_vector);
        assert(g & 63u32 < 64) by (bit_vector);
        let ghost before = bytes@;
        bytes.push(symbol((g >> 18u32) & 63u32));
        bytes.push(symbol((g >> 12u32) & 63u32));
        if k > 1 {
            bytes.push(symbol((g >> 6u32) & 63u32));
        } else {
            bytes.push(61u8);
        }
        if k > 2 {
            bytes.push(symbol(g & 63u32));
        } else {
            bytes.push(61u8);
        }
        assert(bytes@ =~= before + enc_group(chunk));
        i = i + k;
    }
    assert(data@.skip(n as int) =~= Seq::<u8>::empty());
    assert(bytes@ =~= encode_bytes(data@));
    let mut out = String::new();
    let mut j: usize = 0;
    while j < bytes.len()
        invariant
            j <= bytes@.len(),
            bytes@ == encode_bytes(data@),
            out@ == bytes@.take(j as int).map_values(|b: u8| b as char),
        decreases bytes@.len() - j,
    {
        let c = bytes[j] as char;
        crate::text::push_char(&mut out, c);
        j += 1;
        assert(out@ =~= bytes@.take(j as int).map_values(|b: u8| b as char));
    }
    assert(bytes@.take(bytes@.len() as int) =~= bytes@);
    out
}

fn value_of(c: u8) -> (r: Option<u32>)
    ensures
        r == b64_value(c),
{
    if 65 <= c && c <= 90 {
        Some((c - 65) as u32)
    } else if 97 <= c && c <= 122 {
        Some((c - 97 + 26) as u32)
    } else if 48 <= c && c <= 57 {
        Some((c - 48 + 52) as u32)
    } else if c == 43 {
        Some(62)
    } else if c == 47 {
        Some(63)
    } else {
        None
    }
}

proof fn lemma_kept_step(bs: Seq<u8>, i: int)
    requires
        0 <= i < bs.len(),
    ensures
        kept_bytes(bs.take(i + 1)) == kept_bytes(bs.take(i)) + (if bs[i] != 61
            && !is_ascii_ws_byte(bs[i]) {
            seq![bs[i]]
        } else {
            Seq::empty()
        }),
    decreases i,
{
    if i == 0 {
        assert(bs.take(1).drop_first() =~= Seq::<u8>::empty());
        assert(bs.take(0) =~= Seq::<u8>::empty());
    } else {
        lemma_kept_step(bs.drop_first(), i - 1);
        assert(bs.take(i + 1).drop_first() =~= bs.drop_first().take(i));
        assert(bs.take(i).drop_first() =~= bs.drop_first().take(i - 1));
        assert(bs.take(i + 1)[0] == bs[0]);
        assert(bs.take(i)[0] == bs[0]);
    }
}

proof fn lemma_values_step(bs: Seq<u8>, i: int)
    requires
        0 <= i < bs.len(),
    ensures
        chunk_values(bs.take(i + 1)) == chunk_values(bs.take(i)) + (match b64_value(bs[i]) {
            Some(v) => seq![v],
            None => Seq::empty(),
        }),
    decreases i,
{
    if i == 0 {
        assert(bs.take(1).drop_first() =~= Seq::<u8>::empty());
        assert(bs.take(0) =~= Seq::<u8>::empty());
    } else {
        lemma_values_step(bs.drop_first(), i - 1);
        assert(bs.take(i + 1).drop_first() =~= bs.drop_first().take(i));
        assert(bs.take(i).drop_first() =~= bs.drop_first().take(i - 1));
        assert(bs.take(i + 1)[0] == bs[0]);
        assert(bs.take(i)[0] == bs[0]);
    }
}

proof fn lemma_values_bound(bs: Seq<u8>)
    ensures
        forall|j: int| 0 <= j < chunk_values(bs).len() ==> chunk_values(bs)[j] < 64,
        chunk_values(bs).len() <= bs.len(),
    decreases bs.len(),
{
    if bs.len() > 0 {
        lemma_values_bound(bs.drop_first());
    }
}

/// Base64 decoding that skips padding and ASCII whitespace, ignores bytes
/// outside the alphabet, and stops at the first chunk of four that holds
/// fewer than two alphabet bytes.
pub fn base64_decode(input: &str) -> (r: Result<Vec<u8>, String>)
    ensures
        r matches Ok(v) && v@ == spec_base64_decode(input.spec_bytes()),
{
    let raw = input.as_bytes();
    let rn = raw.len();
    let mut bs: Vec<u8> = Vec::new();
    let mut i: usize = 0;
    while i < rn
        invariant
            rn == raw@.len(),
            i <= rn,
            bs@ == kept_bytes(raw@.take(i as int)),
        decreases rn - i,
    {
        proof {
            lemma_kept_step(raw@, i as int);
        }
        let b = raw[i];
        if b != 61 && !(b == 32 || b == 9 || b == 10 || b == 12 || b == 13) {
            bs.push(b);
        }
        i += 1;
    }
    assert(raw@.take(rn as int) =~= raw@);
    let n = bs.len();
    let mut out: Vec<u8> = Vec::new();
    let mut p: usize = 0;
    assert(bs@.skip(0) =~= bs@);
    while p < n
        invariant
            n == bs@.len(),
            p <= n,
            bs@ == kept_bytes(raw@),
            raw@ == input.spec_bytes(),
            out@ + dec_chunks(bs@.skip(p as int)) == dec_chunks(bs@),
        decreases n - p,
    {
        let k: usize = if n - p < 4 {
            n - p
        } else {
            4
        };
        let ghost chunk = bs@.skip(p as int).take(k as int);
        let mut vals: Vec<u32> = Vec::new();
        let mut j: usize = 0;
        while j < k
            invariant
                n == bs@.len(),
                p + k <= n,
                j <= k,
                chunk == bs@.skip(p as int).take(k as int),
                vals@ == chunk_values(chunk.take(j as int)),
            decreases k - j,
        {
            proof {
                lemma_values_step(chunk, j as int);
            }
            match value_of(bs[p + j]) {
                Some(v) => {
                    vals.push(v);
                },
                None => {},
            }
            j += 1;
        }
        assert(chunk.take(k as int) =~= chunk);
        proof {
            lemma_values_bound(chunk);
            assert(bs@.skip(p as int).skip(k as int) =~= bs@.skip(p + k));
        }
        assert(chunk_values(bs@.skip(p as int).take(k as int)) == vals@);
        assert(dec_chunks(bs@.skip(p as int)) == (if vals@.len() < 2 {
            Seq::empty()
        } else {
            dec_group(vals@) + dec_chunks(bs@.skip(p + k))
        }));
        if vals.len() < 2 {
            assert(out@ =~= dec_chunks(bs@));
            return Ok(out);
        }
        let v0 = vals[0];
        let v1 = vals[1];
        let v2 = if vals.len() > 2 {
            vals[2]
        } else {
            0
        };
        let v3 = if vals.len() > 3 {
            vals[3]
        } else {
            0
        };
        let g = (v0 << 18u32) | (v1 << 12u32) | (v2 << 6u32) | v3;
        let ghost before = out@;
        out.push((g >> 16u32) as u8);
        if vals.len() > 2 {
            out.push(((g >> 8u32) & 0xffu32) as u8);
        }
        if vals.len() > 3 {
            out.push((g & 0xffu32) as u8);
        }
        assert(out@ =~= before + dec_group(vals@));
        p = p + k;
    }
    assert(bs@.skip(n as int) =~= Seq::<u8>::empty());
    assert(out@ =~= dec_chunks(bs@));
    Ok(out)
}

/// The 6-bit values of a chunk of one to three bytes (two to four of them).
pub open spec fn sextets(c: Seq<u8>) -> Seq<u32> {
    let b1: u8 = if c.len() > 1 {
        c[1]
    } else {
        0
    };
    let b2: u8 = if c.len() > 2 {
        c[2]
    } else {
        0
    };
    let n = group_bits(c[0], b1, b2);
    seq![(n >> 18u32) & 63u32, (n >> 12u32) & 63u32] + (if c.len() > 1 {
        seq![(n >> 6u32) & 63u32]
    } else {
        Seq::empty()
    }) + (if c.len() > 2 {
        seq![n & 63u32]
    } else {
        Seq::empty()
    })
}

/// The alphabet bytes of the encoding with the padding left out.
pub open spec fn kept_groups(d: Seq<u8>) -> Seq<u8>
    decreases d.len(),
{
    if d.len() == 0 {
        Seq::empty()
    } else {
        let k = chunk_len(d.len() as int, 3);
        sextets(d.take(k)).map_values(|v: u32| symbol_byte(v)) + kept_groups(d.skip(k))
    }
}

proof fn lemma_symbol(k: u32)
    requires
        k < 64,
    ensures
        b64_value(symbol_byte(k)) == Some(k),
        symbol_byte(k) != 61,
        !is_ascii_ws_byte(symbol_byte(k)),
        symbol_byte(k) < 128,
{
}

proof fn lemma_kept_concat(a: Seq<u8>, b: Seq<u8>)
    ensures
        kept_bytes(a + b) == kept_bytes(a) + kept_bytes(b),
    decreases a.len(),
{
    if a.len() == 0 {
        assert(a + b =~= b);
    } else {
        lemma_kept_concat(a.drop_first(), b);
        assert((a + b).drop_first() =~= a.drop_first() + b);
        assert((a + b)[0] == a[0]);
    }
}

proof fn lemma_kept_symbols(s: Seq<u32>)
    requires
        forall|i: int| 0 <= i < s.len() ==> s[i] < 64,
    ensures
        kept_bytes(s.map_values(|v: u32| symbol_byte(v))) == s.map_values(|v: u32| symbol_byte(v)),
        chunk_values(s.map_values(|v: u32| symbol_byte(v))) == s,
    decreases s.len(),
{
    let m = s.map_values(|v: u32| symbol_byte(v));
    if s.len() == 0 {
        assert(m =~= Seq::<u8>::empty());
    } else {
        lemma_kept_symbols(s.drop_first());
        lemma_symbol(s[0]);
        assert(m.drop_first() =~= s.drop_first().map_values(|v: u32| symbol_byte(v)));
        assert(m[0] == symbol_byte(s[0]));
        assert(seq![m[0]] + m.drop_first() =~= m);
        assert(seq![s[0]] + s.drop_first() =~= s);
    }
}

proof fn lemma_sextets_small(c: Seq<u8>)
    requires
        1 <= c.len() <= 3,
    ensures
        forall|i: int| 0 <= i < sextets(c).len() ==> sextets(c)[i] < 64,
        sextets(c).len() == c.len() + 1,
{
    let b1: u8 = if c.len() > 1 {
        c[1]
    } else {
        0
    };
    let b2: u8 = if c.len() > 2 {
        c[2]
    } else {
        0
    };
    let n = group_bits(c[0], b1, b2);
    assert((n >> 18u32) & 63u32 < 64) by (bit_vector);
    assert((n >> 12u32) & 63u32 < 64) by (bit_vector);
    assert((n >> 6u32) & 63u32 < 64) by (bit_vector);
    assert(n & 63u32 < 64) by (bit_vector);
}

proof fn lemma_group_kept(c: Seq<u8>)
    requires
        1 <= c.len() <= 3,
    ensures
        kept_bytes(enc_group(c)) == sextets(c).map_values(|v: u32| symbol_byte(v)),
{
    lemma_sextets_small(c);
    let sx = sextets(c);
    let m = sx.map_values(|v: u32| symbol_byte(v));
    let pads: Seq<u8> = if c.len() == 1 {
        seq![61u8, 61u8]
    } else if c.len() == 2 {
        seq![61u8]
    } else {
        Seq::empty()
    };
    assert(enc_group(c) =~= m + pads);
    lemma_kept_concat(m, pads);
    lemma_kept_symbols(sx);
    let one = seq![61u8];
    assert(one[0] == 61u8);
    assert(one.drop_first() =~= Seq::<u8>::empty());
    assert(kept_bytes(Seq::<u8>::empty()) =~= Seq::<u8>::empty());
    assert(kept_bytes(one) == kept_bytes(one.drop_first()));
    if c.len() == 1 {
        assert(pads[0] == 61u8);
        assert(pads.drop_first() =~= one);
        assert(kept_bytes(pads) == kept_bytes(pads.drop_first()));
    }
    assert(m + kept_bytes(pads) =~= m);
}

proof fn lemma_group_bits_back(c: Seq<u8>)
    requires
        1 <= c.len() <= 3,
    ensures
        dec_group(sextets(c)) == c,
{
    lemma_sextets_small(c);
    let b0 = c[0];
    if c.len() == 1 {
        let n = group_bits(b0, 0, 0);
        assert((((((n >> 18u32) & 63u32) << 18u32) | ((((n >> 12u32) & 63u32)) << 12u32) | (0u32
            << 6u32) | 0u32) >> 16u32) as u8 == b0) by (bit_vector)
            requires
                n == ((b0 as u32) << 16u32) | ((0u8 as u32) << 8u32) | (0u8 as u32),
        ;
        assert(dec_group(sextets(c)) =~= c);
    } else if c.len() == 2 {
        let b1 = c[1];
        let n = group_bits(b0, b1, 0);
        let m = (((n >> 18u32) & 63u32) << 18u32) | (((n >> 12u32) & 63u32) << 12u32) | (((n
            >> 6u32) & 63u32) << 6u32) | 0u32;
        assert((m >> 16u32) as u8 == b0 && ((m >> 8u32) & 0xffu32) as u8 == b1) by (bit_vector)
            requires
                n == ((b0 as u32) << 16u32) | ((b1 as u32) << 8u32) | (0u8 as u32),
                m == (((n >> 18u32) & 63u32) << 18u32) | (((n >> 12u32) & 63u32) << 12u32) | (((n
                    >> 6u32) & 63u32) << 6u32) | 0u32,
        ;
        assert(dec_group(sextets(c)) =~= c);
    } else {
        let b1 = c[1];
        let b2 = c[2];
        let n = group_bits(b0, b1, b2);
        let m = (((n >> 18u32) & 63u32) << 18u32) | (((n >> 12u32) & 63u32) << 12u32) | (((n
            >> 6u32) & 63u32) << 6u32) | (n & 63u32);
        assert((m >> 16u32) as u8 == b0 && ((m >> 8u32) & 0xffu32) as u8 == b1 && (m & 0xffu32)
            as u8 == b2) by (bit_vector)
            requires
                n == ((b0 as u32) << 16u32) | ((b1 as u32) << 8u32) | (b2 as u32),
                m == (((n >> 18u32) & 63u32) << 18u32) | (((n >> 12u32) & 63u32) << 12u32) | (((n
                    >> 6u32) & 63u32) << 6u32) | (n & 63u32),
        ;
        assert(dec_group(sextets(c)) =~= c);
    }
}

proof fn lemma_kept_encoding(d: Seq<u8>)
    ensures
        kept_bytes(encode_bytes(d)) == kept_groups(d),
    decreases d.len(),
{
    if d.len() > 0 {
        let k = chunk_len(d.len() as int, 3);
        lemma_kept_concat(enc_group(d.take(k)), encode_bytes(d.skip(k)));
        lemma_group_kept(d.take(k));
        lemma_kept_encoding(d.skip(k));
    }
}

proof fn lemma_decode_groups(d: Seq<u8>)
    ensures
        dec_chunks(kept_groups(d)) == d,
    decreases d.len(),
{
    if d.len() == 0 {
        assert(kept_groups(d) =~= Seq::<u8>::empty());
    } else {
        let k = chunk_len(d.len() as int, 3);
        let c = d.take(k);
        lemma_sextets_small(c);
        let sx = sextets(c);
        let g = sx.map_values(|v: u32| symbol_byte(v));
        let rest = kept_groups(d.skip(k));
        let bs = g + rest;
        assert(bs == kept_groups(d));
        lemma_kept_symbols(sx);
        lemma_decode_groups(d.skip(k));
        let kk = chunk_len(bs.len() as int, 4);
        if k < 3 {
            assert(d.skip(k) =~= Seq::<u8>::empty());
            assert(rest =~= Seq::<u8>::empty());
            assert(bs =~= g);
        }
        assert(kk == g.len());
        assert(bs.take(kk) =~= g);
        assert(bs.skip(kk) =~= rest);
        lemma_group_bits_back(c);
        assert(dec_chunks(bs) == dec_group(sx) + dec_chunks(rest));
        assert(c + d.skip(k) =~= d);
    }
}

proof fn lemma_encode_ascii(d: Seq<u8>)
    ensures
        forall|i: int| 0 <= i < encode_bytes(d).len() ==> encode_bytes(d)[i] < 128,
    decreases d.len(),
{
    if d.len() > 0 {
        let k = chunk_len(d.len() as int, 3);
        let c = d.take(k);
        lemma_encode_ascii(d.skip(k));
        lemma_sextets_small(c);
        let b1: u8 = if c.len() > 1 {
            c[1]
        } else {
            0
        };
        let b2: u8 = if c.len() > 2 {
            c[2]
        } else {
            0
        };
        let n = group_bits(c[0], b1, b2);
        assert((n >> 18u32) & 63u32 < 64) by (bit_vector);
        assert((n >> 12u32) & 63u32 < 64) by (bit_vector);
        assert((n >> 6u32) & 63u32 < 64) by (bit_vector);
        assert(n & 63u32 < 64) by (bit_vector);
        let e = enc_group(c);
        assert forall|j: int| 0 <= j < e.len() implies e[j] < 128 by {}
        let r = encode_bytes(d.skip(k));
        assert forall|j: int| 0 <= j < (e + r).len() implies (e + r)[j] < 128 by {
            if j >= e.len() {
                assert((e + r)[j] == r[j - e.len()]);
            }
        }
    }
}

/// Decoding the UTF-8 bytes of an encoding gives the same bytes back:
/// `base64_decode(&base64_encode(d)) == Ok(d)`.
pub proof fn lemma_base64_roundtrip(d: Seq<u8>)
    ensures
        spec_base64_decode(encode_utf8(spec_base64_encode(d))) == d,
{
    let e = encode_bytes(d);
    let t = spec_base64_encode(d);
    lemma_encode_ascii(d);
    assert forall|i: int| 0 <= i < t.len() implies '\0' <= #[trigger] t[i] <= '\u{7f}' by {
        assert(t[i] == e[i] as char);
    }
    assert(is_ascii_chars(t));
    is_ascii_chars_encode_utf8(t);
    assert forall|i: int| 0 <= i < e.len() implies encode_utf8(t)[i] == e[i] by {
        assert(t[i] == e[i] as char);
    }
    assert(encode_utf8(t) =~= e);
    lemma_kept_encoding(d);
    lemma_decode_groups(d);
}


/// `=` or an ASCII whitespace character (`char::is_ascii_whitespace`).
pub open spec fn is_pad_or_ascii_ws(c: char) -> bool {
    c == '=' || c == ' ' || c == '\t' || c == '\n' || c == '\u{c}' || c == '\r'
}

/// The text with every `=` and ASCII whitespace character removed.
pub open spec fn strip_pad_and_ws(cs: Seq<char>) -> Seq<char>
    decreases cs.len(),
{
    if cs.len() == 0 {
        Seq::empty()
    } else if is_pad_or_ascii_ws(cs[0]) {
        strip_pad_and_ws(cs.drop_first())
    } else {
        seq![cs[0]] + strip_pad_and_ws(cs.drop_first())
    }
}

proof fn lemma_kept_append(a: Seq<u8>, b: Seq<u8>)
    ensures
        kept_bytes(a + b) == kept_bytes(a) + kept_bytes(b),
    decreases a.len(),
{
    if a.len() == 0 {
        assert(a + b =~= b);
        assert(kept_bytes(a) =~= Seq::<u8>::empty());
        assert(kept_bytes(a) + kept_bytes(b) =~= kept_bytes(b));
    } else {
        assert((a + b).drop_first() =~= a.drop_first() + b);
        assert((a + b)[0] == a[0]);
        lemma_kept_append(a.drop_first(), b);
        if a[0] != 61 && !is_ascii_ws_byte(a[0]) {
            assert(seq![a[0]] + (kept_bytes(a.drop_first()) + kept_bytes(b)) =~= (seq![a[0]]
                + kept_bytes(a.drop_first())) + kept_bytes(b));
        }
    }
}

proof fn lemma_encode_cons(c: char, x: Seq<char>)
    ensures
        encode_utf8(seq![c] + x) == encode_scalar(c as u32) + encode_utf8(x),
{
    let s = seq![c] + x;
    assert(s.drop_first() =~= x);
    assert(s[0] == c);
}

proof fn lemma_dropped_char(c: char)
    requires
        is_pad_or_ascii_ws(c),
    ensures
        kept_bytes(encode_scalar(c as u32)) == Seq::<u8>::empty(),
{
    let v = c as u32;
    assert(v == 61 || v == 32 || v == 9 || v == 10 || v == 12 || v == 13);
    assert(has_width_1_encoding(v));
    let b = leading_byte_width_1(v);
    assert(v <= 0x7F ==> ((v & 0x7F) as u8) as u32 == v) by (bit_vector);
    assert(b as u32 == v);
    assert(encode_scalar(v) =~= seq![b]);
    assert(seq![b].drop_first() =~= Seq::<u8>::empty());
    assert(kept_bytes(seq![b]) == kept_bytes(seq![b].drop_first()));
}

proof fn lemma_kept_strip(cs: Seq<char>)
    ensures
        kept_bytes(encode_utf8(strip_pad_and_ws(cs))) == kept_bytes(encode_utf8(cs)),
    decreases cs.len(),
{
    if cs.len() > 0 {
        let c = cs[0];
        let rest = cs.drop_first();
        lemma_kept_strip(rest);
        assert(cs =~= seq![c] + rest);
        lemma_encode_cons(c, rest);
        lemma_kept_append(encode_scalar(c as u32), encode_utf8(rest));
        if is_pad_or_ascii_ws(c) {
            lemma_dropped_char(c);
            assert(kept_bytes(encode_utf8(cs)) =~= kept_bytes(encode_utf8(rest)));
        } else {
            lemma_encode_cons(c, strip_pad_and_ws(rest));
            lemma_kept_append(encode_scalar(c as u32), encode_utf8(strip_pad_and_ws(rest)));
        }
    }
}

/// Padding and ASCII whitespace are ignored: an input decodes as the same
/// input with every `=` and ASCII whitespace character removed.
pub proof fn lemma_decode_ignores_pad_and_ws(cs: Seq<char>)
    ensures
        spec_base64_decode(encode_utf8(strip_pad_and_ws(cs))) == spec_base64_decode(encode_utf8(cs)),
{
    lemma_kept_strip(cs);
}

} // verus!
