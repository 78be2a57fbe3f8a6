//! Byte-level emission of the JSON documents that the reporter sends.
//!
//! The wire bodies are UTF-8 JSON. Escaping is done on the UTF-8 bytes
//! of a string: only the quote, the backslash and the control bytes
//! need an escape, and multi-byte UTF-8 sequences pass through
//! unchanged, so escaping byte by byte is exact.

use vstd::prelude::*;
use vstd::utf8::encode_utf8;

verus! {

/// The ASCII byte of a single lowercase hexadecimal digit.
pub open spec fn hex_digit_byte(d: int) -> u8 {
    if d < 10 {
        (0x30 + d) as u8
    } else {
        (0x57 + d) as u8
    }
}

/// The escape of one byte inside a JSON string literal: quote and
/// backslash get a backslash escape, control bytes a `\u00XX` escape,
/// every other byte stands for itself.
pub open spec fn esc_byte(b: u8) -> Seq<u8> {
    if b == 0x22 {
        seq![0x5cu8, 0x22u8]
    } else if b == 0x5c {
        seq![0x5cu8, 0x5cu8]
    } else if b < 0x20 {
        seq![0x5cu8, 0x75u8, 0x30u8, 0x30u8, hex_digit_byte(b as int / 16), hex_digit_byte(b as int % 16)]
    } else {
        seq![b]
    }
}

/// The escaped form of a byte string inside a JSON string literal.
pub open spec fn json_escaped(s: Seq<u8>) -> Seq<u8>
    decreases s.len(),
{
    if s.len() == 0 {
        Seq::empty()
    } else {
        esc_byte(s[0]) + json_escaped(s.drop_first())
    }
}

/// Escaping distributes over appending one byte at the end.
pub proof fn lemma_json_escaped_push(s: Seq<u8>, b: u8)
    ensures
        json_escaped(s.push(b)) == json_escaped(s) + esc_byte(b),
    decreases s.len(),
{
    if s.len() == 0 {
        assert(s.push(b)[0] == b);
        assert(s.push(b).drop_first() =~= Seq::<u8>::empty());
        assert(json_escaped(s.push(b)) == esc_byte(b) + json_escaped(Seq::<u8>::empty()));
        assert(json_escaped(s.push(b)) =~= json_escaped(s) + esc_byte(b));
    } else {
        assert(s.push(b).drop_first() =~= s.drop_first().push(b));
        lemma_json_escaped_push(s.drop_first(), b);
        assert(json_escaped(s.push(b)) =~= json_escaped(s) + esc_byte(b));
    }
}

/// A JSON string literal: quote, escaped UTF-8 bytes, quote.
pub open spec fn json_str_bytes(s: Seq<char>) -> Seq<u8> {
    seq![0x22u8] + json_escaped(encode_utf8(s)) + seq![0x22u8]
}

/// Appends the bytes of `s`, escaped for a JSON string literal.
pub fn push_json_escaped(out: &mut Vec<u8>, s: &[u8])
    ensures
        final(out)@ == old(out)@ + json_escaped(s@),
{
    let ghost base = out@;
    let mut i: usize = 0;
    while i < s.len()
        invariant
            i <= s@.len(),
            out@ == base + json_escaped(s@.take(i as int)),
        decreases s@.len() - i,
    {
        let b = s[i];
        proof {
            lemma_json_escaped_push(s@.take(i as int), b);
            assert(s@.take(i as int + 1) =~= s@.take(i as int).push(b));
        }
        if b == 0x22 {
            out.push(0x5c);
            out.push(0x22);
        } else if b == 0x5c {
            out.push(0x5c);
            out.push(0x5c);
        } else if b < 0x20 {
            out.push(0x5c);
            out.push(0x75);
            out.push(0x30);
            out.push(0x30);
            let hi = b / 16;
            let lo = b % 16;
            out.push(hi + 0x30);
            if lo < 10 {
                out.push(lo + 0x30);
            } else {
                out.push(lo + 0x57);
            }
        } else {
            out.push(b);
        }
        proof {
            assert(out@ =~= base + json_escaped(s@.take(i as int + 1)));
        }
        i = i + 1;
    }
    proof {
        assert(s@.take(s@.len() as int) =~= s@);
    }
}

/// Appends a whole JSON string literal for `s`: quotes around the
/// escaped bytes.
pub fn push_json_str(out: &mut Vec<u8>, s: &str)
    ensures
        final(out)@ == old(out)@ + json_str_bytes(s@),
{
    let ghost base = out@;
    out.push(0x22);
    push_json_escaped(out, s.as_bytes());
    out.push(0x22);
    proof {
        assert(out@ =~= base + json_str_bytes(s@));
    }
}

/// Appends the raw UTF-8 bytes of a fixed fragment, unescaped.
pub fn push_lit(out: &mut Vec<u8>, s: &str)
    ensures
        final(out)@ == old(out)@ + encode_utf8(s@),
{
    out.extend_from_slice(s.as_bytes());
}

/// The given fragments joined with a comma between each two.
pub open spec fn comma_joined(fs: Seq<Seq<u8>>) -> Seq<u8>
    decreases fs.len(),
{
    if fs.len() == 0 {
        Seq::empty()
    } else if fs.len() == 1 {
        fs[0]
    } else {
        fs[0] + seq![0x2cu8] + comma_joined(fs.drop_first())
    }
}

/// Joining distributes over appending one fragment at the end.
pub proof fn lemma_comma_joined_push(fs: Seq<Seq<u8>>, f: Seq<u8>)
    ensures
        comma_joined(fs.push(f)) == if fs.len() == 0 {
            f
        } else {
            comma_joined(fs) + seq![0x2cu8] + f
        },
    decreases fs.len(),
{
    if fs.len() == 0 {
        assert(fs.push(f).len() == 1);
        assert(fs.push(f)[0] == f);
    } else if fs.len() == 1 {
        assert(fs.push(f)[0] == fs[0]);
        assert(fs.push(f).drop_first() =~= seq![f]);
        assert(comma_joined(seq![f]) == f);
        assert(comma_joined(fs) == fs[0]);
        assert(comma_joined(fs.push(f)) =~= comma_joined(fs) + seq![0x2cu8] + f);
    } else {
        assert(fs.push(f)[0] == fs[0]);
        assert(fs.push(f).drop_first() =~= fs.drop_first().push(f));
        lemma_comma_joined_push(fs.drop_first(), f);
        assert(comma_joined(fs.push(f)) =~= comma_joined(fs) + seq![0x2cu8] + f);
    }
}

/// Pushing one fragment extends the list of fragment values by its
/// value.
pub proof fn lemma_fragments_push(a: Vec<Vec<u8>>, b: Vec<Vec<u8>>, x: Vec<u8>)
    requires
        b@ == a@.push(x),
    ensures
        b.deep_view() == a.deep_view().push(x@),
{
    assert forall|i: int| 0 <= i < b.deep_view().len() implies b.deep_view()[i] == a.deep_view()
        .push(x@)[i] by {
        if i < a@.len() {
            assert(b@[i] == a@[i]);
        } else {
            assert(b@[i] == x);
        }
    }
    assert(b.deep_view() =~= a.deep_view().push(x@));
}

/// Appends the fragments joined with commas.
pub fn push_comma_joined(out: &mut Vec<u8>, fields: &Vec<Vec<u8>>)
    ensures
        final(out)@ == old(out)@ + comma_joined(fields.deep_view()),
{
    let ghost base = out@;
    let mut i: usize = 0;
    while i < fields.len()
        invariant
            i <= fields@.len(),
            fields.deep_view().len() == fields@.len(),
            out@ == base + comma_joined(fields.deep_view().take(i as int)),
        decreases fields@.len() - i,
    {
        proof {
            lemma_comma_joined_push(fields.deep_view().take(i as int), fields.deep_view()[i as int]);
            assert(fields.deep_view().take(i as int + 1) =~= fields.deep_view().take(i as int).push(
                fields.deep_view()[i as int],
            ));
        }
        if i > 0 {
            out.push(0x2c);
        }
        out.extend_from_slice(fields[i].as_slice());
        proof {
            assert(fields.deep_view()[i as int] == fields@[i as int]@);
            assert(out@ =~= base + comma_joined(fields.deep_view().take(i as int + 1)));
        }
        i = i + 1;
    }
    proof {
        assert(fields.deep_view().take(fields@.len() as int) =~= fields.deep_view());
    }
}

} // verus!
