use vstd::prelude::*;
use vstd::utf8::{encode_scalar, encode_utf8};

verus! {

pub const ESC: u8 = 0x1b;
pub const ETX: u8 = 0x03;
pub const CR: u8 = 0x0d;
pub const LF: u8 = 0x0a;

/// The marker that opens a bracketed paste: `ESC [ 2 0 0 ~`.
pub open spec fn paste_start() -> Seq<u8> {
    seq![ESC, 0x5b, 0x32, 0x30, 0x30, 0x7e]
}

/// The marker that closes a bracketed paste: `ESC [ 2 0 1 ~`.
pub open spec fn paste_end() -> Seq<u8> {
    seq![ESC, 0x5b, 0x32, 0x30, 0x31, 0x7e]
}

/// A byte that may stand inside a bracketed paste: neither ESC nor ETX.
pub open spec fn paste_safe(b: u8) -> bool {
    b != ESC && b != ETX
}

/// `s` without its ESC and ETX bytes.
pub open spec fn strip_unsafe(s: Seq<u8>) -> Seq<u8>
    decreases s.len(),
{
    if s.len() == 0 {
        s
    } else if paste_safe(s.last()) {
        strip_unsafe(s.drop_last()).push(s.last())
    } else {
        strip_unsafe(s.drop_last())
    }
}

/// The bytes of a bracketed paste of `s`.
pub open spec fn spec_bracketed_paste(s: Seq<u8>) -> Seq<u8> {
    paste_start() + strip_unsafe(s) + paste_end()
}

/// What byte `i` of `s` becomes when line endings are normalised: a LF
/// that ends a CR LF pair is dropped, any other LF becomes CR.
pub open spec fn normalized_byte(s: Seq<u8>, i: int) -> Seq<u8> {
    if s[i] == LF && i > 0 && s[i - 1] == CR {
        seq![]
    } else if s[i] == LF {
        seq![CR]
    } else {
        seq![s[i]]
    }
}

/// `s` with CR LF replaced by CR, then every remaining LF by CR.
pub open spec fn normalize_newlines(s: Seq<u8>) -> Seq<u8>
    decreases s.len(),
{
    if s.len() == 0 {
        s
    } else {
        normalize_newlines(s.drop_last()) + normalized_byte(s, s.len() - 1)
    }
}

/// The bytes that a paste of `text` sends: bracketed where the terminal asks
/// for it, else with line endings normalised to CR.
pub open spec fn spec_paste_bytes(text: Seq<char>, bracketed: bool) -> Seq<u8> {
    if bracketed {
        spec_bracketed_paste(encode_utf8(text))
    } else {
        normalize_newlines(encode_utf8(text))
    }
}

/// Every byte that `strip_unsafe` keeps is paste-safe.
pub proof fn lemma_strip_unsafe_safe(s: Seq<u8>)
    ensures
        forall|i: int| 0 <= i < strip_unsafe(s).len() ==> paste_safe(#[trigger] strip_unsafe(s)[i]),
    decreases s.len(),
{
    if s.len() > 0 {
        lemma_strip_unsafe_safe(s.drop_last());
        let p = strip_unsafe(s.drop_last());
        if paste_safe(s.last()) {
            assert forall|i: int| 0 <= i < strip_unsafe(s).len() implies paste_safe(
                #[trigger] strip_unsafe(s)[i],
            ) by {
                if i < p.len() {
                    assert(strip_unsafe(s)[i] == p[i]);
                }
            }
        }
    }
}

/// A bracketed paste holds no ESC or ETX byte between its two markers, for
/// any payload.
pub proof fn lemma_bracketed_paste_clean(s: Seq<u8>)
    ensures
        spec_bracketed_paste(s).len() == paste_start().len() + strip_unsafe(s).len()
            + paste_end().len(),
        spec_bracketed_paste(s).subrange(0, 6) == paste_start(),
        spec_bracketed_paste(s).subrange(spec_bracketed_paste(s).len() - 6, spec_bracketed_paste(s).len() as int) == paste_end(),
        forall|i: int|
            6 <= i < spec_bracketed_paste(s).len() - 6 ==> #[trigger] spec_bracketed_paste(s)[i]
                != ESC && spec_bracketed_paste(s)[i] != ETX,
{
    let r = spec_bracketed_paste(s);
    let m = strip_unsafe(s);
    lemma_strip_unsafe_safe(s);
    assert(r.subrange(0, 6) =~= paste_start());
    assert(r.subrange(r.len() - 6, r.len() as int) =~= paste_end());
    assert forall|i: int| 6 <= i < r.len() - 6 implies #[trigger] r[i] != ESC && r[i] != ETX by {
        assert(r[i] == m[i - 6]);
    }
}

/// The UTF-8 bytes of a string.
pub fn str_bytes(s: &str) -> (r: Vec<u8>)
    ensures
        r@ == encode_utf8(s@),
{
    vstd::slice::slice_to_vec(s.as_bytes())
}

/// The UTF-8 bytes of one character.
pub fn char_bytes(c: char) -> (r: Vec<u8>)
    ensures
        r@ == encode_utf8(seq![c]),
{
    proof {
        assert(seq![c].drop_first() =~= Seq::<char>::empty());
        assert(encode_utf8(Seq::<char>::empty()) =~= Seq::<u8>::empty());
        assert(encode_utf8(seq![c]) == encode_scalar(seq![c][0] as u32) + encode_utf8(
            seq![c].drop_first(),
        ));
        assert(encode_utf8(seq![c]) =~= encode_scalar(c as u32));
    }
    let v: u32 = c as u32;
    if v <= 0x7f {
        vec![(v & 0x7f) as u8]
    } else if 0x80 <= v && v <= 0x7ff {
        vec![0xc0 | ((v >> 6) & 0x1f) as u8, 0x80 | (v & 0x3f) as u8]
    } else if 0x800 <= v && v <= 0xffff && !(0xd800 <= v && v <= 0xdfff) {
        vec![
            0xe0 | ((v >> 12) & 0x0f) as u8,
            0x80 | ((v >> 6) & 0x3f) as u8,
            0x80 | (v & 0x3f) as u8,
        ]
    } else {
        vec![
            0xf0 | ((v >> 18) & 0x7) as u8,
            0x80 | ((v >> 12) & 0x3f) as u8,
            0x80 | ((v >> 6) & 0x3f) as u8,
            0x80 | (v & 0x3f) as u8,
        ]
    }
}

/// Wraps `payload` in the bracketed-paste markers and leaves out every ESC
/// and ETX byte of it, so that the payload cannot end the paste early or
/// interrupt the program.
pub fn bracketed_paste(payload: &[u8]) -> (r: Vec<u8>)
    ensures
        r@ == spec_bracketed_paste(payload@),
{
    let mut out: Vec<u8> = vec![ESC, 0x5b, 0x32, 0x30, 0x30, 0x7e];
    let mut i: usize = 0;
    assert(payload@.take(0) =~= Seq::<u8>::empty());
    while i < payload.len()
        invariant
            i <= payload@.len(),
            out@ == paste_start() + strip_unsafe(payload@.take(i as int)),
        decreases payload@.len() - i,
    {
        let b = payload[i];
        assert(payload@.take(i + 1).drop_last() =~= payload@.take(i as int));
        assert(payload@.take(i + 1).last() == b);
        if b != ESC && b != ETX {
            out.push(b);
        }
        i = i + 1;
        assert(out@ =~= paste_start() + strip_unsafe(payload@.take(i as int)));
    }
    assert(payload@.take(i as int) =~= payload@);
    out.push(ESC);
    out.push(0x5b);
    out.push(0x32);
    out.push(0x30);
    out.push(0x31);
    out.push(0x7e);
    assert(out@ =~= spec_bracketed_paste(payload@));
    out
}

/// Replaces each CR LF pair of `payload` by CR, then each remaining LF by CR.
pub fn normalize_line_endings(payload: &[u8]) -> (r: Vec<u8>)
    ensures
        r@ == normalize_newlines(payload@),
{
    let mut out: Vec<u8> = Vec::new();
    let mut i: usize = 0;
    assert(payload@.take(0) =~= Seq::<u8>::empty());
    while i < payload.len()
        invariant
            i <= payload@.len(),
            out@ == normalize_newlines(payload@.take(i as int)),
        decreases payload@.len() - i,
    {
        let b = payload[i];
        let ghost t = payload@.take(i + 1);
        assert(t.drop_last() =~= payload@.take(i as int));
        assert(t[i as int] == b);
        assert(i > 0 ==> t[i - 1] == payload@[i - 1]);
        if b == LF && i > 0 && payload[i - 1] == CR {
        } else if b == LF {
            out.push(CR);
        } else {
            out.push(b);
        }
        i = i + 1;
        assert(out@ =~= normalize_newlines(t));
    }
    assert(payload@.take(i as int) =~= payload@);
    out
}

/// The bytes that a paste of `text` sends to the terminal.
pub fn paste_bytes(text: &str, bracketed: bool) -> (r: Vec<u8>)
    ensures
        r@ == spec_paste_bytes(text@, bracketed),
{
    let raw = str_bytes(text);
    if bracketed {
        bracketed_paste(raw.as_slice())
    } else {
        normalize_line_endings(raw.as_slice())
    }
}

} // verus!
