//! Live telemetry rendering of packed flag banks.
//!
//! Each fixed-width word of a flag region packs two byte halves; the renderer
//! emits them high byte first as uppercase hexadecimal pairs, one space before
//! each pair, after a caller-supplied section label. Rendering only reads the
//! region and tolerates both an empty region and one whose base pointer is
//! unset: either way the label comes back with no trailing values.

use vstd::prelude::*;
use crate::overlay::FlagRegion;

verus! {

/// The ASCII uppercase hexadecimal digit for a nibble value.
pub open spec fn hex_digit(n: u8) -> u8 {
    if n < 10 {
        (48 + n) as u8
    } else {
        (55 + n) as u8
    }
}

/// The six bytes one word contributes: a space, the high byte's two digits,
/// a space, the low byte's two digits.
pub open spec fn word_hex(w: u16) -> Seq<u8> {
    let hi = (w / 256) as u8;
    let lo = (w % 256) as u8;
    seq![
        32u8,
        hex_digit((hi / 16) as u8),
        hex_digit((hi % 16) as u8),
        32u8,
        hex_digit((lo / 16) as u8),
        hex_digit((lo % 16) as u8),
    ]
}

/// The bytes a whole word sequence contributes, in order.
pub open spec fn words_hex(words: Seq<u16>) -> Seq<u8>
    decreases words.len(),
{
    if words.len() == 0 {
        Seq::empty()
    } else {
        words_hex(words.drop_last()) + word_hex(words.last())
    }
}

/// The ASCII digit for one nibble.
fn hex_digit_byte(n: u8) -> (r: u8)
    requires
        n < 16,
    ensures
        r == hex_digit(n),
{
    if n < 10 {
        48 + n
    } else {
        55 + n
    }
}

/// Appends the six bytes of one word's rendering.
fn push_word_hex(out: &mut Vec<u8>, w: u16)
    ensures
        final(out)@ == old(out)@ + word_hex(w),
{
    let hi: u16 = w / 256;
    let lo: u16 = w % 256;
    out.push(32);
    out.push(hex_digit_byte((hi / 16) as u8));
    out.push(hex_digit_byte((hi % 16) as u8));
    out.push(32);
    out.push(hex_digit_byte((lo / 16) as u8));
    out.push(hex_digit_byte((lo % 16) as u8));
    proof {
        assert(out@ =~= old(out)@ + word_hex(w));
    }
}

/// What one labelled group renders as: the label's bytes, then the region's
/// words; a region whose base pointer is unset contributes nothing past the
/// label.
pub open spec fn group_bytes(label: Seq<u8>, region: FlagRegion) -> Seq<u8> {
    if region.is_set() {
        label + words_hex(region.words())
    } else {
        label
    }
}

/// Renders one labelled group: the label's bytes, then each word of the
/// region as uppercase hexadecimal byte pairs, high half first, one space
/// before each pair. A region whose base pointer is unset renders as the
/// label alone; the region is never mutated.
pub fn render_snapshot(label: &Vec<u8>, region: &FlagRegion) -> (out: Vec<u8>)
    ensures
        out@ == group_bytes(label@, *region),
{
    let mut out: Vec<u8> = Vec::new();
    let mut i: usize = 0;
    while i < label.len()
        invariant
            i <= label.len(),
            out@ == label@.take(i as int),
        decreases label.len() - i,
    {
        out.push(label[i]);
        i = i + 1;
        proof {
            assert(out@ =~= label@.take(i as int));
        }
    }
    proof {
        assert(out@ =~= label@);
    }
    let n = region.word_count();
    let mut j: usize = 0;
    while j < n
        invariant
            j <= n,
            region.is_set() ==> n == region.words().len(),
            !region.is_set() ==> n == 0,
            region.is_set() ==> out@ == label@ + words_hex(region.words().take(j as int)),
            !region.is_set() ==> out@ == label@,
        decreases n - j,
    {
        let w = region.read_word(j);
        match w {
            Some(word) => {
                push_word_hex(&mut out, word);
                proof {
                    let ws = region.words();
                    assert(ws.take(j + 1).drop_last() =~= ws.take(j as int));
                    assert(ws.take(j + 1).last() == ws[j as int]);
                    assert(out@ =~= label@ + words_hex(ws.take(j + 1)));
                }
            },
            None => {
                proof {
                    assert(false);
                }
            },
        }
        j = j + 1;
    }
    proof {
        if region.is_set() {
            assert(region.words().take(n as int) =~= region.words());
        }
    }
    out
}

/// The ASCII bytes of the scene bank's section label, "Scene:".
fn scene_label() -> (v: Vec<u8>)
    ensures
        v@ == seq![83u8, 99u8, 101u8, 110u8, 101u8, 58u8],
{
    let mut v: Vec<u8> = Vec::new();
    v.push(83);
    v.push(99);
    v.push(101);
    v.push(110);
    v.push(101);
    v.push(58);
    proof {
        assert(v@ =~= seq![83u8, 99u8, 101u8, 110u8, 101u8, 58u8]);
    }
    v
}

/// The ASCII bytes of the temp bank's section label, " Temp:".
fn temp_label() -> (v: Vec<u8>)
    ensures
        v@ == seq![32u8, 84u8, 101u8, 109u8, 112u8, 58u8],
{
    let mut v: Vec<u8> = Vec::new();
    v.push(32);
    v.push(84);
    v.push(101);
    v.push(109);
    v.push(112);
    v.push(58);
    proof {
        assert(v@ =~= seq![32u8, 84u8, 101u8, 109u8, 112u8, 58u8]);
    }
    v
}

/// Renders the whole two-bank console text: the scene group under its
/// "Scene:" label, a line break, then the temp group under its " Temp:"
/// label. Either bank may be empty or have its base unset; its group then
/// ends at the label.
pub fn render_flag_banks(scene: &FlagRegion, temp: &FlagRegion) -> (out: Vec<u8>)
    ensures
        out@ == group_bytes(seq![83u8, 99u8, 101u8, 110u8, 101u8, 58u8], *scene) + seq![10u8]
            + group_bytes(seq![32u8, 84u8, 101u8, 109u8, 112u8, 58u8], *temp),
{
    let sl = scene_label();
    let mut out = render_snapshot(&sl, scene);
    out.push(10);
    let tl = temp_label();
    let mut tail = render_snapshot(&tl, temp);
    let ghost tv = tail@;
    out.append(&mut tail);
    proof {
        assert(out@ =~= group_bytes(seq![83u8, 99u8, 101u8, 110u8, 101u8, 58u8], *scene) + seq![
            10u8,
        ] + group_bytes(seq![32u8, 84u8, 101u8, 109u8, 112u8, 58u8], *temp));
    }
    out
}

} // verus!
