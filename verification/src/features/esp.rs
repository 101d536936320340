//! Locating the box-drawing buffer of the overlay and encoding the boxes
//! written into it.
use vstd::prelude::*;
use vstd::string::StringSliceAdditionalSpecFns;

use crate::offsets::findpattern::{find_pattern, spec_find_pattern};
use crate::utils::bytes::le_value;

verus! {

/// The most boxes the buffer holds.
pub const BOX_BUFFER_MAX: usize = 32;



/// The offset in `dump` of the user-mode buffer, found by its magic
/// `0D F0 CC C0` and skipping it.
pub fn user_buffer_offset(dump: &[u8]) -> (res: Option<usize>)
    ensures
        match spec_find_pattern(dump@, "0D F0 CC C0".spec_bytes()) {
            Some(i) => res == (if i + 4 <= usize::MAX {
                Some((i + 4) as usize)
            } else {
                None::<usize>
            }),
            None => res is None,
        },
{
    let magic = "0D F0 CC C0";
    match find_pattern(dump, magic) {
        Some(i) => i.checked_add(4),
        None => None,
    }
}

/// The offset in `dump` of the kernel-mode buffer, found by its twelve-byte
/// magic `0D F0 CC C0 C0 CC C0 CC F0 0D F0 0D` and skipping it.
pub fn kernel_buffer_offset(dump: &[u8]) -> (res: Option<usize>)
    ensures
        match spec_find_pattern(dump@, "0D F0 CC C0 C0 CC C0 CC F0 0D F0 0D".spec_bytes()) {
            Some(i) => res == (if i + 12 <= usize::MAX {
                Some((i + 12) as usize)
            } else {
                None::<usize>
            }),
            None => res is None,
        },
{
    let magic = "0D F0 CC C0 C0 CC C0 CC F0 0D F0 0D";
    match find_pattern(dump, magic) {
        Some(i) => i.checked_add(12),
        None => None,
    }
}

/// One box on screen, in pixels.
#[derive(Debug, Clone, Copy, PartialEq, Eq, Structural)]
pub struct BoxCommand {
    pub x: u32,
    pub y: u32,
    pub w: u32,
    pub h: u32,
}

/// The four little-endian bytes of `v`.
pub open spec fn u32_le_bytes(v: u32) -> Seq<u8> {
    seq![
        (v % 0x100) as u8,
        ((v / 0x100) % 0x100) as u8,
        ((v / 0x1_0000) % 0x100) as u8,
        ((v / 0x100_0000) % 0x100) as u8,
    ]
}

/// The sixteen bytes of a box: x, y, width, height, each little-endian.
pub open spec fn box_bytes(b: BoxCommand) -> Seq<u8> {
    u32_le_bytes(b.x) + u32_le_bytes(b.y) + u32_le_bytes(b.w) + u32_le_bytes(b.h)
}

/// The bytes of the boxes `boxes`, one after another.
pub open spec fn boxes_bytes(boxes: Seq<BoxCommand>) -> Seq<u8>
    decreases boxes.len(),
{
    if boxes.len() == 0 {
        Seq::empty()
    } else {
        boxes_bytes(boxes.drop_last()) + box_bytes(boxes.last())
    }
}

fn push_u32_le(out: &mut Vec<u8>, v: u32)
    ensures
        final(out)@ == old(out)@ + u32_le_bytes(v),
{
    out.push((v % 0x100) as u8);
    out.push(((v / 0x100) % 0x100) as u8);
    out.push(((v / 0x1_0000) % 0x100) as u8);
    out.push(((v / 0x100_0000) % 0x100) as u8);
    assert(final(out)@ =~= old(out)@ + u32_le_bytes(v));
}

/// The bytes written to the box area of the buffer: the first
/// `BOX_BUFFER_MAX` boxes, sixteen bytes each.
pub fn encode_boxes(boxes: &[BoxCommand]) -> (res: Vec<u8>)
    ensures
        res@ == boxes_bytes(
            boxes@.take(
                if boxes@.len() < BOX_BUFFER_MAX {
                    boxes@.len() as int
                } else {
                    BOX_BUFFER_MAX as int
                },
            ),
        ),
{
    let mut out: Vec<u8> = Vec::new();
    let n = if boxes.len() < BOX_BUFFER_MAX {
        boxes.len()
    } else {
        BOX_BUFFER_MAX
    };
    let mut i: usize = 0;
    while i < n
        invariant
            n <= boxes@.len(),
            i <= n,
            out@ == boxes_bytes(boxes@.take(i as int)),
        decreases n - i,
    {
        let b = boxes[i];
        push_u32_le(&mut out, b.x);
        push_u32_le(&mut out, b.y);
        push_u32_le(&mut out, b.w);
        push_u32_le(&mut out, b.h);
        assert(boxes@.take(i + 1).drop_last() =~= boxes@.take(i as int));
        assert(out@ =~= boxes_bytes(boxes@.take(i as int)) + box_bytes(b));
        i = i + 1;
    }
    out
}

/// The bytes written to the buffer's count and ready fields: the number of
/// boxes (all of them, truncated to 32 bits) and then 1.
pub fn encode_draw_header(box_count: usize) -> (res: Vec<u8>)
    ensures
        res@ == u32_le_bytes(box_count as u32) + u32_le_bytes(1),
{
    let mut out: Vec<u8> = Vec::new();
    push_u32_le(&mut out, box_count as u32);
    push_u32_le(&mut out, 1);
    out
}

/// Encoding a value little-endian and reading the bytes back gives the
/// value: the buffer's fields are written in the order they are read.
pub proof fn lemma_u32_le_roundtrip(v: u32)
    ensures
        le_value(u32_le_bytes(v)) == v,
{
    let s = u32_le_bytes(v);
    reveal_with_fuel(le_value, 5);
    assert(s.drop_first().drop_first().drop_first().drop_first() =~= Seq::<u8>::empty());
    assert(s.drop_first()[0] == ((v / 0x100) % 0x100) as u8);
    assert(s.drop_first().drop_first()[0] == ((v / 0x1_0000) % 0x100) as u8);
    assert(s.drop_first().drop_first().drop_first()[0] == ((v / 0x100_0000) % 0x100) as u8);
    assert(v == v % 0x100 + 0x100 * ((v / 0x100) % 0x100) + 0x1_0000 * ((v / 0x1_0000) % 0x100)
        + 0x100_0000 * ((v / 0x100_0000) % 0x100)) by (nonlinear_arith);
}

} // verus!
