//! Payloads of the colour command, one encoding per colour mode.
use vstd::prelude::*;

use crate::output::Mode;

verus! {

/// Opcode of the custom-pattern command that the instant encoding uses.
pub const CUSTOM_PATTERN_MODE: u8 = 0x51;
/// Opcode of the direct colour command that the fade encoding uses.
pub const SET_COLOR_MODE: u8 = 0x31;
pub const LIST_TERMINATOR: u8 = 0x00;
pub const JUMP_MODE: u8 = 0x3B;
pub const PATTERN_TERMINATOR_1: u8 = 0xFF;
pub const PATTERN_TERMINATOR_2: u8 = 0x0F;
/// Step speed of the pattern: 0x01 is the fastest, 0x1F the slowest.
pub const PATTERN_SPEED: u8 = 0x01;
pub const COLOR_MODE: u8 = 0xF0;
/// Unused slots of the preset pattern list that the instant encoding fills.
pub const FILLER_SLOTS: usize = 15;
/// Length of an instant-mode payload, before the checksum.
pub const INSTANT_PAYLOAD_LEN: usize = 69;

/// `n` filler slots, each `00 01 02 03`.
pub open spec fn filler(n: nat) -> Seq<u8>
    decreases n,
{
    if n == 0 {
        Seq::empty()
    } else {
        filler((n - 1) as nat) + seq![0x00u8, 0x01u8, 0x02u8, 0x03u8]
    }
}

/// The tail of the instant payload: list end, speed, jump marker and the
/// two terminators.
pub open spec fn instant_tail() -> Seq<u8> {
    seq![LIST_TERMINATOR, PATTERN_SPEED, JUMP_MODE, PATTERN_TERMINATOR_1, PATTERN_TERMINATOR_2]
}

/// The instant-mode payload for a colour.
pub open spec fn instant_payload_of(rgb: Seq<u8>) -> Seq<u8> {
    seq![CUSTOM_PATTERN_MODE, rgb[0], rgb[1], rgb[2]] + filler(FILLER_SLOTS as nat) + instant_tail()
}

/// The fade-mode payload for a colour.
pub open spec fn fade_payload_of(rgb: Seq<u8>) -> Seq<u8> {
    seq![SET_COLOR_MODE, rgb[0], rgb[1], rgb[2], LIST_TERMINATOR, COLOR_MODE, PATTERN_TERMINATOR_2]
}

/// The colour payload in a given mode.
pub open spec fn color_payload_of(rgb: Seq<u8>, mode: Mode) -> Seq<u8> {
    match mode {
        Mode::INSTANT => instant_payload_of(rgb),
        Mode::FADE => fade_payload_of(rgb),
    }
}

proof fn filler_len(n: nat)
    ensures
        filler(n).len() == 4 * n,
    decreases n,
{
    if n > 0 {
        filler_len((n - 1) as nat);
    }
}

/// Instant-mode payload: a custom pattern of one step that holds the colour.
pub fn instant_payload(rgb: [u8; 3]) -> (r: Vec<u8>)
    ensures
        r@ == instant_payload_of(rgb@),
{
    let mut buf: Vec<u8> = Vec::new();
    buf.push(CUSTOM_PATTERN_MODE);
    buf.push(rgb[0]);
    buf.push(rgb[1]);
    buf.push(rgb[2]);
    let ghost head = buf@;
    assert(head + filler(0) =~= head);
    let mut k: usize = 0;
    while k < FILLER_SLOTS
        invariant
            k <= FILLER_SLOTS,
            head == seq![CUSTOM_PATTERN_MODE, rgb@[0], rgb@[1], rgb@[2]],
            buf@ == head + filler(k as nat),
        decreases FILLER_SLOTS - k,
    {
        buf.push(LIST_TERMINATOR);
        buf.push(0x01);
        buf.push(0x02);
        buf.push(0x03);
        assert(filler((k + 1) as nat) =~= filler(k as nat) + seq![0x00u8, 0x01u8, 0x02u8, 0x03u8]);
        assert(buf@ =~= head + filler((k + 1) as nat));
        k += 1;
    }
    let ghost body = buf@;
    buf.push(LIST_TERMINATOR);
    buf.push(PATTERN_SPEED);
    buf.push(JUMP_MODE);
    buf.push(PATTERN_TERMINATOR_1);
    buf.push(PATTERN_TERMINATOR_2);
    assert(buf@ =~= body + instant_tail());
    buf
}

/// Fade-mode payload: the direct colour command.
pub fn fade_payload(rgb: [u8; 3]) -> (r: Vec<u8>)
    ensures
        r@ == fade_payload_of(rgb@),
{
    let r = vec![SET_COLOR_MODE, rgb[0], rgb[1], rgb[2], LIST_TERMINATOR, COLOR_MODE, PATTERN_TERMINATOR_2];
    assert(r@ =~= fade_payload_of(rgb@));
    r
}

/// The colour payload for the given mode.
pub fn color_payload(rgb: [u8; 3], mode: Mode) -> (r: Vec<u8>)
    ensures
        r@ == color_payload_of(rgb@, mode),
{
    match mode {
        Mode::INSTANT => instant_payload(rgb),
        Mode::FADE => fade_payload(rgb),
    }
}

/// Every instant-mode payload is 69 bytes long, opens with `51 r g b` and
/// ends with `00 01 3B FF 0F`.
pub proof fn instant_payload_shape(rgb: Seq<u8>)
    requires
        rgb.len() == 3,
    ensures
        instant_payload_of(rgb).len() == INSTANT_PAYLOAD_LEN,
        instant_payload_of(rgb).subrange(0, 4) == seq![CUSTOM_PATTERN_MODE, rgb[0], rgb[1], rgb[2]],
        instant_payload_of(rgb).subrange(64, 69) == seq![0x00u8, 0x01u8, 0x3Bu8, 0xFFu8, 0x0Fu8],
{
    let head = seq![CUSTOM_PATTERN_MODE, rgb[0], rgb[1], rgb[2]];
    let body = filler(FILLER_SLOTS as nat);
    filler_len(FILLER_SLOTS as nat);
    assert(head.len() == 4);
    assert(body.len() == 60);
    assert(instant_tail().len() == 5);
    let p = instant_payload_of(rgb);
    assert(p == head + body + instant_tail());
    assert(p.len() == 69);
    assert(p.subrange(0, 4) =~= seq![CUSTOM_PATTERN_MODE, rgb[0], rgb[1], rgb[2]]);
    assert(p.subrange(64, 69) =~= seq![0x00u8, 0x01u8, 0x3Bu8, 0xFFu8, 0x0Fu8]);
}

/// Every fade-mode payload is exactly `31 r g b 00 F0 0F`.
pub proof fn fade_payload_shape(rgb: Seq<u8>)
    requires
        rgb.len() == 3,
    ensures
        fade_payload_of(rgb) == seq![0x31u8, rgb[0], rgb[1], rgb[2], 0x00u8, 0xF0u8, 0x0Fu8],
{
}

} // verus!
