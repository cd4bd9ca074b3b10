use crate::colour::{pack, packed, BLACK, WHITE};
use crate::escape::EscapeResult;
use vstd::prelude::*;

verus! {

/// The sixteen hand-tuned colours of the cycling policy, in order.
pub const COLOURS: [u32; 16] = [
    0x0F_1E_42,  // brown 3
    0x1A_07_19,  // dark violet
    0x2F_01_09,  // darkest blue
    0x49_04_04,  // blue 5
    0x64_07_00,  // blue 4
    0x8A_2C_0C,  // blue 3
    0xB1_52_18,  // blue 2
    0xD1_7D_39,  // blue 1
    0xE5_B5_86,  // blue 0
    0xF8_EC_D3,  // lightest blue
    0xBF_E9_F1,  // lightest yellow
    0x5F_C9_F8,  // light yellow
    0x00_AA_FF,  // dirty yellow
    0x00_80_CC,  // brown 0
    0x00_57_99,  // brown 1
    0x03_34_6A,  // brown 2
];

/// The cycling policy: the table entry at `k` modulo 16.
pub open spec fn modulo_cycle(k: nat) -> u32 {
    COLOURS[(k % 16) as int]
}

/// Colour of an escape at step `iterations` under the cycling policy, which
/// pays no regard to the cap.
pub fn wiki_modulo(iterations: usize) -> (colour: u32)
    ensures
        colour == modulo_cycle(iterations as nat),
        colour <= WHITE,
{
    COLOURS[iterations % 16]
}

/// The cycling policy repeats every sixteen steps.
pub proof fn modulo_cycle_is_periodic(k: nat)
    ensures
        modulo_cycle(k) == modulo_cycle(k + 16),
{
}

/// The linear policy: the whole 24-bit range, from `WHITE` at step 0 down
/// towards `BLACK` at the cap, in equal steps rounded down.
pub open spec fn linear_ramp(k: nat, cap: nat) -> u32
    recommends
        k <= cap,
        0 < cap,
{
    (WHITE - (k * WHITE) / (cap as int)) as u32
}

/// Colour of an escape at step `iterations` under the linear policy.
pub fn crazy(iterations: usize, cap: usize) -> (colour: u32)
    requires
        iterations < cap,
    ensures
        colour == linear_ramp(iterations as nat, cap as nat),
        colour <= WHITE,
{
    let k: u128 = iterations as u128;
    let n: u128 = cap as u128;
    let white: u128 = WHITE as u128;
    assert(k * white <= n * white) by (nonlinear_arith)
        requires
            k <= n,
    ;
    assert(n * white <= 0x1_0000_0000_0000_0000 * 0xFF_FF_FF) by (nonlinear_arith)
        requires
            n < 0x1_0000_0000_0000_0000,
            white == 0xFF_FF_FF,
    ;
    let fall: u128 = (k * white) / n;
    assert(fall <= white) by (nonlinear_arith)
        requires
            fall == (k * white) / (n as int),
            k * white <= n * white,
            0 < n,
    ;
    (white - fall) as u32
}

/// The grey whose three channels have each fallen `fallen` below full
/// intensity: white for 0, black for 255.
pub open spec fn spec_grey(fallen: u8) -> u32 {
    packed((255 - fallen) as u8, (255 - fallen) as u8, (255 - fallen) as u8)
}

/// The grey that lies `fallen` below white. The scaled grey policies end
/// here, each with its own way of turning an escape index into `fallen`.
pub fn grey(fallen: u8) -> (colour: u32)
    ensures
        colour == spec_grey(fallen),
        colour <= WHITE,
{
    let level: u8 = 255 - fallen;
    pack(level, level, level)
}

/// A grey is the darker the further it has fallen, from white to black.
pub proof fn grey_darkens_as_it_falls(less: u8, more: u8)
    requires
        less <= more,
    ensures
        spec_grey(more) <= spec_grey(less),
        spec_grey(0) == WHITE,
        spec_grey(255) == BLACK,
{
}

/// How far a channel has fallen from full intensity once `part` of `whole`
/// is covered: 255 times the ratio, rounded down.
pub open spec fn fall(part: nat, whole: nat) -> nat
    recommends
        part <= whole,
        0 < whole,
{
    (255 * part) / whole
}

/// The dual-hue policy. With `s = k / cap` the position of the step in the
/// range: up to and including the midpoint the high byte is full while the
/// other two fall from full to nothing as `2s` goes from 0 to 1; past the
/// midpoint the low byte is full while the other two start full again and
/// fall with `2s - 1`. The midpoint itself belongs to the lower half.
pub open spec fn dual_hue(k: nat, cap: nat) -> u32
    recommends
        k < cap,
{
    if 2 * k <= cap {
        let level = (255 - fall(2 * k, cap)) as u8;
        packed(255, level, level)
    } else {
        let level = (255 - fall((2 * k - cap) as nat, cap)) as u8;
        packed(level, level, 255)
    }
}

/// `fall` stays within a channel.
pub proof fn fall_is_a_level(part: nat, whole: nat)
    requires
        part <= whole,
        0 < whole,
    ensures
        fall(part, whole) <= 255,
        part < whole ==> fall(part, whole) < 255,
        part == whole ==> fall(part, whole) == 255,
{
    assert(255 * part <= 255 * whole) by (nonlinear_arith)
        requires
            part <= whole,
    ;
    assert((255 * part) / whole <= 255) by (nonlinear_arith)
        requires
            255 * part <= 255 * whole,
            0 < whole,
    ;
    if part < whole {
        assert((255 * part) / whole < 255) by (nonlinear_arith)
            requires
                255 * part < 255 * whole,
                0 < whole,
        ;
    } else {
        assert((255 * whole) / whole == 255) by (nonlinear_arith)
            requires
                0 < whole,
        ;
    }
}

fn fallen(part: usize, whole: usize) -> (level: u8)
    requires
        part <= whole,
        0 < whole,
    ensures
        level == 255 - fall(part as nat, whole as nat),
{
    proof {
        fall_is_a_level(part as nat, whole as nat);
    }
    let p: u128 = part as u128;
    let w: u128 = whole as u128;
    let f: u128 = (255 * p) / w;
    (255 - f) as u8
}

/// Colour of an escape at step `iterations` under the dual-hue policy,
/// computed in exact integer arithmetic.
pub fn edward(iterations: usize, cap: usize) -> (colour: u32)
    requires
        iterations < cap,
    ensures
        colour == dual_hue(iterations as nat, cap as nat),
        colour <= WHITE,
{
    if iterations <= cap - iterations {
        let level = fallen(2 * iterations, cap);
        pack(255, level, level)
    } else {
        let over = iterations - (cap - iterations);
        let level = fallen(over, cap);
        pack(level, level, 255)
    }
}

/// `colour` is what `palette` may give for `result` under `cap`: black for a
/// point that stayed bounded, whatever the palette, and for an escape the
/// colour that the palette returns for its index.
pub open spec fn shaded<P: Fn(usize, usize) -> u32>(
    colour: u32,
    result: EscapeResult,
    cap: usize,
    palette: P,
) -> bool {
    match result.spec_capped(cap) {
        EscapeResult::Bounded => colour == BLACK,
        EscapeResult::Escaped(k) => call_ensures(palette, (k, cap), colour),
    }
}

/// Turns the result for one point into its colour. The palette is asked only
/// about escapes, with the index and the cap; a bounded point is black under
/// every palette.
pub fn shade<P: Fn(usize, usize) -> u32>(result: EscapeResult, cap: usize, palette: &P) -> (colour:
    u32)
    requires
        forall|k: usize| k < cap ==> call_requires(*palette, (k, cap)),
    ensures
        shaded(colour, result, cap, *palette),
        result is Bounded ==> colour == BLACK,
        cap == 0 ==> colour == BLACK,
{
    match result.capped(cap) {
        EscapeResult::Bounded => BLACK,
        EscapeResult::Escaped(k) => palette(k, cap),
    }
}

} // verus!
