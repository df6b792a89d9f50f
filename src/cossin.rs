use vstd::prelude::*;
use vstd::arithmetic::div_mod::{lemma_div_denominator, lemma_fundamental_div_mod_converse};

verus! {

/// log2 of the number of entries of the lookup table.
pub const COSSIN_DEPTH: u32 = 7;

/// Cosine and sine at the midpoints of the `1 << COSSIN_DEPTH` equal
/// sub-intervals of `[0, pi/4)`, one packed entry per sub-interval.
///
/// The upper 16 bits hold `round(sin * 0xffff)`. The lower 16 bits hold
/// `round((2 * cos - 1) * 0xffff - 1)`: since `1/2 < cos <= 1` on that
/// interval, this keeps one more bit of the cosine.
pub const COSSIN: [u32; 128] = [
    0x00c9fffd, 0x025bfff8, 0x03edffef, 0x057fffe0, 0x0711ffcc, 0x08a3ffb3,
    0x0a35ff96, 0x0bc7ff73, 0x0d58ff4c, 0x0eeaff1f, 0x107bfeee, 0x120dfeb8,
    0x139efe7d, 0x152efe3d, 0x16bffdf8, 0x184ffdae, 0x19e0fd5f, 0x1b70fd0b,
    0x1cfffcb2, 0x1e8ffc55, 0x201efbf2, 0x21acfb8b, 0x233bfb1f, 0x24c9faae,
    0x2657fa38, 0x27e4f9bd, 0x2971f93d, 0x2afef8b8, 0x2c8af82f, 0x2e16f7a1,
    0x2fa1f70d, 0x312cf675, 0x32b6f5d8, 0x3440f537, 0x35caf490, 0x3753f3e5,
    0x38dbf335, 0x3a63f280, 0x3beaf1c6, 0x3d71f107, 0x3ef7f044, 0x407cef7b,
    0x4201eeaf, 0x4385eddd, 0x4509ed06, 0x468cec2b, 0x480eeb4b, 0x498fea66,
    0x4b10e97d, 0x4c90e88f, 0x4e10e79c, 0x4f8ee6a4, 0x510ce5a8, 0x5289e4a7,
    0x5405e3a1, 0x5581e297, 0x56fbe188, 0x5875e075, 0x59eedf5c, 0x5b66de40,
    0x5cdddd1e, 0x5e53dbf8, 0x5fc9dacd, 0x613dd99e, 0x62b1d86a, 0x6423d732,
    0x6595d5f5, 0x6706d4b4, 0x6875d36e, 0x69e4d224, 0x6b51d0d5, 0x6cbecf81,
    0x6e29ce29, 0x6f94cccd, 0x70fdcb6c, 0x7266ca07, 0x73cdc89e, 0x7533c730,
    0x7698c5bd, 0x77fcc446, 0x795ec2cb, 0x7ac0c14c, 0x7c20bfc8, 0x7d7fbe40,
    0x7eddbcb4, 0x803abb23, 0x8195b98e, 0x82efb7f5, 0x8448b657, 0x85a0b4b6,
    0x86f6b310, 0x884bb166, 0x899fafb7, 0x8af1ae05, 0x8c42ac4e, 0x8d92aa94,
    0x8ee0a8d5, 0x902da712, 0x9179a54b, 0x92c3a380, 0x940ca1b1, 0x95539fde,
    0x96999e07, 0x97dd9c2b, 0x99209a4c, 0x9a629869, 0x9ba29682, 0x9ce19497,
    0x9e1e92a9, 0x9f5990b6, 0xa0938ebf, 0xa1cb8cc5, 0xa3028ac7, 0xa43788c5,
    0xa56b86bf, 0xa69d84b6, 0xa7ce82a8, 0xa8fd8097, 0xaa2a7e82, 0xab557c6a,
    0xac7f7a4e, 0xada8782e, 0xaece760b, 0xaff373e4, 0xb11671b9, 0xb2386f8b,
    0xb3586d5a, 0xb4766b24,
];

/// Bits of the folded phase below the table index: 16 + 1 bits for cos/sin
/// and 15 for the interpolation offset fill the `i32` range.
pub const ALIGN_MSB: u32 = 15;

/// `pi/4` in fixed point with 16 fractional bits, rounded down.
pub const PI4: i32 = 51471;

/// The octant (`0..8`) that a wrapped phase lies in: its top three bits.
pub open spec fn octant(phase: i32) -> int {
    (phase as u32) as int / 0x2000_0000
}

/// The phase folded into the first octant `[0, pi/4)`, in units of
/// `2^-32` of a period: the offset within the octant, mirrored in the odd
/// octants (one's complement).
pub open spec fn folded_phase(phase: i32) -> int {
    let p = (phase as u32) as int % 0x2000_0000;
    if octant(phase) % 2 == 1 {
        0x1fff_ffff - p
    } else {
        p
    }
}

/// The table entry for the sub-interval that the folded phase lies in.
pub open spec fn table_index(phase: i32) -> int {
    folded_phase(phase) / 0x40_0000
}

/// The folded phase relative to the midpoint of its sub-interval, in steps
/// of `2^7` (the sub-interval spans `2^22`), in `-0x4000..0x4000`.
pub open spec fn table_offset(phase: i32) -> int {
    (folded_phase(phase) / 128) % 0x8000 - 0x4000
}

/// First-octant cosine and sine (scaled by `2^31` less a little headroom)
/// interpolated linearly from a packed table entry and the offset from its
/// midpoint: `cos(a + d) = cos(a) - sin(a) * d`, `sin(a + d) = sin(a) +
/// cos(a) * d`, all divisions rounding down.
pub open spec fn interpolate(entry: u32, offset: int) -> (int, int) {
    let dphi = offset * PI4 / 0x1_0000;
    let cos = entry % 0x1_0000 + 0x1_0000;
    let sin = entry / 0x1_0000;
    (cos * 0x4000 - sin * dphi / 128, sin * 0x8000 + cos * dphi / 256)
}

/// The cosine and sine that `cossin` returns for a wrapped phase: the
/// first-octant values of the folded phase, swapped in the octants 1, 2, 5
/// and 6, with the cosine negated in the octants 2 to 5 and the sine
/// negated in the octants 4 to 7.
pub open spec fn cossin_spec(phase: i32) -> (int, int) {
    let (c, s) = interpolate(COSSIN[table_index(phase)], table_offset(phase));
    let o = octant(phase);
    let (c, s) = if o % 4 == 1 || o % 4 == 2 {
        (s, c)
    } else {
        (c, s)
    };
    (if 2 <= o <= 5 {
        -c
    } else {
        c
    }, if o >= 4 {
        -s
    } else {
        s
    })
}

/// The entry's parts leave room for the interpolation in an `i32`.
spec fn entry_bounded(e: u32) -> bool {
    &&& (e % 0x1_0000) * 0x4000 + (e / 0x1_0000) * 101 <= 0x3fff_ff00
    &&& (e / 0x1_0000) * 0x8000 + (e % 0x1_0000) * 51 <= 0x6000_0000
}

proof fn lemma_table_bounded()
    ensures
        forall|i: int| 0 <= i < 128 ==> entry_bounded(#[trigger] COSSIN[i]),
{
}

proof fn lemma_fold(u: u32)
    by (bit_vector)
    ensures
        (u & 0x2000_0000 != 0) == ((u / 0x2000_0000) % 2 == 1),
        ((!u) << 3u32) >> 10u32 == ((!u) % 0x2000_0000) / 128,
        (u << 3u32) >> 10u32 == (u % 0x2000_0000) / 128,
        (!u) % 0x2000_0000 + u % 0x2000_0000 == 0x1fff_ffff,
{
}

proof fn lemma_unfold(u: u32)
    by (bit_vector)
    ensures
        ((u ^ (u >> 1u32)) & 0x2000_0000 != 0) == ((u / 0x2000_0000) % 4 == 1 || (u / 0x2000_0000)
            % 4 == 2),
        ((u ^ (u >> 1u32)) & 0x4000_0000 != 0) == (2 <= u / 0x2000_0000 <= 5),
        ((u ^ (u >> 1u32)) & 0x8000_0000 != 0) == (u / 0x2000_0000 >= 4),
{
}

proof fn lemma_shr_is_floor(x: i32, q: i32, d: int)
    requires
        d > 0,
        q * d <= x < q * d + d,
    ensures
        q as int == x as int / d,
{
    lemma_fundamental_div_mod_converse(x as int, d, q as int, x - q * d);
}

/// `interpolate` for an entry of the table.
fn interpolate_entry(entry: u32, offset: i32) -> (r: (i32, i32))
    requires
        entry_bounded(entry),
        -0x4000 <= offset < 0x4000,
    ensures
        r.0 == interpolate(entry, offset as int).0,
        r.1 == interpolate(entry, offset as int).1,
        r.0 > -0x4000_0000,
        r.1 > -0x4000_0000,
{
    assert(-843_300_864 <= offset * PI4 <= 843_249_393) by (nonlinear_arith)
        requires
            -0x4000 <= offset < 0x4000,
            PI4 == 51471,
    ;
    // No rounding bias needed here since enough low bits are kept.
    let x = offset * PI4;
    let dphi = x >> 16u32;
    assert(dphi * 0x1_0000 <= x < dphi * 0x1_0000 + 0x1_0000) by (bit_vector)
        requires
            dphi == x >> 16u32,
    ;
    proof {
        lemma_shr_is_floor(x, dphi, 0x1_0000);
    }
    assert((entry & 0xffff) == entry % 0x1_0000 && (entry >> 16u32) == entry / 0x1_0000)
        by (bit_vector);
    // 1/2 < cos(0 <= x <= pi/4) <= 1: undo the shift of the cosine.
    let c: i32 = (entry & 0xffff) as i32 + 0x1_0000;
    let s: i32 = (entry >> 16u32) as i32;
    assert(-12868 * s <= s * dphi <= 12868 * s && -12868 * c <= c * dphi <= 12868 * c)
        by (nonlinear_arith)
        requires
            0 <= s < 0x1_0000,
            0 <= c < 0x2_0000,
            -12868 <= dphi <= 12868,
    ;
    let sd = s * dphi;
    let cd = c * dphi;
    let dcos = sd >> COSSIN_DEPTH;
    let dsin = cd >> (COSSIN_DEPTH + 1);
    assert(dcos * 128 <= sd < dcos * 128 + 128) by (bit_vector)
        requires
            dcos == sd >> 7u32,
    ;
    assert(dsin * 256 <= cd < dsin * 256 + 256) by (bit_vector)
        requires
            dsin == cd >> 8u32,
    ;
    proof {
        lemma_shr_is_floor(sd, dcos, 128);
        lemma_shr_is_floor(cd, dsin, 256);
    }
    (c * 0x4000 - dcos, s * 0x8000 + dsin)
}

/// Compute the cosine and sine of a wrapped phase.
///
/// `phase` is an angle with `i32::MIN` at `-pi` and `i32::MAX` just below
/// `pi`. The cosine and sine come back scaled by `2^31` less about
/// `0.85 * 2^15` (the table's amplitude); with the 7-bit table the error is
/// about `9e-6` at most and `4e-6` RMS in each component.
pub fn cossin(phase: i32) -> (r: (i32, i32))
    ensures
        r.0 == cossin_spec(phase).0,
        r.1 == cossin_spec(phase).1,
{
    let octant = #[verifier::truncate] (phase as u32);
    // Fold odd octants: phase = pi/4 - phase.
    let folded: u32 = if octant & 0x2000_0000 != 0 {
        !octant
    } else {
        octant
    };
    // Drop the octant bits: the angle in [0, pi/4), with the table index in
    // the upper bits and the interpolation offset below.
    let p: u32 = (folded << 3u32) >> (32 - COSSIN_DEPTH - ALIGN_MSB);
    proof {
        lemma_fold(octant);
        assert(p < 0x40_0000) by (bit_vector)
            requires
                p == (folded << 3u32) >> 10u32,
        ;
        assert(p >> 15u32 == p / 0x8000 && p & 0x7fff == p % 0x8000) by (bit_vector);
        lemma_div_denominator(folded_phase(phase), 128, 0x8000);
        lemma_table_bounded();
    }
    let lookup = COSSIN[(p >> ALIGN_MSB) as usize];
    // The table holds the values at the sub-interval midpoints: interpolate
    // relative to the midpoint.
    let offset: i32 = (p & 0x7fff) as i32 - 0x4000;
    let (mut cos, mut sin) = interpolate_entry(lookup, offset);
    // Unfold with the octant bits, Gray coded.
    let gray = octant ^ (octant >> 1u32);
    proof {
        lemma_unfold(octant);
    }
    if gray & 0x2000_0000 != 0 {
        let t = cos;
        cos = sin;
        sin = t;
    }
    if gray & 0x4000_0000 != 0 {
        cos = -cos;
    }
    if gray & 0x8000_0000 != 0 {
        sin = -sin;
    }
    (cos, sin)
}

proof fn lemma_quarter_bits(p: i32, w: i32)
    by (bit_vector)
    requires
        w == p + 0x4000_0000 || w == p + 0x4000_0000 - 0x1_0000_0000,
    ensures
        (w as u32) % 0x2000_0000 == (p as u32) % 0x2000_0000,
        (w as u32) / 0x2000_0000 == ((p as u32) / 0x2000_0000 + 2) % 8,
{
}

/// Adding a quarter period to the phase turns the result by exactly a
/// quarter: the new cosine is the old sine negated, the new sine the old
/// cosine.
pub proof fn lemma_quarter_turn(phase: i32)
    ensures
        cossin_spec(phase.wrapping_add(0x4000_0000)).0 == -cossin_spec(phase).1,
        cossin_spec(phase.wrapping_add(0x4000_0000)).1 == cossin_spec(phase).0,
{
    let w = phase.wrapping_add(0x4000_0000);
    lemma_quarter_bits(phase, w);
}

proof fn lemma_mirror_bits(p: i32, q: i32)
    by (bit_vector)
    requires
        0 <= p < 0x4000_0000,
        q == 0x3fff_ffff - p,
    ensures
        (q as u32) % 0x2000_0000 + (p as u32) % 0x2000_0000 == 0x1fff_ffff,
        (q as u32) / 0x2000_0000 + (p as u32) / 0x2000_0000 == 1,
{
}

/// In the first quadrant, mirroring the phase about `pi/4` exactly swaps
/// the cosine and the sine.
pub proof fn lemma_octant_mirror(phase: i32)
    requires
        0 <= phase < 0x4000_0000,
    ensures
        cossin_spec((0x3fff_ffff - phase) as i32).0 == cossin_spec(phase).1,
        cossin_spec((0x3fff_ffff - phase) as i32).1 == cossin_spec(phase).0,
{
    let q = (0x3fff_ffff - phase) as i32;
    lemma_mirror_bits(phase, q);
}

} // verus!
