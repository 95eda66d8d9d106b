use core_arch::x86::__m512;
use core_arch::x86::avx512dq::{_mm512_and_ps, _mm512_andnot_ps, _mm512_xor_ps};

fn lanes_a() -> __m512 {
    __m512 {
        bits: [
            0x0000_0000,
            0xffff_ffff,
            0x3f80_0000,
            0x7fc0_0001,
            0xff80_0000,
            0x0123_4567,
            0x8000_0000,
            0x7f7f_ffff,
            0x89ab_cdef,
            0x0000_0001,
            0x5555_5555,
            0xaaaa_aaaa,
            0x00ff_00ff,
            0xff00_ff00,
            0x1234_5678,
            0x7fff_ffff,
        ],
    }
}

fn lanes_b() -> __m512 {
    __m512 {
        bits: [
            0xdead_beef,
            0x0f0f_0f0f,
            0x4000_0000,
            0x7f80_0002,
            0xffff_0000,
            0xfedc_ba98,
            0xffff_ffff,
            0xffff_ffff,
            0x7654_3210,
            0x0000_0003,
            0x3333_3333,
            0xcccc_cccc,
            0x0f0f_0f0f,
            0xf0f0_f0f0,
            0x8765_4321,
            0x8000_0000,
        ],
    }
}

fn from_f32(lanes: [f32; 16]) -> __m512 {
    __m512 { bits: lanes.map(f32::to_bits) }
}

#[test]
fn and_ps_exact_lanes() {
    let r = _mm512_and_ps(lanes_a(), lanes_b());
    assert_eq!(
        r.bits,
        [
            0x0000_0000,
            0x0f0f_0f0f,
            0x0000_0000,
            0x7f80_0000,
            0xff80_0000,
            0x0000_0000,
            0x8000_0000,
            0x7f7f_ffff,
            0x0000_0000,
            0x0000_0001,
            0x1111_1111,
            0x8888_8888,
            0x000f_000f,
            0xf000_f000,
            0x0224_4220,
            0x0000_0000,
        ]
    );
}

#[test]
fn xor_ps_exact_lanes() {
    let r = _mm512_xor_ps(lanes_a(), lanes_b());
    assert_eq!(
        r.bits,
        [
            0xdead_beef,
            0xf0f0_f0f0,
            0x7f80_0000,
            0x0040_0003,
            0x007f_0000,
            0xffff_ffff,
            0x7fff_ffff,
            0x8080_0000,
            0xffff_ffff,
            0x0000_0002,
            0x6666_6666,
            0x6666_6666,
            0x0ff0_0ff0,
            0x0ff0_0ff0,
            0x9551_1559,
            0xffff_ffff,
        ]
    );
}

#[test]
fn andnot_ps_exact_lanes() {
    let r = _mm512_andnot_ps(lanes_a(), lanes_b());
    assert_eq!(
        r.bits,
        [
            0xdead_beef,
            0x0000_0000,
            0x4000_0000,
            0x0000_0002,
            0x007f_0000,
            0xfedc_ba98,
            0x7fff_ffff,
            0x8080_0000,
            0x7654_3210,
            0x0000_0002,
            0x2222_2222,
            0x4444_4444,
            0x0f00_0f00,
            0x00f0_00f0,
            0x8541_0101,
            0x8000_0000,
        ]
    );
}

#[test]
fn andnot_ps_is_not_a_and_b() {
    let a = lanes_a();
    let b = lanes_b();
    let r = _mm512_andnot_ps(a, b);
    for i in 0..16 {
        assert_eq!(r.bits[i], !a.bits[i] & b.bits[i]);
    }
}

#[test]
fn andnot_ps_complements_sign_and_top_exponent_bit() {
    // These are the two bits that the largest finite float leaves clear.
    let a = __m512::splat(0);
    let b = __m512::splat(0x8080_0000);
    assert_eq!(_mm512_andnot_ps(a, b), b);
}

#[test]
fn andnot_ps_of_zero_and_ones_is_ones() {
    let r = _mm512_andnot_ps(__m512::splat(0), __m512::splat(u32::MAX));
    assert_eq!(r.bits, [u32::MAX; 16]);
}

#[test]
fn xor_ps_twice_gives_first_operand_back() {
    let a = lanes_a();
    let b = lanes_b();
    assert_eq!(_mm512_xor_ps(_mm512_xor_ps(a, b), b), a);
    assert_eq!(_mm512_xor_ps(_mm512_xor_ps(b, a), a), b);
}

#[test]
fn and_ps_is_idempotent() {
    assert_eq!(_mm512_and_ps(lanes_a(), lanes_a()), lanes_a());
    assert_eq!(_mm512_and_ps(lanes_b(), lanes_b()), lanes_b());
}

#[test]
fn and_ps_is_commutative() {
    assert_eq!(_mm512_and_ps(lanes_a(), lanes_b()), _mm512_and_ps(lanes_b(), lanes_a()));
}

#[test]
fn and_ps_keeps_nan_payload() {
    let quiet = f32::from_bits(0x7fc0_beef);
    let signalling = f32::from_bits(0x7f80_0001);
    assert!(quiet.is_nan() && signalling.is_nan());
    let mut lanes = [1.5f32; 16];
    lanes[0] = quiet;
    lanes[15] = signalling;
    let a = from_f32(lanes);
    let r = _mm512_and_ps(a, __m512::splat(u32::MAX));
    assert_eq!(r.bits[0], 0x7fc0_beef);
    assert_eq!(r.bits[15], 0x7f80_0001);
    assert_eq!(r, a);
}

#[test]
fn xor_ps_with_sign_bit_negates() {
    let mut lanes = [0.0f32; 16];
    let mut negated = [0.0f32; 16];
    for i in 0..16 {
        lanes[i] = i as f32 - 7.5;
        negated[i] = 7.5 - i as f32;
    }
    let r = _mm512_xor_ps(from_f32(lanes), __m512::splat(0x8000_0000));
    assert_eq!(r, from_f32(negated));
}

#[test]
fn splat_ps_fills_every_lane() {
    assert_eq!(__m512::splat(0x3f80_0000), from_f32([1.0; 16]));
}

#[test]
fn ps_vector_is_sixteen_lanes_of_32_bits() {
    assert_eq!(_mm512_and_ps(lanes_a(), lanes_b()).bits.len(), 16);
    assert_eq!(_mm512_xor_ps(lanes_a(), lanes_b()).bits.len(), 16);
    assert_eq!(_mm512_andnot_ps(lanes_a(), lanes_b()).bits.len(), 16);
    assert_eq!(16 * u32::BITS, 512);
    assert_eq!(std::mem::size_of::<__m512>(), 64);
}
