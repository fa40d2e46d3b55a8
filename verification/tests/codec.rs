use sandbox::color::decode;
use sandbox::color::encode;
use sandbox::color::u32_rgba_to_u32_abgr;
use sandbox::color::u32_rgba_to_u8_rgba;
use sandbox::color::u8_rgba_to_u32_rgba;
use sandbox::color::MatterWithColor;

#[test]
fn pack_u8_rgba_exact() {
    assert_eq!(u8_rgba_to_u32_rgba(0x12, 0x34, 0x56, 0x78), 0x12345678);
    assert_eq!(u8_rgba_to_u32_rgba(0, 0, 0, 0), 0);
    assert_eq!(u8_rgba_to_u32_rgba(255, 255, 255, 255), 0xFFFFFFFF);
}

#[test]
fn abgr_swaps_byte_order() {
    assert_eq!(u32_rgba_to_u32_abgr(0x12345678), 0x78563412);
    assert_eq!(u32_rgba_to_u32_abgr(0xc2b280ff), 0xff80b2c2);
    assert_eq!(u32_rgba_to_u32_abgr(0), 0);
}

#[test]
fn unpack_u32_rgba_exact() {
    assert_eq!(u32_rgba_to_u8_rgba(0x12345678), [0x12, 0x34, 0x56, 0x78]);
    assert_eq!(u32_rgba_to_u8_rgba(0xc2b280ff), [0xc2, 0xb2, 0x80, 0xff]);
}

#[test]
fn pack_then_unpack_is_identity() {
    let cases: [[u8; 4]; 4] = [
        [1, 2, 3, 4],
        [255, 0, 128, 7],
        [0, 0, 0, 0],
        [200, 100, 50, 25],
    ];
    for c in cases {
        assert_eq!(u32_rgba_to_u8_rgba(u8_rgba_to_u32_rgba(c[0], c[1], c[2], c[3])), c);
    }
}

#[test]
fn encode_decode_roundtrip_all_ids() {
    let colors: [[u8; 3]; 3] = [[0, 0, 0], [255, 255, 255], [0x12, 0xAB, 0x7F]];
    for id in 0..=255u8 {
        for color in colors {
            let (rid, rcolor) = decode(encode(id, color));
            assert_eq!(rid, id);
            assert_eq!(rcolor, color);
        }
    }
}

#[test]
fn encode_exact_value() {
    assert_eq!(encode(0x78, [0x12, 0x34, 0x56]), 0x12345678);
}

#[test]
fn decode_is_total() {
    let (id, color) = decode(0xFFFFFFFF);
    assert_eq!(id, 255);
    assert_eq!(color, [255, 255, 255]);
    let (id0, color0) = decode(0);
    assert_eq!(id0, 0);
    assert_eq!(color0, [0, 0, 0]);
}

#[test]
fn matter_with_color_packs_id_in_low_byte() {
    let m = MatterWithColor::new(3, [0xc2, 0xb2, 0x80, 0xff]);
    assert_eq!(m.value, 0xc2b28003);
    assert_eq!(m.matter_id(), 3);
}

#[test]
fn matter_with_color_truncates_id() {
    let m = MatterWithColor::new(0x1_02, [0, 0, 0, 0]);
    assert_eq!(m.matter_id(), 2);
}

#[test]
fn variated_color_zero_delta_keeps_channels() {
    // A noise word of 26 gives a zero channel offset: 26 % 52 - 26 == 0.
    assert_eq!(sandbox::draw::variated_color(0x11223300, 26), [0x11, 0x22, 0x33]);
}

#[test]
fn variated_color_clamps_to_byte_range() {
    // Noise 0 gives the most negative offset, noise 51 the most positive.
    assert_eq!(sandbox::draw::variated_color(0x00000000, 0), [0, 0, 0]);
    assert_eq!(sandbox::draw::variated_color(0xFFFFFF00, 51), [255, 255, 255]);
}

#[test]
fn variated_color_shifts_all_channels_alike() {
    let base = 0x40506000;
    let out = sandbox::draw::variated_color(base, 51);
    // 51 % 52 - 26 == +25 on every channel.
    assert_eq!(out, [0x40 + 25, 0x50 + 25, 0x60 + 25]);
}

#[test]
fn matter_with_color_from_word() {
    let m = MatterWithColor::from(0xAABBCC07);
    assert_eq!(m.value, 0xAABBCC07);
    assert_eq!(m.matter_id(), 7);
}
