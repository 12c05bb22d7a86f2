use embassy_daq::bridge::BridgeConfig;
use embassy_daq::bytes::{u16_to_u8_array, u8_array_to_u16};

#[test]
fn u16_splits_high_byte_first() {
    assert_eq!(u16_to_u8_array(0x1234), [0x12, 0x34]);
    assert_eq!(u16_to_u8_array(0x00FF), [0x00, 0xFF]);
    assert_eq!(u16_to_u8_array(0xFF00), [0xFF, 0x00]);
    assert_eq!(u16_to_u8_array(0), [0, 0]);
}

#[test]
fn u16_joins_high_byte_first() {
    assert_eq!(u8_array_to_u16([0xAB, 0xCD]), 0xABCD);
    assert_eq!(u8_array_to_u16([0x00, 0x01]), 0x0001);
    assert_eq!(u8_array_to_u16([0xFF, 0xFF]), 0xFFFF);
}

#[test]
fn u16_split_join_round_trip() {
    for v in (0u32..=0xFFFF).step_by(7) {
        let v = v as u16;
        assert_eq!(u8_array_to_u16(u16_to_u8_array(v)), v);
    }
    for hi in [0u8, 1, 0x7F, 0x80, 0xFF] {
        for lo in [0u8, 1, 0x7F, 0x80, 0xFF] {
            assert_eq!(u16_to_u8_array(u8_array_to_u16([hi, lo])), [hi, lo]);
        }
    }
}

#[test]
fn bridge_config_unpacks_each_field() {
    let c = BridgeConfig::unpack_bridge_config(0xA5C3);
    assert_eq!(c.a2d_offset, 3);
    assert_eq!(c.preamp_gain, 4);
    assert!(c.gain_polarity);
    assert!(c.long_int);
    assert!(!c.bsink);
    assert_eq!(c.preamp_mux, 1);
    assert!(!c.disable_nulling);
    assert_eq!(c.idt_reserved, 5);
}

#[test]
fn bridge_config_packs_each_field() {
    let c = BridgeConfig {
        a2d_offset: 3,
        preamp_gain: 4,
        gain_polarity: true,
        long_int: true,
        bsink: false,
        preamp_mux: 1,
        disable_nulling: false,
        idt_reserved: 5,
    };
    assert_eq!(c.pack_bridge_config(), 0xA5C3);
    let single_bits = [
        (BridgeConfig { gain_polarity: true, ..zero() }, 0x0080),
        (BridgeConfig { long_int: true, ..zero() }, 0x0100),
        (BridgeConfig { bsink: true, ..zero() }, 0x0200),
        (BridgeConfig { disable_nulling: true, ..zero() }, 0x1000),
        (BridgeConfig { preamp_mux: 3, ..zero() }, 0x0C00),
        (BridgeConfig { idt_reserved: 7, ..zero() }, 0xE000),
        (BridgeConfig { preamp_gain: 7, ..zero() }, 0x0070),
        (BridgeConfig { a2d_offset: 15, ..zero() }, 0x000F),
    ];
    for (c, w) in single_bits {
        assert_eq!(c.pack_bridge_config(), w);
    }
}

fn zero() -> BridgeConfig {
    BridgeConfig::unpack_bridge_config(0)
}

#[test]
fn bridge_config_pack_drops_bits_beyond_field_width() {
    let c = BridgeConfig {
        a2d_offset: 0xFF,
        preamp_gain: 0xFF,
        gain_polarity: false,
        long_int: false,
        bsink: false,
        preamp_mux: 0xFF,
        disable_nulling: false,
        idt_reserved: 0xFF,
    };
    assert_eq!(c.pack_bridge_config(), 0x000F | 0x0070 | 0x0C00 | 0xE000);
    let back = BridgeConfig::unpack_bridge_config(c.pack_bridge_config());
    assert_eq!(back.a2d_offset, 0x0F);
    assert_eq!(back.preamp_gain, 0x07);
    assert_eq!(back.preamp_mux, 0x03);
    assert_eq!(back.idt_reserved, 0x07);
}

#[test]
fn bridge_config_round_trips_every_word() {
    for w in 0u32..=0xFFFF {
        let w = w as u16;
        let c = BridgeConfig::unpack_bridge_config(w);
        assert_eq!(c.pack_bridge_config(), w);
        assert_eq!(BridgeConfig::unpack_bridge_config(c.pack_bridge_config()), c);
    }
}
