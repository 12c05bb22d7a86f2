use embassy_daq::bridge::BridgeConfig;
use embassy_daq::sensor::{assemble_raw, bridge_config_update, decode_raw, sample_payload};

#[test]
fn raw_word_is_big_endian() {
    assert_eq!(assemble_raw([0x12, 0x34, 0x56, 0x78]), 0x1234_5678);
    assert_eq!(assemble_raw([0xFF, 0, 0, 0]), 0xFF00_0000);
    assert_eq!(assemble_raw([0, 0, 0, 0xFF]), 0x0000_00FF);
}

#[test]
fn raw_word_decodes_status_bridge_and_temperature() {
    assert_eq!(decode_raw(0x1234_5678), (0, 0x1234, -23885));
    assert_eq!(decode_raw(0xC102_0304), (3, 0x0102, 0x1018));
    assert_eq!(decode_raw(0xFFFF_FFFF), (3, 0x3FFF, -1));
    assert_eq!(decode_raw(0), (0, 0, 0));
    assert_eq!(decode_raw(0x4000_0000), (1, 0, 0));
    assert_eq!(decode_raw(0x0000_0020), (0, 0, 1));
}

#[test]
fn sample_payload_carries_status_bridge_and_temperature_bytes() {
    assert_eq!(sample_payload([0xC1, 0x02, 0x03, 0x04]), [0x03, 0x01, 0x02, 0x10, 0x18]);
    assert_eq!(sample_payload([0x12, 0x34, 0x56, 0x78]), [0x00, 0x12, 0x34, 0xA2, 0xB3]);
    assert_eq!(sample_payload([0, 0, 0, 0]), [0, 0, 0, 0, 0]);
}

#[test]
fn config_update_sets_gain_and_keeps_the_rest() {
    assert_eq!(bridge_config_update([0x00, 0x12, 0x34]), [0x4F, 0x12, 0x74]);
    assert_eq!(bridge_config_update([0xAA, 0xFF, 0xFF]), [0x4F, 0xFF, 0xFF]);
    assert_eq!(bridge_config_update([0x00, 0x00, 0x00]), [0x4F, 0x00, 0x70]);
    for w in (0u32..=0xFFFF).step_by(13) {
        let w = w as u16;
        let out = bridge_config_update([0x5A, (w >> 8) as u8, w as u8]);
        assert_eq!(out[0], 0x4F);
        let written = BridgeConfig::unpack_bridge_config(((out[1] as u16) << 8) | out[2] as u16);
        let read = BridgeConfig::unpack_bridge_config(w);
        assert_eq!(written, BridgeConfig { preamp_gain: 0b111, ..read });
    }
}
