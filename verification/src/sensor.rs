//! The ZSC31014 load-cell sensor on the I2C bus: its address, its command
//! words, and the decoding of the four-byte measurement it answers a read
//! with (two status bits, a 14-bit bridge value, then temperature bits).

use vstd::prelude::*;
use crate::bytes::{be_bytes_spec, be_u16_spec, lemma_split_join, u16_to_u8_array, u8_array_to_u16};
use crate::bridge::{
    BridgeConfig,
    unpack_spec,
    pack_spec,
    lemma_unpack_then_pack,
    lemma_pack_then_unpack,
};

verus! {

/// I2C address of the sensor.
pub const SET_DEV_ADDR: u8 = 0x28;

/// Mask of the two status bits once shifted down.
pub const STATUS_BIT_MASK: u8 = 0x03;

/// Mask of the 14-bit bridge reading.
pub const BRIDGE_RES: u16 = 0x3FFF;

/// Command that puts the sensor into command mode.
pub const CMD_MODE_START: u8 = 0xA0;

/// Command that ends command mode and starts normal operation.
pub const CMD_MODE_STOP: u8 = 0x80;

/// EEPROM word that holds the bridge configuration.
pub const EEPROM_BRIDGE_CONFIG: u8 = 0x0F;

/// Bit that turns an EEPROM read command into a write command.
pub const EEPROM_WRITE_CMD: u8 = 0x40;

/// The big-endian 32-bit value of four bytes.
pub open spec fn be_word_spec(b0: u8, b1: u8, b2: u8, b3: u8) -> u32 {
    (b0 * 0x100_0000 + b1 * 0x1_0000 + b2 * 0x100 + b3) as u32
}

/// The two's complement reading of a 16-bit pattern.
pub open spec fn signed16(v: int) -> int {
    if v < 0x8000 {
        v
    } else {
        v - 0x1_0000
    }
}

/// Status bits of a raw measurement word: its top two bits.
pub open spec fn status_of(raw: u32) -> u8 {
    (raw / 0x4000_0000) as u8
}

/// Bridge value of a raw measurement word: bits 16 to 29.
pub open spec fn bridge_of(raw: u32) -> u16 {
    ((raw / 0x1_0000) % 0x4000) as u16
}

/// The sixteen bits of a raw measurement word taken as temperature: bits 5 to 20.
pub open spec fn temperature_bits_of(raw: u32) -> u16 {
    ((raw / 32) % 0x1_0000) as u16
}

/// Joins the four bytes the sensor answers a read with, first byte highest.
pub fn assemble_raw(rx_buf: [u8; 4]) -> (raw: u32)
    ensures
        raw == be_word_spec(rx_buf[0], rx_buf[1], rx_buf[2], rx_buf[3]),
        raw == rx_buf[0] * 0x100_0000 + rx_buf[1] * 0x1_0000 + rx_buf[2] * 0x100 + rx_buf[3],
{
    let b0 = rx_buf[0];
    let b1 = rx_buf[1];
    let b2 = rx_buf[2];
    let b3 = rx_buf[3];
    let tmp = ((b0 as u32) << 24) | ((b1 as u32) << 16) | ((b2 as u32) << 8) | (b3 as u32);
    assert(tmp == b0 * 0x100_0000 + b1 * 0x1_0000 + b2 * 0x100 + b3) by (bit_vector)
        requires
            tmp == ((b0 as u32) << 24) | ((b1 as u32) << 16) | ((b2 as u32) << 8) | (b3 as u32),
    ;
    tmp
}

/// Splits a raw measurement word into status, bridge value and temperature.
pub fn decode_raw(raw_data: u32) -> (data: (u8, u16, i16))
    ensures
        data.0 == status_of(raw_data),
        data.0 < 4,
        data.1 == bridge_of(raw_data),
        data.1 < 0x4000,
        data.2 == signed16(temperature_bits_of(raw_data) as int),
        data.2 as u16 == temperature_bits_of(raw_data),
        data.0 == raw_data >> 30,
        data.1 == (raw_data >> 16) & 0x3FFF,
        data.2 == (raw_data >> 5) as i16,
{
    let status_data = ((raw_data >> 30) & (STATUS_BIT_MASK as u32)) as u8;
    let bridge_data = ((raw_data >> 16) & (BRIDGE_RES as u32)) as u16;
    let temperature_data = (raw_data >> 5) as i16;
    let x = raw_data;
    assert(((x >> 30) & 3) as u8 == (x / 0x4000_0000) as u8 && x / 0x4000_0000 < 4) by (bit_vector);
    assert(((x >> 16) & 0x3FFF) as u16 == ((x / 0x1_0000) % 0x4000) as u16) by (bit_vector);
    assert((x >> 5) as i16 as u16 == ((x / 32) % 0x1_0000) as u16) by (bit_vector);
    assert(((x / 32) % 0x1_0000) < 0x8000 ==> (x >> 5) as i16 == (x / 32) % 0x1_0000) by (bit_vector);
    assert(((x / 32) % 0x1_0000) >= 0x8000 ==> (x >> 5) as i16 == (x / 32) % 0x1_0000 - 0x1_0000)
        by (bit_vector);
    proof {
        lemma_raw_fields_bit_ranges(raw_data);
    }
    (status_data, bridge_data, temperature_data)
}

/// The five bytes transmitted for one measurement: status, then the bridge
/// value and the temperature bits, each high byte first.
pub open spec fn sample_payload_spec(raw: u32) -> Seq<u8> {
    seq![status_of(raw)] + be_bytes_spec(bridge_of(raw)) + be_bytes_spec(temperature_bits_of(raw))
}

/// Builds the CAN payload for the measurement the sensor answered with.
pub fn sample_payload(rx_buf: [u8; 4]) -> (payload: [u8; 5])
    ensures
        payload@ == sample_payload_spec(
            be_word_spec(rx_buf[0], rx_buf[1], rx_buf[2], rx_buf[3]),
        ),
        payload[0] == rx_buf[0] / 64,
        payload[1] == rx_buf[0] % 64,
        payload[2] == rx_buf[1],
        payload[3] == (rx_buf[1] % 32) * 8 + rx_buf[2] / 32,
        payload[4] == (rx_buf[2] % 32) * 8 + rx_buf[3] / 32,
{
    let raw = assemble_raw(rx_buf);
    let (status_data, bridge_data, temperature_data) = decode_raw(raw);
    let bridge_u8a = u16_to_u8_array(bridge_data);
    let temperature_u8a = u16_to_u8_array(temperature_data as u16);
    let payload = [
        status_data,
        bridge_u8a[0],
        bridge_u8a[1],
        temperature_u8a[0],
        temperature_u8a[1],
    ];
    let ghost b0 = rx_buf[0];
    let ghost b1 = rx_buf[1];
    let ghost b2 = rx_buf[2];
    let ghost b3 = rx_buf[3];
    assert(raw / 0x4000_0000 == b0 / 64 && ((raw / 0x1_0000) % 0x4000) / 256 == b0 % 64 && ((raw
        / 0x1_0000) % 0x4000) % 256 == b1) by (bit_vector)
        requires
            raw == b0 * 0x100_0000 + b1 * 0x1_0000 + b2 * 0x100 + b3,
    ;
    assert(payload@ =~= sample_payload_spec(raw));
    proof {
        lemma_sample_payload_bytes(b0, b1, b2, b3);
    }
    payload
}

/// Preamp gain code for a gain of 192.
pub const PREAMP_GAIN_192X: u8 = 0b111;

/// The configuration word in the sensor's answer to a read of the bridge
/// configuration: the second and third bytes, high byte first.
pub open spec fn read_config_word(read_buffer: Seq<u8>) -> u16 {
    be_u16_spec(read_buffer[1], read_buffer[2])
}

/// The configuration word written back: the one read, with the preamp gain
/// set to 192.
pub open spec fn updated_config_word(read_buffer: Seq<u8>) -> u16 {
    pack_spec(BridgeConfig { preamp_gain: PREAMP_GAIN_192X, ..unpack_spec(read_config_word(read_buffer)) })
}

/// The EEPROM write command that stores the updated configuration word.
pub open spec fn config_update_frame_spec(read_buffer: Seq<u8>) -> Seq<u8> {
    seq![EEPROM_BRIDGE_CONFIG | EEPROM_WRITE_CMD] + be_bytes_spec(updated_config_word(read_buffer))
}

/// From the sensor's answer to a bridge configuration read, builds the EEPROM
/// write command that stores the same configuration with a preamp gain of 192.
pub fn bridge_config_update(read_buffer: [u8; 3]) -> (write_buffer: [u8; 3])
    ensures
        write_buffer@ == config_update_frame_spec(read_buffer@),
        write_buffer[0] == 0x4F,
        unpack_spec(be_u16_spec(write_buffer[1], write_buffer[2])) == (BridgeConfig {
            preamp_gain: PREAMP_GAIN_192X,
            ..unpack_spec(read_config_word(read_buffer@))
        }),
        be_u16_spec(write_buffer[1], write_buffer[2]) == read_config_word(read_buffer@) - 16 * ((
        read_config_word(read_buffer@) / 16) % 8) + 0x70,
        write_buffer[1] * 256 + write_buffer[2] == (read_buffer[1] * 256 + read_buffer[2]) - 16 * (((
        read_buffer[1] * 256 + read_buffer[2]) / 16) % 8) + 0x70,
{
    let mut bridge_config = BridgeConfig::unpack_bridge_config(
        u8_array_to_u16([read_buffer[1], read_buffer[2]]),
    );
    bridge_config.preamp_gain = PREAMP_GAIN_192X;
    let bridge_update = bridge_config.pack_bridge_config();
    let halves = u16_to_u8_array(bridge_update);
    let write_buffer = [EEPROM_BRIDGE_CONFIG | EEPROM_WRITE_CMD, halves[0], halves[1]];
    proof {
        let old_word = read_config_word(read_buffer@);
        lemma_unpack_then_pack(old_word);
        lemma_pack_then_unpack(bridge_config);
        lemma_split_join(bridge_update);
        assert(EEPROM_BRIDGE_CONFIG | EEPROM_WRITE_CMD == 0x4F) by (bit_vector);
        assert(write_buffer@ =~= config_update_frame_spec(read_buffer@));
        lemma_config_update_frame(read_buffer@);
    }
    write_buffer
}


/// The four bytes the sensor answers a read with come back out of the raw
/// word at their places, the first byte highest.
pub proof fn lemma_raw_word_bytes(b0: u8, b1: u8, b2: u8, b3: u8)
    ensures
        be_word_spec(b0, b1, b2, b3) >> 24 == b0,
        (be_word_spec(b0, b1, b2, b3) >> 16) & 0xFF == b1,
        (be_word_spec(b0, b1, b2, b3) >> 8) & 0xFF == b2,
        be_word_spec(b0, b1, b2, b3) & 0xFF == b3,
{
    let raw = be_word_spec(b0, b1, b2, b3);
    assert(raw == b0 * 0x100_0000 + b1 * 0x1_0000 + b2 * 0x100 + b3);
    assert(raw >> 24 == b0 && (raw >> 16) & 0xFF == b1 && (raw >> 8) & 0xFF == b2 && raw & 0xFF
        == b3) by (bit_vector)
        requires
            raw == b0 * 0x100_0000 + b1 * 0x1_0000 + b2 * 0x100 + b3,
    ;
}

/// The fields of a raw measurement word are its bit ranges: status bits
/// 30-31, bridge value bits 16-29, temperature bits 5-20.
pub proof fn lemma_raw_fields_bit_ranges(raw: u32)
    ensures
        status_of(raw) == raw >> 30,
        bridge_of(raw) == (raw >> 16) & 0x3FFF,
        temperature_bits_of(raw) == (raw >> 5) & 0xFFFF,
        signed16(temperature_bits_of(raw) as int) == (raw >> 5) as i16,
{
    assert((raw / 0x4000_0000) as u8 == raw >> 30 && ((raw / 0x1_0000) % 0x4000) as u16 == (raw
        >> 16) & 0x3FFF && ((raw / 32) % 0x1_0000) as u16 == (raw >> 5) & 0xFFFF) by (bit_vector);
    assert(((raw / 32) % 0x1_0000) < 0x8000 ==> (raw >> 5) as i16 == (raw / 32) % 0x1_0000)
        by (bit_vector);
    assert(((raw / 32) % 0x1_0000) >= 0x8000 ==> (raw >> 5) as i16 == (raw / 32) % 0x1_0000
        - 0x1_0000) by (bit_vector);
}

/// The payload sent for a measurement, byte by byte from the four bytes the
/// sensor answered with: the status (top two bits of the first byte), the
/// bridge value (the rest of the first byte, then the second byte), and the
/// sixteen temperature bits (the low five bits of the second byte, the third
/// byte, and the top three bits of the fourth byte), high byte first.
pub proof fn lemma_sample_payload_bytes(b0: u8, b1: u8, b2: u8, b3: u8)
    ensures
        sample_payload_spec(be_word_spec(b0, b1, b2, b3)) == seq![
            b0 / 64,
            b0 % 64,
            b1,
            ((b1 % 32) * 8 + b2 / 32) as u8,
            ((b2 % 32) * 8 + b3 / 32) as u8,
        ],
{
    let raw = be_word_spec(b0, b1, b2, b3);
    assert(raw == b0 * 0x100_0000 + b1 * 0x1_0000 + b2 * 0x100 + b3);
    assert(raw / 0x4000_0000 == b0 / 64 && ((raw / 0x1_0000) % 0x4000) / 256 == b0 % 64 && ((raw
        / 0x1_0000) % 0x4000) % 256 == b1 && ((raw / 32) % 0x1_0000) / 256 == (b1 % 32) * 8 + b2
        / 32 && ((raw / 32) % 0x1_0000) % 256 == (b2 % 32) * 8 + b3 / 32) by (bit_vector)
        requires
            raw == b0 * 0x100_0000 + b1 * 0x1_0000 + b2 * 0x100 + b3,
    ;
    assert(sample_payload_spec(raw) =~= seq![
        b0 / 64,
        b0 % 64,
        b1,
        ((b1 % 32) * 8 + b2 / 32) as u8,
        ((b2 % 32) * 8 + b3 / 32) as u8,
    ]);
}

/// The EEPROM write built from a configuration read: the write command 0x4F,
/// then the word read (bytes 1 and 2, high byte first) with its gain bits 4-6
/// set to 0b111 and every other bit kept.
#[verifier::rlimit(40)]
pub proof fn lemma_config_update_frame(read_buffer: Seq<u8>)
    requires
        read_buffer.len() == 3,
    ensures
        config_update_frame_spec(read_buffer).len() == 3,
        config_update_frame_spec(read_buffer)[0] == 0x4F,
        ({
            let old_word = read_buffer[1] * 256 + read_buffer[2];
            let frame = config_update_frame_spec(read_buffer);
            let new_word = frame[1] * 256 + frame[2];
            &&& new_word == old_word - 16 * ((old_word / 16) % 8) + 0x70
            &&& (new_word / 16) % 8 == 7
            &&& new_word % 16 == old_word % 16
            &&& new_word / 128 == old_word / 128
        }),
{
    let old_word = read_config_word(read_buffer);
    assert(old_word == read_buffer[1] * 256 + read_buffer[2]);
    let u = unpack_spec(old_word);
    let c = BridgeConfig { preamp_gain: PREAMP_GAIN_192X, ..u };
    lemma_unpack_then_pack(old_word);
    let new_word = pack_spec(c);
    assert(u.preamp_gain % 8 == (old_word / 16) % 8);
    assert(new_word == old_word - 16 * ((old_word / 16) % 8) + 0x70);
    lemma_pack_then_unpack(c);
    assert((new_word / 16) % 8 == 7);
    assert(new_word % 16 == old_word % 16);
    assert(new_word / 128 == old_word / 128);
    lemma_split_join(new_word);
    assert(EEPROM_BRIDGE_CONFIG | EEPROM_WRITE_CMD == 0x4F) by (bit_vector);
    let frame = config_update_frame_spec(read_buffer);
    assert(frame[1] * 256 + frame[2] == new_word);
}

} // verus!
