//! The ZSC31014 bridge configuration register (EEPROM word 0x0F).
//!
//! Bit layout, least significant first: A2D offset (bits 0-3), preamp gain
//! (bits 4-6), gain polarity (bit 7), long integration (bit 8), bridge sink
//! (bit 9), preamp mux (bits 10-11), disable nulling (bit 12) and three bits
//! reserved by IDT (bits 13-15).

use vstd::prelude::*;

verus! {

/// The fields of the bridge configuration register.
#[derive(Clone, Copy, Debug, PartialEq, Eq, Structural)]
pub struct BridgeConfig {
    pub a2d_offset: u8,
    pub preamp_gain: u8,
    pub gain_polarity: bool,
    pub long_int: bool,
    pub bsink: bool,
    pub preamp_mux: u8,
    pub disable_nulling: bool,
    pub idt_reserved: u8,
}

/// 1 for a set flag, 0 for a clear one.
pub open spec fn bit(b: bool) -> int {
    if b { 1 } else { 0 }
}

/// The configuration held by the register word `word`.
pub open spec fn unpack_spec(word: u16) -> BridgeConfig {
    BridgeConfig {
        a2d_offset: (word % 16) as u8,
        preamp_gain: ((word / 16) % 8) as u8,
        gain_polarity: (word / 128) % 2 == 1,
        long_int: (word / 256) % 2 == 1,
        bsink: (word / 512) % 2 == 1,
        preamp_mux: ((word / 1024) % 4) as u8,
        disable_nulling: (word / 4096) % 2 == 1,
        idt_reserved: (word / 8192) as u8,
    }
}

/// The register word for `c`: each field reduced to its width and put at its bits.
pub open spec fn pack_spec(c: BridgeConfig) -> u16 {
    (c.a2d_offset % 16 + 16 * (c.preamp_gain % 8) + 128 * bit(c.gain_polarity) + 256 * bit(
        c.long_int,
    ) + 512 * bit(c.bsink) + 1024 * (c.preamp_mux % 4) + 4096 * bit(c.disable_nulling) + 8192 * (
    c.idt_reserved % 8)) as u16
}

impl BridgeConfig {
    /// Every field fits its width in the register.
    pub open spec fn wf(self) -> bool {
        &&& self.a2d_offset < 16
        &&& self.preamp_gain < 8
        &&& self.preamp_mux < 4
        &&& self.idt_reserved < 8
    }

    /// Reads the fields out of a register word.
    pub fn unpack_bridge_config(bridge_config: u16) -> (c: BridgeConfig)
        ensures
            c == unpack_spec(bridge_config),
            c.wf(),
    {
        let a2d_offset = (bridge_config & 0x000F) as u8;
        let preamp_gain = ((bridge_config >> 4) & 0x0007) as u8;
        let gain_polarity = ((bridge_config >> 7) & 0x0001) == 1;
        let long_int = ((bridge_config >> 8) & 0x0001) == 1;
        let bsink = ((bridge_config >> 9) & 0x0001) == 1;
        let preamp_mux = ((bridge_config >> 10) & 0x0003) as u8;
        let disable_nulling = ((bridge_config >> 12) & 0x0001) == 1;
        let idt_reserved = ((bridge_config >> 13) & 0x0007) as u8;
        let x = bridge_config;
        assert((x & 0x000F) as u8 == (x % 16) as u8) by (bit_vector);
        assert(((x >> 4) & 0x0007) as u8 == ((x / 16) % 8) as u8) by (bit_vector);
        assert((((x >> 7) & 0x0001) == 1) == ((x / 128) % 2 == 1)) by (bit_vector);
        assert((((x >> 8) & 0x0001) == 1) == ((x / 256) % 2 == 1)) by (bit_vector);
        assert((((x >> 9) & 0x0001) == 1) == ((x / 512) % 2 == 1)) by (bit_vector);
        assert(((x >> 10) & 0x0003) as u8 == ((x / 1024) % 4) as u8) by (bit_vector);
        assert((((x >> 12) & 0x0001) == 1) == ((x / 4096) % 2 == 1)) by (bit_vector);
        assert(((x >> 13) & 0x0007) as u8 == (x / 8192) as u8) by (bit_vector);
        BridgeConfig {
            a2d_offset,
            preamp_gain,
            gain_polarity,
            long_int,
            bsink,
            preamp_mux,
            disable_nulling,
            idt_reserved,
        }
    }

    /// Writes the fields into a register word; bits of a field beyond its
    /// width are dropped.
    pub fn pack_bridge_config(&self) -> (word: u16)
        ensures
            word == pack_spec(*self),
    {
        let a2d_offset = self.a2d_offset as u16;
        let preamp_gain = self.preamp_gain as u16;
        let gain_polarity = self.gain_polarity as u16;
        let long_int = self.long_int as u16;
        let bsink = self.bsink as u16;
        let preamp_mux = self.preamp_mux as u16;
        let disable_nulling = self.disable_nulling as u16;
        let idt_reserved = self.idt_reserved as u16;

        let mut bridge_config: u16 = 0;
        bridge_config |= a2d_offset & 0x000F;
        let ghost w1 = bridge_config;
        assert(w1 == a2d_offset % 16) by (bit_vector)
            requires
                w1 == 0u16 | (a2d_offset & 0x000F),
        ;
        bridge_config |= (preamp_gain << 4) & 0x0070;
        let ghost w2 = bridge_config;
        assert(w2 == w1 + 16 * (preamp_gain % 8)) by (bit_vector)
            requires
                w1 < 16,
                w2 == w1 | ((preamp_gain << 4) & 0x0070),
        ;
        bridge_config |= (gain_polarity << 7) & 0x0080;
        let ghost w3 = bridge_config;
        assert(w3 == w2 + 128 * gain_polarity) by (bit_vector)
            requires
                w2 < 128,
                gain_polarity <= 1,
                w3 == w2 | ((gain_polarity << 7) & 0x0080),
        ;
        bridge_config |= (long_int << 8) & 0x0100;
        let ghost w4 = bridge_config;
        assert(w4 == w3 + 256 * long_int) by (bit_vector)
            requires
                w3 < 256,
                long_int <= 1,
                w4 == w3 | ((long_int << 8) & 0x0100),
        ;
        bridge_config |= (bsink << 9) & 0x0200;
        let ghost w5 = bridge_config;
        assert(w5 == w4 + 512 * bsink) by (bit_vector)
            requires
                w4 < 512,
                bsink <= 1,
                w5 == w4 | ((bsink << 9) & 0x0200),
        ;
        bridge_config |= (preamp_mux << 10) & 0x0C00;
        let ghost w6 = bridge_config;
        assert(w6 == w5 + 1024 * (preamp_mux % 4)) by (bit_vector)
            requires
                w5 < 1024,
                w6 == w5 | ((preamp_mux << 10) & 0x0C00),
        ;
        bridge_config |= (disable_nulling << 12) & 0x1000;
        let ghost w7 = bridge_config;
        assert(w7 == w6 + 4096 * disable_nulling) by (bit_vector)
            requires
                w6 < 4096,
                disable_nulling <= 1,
                w7 == w6 | ((disable_nulling << 12) & 0x1000),
        ;
        bridge_config |= (idt_reserved << 13) & 0xE000;
        let ghost w8 = bridge_config;
        assert(w8 == w7 + 8192 * (idt_reserved % 8)) by (bit_vector)
            requires
                w7 < 8192,
                w8 == w7 | ((idt_reserved << 13) & 0xE000),
        ;
        bridge_config
    }
}

/// `c` with each field reduced to the bits the register holds for it.
pub open spec fn fit_fields(c: BridgeConfig) -> BridgeConfig {
    BridgeConfig {
        a2d_offset: c.a2d_offset % 16,
        preamp_gain: c.preamp_gain % 8,
        preamp_mux: c.preamp_mux % 4,
        idt_reserved: c.idt_reserved % 8,
        ..c
    }
}

/// Unpacking a register word and packing the fields again gives the same word:
/// every one of the sixteen bits belongs to exactly one field.
pub proof fn lemma_unpack_then_pack(word: u16)
    ensures
        pack_spec(unpack_spec(word)) == word,
{
    let c = unpack_spec(word);
    assert(c.a2d_offset % 16 == word % 16);
    assert(c.preamp_gain % 8 == (word / 16) % 8);
    assert(c.preamp_mux % 4 == (word / 1024) % 4);
    assert(c.idt_reserved % 8 == word / 8192);
    assert(word % 16 + 16 * ((word / 16) % 8) + 128 * ((word / 128) % 2) + 256 * ((word / 256) % 2)
        + 512 * ((word / 512) % 2) + 1024 * ((word / 1024) % 4) + 4096 * ((word / 4096) % 2) + 8192
        * (word / 8192) == word) by (bit_vector);
}

/// Packing a configuration and unpacking the word gives the configuration
/// back, each field reduced to its width; a well-formed configuration comes
/// back unchanged.
pub proof fn lemma_pack_then_unpack(c: BridgeConfig)
    ensures
        unpack_spec(pack_spec(c)) == fit_fields(c),
        c.wf() ==> unpack_spec(pack_spec(c)) == c,
{
    let a = c.a2d_offset % 16;
    let g = c.preamp_gain % 8;
    let m = c.preamp_mux % 4;
    let r = c.idt_reserved % 8;
    let p = bit(c.gain_polarity);
    let l = bit(c.long_int);
    let b = bit(c.bsink);
    let n = bit(c.disable_nulling);
    let w = pack_spec(c);
    lemma_fields_of_word(
        w,
        a as u16,
        g as u16,
        p as u16,
        l as u16,
        b as u16,
        m as u16,
        n as u16,
        r as u16,
    );
}

/// Reading each field back out of a word assembled from in-range fields.
proof fn lemma_fields_of_word(w: u16, a: u16, g: u16, p: u16, l: u16, b: u16, m: u16, n: u16, r: u16)
    by (bit_vector)
    requires
        a < 16,
        g < 8,
        p <= 1,
        l <= 1,
        b <= 1,
        m < 4,
        n <= 1,
        r < 8,
        w == a + 16 * g + 128 * p + 256 * l + 512 * b + 1024 * m + 4096 * n + 8192 * r,
    ensures
        w % 16 == a,
        (w / 16) % 8 == g,
        (w / 128) % 2 == p,
        (w / 256) % 2 == l,
        (w / 512) % 2 == b,
        (w / 1024) % 4 == m,
        (w / 4096) % 2 == n,
        w / 8192 == r,
{
}

/// Unpacking reads each field from its own bits of the word: offset bits
/// 0-3, gain bits 4-6, polarity bit 7, long integration bit 8, bridge sink
/// bit 9, mux bits 10-11, disable nulling bit 12, reserved bits 13-15.
pub proof fn lemma_unpack_reads_bit_ranges(word: u16)
    ensures
        unpack_spec(word).a2d_offset == word & 0x000F,
        unpack_spec(word).preamp_gain == (word >> 4) & 0x0007,
        unpack_spec(word).gain_polarity == ((word >> 7) & 1 == 1),
        unpack_spec(word).long_int == ((word >> 8) & 1 == 1),
        unpack_spec(word).bsink == ((word >> 9) & 1 == 1),
        unpack_spec(word).preamp_mux == (word >> 10) & 0x0003,
        unpack_spec(word).disable_nulling == ((word >> 12) & 1 == 1),
        unpack_spec(word).idt_reserved == word >> 13,
{
    lemma_word_bit_ranges(word);
}

/// Packing puts each field, cut to its width, at its own bits of the word
/// (the same bit ranges that unpacking reads).
pub proof fn lemma_pack_writes_bit_ranges(c: BridgeConfig)
    ensures
        pack_spec(c) & 0x000F == c.a2d_offset % 16,
        (pack_spec(c) >> 4) & 0x0007 == c.preamp_gain % 8,
        ((pack_spec(c) >> 7) & 1 == 1) == c.gain_polarity,
        ((pack_spec(c) >> 8) & 1 == 1) == c.long_int,
        ((pack_spec(c) >> 9) & 1 == 1) == c.bsink,
        (pack_spec(c) >> 10) & 0x0003 == c.preamp_mux % 4,
        ((pack_spec(c) >> 12) & 1 == 1) == c.disable_nulling,
        pack_spec(c) >> 13 == c.idt_reserved % 8,
{
    let w = pack_spec(c);
    lemma_fields_of_word(
        w,
        (c.a2d_offset % 16) as u16,
        (c.preamp_gain % 8) as u16,
        bit(c.gain_polarity) as u16,
        bit(c.long_int) as u16,
        bit(c.bsink) as u16,
        (c.preamp_mux % 4) as u16,
        bit(c.disable_nulling) as u16,
        (c.idt_reserved % 8) as u16,
    );
    lemma_word_bit_ranges(w);
}

/// The arithmetic and the shift-and-mask readings of each bit range agree.
proof fn lemma_word_bit_ranges(w: u16)
    by (bit_vector)
    ensures
        w % 16 == w & 0x000F,
        (w / 16) % 8 == (w >> 4) & 0x0007,
        (w / 128) % 2 == (w >> 7) & 1,
        (w / 256) % 2 == (w >> 8) & 1,
        (w / 512) % 2 == (w >> 9) & 1,
        (w / 1024) % 4 == (w >> 10) & 0x0003,
        (w / 4096) % 2 == (w >> 12) & 1,
        w / 8192 == w >> 13,
{
}

} // verus!
