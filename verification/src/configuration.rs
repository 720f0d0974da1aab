//! The configuration register (address 0x00).
//!
//! | bits  | field                   |
//! |-------|-------------------------|
//! | 15    | software reset          |
//! | 14    | channel 1 enable        |
//! | 13    | channel 2 enable        |
//! | 12    | channel 3 enable        |
//! | 11..9 | averaging mode          |
//! | 8..6  | bus-voltage conversion time   |
//! | 5..3  | shunt-voltage conversion time |
//! | 2..0  | operating mode          |
use vstd::prelude::*;
use crate::bitfield::{
    disjoint_fields, field, get_field, lemma_field_of_with_field_other,
    lemma_field_of_with_field_same, set_field, valid_field, with_field,
};
use crate::register_map::ChannelId;
use crate::word::{word_from_be_bytes, word_of_be_bytes, word_to_be_bytes};

verus! {

/// Index of the lowest bit of each field, and the masks of the one-bit
/// flags and the three-bit codes.
pub const RESET_SHIFT: u16 = 15;
pub const CH_1_ENABLE_SHIFT: u16 = 14;
pub const CH_2_ENABLE_SHIFT: u16 = 13;
pub const CH_3_ENABLE_SHIFT: u16 = 12;
pub const AVERAGING_MODE_SHIFT: u16 = 9;
pub const BUS_CONVERSION_TIME_SHIFT: u16 = 6;
pub const SHUNT_CONVERSION_TIME_SHIFT: u16 = 3;
pub const OPERATING_MODE_SHIFT: u16 = 0;
pub const FLAG_MASK: u16 = 1;
pub const CODE_MASK: u16 = 7;

/// The fields of the configuration register.
#[derive(Debug, Clone, Copy, PartialEq, Eq, Structural)]
pub struct ConfigurationFields {
    pub reset: bool,
    pub ch_1_enable: bool,
    pub ch_2_enable: bool,
    pub ch_3_enable: bool,
    /// Number of samples averaged, as its 3-bit code (0..=7).
    pub averaging_mode: u8,
    /// Bus-voltage conversion time, as its 3-bit code (0..=7).
    pub bus_conversion_time: u8,
    /// Shunt-voltage conversion time, as its 3-bit code (0..=7).
    pub shunt_conversion_time: u8,
    /// Operating mode, as its 3-bit code (0..=7).
    pub operating_mode: u8,
}

impl ConfigurationFields {
    /// Whether every 3-bit code lies in 0..=7.
    pub open spec fn in_range(self) -> bool {
        &&& self.averaging_mode < 8
        &&& self.bus_conversion_time < 8
        &&& self.shunt_conversion_time < 8
        &&& self.operating_mode < 8
    }

    /// The enable flag of the given channel.
    pub open spec fn channel_enable(self, channel: ChannelId) -> bool {
        match channel {
            ChannelId::Channel1 => self.ch_1_enable,
            ChannelId::Channel2 => self.ch_2_enable,
            ChannelId::Channel3 => self.ch_3_enable,
        }
    }

    /// These fields with the enable flag of the given channel replaced.
    pub open spec fn with_channel_enable(self, channel: ChannelId, enable: bool) -> Self {
        match channel {
            ChannelId::Channel1 => ConfigurationFields { ch_1_enable: enable, ..self },
            ChannelId::Channel2 => ConfigurationFields { ch_2_enable: enable, ..self },
            ChannelId::Channel3 => ConfigurationFields { ch_3_enable: enable, ..self },
        }
    }
}

/// The fields that a configuration word holds.
pub open spec fn configuration_fields(word: u16) -> ConfigurationFields {
    ConfigurationFields {
        reset: field(word, RESET_SHIFT, FLAG_MASK) == 1,
        ch_1_enable: field(word, CH_1_ENABLE_SHIFT, FLAG_MASK) == 1,
        ch_2_enable: field(word, CH_2_ENABLE_SHIFT, FLAG_MASK) == 1,
        ch_3_enable: field(word, CH_3_ENABLE_SHIFT, FLAG_MASK) == 1,
        averaging_mode: field(word, AVERAGING_MODE_SHIFT, CODE_MASK) as u8,
        bus_conversion_time: field(word, BUS_CONVERSION_TIME_SHIFT, CODE_MASK) as u8,
        shunt_conversion_time: field(word, SHUNT_CONVERSION_TIME_SHIFT, CODE_MASK) as u8,
        operating_mode: field(word, OPERATING_MODE_SHIFT, CODE_MASK) as u8,
    }
}

/// Every configuration word holds codes in 0..=7.
pub proof fn lemma_configuration_fields_in_range(word: u16)
    ensures
        configuration_fields(word).in_range(),
{
    assert(((word >> 9u16) & 7u16) <= 7 && ((word >> 6u16) & 7u16) <= 7 && ((word >> 3u16)
        & 7u16) <= 7 && ((word >> 0u16) & 7u16) <= 7) by (bit_vector);
}

/// Whether `shift`/`mask` is one of the eight fields of the register.
pub open spec fn is_configuration_field(shift: u16, mask: u16) -> bool {
    ||| (shift == RESET_SHIFT && mask == FLAG_MASK)
    ||| (shift == CH_1_ENABLE_SHIFT && mask == FLAG_MASK)
    ||| (shift == CH_2_ENABLE_SHIFT && mask == FLAG_MASK)
    ||| (shift == CH_3_ENABLE_SHIFT && mask == FLAG_MASK)
    ||| (shift == AVERAGING_MODE_SHIFT && mask == CODE_MASK)
    ||| (shift == BUS_CONVERSION_TIME_SHIFT && mask == CODE_MASK)
    ||| (shift == SHUNT_CONVERSION_TIME_SHIFT && mask == CODE_MASK)
    ||| (shift == OPERATING_MODE_SHIFT && mask == CODE_MASK)
}

/// The eight fields are well formed and pairwise disjoint.
proof fn lemma_layout()
    ensures
        valid_field(15, 1),
        valid_field(14, 1),
        valid_field(13, 1),
        valid_field(12, 1),
        valid_field(9, 7),
        valid_field(6, 7),
        valid_field(3, 7),
        valid_field(0, 7),
        forall|s1: u16, m1: u16, s2: u16, m2: u16|
            is_configuration_field(s1, m1) && is_configuration_field(s2, m2) && s1 != s2
                ==> #[trigger] disjoint_fields(s1, m1, s2, m2),
{
    assert(((1u16 << 15u16) >> 15u16) == 1u16 && ((1u16 << 14u16) >> 14u16) == 1u16 && ((1u16
        << 13u16) >> 13u16) == 1u16 && ((1u16 << 12u16) >> 12u16) == 1u16 && ((7u16 << 9u16)
        >> 9u16) == 7u16 && ((7u16 << 6u16) >> 6u16) == 7u16 && ((7u16 << 3u16) >> 3u16) == 7u16
        && ((7u16 << 0u16) >> 0u16) == 7u16) by (bit_vector);
    assert forall|s1: u16, m1: u16, s2: u16, m2: u16|
        is_configuration_field(s1, m1) && is_configuration_field(s2, m2) && s1
            != s2 implies #[trigger] disjoint_fields(s1, m1, s2, m2) by {
        assert(is_configuration_field(s1, m1) && is_configuration_field(s2, m2) && s1 != s2
            ==> ((m1 << s1) & (m2 << s2)) == 0) by (bit_vector);
    }
}

/// Writing one field of a configuration word changes that field to the
/// low bits of the value written and keeps the seven others.
proof fn lemma_configuration_with_field(word: u16, shift: u16, mask: u16, value: u16)
    requires
        is_configuration_field(shift, mask),
    ensures
        valid_field(shift, mask),
        field(with_field(word, shift, mask, value), shift, mask) == value & mask,
        forall|s: u16, m: u16|
            is_configuration_field(s, m) && s != shift ==> #[trigger] field(
                with_field(word, shift, mask, value),
                s,
                m,
            ) == field(word, s, m),
{
    lemma_layout();
    lemma_field_of_with_field_same(word, shift, mask, value);
    assert forall|s: u16, m: u16|
        is_configuration_field(s, m) && s != shift implies #[trigger] field(
        with_field(word, shift, mask, value),
        s,
        m,
    ) == field(word, s, m) by {
        assert(disjoint_fields(shift, mask, s, m));
        lemma_field_of_with_field_other(word, shift, mask, value, s, m);
    }
}

/// A configuration word is determined by its fields: two words with the
/// same fields are the same word, so the view loses nothing.
pub proof fn lemma_configuration_fields_injective(a: u16, b: u16)
    requires
        configuration_fields(a) == configuration_fields(b),
    ensures
        a == b,
{
    assert(((a >> 9u16) & 7u16) <= 7 && ((b >> 9u16) & 7u16) <= 7 && ((a >> 6u16) & 7u16) <= 7
        && ((b >> 6u16) & 7u16) <= 7 && ((a >> 3u16) & 7u16) <= 7 && ((b >> 3u16) & 7u16) <= 7
        && ((a >> 0u16) & 7u16) <= 7 && ((b >> 0u16) & 7u16) <= 7 && ((a >> 15u16) & 1u16) <= 1
        && ((b >> 15u16) & 1u16) <= 1 && ((a >> 14u16) & 1u16) <= 1 && ((b >> 14u16) & 1u16) <= 1
        && ((a >> 13u16) & 1u16) <= 1 && ((b >> 13u16) & 1u16) <= 1 && ((a >> 12u16) & 1u16) <= 1
        && ((b >> 12u16) & 1u16) <= 1) by (bit_vector);
    assert(field(a, 9, 7) == field(b, 9, 7));
    assert(field(a, 6, 7) == field(b, 6, 7));
    assert(field(a, 3, 7) == field(b, 3, 7));
    assert(field(a, 0, 7) == field(b, 0, 7));
    assert(field(a, 15, 1) == field(b, 15, 1));
    assert(field(a, 14, 1) == field(b, 14, 1));
    assert(field(a, 13, 1) == field(b, 13, 1));
    assert(field(a, 12, 1) == field(b, 12, 1));
    assert(((a >> 15u16) & 1u16) == ((b >> 15u16) & 1u16) && ((a >> 14u16) & 1u16) == ((b
        >> 14u16) & 1u16) && ((a >> 13u16) & 1u16) == ((b >> 13u16) & 1u16) && ((a >> 12u16)
        & 1u16) == ((b >> 12u16) & 1u16) && ((a >> 9u16) & 7u16) == ((b >> 9u16) & 7u16) && ((a
        >> 6u16) & 7u16) == ((b >> 6u16) & 7u16) && ((a >> 3u16) & 7u16) == ((b >> 3u16)
        & 7u16) && ((a >> 0u16) & 7u16) == ((b >> 0u16) & 7u16) ==> a == b) by (bit_vector);
}

/// Enabling or disabling a channel: reading the channel's flag back gives
/// the value written, the other channels' flags and every other field are
/// kept, writing the same value twice is writing it once, and writes to
/// two different channels commute.
pub proof fn lemma_channel_enable_laws(
    fields: ConfigurationFields,
    channel: ChannelId,
    other: ChannelId,
    enable: bool,
    other_enable: bool,
)
    ensures
        fields.with_channel_enable(channel, enable).channel_enable(channel) == enable,
        other != channel ==> fields.with_channel_enable(channel, enable).channel_enable(other)
            == fields.channel_enable(other),
        fields.with_channel_enable(channel, enable).reset == fields.reset,
        fields.with_channel_enable(channel, enable).averaging_mode == fields.averaging_mode,
        fields.with_channel_enable(channel, enable).bus_conversion_time
            == fields.bus_conversion_time,
        fields.with_channel_enable(channel, enable).shunt_conversion_time
            == fields.shunt_conversion_time,
        fields.with_channel_enable(channel, enable).operating_mode == fields.operating_mode,
        fields.with_channel_enable(channel, enable).with_channel_enable(channel, enable)
            == fields.with_channel_enable(channel, enable),
        other != channel ==> fields.with_channel_enable(channel, enable).with_channel_enable(
            other,
            other_enable,
        ) == fields.with_channel_enable(other, other_enable).with_channel_enable(
            channel,
            enable,
        ),
        fields.with_channel_enable(channel, fields.channel_enable(channel)) == fields,
{
}

/// Index of the enable bit of a channel in the configuration word.
pub open spec fn channel_enable_shift(channel: ChannelId) -> u16 {
    match channel {
        ChannelId::Channel1 => CH_1_ENABLE_SHIFT,
        ChannelId::Channel2 => CH_2_ENABLE_SHIFT,
        ChannelId::Channel3 => CH_3_ENABLE_SHIFT,
    }
}

/// A configuration word whose fields are those of `current` with one
/// channel's enable flag replaced is `current` with that one bit replaced:
/// enabling or disabling a channel writes back every other bit as read.
pub proof fn lemma_channel_enable_changes_one_bit(
    current: u16,
    next: u16,
    channel: ChannelId,
    enable: bool,
)
    requires
        configuration_fields(next) == configuration_fields(current).with_channel_enable(
            channel,
            enable,
        ),
    ensures
        next == with_field(
            current,
            channel_enable_shift(channel),
            FLAG_MASK,
            if enable { 1u16 } else { 0u16 },
        ),
{
    let shift = channel_enable_shift(channel);
    let value: u16 = if enable { 1u16 } else { 0u16 };
    let written = with_field(current, shift, FLAG_MASK, value);
    lemma_configuration_with_field(current, shift, FLAG_MASK, value);
    lemma_flag_bits(enable);
    assert(configuration_fields(written) == configuration_fields(current).with_channel_enable(
        channel,
        enable,
    ));
    lemma_configuration_fields_injective(next, written);
}

/// The low three bits of a code, as the field stores them.
proof fn lemma_code_bits(value: u8)
    ensures
        ((value as u16) & CODE_MASK) as u8 == value % 8,
        (value as u16) & CODE_MASK == value % 8,
{
    assert(((value as u16) & 7u16) as u8 == value % 8 && ((value as u16) & 7u16) == value % 8)
        by (bit_vector);
}

/// The flag value written for a boolean reads back as that boolean.
proof fn lemma_flag_bits(enable: bool)
    ensures
        ((if enable { 1u16 } else { 0u16 }) & FLAG_MASK == 1) == enable,
{
    assert(1u16 & 1u16 == 1u16 && 0u16 & 1u16 == 0u16) by (bit_vector);
}

/// The masks of the fields, written out.
proof fn lemma_masks()
    ensures
        1u16 << 15u16 == 0x8000u16,
        1u16 << 14u16 == 0x4000u16,
        1u16 << 13u16 == 0x2000u16,
        1u16 << 12u16 == 0x1000u16,
        !(1u16 << 15u16) == 0x7fffu16,
        !(1u16 << 14u16) == 0xbfffu16,
        !(1u16 << 13u16) == 0xdfffu16,
        !(1u16 << 12u16) == 0xefffu16,
        !(7u16 << 9u16) == 0xf1ffu16,
        !(7u16 << 6u16) == 0xfe3fu16,
        !(7u16 << 3u16) == 0xffc7u16,
        !(7u16 << 0u16) == 0xfff8u16,
{
    assert(1u16 << 15u16 == 0x8000u16 && 1u16 << 14u16 == 0x4000u16 && 1u16 << 13u16 == 0x2000u16
        && 1u16 << 12u16 == 0x1000u16 && !(1u16 << 15u16) == 0x7fffu16 && !(1u16 << 14u16)
        == 0xbfffu16 && !(1u16 << 13u16) == 0xdfffu16 && !(1u16 << 12u16) == 0xefffu16 && !(7u16
        << 9u16) == 0xf1ffu16 && !(7u16 << 6u16) == 0xfe3fu16 && !(7u16 << 3u16) == 0xffc7u16
        && !(7u16 << 0u16) == 0xfff8u16) by (bit_vector);
}

/// The fields of a configuration word, bit by bit: bit 15 is the reset
/// flag, bits 14, 13 and 12 enable channels 1, 2 and 3, and bits 11..9,
/// 8..6, 5..3 and 2..0 hold the averaging mode, the bus and shunt
/// conversion times and the operating mode.
pub proof fn lemma_configuration_fields_bits(word: u16)
    ensures
        configuration_fields(word).reset == ((word >> 15u16) & 1u16 == 1u16),
        configuration_fields(word).ch_1_enable == ((word >> 14u16) & 1u16 == 1u16),
        configuration_fields(word).ch_2_enable == ((word >> 13u16) & 1u16 == 1u16),
        configuration_fields(word).ch_3_enable == ((word >> 12u16) & 1u16 == 1u16),
        configuration_fields(word).averaging_mode == ((word >> 9u16) & 7u16) as u8,
        configuration_fields(word).bus_conversion_time == ((word >> 6u16) & 7u16) as u8,
        configuration_fields(word).shunt_conversion_time == ((word >> 3u16) & 7u16) as u8,
        configuration_fields(word).operating_mode == ((word >> 0u16) & 7u16) as u8,
{
}

/// Content of the configuration register.
#[derive(Debug, Clone, Copy, PartialEq, Eq, Structural)]
pub struct Configuration {
    bits: u16,
}

impl View for Configuration {
    type V = ConfigurationFields;

    open spec fn view(&self) -> ConfigurationFields {
        configuration_fields(self.spec_bits())
    }
}

impl Configuration {
    /// The register word.
    pub closed spec fn spec_bits(self) -> u16 {
        self.bits
    }

    /// The register holding the given word.
    pub fn from_bits(bits: u16) -> (r: Self)
        ensures
            r.spec_bits() == bits,
            r@ == configuration_fields(bits),
    {
        Configuration { bits }
    }

    /// The register holding the word the device sent, most significant byte first.
    pub fn from_be_bytes(bytes: [u8; 2]) -> (r: Self)
        ensures
            r.spec_bits() == word_of_be_bytes(bytes@),
            r.spec_bits() == bytes@[0] as int * 256 + bytes@[1] as int,
    {
        Configuration { bits: word_from_be_bytes(bytes) }
    }

    /// The register word.
    pub fn bits(&self) -> (bits: u16)
        ensures
            bits == self.spec_bits(),
    {
        self.bits
    }

    /// The two bytes to send to the device, most significant byte first.
    pub fn to_be_bytes(&self) -> (bytes: [u8; 2])
        ensures
            bytes@.len() == 2,
            word_of_be_bytes(bytes@) == self.spec_bits(),
            bytes@[0] == self.spec_bits() / 256,
            bytes@[1] == self.spec_bits() % 256,
    {
        word_to_be_bytes(self.bits)
    }

    fn flag(&self, shift: u16) -> (set: bool)
        requires
            is_configuration_field(shift, FLAG_MASK),
        ensures
            set == (field(self.spec_bits(), shift, FLAG_MASK) == 1),
    {
        proof {
            lemma_configuration_with_field(self.bits, shift, FLAG_MASK, 0);
        }
        get_field(self.bits, shift, FLAG_MASK) == 1
    }

    fn code(&self, shift: u16) -> (code: u8)
        requires
            is_configuration_field(shift, CODE_MASK),
        ensures
            code == field(self.spec_bits(), shift, CODE_MASK) as u8,
            code < 8,
    {
        proof {
            lemma_configuration_with_field(self.bits, shift, CODE_MASK, 0);
        }
        get_field(self.bits, shift, CODE_MASK) as u8
    }

    fn set_flag(&mut self, shift: u16, enable: bool)
        requires
            is_configuration_field(shift, FLAG_MASK),
        ensures
            final(self).spec_bits() == with_field(
                old(self).spec_bits(),
                shift,
                FLAG_MASK,
                if enable { 1u16 } else { 0u16 },
            ),
            (field(final(self).spec_bits(), shift, FLAG_MASK) == 1) == enable,
            enable ==> final(self).spec_bits() == old(self).spec_bits() | (1u16 << shift),
            !enable ==> final(self).spec_bits() == old(self).spec_bits() & !(1u16 << shift),
            forall|s: u16, m: u16|
                is_configuration_field(s, m) && s != shift ==> #[trigger] field(
                    final(self).spec_bits(),
                    s,
                    m,
                ) == field(old(self).spec_bits(), s, m),
    {
        let value: u16 = if enable { 1 } else { 0 };
        proof {
            lemma_configuration_with_field(self.bits, shift, FLAG_MASK, value);
            lemma_flag_bits(enable);
            let w = self.bits;
            assert(((w & !(1u16 << shift)) | ((1u16 & 1u16) << shift)) == w | (1u16 << shift) && ((w
                & !(1u16 << shift)) | ((0u16 & 1u16) << shift)) == w & !(1u16 << shift))
                by (bit_vector);
        }
        self.bits = set_field(self.bits, shift, FLAG_MASK, value);
    }

    fn set_code(&mut self, shift: u16, code: u8)
        requires
            is_configuration_field(shift, CODE_MASK),
        ensures
            final(self).spec_bits() == with_field(
                old(self).spec_bits(),
                shift,
                CODE_MASK,
                code as u16,
            ),
            field(final(self).spec_bits(), shift, CODE_MASK) as u8 == code % 8,
            forall|s: u16, m: u16|
                is_configuration_field(s, m) && s != shift ==> #[trigger] field(
                    final(self).spec_bits(),
                    s,
                    m,
                ) == field(old(self).spec_bits(), s, m),
    {
        proof {
            lemma_configuration_with_field(self.bits, shift, CODE_MASK, code as u16);
            lemma_code_bits(code);
        }
        self.bits = set_field(self.bits, shift, CODE_MASK, code as u16);
    }

    /// Software-reset bit (bit 15).
    pub fn reset(&self) -> (set: bool)
        ensures
            set == self@.reset,
            set == ((self.spec_bits() >> 15u16) & 1u16 == 1u16),
    {
        self.flag(RESET_SHIFT)
    }

    /// Sets or clears the software-reset bit (bit 15); every other field is kept.
    pub fn set_reset(&mut self, value: bool)
        ensures
            final(self)@ == (ConfigurationFields { reset: value, ..old(self)@ }),
            value ==> final(self).spec_bits() == old(self).spec_bits() | 0x8000u16,
            !value ==> final(self).spec_bits() == old(self).spec_bits() & 0x7fffu16,
    {
        proof {
            lemma_masks();
        }
        self.set_flag(RESET_SHIFT, value);
    }

    /// Channel 1 enable bit (bit 14).
    pub fn ch_1_enable(&self) -> (set: bool)
        ensures
            set == self@.ch_1_enable,
            set == ((self.spec_bits() >> 14u16) & 1u16 == 1u16),
    {
        self.flag(CH_1_ENABLE_SHIFT)
    }

    /// Sets or clears the channel 1 enable bit (bit 14); every other field is kept.
    pub fn set_ch_1_enable(&mut self, value: bool)
        ensures
            final(self)@ == (ConfigurationFields { ch_1_enable: value, ..old(self)@ }),
            value ==> final(self).spec_bits() == old(self).spec_bits() | 0x4000u16,
            !value ==> final(self).spec_bits() == old(self).spec_bits() & 0xbfffu16,
    {
        proof {
            lemma_masks();
        }
        self.set_flag(CH_1_ENABLE_SHIFT, value);
    }

    /// Channel 2 enable bit (bit 13).
    pub fn ch_2_enable(&self) -> (set: bool)
        ensures
            set == self@.ch_2_enable,
            set == ((self.spec_bits() >> 13u16) & 1u16 == 1u16),
    {
        self.flag(CH_2_ENABLE_SHIFT)
    }

    /// Sets or clears the channel 2 enable bit (bit 13); every other field is kept.
    pub fn set_ch_2_enable(&mut self, value: bool)
        ensures
            final(self)@ == (ConfigurationFields { ch_2_enable: value, ..old(self)@ }),
            value ==> final(self).spec_bits() == old(self).spec_bits() | 0x2000u16,
            !value ==> final(self).spec_bits() == old(self).spec_bits() & 0xdfffu16,
    {
        proof {
            lemma_masks();
        }
        self.set_flag(CH_2_ENABLE_SHIFT, value);
    }

    /// Channel 3 enable bit (bit 12).
    pub fn ch_3_enable(&self) -> (set: bool)
        ensures
            set == self@.ch_3_enable,
            set == ((self.spec_bits() >> 12u16) & 1u16 == 1u16),
    {
        self.flag(CH_3_ENABLE_SHIFT)
    }

    /// Sets or clears the channel 3 enable bit (bit 12); every other field is kept.
    pub fn set_ch_3_enable(&mut self, value: bool)
        ensures
            final(self)@ == (ConfigurationFields { ch_3_enable: value, ..old(self)@ }),
            value ==> final(self).spec_bits() == old(self).spec_bits() | 0x1000u16,
            !value ==> final(self).spec_bits() == old(self).spec_bits() & 0xefffu16,
    {
        proof {
            lemma_masks();
        }
        self.set_flag(CH_3_ENABLE_SHIFT, value);
    }

    /// Averaging-mode code (bits 11..9).
    pub fn averaging_mode(&self) -> (code: u8)
        ensures
            code == self@.averaging_mode,
            code == ((self.spec_bits() >> 9u16) & 7u16) as u8,
            code < 8,
    {
        self.code(AVERAGING_MODE_SHIFT)
    }

    /// Writes the low three bits of `value` into the averaging-mode code (bits 11..9); every other field is kept.
    pub fn set_averaging_mode(&mut self, value: u8)
        ensures
            final(self)@ == (ConfigurationFields { averaging_mode: value % 8, ..old(self)@ }),
            final(self).spec_bits() == (old(self).spec_bits() & 0xf1ffu16) | (((value as u16)
                & 7u16) << 9u16),
    {
        proof {
            lemma_masks();
        }
        self.set_code(AVERAGING_MODE_SHIFT, value);
    }

    /// Bus-voltage conversion-time code (bits 8..6).
    pub fn bus_conversion_time(&self) -> (code: u8)
        ensures
            code == self@.bus_conversion_time,
            code == ((self.spec_bits() >> 6u16) & 7u16) as u8,
            code < 8,
    {
        self.code(BUS_CONVERSION_TIME_SHIFT)
    }

    /// Writes the low three bits of `value` into the bus-voltage conversion-time code (bits 8..6); every other field is kept.
    pub fn set_bus_conversion_time(&mut self, value: u8)
        ensures
            final(self)@ == (ConfigurationFields { bus_conversion_time: value % 8, ..old(self)@ }),
            final(self).spec_bits() == (old(self).spec_bits() & 0xfe3fu16) | (((value as u16)
                & 7u16) << 6u16),
    {
        proof {
            lemma_masks();
        }
        self.set_code(BUS_CONVERSION_TIME_SHIFT, value);
    }

    /// Shunt-voltage conversion-time code (bits 5..3).
    pub fn shunt_conversion_time(&self) -> (code: u8)
        ensures
            code == self@.shunt_conversion_time,
            code == ((self.spec_bits() >> 3u16) & 7u16) as u8,
            code < 8,
    {
        self.code(SHUNT_CONVERSION_TIME_SHIFT)
    }

    /// Writes the low three bits of `value` into the shunt-voltage conversion-time code (bits 5..3); every other field is kept.
    pub fn set_shunt_conversion_time(&mut self, value: u8)
        ensures
            final(self)@ == (ConfigurationFields { shunt_conversion_time: value % 8, ..old(self)@ }),
            final(self).spec_bits() == (old(self).spec_bits() & 0xffc7u16) | (((value as u16)
                & 7u16) << 3u16),
    {
        proof {
            lemma_masks();
        }
        self.set_code(SHUNT_CONVERSION_TIME_SHIFT, value);
    }

    /// Operating-mode code (bits 2..0).
    pub fn operating_mode(&self) -> (code: u8)
        ensures
            code == self@.operating_mode,
            code == ((self.spec_bits() >> 0u16) & 7u16) as u8,
            code < 8,
    {
        self.code(OPERATING_MODE_SHIFT)
    }

    /// Writes the low three bits of `value` into the operating-mode code (bits 2..0); every other field is kept.
    pub fn set_operating_mode(&mut self, value: u8)
        ensures
            final(self)@ == (ConfigurationFields { operating_mode: value % 8, ..old(self)@ }),
            final(self).spec_bits() == (old(self).spec_bits() & 0xfff8u16) | (((value as u16)
                & 7u16) << 0u16),
    {
        proof {
            lemma_masks();
        }
        self.set_code(OPERATING_MODE_SHIFT, value);
    }

    /// The enable bit of the given channel.
    pub fn channel_enable(&self, channel: ChannelId) -> (enabled: bool)
        ensures
            enabled == self@.channel_enable(channel),
            channel == ChannelId::Channel1 ==> enabled == ((self.spec_bits() >> 14u16) & 1u16
                == 1u16),
            channel == ChannelId::Channel2 ==> enabled == ((self.spec_bits() >> 13u16) & 1u16
                == 1u16),
            channel == ChannelId::Channel3 ==> enabled == ((self.spec_bits() >> 12u16) & 1u16
                == 1u16),
    {
        match channel {
            ChannelId::Channel1 => self.ch_1_enable(),
            ChannelId::Channel2 => self.ch_2_enable(),
            ChannelId::Channel3 => self.ch_3_enable(),
        }
    }

    /// Sets or clears the enable bit of the given channel; every other
    /// field, the other channels' enable bits among them, is kept.
    pub fn set_channel_enable(&mut self, channel: ChannelId, enable: bool)
        ensures
            final(self)@ == old(self)@.with_channel_enable(channel, enable),
            enable ==> final(self).spec_bits() == old(self).spec_bits() | (match channel {
                ChannelId::Channel1 => 0x4000u16,
                ChannelId::Channel2 => 0x2000u16,
                ChannelId::Channel3 => 0x1000u16,
            }),
            !enable ==> final(self).spec_bits() == old(self).spec_bits() & (match channel {
                ChannelId::Channel1 => 0xbfffu16,
                ChannelId::Channel2 => 0xdfffu16,
                ChannelId::Channel3 => 0xefffu16,
            }),
    {
        match channel {
            ChannelId::Channel1 => self.set_ch_1_enable(enable),
            ChannelId::Channel2 => self.set_ch_2_enable(enable),
            ChannelId::Channel3 => self.set_ch_3_enable(enable),
        }
    }

    /// The register holding the given fields, every other bit clear.
    pub fn from_fields(fields: ConfigurationFields) -> (r: Self)
        requires
            fields.in_range(),
        ensures
            r@ == fields,
    {
        let mut r = Configuration { bits: 0 };
        r.set_reset(fields.reset);
        r.set_ch_1_enable(fields.ch_1_enable);
        r.set_ch_2_enable(fields.ch_2_enable);
        r.set_ch_3_enable(fields.ch_3_enable);
        r.set_averaging_mode(fields.averaging_mode);
        r.set_bus_conversion_time(fields.bus_conversion_time);
        r.set_shunt_conversion_time(fields.shunt_conversion_time);
        r.set_operating_mode(fields.operating_mode);
        r
    }
}

} // verus!
