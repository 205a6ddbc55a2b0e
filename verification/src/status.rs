//! The sampling enables of the converter.
//!
//! The control register is two bytes wide and holds one enable bit per
//! converter input. The driver reads it as one 16-bit word, first byte high,
//! and hands it out as a set of inputs: a caller asks whether an input is
//! sampled and never sees bit positions. Bits of the word that belong to no
//! input are dropped when the word is decoded.

use vstd::prelude::*;

verus! {

/// The bits of the control word that enable an input.
pub const KNOWN_INPUTS: u16 = 0xff8c;

/// An input of the converter whose sampling the control register enables.
#[derive(Clone, Copy, Debug, PartialEq, Eq, Structural)]
pub enum AdcInput {
    /// Battery voltage.
    BatteryVoltage,
    /// Battery current, charging and discharging.
    BatteryCurrent,
    /// AC-in voltage.
    AcinVoltage,
    /// AC-in current.
    AcinCurrent,
    /// USB-in voltage.
    VbusVoltage,
    /// USB-in current.
    VbusCurrent,
    /// System supply voltage.
    SystemVoltage,
    /// Battery temperature sensor.
    BatteryTemperature,
    /// Die temperature.
    DieTemperature,
    /// First auxiliary input.
    Gpio0,
    /// Second auxiliary input.
    Gpio1,
}

impl AdcInput {
    /// The position of the input's enable bit in the control word, counted
    /// from the least significant bit.
    pub open spec fn bit(self) -> u16 {
        match self {
            AdcInput::BatteryVoltage => 15,
            AdcInput::BatteryCurrent => 14,
            AdcInput::AcinVoltage => 13,
            AdcInput::AcinCurrent => 12,
            AdcInput::VbusVoltage => 11,
            AdcInput::VbusCurrent => 10,
            AdcInput::SystemVoltage => 9,
            AdcInput::BatteryTemperature => 8,
            AdcInput::DieTemperature => 7,
            AdcInput::Gpio0 => 3,
            AdcInput::Gpio1 => 2,
        }
    }

    /// The control word in which the input's enable bit alone is set.
    pub open spec fn spec_mask(self) -> u16 {
        match self {
            AdcInput::BatteryVoltage => 0x8000,
            AdcInput::BatteryCurrent => 0x4000,
            AdcInput::AcinVoltage => 0x2000,
            AdcInput::AcinCurrent => 0x1000,
            AdcInput::VbusVoltage => 0x0800,
            AdcInput::VbusCurrent => 0x0400,
            AdcInput::SystemVoltage => 0x0200,
            AdcInput::BatteryTemperature => 0x0100,
            AdcInput::DieTemperature => 0x0080,
            AdcInput::Gpio0 => 0x0008,
            AdcInput::Gpio1 => 0x0004,
        }
    }

    /// The control word in which the input's enable bit alone is set.
    #[verifier::when_used_as_spec(spec_mask)]
    pub fn mask(self) -> (m: u16)
        ensures
            m == self.spec_mask(),
    {
        match self {
            AdcInput::BatteryVoltage => 0x8000,
            AdcInput::BatteryCurrent => 0x4000,
            AdcInput::AcinVoltage => 0x2000,
            AdcInput::AcinCurrent => 0x1000,
            AdcInput::VbusVoltage => 0x0800,
            AdcInput::VbusCurrent => 0x0400,
            AdcInput::SystemVoltage => 0x0200,
            AdcInput::BatteryTemperature => 0x0100,
            AdcInput::DieTemperature => 0x0080,
            AdcInput::Gpio0 => 0x0008,
            AdcInput::Gpio1 => 0x0004,
        }
    }
}

/// The inputs that the control word `word` enables.
pub open spec fn enabled(word: u16) -> Set<AdcInput> {
    Set::new(|input: AdcInput| word & input.spec_mask() != 0)
}

/// The set of inputs whose sampling is enabled.
#[derive(Clone, Copy, Debug, PartialEq, Eq, Structural)]
pub struct AdcStatus {
    bits: u16,
}

impl View for AdcStatus {
    type V = Set<AdcInput>;

    /// The enabled inputs.
    open spec fn view(&self) -> Set<AdcInput> {
        enabled(self.spec_bits())
    }
}

impl AdcStatus {
    /// The control word that enables exactly the inputs of the set.
    pub closed spec fn spec_bits(self) -> u16 {
        self.bits
    }

    /// The status holds enable bits of inputs only.
    #[verifier::type_invariant]
    pub closed spec fn wf(self) -> bool {
        self.bits & KNOWN_INPUTS == self.bits
    }

    /// The status that the control word `word` decodes to.
    pub closed spec fn spec_new(word: u16) -> AdcStatus {
        AdcStatus { bits: word & KNOWN_INPUTS }
    }

    /// Decodes a control word.
    ///
    /// The status enables the inputs whose bit is set in `word`, and remembers
    /// none of the word's other bits.
    #[verifier::when_used_as_spec(spec_new)]
    pub fn new(word: u16) -> (status: AdcStatus)
        ensures
            status == Self::spec_new(word),
            status@ == enabled(word),
            status.spec_bits() == word & KNOWN_INPUTS,
    {
        proof {
            assert((word & KNOWN_INPUTS) & KNOWN_INPUTS == word & KNOWN_INPUTS) by (bit_vector);
        }
        let status = AdcStatus { bits: word & KNOWN_INPUTS };
        proof {
            assert forall|input: AdcInput|
                (word & KNOWN_INPUTS) & input.spec_mask() == word & #[trigger] input.spec_mask() by {
                lemma_mask_single_bit(input);
                let m = input.spec_mask();
                assert((word & KNOWN_INPUTS) & m == word & m) by (bit_vector)
                    requires
                        m & KNOWN_INPUTS == m,
                ;
            }
            assert(status@ =~= enabled(word));
        }
        status
    }

    /// The control word that enables exactly the inputs of the set.
    #[verifier::when_used_as_spec(spec_bits)]
    pub fn bits(self) -> (word: u16)
        ensures
            word == self.spec_bits(),
            enabled(word) == self@,
            word & KNOWN_INPUTS == word,
    {
        proof {
            use_type_invariant(self);
        }
        self.bits
    }

    /// Whether the sampling of `input` is enabled.
    pub fn is_enabled(self, input: AdcInput) -> (on: bool)
        ensures
            on == self@.contains(input),
    {
        self.bits & input.mask() != 0
    }

    /// The inputs that either status enables.
    pub fn union(self, other: AdcStatus) -> (both: AdcStatus)
        ensures
            both@ == self@.union(other@),
            both.spec_bits() == self.spec_bits() | other.spec_bits(),
    {
        proof {
            use_type_invariant(self);
            use_type_invariant(other);
            let a = self.bits;
            let b = other.bits;
            assert((a | b) & KNOWN_INPUTS == a | b) by (bit_vector)
                requires
                    a & KNOWN_INPUTS == a,
                    b & KNOWN_INPUTS == b,
            ;
            assert forall|m: u16| ((a | b) & m != 0) == (a & m != 0 || b & m != 0) by {
                assert(((a | b) & m != 0) == (a & m != 0 || b & m != 0)) by (bit_vector);
            }
        }
        let both = AdcStatus { bits: self.bits | other.bits };
        proof {
            assert(both@ =~= self@.union(other@));
        }
        both
    }

    /// The inputs that both statuses enable.
    pub fn intersection(self, other: AdcStatus) -> (common: AdcStatus)
        ensures
            common@ == self@.intersect(other@),
            common.spec_bits() == self.spec_bits() & other.spec_bits(),
    {
        proof {
            use_type_invariant(self);
            use_type_invariant(other);
            let a = self.bits;
            let b = other.bits;
            assert((a & b) & KNOWN_INPUTS == a & b) by (bit_vector)
                requires
                    a & KNOWN_INPUTS == a,
            ;
            assert forall|input: AdcInput|
                ((a & b) & #[trigger] input.spec_mask() != 0) == (a & input.spec_mask() != 0 && b
                    & input.spec_mask() != 0) by {
                lemma_mask_single_bit(input);
                let k = input.bit();
                assert(((a & b) & (1u16 << k) != 0) == (a & (1u16 << k) != 0 && b & (1u16 << k)
                    != 0)) by (bit_vector)
                    requires
                        k < 16,
                ;
            }
        }
        let common = AdcStatus { bits: self.bits & other.bits };
        proof {
            assert(common@ =~= self@.intersect(other@));
        }
        common
    }
}

/// The mask of an input has one bit set, the input's own, and that bit is one
/// of the known enable bits.
pub proof fn lemma_mask_single_bit(input: AdcInput)
    ensures
        input.bit() < 16,
        input.spec_mask() == 1u16 << input.bit(),
        input.spec_mask() & KNOWN_INPUTS == input.spec_mask(),
        input.spec_mask() != 0,
{
    assert(0x8000u16 == 1u16 << 15u16 && 0x4000u16 == 1u16 << 14u16 && 0x2000u16 == 1u16 << 13u16
        && 0x1000u16 == 1u16 << 12u16 && 0x0800u16 == 1u16 << 11u16 && 0x0400u16 == 1u16 << 10u16
        && 0x0200u16 == 1u16 << 9u16 && 0x0100u16 == 1u16 << 8u16 && 0x0080u16 == 1u16 << 7u16
        && 0x0008u16 == 1u16 << 3u16 && 0x0004u16 == 1u16 << 2u16) by (bit_vector);
    assert(0x8000u16 & 0xff8c == 0x8000 && 0x4000u16 & 0xff8c == 0x4000 && 0x2000u16 & 0xff8c
        == 0x2000 && 0x1000u16 & 0xff8c == 0x1000 && 0x0800u16 & 0xff8c == 0x0800 && 0x0400u16
        & 0xff8c == 0x0400 && 0x0200u16 & 0xff8c == 0x0200 && 0x0100u16 & 0xff8c == 0x0100
        && 0x0080u16 & 0xff8c == 0x0080 && 0x0008u16 & 0xff8c == 0x0008 && 0x0004u16 & 0xff8c
        == 0x0004) by (bit_vector);
}

/// Two inputs share an enable bit only if they are the same input.
pub proof fn lemma_masks_distinct(a: AdcInput, b: AdcInput)
    ensures
        a.spec_mask() == b.spec_mask() <==> a == b,
        a.bit() == b.bit() <==> a == b,
{
}

/// The enables are independent: flipping the bit of one input in a control
/// word switches that input and leaves every other input as it was.
pub proof fn lemma_flags_independent(word: u16, input: AdcInput)
    ensures
        enabled(word ^ input.spec_mask()) == if enabled(word).contains(input) {
            enabled(word).remove(input)
        } else {
            enabled(word).insert(input)
        },
{
    lemma_mask_single_bit(input);
    let k = input.bit();
    assert forall|other: AdcInput|
        ((word ^ input.spec_mask()) & #[trigger] other.spec_mask() != 0) == (if other == input {
            !(word & other.spec_mask() != 0)
        } else {
            word & other.spec_mask() != 0
        }) by {
        lemma_mask_single_bit(other);
        lemma_masks_distinct(input, other);
        let j = other.bit();
        assert(((word ^ (1u16 << k)) & (1u16 << j) != 0) == (if j == k {
            !(word & (1u16 << j) != 0)
        } else {
            word & (1u16 << j) != 0
        })) by (bit_vector)
            requires
                k < 16,
                j < 16,
        ;
    }
    if enabled(word).contains(input) {
        assert(enabled(word ^ input.spec_mask()) =~= enabled(word).remove(input));
    } else {
        assert(enabled(word ^ input.spec_mask()) =~= enabled(word).insert(input));
    }
}

/// A status is its set of inputs and nothing more: two statuses that enable
/// the same inputs are equal.
pub proof fn lemma_status_is_its_set(a: AdcStatus, b: AdcStatus)
    requires
        a.wf(),
        b.wf(),
        a@ == b@,
    ensures
        a == b,
{
    let x = a.bits;
    let y = b.bits;
    assert forall|input: AdcInput|
        (x & #[trigger] input.spec_mask() != 0) == (y & input.spec_mask() != 0) by {
        assert(a@ == enabled(x));
        assert(b@ == enabled(y));
        assert(enabled(x).contains(input) == (x & input.spec_mask() != 0));
        assert(enabled(y).contains(input) == (y & input.spec_mask() != 0));
    }
    assert((x & AdcInput::BatteryVoltage.spec_mask() != 0) == (y
        & AdcInput::BatteryVoltage.spec_mask() != 0));
    assert((x & AdcInput::BatteryCurrent.spec_mask() != 0) == (y
        & AdcInput::BatteryCurrent.spec_mask() != 0));
    assert((x & AdcInput::AcinVoltage.spec_mask() != 0) == (y & AdcInput::AcinVoltage.spec_mask()
        != 0));
    assert((x & AdcInput::AcinCurrent.spec_mask() != 0) == (y & AdcInput::AcinCurrent.spec_mask()
        != 0));
    assert((x & AdcInput::VbusVoltage.spec_mask() != 0) == (y & AdcInput::VbusVoltage.spec_mask()
        != 0));
    assert((x & AdcInput::VbusCurrent.spec_mask() != 0) == (y & AdcInput::VbusCurrent.spec_mask()
        != 0));
    assert((x & AdcInput::SystemVoltage.spec_mask() != 0) == (y
        & AdcInput::SystemVoltage.spec_mask() != 0));
    assert((x & AdcInput::BatteryTemperature.spec_mask() != 0) == (y
        & AdcInput::BatteryTemperature.spec_mask() != 0));
    assert((x & AdcInput::DieTemperature.spec_mask() != 0) == (y
        & AdcInput::DieTemperature.spec_mask() != 0));
    assert((x & AdcInput::Gpio0.spec_mask() != 0) == (y & AdcInput::Gpio0.spec_mask() != 0));
    assert((x & AdcInput::Gpio1.spec_mask() != 0) == (y & AdcInput::Gpio1.spec_mask() != 0));
    assert(x == y) by (bit_vector)
        requires
            x & KNOWN_INPUTS == x,
            y & KNOWN_INPUTS == y,
            (x & 0x8000 != 0) == (y & 0x8000 != 0),
            (x & 0x4000 != 0) == (y & 0x4000 != 0),
            (x & 0x2000 != 0) == (y & 0x2000 != 0),
            (x & 0x1000 != 0) == (y & 0x1000 != 0),
            (x & 0x0800 != 0) == (y & 0x0800 != 0),
            (x & 0x0400 != 0) == (y & 0x0400 != 0),
            (x & 0x0200 != 0) == (y & 0x0200 != 0),
            (x & 0x0100 != 0) == (y & 0x0100 != 0),
            (x & 0x0080 != 0) == (y & 0x0080 != 0),
            (x & 0x0008 != 0) == (y & 0x0008 != 0),
            (x & 0x0004 != 0) == (y & 0x0004 != 0),
    ;
}

/// Any choice of inputs can be enabled together: for every set of inputs
/// there is a control word that enables exactly that set.
pub proof fn lemma_every_set_has_a_word(inputs: Set<AdcInput>) -> (word: u16)
    ensures
        enabled(word) == inputs,
        word & KNOWN_INPUTS == word,
{
    let pick = |input: AdcInput| -> u16 {
        if inputs.contains(input) {
            input.spec_mask()
        } else {
            0u16
        }
    };
    let w15 = pick(AdcInput::BatteryVoltage);
    let w14 = pick(AdcInput::BatteryCurrent);
    let w13 = pick(AdcInput::AcinVoltage);
    let w12 = pick(AdcInput::AcinCurrent);
    let w11 = pick(AdcInput::VbusVoltage);
    let w10 = pick(AdcInput::VbusCurrent);
    let w9 = pick(AdcInput::SystemVoltage);
    let w8 = pick(AdcInput::BatteryTemperature);
    let w7 = pick(AdcInput::DieTemperature);
    let w3 = pick(AdcInput::Gpio0);
    let w2 = pick(AdcInput::Gpio1);
    let word = w15 | w14 | w13 | w12 | w11 | w10 | w9 | w8 | w7 | w3 | w2;
    assert({
        &&& (word & 0x8000 != 0) == (w15 != 0)
        &&& (word & 0x4000 != 0) == (w14 != 0)
        &&& (word & 0x2000 != 0) == (w13 != 0)
        &&& (word & 0x1000 != 0) == (w12 != 0)
        &&& (word & 0x0800 != 0) == (w11 != 0)
        &&& (word & 0x0400 != 0) == (w10 != 0)
        &&& (word & 0x0200 != 0) == (w9 != 0)
        &&& (word & 0x0100 != 0) == (w8 != 0)
        &&& (word & 0x0080 != 0) == (w7 != 0)
        &&& (word & 0x0008 != 0) == (w3 != 0)
        &&& (word & 0x0004 != 0) == (w2 != 0)
        &&& word & KNOWN_INPUTS == word
    }) by (bit_vector)
        requires
            word == w15 | w14 | w13 | w12 | w11 | w10 | w9 | w8 | w7 | w3 | w2,
            w15 == 0 || w15 == 0x8000,
            w14 == 0 || w14 == 0x4000,
            w13 == 0 || w13 == 0x2000,
            w12 == 0 || w12 == 0x1000,
            w11 == 0 || w11 == 0x0800,
            w10 == 0 || w10 == 0x0400,
            w9 == 0 || w9 == 0x0200,
            w8 == 0 || w8 == 0x0100,
            w7 == 0 || w7 == 0x0080,
            w3 == 0 || w3 == 0x0008,
            w2 == 0 || w2 == 0x0004,
    ;
    assert(enabled(word) =~= inputs);
    word
}

} // verus!
