//! Daisy-chain input selection for the CAN-FD receive pad: a two-bit field
//! choosing which pad feeds the peripheral.

#![allow(non_camel_case_types)]

use vstd::prelude::*;

verus! {

/// Reader of the register: the bits read from it.
pub struct R {
    /// The register's value.
    pub bits: u32,
}

/// Writer for the register: the bits to be written to it.
pub struct W {
    /// The value to be written.
    pub bits: u32,
}

/// Selecting pads involved in the daisy chain.
#[derive(Clone, Copy, Debug, PartialEq, Eq, Structural)]
pub enum DAISY_A {
    /// Selecting pad GPIO_EMC_37 for mode ALT9.
    GPIO_EMC_37_ALT9,
    /// Selecting pad GPIO_AD_B0_15 for mode ALT8.
    GPIO_AD_B0_15_ALT8,
    /// Selecting pad GPIO_AD_B0_11 for mode ALT8.
    GPIO_AD_B0_11_ALT8,
}

/// The field value encoding each pad selection.
pub open spec fn daisy_value(v: DAISY_A) -> u8 {
    match v {
        DAISY_A::GPIO_EMC_37_ALT9 => 0,
        DAISY_A::GPIO_AD_B0_15_ALT8 => 1,
        DAISY_A::GPIO_AD_B0_11_ALT8 => 2,
    }
}

/// An enumerated field value, or the raw bits of a reserved one.
#[derive(Clone, Copy, Debug, PartialEq, Eq, Structural)]
pub enum Variant {
    /// A defined pad selection.
    Val(DAISY_A),
    /// A reserved field value, kept raw.
    Res(u8),
}

/// Reader of field `DAISY`.
pub struct DAISY_R {
    /// The field's bits.
    pub bits: u8,
}

impl DAISY_R {
    /// Get the enumerated values variant.
    pub fn variant(&self) -> (v: Variant)
        ensures
            self.bits == 0 ==> v == Variant::Val(DAISY_A::GPIO_EMC_37_ALT9),
            self.bits == 1 ==> v == Variant::Val(DAISY_A::GPIO_AD_B0_15_ALT8),
            self.bits == 2 ==> v == Variant::Val(DAISY_A::GPIO_AD_B0_11_ALT8),
            self.bits > 2 ==> v == Variant::Res(self.bits),
    {
        match self.bits {
            0 => Variant::Val(DAISY_A::GPIO_EMC_37_ALT9),
            1 => Variant::Val(DAISY_A::GPIO_AD_B0_15_ALT8),
            2 => Variant::Val(DAISY_A::GPIO_AD_B0_11_ALT8),
            i => Variant::Res(i),
        }
    }

    /// Checks if the value of the field is `GPIO_EMC_37_ALT9`.
    pub fn is_gpio_emc_37_alt9(&self) -> (r: bool)
        ensures
            r == (self.bits == daisy_value(DAISY_A::GPIO_EMC_37_ALT9)),
    {
        self.bits == 0
    }

    /// Checks if the value of the field is `GPIO_AD_B0_15_ALT8`.
    pub fn is_gpio_ad_b0_15_alt8(&self) -> (r: bool)
        ensures
            r == (self.bits == daisy_value(DAISY_A::GPIO_AD_B0_15_ALT8)),
    {
        self.bits == 1
    }

    /// Checks if the value of the field is `GPIO_AD_B0_11_ALT8`.
    pub fn is_gpio_ad_b0_11_alt8(&self) -> (r: bool)
        ensures
            r == (self.bits == daisy_value(DAISY_A::GPIO_AD_B0_11_ALT8)),
    {
        self.bits == 2
    }
}

/// Write proxy for field `DAISY`: it takes the writer, sets the field, and
/// hands the writer back.
pub struct DAISY_W {
    /// The writer being built.
    pub w: W,
}

impl DAISY_W {
    /// Writes `variant` to the field.
    pub fn variant(self, variant: DAISY_A) -> (w: W)
        ensures
            w.bits == (self.w.bits & !0x03u32) | ((daisy_value(variant) as u32) & 0x03),
    {
        let value: u8 = match variant {
            DAISY_A::GPIO_EMC_37_ALT9 => 0,
            DAISY_A::GPIO_AD_B0_15_ALT8 => 1,
            DAISY_A::GPIO_AD_B0_11_ALT8 => 2,
        };
        self.bits(value)
    }

    /// Selecting pad GPIO_EMC_37 for mode ALT9.
    pub fn gpio_emc_37_alt9(self) -> (w: W)
        ensures
            w.bits == (self.w.bits & !0x03u32),
    {
        proof {
            let b = self.w.bits;
            assert(((b & !0x03u32) | (0u32 & 0x03)) == (b & !0x03u32)) by (bit_vector);
        }
        self.variant(DAISY_A::GPIO_EMC_37_ALT9)
    }

    /// Selecting pad GPIO_AD_B0_15 for mode ALT8.
    pub fn gpio_ad_b0_15_alt8(self) -> (w: W)
        ensures
            w.bits == (self.w.bits & !0x03u32) | 0x01,
    {
        proof {
            let b = self.w.bits;
            assert(((b & !0x03u32) | (1u32 & 0x03)) == ((b & !0x03u32) | 0x01)) by (bit_vector);
        }
        self.variant(DAISY_A::GPIO_AD_B0_15_ALT8)
    }

    /// Selecting pad GPIO_AD_B0_11 for mode ALT8.
    pub fn gpio_ad_b0_11_alt8(self) -> (w: W)
        ensures
            w.bits == (self.w.bits & !0x03u32) | 0x02,
    {
        proof {
            let b = self.w.bits;
            assert(((b & !0x03u32) | (2u32 & 0x03)) == ((b & !0x03u32) | 0x02)) by (bit_vector);
        }
        self.variant(DAISY_A::GPIO_AD_B0_11_ALT8)
    }

    /// Writes raw bits to the field; bits outside the field are masked off.
    pub fn bits(self, value: u8) -> (w: W)
        ensures
            w.bits == (self.w.bits & !0x03u32) | ((value as u32) & 0x03),
    {
        W { bits: (self.w.bits & !0x03u32) | ((value as u32) & 0x03) }
    }
}

impl R {
    /// Bits 0:1 - selecting pads involved in the daisy chain.
    pub fn daisy(&self) -> (r: DAISY_R)
        ensures
            r.bits == (self.bits & 0x03) as u8,
    {
        DAISY_R { bits: (self.bits & 0x03) as u8 }
    }
}

impl W {
    /// Bits 0:1 - selecting pads involved in the daisy chain.
    pub fn daisy(self) -> (d: DAISY_W)
        ensures
            d.w == self,
    {
        DAISY_W { w: self }
    }
}

} // verus!
