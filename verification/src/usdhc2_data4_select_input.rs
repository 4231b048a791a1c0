//! Daisy-chain input selection for the second SD host controller's DATA4
//! pad: a one-bit field choosing which pad feeds the peripheral.

#![allow(non_camel_case_types)]

use vstd::prelude::*;

verus! {

/// Reader of the register: the bits read from it.
pub struct R {
    /// The register's value.
    pub bits: u32,
}

/// Writer for the register: the bits to be written to it.
pub struct W {
    /// The value to be written.
    pub bits: u32,
}

/// Selecting pads involved in the daisy chain.
#[derive(Clone, Copy, Debug, PartialEq, Eq, Structural)]
pub enum DAISY_A {
    /// Selecting pad GPIO_SD_B1_08 for mode ALT0.
    GPIO_SD_B1_08_ALT0,
    /// Selecting pad GPIO_AD_B1_12 for mode ALT6.
    GPIO_AD_B1_12_ALT6,
}

/// The field bit encoding each pad selection.
pub open spec fn daisy_bit(v: DAISY_A) -> bool {
    match v {
        DAISY_A::GPIO_SD_B1_08_ALT0 => false,
        DAISY_A::GPIO_AD_B1_12_ALT6 => true,
    }
}

/// Reader of field `DAISY`.
pub struct DAISY_R {
    /// The field's bit.
    pub bits: bool,
}

impl DAISY_R {
    /// Get the enumerated values variant.
    pub fn variant(&self) -> (v: DAISY_A)
        ensures
            daisy_bit(v) == self.bits,
    {
        match self.bits {
            false => DAISY_A::GPIO_SD_B1_08_ALT0,
            true => DAISY_A::GPIO_AD_B1_12_ALT6,
        }
    }

    /// Checks if the value of the field is `GPIO_SD_B1_08_ALT0`.
    pub fn is_gpio_sd_b1_08_alt0(&self) -> (r: bool)
        ensures
            r == !self.bits,
    {
        !self.bits
    }

    /// Checks if the value of the field is `GPIO_AD_B1_12_ALT6`.
    pub fn is_gpio_ad_b1_12_alt6(&self) -> (r: bool)
        ensures
            r == self.bits,
    {
        self.bits
    }
}

/// Write proxy for field `DAISY`: it takes the writer, sets the field, and
/// hands the writer back.
pub struct DAISY_W {
    /// The writer being built.
    pub w: W,
}

impl DAISY_W {
    /// Writes `variant` to the field.
    pub fn variant(self, variant: DAISY_A) -> (w: W)
        ensures
            w.bits == (self.w.bits & !0x01u32) | (if daisy_bit(variant) {
                1u32
            } else {
                0u32
            }),
    {
        let value: bool = match variant {
            DAISY_A::GPIO_SD_B1_08_ALT0 => false,
            DAISY_A::GPIO_AD_B1_12_ALT6 => true,
        };
        self.bit(value)
    }

    /// Selecting pad GPIO_SD_B1_08 for mode ALT0.
    pub fn gpio_sd_b1_08_alt0(self) -> (w: W)
        ensures
            w.bits == (self.w.bits & !0x01u32),
    {
        proof {
            let b = self.w.bits;
            assert(((b & !0x01u32) | 0u32) == (b & !0x01u32)) by (bit_vector);
        }
        self.variant(DAISY_A::GPIO_SD_B1_08_ALT0)
    }

    /// Selecting pad GPIO_AD_B1_12 for mode ALT6.
    pub fn gpio_ad_b1_12_alt6(self) -> (w: W)
        ensures
            w.bits == (self.w.bits & !0x01u32) | 0x01,
    {
        self.variant(DAISY_A::GPIO_AD_B1_12_ALT6)
    }

    /// Sets the field bit.
    pub fn set_bit(self) -> (w: W)
        ensures
            w.bits == (self.w.bits & !0x01u32) | 0x01,
    {
        self.bit(true)
    }

    /// Clears the field bit.
    pub fn clear_bit(self) -> (w: W)
        ensures
            w.bits == (self.w.bits & !0x01u32),
    {
        proof {
            let b = self.w.bits;
            assert(((b & !0x01u32) | 0u32) == (b & !0x01u32)) by (bit_vector);
        }
        self.bit(false)
    }

    /// Writes the raw field bit.
    pub fn bit(self, value: bool) -> (w: W)
        ensures
            w.bits == (self.w.bits & !0x01u32) | (if value {
                1u32
            } else {
                0u32
            }),
    {
        let v: u32 = if value {
            1
        } else {
            0
        };
        proof {
            let b = self.w.bits;
            let x = v;
            assert(((b & !0x01u32) | (x & 0x01)) == ((b & !0x01u32) | x)) by (bit_vector)
                requires
                    x == 0 || x == 1,
            ;
        }
        W { bits: (self.w.bits & !0x01u32) | (v & 0x01) }
    }
}

impl R {
    /// Bit 0 - selecting pads involved in the daisy chain.
    pub fn daisy(&self) -> (r: DAISY_R)
        ensures
            r.bits == ((self.bits & 0x01) != 0),
    {
        DAISY_R { bits: (self.bits & 0x01) != 0 }
    }
}

impl W {
    /// Bit 0 - selecting pads involved in the daisy chain.
    pub fn daisy(self) -> (d: DAISY_W)
        ensures
            d.w == self,
    {
        DAISY_W { w: self }
    }
}

} // verus!
