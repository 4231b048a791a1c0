use pac_import::canfd_ipp_ind_canrx_select_input as canfd;
use pac_import::usdhc2_data4_select_input as usdhc2;

#[test]
fn canfd_daisy_read_masks_two_bits() {
    let r = canfd::R { bits: 0xffff_fff6 };
    assert_eq!(r.daisy().bits, 0x02);
    let r = canfd::R { bits: 0 };
    assert_eq!(r.daisy().bits, 0);
}

#[test]
fn canfd_variant_maps_each_defined_value() {
    let d = canfd::DAISY_R { bits: 0 };
    assert_eq!(d.variant(), canfd::Variant::Val(canfd::DAISY_A::GPIO_EMC_37_ALT9));
    assert!(d.is_gpio_emc_37_alt9());
    assert!(!d.is_gpio_ad_b0_15_alt8());
    let d = canfd::DAISY_R { bits: 1 };
    assert_eq!(d.variant(), canfd::Variant::Val(canfd::DAISY_A::GPIO_AD_B0_15_ALT8));
    assert!(d.is_gpio_ad_b0_15_alt8());
    let d = canfd::DAISY_R { bits: 2 };
    assert_eq!(d.variant(), canfd::Variant::Val(canfd::DAISY_A::GPIO_AD_B0_11_ALT8));
    assert!(d.is_gpio_ad_b0_11_alt8());
}

#[test]
fn canfd_variant_keeps_reserved_bits_raw() {
    let d = canfd::DAISY_R { bits: 3 };
    assert_eq!(d.variant(), canfd::Variant::Res(3));
    assert!(!d.is_gpio_emc_37_alt9());
    assert!(!d.is_gpio_ad_b0_15_alt8());
    assert!(!d.is_gpio_ad_b0_11_alt8());
}

#[test]
fn canfd_write_proxy_sets_only_the_field() {
    let w = canfd::W { bits: 0xffff_ffff };
    let w = w.daisy().gpio_emc_37_alt9();
    assert_eq!(w.bits, 0xffff_fffc);
    let w = canfd::W { bits: 0 };
    let w = w.daisy().gpio_ad_b0_15_alt8();
    assert_eq!(w.bits, 1);
    let w = canfd::W { bits: 0xf0 };
    let w = w.daisy().gpio_ad_b0_11_alt8();
    assert_eq!(w.bits, 0xf2);
}

#[test]
fn canfd_raw_bits_are_masked_to_the_field() {
    let w = canfd::W { bits: 0x0c };
    let w = w.daisy().bits(0xff);
    assert_eq!(w.bits, 0x0f);
}

#[test]
fn canfd_variant_write_roundtrips_through_read() {
    let w = canfd::W { bits: 0 };
    let w = w.daisy().variant(canfd::DAISY_A::GPIO_AD_B0_11_ALT8);
    let r = canfd::R { bits: w.bits };
    assert!(r.daisy().is_gpio_ad_b0_11_alt8());
}

#[test]
fn usdhc2_daisy_read_takes_bit_zero() {
    let r = usdhc2::R { bits: 0xffff_fffe };
    assert!(!r.daisy().bits);
    assert!(r.daisy().is_gpio_sd_b1_08_alt0());
    let r = usdhc2::R { bits: 1 };
    assert!(r.daisy().bits);
    assert!(r.daisy().is_gpio_ad_b1_12_alt6());
}

#[test]
fn usdhc2_variant_maps_both_values() {
    let d = usdhc2::DAISY_R { bits: false };
    assert_eq!(d.variant(), usdhc2::DAISY_A::GPIO_SD_B1_08_ALT0);
    let d = usdhc2::DAISY_R { bits: true };
    assert_eq!(d.variant(), usdhc2::DAISY_A::GPIO_AD_B1_12_ALT6);
}

#[test]
fn usdhc2_write_proxy_sets_and_clears_bit_zero() {
    let w = usdhc2::W { bits: 0 };
    let w = w.daisy().set_bit();
    assert_eq!(w.bits, 1);
    let w = usdhc2::W { bits: 0xffff_ffff };
    let w = w.daisy().clear_bit();
    assert_eq!(w.bits, 0xffff_fffe);
    let w = usdhc2::W { bits: 0xf0 };
    let w = w.daisy().bit(true);
    assert_eq!(w.bits, 0xf1);
    let w = usdhc2::W { bits: 0xf1 };
    let w = w.daisy().gpio_sd_b1_08_alt0();
    assert_eq!(w.bits, 0xf0);
    let w = usdhc2::W { bits: 0xf0 };
    let w = w.daisy().gpio_ad_b1_12_alt6();
    assert_eq!(w.bits, 0xf1);
}

#[test]
fn usdhc2_variant_write_roundtrips_through_read() {
    let w = usdhc2::W { bits: 0 };
    let w = w.daisy().variant(usdhc2::DAISY_A::GPIO_AD_B1_12_ALT6);
    let r = usdhc2::R { bits: w.bits };
    assert_eq!(r.daisy().variant(), usdhc2::DAISY_A::GPIO_AD_B1_12_ALT6);
}
