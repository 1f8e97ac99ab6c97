use max31855::Max31855Data;

#[test]
fn temperature_conversion_test() {
    let data = Max31855Data(0b0000_0110_0100_1100_0111_1111_0000_0000);
    assert_eq!(data.temperature_data() as f32 * 0.0625, 127.0);
    assert_eq!(data.thermo_data() as f32 * 0.25, 100.75);
}

#[test]
fn raw_returns_the_register_unmodified() {
    assert_eq!(Max31855Data(0).raw(), 0);
    assert_eq!(Max31855Data(0xFFFF_FFFF).raw(), 0xFFFF_FFFF);
    assert_eq!(Max31855Data(0x1234_5678).raw(), 0x1234_5678);
}

#[test]
fn ambient_field_all_ones_decodes_to_minus_one() {
    // Bits 15..=4 all set: the 12-bit ambient field reads 0b1111_1111_1111.
    let data = Max31855Data(0x0000_FFF0);
    assert_eq!(data.temperature_data(), -1);
    assert_eq!(data.temperature_data() as f32 * 0.0625, -0.0625);
}

#[test]
fn ambient_top_bit_set_decodes_negative() {
    // Only bit 15 set: the ambient field is 0b1000_0000_0000, i.e. -2048.
    let data = Max31855Data(0x0000_8000);
    assert_eq!(data.temperature_data(), -2048);
}

#[test]
fn thermo_field_all_ones_decodes_to_minus_one() {
    // Bits 31..=18 all set: the 14-bit thermocouple field is all ones.
    let data = Max31855Data(0xFFFC_0000);
    assert_eq!(data.thermo_data(), -1);
    assert_eq!(data.thermo_data() as f32 * 0.25, -0.25);
}

#[test]
fn thermo_top_bit_set_decodes_negative() {
    // Only bit 31 set: the thermocouple field is 0b10_0000_0000_0000, i.e. -8192.
    let data = Max31855Data(0x8000_0000);
    assert_eq!(data.thermo_data(), -8192);
}

#[test]
fn all_zero_register_decodes_to_all_zero_fields() {
    let data = Max31855Data(0);
    assert_eq!(data.thermo_data(), 0);
    assert_eq!(data.temperature_data(), 0);
    assert_eq!(data.thermo_data() as f32 * 0.25, 0.0);
    assert_eq!(data.temperature_data() as f32 * 0.0625, 0.0);
    assert!(!data.fault());
    assert!(!data.scv_bit());
    assert!(!data.scg_bit());
    assert!(!data.oc_bit());
}

#[test]
fn fault_bit_set_alone_changes_only_fault() {
    let data = Max31855Data(0x0001_0000);
    assert!(data.fault());
    assert_eq!(data.thermo_data(), 0);
    assert_eq!(data.temperature_data(), 0);
    assert_eq!(data.thermo_data() as f32 * 0.25, 0.0);
    assert_eq!(data.temperature_data() as f32 * 0.0625, 0.0);
    assert!(!data.scv_bit());
    assert!(!data.scg_bit());
    assert!(!data.oc_bit());
}

#[test]
fn toggling_fault_bit_leaves_other_fields_alone() {
    let base = Max31855Data(0b0000_0110_0100_1100_0111_1111_0000_0000);
    let toggled = Max31855Data(base.raw() ^ 0x0001_0000);
    assert_eq!(toggled.fault(), !base.fault());
    assert_eq!(toggled.thermo_data(), base.thermo_data());
    assert_eq!(toggled.temperature_data(), base.temperature_data());
    assert_eq!(toggled.scv_bit(), base.scv_bit());
    assert_eq!(toggled.scg_bit(), base.scg_bit());
    assert_eq!(toggled.oc_bit(), base.oc_bit());
}

#[test]
fn toggling_flag_bits_flips_only_the_matching_flags() {
    let base = Max31855Data(0x8642_A5F3);
    let masks: [u32; 4] = [0b001, 0b010, 0b100, 0b111];
    for mask in masks {
        let toggled = Max31855Data(base.raw() ^ mask);
        assert_eq!(toggled.thermo_data(), base.thermo_data());
        assert_eq!(toggled.temperature_data(), base.temperature_data());
        assert_eq!(toggled.fault(), base.fault());
        assert_eq!(toggled.scv_bit(), base.scv_bit() != (mask & 0b100 != 0));
        assert_eq!(toggled.scg_bit(), base.scg_bit() != (mask & 0b010 != 0));
        assert_eq!(toggled.oc_bit(), base.oc_bit() != (mask & 0b001 != 0));
    }
}

#[test]
fn each_flag_bit_reads_its_own_position() {
    assert!(Max31855Data(0b100).scv_bit());
    assert!(!Max31855Data(0b100).scg_bit());
    assert!(!Max31855Data(0b100).oc_bit());
    assert!(Max31855Data(0b010).scg_bit());
    assert!(!Max31855Data(0b010).scv_bit());
    assert!(!Max31855Data(0b010).oc_bit());
    assert!(Max31855Data(0b001).oc_bit());
    assert!(!Max31855Data(0b001).scv_bit());
    assert!(!Max31855Data(0b001).scg_bit());
    assert!(!Max31855Data(0b100).fault());
}

#[test]
fn accessors_are_idempotent() {
    let data = Max31855Data(0x8001_A345);
    assert_eq!(data.raw(), data.raw());
    assert_eq!(data.thermo_data(), data.thermo_data());
    assert_eq!(data.temperature_data(), data.temperature_data());
    assert_eq!(data.fault(), data.fault());
    assert_eq!(data.scv_bit(), data.scv_bit());
    assert_eq!(data.scg_bit(), data.scg_bit());
    assert_eq!(data.oc_bit(), data.oc_bit());
}

#[test]
fn from_be_bytes_reads_most_significant_byte_first() {
    let data = Max31855Data::from_be_bytes([0x12, 0x34, 0x56, 0x78]);
    assert_eq!(data.raw(), 0x1234_5678);
    let scenario = Max31855Data::from_be_bytes([0x06, 0x4C, 0x7F, 0x00]);
    assert_eq!(scenario.raw(), 0x064C_7F00);
    assert_eq!(scenario.thermo_data(), 403);
    assert_eq!(scenario.temperature_data(), 2032);
}
