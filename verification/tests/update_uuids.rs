use bt_hci::update_uuids::screaming_snake_case;

#[test]
fn test_screaming_snake_case() {
    assert_eq!(screaming_snake_case("PascalCase"), "PASCAL_CASE");
    assert_eq!(screaming_snake_case("snake_case"), "SNAKE_CASE");
    assert_eq!(screaming_snake_case("DST Offset"), "DST_OFFSET");
    assert_eq!(screaming_snake_case("Headset - HS"), "HEADSET_HS");
    assert_eq!(screaming_snake_case("GAP"), "GAP");
    assert_eq!(screaming_snake_case("length (ångström)"), "LENGTH_ANGSTROM");
    assert_eq!(screaming_snake_case("LANAccessUsingPPP"), "LAN_ACCESS_USING_PPP");
    assert_eq!(screaming_snake_case("pressure (pound-force)"), "PRESSURE_POUND_FORCE");
    assert_eq!(screaming_snake_case("CIE 13.3-1995 Color"), "CIE_133_1995_COLOR");
    assert_eq!(screaming_snake_case("CO\\\\textsubscript{2} Conc"), "CO2_CONC");
    assert_eq!(screaming_snake_case("3D Display"), "_3D_DISPLAY");
}

use bt_hci::update_uuids::{
    appearance, category_tokens, module_file_name, module_name, update_appearance, uuid_constant,
    uuid_module_file, uuid_tokens, Category, Subcategory, UuidData,
};

fn battery() -> UuidData {
    UuidData { uuid: 0x180f, name: "Battery".to_string(), id: None, gss: None }
}

fn heart_rate() -> UuidData {
    UuidData { uuid: 0x180d, name: "Heart Rate".to_string(), id: None, gss: None }
}

#[test]
fn appearance_value() {
    assert_eq!(appearance(1, 0), 0x0040);
    assert_eq!(appearance(3, 1), 0x00c1);
    assert_eq!(appearance(0x31, 0x05), 0x0c45);
}

#[test]
fn module_names() {
    assert_eq!(module_file_name("service_uuids.yaml"), Some("service".to_string()));
    assert_eq!(module_file_name("object_types.yaml"), Some("object_types".to_string()));
    assert_eq!(module_file_name("member_uuids.yaml"), None);
    assert_eq!(module_file_name("sdo_uuids.yaml"), None);
    assert_eq!(module_name("object_types"), "object types");
}

#[test]
fn uuid_constant_text() {
    assert_eq!(
        uuid_constant("service", &battery(), ""),
        "/// Bluetooth service UUID.\n///\n/// `0x180f` Battery\npub const BATTERY: BluetoothUuid16 = BluetoothUuid16::new(0x180f);"
    );
    let small = UuidData { uuid: 0x0001, name: "SDP".to_string(), id: None, gss: None };
    assert_eq!(
        uuid_constant("protocol", &small, " (see the spec)"),
        "/// Bluetooth protocol UUID.\n///\n/// `0x0001` SDP (see the spec)\npub const SDP: BluetoothUuid16 = BluetoothUuid16::new(0x1);"
    );
}

#[test]
fn uuid_tokens_are_joined_by_blank_lines() {
    let uuids = [battery(), heart_rate()];
    let supplements = [String::new(), String::new()];
    let expected = format!(
        "{}\n\n{}",
        uuid_constant("service", &uuids[0], ""),
        uuid_constant("service", &uuids[1], "")
    );
    assert_eq!(uuid_tokens("service", &uuids, &supplements), expected);
    assert_eq!(uuid_tokens("service", &[], &[]), "");
}

#[test]
fn uuid_module_file_text() {
    let uuids = [battery()];
    let supplements = [String::new()];
    let (name, text) = uuid_module_file("service_uuids.yaml", &uuids, &supplements, "abc123").unwrap();
    assert_eq!(name, "service");
    assert_eq!(
        text,
        "//! UUIDs for the service module.\n\n\
// This file is auto-generated by the update_uuids application.\n\
// Based on https://bitbucket.org/bluetooth-SIG/public.git\n\
// Commit hash: abc123\n\n\
use super::BluetoothUuid16;\n\n\
/// Bluetooth service UUID.\n///\n/// `0x180f` Battery\npub const BATTERY: BluetoothUuid16 = BluetoothUuid16::new(0x180f);\n"
    );
    assert!(uuid_module_file("member_uuids.yaml", &uuids, &supplements, "abc123").is_none());
}

fn phone() -> Category {
    Category { category: 1, name: "Phone".to_string(), subcategory: None }
}

fn audio_sink() -> Category {
    Category {
        category: 3,
        name: "Audio Sink".to_string(),
        subcategory: Some(vec![Subcategory { value: 1, name: "Speaker".to_string() }]),
    }
}

#[test]
fn category_without_subcategories() {
    assert_eq!(
        category_tokens(&phone()),
        "/// Bluetooth Appearance UUID.\n///\n/// `0x0040` Generic Phone\npub const PHONE: BluetoothUuid16 = super::from_category(0x0001, 0x0000);"
    );
}

#[test]
fn category_with_subcategories() {
    assert_eq!(
        category_tokens(&audio_sink()),
        "pub mod audio_sink {\n    //! Appearance audio_sink with subcategories.\n    //!\n    //! Generic variant named `GENERIC_AUDIO_SINK`.\n\n    use super::super::{from_category, BluetoothUuid16};\n\n    /// Bluetooth Appearance UUID.\n    ///\n    /// `0x00c0` Generic Audio Sink\n    pub const GENERIC_AUDIO_SINK: BluetoothUuid16 = from_category(0x0003, 0x0000);\n\n    /// Bluetooth Appearance UUID.\n    ///\n    /// `0x00c1` Audio Sink | Speaker\n    pub const SPEAKER: BluetoothUuid16 = from_category(0x0003, 0x0001);\n}"
    );
}

#[test]
fn update_appearance_text() {
    let input = [phone(), audio_sink()];
    let text = update_appearance(&input, "abc123");
    let expected = format!(
        "//! UUIDs for the categories module.\n\n\
// This file is auto-generated by the update_uuids application.\n\
// Based on https://bitbucket.org/bluetooth-SIG/public.git\n\
// Commit hash: abc123\n\n\
use super::BluetoothUuid16;\n\n{}\n\n{}\n",
        category_tokens(&input[0]),
        category_tokens(&input[1])
    );
    assert_eq!(text, expected);
}
