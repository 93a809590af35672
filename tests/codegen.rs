use libsekiro::aob::Aob;
use libsekiro::codegen::{
    base_addresses_instance_source, base_addresses_struct_source, codegen_base_addresses,
    codegen_base_addresses_instances, codegen_base_addresses_struct, codegen_version_enum,
    generate_tables, get_base_addresses, version_from_file_info, TableGenerator, Version, VersionData,
};

#[test]
fn publisher_version_form() {
    assert_eq!(Version(1, 2, 0).to_fromsoft_string(), "1.02.0");
    assert_eq!(Version(1, 12, 3).to_fromsoft_string(), "1.12.3");
    assert_eq!(Version(10, 0, 250).to_fromsoft_string(), "10.00.250");
}

#[test]
fn struct_source_for_fields() {
    let fields = vec!["quitout".to_string(), "igt".to_string()];
    assert_eq!(
        base_addresses_struct_source(&fields),
        [
            "#[derive(Debug)]\npub struct BaseAddresses {\n",
            "    pub quitout: usize,\n    pub igt: usize,\n}\n\nimpl BaseAddresses {\n",
            "    pub fn with_module_base_addr(self, base: usize) -> BaseAddresses {\n",
            "        BaseAddresses {\n",
            "            quitout: self.quitout + base,\n            igt: self.igt + base,\n",
            "        }\n    }\n}\n\n",
        ]
        .concat()
    );
}

#[test]
fn struct_fields_are_snake_case() {
    let aobs = vec![Aob::new("PlayerPosition", &["00"], 0, 0, false)];
    let text = codegen_base_addresses_struct(&aobs);
    assert!(text.contains("    pub player_position: usize,\n"));
    assert!(text.contains("player_position: self.player_position + base,\n"));
}

#[test]
fn instance_source_in_hex() {
    let entries = vec![("quitout".to_string(), 0x3b55048usize), ("igt".to_string(), 0)];
    assert_eq!(
        base_addresses_instance_source(&Version(1, 2, 0), &entries),
        "pub const BASE_ADDRESSES_1_02_0: BaseAddresses = BaseAddresses {\n    quitout: 0x3b55048,\n    igt: 0x0,\n};\n\n"
    );
    let named = codegen_base_addresses_instances(
        &Version(1, 6, 0),
        &vec![("NoLogo".to_string(), 0xe1b51busize)],
    );
    assert_eq!(
        named,
        "pub const BASE_ADDRESSES_1_06_0: BaseAddresses = BaseAddresses {\n    no_logo: 0xe1b51b,\n};\n\n"
    );
}

#[test]
fn version_enum_source() {
    let ver = vec![
        VersionData { version: Version(1, 2, 0), aobs: vec![] },
        VersionData { version: Version(1, 10, 1), aobs: vec![] },
    ];
    let expected = [
        "#[derive(Clone, Copy)]\npub enum Version {\n    V1_02_0,\n    V1_10_1,\n}\n\n",
        "impl TryFrom<(u32, u32, u32)> for Version {\n    type Error = (u32, u32, u32);\n\n",
        "    fn try_from(v: (u32, u32, u32)) -> Result<Self, Self::Error> {\n        match v {\n",
        "            (1, 2, 0) => Ok(Version::V1_02_0),\n",
        "            (1, 10, 1) => Ok(Version::V1_10_1),\n",
        "            other => Err(other),\n        }\n    }\n}\n\n",
        "impl Version {\n    pub fn tuple(&self) -> (u8, u8, u8) {\n        match self {\n",
        "            Version::V1_02_0 => (1, 2, 0),\n",
        "            Version::V1_10_1 => (1, 10, 1),\n",
        "        }\n    }\n}\n\n",
        "impl From<Version> for BaseAddresses {\n    fn from(v: Version) -> Self {\n        match v {\n",
        "            Version::V1_02_0 => BASE_ADDRESSES_1_02_0,\n",
        "            Version::V1_10_1 => BASE_ADDRESSES_1_10_1,\n",
        "        }\n    }\n}\n\n",
    ]
    .concat();
    assert_eq!(codegen_version_enum(&ver), expected);
}

#[test]
fn same_version_is_scanned_once() {
    let aobs = vec![Aob::new("Quitout", &["AA ??"], 1, 0, false)];
    let mut generator = TableGenerator::new();
    assert!(generator.needs_scan(Version(1, 2, 0)));
    assert_eq!(generator.add_image(Version(1, 2, 0), &aobs, &[0, 0xAA, 0]), Some(vec![]));
    assert!(!generator.needs_scan(Version(1, 2, 0)));
    assert_eq!(generator.add_image(Version(1, 2, 0), &aobs, &[0xAA, 1, 0, 0]), None);
    assert_eq!(generator.add_image(Version(1, 3, 0), &aobs, &[0xAA, 1]), Some(vec![]));
    assert_eq!(
        generator.add_image(Version(1, 4, 0), &aobs, &[1, 2]),
        Some(vec!["Quitout".to_string()])
    );
    let data = generator.data();
    assert_eq!(data.len(), 3);
    assert_eq!(data[2].aobs, vec![]);
    assert_eq!(data[0].version, Version(1, 2, 0));
    assert_eq!(data[0].aobs, vec![("Quitout".to_string(), 2)]);
    assert_eq!(data[1].aobs, vec![("Quitout".to_string(), 1)]);
}

#[test]
fn whole_source() {
    let aobs = vec![Aob::new("Igt", &["01"], 0, 0, false)];
    let mut generator = TableGenerator::new();
    generator.add_image(Version(1, 2, 0), &aobs, &[5, 1]);
    let text = codegen_base_addresses(&aobs, generator.data());
    assert!(text.starts_with("#[derive(Debug)]\npub struct BaseAddresses {\n    pub igt: usize,\n"));
    assert!(text.ends_with("pub const BASE_ADDRESSES_1_02_0: BaseAddresses = BaseAddresses {\n    igt: 0x1,\n};\n\n"));
}

#[test]
fn feature_list() {
    let aobs = get_base_addresses();
    assert_eq!(aobs.len(), 11);
    assert_eq!(aobs[0].name, "Quitout");
    assert_eq!(aobs[7].name, "NoLogo");
    assert_eq!(aobs[10].name, "GrappleDebug");
    assert_eq!(aobs[8].patterns[0].as_ref().map(|p| p[0]), Some(Some(0x48)));
}

#[test]
fn version_from_fixed_file_info() {
    assert_eq!(version_from_file_info(0x0001_0002, 0x0000_0000), Version(1, 2, 0));
    assert_eq!(version_from_file_info(0x0001_0006, 0x0003_0004), Version(1, 6, 3));
}

#[test]
fn run_of_images_one_table_per_version() {
    let aobs = vec![Aob::new("Igt", &["AA"], 0, 0, false)];
    let images = vec![
        (Version(1, 2, 0), vec![0, 0xAA]),
        (Version(1, 3, 0), vec![0xAA]),
        (Version(1, 2, 0), vec![0, 0, 0, 0xAA]),
    ];
    let generator = generate_tables(&aobs, &images);
    let data = generator.data();
    assert_eq!(data.len(), 2);
    assert_eq!(data[0].version, Version(1, 2, 0));
    assert_eq!(data[0].aobs, vec![("Igt".to_string(), 1)]);
    assert_eq!(data[1].version, Version(1, 3, 0));
    assert_eq!(data[1].aobs, vec![("Igt".to_string(), 0)]);
}
