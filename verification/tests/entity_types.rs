use renga_api_rs::{Category, EntityTypes, Error, UUID};

const ALL: [Category; 10] = [
    Category::DuctAccessory,
    Category::DuctFitting,
    Category::ElectricDistributionBoard,
    Category::Equipment,
    Category::LightingFixture,
    Category::MechanicalEquipment,
    Category::PipeAccessory,
    Category::PipeFitting,
    Category::PlumbingFixture,
    Category::WiringAccessory,
];

#[test]
fn test_to_uuid() {
    assert_eq!(
        Category::ElectricDistributionBoard.to_sanitized_string(),
        "D547F002-4A74-41BF-B1F0-ED8F5846098F"
    );
}

#[test]
fn every_category_has_its_identifier() {
    let expected = [
        "46C07D12-8F76-4537-A473-08D52395BABA",
        "68EFF079-2B52-4E05-A51B-6875D1CDB9FC",
        "D547F002-4A74-41BF-B1F0-ED8F5846098F",
        "4CD3BC4C-14DA-43CA-BBC5-D7679566B8DD",
        "C59FD4C5-4050-47A0-B11A-F52C4799470C",
        "D7E202CE-791C-4123-ADBE-5F6357BF85E6",
        "17C36F59-54DC-4440-8B78-034B0ADB8716",
        "8B5CF8F2-A391-4701-8CB9-D6A6BA5EE46F",
        "10BC8911-5931-471A-9C0E-74AD36A7EE8A",
        "2C07D135-8343-418D-A1C2-EA074D98DB31",
    ];
    for (category, text) in ALL.iter().zip(expected.iter()) {
        assert_eq!(category.to_sanitized_string(), *text);
        assert_eq!(category.as_uuid(), UUID::from_str(text).unwrap());
    }
}

#[test]
fn category_identifiers_are_distinct() {
    for (i, a) in ALL.iter().enumerate() {
        for (j, b) in ALL.iter().enumerate() {
            assert_eq!(i == j, a.as_uuid() == b.as_uuid());
        }
    }
}

#[test]
fn as_uuid_gives_the_fields() {
    let id = Category::Equipment.as_uuid();
    assert_eq!(id.data1, 0x4cd3bc4c);
    assert_eq!(id.data2, 0x14da);
    assert_eq!(id.data3, 0x43ca);
    assert_eq!(id.data4, 0xbbc5d7679566b8dd);
}

#[test]
fn category_names() {
    assert_eq!(Category::DuctAccessory.name(), "DuctAccessory");
    assert_eq!(Category::ElectricDistributionBoard.name(), "ElectricDistributionBoard");
    assert_eq!(Category::WiringAccessory.name(), "WiringAccessory");
}

#[test]
fn category_display() {
    assert_eq!(
        Category::Equipment.to_string(),
        "Equipment ({\"4CD3BC4C-14DA-43CA-BBC5-D7679566B8DD\"})"
    );
    assert_eq!(
        EntityTypes::CategoryType(Category::PipeFitting).to_string(),
        "CategoryType(PipeFitting)"
    );
}

#[test]
fn from_name_knows_every_sanitized_name() {
    let names = [
        "duct_accessory",
        "duct_fitting",
        "electric_distribution_board",
        "equipment",
        "lighting_fixture",
        "mechanical_equipment",
        "pipe_accessory",
        "pipe_fitting",
        "plumbing_fixture",
        "wiring_accessory",
    ];
    for (category, name) in ALL.iter().zip(names.iter()) {
        assert_eq!(Category::from_name(name), Some(*category));
    }
    assert_eq!(Category::from_name("Equipment"), None);
    assert_eq!(Category::from_name("equipment "), None);
    assert_eq!(Category::from_name(""), None);
    assert_eq!(Category::from_name("equipment_category"), None);
}

#[test]
fn from_str_sanitizes_what_a_user_wrote() {
    assert_eq!(Category::from_str("equipment").unwrap(), Category::Equipment);
    assert_eq!(Category::from_str("Equipment").unwrap(), Category::Equipment);
    assert_eq!(Category::from_str("  Pipe Fitting \n").unwrap(), Category::PipeFitting);
    assert_eq!(Category::from_str("PIPE FITTING").unwrap(), Category::PipeFitting);
    assert_eq!(
        Category::from_str("Electric Distribution Board").unwrap(),
        Category::ElectricDistributionBoard
    );
    assert_eq!(Category::from_str("duct_accessory_category").unwrap(), Category::DuctAccessory);
    assert_eq!(Category::from_str("Duct Accessory Category").unwrap(), Category::DuctAccessory);
    assert_eq!(
        Category::from_str("equipment_category_category").unwrap(),
        Category::Equipment
    );
    assert_eq!(Category::from_str("\tLighting Fixture").unwrap(), Category::LightingFixture);
}

#[test]
fn from_str_fails_with_the_text_as_it_was_written() {
    match Category::from_str("  Walls ") {
        Err(Error::ParseError(text)) => assert_eq!(text, "  Walls "),
        other => panic!("unexpected: {:?}", other),
    }
    assert!(matches!(Category::from_str(""), Err(Error::ParseError(_))));
    assert!(matches!(Category::from_str("_category"), Err(Error::ParseError(_))));
    assert!(matches!(Category::from_str("pipe  fitting"), Err(Error::ParseError(_))));
    assert!(matches!(Category::from_str("pipe-fitting"), Err(Error::ParseError(_))));
}

#[test]
fn categories_are_ordered_as_declared() {
    for pair in ALL.windows(2) {
        assert!(pair[0] < pair[1]);
    }
}
