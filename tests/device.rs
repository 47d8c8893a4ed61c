use speculos_client::DeviceModel;

const ALL: [DeviceModel; 6] = [
    DeviceModel::Nanos,
    DeviceModel::Nanox,
    DeviceModel::Nanosp,
    DeviceModel::Blue,
    DeviceModel::Stax,
    DeviceModel::Flex,
];

#[test]
fn slugs_match_emulator_names() {
    assert_eq!(DeviceModel::Nanos.slug(), "nanos");
    assert_eq!(DeviceModel::Nanox.slug(), "nanox");
    assert_eq!(DeviceModel::Nanosp.slug(), "nanosp");
    assert_eq!(DeviceModel::Blue.slug(), "blue");
    assert_eq!(DeviceModel::Stax.slug(), "stax");
    assert_eq!(DeviceModel::Flex.slug(), "flex");
}

#[test]
fn slugs_are_distinct_non_empty_and_stable() {
    for (i, a) in ALL.iter().enumerate() {
        assert!(!a.slug().is_empty());
        assert_eq!(a.slug(), a.slug());
        for (j, b) in ALL.iter().enumerate() {
            if i != j {
                assert_ne!(a.slug(), b.slug());
            }
        }
    }
}
