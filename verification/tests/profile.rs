use ens_lookup::Profile;

#[test]
fn no_flag_selects_development() {
    assert_eq!(Profile::from_flag(None), Profile::Development);
}

#[test]
fn dev_selects_development() {
    assert_eq!(Profile::from_flag(Some("dev".to_string())), Profile::Development);
}

#[test]
fn any_other_value_selects_production() {
    for flag in ["prod", "production", "", "DEV", "Dev", "dev ", " dev", "development", "de"] {
        assert_eq!(Profile::from_flag(Some(flag.to_string())), Profile::Production);
    }
}

#[test]
fn each_profile_has_its_dataset() {
    assert_eq!(Profile::Development.dataset_path(), "./data/ensToAddMock.json");
    assert_eq!(Profile::Production.dataset_path(), "./data/ensToAdd.json");
}

#[test]
fn flag_is_read_from_the_profile_variable() {
    assert_eq!(Profile::variable(), "PROFILE");
}

#[test]
fn default_dataset_is_the_mock_one() {
    assert_eq!(Profile::from_flag(None).dataset_path(), "./data/ensToAddMock.json");
    assert_eq!(Profile::from_flag(Some("live".to_string())).dataset_path(), "./data/ensToAdd.json");
}
