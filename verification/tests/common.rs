use parallel::{add_numbers, CommonError, Config};

#[test]
fn test_add_numbers() {
    assert_eq!(add_numbers(2, 2), 4);
}

#[test]
fn add_numbers_reaches_both_ends_of_the_range() {
    assert_eq!(add_numbers(i32::MAX, 0), i32::MAX);
    assert_eq!(add_numbers(i32::MIN, 0), i32::MIN);
    assert_eq!(add_numbers(i32::MAX, i32::MIN), -1);
    assert_eq!(add_numbers(-7, 3), -4);
}

#[test]
fn common_error_messages_name_the_variant() {
    let invalid = CommonError::InvalidInput("empty name".to_string());
    assert_eq!(invalid.message(), "Invalid input: empty name");
    let failed = CommonError::OperationFailed("disk full".to_string());
    assert_eq!(failed.message(), "Operation failed: disk full");
    assert_eq!(CommonError::InvalidInput(String::new()).message(), "Invalid input: ");
}

#[test]
fn config_holds_its_fields() {
    let config = Config { name: "example".to_string(), value: 4 };
    assert_eq!(config.name, "example");
    assert_eq!(config.value, 4);
    assert_eq!(format!("{:?}", config), "Config { name: \"example\", value: 4 }");
}
