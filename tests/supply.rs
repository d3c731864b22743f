use chrono::DateTime;
use supply_domain::decimal::Amount;
use supply_domain::entity::{Entity, Timestamp};
use supply_domain::identifier::{Identifier, SupplyId};
use supply_domain::notification::ValidationHandler;
use supply_domain::price::Price;
use supply_domain::supply::Supply;
use uuid::Uuid;

fn rfc3339(t: &Timestamp) -> String {
    DateTime::from_timestamp(t.seconds, t.nanos).unwrap().to_rfc3339()
}

#[test]
fn create_a_valid_input() {
    let input = Supply::new("cimento", vec![Price::new("sc", 25000)]);
    assert!(input.is_ok());

    if let Ok(value) = input {
        assert_eq!(value.get_name(), "cimento");
        assert!(!value.get_id().get_value().is_empty());
        assert_eq!(value.get_prices().len(), 1);
        assert_eq!(value.get_prices().get(0).unwrap().get_unit(), "sc");
        assert_eq!(value.get_prices().get(0).unwrap().get_value(), Amount::new(25000, 2));
        assert_eq!(
            value.get_prices().get(0).unwrap().get_value_formatted(),
            "250.00"
        );
        assert!(!rfc3339(value.get_created_at()).is_empty());
        assert!(value.get_updated_at().is_none());
    }
}

#[test]
fn create_a_valid_input_with_id_param() {
    let input = Supply::with(
        SupplyId::from_str("fake_id"),
        "cimento",
        vec![Price::new("sc", 25000)],
    );
    assert!(input.is_ok());

    if let Ok(value) = input {
        assert_eq!(value.get_name(), "cimento");
        assert!(!value.get_id().get_value().is_empty());
        assert_eq!(value.get_id().get_value(), "fake_id");
        assert_eq!(value.get_prices().len(), 1);
        assert_eq!(value.get_prices().get(0).unwrap().get_unit(), "sc");
        assert_eq!(value.get_prices().get(0).unwrap().get_value(), Amount::new(25000, 2));
        assert_eq!(
            value.get_prices().get(0).unwrap().get_value_formatted(),
            "250.00"
        );
        assert!(!rfc3339(value.get_created_at()).is_empty());
        assert!(value.get_updated_at().is_none());
    }
}

#[test]
fn create_a_valid_input_with_id_param_uuid() {
    let input = Supply::with(
        SupplyId::from_uuid(Uuid::nil().as_u128()),
        "cimento",
        vec![Price::new("sc", 25000)],
    );
    assert!(input.is_ok());

    if let Ok(value) = input {
        assert_eq!(value.get_name(), "cimento");
        assert!(!value.get_id().get_value().is_empty());
        assert_eq!(
            value.get_id().get_value(),
            "00000000-0000-0000-0000-000000000000"
        );
        assert_eq!(value.get_prices().len(), 1);
        assert_eq!(value.get_prices().get(0).unwrap().get_unit(), "sc");
        assert_eq!(value.get_prices().get(0).unwrap().get_value(), Amount::new(25000, 2));
        assert_eq!(
            value.get_prices().get(0).unwrap().get_value_formatted(),
            "250.00"
        );
        assert!(!rfc3339(value.get_created_at()).is_empty());
        assert!(value.get_updated_at().is_none());
    }
}

#[test]
fn create_an_invalid_input_with_name_empty() {
    let input = Supply::new("", vec![Price::new("sc", 25000)]);
    assert!(input.is_err());

    if let Err(error) = input {
        assert!(error.has_errors());
        assert_eq!(error.get_errors().len(), 2);
        assert_eq!(
            error.get_first_error().unwrap().to_string(),
            "'name' should not be empty"
        );
        assert_eq!(
            error.format_errors(),
            vec![
                "'name' should not be empty",
                "'name' must be between 1 and 255 characters"
            ]
        );
    }
}

#[test]
fn create_an_invalid_input_with_price_empty() {
    let input = Supply::new("cimento", vec![]);
    assert!(input.is_err());

    if let Err(error) = input {
        assert!(error.has_errors());
        assert_eq!(error.get_errors().len(), 1);
        assert_eq!(
            error.get_first_error().unwrap().to_string(),
            "'price' should not be empty"
        );
        assert_eq!(error.format_errors(), vec!["'price' should not be empty",]);
    }
}

#[test]
fn create_an_invalid_input_with_id_empty() {
    let input = Supply::with(
        SupplyId::from_str(""),
        "cimento",
        vec![Price::new("sc", 25000)],
    );
    assert!(input.is_err());

    if let Err(error) = input {
        assert!(error.has_errors());
        assert_eq!(error.get_errors().len(), 1);
        assert_eq!(
            error.get_first_error().unwrap().to_string(),
            "'id' should not be empty"
        );
        assert_eq!(error.format_errors(), vec!["'id' should not be empty",]);
    }
}

#[test]
fn update_name_and_price_a_valid_input() {
    let input = Supply::new("cimento", vec![Price::new("sc", 26000)]);

    if let Ok(value) = input {
        let input = value
            .update(
                Some("cimento atualizado"),
                Some(vec![Price::new("sc", 2500), Price::new("kg", 250)]),
            )
            .unwrap();

        assert_eq!(input.get_name(), "cimento atualizado");
        assert!(!input.get_id().get_value().is_empty());
        assert_eq!(input.get_prices().len(), 2);
        assert_eq!(input.get_prices().get(0).unwrap().get_unit(), "sc");
        assert_eq!(input.get_prices().get(0).unwrap().get_value(), Amount::new(2500, 2));
        assert_eq!(
            input.get_prices_to_string(),
            vec!["unit:sc value:25.00", "unit:kg value:2.50"]
        );
        assert_eq!(
            input.get_prices().get(0).unwrap().get_value_formatted(),
            "25.00"
        );
        assert!(!rfc3339(input.get_created_at()).is_empty());
        assert!(input.get_updated_at().is_some());
    }
}

#[test]
fn create_a_valid_input_with_other_input() {
    let input = Supply::new("cimento", vec![Price::new("sc", 26000)]);
    if let Ok(value) = input {
        let other = Supply::with_input(&value);

        assert_eq!(other.get_name(), "cimento");
        assert!(!other.get_id().get_value().is_empty());
        assert_eq!(other.get_prices().len(), 1);
        assert_eq!(other.get_prices().get(0).unwrap().get_unit(), "sc");
        assert_eq!(other.get_prices().get(0).unwrap().get_value(), Amount::new(26000, 2));
        assert_eq!(other.get_prices_to_string(), vec!["unit:sc value:260.00"]);
        assert_eq!(
            other.get_prices().get(0).unwrap().get_value_formatted(),
            "260.00"
        );
        assert!(!rfc3339(other.get_created_at()).is_empty());
        assert!(other.get_updated_at().is_none());
    }
}

#[test]
fn supply_update_keeps_identity_and_creation_time() {
    let original = Supply::with(SupplyId::from_str("k-1"), "cimento", vec![Price::new("sc", 100)]).unwrap();
    let updated = original.update(Some("areia"), Some(vec![Price::new("m3", 9000)])).unwrap();
    assert_eq!(updated.get_id().get_value(), "k-1");
    assert_eq!(updated.get_created_at(), original.get_created_at());
    assert!(updated.get_updated_at().is_some());
    assert_eq!(updated.get_name(), "areia");
    assert_eq!(updated.get_prices_to_string(), vec!["unit:m3 value:90.00"]);
}

#[test]
fn supply_update_without_values_keeps_fields() {
    let original = Supply::new("cimento", vec![Price::new("sc", 100), Price::new("kg", 7)]).unwrap();
    let updated = original.update(None, None).unwrap();
    assert_eq!(updated.get_name(), "cimento");
    assert_eq!(updated.get_id().get_value(), original.get_id().get_value());
    assert_eq!(
        updated.get_prices_to_string(),
        vec!["unit:sc value:1.00", "unit:kg value:0.07"]
    );
}

#[test]
fn supply_update_to_invalid_values_is_rejected() {
    let original = Supply::new("cimento", vec![Price::new("sc", 100)]).unwrap();
    let error = original.update(Some("   "), Some(vec![])).unwrap_err();
    assert_eq!(
        error.format_errors(),
        vec![
            "'name' should not be empty",
            "'name' must be between 1 and 255 characters",
            "'price' should not be empty"
        ]
    );
}

#[test]
fn supply_blank_id_and_name_without_prices_reports_all() {
    let error = Supply::with(SupplyId::from_str(" \t"), "\n ", vec![]).unwrap_err();
    assert_eq!(
        error.format_errors(),
        vec![
            "'id' should not be empty",
            "'name' should not be empty",
            "'name' must be between 1 and 255 characters",
            "'price' should not be empty"
        ]
    );
}

#[test]
fn supply_name_length_bounds_count_trimmed_characters() {
    let longest: String = "ç".repeat(255);
    let padded = format!("  {}  ", longest);
    assert!(Supply::new(&padded, vec![Price::new("sc", 1)]).is_ok());
    let too_long: String = "a".repeat(256);
    let error = Supply::new(&too_long, vec![Price::new("sc", 1)]).unwrap_err();
    assert_eq!(
        error.format_errors(),
        vec!["'name' must be between 1 and 255 characters"]
    );
}

#[test]
fn supply_fresh_identifiers_are_hyphenated_uuids() {
    let id = SupplyId::unique();
    let text = id.get_value();
    assert_eq!(text.len(), 36);
    assert!(Uuid::parse_str(text).is_ok());
    assert_eq!(text.chars().nth(14), Some('4'));
    assert!(matches!(text.chars().nth(19), Some('8' | '9' | 'a' | 'b')));
    assert_ne!(SupplyId::unique().get_value(), text);
}

#[test]
fn supply_validate_appends_to_existing_errors() {
    let value = Supply::new("cimento", vec![Price::new("sc", 1)]).unwrap();
    let mut handler = supply_domain::notification::Notification::new();
    handler.append(&supply_domain::error::CustomError::ApiError("earlier".to_string()));
    value.validate(&mut handler);
    assert_eq!(handler.format_errors(), vec!["ApiError: earlier"]);
}

#[test]
fn supply_id_from_uuid_value_is_its_hyphenated_text() {
    let u = Uuid::parse_str("67e55044-10b1-426f-9247-bb680e5fe0c8").unwrap();
    let id = SupplyId::from_uuid(u.as_u128());
    assert_eq!(id.get_value(), "67e55044-10b1-426f-9247-bb680e5fe0c8");
}
