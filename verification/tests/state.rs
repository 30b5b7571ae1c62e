use temperature_converter::error::ConversionError;
use temperature_converter::state::{Converter, Message};
use temperature_converter::units::Temperature;

#[test]
fn fresh_state_is_empty_and_unspecified() {
    let c = Converter::new();
    assert_eq!(c.input, "");
    assert_eq!(c.from, Temperature::Unspecified);
    assert_eq!(c.to, Temperature::Unspecified);
    assert_eq!(c.result, 0);
}

#[test]
fn title_names_the_window() {
    let c = Converter::new();
    assert_eq!(c.title(), "Temperature Converter");
}

#[test]
fn full_interaction_computes_the_conversion() {
    let mut c = Converter::new();
    assert!(c.update(Message::ChangeTextInput("100".to_owned())).is_ok());
    assert!(c.update(Message::FromSelected(Temperature::Celsius)).is_ok());
    assert!(c.update(Message::ToSelected(Temperature::Fahrenheit)).is_ok());
    assert!(c.update(Message::Calculate).is_ok());
    assert_eq!(c.result, 212);

    // a later event only records its own change
    assert!(c.update(Message::ChangeTextInput("0".to_owned())).is_ok());
    assert_eq!(c.result, 212);
    assert!(c.update(Message::Calculate).is_ok());
    assert_eq!(c.result, 32);
}

#[test]
fn calculate_with_bad_text_reports_and_keeps_state() {
    let mut c = Converter::new();
    assert!(c.update(Message::ChangeTextInput("40".to_owned())).is_ok());
    assert!(c.update(Message::FromSelected(Temperature::Celsius)).is_ok());
    assert!(c.update(Message::ToSelected(Temperature::Kelvin)).is_ok());
    assert!(c.update(Message::Calculate).is_ok());
    assert_eq!(c.result, 313);

    assert!(c.update(Message::ChangeTextInput("forty".to_owned())).is_ok());
    let r = c.update(Message::Calculate);
    assert_eq!(r, Err(ConversionError::InvalidInputError));
    assert_eq!(c.result, 313);
    assert_eq!(c.input, "forty");
    assert_eq!(c.from, Temperature::Celsius);
    assert_eq!(c.to, Temperature::Kelvin);
}

#[test]
fn calculate_before_any_selection_gives_zero() {
    let mut c = Converter::new();
    assert!(c.update(Message::ChangeTextInput("5".to_owned())).is_ok());
    assert!(c.update(Message::Calculate).is_ok());
    assert_eq!(c.result, 0);
}

#[test]
fn unit_names_match_declaration() {
    assert_eq!(Temperature::Fahrenheit.name(), "Fahrenheit");
    assert_eq!(Temperature::Celsius.name(), "Celsius");
    assert_eq!(Temperature::Kelvin.name(), "Kelvin");
    assert_eq!(Temperature::Unspecified.name(), "Unspecified");
}

#[test]
fn all_units_in_declaration_order() {
    let all = Temperature::all();
    assert_eq!(
        all,
        vec![
            Temperature::Fahrenheit,
            Temperature::Celsius,
            Temperature::Kelvin,
            Temperature::Unspecified,
        ]
    );
}

#[test]
fn error_has_a_readable_message() {
    assert_eq!(ConversionError::InvalidInputError.message(), "Input is not a number");
}
