use tquest::IntEntry;
use tquest::OptionEntry;
use tquest::QuestionAnswerInput;
use tquest::StringEntry;
use tquest::BoolEntry;
use tquest::ValidationError;

#[test]
fn it_works() {
}

#[test]
fn test_string_validate_min_length() {
    let entry = StringEntry {
        default_value: None,
        min_length: Some(5),
        max_length: None,
        regexp: None,
    };
    assert!(entry.validate("12345", true).is_ok());
    assert!(entry.validate("1234", true).is_err());
}

#[test]
fn test_string_validate_max_length() {
    let entry = StringEntry {
        default_value: None,
        min_length: None,
        max_length: Some(5),
        regexp: None,
    };
    assert!(entry.validate("12345", true).is_ok());
    assert!(entry.validate("123456", true).is_err());
}

#[test]
fn test_string_validate_regex() {
    let entry = StringEntry {
        default_value: None,
        min_length: None,
        max_length: None,
        regexp: Some(r"^\d+$".to_string()),
    };
    assert!(entry.validate("12345", true).is_ok());
    assert!(entry.validate("1234a", true).is_err());
}

#[test]
fn test_string_validate_all_constraints_met() {
    let entry = StringEntry {
        default_value: None,
        min_length: Some(3),
        max_length: Some(5),
        regexp: Some(r"^\d+$".to_string()),
    };
    assert!(entry.validate("123", true).is_ok());
    assert!(entry.validate("1234", true).is_ok());
    assert!(entry.validate("12345", true).is_ok());
    assert!(entry.validate("12", true).is_err());
    assert!(entry.validate("123456", true).is_err());
    assert!(entry.validate("12a34", true).is_err());
}

#[test]
fn test_string_validate_no_constraints() {
    let entry = StringEntry {
        default_value: None,
        min_length: None,
        max_length: None,
        regexp: None,
    };
    assert!(entry.validate("any string", true).is_ok());
}

#[test]
fn test_string_validate_combined_constraints() {
    let entry = StringEntry {
        default_value: None,
        min_length: Some(3),
        max_length: Some(5),
        regexp: Some(r"^\d+$".to_string()),
    };

    assert_eq!(
        entry.validate("123", true).unwrap(),
        QuestionAnswerInput::String(Some("123".to_string()))
    );
    assert_eq!(
        entry.validate("1234", true).unwrap(),
        QuestionAnswerInput::String(Some("1234".to_string()))
    );
    assert_eq!(
        entry.validate("12345", true).unwrap(),
        QuestionAnswerInput::String(Some("12345".to_string()))
    );

    assert!(entry.validate("12", true).is_err());
    assert!(entry.validate("123456", true).is_err());
    assert!(entry.validate("12a34", true).is_err());
}

#[test]
fn test_string_validate_error_messages() {
    let entry = StringEntry {
        default_value: None,
        min_length: Some(3),
        max_length: Some(5),
        regexp: Some(r"^\d+$".to_string()),
    };
    assert_eq!(entry.validate("12", true).unwrap_err().message(), "Min input len not respected");
    assert_eq!(
        entry.validate("123456", true).unwrap_err().message(),
        "Max input len not respected"
    );
    assert_eq!(
        entry.validate("12a34", true).unwrap_err(),
        ValidationError::RegexNotMatched
    );
}

#[test]
fn test_int_validate_with_empty_input_with_default_value() {
    let entry = IntEntry {
        default_value: Some(10),
        max: None,
        min: None,
    };
    let result = entry.validate("", true);
    assert_eq!(result.unwrap(), QuestionAnswerInput::Int(Some(10)));
}

#[test]
fn test_int_validate_with_empty_input_without_default_value() {
    let entry = IntEntry {
        default_value: None,
        max: None,
        min: None,
    };
    let result = entry.validate("", true);
    assert!(result.is_err());
    assert_eq!(result.unwrap_err().message(), "No default value is set. Input is needed.");
}

#[test]
fn test_int_validate_with_non_empty_input_non_integer() {
    let entry = IntEntry {
        default_value: Some(10),
        max: None,
        min: None,
    };
    let result = entry.validate("abc", true);
    assert!(result.is_err());
    assert_eq!(result.unwrap_err().message(), "Input can not be cast into an int value.");
}

#[test]
fn test_int_validate_with_non_empty_input_integer_within_bounds() {
    let entry = IntEntry {
        default_value: Some(10),
        max: Some(100),
        min: Some(1),
    };
    let result = entry.validate("50", true);
    assert_eq!(result.unwrap(), QuestionAnswerInput::Int(Some(50)));
}

#[test]
fn test_int_validate_with_non_empty_input_integer_below_min() {
    let entry = IntEntry {
        default_value: Some(10),
        max: Some(100),
        min: Some(20),
    };
    let result = entry.validate("10", true);
    assert!(result.is_err());
    assert_eq!(result.unwrap_err().message(), "Input doesn't respect min value constraint.");
}

#[test]
fn test_int_validate_with_non_empty_input_integer_above_max() {
    let entry = IntEntry {
        default_value: Some(10),
        max: Some(100),
        min: Some(1),
    };
    let result = entry.validate("150", true);
    assert!(result.is_err());
    assert_eq!(result.unwrap_err().message(), "Input doesn't respect max value constraint.");
}

#[test]
fn test_int_validate_extremes_and_signs() {
    let entry = IntEntry {
        default_value: None,
        max: None,
        min: None,
    };
    assert_eq!(entry.validate("2147483647", true).unwrap(), QuestionAnswerInput::Int(Some(i32::MAX)));
    assert_eq!(
        entry.validate("-2147483648", true).unwrap(),
        QuestionAnswerInput::Int(Some(i32::MIN))
    );
    assert_eq!(entry.validate("+17", true).unwrap(), QuestionAnswerInput::Int(Some(17)));
    assert!(entry.validate("2147483648", true).is_err());
    assert!(entry.validate("-2147483649", true).is_err());
    assert!(entry.validate("99999999999999999999999999", true).is_err());
    assert!(entry.validate("+", true).is_err());
    assert!(entry.validate("-", true).is_err());
    assert!(entry.validate(" 5", true).is_err());
}

#[test]
fn test_bool_validate_with_empty_input_and_default() {
    let entry = BoolEntry { default_value: Some(true) };
    let result = entry.validate("", true);
    assert_eq!(result.unwrap(), QuestionAnswerInput::Bool(Some(true)));
}

#[test]
fn test_bool_validate_with_empty_input_and_no_default() {
    let entry = BoolEntry { default_value: None };
    let result = entry.validate("", true);
    assert!(result.is_err());
    assert_eq!(result.unwrap_err().message(), "No default value is set. Input is needed.");
}

#[test]
fn test_bool_validate_with_valid_true_inputs() {
    let entry = BoolEntry { default_value: None };
    let inputs = ["y", "yes", "true"];
    for &input in inputs.iter() {
        let result = entry.validate(input, true);
        assert_eq!(result.unwrap(), QuestionAnswerInput::Bool(Some(true)));
    }
}

#[test]
fn test_bool_validate_with_valid_false_inputs() {
    let entry = BoolEntry { default_value: None };
    let inputs = ["n", "no", "false"];
    for &input in inputs.iter() {
        let result = entry.validate(input, true);
        assert_eq!(result.unwrap(), QuestionAnswerInput::Bool(Some(false)));
    }
}

#[test]
fn test_bool_validate_mixed_case_inputs() {
    let entry = BoolEntry { default_value: None };
    assert_eq!(entry.validate("YES", true).unwrap(), QuestionAnswerInput::Bool(Some(true)));
    assert_eq!(entry.validate("True", true).unwrap(), QuestionAnswerInput::Bool(Some(true)));
    assert_eq!(entry.validate("No", true).unwrap(), QuestionAnswerInput::Bool(Some(false)));
    assert_eq!(entry.validate("FALSE", true).unwrap(), QuestionAnswerInput::Bool(Some(false)));
}

#[test]
fn test_bool_validate_with_invalid_input() {
    let entry = BoolEntry { default_value: None };
    let result = entry.validate("invalid", true);
    assert!(result.is_err());
    assert_eq!(result.unwrap_err().message(), "Input can not be cast into a bool value.");
}

#[test]
fn test_option_validate_with_valid_input() {
    let options = vec!["Option1".to_string(), "Option2".to_string(), "Option3".to_string()];
    let option_entry = OptionEntry {
        default_value: None,
        options,
    };

    let result = option_entry.validate("0", true);
    assert_eq!(result.unwrap(), QuestionAnswerInput::Option(Some("Option1".to_string())));
}

#[test]
fn test_option_validate_with_empty_input_and_default_value() {
    let options = vec!["Option1".to_string(), "Option2".to_string(), "Option3".to_string()];
    let option_entry = OptionEntry {
        default_value: Some(1),
        options,
    };

    let result = option_entry.validate("1", true);
    assert_eq!(result.unwrap(), QuestionAnswerInput::Option(Some("Option2".to_string())));
}

#[test]
fn test_option_validate_with_empty_input_and_invalid_default_value() {
    let options = vec!["Option1".to_string(), "Option2".to_string()];
    let option_entry = OptionEntry {
        default_value: Some(5),
        options,
    };

    let result = option_entry.validate("2", true);
    assert!(result.is_err());
    assert_eq!(
        result.unwrap_err().message(),
        "Default value index is bigger than the options list"
    );
}

#[test]
fn test_option_validate_with_empty_input_and_no_default_value() {
    let options = vec!["Option1".to_string(), "Option2".to_string()];
    let option_entry = OptionEntry {
        default_value: None,
        options,
    };

    let result = option_entry.validate("", true);
    assert!(result.is_err());
    assert_eq!(result.unwrap_err().message(), "No default value is set. Input is needed.");
}

#[test]
fn test_option_validate_index_maps_to_label() {
    let option_entry = OptionEntry {
        default_value: None,
        options: vec!["a".to_string(), "b".to_string(), "c".to_string()],
    };
    let result = option_entry.validate("1", true);
    assert_eq!(result.unwrap(), QuestionAnswerInput::Option(Some("b".to_string())));
}

#[test]
fn test_option_validate_unparsable_index() {
    let option_entry = OptionEntry {
        default_value: None,
        options: vec!["a".to_string(), "b".to_string()],
    };
    let result = option_entry.validate("abc", true);
    assert_eq!(result.unwrap_err().message(), "Input can't be cast into the option index.");
}

#[test]
fn test_option_validate_huge_index() {
    let option_entry = OptionEntry {
        default_value: None,
        options: vec!["a".to_string()],
    };
    assert_eq!(
        option_entry.validate("99999999999999999999999999", true).unwrap_err().message(),
        "Input can't be cast into the option index."
    );
    assert_eq!(
        option_entry.validate("1", true).unwrap_err().message(),
        "Default value index is bigger than the options list"
    );
}

#[test]
fn test_string_validate_empty_input_rules() {
    let with_default = StringEntry {
        default_value: Some("fallback".to_string()),
        min_length: None,
        max_length: None,
        regexp: None,
    };
    assert_eq!(
        with_default.validate("", true).unwrap(),
        QuestionAnswerInput::String(Some("fallback".to_string()))
    );

    let without_default = StringEntry {
        default_value: None,
        min_length: None,
        max_length: None,
        regexp: None,
    };
    assert_eq!(
        without_default.validate("", false).unwrap(),
        QuestionAnswerInput::String(None)
    );
    assert_eq!(
        without_default.validate("", true).unwrap_err(),
        ValidationError::InputNeeded
    );
}

#[test]
fn test_string_validate_trims_input() {
    let entry = StringEntry {
        default_value: None,
        min_length: None,
        max_length: None,
        regexp: Some(r"^\d+$".to_string()),
    };
    assert_eq!(
        entry.validate("  123  ", true).unwrap(),
        QuestionAnswerInput::String(Some("123".to_string()))
    );
    assert!(entry.validate("  12a  ", true).is_err());

    let plain = StringEntry {
        default_value: None,
        min_length: None,
        max_length: None,
        regexp: None,
    };
    assert_eq!(
        plain.validate("\thello world \n", true).unwrap(),
        QuestionAnswerInput::String(Some("hello world".to_string()))
    );
}
