use gnuplotter::command::{GnuCommandFactory, GnuCommandFactoryError};
use gnuplotter::dimension::{X, Y};
use gnuplotter::label::Label;
use gnuplotter::maybe::Maybe;
use gnuplotter::required::Required;
use gnuplotter::title::Title;

#[test]
fn test_required_is_default_missing() {
    let required: Required<i32> = Required::missing();
    assert_eq!(required, Required::Missing);
}

#[test]
fn test_updating_values() {
    let mut required: Required<i32> = Required::missing();
    required.update(123);
    assert_eq!(required, Required::Value(123));

    let mut required: Required<i32> = Required::value(123);
    required.update(456);
    assert_eq!(required, Required::Value(456));
}

#[test]
fn required_test_updating_convertable_value() {
    let mut required = Required::<String>::missing();
    required.update("something that can be converted");

    assert_eq!(required, Required::Value(String::from("something that can be converted")));
}

#[test]
fn test_an_str_can_be_converted_into_a_required_string() {
    let s = "Hello, world!";
    let required_s: Required<String> = s.into();
    assert_eq!(required_s, Required::Value(String::from(s)));
}

#[test]
fn test_a_maybe_can_be_constructed() {
    assert_eq!(Maybe::value(1), Maybe::Value(1));
}

#[test]
fn test_an_empty_maybe_can_be_updated() {
    let mut maybe: Maybe<i32> = Maybe::Nothing;
    maybe.update(123);
    assert_eq!(maybe, Maybe::Value(123));
}

#[test]
fn test_a_maybe_can_be_updated() {
    let mut maybe: Maybe<i32> = Maybe::value(123);
    maybe.update(456);
    assert_eq!(maybe, Maybe::Value(456));
}

#[test]
fn maybe_test_updating_convertable_value() {
    let mut maybe = Maybe::<String>::Nothing;
    maybe.update("something that can be converted");

    assert_eq!(maybe, Maybe::Value(String::from("something that can be converted")));
}

#[test]
fn test_an_str_can_be_converted_into_a_maybe_string() {
    let s = "Hello, world!";
    let maybe_s: Maybe<String> = s.into();
    assert_eq!(maybe_s, Maybe::Value(String::from(s)));
}

#[test]
fn test_default_for_required_dimension() {
    let required: Required<X> = Required::default();
    assert_eq!(required, Required::Missing);
}

#[test]
fn test_default_for_maybe_dimension() {
    let maybe: Maybe<Y> = Maybe::default();
    assert_eq!(maybe, Maybe::Nothing);
}

#[test]
fn test_unwrap_gives_the_value_held() {
    assert_eq!(Required::value(7).unwrap(), 7);
    assert_eq!(Maybe::value("seven").unwrap(), "seven");
}

#[test]
fn test_get_mut_ref_changes_the_value_in_place() {
    let mut required = Required::value(String::from("a"));
    required.get_mut_ref().push('b');
    assert_eq!(required, Required::Value(String::from("ab")));
}

#[test]
fn test_a_required_value_never_reverts_by_update() {
    let mut required: Required<Title> = Required::missing();
    required.update("first");
    required.update("second");
    assert_eq!(required, Required::value(Title::new("second")));
}

#[test]
fn test_a_missing_required_value_fails_with_required_value_missing() {
    let label: Required<Label<X>> = Required::Missing;
    let result = label.as_commands();
    assert_eq!(
        result,
        Err(GnuCommandFactoryError::RequiredValueMissing(String::from(
            "A required value is missing, but needs a value when producing GnuCommands"
        )))
    );
}

#[test]
fn test_an_unset_maybe_yields_no_command_and_no_error() {
    let title: Maybe<Title> = Maybe::Nothing;
    let commands = title.as_commands().unwrap();
    assert!(commands.is_empty());
}

#[test]
fn test_nested_required_values_compose() {
    let inner_missing: Required<Required<Title>> = Required::value(Required::Missing);
    assert!(matches!(
        inner_missing.as_commands(),
        Err(GnuCommandFactoryError::RequiredValueMissing(_))
    ));
    let outer_missing: Required<Required<Title>> = Required::Missing;
    assert!(matches!(
        outer_missing.as_commands(),
        Err(GnuCommandFactoryError::RequiredValueMissing(_))
    ));
    let set: Required<Required<Title>> = Required::value(Required::value(Title::new("t")));
    let commands = set.as_commands().unwrap();
    assert_eq!(commands.len(), 1);
    assert_eq!(commands[0].to_string(), "set title 't'");
}

#[test]
fn test_nested_maybe_values_compose() {
    let inner_nothing: Maybe<Maybe<Title>> = Maybe::value(Maybe::Nothing);
    assert_eq!(inner_nothing.as_commands().unwrap().len(), 0);
    let outer_nothing: Maybe<Maybe<Title>> = Maybe::Nothing;
    assert_eq!(outer_nothing.as_commands().unwrap().len(), 0);
    let mixed: Maybe<Required<Title>> = Maybe::value(Required::Missing);
    assert!(matches!(
        mixed.as_commands(),
        Err(GnuCommandFactoryError::RequiredValueMissing(_))
    ));
}
