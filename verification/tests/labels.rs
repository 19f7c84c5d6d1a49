use gnuplotter::axis::{Axis, AxisTrait};
use gnuplotter::command::{GnuCommand, GnuCommandFactory, GnuCommandFactoryError};
use gnuplotter::dimension::{Dimension, X, Y};
use gnuplotter::label::Label;
use gnuplotter::maybe::Maybe;
use gnuplotter::required::Required;
use gnuplotter::title::Title;
use gnuplotter::x_label::XLabel;
use gnuplotter::y_label::YLabel;

#[test]
fn test_an_x_axis_can_be_created() {
    let axis: Axis<X> = Axis::new();
    assert_eq!(axis.dimension(), &Required::value(X::default()));
}

#[test]
fn test_a_y_axis_can_be_created() {
    let axis: Axis<Y> = Axis::new();
    assert_eq!(axis.dimension(), &Required::value(Y::default()));
}

#[test]
fn test_an_axis_can_be_converted_to_commands() {
    let mut axis: Axis<X> = Axis::new();
    axis.label("x");
    let mut commands = axis.as_commands().unwrap();

    assert_eq!(commands.len(), 1);
    assert_eq!(commands.pop_front().unwrap().to_string(), "set xlabel \"x\"");
}

#[test]
fn test_an_axis_without_label_fails() {
    let axis: Axis<Y> = Axis::new();
    assert!(matches!(
        axis.as_commands(),
        Err(GnuCommandFactoryError::RequiredValueMissing(_))
    ));
}

#[test]
fn test_labelling_a_missing_axis_makes_one() {
    let mut axis: Required<Axis<Y>> = Required::Missing;
    axis.label("height");
    let commands = axis.as_commands().unwrap();
    assert_eq!(commands.len(), 1);
    assert_eq!(commands[0].to_string(), "set ylabel \"height\"");
    axis.label("depth");
    assert_eq!(axis.as_commands().unwrap()[0].to_string(), "set ylabel \"depth\"");
}

#[test]
fn label_test_an_x_label_can_be_created_from_a_string_slice_reference() {
    let label: Label<X> = Label::new("x");
    assert_eq!(label.text(), "x");
}

#[test]
fn label_test_a_y_label_can_be_created_from_a_string_slice_reference() {
    let label: Label<Y> = Label::new("y");
    assert_eq!(label.text(), "y");
}

#[test]
fn label_test_a_maybe_x_label_can_be_created_from_a_string_slice_reference() {
    let maybe_x_label: Maybe<Label<X>> = Label::from("label").into();
    assert_eq!(maybe_x_label, Maybe::value(Label::<X>::new("label")));
}

#[test]
fn label_test_a_required_x_label_can_be_created_from_a_string_slice_reference() {
    let maybe_x_label: Required<Label<X>> = Label::from("label").into();
    assert_eq!(maybe_x_label, Required::value(Label::<X>::new("label")));
}

#[test]
fn test_a_label_has_label_information() {
    let label: Label<X> = Label::new("x");
    let mut commands = label.as_commands().unwrap();

    assert_eq!(commands.len(), 1);
    assert_eq!(commands.pop_front().unwrap().to_string(), "set xlabel \"x\"");
}

#[test]
fn test_a_maybe_label_has_label_information() {
    let label: Maybe<Label<X>> = Maybe::value(Label::from("x"));
    let mut commands = label.as_commands().unwrap();

    assert_eq!(commands.len(), 1);
    assert_eq!(commands.pop_front().unwrap().to_string(), "set xlabel \"x\"");
}

#[test]
fn test_an_empty_maybe_label_has_no_label_information() {
    let label: Maybe<Label<X>> = Maybe::Nothing;
    let commands = label.as_commands().unwrap();

    assert_eq!(commands.len(), 0);
}

#[test]
fn test_a_required_label_has_label_information() {
    let label: Required<Label<Y>> = Required::value(Label::from("y"));
    let mut commands = label.as_commands().unwrap();

    assert_eq!(commands.len(), 1);
    assert_eq!(commands.pop_front().unwrap().to_string(), "set ylabel \"y\"");
}

#[test]
fn test_a_label_round_trips_through_its_command() {
    let x: Label<X> = Label::new("X");
    let commands = x.as_commands().unwrap();
    assert_eq!(commands.len(), 1);
    assert_eq!(commands[0], GnuCommand::new("set xlabel \"X\""));

    let y: Label<Y> = Label::new("Y");
    let commands = y.as_commands().unwrap();
    assert_eq!(commands.len(), 1);
    assert_eq!(commands[0], GnuCommand::new("set ylabel \"Y\""));
}

#[test]
fn test_dimension_names() {
    assert_eq!(X::name(), "x");
    assert_eq!(Y::name(), "y");
}

#[test]
fn test_a_label_converts_from_a_string_slice() {
    let label: Label<X> = "width".into();
    assert_eq!(label, Label::new("width"));
    let required: Required<Label<X>> = "width".into();
    assert_eq!(required, Required::value(Label::new("width")));
    assert_eq!(label.clone().text(), "width");
}

#[test]
fn test_a_title_can_be_created_from_a_string_slice_reference() {
    let title = Title::new("an experiment");
    assert_eq!(title.text(), "an experiment");
}

#[test]
fn test_a_maybe_title_can_be_created_from_a_string_slice_reference() {
    let maybe_title: Maybe<Title> = "an experiment".into();
    assert_eq!(maybe_title, Maybe::value(Title::new("an experiment")));
}

#[test]
fn test_a_required_title_can_be_created_from_a_string_slice_reference() {
    let maybe_title: Required<Title> = "an experiment".into();
    assert_eq!(maybe_title, Required::value(Title::new("an experiment")));
}

#[test]
fn test_a_title_has_one_command() {
    let title = Title::new("an experiment");
    let commands = title.as_commands().unwrap();
    assert_eq!(commands.len(), 1);
    assert_eq!(commands[0].to_string(), "set title 'an experiment'");
}

#[test]
fn x_label_test_an_x_label_can_be_created_from_a_string_slice_reference() {
    let x_label = XLabel::new("label");
    assert_eq!(x_label.text(), "label");
}

#[test]
fn x_label_test_a_maybe_x_label_can_be_created_from_a_string_slice_reference() {
    let maybe_x_label: Maybe<XLabel> = "label".into();
    assert_eq!(maybe_x_label, Maybe::value(XLabel::new("label")));
}

#[test]
fn x_label_test_a_required_x_label_can_be_created_from_a_string_slice_reference() {
    let maybe_x_label: Required<XLabel> = "label".into();
    assert_eq!(maybe_x_label, Required::value(XLabel::new("label")));
}

#[test]
fn y_label_test_a_y_label_can_be_created_from_a_string_slice_reference() {
    let y_label = YLabel::new("label");
    assert_eq!(y_label.text(), "label");
}

#[test]
fn test_a_maybe_y_label_can_be_created_from_a_string_slice_reference() {
    let maybe_y_label: Maybe<YLabel> = "label".into();
    assert_eq!(maybe_y_label, Maybe::value(YLabel::new("label")));
}

#[test]
fn test_a_required_y_label_can_be_created_from_a_string_slice_reference() {
    let maybe_y_label: Required<YLabel> = "label".into();
    assert_eq!(maybe_y_label, Required::value(YLabel::new("label")));
}

#[test]
fn test_fixed_axis_labels_have_one_command() {
    assert_eq!(XLabel::new("time").as_command().to_string(), "set xlabel \"time\"");
    assert_eq!(YLabel::new("load").as_command().to_string(), "set ylabel \"load\"");
    let commands = YLabel::new("load").as_commands().unwrap();
    assert_eq!(commands.len(), 1);
    assert_eq!(commands[0].to_string(), "set ylabel \"load\"");
}

#[test]
fn test_a_command_is_its_text() {
    let command = GnuCommand::new("set grid");
    assert_eq!(command.to_string(), "set grid");
    assert_eq!(command, GnuCommand::new("set grid"));
    assert_ne!(command, GnuCommand::new("set grid "));
    assert_eq!(command.into_string(), "set grid");
}

#[test]
fn test_error_constructors_keep_kind_and_text() {
    assert_eq!(
        GnuCommandFactoryError::required_value_missing("a"),
        GnuCommandFactoryError::RequiredValueMissing(String::from("a"))
    );
    assert_eq!(
        GnuCommandFactoryError::io_error("b"),
        GnuCommandFactoryError::IOError(String::from("b"))
    );
    assert_eq!(
        GnuCommandFactoryError::message("c"),
        GnuCommandFactoryError::Message(String::from("c"))
    );
    assert_eq!(GnuCommandFactoryError::io_error("b").to_string(), "b");
    assert_eq!(GnuCommandFactoryError::message("c").into_string(), "c");
}

#[derive(Default, Debug, PartialEq)]
struct Z {}

impl Dimension for Z {
    fn name() -> &'static str {
        "z"
    }
}

#[test]
fn test_a_dimension_of_the_user_selects_its_keyword() {
    let label: Label<Z> = Label::new("depth");
    let commands = label.as_commands().unwrap();
    assert_eq!(commands.len(), 1);
    assert_eq!(commands[0].to_string(), "set zlabel \"depth\"");

    let mut axis: Axis<Z> = Axis::new();
    assert_eq!(axis.dimension(), &Required::value(Z {}));
    axis.label("depth");
    assert_eq!(axis.as_commands().unwrap()[0].to_string(), "set zlabel \"depth\"");
}

#[test]
#[should_panic(expected = "A required value is missing, but needs a value when producing GnuCommands")]
fn test_a_missing_required_label_has_no_label_information() {
    let label: Required<Label<X>> = Required::Missing;
    let commands = label.as_commands().unwrap();

    assert_eq!(commands.len(), 0);
}
