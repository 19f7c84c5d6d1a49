use gnuplotter::aggregate::Aggregator;
use gnuplotter::command::{
    GnuCommand, GnuCommandFactory, GnuCommandFactoryError, GnuCommandFactoryResult,
};
use gnuplotter::label::Label;
use gnuplotter::maybe::Maybe;
use gnuplotter::plot_2d::{Plot2D, XAxis, YAxis};
use gnuplotter::required::Required;
use gnuplotter::serie::Serie;
use gnuplotter::title::Title;

fn texts(plot: &Plot2D<f64>) -> Vec<String> {
    plot.as_commands().unwrap().iter().map(|command| command.to_string()).collect()
}

#[test]
fn test_axis_creation_with_optional_label() {
    let mut axis = YAxis::default();
    let commands = axis.as_commands().unwrap();

    assert_eq!(commands.len(), 0);

    axis.label().update("label y");
    let commands = axis.as_commands().unwrap();

    assert_eq!(commands.len(), 1);
}

#[test]
fn test_axis_creation_with_required_label() {
    let mut axis = XAxis::default();
    axis.label().update("label x");
    let commands = axis.as_commands().unwrap();

    assert_eq!(commands.len(), 1);

    axis.label().update("label x 2nd");
    let mut commands = axis.as_commands().unwrap();
    let c: String = commands.pop_front().unwrap().into_string();
    assert_eq!(c, "set xlabel \"label x 2nd\"");
}

#[test]
fn test_an_axis_with_required_label_fails_without_it() {
    let axis = XAxis::default();
    assert_eq!(
        axis.as_commands(),
        Err(GnuCommandFactoryError::RequiredValueMissing(String::from(
            "A required value is missing, but needs a value when producing GnuCommands"
        )))
    );
}

#[test]
fn test_a_plot_fails_without_the_label_of_its_x_axis() {
    let mut plot = Plot2D::<f64>::default();
    plot.config().terminal().output().update("abc");
    let commands = plot.as_commands();

    assert!(matches!(commands, Err(GnuCommandFactoryError::RequiredValueMissing(_))));
}

#[test]
fn test_plot_creation() {
    let mut plot = Plot2D::<f64>::default();

    assert_eq!(plot.title(), &mut Maybe::Nothing);
    assert_eq!(plot.x(), &mut XAxis::default());
    assert_eq!(plot.y(), &mut YAxis::default());

    plot.title().update("an experiment");
    plot.x().label().update("label x");
    plot.y().label().update("label y");
    plot.config().terminal().output().update("./plot.png");

    let commands = plot.as_commands();

    assert_eq!(
        commands,
        Err(GnuCommandFactoryError::Message(String::from("Unable to strip suffix")))
    );
}

#[test]
fn test_plot_creation_with_a_series() {
    let mut plot = Plot2D::<f64>::default();
    plot.title().update("an experiment");
    plot.x().label().update("label x");
    plot.y().label().update("label y");
    plot.config().terminal().output().update("./plot.png");
    let mut serie = Serie::new();
    serie.add(1.0);
    plot.series().add(serie);

    assert_eq!(
        texts(&plot),
        vec![
            "set output './plot.png'",
            "set term pngcairo enhanced",
            "set title 'an experiment'",
            "set xlabel \"label x\"",
            "set ylabel \"label y\"",
            "plot \"./.tmp/series_data.txt\" using 1:2 with linespoint",
        ]
    );
}

#[test]
fn test_plotting_linear_and_exponential_series() {
    let mut plot = Plot2D::default();
    plot.x().label().update("label x");
    plot.config().terminal().output().update("plot.png");
    plot.config().terminal().font().update("Helvetica", 9);
    plot.config().terminal().size().update(100, 100);

    let mut linear_series = Serie::<f64>::with_title("Linear data");
    let mut exponential_series = Serie::<f64>::new();
    for i in 0..10 {
        linear_series.add(i as f64);
        exponential_series.add((i * i) as f64);
    }
    plot.series().add(linear_series);
    plot.series().add(exponential_series);

    let commands = plot.as_commands().unwrap();

    assert_eq!(commands.len(), 4);
}

fn scenario() -> Plot2D<f64> {
    let mut plot = Plot2D::new();
    plot.config().terminal().output().update("./out.png");
    plot.x().label().update("X");
    let mut titled = Serie::with_title("A");
    let mut untitled = Serie::new();
    for (a, b) in [(1.0, 2.0), (2.0, 4.0), (3.0, 6.0)] {
        titled.add(a);
        untitled.add(b);
    }
    plot.series().add(titled);
    plot.series().add(untitled);
    plot
}

#[test]
fn test_a_configured_plot_yields_its_commands_in_order() {
    let plot = scenario();
    assert_eq!(
        texts(&plot),
        vec![
            "set output './out.png'",
            "set term pngcairo enhanced",
            "set xlabel \"X\"",
            "plot \"./.tmp/series_data.txt\" using 1:2 title 'A' with linespoint, \"./.tmp/series_data.txt\" using 1:3 with linespoint",
        ]
    );
}

#[test]
fn test_a_plot_without_output_path_fails_and_leaves_no_data_to_write() {
    let mut plot = scenario();
    *plot.config() = Default::default();
    plot.title().update("all else is set");
    plot.y().label().update("Y");
    plot.config().terminal().size().update(10, 10);
    plot.config().terminal().font().update("Helvetica", 9);

    let result = plot.as_commands();
    assert_eq!(
        result,
        Err(GnuCommandFactoryError::RequiredValueMissing(String::from(
            "PNGCairo requires an output file: TERMINAL.output().update(\"./filename.png\")"
        )))
    );
}

#[test]
fn test_generation_is_repeatable() {
    let plot = scenario();
    assert_eq!(plot.as_commands(), plot.as_commands());

    let failing = Plot2D::<f64>::new();
    assert_eq!(failing.as_commands(), failing.as_commands());
}

#[test]
fn test_absent_fields_do_not_disturb_the_order_of_the_others() {
    let mut plot = scenario();
    let without = texts(&plot);

    plot.y().label().update("Y");
    let with_y = texts(&plot);
    assert_eq!(with_y.len(), without.len() + 1);
    assert_eq!(with_y[3], "set ylabel \"Y\"");
    let mut rest = with_y.clone();
    rest.remove(3);
    assert_eq!(rest, without);

    plot.title().update("T");
    let with_both = texts(&plot);
    assert_eq!(
        with_both,
        vec![
            "set output './out.png'",
            "set term pngcairo enhanced",
            "set title 'T'",
            "set xlabel \"X\"",
            "set ylabel \"Y\"",
            "plot \"./.tmp/series_data.txt\" using 1:2 title 'A' with linespoint, \"./.tmp/series_data.txt\" using 1:3 with linespoint",
        ]
    );
}

#[test]
fn test_the_first_failing_field_decides() {
    let mut plot = Plot2D::<f64>::new();
    let mut short = Serie::new();
    short.add(1.0);
    let mut long = Serie::new();
    long.add(1.0);
    long.add(2.0);
    plot.series().add(short);
    plot.series().add(long);

    assert!(matches!(plot.as_commands(), Err(GnuCommandFactoryError::RequiredValueMissing(_))));
    plot.config().terminal().output().update("o.png");
    assert_eq!(
        plot.as_commands(),
        Err(GnuCommandFactoryError::RequiredValueMissing(String::from(
            "A required value is missing, but needs a value when producing GnuCommands"
        )))
    );
    plot.x().label().update("X");
    assert!(matches!(plot.as_commands(), Err(GnuCommandFactoryError::Message(_))));
}

#[test]
fn test_accessors_lend_the_fields() {
    let mut plot = Plot2D::<f64>::new();
    *plot.title() = Maybe::value(Title::new("t"));
    assert_eq!(plot.title(), &mut Maybe::value(Title::new("t")));
    *plot.x().label() = Required::value(Label::new("x"));
    assert_eq!(plot.x().label(), &mut Required::value(Label::new("x")));
    plot.series().add(Serie::new());
    assert_eq!(plot.data().count(), 1);
    assert_eq!(plot.series().count(), 1);
}

#[test]
fn test_an_aggregator_stops_at_the_first_failure() {
    let mut fields = Aggregator::new();
    fields.visit(&Title::new("a"));
    fields.visit(&Maybe::<Title>::Nothing);
    fields.visit(&Title::new("b"));
    let commands = fields.finish().unwrap();
    assert_eq!(commands.len(), 2);
    assert_eq!(commands[0].to_string(), "set title 'a'");
    assert_eq!(commands[1].to_string(), "set title 'b'");

    let mut fields = Aggregator::new();
    fields.visit(&Title::new("a"));
    fields.visit(&Required::<Title>::Missing);
    fields.visit(&Title::new("b"));
    assert!(matches!(fields.finish(), Err(GnuCommandFactoryError::RequiredValueMissing(_))));

    assert_eq!(Aggregator::new().finish().unwrap().len(), 0);
}

struct Grid {
    on: bool,
}

impl GnuCommandFactory for Grid {
    fn as_commands(&self) -> GnuCommandFactoryResult {
        if self.on {
            Ok(vec![GnuCommand::new("set grid")].into())
        } else {
            Err(GnuCommandFactoryError::message("the grid is off"))
        }
    }
}

#[test]
fn test_a_field_type_of_the_user_takes_part() {
    let mut fields = Aggregator::new();
    fields.visit(&Title::new("t"));
    fields.visit(&Maybe::value(Grid { on: true }));
    fields.visit(&Required::value(Title::new("u")));
    let commands: Vec<String> =
        fields.finish().unwrap().iter().map(|command| command.to_string()).collect();
    assert_eq!(commands, vec!["set title 't'", "set grid", "set title 'u'"]);

    let mut fields = Aggregator::new();
    fields.visit(&Grid { on: false });
    fields.visit(&Title::new("t"));
    assert_eq!(fields.finish(), Err(GnuCommandFactoryError::Message(String::from("the grid is off"))));
}
