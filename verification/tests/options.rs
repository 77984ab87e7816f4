use viz_js::options::{OptionField, Render};
use viz_js::Options;

#[test]
fn default_options_are_dot_dot_upright() {
    let options = Options::default();
    assert_eq!(options.format, "dot");
    assert_eq!(options.engine, "dot");
    assert!(!options.y_invert);
}

#[test]
fn default_options_are_the_same_each_time() {
    assert_eq!(Options::default(), Options::default());
}

#[test]
fn markup_options_force_the_svg_format() {
    let forced = Options::default().for_markup();
    assert_eq!(forced.format, "svg");
    assert_eq!(forced.engine, "dot");
    assert!(!forced.y_invert);
}

#[test]
fn markup_options_keep_engine_and_y_axis() {
    let options = Options { format: "json".to_string(), engine: "neato".to_string(), y_invert: true };
    let forced = options.for_markup();
    assert_eq!(
        forced,
        Options { format: "svg".to_string(), engine: "neato".to_string(), y_invert: true }
    );
}

#[test]
fn markup_options_do_not_depend_on_the_format_named() {
    let one = Options { format: "dot".to_string(), engine: "fdp".to_string(), y_invert: false };
    let other = Options { format: "png".to_string(), engine: "fdp".to_string(), y_invert: false };
    let empty = Options { format: String::new(), engine: "fdp".to_string(), y_invert: false };
    assert_eq!(one.for_markup(), other.for_markup());
    assert_eq!(empty.for_markup().format, "svg");
}

#[test]
fn forcing_the_format_twice_changes_nothing_more() {
    let options = Options { format: "svg".to_string(), engine: "circo".to_string(), y_invert: true };
    let once = options.clone().for_markup();
    let twice = options.for_markup().for_markup();
    assert_eq!(once, twice);
}

#[test]
fn each_field_of_the_record_has_its_name() {
    assert_eq!(OptionField::Format.key(), "format");
    assert_eq!(OptionField::Engine.key(), "engine");
    assert_eq!(OptionField::YInvert.key(), "yInvert");
}

#[test]
fn each_way_to_render_has_its_method() {
    assert_eq!(Render::Text.method(), "renderString");
    assert_eq!(Render::Element.method(), "renderSVGElement");
    assert_eq!(Render::Structured.method(), "renderJSON");
}

#[test]
fn only_an_element_render_changes_the_options_handed_over() {
    let options = Options { format: "json".to_string(), engine: "neato".to_string(), y_invert: true };
    assert_eq!(options.clone().handed_to(Render::Text), options);
    assert_eq!(options.clone().handed_to(Render::Structured), options);
    assert_eq!(
        options.handed_to(Render::Element),
        Options { format: "svg".to_string(), engine: "neato".to_string(), y_invert: true }
    );
}
