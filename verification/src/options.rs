//! Render options, passed by value into every rendering call.

use vstd::prelude::*;

verus! {

/// Graphviz renderer options.
#[derive(Clone, Debug, PartialEq, Eq)]
pub struct Options {
    /// Output format, one of the identifiers the instance lists as formats.
    pub format: String,
    /// Layout engine, one of the identifiers the instance lists as engines.
    pub engine: String,
    /// Invert y coordinates in output.
    pub y_invert: bool,
}

/// What a set of options says, with the texts as character sequences.
pub struct OptionsView {
    pub format: Seq<char>,
    pub engine: Seq<char>,
    pub y_invert: bool,
}

impl View for Options {
    type V = OptionsView;

    open spec fn view(&self) -> OptionsView {
        OptionsView { format: self.format@, engine: self.engine@, y_invert: self.y_invert }
    }
}

/// The three properties of the record that carries the options to the engine.
#[derive(Clone, Copy, Debug, PartialEq, Eq, Structural)]
pub enum OptionField {
    /// Holds the output format, a string.
    Format,
    /// Holds the layout engine, a string.
    Engine,
    /// Holds the y axis flag, a boolean.
    YInvert,
}

/// The name of a property of the options record.
pub open spec fn field_key(field: OptionField) -> Seq<char> {
    match field {
        OptionField::Format => "format"@,
        OptionField::Engine => "engine"@,
        OptionField::YInvert => "yInvert"@,
    }
}

impl OptionField {
    /// The name of this property in the record.
    pub fn key(&self) -> (key: &'static str)
        ensures
            key@ == field_key(*self),
    {
        match self {
            OptionField::Format => "format",
            OptionField::Engine => "engine",
            OptionField::YInvert => "yInvert",
        }
    }
}

/// The three ways to render.
#[derive(Clone, Copy, Debug, PartialEq, Eq, Structural)]
pub enum Render {
    /// To a string, in the format that the options name.
    Text,
    /// To an `<svg>` element.
    Element,
    /// To a structured value, handed on as the engine gave it.
    Structured,
}

/// The method of an instance that renders in a given way.
pub open spec fn render_method(render: Render) -> Seq<char> {
    match render {
        Render::Text => "renderString"@,
        Render::Element => "renderSVGElement"@,
        Render::Structured => "renderJSON"@,
    }
}

impl Render {
    /// The method of an instance that renders in this way.
    pub fn method(&self) -> (method: &'static str)
        ensures
            method@ == render_method(*self),
    {
        match self {
            Render::Text => "renderString",
            Render::Element => "renderSVGElement",
            Render::Structured => "renderJSON",
        }
    }
}

/// The options that a way of rendering hands to the engine: the caller's own,
/// but with the format forced for an element.
pub open spec fn handed_options(render: Render, options: OptionsView) -> OptionsView {
    match render {
        Render::Element => forced_for_markup(options),
        _ => options,
    }
}

/// The options a caller gets without asking for anything: the `dot` format,
/// laid out by the `dot` engine, y axis as it is.
pub open spec fn default_options() -> OptionsView {
    OptionsView { format: "dot"@, engine: "dot"@, y_invert: false }
}

/// What an element render hands to the engine for the caller's options: the
/// same layout engine and y axis, and the `svg` format whatever format the
/// caller named.
pub open spec fn forced_for_markup(options: OptionsView) -> OptionsView {
    OptionsView { format: "svg"@, engine: options.engine, y_invert: options.y_invert }
}

impl Options {
    /// The options that a way of rendering hands to the engine.
    pub fn handed_to(self, render: Render) -> (handed: Options)
        ensures
            handed@ == handed_options(render, self@),
    {
        match render {
            Render::Element => self.for_markup(),
            _ => self,
        }
    }

    /// The options of an element render: these, with the format forced to
    /// `svg`.
    pub fn for_markup(self) -> (forced: Options)
        ensures
            forced@ == forced_for_markup(self@),
    {
        Options { format: "svg".to_owned(), engine: self.engine, y_invert: self.y_invert }
    }
}

/// The format that the caller names has no part in an element render: two
/// sets of options that agree on the layout engine and on the y axis are
/// handed to the engine as the same options, with the `svg` format.
pub proof fn lemma_markup_format_is_forced(one: OptionsView, other: OptionsView)
    requires
        one.engine == other.engine,
        one.y_invert == other.y_invert,
    ensures
        forced_for_markup(one) == forced_for_markup(other),
        forced_for_markup(one).format == "svg"@,
        forced_for_markup(forced_for_markup(one)) == forced_for_markup(one),
{
}

impl Default for Options {
    fn default() -> (options: Options)
        ensures
            options@ == default_options(),
    {
        Options { format: "dot".to_owned(), engine: "dot".to_owned(), y_invert: false }
    }
}

} // verus!
