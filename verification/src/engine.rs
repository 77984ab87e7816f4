//! The engine as the host sees it: its entry point in the global scope, and
//! an instance that answers queries and renders.
//!
//! Nothing here keeps state on the host's side. Every call goes to the engine
//! afresh and may be made any number of times.

use crate::fault::{BindingFault, Capability, RenderError};
use crate::foreign;
use crate::marshal;
use crate::options::{OptionField, Options, Render};
use vstd::prelude::*;
use wasm_bindgen::JsValue;
use web_sys::SvgsvgElement;

verus! {

/// The engine's entry point: the `Viz` object that the engine's script leaves
/// in the global scope when it is loaded.
#[derive(Debug)]
pub struct Viz {
    handle: JsValue,
}

impl Viz {
    /// Looks the entry point up in the global scope. That the script has been
    /// loaded is taken for granted; only a global scope that is no window is
    /// found out here, and is a fault.
    pub fn locate() -> (found: Result<Viz, BindingFault>)
        ensures
            found matches Err(fault) ==> fault == BindingFault::NotInitialized,
    {
        let scope = foreign::global_scope();
        let read = if foreign::is_window(&scope) {
            Some(foreign::property(&scope, "Viz"))
        } else {
            None
        };
        match marshal::entry_point(read) {
            Ok(handle) => Ok(Viz { handle }),
            Err(fault) => Err(fault),
        }
    }

    /// Calls the entry point's `instance` method. `Ok` holds the promise of an
    /// instance, for the driver to wait on; `Err` holds what the runtime
    /// threw.
    pub fn request_instance(&self) -> (pending: Result<JsValue, JsValue>) {
        let method = foreign::property(&self.handle, "instance")?;
        foreign::call0(&method, &self.handle)
    }
}

/// Graphviz instance.
#[derive(Debug)]
pub struct VizInstance {
    handle: JsValue,
}

impl VizInstance {
    /// The value of the runtime that this instance is.
    pub closed spec fn handle(&self) -> JsValue {
        self.handle
    }

    /// Makes an instance of what the instance-producing call settled with,
    /// if that is an object: the instance is then that very value. Anything
    /// else is a fault.
    pub fn from_settled(value: JsValue) -> (instance: Result<VizInstance, BindingFault>)
        ensures
            match instance {
                Ok(ready) => ready.handle() == value,
                Err(fault) => fault == BindingFault::NotInitialized,
            },
    {
        let object = foreign::is_object(&value);
        match marshal::settled_instance(object, value) {
            Ok(handle) => Ok(VizInstance { handle }),
            Err(fault) => Err(fault),
        }
    }

    /// Get current Graphviz version. A report that is not a string is a
    /// fault.
    pub fn graphviz_version(&self) -> (version: Result<String, BindingFault>)
        ensures
            version matches Err(fault) ==> fault == BindingFault::VersionNotString,
    {
        let read = match foreign::property(&self.handle, "graphvizVersion") {
            Ok(value) => Ok(foreign::text_of(&value)),
            Err(thrown) => Err(thrown),
        };
        marshal::version_result(read)
    }

    /// List available layout engines.
    pub fn engines(&self) -> (names: Result<Vec<String>, BindingFault>)
        ensures
            marshal::names_answer(names, Capability::Engines),
    {
        let entries = marshal::list_result(
            self.capability(Capability::Engines),
            Capability::Engines,
        )?;
        marshal::require_strings(&entries, Capability::Engines)
    }

    /// List available rendering image formats.
    pub fn formats(&self) -> (names: Result<Vec<String>, BindingFault>)
        ensures
            marshal::names_answer(names, Capability::Formats),
    {
        let entries = marshal::list_result(
            self.capability(Capability::Formats),
            Capability::Formats,
        )?;
        marshal::require_strings(&entries, Capability::Formats)
    }

    /// Render to a string, in the format that the options name.
    pub fn render_string(&self, src: String, options: Options) -> (rendered: Result<
        String,
        RenderError<JsValue>,
    >)
        ensures
            rendered matches Err(RenderError::Fatal(fault)) ==> fault
                == BindingFault::RenderedNotString,
    {
        let read = match self.render(Render::Text, src.as_str(), options) {
            Ok(value) => Ok(foreign::text_of(&value)),
            Err(payload) => Err(payload),
        };
        marshal::text_result(read)
    }

    /// Render to SVG element. The format is always `svg`, whatever the
    /// options name.
    pub fn render_svg_element(&self, src: String, options: Options) -> (rendered: Result<
        SvgsvgElement,
        RenderError<JsValue>,
    >)
        ensures
            rendered matches Err(RenderError::Fatal(fault)) ==> fault
                == BindingFault::RenderedNotElement,
    {
        let read = match self.render(Render::Element, src.as_str(), options) {
            Ok(value) => Ok(foreign::as_element(value)),
            Err(payload) => Err(payload),
        };
        marshal::element_result(read)
    }

    /// Render to JSON. What the engine answers is handed on as it is.
    pub fn render_json(&self, src: String, options: Options) -> (rendered: Result<
        JsValue,
        RenderError<JsValue>,
    >)
        ensures
            !(rendered matches Err(RenderError::Fatal(_))),
    {
        marshal::structured_result(self.render(Render::Structured, src.as_str(), options))
    }

    /// Reads one capability list of the instance across the boundary:
    /// `Ok(Some(entries))` where the instance answered with a list,
    /// `Ok(None)` where it answered with anything else, and `Err` with what
    /// the read threw.
    fn capability(&self, which: Capability) -> (read: Result<
        Option<Vec<Option<String>>>,
        JsValue,
    >) {
        let value = foreign::property(&self.handle, which.key())?;
        match foreign::as_list(value) {
            Some(list) => Ok(Some(marshal::read_list(&list))),
            None => Ok(None),
        }
    }

    /// Calls the method of the instance that renders in the given way, with
    /// the source and with the options that this way hands over, the options
    /// as a record of three properties. `Err` holds what the engine, or the
    /// runtime on the way to it, threw.
    fn render(&self, render: Render, src: &str, options: Options) -> (answer: Result<
        JsValue,
        JsValue,
    >) {
        let handed = options.handed_to(render);
        let record = foreign::new_object();
        foreign::set_property(
            &record,
            OptionField::Format.key(),
            &foreign::js_string(handed.format.as_str()),
        )?;
        foreign::set_property(
            &record,
            OptionField::Engine.key(),
            &foreign::js_string(handed.engine.as_str()),
        )?;
        foreign::set_property(
            &record,
            OptionField::YInvert.key(),
            &foreign::js_bool(handed.y_invert),
        )?;
        let function = foreign::property(&self.handle, render.method())?;
        foreign::call2(&function, &self.handle, &foreign::js_string(src), &record)
    }
}

} // verus!
