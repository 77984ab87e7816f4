//! The two classes of failure at the boundary.
//!
//! A fault is a value of the wrong shape: the engine answered, but not with
//! what the binding was written for. It tells of a broken environment and is
//! never a fair answer to a request. A rejection is the engine turning a
//! request down, and is the caller's to inspect.

use vstd::prelude::*;

verus! {

/// The two lists of names that an instance answers.
#[derive(Clone, Copy, Debug, PartialEq, Eq, Structural)]
pub enum Capability {
    /// The layout engines.
    Engines,
    /// The output formats.
    Formats,
}

/// The property of an instance that holds a capability list.
pub open spec fn capability_key(which: Capability) -> Seq<char> {
    match which {
        Capability::Engines => "engines"@,
        Capability::Formats => "formats"@,
    }
}

impl Capability {
    /// The property of an instance that holds this list.
    pub fn key(&self) -> (key: &'static str)
        ensures
            key@ == capability_key(*self),
    {
        match self {
            Capability::Engines => "engines",
            Capability::Formats => "formats",
        }
    }
}

/// A value at the boundary that does not have the shape the binding expects.
#[derive(Clone, Copy, Debug, PartialEq, Eq, Structural)]
pub enum BindingFault {
    /// The global scope, or what the engine's entry point produced, is not
    /// what an engine instance can be made from.
    NotInitialized,
    /// A step of the handshake was reported out of turn.
    OutOfTurn,
    /// A capability list is not a list.
    NotAList(Capability),
    /// An entry of a capability list is not a string.
    NameNotString(Capability),
    /// The reported version is not a string.
    VersionNotString,
    /// A text render produced something that is not a string.
    RenderedNotString,
    /// An element render produced something that is not an SVG element.
    RenderedNotElement,
}

/// The message that goes with a fault.
pub open spec fn fault_message(fault: BindingFault) -> Seq<char> {
    match fault {
        BindingFault::NotInitialized => "could not initialize layout engine"@,
        BindingFault::OutOfTurn => "layout engine handshake out of turn"@,
        BindingFault::NotAList(Capability::Engines) => "engines is not a list"@,
        BindingFault::NotAList(Capability::Formats) => "formats is not a list"@,
        BindingFault::NameNotString(Capability::Engines) => "engine name is not a string"@,
        BindingFault::NameNotString(Capability::Formats) => "format name is not a string"@,
        BindingFault::VersionNotString => "version is not a string"@,
        BindingFault::RenderedNotString => "rendered object is not a string"@,
        BindingFault::RenderedNotElement => "rendered object is not an svg element"@,
    }
}

impl BindingFault {
    /// The message to abort with.
    pub fn message(&self) -> (text: String)
        ensures
            text@ == fault_message(*self),
    {
        match self {
            BindingFault::NotInitialized => "could not initialize layout engine".to_owned(),
            BindingFault::OutOfTurn => "layout engine handshake out of turn".to_owned(),
            BindingFault::NotAList(Capability::Engines) => "engines is not a list".to_owned(),
            BindingFault::NotAList(Capability::Formats) => "formats is not a list".to_owned(),
            BindingFault::NameNotString(Capability::Engines) => {
                "engine name is not a string".to_owned()
            },
            BindingFault::NameNotString(Capability::Formats) => {
                "format name is not a string".to_owned()
            },
            BindingFault::VersionNotString => "version is not a string".to_owned(),
            BindingFault::RenderedNotString => "rendered object is not a string".to_owned(),
            BindingFault::RenderedNotElement => "rendered object is not an svg element".to_owned(),
        }
    }
}

/// Why a rendering call gave no result. `P` is what the engine signals when it
/// turns a request down; this layer carries it and never looks inside.
#[derive(Debug, PartialEq, Eq)]
pub enum RenderError<P> {
    /// The engine turned the request down: the source does not parse, or it
    /// does not know the format or the layout engine asked for.
    Rejected(P),
    /// The engine answered with a value of the wrong shape.
    Fatal(BindingFault),
}

impl<P> RenderError<P> {
    /// Whether the caller may catch this and go on.
    pub fn is_recoverable(&self) -> (yes: bool)
        ensures
            yes == (self is Rejected),
    {
        match self {
            RenderError::Rejected(_) => true,
            RenderError::Fatal(_) => false,
        }
    }

    /// What the engine signalled, if it turned the request down.
    pub fn payload(self) -> (payload: Option<P>)
        ensures
            payload == match self {
                RenderError::Rejected(p) => Some(p),
                RenderError::Fatal(_) => None::<P>,
            },
    {
        match self {
            RenderError::Rejected(p) => Some(p),
            RenderError::Fatal(_) => None,
        }
    }

    /// The fault, if the engine answered with the wrong shape.
    pub fn fault(&self) -> (fault: Option<BindingFault>)
        ensures
            fault == match *self {
                RenderError::Rejected(_) => None::<BindingFault>,
                RenderError::Fatal(f) => Some(f),
            },
    {
        match self {
            RenderError::Rejected(_) => None,
            RenderError::Fatal(f) => Some(*f),
        }
    }
}

} // verus!
