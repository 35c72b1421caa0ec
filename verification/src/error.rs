//! What can go wrong while laying out or drawing.

use vstd::prelude::*;
use vstd::std_specs::convert::FromSpecImpl;
use crate::types::Point;

verus! {

/// A failure of the window or of the page that holds it.
#[derive(Debug, Clone, PartialEq, Eq)]
pub enum WindowError {
    /// The page could not be changed; the text says how.
    DomError(String),
    /// An element could not be added to the page.
    Element,
    /// The host reported a failure; the text is its description.
    JsVal(String),
    /// The cursor was asked to leave the canvas, from the first point to the second.
    OutOfBounds(Point, Point),
    /// Text could not be measured or drawn.
    Text,
}

impl WindowError {
    /// What this error says.
    pub open spec fn text(self) -> Seq<char> {
        match self {
            WindowError::DomError(s) => "DOM problem: "@ + s@,
            WindowError::Element => "Could not append element to DOM"@,
            WindowError::JsVal(js) => js@,
            WindowError::Text => "Could not add text to the window"@,
            WindowError::OutOfBounds(origin, destination) => {
                "Attempted to scroll cursor out of bounds from "@ + origin.text() + " to "@
                    + destination.text()
            },
        }
    }

    /// Writes out what this error says.
    pub fn to_string(&self) -> (s: String)
        ensures
            s@ == self.text(),
    {
        match self {
            WindowError::DomError(d) => String::from_str("DOM problem: ").concat(d.as_str()),
            WindowError::Element => String::from_str("Could not append element to DOM"),
            WindowError::JsVal(js) => js.clone(),
            WindowError::Text => String::from_str("Could not add text to the window"),
            WindowError::OutOfBounds(origin, destination) => {
                let mut s = String::from_str("Attempted to scroll cursor out of bounds from ");
                s.append(origin.to_string().as_str());
                s.append(" to ");
                s.append(destination.to_string().as_str());
                s
            },
        }
    }
}

/// All possible Error types.
#[derive(Debug, Clone, PartialEq, Eq)]
pub enum FiveDiceError {
    /// The window failed.
    Window(WindowError),
}

impl FiveDiceError {
    /// What this error says: what the window's error says.
    pub open spec fn text(self) -> Seq<char> {
        match self {
            FiveDiceError::Window(e) => e.text(),
        }
    }

    /// Writes out what this error says.
    pub fn to_string(&self) -> (s: String)
        ensures
            s@ == self.text(),
    {
        match self {
            FiveDiceError::Window(e) => e.to_string(),
        }
    }
}

impl From<WindowError> for FiveDiceError {
    fn from(e: WindowError) -> (r: FiveDiceError) {
        FiveDiceError::Window(e)
    }
}

impl FromSpecImpl<WindowError> for FiveDiceError {
    open spec fn obeys_from_spec() -> bool {
        true
    }

    open spec fn from_spec(e: WindowError) -> FiveDiceError {
        FiveDiceError::Window(e)
    }
}

} // verus!
