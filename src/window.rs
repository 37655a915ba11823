//! Requests to the window manager. They produce no message.
use vstd::prelude::*;

use crate::render::{decimal, decimal_text};
use vstd::string::StringExecFns;

verus! {

/// A request to change the application window.
#[derive(Debug, Clone, Copy, PartialEq, Eq, Structural)]
pub enum Action {
    /// Resize the window to the given size, in logical pixels.
    Resize { width: u32, height: u32 },
    /// Move the window to the given position, in logical pixels.
    Move { x: i32, y: i32 },
}

impl Action {
    /// The request as `Debug` shows it, with its fields.
    pub open spec fn label(&self) -> Seq<char> {
        match self {
            Action::Resize { width, height } => "Resize { width: "@ + decimal(*width as int)
                + ", height: "@ + decimal(*height as int) + " }"@,
            Action::Move { x, y } => "Move { x: "@ + decimal(*x as int) + ", y: "@
                + decimal(*y as int) + " }"@,
        }
    }

    /// Describes the request for diagnostics.
    pub fn describe(&self) -> (r: String)
        ensures
            r@ == self.label(),
    {
        let (mut r, a, mid, b) = match self {
            Action::Resize { width, height } => (
                "Resize { width: ".to_owned(),
                *width as i64,
                ", height: ",
                *height as i64,
            ),
            Action::Move { x, y } => ("Move { x: ".to_owned(), *x as i64, ", y: ", *y as i64),
        };
        let at = decimal_text(a);
        r.append(at.as_str());
        r.append(mid);
        let bt = decimal_text(b);
        r.append(bt.as_str());
        r.append(" }");
        r
    }
}

} // verus!
