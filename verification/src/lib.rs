//! A multi-page structured form for composing templated commit messages.
//!
//! The library holds the verified core: the page/field navigation state
//! machine, the per-field quality evaluator that classifies content by
//! line length, and the template renderers that turn the filled form into
//! the final message text. Terminal rendering, keyboard input and the
//! hand-off to the version-control tool live outside the library.

pub mod commit;
pub mod doc_template;
pub mod form;
pub mod quality;
pub mod schema;
pub mod template;

use vstd::prelude::*;

verus! {

/// Handle of the interactive application built around the form.
#[derive(Clone, Copy)]
pub struct App {}

impl App {
    /// A fresh application handle.
    pub fn new() -> (r: App)
        ensures
            r == (App {  }),
    {
        App {  }
    }
}

} // verus!
