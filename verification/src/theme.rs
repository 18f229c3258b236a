//! The styles of the player application.
use vstd::prelude::*;

verus! {

/// The style of the application window.
#[derive(Debug, Clone, Copy, PartialEq, Eq, Structural)]
pub enum Application {
    /// the default style
    Default,
}

impl Default for Application {
    fn default() -> (style: Self)
        ensures
            style == Application::Default,
    {
        Application::Default
    }
}

} // verus!
