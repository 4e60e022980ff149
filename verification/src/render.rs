//! The daemon's view of what to draw.

use vstd::prelude::*;

verus! {

/// The one value the renderer asks for: the path to draw as background.
///
/// Only deliveries from the bridge change it, and each replaces the path
/// whole. There is no history.
#[derive(Debug)]
pub struct RenderState {
    selection: Option<String>,
}

impl View for RenderState {
    type V = Option<Seq<char>>;

    closed spec fn view(&self) -> Option<Seq<char>> {
        crate::config::opt_text(self.selection)
    }
}

impl RenderState {
    /// A state with nothing to draw.
    pub fn new() -> (state: RenderState)
        ensures
            state@ is None,
    {
        RenderState { selection: None }
    }

    /// Replaces the path held by `path`, whatever `path` names.
    pub fn set(&mut self, path: String)
        ensures
            final(self)@ == Some(path@),
    {
        self.selection = Some(path);
    }

    /// The path to draw, or `None` where there is nothing to draw.
    pub fn get(&self) -> (shown: Option<&String>)
        ensures
            match shown {
                Some(path) => self@ == Some(path@),
                None => self@ is None,
            },
    {
        self.selection.as_ref()
    }
}

} // verus!
