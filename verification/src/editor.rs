//! The editor window's geometry and its open/closed state.

use vstd::prelude::*;

verus! {

/// Width of the editor window in pixels.
pub const WINDOW_WIDTH: usize = 300;

/// Height of the editor window in pixels.
pub const WINDOW_HEIGHT: usize = 200;

/// Where the editor sits in the host's window.
pub fn window_position() -> (p: (i32, i32))
    ensures
        p == (0i32, 0i32),
{
    (0, 0)
}

/// The size of the editor window, as the host expects it.
pub fn window_size() -> (s: (i32, i32))
    ensures
        s.0 == WINDOW_WIDTH,
        s.1 == WINDOW_HEIGHT,
{
    (WINDOW_WIDTH as i32, WINDOW_HEIGHT as i32)
}

/// The title of the editor window and of the panel inside it.
pub fn window_title() -> (s: &'static str)
    ensures
        s@ == "Dattorro Reverb"@,
{
    "Dattorro Reverb"
}

/// The heading shown at the top of the panel.
pub fn panel_heading() -> (s: &'static str)
    ensures
        s@ == "Made with egui and glicol_synth"@,
{
    "Made with egui and glicol_synth"
}

/// Whether the editor is open, and the handle of its window once one has
/// been opened.  `H` is the windowing system's handle type.
pub struct EditorState<H> {
    is_open: bool,
    window: Option<H>,
}

impl<H> EditorState<H> {
    /// Whether the editor is open.
    pub closed spec fn opened(&self) -> bool {
        self.is_open
    }

    /// The window the editor holds, if any.
    pub closed spec fn window(&self) -> Option<H> {
        self.window
    }

    /// A window is held only while the editor is open.
    pub open spec fn consistent(&self) -> bool {
        self.window() is Some ==> self.opened()
    }

    /// A closed editor without a window.
    pub fn new() -> (e: Self)
        ensures
            !e.opened(),
            e.window() is None,
            e.consistent(),
    {
        EditorState { is_open: false, window: None }
    }

    /// Whether the editor is open.
    pub fn is_open(&self) -> (b: bool)
        ensures
            b == self.opened(),
    {
        self.is_open
    }

    /// The first half of opening: if the editor is already open nothing
    /// changes and the answer is `false`; otherwise the editor becomes open
    /// and the answer is `true`, and the caller opens the window and hands it
    /// to `attach_window`.
    pub fn begin_open(&mut self) -> (go: bool)
        ensures
            go == !old(self).opened(),
            final(self).opened(),
            final(self).window() == old(self).window(),
            old(self).consistent() ==> final(self).consistent(),
    {
        if self.is_open {
            return false;
        }
        self.is_open = true;
        true
    }

    /// Keeps the window that was opened for the open editor.
    pub fn attach_window(&mut self, window: H)
        requires
            old(self).opened(),
        ensures
            final(self).opened(),
            final(self).window() == Some(window),
            final(self).consistent(),
    {
        self.window = Some(window);
    }

    /// Closes the editor and hands back its window, if it had one, for the
    /// caller to close.
    pub fn close(&mut self) -> (w: Option<H>)
        ensures
            !final(self).opened(),
            final(self).window() is None,
            w == old(self).window(),
            final(self).consistent(),
    {
        self.is_open = false;
        self.window.take()
    }
}

} // verus!
