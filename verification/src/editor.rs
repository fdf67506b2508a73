//! The editor-window lifecycle: a two-state machine (closed or open) that
//! owns the stub renderer while open, answers static layout queries in either
//! state, and runs the per-frame idle step.
//!
//! Creating and destroying the native window, and polling its event queue,
//! happen outside this core on the UI thread; the events that arrive are
//! handed in as plain values, and the decisions taken on them are verified
//! here.

use vstd::prelude::*;

verus! {

/// Width of the editor window, a static layout hint.
pub const WINDOW_WIDTH: i32 = 500;

/// Height of the editor window, a static layout hint.
pub const WINDOW_HEIGHT: i32 = 200;

/// Stub drawing surface, invoked once per idle cycle. Concrete rendering is
/// an external concern and binds to the native window outside the core.
pub struct MyRenderer;

impl MyRenderer {
    /// A fresh renderer for a newly opened window.
    pub fn new() -> (r: MyRenderer) {
        MyRenderer
    }

    /// One per-frame draw step; the stub draws nothing and changes nothing.
    pub fn draw_frame(&mut self)
        ensures
            *final(self) == *old(self),
    {
    }
}

/// An interaction with the editor window, already stripped to what the core
/// reads: the kind of the event. Cursor coordinates and the mouse button are
/// carried by the native layer and not consulted here.
#[derive(Clone, Copy, PartialEq, Eq, Structural)]
pub enum EditorEvent {
    /// The cursor moved over the window.
    CursorMovement,
    /// A mouse button was pressed.
    MouseClick,
    /// A mouse button was released.
    MouseRelease,
}

/// The editor: closed (no renderer) or open (renderer present). At most one
/// open window exists per editor at a time.
pub struct MyPluginEditor {
    /// The renderer, present exactly while the window is open.
    pub renderer: Option<MyRenderer>,
}

impl MyPluginEditor {
    /// Whether the editor currently has an open window.
    pub open spec fn is_open_spec(&self) -> bool {
        self.renderer is Some
    }

    /// The editor in its initial, closed state.
    pub fn new() -> (ed: MyPluginEditor)
        ensures
            !ed.is_open_spec(),
    {
        MyPluginEditor { renderer: None }
    }

    /// Static size hint, callable in either state.
    pub fn size(&self) -> (wh: (i32, i32))
        ensures
            wh.0 == WINDOW_WIDTH,
            wh.1 == WINDOW_HEIGHT,
    {
        (WINDOW_WIDTH, WINDOW_HEIGHT)
    }

    /// Static position hint, callable in either state.
    pub fn position(&self) -> (xy: (i32, i32))
        ensures
            xy.0 == 0,
            xy.1 == 0,
    {
        (0, 0)
    }

    /// Opens the window if it is closed: the renderer comes into being and
    /// the call answers true, telling the caller to create the native window
    /// now. If a window is already open nothing changes and the answer is
    /// false.
    pub fn open(&mut self) -> (opened: bool)
        ensures
            (*final(self), opened) == spec_open_transition(*old(self)),
            opened == !old(self).is_open_spec(),
    {
        if self.renderer.is_none() {
            self.renderer = Some(MyRenderer::new());
            true
        } else {
            false
        }
    }

    /// Whether a window is open, without side effects.
    pub fn is_open(&self) -> (open_now: bool)
        ensures
            open_now == self.is_open_spec(),
    {
        self.renderer.is_some()
    }

    /// Closes the window: the renderer is released and the editor is closed
    /// afterwards, whatever state it was in. Safe to call when already closed.
    pub fn close(&mut self)
        ensures
            *final(self) == spec_close_transition(*old(self)),
            !final(self).is_open_spec(),
    {
        self.renderer = None;
    }

    /// One idle cycle. The events drained from the window's queue since the
    /// last cycle are taken as plain values; each mouse click yields one
    /// "Click!" notice, in order, other events are left unhandled, and the
    /// renderer then draws exactly one frame. When the editor is closed there
    /// is no window, no events, and no drawing: the cycle is a no-op.
    pub fn idle(&mut self, events: &Vec<EditorEvent>) -> (notices: Vec<String>)
        ensures
            *final(self) == *old(self),
            old(self).is_open_spec() ==> notices@.map_values(|n: String| n@)
                == spec_idle_notices(events@),
            !old(self).is_open_spec() ==> notices@.len() == 0,
    {
        let mut notices: Vec<String> = Vec::new();
        if self.renderer.is_some() {
            let mut j: usize = 0;
            while j < events.len()
                invariant
                    j <= events.len(),
                    notices@.map_values(|n: String| n@) =~= spec_idle_notices(
                        events@.take(j as int),
                    ),
                decreases events.len() - j,
            {
                proof {
                    assert(events@.take(j + 1).drop_last() =~= events@.take(j as int));
                }
                match events[j] {
                    EditorEvent::MouseClick => {
                        notices.push(String::from_str("Click!"));
                    },
                    _ => {},
                }
                j = j + 1;
            }
            proof {
                assert(events@.take(events@.len() as int) =~= events@);
            }
            match &mut self.renderer {
                Some(renderer) => renderer.draw_frame(),
                None => {},
            }
        }
        notices
    }
}

impl Default for MyPluginEditor {
    /// The initial state: closed, with no renderer.
    fn default() -> (ed: Self)
        ensures
            !ed.is_open_spec(),
    {
        MyPluginEditor::new()
    }
}

/// What `open` does: from closed, to open with a fresh renderer and a true
/// answer; from open, no change and a false answer.
pub open spec fn spec_open_transition(ed: MyPluginEditor) -> (MyPluginEditor, bool) {
    if ed.is_open_spec() {
        (ed, false)
    } else {
        (MyPluginEditor { renderer: Some(MyRenderer) }, true)
    }
}

/// What `close` does: the renderer is dropped and the editor is closed.
pub open spec fn spec_close_transition(ed: MyPluginEditor) -> MyPluginEditor {
    MyPluginEditor { renderer: None }
}

/// The notices an idle cycle emits for a drained event sequence: one
/// "Click!" per mouse click, in the order the clicks arrived.
pub open spec fn spec_idle_notices(events: Seq<EditorEvent>) -> Seq<Seq<char>>
    decreases events.len(),
{
    if events.len() == 0 {
        Seq::<Seq<char>>::empty()
    } else {
        let rest = spec_idle_notices(events.drop_last());
        if events.last() is MouseClick {
            rest.push("Click!"@)
        } else {
            rest
        }
    }
}

/// Opening a closed editor succeeds and opens it; a second open request
/// without an intervening close is refused and leaves the first window's
/// state untouched.
pub proof fn lemma_open_once(ed: MyPluginEditor)
    requires
        !ed.is_open_spec(),
    ensures
        ({
            let (opened_ed, first) = spec_open_transition(ed);
            let (still_ed, second) = spec_open_transition(opened_ed);
            first == true && opened_ed.is_open_spec() && second == false && still_ed == opened_ed
        }),
{
}

/// Closing is idempotent, and closing an already-closed editor changes
/// nothing.
pub proof fn lemma_close_idempotent(ed: MyPluginEditor)
    ensures
        spec_close_transition(spec_close_transition(ed)) == spec_close_transition(ed),
        !ed.is_open_spec() ==> spec_close_transition(ed) == ed,
{
}

} // verus!
