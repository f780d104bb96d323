//! The registry of windows and the state that one event loop shares between
//! its messages.
use crate::device::MouseButton;
use crate::event::{deliver, received, Event, EventHandler};
use crate::raw_input::RawInput;
use crate::window::{LocalWindow, Window, WindowHandle};
use vstd::prelude::*;

verus! {

/// Describes event loop types.
#[derive(Clone, Copy, PartialEq, Eq, Structural, Debug)]
pub enum RunType {
    Idle,
    Wait,
}

/// What the messages of one loop share: the mouse buttons that are held, the
/// window that the cursor has entered, and whether a window is being resized
/// by hand.
pub struct ContextState {
    pub mouse_buttons: Vec<MouseButton>,
    pub entered_window: Option<WindowHandle>,
    pub resizing: bool,
}

impl ContextState {
    pub fn new() -> (r: Self)
        ensures
            r.mouse_buttons@.len() == 0,
            r.entered_window is None,
            !r.resizing,
    {
        Self { mouse_buttons: Vec::with_capacity(5), entered_window: None, resizing: false }
    }
}

/// Everything that one event loop owns: the shared state, the table of
/// windows, the handler, a fault that was caught and not yet raised again,
/// and what is known of input devices.
pub struct Context<H, F> {
    pub state: ContextState,
    pub window_table: Vec<LocalWindow>,
    pub event_handler: Option<H>,
    pub unwind: Option<F>,
    pub raw_input: RawInput,
}

/// The place of the first window with a handle, from place `from` on.
pub open spec fn first_window_from(table: Seq<LocalWindow>, hwnd: WindowHandle, from: int)
    -> Option<int>
    decreases table.len() - from,
{
    if from < 0 || from >= table.len() {
        None
    } else if table[from].handle.hwnd == hwnd {
        Some(from)
    } else {
        first_window_from(table, hwnd, from + 1)
    }
}

/// Some window of a table has a handle.
pub open spec fn table_contains(table: Seq<LocalWindow>, hwnd: WindowHandle) -> bool {
    exists|i: int| 0 <= i < table.len() && (#[trigger] table[i]).handle.hwnd == hwnd
}

/// No two windows of a table have the same handle.
pub open spec fn handles_unique(table: Seq<LocalWindow>) -> bool {
    forall|i: int, j: int|
        0 <= i < j < table.len() ==> (#[trigger] table[i]).handle.hwnd != (
        #[trigger] table[j]).handle.hwnd
}

/// The first window with a handle stands at the place that is found for it;
/// where none is found, no window has the handle.
pub proof fn lemma_first_window(table: Seq<LocalWindow>, hwnd: WindowHandle, from: int)
    requires
        0 <= from,
    ensures
        match first_window_from(table, hwnd, from) {
            Some(i) => from <= i < table.len() && table[i].handle.hwnd == hwnd && forall|k: int|
                from <= k < i ==> (#[trigger] table[k]).handle.hwnd != hwnd,
            None => forall|k: int|
                from <= k < table.len() ==> (#[trigger] table[k]).handle.hwnd != hwnd,
        },
    decreases table.len() - from,
{
    if from < table.len() && table[from].handle.hwnd != hwnd {
        lemma_first_window(table, hwnd, from + 1);
    }
}

impl<H, F> Context<H, F> {
    /// There is one window for each handle, and what is kept of a game pad
    /// never outlives its device.
    pub open spec fn wf(&self) -> bool {
        handles_unique(self.window_table@) && self.raw_input.wf()
    }

    /// A window with a handle is registered.
    pub open spec fn contains(&self, hwnd: WindowHandle) -> bool {
        table_contains(self.window_table@, hwnd)
    }

    /// The place of the window with a handle in the table.
    pub open spec fn index_of(&self, hwnd: WindowHandle) -> Option<int> {
        first_window_from(self.window_table@, hwnd, 0)
    }

    /// A context without windows, handler or fault.
    pub fn new() -> (r: Self)
        ensures
            r.wf(),
            r.window_table@.len() == 0,
            r.event_handler is None,
            r.unwind is None,
            r.state.mouse_buttons@.len() == 0,
            r.state.entered_window is None,
            !r.state.resizing,
            r.raw_input.devices().len() == 0,
            r.raw_input.gamepads().len() == 0,
    {
        Self {
            state: ContextState::new(),
            window_table: Vec::new(),
            event_handler: None,
            unwind: None,
            raw_input: RawInput::new(),
        }
    }

    /// Looks a window up by its handle.
    pub fn find_index(&self, hwnd: WindowHandle) -> (r: Option<usize>)
        ensures
            match r {
                Some(i) => self.index_of(hwnd) == Some(i as int) && i < self.window_table@.len()
                    && self.window_table@[i as int].handle.hwnd == hwnd,
                None => self.index_of(hwnd) is None,
            },
            r is Some <==> self.contains(hwnd),
    {
        let mut i: usize = 0;
        while i < self.window_table.len()
            invariant
                i <= self.window_table@.len(),
                first_window_from(self.window_table@, hwnd, 0) == first_window_from(
                    self.window_table@,
                    hwnd,
                    i as int,
                ),
                forall|k: int|
                    0 <= k < i ==> (#[trigger] self.window_table@[k]).handle.hwnd != hwnd,
            decreases self.window_table@.len() - i,
        {
            if self.window_table[i].handle.hwnd.0 == hwnd.0 {
                return Some(i);
            }
            i += 1;
        }
        None
    }
}

/// Makes the context of a loop that is about to start, in the place that is
/// kept for it.
#[inline]
pub fn create_context<H, F>(slot: &mut Option<Context<H, F>>)
    ensures
        *final(slot) matches Some(ctx) && ctx.wf() && ctx.window_table@.len() == 0
            && ctx.event_handler is None && ctx.unwind is None && ctx.state.entered_window is None
            && !ctx.state.resizing && ctx.state.mouse_buttons@.len() == 0,
{
    *slot = Some(Context::new());
}

/// Tells whether no loop has made its context yet.
#[inline]
pub fn is_context_null<H, F>(slot: &Option<Context<H, F>>) -> (r: bool)
    ensures
        r == (*slot is None),
{
    slot.is_none()
}

/// Registers a window under its handle. No window may be registered under
/// that handle yet.
#[inline]
pub fn push_window<H, F>(ctx: &mut Context<H, F>, hwnd: WindowHandle, wnd: LocalWindow)
    requires
        old(ctx).wf(),
        !old(ctx).contains(hwnd),
        wnd.handle.hwnd == hwnd,
    ensures
        final(ctx).wf(),
        final(ctx).window_table@ == old(ctx).window_table@.push(wnd),
        final(ctx).contains(hwnd),
        final(ctx).state == old(ctx).state,
        final(ctx).event_handler == old(ctx).event_handler,
        final(ctx).unwind == old(ctx).unwind,
        final(ctx).raw_input == old(ctx).raw_input,
{
    ctx.window_table.push(wnd);
    proof {
        let now = ctx.window_table@;
        assert(now[now.len() - 1].handle.hwnd == hwnd);
    }
}

/// Looks a window up by its handle.
#[inline]
pub fn find_window<H, F>(ctx: &Context<H, F>, hwnd: WindowHandle) -> (r: Option<&LocalWindow>)
    ensures
        match r {
            Some(w) => ctx.index_of(hwnd) matches Some(i) && *w == ctx.window_table@[i]
                && w.handle.hwnd == hwnd,
            None => ctx.index_of(hwnd) is None,
        },
        r is Some <==> ctx.contains(hwnd),
{
    match ctx.find_index(hwnd) {
        Some(i) => Some(&ctx.window_table[i]),
        None => None,
    }
}

/// Takes the window with a handle out of the registry. A window must be
/// registered under that handle.
#[inline]
pub fn remove_window<H, F>(ctx: &mut Context<H, F>, hwnd: WindowHandle)
    requires
        old(ctx).wf(),
        old(ctx).contains(hwnd),
    ensures
        final(ctx).wf(),
        !final(ctx).contains(hwnd),
        old(ctx).index_of(hwnd) matches Some(i)
            && final(ctx).window_table@ == old(ctx).window_table@.remove(i),
        final(ctx).state == old(ctx).state,
        final(ctx).event_handler == old(ctx).event_handler,
        final(ctx).unwind == old(ctx).unwind,
        final(ctx).raw_input == old(ctx).raw_input,
{
    let index: usize = ctx.find_index(hwnd).unwrap();
    let ghost before = ctx.window_table@;
    ctx.window_table.remove(index);
    proof {
        let now = ctx.window_table@;
        assert forall|k: int| 0 <= k < now.len() implies (#[trigger] now[k]).handle.hwnd
            != hwnd by {
            if k < index {
                assert(now[k] == before[k]);
            } else {
                assert(now[k] == before[k + 1]);
            }
        }
        assert forall|a: int, b: int| 0 <= a < b < now.len() implies (
        #[trigger] now[a]).handle.hwnd != (#[trigger] now[b]).handle.hwnd by {
            let a0 = if a < index {
                a
            } else {
                a + 1
            };
            let b0 = if b < index {
                b
            } else {
                b + 1
            };
            assert(now[a] == before[a0]);
            assert(now[b] == before[b0]);
        }
    }
}

/// Tells whether no window is registered.
#[inline]
pub fn window_table_is_empty<H, F>(ctx: &Context<H, F>) -> (r: bool)
    ensures
        r == (ctx.window_table@.len() == 0),
{
    ctx.window_table.len() == 0
}

/// Takes note that a window is, or is no longer, being resized by hand.
#[inline]
pub fn set_resizing<H, F>(ctx: &mut Context<H, F>, state: bool)
    ensures
        final(ctx).state.resizing == state,
        final(ctx).state.mouse_buttons == old(ctx).state.mouse_buttons,
        final(ctx).state.entered_window == old(ctx).state.entered_window,
        final(ctx).window_table == old(ctx).window_table,
        final(ctx).event_handler == old(ctx).event_handler,
        final(ctx).unwind == old(ctx).unwind,
        final(ctx).raw_input == old(ctx).raw_input,
{
    ctx.state.resizing = state;
}

/// Installs the handler that receives the events.
#[inline]
pub fn set_event_handler<H, F>(ctx: &mut Context<H, F>, eh: H)
    ensures
        final(ctx).event_handler == Some(eh),
        final(ctx).state == old(ctx).state,
        final(ctx).window_table == old(ctx).window_table,
        final(ctx).unwind == old(ctx).unwind,
        final(ctx).raw_input == old(ctx).raw_input,
{
    ctx.event_handler = Some(eh);
}

/// Hands an event of a window to the handler, if one is installed, by one
/// call of the method that stands for it. Nothing else of the context changes.
#[inline]
pub fn call_handler<H: EventHandler, F>(ctx: &mut Context<H, F>, window: &Window, event: &Event)
    ensures
        final(ctx).event_handler is Some <==> old(ctx).event_handler is Some,
        match old(ctx).event_handler {
            Some(before) => final(ctx).event_handler matches Some(after) && exists|r: &mut H|
                mut_ref_current(r) == before && mut_ref_future(r) == after && #[trigger] received(
                    r,
                    window,
                    event,
                ),
            None => final(ctx).event_handler is None,
        },
        final(ctx).state == old(ctx).state,
        final(ctx).window_table == old(ctx).window_table,
        final(ctx).unwind == old(ctx).unwind,
        final(ctx).raw_input == old(ctx).raw_input,
{
    match ctx.event_handler.take() {
        Some(handler) => {
            let mut handler = handler;
            deliver(&mut handler, window, event);
            ctx.event_handler = Some(handler);
        },
        None => {},
    }
}

/// Keeps a fault that a handler has raised until the loop can raise it again.
/// The handler is dropped, so that no further event reaches it. Nothing is
/// changed in the registry: no window is closed or removed on account of the
/// fault.
#[inline]
pub fn set_unwind<H, F>(ctx: &mut Context<H, F>, e: F)
    ensures
        final(ctx).unwind == Some(e),
        final(ctx).event_handler is None,
        final(ctx).state == old(ctx).state,
        final(ctx).window_table == old(ctx).window_table,
        final(ctx).raw_input == old(ctx).raw_input,
{
    ctx.event_handler = None;
    ctx.unwind = Some(e);
}

/// Gives up the fault that was kept, if there is one, for the loop to raise
/// it again. Afterwards none is kept.
#[inline]
pub fn maybe_resume_unwind<H, F>(ctx: &mut Context<H, F>) -> (r: Option<F>)
    ensures
        r == old(ctx).unwind,
        final(ctx).unwind is None,
        final(ctx).event_handler == old(ctx).event_handler,
        final(ctx).state == old(ctx).state,
        final(ctx).window_table == old(ctx).window_table,
        final(ctx).raw_input == old(ctx).raw_input,
{
    ctx.unwind.take()
}

/// Ends the context of a loop that has come to its end.
#[inline]
pub fn destroy_context<H, F>(slot: &mut Option<Context<H, F>>)
    ensures
        *final(slot) is None,
{
    *slot = None;
}

} // verus!
