//! Windows: their styles, the state that is kept of each, and the builders
//! that describe a window before it exists.
use crate::geometry::{
    LogicalPosition, LogicalSize, PhysicalPosition, PhysicalSize, ScreenPosition,
    ToPhysicalPosition, ToPhysicalSize,
};
use crate::context::{first_window_from, Context};
use crate::device::Cursor;
use crate::error::ApiError;
use crate::ime::{Association, ImmContext, IACE_CHILDREN};
use crate::raw_input;
use crate::text::{encode_utf16, utf16_encoding};
use crate::procedure::{
    post_user_message, user_message, PostedMessage, UserMessage, RDW_INTERNALPAINT, SW_HIDE,
    SW_SHOW, WM_CLOSE,
};
use crate::resource::Icon;
use vstd::prelude::*;
use vstd::string::StringExecFns;

verus! {

pub const WS_OVERLAPPED: u32 = 0x0000_0000;
pub const WS_MAXIMIZEBOX: u32 = 0x0001_0000;
pub const WS_MINIMIZEBOX: u32 = 0x0002_0000;
pub const WS_THICKFRAME: u32 = 0x0004_0000;
pub const WS_SYSMENU: u32 = 0x0008_0000;
pub const WS_CAPTION: u32 = 0x00C0_0000;
pub const WS_CHILD: u32 = 0x4000_0000;
pub const WS_POPUP: u32 = 0x8000_0000;
pub const WS_EX_NOREDIRECTIONBITMAP: u32 = 0x0020_0000;

/// The native identifier of one window.
#[derive(Clone, Copy, PartialEq, Eq, Structural, Debug, Hash)]
pub struct WindowHandle(pub isize);

/// A window style and the borderless window style.
pub trait Style {
    /// The style's flags.
    spec fn style_value(&self) -> u32;

    fn value(&self) -> (v: u32)
        ensures
            v == self.style_value(),
    ;

    /// Tells whether the style is the one of a window without a border.
    fn is_borderless(&self) -> (r: bool)
        ensures
            r == (self.style_value() == WS_POPUP),
    {
        self.value() == WS_POPUP
    }
}

/// Represents the borderless window style.
pub struct BorderlessStyle;

impl Style for BorderlessStyle {
    open spec fn style_value(&self) -> u32 {
        WS_POPUP
    }

    fn value(&self) -> (v: u32) {
        WS_POPUP
    }
}

/// Represents a window style.
pub struct WindowStyle(pub u32);

impl WindowStyle {
    #[inline]
    pub fn dialog() -> (r: Self)
        ensures
            r.0 == WS_OVERLAPPED | WS_CAPTION | WS_SYSMENU,
    {
        Self(WS_OVERLAPPED | WS_CAPTION | WS_SYSMENU)
    }

    #[inline]
    pub fn borderless() -> BorderlessStyle {
        BorderlessStyle
    }

    #[inline]
    pub fn resizable(self, resizable: bool) -> (r: Self)
        ensures
            r.0 == with_flag(self.0, WS_THICKFRAME, resizable),
    {
        Self(set_flag(self.0, WS_THICKFRAME, resizable))
    }

    #[inline]
    pub fn has_minimize_box(self, has_minimize_box: bool) -> (r: Self)
        ensures
            r.0 == with_flag(self.0, WS_MINIMIZEBOX, has_minimize_box),
    {
        Self(set_flag(self.0, WS_MINIMIZEBOX, has_minimize_box))
    }

    #[inline]
    pub fn has_maximize_box(self, has_maximize_box: bool) -> (r: Self)
        ensures
            r.0 == with_flag(self.0, WS_MAXIMIZEBOX, has_maximize_box),
    {
        Self(set_flag(self.0, WS_MAXIMIZEBOX, has_maximize_box))
    }

    #[inline]
    pub fn is_borderless(&self) -> (r: bool)
        ensures
            r == (self.0 == WS_POPUP),
    {
        self.0 == WS_POPUP
    }
}

/// A set of flags with one flag set or cleared.
pub open spec fn with_flag(flags: u32, flag: u32, on: bool) -> u32 {
    if on {
        flags | flag
    } else {
        flags & !flag
    }
}

fn set_flag(flags: u32, flag: u32, on: bool) -> (r: u32)
    ensures
        r == with_flag(flags, flag, on),
{
    if on {
        flags | flag
    } else {
        flags & !flag
    }
}

/// Setting a flag and then asking for it finds it set; clearing it finds it
/// clear; the other flags stay as they were.
pub proof fn lemma_with_flag(flags: u32, flag: u32, on: bool)
    ensures
        on ==> with_flag(flags, flag, on) & flag == flag,
        !on ==> with_flag(flags, flag, on) & flag == 0,
        with_flag(flags, flag, on) & !flag == flags & !flag,
{
    assert((flags | flag) & flag == flag) by (bit_vector);
    assert((flags & !flag) & flag == 0) by (bit_vector);
    assert((flags | flag) & !flag == flags & !flag) by (bit_vector);
    assert((flags & !flag) & !flag == flags & !flag) by (bit_vector);
}

impl Default for WindowStyle {
    #[inline]
    fn default() -> (r: Self)
        ensures
            r.0 == WS_OVERLAPPED | WS_CAPTION | WS_SYSMENU | WS_THICKFRAME | WS_MINIMIZEBOX
                | WS_MAXIMIZEBOX,
    {
        Self(
            WS_OVERLAPPED | WS_CAPTION | WS_SYSMENU | WS_THICKFRAME | WS_MINIMIZEBOX
                | WS_MAXIMIZEBOX,
        )
    }
}

impl Style for WindowStyle {
    open spec fn style_value(&self) -> u32 {
        self.0
    }

    fn value(&self) -> (v: u32) {
        self.0
    }
}

/// What is kept of a window.
pub struct WindowState {
    pub title: String,
    pub style: u32,
    pub set_position: (i32, i32),
    pub set_inner_size: PhysicalSize<u32>,
    pub enabled_ime: bool,
    pub visible_ime_composition_window: bool,
    pub visible_ime_candidate_window: bool,
    pub ime_position: PhysicalPosition<i32>,
    pub children: Vec<WindowHandle>,
    pub closed: bool,
}

impl WindowState {
    /// Two states agree in every part.
    pub open spec fn same(&self, other: &WindowState) -> bool {
        &&& self.title@ == other.title@
        &&& self.style == other.style
        &&& self.set_position == other.set_position
        &&& self.set_inner_size == other.set_inner_size
        &&& self.enabled_ime == other.enabled_ime
        &&& self.visible_ime_composition_window == other.visible_ime_composition_window
        &&& self.visible_ime_candidate_window == other.visible_ime_candidate_window
        &&& self.ime_position == other.ime_position
        &&& self.children@ == other.children@
        &&& self.closed == other.closed
    }

    /// A copy of the state.
    pub fn duplicate(&self) -> (r: WindowState)
        ensures
            r.same(self),
    {
        let mut children: Vec<WindowHandle> = Vec::new();
        let mut i: usize = 0;
        while i < self.children.len()
            invariant
                i <= self.children@.len(),
                children@ == self.children@.subrange(0, i as int),
            decreases self.children@.len() - i,
        {
            children.push(self.children[i]);
            proof {
                assert(children@ =~= self.children@.subrange(0, i + 1));
            }
            i += 1;
        }
        proof {
            assert(children@ =~= self.children@);
        }
        WindowState {
            title: self.title.clone(),
            style: self.style,
            set_position: self.set_position,
            set_inner_size: self.set_inner_size,
            enabled_ime: self.enabled_ime,
            visible_ime_composition_window: self.visible_ime_composition_window,
            visible_ime_candidate_window: self.visible_ime_candidate_window,
            ime_position: self.ime_position,
            children,
            closed: self.closed,
        }
    }
}

/// A request to show or hide a window, or to have it drawn again.
#[derive(Clone, Copy, PartialEq, Eq, Structural, Debug)]
pub enum Visibility {
    /// Show or hide the window; the number is the native show command.
    Show(u32),
    /// Have the window drawn again; the number holds the native flags.
    Redraw(u32),
}

/// Represents a window.
pub struct Window {
    pub hwnd: WindowHandle,
    pub state: WindowState,
}

/// A window together with what only the thread that owns it may use.
pub struct LocalWindow {
    pub handle: Window,
    pub ime_context: ImmContext,
}

impl LocalWindow {
    pub fn new(hwnd: WindowHandle, state: WindowState, ime_context: ImmContext) -> (r: Self)
        ensures
            r.handle.hwnd == hwnd,
            r.handle.state == state,
            r.ime_context == ime_context,
    {
        Self { handle: Window { hwnd, state }, ime_context }
    }
}

impl Window {
    /// Two windows agree in handle and state.
    pub open spec fn same(&self, other: &Window) -> bool {
        self.hwnd == other.hwnd && self.state.same(&other.state)
    }

    /// A copy of the window as it is now.
    pub fn duplicate(&self) -> (r: Window)
        ensures
            r.same(self),
    {
        Window { hwnd: self.hwnd, state: self.state.duplicate() }
    }

    pub fn title(&self) -> (r: String)
        ensures
            r@ == self.state.title@,
    {
        self.state.title.clone()
    }

    /// Takes a new title, and asks the window to show it.
    pub fn set_title(&mut self, title: &str) -> (r: PostedMessage)
        ensures
            final(self).hwnd == old(self).hwnd,
            final(self).state.title@ == title@,
            final(self).state.same(
                &WindowState { title: final(self).state.title, ..old(self).state },
            ),
            r == user_message(old(self).hwnd, UserMessage::SetTitle, 0),
    {
        self.state.title = String::from_str(title);
        post_user_message(self.hwnd, UserMessage::SetTitle, 0)
    }

    /// The window's position on the screen, from the rectangle that the
    /// native layer reports for the window.
    pub fn position(&self, window_rect: Rect) -> (r: ScreenPosition)
        ensures
            r.x == window_rect.left,
            r.y == window_rect.top,
    {
        ScreenPosition::new(window_rect.left, window_rect.top)
    }

    /// Takes a new position, and asks the window to move there.
    pub fn set_position(&mut self, position: ScreenPosition) -> (r: PostedMessage)
        ensures
            final(self).hwnd == old(self).hwnd,
            final(self).state == (WindowState {
                set_position: (position.x, position.y),
                ..old(self).state
            }),
            r == user_message(old(self).hwnd, UserMessage::SetPosition, 0),
    {
        self.state.set_position = (position.x, position.y);
        post_user_message(self.hwnd, UserMessage::SetPosition, 0)
    }

    /// The size of the window's client area, from the rectangle that the
    /// native layer reports for it.
    pub fn inner_size(&self, client_rect: Rect) -> (r: PhysicalSize<u32>)
        ensures
            r.width == client_rect.spec_width() as u32,
            r.height == client_rect.spec_height() as u32,
    {
        PhysicalSize::new(
            #[verifier::truncate]
            ((client_rect.right as i64 - client_rect.left as i64) as u32),
            #[verifier::truncate]
            ((client_rect.bottom as i64 - client_rect.top as i64) as u32),
        )
    }

    /// Takes a new size for the client area, given in any unit, and asks the
    /// window to take that size. `dpi` is the window's DPI.
    pub fn set_inner_size<S: ToPhysicalSize<u32>>(&mut self, size: S, dpi: u32) -> (r:
        PostedMessage)
        requires
            size.to_physical_req(dpi),
        ensures
            final(self).hwnd == old(self).hwnd,
            final(self).state == (WindowState {
                set_inner_size: size.to_physical_spec(dpi),
                ..old(self).state
            }),
            r == user_message(old(self).hwnd, UserMessage::SetInnerSize, 0),
    {
        self.state.set_inner_size = size.to_physical(dpi);
        post_user_message(self.hwnd, UserMessage::SetInnerSize, 0)
    }

    /// Asks for the window to be shown.
    pub fn show(&self) -> (r: Visibility)
        ensures
            r == Visibility::Show(SW_SHOW),
    {
        Visibility::Show(SW_SHOW)
    }

    /// Asks for the window to be hidden.
    pub fn hide_window(&self) -> (r: Visibility)
        ensures
            r == Visibility::Show(SW_HIDE),
    {
        Visibility::Show(SW_HIDE)
    }

    /// Asks for the window to be drawn again.
    pub fn redraw(&self) -> (r: Visibility)
        ensures
            r == Visibility::Redraw(RDW_INTERNALPAINT),
    {
        Visibility::Redraw(RDW_INTERNALPAINT)
    }

    pub fn is_closed(&self) -> (r: bool)
        ensures
            r == self.state.closed,
    {
        self.state.closed
    }

    /// Asks the window to close. Nothing is asked of a window that is closed
    /// already.
    pub fn close(&self) -> (r: Option<PostedMessage>)
        ensures
            r == if self.state.closed {
                None
            } else {
                Some(PostedMessage { hwnd: self.hwnd, msg: WM_CLOSE, wparam: 0, lparam: 0 })
            },
    {
        if !self.is_closed() {
            Some(PostedMessage { hwnd: self.hwnd, msg: WM_CLOSE, wparam: 0, lparam: 0 })
        } else {
            None
        }
    }

    pub fn ime_position(&self) -> (r: PhysicalPosition<i32>)
        ensures
            r.x == self.state.ime_position.x,
            r.y == self.state.ime_position.y,
    {
        PhysicalPosition::new(self.state.ime_position.x, self.state.ime_position.y)
    }

    /// Switches text composition on or off: the window is asked to bind or
    /// unbind its input context, and the state takes note.
    pub fn ime(&mut self, enable: bool) -> (r: PostedMessage)
        ensures
            final(self).hwnd == old(self).hwnd,
            final(self).state == (WindowState { enabled_ime: enable, ..old(self).state }),
            r == user_message(
                old(self).hwnd,
                if enable {
                    UserMessage::EnableIme
                } else {
                    UserMessage::DisableIme
                },
                0,
            ),
    {
        let r = if enable {
            post_user_message(self.hwnd, UserMessage::EnableIme, 0)
        } else {
            post_user_message(self.hwnd, UserMessage::DisableIme, 0)
        };
        self.state.enabled_ime = enable;
        r
    }

    /// Takes the point at which composition windows are put, given in any
    /// unit. `dpi` is the window's DPI.
    pub fn set_ime_position<P: ToPhysicalPosition<i32>>(&mut self, position: P, dpi: i32)
        requires
            position.to_physical_req(dpi),
        ensures
            final(self).hwnd == old(self).hwnd,
            final(self).state.ime_position.x == position.to_physical_spec(dpi).x,
            final(self).state.ime_position.y == position.to_physical_spec(dpi).y,
            final(self).state == (WindowState {
                ime_position: final(self).state.ime_position,
                ..old(self).state
            }),
    {
        let position = position.to_physical(dpi);
        self.state.ime_position.x = position.x;
        self.state.ime_position.y = position.y;
    }

    pub fn is_enabled_ime(&self) -> (r: bool)
        ensures
            r == self.state.enabled_ime,
    {
        self.state.enabled_ime
    }

    pub fn style(&self) -> (r: WindowStyle)
        ensures
            r.0 == self.state.style,
    {
        WindowStyle(self.state.style)
    }

    /// Takes a new style, and asks the window to wear it.
    pub fn set_style<S: Style>(&mut self, style: S) -> (r: PostedMessage)
        ensures
            final(self).hwnd == old(self).hwnd,
            final(self).state == (WindowState { style: style.style_value(), ..old(self).state }),
            r == user_message(old(self).hwnd, UserMessage::SetStyle, 0),
    {
        self.state.style = style.value();
        post_user_message(self.hwnd, UserMessage::SetStyle, 0)
    }

    /// Asks the window to accept or refuse files that are dropped on it.
    pub fn accept_drag_files(&self, enabled: bool) -> (r: PostedMessage)
        ensures
            r == user_message(
                self.hwnd,
                UserMessage::AcceptDragFiles,
                if enabled {
                    1isize
                } else {
                    0isize
                },
            ),
    {
        post_user_message(
            self.hwnd,
            UserMessage::AcceptDragFiles,
            if enabled {
                1
            } else {
                0
            },
        )
    }

    /// The native handle of the window.
    pub fn raw_handle(&self) -> (r: isize)
        ensures
            r == self.hwnd.0,
    {
        self.hwnd.0
    }

    /// Two windows are the same window where their handles are equal.
    pub fn eq(&self, other: &Window) -> (r: bool)
        ensures
            r == (self.hwnd == other.hwnd),
    {
        self.hwnd.0 == other.hwnd.0
    }
}

/// A rectangle as the native layer reports it.
#[derive(Clone, Copy, PartialEq, Eq, Structural, Debug)]
pub struct Rect {
    pub left: i32,
    pub top: i32,
    pub right: i32,
    pub bottom: i32,
}

impl Rect {
    /// The distance from the left edge to the right edge.
    pub open spec fn spec_width(self) -> int {
        self.right - self.left
    }

    /// The distance from the top edge to the bottom edge.
    pub open spec fn spec_height(self) -> int {
        self.bottom - self.top
    }

    /// Both extents fit the native layer's 32-bit lengths.
    pub open spec fn extents_fit(self) -> bool {
        &&& i32::MIN <= self.spec_width() <= i32::MAX
        &&& i32::MIN <= self.spec_height() <= i32::MAX
    }

    /// Tells whether both extents fit the native layer's 32-bit lengths.
    pub fn has_extents(&self) -> (r: bool)
        ensures
            r == self.extents_fit(),
    {
        self.right.checked_sub(self.left).is_some() && self.bottom.checked_sub(
            self.top,
        ).is_some()
    }

    pub fn width(&self) -> (w: i32)
        requires
            self.extents_fit(),
        ensures
            w == self.spec_width(),
    {
        self.right - self.left
    }

    pub fn height(&self) -> (h: i32)
        requires
            self.extents_fit(),
        ensures
            h == self.spec_height(),
    {
        self.bottom - self.top
    }
}

pub const CS_VREDRAW: u32 = 0x0001;
pub const CS_HREDRAW: u32 = 0x0002;
pub const WHITE_BRUSH: u32 = 0;

/// What the native layer is told of the class of the windows.
pub struct WindowClass {
    /// The name of the class in UTF-16, with a zero unit at its end.
    pub name: Vec<u16>,
    pub style: u32,
    /// The identifier of the cursor that the windows show.
    pub cursor: u16,
    /// The stock brush that fills the background.
    pub background: u32,
}

/// The name of the class of the windows.
pub open spec fn window_class_name() -> Seq<char> {
    "wita_window_class"@
}

/// Says what the native layer is told of the class of the windows: its name,
/// that a window is drawn again when its width or height changes, the arrow
/// as its cursor, and a white background.
pub fn register_class() -> (r: WindowClass)
    ensures
        r.name@ == utf16_encoding(window_class_name()).push(0),
        r.style == CS_VREDRAW | CS_HREDRAW,
        r.cursor == Cursor::Arrow.resource_id(),
        r.background == WHITE_BRUSH,
{
    let mut name: Vec<u16> = encode_utf16("wita_window_class");
    name.push(0);
    WindowClass {
        name,
        style: CS_VREDRAW | CS_HREDRAW,
        cursor: Cursor::Arrow.name(),
        background: WHITE_BRUSH,
    }
}

/// What the native layer is asked to make when a window is built.
pub struct WindowParams {
    pub ex_style: u32,
    pub title: String,
    pub style: u32,
    pub x: i32,
    pub y: i32,
    /// The size of the client area; the outer size is the one that the
    /// native layer gives for it under the style.
    pub client: PhysicalSize<u32>,
    pub parent: Option<WindowHandle>,
}

/// What the native layer has made: a window, and an input context for it.
#[derive(Clone, Copy, PartialEq, Eq, Structural, Debug)]
pub struct Created {
    pub hwnd: WindowHandle,
    pub himc: isize,
}

/// Something that is done for a window once it has been made.
#[derive(Clone, Copy, PartialEq, Eq, Structural, Debug)]
pub enum Setup {
    /// Bind the input context.
    Associate(Association),
    /// Show the window; the number is the native show command.
    Show(u32),
    /// Accept dropped files.
    AcceptDragFiles,
    /// Load the large and the small image of the icon and give them to the
    /// window.
    SetIcons,
    /// Put a message into the window's queue.
    Post(PostedMessage),
    /// Register the window for raw input.
    RegisterDevices(raw_input::WindowState),
}

/// A window that has been built: the window as it is registered, its icon,
/// and what is still to be done for it, in order.
pub struct Built {
    pub handle: Window,
    pub icon: Option<Icon>,
    pub setup: Vec<Setup>,
}

/// A sequence that holds a step where a condition holds, and nothing where
/// it does not.
pub open spec fn setup_if(condition: bool, step: Setup) -> Seq<Setup> {
    if condition {
        seq![step]
    } else {
        Seq::empty()
    }
}

/// What is done for a window once it has been made, in order: its input
/// context is bound to it and its children; it is shown; it is told to accept
/// dropped files; its icon is set; it is asked to switch text composition on;
/// and it is registered for raw input. Each step but the first and the last
/// is taken only where the builder asks for it.
pub open spec fn setup_steps(
    created: Created,
    visibility: bool,
    accept_drag_files: bool,
    has_icon: bool,
    enabled_ime: bool,
    raw_input_window_state: raw_input::WindowState,
) -> Seq<Setup> {
    seq![
        Setup::Associate(
            Association { hwnd: created.hwnd, himc: created.himc, flags: IACE_CHILDREN },
        ),
    ] + setup_if(visibility, Setup::Show(SW_SHOW)) + setup_if(
        accept_drag_files,
        Setup::AcceptDragFiles,
    ) + setup_if(has_icon, Setup::SetIcons) + setup_if(
        enabled_ime,
        Setup::Post(user_message(created.hwnd, UserMessage::EnableIme, 0)),
    ) + seq![Setup::RegisterDevices(raw_input_window_state)]
}

fn setup_list(
    created: Created,
    visibility: bool,
    accept_drag_files: bool,
    has_icon: bool,
    enabled_ime: bool,
    raw_input_window_state: raw_input::WindowState,
) -> (r: Vec<Setup>)
    ensures
        r@ == setup_steps(
            created,
            visibility,
            accept_drag_files,
            has_icon,
            enabled_ime,
            raw_input_window_state,
        ),
{
    let mut setup: Vec<Setup> = Vec::new();
    let (ime_context, association) = ImmContext::new(created.hwnd, created.himc);
    setup.push(Setup::Associate(association));
    if visibility {
        setup.push(Setup::Show(SW_SHOW));
    }
    if accept_drag_files {
        setup.push(Setup::AcceptDragFiles);
    }
    if has_icon {
        setup.push(Setup::SetIcons);
    }
    if enabled_ime {
        setup.push(Setup::Post(post_user_message(created.hwnd, UserMessage::EnableIme, 0)));
    }
    setup.push(Setup::RegisterDevices(raw_input_window_state));
    proof {
        assert(setup@ =~= setup_steps(
            created,
            visibility,
            accept_drag_files,
            has_icon,
            enabled_ime,
            raw_input_window_state,
        ));
    }
    setup
}

/// A window has taken a child: its list of children ends with the child, and
/// nothing else of it has changed.
pub open spec fn adopted(before: LocalWindow, after: LocalWindow, child: WindowHandle) -> bool {
    &&& after.handle.hwnd == before.handle.hwnd
    &&& after.ime_context == before.ime_context
    &&& after.handle.state.children@ == before.handle.state.children@.push(child)
    &&& after.handle.state.same(
        &WindowState { children: after.handle.state.children, ..before.handle.state },
    )
}

/// The registry has taken a new window: it stands at the end of the table;
/// the window that is its parent, if that is registered, has taken it as a
/// child; and every other window is as it was.
pub open spec fn registered(
    before: Seq<LocalWindow>,
    after: Seq<LocalWindow>,
    parent: Option<WindowHandle>,
    hwnd: WindowHandle,
) -> bool {
    let adopter = match parent {
        Some(p) => first_window_from(before, p, 0),
        None => None,
    };
    &&& after.len() == before.len() + 1
    &&& after.last().handle.hwnd == hwnd
    &&& forall|k: int|
        0 <= k < before.len() ==> if adopter == Some(k) {
            adopted(before[k], #[trigger] after[k], hwnd)
        } else {
            after[k] == before[k]
        }
}

fn register<H, F>(
    ctx: &mut Context<H, F>,
    parent: Option<WindowHandle>,
    window: LocalWindow,
)
    requires
        old(ctx).wf(),
        !old(ctx).contains(window.handle.hwnd),
    ensures
        final(ctx).wf(),
        registered(
            old(ctx).window_table@,
            final(ctx).window_table@,
            parent,
            window.handle.hwnd,
        ),
        final(ctx).window_table@.last() == window,
        final(ctx).contains(window.handle.hwnd),
        final(ctx).state == old(ctx).state,
        final(ctx).event_handler == old(ctx).event_handler,
        final(ctx).unwind == old(ctx).unwind,
        final(ctx).raw_input == old(ctx).raw_input,
{
    let hwnd: WindowHandle = window.handle.hwnd;
    let ghost before = ctx.window_table@;
    match parent {
        Some(p) => {
            match ctx.find_index(p) {
                Some(i) => {
                    let mut adopter: LocalWindow = ctx.window_table.remove(i);
                    adopter.handle.state.children.push(hwnd);
                    ctx.window_table.insert(i, adopter);
                    proof {
                        let now = ctx.window_table@;
                        assert(now.len() == before.len());
                        assert(adopted(before[i as int], now[i as int], hwnd));
                        assert forall|k: int| 0 <= k < now.len() implies (
                        #[trigger] now[k]).handle.hwnd == before[k].handle.hwnd by {}
                    }
                },
                None => {},
            }
        },
        None => {},
    }
    let ghost middle = ctx.window_table@;
    ctx.window_table.push(window);
    proof {
        let now = ctx.window_table@;
        assert(now[now.len() - 1].handle.hwnd == hwnd);
        assert forall|a: int, b: int| 0 <= a < b < now.len() implies (
        #[trigger] now[a]).handle.hwnd != (#[trigger] now[b]).handle.hwnd by {
            assert(now[a].handle.hwnd == before[a].handle.hwnd);
            if b < before.len() {
                assert(now[b].handle.hwnd == before[b].handle.hwnd);
            } else {
                assert(before[a].handle.hwnd != hwnd);
            }
        }
        assert forall|k: int| 0 <= k < before.len() implies middle[k] == now[k] by {}
    }
}

/// The object to build a window.
pub struct WindowBuilder<S = ()> {
    pub title: String,
    pub position: ScreenPosition,
    pub inner_size: S,
    pub visibility: bool,
    pub style: u32,
    pub enabled_ime: bool,
    pub visible_ime_composition_window: bool,
    pub visible_ime_candidate_window: bool,
    pub parent: Option<WindowHandle>,
    pub children: Vec<WindowHandle>,
    pub accept_drag_files: bool,
    pub icon: Option<Icon>,
    pub no_redirection_bitmap: bool,
    pub raw_input_window_state: raw_input::WindowState,
}

impl WindowBuilder<()> {
    /// A builder for a visible, resizable window without a title, at the
    /// origin of the screen, 640 by 480 logical units large.
    pub fn new() -> (r: WindowBuilder<LogicalSize<u32>>)
        ensures
            r.title@.len() == 0,
            r.position.x == 0,
            r.position.y == 0,
            r.inner_size.width == 640,
            r.inner_size.height == 480,
            r.style == WS_OVERLAPPED | WS_CAPTION | WS_SYSMENU | WS_THICKFRAME | WS_MINIMIZEBOX
                | WS_MAXIMIZEBOX,
            r.visibility,
            !r.enabled_ime,
            r.visible_ime_composition_window,
            r.visible_ime_candidate_window,
            r.parent is None,
            r.children@.len() == 0,
            !r.accept_drag_files,
            r.icon is None,
            !r.no_redirection_bitmap,
            r.raw_input_window_state == raw_input::WindowState::Foreground,
    {
        WindowBuilder {
            title: String::new(),
            position: ScreenPosition::new(0, 0),
            inner_size: LogicalSize::new(640, 480),
            style: WindowStyle::default().value(),
            visibility: true,
            enabled_ime: false,
            visible_ime_composition_window: true,
            visible_ime_candidate_window: true,
            parent: None,
            children: Vec::new(),
            accept_drag_files: false,
            icon: None,
            no_redirection_bitmap: false,
            raw_input_window_state: raw_input::WindowState::Foreground,
        }
    }
}

impl<S> WindowBuilder<S> {
    /// Two builders agree in everything but the size that they ask for.
    pub open spec fn same_but_size<T>(&self, other: &WindowBuilder<T>) -> bool {
        &&& self.title == other.title
        &&& self.position == other.position
        &&& self.visibility == other.visibility
        &&& self.style == other.style
        &&& self.enabled_ime == other.enabled_ime
        &&& self.visible_ime_composition_window == other.visible_ime_composition_window
        &&& self.visible_ime_candidate_window == other.visible_ime_candidate_window
        &&& self.parent == other.parent
        &&& self.children == other.children
        &&& self.accept_drag_files == other.accept_drag_files
        &&& self.icon == other.icon
        &&& self.no_redirection_bitmap == other.no_redirection_bitmap
        &&& self.raw_input_window_state == other.raw_input_window_state
    }

    pub fn title(self, title: &str) -> (r: WindowBuilder<S>)
        ensures
            r.title@ == title@,
            r == (WindowBuilder { title: r.title, ..self }),
    {
        let mut r = self;
        r.title = String::from_str(title);
        r
    }

    pub fn position(self, position: ScreenPosition) -> (r: Self)
        ensures
            r == (WindowBuilder { position, ..self }),
    {
        let mut r = self;
        r.position = position;
        r
    }

    pub fn inner_size<T>(self, inner_size: T) -> (r: WindowBuilder<T>)
        ensures
            r.inner_size == inner_size,
            r.same_but_size(&self),
    {
        WindowBuilder {
            title: self.title,
            position: self.position,
            inner_size,
            style: self.style,
            visibility: self.visibility,
            enabled_ime: self.enabled_ime,
            visible_ime_composition_window: self.visible_ime_composition_window,
            visible_ime_candidate_window: self.visible_ime_candidate_window,
            parent: self.parent,
            children: self.children,
            accept_drag_files: self.accept_drag_files,
            icon: self.icon,
            no_redirection_bitmap: self.no_redirection_bitmap,
            raw_input_window_state: self.raw_input_window_state,
        }
    }

    pub fn style<T: Style>(self, style: T) -> (r: WindowBuilder<S>)
        ensures
            r == (WindowBuilder { style: style.style_value(), ..self }),
    {
        let mut r = self;
        r.style = style.value();
        r
    }

    pub fn visible(self, visibility: bool) -> (r: WindowBuilder<S>)
        ensures
            r == (WindowBuilder { visibility, ..self }),
    {
        let mut r = self;
        r.visibility = visibility;
        r
    }

    pub fn visible_ime_composition_window(self, show_ime_composition_window: bool) -> (r:
        WindowBuilder<S>)
        ensures
            r == (WindowBuilder {
                visible_ime_composition_window: show_ime_composition_window,
                ..self
            }),
    {
        let mut r = self;
        r.visible_ime_composition_window = show_ime_composition_window;
        r
    }

    pub fn visible_ime_candidate_window(self, show_ime_cadidate_window: bool) -> (r: WindowBuilder<
        S,
    >)
        ensures
            r == (WindowBuilder { visible_ime_candidate_window: show_ime_cadidate_window, ..self }),
    {
        let mut r = self;
        r.visible_ime_candidate_window = show_ime_cadidate_window;
        r
    }

    pub fn parent(self, parent: &Window) -> (r: WindowBuilder<S>)
        ensures
            r == (WindowBuilder { parent: Some(parent.hwnd), ..self }),
    {
        let mut r = self;
        r.parent = Some(parent.hwnd);
        r
    }

    pub fn child(self, child: &Window) -> (r: WindowBuilder<S>)
        ensures
            r.children@ == self.children@.push(child.hwnd),
            r == (WindowBuilder { children: r.children, ..self }),
    {
        let mut r = self;
        r.children.push(child.hwnd);
        r
    }

    pub fn children(self, children: &[&Window]) -> (r: WindowBuilder<S>)
        ensures
            r.children@ == self.children@ + Seq::new(children@.len(), |i: int| children@[i].hwnd),
            r == (WindowBuilder { children: r.children, ..self }),
    {
        let mut r = self;
        let ghost start = r.children@;
        let mut i: usize = 0;
        while i < children.len()
            invariant
                i <= children@.len(),
                start == self.children@,
                r.children@ == start + Seq::new(i as nat, |k: int| children@[k].hwnd),
                r == (WindowBuilder { children: r.children, ..self }),
            decreases children@.len() - i,
        {
            r.children.push(children[i].hwnd);
            proof {
                assert(r.children@ =~= start + Seq::new(
                    (i + 1) as nat,
                    |k: int| children@[k].hwnd,
                ));
            }
            i += 1;
        }
        r
    }

    pub fn accept_drag_files(self, enabled: bool) -> (r: WindowBuilder<S>)
        ensures
            r == (WindowBuilder { accept_drag_files: enabled, ..self }),
    {
        let mut r = self;
        r.accept_drag_files = enabled;
        r
    }

    pub fn icon(self, icon: Icon) -> (r: WindowBuilder<S>)
        ensures
            r == (WindowBuilder { icon: Some(icon), ..self }),
    {
        let mut r = self;
        r.icon = Some(icon);
        r
    }

    pub fn ime(self, enable: bool) -> (r: WindowBuilder<S>)
        ensures
            r == (WindowBuilder { enabled_ime: enable, ..self }),
    {
        let mut r = self;
        r.enabled_ime = enable;
        r
    }

    pub fn no_redirection_bitmap(self, enable: bool) -> (r: WindowBuilder<S>)
        ensures
            r == (WindowBuilder { no_redirection_bitmap: enable, ..self }),
    {
        let mut r = self;
        r.no_redirection_bitmap = enable;
        r
    }

    pub fn raw_input_window_state(self, state: raw_input::WindowState) -> (r: WindowBuilder<S>)
        ensures
            r == (WindowBuilder { raw_input_window_state: state, ..self }),
    {
        let mut r = self;
        r.raw_input_window_state = state;
        r
    }
}

impl<S: ToPhysicalSize<u32>> WindowBuilder<S> {
    /// Says what the native layer is asked to make. `dpi` is the DPI of the
    /// monitor that holds the window's position.
    pub fn params(&self, dpi: u32) -> (r: WindowParams)
        requires
            self.inner_size.to_physical_req(dpi),
        ensures
            r.ex_style == if self.no_redirection_bitmap {
                WS_EX_NOREDIRECTIONBITMAP
            } else {
                0u32
            },
            r.title@ == self.title@,
            r.style == self.style,
            r.x == self.position.x,
            r.y == self.position.y,
            r.client == self.inner_size.to_physical_spec(dpi),
            r.parent is None,
    {
        WindowParams {
            ex_style: if self.no_redirection_bitmap {
                WS_EX_NOREDIRECTIONBITMAP
            } else {
                0
            },
            title: self.title.clone(),
            style: self.style,
            x: self.position.x,
            y: self.position.y,
            client: self.inner_size.to_physical(dpi),
            parent: None,
        }
    }

    /// Registers the window that the native layer has made, and says what is
    /// still to be done for it. Where the native layer has failed, its error
    /// is handed on and nothing is registered.
    ///
    /// `dpi` is the DPI of the monitor that holds the window's position. The
    /// handle of the new window must not be registered yet.
    pub fn build<H, F>(self, ctx: &mut Context<H, F>, dpi: u32, created: Result<Created, ApiError>)
        -> (r: Result<Built, ApiError>)
        requires
            old(ctx).wf(),
            self.inner_size.to_physical_req(dpi),
            created matches Ok(c) ==> !old(ctx).contains(c.hwnd),
        ensures
            final(ctx).wf(),
            final(ctx).state == old(ctx).state,
            final(ctx).event_handler == old(ctx).event_handler,
            final(ctx).unwind == old(ctx).unwind,
            final(ctx).raw_input == old(ctx).raw_input,
            match created {
                Err(e) => r == Err::<Built, ApiError>(e)
                    && final(ctx).window_table == old(ctx).window_table,
                Ok(c) => {
                    &&& r matches Ok(built)
                    &&& registered(
                        old(ctx).window_table@,
                        final(ctx).window_table@,
                        self.parent,
                        c.hwnd,
                    )
                    &&& final(ctx).window_table@.last().ime_context == (ImmContext {
                        hwnd: c.hwnd,
                        himc: c.himc,
                    })
                    &&& built.handle.same(&final(ctx).window_table@.last().handle)
                    &&& built.handle.hwnd == c.hwnd
                    &&& built.handle.state.title@ == self.title@
                    &&& built.handle.state.style == self.style
                    &&& built.handle.state.set_position == (self.position.x, self.position.y)
                    &&& built.handle.state.set_inner_size == self.inner_size.to_physical_spec(dpi)
                    &&& built.handle.state.enabled_ime == self.enabled_ime
                    &&& built.handle.state.visible_ime_composition_window
                        == self.visible_ime_composition_window
                    &&& built.handle.state.visible_ime_candidate_window
                        == self.visible_ime_candidate_window
                    &&& built.handle.state.ime_position.x == 0
                    &&& built.handle.state.ime_position.y == 0
                    &&& built.handle.state.children@ == self.children@
                    &&& !built.handle.state.closed
                    &&& built.icon == self.icon
                    &&& built.setup@ == setup_steps(
                        c,
                        self.visibility,
                        self.accept_drag_files,
                        self.icon is Some,
                        self.enabled_ime,
                        self.raw_input_window_state,
                    )
                },
            },
    {
        let created: Created = match created {
            Ok(c) => c,
            Err(e) => {
                return Err(e);
            },
        };
        let inner_size = self.inner_size.to_physical(dpi);
        let state = WindowState {
            title: self.title,
            style: self.style,
            set_position: (self.position.x, self.position.y),
            set_inner_size: inner_size,
            enabled_ime: self.enabled_ime,
            visible_ime_composition_window: self.visible_ime_composition_window,
            visible_ime_candidate_window: self.visible_ime_candidate_window,
            ime_position: PhysicalPosition::new(0, 0),
            children: self.children,
            closed: false,
        };
        let (ime_context, _) = ImmContext::new(created.hwnd, created.himc);
        let window = LocalWindow::new(created.hwnd, state, ime_context);
        let handle: Window = window.handle.duplicate();
        let setup = setup_list(
            created,
            self.visibility,
            self.accept_drag_files,
            self.icon.is_some(),
            self.enabled_ime,
            self.raw_input_window_state,
        );
        register(ctx, self.parent, window);
        Ok(Built { handle, icon: self.icon, setup })
    }
}

/// The object to build a window into the parent window.
pub struct InnerWindowBuilder<W = (), P = (), S = ()> {
    pub parent: W,
    pub position: P,
    pub size: S,
    pub visibility: bool,
    pub visible_ime_composition_window: bool,
    pub visible_ime_candidate_window: bool,
    pub accept_drag_files: bool,
    pub raw_input_window_state: raw_input::WindowState,
}

impl InnerWindowBuilder<(), (), ()> {
    /// A builder for a visible window at the origin of its parent.
    pub fn new() -> (r: InnerWindowBuilder<(), LogicalPosition<i32>, ()>)
        ensures
            r.position.x == 0,
            r.position.y == 0,
            r.visibility,
            r.visible_ime_composition_window,
            r.visible_ime_candidate_window,
            !r.accept_drag_files,
            r.raw_input_window_state == raw_input::WindowState::Foreground,
    {
        InnerWindowBuilder {
            parent: (),
            position: LogicalPosition::new(0, 0),
            size: (),
            visibility: true,
            visible_ime_composition_window: true,
            visible_ime_candidate_window: true,
            accept_drag_files: false,
            raw_input_window_state: raw_input::WindowState::Foreground,
        }
    }
}

impl<W, P, S> InnerWindowBuilder<W, P, S> {
    /// Two builders agree in what they ask for besides the parent, the
    /// position and the size.
    pub open spec fn same_options<W2, P2, S2>(&self, other: &InnerWindowBuilder<W2, P2, S2>)
        -> bool {
        &&& self.visibility == other.visibility
        &&& self.visible_ime_composition_window == other.visible_ime_composition_window
        &&& self.visible_ime_candidate_window == other.visible_ime_candidate_window
        &&& self.accept_drag_files == other.accept_drag_files
        &&& self.raw_input_window_state == other.raw_input_window_state
    }

    pub fn parent(self, parent: &Window) -> (r: InnerWindowBuilder<WindowHandle, P, S>)
        ensures
            r.parent == parent.hwnd,
            r.position == self.position,
            r.size == self.size,
            r.same_options(&self),
    {
        InnerWindowBuilder {
            parent: parent.hwnd,
            position: self.position,
            size: self.size,
            visibility: self.visibility,
            visible_ime_composition_window: self.visible_ime_composition_window,
            visible_ime_candidate_window: self.visible_ime_candidate_window,
            accept_drag_files: self.accept_drag_files,
            raw_input_window_state: self.raw_input_window_state,
        }
    }

    pub fn position<T>(self, position: T) -> (r: InnerWindowBuilder<W, T, S>)
        ensures
            r.parent == self.parent,
            r.position == position,
            r.size == self.size,
            r.same_options(&self),
    {
        InnerWindowBuilder {
            parent: self.parent,
            position,
            size: self.size,
            visibility: self.visibility,
            visible_ime_composition_window: self.visible_ime_composition_window,
            visible_ime_candidate_window: self.visible_ime_candidate_window,
            accept_drag_files: self.accept_drag_files,
            raw_input_window_state: self.raw_input_window_state,
        }
    }

    pub fn size<T>(self, size: T) -> (r: InnerWindowBuilder<W, P, T>)
        ensures
            r.parent == self.parent,
            r.position == self.position,
            r.size == size,
            r.same_options(&self),
    {
        InnerWindowBuilder {
            parent: self.parent,
            position: self.position,
            size,
            visibility: self.visibility,
            visible_ime_composition_window: self.visible_ime_composition_window,
            visible_ime_candidate_window: self.visible_ime_candidate_window,
            accept_drag_files: self.accept_drag_files,
            raw_input_window_state: self.raw_input_window_state,
        }
    }

    pub fn visible(self, visibility: bool) -> (r: Self)
        ensures
            r == (InnerWindowBuilder { visibility, ..self }),
    {
        let mut r = self;
        r.visibility = visibility;
        r
    }

    pub fn accept_drag_files(self) -> (r: Self)
        ensures
            r == (InnerWindowBuilder { accept_drag_files: true, ..self }),
    {
        let mut r = self;
        r.accept_drag_files = true;
        r
    }
}

/// Whether text composition is switched on for a registered window; it is
/// not for a window that is not registered.
pub open spec fn ime_enabled_in(table: Seq<LocalWindow>, hwnd: WindowHandle) -> bool {
    match first_window_from(table, hwnd, 0) {
        Some(i) => table[i].handle.state.enabled_ime,
        None => false,
    }
}

impl<P: ToPhysicalPosition<i32>, S: ToPhysicalSize<u32>> InnerWindowBuilder<WindowHandle, P, S> {
    /// Says what the native layer is asked to make. `dpi` is the DPI of the
    /// parent window.
    pub fn params(&self, dpi: u32) -> (r: WindowParams)
        requires
            self.position.to_physical_req(dpi as i32),
            self.size.to_physical_req(dpi),
        ensures
            r.ex_style == 0,
            r.title@.len() == 0,
            r.style == WS_CHILD,
            r.x == self.position.to_physical_spec(dpi as i32).x,
            r.y == self.position.to_physical_spec(dpi as i32).y,
            r.client == self.size.to_physical_spec(dpi),
            r.parent == Some(self.parent),
    {
        let position = self.position.to_physical(
            #[verifier::truncate]
            (dpi as i32),
        );
        WindowParams {
            ex_style: 0,
            title: String::new(),
            style: WS_CHILD,
            x: position.x,
            y: position.y,
            client: self.size.to_physical(dpi),
            parent: Some(self.parent),
        }
    }

    /// Registers the window that the native layer has made inside its
    /// parent, and says what is still to be done for it. Where the native
    /// layer has failed, its error is handed on and nothing is registered.
    ///
    /// `dpi` is the DPI of the parent window. The handle of the new window
    /// must not be registered yet. The window takes over from its parent
    /// whether text composition is switched on; the parent's list of children
    /// is left as it is.
    pub fn build<H, F>(self, ctx: &mut Context<H, F>, dpi: u32, created: Result<Created, ApiError>)
        -> (r: Result<Built, ApiError>)
        requires
            old(ctx).wf(),
            self.position.to_physical_req(dpi as i32),
            self.size.to_physical_req(dpi),
            created matches Ok(c) ==> !old(ctx).contains(c.hwnd),
        ensures
            final(ctx).wf(),
            final(ctx).state == old(ctx).state,
            final(ctx).event_handler == old(ctx).event_handler,
            final(ctx).unwind == old(ctx).unwind,
            final(ctx).raw_input == old(ctx).raw_input,
            match created {
                Err(e) => r == Err::<Built, ApiError>(e)
                    && final(ctx).window_table == old(ctx).window_table,
                Ok(c) => {
                    &&& r matches Ok(built)
                    &&& registered(old(ctx).window_table@, final(ctx).window_table@, None, c.hwnd)
                    &&& final(ctx).window_table@.last().ime_context == (ImmContext {
                        hwnd: c.hwnd,
                        himc: c.himc,
                    })
                    &&& built.handle.same(&final(ctx).window_table@.last().handle)
                    &&& built.handle.hwnd == c.hwnd
                    &&& built.handle.state.title@.len() == 0
                    &&& built.handle.state.style == WS_CHILD
                    &&& built.handle.state.set_position == (
                        self.position.to_physical_spec(dpi as i32).x,
                        self.position.to_physical_spec(dpi as i32).y,
                    )
                    &&& built.handle.state.set_inner_size == self.size.to_physical_spec(dpi)
                    &&& built.handle.state.enabled_ime == ime_enabled_in(
                        old(ctx).window_table@,
                        self.parent,
                    )
                    &&& built.handle.state.visible_ime_composition_window
                        == self.visible_ime_composition_window
                    &&& built.handle.state.visible_ime_candidate_window
                        == self.visible_ime_candidate_window
                    &&& built.handle.state.ime_position.x == 0
                    &&& built.handle.state.ime_position.y == 0
                    &&& built.handle.state.children@.len() == 0
                    &&& !built.handle.state.closed
                    &&& built.icon is None
                    &&& built.setup@ == setup_steps(
                        c,
                        self.visibility,
                        self.accept_drag_files,
                        false,
                        false,
                        self.raw_input_window_state,
                    )
                },
            },
    {
        let created: Created = match created {
            Ok(c) => c,
            Err(e) => {
                return Err(e);
            },
        };
        let position = self.position.to_physical(
            #[verifier::truncate]
            (dpi as i32),
        );
        let size = self.size.to_physical(dpi);
        let enabled_ime: bool = match ctx.find_index(self.parent) {
            Some(i) => ctx.window_table[i].handle.state.enabled_ime,
            None => false,
        };
        let state = WindowState {
            title: String::new(),
            style: WS_CHILD,
            set_position: (position.x, position.y),
            set_inner_size: size,
            enabled_ime,
            visible_ime_composition_window: self.visible_ime_composition_window,
            visible_ime_candidate_window: self.visible_ime_candidate_window,
            ime_position: PhysicalPosition::new(0, 0),
            children: Vec::new(),
            closed: false,
        };
        let (ime_context, _) = ImmContext::new(created.hwnd, created.himc);
        let window = LocalWindow::new(created.hwnd, state, ime_context);
        let handle: Window = window.handle.duplicate();
        let setup = setup_list(
            created,
            self.visibility,
            self.accept_drag_files,
            false,
            false,
            self.raw_input_window_state,
        );
        register(ctx, None, window);
        Ok(Built { handle, icon: None, setup })
    }
}

} // verus!
