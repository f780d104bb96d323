//! What native messages lead to: the events that are handed to the handler
//! and the commands that are given to the native layer.
use crate::context::{
    first_window_from, handles_unique, lemma_first_window, remove_window, set_resizing,
    set_unwind, table_contains, Context,
};
use crate::device::{
    as_virtual_key, virtual_key_of, KeyCode, KeyState, MouseButton, MouseState, ScanCode,
};
use crate::event::Event;
use crate::geometry::{
    lemma_quotient_bound, scaled, PhysicalPosition, PhysicalSize, ScreenPosition,
};
use crate::ime::{
    candidate_entries, candidate_forms, candidate_list, candidate_selection,
    candidates_well_formed, composition_attributes, composition_attrs, composition_form_at,
    composition_string, composition_text, mask_context, masked_context, zip_attributes,
    Association, CandidateForm, CandidateList, Composition, CompositionChar, CompositionForm,
    Imc, ImmContext, GCS_COMPSTR, GCS_RESULTSTR, IACE_CHILDREN, IACE_IGNORENOCONTEXT,
};
use crate::raw_input::{
    button_span, cache_kept, device_type_of, devices_without, first_device_from, first_gamepad_from, gamepads_without,
    is_gamepad_data, is_keyboard_data, is_mouse_data, lists_device, lists_gamepad, name_of,
    snapshot_renewed, Device, DeviceChangeState, DeviceType, DeviceHandle, HidCaps, InputData, RawDeviceInfo, RawKeyboard, RawMouse,
};
use crate::text::{char_from_u32, is_scalar_value, string_from_utf16_lossy, utf16_lossy};
use crate::window::{LocalWindow, Rect, Window, WindowHandle, WindowState};
use vstd::prelude::*;

verus! {

pub const WM_DESTROY: u32 = 0x0002;
pub const WM_SIZE: u32 = 0x0005;
pub const WM_ACTIVATE: u32 = 0x0006;
pub const WM_PAINT: u32 = 0x000F;
pub const WM_CLOSE: u32 = 0x0010;
pub const WM_QUIT: u32 = 0x0012;
pub const WM_WINDOWPOSCHANGED: u32 = 0x0047;
pub const WM_SETICON: u32 = 0x0080;
pub const WM_NCCREATE: u32 = 0x0081;
pub const WM_INPUT_DEVICE_CHANGE: u32 = 0x00FE;
pub const WM_INPUT: u32 = 0x00FF;
pub const WM_KEYDOWN: u32 = 0x0100;
pub const WM_KEYUP: u32 = 0x0101;
pub const WM_CHAR: u32 = 0x0102;
pub const WM_IME_STARTCOMPOSITION: u32 = 0x010D;
pub const WM_IME_ENDCOMPOSITION: u32 = 0x010E;
pub const WM_IME_COMPOSITION: u32 = 0x010F;
pub const WM_MOUSEMOVE: u32 = 0x0200;
pub const WM_LBUTTONDOWN: u32 = 0x0201;
pub const WM_LBUTTONUP: u32 = 0x0202;
pub const WM_RBUTTONDOWN: u32 = 0x0204;
pub const WM_RBUTTONUP: u32 = 0x0205;
pub const WM_MBUTTONDOWN: u32 = 0x0207;
pub const WM_MBUTTONUP: u32 = 0x0208;
pub const WM_XBUTTONDOWN: u32 = 0x020B;
pub const WM_XBUTTONUP: u32 = 0x020C;
pub const WM_ENTERSIZEMOVE: u32 = 0x0231;
pub const WM_EXITSIZEMOVE: u32 = 0x0232;
pub const WM_DROPFILES: u32 = 0x0233;
pub const WM_IME_SETCONTEXT: u32 = 0x0281;
pub const WM_MOUSELEAVE: u32 = 0x02A3;
pub const WM_DPICHANGED: u32 = 0x02E0;
pub const WM_GETDPISCALEDSIZE: u32 = 0x02E4;
pub const WM_USER: u32 = 0x0400;
pub const MK_LBUTTON: u32 = 0x0001;
pub const MK_RBUTTON: u32 = 0x0002;
pub const MK_MBUTTON: u32 = 0x0010;
pub const MK_XBUTTON1: u32 = 0x0020;
pub const MK_XBUTTON2: u32 = 0x0040;
pub const WA_ACTIVE: u32 = 1;
pub const WA_CLICKACTIVE: u32 = 2;
pub const SWP_NOSIZE: u32 = 0x0001;
pub const SWP_NOMOVE: u32 = 0x0002;
pub const SWP_NOZORDER: u32 = 0x0004;
pub const SWP_NOACTIVATE: u32 = 0x0010;
pub const SWP_FRAMECHANGED: u32 = 0x0020;
pub const SW_HIDE: u32 = 0;
pub const SW_SHOW: u32 = 5;
pub const ICON_SMALL: usize = 0;
pub const ICON_BIG: usize = 1;
pub const RDW_INTERNALPAINT: u32 = 0x0002;

/// The requests that a window sends to itself through the message queue.
#[derive(Clone, Copy, PartialEq, Eq, Structural, Debug)]
pub enum UserMessage {
    SetTitle,
    SetPosition,
    SetInnerSize,
    EnableIme,
    DisableIme,
    SetStyle,
    AcceptDragFiles,
}

impl UserMessage {
    /// The number under which the request travels.
    pub open spec fn spec_code(self) -> usize {
        match self {
            UserMessage::SetTitle => 0,
            UserMessage::SetPosition => 1,
            UserMessage::SetInnerSize => 2,
            UserMessage::EnableIme => 3,
            UserMessage::DisableIme => 4,
            UserMessage::SetStyle => 5,
            UserMessage::AcceptDragFiles => 6,
        }
    }

    /// The request that travels under a number.
    pub open spec fn of_code(code: usize) -> Option<UserMessage> {
        if code == 0 {
            Some(UserMessage::SetTitle)
        } else if code == 1 {
            Some(UserMessage::SetPosition)
        } else if code == 2 {
            Some(UserMessage::SetInnerSize)
        } else if code == 3 {
            Some(UserMessage::EnableIme)
        } else if code == 4 {
            Some(UserMessage::DisableIme)
        } else if code == 5 {
            Some(UserMessage::SetStyle)
        } else if code == 6 {
            Some(UserMessage::AcceptDragFiles)
        } else {
            None
        }
    }

    /// Gives the number under which the request travels.
    pub fn code(self) -> (r: usize)
        ensures
            r == self.spec_code(),
            UserMessage::of_code(r) == Some(self),
    {
        match self {
            UserMessage::SetTitle => 0,
            UserMessage::SetPosition => 1,
            UserMessage::SetInnerSize => 2,
            UserMessage::EnableIme => 3,
            UserMessage::DisableIme => 4,
            UserMessage::SetStyle => 5,
            UserMessage::AcceptDragFiles => 6,
        }
    }

    /// Reads a request from the number under which it travelled.
    pub fn from_code(code: usize) -> (r: Option<UserMessage>)
        ensures
            r == UserMessage::of_code(code),
    {
        match code {
            0 => Some(UserMessage::SetTitle),
            1 => Some(UserMessage::SetPosition),
            2 => Some(UserMessage::SetInnerSize),
            3 => Some(UserMessage::EnableIme),
            4 => Some(UserMessage::DisableIme),
            5 => Some(UserMessage::SetStyle),
            6 => Some(UserMessage::AcceptDragFiles),
            _ => None,
        }
    }
}

/// A message that is to be put into a window's queue.
#[derive(Clone, Copy, PartialEq, Eq, Structural, Debug)]
pub struct PostedMessage {
    pub hwnd: WindowHandle,
    pub msg: u32,
    pub wparam: usize,
    pub lparam: isize,
}

/// The request of a window to itself, as a message for its queue.
pub open spec fn user_message(hwnd: WindowHandle, request: UserMessage, lparam: isize)
    -> PostedMessage {
    PostedMessage { hwnd, msg: WM_USER, wparam: request.spec_code(), lparam }
}

/// Makes the message that carries a window's request to itself.
pub fn post_user_message(hwnd: WindowHandle, request: UserMessage, lparam: isize) -> (r:
    PostedMessage)
    ensures
        r == user_message(hwnd, request, lparam),
{
    PostedMessage { hwnd, msg: WM_USER, wparam: request.code(), lparam }
}

/// The low 16 bits of a word, read as a signed number.
pub open spec fn spec_loword(x: i32) -> i16 {
    (x & 0xffff) as i16
}

/// The high 16 bits of a word, read as a signed number.
pub open spec fn spec_hiword(x: i32) -> i16 {
    ((x >> 16) & 0xffff) as i16
}

#[inline]
pub fn loword(x: i32) -> (r: i16)
    ensures
        r == spec_loword(x),
{
    #[verifier::truncate]
    ((x & 0xffff) as i16)
}

#[inline]
pub fn hiword(x: i32) -> (r: i16)
    ensures
        r == spec_hiword(x),
{
    #[verifier::truncate]
    (((x >> 16) & 0xffff) as i16)
}

/// The horizontal coordinate that a message parameter carries in its low 16
/// bits, read as a signed number.
pub open spec fn x_of_lparam(lp: isize) -> i16 {
    (lp & 0xffff) as i16
}

/// The vertical coordinate that a message parameter carries in its next 16
/// bits, read as a signed number.
pub open spec fn y_of_lparam(lp: isize) -> i16 {
    ((lp >> 16) & 0xffff) as i16
}

/// The number of the extended button that a message parameter carries.
pub open spec fn xbutton_of_wparam(wp: usize) -> u16 {
    ((wp >> 16) & 0xffff) as u16
}

/// The flags of held keys and buttons that a message parameter carries.
pub open spec fn keystate_of_wparam(wp: usize) -> u32 {
    (wp & 0xffff) as u32
}

#[inline]
pub fn get_x_lparam(lp: isize) -> (r: i16)
    ensures
        r == x_of_lparam(lp),
{
    #[verifier::truncate]
    ((lp & 0xffff) as i16)
}

#[inline]
pub fn get_y_lparam(lp: isize) -> (r: i16)
    ensures
        r == y_of_lparam(lp),
{
    #[verifier::truncate]
    (((lp >> 16) & 0xffff) as i16)
}

#[inline]
pub fn get_xbutton_wparam(wp: usize) -> (r: u16)
    ensures
        r == xbutton_of_wparam(wp),
{
    #[verifier::truncate]
    (((wp >> 16) & 0xffff) as u16)
}

#[inline]
pub fn get_keystate_wparam(wp: usize) -> (r: u32)
    ensures
        r == keystate_of_wparam(wp),
{
    #[verifier::truncate]
    ((wp & 0xffff) as u32)
}

/// The point that a message parameter carries.
pub open spec fn point_of_lparam(lparam: isize) -> PhysicalPosition<i32> {
    PhysicalPosition {
        x: x_of_lparam(lparam) as i32,
        y: y_of_lparam(lparam) as i32,
        _u: core::marker::PhantomData,
    }
}

#[inline]
pub fn lparam_to_point(lparam: isize) -> (r: PhysicalPosition<i32>)
    ensures
        r == point_of_lparam(lparam),
{
    PhysicalPosition::new(get_x_lparam(lparam) as i32, get_y_lparam(lparam) as i32)
}

/// The extended button that a message parameter names, if it names one.
pub open spec fn button_of_wparam(wparam: usize) -> Option<MouseButton> {
    if xbutton_of_wparam(wparam) == 1 {
        Some(MouseButton::Ex(0))
    } else if xbutton_of_wparam(wparam) == 2 {
        Some(MouseButton::Ex(1))
    } else {
        None
    }
}

/// Tells which extended button a message parameter names, if it names one.
pub fn xbutton(wparam: usize) -> (r: Option<MouseButton>)
    ensures
        r == button_of_wparam(wparam),
{
    match get_xbutton_wparam(wparam) {
        0x0001 => Some(MouseButton::Ex(0)),
        0x0002 => Some(MouseButton::Ex(1)),
        _ => None,
    }
}

/// Gives the extended button that a message parameter names. The parameter
/// must name one.
#[inline]
pub fn wparam_to_button(wparam: usize) -> (r: MouseButton)
    requires
        button_of_wparam(wparam) is Some,
    ensures
        Some(r) == button_of_wparam(wparam),
{
    match get_xbutton_wparam(wparam) {
        0x0001 => MouseButton::Ex(0),
        _ => MouseButton::Ex(1),
    }
}

/// A sequence that holds a button where a flag is set, and nothing where it
/// is not.
pub open spec fn button_if(flags: u32, flag: u32, button: MouseButton) -> Seq<MouseButton> {
    if flags & flag != 0 {
        seq![button]
    } else {
        Seq::empty()
    }
}

/// The buttons that a set of flags reports as held, in the order left,
/// right, middle, first and second extended button.
pub open spec fn held_in_flags(flags: u32) -> Seq<MouseButton> {
    button_if(flags, MK_LBUTTON, MouseButton::Left) + button_if(
        flags,
        MK_RBUTTON,
        MouseButton::Right,
    ) + button_if(flags, MK_MBUTTON, MouseButton::Middle) + button_if(
        flags,
        MK_XBUTTON1,
        MouseButton::Ex(0),
    ) + button_if(flags, MK_XBUTTON2, MouseButton::Ex(1))
}

/// The buttons that a message parameter reports as held.
pub open spec fn held_mouse_buttons(wparam: usize) -> Seq<MouseButton> {
    held_in_flags(keystate_of_wparam(wparam))
}

/// Replaces a list of buttons by those that a message parameter reports as
/// held.
pub fn update_buttons(buttons: &mut Vec<MouseButton>, wparam: usize)
    ensures
        final(buttons)@ == held_mouse_buttons(wparam),
{
    buttons.clear();
    let values: u32 = get_keystate_wparam(wparam);
    if values & MK_LBUTTON != 0 {
        buttons.push(MouseButton::Left);
    }
    if values & MK_RBUTTON != 0 {
        buttons.push(MouseButton::Right);
    }
    if values & MK_MBUTTON != 0 {
        buttons.push(MouseButton::Middle);
    }
    if values & MK_XBUTTON1 != 0 {
        buttons.push(MouseButton::Ex(0));
    }
    if values & MK_XBUTTON2 != 0 {
        buttons.push(MouseButton::Ex(1));
    }
    proof {
        assert(buttons@ =~= held_mouse_buttons(wparam));
    }
}

/// Where the style that a command needs is taken from.
#[derive(Clone, Copy, PartialEq, Eq, Structural, Debug)]
pub enum StyleSource {
    /// The style that the window has when the command is performed.
    Current,
    /// The style that is given.
    Fixed(u32),
}

/// Something that the native layer is asked to do for the window of a
/// message.
pub enum Command {
    /// Begin painting.
    BeginPaint,
    /// End painting.
    EndPaint,
    /// Ask to be told once when the cursor leaves the window.
    TrackMouseLeave,
    /// Move or resize the window.
    SetWindowPos { x: i32, y: i32, width: i32, height: i32, flags: u32 },
    /// Put the composition window.
    SetCompositionWindow(CompositionForm),
    /// Put a candidate window.
    SetCandidateWindow(CandidateForm),
    /// Give the window the outer size that makes its client area as large as
    /// given, under the styles named and the window's DPI.
    ResizeToClient {
        width: u32,
        height: u32,
        style: StyleSource,
        ex_style: StyleSource,
        flags: u32,
    },
    /// Answer the question for the window's size at a new DPI with the outer
    /// size that makes its client area as large as given under its styles.
    ReplyScaledSize { width: u32, height: u32, dpi: u32 },
    /// Show a title.
    SetWindowText(String),
    /// Take a style.
    SetWindowStyle(u32),
    /// Show or hide the window.
    ShowWindow(u32),
    /// Bind or unbind an input context.
    Associate(Association),
    /// Accept or refuse dropped files.
    DragAcceptFiles(bool),
    /// Release what the native layer holds of a drop.
    FinishDrop,
    /// Put a message into a window's queue.
    PostMessage(PostedMessage),
    /// Ask the loop to end.
    PostQuit,
    /// Let the frame of the window follow its DPI.
    EnableNonClientDpiScaling,
}

impl Command {
    /// The command belongs to what a message owes the native layer, and is
    /// performed even where a handler has raised a fault before it was
    /// reached: the end of painting, the release of a drop, and the request
    /// to close that a destroyed window passes on to its children.
    pub open spec fn is_cleanup(&self) -> bool {
        *self is EndPaint || *self is FinishDrop || *self is PostMessage
    }

    /// Tells whether the command is performed even after a fault.
    pub fn survives_fault(&self) -> (r: bool)
        ensures
            r == self.is_cleanup(),
    {
        match self {
            Command::EndPaint => true,
            Command::FinishDrop => true,
            Command::PostMessage(_) => true,
            _ => false,
        }
    }
}

/// One step of what a message leads to: an event for the handler, or a
/// command for the native layer. The steps of a message are taken in order.
pub enum Step {
    Deliver(Event),
    Perform(Command),
}

/// What the native layer is answered for a message.
#[derive(Clone, Copy, PartialEq, Eq, Structural, Debug)]
pub enum Reply {
    /// The message has been handled, with this result.
    Handled(isize),
    /// The message is passed on to the default handling as it came.
    Default,
    /// The message is passed on to the default handling with another second
    /// parameter.
    DefaultWith { lparam: isize },
}

/// What a message leads to: the window as it is after the message, the steps
/// to take in order, and the answer to give when they are taken.
pub struct Outcome {
    pub window: Option<Window>,
    pub steps: Vec<Step>,
    pub reply: Reply,
}

/// The answer that is given for a message during which a handler has raised
/// a fault.
pub open spec fn fault_reply() -> Reply {
    Reply::Handled(0)
}

/// A mouse state holds a position and a sequence of held buttons.
pub open spec fn is_mouse_state(
    ms: MouseState,
    position: PhysicalPosition<i32>,
    held: Seq<MouseButton>,
) -> bool {
    ms.position == position && ms.buttons@ == held
}

fn mouse_state_of(position: PhysicalPosition<i32>, buttons: &Vec<MouseButton>) -> (r: MouseState)
    ensures
        is_mouse_state(r, position, buttons@),
{
    let mut copy: Vec<MouseButton> = Vec::new();
    let mut i: usize = 0;
    while i < buttons.len()
        invariant
            i <= buttons@.len(),
            copy@ == buttons@.subrange(0, i as int),
        decreases buttons@.len() - i,
    {
        copy.push(buttons[i]);
        proof {
            assert(copy@ =~= buttons@.subrange(0, i + 1));
        }
        i += 1;
    }
    proof {
        assert(copy@ =~= buttons@);
    }
    MouseState { position, buttons: copy }
}

/// A motion of the cursor as the native layer reports it: the cursor has
/// moved over the window, or it has left the window.
#[derive(Clone, Copy, PartialEq, Eq, Structural, Debug)]
pub enum Motion {
    Move,
    Leave,
}

/// What is reported of a motion of the cursor.
#[derive(Clone, Copy, PartialEq, Eq, Structural, Debug)]
pub enum PointerEvent {
    Entered,
    Moved,
    Left,
}

/// What a motion of the cursor is reported as, given the window that the
/// cursor had entered before, and the window that it has entered afterwards.
/// A move while no window is entered is an entry; any other move is a plain
/// move. Leaving clears the mark.
pub open spec fn pointer_step(
    entered: Option<WindowHandle>,
    hwnd: WindowHandle,
    motion: Motion,
) -> (Option<WindowHandle>, PointerEvent) {
    match motion {
        Motion::Move => if entered is None {
            (Some(hwnd), PointerEvent::Entered)
        } else {
            (entered, PointerEvent::Moved)
        },
        Motion::Leave => (None, PointerEvent::Left),
    }
}

/// The window that the cursor has entered after the first `n` of a sequence
/// of motions over one window.
pub open spec fn pointer_state_after(
    entered: Option<WindowHandle>,
    hwnd: WindowHandle,
    motions: Seq<Motion>,
    n: nat,
) -> Option<WindowHandle>
    decreases n,
{
    if n == 0 {
        entered
    } else {
        pointer_step(
            pointer_state_after(entered, hwnd, motions, (n - 1) as nat),
            hwnd,
            motions[n - 1],
        ).0
    }
}

/// What is reported of the motion at place `i` of a sequence of motions over
/// one window.
pub open spec fn pointer_event_at(
    entered: Option<WindowHandle>,
    hwnd: WindowHandle,
    motions: Seq<Motion>,
    i: nat,
) -> PointerEvent {
    pointer_step(pointer_state_after(entered, hwnd, motions, i), hwnd, motions[i as int]).1
}

/// The native layer tells of the cursor leaving only once after it was asked
/// to, and it is asked at each entry: in such a sequence the cursor leaves
/// only a window that it has entered.
pub open spec fn leaves_follow_entries(
    entered: Option<WindowHandle>,
    hwnd: WindowHandle,
    motions: Seq<Motion>,
) -> bool {
    forall|i: nat|
        i < motions.len() && #[trigger] motions[i as int] == Motion::Leave ==> pointer_state_after(
            entered,
            hwnd,
            motions,
            i,
        ) is Some
}

/// Over any sequence of motions on one window in which the cursor leaves only
/// a window that it has entered, entries and leaves alternate strictly: an
/// entry is reported exactly for a move while no window is entered, a leave
/// only while one is entered, and after an entry the window stays entered
/// until the next leave. So the first move over a window that was not
/// entered is reported as an entry, never as a plain move.
pub proof fn lemma_enter_leave_alternate(
    entered: Option<WindowHandle>,
    hwnd: WindowHandle,
    motions: Seq<Motion>,
    i: nat,
)
    requires
        leaves_follow_entries(entered, hwnd, motions),
        i < motions.len(),
    ensures
        pointer_event_at(entered, hwnd, motions, i) == PointerEvent::Entered <==> motions[i as int]
            == Motion::Move && pointer_state_after(entered, hwnd, motions, i) is None,
        pointer_event_at(entered, hwnd, motions, i) == PointerEvent::Moved ==> pointer_state_after(
            entered,
            hwnd,
            motions,
            i,
        ) is Some,
        pointer_event_at(entered, hwnd, motions, i) == PointerEvent::Left ==> pointer_state_after(
            entered,
            hwnd,
            motions,
            i,
        ) is Some,
        pointer_event_at(entered, hwnd, motions, i) == PointerEvent::Entered
            ==> pointer_state_after(entered, hwnd, motions, i + 1) is Some,
        pointer_event_at(entered, hwnd, motions, i) == PointerEvent::Left ==> pointer_state_after(
            entered,
            hwnd,
            motions,
            i + 1,
        ) is None,
        pointer_event_at(entered, hwnd, motions, i) == PointerEvent::Moved ==> pointer_state_after(
            entered,
            hwnd,
            motions,
            i + 1,
        ) is Some,
        i == 0 && entered is None && motions[0] == Motion::Move ==> pointer_event_at(
            entered,
            hwnd,
            motions,
            0,
        ) == PointerEvent::Entered,
{
    assert(pointer_state_after(entered, hwnd, motions, i + 1) == pointer_step(
        pointer_state_after(entered, hwnd, motions, i),
        hwnd,
        motions[i as int],
    ).0);
}

/// Between two entries there is a leave: if entries are reported at two
/// places of a sequence, a leave is reported at some place between them.
pub proof fn lemma_leave_between_entries(
    entered: Option<WindowHandle>,
    hwnd: WindowHandle,
    motions: Seq<Motion>,
    i: nat,
    j: nat,
)
    requires
        i < j < motions.len(),
        pointer_event_at(entered, hwnd, motions, i) == PointerEvent::Entered,
        pointer_event_at(entered, hwnd, motions, j) == PointerEvent::Entered,
    ensures
        exists|k: nat|
            i < k < j && #[trigger] pointer_event_at(entered, hwnd, motions, k)
                == PointerEvent::Left,
    decreases j - i,
{
    assert(pointer_state_after(entered, hwnd, motions, i + 1) == pointer_step(
        pointer_state_after(entered, hwnd, motions, i),
        hwnd,
        motions[i as int],
    ).0);
    if i + 1 == j {
        assert(false);
    } else {
        let next = (i + 1) as nat;
        assert(pointer_state_after(entered, hwnd, motions, next + 1) == pointer_step(
            pointer_state_after(entered, hwnd, motions, next),
            hwnd,
            motions[next as int],
        ).0);
        if pointer_event_at(entered, hwnd, motions, next) == PointerEvent::Left {
            assert(i < next < j);
        } else {
            lemma_state_stays_entered(entered, hwnd, motions, next, j);
        }
    }
}

/// Between two leaves there is an entry: if leaves are reported at two places
/// of a sequence in which the cursor leaves only a window that it has
/// entered, an entry is reported at some place between them.
pub proof fn lemma_entry_between_leaves(
    entered: Option<WindowHandle>,
    hwnd: WindowHandle,
    motions: Seq<Motion>,
    i: nat,
    j: nat,
)
    requires
        leaves_follow_entries(entered, hwnd, motions),
        i < j < motions.len(),
        pointer_event_at(entered, hwnd, motions, i) == PointerEvent::Left,
        pointer_event_at(entered, hwnd, motions, j) == PointerEvent::Left,
    ensures
        exists|k: nat|
            i < k < j && #[trigger] pointer_event_at(entered, hwnd, motions, k)
                == PointerEvent::Entered,
{
    assert(pointer_state_after(entered, hwnd, motions, i + 1) == pointer_step(
        pointer_state_after(entered, hwnd, motions, i),
        hwnd,
        motions[i as int],
    ).0);
    assert(motions[j as int] == Motion::Leave);
    assert(pointer_state_after(entered, hwnd, motions, j) is Some);
    lemma_state_becomes_entered(entered, hwnd, motions, (i + 1) as nat, j);
    let k = choose|k: nat|
        i + 1 <= k < j && #[trigger] pointer_event_at(entered, hwnd, motions, k)
            == PointerEvent::Entered;
    assert(i < k < j);
}

proof fn lemma_state_becomes_entered(
    entered: Option<WindowHandle>,
    hwnd: WindowHandle,
    motions: Seq<Motion>,
    from: nat,
    to: nat,
)
    requires
        from <= to < motions.len(),
        pointer_state_after(entered, hwnd, motions, from) is None,
        pointer_state_after(entered, hwnd, motions, to) is Some,
    ensures
        exists|k: nat|
            from <= k < to && #[trigger] pointer_event_at(entered, hwnd, motions, k)
                == PointerEvent::Entered,
    decreases to - from,
{
    if from < to {
        assert(pointer_state_after(entered, hwnd, motions, from + 1) == pointer_step(
            pointer_state_after(entered, hwnd, motions, from),
            hwnd,
            motions[from as int],
        ).0);
        if pointer_event_at(entered, hwnd, motions, from) == PointerEvent::Entered {
            assert(from <= from < to);
        } else {
            lemma_state_becomes_entered(entered, hwnd, motions, (from + 1) as nat, to);
            let k = choose|k: nat|
                from + 1 <= k < to && #[trigger] pointer_event_at(entered, hwnd, motions, k)
                    == PointerEvent::Entered;
            assert(from <= k < to);
        }
    }
}

proof fn lemma_state_stays_entered(
    entered: Option<WindowHandle>,
    hwnd: WindowHandle,
    motions: Seq<Motion>,
    from: nat,
    to: nat,
)
    requires
        from <= to < motions.len(),
        pointer_state_after(entered, hwnd, motions, from) is Some,
        pointer_state_after(entered, hwnd, motions, to) is None,
    ensures
        exists|k: nat|
            from <= k < to && #[trigger] pointer_event_at(entered, hwnd, motions, k)
                == PointerEvent::Left,
    decreases to - from,
{
    if from < to {
        assert(pointer_state_after(entered, hwnd, motions, from + 1) == pointer_step(
            pointer_state_after(entered, hwnd, motions, from),
            hwnd,
            motions[from as int],
        ).0);
        if pointer_event_at(entered, hwnd, motions, from) == PointerEvent::Left {
            assert(from <= from < to);
        } else {
            lemma_state_stays_entered(entered, hwnd, motions, (from + 1) as nat, to);
            let k = choose|k: nat|
                from + 1 <= k < to && #[trigger] pointer_event_at(entered, hwnd, motions, k)
                    == PointerEvent::Left;
            assert(from <= k < to);
        }
    }
}

/// Nothing but the shared state of the loop has changed.
pub open spec fn only_state_changed<H, F>(pre: Context<H, F>, post: Context<H, F>) -> bool {
    &&& post.window_table == pre.window_table
    &&& post.event_handler == pre.event_handler
    &&& post.unwind == pre.unwind
    &&& post.raw_input == pre.raw_input
}

/// Nothing has changed.
pub open spec fn unchanged<H, F>(pre: Context<H, F>, post: Context<H, F>) -> bool {
    only_state_changed(pre, post) && post.state == pre.state
}

/// The step that hands the handler the entry of the cursor.
pub open spec fn is_entered(step: Step, position: PhysicalPosition<i32>, held: Seq<MouseButton>)
    -> bool {
    step matches Step::Deliver(Event::CursorEntered(ms)) && is_mouse_state(ms, position, held)
}

/// The step that hands the handler a move of the cursor.
pub open spec fn is_moved(step: Step, position: PhysicalPosition<i32>, held: Seq<MouseButton>)
    -> bool {
    step matches Step::Deliver(Event::CursorMoved(ms)) && is_mouse_state(ms, position, held)
}

/// The step that hands the handler the leaving of the cursor.
pub open spec fn is_left(step: Step, position: PhysicalPosition<i32>, held: Seq<MouseButton>)
    -> bool {
    step matches Step::Deliver(Event::CursorLeaved(ms)) && is_mouse_state(ms, position, held)
}

/// What a move of the cursor over a window leads to. Without a handler
/// nothing happens. With one, the held buttons are read from the message;
/// where no window was entered, the native layer is asked to tell of the
/// cursor leaving, the window is marked as entered and the entry is
/// reported; otherwise the move is reported.
pub open spec fn mouse_move_post<H, F>(
    pre: Context<H, F>,
    post: Context<H, F>,
    hwnd: WindowHandle,
    wparam: usize,
    lparam: isize,
    steps: Seq<Step>,
    reply: Reply,
) -> bool {
    &&& reply == Reply::Handled(0)
    &&& only_state_changed(pre, post)
    &&& post.state.resizing == pre.state.resizing
    &&& if pre.event_handler is None {
        post.state == pre.state && steps.len() == 0
    } else {
        &&& post.state.mouse_buttons@ == held_mouse_buttons(wparam)
        &&& post.state.entered_window == pointer_step(
            pre.state.entered_window,
            hwnd,
            Motion::Move,
        ).0
        &&& if pointer_step(pre.state.entered_window, hwnd, Motion::Move).1
            == PointerEvent::Entered {
            &&& steps.len() == 2
            &&& steps[0] matches Step::Perform(Command::TrackMouseLeave)
            &&& is_entered(steps[1], point_of_lparam(lparam), held_mouse_buttons(wparam))
        } else {
            &&& steps.len() == 1
            &&& is_moved(steps[0], point_of_lparam(lparam), held_mouse_buttons(wparam))
        }
    }
}

/// What the cursor leaving a window leads to. Without a handler nothing
/// happens. With one, no window is entered any more, the held buttons are
/// read from the message, and the leaving is reported with the place of the
/// cursor on the screen.
pub open spec fn mouse_leave_post<H, F>(
    pre: Context<H, F>,
    post: Context<H, F>,
    hwnd: WindowHandle,
    wparam: usize,
    x: i32,
    y: i32,
    steps: Seq<Step>,
    reply: Reply,
) -> bool {
    &&& reply == Reply::Handled(0)
    &&& only_state_changed(pre, post)
    &&& post.state.resizing == pre.state.resizing
    &&& if pre.event_handler is None {
        post.state == pre.state && steps.len() == 0
    } else {
        &&& post.state.mouse_buttons@ == held_mouse_buttons(wparam)
        &&& post.state.entered_window == pointer_step(
            pre.state.entered_window,
            hwnd,
            Motion::Leave,
        ).0
        &&& steps.len() == 1
        &&& steps[0] matches Step::Deliver(Event::CursorLeaved(ms))
        &&& ms.position.x == x
        &&& ms.position.y == y
        &&& ms.buttons@ == held_mouse_buttons(wparam)
    }
}

/// What a mouse button going down or up leads to. Without a handler nothing
/// happens. With one, the held buttons are read from the message and the
/// button is reported with its new state.
pub open spec fn mouse_button_post<H, F>(
    pre: Context<H, F>,
    post: Context<H, F>,
    button: MouseButton,
    button_state: KeyState,
    wparam: usize,
    lparam: isize,
    steps: Seq<Step>,
    reply: Reply,
) -> bool {
    &&& reply == Reply::Handled(0)
    &&& only_state_changed(pre, post)
    &&& post.state.resizing == pre.state.resizing
    &&& post.state.entered_window == pre.state.entered_window
    &&& if pre.event_handler is None {
        post.state == pre.state && steps.len() == 0
    } else {
        &&& post.state.mouse_buttons@ == held_mouse_buttons(wparam)
        &&& steps.len() == 1
        &&& steps[0] matches Step::Deliver(
            Event::MouseInput { button: b, state: s, mouse_state: ms },
        )
        &&& b == button
        &&& s == button_state
        &&& is_mouse_state(ms, point_of_lparam(lparam), held_mouse_buttons(wparam))
    }
}

fn on_mouse_move<H, F>(ctx: &mut Context<H, F>, hwnd: WindowHandle, wparam: usize, lparam: isize)
    -> (r: (Vec<Step>, Reply))
    ensures
        mouse_move_post(*old(ctx), *final(ctx), hwnd, wparam, lparam, r.0@, r.1),
{
    let mut steps: Vec<Step> = Vec::new();
    if ctx.event_handler.is_some() {
        let position = lparam_to_point(lparam);
        update_buttons(&mut ctx.state.mouse_buttons, wparam);
        if ctx.state.entered_window.is_none() {
            steps.push(Step::Perform(Command::TrackMouseLeave));
            ctx.state.entered_window = Some(hwnd);
            steps.push(
                Step::Deliver(
                    Event::CursorEntered(mouse_state_of(position, &ctx.state.mouse_buttons)),
                ),
            );
        } else {
            steps.push(
                Step::Deliver(
                    Event::CursorMoved(mouse_state_of(position, &ctx.state.mouse_buttons)),
                ),
            );
        }
    }
    (steps, Reply::Handled(0))
}

fn on_mouse_leave<H, F>(
    ctx: &mut Context<H, F>,
    hwnd: WindowHandle,
    wparam: usize,
    x: i32,
    y: i32,
) -> (r: (Vec<Step>, Reply))
    ensures
        mouse_leave_post(*old(ctx), *final(ctx), hwnd, wparam, x, y, r.0@, r.1),
{
    let mut steps: Vec<Step> = Vec::new();
    if ctx.event_handler.is_some() {
        ctx.state.entered_window = None;
        update_buttons(&mut ctx.state.mouse_buttons, wparam);
        steps.push(
            Step::Deliver(
                Event::CursorLeaved(
                    mouse_state_of(PhysicalPosition::new(x, y), &ctx.state.mouse_buttons),
                ),
            ),
        );
    }
    (steps, Reply::Handled(0))
}

fn mouse_input<H, F>(
    ctx: &mut Context<H, F>,
    button: MouseButton,
    button_state: KeyState,
    wparam: usize,
    lparam: isize,
) -> (r: (Vec<Step>, Reply))
    ensures
        mouse_button_post(*old(ctx), *final(ctx), button, button_state, wparam, lparam, r.0@, r.1),
{
    let mut steps: Vec<Step> = Vec::new();
    if ctx.event_handler.is_some() {
        update_buttons(&mut ctx.state.mouse_buttons, wparam);
        steps.push(
            Step::Deliver(
                Event::MouseInput {
                    button,
                    state: button_state,
                    mouse_state: mouse_state_of(lparam_to_point(lparam), &ctx.state.mouse_buttons),
                },
            ),
        );
    }
    (steps, Reply::Handled(0))
}

/// The scan code that a key message carries.
pub open spec fn scan_code_of(lparam: isize) -> u32 {
    ((lparam >> 16) & 0x7f) as u32
}

/// Whether a key message says that the key was down before.
pub open spec fn was_pressed(lparam: isize) -> bool {
    (lparam >> 30) & 0x01 != 0
}

/// What a key going down or up leads to: with a handler, the key is reported
/// with its scan code, its new state, and whether it was down before.
pub open spec fn key_post<H, F>(
    pre: Context<H, F>,
    post: Context<H, F>,
    key_state: KeyState,
    wparam: usize,
    lparam: isize,
    steps: Seq<Step>,
    reply: Reply,
) -> bool {
    &&& reply == Reply::Handled(0)
    &&& unchanged(pre, post)
    &&& if pre.event_handler is None {
        steps.len() == 0
    } else {
        &&& steps.len() == 1
        &&& steps[0] matches Step::Deliver(Event::KeyInput { key_code, state, prev_pressed })
        &&& key_code.vkey == virtual_key_of(wparam as u32)
        &&& key_code.scan_code == ScanCode(scan_code_of(lparam))
        &&& state == key_state
        &&& prev_pressed == was_pressed(lparam)
    }
}

fn key_input<H, F>(ctx: &Context<H, F>, key_state: KeyState, wparam: usize, lparam: isize) -> (r: (
    Vec<Step>,
    Reply,
))
    ensures
        key_post(*ctx, *ctx, key_state, wparam, lparam, r.0@, r.1),
{
    let mut steps: Vec<Step> = Vec::new();
    let scan_code = ScanCode(
        #[verifier::truncate]
        (((lparam >> 16) & 0x7f) as u32),
    );
    if ctx.event_handler.is_some() {
        steps.push(
            Step::Deliver(
                Event::KeyInput {
                    key_code: KeyCode::new(
                        as_virtual_key(
                            #[verifier::truncate]
                            (wparam as u32),
                        ),
                        scan_code,
                    ),
                    state: key_state,
                    prev_pressed: (lparam >> 30) & 0x01 != 0,
                },
            ),
        );
    }
    (steps, Reply::Handled(0))
}

/// What a typed character leads to: with a handler, the character is
/// reported where the message carries the number of one.
pub open spec fn char_post<H, F>(
    pre: Context<H, F>,
    post: Context<H, F>,
    wparam: usize,
    steps: Seq<Step>,
    reply: Reply,
) -> bool {
    &&& reply == Reply::Handled(0)
    &&& unchanged(pre, post)
    &&& if pre.event_handler is Some && is_scalar_value(wparam as u32) {
        &&& steps.len() == 1
        &&& steps[0] matches Step::Deliver(Event::CharInput(c))
        &&& c == (wparam as u32) as char
    } else {
        steps.len() == 0
    }
}

fn on_char<H, F>(ctx: &Context<H, F>, wparam: usize) -> (r: (Vec<Step>, Reply))
    ensures
        char_post(*ctx, *ctx, wparam, r.0@, r.1),
{
    let mut steps: Vec<Step> = Vec::new();
    if ctx.event_handler.is_some() {
        match char_from_u32(
            #[verifier::truncate]
            (wparam as u32),
        ) {
            Some(c) => {
                steps.push(Step::Deliver(Event::CharInput(c)));
            },
            None => {},
        }
    }
    (steps, Reply::Handled(0))
}

/// A message of an interactive resize of a window: its beginning, a change of
/// the size while it lasts or outside of it, and its end, which comes with
/// the size that the window then has.
#[derive(Clone, Copy, Debug)]
pub enum ResizeMessage {
    Begin,
    SizeChange(PhysicalSize<u32>),
    End(PhysicalSize<u32>),
}

/// What is reported of a resize.
#[derive(Clone, Copy, Debug)]
pub enum ResizeEvent {
    Resizing(PhysicalSize<u32>),
    Resized(PhysicalSize<u32>),
}

/// What a message of a resize is reported as, given whether a resize by hand
/// was going on before, and whether one is going on afterwards. A change of
/// the size is reported as resizing while a resize by hand goes on, and as
/// resized otherwise. The end of a resize by hand is reported as resized, with
/// the size that the window has then. Its beginning is not reported.
pub open spec fn resize_step(resizing: bool, message: ResizeMessage) -> (
    bool,
    Option<ResizeEvent>,
) {
    match message {
        ResizeMessage::Begin => (true, None),
        ResizeMessage::SizeChange(size) => (
            resizing,
            Some(
                if resizing {
                    ResizeEvent::Resizing(size)
                } else {
                    ResizeEvent::Resized(size)
                },
            ),
        ),
        ResizeMessage::End(size) => (false, Some(ResizeEvent::Resized(size))),
    }
}

/// What is reported of the first `n` of a sequence of resize messages, in
/// order.
pub open spec fn resize_events(resizing: bool, messages: Seq<ResizeMessage>, n: nat) -> Seq<
    ResizeEvent,
>
    decreases n,
{
    if n == 0 {
        Seq::empty()
    } else {
        let before = resize_events(resizing, messages, (n - 1) as nat);
        match resize_step(
            resize_state_after(resizing, messages, (n - 1) as nat),
            messages[n - 1],
        ).1 {
            Some(e) => before.push(e),
            None => before,
        }
    }
}

/// Whether a resize by hand is going on after the first `n` of a sequence of
/// resize messages.
pub open spec fn resize_state_after(resizing: bool, messages: Seq<ResizeMessage>, n: nat) -> bool
    decreases n,
{
    if n == 0 {
        resizing
    } else {
        resize_step(resize_state_after(resizing, messages, (n - 1) as nat), messages[n - 1]).0
    }
}

/// The messages of one resize by hand: its beginning, the changes of the size
/// in order, and its end.
pub open spec fn interactive_resize(sizes: Seq<PhysicalSize<u32>>, last: PhysicalSize<u32>) -> Seq<
    ResizeMessage,
> {
    seq![ResizeMessage::Begin] + Seq::new(sizes.len(), |i: int| ResizeMessage::SizeChange(sizes[i]))
        + seq![ResizeMessage::End(last)]
}

/// A resize by hand with `N` changes of the size is reported as `N` times
/// resizing, each with the size of its change, followed by exactly one
/// resized, with the size at the end; and afterwards no resize is going on.
pub proof fn lemma_interactive_resize(
    resizing: bool,
    sizes: Seq<PhysicalSize<u32>>,
    last: PhysicalSize<u32>,
)
    ensures
        resize_events(
            resizing,
            interactive_resize(sizes, last),
            interactive_resize(sizes, last).len(),
        ) == Seq::new(sizes.len(), |i: int| ResizeEvent::Resizing(sizes[i])).push(
            ResizeEvent::Resized(last),
        ),
        !resize_state_after(
            resizing,
            interactive_resize(sizes, last),
            interactive_resize(sizes, last).len(),
        ),
{
    let messages = interactive_resize(sizes, last);
    let n = sizes.len();
    assert(messages.len() == n + 2);
    lemma_resize_prefix(resizing, sizes, last, n);
    assert(messages[n as int + 1] == ResizeMessage::End(last));
    assert(resize_events(resizing, messages, n + 2) =~= Seq::new(
        sizes.len(),
        |i: int| ResizeEvent::Resizing(sizes[i]),
    ).push(ResizeEvent::Resized(last)));
}

proof fn lemma_resize_prefix(
    resizing: bool,
    sizes: Seq<PhysicalSize<u32>>,
    last: PhysicalSize<u32>,
    k: nat,
)
    requires
        k <= sizes.len(),
    ensures
        resize_state_after(resizing, interactive_resize(sizes, last), k + 1),
        resize_events(resizing, interactive_resize(sizes, last), k + 1) == Seq::new(
            k,
            |i: int| ResizeEvent::Resizing(sizes[i]),
        ),
    decreases k,
{
    let messages = interactive_resize(sizes, last);
    if k == 0 {
        assert(messages[0] == ResizeMessage::Begin);
        assert(resize_events(resizing, messages, 0) =~= Seq::empty());
        assert(resize_state_after(resizing, messages, 1) == resize_step(
            resize_state_after(resizing, messages, 0),
            messages[0],
        ).0);
        assert(resize_events(resizing, messages, 1) =~= Seq::new(
            0,
            |i: int| ResizeEvent::Resizing(sizes[i]),
        ));
    } else {
        lemma_resize_prefix(resizing, sizes, last, (k - 1) as nat);
        assert(messages[k as int] == ResizeMessage::SizeChange(sizes[k - 1]));
        assert(resize_events(resizing, messages, k + 1) =~= Seq::new(
            k,
            |i: int| ResizeEvent::Resizing(sizes[i]),
        ));
    }
}

/// What a request to paint leads to: painting begins, the handler draws, and
/// painting ends.
pub open spec fn paint_post<H, F>(
    pre: Context<H, F>,
    post: Context<H, F>,
    steps: Seq<Step>,
    reply: Reply,
) -> bool {
    &&& reply == Reply::Handled(0)
    &&& unchanged(pre, post)
    &&& steps[0] matches Step::Perform(Command::BeginPaint)
    &&& if pre.event_handler is None {
        &&& steps.len() == 2
        &&& steps[1] matches Step::Perform(Command::EndPaint)
    } else {
        &&& steps.len() == 3
        &&& steps[1] matches Step::Deliver(Event::Draw)
        &&& steps[2] matches Step::Perform(Command::EndPaint)
    }
}

fn on_paint<H, F>(ctx: &Context<H, F>) -> (r: (Vec<Step>, Reply))
    ensures
        paint_post(*ctx, *ctx, r.0@, r.1),
{
    let mut steps: Vec<Step> = Vec::new();
    steps.push(Step::Perform(Command::BeginPaint));
    if ctx.event_handler.is_some() {
        steps.push(Step::Deliver(Event::Draw));
    }
    steps.push(Step::Perform(Command::EndPaint));
    (steps, Reply::Handled(0))
}

/// A message about activation says that the window has become active.
pub open spec fn activates(wparam: usize) -> bool {
    ((wparam as u32) & WA_ACTIVE) != 0 || ((wparam as u32) & WA_CLICKACTIVE) != 0
}

/// What a message about activation leads to: with a handler, the window is
/// reported as activated or as inactivated.
pub open spec fn activate_post<H, F>(
    pre: Context<H, F>,
    post: Context<H, F>,
    wparam: usize,
    steps: Seq<Step>,
    reply: Reply,
) -> bool {
    &&& reply == Reply::Handled(0)
    &&& unchanged(pre, post)
    &&& if pre.event_handler is None {
        steps.len() == 0
    } else {
        &&& steps.len() == 1
        &&& if activates(wparam) {
            steps[0] matches Step::Deliver(Event::Activated)
        } else {
            steps[0] matches Step::Deliver(Event::Inactivated)
        }
    }
}

fn on_activate<H, F>(ctx: &Context<H, F>, wparam: usize) -> (r: (Vec<Step>, Reply))
    ensures
        activate_post(*ctx, *ctx, wparam, r.0@, r.1),
{
    let mut steps: Vec<Step> = Vec::new();
    let w: u32 = #[verifier::truncate]
    (wparam as u32);
    if ctx.event_handler.is_some() {
        if (w & WA_ACTIVE) != 0 || (w & WA_CLICKACTIVE) != 0 {
            steps.push(Step::Deliver(Event::Activated));
        } else {
            steps.push(Step::Deliver(Event::Inactivated));
        }
    }
    (steps, Reply::Handled(0))
}

/// The width that a message about a new size carries.
pub open spec fn width_of_lparam(lparam: isize) -> u32 {
    spec_loword((lparam as u32) as i32) as u32
}

/// The height that a message about a new size carries.
pub open spec fn height_of_lparam(lparam: isize) -> u32 {
    spec_hiword((lparam as u32) as i32) as u32
}

/// The step that hands the handler what is reported of a resize.
pub open spec fn is_resize_step(step: Step, event: ResizeEvent) -> bool {
    match event {
        ResizeEvent::Resizing(size) => step matches Step::Deliver(Event::Resizing(s)) && s == size,
        ResizeEvent::Resized(size) => step matches Step::Deliver(Event::Resized(s)) && s == size,
    }
}

/// What a message of a resize leads to: the mark of a resize by hand is set
/// or cleared, whether or not there is a handler; with a handler, what is
/// reported of the message is handed to it. The beginning and the end of a
/// resize by hand are passed on to the default handling; a change of the size
/// is not.
pub open spec fn resize_post<H, F>(
    pre: Context<H, F>,
    post: Context<H, F>,
    message: ResizeMessage,
    steps: Seq<Step>,
    reply: Reply,
) -> bool {
    &&& reply == if message is SizeChange {
        Reply::Handled(0)
    } else {
        Reply::Default
    }
    &&& only_state_changed(pre, post)
    &&& post.state.mouse_buttons == pre.state.mouse_buttons
    &&& post.state.entered_window == pre.state.entered_window
    &&& post.state.resizing == resize_step(pre.state.resizing, message).0
    &&& match resize_step(pre.state.resizing, message).1 {
        Some(event) => if pre.event_handler is None {
            steps.len() == 0
        } else {
            steps.len() == 1 && is_resize_step(steps[0], event)
        },
        None => steps.len() == 0,
    }
}

fn size_of_lparam(lparam: isize) -> (r: PhysicalSize<u32>)
    ensures
        r.width == width_of_lparam(lparam),
        r.height == height_of_lparam(lparam),
{
    let value: u32 = #[verifier::truncate]
    (lparam as u32);
    let word: i32 = #[verifier::truncate]
    (value as i32);
    PhysicalSize::new(
        #[verifier::truncate]
        (loword(word) as u32),
        #[verifier::truncate]
        (hiword(word) as u32),
    )
}

fn on_resize<H, F>(ctx: &mut Context<H, F>, message: ResizeMessage) -> (r: (Vec<Step>, Reply))
    ensures
        resize_post(*old(ctx), *final(ctx), message, r.0@, r.1),
{
    let mut steps: Vec<Step> = Vec::new();
    match message {
        ResizeMessage::Begin => {
            set_resizing(ctx, true);
            (steps, Reply::Default)
        },
        ResizeMessage::SizeChange(size) => {
            if ctx.event_handler.is_some() {
                if ctx.state.resizing {
                    steps.push(Step::Deliver(Event::Resizing(size)));
                } else {
                    steps.push(Step::Deliver(Event::Resized(size)));
                }
            }
            (steps, Reply::Handled(0))
        },
        ResizeMessage::End(size) => {
            set_resizing(ctx, false);
            if ctx.event_handler.is_some() {
                steps.push(Step::Deliver(Event::Resized(size)));
            }
            (steps, Reply::Default)
        },
    }
}

/// What a message about a new place leads to: with a handler, the move is
/// reported unless the message says that the window has not moved; the
/// message is passed on to the default handling.
pub open spec fn moved_post<H, F>(
    pre: Context<H, F>,
    post: Context<H, F>,
    flags: u32,
    x: i32,
    y: i32,
    steps: Seq<Step>,
    reply: Reply,
) -> bool {
    &&& reply == Reply::Default
    &&& unchanged(pre, post)
    &&& if pre.event_handler is Some && flags & SWP_NOMOVE == 0 {
        &&& steps.len() == 1
        &&& steps[0] matches Step::Deliver(Event::Moved(p))
        &&& p.x == x
        &&& p.y == y
    } else {
        steps.len() == 0
    }
}

fn on_window_pos_changed<H, F>(ctx: &Context<H, F>, flags: u32, x: i32, y: i32) -> (r: (
    Vec<Step>,
    Reply,
))
    ensures
        moved_post(*ctx, *ctx, flags, x, y, r.0@, r.1),
{
    let mut steps: Vec<Step> = Vec::new();
    if flags & SWP_NOMOVE == 0 {
        if ctx.event_handler.is_some() {
            steps.push(Step::Deliver(Event::Moved(ScreenPosition::new(x, y))));
        }
    }
    (steps, Reply::Default)
}

/// What a change of the DPI leads to: the window takes the place and the
/// size that the native layer suggests, and then, with a handler, the change
/// is reported.
pub open spec fn dpi_changed_post<H, F>(
    pre: Context<H, F>,
    post: Context<H, F>,
    suggested: Rect,
    steps: Seq<Step>,
    reply: Reply,
) -> bool {
    &&& reply == Reply::Handled(0)
    &&& unchanged(pre, post)
    &&& steps[0] matches Step::Perform(Command::SetWindowPos { x, y, width, height, flags })
    &&& x == suggested.left
    &&& y == suggested.top
    &&& width == suggested.spec_width()
    &&& height == suggested.spec_height()
    &&& flags == SWP_NOZORDER | SWP_NOACTIVATE
    &&& if pre.event_handler is None {
        steps.len() == 1
    } else {
        steps.len() == 2 && steps[1] matches Step::Deliver(Event::DpiChanged)
    }
}

fn on_dpi_changed<H, F>(ctx: &Context<H, F>, suggested: Rect) -> (r: (Vec<Step>, Reply))
    requires
        suggested.extents_fit(),
    ensures
        dpi_changed_post(*ctx, *ctx, suggested, r.0@, r.1),
{
    let mut steps: Vec<Step> = Vec::new();
    steps.push(
        Step::Perform(
            Command::SetWindowPos {
                x: suggested.left,
                y: suggested.top,
                width: suggested.width(),
                height: suggested.height(),
                flags: SWP_NOZORDER | SWP_NOACTIVATE,
            },
        ),
    );
    if ctx.event_handler.is_some() {
        steps.push(Step::Deliver(Event::DpiChanged));
    }
    (steps, Reply::Handled(0))
}

/// The extent that a client area takes at a new DPI: the old extent times the
/// new DPI over the old one, rounded toward zero, in 32 bits.
pub open spec fn extent_at_dpi(extent: int, next_dpi: i32, prev_dpi: i32) -> u32 {
    scaled(extent, next_dpi as int, prev_dpi as int) as u32
}

/// What the question for the window's size at a new DPI leads to: the size
/// that the client area takes at the new DPI is computed from its size now,
/// and the answer is the outer size that gives the window that client area.
pub open spec fn dpi_scaled_size_post<H, F>(
    pre: Context<H, F>,
    post: Context<H, F>,
    prev_dpi: i32,
    next_dpi: i32,
    client: Rect,
    steps: Seq<Step>,
    reply: Reply,
) -> bool {
    &&& reply == Reply::Handled(1)
    &&& unchanged(pre, post)
    &&& steps.len() == 1
    &&& steps[0] matches Step::Perform(Command::ReplyScaledSize { width, height, dpi })
    &&& width == extent_at_dpi(client.spec_width(), next_dpi, prev_dpi)
    &&& height == extent_at_dpi(client.spec_height(), next_dpi, prev_dpi)
    &&& dpi == next_dpi as u32
}

fn scale_extent(extent: i32, next_dpi: i32, prev_dpi: i32) -> (r: u32)
    requires
        prev_dpi != 0,
    ensures
        r == extent_at_dpi(extent as int, next_dpi, prev_dpi),
{
    proof {
        assert(-0x4000_0000_0000_0000 <= (extent as int) * (next_dpi as int)
            <= 0x4000_0000_0000_0000) by (nonlinear_arith)
            requires
                -0x8000_0000 <= extent <= 0x7fff_ffff,
                -0x8000_0000 <= next_dpi <= 0x7fff_ffff,
        ;
    }
    let product: i64 = (extent as i64) * (next_dpi as i64);
    proof {
        lemma_quotient_bound(
            if product >= 0 {
                product as int
            } else {
                -(product as int)
            },
            prev_dpi as int,
        );
    }
    let quotient: i64 = product / (prev_dpi as i64);
    #[verifier::truncate]
    (quotient as u32)
}

fn on_get_dpi_scaled_size<H, F>(ctx: &Context<H, F>, prev_dpi: i32, next_dpi: i32, client: Rect)
    -> (r: (Vec<Step>, Reply))
    requires
        prev_dpi != 0,
        client.extents_fit(),
    ensures
        dpi_scaled_size_post(*ctx, *ctx, prev_dpi, next_dpi, client, r.0@, r.1),
{
    let mut steps: Vec<Step> = Vec::new();
    steps.push(
        Step::Perform(
            Command::ReplyScaledSize {
                width: scale_extent(client.width(), next_dpi, prev_dpi),
                height: scale_extent(client.height(), next_dpi, prev_dpi),
                dpi: #[verifier::truncate]
                (next_dpi as u32),
            },
        ),
    );
    (steps, Reply::Handled(1))
}

/// What the creation of a window's frame leads to: the frame is told to
/// follow the DPI, and the message is passed on to the default handling.
pub open spec fn nc_create_post<H, F>(
    pre: Context<H, F>,
    post: Context<H, F>,
    steps: Seq<Step>,
    reply: Reply,
) -> bool {
    &&& reply == Reply::Default
    &&& unchanged(pre, post)
    &&& steps.len() == 1
    &&& steps[0] matches Step::Perform(Command::EnableNonClientDpiScaling)
}

fn on_nc_create<H, F>(ctx: &Context<H, F>) -> (r: (Vec<Step>, Reply))
    ensures
        nc_create_post(*ctx, *ctx, r.0@, r.1),
{
    let mut steps: Vec<Step> = Vec::new();
    steps.push(Step::Perform(Command::EnableNonClientDpiScaling));
    (steps, Reply::Default)
}

/// The request to close that is sent to a window.
pub open spec fn close_request(hwnd: WindowHandle) -> PostedMessage {
    PostedMessage { hwnd, msg: WM_CLOSE, wparam: 0, lparam: 0 }
}

/// A window is asked to close where it is registered and not closed; a
/// window that is not registered any more is passed over.
pub open spec fn is_open(table: Seq<LocalWindow>, hwnd: WindowHandle) -> bool {
    match first_window_from(table, hwnd, 0) {
        Some(i) => !table[i].handle.state.closed,
        None => false,
    }
}

/// The requests to close that go to the first `n` of a window's children, in
/// order.
pub open spec fn close_requests(
    table: Seq<LocalWindow>,
    children: Seq<WindowHandle>,
    n: nat,
) -> Seq<PostedMessage>
    decreases n,
{
    if n == 0 {
        Seq::empty()
    } else {
        let before = close_requests(table, children, (n - 1) as nat);
        if is_open(table, children[n - 1]) {
            before.push(close_request(children[n - 1]))
        } else {
            before
        }
    }
}

/// The step that puts a message into a window's queue.
pub open spec fn is_post(step: Step, message: PostedMessage) -> bool {
    step matches Step::Perform(Command::PostMessage(m)) && m == message
}

/// The step that tells the handler that the window has been closed.
pub open spec fn is_closed_step(step: Step) -> bool {
    step matches Step::Deliver(Event::Closed)
}

/// The step that asks the loop to end.
pub open spec fn is_quit_step(step: Step) -> bool {
    step matches Step::Perform(Command::PostQuit)
}

/// What the destruction of a window leads to. The window is closed, which is
/// what the handler sees of it when, if there is a handler, it is told. Each
/// child of the window that is still registered and open is asked to close.
/// The window leaves the registry, and where the registry is then empty, the
/// loop is asked to end.
pub open spec fn destroy_post<H, F>(
    pre: Context<H, F>,
    post: Context<H, F>,
    hwnd: WindowHandle,
    window: Window,
    steps: Seq<Step>,
    reply: Reply,
) -> bool {
    let i = first_window_from(pre.window_table@, hwnd, 0).unwrap();
    let before = pre.window_table@[i].handle;
    let told: int = if pre.event_handler is None {
        0
    } else {
        1
    };
    let requests = close_requests(
        pre.window_table@,
        before.state.children@,
        before.state.children@.len(),
    );
    let quits: int = if post.window_table@.len() == 0 {
        1
    } else {
        0
    };
    &&& reply == Reply::Handled(0)
    &&& window.hwnd == hwnd
    &&& window.state.closed
    &&& window.state.same(&WindowState { closed: true, ..before.state })
    &&& post.window_table@ == pre.window_table@.remove(i)
    &&& !table_contains(post.window_table@, hwnd)
    &&& post.state == pre.state
    &&& post.event_handler == pre.event_handler
    &&& post.unwind == pre.unwind
    &&& post.raw_input == pre.raw_input
    &&& steps.len() == told + requests.len() + quits
    &&& (told == 1 ==> is_closed_step(steps[0]))
    &&& forall|j: int|
        told <= j < told + requests.len() ==> is_post(#[trigger] steps[j], requests[j - told])
    &&& (quits == 1 ==> is_quit_step(steps[steps.len() - 1]))
}

fn on_destroy<H, F>(ctx: &mut Context<H, F>, hwnd: WindowHandle) -> (r: (Window, Vec<Step>, Reply))
    requires
        old(ctx).wf(),
        old(ctx).contains(hwnd),
    ensures
        final(ctx).wf(),
        destroy_post(*old(ctx), *final(ctx), hwnd, r.0, r.1@, r.2),
{
    let index: usize = ctx.find_index(hwnd).unwrap();
    let mut window: Window = ctx.window_table[index].handle.duplicate();
    window.state.closed = true;
    let mut steps: Vec<Step> = Vec::new();
    if ctx.event_handler.is_some() {
        steps.push(Step::Deliver(Event::Closed));
    }
    let ghost told: int = steps@.len() as int;
    let ghost table = ctx.window_table@;
    let ghost children = window.state.children@;
    let mut n: usize = 0;
    while n < window.state.children.len()
        invariant
            n <= window.state.children@.len(),
            children == window.state.children@,
            table == ctx.window_table@,
            steps@.len() == told + close_requests(table, children, n as nat).len(),
            told == 1 ==> is_closed_step(steps@[0]),
            told == 0 || told == 1,
            forall|j: int|
                told <= j < told + close_requests(table, children, n as nat).len() ==> is_post(
                    #[trigger] steps@[j],
                    close_requests(table, children, n as nat)[j - told],
                ),
        decreases window.state.children@.len() - n,
    {
        let child: WindowHandle = window.state.children[n];
        let ghost before = close_requests(table, children, n as nat);
        let open: bool = match ctx.find_index(child) {
            Some(i) => !ctx.window_table[i].handle.state.closed,
            None => false,
        };
        if open {
            steps.push(
                Step::Perform(
                    Command::PostMessage(
                        PostedMessage { hwnd: child, msg: WM_CLOSE, wparam: 0, lparam: 0 },
                    ),
                ),
            );
        }
        proof {
            let after = close_requests(table, children, (n + 1) as nat);
            assert forall|j: int| told <= j < told + after.len() implies is_post(
                #[trigger] steps@[j],
                after[j - told],
            ) by {
                if j - told < before.len() {
                    assert(is_post(steps@[j], before[j - told]));
                }
            }
        }
        n += 1;
    }
    remove_window(ctx, hwnd);
    if ctx.window_table.len() == 0 {
        steps.push(Step::Perform(Command::PostQuit));
    }
    (window, steps, Reply::Handled(0))
}

/// What the message about an input context leads to: it is passed on to the
/// default handling without the bits that ask for windows which the window
/// does not show.
pub open spec fn ime_set_context_post<H, F>(
    pre: Context<H, F>,
    post: Context<H, F>,
    window: WindowState,
    lparam: isize,
    steps: Seq<Step>,
    reply: Reply,
) -> bool {
    &&& reply == Reply::DefaultWith {
        lparam: masked_context(
            lparam,
            window.visible_ime_composition_window,
            window.visible_ime_candidate_window,
        ),
    }
    &&& unchanged(pre, post)
    &&& steps.len() == 0
}

fn on_ime_set_context<H, F>(ctx: &Context<H, F>, window: &WindowState, lparam: isize) -> (r: (
    Vec<Step>,
    Reply,
))
    ensures
        ime_set_context_post(*ctx, *ctx, *window, lparam, r.0@, r.1),
{
    (
        Vec::new(),
        Reply::DefaultWith {
            lparam: mask_context(
                lparam,
                window.visible_ime_composition_window,
                window.visible_ime_candidate_window,
            ),
        },
    )
}

/// The step that puts a candidate window.
pub open spec fn is_candidate_step(step: Step, form: CandidateForm) -> bool {
    step matches Step::Perform(Command::SetCandidateWindow(f)) && f == form
}

/// The step that puts the composition window.
pub open spec fn is_composition_step(step: Step, form: CompositionForm) -> bool {
    step matches Step::Perform(Command::SetCompositionWindow(f)) && f == form
}

/// The step that tells the handler that a composition has started.
pub open spec fn is_start_step(step: Step) -> bool {
    step matches Step::Deliver(Event::ImeStartComposition)
}

/// What the start of a composition leads to: the windows that the window
/// shows are put at the point that it keeps for them, the composition window
/// first; then the handler, if there is one, is told. The message is passed on
/// to the default handling.
pub open spec fn ime_start_post<H, F>(
    pre: Context<H, F>,
    post: Context<H, F>,
    window: WindowState,
    steps: Seq<Step>,
    reply: Reply,
) -> bool {
    let x = window.ime_position.x;
    let y = window.ime_position.y;
    let shown: int = if window.visible_ime_composition_window {
        1
    } else {
        0
    };
    let forms = if window.visible_ime_candidate_window {
        candidate_forms(x, y, window.visible_ime_composition_window)
    } else {
        Seq::empty()
    };
    let told: int = if pre.event_handler is None {
        0
    } else {
        1
    };
    &&& reply == Reply::Default
    &&& unchanged(pre, post)
    &&& steps.len() == shown + forms.len() + told
    &&& (shown == 1 ==> is_composition_step(steps[0], composition_form_at(x, y)))
    &&& forall|j: int|
        shown <= j < shown + forms.len() ==> is_candidate_step(
            #[trigger] steps[j],
            forms[j - shown],
        )
    &&& (told == 1 ==> is_start_step(steps[steps.len() - 1]))
}

fn on_ime_start<H, F>(ctx: &Context<H, F>, hwnd: WindowHandle, window: &WindowState) -> (r: (
    Vec<Step>,
    Reply,
))
    ensures
        ime_start_post(*ctx, *ctx, *window, r.0@, r.1),
{
    let imc = Imc::get(hwnd, 0);
    let mut steps: Vec<Step> = Vec::new();
    if window.visible_ime_composition_window {
        steps.push(
            Step::Perform(
                Command::SetCompositionWindow(
                    imc.set_composition_window_position(window.ime_position),
                ),
            ),
        );
    }
    let ghost shown: int = steps@.len() as int;
    if window.visible_ime_candidate_window {
        let forms: Vec<CandidateForm> = imc.set_candidate_window_position(
            window.ime_position,
            window.visible_ime_composition_window,
        );
        let mut i: usize = 0;
        while i < forms.len()
            invariant
                i <= forms@.len(),
                shown == 0 || shown == 1,
                steps@.len() == shown + i,
                shown == 1 ==> is_composition_step(
                    steps@[0],
                    composition_form_at(window.ime_position.x, window.ime_position.y),
                ),
                forall|j: int|
                    shown <= j < shown + i ==> is_candidate_step(
                        #[trigger] steps@[j],
                        forms@[j - shown],
                    ),
            decreases forms@.len() - i,
        {
            steps.push(Step::Perform(Command::SetCandidateWindow(forms[i])));
            i += 1;
        }
    }
    if ctx.event_handler.is_some() {
        steps.push(Step::Deliver(Event::ImeStartComposition));
    }
    (steps, Reply::Default)
}

/// What the native layer replied when it was asked for one part of a
/// composition: what it gave for the length, and the bytes that it wrote.
pub struct ImmReply {
    pub byte_len: i32,
    pub data: Vec<u8>,
}

/// What the native layer replied when it was asked for the candidate list:
/// the length that it announced, what it gave back when it wrote the list,
/// and the bytes that it wrote.
pub struct CandidateReply {
    pub size: u32,
    pub written: u32,
    pub data: Vec<u8>,
}

/// The composition that a string and the attributes of its characters make;
/// there is none where either is missing.
pub open spec fn composition_of(text: ImmReply, attributes: ImmReply) -> Option<
    Seq<CompositionChar>,
> {
    match composition_text(text.byte_len, text.data@) {
        Some(s) => match composition_attributes(attributes.byte_len, attributes.data@) {
            Some(a) => Some(zip_attributes(s, a)),
            None => None,
        },
        None => None,
    }
}

/// A candidate list is what a reply of the native layer decodes to.
pub open spec fn is_candidate_list(list: Option<CandidateList>, reply: CandidateReply) -> bool {
    match list {
        Some(l) => {
            &&& reply.size != 0
            &&& reply.written != 0
            &&& candidates_well_formed(reply.data@)
            &&& l.entries() == candidate_entries(reply.data@)
            &&& l.selected() == candidate_selection(reply.data@)
        },
        None => !(reply.size != 0 && reply.written != 0 && candidates_well_formed(reply.data@)),
    }
}

/// The step that hands the handler a composition with its candidate list.
pub open spec fn is_composition_event(
    step: Step,
    chars: Seq<CompositionChar>,
    candidates: CandidateReply,
) -> bool {
    step matches Step::Deliver(Event::ImeComposition { composition, candidate_list })
        && composition@ == chars && is_candidate_list(candidate_list, candidates)
}

/// The update carries a result string that can be decoded together with the
/// attributes.
pub open spec fn update_is_final(lparam: isize, result: ImmReply, attributes: ImmReply) -> bool {
    (lparam as u32) & GCS_RESULTSTR != 0 && composition_of(result, attributes) is Some
}

/// The update carries a string in progress that can be decoded together with
/// the attributes.
pub open spec fn update_is_progress(lparam: isize, composition: ImmReply, attributes: ImmReply)
    -> bool {
    (lparam as u32) & GCS_COMPSTR != 0 && composition_of(composition, attributes) is Some
}

/// What an update of a composition leads to. With a handler, one composition
/// is reported together with the candidate list: the finished one where the
/// update carries a result string, and otherwise the one in progress where
/// the update carries its string. The message is passed on to the default
/// handling only where the window shows the composition window.
pub open spec fn ime_composition_post<H, F>(
    pre: Context<H, F>,
    post: Context<H, F>,
    window: WindowState,
    lparam: isize,
    composition: ImmReply,
    attributes: ImmReply,
    result: ImmReply,
    candidates: CandidateReply,
    steps: Seq<Step>,
    reply: Reply,
) -> bool {
    &&& reply == if window.visible_ime_composition_window {
        Reply::Default
    } else {
        Reply::Handled(0)
    }
    &&& unchanged(pre, post)
    &&& if pre.event_handler is None {
        steps.len() == 0
    } else if update_is_final(lparam, result, attributes) {
        steps.len() == 1 && is_composition_event(
            steps[0],
            composition_of(result, attributes).unwrap(),
            candidates,
        )
    } else if update_is_progress(lparam, composition, attributes) {
        steps.len() == 1 && is_composition_event(
            steps[0],
            composition_of(composition, attributes).unwrap(),
            candidates,
        )
    } else {
        steps.len() == 0
    }
}

fn read_composition(text: &ImmReply, attributes: &ImmReply) -> (r: Option<Composition>)
    ensures
        match composition_of(*text, *attributes) {
            Some(chars) => r matches Some(c) && c@ == chars,
            None => r is None,
        },
{
    match composition_string(text.byte_len, text.data.as_slice()) {
        Some(s) => match composition_attrs(attributes.byte_len, attributes.data.as_slice()) {
            Some(a) => Some(Composition::new(s, a)),
            None => None,
        },
        None => None,
    }
}

fn on_ime_composition<H, F>(
    ctx: &Context<H, F>,
    window: &WindowState,
    lparam: isize,
    composition: &ImmReply,
    attributes: &ImmReply,
    result: &ImmReply,
    candidates: &CandidateReply,
) -> (r: (Vec<Step>, Reply))
    ensures
        ime_composition_post(
            *ctx,
            *ctx,
            *window,
            lparam,
            *composition,
            *attributes,
            *result,
            *candidates,
            r.0@,
            r.1,
        ),
{
    let mut steps: Vec<Step> = Vec::new();
    let flags: u32 = #[verifier::truncate]
    (lparam as u32);
    if ctx.event_handler.is_some() {
        let finished: Option<Composition> = if flags & GCS_RESULTSTR != 0 {
            read_composition(result, attributes)
        } else {
            None
        };
        let reported: Option<Composition> = match finished {
            Some(c) => Some(c),
            None => if flags & GCS_COMPSTR != 0 {
                read_composition(composition, attributes)
            } else {
                None
            },
        };
        match reported {
            Some(c) => {
                let list = candidate_list(
                    candidates.size,
                    candidates.written,
                    candidates.data.as_slice(),
                );
                steps.push(
                    Step::Deliver(Event::ImeComposition { composition: c, candidate_list: list }),
                );
            },
            None => {},
        }
    }
    let reply = if window.visible_ime_composition_window {
        Reply::Default
    } else {
        Reply::Handled(0)
    };
    (steps, reply)
}

/// The step that tells the handler that a composition has ended, with the
/// result string where there is one.
pub open spec fn is_end_step(step: Step, result: Option<Seq<char>>) -> bool {
    step matches Step::Deliver(Event::ImeEndComposition(r)) && match r {
        Some(s) => result == Some(s@),
        None => result is None,
    }
}

/// What the end of a composition leads to: with a handler, the end is
/// reported with the result string, or with nothing where there is none;
/// this is so also where no composition had started. The message is passed
/// on to the default handling.
pub open spec fn ime_end_post<H, F>(
    pre: Context<H, F>,
    post: Context<H, F>,
    result: ImmReply,
    steps: Seq<Step>,
    reply: Reply,
) -> bool {
    &&& reply == Reply::Default
    &&& unchanged(pre, post)
    &&& if pre.event_handler is None {
        steps.len() == 0
    } else {
        steps.len() == 1 && is_end_step(steps[0], composition_text(result.byte_len, result.data@))
    }
}

fn on_ime_end<H, F>(ctx: &Context<H, F>, result: &ImmReply) -> (r: (Vec<Step>, Reply))
    ensures
        ime_end_post(*ctx, *ctx, *result, r.0@, r.1),
{
    let mut steps: Vec<Step> = Vec::new();
    if ctx.event_handler.is_some() {
        let text = composition_string(result.byte_len, result.data.as_slice());
        steps.push(Step::Deliver(Event::ImeEndComposition(text)));
    }
    (steps, Reply::Default)
}

/// The code units of a dropped file's path: what the native layer wrote,
/// without the zero unit at its end.
pub open spec fn path_units(buffer: Seq<u16>) -> Seq<u16> {
    if buffer.len() == 0 {
        buffer
    } else {
        buffer.drop_last()
    }
}

/// The paths of the first `n` dropped files, in order.
pub open spec fn dropped_paths(files: Seq<Vec<u16>>, n: nat) -> Seq<Seq<char>>
    decreases n,
{
    if n == 0 {
        Seq::empty()
    } else {
        dropped_paths(files, (n - 1) as nat).push(utf16_lossy(path_units(files[n - 1]@)))
    }
}

/// The step that hands the handler the files that were dropped.
pub open spec fn is_drop_step(step: Step, files: Seq<Vec<u16>>, x: i32, y: i32) -> bool {
    step matches Step::Deliver(Event::DropFiles { paths, position }) && paths@.map_values(
        |s: String| s@,
    ) == dropped_paths(files, files.len()) && position.x == x && position.y == y
}

/// The step that releases what the native layer holds of a drop.
pub open spec fn is_finish_drop(step: Step) -> bool {
    step matches Step::Perform(Command::FinishDrop)
}

/// What a drop of files leads to: with a handler, the paths are reported in
/// the order in which the native layer listed them, with the place of the
/// drop; then what the native layer holds of the drop is released, whether or
/// not there is a handler, and also where no file was dropped.
pub open spec fn drop_post<H, F>(
    pre: Context<H, F>,
    post: Context<H, F>,
    files: Seq<Vec<u16>>,
    x: i32,
    y: i32,
    steps: Seq<Step>,
    reply: Reply,
) -> bool {
    &&& reply == Reply::Handled(0)
    &&& unchanged(pre, post)
    &&& steps.len() > 0
    &&& is_finish_drop(steps[steps.len() - 1])
    &&& if pre.event_handler is None {
        steps.len() == 1
    } else {
        steps.len() == 2 && is_drop_step(steps[0], files, x, y)
    }
}

fn on_drop_files<H, F>(ctx: &Context<H, F>, files: &Vec<Vec<u16>>, x: i32, y: i32) -> (r: (
    Vec<Step>,
    Reply,
))
    ensures
        drop_post(*ctx, *ctx, files@, x, y, r.0@, r.1),
{
    let mut steps: Vec<Step> = Vec::new();
    if ctx.event_handler.is_some() {
        let mut paths: Vec<String> = Vec::new();
        let mut i: usize = 0;
        while i < files.len()
            invariant
                i <= files@.len(),
                paths@.map_values(|s: String| s@) == dropped_paths(files@, i as nat),
            decreases files@.len() - i,
        {
            let buffer: &Vec<u16> = &files[i];
            let n: usize = buffer.len();
            let units: &[u16] = if n == 0 {
                buffer.as_slice()
            } else {
                vstd::slice::slice_subrange(buffer.as_slice(), 0, n - 1)
            };
            proof {
                assert(units@ =~= path_units(buffer@));
            }
            let ghost before = paths@;
            let path: String = string_from_utf16_lossy(units);
            paths.push(path);
            proof {
                assert(paths@.map_values(|s: String| s@) =~= before.map_values(|s: String| s@).push(
                    path@,
                ));
            }
            i += 1;
        }
        steps.push(
            Step::Deliver(Event::DropFiles { paths, position: PhysicalPosition::new(x, y) }),
        );
    }
    steps.push(Step::Perform(Command::FinishDrop));
    (steps, Reply::Handled(0))
}

/// The step that performs a command which carries no text.
pub open spec fn performs(step: Step, command: Command) -> bool {
    step matches Step::Perform(c) && c == command
}

/// The step that shows a title.
pub open spec fn is_title_step(step: Step, title: Seq<char>) -> bool {
    step matches Step::Perform(Command::SetWindowText(t)) && t@ == title
}

/// What a request of a window to itself leads to; each request is carried out
/// with what the window keeps for it.
///
/// A new title is shown. A new position is taken without a change of size
/// or order. A new size of the client area is taken under the styles that
/// the window has. Text composition is switched on by binding the window's
/// input context to it and its children, and switched off by unbinding every
/// context. A new style is put on, the window is given the outer size that
/// keeps its client area, and it is shown. Dropped files are accepted or
/// refused as the message says.
pub open spec fn user_post<H, F>(
    pre: Context<H, F>,
    post: Context<H, F>,
    hwnd: WindowHandle,
    window: WindowState,
    ime_context: ImmContext,
    request: UserMessage,
    lparam: isize,
    client: PhysicalSize<u32>,
    steps: Seq<Step>,
    reply: Reply,
) -> bool {
    &&& reply == Reply::Handled(0)
    &&& unchanged(pre, post)
    &&& match request {
        UserMessage::SetTitle => steps.len() == 1 && is_title_step(steps[0], window.title@),
        UserMessage::SetPosition => steps.len() == 1 && performs(
            steps[0],
            Command::SetWindowPos {
                x: window.set_position.0,
                y: window.set_position.1,
                width: 0,
                height: 0,
                flags: SWP_NOZORDER | SWP_NOSIZE | SWP_NOACTIVATE,
            },
        ),
        UserMessage::SetInnerSize => steps.len() == 1 && performs(
            steps[0],
            Command::ResizeToClient {
                width: window.set_inner_size.width,
                height: window.set_inner_size.height,
                style: StyleSource::Current,
                ex_style: StyleSource::Current,
                flags: SWP_NOZORDER | SWP_NOMOVE | SWP_NOACTIVATE,
            },
        ),
        UserMessage::EnableIme => steps.len() == 1 && performs(
            steps[0],
            Command::Associate(
                Association {
                    hwnd: ime_context.hwnd,
                    himc: ime_context.himc,
                    flags: IACE_CHILDREN,
                },
            ),
        ),
        UserMessage::DisableIme => steps.len() == 1 && performs(
            steps[0],
            Command::Associate(
                Association { hwnd: ime_context.hwnd, himc: 0, flags: IACE_IGNORENOCONTEXT },
            ),
        ),
        UserMessage::SetStyle => {
            &&& steps.len() == 3
            &&& performs(steps[0], Command::SetWindowStyle(window.style))
            &&& performs(
                steps[1],
                Command::ResizeToClient {
                    width: client.width,
                    height: client.height,
                    style: StyleSource::Fixed(window.style),
                    ex_style: StyleSource::Fixed(0),
                    flags: SWP_NOMOVE | SWP_NOZORDER | SWP_FRAMECHANGED,
                },
            )
            &&& performs(steps[2], Command::ShowWindow(SW_SHOW))
        },
        UserMessage::AcceptDragFiles => steps.len() == 1 && performs(
            steps[0],
            Command::DragAcceptFiles(lparam != 0),
        ),
    }
}

fn on_user<H, F>(
    ctx: &Context<H, F>,
    hwnd: WindowHandle,
    window: &LocalWindow,
    request: UserMessage,
    lparam: isize,
    client: PhysicalSize<u32>,
) -> (r: (Vec<Step>, Reply))
    ensures
        user_post(
            *ctx,
            *ctx,
            hwnd,
            window.handle.state,
            window.ime_context,
            request,
            lparam,
            client,
            r.0@,
            r.1,
        ),
{
    let mut steps: Vec<Step> = Vec::new();
    let state: &WindowState = &window.handle.state;
    match request {
        UserMessage::SetTitle => {
            steps.push(Step::Perform(Command::SetWindowText(state.title.clone())));
        },
        UserMessage::SetPosition => {
            steps.push(
                Step::Perform(
                    Command::SetWindowPos {
                        x: state.set_position.0,
                        y: state.set_position.1,
                        width: 0,
                        height: 0,
                        flags: SWP_NOZORDER | SWP_NOSIZE | SWP_NOACTIVATE,
                    },
                ),
            );
        },
        UserMessage::SetInnerSize => {
            steps.push(
                Step::Perform(
                    Command::ResizeToClient {
                        width: state.set_inner_size.width,
                        height: state.set_inner_size.height,
                        style: StyleSource::Current,
                        ex_style: StyleSource::Current,
                        flags: SWP_NOZORDER | SWP_NOMOVE | SWP_NOACTIVATE,
                    },
                ),
            );
        },
        UserMessage::EnableIme => {
            steps.push(Step::Perform(Command::Associate(window.ime_context.enable())));
        },
        UserMessage::DisableIme => {
            steps.push(Step::Perform(Command::Associate(window.ime_context.disable())));
        },
        UserMessage::SetStyle => {
            steps.push(Step::Perform(Command::SetWindowStyle(state.style)));
            steps.push(
                Step::Perform(
                    Command::ResizeToClient {
                        width: client.width,
                        height: client.height,
                        style: StyleSource::Fixed(state.style),
                        ex_style: StyleSource::Fixed(0),
                        flags: SWP_NOMOVE | SWP_NOZORDER | SWP_FRAMECHANGED,
                    },
                ),
            );
            steps.push(Step::Perform(Command::ShowWindow(SW_SHOW)));
        },
        UserMessage::AcceptDragFiles => {
            steps.push(Step::Perform(Command::DragAcceptFiles(lparam != 0)));
        },
    }
    (steps, Reply::Handled(0))
}

/// One report of a device as the native layer hands it over. For a game pad
/// the report comes with what the native layer read from it: the active
/// usages, or nothing where it could not read them, and for each value
/// record of the game pad its value, or nothing where it could not read it.
pub enum RawPacket {
    Mouse { device: DeviceHandle, mouse: RawMouse },
    Keyboard { device: DeviceHandle, keyboard: RawKeyboard },
    Hid { device: DeviceHandle, usages: Option<Vec<u16>>, values: Vec<Option<u32>> },
}

/// The usages of a report as a sequence, where there are any.
pub open spec fn usages_view(usages: Option<Vec<u16>>) -> Option<Seq<u16>> {
    match usages {
        Some(u) => Some(u@),
        None => None,
    }
}

/// The step that hands the handler the data of a report.
pub open spec fn raw_step_data(step: Step) -> Option<InputData> {
    match step {
        Step::Deliver(Event::RawInput(data)) => Some(data),
        _ => None,
    }
}

/// What a report of a device leads to. Where the native layer gave no report,
/// or there is no handler, nothing happens. Otherwise the report is decoded,
/// and where it can be decoded the data is handed to the handler. A report of
/// a game pad also renews the snapshot of held buttons that is kept of the
/// game pad. The message is passed on to the default handling in every case.
pub open spec fn raw_input_post<H, F>(
    pre: Context<H, F>,
    post: Context<H, F>,
    packet: Option<RawPacket>,
    steps: Seq<Step>,
    reply: Reply,
) -> bool {
    let devices = pre.raw_input.devices();
    &&& reply == Reply::Default
    &&& post.state == pre.state
    &&& post.window_table == pre.window_table
    &&& post.event_handler == pre.event_handler
    &&& post.unwind == pre.unwind
    &&& post.raw_input.wf()
    &&& post.raw_input.devices() == devices
    &&& steps.len() <= 1
    &&& if packet is None || pre.event_handler is None {
        post.raw_input == pre.raw_input && steps.len() == 0
    } else {
        match packet.unwrap() {
            RawPacket::Mouse { device, mouse } => {
                &&& post.raw_input == pre.raw_input
                &&& match first_device_from(devices, device, 0) {
                    Some(i) => steps.len() == 1 && raw_step_data(steps[0]) is Some && is_mouse_data(
                        raw_step_data(steps[0]).unwrap(),
                        devices[i],
                        mouse,
                    ),
                    None => steps.len() == 0,
                }
            },
            RawPacket::Keyboard { device, keyboard } => {
                &&& post.raw_input == pre.raw_input
                &&& match first_device_from(devices, device, 0) {
                    Some(i) => steps.len() == 1 && raw_step_data(steps[0]) is Some
                        && is_keyboard_data(raw_step_data(steps[0]).unwrap(), devices[i], keyboard),
                    None => steps.len() == 0,
                }
            },
            RawPacket::Hid { device, usages, values } => {
                if pre.raw_input.decodes_gamepad(device, usages_view(usages)) {
                    &&& steps.len() == 1
                    &&& raw_step_data(steps[0]) matches Some(data)
                    &&& first_device_from(devices, device, 0) matches Some(k)
                    &&& first_gamepad_from(pre.raw_input.gamepads(), device, 0) matches Some(i)
                    &&& is_gamepad_data(
                        data,
                        devices[k],
                        pre.raw_input.gamepads()[i],
                        usages.unwrap()@,
                        values@,
                    )
                    &&& data matches InputData::GamePad(d)
                    &&& snapshot_renewed(
                        pre.raw_input.gamepads(),
                        post.raw_input.gamepads(),
                        i,
                        d.held(),
                    )
                } else {
                    steps.len() == 0 && post.raw_input.gamepads() == pre.raw_input.gamepads()
                }
            },
        }
    }
}

fn on_input<H, F>(ctx: &mut Context<H, F>, packet: &Option<RawPacket>) -> (r: (Vec<Step>, Reply))
    requires
        old(ctx).wf(),
    ensures
        final(ctx).wf(),
        raw_input_post(*old(ctx), *final(ctx), *packet, r.0@, r.1),
{
    let mut steps: Vec<Step> = Vec::new();
    match packet {
        Some(p) => {
            if ctx.event_handler.is_some() {
                let data: Option<InputData> = match p {
                    RawPacket::Mouse { device, mouse } => ctx.raw_input.input_data_mouse(
                        *device,
                        *mouse,
                    ),
                    RawPacket::Keyboard { device, keyboard } => ctx.raw_input.input_data_keyboard(
                        *device,
                        *keyboard,
                    ),
                    RawPacket::Hid { device, usages, values } => ctx.raw_input.input_data_gamepad(
                        *device,
                        usages.as_ref(),
                        values,
                    ),
                };
                match data {
                    Some(d) => {
                        steps.push(Step::Deliver(Event::RawInput(d)));
                    },
                    None => {},
                }
            }
        },
        None => {},
    }
    (steps, Reply::Default)
}

/// What the native layer tells of a device that has arrived or has been
/// removed. An arrival comes with what the native layer reports of the
/// device, each part being nothing where it reported nothing.
pub enum DeviceChange {
    Arrival {
        handle: DeviceHandle,
        info: Option<RawDeviceInfo>,
        name: Option<String>,
        caps: Option<HidCaps>,
        max_usages: usize,
    },
    Removal { handle: DeviceHandle },
}

/// The step that tells the handler of a device that has arrived or has been
/// removed.
pub open spec fn is_device_step(step: Step, device: Device, state: DeviceChangeState) -> bool {
    step matches Step::Deliver(Event::RawInputDeviceChange { device: d, state: s }) && d.same(
        &device,
    ) && s == state
}

/// What the arrival or the removal of a device leads to.
///
/// A device that arrives is passed over where it has no type. Otherwise it
/// is added to the end of the list, with its name where it has one; what the
/// native layer reports of a game pad's capabilities is kept, in place of
/// anything that was kept of the device before; and the handler, if there is
/// one, is told of the device.
///
/// For a device that is removed, the handler, if there is one, is told of the
/// entry that was listed for it; every entry of the device leaves the list,
/// and what was kept of it as a game pad is dropped.
pub open spec fn device_change_post<H, F>(
    pre: Context<H, F>,
    post: Context<H, F>,
    change: DeviceChange,
    steps: Seq<Step>,
    reply: Reply,
) -> bool {
    let devices = pre.raw_input.devices();
    &&& reply == Reply::Handled(0)
    &&& post.state == pre.state
    &&& post.window_table == pre.window_table
    &&& post.event_handler == pre.event_handler
    &&& post.unwind == pre.unwind
    &&& post.raw_input.wf()
    &&& match change {
        DeviceChange::Arrival { handle, info, name, caps, max_usages } => {
            if device_type_of(info) is Some {
                &&& post.raw_input.devices().len() == devices.len() + 1
                &&& post.raw_input.devices().drop_last() == devices
                &&& post.raw_input.devices().last().handle == handle
                &&& post.raw_input.devices().last().ty == device_type_of(info).unwrap()
                &&& post.raw_input.devices().last().name_view() == name_of(name)
                &&& if device_type_of(info) == Some(DeviceType::GamePad) && caps is Some
                    && button_span(caps.unwrap().button_caps@) is Some {
                    cache_kept(
                        pre.raw_input.gamepads(),
                        post.raw_input.gamepads(),
                        post.raw_input.devices().last(),
                        caps.unwrap(),
                        max_usages,
                    )
                } else {
                    post.raw_input.gamepads() == pre.raw_input.gamepads()
                }
                &&& if pre.event_handler is None {
                    steps.len() == 0
                } else {
                    steps.len() == 1 && is_device_step(
                        steps[0],
                        post.raw_input.devices().last(),
                        DeviceChangeState::Arrival,
                    )
                }
            } else {
                &&& post.raw_input.devices() == devices
                &&& post.raw_input.gamepads() == pre.raw_input.gamepads()
                &&& steps.len() == 0
            }
        },
        DeviceChange::Removal { handle } => {
            &&& post.raw_input.devices() == devices_without(devices, handle, devices.len())
            &&& post.raw_input.gamepads() == gamepads_without(
                pre.raw_input.gamepads(),
                handle,
                pre.raw_input.gamepads().len(),
            )
            &&& !lists_device(post.raw_input.devices(), handle)
            &&& !lists_gamepad(post.raw_input.gamepads(), handle)
            &&& match first_device_from(devices, handle, 0) {
                Some(i) => if pre.event_handler is None {
                    steps.len() == 0
                } else {
                    steps.len() == 1 && is_device_step(
                        steps[0],
                        devices[i],
                        DeviceChangeState::Removal,
                    )
                },
                None => steps.len() == 0,
            }
        },
    }
}

fn on_device_change<H, F>(ctx: &mut Context<H, F>, change: DeviceChange) -> (r: (Vec<Step>, Reply))
    requires
        old(ctx).wf(),
    ensures
        final(ctx).wf(),
        device_change_post(*old(ctx), *final(ctx), change, r.0@, r.1),
{
    let mut steps: Vec<Step> = Vec::new();
    match change {
        DeviceChange::Arrival { handle, info, name, caps, max_usages } => {
            match ctx.raw_input.device_arrival(handle, info, name, caps, max_usages) {
                Some(device) => {
                    if ctx.event_handler.is_some() {
                        steps.push(
                            Step::Deliver(
                                Event::RawInputDeviceChange {
                                    device,
                                    state: DeviceChangeState::Arrival,
                                },
                            ),
                        );
                    }
                },
                None => {},
            }
        },
        DeviceChange::Removal { handle } => {
            match ctx.raw_input.device_removal(handle) {
                Some(device) => {
                    if ctx.event_handler.is_some() {
                        steps.push(
                            Step::Deliver(
                                Event::RawInputDeviceChange {
                                    device,
                                    state: DeviceChangeState::Removal,
                                },
                            ),
                        );
                    }
                },
                None => {},
            }
        },
    }
    (steps, Reply::Handled(0))
}

/// The kinds of messages that are translated.
#[derive(Clone, Copy, PartialEq, Eq, Structural, Debug)]
pub enum MessageKind {
    Paint,
    Input,
    MouseMove,
    MouseLeave,
    MouseButton,
    Key,
    Char,
    ImeSetContext,
    ImeStartComposition,
    ImeComposition,
    ImeEndComposition,
    Activate,
    Size,
    WindowPosChanged,
    EnterSizeMove,
    ExitSizeMove,
    DpiChanged,
    GetDpiScaledSize,
    DropFiles,
    InputDeviceChange,
    Destroy,
    NcCreate,
    User,
    Other,
}

/// The kind of the message with a code.
pub open spec fn kind_of(msg: u32) -> MessageKind {
    if msg == WM_PAINT {
        MessageKind::Paint
    } else if msg == WM_INPUT {
        MessageKind::Input
    } else if msg == WM_MOUSEMOVE {
        MessageKind::MouseMove
    } else if msg == WM_MOUSELEAVE {
        MessageKind::MouseLeave
    } else if msg == WM_LBUTTONDOWN || msg == WM_RBUTTONDOWN || msg == WM_MBUTTONDOWN
        || msg == WM_XBUTTONDOWN || msg == WM_LBUTTONUP || msg == WM_RBUTTONUP
        || msg == WM_MBUTTONUP || msg == WM_XBUTTONUP {
        MessageKind::MouseButton
    } else if msg == WM_KEYDOWN || msg == WM_KEYUP {
        MessageKind::Key
    } else if msg == WM_CHAR {
        MessageKind::Char
    } else if msg == WM_IME_SETCONTEXT {
        MessageKind::ImeSetContext
    } else if msg == WM_IME_STARTCOMPOSITION {
        MessageKind::ImeStartComposition
    } else if msg == WM_IME_COMPOSITION {
        MessageKind::ImeComposition
    } else if msg == WM_IME_ENDCOMPOSITION {
        MessageKind::ImeEndComposition
    } else if msg == WM_ACTIVATE {
        MessageKind::Activate
    } else if msg == WM_SIZE {
        MessageKind::Size
    } else if msg == WM_WINDOWPOSCHANGED {
        MessageKind::WindowPosChanged
    } else if msg == WM_ENTERSIZEMOVE {
        MessageKind::EnterSizeMove
    } else if msg == WM_EXITSIZEMOVE {
        MessageKind::ExitSizeMove
    } else if msg == WM_DPICHANGED {
        MessageKind::DpiChanged
    } else if msg == WM_GETDPISCALEDSIZE {
        MessageKind::GetDpiScaledSize
    } else if msg == WM_DROPFILES {
        MessageKind::DropFiles
    } else if msg == WM_INPUT_DEVICE_CHANGE {
        MessageKind::InputDeviceChange
    } else if msg == WM_DESTROY {
        MessageKind::Destroy
    } else if msg == WM_NCCREATE {
        MessageKind::NcCreate
    } else if msg == WM_USER {
        MessageKind::User
    } else {
        MessageKind::Other
    }
}

/// The button and its new state that the message with a code tells of, if it
/// tells of one.
pub open spec fn button_of_message(msg: u32, wparam: usize) -> Option<(MouseButton, KeyState)> {
    if msg == WM_LBUTTONDOWN {
        Some((MouseButton::Left, KeyState::Pressed))
    } else if msg == WM_RBUTTONDOWN {
        Some((MouseButton::Right, KeyState::Pressed))
    } else if msg == WM_MBUTTONDOWN {
        Some((MouseButton::Middle, KeyState::Pressed))
    } else if msg == WM_LBUTTONUP {
        Some((MouseButton::Left, KeyState::Released))
    } else if msg == WM_RBUTTONUP {
        Some((MouseButton::Right, KeyState::Released))
    } else if msg == WM_MBUTTONUP {
        Some((MouseButton::Middle, KeyState::Released))
    } else if msg == WM_XBUTTONDOWN {
        match button_of_wparam(wparam) {
            Some(b) => Some((b, KeyState::Pressed)),
            None => None,
        }
    } else if msg == WM_XBUTTONUP {
        match button_of_wparam(wparam) {
            Some(b) => Some((b, KeyState::Released)),
            None => None,
        }
    } else {
        None
    }
}

impl MessageKind {
    /// Tells the kind of the message with a code.
    pub fn of(msg: u32) -> (r: MessageKind)
        ensures
            r == kind_of(msg),
    {
        match msg {
            WM_PAINT => MessageKind::Paint,
            WM_INPUT => MessageKind::Input,
            WM_MOUSEMOVE => MessageKind::MouseMove,
            WM_MOUSELEAVE => MessageKind::MouseLeave,
            WM_LBUTTONDOWN | WM_RBUTTONDOWN | WM_MBUTTONDOWN | WM_XBUTTONDOWN | WM_LBUTTONUP
            | WM_RBUTTONUP | WM_MBUTTONUP | WM_XBUTTONUP => MessageKind::MouseButton,
            WM_KEYDOWN | WM_KEYUP => MessageKind::Key,
            WM_CHAR => MessageKind::Char,
            WM_IME_SETCONTEXT => MessageKind::ImeSetContext,
            WM_IME_STARTCOMPOSITION => MessageKind::ImeStartComposition,
            WM_IME_COMPOSITION => MessageKind::ImeComposition,
            WM_IME_ENDCOMPOSITION => MessageKind::ImeEndComposition,
            WM_ACTIVATE => MessageKind::Activate,
            WM_SIZE => MessageKind::Size,
            WM_WINDOWPOSCHANGED => MessageKind::WindowPosChanged,
            WM_ENTERSIZEMOVE => MessageKind::EnterSizeMove,
            WM_EXITSIZEMOVE => MessageKind::ExitSizeMove,
            WM_DPICHANGED => MessageKind::DpiChanged,
            WM_GETDPISCALEDSIZE => MessageKind::GetDpiScaledSize,
            WM_DROPFILES => MessageKind::DropFiles,
            WM_INPUT_DEVICE_CHANGE => MessageKind::InputDeviceChange,
            WM_DESTROY => MessageKind::Destroy,
            WM_NCCREATE => MessageKind::NcCreate,
            WM_USER => MessageKind::User,
            _ => MessageKind::Other,
        }
    }
}

/// Tells of which button and of which new state the message with a code
/// tells, if it tells of one.
pub fn mouse_button_of(msg: u32, wparam: usize) -> (r: Option<(MouseButton, KeyState)>)
    ensures
        r == button_of_message(msg, wparam),
{
    match msg {
        WM_LBUTTONDOWN => Some((MouseButton::Left, KeyState::Pressed)),
        WM_RBUTTONDOWN => Some((MouseButton::Right, KeyState::Pressed)),
        WM_MBUTTONDOWN => Some((MouseButton::Middle, KeyState::Pressed)),
        WM_LBUTTONUP => Some((MouseButton::Left, KeyState::Released)),
        WM_RBUTTONUP => Some((MouseButton::Right, KeyState::Released)),
        WM_MBUTTONUP => Some((MouseButton::Middle, KeyState::Released)),
        WM_XBUTTONDOWN => match xbutton(wparam) {
            Some(b) => Some((b, KeyState::Pressed)),
            None => None,
        },
        WM_XBUTTONUP => match xbutton(wparam) {
            Some(b) => Some((b, KeyState::Released)),
            None => None,
        },
        _ => None,
    }
}

/// Tells the new state of the key that the message with a code tells of, if
/// it tells of a key.
pub fn key_state_of(msg: u32) -> (r: Option<KeyState>)
    ensures
        r == if msg == WM_KEYDOWN {
            Some(KeyState::Pressed)
        } else if msg == WM_KEYUP {
            Some(KeyState::Released)
        } else {
            None
        },
{
    match msg {
        WM_KEYDOWN => Some(KeyState::Pressed),
        WM_KEYUP => Some(KeyState::Released),
        _ => None,
    }
}

/// A message for a window, with what the native layer holds for it.
pub enum Message {
    Paint,
    Input(Option<RawPacket>),
    MouseMove { wparam: usize, lparam: isize },
    /// The cursor has left; `x` and `y` are its place on the screen.
    MouseLeave { wparam: usize, x: i32, y: i32 },
    MouseButton { button: MouseButton, state: KeyState, wparam: usize, lparam: isize },
    Key { state: KeyState, wparam: usize, lparam: isize },
    Char { wparam: usize },
    ImeSetContext { lparam: isize },
    ImeStartComposition,
    ImeComposition {
        lparam: isize,
        composition: ImmReply,
        attributes: ImmReply,
        result: ImmReply,
        candidates: CandidateReply,
    },
    ImeEndComposition { result: ImmReply },
    Activate { wparam: usize },
    Size { lparam: isize },
    WindowPosChanged { flags: u32, x: i32, y: i32 },
    EnterSizeMove,
    /// A resize by hand has ended; `size` is the size of the client area.
    ExitSizeMove { size: PhysicalSize<u32> },
    DpiChanged { suggested: Rect },
    GetDpiScaledSize { prev_dpi: i32, next_dpi: i32, client: Rect },
    /// Files were dropped; each file comes as the code units that the native
    /// layer wrote for its path, with the zero unit at their end.
    DropFiles { files: Vec<Vec<u16>>, x: i32, y: i32 },
    InputDeviceChange(DeviceChange),
    Destroy,
    NcCreate,
    /// A request of the window to itself; `client` is the size of the client
    /// area.
    User { request: UserMessage, lparam: isize, client: PhysicalSize<u32> },
    Other,
}

impl Message {
    /// What is needed of a message before it is handled: the rectangle that comes with
    /// a change of the DPI has extents of 32 bits, and so has the client area
    /// in the question for the size at a new DPI, which also names an old DPI
    /// that is not zero.
    pub open spec fn wf(&self) -> bool {
        match *self {
            Message::DpiChanged { suggested } => suggested.extents_fit(),
            Message::GetDpiScaledSize { prev_dpi, next_dpi, client } => prev_dpi != 0
                && client.extents_fit(),
            _ => true,
        }
    }

    /// Tells whether the message holds what is needed of it.
    pub fn is_well_formed(&self) -> (r: bool)
        ensures
            r == self.wf(),
    {
        match self {
            Message::DpiChanged { suggested } => suggested.has_extents(),
            Message::GetDpiScaledSize { prev_dpi, next_dpi, client } => *prev_dpi != 0
                && client.has_extents(),
            _ => true,
        }
    }
}

/// What a message for a registered window leads to, by the kind of the
/// message. `local` is the window as it was registered, `closed` the window
/// of the outcome, which matters for the destruction of the window.
pub open spec fn message_post<H, F>(
    pre: Context<H, F>,
    post: Context<H, F>,
    hwnd: WindowHandle,
    local: LocalWindow,
    closed: Window,
    message: Message,
    steps: Seq<Step>,
    reply: Reply,
) -> bool {
    let window = local.handle.state;
    match message {
        Message::Paint => paint_post(pre, post, steps, reply),
        Message::Input(packet) => raw_input_post(pre, post, packet, steps, reply),
        Message::MouseMove { wparam, lparam } => mouse_move_post(
            pre,
            post,
            hwnd,
            wparam,
            lparam,
            steps,
            reply,
        ),
        Message::MouseLeave { wparam, x, y } => mouse_leave_post(
            pre,
            post,
            hwnd,
            wparam,
            x,
            y,
            steps,
            reply,
        ),
        Message::MouseButton { button, state, wparam, lparam } => mouse_button_post(
            pre,
            post,
            button,
            state,
            wparam,
            lparam,
            steps,
            reply,
        ),
        Message::Key { state, wparam, lparam } => key_post(
            pre,
            post,
            state,
            wparam,
            lparam,
            steps,
            reply,
        ),
        Message::Char { wparam } => char_post(pre, post, wparam, steps, reply),
        Message::ImeSetContext { lparam } => ime_set_context_post(
            pre,
            post,
            window,
            lparam,
            steps,
            reply,
        ),
        Message::ImeStartComposition => ime_start_post(pre, post, window, steps, reply),
        Message::ImeComposition {
            lparam,
            composition,
            attributes,
            result,
            candidates,
        } => ime_composition_post(
            pre,
            post,
            window,
            lparam,
            composition,
            attributes,
            result,
            candidates,
            steps,
            reply,
        ),
        Message::ImeEndComposition { result } => ime_end_post(pre, post, result, steps, reply),
        Message::Activate { wparam } => activate_post(pre, post, wparam, steps, reply),
        Message::Size { lparam } => exists|size: PhysicalSize<u32>|
            size.width == width_of_lparam(lparam) && size.height == height_of_lparam(lparam)
                && #[trigger] resize_post(pre, post, ResizeMessage::SizeChange(size), steps, reply),
        Message::WindowPosChanged { flags, x, y } => moved_post(
            pre,
            post,
            flags,
            x,
            y,
            steps,
            reply,
        ),
        Message::EnterSizeMove => resize_post(pre, post, ResizeMessage::Begin, steps, reply),
        Message::ExitSizeMove { size } => resize_post(
            pre,
            post,
            ResizeMessage::End(size),
            steps,
            reply,
        ),
        Message::DpiChanged { suggested } => dpi_changed_post(pre, post, suggested, steps, reply),
        Message::GetDpiScaledSize { prev_dpi, next_dpi, client } => dpi_scaled_size_post(
            pre,
            post,
            prev_dpi,
            next_dpi,
            client,
            steps,
            reply,
        ),
        Message::DropFiles { files, x, y } => drop_post(pre, post, files@, x, y, steps, reply),
        Message::InputDeviceChange(change) => device_change_post(pre, post, change, steps, reply),
        Message::Destroy => destroy_post(pre, post, hwnd, closed, steps, reply),
        Message::NcCreate => nc_create_post(pre, post, steps, reply),
        Message::User { request, lparam, client } => user_post(
            pre,
            post,
            hwnd,
            window,
            local.ime_context,
            request,
            lparam,
            client,
            steps,
            reply,
        ),
        Message::Other => reply == Reply::Default && unchanged(pre, post) && steps.len() == 0,
    }
}

/// What a message leads to.
///
/// A message for a window that is not registered is passed on to the default
/// handling, and nothing else happens. A message for a registered window
/// leads to what `message_post` says for its kind. The destruction of the
/// window is the one message that changes the registry, and the window of its
/// outcome is the closed window; after any other message the registry is as
/// it was, and the window of the outcome is the window as it is registered.
pub open spec fn window_proc_post<H, F>(
    pre: Context<H, F>,
    post: Context<H, F>,
    hwnd: WindowHandle,
    message: Message,
    out: Outcome,
) -> bool {
    match first_window_from(pre.window_table@, hwnd, 0) {
        None => {
            &&& unchanged(pre, post)
            &&& out.window is None
            &&& out.steps@.len() == 0
            &&& out.reply == Reply::Default
        },
        Some(i) => {
            &&& out.window matches Some(w)
            &&& message_post(
                pre,
                post,
                hwnd,
                pre.window_table@[i],
                w,
                message,
                out.steps@,
                out.reply,
            )
            &&& (!(message is Destroy) ==> w.same(&pre.window_table@[i].handle)
                && post.window_table == pre.window_table)
        },
    }
}

/// Says what one message for a window leads to: the steps to take and the
/// answer to give. The context is brought up to date.
pub fn window_proc<H, F>(ctx: &mut Context<H, F>, hwnd: WindowHandle, message: Message) -> (out:
    Outcome)
    requires
        old(ctx).wf(),
        message.wf(),
    ensures
        final(ctx).wf(),
        window_proc_post(*old(ctx), *final(ctx), hwnd, message, out),
{
    let index: usize = match ctx.find_index(hwnd) {
        Some(i) => i,
        None => {
            return Outcome { window: None, steps: Vec::new(), reply: Reply::Default };
        },
    };
    let ghost pre = *ctx;
    let (steps, reply): (Vec<Step>, Reply) = match message {
        Message::Destroy => {
            let (window, steps, reply) = on_destroy(ctx, hwnd);
            return Outcome { window: Some(window), steps, reply };
        },
        Message::Paint => on_paint(ctx),
        Message::Input(packet) => on_input(ctx, &packet),
        Message::MouseMove { wparam, lparam } => on_mouse_move(ctx, hwnd, wparam, lparam),
        Message::MouseLeave { wparam, x, y } => on_mouse_leave(ctx, hwnd, wparam, x, y),
        Message::MouseButton { button, state, wparam, lparam } => mouse_input(
            ctx,
            button,
            state,
            wparam,
            lparam,
        ),
        Message::Key { state, wparam, lparam } => key_input(ctx, state, wparam, lparam),
        Message::Char { wparam } => on_char(ctx, wparam),
        Message::ImeSetContext { lparam } => on_ime_set_context(
            ctx,
            &ctx.window_table[index].handle.state,
            lparam,
        ),
        Message::ImeStartComposition => on_ime_start(
            ctx,
            hwnd,
            &ctx.window_table[index].handle.state,
        ),
        Message::ImeComposition {
            lparam,
            composition,
            attributes,
            result,
            candidates,
        } => on_ime_composition(
            ctx,
            &ctx.window_table[index].handle.state,
            lparam,
            &composition,
            &attributes,
            &result,
            &candidates,
        ),
        Message::ImeEndComposition { result } => on_ime_end(ctx, &result),
        Message::Activate { wparam } => on_activate(ctx, wparam),
        Message::Size { lparam } => {
            let size = size_of_lparam(lparam);
            let r = on_resize(ctx, ResizeMessage::SizeChange(size));
            proof {
                assert(resize_post(pre, *ctx, ResizeMessage::SizeChange(size), r.0@, r.1));
            }
            r
        },
        Message::WindowPosChanged { flags, x, y } => on_window_pos_changed(ctx, flags, x, y),
        Message::EnterSizeMove => on_resize(ctx, ResizeMessage::Begin),
        Message::ExitSizeMove { size } => on_resize(ctx, ResizeMessage::End(size)),
        Message::DpiChanged { suggested } => on_dpi_changed(ctx, suggested),
        Message::GetDpiScaledSize { prev_dpi, next_dpi, client } => on_get_dpi_scaled_size(
            ctx,
            prev_dpi,
            next_dpi,
            client,
        ),
        Message::DropFiles { files, x, y } => on_drop_files(ctx, &files, x, y),
        Message::InputDeviceChange(change) => on_device_change(ctx, change),
        Message::NcCreate => on_nc_create(ctx),
        Message::User { request, lparam, client } => on_user(
            ctx,
            hwnd,
            &ctx.window_table[index],
            request,
            lparam,
            client,
        ),
        Message::Other => (Vec::new(), Reply::Default),
    };
    let window: Window = ctx.window_table[index].handle.duplicate();
    Outcome { window: Some(window), steps, reply }
}

/// Contains a fault that a handler has raised while the steps of a message
/// were taken: the fault is kept for the loop to raise it again, the handler
/// is dropped, and the answer for the message is the one that the native
/// layer is owed in any case. Nothing is changed in the registry.
pub fn contain_fault<H, F>(ctx: &mut Context<H, F>, fault: F) -> (reply: Reply)
    ensures
        reply == fault_reply(),
        final(ctx).unwind == Some(fault),
        final(ctx).event_handler is None,
        final(ctx).state == old(ctx).state,
        final(ctx).window_table == old(ctx).window_table,
        final(ctx).raw_input == old(ctx).raw_input,
{
    set_unwind(ctx, fault);
    Reply::Handled(0)
}

/// The commands among the steps from place `from` up to place `to` that are
/// performed even after a fault, in order.
pub open spec fn cleanup_commands(steps: Seq<Step>, from: int, to: int) -> Seq<Command>
    decreases to - from,
{
    if to <= from {
        Seq::empty()
    } else {
        let before = cleanup_commands(steps, from, to - 1);
        match steps[to - 1] {
            Step::Perform(c) => if c.is_cleanup() {
                before.push(c)
            } else {
                before
            },
            Step::Deliver(_) => before,
        }
    }
}

/// Gives the commands that are still to be performed after the handler has
/// raised a fault in the step at place `failed`: those of the later steps that
/// belong to what the message owes the native layer.
pub fn cleanup_after_fault(steps: &Vec<Step>, failed: usize) -> (r: Vec<Command>)
    requires
        failed < steps@.len(),
    ensures
        r@ == cleanup_commands(steps@, failed + 1, steps@.len() as int),
{
    let mut r: Vec<Command> = Vec::new();
    let n: usize = steps.len();
    let mut i: usize = failed + 1;
    while i < n
        invariant
            failed + 1 <= i <= steps@.len(),
            n == steps@.len(),
            r@ == cleanup_commands(steps@, failed + 1, i as int),
        decreases steps@.len() - i,
    {
        match &steps[i] {
            Step::Perform(Command::EndPaint) => {
                r.push(Command::EndPaint);
            },
            Step::Perform(Command::FinishDrop) => {
                r.push(Command::FinishDrop);
            },
            Step::Perform(Command::PostMessage(m)) => {
                r.push(Command::PostMessage(*m));
            },
            _ => {},
        }
        i += 1;
    }
    r
}

/// A window of a table is closed.
pub open spec fn closed_in(table: Seq<LocalWindow>, hwnd: WindowHandle) -> bool {
    match first_window_from(table, hwnd, 0) {
        Some(i) => table[i].handle.state.closed,
        None => false,
    }
}

/// Only the destruction of a window closes a window. After any message, a
/// window that is registered and closed was registered and closed before,
/// and the window of the outcome is closed only where it was closed before or
/// the message was its destruction. Since containing a fault leaves the
/// registry as it is, a fault that a handler raises during a message closes
/// no window either.
pub proof fn lemma_closed_only_by_destroy<H, F>(
    pre: Context<H, F>,
    post: Context<H, F>,
    hwnd: WindowHandle,
    message: Message,
    out: Outcome,
    other: WindowHandle,
)
    requires
        handles_unique(pre.window_table@),
        window_proc_post(pre, post, hwnd, message, out),
    ensures
        closed_in(post.window_table@, other) ==> closed_in(pre.window_table@, other),
        out.window matches Some(w) ==> (w.state.closed ==> message is Destroy || closed_in(
            pre.window_table@,
            hwnd,
        )),
{
    let before = pre.window_table@;
    let after = post.window_table@;
    lemma_first_window(before, hwnd, 0);
    lemma_first_window(before, other, 0);
    lemma_first_window(after, other, 0);
    match first_window_from(before, hwnd, 0) {
        Some(i) => {
            if message is Destroy {
                assert(after == before.remove(i));
                if closed_in(after, other) {
                    let k = first_window_from(after, other, 0).unwrap();
                    let k0 = if k < i {
                        k
                    } else {
                        k + 1
                    };
                    assert(after[k] == before[k0]);
                    assert(before[k0].handle.hwnd == other);
                    let j = first_window_from(before, other, 0).unwrap();
                    assert(j == k0);
                }
            }
        },
        None => {},
    }
}

/// Where the retrieval of dropped files stands.
#[derive(Clone, Copy, PartialEq, Eq, Structural, Debug)]
pub enum DropStage {
    /// Nothing has been asked yet.
    Start,
    /// The number of files has been asked for.
    Counting,
    /// The length of the path of the file at a place has been asked for.
    Measuring(u32),
    /// The path of the file at a place has been asked for.
    Fetching(u32),
    /// The place of the drop has been asked for.
    Pointing,
    /// Everything has been retrieved.
    Finished,
}

/// What the native layer replied to the last question about a drop.
pub enum DropReply {
    /// Nothing has been asked yet.
    Begin,
    /// The number of files.
    Count(u32),
    /// The length of a path in code units, without the zero unit at its end.
    Length(u32),
    /// The code units of a path, with the zero unit at their end.
    Path(Vec<u16>),
    /// The place of the drop.
    Point { x: i32, y: i32 },
}

/// What is asked next about a drop.
#[derive(Clone, Copy, PartialEq, Eq, Structural, Debug)]
pub enum DropAction {
    /// Ask for the number of files.
    QueryCount,
    /// Ask for the length of the path of the file at a place.
    QueryLength { index: u32 },
    /// Fetch the path of the file at a place into a buffer of so many code
    /// units.
    Fetch { index: u32, len: u64 },
    /// Ask for the place of the drop.
    QueryPoint,
    /// Everything has been retrieved: the message can be made.
    Done,
}

/// The retrieval of the files of one drop: first their number, then for each
/// file the length of its path and the path itself, and last the place of
/// the drop.
pub struct DropQuery {
    pub stage: DropStage,
    pub count: u32,
    pub files: Vec<Vec<u16>>,
    pub x: i32,
    pub y: i32,
}

/// What is asked once the file at place `index` is the next to retrieve: its
/// length, or, where every file has been retrieved, the place of the drop.
pub open spec fn next_file(count: u32, index: u32) -> (DropStage, DropAction) {
    if index < count {
        (DropStage::Measuring(index), DropAction::QueryLength { index })
    } else {
        (DropStage::Pointing, DropAction::QueryPoint)
    }
}

impl DropQuery {
    /// The reply is the one that the retrieval waits for.
    pub open spec fn accepts(&self, reply: DropReply) -> bool {
        match self.stage {
            DropStage::Start => reply is Begin,
            DropStage::Counting => reply is Count,
            DropStage::Measuring(_) => reply is Length,
            DropStage::Fetching(_) => reply is Path,
            DropStage::Pointing => reply is Point,
            DropStage::Finished => false,
        }
    }

    /// As many files have been retrieved as the stage says.
    pub open spec fn wf(&self) -> bool {
        match self.stage {
            DropStage::Start | DropStage::Counting => self.files@.len() == 0,
            DropStage::Measuring(i) | DropStage::Fetching(i) => i < self.count && self.files@.len()
                == i,
            DropStage::Pointing | DropStage::Finished => self.files@.len() == self.count,
        }
    }

    /// A retrieval that has not begun.
    pub fn new() -> (r: DropQuery)
        ensures
            r.wf(),
            r.stage == DropStage::Start,
            r.files@.len() == 0,
    {
        DropQuery { stage: DropStage::Start, count: 0, files: Vec::new(), x: 0, y: 0 }
    }

    /// Tells whether a reply is the one that the retrieval waits for.
    pub fn is_expected(&self, reply: &DropReply) -> (r: bool)
        ensures
            r == self.accepts(*reply),
    {
        match self.stage {
            DropStage::Start => match reply {
                DropReply::Begin => true,
                _ => false,
            },
            DropStage::Counting => match reply {
                DropReply::Count(_) => true,
                _ => false,
            },
            DropStage::Measuring(_) => match reply {
                DropReply::Length(_) => true,
                _ => false,
            },
            DropStage::Fetching(_) => match reply {
                DropReply::Path(_) => true,
                _ => false,
            },
            DropStage::Pointing => match reply {
                DropReply::Point { .. } => true,
                _ => false,
            },
            DropStage::Finished => false,
        }
    }

    /// Takes the reply to the last question and says what is asked next. The
    /// buffer for a path has room for the path and the zero unit at its end.
    /// The files are kept in the order in which they are retrieved.
    pub fn advance(&mut self, reply: DropReply) -> (action: DropAction)
        requires
            old(self).wf(),
            old(self).accepts(reply),
        ensures
            final(self).wf(),
            match (old(self).stage, reply) {
                (DropStage::Start, _) => {
                    &&& final(self).stage == DropStage::Counting
                    &&& action == DropAction::QueryCount
                    &&& final(self).files@ == old(self).files@
                },
                (DropStage::Counting, DropReply::Count(n)) => {
                    &&& final(self).count == n
                    &&& (final(self).stage, action) == next_file(n, 0)
                    &&& final(self).files@ == old(self).files@
                },
                (DropStage::Measuring(i), DropReply::Length(l)) => {
                    &&& final(self).stage == DropStage::Fetching(i)
                    &&& action == (DropAction::Fetch { index: i, len: (l + 1) as u64 })
                    &&& final(self).files@ == old(self).files@
                    &&& final(self).count == old(self).count
                },
                (DropStage::Fetching(i), DropReply::Path(p)) => {
                    &&& final(self).files@ == old(self).files@.push(p)
                    &&& (final(self).stage, action) == next_file(old(self).count, (i + 1) as u32)
                    &&& final(self).count == old(self).count
                },
                (DropStage::Pointing, DropReply::Point { x, y }) => {
                    &&& final(self).stage == DropStage::Finished
                    &&& action == DropAction::Done
                    &&& final(self).x == x
                    &&& final(self).y == y
                    &&& final(self).files@ == old(self).files@
                },
                _ => true,
            },
    {
        match reply {
            DropReply::Begin => {
                self.stage = DropStage::Counting;
                DropAction::QueryCount
            },
            DropReply::Count(n) => {
                self.count = n;
                self.next(0)
            },
            DropReply::Length(l) => {
                let index: u32 = match self.stage {
                    DropStage::Measuring(i) => i,
                    _ => 0,
                };
                self.stage = DropStage::Fetching(index);
                DropAction::Fetch { index, len: l as u64 + 1 }
            },
            DropReply::Path(p) => {
                let index: u32 = match self.stage {
                    DropStage::Fetching(i) => i,
                    _ => 0,
                };
                self.files.push(p);
                self.next(index + 1)
            },
            DropReply::Point { x, y } => {
                self.x = x;
                self.y = y;
                self.stage = DropStage::Finished;
                DropAction::Done
            },
        }
    }

    fn next(&mut self, index: u32) -> (action: DropAction)
        requires
            index <= old(self).count,
            old(self).files@.len() == index,
        ensures
            (final(self).stage, action) == next_file(old(self).count, index),
            final(self).count == old(self).count,
            final(self).files == old(self).files,
            final(self).x == old(self).x,
            final(self).y == old(self).y,
            final(self).wf(),
    {
        if index < self.count {
            self.stage = DropStage::Measuring(index);
            DropAction::QueryLength { index }
        } else {
            self.stage = DropStage::Pointing;
            DropAction::QueryPoint
        }
    }

    /// Makes the message of the drop from what has been retrieved.
    pub fn into_message(self) -> (m: Message)
        requires
            self.stage == DropStage::Finished,
        ensures
            m matches Message::DropFiles { files, x, y } && files == self.files && x == self.x && y
                == self.y,
    {
        Message::DropFiles { files: self.files, x: self.x, y: self.y }
    }
}

/// Every retrieval ends by asking for the place of the drop, also where no
/// file was dropped; so the message of the drop is always made, and with it
/// the release of what the native layer holds of the drop.
pub proof fn lemma_empty_drop_is_retrieved(count: u32, index: u32)
    ensures
        index >= count ==> next_file(count, index) == (DropStage::Pointing, DropAction::QueryPoint),
        next_file(0, 0) == (DropStage::Pointing, DropAction::QueryPoint),
{
}

} // verus!
