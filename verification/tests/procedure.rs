use wita::context::{
    call_handler, create_context, destroy_context, find_window, is_context_null,
    maybe_resume_unwind, push_window, remove_window, set_event_handler, set_resizing, set_unwind,
    window_table_is_empty, Context, ContextState,
};
use wita::device::{KeyCode, KeyState, MouseButton, MouseState, ScanCode, VirtualKey};
use wita::event::{deliver, Event, EventHandler};
use wita::geometry::{PhysicalPosition, PhysicalSize, ScreenPosition};
use wita::ime::{Association, Attribute, CandidateList, Composition, ImmContext};
use wita::procedure::{
    cleanup_after_fault, contain_fault, get_keystate_wparam, get_x_lparam, get_xbutton_wparam,
    get_y_lparam, hiword, key_state_of, loword, lparam_to_point, mouse_button_of,
    post_user_message, update_buttons, window_proc, wparam_to_button, xbutton, CandidateReply,
    Command, DeviceChange, DropAction, DropQuery, DropReply, DropStage, ImmReply, Message, MessageKind, Outcome, PostedMessage, RawPacket,
    Reply, Step, StyleSource, UserMessage, WM_CLOSE, WM_USER,
};
use wita::raw_input::{
    ButtonCaps, Device, DeviceChangeState, DeviceHandle, HidCaps, InputData, RawDeviceInfo,
    RawKeyboard, RawMouse, ValueCaps,
};
use wita::window::{LocalWindow, Rect, Window, WindowHandle, WindowState};

#[derive(Default)]
struct Recorder {
    log: Vec<String>,
}

impl EventHandler for Recorder {
    fn idle(&mut self) {
        self.log.push("idle".to_string());
    }
    fn pre_processing(&mut self) {
        self.log.push("pre".to_string());
    }
    fn post_processing(&mut self) {
        self.log.push("post".to_string());
    }
    fn draw(&mut self, w: &Window) {
        self.log.push(format!("draw {}", w.raw_handle()));
    }
    fn activated(&mut self, w: &Window) {
        self.log.push(format!("activated {}", w.raw_handle()));
    }
    fn inactivated(&mut self, w: &Window) {
        self.log.push(format!("inactivated {}", w.raw_handle()));
    }
    fn closed(&mut self, w: &Window) {
        self.log.push(format!("closed {} {}", w.raw_handle(), w.is_closed()));
    }
    fn moved(&mut self, _: &Window, p: ScreenPosition) {
        self.log.push(format!("moved {} {}", p.x, p.y));
    }
    fn resizing(&mut self, _: &Window, s: PhysicalSize<u32>) {
        self.log.push(format!("resizing {} {}", s.width, s.height));
    }
    fn resized(&mut self, _: &Window, s: PhysicalSize<u32>) {
        self.log.push(format!("resized {} {}", s.width, s.height));
    }
    fn dpi_changed(&mut self, _: &Window) {
        self.log.push("dpi".to_string());
    }
    fn mouse_input(&mut self, _: &Window, b: MouseButton, s: KeyState, m: &MouseState) {
        self.log.push(format!("button {:?} {:?} {} {} {:?}", b, s, m.position.x, m.position.y, m.buttons));
    }
    fn cursor_moved(&mut self, _: &Window, m: &MouseState) {
        self.log.push(format!("move {} {} {:?}", m.position.x, m.position.y, m.buttons));
    }
    fn cursor_entered(&mut self, _: &Window, m: &MouseState) {
        self.log.push(format!("enter {} {} {:?}", m.position.x, m.position.y, m.buttons));
    }
    fn cursor_leaved(&mut self, _: &Window, m: &MouseState) {
        self.log.push(format!("leave {} {} {:?}", m.position.x, m.position.y, m.buttons));
    }
    fn key_input(&mut self, _: &Window, k: KeyCode, s: KeyState, prev: bool) {
        self.log.push(format!("key {:?} {} {:?} {}", k.vkey, k.scan_code.0, s, prev));
    }
    fn char_input(&mut self, _: &Window, c: char) {
        self.log.push(format!("char {}", c));
    }
    fn ime_start_composition(&mut self, _: &Window) {
        self.log.push("ime start".to_string());
    }
    fn ime_composition(&mut self, _: &Window, c: &Composition, l: Option<&CandidateList>) {
        let chars: Vec<String> = c.iter().iter().map(|x| format!("{}:{:?}", x.ch, x.attr)).collect();
        let list = l.map(|l| format!("{:?}", l.selection()));
        self.log.push(format!("ime {:?} {:?}", chars, list));
    }
    fn ime_end_composition(&mut self, _: &Window, r: Option<&str>) {
        self.log.push(format!("ime end {:?}", r));
    }
    fn drop_files(&mut self, _: &Window, paths: &Vec<String>, p: PhysicalPosition<i32>) {
        self.log.push(format!("drop {:?} {} {}", paths, p.x, p.y));
    }
    fn raw_input(&mut self, _: &Window, data: &InputData) {
        let kind = match data {
            InputData::Keyboard(_) => "keyboard",
            InputData::Mouse(_) => "mouse",
            InputData::GamePad(_) => "gamepad",
        };
        self.log.push(format!("raw {}", kind));
    }
    fn raw_input_device_change(&mut self, _: &Window, d: &Device, s: DeviceChangeState) {
        self.log.push(format!("device {} {:?}", d.raw_handle().0, s));
    }
}

struct Silent;

impl EventHandler for Silent {}

type Ctx = Context<Recorder, String>;

fn state(title: &str) -> WindowState {
    WindowState {
        title: title.to_string(),
        style: 0x00CF_0000,
        set_position: (10, 20),
        set_inner_size: PhysicalSize::new(640, 480),
        enabled_ime: false,
        visible_ime_composition_window: true,
        visible_ime_candidate_window: true,
        ime_position: PhysicalPosition::new(5, 6),
        children: Vec::new(),
        closed: false,
    }
}

fn add_window(ctx: &mut Ctx, handle: isize, st: WindowState) -> WindowHandle {
    let hwnd = WindowHandle(handle);
    let (ic, _) = ImmContext::new(hwnd, handle * 100);
    push_window(ctx, hwnd, LocalWindow::new(hwnd, st, ic));
    hwnd
}

fn context() -> (Ctx, WindowHandle) {
    let mut ctx: Ctx = Context::new();
    let hwnd = add_window(&mut ctx, 1, state("one"));
    set_event_handler(&mut ctx, Recorder::default());
    (ctx, hwnd)
}

fn command(c: &Command) -> String {
    match c {
        Command::BeginPaint => "begin paint".to_string(),
        Command::EndPaint => "end paint".to_string(),
        Command::TrackMouseLeave => "track leave".to_string(),
        Command::SetWindowPos { x, y, width, height, flags } => {
            format!("pos {} {} {} {} {:#x}", x, y, width, height, flags)
        }
        Command::SetCompositionWindow(f) => format!("composition window {} {} {:#x}", f.x, f.y, f.style),
        Command::SetCandidateWindow(f) => format!("candidate window {} {} {:#x}", f.x, f.y, f.style),
        Command::ResizeToClient { width, height, style, ex_style, flags } => {
            format!("client {} {} {:?} {:?} {:#x}", width, height, style, ex_style, flags)
        }
        Command::ReplyScaledSize { width, height, dpi } => format!("scaled {} {} {}", width, height, dpi),
        Command::SetWindowText(t) => format!("text {}", t),
        Command::SetWindowStyle(s) => format!("style {:#x}", s),
        Command::ShowWindow(s) => format!("show {}", s),
        Command::Associate(a) => format!("associate {} {} {:#x}", a.hwnd.0, a.himc, a.flags),
        Command::DragAcceptFiles(b) => format!("accept {}", b),
        Command::FinishDrop => "finish drop".to_string(),
        Command::PostMessage(m) => format!("post {} {:#x} {} {}", m.hwnd.0, m.msg, m.wparam, m.lparam),
        Command::PostQuit => "quit".to_string(),
        Command::EnableNonClientDpiScaling => "nc scaling".to_string(),
    }
}

/// Takes the steps of an outcome as the loop would: events go to the handler,
/// commands are written down.
fn take(ctx: &mut Ctx, out: Outcome) -> Vec<String> {
    let mut done = Vec::new();
    for step in &out.steps {
        match step {
            Step::Deliver(e) => {
                call_handler(ctx, out.window.as_ref().unwrap(), e);
                let h = ctx.event_handler.as_mut().unwrap();
                done.push(h.log.pop().unwrap());
                assert!(h.log.is_empty());
            }
            Step::Perform(c) => done.push(command(c)),
        }
    }
    done
}

fn run(ctx: &mut Ctx, hwnd: WindowHandle, message: Message) -> (Vec<String>, Reply) {
    assert!(message.is_well_formed());
    let out = window_proc(ctx, hwnd, message);
    let reply = out.reply;
    (take(ctx, out), reply)
}

fn lparam(x: i16, y: i16) -> isize {
    (((y as u16 as u32) << 16) | (x as u16 as u32)) as isize
}

#[test]
fn first_motion_is_an_entry_and_leaves_alternate() {
    let (mut ctx, hwnd) = context();
    let mv = |x| Message::MouseMove { wparam: 0, lparam: lparam(x, 2 * x) };
    let leave = || Message::MouseLeave { wparam: 0, x: 500, y: 600 };
    let mut seen = Vec::new();
    for m in [mv(1), mv(2), mv(3), leave(), mv(4), leave(), mv(5), mv(6)] {
        let (steps, reply) = run(&mut ctx, hwnd, m);
        assert_eq!(reply, Reply::Handled(0));
        seen.extend(steps);
    }
    assert_eq!(
        seen,
        vec![
            "track leave",
            "enter 1 2 []",
            "move 2 4 []",
            "move 3 6 []",
            "leave 500 600 []",
            "track leave",
            "enter 4 8 []",
            "leave 500 600 []",
            "track leave",
            "enter 5 10 []",
            "move 6 12 []",
        ]
    );
    assert_eq!(ctx.state.entered_window, Some(hwnd));
}

#[test]
fn motion_carries_position_and_held_buttons() {
    let (mut ctx, hwnd) = context();
    let (steps, _) = run(&mut ctx, hwnd, Message::MouseMove { wparam: 0x0001 | 0x0010 | 0x0040, lparam: lparam(-7, 300) });
    assert_eq!(steps, vec!["track leave", "enter -7 300 [Left, Middle, Ex(1)]"]);
    assert_eq!(ctx.state.mouse_buttons, vec![MouseButton::Left, MouseButton::Middle, MouseButton::Ex(1)]);
    let (steps, _) = run(&mut ctx, hwnd, Message::MouseMove { wparam: 0x0002 | 0x0020, lparam: lparam(1, 1) });
    assert_eq!(steps, vec!["move 1 1 [Right, Ex(0)]"]);
}

#[test]
fn buttons_are_reported_with_their_edge() {
    let (mut ctx, hwnd) = context();
    let (button, st) = mouse_button_of(0x0201, 0).unwrap();
    let (steps, reply) = run(&mut ctx, hwnd, Message::MouseButton { button, state: st, wparam: 0x0001, lparam: lparam(3, 4) });
    assert_eq!(steps, vec!["button Left Pressed 3 4 [Left]"]);
    assert_eq!(reply, Reply::Handled(0));
    let (button, st) = mouse_button_of(0x020C, 0x0002_0000).unwrap();
    let (steps, _) = run(&mut ctx, hwnd, Message::MouseButton { button, state: st, wparam: 0x0002_0000, lparam: lparam(3, 4) });
    assert_eq!(steps, vec!["button Ex(1) Released 3 4 []"]);
    assert_eq!(ctx.state.entered_window, None);
}

#[test]
fn button_messages_are_told_apart() {
    assert_eq!(mouse_button_of(0x0201, 0), Some((MouseButton::Left, KeyState::Pressed)));
    assert_eq!(mouse_button_of(0x0202, 0), Some((MouseButton::Left, KeyState::Released)));
    assert_eq!(mouse_button_of(0x0204, 0), Some((MouseButton::Right, KeyState::Pressed)));
    assert_eq!(mouse_button_of(0x0205, 0), Some((MouseButton::Right, KeyState::Released)));
    assert_eq!(mouse_button_of(0x0207, 0), Some((MouseButton::Middle, KeyState::Pressed)));
    assert_eq!(mouse_button_of(0x0208, 0), Some((MouseButton::Middle, KeyState::Released)));
    assert_eq!(mouse_button_of(0x020B, 0x0001_0000), Some((MouseButton::Ex(0), KeyState::Pressed)));
    assert_eq!(mouse_button_of(0x020B, 0x0003_0000), None);
    assert_eq!(mouse_button_of(0x0200, 0), None);
    assert_eq!(xbutton(0x0001_0000), Some(MouseButton::Ex(0)));
    assert_eq!(xbutton(0x0002_0000), Some(MouseButton::Ex(1)));
    assert_eq!(xbutton(0), None);
    assert_eq!(wparam_to_button(0x0001_0020), MouseButton::Ex(0));
    assert_eq!(wparam_to_button(0x0002_0000), MouseButton::Ex(1));
    assert_eq!(key_state_of(0x0100), Some(KeyState::Pressed));
    assert_eq!(key_state_of(0x0101), Some(KeyState::Released));
    assert_eq!(key_state_of(0x0102), None);
}

#[test]
fn words_of_parameters() {
    assert_eq!(loword(0x1234_5678), 0x5678);
    assert_eq!(hiword(0x1234_5678), 0x1234);
    assert_eq!(loword(0x0000_FFFF), -1);
    assert_eq!(hiword(0xFFFE_0000u32 as i32), -2);
    assert_eq!(get_x_lparam(lparam(-3, 9)), -3);
    assert_eq!(get_y_lparam(lparam(-3, 9)), 9);
    assert_eq!(get_y_lparam(lparam(3, -9)), -9);
    assert_eq!(get_xbutton_wparam(0x0002_0010), 2);
    assert_eq!(get_keystate_wparam(0x0002_0013), 0x13);
    let p = lparam_to_point(lparam(-3, 9));
    assert_eq!((p.x, p.y), (-3, 9));
    let mut buttons = vec![MouseButton::Ex(7)];
    update_buttons(&mut buttons, 0x7f);
    assert_eq!(
        buttons,
        vec![MouseButton::Left, MouseButton::Right, MouseButton::Middle, MouseButton::Ex(0), MouseButton::Ex(1)]
    );
    update_buttons(&mut buttons, 0x0c);
    assert!(buttons.is_empty());
}

#[test]
fn interactive_resize_reports_resizing_then_one_resized() {
    let (mut ctx, hwnd) = context();
    let size = |w: u16, h: u16| Message::Size { lparam: (((h as u32) << 16) | w as u32) as isize };
    let mut seen = Vec::new();
    let (steps, reply) = run(&mut ctx, hwnd, Message::EnterSizeMove);
    assert_eq!(reply, Reply::Default);
    assert!(steps.is_empty());
    assert!(ctx.state.resizing);
    for (w, h) in [(100, 50), (110, 60), (120, 70)] {
        let (steps, reply) = run(&mut ctx, hwnd, size(w, h));
        assert_eq!(reply, Reply::Handled(0));
        seen.extend(steps);
    }
    let (steps, reply) = run(&mut ctx, hwnd, Message::ExitSizeMove { size: PhysicalSize::new(120, 70) });
    assert_eq!(reply, Reply::Default);
    seen.extend(steps);
    assert_eq!(seen, vec!["resizing 100 50", "resizing 110 60", "resizing 120 70", "resized 120 70"]);
    assert!(!ctx.state.resizing);
    let (steps, _) = run(&mut ctx, hwnd, size(300, 200));
    assert_eq!(steps, vec!["resized 300 200"]);
}

#[test]
fn resize_without_changes_still_ends_with_resized() {
    let (mut ctx, hwnd) = context();
    run(&mut ctx, hwnd, Message::EnterSizeMove);
    let (steps, _) = run(&mut ctx, hwnd, Message::ExitSizeMove { size: PhysicalSize::new(8, 9) });
    assert_eq!(steps, vec!["resized 8 9"]);
}

fn utf16_bytes(s: &str) -> Vec<u8> {
    let mut out = Vec::new();
    for u in s.encode_utf16() {
        out.push((u & 0xff) as u8);
        out.push((u >> 8) as u8);
    }
    out
}

fn reply_of(s: &str) -> ImmReply {
    let data = utf16_bytes(s);
    ImmReply { byte_len: data.len() as i32, data }
}

fn no_data() -> ImmReply {
    ImmReply { byte_len: -1, data: Vec::new() }
}

fn no_candidates() -> CandidateReply {
    CandidateReply { size: 0, written: 0, data: Vec::new() }
}

fn candidates(selection: u32, entries: &[&str]) -> CandidateReply {
    let count = entries.len() as u32;
    let mut strings: Vec<Vec<u8>> = Vec::new();
    for e in entries {
        let mut b = utf16_bytes(e);
        b.extend_from_slice(&[0, 0]);
        strings.push(b);
    }
    let mut data = Vec::new();
    let mut at = 24 + 4 * count;
    let mut offsets = Vec::new();
    for s in &strings {
        offsets.push(at);
        at += s.len() as u32;
    }
    for v in [at, 1, count, selection, 0, 9] {
        data.extend_from_slice(&v.to_le_bytes());
    }
    for o in offsets {
        data.extend_from_slice(&o.to_le_bytes());
    }
    for s in strings {
        data.extend_from_slice(&s);
    }
    CandidateReply { size: data.len() as u32, written: data.len() as u32, data }
}

#[test]
fn composition_from_start_to_end() {
    let (mut ctx, hwnd) = context();
    let mut seen = Vec::new();
    let (steps, reply) = run(&mut ctx, hwnd, Message::ImeStartComposition);
    assert_eq!(reply, Reply::Default);
    seen.extend(steps);
    let update = Message::ImeComposition {
        lparam: 0x0008 | 0x0010,
        composition: reply_of("\u{3042}"),
        attributes: ImmReply { byte_len: 1, data: vec![0] },
        result: no_data(),
        candidates: no_candidates(),
    };
    let (steps, reply) = run(&mut ctx, hwnd, update);
    assert_eq!(reply, Reply::Default);
    seen.extend(steps);
    let (steps, reply) = run(&mut ctx, hwnd, Message::ImeEndComposition { result: reply_of("\u{3042}") });
    assert_eq!(reply, Reply::Default);
    seen.extend(steps);
    assert_eq!(
        seen,
        vec![
            "composition window 5 6 0x2",
            "candidate window 5 6 0x40",
            "ime start",
            "ime [\"\u{3042}:Input\"] None",
            "ime end Some(\"\u{3042}\")",
        ]
    );
}

#[test]
fn end_of_composition_without_start_carries_nothing() {
    let (mut ctx, hwnd) = context();
    let (steps, reply) = run(&mut ctx, hwnd, Message::ImeEndComposition { result: no_data() });
    assert_eq!(steps, vec!["ime end None"]);
    assert_eq!(reply, Reply::Default);
    let empty = ImmReply { byte_len: 0, data: Vec::new() };
    let (steps, _) = run(&mut ctx, hwnd, Message::ImeEndComposition { result: empty });
    assert_eq!(steps, vec!["ime end None"]);
}

#[test]
fn finished_composition_takes_the_place_of_the_one_in_progress() {
    let (mut ctx, hwnd) = context();
    let update = Message::ImeComposition {
        lparam: 0x0008 | 0x0800,
        composition: reply_of("ka"),
        attributes: ImmReply { byte_len: 2, data: vec![1, 2] },
        result: reply_of("\u{304B}"),
        candidates: candidates(1, &["\u{304B}", "\u{30AB}"]),
    };
    let (steps, _) = run(&mut ctx, hwnd, update);
    assert_eq!(steps, vec!["ime [\"\u{304B}:TargetConverted\"] Some(\"(1, \\\"\u{30AB}\\\")\")"]);
    let update = Message::ImeComposition {
        lparam: 0x0008,
        composition: reply_of("ka"),
        attributes: ImmReply { byte_len: 2, data: vec![1, 2] },
        result: reply_of("\u{304B}"),
        candidates: candidates(0, &["x"]),
    };
    let (steps, _) = run(&mut ctx, hwnd, update);
    assert_eq!(steps, vec!["ime [\"k:TargetConverted\", \"a:Converted\"] Some(\"(0, \\\"x\\\")\")"]);
}

#[test]
fn update_without_decodable_data_reports_nothing() {
    let (mut ctx, hwnd) = context();
    let update = |lparam, attrs: ImmReply| Message::ImeComposition {
        lparam,
        composition: reply_of("ka"),
        attributes: attrs,
        result: no_data(),
        candidates: no_candidates(),
    };
    let (steps, _) = run(&mut ctx, hwnd, update(0x0010, ImmReply { byte_len: 2, data: vec![0, 0] }));
    assert!(steps.is_empty());
    let (steps, _) = run(&mut ctx, hwnd, update(0x0008, no_data()));
    assert!(steps.is_empty());
    let (steps, _) = run(&mut ctx, hwnd, update(0x0808, ImmReply { byte_len: 2, data: vec![0, 0] }));
    assert_eq!(steps, vec!["ime [\"k:Input\", \"a:Input\"] None"]);
}

#[test]
fn hidden_ime_windows_are_masked_and_not_placed() {
    let mut ctx: Ctx = Context::new();
    let mut st = state("ime");
    st.visible_ime_composition_window = false;
    let hwnd = add_window(&mut ctx, 1, st);
    set_event_handler(&mut ctx, Recorder::default());
    let (steps, reply) = run(&mut ctx, hwnd, Message::ImeSetContext { lparam: 0xC000_000Fu32 as isize });
    assert!(steps.is_empty());
    assert_eq!(reply, Reply::DefaultWith { lparam: 0x4000_000F });
    let (steps, _) = run(&mut ctx, hwnd, Message::ImeStartComposition);
    assert_eq!(steps, vec!["candidate window 5 6 0x40", "candidate window 5 6 0x80", "ime start"]);
    let update = Message::ImeComposition {
        lparam: 0,
        composition: no_data(),
        attributes: no_data(),
        result: no_data(),
        candidates: no_candidates(),
    };
    let (_, reply) = run(&mut ctx, hwnd, update);
    assert_eq!(reply, Reply::Handled(0));

    let mut ctx: Ctx = Context::new();
    let mut st = state("ime");
    st.visible_ime_candidate_window = false;
    let hwnd = add_window(&mut ctx, 1, st);
    let (steps, reply) = run(&mut ctx, hwnd, Message::ImeSetContext { lparam: 0xC000_000Fu32 as isize });
    assert!(steps.is_empty());
    assert_eq!(reply, Reply::DefaultWith { lparam: 0xC000_0000u32 as isize });
    let (steps, _) = run(&mut ctx, hwnd, Message::ImeStartComposition);
    assert_eq!(steps, vec!["composition window 5 6 0x2"]);
}

#[test]
fn keys_and_characters() {
    let (mut ctx, hwnd) = context();
    let (steps, reply) = run(&mut ctx, hwnd, Message::Key { state: KeyState::Pressed, wparam: 0x41, lparam: (0x1E << 16) | (1 << 30) });
    assert_eq!(steps, vec!["key Char('A') 30 Pressed true"]);
    assert_eq!(reply, Reply::Handled(0));
    let (steps, _) = run(&mut ctx, hwnd, Message::Key { state: KeyState::Released, wparam: 0x70, lparam: 0x3B << 16 });
    assert_eq!(steps, vec!["key F(1) 59 Released false"]);
    let (steps, _) = run(&mut ctx, hwnd, Message::Char { wparam: 0x3042 });
    assert_eq!(steps, vec!["char \u{3042}"]);
    let (steps, reply) = run(&mut ctx, hwnd, Message::Char { wparam: 0xD800 });
    assert!(steps.is_empty());
    assert_eq!(reply, Reply::Handled(0));
    let (steps, _) = run(&mut ctx, hwnd, Message::Char { wparam: 0x11_0000 });
    assert!(steps.is_empty());
}

#[test]
fn paint_activation_and_moves() {
    let (mut ctx, hwnd) = context();
    let (steps, reply) = run(&mut ctx, hwnd, Message::Paint);
    assert_eq!(steps, vec!["begin paint", "draw 1", "end paint"]);
    assert_eq!(reply, Reply::Handled(0));
    assert_eq!(run(&mut ctx, hwnd, Message::Activate { wparam: 1 }).0, vec!["activated 1"]);
    assert_eq!(run(&mut ctx, hwnd, Message::Activate { wparam: 2 }).0, vec!["activated 1"]);
    assert_eq!(run(&mut ctx, hwnd, Message::Activate { wparam: 0 }).0, vec!["inactivated 1"]);
    let (steps, reply) = run(&mut ctx, hwnd, Message::WindowPosChanged { flags: 0x0001, x: -5, y: 9 });
    assert_eq!(steps, vec!["moved -5 9"]);
    assert_eq!(reply, Reply::Default);
    let (steps, reply) = run(&mut ctx, hwnd, Message::WindowPosChanged { flags: 0x0002, x: -5, y: 9 });
    assert!(steps.is_empty());
    assert_eq!(reply, Reply::Default);
    let (steps, reply) = run(&mut ctx, hwnd, Message::NcCreate);
    assert_eq!(steps, vec!["nc scaling"]);
    assert_eq!(reply, Reply::Default);
    let (steps, reply) = run(&mut ctx, hwnd, Message::Other);
    assert!(steps.is_empty());
    assert_eq!(reply, Reply::Default);
}

#[test]
fn dpi_change_resizes_before_it_is_reported() {
    let (mut ctx, hwnd) = context();
    let ask = Message::GetDpiScaledSize { prev_dpi: 96, next_dpi: 144, client: Rect { left: 0, top: 0, right: 640, bottom: 481 } };
    let (steps, reply) = run(&mut ctx, hwnd, ask);
    assert_eq!(steps, vec!["scaled 960 721 144"]);
    assert_eq!(reply, Reply::Handled(1));
    let changed = Message::DpiChanged { suggested: Rect { left: 10, top: 20, right: 990, bottom: 770 } };
    let (steps, reply) = run(&mut ctx, hwnd, changed);
    assert_eq!(steps, vec!["pos 10 20 980 750 0x14", "dpi"]);
    assert_eq!(reply, Reply::Handled(0));
    let bad = Message::GetDpiScaledSize { prev_dpi: 0, next_dpi: 144, client: Rect { left: 0, top: 0, right: 1, bottom: 1 } };
    assert!(!bad.is_well_formed());
    let bad = Message::DpiChanged { suggested: Rect { left: i32::MIN, top: 0, right: 1, bottom: 1 } };
    assert!(!bad.is_well_formed());
}

#[test]
fn dropped_files_are_reported_and_released() {
    let (mut ctx, hwnd) = context();
    let file = |s: &str| {
        let mut v: Vec<u16> = s.encode_utf16().collect();
        v.push(0);
        v
    };
    let (steps, reply) = run(&mut ctx, hwnd, Message::DropFiles { files: vec![file("C:\\a.txt"), file("D:\\\u{3042}.png")], x: 11, y: 12 });
    assert_eq!(steps, vec!["drop [\"C:\\\\a.txt\", \"D:\\\\\u{3042}.png\"] 11 12", "finish drop"]);
    assert_eq!(reply, Reply::Handled(0));
    let (steps, _) = run(&mut ctx, hwnd, Message::DropFiles { files: vec![], x: 0, y: 0 });
    assert_eq!(steps, vec!["drop [] 0 0", "finish drop"]);
    let mut bare: Ctx = Context::new();
    let hwnd = add_window(&mut bare, 1, state("bare"));
    let (steps, _) = run(&mut bare, hwnd, Message::DropFiles { files: vec![file("x")], x: 0, y: 0 });
    assert_eq!(steps, vec!["finish drop"]);
}

#[test]
fn requests_of_a_window_to_itself() {
    let (mut ctx, hwnd) = context();
    let user = |request| Message::User { request, lparam: 1, client: PhysicalSize::new(300, 200) };
    assert_eq!(run(&mut ctx, hwnd, user(UserMessage::SetTitle)).0, vec!["text one"]);
    assert_eq!(run(&mut ctx, hwnd, user(UserMessage::SetPosition)).0, vec!["pos 10 20 0 0 0x15"]);
    assert_eq!(run(&mut ctx, hwnd, user(UserMessage::SetInnerSize)).0, vec!["client 640 480 Current Current 0x16"]);
    assert_eq!(run(&mut ctx, hwnd, user(UserMessage::EnableIme)).0, vec!["associate 1 100 0x1"]);
    assert_eq!(run(&mut ctx, hwnd, user(UserMessage::DisableIme)).0, vec!["associate 1 0 0x20"]);
    assert_eq!(
        run(&mut ctx, hwnd, user(UserMessage::SetStyle)).0,
        vec!["style 0xcf0000", "client 300 200 Fixed(13565952) Fixed(0) 0x26", "show 5"]
    );
    let (steps, reply) = run(&mut ctx, hwnd, user(UserMessage::AcceptDragFiles));
    assert_eq!(steps, vec!["accept true"]);
    assert_eq!(reply, Reply::Handled(0));
    let off = Message::User { request: UserMessage::AcceptDragFiles, lparam: 0, client: PhysicalSize::new(0, 0) };
    assert_eq!(run(&mut ctx, hwnd, off).0, vec!["accept false"]);
}

#[test]
fn user_message_codes() {
    let all = [
        UserMessage::SetTitle,
        UserMessage::SetPosition,
        UserMessage::SetInnerSize,
        UserMessage::EnableIme,
        UserMessage::DisableIme,
        UserMessage::SetStyle,
        UserMessage::AcceptDragFiles,
    ];
    for (i, m) in all.iter().enumerate() {
        assert_eq!(m.code(), i);
        assert_eq!(UserMessage::from_code(i), Some(*m));
    }
    assert_eq!(UserMessage::from_code(7), None);
    assert_eq!(
        post_user_message(WindowHandle(4), UserMessage::SetStyle, 3),
        PostedMessage { hwnd: WindowHandle(4), msg: WM_USER, wparam: 5, lparam: 3 }
    );
}

#[test]
fn destruction_closes_cascades_and_quits() {
    let mut ctx: Ctx = Context::new();
    let mut parent = state("parent");
    parent.children = vec![WindowHandle(2), WindowHandle(3), WindowHandle(4)];
    let hwnd = add_window(&mut ctx, 1, parent);
    add_window(&mut ctx, 2, state("open child"));
    let mut closed = state("closed child");
    closed.closed = true;
    add_window(&mut ctx, 3, closed);
    set_event_handler(&mut ctx, Recorder::default());
    let out = window_proc(&mut ctx, hwnd, Message::Destroy);
    assert!(out.window.as_ref().unwrap().is_closed());
    assert_eq!(out.reply, Reply::Handled(0));
    let steps = take(&mut ctx, out);
    assert_eq!(steps, vec!["closed 1 true".to_string(), format!("post 2 {:#x} 0 0", WM_CLOSE)]);
    assert!(find_window(&ctx, hwnd).is_none());
    assert!(!window_table_is_empty(&ctx));
    let (steps, _) = run(&mut ctx, WindowHandle(2), Message::Destroy);
    assert_eq!(steps, vec!["closed 2 true"]);
    let (steps, _) = run(&mut ctx, WindowHandle(3), Message::Destroy);
    assert_eq!(steps, vec!["closed 3 true", "quit"]);
    assert!(window_table_is_empty(&ctx));
}

#[test]
fn messages_for_unknown_windows_go_to_the_default_handling() {
    let (mut ctx, hwnd) = context();
    for m in [Message::Destroy, Message::Paint, Message::EnterSizeMove, Message::MouseMove { wparam: 0, lparam: 0 }] {
        let out = window_proc(&mut ctx, WindowHandle(99), m);
        assert!(out.window.is_none());
        assert!(out.steps.is_empty());
        assert_eq!(out.reply, Reply::Default);
    }
    assert!(find_window(&ctx, hwnd).is_some());
    assert!(!ctx.state.resizing);
    assert_eq!(ctx.state.entered_window, None);
}

#[test]
fn without_a_handler_nothing_is_delivered() {
    let mut ctx: Ctx = Context::new();
    let hwnd = add_window(&mut ctx, 1, state("bare"));
    let (steps, _) = run(&mut ctx, hwnd, Message::MouseMove { wparam: 1, lparam: 0 });
    assert!(steps.is_empty());
    assert_eq!(ctx.state.entered_window, None);
    assert!(ctx.state.mouse_buttons.is_empty());
    assert_eq!(run(&mut ctx, hwnd, Message::Paint).0, vec!["begin paint", "end paint"]);
    assert!(run(&mut ctx, hwnd, Message::Size { lparam: 5 }).0.is_empty());
    run(&mut ctx, hwnd, Message::EnterSizeMove);
    assert!(ctx.state.resizing);
    assert_eq!(run(&mut ctx, hwnd, Message::Destroy).0, vec!["quit"]);
}

#[test]
fn fault_in_a_handler_is_kept_and_closes_nothing() {
    let (mut ctx, hwnd) = context();
    add_window(&mut ctx, 2, state("two"));
    let out = window_proc(&mut ctx, hwnd, Message::Activate { wparam: 1 });
    assert!(matches!(out.steps[0], Step::Deliver(Event::Activated)));
    let reply = contain_fault(&mut ctx, "success".to_string());
    assert_eq!(reply, Reply::Handled(0));
    assert!(cleanup_after_fault(&out.steps, 0).is_empty());
    assert!(ctx.event_handler.is_none());
    assert!(!find_window(&ctx, hwnd).unwrap().handle.is_closed());
    assert!(!find_window(&ctx, WindowHandle(2)).unwrap().handle.is_closed());
    assert!(!out.window.unwrap().is_closed());
    let out = window_proc(&mut ctx, hwnd, Message::Activate { wparam: 1 });
    assert!(out.steps.is_empty());
    assert_eq!(maybe_resume_unwind(&mut ctx), Some("success".to_string()));
    assert_eq!(maybe_resume_unwind(&mut ctx), None);
}

#[test]
fn fault_during_destruction_leaves_the_cleanup() {
    let mut ctx: Ctx = Context::new();
    let mut parent = state("parent");
    parent.children = vec![WindowHandle(2)];
    let hwnd = add_window(&mut ctx, 1, parent);
    add_window(&mut ctx, 2, state("child"));
    set_event_handler(&mut ctx, Recorder::default());
    let out = window_proc(&mut ctx, hwnd, Message::Destroy);
    assert!(out.window.as_ref().unwrap().is_closed());
    contain_fault(&mut ctx, "boom".to_string());
    let rest: Vec<String> = cleanup_after_fault(&out.steps, 0).iter().map(command).collect();
    assert_eq!(rest, vec![format!("post 2 {:#x} 0 0", WM_CLOSE)]);
    assert!(!find_window(&ctx, WindowHandle(2)).unwrap().handle.is_closed());

    let (mut ctx, hwnd) = context();
    let out = window_proc(&mut ctx, hwnd, Message::Paint);
    let rest: Vec<String> = cleanup_after_fault(&out.steps, 1).iter().map(command).collect();
    assert_eq!(rest, vec!["end paint"]);
    let out = window_proc(&mut ctx, hwnd, Message::DropFiles { files: vec![], x: 0, y: 0 });
    let rest: Vec<String> = cleanup_after_fault(&out.steps, 0).iter().map(command).collect();
    assert_eq!(rest, vec!["finish drop"]);
    assert!(Command::EndPaint.survives_fault());
    assert!(Command::FinishDrop.survives_fault());
    assert!(!Command::PostQuit.survives_fault());
    assert!(!Command::BeginPaint.survives_fault());
}

fn pad_caps() -> HidCaps {
    HidCaps {
        button_caps: vec![ButtonCaps { usage_page: 9, is_range: true, usage_min: 1, usage_max: 2 }],
        value_caps: vec![ValueCaps { usage_page: 1, is_range: false, usage_min: 0x30, bit_size: 8, logical_min: 0, logical_max: 255 }],
    }
}

fn arrival(handle: isize, name: Option<&str>) -> Message {
    Message::InputDeviceChange(DeviceChange::Arrival {
        handle: DeviceHandle(handle),
        info: Some(RawDeviceInfo::Hid { usage_page: 1, usage: 5 }),
        name: name.map(|n| n.to_string()),
        caps: Some(pad_caps()),
        max_usages: 2,
    })
}

#[test]
fn devices_come_and_go() {
    let (mut ctx, hwnd) = context();
    let (steps, reply) = run(&mut ctx, hwnd, arrival(8, Some("pad")));
    assert_eq!(steps, vec!["device 8 Arrival"]);
    assert_eq!(reply, Reply::Handled(0));
    let (steps, reply) = run(&mut ctx, hwnd, arrival(9, None));
    assert_eq!(steps, vec!["device 9 Arrival"]);
    assert_eq!(reply, Reply::Handled(0));
    assert_eq!(ctx.raw_input.find_device(DeviceHandle(9)).unwrap().name(), None);
    assert!(ctx.raw_input.gamepad(DeviceHandle(9)).is_some());
    let report = || Message::Input(Some(RawPacket::Hid { device: DeviceHandle(8), usages: Some(vec![2]), values: vec![Some(7)] }));
    let (steps, reply) = run(&mut ctx, hwnd, report());
    assert_eq!(steps, vec!["raw gamepad"]);
    assert_eq!(reply, Reply::Default);
    let removal = || Message::InputDeviceChange(DeviceChange::Removal { handle: DeviceHandle(8) });
    let (steps, reply) = run(&mut ctx, hwnd, removal());
    assert_eq!(steps, vec!["device 8 Removal"]);
    assert_eq!(reply, Reply::Handled(0));
    let (steps, reply) = run(&mut ctx, hwnd, report());
    assert!(steps.is_empty());
    assert_eq!(reply, Reply::Default);
    assert!(run(&mut ctx, hwnd, removal()).0.is_empty());
}

#[test]
fn raw_reports_of_keyboard_and_mouse() {
    let (mut ctx, hwnd) = context();
    let keyboard = Some(RawDeviceInfo::Keyboard { function_keys: 12, indicators: 3, keys_total: 101 });
    let add = Message::InputDeviceChange(DeviceChange::Arrival { handle: DeviceHandle(1), info: keyboard, name: Some("k".to_string()), caps: None, max_usages: 0 });
    run(&mut ctx, hwnd, add);
    let key = RawKeyboard { make_code: 30, flags: 0, vkey: 0x41, extra: 0 };
    let out = window_proc(&mut ctx, hwnd, Message::Input(Some(RawPacket::Keyboard { device: DeviceHandle(1), keyboard: key })));
    match &out.steps[0] {
        Step::Deliver(Event::RawInput(InputData::Keyboard(k))) => {
            assert_eq!(k.code.vkey, VirtualKey::Char('A'));
            assert_eq!(k.code.scan_code, ScanCode(30));
        }
        _ => panic!("no keyboard data"),
    }
    assert_eq!(take(&mut ctx, out), vec!["raw keyboard"]);
    let mouse = RawMouse { flags: 0, button_flags: 0, button_data: 0, last_x: 1, last_y: 2, extra: 0 };
    let (steps, _) = run(&mut ctx, hwnd, Message::Input(Some(RawPacket::Mouse { device: DeviceHandle(5), mouse })));
    assert!(steps.is_empty());
    let (steps, reply) = run(&mut ctx, hwnd, Message::Input(None));
    assert!(steps.is_empty());
    assert_eq!(reply, Reply::Default);
}

#[test]
fn kinds_of_messages() {
    assert_eq!(MessageKind::of(0x000F), MessageKind::Paint);
    assert_eq!(MessageKind::of(0x00FF), MessageKind::Input);
    assert_eq!(MessageKind::of(0x0200), MessageKind::MouseMove);
    assert_eq!(MessageKind::of(0x02A3), MessageKind::MouseLeave);
    for m in [0x0201, 0x0202, 0x0204, 0x0205, 0x0207, 0x0208, 0x020B, 0x020C] {
        assert_eq!(MessageKind::of(m), MessageKind::MouseButton);
    }
    assert_eq!(MessageKind::of(0x0100), MessageKind::Key);
    assert_eq!(MessageKind::of(0x0101), MessageKind::Key);
    assert_eq!(MessageKind::of(0x0102), MessageKind::Char);
    assert_eq!(MessageKind::of(0x0281), MessageKind::ImeSetContext);
    assert_eq!(MessageKind::of(0x010D), MessageKind::ImeStartComposition);
    assert_eq!(MessageKind::of(0x010F), MessageKind::ImeComposition);
    assert_eq!(MessageKind::of(0x010E), MessageKind::ImeEndComposition);
    assert_eq!(MessageKind::of(0x0006), MessageKind::Activate);
    assert_eq!(MessageKind::of(0x0005), MessageKind::Size);
    assert_eq!(MessageKind::of(0x0047), MessageKind::WindowPosChanged);
    assert_eq!(MessageKind::of(0x0231), MessageKind::EnterSizeMove);
    assert_eq!(MessageKind::of(0x0232), MessageKind::ExitSizeMove);
    assert_eq!(MessageKind::of(0x02E0), MessageKind::DpiChanged);
    assert_eq!(MessageKind::of(0x02E4), MessageKind::GetDpiScaledSize);
    assert_eq!(MessageKind::of(0x0233), MessageKind::DropFiles);
    assert_eq!(MessageKind::of(0x00FE), MessageKind::InputDeviceChange);
    assert_eq!(MessageKind::of(0x0002), MessageKind::Destroy);
    assert_eq!(MessageKind::of(0x0081), MessageKind::NcCreate);
    assert_eq!(MessageKind::of(0x0400), MessageKind::User);
    assert_eq!(MessageKind::of(0x0010), MessageKind::Other);
    assert_eq!(MessageKind::of(0), MessageKind::Other);
}

#[test]
fn registry_of_windows() {
    let mut slot: Option<Ctx> = None;
    assert!(is_context_null(&slot));
    create_context(&mut slot);
    assert!(!is_context_null(&slot));
    let ctx = slot.as_mut().unwrap();
    assert!(window_table_is_empty(ctx));
    assert!(find_window(ctx, WindowHandle(1)).is_none());
    add_window(ctx, 1, state("one"));
    add_window(ctx, 2, state("two"));
    assert_eq!(find_window(ctx, WindowHandle(2)).unwrap().handle.title(), "two");
    assert_eq!(ctx.find_index(WindowHandle(1)), Some(0));
    assert_eq!(ctx.find_index(WindowHandle(3)), None);
    remove_window(ctx, WindowHandle(1));
    assert!(find_window(ctx, WindowHandle(1)).is_none());
    assert_eq!(ctx.find_index(WindowHandle(2)), Some(0));
    set_resizing(ctx, true);
    assert!(ctx.state.resizing);
    set_unwind(ctx, "e".to_string());
    assert_eq!(ctx.unwind, Some("e".to_string()));
    destroy_context(&mut slot);
    assert!(is_context_null(&slot));
    let s = ContextState::new();
    assert!(s.mouse_buttons.is_empty() && s.entered_window.is_none() && !s.resizing);
}

#[test]
fn events_reach_the_method_that_stands_for_them() {
    let w = Window { hwnd: WindowHandle(3), state: state("w") };
    let mut r = Recorder::default();
    let ms = || MouseState { position: PhysicalPosition::new(1, 2), buttons: vec![MouseButton::Left] };
    let events = vec![
        Event::Draw,
        Event::Inactivated,
        Event::Moved(ScreenPosition::new(1, 2)),
        Event::Resizing(PhysicalSize::new(3, 4)),
        Event::DpiChanged,
        Event::CursorLeaved(ms()),
        Event::MouseInput { button: MouseButton::Right, state: KeyState::Released, mouse_state: ms() },
        Event::CharInput('x'),
        Event::ImeComposition {
            composition: Composition::new("a".to_string(), vec![Attribute::Input]),
            candidate_list: Some(CandidateList::new(vec!["a".to_string()], 0)),
        },
        Event::ImeEndComposition(Some("a".to_string())),
        Event::DropFiles { paths: vec!["p".to_string()], position: PhysicalPosition::new(5, 6) },
        Event::RawInputDeviceChange {
            device: Device { handle: DeviceHandle(4), ty: wita::raw_input::DeviceType::Mouse, name: None },
            state: DeviceChangeState::Arrival,
        },
    ];
    for e in &events {
        deliver(&mut r, &w, e);
    }
    assert_eq!(
        r.log,
        vec![
            "draw 3",
            "inactivated 3",
            "moved 1 2",
            "resizing 3 4",
            "dpi",
            "leave 1 2 [Left]",
            "button Right Released 1 2 [Left]",
            "char x",
            "ime [\"a:Input\"] Some(\"(0, \\\"a\\\")\")",
            "ime end Some(\"a\")",
            "drop [\"p\"] 5 6",
            "device 4 Arrival",
        ]
    );
    let mut s = Silent;
    for e in &events {
        deliver(&mut s, &w, e);
    }
    let mut ctx: Context<Silent, String> = Context::new();
    call_handler(&mut ctx, &w, &Event::Draw);
    assert!(ctx.event_handler.is_none());
    set_event_handler(&mut ctx, Silent);
    call_handler(&mut ctx, &w, &Event::Draw);
    assert!(ctx.event_handler.is_some());
    assert_eq!(Association { hwnd: WindowHandle(1), himc: 2, flags: 3 }.himc, 2);
    assert_eq!(StyleSource::Fixed(1), StyleSource::Fixed(1));
}

#[test]
fn dropped_files_are_retrieved_by_count_then_fetch() {
    let mut q = DropQuery::new();
    assert!(q.is_expected(&DropReply::Begin));
    assert!(!q.is_expected(&DropReply::Count(1)));
    assert_eq!(q.advance(DropReply::Begin), DropAction::QueryCount);
    assert!(q.is_expected(&DropReply::Count(2)));
    assert_eq!(q.advance(DropReply::Count(2)), DropAction::QueryLength { index: 0 });
    assert!(!q.is_expected(&DropReply::Path(vec![])));
    assert_eq!(q.advance(DropReply::Length(3)), DropAction::Fetch { index: 0, len: 4 });
    assert_eq!(q.advance(DropReply::Path(vec![97, 98, 99, 0])), DropAction::QueryLength { index: 1 });
    assert_eq!(q.advance(DropReply::Length(u32::MAX)), DropAction::Fetch { index: 1, len: 4294967296 });
    assert_eq!(q.advance(DropReply::Path(vec![100, 0])), DropAction::QueryPoint);
    assert_eq!(q.stage, DropStage::Pointing);
    assert_eq!(q.advance(DropReply::Point { x: 5, y: 6 }), DropAction::Done);
    assert!(!q.is_expected(&DropReply::Begin));
    let (mut ctx, hwnd) = context();
    let (steps, _) = run(&mut ctx, hwnd, q.into_message());
    assert_eq!(steps, vec!["drop [\"abc\", \"d\"] 5 6", "finish drop"]);

    let mut q = DropQuery::new();
    q.advance(DropReply::Begin);
    assert_eq!(q.advance(DropReply::Count(0)), DropAction::QueryPoint);
    assert_eq!(q.advance(DropReply::Point { x: 1, y: 2 }), DropAction::Done);
    let (steps, _) = run(&mut ctx, hwnd, q.into_message());
    assert_eq!(steps, vec!["drop [] 1 2", "finish drop"]);
}
