use wita::context::{find_window, push_window, Context};
use wita::geometry::{LogicalPosition, LogicalSize, PhysicalPosition, PhysicalSize, ScreenPosition};
use wita::ime::{Association, ImmContext, IACE_CHILDREN};
use wita::procedure::{PostedMessage, UserMessage, WM_CLOSE, WM_USER};
use wita::raw_input;
use wita::window::{
    register_class, Built, Created, LocalWindow, Rect, Setup, Visibility, WindowState, WS_CHILD,
    WS_EX_NOREDIRECTIONBITMAP, WS_POPUP,
};
use wita::{
    ApiError, BorderlessStyle, Icon, InnerWindowBuilder, Style, Window, WindowBuilder,
    WindowHandle, WindowStyle,
};

type Ctx = Context<(), String>;

const DEFAULT_STYLE: u32 = 0x00CF_0000;

#[test]
fn window_styles() {
    assert_eq!(WindowStyle::default().value(), DEFAULT_STYLE);
    assert_eq!(WindowStyle::dialog().value(), 0x00C8_0000);
    assert_eq!(WindowStyle::dialog().resizable(true).value(), 0x00CC_0000);
    assert_eq!(WindowStyle::default().resizable(false).value(), 0x00CB_0000);
    assert_eq!(WindowStyle::dialog().has_minimize_box(true).value(), 0x00CA_0000);
    assert_eq!(WindowStyle::default().has_minimize_box(false).value(), 0x00CD_0000);
    assert_eq!(WindowStyle::dialog().has_maximize_box(true).value(), 0x00C9_0000);
    assert_eq!(WindowStyle::default().has_maximize_box(false).value(), 0x00CE_0000);
    assert_eq!(
        WindowStyle::dialog().resizable(true).has_minimize_box(true).has_maximize_box(true).value(),
        DEFAULT_STYLE
    );
    assert!(!WindowStyle::default().is_borderless());
    assert!(WindowStyle(WS_POPUP).is_borderless());
    assert!(!Style::is_borderless(&WindowStyle::dialog()));
    assert_eq!(WindowStyle::borderless().value(), WS_POPUP);
    assert!(BorderlessStyle.is_borderless());
}

fn window() -> Window {
    Window {
        hwnd: WindowHandle(9),
        state: WindowState {
            title: "first".to_string(),
            style: DEFAULT_STYLE,
            set_position: (0, 0),
            set_inner_size: PhysicalSize::new(1, 1),
            enabled_ime: false,
            visible_ime_composition_window: true,
            visible_ime_candidate_window: false,
            ime_position: PhysicalPosition::new(0, 0),
            children: vec![WindowHandle(10)],
            closed: false,
        },
    }
}

fn user(request: UserMessage, lparam: isize) -> PostedMessage {
    PostedMessage { hwnd: WindowHandle(9), msg: WM_USER, wparam: request.code(), lparam }
}

#[test]
fn window_setters_change_state_and_post_requests() {
    let mut w = window();
    assert_eq!(w.title(), "first");
    assert_eq!(w.set_title("second"), user(UserMessage::SetTitle, 0));
    assert_eq!(w.title(), "second");
    assert_eq!(w.set_position(ScreenPosition::new(-4, 8)), user(UserMessage::SetPosition, 0));
    assert_eq!(w.state.set_position, (-4, 8));
    assert_eq!(w.set_inner_size(LogicalSize::new(100u32, 50), 192), user(UserMessage::SetInnerSize, 0));
    assert_eq!((w.state.set_inner_size.width, w.state.set_inner_size.height), (200, 100));
    assert_eq!(w.set_inner_size(PhysicalSize::new(100u32, 50), 192), user(UserMessage::SetInnerSize, 0));
    assert_eq!((w.state.set_inner_size.width, w.state.set_inner_size.height), (100, 50));
    assert_eq!(w.set_style(WindowStyle::dialog()), user(UserMessage::SetStyle, 0));
    assert_eq!(w.style().value(), 0x00C8_0000);
    w.set_style(BorderlessStyle);
    assert!(w.style().is_borderless());
    assert!(!w.is_enabled_ime());
    assert_eq!(w.ime(true), user(UserMessage::EnableIme, 0));
    assert!(w.is_enabled_ime());
    assert_eq!(w.ime(false), user(UserMessage::DisableIme, 0));
    assert!(!w.is_enabled_ime());
    w.set_ime_position(LogicalPosition::new(10, 20), 144);
    assert_eq!((w.ime_position().x, w.ime_position().y), (15, 30));
    w.set_ime_position(PhysicalPosition::new(10, 20), 144);
    assert_eq!((w.ime_position().x, w.ime_position().y), (10, 20));
    assert_eq!(w.accept_drag_files(true), user(UserMessage::AcceptDragFiles, 1));
    assert_eq!(w.accept_drag_files(false), user(UserMessage::AcceptDragFiles, 0));
    assert_eq!(w.state.children, vec![WindowHandle(10)]);
    assert!(w.state.visible_ime_composition_window && !w.state.visible_ime_candidate_window);
}

#[test]
fn window_queries_and_requests() {
    let mut w = window();
    assert_eq!(w.raw_handle(), 9);
    assert!(!w.is_closed());
    assert_eq!(w.close(), Some(PostedMessage { hwnd: WindowHandle(9), msg: WM_CLOSE, wparam: 0, lparam: 0 }));
    w.state.closed = true;
    assert!(w.is_closed());
    assert_eq!(w.close(), None);
    let rc = Rect { left: -10, top: 20, right: 630, bottom: 500 };
    let p = w.position(rc);
    assert_eq!((p.x, p.y), (-10, 20));
    let s = w.inner_size(rc);
    assert_eq!((s.width, s.height), (640, 480));
    assert_eq!(w.show(), Visibility::Show(5));
    assert_eq!(w.hide_window(), Visibility::Show(0));
    assert_eq!(w.redraw(), Visibility::Redraw(2));
    let copy = w.duplicate();
    assert!(copy.eq(&w));
    assert_eq!(copy.title(), w.title());
    assert_eq!(copy.state.children, w.state.children);
    assert!(copy.is_closed());
    assert!(rc.has_extents());
    assert_eq!((rc.width(), rc.height()), (640, 480));
    assert!(!Rect { left: i32::MIN, top: 0, right: 1, bottom: 0 }.has_extents());
    assert!(!Rect { left: 0, top: 1, right: 0, bottom: i32::MIN }.has_extents());
}

#[test]
fn builder_defaults_and_options() {
    let b = WindowBuilder::new();
    assert_eq!(b.title, "");
    assert_eq!((b.position.x, b.position.y), (0, 0));
    assert_eq!((b.inner_size.width, b.inner_size.height), (640, 480));
    assert_eq!(b.style, DEFAULT_STYLE);
    assert!(b.visibility && !b.enabled_ime);
    assert!(b.visible_ime_composition_window && b.visible_ime_candidate_window);
    assert!(b.parent.is_none() && b.children.is_empty() && b.icon.is_none());
    assert!(!b.accept_drag_files && !b.no_redirection_bitmap);
    assert_eq!(b.raw_input_window_state, raw_input::WindowState::Foreground);
    let parent = window();
    let child = Window { hwnd: WindowHandle(20), state: window().state };
    let other = Window { hwnd: WindowHandle(21), state: window().state };
    let b = WindowBuilder::new()
        .title("hello")
        .position(ScreenPosition::new(30, 40))
        .inner_size(PhysicalSize::new(800u32, 600))
        .style(WindowStyle::dialog())
        .visible(false)
        .visible_ime_composition_window(false)
        .visible_ime_candidate_window(false)
        .parent(&parent)
        .child(&child)
        .children(&[&other, &child])
        .accept_drag_files(true)
        .icon(Icon::Resource(7))
        .ime(true)
        .no_redirection_bitmap(true)
        .raw_input_window_state(raw_input::WindowState::Background);
    assert_eq!(b.title, "hello");
    assert_eq!((b.position.x, b.position.y), (30, 40));
    assert_eq!((b.inner_size.width, b.inner_size.height), (800, 600));
    assert_eq!(b.style, 0x00C8_0000);
    assert!(!b.visibility && b.enabled_ime);
    assert!(!b.visible_ime_composition_window && !b.visible_ime_candidate_window);
    assert_eq!(b.parent, Some(WindowHandle(9)));
    assert_eq!(b.children, vec![WindowHandle(20), WindowHandle(21), WindowHandle(20)]);
    assert!(b.accept_drag_files && b.no_redirection_bitmap);
    assert!(matches!(b.icon, Some(Icon::Resource(7))));
    assert_eq!(b.raw_input_window_state, raw_input::WindowState::Background);
}

#[test]
fn builder_says_what_to_create() {
    let p = WindowBuilder::new().title("t").params(144);
    assert_eq!(p.ex_style, 0);
    assert_eq!(p.title, "t");
    assert_eq!(p.style, DEFAULT_STYLE);
    assert_eq!((p.x, p.y), (0, 0));
    assert_eq!((p.client.width, p.client.height), (960, 720));
    assert!(p.parent.is_none());
    let p = WindowBuilder::new()
        .inner_size(PhysicalSize::new(10u32, 20))
        .no_redirection_bitmap(true)
        .position(ScreenPosition::new(-1, -2))
        .params(144);
    assert_eq!(p.ex_style, WS_EX_NOREDIRECTIONBITMAP);
    assert_eq!((p.client.width, p.client.height), (10, 20));
    assert_eq!((p.x, p.y), (-1, -2));
}

fn built(r: Result<Built, ApiError>) -> Built {
    match r {
        Ok(b) => b,
        Err(e) => panic!("not built: {}", e.code()),
    }
}

#[test]
fn build_registers_the_window() {
    let mut ctx: Ctx = Context::new();
    let made = Created { hwnd: WindowHandle(1), himc: 11 };
    let b = built(WindowBuilder::new().title("main").build(&mut ctx, 96, Ok(made)));
    assert_eq!(b.handle.raw_handle(), 1);
    assert_eq!(b.handle.title(), "main");
    assert!(!b.handle.is_closed() && !b.handle.is_enabled_ime());
    assert_eq!(b.handle.state.set_position, (0, 0));
    assert_eq!((b.handle.state.set_inner_size.width, b.handle.state.set_inner_size.height), (640, 480));
    assert!(b.icon.is_none());
    let bound = Association { hwnd: WindowHandle(1), himc: 11, flags: IACE_CHILDREN };
    assert_eq!(
        b.setup,
        vec![Setup::Associate(bound), Setup::Show(5), Setup::RegisterDevices(raw_input::WindowState::Foreground)]
    );
    let kept = find_window(&ctx, WindowHandle(1)).unwrap();
    assert_eq!(kept.handle.title(), "main");
    assert_eq!(kept.ime_context, ImmContext { hwnd: WindowHandle(1), himc: 11 });
}

#[test]
fn build_takes_every_option_in_order() {
    let mut ctx: Ctx = Context::new();
    let parent = built(WindowBuilder::new().build(&mut ctx, 96, Ok(Created { hwnd: WindowHandle(1), himc: 11 }))).handle;
    let made = Created { hwnd: WindowHandle(2), himc: 22 };
    let b = built(
        WindowBuilder::new()
            .parent(&parent)
            .visible(false)
            .accept_drag_files(true)
            .icon(Icon::from_path("a.ico"))
            .ime(true)
            .inner_size(LogicalSize::new(100u32, 200))
            .raw_input_window_state(raw_input::WindowState::Background)
            .build(&mut ctx, 192, Ok(made)),
    );
    assert!(matches!(&b.icon, Some(Icon::File(p)) if p == "a.ico"));
    assert!(b.handle.is_enabled_ime());
    assert_eq!((b.handle.state.set_inner_size.width, b.handle.state.set_inner_size.height), (200, 400));
    let bound = Association { hwnd: WindowHandle(2), himc: 22, flags: IACE_CHILDREN };
    let enable = PostedMessage { hwnd: WindowHandle(2), msg: WM_USER, wparam: 3, lparam: 0 };
    assert_eq!(
        b.setup,
        vec![
            Setup::Associate(bound),
            Setup::AcceptDragFiles,
            Setup::SetIcons,
            Setup::Post(enable),
            Setup::RegisterDevices(raw_input::WindowState::Background),
        ]
    );
    assert_eq!(find_window(&ctx, WindowHandle(1)).unwrap().handle.state.children, vec![WindowHandle(2)]);
    assert!(find_window(&ctx, WindowHandle(2)).unwrap().handle.state.children.is_empty());
    assert_eq!(ctx.window_table.len(), 2);
}

#[test]
fn failed_creation_hands_the_error_on() {
    let mut ctx: Ctx = Context::new();
    match WindowBuilder::new().build(&mut ctx, 96, Err(ApiError::new(1400))) {
        Err(e) => assert_eq!(e, ApiError(1400)),
        Ok(_) => panic!("built from an error"),
    }
    assert!(ctx.window_table.is_empty());
    let parent = window();
    let inner = InnerWindowBuilder::new().parent(&parent).size(PhysicalSize::new(1u32, 1));
    match inner.build(&mut ctx, 96, Err(ApiError::new(5))) {
        Err(e) => assert_eq!(e.code(), 5),
        Ok(_) => panic!("built from an error"),
    }
    assert!(ctx.window_table.is_empty());
}

#[test]
fn inner_window_takes_after_its_parent() {
    let mut ctx: Ctx = Context::new();
    let mut outer = window();
    outer.state.enabled_ime = true;
    let (ic, _) = ImmContext::new(WindowHandle(9), 1);
    push_window(&mut ctx, WindowHandle(9), LocalWindow::new(WindowHandle(9), outer.duplicate().state, ic));
    let b = InnerWindowBuilder::new();
    assert_eq!((b.position.x, b.position.y), (0, 0));
    assert!(b.visibility && !b.accept_drag_files);
    let b = b
        .parent(&outer)
        .position(LogicalPosition::new(10, 20))
        .size(LogicalSize::new(100u32, 50))
        .visible(false)
        .accept_drag_files();
    assert_eq!(b.parent, WindowHandle(9));
    let p = b.params(192);
    assert_eq!((p.ex_style, p.style), (0, WS_CHILD));
    assert_eq!(p.title, "");
    assert_eq!((p.x, p.y), (20, 40));
    assert_eq!((p.client.width, p.client.height), (200, 100));
    assert_eq!(p.parent, Some(WindowHandle(9)));
    let made = Created { hwnd: WindowHandle(30), himc: 3 };
    let built = built(b.build(&mut ctx, 192, Ok(made)));
    assert_eq!(built.handle.state.style, WS_CHILD);
    assert_eq!(built.handle.state.set_position, (20, 40));
    assert!(built.handle.is_enabled_ime());
    assert_eq!(built.handle.title(), "");
    let bound = Association { hwnd: WindowHandle(30), himc: 3, flags: IACE_CHILDREN };
    assert_eq!(
        built.setup,
        vec![Setup::Associate(bound), Setup::AcceptDragFiles, Setup::RegisterDevices(raw_input::WindowState::Foreground)]
    );
    assert_eq!(find_window(&ctx, WindowHandle(9)).unwrap().handle.state.children, vec![WindowHandle(10)]);
    let orphan = Window { hwnd: WindowHandle(77), state: window().state };
    let b = InnerWindowBuilder::new().parent(&orphan).size(PhysicalSize::new(1u32, 1));
    let built = match b.build(&mut ctx, 96, Ok(Created { hwnd: WindowHandle(31), himc: 4 })) {
        Ok(b) => b,
        Err(_) => panic!("not built"),
    };
    assert!(!built.handle.is_enabled_ime());
}

#[test]
fn class_of_the_windows() {
    let c = register_class();
    let mut name: Vec<u16> = "wita_window_class".encode_utf16().collect();
    name.push(0);
    assert_eq!(c.name, name);
    assert_eq!(c.style, 3);
    assert_eq!(c.cursor, 32512);
    assert_eq!(c.background, 0);
}
