use wita::api::{adjust_window_rect, enable_dpi_awareness, DpiAwareness};
use wita::error::format_message;
use wita::geometry::PhysicalSize;
use wita::resource::{load_icon, load_small_icon, make_int_resource, IconSource, LR_LOADFROMFILE, LR_SHARED};
use wita::text::{has_prefix, parse_trimmed, push_decimal, str_equals};
use wita::window::Rect;
use wita::{get_monitors_proc, monitor_from_point, ApiError, Icon, Monitor};

#[test]
fn error_codes_and_messages() {
    assert_eq!(ApiError::new(5).code(), 5);
    assert_eq!(ApiError::default().code(), 0);
    let text: Vec<u16> = "Access is denied.\r\n".encode_utf16().collect();
    assert_eq!(format_message(text.len() as u32, &text), Some("Access is denied.\r\n".to_string()));
    assert_eq!(format_message(6, &text), Some("Access".to_string()));
    assert_eq!(format_message(0, &text), None);
    assert_eq!(format_message(100, &text), Some("Access is denied.\r\n".to_string()));
    assert_eq!(format_message(1, &[0xD800]), Some("\u{FFFD}".to_string()));
    assert_eq!(ApiError::new(5).to_string(6, &text), "Access");
    assert_eq!(ApiError::new(5).to_string(0, &text), "");
}

#[test]
fn monitors_from_native_reports() {
    let rc = Rect { left: -1920, top: 0, right: 0, bottom: 1080 };
    let m = Monitor::new(7, rc, 1);
    assert_eq!(m.hmonitor, 7);
    assert_eq!((m.position.x, m.position.y), (-1920, 0));
    assert_eq!((m.size.width, m.size.height), (1920, 1080));
    assert!(m.is_primary);
    assert!(!Monitor::new(8, rc, 2).is_primary);
    assert!(m.eq(&Monitor::new(7, Rect { left: 0, top: 0, right: 1, bottom: 1 }, 0)));
    assert!(!m.eq(&Monitor::new(8, rc, 1)));
    assert!(monitor_from_point(0, rc, 1).is_none());
    let found = monitor_from_point(9, rc, 0).unwrap();
    assert_eq!((found.hmonitor, found.size.width, found.is_primary), (9, 1920, false));
    let mut all = Vec::new();
    assert!(get_monitors_proc(&mut all, 1, rc, 1));
    assert!(get_monitors_proc(&mut all, 2, Rect { left: 0, top: 0, right: 800, bottom: 600 }, 0));
    assert_eq!(all.len(), 2);
    assert_eq!((all[1].hmonitor, all[1].size.width, all[1].size.height), (2, 800, 600));
    let wide = Monitor::new(1, Rect { left: i32::MIN, top: 0, right: i32::MAX, bottom: 0 }, 0);
    assert_eq!(wide.size.width, u32::MAX);
}

#[test]
fn icons_and_how_they_are_loaded() {
    assert_eq!(make_int_resource(7), 7);
    assert_eq!(make_int_resource(65535), 65535);
    let file = Icon::from_path("C:\\icons\\a.ico");
    assert!(matches!(&file, Icon::File(p) if p == "C:\\icons\\a.ico"));
    assert!(matches!(file.source(), IconSource::File(p) if p == "C:\\icons\\a.ico"));
    assert!(matches!(Icon::Resource(3).source(), IconSource::Module(3)));
    assert!(matches!(file.duplicate(), Icon::File(p) if p == "C:\\icons\\a.ico"));
    assert!(matches!(Icon::Resource(3).duplicate(), Icon::Resource(3)));
    let r = load_icon(&Icon::Resource(3), 0x400, 32, 32);
    assert_eq!((r.module, r.image_type, r.cx, r.cy, r.flags), (0x400, 1, 32, 32, LR_SHARED));
    assert!(matches!(r.source, IconSource::Module(3)));
    let r = load_small_icon(&file, 0x400, 16, 16);
    assert_eq!((r.module, r.image_type, r.cx, r.cy, r.flags), (0, 1, 16, 16, LR_SHARED | LR_LOADFROMFILE));
    assert!(matches!(r.source, IconSource::File(p) if p == "C:\\icons\\a.ico"));
}

#[test]
fn dpi_awareness_is_tried_from_the_newest_way() {
    assert_eq!(enable_dpi_awareness(None), Some(DpiAwareness::PerMonitorV2));
    assert_eq!(enable_dpi_awareness(Some((DpiAwareness::PerMonitorV2, true))), None);
    assert_eq!(enable_dpi_awareness(Some((DpiAwareness::PerMonitorV2, false))), Some(DpiAwareness::PerMonitor));
    assert_eq!(enable_dpi_awareness(Some((DpiAwareness::PerMonitor, true))), None);
    assert_eq!(enable_dpi_awareness(Some((DpiAwareness::PerMonitor, false))), Some(DpiAwareness::Process));
    assert_eq!(enable_dpi_awareness(Some((DpiAwareness::Process, false))), None);
    assert_eq!(enable_dpi_awareness(Some((DpiAwareness::Process, true))), None);
}

#[test]
fn request_for_the_outer_size() {
    let r = adjust_window_rect(PhysicalSize::new(640, 480), 0x00CF_0000, 0x20, 144);
    assert_eq!(r.rect, Rect { left: 0, top: 0, right: 640, bottom: 480 });
    assert_eq!((r.style, r.menu, r.ex_style, r.dpi), (0x00CF_0000, false, 0x20, 144));
    let r = adjust_window_rect(PhysicalSize::new(u32::MAX, 0x8000_0000), 0, 0, 96);
    assert_eq!((r.rect.right, r.rect.bottom), (-1, i32::MIN));
}

#[test]
fn text_helpers() {
    assert!(str_equals("abc", "abc"));
    assert!(!str_equals("abc", "abd"));
    assert!(!str_equals("abc", "ab"));
    assert!(str_equals("", ""));
    assert!(str_equals("\u{3042}", "\u{3042}"));
    assert!(has_prefix("NumPad1", "NumPad"));
    assert!(has_prefix("x", ""));
    assert!(!has_prefix("Num", "NumPad"));
    assert!(!has_prefix("numpad", "NumPad"));
    let mut s = String::from("n=");
    push_decimal(&mut s, 0);
    push_decimal(&mut s, 7);
    push_decimal(&mut s, 1230);
    push_decimal(&mut s, u32::MAX);
    assert_eq!(s, "n=0712304294967295");
    assert_eq!(parse_trimmed("abc12", 255), Some(12));
    assert_eq!(parse_trimmed("12abc", 255), Some(12));
    assert_eq!(parse_trimmed("a1b2c", 255), None);
    assert_eq!(parse_trimmed("255", 255), Some(255));
    assert_eq!(parse_trimmed("256", 255), None);
    assert_eq!(parse_trimmed("00000000000000000000012", 255), Some(12));
    assert_eq!(parse_trimmed("99999999999999999999", u32::MAX), None);
    assert_eq!(parse_trimmed("", 255), None);
    assert_eq!(parse_trimmed("abc", 255), None);
    assert_eq!(parse_trimmed("x\u{0663}", 255), None);
    assert_eq!(parse_trimmed("+12", 255), Some(12));
}
