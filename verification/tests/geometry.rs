use wita::geometry::{can_scale_i32, can_scale_u32};
use wita::{
    LogicalPosition, LogicalSize, PhysicalPosition, PhysicalSize, ScreenPosition,
    ToLogicalPosition, ToLogicalSize, ToPhysicalPosition, ToPhysicalSize, DEFAULT_DPI,
};

#[test]
fn cast_position() {
    let src = LogicalPosition::new(128.0, 256.0);
    let dst = src.cast::<i32>().unwrap();
    assert!(dst.x == 128);
    assert!(dst.y == 256);
}

#[test]
fn cast_size() {
    let src = LogicalSize::new(128.0, 256.0);
    let dst = src.cast::<i32>().unwrap();
    assert!(dst.width == 128);
    assert!(dst.height == 256);
}

#[test]
fn cast_out_of_range_is_none() {
    let src: LogicalPosition<i32> = LogicalPosition::new(-1, 5);
    assert!(src.cast::<u32>().is_none());
    let src: LogicalSize<i32> = LogicalSize::new(5, 70000);
    assert!(src.cast::<u16>().is_none());
    let src: LogicalSize<u32> = LogicalSize::new(5, 7);
    let dst = src.cast::<u8>().unwrap();
    assert_eq!((dst.width, dst.height), (5u8, 7u8));
}

#[test]
fn logical_to_logical_position() {
    let src = LogicalPosition::new(128, 256);
    let dest = src.to_logical(2 * DEFAULT_DPI);
    assert!(src.x == dest.x);
    assert!(src.y == dest.y);

    let src = LogicalPosition::new(128.0, 256.0);
    let dest = src.to_logical(2.0f32 * DEFAULT_DPI as f32);
    assert!((dest.x - src.x) <= std::f32::EPSILON);
    assert!((dest.y - src.y) <= std::f32::EPSILON);
}

#[test]
fn logical_to_physical_position() {
    let src = LogicalPosition::new(128, 256);
    let dest = src.to_physical(2 * DEFAULT_DPI);
    assert!(src.x * 2 == dest.x);
    assert!(src.y * 2 == dest.y);
}

#[test]
fn physical_to_physical_position() {
    let src = PhysicalPosition::new(128, 256);
    let dest = src.to_physical(2 * DEFAULT_DPI);
    assert!(src.x == dest.x);
    assert!(src.y == dest.y);

    let src = PhysicalPosition::new(128.0, 256.0);
    let dest = src.to_physical(2.0f32 * DEFAULT_DPI as f32);
    assert!((dest.x - src.x) <= std::f32::EPSILON);
    assert!((dest.y - src.y) <= std::f32::EPSILON);
}

#[test]
fn logical_to_logical_size() {
    let src = LogicalSize::new(128.0, 256.0);
    let dest = src.to_logical(2.0f32 * DEFAULT_DPI as f32);
    assert!((dest.width - src.width).abs() <= std::f32::EPSILON);
    assert!((dest.height - src.height).abs() <= std::f32::EPSILON);
}

#[test]
fn physical_to_physical_size() {
    let src = PhysicalSize::new(128.0, 256.0);
    let dest = src.to_physical(2.0f32 * DEFAULT_DPI as f32);
    assert!((dest.width - src.width).abs() <= std::f32::EPSILON);
    assert!((dest.height - src.height).abs() <= std::f32::EPSILON);
}

#[test]
fn physical_to_logical_position() {
    let src = PhysicalPosition::new(128, 256);
    let dest = src.to_logical(2 * DEFAULT_DPI);
    assert!(dest.x == src.x / 2);
    assert!(dest.y == src.y / 2);
    let dest = ToLogicalPosition::to_logical(&src, 2 * DEFAULT_DPI);
    assert_eq!((dest.x, dest.y), (64, 128));
}

#[test]
fn logical_to_physical_size() {
    let src: LogicalSize<u32> = LogicalSize::new(128, 256);
    let dest = src.to_physical(2 * DEFAULT_DPI as u32);
    assert!(dest.width == src.width * 2);
    assert!(dest.height == src.height * 2);
    let dest = ToPhysicalSize::to_physical(&src, 144);
    assert_eq!((dest.width, dest.height), (192, 384));
}

#[test]
fn physical_to_logical_size() {
    let src: PhysicalSize<u32> = PhysicalSize::new(128, 256);
    let dest = src.to_logical(2 * DEFAULT_DPI as u32);
    assert!(dest.width == src.width / 2);
    assert!(dest.height == src.height / 2);
    let dest = ToLogicalSize::to_logical(&src, 192);
    assert_eq!((dest.width, dest.height), (64, 128));
}

#[test]
fn conversion_rounds_toward_zero() {
    let p = PhysicalPosition::new(-5, 5);
    let l = p.to_logical(192);
    assert_eq!((l.x, l.y), (-2, 2));
    let l = LogicalPosition::new(-1, 1);
    let p = l.to_physical(144);
    assert_eq!((p.x, p.y), (-1, 1));
    let l = LogicalPosition::new(-3, 3);
    let p = ToPhysicalPosition::to_physical(&l, 120);
    assert_eq!((p.x, p.y), (-3, 3));
}

#[test]
fn round_trip_is_exact_on_even_coordinates() {
    for dpi in [48, 96, 120, 144, 192, 288] {
        for x in [-960, -480, 0, 240, 480, 1920] {
            let p = PhysicalPosition::new(x, 2 * x);
            if (x * 96) % dpi == 0 && (2 * x * 96) % dpi == 0 {
                let back = p.to_logical(dpi).to_physical(dpi);
                assert_eq!((back.x, back.y), (x, 2 * x));
            }
        }
    }
}

#[test]
fn round_trip_loses_what_truncation_loses() {
    let p = PhysicalPosition::new(1, -1);
    let back = p.to_logical(192).to_physical(192);
    assert_eq!((back.x, back.y), (0, 0));
    let p = PhysicalPosition::new(101, 7);
    let back = p.to_logical(144).to_physical(144);
    assert_eq!((back.x, back.y), (100, 6));
    let s: PhysicalSize<u32> = PhysicalSize::new(101, 300);
    let back = s.to_logical(144).to_physical(144);
    assert_eq!((back.width, back.height), (100, 300));
}

#[test]
fn scaling_limits() {
    assert!(can_scale_i32(128, 192, 96));
    assert!(!can_scale_i32(128, 192, 0));
    assert!(!can_scale_i32(i32::MAX, 2, 96));
    assert!(!can_scale_i32(i32::MIN, 1, -1));
    assert!(can_scale_i32(i32::MIN, 1, 1));
    assert!(can_scale_u32(128, 192, 96));
    assert!(!can_scale_u32(u32::MAX, 2, 96));
    assert!(!can_scale_u32(1, 2, 0));
}

#[test]
fn positions_are_plain_values() {
    let p = ScreenPosition::new(3, 4);
    let q = p;
    assert!(p == q);
    assert_eq!((q.clone().x, q.y), (3, 4));
    let s: LogicalSize<u32> = LogicalSize::new(640, 480);
    assert!(s == s.clone());
}

#[test]
fn positions_and_sizes_from_pairs() {
    let p: ScreenPosition = (3, 4).into();
    assert_eq!((p.x, p.y), (3, 4));
    let p: LogicalPosition<i32> = [5, 6].into();
    assert_eq!((p.x, p.y), (5, 6));
    let s: PhysicalSize<u32> = (7, 8).into();
    assert_eq!((s.width, s.height), (7, 8));
    let s: LogicalSize<u32> = [9, 10].into();
    assert_eq!((s.width, s.height), (9, 10));
}

#[test]
fn converted_coordinates_make_a_position_only_together() {
    let p: Option<LogicalPosition<i32>> = LogicalPosition::from_converted(Some(1), Some(2));
    assert_eq!(p.map(|p| (p.x, p.y)), Some((1, 2)));
    assert!(LogicalPosition::<i32>::from_converted(None, Some(2)).is_none());
    assert!(LogicalPosition::<i32>::from_converted(Some(1), None).is_none());
    let s: Option<PhysicalSize<u32>> = PhysicalSize::from_converted(Some(3), Some(4));
    assert_eq!(s.map(|s| (s.width, s.height)), Some((3, 4)));
    assert!(PhysicalSize::<u32>::from_converted(None, None).is_none());
}
