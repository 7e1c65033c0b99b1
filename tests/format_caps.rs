use ximageredux::caps::{default_frame_rate, frame_interval_ms, template_caps, video_caps, Fraction};
use ximageredux::engine::{CapsStart, EngineError, PropertyId, PropertyValue, XImageRedux};
use ximageredux::format::{
    bits_per_pixel_for, find_visual, pixel_format, resolve_format, ByteOrder, DisplaySetup,
    FormatError, PixmapFormat, ScreenInfo, VisualType,
};
use ximageredux::geometry::{cursor_in_bounds, Position, Size};
use ximageredux::visibility::{classify_visibility, WM_STATE_HIDDEN_ATOM};
use ximageredux::watcher::{WatchEvent, Watcher};
use ximageredux::WindowVisibility;

fn visual(id: u32) -> VisualType {
    VisualType { visual_id: id, red_mask: 0x00ff0000, green_mask: 0x0000ff00, blue_mask: 0x000000ff }
}

fn setup(order: ByteOrder, bpp: u8) -> DisplaySetup {
    DisplaySetup {
        bitmap_bit_order: order,
        pixmap_formats: vec![
            PixmapFormat { depth: 1, bits_per_pixel: 1 },
            PixmapFormat { depth: 24, bits_per_pixel: bpp },
            PixmapFormat { depth: 24, bits_per_pixel: 8 },
        ],
        screens: vec![ScreenInfo { root_visual: 0x21, visuals: vec![visual(0x20), visual(0x21)] }],
    }
}

#[test]
fn little_endian_32_is_swapped_to_big_endian() {
    let f = resolve_format(&setup(ByteOrder::LittleEndian, 32), 0, 24).unwrap();
    assert_eq!(f.byte_order, ByteOrder::BigEndian);
    assert_eq!(f.bits_per_pixel, 32);
    assert_eq!(f.depth, 24);
    assert_eq!(f.red_mask, 0x0000ff00);
    assert_eq!(f.green_mask, 0x00ff0000);
    assert_eq!(f.blue_mask, 0xff000000);
    assert_eq!(f.alpha_mask, 0x000000ff);
}

#[test]
fn little_endian_24_is_swapped_and_shifted() {
    let f = resolve_format(&setup(ByteOrder::LittleEndian, 24), 0, 24).unwrap();
    assert_eq!(f.byte_order, ByteOrder::BigEndian);
    assert_eq!(f.red_mask, 0x000000ff);
    assert_eq!(f.green_mask, 0x0000ff00);
    assert_eq!(f.blue_mask, 0x00ff0000);
    assert_eq!(f.alpha_mask, 0);
}

#[test]
fn big_endian_masks_unchanged() {
    let f = resolve_format(&setup(ByteOrder::BigEndian, 32), 0, 24).unwrap();
    assert_eq!(f.byte_order, ByteOrder::BigEndian);
    assert_eq!(f.red_mask, 0x00ff0000);
    assert_eq!(f.green_mask, 0x0000ff00);
    assert_eq!(f.blue_mask, 0x000000ff);
    assert_eq!(f.alpha_mask, 0xff000000);
}

#[test]
fn sixteen_bpp_little_endian_unchanged() {
    let v = VisualType { visual_id: 1, red_mask: 0xf800, green_mask: 0x07e0, blue_mask: 0x001f };
    let f = pixel_format(16, 16, ByteOrder::LittleEndian, &v);
    assert_eq!(f.byte_order, ByteOrder::LittleEndian);
    assert_eq!((f.red_mask, f.green_mask, f.blue_mask, f.alpha_mask), (0xf800, 0x07e0, 0x001f, 0));
}

#[test]
fn byte_order_codes() {
    assert_eq!(ByteOrder::LittleEndian.code(), 1234);
    assert_eq!(ByteOrder::BigEndian.code(), 4321);
}

#[test]
fn format_errors() {
    assert_eq!(
        resolve_format(&setup(ByteOrder::LittleEndian, 32), 0, 30),
        Err(FormatError::NoPixmapFormat)
    );
    assert_eq!(resolve_format(&setup(ByteOrder::LittleEndian, 32), 1, 24), Err(FormatError::NoScreen));
    assert_eq!(resolve_format(&setup(ByteOrder::LittleEndian, 32), -1, 24), Err(FormatError::NoScreen));
    let mut s = setup(ByteOrder::LittleEndian, 32);
    s.screens[0].root_visual = 0x99;
    assert_eq!(resolve_format(&s, 0, 24), Err(FormatError::NoVisual));
}

#[test]
fn first_pixmap_format_wins() {
    let s = setup(ByteOrder::LittleEndian, 32);
    assert_eq!(bits_per_pixel_for(&s.pixmap_formats, 24), Some(32));
    assert_eq!(bits_per_pixel_for(&s.pixmap_formats, 1), Some(1));
    assert_eq!(bits_per_pixel_for(&vec![], 24), None);
}

#[test]
fn visual_lookup() {
    let vs = vec![visual(1), visual(2)];
    assert_eq!(find_visual(&vs, 2), Some(visual(2)));
    assert_eq!(find_visual(&vs, 3), None);
}

#[test]
fn engine_video_format_and_caps() {
    let mut e = XImageRedux::new();
    let s = setup(ByteOrder::LittleEndian, 32);
    assert_eq!(e.get_video_format(&s, 24), Err(EngineError::WindowUnset));
    e.set_property(PropertyId::Xid, PropertyValue::UInt(1)).unwrap();
    assert_eq!(e.get_video_format(&s, 24), Err(EngineError::NotConnected));
    e.open_connection(0);
    let f = e.get_video_format(&s, 24).unwrap();
    assert_eq!(e.get_video_format(&s, 30), Err(EngineError::Format(FormatError::NoPixmapFormat)));
    assert_eq!(e.caps(f), Err(EngineError::NoGeometry));
    e.record_geometry(ximageredux::geometry::Geometry { x: 0, y: 0, width: 640, height: 480, depth: 24 });
    let c = e.caps(f).unwrap();
    assert_eq!((c.width, c.height), (640, 480));
    assert_eq!(c.min_rate, Fraction { numer: 0, denom: 1 });
    assert_eq!(c.max_rate, Fraction { numer: i32::MAX, denom: 1 });
    assert_eq!(c, video_caps(f, Size { width: 640, height: 480 }));
}

#[test]
fn unconstrained_template_when_unconfigured() {
    let t = template_caps();
    assert_eq!(t.max_width, i32::MAX);
    assert_eq!(t.max_height, i32::MAX);
    assert_eq!(t.min_rate, Fraction { numer: 0, denom: 1 });
    assert_eq!(t.max_rate, Fraction { numer: i32::MAX, denom: 1 });
}

#[test]
fn frame_intervals() {
    assert_eq!(frame_interval_ms(Fraction { numer: 30, denom: 1 }), Some(33));
    assert_eq!(frame_interval_ms(Fraction { numer: 25, denom: 1 }), Some(40));
    assert_eq!(frame_interval_ms(Fraction { numer: 30000, denom: 1001 }), Some(33));
    assert_eq!(frame_interval_ms(Fraction { numer: 1, denom: i32::MAX }), Some(2147483647000));
    assert_eq!(frame_interval_ms(Fraction { numer: 0, denom: 1 }), None);
    assert_eq!(frame_interval_ms(Fraction { numer: 0, denom: 0 }), None);
}

#[test]
fn fixation_target() {
    assert_eq!(default_frame_rate(), Fraction { numer: 25, denom: 1 });
}

#[test]
fn visibility_codes() {
    assert_eq!(WindowVisibility::from(0), WindowVisibility::Unknown);
    assert_eq!(WindowVisibility::from(1), WindowVisibility::Visible);
    assert_eq!(WindowVisibility::from(2), WindowVisibility::Hidden);
    assert_eq!(WindowVisibility::from(-5), WindowVisibility::Unknown);
    assert_eq!(WindowVisibility::Hidden.code(), 2);
    assert_eq!(WindowVisibility::default(), WindowVisibility::Unknown);
}

#[test]
fn visibility_from_state_atoms() {
    assert_eq!(classify_visibility(&vec![]), WindowVisibility::Visible);
    assert_eq!(classify_visibility(&vec![300, 301]), WindowVisibility::Visible);
    assert_eq!(classify_visibility(&vec![300, WM_STATE_HIDDEN_ATOM]), WindowVisibility::Hidden);
    assert_eq!(classify_visibility(&vec![324]), WindowVisibility::Hidden);
}

#[test]
fn watcher_ignores_relocation() {
    let mut w = Watcher::new();
    assert!(w.on_event(WatchEvent::Configure { width: 100, height: 50 }));
    assert!(!w.on_event(WatchEvent::Configure { width: 100, height: 50 }));
    assert!(w.on_event(WatchEvent::Configure { width: 120, height: 50 }));
    assert!(!w.on_event(WatchEvent::Configure { width: 120, height: 50 }));
    assert_eq!(w.last_size, Some(Size { width: 120, height: 50 }));
}

#[test]
fn watcher_property_change_marks_dirty() {
    let mut w = Watcher::new();
    assert!(w.on_event(WatchEvent::Property));
    assert!(w.on_event(WatchEvent::Property));
    assert!(!w.on_event(WatchEvent::Other));
    assert_eq!(w.last_size, None);
}

#[test]
fn cursor_bounds_edges() {
    let pos = Position { x: -10, y: -10 };
    let size = Size { width: 20, height: 20 };
    let inside = ximageredux::geometry::PointerReply { root_x: -10, root_y: 9, same_screen: true };
    assert_eq!(cursor_in_bounds(pos, size, inside), Some((0, 19)));
    let outside = ximageredux::geometry::PointerReply { root_x: 10, root_y: 0, same_screen: true };
    assert_eq!(cursor_in_bounds(pos, size, outside), None);
    let wide = Size { width: u16::MAX, height: u16::MAX };
    let origin = Position { x: i16::MIN, y: i16::MIN };
    let far = ximageredux::geometry::PointerReply { root_x: i16::MAX - 1, root_y: i16::MAX - 1, same_screen: true };
    assert_eq!(cursor_in_bounds(origin, wide, far), Some((65535 - 1, 65535 - 1)));
}

#[test]
fn caps_query_without_window_answers_template() {
    let mut e = XImageRedux::new();
    assert_eq!(e.begin_caps(), CapsStart::Template(template_caps()));
    e.set_property(PropertyId::Xid, PropertyValue::UInt(9)).unwrap();
    assert_eq!(e.begin_caps(), CapsStart::Connect);
    e.open_connection(0);
    assert_eq!(e.begin_caps(), CapsStart::Query);
}
