use rustframe::hollow_border::{is_border_interacting, HollowBorder};

#[test]
fn inner_rect_subtracts_border() {
    let border = HollowBorder::new(100, 100, 200, 150, 4, 0).unwrap();
    let (ix, iy, iw, ih) = border.get_inner_rect();
    assert_eq!(ix, 104);
    assert_eq!(iy, 104);
    assert_eq!(iw, 192);
    assert_eq!(ih, 142);
}

#[test]
fn inner_rect_is_at_least_one_pixel() {
    let border = HollowBorder::new(0, 0, 6, 3, 4, 0).unwrap();
    assert_eq!(border.get_inner_rect(), (4, 4, 1, 1));
}

#[test]
fn border_geometry_updates() {
    let mut border = HollowBorder::new(1, 2, 30, 40, 2, 0xFF).unwrap();
    assert_eq!(border.get_rect(), (1, 2, 30, 40));
    border.update_rect(5, 6, 70, 80);
    assert_eq!(border.get_rect(), (5, 6, 70, 80));
    border.update_style(10, 0);
    assert_eq!(border.get_inner_rect(), (15, 16, 50, 60));
    border.set_capture_mode();
    border.set_preview_mode();
    border.show();
    border.hide_border();
    border.stop();
    assert_eq!(border.get_rect(), (5, 6, 70, 80));
    assert_eq!(border.hwnd_value(), 0);
    assert!(!is_border_interacting());
}
