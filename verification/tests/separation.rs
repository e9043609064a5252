use rustframe::colors::{separation_base_color, trivertex_color};
use rustframe::separation::{
    encode_utf16, parse_best_icon, separation_message, set_face_name, watermark_tiles,
    SeparationMessage, WM_DESTROY, WM_ERASEBKGND, WM_PAINT,
};

fn ico(entries: &[(u8, u8, u32, u32)], total: usize) -> Vec<u8> {
    let mut b = vec![0u8, 0, 1, 0];
    b.extend_from_slice(&(entries.len() as u16).to_le_bytes());
    for (w, h, size, offset) in entries {
        b.push(*w);
        b.push(*h);
        b.extend_from_slice(&[0, 0, 1, 0, 32, 0]);
        b.extend_from_slice(&size.to_le_bytes());
        b.extend_from_slice(&offset.to_le_bytes());
    }
    b.resize(total, 0);
    b
}

#[test]
fn largest_icon_is_chosen() {
    let bytes = ico(&[(16, 16, 10, 40), (0, 0, 20, 50), (32, 32, 5, 70)], 80);
    assert_eq!(parse_best_icon(&bytes), Some((50, 20)));
}

#[test]
fn first_of_equal_icons_is_chosen() {
    let bytes = ico(&[(32, 32, 10, 40), (32, 32, 10, 50)], 60);
    assert_eq!(parse_best_icon(&bytes), Some((40, 10)));
}

#[test]
fn icons_outside_the_file_are_passed_over() {
    let bytes = ico(&[(0, 0, 1000, 40), (16, 16, 4, 40)], 60);
    assert_eq!(parse_best_icon(&bytes), Some((40, 4)));
    let none_fit = ico(&[(0, 0, 1000, 40)], 60);
    assert_eq!(parse_best_icon(&none_fit), None);
}

#[test]
fn short_files_have_no_icon() {
    assert_eq!(parse_best_icon(&[0, 0, 1, 0, 1]), None);
    let mut cut = ico(&[(16, 16, 1, 0)], 22);
    cut.truncate(20);
    assert_eq!(parse_best_icon(&cut), None);
}

#[test]
fn face_names() {
    let mut face = [7u16; 32];
    set_face_name(&mut face, "Segoe UI Semibold");
    let units: Vec<u16> = "Segoe UI Semibold".encode_utf16().collect();
    assert_eq!(&face[..units.len()], &units[..]);
    assert_eq!(face[units.len()], 7);

    let long = "x".repeat(40);
    let mut face = [0u16; 32];
    set_face_name(&mut face, &long);
    assert!(face.iter().all(|u| *u == 'x' as u16));
}

#[test]
fn utf16_encoding() {
    let s = "aé😀";
    assert_eq!(encode_utf16(s), s.encode_utf16().collect::<Vec<u16>>());
}

#[test]
fn watermark_layout() {
    let tiles = watermark_tiles(450, 200);
    // rows -1..=2, columns -1..=3
    assert_eq!(tiles.len(), 4 * 5);
    assert_eq!(tiles[0], (-200 - 100, -160));
    assert_eq!(tiles[5], (-200, 0));
    assert_eq!(tiles[11], (0 + 100, 160));
    assert_eq!(tiles[19], (600 + 200, 320));
    assert!(watermark_tiles(0, 100).is_empty());
}

#[test]
fn window_messages() {
    assert_eq!(separation_message(WM_PAINT), SeparationMessage::Paint);
    assert_eq!(separation_message(WM_ERASEBKGND), SeparationMessage::EraseBackground);
    assert_eq!(separation_message(WM_DESTROY), SeparationMessage::Destroy);
    assert_eq!(separation_message(0x0200), SeparationMessage::Default);
}

#[test]
fn separation_colors() {
    assert_eq!(separation_base_color(0), 0x2B78D6);
    assert_eq!(separation_base_color(0x4682B4), 0x4682B4);
    assert_eq!(trivertex_color(0x4682B4), (0x4646, 0x8282, 0xB4B4));
}
