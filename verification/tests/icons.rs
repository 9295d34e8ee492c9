use base64::Engine;
use blockwork::icons::{
    apply_and_mask, has_alpha, icon_edge, icon_path, mask_stride, png_data_uri, png_uri_from, swap_red_blue,
};

#[test]
fn icon_path_unquotes_and_uses_backslashes() {
    assert_eq!(icon_path("  \"C:/Program Files/App/app.exe\"  "), "C:\\Program Files\\App\\app.exe");
    assert_eq!(icon_path("C:/Tools/tool.lnk"), "C:\\Tools\\tool.lnk");
    assert_eq!(icon_path("\"\""), "");
    assert_eq!(icon_path("\""), "\"");
    assert_eq!(icon_path("   "), "");
}

#[test]
fn icon_edge_is_clamped() {
    assert_eq!(icon_edge(8), 16);
    assert_eq!(icon_edge(64), 64);
    assert_eq!(icon_edge(1000), 256);
    assert_eq!(icon_edge(-5), 16);
}

#[test]
fn bgra_becomes_rgba() {
    let mut p = vec![1, 2, 3, 4, 5, 6, 7, 8, 9];
    swap_red_blue(&mut p);
    assert_eq!(p, vec![3, 2, 1, 4, 7, 6, 5, 8, 9]);
}

#[test]
fn alpha_is_detected_on_whole_pixels_only() {
    assert!(!has_alpha(&vec![9, 9, 9, 0, 9, 9, 9, 0, 5]));
    assert!(has_alpha(&vec![0, 0, 0, 0, 0, 0, 0, 1]));
}

#[test]
fn mask_rows_are_word_aligned() {
    assert_eq!(mask_stride(1), 4);
    assert_eq!(mask_stride(32), 4);
    assert_eq!(mask_stride(33), 8);
}

#[test]
fn the_and_mask_decides_opacity() {
    // 2 by 2 image; row 0 mask 0b01xxxxxx (pixel 0 opaque, pixel 1 clear),
    // row 1 mask 0b10xxxxxx.
    let mut pixels = vec![10u8; 16];
    for i in 0..4 {
        pixels[i * 4 + 3] = 0;
    }
    let mut mask = vec![0u8; 8];
    mask[0] = 0b0100_0000;
    mask[4] = 0b1000_0000;
    apply_and_mask(&mut pixels, &mask, 2, 2);
    let alphas: Vec<u8> = (0..4).map(|i| pixels[i * 4 + 3]).collect();
    assert_eq!(alphas, vec![0xFF, 0x00, 0x00, 0xFF]);
    assert!(pixels.iter().enumerate().all(|(i, &b)| i % 4 == 3 || b == 10));
}

#[test]
fn pixels_become_a_png_data_uri() {
    let uri = png_data_uri(1, 1, &vec![255, 0, 0, 255]);
    let data = uri.strip_prefix("data:image/png;base64,").expect("a PNG data URI");
    let png = base64::engine::general_purpose::STANDARD.decode(data).expect("valid base64");
    assert!(png.starts_with(&[0x89, b'P', b'N', b'G', b'\r', b'\n', 0x1a, b'\n']));
}

#[test]
fn a_refused_image_gives_no_uri() {
    assert_eq!(png_data_uri(2, 2, &vec![1, 2, 3]), "");
    assert_eq!(png_data_uri(0, 1, &vec![]), "");
    assert_eq!(png_data_uri(1, 0, &vec![]), "");
    assert_ne!(png_data_uri(2, 1, &vec![0; 8]), "");
    assert_eq!(png_uri_from(None), "");
    assert_eq!(png_uri_from(Some(vec![1, 2, 3])), "data:image/png;base64,AQID");
}

#[test]
fn icon_bytes_are_standard_padded_base64() {
    assert_eq!(png_uri_from(Some(b"Man".to_vec())), "data:image/png;base64,TWFu");
    assert_eq!(png_uri_from(Some(b"Ma".to_vec())), "data:image/png;base64,TWE=");
    assert_eq!(png_uri_from(Some(b"M".to_vec())), "data:image/png;base64,TQ==");
    assert_eq!(png_uri_from(Some(vec![0xfb, 0xff])), "data:image/png;base64,+/8=");
}
