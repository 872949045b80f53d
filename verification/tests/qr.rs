use ticket_vc::utils::{generate_qr_image, render_modules, QrImage};

#[test]
fn test_render_modules_single_dark_module() {
    let modules = vec![true];
    let img: QrImage = render_modules(&modules, 1);

    // one module plus a border of four on each side, scaled eight times
    assert_eq!(img.width, 72);
    assert_eq!(img.pixels.len(), 72 * 72);

    // the centre block holds the dark module
    for row in 32..40 {
        for col in 32..40 {
            assert_eq!(img.pixels[row * 72 + col], 0);
        }
    }
    // the quiet border stays light
    assert_eq!(img.pixels[0], 255);
    assert_eq!(img.pixels[31 * 72 + 31], 255);
    assert_eq!(img.pixels[40 * 72 + 40], 255);
    assert_eq!(img.pixels[72 * 72 - 1], 255);
}

#[test]
fn test_render_modules_checker() {
    let modules = vec![true, false, false, true];
    let img = render_modules(&modules, 2);
    assert_eq!(img.width, 80);
    // first module block dark, second light
    assert_eq!(img.pixels[32 * 80 + 32], 0);
    assert_eq!(img.pixels[32 * 80 + 40], 255);
    assert_eq!(img.pixels[40 * 80 + 32], 255);
    assert_eq!(img.pixels[40 * 80 + 40], 0);
}

#[test]
fn test_generate_qr_image_geometry() {
    let img = generate_qr_image("didcomm://?_oob=abc123").expect("short data should encode");
    assert!(img.width > 0);
    assert_eq!(img.width % 8, 0);
    assert_eq!(img.pixels.len(), img.width * img.width);
    assert!(img.pixels.iter().any(|&p| p == 0));
    assert!(img.pixels.iter().any(|&p| p == 255));
    assert!(img.pixels.iter().all(|&p| p == 0 || p == 255));
}

#[test]
fn test_generate_qr_image_matches_encoder() {
    let data = "didcomm://?_oob=xyz789";
    let img = generate_qr_image(data).expect("short data should encode");

    let code = qrcode::QrCode::new(data).unwrap();
    let w = code.width();
    let colors = code.to_colors();
    assert_eq!(img.width, (w + 8) * 8);

    for r in 0..w {
        for c in 0..w {
            let dark = colors[r * w + c] == qrcode::Color::Dark;
            let pixel = img.pixels[((4 + r) * 8) * img.width + ((4 + c) * 8)];
            assert_eq!(pixel, if dark { 0 } else { 255 }, "module ({}, {})", r, c);
        }
    }
}

#[test]
fn test_generate_qr_image_unencodable() {
    // far beyond the capacity of the largest QR symbol at medium error correction
    let too_long = "x".repeat(5000);
    assert!(generate_qr_image(&too_long).is_err());
}
