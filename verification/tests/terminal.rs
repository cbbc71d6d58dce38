use furina_advocate_sim::terminal::kitty::{
    KittyImage, base64_encode, delete_image, make_demo_rgba, present_rgba, present_rgba_with_z,
};
use furina_advocate_sim::terminal::layout::{CellRect, PixelRect, rect_to_pixels, rect_to_pixels_struct};
use furina_advocate_sim::terminal::metrics::{
    MetricSource, TerminalGrid, TerminalMetrics, TerminalPixels, metrics_from_env, metrics_from_winsize, parse_u16,
};
use furina_advocate_sim::terminal::session::ImageRegistry;

#[test]
fn encodes_base64_with_padding() {
    assert_eq!(base64_encode(b""), "");
    assert_eq!(base64_encode(b"f"), "Zg==");
    assert_eq!(base64_encode(b"fo"), "Zm8=");
    assert_eq!(base64_encode(b"foo"), "Zm9v");
}

#[test]
fn base64_length_and_padding() {
    for n in 0..10usize {
        let bytes: Vec<u8> = (0..n).map(|i| (i * 37 + 5) as u8).collect();
        let out = base64_encode(&bytes);
        assert_eq!(out.len(), 4 * ((n + 2) / 3));
        let pad = (3 - n % 3) % 3;
        assert!(out.ends_with(&"=".repeat(pad)));
        assert_eq!(out.matches('=').count(), pad);
    }
}

#[test]
fn encodes_base64_longer_input() {
    assert_eq!(base64_encode(b"foobar"), "Zm9vYmFy");
    assert_eq!(base64_encode(b"fooba"), "Zm9vYmE=");
    assert_eq!(base64_encode(&[0xff, 0xfe, 0x3e]), "//4+");
}

#[test]
fn converts_cell_rect_to_pixel_rect_with_fractional_cells() {
    let bbox = rect_to_pixels_struct(
        TerminalGrid { cols: 213, rows: 60 },
        TerminalPixels { width: 3024, height: 1964 },
        CellRect { x: 10, y: 5, width: 80, height: 20 },
    );

    assert_eq!(
        bbox,
        PixelRect { x: 141, y: 163, width: 1136, height: 655 }
    );
}

#[test]
fn clamps_pixel_rect_to_terminal_bounds() {
    let bbox = rect_to_pixels_struct(
        TerminalGrid { cols: 10, rows: 10 },
        TerminalPixels { width: 101, height: 101 },
        CellRect { x: 9, y: 9, width: 5, height: 5 },
    );

    assert_eq!(bbox, PixelRect { x: 90, y: 90, width: 11, height: 11 });
}

#[test]
fn rect_to_pixels_with_empty_grid_saturates() {
    let r = rect_to_pixels(
        TerminalGrid { cols: 0, rows: 0 },
        TerminalPixels { width: 100, height: 0 },
        CellRect { x: 0, y: 3, width: 2, height: 2 },
    );
    assert_eq!(r, (0, 0, 100, 0));
}

#[test]
fn kitty_commands_have_exact_text() {
    let image = KittyImage { image_id: 7, placement_id: 3 };
    let rect = CellRect { x: 1, y: 2, width: 12, height: 6 };
    let mut out = String::new();
    present_rgba(&mut out, &[], 32, 16, rect, &image, false);
    assert_eq!(out, "\x1b[3;2H\x1b_Ga=p,i=7,p=3,c=12,r=6,C=1,q=1,z=0\x1b\\");
    let mut out = String::new();
    present_rgba_with_z(&mut out, b"foo", 1, 1, rect, &image, true, -5);
    assert_eq!(
        out,
        "\x1b[3;2H\x1b_Ga=T,f=32,s=1,v=1,i=7,p=3,c=12,r=6,C=1,q=1,z=-5;Zm9v\x1b\\"
    );
    let mut out = String::new();
    delete_image(&mut out, &image);
    assert_eq!(out, "\x1b_Ga=d,d=i,i=7,p=3,q=1\x1b\\");
}

#[test]
fn demo_pattern_has_border_diagonal_and_gradient() {
    let pixels = make_demo_rgba(32, 16);
    assert_eq!(pixels.len(), 32 * 16 * 4);
    assert_eq!(&pixels[0..4], &[255, 240, 90, 255]);
    // pixel (2, 1): 2 * 16 / 32 == 1, on the diagonal
    let diag = (1 * 32 + 2) * 4;
    assert_eq!(&pixels[diag..diag + 4], &[0, 220, 255, 255]);
    // pixel (5, 1): gradient
    let grad = (1 * 32 + 5) * 4;
    assert_eq!(&pixels[grad..grad + 4], &[45, 48, 120, 255]);
}

#[test]
fn winsize_and_env_metrics() {
    assert_eq!(metrics_from_winsize(0, 24, 800, 600), None);
    let m = metrics_from_winsize(80, 24, 0, 600).unwrap();
    assert_eq!(m.grid, Some(TerminalGrid { cols: 80, rows: 24 }));
    assert_eq!(m.pixels, None);
    assert_eq!(m.source, MetricSource::Ioctl);
    assert_eq!(
        metrics_from_env(Some(100), Some(30)),
        TerminalMetrics {
            grid: Some(TerminalGrid { cols: 100, rows: 30 }),
            pixels: None,
            source: MetricSource::Env,
        }
    );
    assert_eq!(metrics_from_env(Some(100), None).source, MetricSource::Unknown);
    assert_eq!(MetricSource::Ioctl.as_str(), "ioctl");
    assert_eq!(MetricSource::Unknown.as_str(), "unknown");
}

#[test]
fn parses_u16_like_std() {
    for text in ["0", "80", "+24", "65535", "65536", "", "+", "-1", " 80", "8a", "007"] {
        assert_eq!(parse_u16(text), text.parse::<u16>().ok(), "{text}");
    }
}

#[test]
fn registry_keeps_each_image_once_and_deletes_in_reverse() {
    let a = KittyImage { image_id: 1, placement_id: 2 };
    let b = KittyImage { image_id: 3, placement_id: 4 };
    let mut registry = ImageRegistry::new();
    registry.register_image(a);
    registry.register_image(b);
    registry.register_image(a);
    let mut out = String::new();
    registry.drain_deletes(&mut out);
    assert_eq!(
        out,
        "\x1b_Ga=d,d=i,i=3,p=4,q=1\x1b\\\x1b_Ga=d,d=i,i=1,p=2,q=1\x1b\\"
    );
    let mut again = String::new();
    registry.drain_deletes(&mut again);
    assert_eq!(again, "");
}
