//! Renderer-context settings and entry-point descriptions.

use rokol::gfx::PixelFormat;
use rokol::glue::{ColorFormat, ContextDesc, DepthFormat, Init, ResourceSettings, Rokol};

#[test]
fn format_conversions() {
    assert_eq!(ColorFormat::Rgba8.to_ffi(), PixelFormat::Rgba8);
    assert_eq!(ColorFormat::Bgra8.to_ffi(), PixelFormat::Bgra8);
    assert_eq!(DepthFormat::Depth.to_ffi(), PixelFormat::Depth);
    assert_eq!(DepthFormat::DepthStencil.to_ffi(), PixelFormat::DepthStencil);
}

#[test]
fn settings_apply_to_context() {
    let s = ResourceSettings {
        color_format: ColorFormat::Bgra8,
        depth_format: DepthFormat::DepthStencil,
        sample_count: 4,
    };
    let mut desc = ContextDesc::default();
    assert_eq!(desc.color_format, PixelFormat::_Default);
    s.apply(&mut desc);
    assert_eq!(desc.color_format, PixelFormat::Bgra8);
    assert_eq!(desc.depth_format, PixelFormat::DepthStencil);
    assert_eq!(desc.sample_count, 4);

    let d2 = s.create_context();
    assert_eq!(d2, desc);
}

#[test]
fn settings_default() {
    let s = ResourceSettings::default();
    assert_eq!(s.color_format, ColorFormat::Rgba8);
    assert_eq!(s.depth_format, DepthFormat::Depth);
    assert_eq!(s.sample_count, 1);
}

#[test]
fn init_default() {
    let i = Init::default();
    assert_eq!(i.title, "unnamed");
    assert_eq!((i.w, i.h), (1280, 720));
    assert!(!i.use_high_dpi);
    assert_eq!(i.settings, ResourceSettings::default());
}

#[test]
fn rokol_default() {
    let r = Rokol::default();
    assert_eq!((r.w, r.h), (640, 360));
    assert_eq!(r.title, "Untitled");
    assert_eq!(r.msaa_sample_count, 1);
    assert_eq!(r.swap_interval, 1);
    assert!(!r.use_high_dpi);
    assert!(!r.is_full_screen);
    assert!(r.enable_alpha);
    assert!(!r.use_user_cursor_image);
    assert!(!r.enable_clipboard);
    assert_eq!(r.max_clipboard_size_in_bytes, 8192);
    assert!(!r.enable_drag_and_drop);
    assert_eq!(r.n_max_dropped_files, 1);
    assert_eq!(r.max_dropped_file_path_len_in_bytes, 2048);
}
