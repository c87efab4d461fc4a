/*!
Glue between the windowing platform and the renderer.

The settings a window-creation layer needs in order to initialize the
renderer — frame-buffer formats and multisampling — together with the
records they are assembled into, and the entry-point description of an
application.
*/

use vstd::prelude::*;

use crate::gfx::PixelFormat;

verus! {

/// Color format of the default frame buffer. Compatible with
/// [`PixelFormat`].
#[derive(Debug, Clone, Copy, PartialEq, Eq, Hash)]
pub enum ColorFormat {
    Rgba8,
    Bgra8,
}

/// The pixel format a color format stands for.
pub open spec fn color_format_pixel(cf: ColorFormat) -> PixelFormat {
    match cf {
        ColorFormat::Rgba8 => PixelFormat::Rgba8,
        ColorFormat::Bgra8 => PixelFormat::Bgra8,
    }
}

impl ColorFormat {
    /// The pixel format this color format stands for.
    pub fn to_ffi(self) -> (r: PixelFormat)
        ensures
            r == color_format_pixel(self),
    {
        match self {
            Self::Rgba8 => PixelFormat::Rgba8,
            Self::Bgra8 => PixelFormat::Bgra8,
        }
    }
}

/// Depth format of the default frame buffer. Compatible with
/// [`PixelFormat`].
#[derive(Debug, Clone, Copy, PartialEq, Eq, Hash)]
pub enum DepthFormat {
    Depth,
    DepthStencil,
}

/// The pixel format a depth format stands for.
pub open spec fn depth_format_pixel(df: DepthFormat) -> PixelFormat {
    match df {
        DepthFormat::Depth => PixelFormat::Depth,
        DepthFormat::DepthStencil => PixelFormat::DepthStencil,
    }
}

impl DepthFormat {
    /// The pixel format this depth format stands for.
    pub fn to_ffi(self) -> (r: PixelFormat)
        ensures
            r == depth_format_pixel(self),
    {
        match self {
            Self::Depth => PixelFormat::Depth,
            Self::DepthStencil => PixelFormat::DepthStencil,
        }
    }
}

/// The renderer-context record that initialization fills in: the default
/// frame buffer's formats and multisample count.
#[derive(Debug, Clone, Copy, PartialEq, Eq)]
pub struct ContextDesc {
    pub color_format: PixelFormat,
    pub depth_format: PixelFormat,
    pub sample_count: i32,
}

/// The zero context record: every choice left to the renderer.
pub open spec fn context_desc_default() -> ContextDesc {
    ContextDesc {
        color_format: PixelFormat::_Default,
        depth_format: PixelFormat::_Default,
        sample_count: 0i32,
    }
}

impl Default for ContextDesc {
    /// Every choice left to the renderer.
    fn default() -> (r: Self)
        ensures
            r == context_desc_default(),
    {
        ContextDesc {
            color_format: PixelFormat::_Default,
            depth_format: PixelFormat::_Default,
            sample_count: 0,
        }
    }
}

/// The renderer settings a windowing layer applies when it creates the
/// rendering context.
#[derive(Debug, Clone, PartialEq, Eq)]
pub struct ResourceSettings {
    pub color_format: ColorFormat,
    pub depth_format: DepthFormat,
    /// MSAA sample count of the default frame buffer.
    pub sample_count: u32,
}

/// What the settings make of a context record.
pub open spec fn applied_settings(s: ResourceSettings, d: ContextDesc) -> ContextDesc {
    ContextDesc {
        color_format: color_format_pixel(s.color_format),
        depth_format: depth_format_pixel(s.depth_format),
        sample_count: s.sample_count as i32,
    }
}

impl Default for ResourceSettings {
    /// RGBA8 color, depth-only depth buffer, no multisampling.
    fn default() -> (r: Self)
        ensures
            r == (ResourceSettings {
                color_format: ColorFormat::Rgba8,
                depth_format: DepthFormat::Depth,
                sample_count: 1u32,
            }),
    {
        Self {
            color_format: ColorFormat::Rgba8,
            depth_format: DepthFormat::Depth,
            sample_count: 1,
        }
    }
}

impl ResourceSettings {
    /// Writes these settings into a context record.
    pub fn apply(&self, desc: &mut ContextDesc)
        ensures
            *final(desc) == applied_settings(*self, *old(desc)),
    {
        desc.color_format = self.color_format.to_ffi();
        desc.depth_format = self.depth_format.to_ffi();
        desc.sample_count = #[verifier::truncate] (self.sample_count as i32);
    }

    /// The context record these settings describe, starting from the
    /// default record.
    pub fn create_context(&self) -> (d: ContextDesc)
        ensures
            d == applied_settings(*self, context_desc_default()),
    {
        let mut desc = ContextDesc::default();
        self.apply(&mut desc);
        desc
    }
}

/// What a window-creation layer needs to open a window and initialize the
/// renderer in it.
#[derive(Debug, Clone, PartialEq, Eq)]
pub struct Init {
    pub title: String,
    pub w: u32,
    pub h: u32,
    pub use_high_dpi: bool,
    pub settings: ResourceSettings,
}

impl Default for Init {
    /// An unnamed 1280 x 720 window with the default renderer settings.
    fn default() -> (r: Self)
        ensures
            r.title@ == "unnamed"@,
            r.w == 1280u32,
            r.h == 720u32,
            !r.use_high_dpi,
            r.settings == (ResourceSettings {
                color_format: ColorFormat::Rgba8,
                depth_format: DepthFormat::Depth,
                sample_count: 1u32,
            }),
    {
        Self {
            title: "unnamed".to_owned(),
            w: 1280,
            h: 720,
            use_high_dpi: false,
            settings: ResourceSettings::default(),
        }
    }
}

/// Entry-point description of an application: the window, input and
/// clipboard settings the platform layer starts the event loop with.
#[derive(Debug, Clone, PartialEq, Eq)]
pub struct Rokol {
    /// Preferred width of the window / canvas.
    pub w: u32,
    /// Preferred height of the window / canvas.
    pub h: u32,
    /// Window title.
    pub title: String,
    pub msaa_sample_count: u32,
    /// Preferred swap interval.
    pub swap_interval: u32,
    pub use_high_dpi: bool,
    pub is_full_screen: bool,
    pub enable_alpha: bool,
    pub use_user_cursor_image: bool,
    pub enable_clipboard: bool,
    pub max_clipboard_size_in_bytes: u32,
    pub enable_drag_and_drop: bool,
    pub n_max_dropped_files: u32,
    pub max_dropped_file_path_len_in_bytes: u32,
}

impl Default for Rokol {
    /// A 640 x 360 window titled "Untitled", no special input features.
    fn default() -> (r: Self)
        ensures
            r.w == 640u32,
            r.h == 360u32,
            r.title@ == "Untitled"@,
            r.msaa_sample_count == 1u32,
            r.swap_interval == 1u32,
            !r.use_high_dpi,
            !r.is_full_screen,
            r.enable_alpha,
            !r.use_user_cursor_image,
            !r.enable_clipboard,
            r.max_clipboard_size_in_bytes == 8192u32,
            !r.enable_drag_and_drop,
            r.n_max_dropped_files == 1u32,
            r.max_dropped_file_path_len_in_bytes == 2048u32,
    {
        Self {
            w: 640,
            h: 360,
            title: "Untitled".to_owned(),
            msaa_sample_count: 1,
            swap_interval: 1,
            use_high_dpi: false,
            is_full_screen: false,
            enable_alpha: true,
            use_user_cursor_image: false,
            enable_clipboard: false,
            max_clipboard_size_in_bytes: 8192,
            enable_drag_and_drop: false,
            n_max_dropped_files: 1,
            max_dropped_file_path_len_in_bytes: 2048,
        }
    }
}

} // verus!
