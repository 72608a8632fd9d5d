use vstd::prelude::*;

verus! {

/// The colour formats that the devtool renders to.
#[derive(Clone, Copy, Debug, PartialEq, Eq, Structural)]
pub enum ColorFormat {
    /// Red, green, blue and alpha, 8 bits each, normalized, sRGB encoded.
    Rgba8UnormSrgb,
    /// Red, green, blue and alpha, 8 bits each, unsigned integers.
    Rgba8Uint,
}

/// How a texture may be used; each field is one usage flag.
#[derive(Clone, Copy, Debug, PartialEq, Eq, Structural)]
pub struct TextureUsages {
    pub copy_src: bool,
    pub copy_dst: bool,
    pub texture_binding: bool,
    pub storage_binding: bool,
    pub render_attachment: bool,
}

/// How frames are handed to the display.
#[derive(Clone, Copy, Debug, PartialEq, Eq, Structural)]
pub enum PresentMode {
    AutoVsync,
    AutoNoVsync,
    Fifo,
    FifoRelaxed,
    Immediate,
    Mailbox,
}

/// How the alpha channel is treated when the frame is composited.
#[derive(Clone, Copy, Debug, PartialEq, Eq, Structural)]
pub enum CompositeAlphaMode {
    Auto,
    Opaque,
    PreMultiplied,
    PostMultiplied,
    Inherit,
}

/// The configuration of a window's drawing surface.
#[derive(Debug)]
pub struct SurfaceSettings {
    pub usage: TextureUsages,
    pub format: ColorFormat,
    pub width: u32,
    pub height: u32,
    pub present_mode: PresentMode,
    pub desired_maximum_frame_latency: u32,
    pub alpha_mode: CompositeAlphaMode,
    pub view_formats: Vec<ColorFormat>,
}

/// The usage set that holds only `render_attachment`.
pub open spec fn render_attachment_only() -> TextureUsages {
    TextureUsages {
        copy_src: false,
        copy_dst: false,
        texture_binding: false,
        storage_binding: false,
        render_attachment: true,
    }
}

/// The colour format of the devtool's surfaces and textures.
pub open spec fn texture_format() -> ColorFormat {
    ColorFormat::Rgba8UnormSrgb
}

/// The colour format of the devtool's surfaces and textures.
pub fn get_texture_format() -> (f: ColorFormat)
    ensures
        f == texture_format(),
{
    ColorFormat::Rgba8UnormSrgb
}

/// The surface configuration for a window of `width` by `height`: twice its
/// size in each direction, the devtool's colour format for the surface and
/// as the one view format, used as a render attachment only, mailbox
/// presentation, an opaque alpha, and a frame latency of `1 / 60` in integer
/// division, that is zero.
pub fn get_surface_config(width: u32, height: u32) -> (s: SurfaceSettings)
    requires
        2 * width <= u32::MAX,
        2 * height <= u32::MAX,
    ensures
        s.usage == render_attachment_only(),
        s.format == texture_format(),
        s.width == 2 * width,
        s.height == 2 * height,
        s.present_mode == PresentMode::Mailbox,
        s.desired_maximum_frame_latency == 0,
        s.alpha_mode == CompositeAlphaMode::Opaque,
        s.view_formats@ == seq![texture_format()],
{
    SurfaceSettings {
        usage: TextureUsages {
            copy_src: false,
            copy_dst: false,
            texture_binding: false,
            storage_binding: false,
            render_attachment: true,
        },
        format: get_texture_format(),
        width: width * 2,
        height: height * 2,
        present_mode: PresentMode::Mailbox,
        desired_maximum_frame_latency: 1 / 60,
        alpha_mode: CompositeAlphaMode::Opaque,
        view_formats: vec![get_texture_format()],
    }
}

} // verus!
