use fxst::ui::error::StartErrorTask;
use fxst::ui::surface::{
    get_surface_config, get_texture_format, ColorFormat, CompositeAlphaMode, PresentMode,
    TextureUsages,
};

#[test]
fn texture_format_is_srgb_rgba() {
    assert_eq!(get_texture_format(), ColorFormat::Rgba8UnormSrgb);
}

#[test]
fn surface_config_doubles_the_window() {
    let s = get_surface_config(800, 600);
    assert_eq!(s.width, 1600);
    assert_eq!(s.height, 1200);
    assert_eq!(s.format, ColorFormat::Rgba8UnormSrgb);
    assert_eq!(s.present_mode, PresentMode::Mailbox);
    assert_eq!(s.alpha_mode, CompositeAlphaMode::Opaque);
    assert_eq!(s.desired_maximum_frame_latency, 0);
    assert_eq!(s.view_formats, vec![ColorFormat::Rgba8UnormSrgb]);
    assert_eq!(
        s.usage,
        TextureUsages {
            copy_src: false,
            copy_dst: false,
            texture_binding: false,
            storage_binding: false,
            render_attachment: true,
        }
    );
}

#[test]
fn surface_config_edges() {
    let s = get_surface_config(0, 0);
    assert_eq!((s.width, s.height), (0, 0));
    let s = get_surface_config(u32::MAX / 2, 1);
    assert_eq!((s.width, s.height), (u32::MAX - 1, 2));
}

#[test]
fn start_error_tasks_differ() {
    assert_ne!(StartErrorTask::CreateEventLoop, StartErrorTask::RunApp);
    assert_eq!(format!("{:?}", StartErrorTask::RunApp), "RunApp");
}
