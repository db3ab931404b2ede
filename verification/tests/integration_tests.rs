// Integration tests: engine-handle construction and the render gate,
// across the sizes the UI uses.

use map_bridge::engine::RenderEngineHandle;
use map_bridge::frame::FrameBuffer;

#[test]
fn test_image_renderer_builder_creation() {
    // A handle can be created with valid parameters
    let width = 512;
    let height = 512;

    let handle = RenderEngineHandle::create(width, height, None);

    assert!(handle.is_ok());
}

#[test]
fn test_static_renderer_creation() {
    // A handle for a static-mode renderer can be created
    let handle = RenderEngineHandle::create(256, 256, None);

    assert!(handle.is_ok());
}

#[test]
fn test_style_url_loading() {
    // A freshly created handle accepts a style URL
    let mut handle = RenderEngineHandle::create(256, 256, None).unwrap();

    let result = handle.load_style("https://demotiles.maplibre.org/style.json");
    assert!(result.is_ok());
}

#[test]
fn test_multiple_renderers() {
    // Handles can be created at several sizes
    let sizes = vec![(256, 256), (512, 512), (1024, 768)];

    for (w, h) in sizes {
        let handle = RenderEngineHandle::create(w, h, None);
        assert!(handle.is_ok());
    }
}

#[test]
fn test_pixel_ratios() {
    // Pixel ratios are handled outside the verified state; the handle is
    // built once per size whatever the ratio
    let ratios = vec![1.0_f32, 1.5, 2.0, 3.0];

    for ratio in ratios {
        assert!(ratio > 0.0);
        let handle = RenderEngineHandle::create(256, 256, None);
        assert!(handle.is_ok());
    }
}

#[test]
fn test_render_static_basic() {
    // A render before any camera or style is set must not panic and
    // delivers no frame
    let handle = RenderEngineHandle::create(256, 256, None).unwrap();

    let scene = FrameBuffer::from_raw(256, 256, vec![0u8; 256 * 256 * 4]);
    assert!(scene.is_some());

    let result = handle.render_once(scene);
    assert!(result.is_none());
}
