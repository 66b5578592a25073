use gfx_hal::format::Format;
use gfx_hal::image::Usage;
use gfx_hal::window as hal;
use render_loop::error::RenderError;
use render_loop::extent::Extent;
use render_loop::format::ColorFormat;
use render_loop::swapchain::{
    configure, SurfaceCapabilities, SwapchainConfig, COMPOSITE_INHERIT, COMPOSITE_OPAQUE,
    COMPOSITE_POSTMULTIPLIED, COMPOSITE_PREMULTIPLIED, PREFERRED_IMAGE_COUNT, PRESENT_FIFO,
    PRESENT_IMMEDIATE, PRESENT_MAILBOX, PRESENT_RELAXED, USAGE_COLOR_ATTACHMENT,
};

fn caps() -> SurfaceCapabilities {
    SurfaceCapabilities {
        min_image_count: 2,
        max_image_count: 8,
        current_extent: None,
        min_extent: Extent::new(1, 1),
        max_extent: Extent::new(4096, 4096),
        max_image_layers: 1,
        usage: USAGE_COLOR_ATTACHMENT,
        present_modes: PRESENT_FIFO,
        composite_alpha_modes: COMPOSITE_OPAQUE,
    }
}

fn format() -> ColorFormat {
    ColorFormat::new(Format::Bgra8Srgb as u32)
}

fn to_hal(caps: &SurfaceCapabilities) -> hal::SurfaceCapabilities {
    hal::SurfaceCapabilities {
        image_count: caps.min_image_count..=caps.max_image_count,
        current_extent: caps
            .current_extent
            .map(|e| hal::Extent2D { width: e.width, height: e.height }),
        extents: hal::Extent2D { width: caps.min_extent.width, height: caps.min_extent.height }
            ..=hal::Extent2D { width: caps.max_extent.width, height: caps.max_extent.height },
        max_image_layers: caps.max_image_layers,
        usage: Usage::from_bits_truncate(caps.usage),
        present_modes: hal::PresentMode::from_bits_truncate(caps.present_modes),
        composite_alpha_modes: hal::CompositeAlphaMode::from_bits_truncate(
            caps.composite_alpha_modes,
        ),
    }
}

fn assert_same_as_gfx_hal(caps: &SurfaceCapabilities, requested: Extent) {
    let ours = configure(caps, format(), requested).unwrap();
    let theirs = hal::SwapchainConfig::from_caps(
        &to_hal(caps),
        Format::Bgra8Srgb,
        hal::Extent2D { width: requested.width, height: requested.height },
    );
    assert_eq!(ours.present_mode, theirs.present_mode.bits());
    assert_eq!(ours.composite_alpha_mode, theirs.composite_alpha_mode.bits());
    assert_eq!(ours.format.code, theirs.format as u32);
    assert_eq!(ours.extent.width, theirs.extent.width);
    assert_eq!(ours.extent.height, theirs.extent.height);
    assert_eq!(ours.image_count, theirs.image_count);
    assert_eq!(ours.image_layers, theirs.image_layers);
    assert_eq!(ours.image_usage, theirs.image_usage.bits());
}

#[test]
fn flag_values_are_those_of_gfx_hal() {
    assert_eq!(PRESENT_IMMEDIATE, hal::PresentMode::IMMEDIATE.bits());
    assert_eq!(PRESENT_MAILBOX, hal::PresentMode::MAILBOX.bits());
    assert_eq!(PRESENT_FIFO, hal::PresentMode::FIFO.bits());
    assert_eq!(PRESENT_RELAXED, hal::PresentMode::RELAXED.bits());
    assert_eq!(COMPOSITE_OPAQUE, hal::CompositeAlphaMode::OPAQUE.bits());
    assert_eq!(COMPOSITE_PREMULTIPLIED, hal::CompositeAlphaMode::PREMULTIPLIED.bits());
    assert_eq!(COMPOSITE_POSTMULTIPLIED, hal::CompositeAlphaMode::POSTMULTIPLIED.bits());
    assert_eq!(COMPOSITE_INHERIT, hal::CompositeAlphaMode::INHERIT.bits());
    assert_eq!(USAGE_COLOR_ATTACHMENT, hal::DEFAULT_USAGE.bits());
    assert_eq!(PREFERRED_IMAGE_COUNT, hal::DEFAULT_IMAGE_COUNT);
}

#[test]
fn configure_gives_the_exact_configuration() {
    let config = configure(&caps(), format(), Extent::new(800, 600)).unwrap();
    assert_eq!(
        config,
        SwapchainConfig {
            present_mode: PRESENT_FIFO,
            composite_alpha_mode: COMPOSITE_OPAQUE,
            format: format(),
            extent: Extent::new(800, 600),
            image_count: 3,
            image_layers: 1,
            image_usage: USAGE_COLOR_ATTACHMENT,
        }
    );
}

#[test]
fn configure_prefers_mailbox_and_inherited_alpha() {
    let mut caps = caps();
    caps.present_modes = PRESENT_IMMEDIATE | PRESENT_MAILBOX | PRESENT_FIFO | PRESENT_RELAXED;
    caps.composite_alpha_modes = COMPOSITE_OPAQUE | COMPOSITE_PREMULTIPLIED | COMPOSITE_INHERIT;
    let config = configure(&caps, format(), Extent::new(640, 480)).unwrap();
    assert_eq!(config.present_mode, PRESENT_MAILBOX);
    assert_eq!(config.composite_alpha_mode, COMPOSITE_INHERIT);
    assert_same_as_gfx_hal(&caps, Extent::new(640, 480));
}

#[test]
fn configure_clamps_the_requested_extent() {
    let mut caps = caps();
    caps.min_extent = Extent::new(100, 200);
    caps.max_extent = Extent::new(1000, 2000);
    let small = configure(&caps, format(), Extent::new(10, 20)).unwrap();
    assert_eq!(small.extent, Extent::new(100, 200));
    let large = configure(&caps, format(), Extent::new(5000, 6000)).unwrap();
    assert_eq!(large.extent, Extent::new(1000, 2000));
    let mixed = configure(&caps, format(), Extent::new(50, 1500)).unwrap();
    assert_eq!(mixed.extent, Extent::new(100, 1500));
    let inside = configure(&caps, format(), Extent::new(640, 480)).unwrap();
    assert_eq!(inside.extent, Extent::new(640, 480));
    for requested in [Extent::new(10, 20), Extent::new(5000, 6000), Extent::new(50, 1500)] {
        assert_same_as_gfx_hal(&caps, requested);
    }
}

#[test]
fn configure_takes_the_current_extent_of_the_surface() {
    let mut caps = caps();
    caps.current_extent = Some(Extent::new(1280, 720));
    let config = configure(&caps, format(), Extent::new(800, 600)).unwrap();
    assert_eq!(config.extent, Extent::new(1280, 720));
    assert_same_as_gfx_hal(&caps, Extent::new(800, 600));
}

#[test]
fn configure_brings_the_image_count_into_range() {
    let mut caps = caps();
    caps.min_image_count = 4;
    caps.max_image_count = 6;
    assert_eq!(configure(&caps, format(), Extent::new(1, 1)).unwrap().image_count, 4);
    caps.min_image_count = 1;
    caps.max_image_count = 2;
    assert_eq!(configure(&caps, format(), Extent::new(1, 1)).unwrap().image_count, 2);
    assert_same_as_gfx_hal(&caps, Extent::new(1, 1));
    caps.min_image_count = 1;
    caps.max_image_count = 3;
    assert_eq!(configure(&caps, format(), Extent::new(1, 1)).unwrap().image_count, 3);
}

#[test]
fn configure_with_an_empty_extent_range_takes_its_upper_end() {
    let mut caps = caps();
    caps.min_extent = Extent::new(500, 500);
    caps.max_extent = Extent::new(100, 100);
    let config = configure(&caps, format(), Extent::new(300, 300)).unwrap();
    assert_eq!(config.extent, Extent::new(100, 100));
    assert_same_as_gfx_hal(&caps, Extent::new(300, 300));
}

#[test]
fn configure_ignores_bits_it_does_not_know() {
    let mut caps = caps();
    caps.present_modes = 0xffff_fff4;
    caps.composite_alpha_modes = 0xffff_fff1;
    caps.usage = 0xffff_ffff;
    let config = configure(&caps, format(), Extent::new(800, 600)).unwrap();
    assert_eq!(config.present_mode, PRESENT_FIFO);
    assert_eq!(config.composite_alpha_mode, COMPOSITE_OPAQUE);
    assert_eq!(config.image_usage, USAGE_COLOR_ATTACHMENT);
}

#[test]
fn configure_fails_without_a_supported_present_mode() {
    let mut caps = caps();
    caps.present_modes = PRESENT_IMMEDIATE | PRESENT_RELAXED;
    assert!(!caps.configurable());
    assert_eq!(
        configure(&caps, format(), Extent::new(800, 600)),
        Err(RenderError::SwapchainConfigureFailed)
    );
}

#[test]
fn configure_fails_without_a_supported_alpha_mode() {
    let mut caps = caps();
    caps.composite_alpha_modes = COMPOSITE_PREMULTIPLIED | COMPOSITE_POSTMULTIPLIED;
    assert!(!caps.configurable());
    assert_eq!(
        configure(&caps, format(), Extent::new(800, 600)),
        Err(RenderError::SwapchainConfigureFailed)
    );
    caps.composite_alpha_modes = 0;
    caps.present_modes = 0;
    assert_eq!(
        configure(&caps, format(), Extent::new(800, 600)),
        Err(RenderError::SwapchainConfigureFailed)
    );
}
