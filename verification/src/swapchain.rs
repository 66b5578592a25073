use crate::error::RenderError;
use crate::extent::Extent;
use crate::format::ColorFormat;
use gfx_hal::format::Format;
use gfx_hal::image::Usage;
use gfx_hal::window as hal;
use gfx_hal::window::{CompositeAlphaMode, Extent2D, PresentMode};
use vstd::prelude::*;

verus! {

/// Presentation mode bit: never wait for the vertical blank.
pub const PRESENT_IMMEDIATE: u32 = 0x1;

/// Presentation mode bit: wait for the vertical blank, replacing the frame that waits.
pub const PRESENT_MAILBOX: u32 = 0x2;

/// Presentation mode bit: present frames in the order they were rendered.
pub const PRESENT_FIFO: u32 = 0x4;

/// Presentation mode bit: as FIFO, but without waiting when a blank was just missed.
pub const PRESENT_RELAXED: u32 = 0x8;

/// Alpha compositing bit: the alpha channel is ignored.
pub const COMPOSITE_OPAQUE: u32 = 0x1;

/// Alpha compositing bit: colors are already multiplied by alpha.
pub const COMPOSITE_PREMULTIPLIED: u32 = 0x2;

/// Alpha compositing bit: the compositor multiplies colors by alpha.
pub const COMPOSITE_POSTMULTIPLIED: u32 = 0x4;

/// Alpha compositing bit: the window system decides.
pub const COMPOSITE_INHERIT: u32 = 0x8;

/// Image usage bit: the image is a color attachment.
pub const USAGE_COLOR_ATTACHMENT: u32 = 0x10;

/// The number of swapchain images asked for where the surface allows it.
pub const PREFERRED_IMAGE_COUNT: u32 = 3;

/// What a surface can do on the chosen adapter, as its capability query reports it.
#[derive(Clone, Copy, Debug, PartialEq, Eq)]
pub struct SurfaceCapabilities {
    /// Fewest images a swapchain may have.
    pub min_image_count: u32,
    /// Most images a swapchain may have.
    pub max_image_count: u32,
    /// The size of the surface, where the surface has one of its own.
    pub current_extent: Option<Extent>,
    /// Smallest supported extent.
    pub min_extent: Extent,
    /// Largest supported extent.
    pub max_extent: Extent,
    /// Most layers an image may have.
    pub max_image_layers: u16,
    /// Supported image usages, as bits.
    pub usage: u32,
    /// Supported presentation modes, as bits.
    pub present_modes: u32,
    /// Supported alpha compositing modes, as bits.
    pub composite_alpha_modes: u32,
}

/// Everything needed to set up the swapchain of a surface.
#[derive(Clone, Copy, Debug, PartialEq, Eq)]
pub struct SwapchainConfig {
    /// The one presentation mode chosen.
    pub present_mode: u32,
    /// The one alpha compositing mode chosen.
    pub composite_alpha_mode: u32,
    /// Format of the images.
    pub format: ColorFormat,
    /// Extent of the images.
    pub extent: Extent,
    /// Number of images.
    pub image_count: u32,
    /// Layers per image.
    pub image_layers: u16,
    /// Usage of the images, as bits.
    pub image_usage: u32,
}

/// Whether every bit of `flag` is set in `bits`.
pub open spec fn has_flag(bits: u32, flag: u32) -> bool {
    bits & flag == flag
}

/// `value` raised to `lowest` and then capped at `highest`.
pub open spec fn clamped(value: u32, lowest: u32, highest: u32) -> u32 {
    let raised = if value < lowest { lowest } else { value };
    if highest < raised { highest } else { raised }
}

impl SurfaceCapabilities {
    /// A swapchain can be derived when the surface composes opaquely or by
    /// inheritance and presents in mailbox or FIFO mode.
    pub open spec fn can_configure(self) -> bool {
        &&& has_flag(self.composite_alpha_modes, COMPOSITE_INHERIT) || has_flag(
            self.composite_alpha_modes,
            COMPOSITE_OPAQUE,
        )
        &&& has_flag(self.present_modes, PRESENT_MAILBOX) || has_flag(self.present_modes, PRESENT_FIFO)
    }

    /// The extent a swapchain gets when `requested` is asked for: the
    /// surface's own size where it has one, else the request brought into
    /// the supported range, each dimension by itself.
    pub open spec fn actual_extent(self, requested: Extent) -> Extent {
        match self.current_extent {
            Some(current) => current,
            None => Extent {
                width: clamped(requested.width, self.min_extent.width, self.max_extent.width),
                height: clamped(requested.height, self.min_extent.height, self.max_extent.height),
            },
        }
    }

    /// The configuration derived from these capabilities: inherited
    /// compositing before opaque, mailbox before FIFO, the preferred image
    /// count brought into the supported range, one layer, color attachment usage.
    pub open spec fn derive_config(self, format: ColorFormat, requested: Extent) -> SwapchainConfig {
        SwapchainConfig {
            present_mode: if has_flag(self.present_modes, PRESENT_MAILBOX) {
                PRESENT_MAILBOX
            } else {
                PRESENT_FIFO
            },
            composite_alpha_mode: if has_flag(self.composite_alpha_modes, COMPOSITE_INHERIT) {
                COMPOSITE_INHERIT
            } else {
                COMPOSITE_OPAQUE
            },
            format,
            extent: self.actual_extent(requested),
            image_count: clamped(PREFERRED_IMAGE_COUNT, self.min_image_count, self.max_image_count),
            image_layers: 1,
            image_usage: USAGE_COLOR_ATTACHMENT,
        }
    }

    /// Tells whether a swapchain can be derived from these capabilities.
    pub fn configurable(&self) -> (able: bool)
        ensures
            able == self.can_configure(),
    {
        let composes: bool = self.composite_alpha_modes & COMPOSITE_INHERIT == COMPOSITE_INHERIT
            || self.composite_alpha_modes & COMPOSITE_OPAQUE == COMPOSITE_OPAQUE;
        let presents: bool = self.present_modes & PRESENT_MAILBOX == PRESENT_MAILBOX
            || self.present_modes & PRESENT_FIFO == PRESENT_FIFO;
        composes && presents
    }
}

/// Calls `gfx_hal::window::SwapchainConfig::from_caps` on these capabilities
/// and hands its result back field by field. gfx-hal panics unless the surface
/// composes by inheritance or opaquely and presents in mailbox or FIFO mode;
/// otherwise it prefers inheritance and mailbox, takes the surface's current
/// extent or else clamps the request into the supported range, clamps three
/// images into the supported count, and fixes one layer and color attachment
/// usage. It copies the format it is given into its result untouched; no
/// gfx-hal format can be made from a code, so the call is given a fixed
/// format and the result carries `format` in its place.
#[verifier::external_body]
fn config_from_caps(caps: &SurfaceCapabilities, format: ColorFormat, requested: Extent) -> (config:
    SwapchainConfig)
    requires
        caps.can_configure(),
    ensures
        config == caps.derive_config(format, requested),
{
    let ext = |e: Extent| Extent2D { width: e.width, height: e.height };
    let hal_caps = hal::SurfaceCapabilities {
        image_count: caps.min_image_count..=caps.max_image_count,
        current_extent: caps.current_extent.map(ext),
        extents: ext(caps.min_extent)..=ext(caps.max_extent),
        max_image_layers: caps.max_image_layers,
        usage: Usage::from_bits_truncate(caps.usage),
        present_modes: PresentMode::from_bits_truncate(caps.present_modes),
        composite_alpha_modes: CompositeAlphaMode::from_bits_truncate(caps.composite_alpha_modes),
    };
    let c = hal::SwapchainConfig::from_caps(&hal_caps, Format::Rgba8Srgb, ext(requested));
    SwapchainConfig {
        present_mode: c.present_mode.bits(), composite_alpha_mode: c.composite_alpha_mode.bits(), format,
        extent: Extent { width: c.extent.width, height: c.extent.height }, image_count: c.image_count,
        image_layers: c.image_layers, image_usage: c.image_usage.bits() }
}

/// Derives the swapchain configuration for a surface with capabilities
/// `caps`, to be rendered in `format` at the extent `requested`. The extent
/// of the result is the one the surface will really have.
pub fn configure(caps: &SurfaceCapabilities, format: ColorFormat, requested: Extent) -> (outcome: Result<
    SwapchainConfig,
    RenderError,
>)
    ensures
        caps.can_configure() ==> outcome == Ok::<SwapchainConfig, RenderError>(
            caps.derive_config(format, requested),
        ),
        !caps.can_configure() ==> outcome == Err::<SwapchainConfig, RenderError>(
            RenderError::SwapchainConfigureFailed,
        ),
{
    if caps.configurable() {
        Ok(config_from_caps(caps, format, requested))
    } else {
        Err(RenderError::SwapchainConfigureFailed)
    }
}

} // verus!
