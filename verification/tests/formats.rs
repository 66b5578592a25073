use gfx_hal::format::{ChannelType as HalChannelType, Format, BASE_FORMATS, NUM_FORMATS};
use render_loop::format::{
    negotiate_format, preferred_format, ChannelType, ColorFormat, FORMAT_COUNT, RGBA8_SRGB,
};

fn code(format: Format) -> ColorFormat {
    ColorFormat::new(format as u32)
}

#[test]
fn fallback_is_rgba8_srgb() {
    assert_eq!(RGBA8_SRGB, Format::Rgba8Srgb as u32);
    assert_eq!(RGBA8_SRGB, 43);
    assert_eq!(ColorFormat::default_format(), ColorFormat { code: 43 });
    assert!(ColorFormat::default_format().srgb());
}

#[test]
fn format_count_matches_the_table() {
    assert_eq!(FORMAT_COUNT as usize, BASE_FORMATS.len());
    assert_eq!(FORMAT_COUNT as usize + 1, NUM_FORMATS);
    assert_eq!(Format::Astc12x12Srgb as u32, FORMAT_COUNT);
    assert_eq!(Format::Rg4Unorm as u32, 1);
}

#[test]
fn srgb_follows_the_base_format_of_every_code() {
    let mut found = 0;
    for code in 1..=FORMAT_COUNT {
        let expected = BASE_FORMATS[code as usize - 1].1 == HalChannelType::Srgb;
        assert_eq!(ColorFormat::new(code).srgb(), expected, "code {}", code);
        if expected {
            found += 1;
        }
    }
    assert_eq!(found, 29);
}

#[test]
fn srgb_agrees_with_base_format() {
    let formats = [
        Format::Rg4Unorm,
        Format::R8Srgb,
        Format::Rgba8Unorm,
        Format::Rgba8Srgb,
        Format::Bgra8Unorm,
        Format::Bgra8Srgb,
        Format::Rgba32Sfloat,
        Format::D32Sfloat,
        Format::Bc7Srgb,
        Format::Astc12x12Unorm,
        Format::Astc12x12Srgb,
    ];
    for format in formats {
        let expected = format.base_format().1 == HalChannelType::Srgb;
        assert_eq!(code(format).srgb(), expected, "{:?}", format);
        assert!(code(format).known());
    }
    assert!(code(Format::Bgra8Srgb).srgb());
    assert!(!code(Format::Bgra8Unorm).srgb());
}

fn channel(channel: HalChannelType) -> ChannelType {
    match channel {
        HalChannelType::Unorm => ChannelType::Unorm,
        HalChannelType::Snorm => ChannelType::Snorm,
        HalChannelType::Uint => ChannelType::Uint,
        HalChannelType::Sint => ChannelType::Sint,
        HalChannelType::Ufloat => ChannelType::Ufloat,
        HalChannelType::Sfloat => ChannelType::Sfloat,
        HalChannelType::Uscaled => ChannelType::Uscaled,
        HalChannelType::Sscaled => ChannelType::Sscaled,
        HalChannelType::Srgb => ChannelType::Srgb,
    }
}

#[test]
fn channel_types_are_those_of_the_table() {
    for code in 1..=FORMAT_COUNT {
        let expected = channel(BASE_FORMATS[code as usize - 1].1);
        assert_eq!(ColorFormat::new(code).channel(), Some(expected), "code {}", code);
    }
    assert_eq!(code(Format::Rgba8Unorm).channel(), Some(ChannelType::Unorm));
    assert_eq!(code(Format::Rgba8Snorm).channel(), Some(ChannelType::Snorm));
    assert_eq!(code(Format::Rgba8Uint).channel(), Some(ChannelType::Uint));
    assert_eq!(code(Format::Rgba8Sint).channel(), Some(ChannelType::Sint));
    assert_eq!(code(Format::B10g11r11Ufloat).channel(), Some(ChannelType::Ufloat));
    assert_eq!(code(Format::Rgba32Sfloat).channel(), Some(ChannelType::Sfloat));
    assert_eq!(code(Format::Rgba8Uscaled).channel(), Some(ChannelType::Uscaled));
    assert_eq!(code(Format::Rgba8Sscaled).channel(), Some(ChannelType::Sscaled));
    assert_eq!(code(Format::Rgba8Srgb).channel(), Some(ChannelType::Srgb));
    assert_eq!(
        code(Format::Bgra8Srgb).channel(),
        Some(channel(Format::Bgra8Srgb.base_format().1))
    );
}

#[test]
fn unknown_codes_are_not_srgb() {
    for code in [0, FORMAT_COUNT + 1, 1000, u32::MAX] {
        assert!(!ColorFormat::new(code).known());
        assert_eq!(ColorFormat::new(code).channel(), None);
        assert!(!ColorFormat::new(code).srgb());
    }
}

#[test]
fn negotiation_prefers_the_first_srgb_format() {
    let supported = vec![
        code(Format::Bgra8Unorm),
        code(Format::Rgba8Unorm),
        code(Format::Bgra8Srgb),
        code(Format::Rgba8Srgb),
    ];
    assert_eq!(preferred_format(&supported), code(Format::Bgra8Srgb));
    assert_eq!(negotiate_format(&Some(supported)), code(Format::Bgra8Srgb));
}

#[test]
fn negotiation_keeps_an_srgb_format_in_first_place() {
    let supported = vec![code(Format::Rgba8Srgb), code(Format::Bgra8Srgb)];
    assert_eq!(negotiate_format(&Some(supported)), code(Format::Rgba8Srgb));
}

#[test]
fn negotiation_falls_back_to_the_first_format() {
    let supported = vec![code(Format::Bgra8Unorm), code(Format::Rgba8Unorm)];
    assert_eq!(negotiate_format(&Some(supported)), code(Format::Bgra8Unorm));
}

#[test]
fn negotiation_skips_unknown_codes() {
    let supported = vec![ColorFormat::new(0), ColorFormat::new(9999), code(Format::Bgra8Srgb)];
    assert_eq!(negotiate_format(&Some(supported)), code(Format::Bgra8Srgb));
    let unknown_only = vec![ColorFormat::new(9999), ColorFormat::new(0)];
    assert_eq!(negotiate_format(&Some(unknown_only)), ColorFormat::new(9999));
}

#[test]
fn negotiation_defaults_when_nothing_is_supported() {
    assert_eq!(negotiate_format(&Some(Vec::new())), code(Format::Rgba8Srgb));
    assert_eq!(negotiate_format(&None), code(Format::Rgba8Srgb));
    assert_eq!(preferred_format(&Vec::new()), ColorFormat { code: 43 });
}
