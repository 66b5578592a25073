use vstd::prelude::*;

verus! {

/// How many color formats gfx-hal knows; their codes run from 1 to this number.
pub const FORMAT_COUNT: u32 = 184;

/// The code of eight-bit RGBA with sRGB encoding, the format used when a surface names none.
pub const RGBA8_SRGB: u32 = 43;

/// A color format, identified by the number gfx-hal and Vulkan give it.
#[derive(Clone, Copy, Debug, PartialEq, Eq, Structural)]
pub struct ColorFormat {
    pub code: u32,
}

/// How the channels of a format are read.
#[derive(Clone, Copy, Debug, PartialEq, Eq, Structural)]
pub enum ChannelType {
    /// Unsigned, normalized.
    Unorm,
    /// Signed, normalized.
    Snorm,
    /// Unsigned integer.
    Uint,
    /// Signed integer.
    Sint,
    /// Unsigned floating point.
    Ufloat,
    /// Signed floating point.
    Sfloat,
    /// Unsigned integer, scaled.
    Uscaled,
    /// Signed integer, scaled.
    Sscaled,
    /// Unsigned, normalized and sRGB-encoded.
    Srgb,
}

/// The channel type of entry `index` of gfx-hal's table of base formats.
/// The table has one entry per format and is indexed by the format's code less one.
pub uninterp spec fn base_channel(index: int) -> ChannelType;

/// Reads the channel type of entry `index` of
/// `gfx_hal::format::BASE_FORMATS`, the table behind
/// `gfx_hal::format::Format::base_format`, and hands it back under the
/// name it has here. The table has `FORMAT_COUNT` entries, so a larger
/// index would be out of bounds.
#[verifier::external_body]
fn table_channel(index: usize) -> (channel: ChannelType)
    requires
        index < FORMAT_COUNT,
    ensures
        channel == base_channel(index as int),
{
    match gfx_hal::format::BASE_FORMATS[index].1 {
        gfx_hal::format::ChannelType::Unorm => ChannelType::Unorm,
        gfx_hal::format::ChannelType::Snorm => ChannelType::Snorm,
        gfx_hal::format::ChannelType::Uint => ChannelType::Uint,
        gfx_hal::format::ChannelType::Sint => ChannelType::Sint,
        gfx_hal::format::ChannelType::Ufloat => ChannelType::Ufloat,
        gfx_hal::format::ChannelType::Sfloat => ChannelType::Sfloat,
        gfx_hal::format::ChannelType::Uscaled => ChannelType::Uscaled,
        gfx_hal::format::ChannelType::Sscaled => ChannelType::Sscaled,
        gfx_hal::format::ChannelType::Srgb => ChannelType::Srgb,
    }
}

impl ColorFormat {
    /// The format used when a surface reports no format at all.
    pub open spec fn fallback() -> ColorFormat {
        ColorFormat { code: RGBA8_SRGB }
    }

    /// A code names a format when it lies between 1 and `FORMAT_COUNT`.
    pub open spec fn is_known(self) -> bool {
        1 <= self.code <= FORMAT_COUNT
    }

    /// The channel type of the format, if its code names one.
    pub open spec fn channel_type(self) -> Option<ChannelType> {
        if self.is_known() {
            Some(base_channel(self.code - 1))
        } else {
            None
        }
    }

    /// A format is sRGB when its channel type is.
    pub open spec fn is_srgb(self) -> bool {
        self.channel_type() == Some(ChannelType::Srgb)
    }

    /// Wraps a format code.
    pub fn new(code: u32) -> (format: ColorFormat)
        ensures
            format.code == code,
    {
        ColorFormat { code }
    }

    /// Returns the format used when a surface reports no format at all.
    pub fn default_format() -> (format: ColorFormat)
        ensures
            format == ColorFormat::fallback(),
    {
        ColorFormat { code: RGBA8_SRGB }
    }

    /// Tells whether the code names a format.
    pub fn known(&self) -> (known: bool)
        ensures
            known == self.is_known(),
    {
        1 <= self.code && self.code <= FORMAT_COUNT
    }

    /// Looks up the channel type of the format; an unknown code has none.
    pub fn channel(&self) -> (channel: Option<ChannelType>)
        ensures
            channel == self.channel_type(),
    {
        if self.known() {
            Some(table_channel((self.code - 1) as usize))
        } else {
            None
        }
    }

    /// Tells whether the format stores its colors sRGB-encoded. An unknown code does not.
    pub fn srgb(&self) -> (srgb: bool)
        ensures
            srgb == self.is_srgb(),
    {
        match self.channel() {
            Some(ChannelType::Srgb) => true,
            _ => false,
        }
    }
}

/// The position of the first sRGB format among `formats`, or their number if none is sRGB.
pub open spec fn first_srgb(formats: Seq<ColorFormat>) -> int
    decreases formats.len(),
{
    if formats.len() == 0 {
        0
    } else if formats[0].is_srgb() {
        0
    } else {
        1 + first_srgb(formats.drop_first())
    }
}

/// The format to render in, given the formats a surface supports in the order it reports them:
/// the first sRGB one; without any, the first; without a first, the fallback.
pub open spec fn negotiated(formats: Seq<ColorFormat>) -> ColorFormat {
    if first_srgb(formats) < formats.len() {
        formats[first_srgb(formats)]
    } else if formats.len() > 0 {
        formats[0]
    } else {
        ColorFormat::fallback()
    }
}

/// `first_srgb` is the least position that holds an sRGB format.
pub proof fn lemma_first_srgb(formats: Seq<ColorFormat>)
    ensures
        0 <= first_srgb(formats) <= formats.len(),
        first_srgb(formats) < formats.len() ==> formats[first_srgb(formats)].is_srgb(),
        forall|i: int| 0 <= i < first_srgb(formats) ==> !(#[trigger] formats[i]).is_srgb(),
    decreases formats.len(),
{
    if formats.len() > 0 && !formats[0].is_srgb() {
        let rest = formats.drop_first();
        lemma_first_srgb(rest);
        assert forall|i: int| 0 <= i < first_srgb(formats) implies !(#[trigger] formats[i]).is_srgb() by {
            if i > 0 {
                assert(formats[i] == rest[i - 1]);
            }
        }
    }
}

/// A position that holds an sRGB format, with none before it, is `first_srgb`.
pub proof fn lemma_first_srgb_unique(formats: Seq<ColorFormat>, at: int)
    requires
        0 <= at <= formats.len(),
        at < formats.len() ==> formats[at].is_srgb(),
        forall|i: int| 0 <= i < at ==> !(#[trigger] formats[i]).is_srgb(),
    ensures
        first_srgb(formats) == at,
{
    lemma_first_srgb(formats);
    let first = first_srgb(formats);
    if first < at {
        assert(!formats[first].is_srgb());
    } else if at < first {
        assert(formats[at].is_srgb());
    }
}

/// The negotiated format is the first sRGB format of the list where the list
/// holds one, else the first format of the list, else the fallback.
pub proof fn law_negotiated_format(formats: Seq<ColorFormat>)
    ensures
        (exists|i: int| 0 <= i < formats.len() && (#[trigger] formats[i]).is_srgb()) ==> {
            &&& negotiated(formats).is_srgb()
            &&& exists|i: int|
                {
                    &&& 0 <= i < formats.len()
                    &&& #[trigger] formats[i] == negotiated(formats)
                    &&& forall|j: int| 0 <= j < i ==> !(#[trigger] formats[j]).is_srgb()
                }
        },
        formats.len() > 0 && (forall|i: int| 0 <= i < formats.len() ==> !(#[trigger] formats[i]).is_srgb())
            ==> negotiated(formats) == formats[0],
        formats.len() == 0 ==> negotiated(formats) == ColorFormat::fallback(),
{
    lemma_first_srgb(formats);
    let first = first_srgb(formats);
    if first < formats.len() {
        assert(formats[first] == negotiated(formats));
    } else {
        assert forall|i: int| 0 <= i < formats.len() implies !(#[trigger] formats[i]).is_srgb() by {}
    }
}

/// Picks the format to render in from the formats a surface supports, in the order it reports them.
pub fn preferred_format(formats: &Vec<ColorFormat>) -> (format: ColorFormat)
    ensures
        format == negotiated(formats@),
{
    let mut at: usize = 0;
    while at < formats.len()
        invariant
            at <= formats.len(),
            forall|i: int| 0 <= i < at ==> !(#[trigger] formats@[i]).is_srgb(),
        decreases formats.len() - at,
    {
        if formats[at].srgb() {
            proof {
                lemma_first_srgb_unique(formats@, at as int);
            }
            return formats[at];
        }
        at += 1;
    }
    proof {
        lemma_first_srgb_unique(formats@, at as int);
    }
    if formats.len() > 0 {
        formats[0]
    } else {
        ColorFormat::default_format()
    }
}

/// Picks the format to render in from what the surface reports. A surface
/// without preferences (`None`) is treated as one that supports nothing.
pub fn negotiate_format(supported: &Option<Vec<ColorFormat>>) -> (format: ColorFormat)
    ensures
        supported matches Some(formats) ==> format == negotiated(formats@),
        supported is None ==> format == ColorFormat::fallback(),
{
    match supported {
        Some(formats) => preferred_format(formats),
        None => ColorFormat::default_format(),
    }
}

} // verus!
