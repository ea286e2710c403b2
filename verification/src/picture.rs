//! Pictures for textures, as the loader hands them over: samples at one of
//! three depths, one to four channels, row 0 at the bottom.

use crate::ogl::ChannelCount;
use crate::ogl::TextureComponentDataType;
use crate::ogl::Image;
use crate::ogl::ImageView;
use crate::text::ascii_chars;
use crate::text::ascii_string;
use vstd::prelude::*;
use vstd::string::StringExecFns;

verus! {

/// Why a picture cannot be had.
#[derive(Debug, PartialEq, Eq)]
pub enum PictureError {
    /// The file cannot be read; what the system says.
    IO(String),
    /// The file cannot be decoded; what the decoder says.
    ImageError(String),
    UnsupportedChannelCount(u8),
    UnsupportedImageFormat,
    UnsupportedPixelFormat,
}

pub type PictureResult<T> = Result<T, PictureError>;

/// The decimal digits of a number, as bytes.
pub open spec fn decimal(number: nat) -> Seq<u8>
    decreases number,
{
    if number < 10 {
        seq![(48 + number) as u8]
    } else {
        decimal(number / 10).push((48 + number % 10) as u8)
    }
}

/// The decimal digits of a number.
fn digits(number: u8) -> (text: String)
    ensures
        text@ == ascii_chars(decimal(number as nat)),
{
    let mut bytes: Vec<u8> = Vec::new();
    if number >= 100 {
        bytes.push(48 + number / 100);
    }
    if number >= 10 {
        bytes.push(48 + (number / 10) % 10);
    }
    bytes.push(48 + number % 10);
    proof {
        let n = number as nat;
        if n >= 100 {
            assert(decimal(n / 100) =~= seq![(48 + n / 100) as u8]);
            assert(n / 10 / 10 == n / 100);
            assert(decimal(n / 10) =~= decimal(n / 100).push((48 + (n / 10) % 10) as u8));
            assert(bytes@ =~= decimal(n));
        } else if n >= 10 {
            assert(decimal(n / 10) =~= seq![(48 + n / 10) as u8]);
            assert(bytes@ =~= decimal(n));
        } else {
            assert(bytes@ =~= decimal(n));
        }
    }
    ascii_string(bytes)
}

impl PictureError {
    /// The message that tells the user what is wrong.
    pub open spec fn text(&self) -> Seq<char> {
        match self {
            PictureError::IO(error) => error@,
            PictureError::ImageError(error) => error@,
            PictureError::UnsupportedChannelCount(count) => "Unsupported channel count "@
                + ascii_chars(decimal(*count as nat)),
            PictureError::UnsupportedImageFormat => "Unsupported image format"@,
            PictureError::UnsupportedPixelFormat => "Unsupported pixel format"@,
        }
    }

    pub fn message(&self) -> (text: String)
        ensures
            text@ == self.text(),
    {
        match self {
            PictureError::IO(error) => error.clone(),
            PictureError::ImageError(error) => error.clone(),
            PictureError::UnsupportedChannelCount(count) => {
                let mut text = String::from_str("Unsupported channel count ");
                let number = digits(*count);
                text.append(number.as_str());
                text
            },
            PictureError::UnsupportedImageFormat => String::from_str("Unsupported image format"),
            PictureError::UnsupportedPixelFormat => String::from_str("Unsupported pixel format"),
        }
    }
}

impl ChannelCount {
    /// The channel count for a number of channels from 1 to 4.
    pub fn try_from(number: u8) -> (count: PictureResult<Self>)
        ensures
            1 <= number <= 4 ==> (count matches Ok(channels) && channels.spec_count() == number),
            !(1 <= number <= 4) ==> count == Err::<Self, PictureError>(
                PictureError::UnsupportedChannelCount(number),
            ),
    {
        if number == 1 {
            Ok(ChannelCount::One)
        } else if number == 2 {
            Ok(ChannelCount::Two)
        } else if number == 3 {
            Ok(ChannelCount::Three)
        } else if number == 4 {
            Ok(ChannelCount::Four)
        } else {
            Err(PictureError::UnsupportedChannelCount(number))
        }
    }
}

/// The samples of a picture, as the bytes that the graphics backend takes:
/// one byte, two bytes or four bytes a sample, the four being a
/// floating-point number.
#[derive(Debug, PartialEq, Eq)]
pub enum PixelData {
    EightBit(Vec<u8>),
    SixteenBit(Vec<u8>),
    ThirtyTwoBit(Vec<u8>),
}

/// A decoded picture.
#[derive(Debug, PartialEq, Eq)]
pub struct PictureData {
    pub pixel_data: PixelData,
    pub resolution: [u32; 2],
    pub channels: ChannelCount,
}

impl PictureData {
    /// The picture as an image for a texture.
    pub open spec fn image(&self) -> ImageView {
        ImageView {
            data: Some(
                match self.pixel_data {
                    PixelData::EightBit(data) => data@,
                    PixelData::SixteenBit(data) => data@,
                    PixelData::ThirtyTwoBit(data) => data@,
                },
            ),
            resolution: (self.resolution@[0], self.resolution@[1]),
            channels: self.channels,
            component: match self.pixel_data {
                PixelData::EightBit(_) => TextureComponentDataType::UnsignedByte,
                PixelData::SixteenBit(_) => TextureComponentDataType::UnsignedShort,
                PixelData::ThirtyTwoBit(_) => TextureComponentDataType::Float,
            },
        }
    }

    /// Puts a decoded picture together, if it has one to four channels.
    pub fn new(pixel_data: PixelData, resolution: [u32; 2], channel_count: u8) -> (picture:
        PictureResult<Self>)
        ensures
            1 <= channel_count <= 4 ==> (picture matches Ok(made) && made.pixel_data == pixel_data
                && made.resolution == resolution && made.channels.spec_count() == channel_count),
            !(1 <= channel_count <= 4) ==> picture == Err::<Self, PictureError>(
                PictureError::UnsupportedChannelCount(channel_count),
            ),
    {
        match ChannelCount::try_from(channel_count) {
            Ok(channels) => Ok(PictureData { pixel_data, resolution, channels }),
            Err(error) => Err(error),
        }
    }

    /// The picture as an image for a texture: the samples are unsigned bytes,
    /// unsigned shorts or floats, by their depth.
    pub fn into_image(self) -> (image: Image)
        ensures
            image@ == self.image(),
    {
        match self.pixel_data {
            PixelData::EightBit(data) => Image {
                data: Some(data),
                resolution: self.resolution,
                channels: self.channels,
                component: TextureComponentDataType::UnsignedByte,
            },
            PixelData::SixteenBit(data) => Image {
                data: Some(data),
                resolution: self.resolution,
                channels: self.channels,
                component: TextureComponentDataType::UnsignedShort,
            },
            PixelData::ThirtyTwoBit(data) => Image {
                data: Some(data),
                resolution: self.resolution,
                channels: self.channels,
                component: TextureComponentDataType::Float,
            },
        }
    }
}

} // verus!
