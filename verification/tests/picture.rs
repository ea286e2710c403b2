use shader_preview::ogl::ChannelCount;
use shader_preview::ogl::Image;
use shader_preview::ogl::TextureComponentDataType;
use shader_preview::picture::PictureData;
use shader_preview::picture::PictureError;
use shader_preview::picture::PixelData;
use shader_preview::watcher::refresh;
use shader_preview::watcher::FileEvent;

#[test]
fn channel_counts_from_one_to_four() {
    assert_eq!(ChannelCount::try_from(1), Ok(ChannelCount::One));
    assert_eq!(ChannelCount::try_from(2), Ok(ChannelCount::Two));
    assert_eq!(ChannelCount::try_from(3), Ok(ChannelCount::Three));
    assert_eq!(ChannelCount::try_from(4), Ok(ChannelCount::Four));
    assert_eq!(ChannelCount::try_from(0), Err(PictureError::UnsupportedChannelCount(0)));
    assert_eq!(ChannelCount::try_from(5), Err(PictureError::UnsupportedChannelCount(5)));
    assert_eq!(ChannelCount::try_from(255), Err(PictureError::UnsupportedChannelCount(255)));
    for number in 1..=4u8 {
        assert_eq!(ChannelCount::try_from(number).unwrap().count(), number);
    }
}

#[test]
fn picture_error_messages() {
    assert_eq!(PictureError::IO(String::from("No such file")).message(), "No such file");
    assert_eq!(PictureError::ImageError(String::from("bad header")).message(), "bad header");
    assert_eq!(PictureError::UnsupportedChannelCount(0).message(), "Unsupported channel count 0");
    assert_eq!(PictureError::UnsupportedChannelCount(7).message(), "Unsupported channel count 7");
    assert_eq!(PictureError::UnsupportedChannelCount(10).message(), "Unsupported channel count 10");
    assert_eq!(PictureError::UnsupportedChannelCount(99).message(), "Unsupported channel count 99");
    assert_eq!(PictureError::UnsupportedChannelCount(100).message(), "Unsupported channel count 100");
    assert_eq!(PictureError::UnsupportedChannelCount(205).message(), "Unsupported channel count 205");
    assert_eq!(PictureError::UnsupportedChannelCount(255).message(), "Unsupported channel count 255");
    assert_eq!(PictureError::UnsupportedImageFormat.message(), "Unsupported image format");
    assert_eq!(PictureError::UnsupportedPixelFormat.message(), "Unsupported pixel format");
}

#[test]
fn picture_becomes_an_image_of_its_depth() {
    let picture = PictureData::new(PixelData::EightBit(vec![1, 2, 3]), [1, 1], 3).unwrap();
    assert_eq!(picture.channels, ChannelCount::Three);
    assert_eq!(
        picture.into_image(),
        Image {
            data: Some(vec![1, 2, 3]),
            resolution: [1, 1],
            channels: ChannelCount::Three,
            component: TextureComponentDataType::UnsignedByte,
        }
    );
    let picture = PictureData::new(PixelData::SixteenBit(vec![1, 2]), [1, 1], 1).unwrap();
    assert_eq!(
        picture.into_image(),
        Image {
            data: Some(vec![1, 2]),
            resolution: [1, 1],
            channels: ChannelCount::One,
            component: TextureComponentDataType::UnsignedShort,
        }
    );
    let picture = PictureData::new(PixelData::ThirtyTwoBit(vec![0; 32]), [2, 1], 4).unwrap();
    assert_eq!(
        picture.into_image(),
        Image {
            data: Some(vec![0; 32]),
            resolution: [2, 1],
            channels: ChannelCount::Four,
            component: TextureComponentDataType::Float,
        }
    );
}

#[test]
fn picture_with_too_many_channels_is_refused() {
    assert_eq!(
        PictureData::new(PixelData::EightBit(vec![0; 5]), [1, 1], 5),
        Err(PictureError::UnsupportedChannelCount(5))
    );
    assert_eq!(
        PictureData::new(PixelData::ThirtyTwoBit(Vec::new()), [0, 0], 0),
        Err(PictureError::UnsupportedChannelCount(0))
    );
}

#[test]
fn changed_content_asks_for_a_reload() {
    assert!(refresh(Some(FileEvent::Write)));
    assert!(!refresh(None));
    assert!(FileEvent::Write.handled());
    assert!(!FileEvent::Remove.handled());
    assert!(!FileEvent::Rename(String::from("elsewhere.glsl")).handled());
}
