use qubicon_vulkan::format_attributes::{Channel, Pack, Space};

#[test]
fn packs_parse_and_print() {
    assert_eq!("PACK8".parse::<Pack>(), Ok(Pack::P8));
    assert_eq!(Pack::parse("PACK16"), Ok(Pack::P16));
    assert_eq!(Pack::parse("PACK32"), Ok(Pack::P32));
    assert_eq!(Pack::parse("BLOCK"), Ok(Pack::Block));
    assert_eq!(Pack::parse("PACK64"), Err(()));
    assert_eq!(Pack::parse(""), Err(()));
    assert_eq!(Pack::P32.name(), "Pack32");
    assert_eq!(Pack::Block.name(), "Block");
}

#[test]
fn spaces_parse_and_print() {
    let all = [
        ("UNORM", Space::Unorm, "Unorm"),
        ("SNORM", Space::Snorm, "Snorm"),
        ("USCALED", Space::UScaled, "UScaled"),
        ("SSCALED", Space::SScaled, "SScaled"),
        ("UINT", Space::UInt, "UInt"),
        ("SINT", Space::SInt, "SInt"),
        ("SFLOAT", Space::SFloat, "SFloat"),
        ("SRGB", Space::SRGB, "SRGB"),
    ];
    for (text, space, name) in all {
        assert_eq!(Space::parse(text), Ok(space));
        assert_eq!(text.parse::<Space>(), Ok(space));
        assert_eq!(space.name(), name);
    }
    assert_eq!(Space::parse("unorm"), Err(()));
}

#[test]
fn channels_parse_and_print() {
    assert_eq!(Channel::from_char('A'), Ok(Channel::Alpha));
    assert_eq!(Channel::from_char('E'), Ok(Channel::Exponent));
    assert_eq!(Channel::from_char('X'), Err(()));
    assert_eq!(Channel::parse("R8"), Ok(Channel::Red));
    assert_eq!("D24".parse::<Channel>(), Ok(Channel::Depth));
    assert_eq!(Channel::parse(""), Err(()));
    assert_eq!(Channel::Stencil.name(), "S");
    assert_eq!(Channel::Green.name(), "G");
}

use qubicon_vulkan::generate_formats::{
    generate_formats_from_def_list, resolve, ChannelBits, ChannelScalar, Format,
};

fn ch(ty: Channel, bits: u8) -> ChannelBits {
    ChannelBits { ty, bits }
}

#[test]
fn format_names_give_channels_space_and_pack() {
    let f = Format::from_name("R8G8B8A8_UNORM".to_string()).unwrap();
    assert_eq!(f.format_def_lit, "R8G8B8A8_UNORM");
    assert_eq!(
        f.channel_list,
        vec![ch(Channel::Red, 8), ch(Channel::Green, 8), ch(Channel::Blue, 8), ch(Channel::Alpha, 8)]
    );
    assert_eq!(f.space, Space::Unorm);
    assert_eq!(f.pack, None);
    assert_eq!(f.size(), 4);

    let f = Format::from_name("A2R10G10B10_SNORM_PACK32".to_string()).unwrap();
    assert_eq!(
        f.channel_list,
        vec![ch(Channel::Alpha, 2), ch(Channel::Red, 10), ch(Channel::Green, 10), ch(Channel::Blue, 10)]
    );
    assert_eq!(f.space, Space::Snorm);
    assert_eq!(f.pack, Some(Pack::P32));
    assert_eq!(f.size(), 4);

    let f = Format::from_name("R4G4_UNORM_PACK8".to_string()).unwrap();
    assert_eq!(f.size(), 1);
    assert_eq!(f.pack, Some(Pack::P8));
}

#[test]
fn combined_depth_stencil_names_keep_the_first_part() {
    let f = Format::from_name("D32_SFLOAT_S8_UINT".to_string()).unwrap();
    assert_eq!(f.channel_list, vec![ch(Channel::Depth, 32)]);
    assert_eq!(f.space, Space::SFloat);
    // `S8` is no packing.
    assert_eq!(f.pack, None);
    assert_eq!(f.size(), 4);
}

#[test]
fn names_that_are_no_format_are_refused() {
    assert!(Format::from_name("UNDEFINED".to_string()).is_err());
    assert!(Format::from_name("BC1_RGB_UNORM_BLOCK".to_string()).is_err());
    assert!(Format::from_name("B10G11R11_UFLOAT_PACK32".to_string()).is_err());
    assert!(Format::from_name("R8G8".to_string()).is_err());
    assert!(Format::from_name("R256_UINT".to_string()).is_err());
    assert!(Format::from_name("_UINT".to_string()).is_err());
    assert!(Format::from_name("".to_string()).is_err());
    let f = Format::from_name("R255_UINT".to_string()).unwrap();
    assert_eq!(f.channel_list, vec![ch(Channel::Red, 255)]);
}

#[test]
fn aspect_follows_the_last_depth_stencil_or_color_channel() {
    let color = Format::from_name("B8G8R8A8_SRGB".to_string()).unwrap();
    assert_eq!(color.aspect_flags(), qubicon_vulkan::memory::resources::image_view::ImageAspect::COLOR());
    let depth = Format::from_name("D16_UNORM".to_string()).unwrap();
    assert_eq!(depth.aspect_flags(), qubicon_vulkan::memory::resources::image_view::ImageAspect::DEPTH());
    let stencil = Format::from_name("S8_UINT".to_string()).unwrap();
    assert_eq!(stencil.aspect_flags(), qubicon_vulkan::memory::resources::image_view::ImageAspect::STENCIL());
    let depth_then_stencil = Format::from_name("D24S8_UNORM".to_string()).unwrap();
    assert_eq!(
        depth_then_stencil.aspect_flags(),
        qubicon_vulkan::memory::resources::image_view::ImageAspect::STENCIL()
    );
    let depth_then_exponent = Format::from_name("D16E5_UNORM".to_string()).unwrap();
    assert_eq!(
        depth_then_exponent.aspect_flags(),
        qubicon_vulkan::memory::resources::image_view::ImageAspect::DEPTH()
    );
}

#[test]
fn def_list_keeps_the_formats_in_order() {
    let names = vec![
        "UNDEFINED".to_string(),
        "R8_UINT".to_string(),
        "BC1_RGB_UNORM_BLOCK".to_string(),
        "R16G16_SFLOAT".to_string(),
    ];
    let formats = generate_formats_from_def_list(&names);
    assert_eq!(formats.len(), 2);
    assert_eq!(formats[0].format_def_lit, "R8_UINT");
    assert_eq!(formats[1].format_def_lit, "R16G16_SFLOAT");
    assert_eq!(formats[1].size(), 4);
}

#[test]
fn channel_types_resolve_by_space_and_width() {
    assert_eq!(resolve(Space::Unorm, 8), Some(ChannelScalar::U8));
    assert_eq!(resolve(Space::UInt, 32), Some(ChannelScalar::U32));
    assert_eq!(resolve(Space::UScaled, 16), Some(ChannelScalar::U16));
    assert_eq!(resolve(Space::SInt, 16), Some(ChannelScalar::I16));
    assert_eq!(resolve(Space::Snorm, 8), Some(ChannelScalar::I8));
    assert_eq!(resolve(Space::SScaled, 32), Some(ChannelScalar::I32));
    assert_eq!(resolve(Space::SFloat, 32), Some(ChannelScalar::F32));
    assert_eq!(resolve(Space::SRGB, 16), Some(ChannelScalar::Half16));
    assert_eq!(resolve(Space::SFloat, 8), None);
    assert_eq!(resolve(Space::UInt, 24), None);
}
