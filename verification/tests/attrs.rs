use alto::attrs::{
    alc_bool, context_attrs_list, handed_list, loopback_attrs_list, ContextAttrs, LoopbackAttrs,
    LoopbackFormatChannels, LoopbackFormatType,
};
use alto::consts::{
    ALC_FALSE, ALC_FREQUENCY, ALC_MONO_SOURCES, ALC_REFRESH, ALC_STEREO_SOURCES, ALC_TRUE,
};
use alto::error::AltoError;
use alto::ext::{Alc, Binding, ExtensionDescriptor, Resolution, Symbol};
use alto::frame::{Float32, Frame, LoopbackFrame, Mc51, Mc61, Mc71, Mono, Quad, Stereo};

const HRTF_KEY: i32 = 0x1992;
const HRTF_ID_KEY: i32 = 0x1996;
const CHANNELS_KEY: i32 = 0x1990;
const TYPE_KEY: i32 = 0x1991;

fn no_attrs() -> ContextAttrs {
    ContextAttrs {
        frequency: None,
        refresh: None,
        mono_sources: None,
        stereo_sources: None,
        soft_hrtf: None,
        soft_hrtf_id: None,
    }
}

fn hrtf() -> Resolution {
    let mut d = ExtensionDescriptor::new();
    d.bind(Symbol::HrtfSoft, Binding::Constant(HRTF_KEY));
    d.bind(Symbol::HrtfIdSoft, Binding::Constant(HRTF_ID_KEY));
    Ok(d)
}

fn no_hrtf() -> Resolution {
    Err(AltoError::AlcExtensionNotPresent(Alc::SoftHrtf))
}

fn loopback() -> ExtensionDescriptor {
    let mut d = ExtensionDescriptor::new();
    d.bind(Symbol::FormatChannelsSoft, Binding::Constant(CHANNELS_KEY));
    d.bind(Symbol::FormatTypeSoft, Binding::Constant(TYPE_KEY));
    d.bind(Symbol::MonoSoft, Binding::Constant(0x1500));
    d.bind(Symbol::StereoSoft, Binding::Constant(0x1501));
    d.bind(Symbol::QuadSoft, Binding::Constant(0x1503));
    d.bind(Symbol::Mc51Soft, Binding::Constant(0x1504));
    d.bind(Symbol::Mc61Soft, Binding::Constant(0x1505));
    d.bind(Symbol::Mc71Soft, Binding::Constant(0x1506));
    d.bind(Symbol::UnsignedByteSoft, Binding::Constant(0x1401));
    d.bind(Symbol::ShortSoft, Binding::Constant(0x1402));
    d.bind(Symbol::FloatSoft, Binding::Constant(0x1406));
    d
}

#[test]
fn frequency_alone_gives_one_pair_and_the_zero() {
    let attrs = ContextAttrs { frequency: Some(44100), ..no_attrs() };
    assert_eq!(context_attrs_list(Some(attrs), &hrtf()), Ok(vec![ALC_FREQUENCY, 44100, 0]));
    assert_eq!(context_attrs_list(Some(attrs), &no_hrtf()), Ok(vec![0x1007, 44100, 0]));
}

#[test]
fn no_attributes_give_an_empty_list() {
    assert_eq!(context_attrs_list(None, &hrtf()), Ok(vec![]));
    assert_eq!(context_attrs_list(None, &no_hrtf()), Ok(vec![]));
}

#[test]
fn attributes_with_nothing_set_give_only_the_zero() {
    assert_eq!(context_attrs_list(Some(no_attrs()), &hrtf()), Ok(vec![0]));
}

#[test]
fn every_attribute_set_gives_six_pairs_in_order() {
    let attrs = ContextAttrs {
        frequency: Some(48000),
        refresh: Some(60),
        mono_sources: Some(255),
        stereo_sources: Some(16),
        soft_hrtf: Some(true),
        soft_hrtf_id: Some(3),
    };
    assert_eq!(
        context_attrs_list(Some(attrs), &hrtf()),
        Ok(vec![
            ALC_FREQUENCY,
            48000,
            ALC_REFRESH,
            60,
            ALC_MONO_SOURCES,
            255,
            ALC_STEREO_SOURCES,
            16,
            HRTF_KEY,
            ALC_TRUE,
            HRTF_ID_KEY,
            3,
            0
        ])
    );
}

#[test]
fn hrtf_options_are_left_out_without_the_extension() {
    let attrs = ContextAttrs {
        refresh: Some(50),
        soft_hrtf: Some(true),
        soft_hrtf_id: Some(1),
        ..no_attrs()
    };
    assert_eq!(context_attrs_list(Some(attrs), &no_hrtf()), Ok(vec![ALC_REFRESH, 50, 0]));
}

#[test]
fn hrtf_off_is_written_as_native_false() {
    let attrs = ContextAttrs { soft_hrtf: Some(false), ..no_attrs() };
    assert_eq!(context_attrs_list(Some(attrs), &hrtf()), Ok(vec![HRTF_KEY, ALC_FALSE, 0]));
    assert_eq!(alc_bool(true), 1);
    assert_eq!(alc_bool(false), 0);
}

#[test]
fn a_missing_hrtf_key_fails_only_where_the_option_is_set() {
    let mut d = ExtensionDescriptor::new();
    d.bind(Symbol::HrtfIdSoft, Binding::Constant(HRTF_ID_KEY));
    let only_id: Resolution = Ok(d);
    let wants_flag = ContextAttrs { soft_hrtf: Some(true), soft_hrtf_id: Some(2), ..no_attrs() };
    assert_eq!(
        context_attrs_list(Some(wants_flag), &only_id),
        Err(AltoError::AlcSymbolNotPresent(Symbol::HrtfSoft))
    );
    let wants_id = ContextAttrs { soft_hrtf_id: Some(2), ..no_attrs() };
    assert_eq!(context_attrs_list(Some(wants_id), &only_id), Ok(vec![HRTF_ID_KEY, 2, 0]));
    let empty: Resolution = Ok(ExtensionDescriptor::new());
    assert_eq!(
        context_attrs_list(Some(wants_id), &empty),
        Err(AltoError::AlcSymbolNotPresent(Symbol::HrtfIdSoft))
    );
    assert_eq!(
        context_attrs_list(Some(wants_flag), &empty),
        Err(AltoError::AlcSymbolNotPresent(Symbol::HrtfSoft))
    );
}

#[test]
fn loopback_list_opens_with_frequency_layout_and_type() {
    let list =
        loopback_attrs_list::<Frame<Stereo, i16>>(44100, None, &Ok(loopback()), &no_hrtf());
    assert_eq!(
        list,
        Ok(vec![ALC_FREQUENCY, 44100, CHANNELS_KEY, 0x1501, TYPE_KEY, 0x1402, 0])
    );
}

#[test]
fn loopback_list_takes_the_optional_attributes() {
    let attrs = LoopbackAttrs {
        mono_sources: Some(8),
        stereo_sources: Some(2),
        soft_hrtf: Some(true),
        soft_hrtf_id: Some(0),
    };
    let list =
        loopback_attrs_list::<Frame<Mono, u8>>(22050, Some(attrs), &Ok(loopback()), &hrtf());
    assert_eq!(
        list,
        Ok(vec![
            ALC_FREQUENCY,
            22050,
            CHANNELS_KEY,
            0x1500,
            TYPE_KEY,
            0x1401,
            ALC_MONO_SOURCES,
            8,
            ALC_STEREO_SOURCES,
            2,
            HRTF_KEY,
            1,
            HRTF_ID_KEY,
            0,
            0
        ])
    );
}

#[test]
fn loopback_list_needs_the_loopback_extension() {
    let missing = AltoError::AlcExtensionNotPresent(Alc::SoftLoopback);
    assert_eq!(
        loopback_attrs_list::<Frame<Mono, u8>>(44100, None, &Err(missing), &hrtf()),
        Err(missing)
    );
}

#[test]
fn loopback_list_names_the_first_missing_constant() {
    let empty = ExtensionDescriptor::new();
    assert_eq!(
        loopback_attrs_list::<Frame<Quad, Float32>>(44100, None, &Ok(empty), &hrtf()),
        Err(AltoError::AlcSymbolNotPresent(Symbol::FormatChannelsSoft))
    );
    let mut keys = ExtensionDescriptor::new();
    keys.bind(Symbol::FormatChannelsSoft, Binding::Constant(CHANNELS_KEY));
    assert_eq!(
        loopback_attrs_list::<Frame<Quad, Float32>>(44100, None, &Ok(keys), &hrtf()),
        Err(AltoError::AlcSymbolNotPresent(Symbol::QuadSoft))
    );
    keys.bind(Symbol::QuadSoft, Binding::Constant(0x1503));
    assert_eq!(
        loopback_attrs_list::<Frame<Quad, Float32>>(44100, None, &Ok(keys), &hrtf()),
        Err(AltoError::AlcSymbolNotPresent(Symbol::FormatTypeSoft))
    );
    keys.bind(Symbol::FormatTypeSoft, Binding::Constant(TYPE_KEY));
    assert_eq!(
        loopback_attrs_list::<Frame<Quad, Float32>>(44100, None, &Ok(keys), &hrtf()),
        Err(AltoError::AlcSymbolNotPresent(Symbol::FloatSoft))
    );
    keys.bind(Symbol::FloatSoft, Binding::Constant(0x1406));
    assert_eq!(
        loopback_attrs_list::<Frame<Quad, Float32>>(44100, None, &Ok(keys), &hrtf()),
        Ok(vec![ALC_FREQUENCY, 44100, CHANNELS_KEY, 0x1503, TYPE_KEY, 0x1406, 0])
    );
}

#[test]
fn every_layout_reports_its_own_constant() {
    let asl = loopback();
    assert_eq!(LoopbackFormatChannels::Mono.constant(&asl), Ok(0x1500));
    assert_eq!(LoopbackFormatChannels::Stereo.constant(&asl), Ok(0x1501));
    assert_eq!(LoopbackFormatChannels::Quad.constant(&asl), Ok(0x1503));
    assert_eq!(LoopbackFormatChannels::Mc51.constant(&asl), Ok(0x1504));
    assert_eq!(LoopbackFormatChannels::Mc61.constant(&asl), Ok(0x1505));
    assert_eq!(LoopbackFormatChannels::Mc71.constant(&asl), Ok(0x1506));
    assert_eq!(LoopbackFormatType::U8.constant(&asl), Ok(0x1401));
    assert_eq!(LoopbackFormatType::I16.constant(&asl), Ok(0x1402));
    assert_eq!(LoopbackFormatType::F32.constant(&asl), Ok(0x1406));
    assert_eq!(LoopbackFormatChannels::Mc51.symbol(), Symbol::Mc51Soft);
    assert_eq!(LoopbackFormatType::F32.symbol(), Symbol::FloatSoft);
}

#[test]
fn every_frame_reports_its_layout_and_type() {
    let asl = loopback();
    assert_eq!(<Frame<Mono, u8> as LoopbackFrame>::channels(&asl), Ok(0x1500));
    assert_eq!(<Frame<Mono, u8> as LoopbackFrame>::sample_ty(&asl), Ok(0x1401));
    assert_eq!(<Frame<Stereo, i16> as LoopbackFrame>::channels(&asl), Ok(0x1501));
    assert_eq!(<Frame<Stereo, i16> as LoopbackFrame>::sample_ty(&asl), Ok(0x1402));
    assert_eq!(<Frame<Quad, Float32> as LoopbackFrame>::channels(&asl), Ok(0x1503));
    assert_eq!(<Frame<Quad, Float32> as LoopbackFrame>::sample_ty(&asl), Ok(0x1406));
    assert_eq!(<Frame<Mc51, u8> as LoopbackFrame>::channels(&asl), Ok(0x1504));
    assert_eq!(<Frame<Mc61, i16> as LoopbackFrame>::channels(&asl), Ok(0x1505));
    assert_eq!(<Frame<Mc71, Float32> as LoopbackFrame>::channels(&asl), Ok(0x1506));
}

#[test]
fn a_frame_that_the_extension_does_not_name_is_refused() {
    let mut asl = ExtensionDescriptor::new();
    asl.bind(Symbol::MonoSoft, Binding::Constant(0x1500));
    assert_eq!(
        <Frame<Mc71, u8> as LoopbackFrame>::channels(&asl),
        Err(AltoError::AlcSymbolNotPresent(Symbol::Mc71Soft))
    );
    assert_eq!(
        <Frame<Mono, i16> as LoopbackFrame>::sample_ty(&asl),
        Err(AltoError::AlcSymbolNotPresent(Symbol::ShortSoft))
    );
}

#[test]
fn an_empty_or_unbuilt_list_is_not_handed_over() {
    assert_eq!(handed_list(Ok(vec![])), None);
    assert_eq!(handed_list(Err(AltoError::AlcSymbolNotPresent(Symbol::HrtfSoft))), None);
    assert_eq!(handed_list(Ok(vec![0])), Some(vec![0]));
    assert_eq!(handed_list(Ok(vec![0x1007, 44100, 0])), Some(vec![0x1007, 44100, 0]));
}
