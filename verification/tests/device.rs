use alto::alto::Alto;
use alto::attrs::{ContextAttrs, LoopbackAttrs};
use alto::consts::{ALC_FREQUENCY, ALC_INVALID_DEVICE, ALC_INVALID_VALUE, ALC_MONO_SOURCES};
use alto::device::{teardown_report, Device, DeviceTrait, LoopbackDevice, PauseStep, SoftPauseLock};
use alto::error::AltoError;
use alto::ext::{Alc, Binding, ExtensionDescriptor, Resolution, Symbol};
use alto::frame::{Frame, Mono};
use alto::hrtf::{HrtfFetch, SoftHrtfStatus};

const PAUSE: usize = 0x5000;
const RESUME: usize = 0x5008;

fn open(handle: usize) -> Device {
    Alto::check_version(1, 1).unwrap().open(b"Speakers".to_vec(), handle, 0).unwrap()
}

fn open_loopback(handle: usize) -> LoopbackDevice<Frame<Mono, u8>> {
    let mut d = ExtensionDescriptor::new();
    d.bind(Symbol::LoopbackOpenDeviceSoft, Binding::EntryPoint(0x4000));
    Alto::check_version(1, 1)
        .unwrap()
        .open_loopback(Ok(d), b"Loop".to_vec(), handle, 0)
        .unwrap()
}

fn loopback() -> Resolution {
    let mut d = ExtensionDescriptor::new();
    d.bind(Symbol::FormatChannelsSoft, Binding::Constant(0x1990));
    d.bind(Symbol::FormatTypeSoft, Binding::Constant(0x1991));
    d.bind(Symbol::MonoSoft, Binding::Constant(0x1500));
    d.bind(Symbol::UnsignedByteSoft, Binding::Constant(0x1401));
    Ok(d)
}

fn pause_ext() -> Resolution {
    let mut d = ExtensionDescriptor::new();
    d.bind(Symbol::DevicePauseSoft, Binding::EntryPoint(PAUSE));
    d.bind(Symbol::DeviceResumeSoft, Binding::EntryPoint(RESUME));
    Ok(d)
}

fn hrtf() -> Resolution {
    let mut d = ExtensionDescriptor::new();
    d.bind(Symbol::HrtfSoft, Binding::Constant(0x1992));
    d.bind(Symbol::HrtfIdSoft, Binding::Constant(0x1996));
    d.bind(Symbol::HrtfStatusSoft, Binding::Constant(0x1993));
    d.bind(Symbol::NumHrtfSpecifiersSoft, Binding::Constant(0x1994));
    d.bind(Symbol::HrtfSpecifierSoft, Binding::Constant(0x1995));
    d.bind(Symbol::HrtfDisabledSoft, Binding::Constant(0));
    d.bind(Symbol::HrtfEnabledSoft, Binding::Constant(1));
    d.bind(Symbol::HrtfDeniedSoft, Binding::Constant(2));
    d.bind(Symbol::HrtfRequiredSoft, Binding::Constant(3));
    d.bind(Symbol::HrtfHeadphonesDetectedSoft, Binding::Constant(4));
    d.bind(Symbol::HrtfUnsupportedFormatSoft, Binding::Constant(5));
    d.bind(Symbol::GetStringiSoft, Binding::EntryPoint(0x6000));
    d.bind(Symbol::ResetDeviceSoft, Binding::EntryPoint(0x6008));
    Ok(d)
}

fn guard(dev: &mut Device) -> SoftPauseLock {
    match dev.soft_pause(pause_ext()).unwrap() {
        PauseStep::Paused(lock) => lock,
        PauseStep::CallPause { entry_point } => {
            assert_eq!(entry_point, PAUSE);
            dev.pause_polled(0).unwrap()
        }
    }
}

#[test]
fn devices_are_equal_by_handle_not_by_specifier() {
    let alto = Alto::check_version(1, 1).unwrap();
    let a = alto.open(b"Speakers".to_vec(), 0x10, 0).unwrap();
    let b = alto.open(b"Headset".to_vec(), 0x10, 0).unwrap();
    let c = alto.open(b"Speakers".to_vec(), 0x18, 0).unwrap();
    assert!(a == b);
    assert!(a != c);
    let x = alto.open_capture(b"Mic".to_vec(), 0x10, 0).unwrap();
    let y = alto.open_capture(b"Line".to_vec(), 0x10, 0).unwrap();
    let z = alto.open_capture(b"Mic".to_vec(), 0x11, 0).unwrap();
    assert!(x == y);
    assert!(x != z);
    assert!(open_loopback(0x30) == open_loopback(0x30));
    assert!(open_loopback(0x30) != open_loopback(0x31));
}

#[test]
fn closing_hands_back_the_handle() {
    assert_eq!(open(0x77).close(), 0x77);
    assert_eq!(open_loopback(0x78).close(), 0x78);
    let alto = Alto::check_version(1, 1).unwrap();
    assert_eq!(alto.open_capture(b"Mic".to_vec(), 0x79, 0).unwrap().close(), 0x79);
}

#[test]
fn a_failed_teardown_is_only_reported() {
    let message = "ALTO ERROR: `alcCloseDevice` failed in Device drop";
    assert_eq!(teardown_report(0, message), None);
    assert_eq!(teardown_report(ALC_INVALID_DEVICE, message), Some(message));
}

#[test]
fn extension_presence_is_remembered() {
    let mut dev = open(0x10);
    let missing: Resolution = Err(AltoError::AlcExtensionNotPresent(Alc::Efx));
    assert!(!dev.is_extension_present(Alc::Efx, missing));
    assert!(!dev.is_extension_present(Alc::Efx, Ok(ExtensionDescriptor::new())));
    assert!(dev.is_extension_present(Alc::Dedicated, Ok(ExtensionDescriptor::new())));
    assert!(dev.is_extension_present(Alc::Dedicated, missing));
    assert!(dev.is_extension_present(Alc::SoftHrtf, hrtf()));
    assert!(dev.is_extension_present(Alc::SoftPauseDevice, pause_ext()));
    assert_eq!(dev.raw_device(), 0x10);
    let mut lb = open_loopback(0x11);
    assert!(!lb.is_extension_present(Alc::Disconnect, missing));
    assert!(lb.is_extension_present(Alc::SoftHrtf, hrtf()));
}

#[test]
fn two_guards_keep_the_device_paused_until_both_are_gone() {
    let mut dev = open(0x10);
    let first = match dev.soft_pause(pause_ext()).unwrap() {
        PauseStep::CallPause { entry_point } => {
            assert_eq!(entry_point, PAUSE);
            dev.pause_polled(0).unwrap()
        }
        PauseStep::Paused(_) => panic!("the first guard must pause the device"),
    };
    assert_eq!(dev.pause_count(), 1);
    assert!(dev.is_paused());
    let second = match dev.soft_pause(pause_ext()).unwrap() {
        PauseStep::Paused(lock) => lock,
        PauseStep::CallPause { .. } => panic!("the device is paused already"),
    };
    assert_eq!(dev.pause_count(), 2);
    assert_eq!(first.raw_device(), 0x10);
    assert_eq!(dev.resume(first), Ok(None));
    assert_eq!(dev.pause_count(), 1);
    assert!(dev.is_paused());
    assert_eq!(dev.resume(second), Ok(Some(RESUME)));
    assert_eq!(dev.pause_count(), 0);
    assert!(!dev.is_paused());
}

#[test]
fn a_guard_after_a_resume_pauses_again() {
    let mut dev = open(0x10);
    let lock = guard(&mut dev);
    assert_eq!(lock.release(&mut dev), Ok(Some(RESUME)));
    match dev.soft_pause(pause_ext()).unwrap() {
        PauseStep::CallPause { entry_point } => assert_eq!(entry_point, PAUSE),
        PauseStep::Paused(_) => panic!("the device was resumed"),
    }
    assert_eq!(dev.pause_count(), 1);
}

#[test]
fn a_failed_pause_leaves_no_guard_behind() {
    let mut dev = open(0x10);
    assert!(matches!(dev.soft_pause(pause_ext()), Ok(PauseStep::CallPause { .. })));
    assert_eq!(dev.pause_count(), 1);
    assert!(dev.pause_pending());
    assert!(!dev.is_paused());
    assert_eq!(dev.pause_polled(ALC_INVALID_DEVICE).err(), Some(AltoError::AlcInvalidDevice));
    assert_eq!(dev.pause_count(), 0);
    assert!(!dev.pause_pending());
    assert!(!dev.is_paused());
    assert!(matches!(dev.soft_pause(pause_ext()), Ok(PauseStep::CallPause { .. })));
}

#[test]
fn no_guard_without_the_pause_extension() {
    let mut dev = open(0x10);
    let missing = AltoError::AlcExtensionNotPresent(Alc::SoftPauseDevice);
    assert_eq!(dev.soft_pause(Err(missing)).err(), Some(missing));
    assert_eq!(dev.pause_count(), 0);
    assert_eq!(SoftPauseLock::new(&mut dev, pause_ext()).err(), Some(missing));
    let mut other = open(0x11);
    assert_eq!(
        other.soft_pause(Ok(ExtensionDescriptor::new())).err(),
        Some(AltoError::AlcSymbolNotPresent(Symbol::DevicePauseSoft))
    );
    assert_eq!(other.pause_count(), 0);
}

#[test]
fn the_last_release_names_a_missing_resume_entry_point() {
    let mut dev = open(0x10);
    let mut d = ExtensionDescriptor::new();
    d.bind(Symbol::DevicePauseSoft, Binding::EntryPoint(PAUSE));
    let lock = match SoftPauseLock::new(&mut dev, Ok(d)).unwrap() {
        PauseStep::CallPause { .. } => dev.pause_polled(0).unwrap(),
        PauseStep::Paused(lock) => lock,
    };
    assert_eq!(
        dev.resume(lock),
        Err(AltoError::AlcSymbolNotPresent(Symbol::DeviceResumeSoft))
    );
    assert_eq!(dev.pause_count(), 0);
}

#[test]
fn the_connection_state_is_read_and_polled() {
    let mut dev = open(0x10);
    let mut d = ExtensionDescriptor::new();
    d.bind(Symbol::Connected, Binding::Constant(0x313));
    assert_eq!(dev.connected_property(Ok(d)), Ok(Some(0x313)));
    assert_eq!(dev.connected(1, 0), Ok(true));
    assert_eq!(dev.connected(0, 0), Ok(false));
    assert_eq!(dev.connected(2, 0), Ok(false));
    assert_eq!(dev.connected(1, ALC_INVALID_DEVICE), Err(AltoError::AlcInvalidDevice));
}

#[test]
fn the_connection_state_needs_the_disconnect_extension() {
    let mut dev = open(0x10);
    let missing = AltoError::AlcExtensionNotPresent(Alc::Disconnect);
    assert_eq!(dev.connected_property(Err(missing)), Err(missing));
    let mut other = open(0x11);
    assert_eq!(
        other.connected_property(Ok(ExtensionDescriptor::new())),
        Err(AltoError::AlcSymbolNotPresent(Symbol::Connected))
    );
}

#[test]
fn a_loopback_device_is_always_connected() {
    let mut lb = open_loopback(0x30);
    let missing = AltoError::AlcExtensionNotPresent(Alc::Disconnect);
    assert_eq!(lb.connected_property(Err(missing)), Ok(None));
    assert_eq!(lb.connected(0, ALC_INVALID_DEVICE), Ok(true));
}

#[test]
fn the_hrtf_status_is_read_after_the_poll() {
    let mut dev = open(0x10);
    assert_eq!(dev.hrtf_status_property(hrtf()), Ok(0x1993));
    assert_eq!(dev.soft_hrtf_status(hrtf(), 0, 0), Ok(SoftHrtfStatus::Disabled));
    assert_eq!(dev.soft_hrtf_status(hrtf(), 4, 0), Ok(SoftHrtfStatus::HeadphonesDetected));
    assert_eq!(dev.soft_hrtf_status(hrtf(), 99, 0), Ok(SoftHrtfStatus::Unknown(99)));
    assert_eq!(
        dev.soft_hrtf_status(hrtf(), 1, ALC_INVALID_VALUE),
        Err(AltoError::AlcInvalidValue)
    );
    let mut lb = open_loopback(0x30);
    let missing = AltoError::AlcExtensionNotPresent(Alc::SoftHrtf);
    assert_eq!(lb.hrtf_status_property(Err(missing)), Err(missing));
    assert_eq!(lb.soft_hrtf_status(hrtf(), 1, 0), Err(missing));
}

#[test]
fn hrtf_specifiers_are_collected_one_by_one() {
    let mut dev = open(0x10);
    assert_eq!(dev.hrtf_count_property(hrtf()), Ok(0x1994));
    let mut run = dev.enumerate_soft_hrtfs(hrtf(), 2, 0).unwrap();
    assert_eq!(
        run.next(),
        Ok(HrtfFetch::Fetch { entry_point: 0x6000, property: 0x1995, index: 0 })
    );
    assert_eq!(run.push(b"default".to_vec(), 0), Ok(()));
    assert_eq!(
        run.next(),
        Ok(HrtfFetch::Fetch { entry_point: 0x6000, property: 0x1995, index: 1 })
    );
    assert_eq!(run.push(b"wide".to_vec(), 0), Ok(()));
    assert_eq!(run.next(), Ok(HrtfFetch::Done));
    assert_eq!(run.finish(), vec![b"default".to_vec(), b"wide".to_vec()]);
}

#[test]
fn a_failed_count_read_ends_the_collection() {
    let mut dev = open(0x10);
    assert_eq!(
        dev.enumerate_soft_hrtfs(hrtf(), 2, ALC_INVALID_DEVICE).err(),
        Some(AltoError::AlcInvalidDevice)
    );
    let mut lb = open_loopback(0x30);
    let missing = AltoError::AlcExtensionNotPresent(Alc::SoftHrtf);
    assert_eq!(lb.enumerate_soft_hrtfs(Err(missing), 2, 0).err(), Some(missing));
    assert_eq!(lb.hrtf_count_property(hrtf()), Err(missing));
}

#[test]
fn the_device_builds_its_attribute_list_with_its_own_hrtf_extension() {
    let mut dev = open(0x10);
    let attrs = ContextAttrs {
        frequency: Some(44100),
        refresh: None,
        mono_sources: None,
        stereo_sources: None,
        soft_hrtf: Some(true),
        soft_hrtf_id: None,
    };
    assert_eq!(
        dev.make_attrs_vec(Some(attrs), hrtf()),
        Ok(vec![ALC_FREQUENCY, 44100, 0x1992, 1, 0])
    );
    let missing: Resolution = Err(AltoError::AlcExtensionNotPresent(Alc::SoftHrtf));
    assert_eq!(
        dev.make_attrs_vec(Some(attrs), missing),
        Ok(vec![ALC_FREQUENCY, 44100, 0x1992, 1, 0])
    );
    let mut plain = open(0x11);
    assert_eq!(plain.new_context(Some(attrs), missing), Some(vec![ALC_FREQUENCY, 44100, 0]));
    assert_eq!(plain.new_context(None, missing), None);
    assert_eq!(plain.make_attrs_vec(None, missing), Ok(vec![]));
}

#[test]
fn a_context_gets_no_list_where_none_can_be_built() {
    let mut dev = open(0x10);
    let attrs = ContextAttrs {
        frequency: Some(44100),
        refresh: None,
        mono_sources: None,
        stereo_sources: None,
        soft_hrtf: Some(true),
        soft_hrtf_id: None,
    };
    assert_eq!(dev.new_context(Some(attrs), Ok(ExtensionDescriptor::new())), None);
}

#[test]
fn a_reset_needs_the_hrtf_extension_and_its_entry_point() {
    let mut dev = open(0x10);
    let attrs = ContextAttrs {
        frequency: Some(48000),
        refresh: None,
        mono_sources: None,
        stereo_sources: None,
        soft_hrtf: None,
        soft_hrtf_id: Some(2),
    };
    assert_eq!(
        dev.soft_reset(Some(attrs), hrtf()),
        Ok((0x6008, Some(vec![ALC_FREQUENCY, 48000, 0x1996, 2, 0])))
    );
    let mut bare = open(0x11);
    let missing = AltoError::AlcExtensionNotPresent(Alc::SoftHrtf);
    assert_eq!(bare.soft_reset(Some(attrs), Err(missing)), Err(missing));
    let mut partial = open(0x12);
    assert_eq!(
        partial.soft_reset(Some(attrs), Ok(ExtensionDescriptor::new())),
        Err(AltoError::AlcSymbolNotPresent(Symbol::ResetDeviceSoft))
    );
    let mut only_reset = open(0x13);
    let mut d = ExtensionDescriptor::new();
    d.bind(Symbol::ResetDeviceSoft, Binding::EntryPoint(0x6008));
    assert_eq!(only_reset.soft_reset(Some(attrs), Ok(d)), Ok((0x6008, None)));
}

#[test]
fn a_loopback_context_names_its_frame() {
    let mut lb = open_loopback(0x30);
    let attrs = LoopbackAttrs {
        mono_sources: Some(4),
        stereo_sources: None,
        soft_hrtf: None,
        soft_hrtf_id: None,
    };
    let missing: Resolution = Err(AltoError::AlcExtensionNotPresent(Alc::SoftHrtf));
    assert_eq!(
        lb.new_context(44100, Some(attrs), &loopback(), missing),
        Ok(vec![ALC_FREQUENCY, 44100, 0x1990, 0x1500, 0x1991, 0x1401, ALC_MONO_SOURCES, 4, 0])
    );
    assert_eq!(
        lb.make_attrs_vec(8000, None, &loopback(), missing),
        Ok(vec![ALC_FREQUENCY, 8000, 0x1990, 0x1500, 0x1991, 0x1401, 0])
    );
    let gone = AltoError::AlcExtensionNotPresent(Alc::SoftLoopback);
    assert_eq!(lb.new_context(44100, None, &Err(gone), missing), Err(gone));
    assert_eq!(lb.soft_reset(44100, None, &loopback(), hrtf()), Err(missing.err().unwrap()));
}

#[test]
fn a_loopback_reset_hands_out_entry_point_and_list() {
    let mut lb = open_loopback(0x30);
    assert_eq!(
        lb.soft_reset(44100, None, &loopback(), hrtf()),
        Ok((0x6008, Some(vec![ALC_FREQUENCY, 44100, 0x1990, 0x1500, 0x1991, 0x1401, 0])))
    );
    let gone = AltoError::AlcExtensionNotPresent(Alc::SoftLoopback);
    assert_eq!(lb.soft_reset(44100, None, &Err(gone), hrtf()), Ok((0x6008, None)));
}
