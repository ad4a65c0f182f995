//! Optional capabilities of the native library: the extensions, the
//! constants and entry points that they name, what each resolved to, and the
//! cache that remembers the outcome of every resolution.

use vstd::prelude::*;
use crate::consts::ALC_NO_ERROR;
use crate::error::{spec_poll, AltoError};

verus! {

/// Number of extensions that the device layer knows.
pub const EXTENSION_COUNT: usize = 7;

/// Number of extension symbols that the device layer knows.
pub const SYMBOL_COUNT: usize = 30;

/// An optional capability of the native library, identified by name.
#[derive(Clone, Copy, Debug, PartialEq, Eq, Structural)]
pub enum Alc {
    /// Dedicated output channels.
    Dedicated,
    /// Detection of a lost device.
    Disconnect,
    /// The effects extension.
    Efx,
    /// Head-related transfer functions.
    SoftHrtf,
    /// Pausing and resuming of a device.
    SoftPauseDevice,
    /// Enumeration of every output device; resolved without a device.
    EnumerateAll,
    /// Loopback devices; resolved without a device.
    SoftLoopback,
}

/// A constant or an entry point that an extension defines.
#[derive(Clone, Copy, Debug, PartialEq, Eq, Structural)]
pub enum Symbol {
    /// String property of the default device among all outputs.
    DefaultAllDevicesSpecifier,
    /// String property of the table of all outputs.
    AllDevicesSpecifier,
    /// Attribute key of a loopback context's channel layout.
    FormatChannelsSoft,
    /// Attribute key of a loopback context's sample type.
    FormatTypeSoft,
    /// Channel layout: one channel.
    MonoSoft,
    /// Channel layout: two channels.
    StereoSoft,
    /// Channel layout: four channels.
    QuadSoft,
    /// Channel layout: 5.1 surround.
    Mc51Soft,
    /// Channel layout: 6.1 surround.
    Mc61Soft,
    /// Channel layout: 7.1 surround.
    Mc71Soft,
    /// Sample type: unsigned 8-bit integer.
    UnsignedByteSoft,
    /// Sample type: signed 16-bit integer.
    ShortSoft,
    /// Sample type: 32-bit floating point.
    FloatSoft,
    /// Entry point that opens a loopback device.
    LoopbackOpenDeviceSoft,
    /// Integer property of the connection state.
    Connected,
    /// Attribute key that asks for HRTF.
    HrtfSoft,
    /// Attribute key that picks an HRTF by index.
    HrtfIdSoft,
    /// Integer property of the HRTF status.
    HrtfStatusSoft,
    /// Integer property of the number of HRTF specifiers.
    NumHrtfSpecifiersSoft,
    /// Indexed string property of an HRTF specifier.
    HrtfSpecifierSoft,
    /// HRTF status: disabled.
    HrtfDisabledSoft,
    /// HRTF status: enabled.
    HrtfEnabledSoft,
    /// HRTF status: denied.
    HrtfDeniedSoft,
    /// HRTF status: required.
    HrtfRequiredSoft,
    /// HRTF status: enabled because headphones were detected.
    HrtfHeadphonesDetectedSoft,
    /// HRTF status: the output format does not allow it.
    HrtfUnsupportedFormatSoft,
    /// Entry point that reads an indexed string property.
    GetStringiSoft,
    /// Entry point that resets a device with new attributes.
    ResetDeviceSoft,
    /// Entry point that pauses a device.
    DevicePauseSoft,
    /// Entry point that resumes a device.
    DeviceResumeSoft,
}

/// What a symbol resolved to.
#[derive(Clone, Copy, Debug, PartialEq, Eq, Structural)]
pub enum Binding {
    /// The value of a named constant.
    Constant(i32),
    /// The address of a named entry point.
    EntryPoint(usize),
}

impl Alc {
    /// Position of this extension in a cache.
    pub open spec fn spec_slot(self) -> int {
        match self {
            Alc::Dedicated => 0,
            Alc::Disconnect => 1,
            Alc::Efx => 2,
            Alc::SoftHrtf => 3,
            Alc::SoftPauseDevice => 4,
            Alc::EnumerateAll => 5,
            Alc::SoftLoopback => 6,
        }
    }

    /// Whether the extension is resolved against the library as a whole
    /// rather than against one device.
    pub open spec fn spec_is_global(self) -> bool {
        self == Alc::EnumerateAll || self == Alc::SoftLoopback
    }

    /// Position of this extension in a cache.
    pub fn slot(self) -> (i: usize)
        ensures
            i == self.spec_slot(),
            i < EXTENSION_COUNT,
    {
        match self {
            Alc::Dedicated => 0,
            Alc::Disconnect => 1,
            Alc::Efx => 2,
            Alc::SoftHrtf => 3,
            Alc::SoftPauseDevice => 4,
            Alc::EnumerateAll => 5,
            Alc::SoftLoopback => 6,
        }
    }

    /// Whether the extension is resolved against the library as a whole
    /// rather than against one device.
    pub fn is_global(self) -> (g: bool)
        ensures
            g == self.spec_is_global(),
    {
        match self {
            Alc::EnumerateAll => true,
            Alc::SoftLoopback => true,
            _ => false,
        }
    }

    /// The name by which the native library knows this extension.
    pub open spec fn spec_name(self) -> Seq<char> {
        match self {
            Alc::Dedicated => "ALC_EXT_DEDICATED"@,
            Alc::Disconnect => "ALC_EXT_disconnect"@,
            Alc::Efx => "ALC_EXT_EFX"@,
            Alc::SoftHrtf => "ALC_SOFT_HRTF"@,
            Alc::SoftPauseDevice => "ALC_SOFT_pause_device"@,
            Alc::EnumerateAll => "ALC_ENUMERATE_ALL_EXT"@,
            Alc::SoftLoopback => "ALC_SOFT_loopback"@,
        }
    }

    /// The name by which the native library knows this extension.
    pub fn name(self) -> (n: &'static str)
        ensures
            n@ == self.spec_name(),
    {
        match self {
            Alc::Dedicated => "ALC_EXT_DEDICATED",
            Alc::Disconnect => "ALC_EXT_disconnect",
            Alc::Efx => "ALC_EXT_EFX",
            Alc::SoftHrtf => "ALC_SOFT_HRTF",
            Alc::SoftPauseDevice => "ALC_SOFT_pause_device",
            Alc::EnumerateAll => "ALC_ENUMERATE_ALL_EXT",
            Alc::SoftLoopback => "ALC_SOFT_loopback",
        }
    }
}

impl Symbol {
    /// Position of this symbol in a descriptor.
    pub open spec fn spec_slot(self) -> int {
        match self {
            Symbol::DefaultAllDevicesSpecifier => 0,
            Symbol::AllDevicesSpecifier => 1,
            Symbol::FormatChannelsSoft => 2,
            Symbol::FormatTypeSoft => 3,
            Symbol::MonoSoft => 4,
            Symbol::StereoSoft => 5,
            Symbol::QuadSoft => 6,
            Symbol::Mc51Soft => 7,
            Symbol::Mc61Soft => 8,
            Symbol::Mc71Soft => 9,
            Symbol::UnsignedByteSoft => 10,
            Symbol::ShortSoft => 11,
            Symbol::FloatSoft => 12,
            Symbol::LoopbackOpenDeviceSoft => 13,
            Symbol::Connected => 14,
            Symbol::HrtfSoft => 15,
            Symbol::HrtfIdSoft => 16,
            Symbol::HrtfStatusSoft => 17,
            Symbol::NumHrtfSpecifiersSoft => 18,
            Symbol::HrtfSpecifierSoft => 19,
            Symbol::HrtfDisabledSoft => 20,
            Symbol::HrtfEnabledSoft => 21,
            Symbol::HrtfDeniedSoft => 22,
            Symbol::HrtfRequiredSoft => 23,
            Symbol::HrtfHeadphonesDetectedSoft => 24,
            Symbol::HrtfUnsupportedFormatSoft => 25,
            Symbol::GetStringiSoft => 26,
            Symbol::ResetDeviceSoft => 27,
            Symbol::DevicePauseSoft => 28,
            Symbol::DeviceResumeSoft => 29,
        }
    }

    /// The extension that defines this symbol.
    pub open spec fn spec_extension(self) -> Alc {
        match self {
            Symbol::DefaultAllDevicesSpecifier | Symbol::AllDevicesSpecifier => Alc::EnumerateAll,
            Symbol::FormatChannelsSoft
            | Symbol::FormatTypeSoft
            | Symbol::MonoSoft
            | Symbol::StereoSoft
            | Symbol::QuadSoft
            | Symbol::Mc51Soft
            | Symbol::Mc61Soft
            | Symbol::Mc71Soft
            | Symbol::UnsignedByteSoft
            | Symbol::ShortSoft
            | Symbol::FloatSoft
            | Symbol::LoopbackOpenDeviceSoft => Alc::SoftLoopback,
            Symbol::Connected => Alc::Disconnect,
            Symbol::DevicePauseSoft | Symbol::DeviceResumeSoft => Alc::SoftPauseDevice,
            _ => Alc::SoftHrtf,
        }
    }

    /// Position of this symbol in a descriptor.
    pub fn slot(self) -> (i: usize)
        ensures
            i == self.spec_slot(),
            i < SYMBOL_COUNT,
    {
        match self {
            Symbol::DefaultAllDevicesSpecifier => 0,
            Symbol::AllDevicesSpecifier => 1,
            Symbol::FormatChannelsSoft => 2,
            Symbol::FormatTypeSoft => 3,
            Symbol::MonoSoft => 4,
            Symbol::StereoSoft => 5,
            Symbol::QuadSoft => 6,
            Symbol::Mc51Soft => 7,
            Symbol::Mc61Soft => 8,
            Symbol::Mc71Soft => 9,
            Symbol::UnsignedByteSoft => 10,
            Symbol::ShortSoft => 11,
            Symbol::FloatSoft => 12,
            Symbol::LoopbackOpenDeviceSoft => 13,
            Symbol::Connected => 14,
            Symbol::HrtfSoft => 15,
            Symbol::HrtfIdSoft => 16,
            Symbol::HrtfStatusSoft => 17,
            Symbol::NumHrtfSpecifiersSoft => 18,
            Symbol::HrtfSpecifierSoft => 19,
            Symbol::HrtfDisabledSoft => 20,
            Symbol::HrtfEnabledSoft => 21,
            Symbol::HrtfDeniedSoft => 22,
            Symbol::HrtfRequiredSoft => 23,
            Symbol::HrtfHeadphonesDetectedSoft => 24,
            Symbol::HrtfUnsupportedFormatSoft => 25,
            Symbol::GetStringiSoft => 26,
            Symbol::ResetDeviceSoft => 27,
            Symbol::DevicePauseSoft => 28,
            Symbol::DeviceResumeSoft => 29,
        }
    }

    /// The extension that defines this symbol.
    pub fn extension(self) -> (e: Alc)
        ensures
            e == self.spec_extension(),
    {
        match self {
            Symbol::DefaultAllDevicesSpecifier | Symbol::AllDevicesSpecifier => Alc::EnumerateAll,
            Symbol::FormatChannelsSoft
            | Symbol::FormatTypeSoft
            | Symbol::MonoSoft
            | Symbol::StereoSoft
            | Symbol::QuadSoft
            | Symbol::Mc51Soft
            | Symbol::Mc61Soft
            | Symbol::Mc71Soft
            | Symbol::UnsignedByteSoft
            | Symbol::ShortSoft
            | Symbol::FloatSoft
            | Symbol::LoopbackOpenDeviceSoft => Alc::SoftLoopback,
            Symbol::Connected => Alc::Disconnect,
            Symbol::DevicePauseSoft | Symbol::DeviceResumeSoft => Alc::SoftPauseDevice,
            _ => Alc::SoftHrtf,
        }
    }

    /// The name by which the native library knows this symbol.
    pub open spec fn spec_name(self) -> Seq<char> {
        match self {
            Symbol::DefaultAllDevicesSpecifier => "ALC_DEFAULT_ALL_DEVICES_SPECIFIER"@,
            Symbol::AllDevicesSpecifier => "ALC_ALL_DEVICES_SPECIFIER"@,
            Symbol::FormatChannelsSoft => "ALC_FORMAT_CHANNELS_SOFT"@,
            Symbol::FormatTypeSoft => "ALC_FORMAT_TYPE_SOFT"@,
            Symbol::MonoSoft => "ALC_MONO_SOFT"@,
            Symbol::StereoSoft => "ALC_STEREO_SOFT"@,
            Symbol::QuadSoft => "ALC_QUAD_SOFT"@,
            Symbol::Mc51Soft => "ALC_5POINT1_SOFT"@,
            Symbol::Mc61Soft => "ALC_6POINT1_SOFT"@,
            Symbol::Mc71Soft => "ALC_7POINT1_SOFT"@,
            Symbol::UnsignedByteSoft => "ALC_UNSIGNED_BYTE_SOFT"@,
            Symbol::ShortSoft => "ALC_SHORT_SOFT"@,
            Symbol::FloatSoft => "ALC_FLOAT_SOFT"@,
            Symbol::LoopbackOpenDeviceSoft => "alcLoopbackOpenDeviceSOFT"@,
            Symbol::Connected => "ALC_CONNECTED"@,
            Symbol::HrtfSoft => "ALC_HRTF_SOFT"@,
            Symbol::HrtfIdSoft => "ALC_HRTF_ID_SOFT"@,
            Symbol::HrtfStatusSoft => "ALC_HRTF_STATUS_SOFT"@,
            Symbol::NumHrtfSpecifiersSoft => "ALC_NUM_HRTF_SPECIFIERS_SOFT"@,
            Symbol::HrtfSpecifierSoft => "ALC_HRTF_SPECIFIER_SOFT"@,
            Symbol::HrtfDisabledSoft => "ALC_HRTF_DISABLED_SOFT"@,
            Symbol::HrtfEnabledSoft => "ALC_HRTF_ENABLED_SOFT"@,
            Symbol::HrtfDeniedSoft => "ALC_HRTF_DENIED_SOFT"@,
            Symbol::HrtfRequiredSoft => "ALC_HRTF_REQUIRED_SOFT"@,
            Symbol::HrtfHeadphonesDetectedSoft => "ALC_HRTF_HEADPHONES_DETECTED_SOFT"@,
            Symbol::HrtfUnsupportedFormatSoft => "ALC_HRTF_UNSUPPORTED_FORMAT_SOFT"@,
            Symbol::GetStringiSoft => "alcGetStringiSOFT"@,
            Symbol::ResetDeviceSoft => "alcResetDeviceSOFT"@,
            Symbol::DevicePauseSoft => "alcDevicePauseSOFT"@,
            Symbol::DeviceResumeSoft => "alcDeviceResumeSOFT"@,
        }
    }

    /// Whether the symbol names an entry point rather than a constant.
    pub open spec fn spec_is_entry_point(self) -> bool {
        self == Symbol::LoopbackOpenDeviceSoft || self == Symbol::GetStringiSoft || self
            == Symbol::ResetDeviceSoft || self == Symbol::DevicePauseSoft || self
            == Symbol::DeviceResumeSoft
    }

    /// The name by which the native library knows this symbol.
    pub fn name(self) -> (n: &'static str)
        ensures
            n@ == self.spec_name(),
    {
        match self {
            Symbol::DefaultAllDevicesSpecifier => "ALC_DEFAULT_ALL_DEVICES_SPECIFIER",
            Symbol::AllDevicesSpecifier => "ALC_ALL_DEVICES_SPECIFIER",
            Symbol::FormatChannelsSoft => "ALC_FORMAT_CHANNELS_SOFT",
            Symbol::FormatTypeSoft => "ALC_FORMAT_TYPE_SOFT",
            Symbol::MonoSoft => "ALC_MONO_SOFT",
            Symbol::StereoSoft => "ALC_STEREO_SOFT",
            Symbol::QuadSoft => "ALC_QUAD_SOFT",
            Symbol::Mc51Soft => "ALC_5POINT1_SOFT",
            Symbol::Mc61Soft => "ALC_6POINT1_SOFT",
            Symbol::Mc71Soft => "ALC_7POINT1_SOFT",
            Symbol::UnsignedByteSoft => "ALC_UNSIGNED_BYTE_SOFT",
            Symbol::ShortSoft => "ALC_SHORT_SOFT",
            Symbol::FloatSoft => "ALC_FLOAT_SOFT",
            Symbol::LoopbackOpenDeviceSoft => "alcLoopbackOpenDeviceSOFT",
            Symbol::Connected => "ALC_CONNECTED",
            Symbol::HrtfSoft => "ALC_HRTF_SOFT",
            Symbol::HrtfIdSoft => "ALC_HRTF_ID_SOFT",
            Symbol::HrtfStatusSoft => "ALC_HRTF_STATUS_SOFT",
            Symbol::NumHrtfSpecifiersSoft => "ALC_NUM_HRTF_SPECIFIERS_SOFT",
            Symbol::HrtfSpecifierSoft => "ALC_HRTF_SPECIFIER_SOFT",
            Symbol::HrtfDisabledSoft => "ALC_HRTF_DISABLED_SOFT",
            Symbol::HrtfEnabledSoft => "ALC_HRTF_ENABLED_SOFT",
            Symbol::HrtfDeniedSoft => "ALC_HRTF_DENIED_SOFT",
            Symbol::HrtfRequiredSoft => "ALC_HRTF_REQUIRED_SOFT",
            Symbol::HrtfHeadphonesDetectedSoft => "ALC_HRTF_HEADPHONES_DETECTED_SOFT",
            Symbol::HrtfUnsupportedFormatSoft => "ALC_HRTF_UNSUPPORTED_FORMAT_SOFT",
            Symbol::GetStringiSoft => "alcGetStringiSOFT",
            Symbol::ResetDeviceSoft => "alcResetDeviceSOFT",
            Symbol::DevicePauseSoft => "alcDevicePauseSOFT",
            Symbol::DeviceResumeSoft => "alcDeviceResumeSOFT",
        }
    }

    /// Whether the symbol names an entry point rather than a constant.
    pub fn is_entry_point(self) -> (e: bool)
        ensures
            e == self.spec_is_entry_point(),
    {
        match self {
            Symbol::LoopbackOpenDeviceSoft
            | Symbol::GetStringiSoft
            | Symbol::ResetDeviceSoft
            | Symbol::DevicePauseSoft
            | Symbol::DeviceResumeSoft => true,
            _ => false,
        }
    }

    /// The symbol that stands at position `i` of a descriptor.
    pub fn from_slot(i: usize) -> (r: Option<Symbol>)
        ensures
            i < SYMBOL_COUNT ==> r is Some && r->0.spec_slot() == i,
            i >= SYMBOL_COUNT ==> r is None,
    {
        match i {
            0 => Some(Symbol::DefaultAllDevicesSpecifier),
            1 => Some(Symbol::AllDevicesSpecifier),
            2 => Some(Symbol::FormatChannelsSoft),
            3 => Some(Symbol::FormatTypeSoft),
            4 => Some(Symbol::MonoSoft),
            5 => Some(Symbol::StereoSoft),
            6 => Some(Symbol::QuadSoft),
            7 => Some(Symbol::Mc51Soft),
            8 => Some(Symbol::Mc61Soft),
            9 => Some(Symbol::Mc71Soft),
            10 => Some(Symbol::UnsignedByteSoft),
            11 => Some(Symbol::ShortSoft),
            12 => Some(Symbol::FloatSoft),
            13 => Some(Symbol::LoopbackOpenDeviceSoft),
            14 => Some(Symbol::Connected),
            15 => Some(Symbol::HrtfSoft),
            16 => Some(Symbol::HrtfIdSoft),
            17 => Some(Symbol::HrtfStatusSoft),
            18 => Some(Symbol::NumHrtfSpecifiersSoft),
            19 => Some(Symbol::HrtfSpecifierSoft),
            20 => Some(Symbol::HrtfDisabledSoft),
            21 => Some(Symbol::HrtfEnabledSoft),
            22 => Some(Symbol::HrtfDeniedSoft),
            23 => Some(Symbol::HrtfRequiredSoft),
            24 => Some(Symbol::HrtfHeadphonesDetectedSoft),
            25 => Some(Symbol::HrtfUnsupportedFormatSoft),
            26 => Some(Symbol::GetStringiSoft),
            27 => Some(Symbol::ResetDeviceSoft),
            28 => Some(Symbol::DevicePauseSoft),
            29 => Some(Symbol::DeviceResumeSoft),
            _ => None,
        }
    }
}

/// What one extension resolved to: for each symbol, its binding if it
/// resolved. A symbol may be missing though the extension is present.
#[derive(Clone, Copy, Debug)]
pub struct ExtensionDescriptor {
    slots: [Option<Binding>; 30],
}

impl ExtensionDescriptor {
    /// The binding of `sym`, or `None` where it did not resolve.
    pub closed spec fn binding(self, sym: Symbol) -> Option<Binding> {
        self.slots@[sym.spec_slot()]
    }

    /// What reading `sym` as a constant yields.
    pub open spec fn spec_constant(self, sym: Symbol) -> Result<i32, AltoError> {
        match self.binding(sym) {
            Some(Binding::Constant(v)) => Ok(v),
            _ => Err(AltoError::AlcSymbolNotPresent(sym)),
        }
    }

    /// What reading `sym` as an entry point yields.
    pub open spec fn spec_entry_point(self, sym: Symbol) -> Result<usize, AltoError> {
        match self.binding(sym) {
            Some(Binding::EntryPoint(p)) => Ok(p),
            _ => Err(AltoError::AlcSymbolNotPresent(sym)),
        }
    }

    /// A descriptor in which no symbol has resolved.
    pub fn new() -> (d: ExtensionDescriptor)
        ensures
            forall|sym: Symbol| d.binding(sym) is None,
    {
        ExtensionDescriptor { slots: [None; 30] }
    }

    /// Records that `sym` resolved to `binding`. Every other symbol keeps
    /// what it had.
    pub fn bind(&mut self, sym: Symbol, binding: Binding)
        ensures
            final(self).binding(sym) == Some(binding),
            forall|other: Symbol|
                other != sym ==> final(self).binding(other) == old(self).binding(other),
    {
        let i: usize = sym.slot();
        self.slots[i] = Some(binding);
    }

    /// Takes in what the native library answered when it was asked for the
    /// value of the constant `sym`: the value, and the error code polled
    /// after asking. The constant resolved exactly if no error was
    /// reported; a zero is a value like any other.
    pub fn bind_constant(&mut self, sym: Symbol, value: i32, code: i32)
        ensures
            spec_poll(code) is Ok ==> final(self).binding(sym) == Some(Binding::Constant(value)),
            spec_poll(code) is Err ==> final(self).binding(sym) == old(self).binding(sym),
            forall|other: Symbol|
                other != sym ==> final(self).binding(other) == old(self).binding(other),
    {
        if code == ALC_NO_ERROR {
            self.bind(sym, Binding::Constant(value));
        }
    }

    /// Takes in what the native library answered when it was asked for the
    /// address of the entry point `sym`. The entry point resolved exactly
    /// if the address is not null.
    pub fn bind_entry_point(&mut self, sym: Symbol, address: usize)
        ensures
            address != 0 ==> final(self).binding(sym) == Some(Binding::EntryPoint(address)),
            address == 0 ==> final(self).binding(sym) == old(self).binding(sym),
            forall|other: Symbol|
                other != sym ==> final(self).binding(other) == old(self).binding(other),
    {
        if address != 0 {
            self.bind(sym, Binding::EntryPoint(address));
        }
    }

    /// The binding of `sym`, if it resolved.
    pub fn get(&self, sym: Symbol) -> (b: Option<Binding>)
        ensures
            b == self.binding(sym),
    {
        self.slots[sym.slot()]
    }

    /// The value of the constant `sym`, or an error that names `sym` where
    /// it did not resolve to a constant.
    pub fn constant(&self, sym: Symbol) -> (r: Result<i32, AltoError>)
        ensures
            r == self.spec_constant(sym),
    {
        match self.slots[sym.slot()] {
            Some(Binding::Constant(v)) => Ok(v),
            _ => Err(AltoError::AlcSymbolNotPresent(sym)),
        }
    }

    /// The address of the entry point `sym`, or an error that names `sym`
    /// where it did not resolve to an entry point.
    pub fn entry_point(&self, sym: Symbol) -> (r: Result<usize, AltoError>)
        ensures
            r == self.spec_entry_point(sym),
    {
        match self.slots[sym.slot()] {
            Some(Binding::EntryPoint(p)) => Ok(p),
            _ => Err(AltoError::AlcSymbolNotPresent(sym)),
        }
    }
}

/// The outcome of resolving one extension.
pub type Resolution = Result<ExtensionDescriptor, AltoError>;

/// How the resolution of `id` ends once the native library has said whether
/// the extension is present: with the descriptor where it is, with an error
/// that names the extension where it is not.
pub open spec fn spec_resolution(id: Alc, present: bool, descriptor: ExtensionDescriptor)
    -> Resolution {
    if present {
        Ok(descriptor)
    } else {
        Err(AltoError::AlcExtensionNotPresent(id))
    }
}

/// How the resolution of `id` ends once the native library has said whether
/// the extension is present.
pub fn resolution(id: Alc, present: bool, descriptor: ExtensionDescriptor) -> (r: Resolution)
    ensures
        r == spec_resolution(id, present, descriptor),
{
    if present {
        Ok(descriptor)
    } else {
        Err(AltoError::AlcExtensionNotPresent(id))
    }
}

/// The symbols that `id` defines, in the order of their positions, each
/// once.
pub fn symbols_of(id: Alc) -> (symbols: Vec<Symbol>)
    ensures
        forall|sym: Symbol| symbols@.contains(sym) <==> sym.spec_extension() == id,
        forall|i: int, j: int|
            0 <= i < j < symbols@.len() ==> symbols@[i].spec_slot() < symbols@[j].spec_slot(),
{
    let mut symbols: Vec<Symbol> = Vec::new();
    let mut i: usize = 0;
    while i < SYMBOL_COUNT
        invariant
            i <= SYMBOL_COUNT,
            forall|sym: Symbol|
                symbols@.contains(sym) <==> sym.spec_extension() == id && sym.spec_slot() < i,
            forall|a: int, b: int|
                0 <= a < b < symbols@.len() ==> symbols@[a].spec_slot() < symbols@[b].spec_slot(),
            forall|a: int| 0 <= a < symbols@.len() ==> symbols@[a].spec_slot() < i,
        decreases SYMBOL_COUNT - i,
    {
        let ghost before = symbols@;
        if let Some(sym) = Symbol::from_slot(i) {
            if sym.extension() == id {
                symbols.push(sym);
                assert(symbols@.last() == sym);
                assert forall|s: Symbol|
                    symbols@.contains(s) <==> s.spec_extension() == id && s.spec_slot() < i
                        + 1 by {
                    if symbols@.contains(s) {
                        let k = choose|k: int| 0 <= k < symbols@.len() && symbols@[k] == s;
                        if k < before.len() {
                            assert(before[k] == s);
                            assert(before.contains(s));
                        }
                    }
                    if s.spec_extension() == id && s.spec_slot() < i + 1 {
                        if s.spec_slot() < i {
                            assert(before.contains(s));
                            let k = choose|k: int| 0 <= k < before.len() && before[k] == s;
                            assert(symbols@[k] == s);
                        } else {
                            assert(s == sym);
                            assert(symbols@[symbols@.len() - 1] == s);
                        }
                    }
                }
            } else {
                assert forall|s: Symbol|
                    symbols@.contains(s) <==> s.spec_extension() == id && s.spec_slot() < i
                        + 1 by {
                    if s.spec_slot() == i {
                        assert(s == sym);
                    }
                }
            }
        }
        i = i + 1;
    }
    symbols
}

/// What to ask the native library next while an extension is resolved.
#[derive(Clone, Copy, Debug, PartialEq, Eq, Structural)]
pub enum Query {
    /// Ask for the value of the constant by its name, poll the error, and
    /// hand both to `answer_constant`.
    Constant(Symbol),
    /// Ask for the address of the entry point by its name and hand it to
    /// `answer_entry_point`.
    EntryPoint(Symbol),
    /// Nothing is left to ask.
    Done,
}

/// The query for one symbol.
pub open spec fn spec_query(sym: Symbol) -> Query {
    if sym.spec_is_entry_point() {
        Query::EntryPoint(sym)
    } else {
        Query::Constant(sym)
    }
}

/// The resolution of one extension in progress: after the native library
/// has said whether the extension is present, each symbol of the extension
/// is asked for in turn, and what resolved is collected in a descriptor.
#[derive(Debug)]
pub struct Resolver {
    id: Alc,
    present: bool,
    todo: Vec<Symbol>,
    at: usize,
    descriptor: ExtensionDescriptor,
}

impl Resolver {
    #[verifier::type_invariant]
    spec fn well_formed(self) -> bool {
        &&& self.at <= self.todo@.len()
        &&& forall|i: int| 0 <= i < self.todo@.len() ==> self.todo@[i].spec_extension() == self.id
        &&& forall|sym: Symbol|
            self.descriptor.binding(sym) is Some ==> sym.spec_extension() == self.id
    }

    /// The extension that is resolved.
    pub closed spec fn id(&self) -> Alc {
        self.id
    }

    /// Whether the native library has the extension.
    pub closed spec fn present(&self) -> bool {
        self.present
    }

    /// The symbols that are still to be asked for, in their order.
    pub closed spec fn pending(&self) -> Seq<Symbol> {
        self.todo@.subrange(self.at as int, self.todo@.len() as int)
    }

    /// What resolved so far.
    pub closed spec fn descriptor(&self) -> ExtensionDescriptor {
        self.descriptor
    }

    /// Starts the resolution of `id`. Where the extension is present, every
    /// symbol of it is to be asked for, in the order of the positions;
    /// where it is not, none is.
    pub fn begin(id: Alc, present: bool) -> (r: Resolver)
        ensures
            r.id() == id,
            r.present() == present,
            forall|sym: Symbol| r.descriptor().binding(sym) is None,
            !present ==> r.pending().len() == 0,
            present ==> forall|sym: Symbol|
                r.pending().contains(sym) <==> sym.spec_extension() == id,
            forall|i: int, j: int|
                0 <= i < j < r.pending().len() ==> r.pending()[i].spec_slot()
                    < r.pending()[j].spec_slot(),
    {
        let todo = if present {
            symbols_of(id)
        } else {
            Vec::new()
        };
        assert forall|i: int| 0 <= i < todo@.len() implies todo@[i].spec_extension() == id by {
            assert(todo@.contains(todo@[i]));
        }
        let r = Resolver { id, present, todo, at: 0, descriptor: ExtensionDescriptor::new() };
        assert(r.pending() =~= todo@);
        r
    }

    /// What to ask next: the first of the pending symbols, by its kind.
    pub fn next(&self) -> (q: Query)
        ensures
            self.pending().len() == 0 ==> q == Query::Done,
            self.pending().len() > 0 ==> q == spec_query(self.pending()[0]),
    {
        proof {
            use_type_invariant(self);
        }
        if self.at < self.todo.len() {
            let sym = self.todo[self.at];
            if sym.is_entry_point() {
                Query::EntryPoint(sym)
            } else {
                Query::Constant(sym)
            }
        } else {
            Query::Done
        }
    }

    /// Takes in the value that the native library gave for the first
    /// pending symbol and the error code polled after asking. The symbol
    /// resolved to the value exactly if no error was reported. Where
    /// nothing is pending, nothing changes.
    pub fn answer_constant(&mut self, value: i32, code: i32)
        ensures
            final(self).id() == old(self).id(),
            final(self).present() == old(self).present(),
            answered(
                *old(self),
                *final(self),
                if spec_poll(code) is Ok {
                    Some(Binding::Constant(value))
                } else {
                    None
                },
            ),
    {
        proof {
            use_type_invariant(&*self);
        }
        if self.at < self.todo.len() {
            let sym = self.todo[self.at];
            let mut descriptor = self.descriptor;
            descriptor.bind_constant(sym, value, code);
            self.descriptor = descriptor;
            self.at = self.at + 1;
            assert(self.pending() =~= old(self).pending().drop_first());
        }
    }

    /// Takes in the address that the native library gave for the first
    /// pending symbol. The symbol resolved to the address exactly if the
    /// address is not null. Where nothing is pending, nothing changes.
    pub fn answer_entry_point(&mut self, address: usize)
        ensures
            final(self).id() == old(self).id(),
            final(self).present() == old(self).present(),
            answered(
                *old(self),
                *final(self),
                if address != 0 {
                    Some(Binding::EntryPoint(address))
                } else {
                    None
                },
            ),
    {
        proof {
            use_type_invariant(&*self);
        }
        if self.at < self.todo.len() {
            let sym = self.todo[self.at];
            let mut descriptor = self.descriptor;
            descriptor.bind_entry_point(sym, address);
            self.descriptor = descriptor;
            self.at = self.at + 1;
            assert(self.pending() =~= old(self).pending().drop_first());
        }
    }

    /// How the resolution ends: with what resolved where the extension is
    /// present, with an error that names the extension where it is not.
    /// What resolved holds symbols of this extension only.
    pub fn finish(self) -> (r: Resolution)
        ensures
            r == spec_resolution(self.id(), self.present(), self.descriptor()),
            forall|sym: Symbol|
                self.descriptor().binding(sym) is Some ==> sym.spec_extension() == self.id(),
    {
        proof {
            use_type_invariant(&self);
        }
        resolution(self.id, self.present, self.descriptor)
    }
}

/// What an answer does to a resolution in progress. The first pending
/// symbol is no longer pending, and where the answer holds a binding the
/// symbol is bound to it. Every other symbol keeps what it had. Where
/// nothing was pending, nothing changes.
pub open spec fn answered(before: Resolver, after: Resolver, binding: Option<Binding>) -> bool {
    if before.pending().len() == 0 {
        after.pending() == before.pending() && after.descriptor() == before.descriptor()
    } else {
        let sym = before.pending()[0];
        &&& after.pending() == before.pending().drop_first()
        &&& after.descriptor().binding(sym) == (match binding {
            Some(b) => Some(b),
            None => before.descriptor().binding(sym),
        })
        &&& forall|other: Symbol|
            other != sym ==> after.descriptor().binding(other) == before.descriptor().binding(
                other,
            )
    }
}

/// The cache after `id` was looked up with `outcome` at hand: a first lookup
/// records the outcome, a later one changes nothing.
pub open spec fn memoized(
    cache: Map<Alc, Resolution>,
    id: Alc,
    outcome: Resolution,
) -> Map<Alc, Resolution> {
    if cache.contains_key(id) {
        cache
    } else {
        cache.insert(id, outcome)
    }
}

/// The constant `sym` of an extension whose resolution ended in
/// `resolution`.
pub open spec fn spec_resolved_constant(resolution: Resolution, sym: Symbol) -> Result<
    i32,
    AltoError,
> {
    match resolution {
        Ok(d) => d.spec_constant(sym),
        Err(e) => Err(e),
    }
}

/// The entry point `sym` of an extension whose resolution ended in
/// `resolution`.
pub open spec fn spec_resolved_entry_point(resolution: Resolution, sym: Symbol) -> Result<
    usize,
    AltoError,
> {
    match resolution {
        Ok(d) => d.spec_entry_point(sym),
        Err(e) => Err(e),
    }
}

/// Remembers, for each extension that was looked up, how its resolution
/// ended. A failure is remembered like a success: nothing is tried twice.
#[derive(Clone, Copy, Debug)]
pub struct ExtensionCache {
    slots: [Option<Resolution>; 7],
}

impl View for ExtensionCache {
    type V = Map<Alc, Resolution>;

    /// The extensions looked up so far, each with its outcome.
    closed spec fn view(&self) -> Map<Alc, Resolution> {
        Map::new(
            |id: Alc| self.slots@[id.spec_slot()] is Some,
            |id: Alc| self.slots@[id.spec_slot()]->0,
        )
    }
}

impl ExtensionCache {
    /// A cache in which nothing was looked up yet.
    pub fn new() -> (cache: ExtensionCache)
        ensures
            cache@ == Map::<Alc, Resolution>::empty(),
    {
        let cache = ExtensionCache { slots: [None; 7] };
        assert(cache@ =~= Map::<Alc, Resolution>::empty());
        cache
    }

    /// The remembered outcome for `id`, or `None` where `id` was never
    /// looked up.
    pub fn cached(&self, id: Alc) -> (r: Option<Resolution>)
        ensures
            r == (if self@.contains_key(id) {
                Some(self@[id])
            } else {
                None
            }),
    {
        self.slots[id.slot()]
    }

    /// Looks `id` up. `outcome` is how the native resolution of `id` ends:
    /// the first lookup of `id` records and returns it, every later one
    /// returns what the first recorded and leaves the cache as it was.
    pub fn lookup(&mut self, id: Alc, outcome: Resolution) -> (r: Resolution)
        ensures
            final(self)@ == memoized(old(self)@, id, outcome),
            r == final(self)@[id],
    {
        let i: usize = id.slot();
        match self.slots[i] {
            Some(first) => first,
            None => {
                self.slots[i] = Some(outcome);
                assert(self@ =~= old(self)@.insert(id, outcome));
                outcome
            },
        }
    }

    /// Looks `id` up as `lookup` does and reads the constant `sym` from what
    /// it resolved to. The error is that of the extension where it did not
    /// resolve, else one that names `sym` where the constant is missing.
    pub fn constant(&mut self, id: Alc, outcome: Resolution, sym: Symbol) -> (r: Result<
        i32,
        AltoError,
    >)
        ensures
            final(self)@ == memoized(old(self)@, id, outcome),
            r == spec_resolved_constant(final(self)@[id], sym),
    {
        match self.lookup(id, outcome) {
            Ok(d) => d.constant(sym),
            Err(e) => Err(e),
        }
    }

    /// Looks `id` up as `lookup` does and reads the entry point `sym` from
    /// what it resolved to. The error is that of the extension where it did
    /// not resolve, else one that names `sym` where the entry point is
    /// missing.
    pub fn entry_point(&mut self, id: Alc, outcome: Resolution, sym: Symbol) -> (r: Result<
        usize,
        AltoError,
    >)
        ensures
            final(self)@ == memoized(old(self)@, id, outcome),
            r == spec_resolved_entry_point(final(self)@[id], sym),
    {
        match self.lookup(id, outcome) {
            Ok(d) => d.entry_point(sym),
            Err(e) => Err(e),
        }
    }

    /// Whether `id` resolved, or `None` where it was never looked up.
    pub fn is_present(&self, id: Alc) -> (r: Option<bool>)
        ensures
            r == (if self@.contains_key(id) {
                Some(self@[id] is Ok)
            } else {
                None
            }),
    {
        match self.slots[id.slot()] {
            Some(Ok(_)) => Some(true),
            Some(Err(_)) => Some(false),
            None => None,
        }
    }
}

/// Memoization is idempotent: once `id` was looked up, whatever a second
/// resolution of it would yield, a second lookup returns the outcome of the
/// first and leaves the cache unchanged.
pub proof fn lemma_lookup_idempotent(
    cache: Map<Alc, Resolution>,
    id: Alc,
    first: Resolution,
    second: Resolution,
)
    ensures
        memoized(memoized(cache, id, first), id, second) == memoized(cache, id, first),
        memoized(memoized(cache, id, first), id, second)[id] == memoized(cache, id, first)[id],
        !cache.contains_key(id) ==> memoized(memoized(cache, id, first), id, second)[id] == first,
{
}

/// A lookup of one extension leaves what is remembered of every other
/// extension as it was.
pub proof fn lemma_lookup_keeps_others(
    cache: Map<Alc, Resolution>,
    id: Alc,
    outcome: Resolution,
    other: Alc,
)
    requires
        other != id,
    ensures
        memoized(cache, id, outcome).contains_key(other) == cache.contains_key(other),
        cache.contains_key(other) ==> memoized(cache, id, outcome)[other] == cache[other],
{
}

} // verus!
