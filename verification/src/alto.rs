//! The root of the device layer. It exists only for a native library of a
//! supported version, holds the cache of the extensions that are resolved
//! without a device, and is what devices are opened from.

use vstd::prelude::*;
use crate::consts::{ALC_DEFAULT_DEVICE_SPECIFIER, ALC_DEVICE_SPECIFIER};
use crate::device::{CaptureDevice, Device, DeviceTrait, LoopbackDevice};
use crate::error::{poll, polled, spec_poll, spec_polled, AltoError};
use crate::ext::{
    memoized, spec_resolved_entry_point, Alc, ExtensionCache, Resolution, Symbol,
};
use crate::frame::LoopbackFrame;
use crate::table::{entries_view, has_terminator, parse_enum_spec, spec_parse};

verus! {

/// Whether a native library of this version is supported: major version 1,
/// minor version 1 or later.
pub open spec fn spec_version_supported(major: i32, minor: i32) -> bool {
    major == 1 && minor >= 1
}

/// The string property to read for the outputs. Where the enumerate-all
/// extension resolved, it is the extension's constant `sym`, and a missing
/// constant is an error. Where it did not, it is the standard property.
pub open spec fn spec_output_property(enumerate_all: Resolution, sym: Symbol, standard: i32)
    -> Result<i32, AltoError> {
    match enumerate_all {
        Ok(ea) => ea.spec_constant(sym),
        Err(_) => Ok(standard),
    }
}

/// What a native open call comes to: the error of the poll after it, else
/// an invalid-device error for a null handle, else the handle.
pub open spec fn spec_opened(dev: usize, code: i32) -> Result<usize, AltoError> {
    match spec_poll(code) {
        Err(e) => Err(e),
        Ok(_) => if dev == 0 {
            Err(AltoError::AlcInvalidDevice)
        } else {
            Ok(dev)
        },
    }
}

/// What a string table read from the native library comes to: the error
/// of the poll after the read, else the entries of the table, else an
/// invalid-value error for bytes that hold no terminator.
pub open spec fn spec_enumerated(table: Seq<u8>, code: i32) -> Result<Seq<Seq<u8>>, AltoError> {
    match spec_poll(code) {
        Err(e) => Err(e),
        Ok(_) => if has_terminator(table) {
            Ok(spec_parse(table))
        } else {
            Err(AltoError::AlcInvalidValue)
        },
    }
}

/// The entry point of the device layer.
#[derive(Debug)]
pub struct Alto {
    exts: ExtensionCache,
}

impl Alto {
    /// What the cache of the device-less extensions remembers.
    pub closed spec fn extensions(&self) -> Map<Alc, Resolution> {
        self.exts@
    }

    /// Admits a native library by the version it reports. Only a supported
    /// version yields a root, and so a way to open devices.
    pub fn check_version(major: i32, minor: i32) -> (r: Result<Alto, AltoError>)
        ensures
            spec_version_supported(major, minor) ==> r is Ok && r->Ok_0.extensions() == Map::<
                Alc,
                Resolution,
            >::empty(),
            !spec_version_supported(major, minor) ==> r is Err && r->Err_0
                == AltoError::AlcUnsupportedVersion,
    {
        if major == 1 && minor >= 1 {
            Ok(Alto { exts: ExtensionCache::new() })
        } else {
            Err(AltoError::AlcUnsupportedVersion)
        }
    }

    /// Reads the error code polled after a native call.
    pub fn get_error(&self, code: i32) -> (r: Result<(), AltoError>)
        ensures
            r == spec_poll(code),
    {
        poll(code)
    }

    /// What the cache remembers of the extension, or `None` where it was
    /// never looked up and is still to be resolved.
    pub fn cached(&self, id: Alc) -> (r: Option<Resolution>)
        ensures
            r == (if self.extensions().contains_key(id) {
                Some(self.extensions()[id])
            } else {
                None
            }),
    {
        self.exts.cached(id)
    }

    /// Looks up an extension that is resolved without a device. `outcome`
    /// is how its native resolution ends; it counts only at the first
    /// lookup.
    pub fn extension(&mut self, id: Alc, outcome: Resolution) -> (r: Resolution)
        ensures
            final(self).extensions() == memoized(old(self).extensions(), id, outcome),
            r == final(self).extensions()[id],
    {
        self.exts.lookup(id, outcome)
    }

    /// The string property to read for the specifier of the default output.
    /// `enumerate_all` is how the resolution of the enumerate-all extension
    /// ends.
    pub fn default_output_property(&mut self, enumerate_all: Resolution) -> (r: Result<
        i32,
        AltoError,
    >)
        ensures
            final(self).extensions() == memoized(
                old(self).extensions(),
                Alc::EnumerateAll,
                enumerate_all,
            ),
            r == spec_output_property(
                final(self).extensions()[Alc::EnumerateAll],
                Symbol::DefaultAllDevicesSpecifier,
                ALC_DEFAULT_DEVICE_SPECIFIER,
            ),
    {
        match self.exts.lookup(Alc::EnumerateAll, enumerate_all) {
            Ok(ea) => ea.constant(Symbol::DefaultAllDevicesSpecifier),
            Err(_) => Ok(ALC_DEFAULT_DEVICE_SPECIFIER),
        }
    }

    /// The specifier of the default output, from the string that was read
    /// and the error code polled after the read. An error code decides
    /// even though a string was returned.
    pub fn default_output(&self, spec: Vec<u8>, code: i32) -> (r: Result<Vec<u8>, AltoError>)
        ensures
            r == spec_polled(spec, code),
    {
        polled(spec, code)
    }

    /// The specifier of the default capture device, from the string that
    /// was read and the error code polled after the read.
    pub fn default_capture(&self, spec: Vec<u8>, code: i32) -> (r: Result<Vec<u8>, AltoError>)
        ensures
            r == spec_polled(spec, code),
    {
        polled(spec, code)
    }

    /// The string property to read for the table of the outputs.
    /// `enumerate_all` is how the resolution of the enumerate-all extension
    /// ends.
    pub fn enumerate_outputs_property(&mut self, enumerate_all: Resolution) -> (r: Result<
        i32,
        AltoError,
    >)
        ensures
            final(self).extensions() == memoized(
                old(self).extensions(),
                Alc::EnumerateAll,
                enumerate_all,
            ),
            r == spec_output_property(
                final(self).extensions()[Alc::EnumerateAll],
                Symbol::AllDevicesSpecifier,
                ALC_DEVICE_SPECIFIER,
            ),
    {
        match self.exts.lookup(Alc::EnumerateAll, enumerate_all) {
            Ok(ea) => ea.constant(Symbol::AllDevicesSpecifier),
            Err(_) => Ok(ALC_DEVICE_SPECIFIER),
        }
    }

    /// The specifiers of the outputs, from the table that was read and the
    /// error code polled after the read, in the table's order.
    pub fn enumerate_outputs(&self, table: &[u8], code: i32) -> (r: Result<
        Vec<Vec<u8>>,
        AltoError,
    >)
        ensures
            match spec_enumerated(table@, code) {
                Ok(entries) => r is Ok && entries_view(r->Ok_0) == entries,
                Err(e) => r is Err && r->Err_0 == e,
            },
    {
        Alto::enumerate(table, code)
    }

    /// The specifiers of the capture devices, from the table that was read
    /// and the error code polled after the read, in the table's order.
    pub fn enumerate_captures(&self, table: &[u8], code: i32) -> (r: Result<
        Vec<Vec<u8>>,
        AltoError,
    >)
        ensures
            match spec_enumerated(table@, code) {
                Ok(entries) => r is Ok && entries_view(r->Ok_0) == entries,
                Err(e) => r is Err && r->Err_0 == e,
            },
    {
        Alto::enumerate(table, code)
    }

    /// Polls, then parses.
    fn enumerate(table: &[u8], code: i32) -> (r: Result<Vec<Vec<u8>>, AltoError>)
        ensures
            match spec_enumerated(table@, code) {
                Ok(entries) => r is Ok && entries_view(r->Ok_0) == entries,
                Err(e) => r is Err && r->Err_0 == e,
            },
    {
        match poll(code) {
            Err(e) => Err(e),
            Ok(()) => parse_enum_spec(table),
        }
    }

    /// The device that a native open call yielded. `spec` is the specifier
    /// that was opened, `dev` the handle that came back, `code` the error
    /// code polled after the call. A null handle is an invalid device even
    /// where no error was reported: an opened device never holds one.
    pub fn open(&self, spec: Vec<u8>, dev: usize, code: i32) -> (r: Result<Device, AltoError>)
        ensures
            match spec_opened(dev, code) {
                Err(e) => r is Err && r->Err_0 == e,
                Ok(h) => r is Ok && r->Ok_0.handle() == h && r->Ok_0.spec_specifier() == spec@
                    && r->Ok_0.extensions() == Map::<Alc, Resolution>::empty()
                    && r->Ok_0.guards() == 0 && !r->Ok_0.pause().paused()
                    && !r->Ok_0.pause().pending(),
            },
    {
        match poll(code) {
            Err(e) => Err(e),
            Ok(()) => if dev == 0 {
                Err(AltoError::AlcInvalidDevice)
            } else {
                Ok(Device::from_handle(spec, dev))
            },
        }
    }

    /// The entry point through which a loopback device is opened.
    /// `loopback` is how the resolution of the loopback extension ends.
    /// Without the extension the open fails before anything else is tried.
    pub fn loopback_open_entry(&mut self, loopback: Resolution) -> (r: Result<usize, AltoError>)
        ensures
            final(self).extensions() == memoized(
                old(self).extensions(),
                Alc::SoftLoopback,
                loopback,
            ),
            r == spec_resolved_entry_point(
                final(self).extensions()[Alc::SoftLoopback],
                Symbol::LoopbackOpenDeviceSoft,
            ),
    {
        self.exts.entry_point(Alc::SoftLoopback, loopback, Symbol::LoopbackOpenDeviceSoft)
    }

    /// The loopback device that a native loopback open call yielded. The
    /// loopback extension and its open entry point come first: without them
    /// there is no device, whatever the call returned. Then the handle and
    /// the error code are read as for an output device.
    pub fn open_loopback<F: LoopbackFrame>(
        &mut self,
        loopback: Resolution,
        spec: Vec<u8>,
        dev: usize,
        code: i32,
    ) -> (r: Result<LoopbackDevice<F>, AltoError>)
        ensures
            final(self).extensions() == memoized(
                old(self).extensions(),
                Alc::SoftLoopback,
                loopback,
            ),
            match spec_resolved_entry_point(
                final(self).extensions()[Alc::SoftLoopback],
                Symbol::LoopbackOpenDeviceSoft,
            ) {
                Err(e) => r is Err && r->Err_0 == e,
                Ok(_) => match spec_opened(dev, code) {
                    Err(e) => r is Err && r->Err_0 == e,
                    Ok(h) => r is Ok && r->Ok_0.handle() == h && r->Ok_0.spec_specifier()
                        == spec@ && r->Ok_0.extensions() == Map::<Alc, Resolution>::empty(),
                },
            },
    {
        let _ = self.loopback_open_entry(loopback)?;
        match poll(code) {
            Err(e) => Err(e),
            Ok(()) => if dev == 0 {
                Err(AltoError::AlcInvalidDevice)
            } else {
                Ok(LoopbackDevice::from_handle(spec, dev))
            },
        }
    }

    /// The capture device that a native capture open call yielded, read as
    /// for an output device.
    pub fn open_capture(&self, spec: Vec<u8>, dev: usize, code: i32) -> (r: Result<
        CaptureDevice,
        AltoError,
    >)
        ensures
            match spec_opened(dev, code) {
                Err(e) => r is Err && r->Err_0 == e,
                Ok(h) => r is Ok && r->Ok_0.handle() == h && r->Ok_0.spec_specifier() == spec@,
            },
    {
        match poll(code) {
            Err(e) => Err(e),
            Ok(()) => if dev == 0 {
                Err(AltoError::AlcInvalidDevice)
            } else {
                Ok(CaptureDevice::from_handle(spec, dev))
            },
        }
    }
}

/// A successful open never yields a null handle, and an open that returns
/// a null handle fails: with the polled error, or as an invalid device
/// where none was reported.
pub proof fn lemma_open_never_null(dev: usize, code: i32)
    ensures
        spec_opened(dev, code) is Ok ==> spec_opened(dev, code)->Ok_0 != 0 && spec_opened(
            dev,
            code,
        )->Ok_0 == dev,
        dev == 0 ==> spec_opened(dev, code) is Err,
        dev == 0 && spec_poll(code) is Ok ==> spec_opened(dev, code) == Err::<usize, AltoError>(
            AltoError::AlcInvalidDevice,
        ),
{
}

} // verus!
