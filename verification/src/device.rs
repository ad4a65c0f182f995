//! The device family: output devices, loopback devices and capture
//! devices. Each holds one native handle, which is never null, a copy of
//! the specifier it was opened with, and (but for capture devices) its own
//! extension cache. A device is closed by giving it up: `close` takes the
//! value and hands back the handle to close, so no device is closed twice.

use vstd::prelude::*;
use crate::attrs::{
    context_attrs_list, handed_list, loopback_attrs_list, spec_context_attrs, spec_handed_list,
    spec_loopback_attrs, ContextAttrs, LoopbackAttrs,
};
use crate::consts::{ALC_NO_ERROR, ALC_TRUE};
use crate::error::{poll, spec_poll, spec_polled, AltoError};
use crate::ext::{
    memoized, spec_resolved_constant, spec_resolved_entry_point, Alc, ExtensionCache,
    Resolution, Symbol,
};
use crate::frame::LoopbackFrame;
use crate::hrtf::{spec_status, HrtfEnumeration, SoftHrtfStatus};
use crate::pause::{
    spec_acquired, spec_needs_pause, spec_needs_resume, spec_released, spec_step, GuardEvent,
    PauseCount,
};

verus! {

/// What the connection property and the error code polled after reading it
/// say: connected exactly if the value is the native true.
pub open spec fn spec_connected(value: i32, code: i32) -> Result<bool, AltoError> {
    spec_polled(value == ALC_TRUE, code)
}

/// What the status property and the error code polled after reading it
/// say: the error code comes first, then the reading of the status.
pub open spec fn spec_polled_status(hrtf: Resolution, status: i32, code: i32) -> Result<
    SoftHrtfStatus,
    AltoError,
> {
    match hrtf {
        Err(e) => Err(e),
        Ok(ash) => match spec_poll(code) {
            Err(e) => Err(e),
            Ok(_) => spec_status(ash, status),
        },
    }
}

/// Whether two values hold the same native handle and the same specifier:
/// what an operation on a device leaves as it was.
pub open spec fn same_device<D: DeviceTrait>(a: D, b: D) -> bool {
    a.handle() == b.handle() && a.spec_specifier() == b.spec_specifier()
}

/// Capabilities shared by output devices and loopback devices.
pub trait DeviceTrait: Sized {
    /// The native handle of the device.
    spec fn handle(&self) -> usize;

    /// The specifier that the device was opened with.
    spec fn spec_specifier(&self) -> Seq<u8>;

    /// What the device's extension cache remembers.
    spec fn extensions(&self) -> Map<Alc, Resolution>;

    /// Whether the device can be lost, so that its connection state must be
    /// asked for.
    spec fn can_disconnect(&self) -> bool;

    /// Specifier used to open this device.
    fn specifier(&self) -> (s: &Vec<u8>)
        ensures
            s@ == self.spec_specifier(),
    ;

    /// Raw handle as the native library gave it. It is never null.
    fn raw_device(&self) -> (h: usize)
        ensures
            h == self.handle(),
            h != 0,
    ;

    /// What the device's cache remembers of the extension, or `None` where
    /// it was never looked up and is still to be resolved.
    fn cached(&self, ext: Alc) -> (r: Option<Resolution>)
        ensures
            r == (if self.extensions().contains_key(ext) {
                Some(self.extensions()[ext])
            } else {
                None
            }),
    ;

    /// Whether the extension is present on this device. `outcome` is how
    /// its native resolution ends; it counts only at the first lookup.
    fn is_extension_present(&mut self, ext: Alc, outcome: Resolution) -> (present: bool)
        ensures
            final(self).handle() == old(self).handle(),
            final(self).spec_specifier() == old(self).spec_specifier(),
            final(self).extensions() == memoized(old(self).extensions(), ext, outcome),
            present == (final(self).extensions()[ext] is Ok),
    ;

    /// The integer property to read for the connection state, or `None`
    /// where the device is connected without asking. `disconnect` is how the
    /// resolution of the disconnect extension ends; a device that does not
    /// ask leaves it aside.
    fn connected_property(&mut self, disconnect: Resolution) -> (r: Result<
        Option<i32>,
        AltoError,
    >)
        ensures
            final(self).handle() == old(self).handle(),
            final(self).spec_specifier() == old(self).spec_specifier(),
            old(self).can_disconnect() ==> final(self).extensions() == memoized(
                old(self).extensions(),
                Alc::Disconnect,
                disconnect,
            ) && match spec_resolved_constant(
                final(self).extensions()[Alc::Disconnect],
                Symbol::Connected,
            ) {
                Ok(property) => r == Ok::<Option<i32>, AltoError>(Some(property)),
                Err(e) => r == Err::<Option<i32>, AltoError>(e),
            },
            !old(self).can_disconnect() ==> final(self).extensions() == old(self).extensions()
                && r == Ok::<Option<i32>, AltoError>(None),
    ;

    /// The connection state, from the value of the connection property and
    /// the error code polled after reading it. Once this is false the device
    /// stays unusable. A device that cannot be lost is connected whatever
    /// the two hold.
    fn connected(&self, value: i32, code: i32) -> (r: Result<bool, AltoError>)
        ensures
            self.can_disconnect() ==> r == spec_connected(value, code),
            !self.can_disconnect() ==> r == Ok::<bool, AltoError>(true),
    ;

    /// The integer property that holds the number of HRTF specifiers.
    /// `hrtf` is how the resolution of the HRTF extension ends.
    fn hrtf_count_property(&mut self, hrtf: Resolution) -> (r: Result<i32, AltoError>)
        ensures
            final(self).handle() == old(self).handle(),
            final(self).spec_specifier() == old(self).spec_specifier(),
            final(self).extensions() == memoized(old(self).extensions(), Alc::SoftHrtf, hrtf),
            r == spec_resolved_constant(
                final(self).extensions()[Alc::SoftHrtf],
                Symbol::NumHrtfSpecifiersSoft,
            ),
    ;

    /// Starts the collection of the HRTF specifiers, from the number that
    /// the device reported and the error code polled after reading it.
    fn enumerate_soft_hrtfs(&mut self, hrtf: Resolution, count: i32, code: i32) -> (r: Result<
        HrtfEnumeration,
        AltoError,
    >)
        ensures
            final(self).handle() == old(self).handle(),
            final(self).spec_specifier() == old(self).spec_specifier(),
            final(self).extensions() == memoized(old(self).extensions(), Alc::SoftHrtf, hrtf),
            match final(self).extensions()[Alc::SoftHrtf] {
                Err(e) => r is Err && r->Err_0 == e,
                Ok(ash) => match spec_poll(code) {
                    Err(e) => r is Err && r->Err_0 == e,
                    Ok(_) => r is Ok && r->Ok_0.descriptor() == ash && r->Ok_0.count() == count
                        && r->Ok_0.fetched() == Seq::<Seq<u8>>::empty(),
                },
            },
    ;

    /// The integer property that holds the HRTF status.
    fn hrtf_status_property(&mut self, hrtf: Resolution) -> (r: Result<i32, AltoError>)
        ensures
            final(self).handle() == old(self).handle(),
            final(self).spec_specifier() == old(self).spec_specifier(),
            final(self).extensions() == memoized(old(self).extensions(), Alc::SoftHrtf, hrtf),
            r == spec_resolved_constant(
                final(self).extensions()[Alc::SoftHrtf],
                Symbol::HrtfStatusSoft,
            ),
    ;

    /// The HRTF mode, from the value of the status property and the error
    /// code polled after reading it.
    fn soft_hrtf_status(&mut self, hrtf: Resolution, status: i32, code: i32) -> (r: Result<
        SoftHrtfStatus,
        AltoError,
    >)
        ensures
            final(self).handle() == old(self).handle(),
            final(self).spec_specifier() == old(self).spec_specifier(),
            final(self).extensions() == memoized(old(self).extensions(), Alc::SoftHrtf, hrtf),
            r == spec_polled_status(final(self).extensions()[Alc::SoftHrtf], status, code),
    ;
}

/// Starts the collection of the HRTF specifiers on the cache of a device.
fn begin_hrtfs(exts: &mut ExtensionCache, hrtf: Resolution, count: i32, code: i32) -> (r: Result<
    HrtfEnumeration,
    AltoError,
>)
    ensures
        final(exts)@ == memoized(old(exts)@, Alc::SoftHrtf, hrtf),
        match final(exts)@[Alc::SoftHrtf] {
            Err(e) => r is Err && r->Err_0 == e,
            Ok(ash) => match spec_poll(code) {
                Err(e) => r is Err && r->Err_0 == e,
                Ok(_) => r is Ok && r->Ok_0.descriptor() == ash && r->Ok_0.count() == count
                    && r->Ok_0.fetched() == Seq::<Seq<u8>>::empty(),
            },
        },
{
    match exts.lookup(Alc::SoftHrtf, hrtf) {
        Err(e) => Err(e),
        Ok(ash) => HrtfEnumeration::begin(ash, count, code),
    }
}

/// Reads the HRTF status on the cache of a device.
fn read_status(exts: &mut ExtensionCache, hrtf: Resolution, status: i32, code: i32) -> (r: Result<
    SoftHrtfStatus,
    AltoError,
>)
    ensures
        final(exts)@ == memoized(old(exts)@, Alc::SoftHrtf, hrtf),
        r == spec_polled_status(final(exts)@[Alc::SoftHrtf], status, code),
{
    match exts.lookup(Alc::SoftHrtf, hrtf) {
        Err(e) => Err(e),
        Ok(ash) => match poll(code) {
            Err(e) => Err(e),
            Ok(()) => SoftHrtfStatus::from_code(&ash, status),
        },
    }
}

/// The message to report after a native teardown call, if any: teardown
/// cannot fail outward, so a failure is only reported.
pub fn teardown_report(code: i32, message: &'static str) -> (r: Option<&'static str>)
    ensures
        r is Some <==> code != ALC_NO_ERROR,
        r is Some ==> r->0 == message,
{
    if code == ALC_NO_ERROR {
        None
    } else {
        Some(message)
    }
}

/// An audio device as the native library exposes it, typically an
/// endpoint that the operating system reports.
#[derive(Debug)]
pub struct Device {
    spec: Vec<u8>,
    dev: usize,
    exts: ExtensionCache,
    pause_rc: PauseCount,
}

/// What a request for a pause guard comes to.
#[derive(Debug)]
pub enum PauseStep {
    /// The device was paused already: the guard stands.
    Paused(SoftPauseLock),
    /// This is the first guard: call the native pause through the entry
    /// point, poll the error and hand the code to `pause_polled`.
    CallPause { entry_point: usize },
}

/// A guard that keeps a device paused. The device resumes when the last
/// guard is released.
#[derive(Debug)]
pub struct SoftPauseLock {
    dev: usize,
}

impl SoftPauseLock {
    /// The handle of the device that the guard stands on.
    pub closed spec fn handle(&self) -> usize {
        self.dev
    }

    /// Asks for a guard on `dev`: see `Device::soft_pause`.
    pub fn new(dev: &mut Device, pause: Resolution) -> (r: Result<PauseStep, AltoError>)
        requires
            !old(dev).pause().pending(),
            old(dev).guards() < usize::MAX,
        ensures
            pause_requested(*old(dev), *final(dev), pause, r),
    {
        dev.soft_pause(pause)
    }

    /// Raw handle of the device that the guard stands on.
    pub fn raw_device(&self) -> (h: usize)
        ensures
            h == self.handle(),
    {
        self.dev
    }

    /// Gives the guard up on `dev`: see `Device::resume`.
    pub fn release(self, dev: &mut Device) -> (r: Result<Option<usize>, AltoError>)
        requires
            old(dev).guards() >= 1,
            !old(dev).pause().pending(),
            self.handle() == old(dev).handle(),
        ensures
            guard_released(*old(dev), *final(dev), r),
    {
        dev.resume(self)
    }
}

impl Device {
    #[verifier::type_invariant]
    spec fn well_formed(self) -> bool {
        self.dev != 0
    }

    /// The pause count of the device.
    pub closed spec fn pause(&self) -> PauseCount {
        self.pause_rc
    }

    /// Number of pause guards counted on the device.
    pub open spec fn guards(&self) -> nat {
        self.pause().count()
    }

    /// The device that a successful native open call yields: `dev` is the
    /// handle, `spec` the specifier that was opened. Its cache is empty and
    /// no guard stands on it.
    pub(crate) fn from_handle(spec: Vec<u8>, dev: usize) -> (d: Device)
        requires
            dev != 0,
        ensures
            d.handle() == dev,
            d.spec_specifier() == spec@,
            d.extensions() == Map::<Alc, Resolution>::empty(),
            d.guards() == 0,
            !d.pause().paused(),
            !d.pause().pending(),
    {
        Device { spec, dev, exts: ExtensionCache::new(), pause_rc: PauseCount::new() }
    }

    /// Number of pause guards counted on the device.
    pub fn pause_count(&self) -> (n: usize)
        ensures
            n == self.guards(),
    {
        self.pause_rc.guards()
    }

    /// Whether the outcome of a native pause call is awaited.
    pub fn pause_pending(&self) -> (p: bool)
        ensures
            p == self.pause().pending(),
            p ==> self.guards() == 1 && !self.pause().paused(),
    {
        self.pause_rc.is_pending()
    }

    /// Whether the device is paused natively. While no pause is pending,
    /// that is so exactly if at least one guard stands.
    pub fn is_paused(&self) -> (p: bool)
        ensures
            p == self.pause().paused(),
            !self.pause().pending() ==> (p <==> self.guards() >= 1),
            self.pause().pending() ==> !p,
    {
        self.pause_rc.is_paused()
    }

    /// Builds the attribute list for a context of this device. `hrtf` is
    /// how the resolution of the HRTF extension ends.
    pub fn make_attrs_vec(&mut self, attrs: Option<ContextAttrs>, hrtf: Resolution) -> (r: Result<
        Vec<i32>,
        AltoError,
    >)
        ensures
            same_device(*final(self), *old(self)),
            final(self).pause() == old(self).pause(),
            final(self).extensions() == memoized(old(self).extensions(), Alc::SoftHrtf, hrtf),
            match spec_context_attrs(attrs, final(self).extensions()[Alc::SoftHrtf]) {
                Ok(list) => r is Ok && r->Ok_0@ == list,
                Err(e) => r is Err && r->Err_0 == e,
            },
    {
        proof {
            use_type_invariant(&*self);
        }
        let mut exts = self.exts;
        let ash = exts.lookup(Alc::SoftHrtf, hrtf);
        self.exts = exts;
        context_attrs_list(attrs, &ash)
    }

    /// The attribute list to hand to the native call that creates a
    /// context: `None`, for no list, where no attributes are given and
    /// where the list cannot be built.
    pub fn new_context(&mut self, attrs: Option<ContextAttrs>, hrtf: Resolution) -> (r: Option<
        Vec<i32>,
    >)
        ensures
            same_device(*final(self), *old(self)),
            final(self).pause() == old(self).pause(),
            final(self).extensions() == memoized(old(self).extensions(), Alc::SoftHrtf, hrtf),
            match spec_handed_list(
                spec_context_attrs(attrs, final(self).extensions()[Alc::SoftHrtf]),
            ) {
                Some(list) => r is Some && r->0@ == list,
                None => r is None,
            },
    {
        handed_list(self.make_attrs_vec(attrs, hrtf))
    }

    /// The entry point through which the device is reset and the attribute
    /// list to hand to it (`None`, for no list, where there is none to
    /// hand over). The reset needs the HRTF extension and its entry point.
    pub fn soft_reset(&mut self, attrs: Option<ContextAttrs>, hrtf: Resolution) -> (r: Result<
        (usize, Option<Vec<i32>>),
        AltoError,
    >)
        ensures
            same_device(*final(self), *old(self)),
            final(self).pause() == old(self).pause(),
            final(self).extensions() == memoized(old(self).extensions(), Alc::SoftHrtf, hrtf),
            match spec_resolved_entry_point(
                final(self).extensions()[Alc::SoftHrtf],
                Symbol::ResetDeviceSoft,
            ) {
                Err(e) => r is Err && r->Err_0 == e,
                Ok(p) => r is Ok && r->Ok_0.0 == p && match spec_handed_list(
                    spec_context_attrs(attrs, final(self).extensions()[Alc::SoftHrtf]),
                ) {
                    Some(list) => r->Ok_0.1 is Some && r->Ok_0.1->0@ == list,
                    None => r->Ok_0.1 is None,
                },
            },
    {
        proof {
            use_type_invariant(&*self);
        }
        let mut exts = self.exts;
        let entry = exts.entry_point(Alc::SoftHrtf, hrtf, Symbol::ResetDeviceSoft);
        self.exts = exts;
        let entry_point = entry?;
        let list = self.new_context(attrs, hrtf);
        Ok((entry_point, list))
    }

    /// Asks for a pause guard. `pause` is how the resolution of the pause
    /// extension ends. Without the extension or its pause entry point there
    /// is no guard and nothing is counted. Else the guard is counted: where
    /// others stand it is handed out, and where it is the first the native
    /// pause is to be called before `pause_polled` hands it out.
    pub fn soft_pause(&mut self, pause: Resolution) -> (r: Result<PauseStep, AltoError>)
        requires
            !old(self).pause().pending(),
            old(self).guards() < usize::MAX,
        ensures
            pause_requested(*old(self), *final(self), pause, r),
    {
        proof {
            use_type_invariant(&*self);
        }
        let mut exts = self.exts;
        let entry = exts.entry_point(Alc::SoftPauseDevice, pause, Symbol::DevicePauseSoft);
        self.exts = exts;
        let entry_point = entry?;
        let mut pause_rc = self.pause_rc;
        let first = pause_rc.acquire();
        self.pause_rc = pause_rc;
        match first {
            Some(true) => Ok(PauseStep::CallPause { entry_point }),
            _ => Ok(PauseStep::Paused(SoftPauseLock { dev: self.dev })),
        }
    }

    /// Ends a request that had to call the native pause. `code` is the
    /// error code polled after the call. On "no error" the guard is handed
    /// out. On an error the guard is taken off the count again and the
    /// request fails: no guard is made and no pause is left behind.
    pub fn pause_polled(&mut self, code: i32) -> (r: Result<SoftPauseLock, AltoError>)
        requires
            old(self).pause().pending(),
        ensures
            same_device(*final(self), *old(self)),
            final(self).extensions() == old(self).extensions(),
            !final(self).pause().pending(),
            final(self).pause().state() == spec_step(
                old(self).pause().state(),
                GuardEvent::Construct { native_ok: spec_poll(code) is Ok },
            ),
            match spec_poll(code) {
                Ok(_) => r is Ok && r->Ok_0.handle() == old(self).handle() && final(self).guards()
                    == old(self).guards(),
                Err(e) => r is Err && r->Err_0 == e && final(self).guards() == spec_released(
                    old(self).guards(),
                ),
            },
    {
        proof {
            use_type_invariant(&*self);
        }
        let polled = poll(code);
        let mut pause_rc = self.pause_rc;
        pause_rc.confirm(polled.is_ok());
        self.pause_rc = pause_rc;
        match polled {
            Ok(()) => Ok(SoftPauseLock { dev: self.dev }),
            Err(e) => Err(e),
        }
    }

    /// Releases a guard. The guard is taken off the count. Where it was the
    /// last, the device is to be resumed: the result is the entry point to
    /// call, or the error of the pause extension or of its resume entry
    /// point where the cache holds none. Where other guards stand, the
    /// result is `Ok(None)`.
    pub fn resume(&mut self, lock: SoftPauseLock) -> (r: Result<Option<usize>, AltoError>)
        requires
            old(self).guards() >= 1,
            !old(self).pause().pending(),
            lock.handle() == old(self).handle(),
        ensures
            guard_released(*old(self), *final(self), r),
    {
        proof {
            use_type_invariant(&*self);
        }
        let mut pause_rc = self.pause_rc;
        let last = pause_rc.release();
        self.pause_rc = pause_rc;
        match last {
            Some(true) => match self.exts.cached(Alc::SoftPauseDevice) {
                Some(Ok(d)) => match d.entry_point(Symbol::DeviceResumeSoft) {
                    Ok(p) => Ok(Some(p)),
                    Err(e) => Err(e),
                },
                Some(Err(e)) => Err(e),
                None => Err(AltoError::AlcExtensionNotPresent(Alc::SoftPauseDevice)),
            },
            _ => Ok(None),
        }
    }

    /// Gives the device up and hands back the handle to close natively.
    /// The device is gone after this: it cannot be closed a second time.
    pub fn close(self) -> (h: usize)
        ensures
            h == self.handle(),
            h != 0,
    {
        proof {
            use_type_invariant(&self);
        }
        self.dev
    }
}

/// What a request for a pause guard on the device `before` comes to, where
/// `pause` is how the resolution of the pause extension ends: the device
/// `after` and the result `r`. The request needs the extension and its pause
/// entry point; without them it fails and counts nothing. Else the guard is
/// counted. Where it is the first, the native pause is to be called through
/// the entry point and is pending. Where others stand, the guard is made
/// at once.
pub open spec fn pause_requested(
    before: Device,
    after: Device,
    pause: Resolution,
    r: Result<PauseStep, AltoError>,
) -> bool {
    let entry = spec_resolved_entry_point(
        after.extensions()[Alc::SoftPauseDevice],
        Symbol::DevicePauseSoft,
    );
    &&& same_device(after, before)
    &&& after.extensions() == memoized(before.extensions(), Alc::SoftPauseDevice, pause)
    &&& match entry {
        Err(e) => r is Err && r->Err_0 == e && after.pause() == before.pause(),
        Ok(p) => {
            &&& r is Ok
            &&& after.guards() == spec_acquired(before.guards())
            &&& if spec_needs_pause(before.guards()) {
                &&& r->Ok_0 == (PauseStep::CallPause { entry_point: p })
                &&& after.pause().pending()
                &&& after.pause().state() == before.pause().state()
            } else {
                &&& r->Ok_0 is Paused
                &&& r->Ok_0->Paused_0.handle() == before.handle()
                &&& !after.pause().pending()
                &&& after.pause().state() == spec_step(
                    before.pause().state(),
                    GuardEvent::Construct { native_ok: true },
                )
            }
        },
    }
}

/// What the release of a guard on the device `before` comes to: the device
/// `after` and the result `r`. The guard is taken off the count. Where it
/// was the last, the device is to be resumed through the resume entry point
/// that the cache holds, and the lack of one is the error. Where others
/// stand, nothing is to be called.
pub open spec fn guard_released(
    before: Device,
    after: Device,
    r: Result<Option<usize>, AltoError>,
) -> bool {
    &&& same_device(after, before)
    &&& after.extensions() == before.extensions()
    &&& after.guards() == spec_released(before.guards())
    &&& !after.pause().pending()
    &&& after.pause().state() == spec_step(before.pause().state(), GuardEvent::Drop)
    &&& if spec_needs_resume(before.guards()) {
        match spec_cached_resume(before.extensions()) {
            Ok(p) => r == Ok::<Option<usize>, AltoError>(Some(p)),
            Err(e) => r == Err::<Option<usize>, AltoError>(e),
        }
    } else {
        r == Ok::<Option<usize>, AltoError>(None)
    }
}

/// The resume entry point as a cache holds it: that of the resolved pause
/// extension. A cache that never looked the extension up counts it as not
/// present.
pub open spec fn spec_cached_resume(cache: Map<Alc, Resolution>) -> Result<usize, AltoError> {
    if cache.contains_key(Alc::SoftPauseDevice) {
        spec_resolved_entry_point(cache[Alc::SoftPauseDevice], Symbol::DeviceResumeSoft)
    } else {
        Err(AltoError::AlcExtensionNotPresent(Alc::SoftPauseDevice))
    }
}

impl DeviceTrait for Device {
    closed spec fn handle(&self) -> usize {
        self.dev
    }

    closed spec fn spec_specifier(&self) -> Seq<u8> {
        self.spec@
    }

    closed spec fn extensions(&self) -> Map<Alc, Resolution> {
        self.exts@
    }

    open spec fn can_disconnect(&self) -> bool {
        true
    }

    fn specifier(&self) -> (s: &Vec<u8>) {
        &self.spec
    }

    fn raw_device(&self) -> (h: usize) {
        proof {
            use_type_invariant(self);
        }
        self.dev
    }

    fn cached(&self, ext: Alc) -> (r: Option<Resolution>) {
        self.exts.cached(ext)
    }

    fn is_extension_present(&mut self, ext: Alc, outcome: Resolution) -> (present: bool)
        ensures
            final(self).pause() == old(self).pause(),
    {
        proof {
            use_type_invariant(&*self);
        }
        let mut exts = self.exts;
        let resolution = exts.lookup(ext, outcome);
        self.exts = exts;
        resolution.is_ok()
    }

    fn connected_property(&mut self, disconnect: Resolution) -> (r: Result<
        Option<i32>,
        AltoError,
    >)
        ensures
            final(self).pause() == old(self).pause(),
    {
        proof {
            use_type_invariant(&*self);
        }
        let mut exts = self.exts;
        let property = exts.constant(Alc::Disconnect, disconnect, Symbol::Connected);
        self.exts = exts;
        match property {
            Ok(property) => Ok(Some(property)),
            Err(e) => Err(e),
        }
    }

    fn connected(&self, value: i32, code: i32) -> (r: Result<bool, AltoError>) {
        match poll(code) {
            Ok(()) => Ok(value == ALC_TRUE),
            Err(e) => Err(e),
        }
    }

    fn hrtf_count_property(&mut self, hrtf: Resolution) -> (r: Result<i32, AltoError>)
        ensures
            final(self).pause() == old(self).pause(),
    {
        proof {
            use_type_invariant(&*self);
        }
        let mut exts = self.exts;
        let property = exts.constant(Alc::SoftHrtf, hrtf, Symbol::NumHrtfSpecifiersSoft);
        self.exts = exts;
        property
    }

    fn enumerate_soft_hrtfs(&mut self, hrtf: Resolution, count: i32, code: i32) -> (r: Result<
        HrtfEnumeration,
        AltoError,
    >)
        ensures
            final(self).pause() == old(self).pause(),
    {
        proof {
            use_type_invariant(&*self);
        }
        let mut exts = self.exts;
        let begun = begin_hrtfs(&mut exts, hrtf, count, code);
        self.exts = exts;
        begun
    }

    fn hrtf_status_property(&mut self, hrtf: Resolution) -> (r: Result<i32, AltoError>)
        ensures
            final(self).pause() == old(self).pause(),
    {
        proof {
            use_type_invariant(&*self);
        }
        let mut exts = self.exts;
        let property = exts.constant(Alc::SoftHrtf, hrtf, Symbol::HrtfStatusSoft);
        self.exts = exts;
        property
    }

    fn soft_hrtf_status(&mut self, hrtf: Resolution, status: i32, code: i32) -> (r: Result<
        SoftHrtfStatus,
        AltoError,
    >)
        ensures
            final(self).pause() == old(self).pause(),
    {
        proof {
            use_type_invariant(&*self);
        }
        let mut exts = self.exts;
        let read = read_status(&mut exts, hrtf, status, code);
        self.exts = exts;
        read
    }
}

impl PartialEq for Device {
    /// Two values are the same device exactly if their native handles are
    /// equal, whatever their specifiers.
    fn eq(&self, other: &Device) -> (r: bool) {
        self.dev == other.dev
    }
}

impl Eq for Device {

}

impl vstd::std_specs::cmp::PartialEqSpecImpl for Device {
    open spec fn obeys_eq_spec() -> bool {
        true
    }

    open spec fn eq_spec(&self, other: &Device) -> bool {
        self.handle() == other.handle()
    }
}

/// A loopback device, which renders frames of the layout `F` into a buffer
/// of the application. It exists only with the loopback extension.
#[derive(Debug)]
pub struct LoopbackDevice<F: LoopbackFrame> {
    spec: Vec<u8>,
    dev: usize,
    exts: ExtensionCache,
    marker: core::marker::PhantomData<F>,
}

impl<F: LoopbackFrame> LoopbackDevice<F> {
    #[verifier::type_invariant]
    spec fn well_formed(self) -> bool {
        self.dev != 0
    }

    /// The device that a successful native loopback open call yields.
    pub(crate) fn from_handle(spec: Vec<u8>, dev: usize) -> (d: LoopbackDevice<F>)
        requires
            dev != 0,
        ensures
            d.handle() == dev,
            d.spec_specifier() == spec@,
            d.extensions() == Map::<Alc, Resolution>::empty(),
    {
        LoopbackDevice {
            spec,
            dev,
            exts: ExtensionCache::new(),
            marker: core::marker::PhantomData,
        }
    }

    /// Builds the attribute list for a context of this device. `loopback`
    /// is what the resolution of the loopback extension came to, `hrtf` how
    /// that of the HRTF extension ends.
    pub fn make_attrs_vec(
        &mut self,
        freq: i32,
        attrs: Option<LoopbackAttrs>,
        loopback: &Resolution,
        hrtf: Resolution,
    ) -> (r: Result<Vec<i32>, AltoError>)
        ensures
            same_device(*final(self), *old(self)),
            final(self).extensions() == memoized(old(self).extensions(), Alc::SoftHrtf, hrtf),
            match spec_loopback_attrs(
                freq,
                F::spec_channels(),
                F::spec_sample_ty(),
                attrs,
                *loopback,
                final(self).extensions()[Alc::SoftHrtf],
            ) {
                Ok(list) => r is Ok && r->Ok_0@ == list,
                Err(e) => r is Err && r->Err_0 == e,
            },
    {
        proof {
            use_type_invariant(&*self);
        }
        let mut exts = self.exts;
        let ash = exts.lookup(Alc::SoftHrtf, hrtf);
        self.exts = exts;
        loopback_attrs_list::<F>(freq, attrs, loopback, &ash)
    }

    /// The attribute list to hand to the native call that creates a
    /// context, or the error for which none can be built.
    pub fn new_context(
        &mut self,
        freq: i32,
        attrs: Option<LoopbackAttrs>,
        loopback: &Resolution,
        hrtf: Resolution,
    ) -> (r: Result<Vec<i32>, AltoError>)
        ensures
            same_device(*final(self), *old(self)),
            final(self).extensions() == memoized(old(self).extensions(), Alc::SoftHrtf, hrtf),
            match spec_loopback_attrs(
                freq,
                F::spec_channels(),
                F::spec_sample_ty(),
                attrs,
                *loopback,
                final(self).extensions()[Alc::SoftHrtf],
            ) {
                Ok(list) => r is Ok && r->Ok_0@ == list,
                Err(e) => r is Err && r->Err_0 == e,
            },
    {
        self.make_attrs_vec(freq, attrs, loopback, hrtf)
    }

    /// The entry point through which the device is reset and the attribute
    /// list to hand to it (`None`, for no list, where there is none to
    /// hand over). The reset needs the HRTF extension and its entry point.
    pub fn soft_reset(
        &mut self,
        freq: i32,
        attrs: Option<LoopbackAttrs>,
        loopback: &Resolution,
        hrtf: Resolution,
    ) -> (r: Result<(usize, Option<Vec<i32>>), AltoError>)
        ensures
            same_device(*final(self), *old(self)),
            final(self).extensions() == memoized(old(self).extensions(), Alc::SoftHrtf, hrtf),
            match spec_resolved_entry_point(
                final(self).extensions()[Alc::SoftHrtf],
                Symbol::ResetDeviceSoft,
            ) {
                Err(e) => r is Err && r->Err_0 == e,
                Ok(p) => r is Ok && r->Ok_0.0 == p && match spec_handed_list(
                    spec_loopback_attrs(
                        freq,
                        F::spec_channels(),
                        F::spec_sample_ty(),
                        attrs,
                        *loopback,
                        final(self).extensions()[Alc::SoftHrtf],
                    ),
                ) {
                    Some(list) => r->Ok_0.1 is Some && r->Ok_0.1->0@ == list,
                    None => r->Ok_0.1 is None,
                },
            },
    {
        proof {
            use_type_invariant(&*self);
        }
        let mut exts = self.exts;
        let entry = exts.entry_point(Alc::SoftHrtf, hrtf, Symbol::ResetDeviceSoft);
        self.exts = exts;
        let entry_point = entry?;
        let list = handed_list(self.make_attrs_vec(freq, attrs, loopback, hrtf));
        Ok((entry_point, list))
    }

    /// Gives the device up and hands back the handle to close natively.
    /// The device is gone after this: it cannot be closed a second time.
    pub fn close(self) -> (h: usize)
        ensures
            h == self.handle(),
            h != 0,
    {
        proof {
            use_type_invariant(&self);
        }
        self.dev
    }
}

impl<F: LoopbackFrame> DeviceTrait for LoopbackDevice<F> {
    closed spec fn handle(&self) -> usize {
        self.dev
    }

    closed spec fn spec_specifier(&self) -> Seq<u8> {
        self.spec@
    }

    closed spec fn extensions(&self) -> Map<Alc, Resolution> {
        self.exts@
    }

    open spec fn can_disconnect(&self) -> bool {
        false
    }

    fn specifier(&self) -> (s: &Vec<u8>) {
        &self.spec
    }

    fn raw_device(&self) -> (h: usize) {
        proof {
            use_type_invariant(self);
        }
        self.dev
    }

    fn cached(&self, ext: Alc) -> (r: Option<Resolution>) {
        self.exts.cached(ext)
    }

    fn is_extension_present(&mut self, ext: Alc, outcome: Resolution) -> (present: bool) {
        proof {
            use_type_invariant(&*self);
        }
        let mut exts = self.exts;
        let resolution = exts.lookup(ext, outcome);
        self.exts = exts;
        resolution.is_ok()
    }

    fn connected_property(&mut self, disconnect: Resolution) -> (r: Result<
        Option<i32>,
        AltoError,
    >) {
        Ok(None)
    }

    fn connected(&self, value: i32, code: i32) -> (r: Result<bool, AltoError>) {
        Ok(true)
    }

    fn hrtf_count_property(&mut self, hrtf: Resolution) -> (r: Result<i32, AltoError>) {
        proof {
            use_type_invariant(&*self);
        }
        let mut exts = self.exts;
        let property = exts.constant(Alc::SoftHrtf, hrtf, Symbol::NumHrtfSpecifiersSoft);
        self.exts = exts;
        property
    }

    fn enumerate_soft_hrtfs(&mut self, hrtf: Resolution, count: i32, code: i32) -> (r: Result<
        HrtfEnumeration,
        AltoError,
    >) {
        proof {
            use_type_invariant(&*self);
        }
        let mut exts = self.exts;
        let begun = begin_hrtfs(&mut exts, hrtf, count, code);
        self.exts = exts;
        begun
    }

    fn hrtf_status_property(&mut self, hrtf: Resolution) -> (r: Result<i32, AltoError>) {
        proof {
            use_type_invariant(&*self);
        }
        let mut exts = self.exts;
        let property = exts.constant(Alc::SoftHrtf, hrtf, Symbol::HrtfStatusSoft);
        self.exts = exts;
        property
    }

    fn soft_hrtf_status(&mut self, hrtf: Resolution, status: i32, code: i32) -> (r: Result<
        SoftHrtfStatus,
        AltoError,
    >) {
        proof {
            use_type_invariant(&*self);
        }
        let mut exts = self.exts;
        let read = read_status(&mut exts, hrtf, status, code);
        self.exts = exts;
        read
    }
}

impl<F: LoopbackFrame> PartialEq for LoopbackDevice<F> {
    /// Two values are the same device exactly if their native handles are
    /// equal, whatever their specifiers.
    fn eq(&self, other: &LoopbackDevice<F>) -> (r: bool) {
        self.dev == other.dev
    }
}

impl<F: LoopbackFrame> Eq for LoopbackDevice<F> {

}

impl<F: LoopbackFrame> vstd::std_specs::cmp::PartialEqSpecImpl for LoopbackDevice<F> {
    open spec fn obeys_eq_spec() -> bool {
        true
    }

    open spec fn eq_spec(&self, other: &LoopbackDevice<F>) -> bool {
        self.handle() == other.handle()
    }
}

/// A capture device, from which audio can be sampled: typically an input
/// that the operating system reports. It has no extension cache and no
/// context.
#[derive(Debug)]
pub struct CaptureDevice {
    spec: Vec<u8>,
    dev: usize,
}

impl CaptureDevice {
    #[verifier::type_invariant]
    spec fn well_formed(self) -> bool {
        self.dev != 0
    }

    /// The native handle of the device.
    pub closed spec fn handle(&self) -> usize {
        self.dev
    }

    /// The specifier that the device was opened with.
    pub closed spec fn spec_specifier(&self) -> Seq<u8> {
        self.spec@
    }

    /// The device that a successful native capture open call yields.
    pub(crate) fn from_handle(spec: Vec<u8>, dev: usize) -> (d: CaptureDevice)
        requires
            dev != 0,
        ensures
            d.handle() == dev,
            d.spec_specifier() == spec@,
    {
        CaptureDevice { spec, dev }
    }

    /// Specifier used to open this device.
    pub fn specifier(&self) -> (s: &Vec<u8>)
        ensures
            s@ == self.spec_specifier(),
    {
        &self.spec
    }

    /// Raw handle as the native library gave it. It is never null.
    pub fn raw_device(&self) -> (h: usize)
        ensures
            h == self.handle(),
            h != 0,
    {
        proof {
            use_type_invariant(self);
        }
        self.dev
    }

    /// Gives the device up and hands back the handle to close natively.
    /// The device is gone after this: it cannot be closed a second time.
    pub fn close(self) -> (h: usize)
        ensures
            h == self.handle(),
            h != 0,
    {
        proof {
            use_type_invariant(&self);
        }
        self.dev
    }
}

impl PartialEq for CaptureDevice {
    /// Two values are the same device exactly if their native handles are
    /// equal, whatever their specifiers.
    fn eq(&self, other: &CaptureDevice) -> (r: bool) {
        self.dev == other.dev
    }
}

impl Eq for CaptureDevice {

}

impl vstd::std_specs::cmp::PartialEqSpecImpl for CaptureDevice {
    open spec fn obeys_eq_spec() -> bool {
        true
    }

    open spec fn eq_spec(&self, other: &CaptureDevice) -> bool {
        self.handle() == other.handle()
    }
}

} // verus!
