//! The HRTF extension: reading the status code of a device, and collecting
//! the HRTF specifiers that a device offers, one indexed fetch at a time.

use vstd::prelude::*;
use crate::error::{spec_poll, AltoError};
use crate::ext::{ExtensionDescriptor, Symbol};

verus! {

/// The current HRTF mode of a device.
#[derive(Clone, Copy, Debug, PartialEq, Eq, Structural)]
pub enum SoftHrtfStatus {
    /// HRTF is off.
    Disabled,
    /// HRTF is on.
    Enabled,
    /// HRTF was asked for and is not allowed on this device.
    Denied,
    /// HRTF is on because the device requires it.
    Required,
    /// HRTF is on because headphones were detected.
    HeadphonesDetected,
    /// HRTF is off because the output format does not allow it.
    UnsupportedFormat,
    /// A status code that this layer does not know.
    Unknown(i32),
}

/// The status that `code` stands for when it is held against the status
/// constants from the one at `from` on, in the order disabled, enabled,
/// denied, required, headphones detected, unsupported format. The first
/// constant that equals the code decides. A constant that did not resolve
/// is an error when the comparison reaches it. A code that equals none is
/// unknown.
pub open spec fn spec_status_from(ash: ExtensionDescriptor, code: i32, from: int) -> Result<
    SoftHrtfStatus,
    AltoError,
>
    decreases 6 - from,
{
    if from < 0 || from >= 6 {
        Ok(SoftHrtfStatus::Unknown(code))
    } else {
        match ash.spec_constant(status_symbol(from)) {
            Err(e) => Err(e),
            Ok(c) => if c == code {
                Ok(status_named(from))
            } else {
                spec_status_from(ash, code, from + 1)
            },
        }
    }
}

/// The symbol of the status constant at position `i`.
pub open spec fn status_symbol(i: int) -> Symbol {
    if i == 0 {
        Symbol::HrtfDisabledSoft
    } else if i == 1 {
        Symbol::HrtfEnabledSoft
    } else if i == 2 {
        Symbol::HrtfDeniedSoft
    } else if i == 3 {
        Symbol::HrtfRequiredSoft
    } else if i == 4 {
        Symbol::HrtfHeadphonesDetectedSoft
    } else {
        Symbol::HrtfUnsupportedFormatSoft
    }
}

/// The status that the constant at position `i` names.
pub open spec fn status_named(i: int) -> SoftHrtfStatus {
    if i == 0 {
        SoftHrtfStatus::Disabled
    } else if i == 1 {
        SoftHrtfStatus::Enabled
    } else if i == 2 {
        SoftHrtfStatus::Denied
    } else if i == 3 {
        SoftHrtfStatus::Required
    } else if i == 4 {
        SoftHrtfStatus::HeadphonesDetected
    } else {
        SoftHrtfStatus::UnsupportedFormat
    }
}

/// The status that `code` stands for under the constants of `ash`.
pub open spec fn spec_status(ash: ExtensionDescriptor, code: i32) -> Result<
    SoftHrtfStatus,
    AltoError,
> {
    spec_status_from(ash, code, 0)
}

impl SoftHrtfStatus {
    /// Reads a status code with the constants of the resolved HRTF
    /// extension.
    pub fn from_code(ash: &ExtensionDescriptor, code: i32) -> (r: Result<
        SoftHrtfStatus,
        AltoError,
    >)
        ensures
            r == spec_status(*ash, code),
    {
        reveal_with_fuel(spec_status_from, 7);
        if code == ash.constant(Symbol::HrtfDisabledSoft)? {
            return Ok(SoftHrtfStatus::Disabled);
        }
        if code == ash.constant(Symbol::HrtfEnabledSoft)? {
            return Ok(SoftHrtfStatus::Enabled);
        }
        if code == ash.constant(Symbol::HrtfDeniedSoft)? {
            return Ok(SoftHrtfStatus::Denied);
        }
        if code == ash.constant(Symbol::HrtfRequiredSoft)? {
            return Ok(SoftHrtfStatus::Required);
        }
        if code == ash.constant(Symbol::HrtfHeadphonesDetectedSoft)? {
            return Ok(SoftHrtfStatus::HeadphonesDetected);
        }
        if code == ash.constant(Symbol::HrtfUnsupportedFormatSoft)? {
            return Ok(SoftHrtfStatus::UnsupportedFormat);
        }
        Ok(SoftHrtfStatus::Unknown(code))
    }
}

/// Where every status constant resolved, a code is read as unknown exactly
/// when it equals none of them, and the unknown status keeps the code.
pub proof fn lemma_unknown_status(ash: ExtensionDescriptor, code: i32)
    requires
        forall|i: int| 0 <= i < 6 ==> ash.spec_constant(#[trigger] status_symbol(i)) is Ok,
    ensures
        spec_status(ash, code) is Ok,
        spec_status(ash, code) == Ok::<SoftHrtfStatus, AltoError>(SoftHrtfStatus::Unknown(code))
            <==> forall|i: int|
            0 <= i < 6 ==> ash.spec_constant(#[trigger] status_symbol(i)) != Ok::<i32, AltoError>(
                code,
            ),
{
    reveal_with_fuel(spec_status_from, 7);
    assert(ash.spec_constant(status_symbol(0)) is Ok);
    assert(ash.spec_constant(status_symbol(1)) is Ok);
    assert(ash.spec_constant(status_symbol(2)) is Ok);
    assert(ash.spec_constant(status_symbol(3)) is Ok);
    assert(ash.spec_constant(status_symbol(4)) is Ok);
    assert(ash.spec_constant(status_symbol(5)) is Ok);
}

/// What to do next while the HRTF specifiers of a device are collected.
#[derive(Clone, Copy, Debug, PartialEq, Eq, Structural)]
pub enum HrtfFetch {
    /// Read the indexed string property `property` at `index` through the
    /// entry point at `entry_point`, poll the error, and report both.
    Fetch { entry_point: usize, property: i32, index: i32 },
    /// Every specifier is in.
    Done,
}

/// The collection of the HRTF specifiers of a device: the number that the
/// device reported, and the specifiers fetched so far, in their order.
#[derive(Debug)]
pub struct HrtfEnumeration {
    ash: ExtensionDescriptor,
    count: i32,
    specs: Vec<Vec<u8>>,
}

/// What is to do next when `fetched` specifiers of `count` are in. While
/// some are missing, the next fetch needs the entry point for indexed
/// strings and the specifier property, in that order: the first of the two
/// that did not resolve is the error.
pub open spec fn spec_next_fetch(ash: ExtensionDescriptor, count: i32, fetched: nat) -> Result<
    HrtfFetch,
    AltoError,
> {
    if fetched >= count {
        Ok(HrtfFetch::Done)
    } else {
        match ash.spec_entry_point(Symbol::GetStringiSoft) {
            Err(e) => Err(e),
            Ok(entry_point) => match ash.spec_constant(Symbol::HrtfSpecifierSoft) {
                Err(e) => Err(e),
                Ok(property) => Ok(
                    HrtfFetch::Fetch { entry_point, property, index: fetched as i32 },
                ),
            },
        }
    }
}

impl HrtfEnumeration {
    /// The resolved HRTF extension that the fetches go through.
    pub closed spec fn descriptor(&self) -> ExtensionDescriptor {
        self.ash
    }

    /// Number of specifiers that the device reported.
    pub closed spec fn count(&self) -> i32 {
        self.count
    }

    /// The specifiers fetched so far.
    pub closed spec fn fetched(&self) -> Seq<Seq<u8>> {
        Seq::new(self.specs@.len(), |i: int| self.specs@[i]@)
    }

    /// Starts a collection after the number of specifiers was read and the
    /// error polled: an error code ends it at once.
    pub fn begin(ash: ExtensionDescriptor, count: i32, code: i32) -> (r: Result<
        HrtfEnumeration,
        AltoError,
    >)
        ensures
            match spec_poll(code) {
                Ok(_) => r is Ok && r->Ok_0.descriptor() == ash && r->Ok_0.count() == count
                    && r->Ok_0.fetched() == Seq::<Seq<u8>>::empty(),
                Err(e) => r is Err && r->Err_0 == e,
            },
    {
        if code != crate::consts::ALC_NO_ERROR {
            return Err(AltoError::from_alc(code));
        }
        let e = HrtfEnumeration { ash, count, specs: Vec::new() };
        assert(e.fetched() =~= Seq::<Seq<u8>>::empty());
        Ok(e)
    }

    /// What is to do next.
    pub fn next(&self) -> (r: Result<HrtfFetch, AltoError>)
        ensures
            r == spec_next_fetch(self.descriptor(), self.count(), self.fetched().len()),
    {
        if self.count <= 0 {
            return Ok(HrtfFetch::Done);
        }
        let wanted: usize = self.count as usize;
        if self.specs.len() >= wanted {
            return Ok(HrtfFetch::Done);
        }
        let entry_point = self.ash.entry_point(Symbol::GetStringiSoft)?;
        let property = self.ash.constant(Symbol::HrtfSpecifierSoft)?;
        Ok(HrtfFetch::Fetch { entry_point, property, index: self.specs.len() as i32 })
    }

    /// Takes in what a fetch read and the error code polled after it. On
    /// "no error" the specifier joins the others; on an error code the
    /// collection fails with that error and keeps what it had.
    pub fn push(&mut self, spec: Vec<u8>, code: i32) -> (r: Result<(), AltoError>)
        ensures
            final(self).descriptor() == old(self).descriptor(),
            final(self).count() == old(self).count(),
            r == spec_poll(code),
            r is Ok ==> final(self).fetched() == old(self).fetched().push(spec@),
            r is Err ==> final(self).fetched() == old(self).fetched(),
    {
        if code != crate::consts::ALC_NO_ERROR {
            return Err(AltoError::from_alc(code));
        }
        self.specs.push(spec);
        assert(self.fetched() =~= old(self).fetched().push(spec@));
        Ok(())
    }

    /// The specifiers that were fetched, in their order.
    pub fn finish(self) -> (specs: Vec<Vec<u8>>)
        ensures
            Seq::new(specs@.len(), |i: int| specs@[i]@) == self.fetched(),
    {
        self.specs
    }
}

} // verus!
