//! The frame layouts that a loopback device can render: a channel layout
//! and a sample type, fixed at compile time, each of which the resolved
//! loopback extension must name by a constant.

use vstd::prelude::*;
use crate::attrs::{LoopbackFormatChannels, LoopbackFormatType};
use crate::error::AltoError;
use crate::ext::ExtensionDescriptor;

verus! {

/// A channel layout as a type.
pub trait ChannelLayout {
    /// The layout that the type stands for.
    spec fn spec_layout() -> LoopbackFormatChannels;

    /// The layout that the type stands for.
    fn layout() -> (c: LoopbackFormatChannels)
        ensures
            c == Self::spec_layout(),
    ;
}

/// A sample type as a type.
pub trait SampleType {
    /// The sample type that the type stands for.
    spec fn spec_sample() -> LoopbackFormatType;

    /// The sample type that the type stands for.
    fn sample() -> (t: LoopbackFormatType)
        ensures
            t == Self::spec_sample(),
    ;
}

/// A sample frame that a loopback device can render.
pub trait LoopbackFrame {
    /// The channel layout of the frame.
    spec fn spec_channels() -> LoopbackFormatChannels;

    /// The sample type of the frame.
    spec fn spec_sample_ty() -> LoopbackFormatType;

    /// The native constant of the frame's channel layout as the resolved
    /// loopback extension gives it, or an error that names the constant
    /// where the extension lacks it.
    fn channels(loopback: &ExtensionDescriptor) -> (r: Result<i32, AltoError>)
        ensures
            r == loopback.spec_constant(Self::spec_channels().spec_symbol()),
    ;

    /// The native constant of the frame's sample type as the resolved
    /// loopback extension gives it, or an error that names the constant
    /// where the extension lacks it.
    fn sample_ty(loopback: &ExtensionDescriptor) -> (r: Result<i32, AltoError>)
        ensures
            r == loopback.spec_constant(Self::spec_sample_ty().spec_symbol()),
    ;
}

/// One channel.
#[derive(Clone, Copy, Debug)]
pub struct Mono;

/// Two channels.
#[derive(Clone, Copy, Debug)]
pub struct Stereo;

/// Four channels.
#[derive(Clone, Copy, Debug)]
pub struct Quad;

/// 5.1 surround.
#[derive(Clone, Copy, Debug)]
pub struct Mc51;

/// 6.1 surround.
#[derive(Clone, Copy, Debug)]
pub struct Mc61;

/// 7.1 surround.
#[derive(Clone, Copy, Debug)]
pub struct Mc71;

/// Samples of 32-bit floating point.
#[derive(Clone, Copy, Debug)]
pub struct Float32;

impl ChannelLayout for Mono {
    open spec fn spec_layout() -> LoopbackFormatChannels {
        LoopbackFormatChannels::Mono
    }

    fn layout() -> (c: LoopbackFormatChannels) {
        LoopbackFormatChannels::Mono
    }
}

impl ChannelLayout for Stereo {
    open spec fn spec_layout() -> LoopbackFormatChannels {
        LoopbackFormatChannels::Stereo
    }

    fn layout() -> (c: LoopbackFormatChannels) {
        LoopbackFormatChannels::Stereo
    }
}

impl ChannelLayout for Quad {
    open spec fn spec_layout() -> LoopbackFormatChannels {
        LoopbackFormatChannels::Quad
    }

    fn layout() -> (c: LoopbackFormatChannels) {
        LoopbackFormatChannels::Quad
    }
}

impl ChannelLayout for Mc51 {
    open spec fn spec_layout() -> LoopbackFormatChannels {
        LoopbackFormatChannels::Mc51
    }

    fn layout() -> (c: LoopbackFormatChannels) {
        LoopbackFormatChannels::Mc51
    }
}

impl ChannelLayout for Mc61 {
    open spec fn spec_layout() -> LoopbackFormatChannels {
        LoopbackFormatChannels::Mc61
    }

    fn layout() -> (c: LoopbackFormatChannels) {
        LoopbackFormatChannels::Mc61
    }
}

impl ChannelLayout for Mc71 {
    open spec fn spec_layout() -> LoopbackFormatChannels {
        LoopbackFormatChannels::Mc71
    }

    fn layout() -> (c: LoopbackFormatChannels) {
        LoopbackFormatChannels::Mc71
    }
}

impl SampleType for u8 {
    open spec fn spec_sample() -> LoopbackFormatType {
        LoopbackFormatType::U8
    }

    fn sample() -> (t: LoopbackFormatType) {
        LoopbackFormatType::U8
    }
}

impl SampleType for i16 {
    open spec fn spec_sample() -> LoopbackFormatType {
        LoopbackFormatType::I16
    }

    fn sample() -> (t: LoopbackFormatType) {
        LoopbackFormatType::I16
    }
}

impl SampleType for Float32 {
    open spec fn spec_sample() -> LoopbackFormatType {
        LoopbackFormatType::F32
    }

    fn sample() -> (t: LoopbackFormatType) {
        LoopbackFormatType::F32
    }
}

/// A frame of the channel layout `C` with samples of the type `S`. It only
/// names a layout: no value of it is ever made.
#[derive(Debug)]
pub struct Frame<C, S> {
    marker: core::marker::PhantomData<(C, S)>,
}

impl<C: ChannelLayout, S: SampleType> LoopbackFrame for Frame<C, S> {
    open spec fn spec_channels() -> LoopbackFormatChannels {
        C::spec_layout()
    }

    open spec fn spec_sample_ty() -> LoopbackFormatType {
        S::spec_sample()
    }

    fn channels(loopback: &ExtensionDescriptor) -> (r: Result<i32, AltoError>) {
        C::layout().constant(loopback)
    }

    fn sample_ty(loopback: &ExtensionDescriptor) -> (r: Result<i32, AltoError>) {
        S::sample().constant(loopback)
    }
}

} // verus!
