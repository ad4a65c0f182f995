//! Context attribute lists: the flat run of integers, pairs of key and value
//! closed by a zero, that the native library reads when it creates a context
//! or resets a device.

use vstd::prelude::*;
use crate::consts::{
    ALC_FALSE, ALC_FREQUENCY, ALC_MONO_SOURCES, ALC_REFRESH, ALC_STEREO_SOURCES, ALC_TRUE,
};
use crate::error::AltoError;
use crate::ext::{ExtensionDescriptor, Resolution, Symbol};
use crate::frame::LoopbackFrame;

verus! {

/// Attributes that may be supplied when a context is created.
#[derive(Clone, Copy, Debug)]
pub struct ContextAttrs {
    /// Output sampling rate of the audio.
    pub frequency: Option<i32>,
    /// Refresh rate of the internal mixer, in Hz.
    pub refresh: Option<i32>,
    /// Hint for the number of mono sources that will be created.
    pub mono_sources: Option<i32>,
    /// Hint for the number of stereo sources that will be created.
    pub stereo_sources: Option<i32>,
    /// Whether HRTF is desired.
    pub soft_hrtf: Option<bool>,
    /// Index of the HRTF specifier to be used.
    pub soft_hrtf_id: Option<i32>,
}

/// Attributes that may be supplied when a context is created from a
/// loopback device.
#[derive(Clone, Copy, Debug)]
pub struct LoopbackAttrs {
    /// Hint for the number of mono sources that will be created.
    pub mono_sources: Option<i32>,
    /// Hint for the number of stereo sources that will be created.
    pub stereo_sources: Option<i32>,
    /// Whether HRTF is desired.
    pub soft_hrtf: Option<bool>,
    /// Index of the HRTF specifier to be used.
    pub soft_hrtf_id: Option<i32>,
}

/// Channel layout of a loopback context.
#[derive(Clone, Copy, Debug, PartialEq, Eq, Structural)]
pub enum LoopbackFormatChannels {
    /// One channel.
    Mono,
    /// Two channels.
    Stereo,
    /// Four channels.
    Quad,
    /// 5.1 surround.
    Mc51,
    /// 6.1 surround.
    Mc61,
    /// 7.1 surround.
    Mc71,
}

/// Sample type of a loopback context.
#[derive(Clone, Copy, Debug, PartialEq, Eq, Structural)]
pub enum LoopbackFormatType {
    /// Unsigned 8-bit integer.
    U8,
    /// Signed 16-bit integer.
    I16,
    /// 32-bit floating point.
    F32,
}

impl LoopbackFormatChannels {
    /// The symbol of the loopback extension that names this layout.
    pub open spec fn spec_symbol(self) -> Symbol {
        match self {
            LoopbackFormatChannels::Mono => Symbol::MonoSoft,
            LoopbackFormatChannels::Stereo => Symbol::StereoSoft,
            LoopbackFormatChannels::Quad => Symbol::QuadSoft,
            LoopbackFormatChannels::Mc51 => Symbol::Mc51Soft,
            LoopbackFormatChannels::Mc61 => Symbol::Mc61Soft,
            LoopbackFormatChannels::Mc71 => Symbol::Mc71Soft,
        }
    }

    /// The symbol of the loopback extension that names this layout.
    pub fn symbol(self) -> (sym: Symbol)
        ensures
            sym == self.spec_symbol(),
    {
        match self {
            LoopbackFormatChannels::Mono => Symbol::MonoSoft,
            LoopbackFormatChannels::Stereo => Symbol::StereoSoft,
            LoopbackFormatChannels::Quad => Symbol::QuadSoft,
            LoopbackFormatChannels::Mc51 => Symbol::Mc51Soft,
            LoopbackFormatChannels::Mc61 => Symbol::Mc61Soft,
            LoopbackFormatChannels::Mc71 => Symbol::Mc71Soft,
        }
    }

    /// The native constant of this layout as the resolved loopback
    /// extension gives it, or an error that names the missing constant.
    pub fn constant(self, loopback: &ExtensionDescriptor) -> (r: Result<i32, AltoError>)
        ensures
            r == loopback.spec_constant(self.spec_symbol()),
    {
        loopback.constant(self.symbol())
    }
}

impl LoopbackFormatType {
    /// The symbol of the loopback extension that names this sample type.
    pub open spec fn spec_symbol(self) -> Symbol {
        match self {
            LoopbackFormatType::U8 => Symbol::UnsignedByteSoft,
            LoopbackFormatType::I16 => Symbol::ShortSoft,
            LoopbackFormatType::F32 => Symbol::FloatSoft,
        }
    }

    /// The symbol of the loopback extension that names this sample type.
    pub fn symbol(self) -> (sym: Symbol)
        ensures
            sym == self.spec_symbol(),
    {
        match self {
            LoopbackFormatType::U8 => Symbol::UnsignedByteSoft,
            LoopbackFormatType::I16 => Symbol::ShortSoft,
            LoopbackFormatType::F32 => Symbol::FloatSoft,
        }
    }

    /// The native constant of this sample type as the resolved loopback
    /// extension gives it, or an error that names the missing constant.
    pub fn constant(self, loopback: &ExtensionDescriptor) -> (r: Result<i32, AltoError>)
        ensures
            r == loopback.spec_constant(self.spec_symbol()),
    {
        loopback.constant(self.symbol())
    }
}

/// The native integer for a boolean.
pub open spec fn spec_alc_bool(b: bool) -> i32 {
    if b {
        ALC_TRUE
    } else {
        ALC_FALSE
    }
}

/// The pair that an option contributes to an attribute list: key and value
/// where it is set, nothing where it is not.
pub open spec fn spec_pair(key: i32, value: Option<i32>) -> Seq<i32> {
    match value {
        Some(v) => seq![key, v],
        None => Seq::empty(),
    }
}

/// The pairs of the HRTF options. Where the HRTF extension did not
/// resolve, both options are left out. Where it did, an option that is set
/// needs its key: a missing key is an error, the enable flag's first.
pub open spec fn spec_hrtf_pairs(
    soft_hrtf: Option<bool>,
    soft_hrtf_id: Option<i32>,
    hrtf: Resolution,
) -> Result<Seq<i32>, AltoError> {
    match hrtf {
        Err(_) => Ok(Seq::empty()),
        Ok(ash) => {
            let flag = match soft_hrtf {
                Some(b) => match ash.spec_constant(Symbol::HrtfSoft) {
                    Ok(key) => Ok(seq![key, spec_alc_bool(b)]),
                    Err(e) => Err(e),
                },
                None => Ok(Seq::empty()),
            };
            let id = match soft_hrtf_id {
                Some(i) => match ash.spec_constant(Symbol::HrtfIdSoft) {
                    Ok(key) => Ok(seq![key, i]),
                    Err(e) => Err(e),
                },
                None => Ok(Seq::empty()),
            };
            match (flag, id) {
                (Err(e), _) => Err(e),
                (Ok(_), Err(e)) => Err(e),
                (Ok(f), Ok(i)) => Ok(f + i),
            }
        },
    }
}

/// The attribute list of a device context. Without attributes the list is
/// empty, which stands for no list at all. With attributes it holds, in
/// this order, the pairs of frequency, refresh rate, mono sources, stereo
/// sources and the HRTF options, each only where it is set, and a closing
/// zero.
pub open spec fn spec_context_attrs(attrs: Option<ContextAttrs>, hrtf: Resolution) -> Result<
    Seq<i32>,
    AltoError,
> {
    match attrs {
        None => Ok(Seq::empty()),
        Some(a) => match spec_hrtf_pairs(a.soft_hrtf, a.soft_hrtf_id, hrtf) {
            Err(e) => Err(e),
            Ok(h) => Ok(
                spec_pair(ALC_FREQUENCY, a.frequency) + spec_pair(ALC_REFRESH, a.refresh)
                    + spec_pair(ALC_MONO_SOURCES, a.mono_sources) + spec_pair(
                    ALC_STEREO_SOURCES,
                    a.stereo_sources,
                ) + h + seq![0i32],
            ),
        },
    }
}

/// The three pairs that open the attribute list of a loopback context:
/// frequency, channel layout and sample type. The keys and values of the
/// last two come from the loopback extension; the first of them that is
/// missing is the error.
pub open spec fn spec_loopback_head(
    freq: i32,
    channels: LoopbackFormatChannels,
    sample: LoopbackFormatType,
    asl: ExtensionDescriptor,
) -> Result<Seq<i32>, AltoError> {
    match asl.spec_constant(Symbol::FormatChannelsSoft) {
        Err(e) => Err(e),
        Ok(channels_key) => match asl.spec_constant(channels.spec_symbol()) {
            Err(e) => Err(e),
            Ok(channels_value) => match asl.spec_constant(Symbol::FormatTypeSoft) {
                Err(e) => Err(e),
                Ok(type_key) => match asl.spec_constant(sample.spec_symbol()) {
                    Err(e) => Err(e),
                    Ok(type_value) => Ok(
                        seq![
                            ALC_FREQUENCY,
                            freq,
                            channels_key,
                            channels_value,
                            type_key,
                            type_value,
                        ],
                    ),
                },
            },
        },
    }
}

/// The pairs that the optional attributes of a loopback context add.
pub open spec fn spec_loopback_tail(attrs: Option<LoopbackAttrs>, hrtf: Resolution) -> Result<
    Seq<i32>,
    AltoError,
> {
    match attrs {
        None => Ok(Seq::empty()),
        Some(a) => match spec_hrtf_pairs(a.soft_hrtf, a.soft_hrtf_id, hrtf) {
            Err(e) => Err(e),
            Ok(h) => Ok(
                spec_pair(ALC_MONO_SOURCES, a.mono_sources) + spec_pair(
                    ALC_STEREO_SOURCES,
                    a.stereo_sources,
                ) + h,
            ),
        },
    }
}

/// The attribute list of a loopback context: it needs the loopback
/// extension, opens with frequency, channel layout and sample type, goes on
/// with the optional attributes that are set, and ends with a zero.
pub open spec fn spec_loopback_attrs(
    freq: i32,
    channels: LoopbackFormatChannels,
    sample: LoopbackFormatType,
    attrs: Option<LoopbackAttrs>,
    loopback: Resolution,
    hrtf: Resolution,
) -> Result<Seq<i32>, AltoError> {
    match loopback {
        Err(e) => Err(e),
        Ok(asl) => match spec_loopback_head(freq, channels, sample, asl) {
            Err(e) => Err(e),
            Ok(head) => match spec_loopback_tail(attrs, hrtf) {
                Err(e) => Err(e),
                Ok(tail) => Ok(head + tail + seq![0i32]),
            },
        },
    }
}

/// The list to hand to the native library, given how building it ended:
/// no list where it could not be built, and no list in place of an empty
/// one, which holds not even the closing zero that the native library reads
/// up to.
pub open spec fn spec_handed_list(built: Result<Seq<i32>, AltoError>) -> Option<Seq<i32>> {
    match built {
        Ok(list) => if list.len() > 0 {
            Some(list)
        } else {
            None
        },
        Err(_) => None,
    }
}

/// Attributes of which only the frequency is set give the frequency pair
/// and the closing zero and nothing else, whatever became of the HRTF
/// extension.
pub proof fn lemma_frequency_only(frequency: i32, hrtf: Resolution)
    ensures
        spec_context_attrs(
            Some(
                ContextAttrs {
                    frequency: Some(frequency),
                    refresh: None,
                    mono_sources: None,
                    stereo_sources: None,
                    soft_hrtf: None,
                    soft_hrtf_id: None,
                },
            ),
            hrtf,
        ) == Ok::<Seq<i32>, AltoError>(seq![ALC_FREQUENCY, frequency, 0i32]),
{
    let attrs = ContextAttrs {
        frequency: Some(frequency),
        refresh: None,
        mono_sources: None,
        stereo_sources: None,
        soft_hrtf: None,
        soft_hrtf_id: None,
    };
    assert(spec_hrtf_pairs(None, None, hrtf) == Ok::<Seq<i32>, AltoError>(
        Seq::<i32>::empty() + Seq::<i32>::empty(),
    ));
    assert(spec_context_attrs(Some(attrs), hrtf)->Ok_0 =~= seq![ALC_FREQUENCY, frequency, 0i32]);
}

/// A list built from attributes is made of pairs and a closing zero: its
/// length is odd and at most thirteen, and its last integer is zero.
pub proof fn lemma_context_attrs_shape(attrs: ContextAttrs, hrtf: Resolution)
    requires
        spec_context_attrs(Some(attrs), hrtf) is Ok,
    ensures
        spec_context_attrs(Some(attrs), hrtf)->Ok_0.len() % 2 == 1,
        spec_context_attrs(Some(attrs), hrtf)->Ok_0.len() <= 13,
        spec_context_attrs(Some(attrs), hrtf)->Ok_0.last() == 0,
{
}

/// The list of a loopback context opens with the frequency pair, is made
/// of pairs and a closing zero, and holds at most fifteen integers.
pub proof fn lemma_loopback_attrs_shape(
    freq: i32,
    channels: LoopbackFormatChannels,
    sample: LoopbackFormatType,
    attrs: Option<LoopbackAttrs>,
    loopback: Resolution,
    hrtf: Resolution,
)
    requires
        spec_loopback_attrs(freq, channels, sample, attrs, loopback, hrtf) is Ok,
    ensures
        spec_loopback_attrs(freq, channels, sample, attrs, loopback, hrtf)->Ok_0.len() % 2 == 1,
        7 <= spec_loopback_attrs(freq, channels, sample, attrs, loopback, hrtf)->Ok_0.len() <= 15,
        spec_loopback_attrs(freq, channels, sample, attrs, loopback, hrtf)->Ok_0[0]
            == ALC_FREQUENCY,
        spec_loopback_attrs(freq, channels, sample, attrs, loopback, hrtf)->Ok_0[1] == freq,
        spec_loopback_attrs(freq, channels, sample, attrs, loopback, hrtf)->Ok_0.last() == 0,
{
}

/// The native integer for a boolean.
pub fn alc_bool(b: bool) -> (v: i32)
    ensures
        v == spec_alc_bool(b),
{
    if b {
        ALC_TRUE
    } else {
        ALC_FALSE
    }
}

/// The list to hand to the native library, given how building it ended.
pub fn handed_list(built: Result<Vec<i32>, AltoError>) -> (r: Option<Vec<i32>>)
    ensures
        match built {
            Ok(list) => match spec_handed_list(Ok(list@)) {
                Some(l) => r is Some && r->0@ == l,
                None => r is None,
            },
            Err(_) => r is None,
        },
{
    match built {
        Ok(list) => if list.len() > 0 {
            Some(list)
        } else {
            None
        },
        Err(_) => None,
    }
}

/// Appends the pair of an option to `list` where the option is set.
fn push_pair(list: &mut Vec<i32>, key: i32, value: Option<i32>)
    ensures
        final(list)@ == old(list)@ + spec_pair(key, value),
{
    match value {
        Some(v) => {
            list.push(key);
            list.push(v);
            assert(list@ =~= old(list)@ + seq![key, v]);
        },
        None => {
            assert(list@ =~= old(list)@ + Seq::<i32>::empty());
        },
    }
}

/// Appends the pairs of the HRTF options to `list`. On an error the list
/// may have grown; the callers drop it then.
fn push_hrtf_pairs(
    list: &mut Vec<i32>,
    soft_hrtf: Option<bool>,
    soft_hrtf_id: Option<i32>,
    hrtf: &Resolution,
) -> (r: Result<(), AltoError>)
    ensures
        match spec_hrtf_pairs(soft_hrtf, soft_hrtf_id, *hrtf) {
            Ok(pairs) => r is Ok && final(list)@ == old(list)@ + pairs,
            Err(e) => r == Err::<(), AltoError>(e),
        },
{
    match hrtf {
        Err(_) => {
            assert(list@ =~= old(list)@ + Seq::<i32>::empty());
            Ok(())
        },
        Ok(ash) => {
            let ghost mid = Seq::<i32>::empty();
            if let Some(b) = soft_hrtf {
                match ash.constant(Symbol::HrtfSoft) {
                    Ok(key) => {
                        list.push(key);
                        list.push(alc_bool(b));
                        proof {
                            mid = seq![key, spec_alc_bool(b)];
                        }
                    },
                    Err(e) => {
                        return Err(e);
                    },
                }
            }
            assert(list@ =~= old(list)@ + mid);
            if let Some(i) = soft_hrtf_id {
                match ash.constant(Symbol::HrtfIdSoft) {
                    Ok(key) => {
                        list.push(key);
                        list.push(i);
                        assert(list@ =~= old(list)@ + (mid + seq![key, i]));
                    },
                    Err(e) => {
                        return Err(e);
                    },
                }
            } else {
                assert(list@ =~= old(list)@ + (mid + Seq::<i32>::empty()));
            }
            Ok(())
        },
    }
}

/// Builds the attribute list of a device context from the attributes and
/// from how the resolution of the HRTF extension ended.
pub fn context_attrs_list(attrs: Option<ContextAttrs>, hrtf: &Resolution) -> (r: Result<
    Vec<i32>,
    AltoError,
>)
    ensures
        match spec_context_attrs(attrs, *hrtf) {
            Ok(list) => r is Ok && r->Ok_0@ == list,
            Err(e) => r == Err::<Vec<i32>, AltoError>(e),
        },
{
    let mut list: Vec<i32> = Vec::with_capacity(13);
    if let Some(a) = attrs {
        push_pair(&mut list, ALC_FREQUENCY, a.frequency);
        push_pair(&mut list, ALC_REFRESH, a.refresh);
        push_pair(&mut list, ALC_MONO_SOURCES, a.mono_sources);
        push_pair(&mut list, ALC_STEREO_SOURCES, a.stereo_sources);
        let ghost before = list@;
        assert(before =~= spec_pair(ALC_FREQUENCY, a.frequency) + spec_pair(
            ALC_REFRESH,
            a.refresh,
        ) + spec_pair(ALC_MONO_SOURCES, a.mono_sources) + spec_pair(
            ALC_STEREO_SOURCES,
            a.stereo_sources,
        ));
        match push_hrtf_pairs(&mut list, a.soft_hrtf, a.soft_hrtf_id, hrtf) {
            Ok(()) => {},
            Err(e) => {
                return Err(e);
            },
        }
        list.push(0);
        assert(list@ =~= spec_context_attrs(attrs, *hrtf)->Ok_0);
    }
    Ok(list)
}

/// Builds the attribute list of a loopback context that renders frames of
/// the layout `F`, from the frequency, the optional attributes, and from
/// how the resolutions of the loopback and the HRTF extension ended.
pub fn loopback_attrs_list<F: LoopbackFrame>(
    freq: i32,
    attrs: Option<LoopbackAttrs>,
    loopback: &Resolution,
    hrtf: &Resolution,
) -> (r: Result<Vec<i32>, AltoError>)
    ensures
        match spec_loopback_attrs(
            freq,
            F::spec_channels(),
            F::spec_sample_ty(),
            attrs,
            *loopback,
            *hrtf,
        ) {
            Ok(list) => r is Ok && r->Ok_0@ == list,
            Err(e) => r == Err::<Vec<i32>, AltoError>(e),
        },
{
    let asl = match loopback {
        Ok(asl) => asl,
        Err(e) => {
            return Err(*e);
        },
    };
    let mut list: Vec<i32> = Vec::with_capacity(15);
    list.push(ALC_FREQUENCY);
    list.push(freq);
    let channels_key = match asl.constant(Symbol::FormatChannelsSoft) {
        Ok(k) => k,
        Err(e) => {
            return Err(e);
        },
    };
    let channels_value = match F::channels(asl) {
        Ok(v) => v,
        Err(e) => {
            return Err(e);
        },
    };
    list.push(channels_key);
    list.push(channels_value);
    let type_key = match asl.constant(Symbol::FormatTypeSoft) {
        Ok(k) => k,
        Err(e) => {
            return Err(e);
        },
    };
    let type_value = match F::sample_ty(asl) {
        Ok(v) => v,
        Err(e) => {
            return Err(e);
        },
    };
    list.push(type_key);
    list.push(type_value);
    let ghost head = list@;
    assert(head =~= spec_loopback_head(freq, F::spec_channels(), F::spec_sample_ty(), *asl)->Ok_0);
    if let Some(a) = attrs {
        push_pair(&mut list, ALC_MONO_SOURCES, a.mono_sources);
        push_pair(&mut list, ALC_STEREO_SOURCES, a.stereo_sources);
        match push_hrtf_pairs(&mut list, a.soft_hrtf, a.soft_hrtf_id, hrtf) {
            Ok(()) => {},
            Err(e) => {
                return Err(e);
            },
        }
    }
    list.push(0);
    assert(list@ =~= spec_loopback_attrs(
        freq,
        F::spec_channels(),
        F::spec_sample_ty(),
        attrs,
        *loopback,
        *hrtf,
    )->Ok_0);
    Ok(list)
}

} // verus!
