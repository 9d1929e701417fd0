//! What holds of every load, proved of the transition function
//! [`Loader::next`] that [`Loader::step`] computes.

use crate::decode::{
    decoder_for, effective_depth, engine_int, failure_message, invalid_path_message, Action,
    ActionView, Decoder, Dimensions, Event, EventView, Loader, Phase, Source,
};
use crate::image::LoadResultView;
use crate::transfer::{image_of, sample_count};
use vstd::prelude::*;

verus! {

/// The decoder that a load calls: the floating-point one for a source that
/// the probe found to be HDR, unless conversion to 8-bit samples was asked
/// for, and the integer one otherwise.
pub open spec fn chosen_decoder(convert_hdr: bool, answer: i32) -> Decoder {
    if convert_hdr {
        Decoder::Integer
    } else {
        decoder_for(answer)
    }
}

/// Where a load of `source` stands once the decoder has been called: at
/// once where conversion was asked for, and else after the HDR probe has
/// answered `answer`.
pub open spec fn at_decode<F>(
    source: Source,
    force_depth: usize,
    convert_hdr: bool,
    answer: i32,
) -> Option<(Loader, ActionView<F>)> {
    let (loader, action) = Loader::begin::<F>(source, force_depth, convert_hdr);
    if convert_hdr {
        Some((loader, action))
    } else {
        loader.next(EventView::<F>::HdrProbed(answer))
    }
}

/// The HDR probe is made exactly where conversion was not asked for, and
/// the decoder is then called with the forced depth as the requested number
/// of channels: the floating-point decoder where the probe answered
/// anything but zero and conversion was not asked for, the integer decoder
/// in every other case.
pub proof fn decoder_is_chosen_by_probe_and_conversion<F>(
    source: Source,
    force_depth: usize,
    convert_hdr: bool,
    answer: i32,
)
    ensures
        Loader::begin::<F>(source, force_depth, convert_hdr).1 is ProbeHdr <==> !convert_hdr,
        at_decode::<F>(source, force_depth, convert_hdr, answer) == Some(
            (
                Loader {
                    source,
                    force_depth,
                    phase: Phase::Decoding(chosen_decoder(convert_hdr, answer)),
                },
                ActionView::<F>::Decode {
                    decoder: chosen_decoder(convert_hdr, answer),
                    source,
                    channels: engine_int(force_depth),
                },
            ),
        ),
        chosen_decoder(convert_hdr, answer) == Decoder::Float <==> !convert_hdr && answer != 0,
{
}

/// Every image that a loader finishes with holds exactly
/// `width * height * depth` samples.
pub proof fn finished_images_are_well_formed<F>(loader: Loader, event: EventView<F>)
    ensures
        loader.next(event) matches Some((_, ActionView::<F>::Finish(result)))
            ==> result.well_formed(),
{
}

/// Where the engine returns a null pointer from a decode, the load ends
/// with the error that names the entry point called, whatever the source,
/// the forced depth and the decoder.
pub proof fn failed_decode_ends_in_error<F>(
    source: Source,
    force_depth: usize,
    convert_hdr: bool,
    answer: i32,
)
    ensures
        ({
            let (decoding, _) = at_decode::<F>(source, force_depth, convert_hdr, answer).unwrap();
            decoding.next(EventView::<F>::Decoded(None)) == Some(
                (
                    decoding.done(),
                    ActionView::<F>::Finish(
                        LoadResultView::<F>::Error(
                            failure_message(source, chosen_decoder(convert_hdr, answer)),
                        ),
                    ),
                ),
            )
        }),
{
}

/// A path that is not valid text ends the load with an error before the
/// engine is called: the first action is to finish, and no event is
/// accepted after it.
pub proof fn invalid_path_never_reaches_engine<F>(force_depth: usize, convert_hdr: bool)
    ensures
        ({
            let (loader, action) = Loader::begin_path::<F>(false, force_depth, convert_hdr);
            &&& action == ActionView::<F>::Finish(
                LoadResultView::<F>::Error(invalid_path_message()),
            )
            &&& forall|event: EventView<F>| loader.next(event) is None
        }),
{
}

/// An HDR source loaded without conversion gives an image of
/// floating-point samples: the one the engine reported, with the samples
/// that were copied, and with the forced depth where one was forced.
pub proof fn hdr_source_loads_as_float<F>(
    source: Source,
    force_depth: usize,
    answer: i32,
    dims: Dimensions,
    samples: Seq<F>,
)
    requires
        answer != 0,
        sample_count(dims.width, dims.height, effective_depth(force_depth, dims.channels))
            matches Some(count) && count == samples.len(),
    ensures
        ({
            let depth = effective_depth(force_depth, dims.channels);
            let (decoding, _) = at_decode::<F>(source, force_depth, false, answer).unwrap();
            let (transferring, transfer) = decoding.next(
                EventView::<F>::Decoded(Some(dims)),
            ).unwrap();
            &&& transfer == ActionView::<F>::Transfer {
                decoder: Decoder::Float,
                count: samples.len() as usize,
            }
            &&& transferring.next(EventView::<F>::CopiedF32(samples)) == Some(
                (
                    transferring.done(),
                    ActionView::<F>::Finish(
                        LoadResultView::<F>::ImageF32(
                            image_of(dims.width, dims.height, depth, samples),
                        ),
                    ),
                ),
            )
        }),
{
}

/// A source that is not HDR, and any source where conversion was asked for,
/// gives an image of 8-bit samples: the one the engine reported, with the
/// samples that were copied, and with the forced depth where one was
/// forced.
pub proof fn other_source_loads_as_integer<F>(
    source: Source,
    force_depth: usize,
    convert_hdr: bool,
    answer: i32,
    dims: Dimensions,
    samples: Seq<u8>,
)
    requires
        convert_hdr || answer == 0,
        sample_count(dims.width, dims.height, effective_depth(force_depth, dims.channels))
            matches Some(count) && count == samples.len(),
    ensures
        ({
            let depth = effective_depth(force_depth, dims.channels);
            let (decoding, _) = at_decode::<F>(source, force_depth, convert_hdr, answer).unwrap();
            let (transferring, transfer) = decoding.next(
                EventView::<F>::Decoded(Some(dims)),
            ).unwrap();
            &&& transfer == ActionView::<F>::Transfer {
                decoder: Decoder::Integer,
                count: samples.len() as usize,
            }
            &&& transferring.next(EventView::<F>::CopiedU8(samples)) == Some(
                (
                    transferring.done(),
                    ActionView::<F>::Finish(
                        LoadResultView::<F>::ImageU8(
                            image_of(dims.width, dims.height, depth, samples),
                        ),
                    ),
                ),
            )
        }),
{
}

/// Where the engine reports a shape that no buffer can have (a negative
/// number, or more samples than a length can count), the buffer is released
/// unread and the load ends as a failed decode does.
pub proof fn unusable_buffer_is_released_unread<F>(
    source: Source,
    force_depth: usize,
    convert_hdr: bool,
    answer: i32,
    dims: Dimensions,
)
    requires
        sample_count(dims.width, dims.height, effective_depth(force_depth, dims.channels))
            is None,
    ensures
        ({
            let (decoding, _) = at_decode::<F>(source, force_depth, convert_hdr, answer).unwrap();
            let (releasing, release) = decoding.next(EventView::<F>::Decoded(Some(dims))).unwrap();
            &&& release == ActionView::<F>::Release
            &&& releasing.next(EventView::<F>::Released) == Some(
                (
                    releasing.done(),
                    ActionView::<F>::Finish(
                        LoadResultView::<F>::Error(
                            failure_message(source, chosen_decoder(convert_hdr, answer)),
                        ),
                    ),
                ),
            )
        }),
{
}

/// The engine's buffer is released once, and never touched again. The
/// driver is told to release a buffer exactly when it reports a decode that
/// returned one; the one event accepted after that is the report of this
/// release, which finishes the load; and a finished loader accepts no event
/// at all.
pub proof fn buffer_is_released_once<F>(loader: Loader, event: EventView<F>)
    requires
        loader.next(event) is Some,
    ensures
        ({
            let (after, action) = loader.next(event).unwrap();
            &&& action.releases_buffer() <==> (event matches EventView::<F>::Decoded(Some(_)))
            &&& action.releases_buffer() ==> forall|report: EventView<F>|
                #![auto]
                after.next(report) is Some ==> after.next(report).unwrap().1 is Finish
                    && after.next(report).unwrap().0.phase == Phase::Done
            &&& action is Finish <==> after.phase == Phase::Done
            &&& after.phase == Phase::Done ==> forall|report: EventView<F>|
                after.next(report) is None
        }),
{
}

/// The five error messages differ from one another, so that the message
/// tells an invalid path, a failed floating-point decode and a failed
/// integer decode apart, for a file and for a buffer.
pub proof fn error_messages_are_distinct(first: Source, second: Source)
    ensures
        failure_message(first, Decoder::Float) != failure_message(second, Decoder::Integer),
        failure_message(first, Decoder::Float) != invalid_path_message(),
        failure_message(first, Decoder::Integer) != invalid_path_message(),
        (first is File) != (second is File) ==> forall|a: Decoder, b: Decoder|
            failure_message(first, a) != failure_message(second, b),
{
    reveal_strlit("path is not valid utf8");
    reveal_strlit("stbi_loadf failed");
    reveal_strlit("stbi_load failed");
    reveal_strlit("stbi_loadf_from_memory failed");
    reveal_strlit("stbi_load_from_memory failed");
    assert("path is not valid utf8"@.len() == 22);
    assert("stbi_loadf failed"@.len() == 17);
    assert("stbi_load failed"@.len() == 16);
    assert("stbi_loadf_from_memory failed"@.len() == 29);
    assert("stbi_load_from_memory failed"@.len() == 28);
}

/// A step depends on nothing but the loader and the event: whenever
/// [`Loader::step`] is called twice on the same loader with events that
/// hold the same, both calls accept or both refuse, and where they accept
/// they return the same loader and actions that hold the same.
pub proof fn step_repeats<F>(
    loader: Loader,
    first: Event<F>,
    second: Event<F>,
    once: Option<(Loader, Action<F>)>,
    again: Option<(Loader, Action<F>)>,
)
    requires
        first@ == second@,
        call_ensures(Loader::step::<F>, (loader, first), once),
        call_ensures(Loader::step::<F>, (loader, second), again),
    ensures
        once is Some <==> again is Some,
        once matches Some((loader_once, action_once)) ==> again matches Some(
            (loader_again, action_again),
        ) && loader_once == loader_again && action_once@ == action_again@,
{
}

/// A load from memory begins with nothing but its arguments: whenever
/// [`Loader::for_memory`] is called twice with buffers that hold the same
/// bytes, the same forced depth and the same conversion flag, both calls
/// return the same loader and actions that hold the same.
pub proof fn load_from_memory_repeats<F>(
    first: &[u8],
    second: &[u8],
    force_depth: usize,
    convert_hdr: bool,
    once: (Loader, Action<F>),
    again: (Loader, Action<F>),
)
    requires
        first@ == second@,
        call_ensures(Loader::for_memory::<F>, (first, force_depth, convert_hdr), once),
        call_ensures(Loader::for_memory::<F>, (second, force_depth, convert_hdr), again),
    ensures
        once.0 == again.0,
        once.1@ == again.1@,
{
}

/// A load from a path begins with nothing but its arguments: whenever
/// [`Loader::for_path`] is called twice with paths that are both valid text
/// or both not, the same forced depth and the same conversion flag, both
/// calls return the same loader and actions that hold the same.
pub proof fn load_from_path_repeats<F>(
    first: Option<&str>,
    second: Option<&str>,
    force_depth: usize,
    convert_hdr: bool,
    once: (Loader, Action<F>),
    again: (Loader, Action<F>),
)
    requires
        first is Some <==> second is Some,
        call_ensures(Loader::for_path::<F>, (first, force_depth, convert_hdr), once),
        call_ensures(Loader::for_path::<F>, (second, force_depth, convert_hdr), again),
    ensures
        once.0 == again.0,
        once.1@ == again.1@,
{
}

} // verus!
