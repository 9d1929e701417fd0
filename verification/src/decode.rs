//! The decode orchestrator.
//!
//! A load alternates between decisions and calls into the decoding engine.
//! The decisions are made here; the calls are made by a driver that owns the
//! path or the byte buffer and is linked against the engine. A [`Loader`]
//! tells the driver which call to make next, as an [`Action`], and the driver
//! reports what the engine answered, as an [`Event`]:
//!
//! ```text
//! for_path / for_memory     ProbeHdr?      Decode      Transfer | Release     Finish
//!        driver  <--action--  Loader::step  <--event--  driver  ...
//! ```
//!
//! Every answer the engine can give is provided for. The only events a loader
//! turns down are those that answer a question it did not ask.

use crate::image::{LoadResult, LoadResultView};
use crate::transfer::{count_samples, image_of, load_internal, sample_count};
use vstd::prelude::*;

verus! {

/// Where the encoded image is read from. The driver holds the path or the
/// buffer itself.
#[derive(Clone, Copy, Debug, PartialEq, Eq, Structural)]
pub enum Source {
    /// A file named by a path.
    File,
    /// A byte buffer, with the length that the engine is told.
    Memory(i32),
}

/// The two families of entry points the engine decodes with.
#[derive(Clone, Copy, Debug, PartialEq, Eq, Structural)]
pub enum Decoder {
    /// `stbi_load`, `stbi_load_from_memory`: 8-bit samples.
    Integer,
    /// `stbi_loadf`, `stbi_loadf_from_memory`: floating-point samples.
    Float,
}

/// What the engine writes to its three out-parameters when a decode succeeds.
#[derive(Clone, Copy, Debug, PartialEq, Eq, Structural)]
pub struct Dimensions {
    pub width: i32,
    pub height: i32,
    /// The number of channels of the encoded image, whatever number was
    /// requested.
    pub channels: i32,
}

/// What the driver reports back after carrying out an [`Action`].
#[derive(Debug, PartialEq)]
pub enum Event<F> {
    /// The answer of the HDR probe; anything but zero means HDR.
    HdrProbed(i32),
    /// The outcome of a decode: `None` where the engine returned a null
    /// pointer.
    Decoded(Option<Dimensions>),
    /// The samples copied out of a buffer of 8-bit samples, now released.
    CopiedU8(Vec<u8>),
    /// The samples copied out of a buffer of floating-point samples, now
    /// released.
    CopiedF32(Vec<F>),
    /// The buffer was released unread.
    Released,
}

/// What an [`Event`] holds, as mathematics.
pub enum EventView<F> {
    HdrProbed(i32),
    Decoded(Option<Dimensions>),
    CopiedU8(Seq<u8>),
    CopiedF32(Seq<F>),
    Released,
}

impl<F> View for Event<F> {
    type V = EventView<F>;

    open spec fn view(&self) -> EventView<F> {
        match self {
            Event::HdrProbed(answer) => EventView::HdrProbed(*answer),
            Event::Decoded(outcome) => EventView::Decoded(*outcome),
            Event::CopiedU8(samples) => EventView::CopiedU8(samples@),
            Event::CopiedF32(samples) => EventView::CopiedF32(samples@),
            Event::Released => EventView::Released,
        }
    }
}

/// What the driver is to do next.
#[derive(Debug, PartialEq)]
pub enum Action<F> {
    /// Ask the engine whether the source is HDR, and report `HdrProbed`.
    ProbeHdr(Source),
    /// Call the decoder for `source` with `channels` as the requested number
    /// of channels, and report `Decoded`.
    Decode { decoder: Decoder, source: Source, channels: i32 },
    /// Copy the first `count` samples out of the buffer that the decoder
    /// returned, release the buffer, and report `CopiedU8` or `CopiedF32`.
    Transfer { decoder: Decoder, count: usize },
    /// Release the buffer that the decoder returned without reading it, and
    /// report `Released`.
    Release,
    /// Hand the result to the caller. The load is over.
    Finish(LoadResult<F>),
}

/// What an [`Action`] holds, as mathematics.
pub enum ActionView<F> {
    ProbeHdr(Source),
    Decode { decoder: Decoder, source: Source, channels: i32 },
    Transfer { decoder: Decoder, count: usize },
    Release,
    Finish(LoadResultView<F>),
}

impl<F> View for Action<F> {
    type V = ActionView<F>;

    open spec fn view(&self) -> ActionView<F> {
        match self {
            Action::ProbeHdr(source) => ActionView::ProbeHdr(*source),
            Action::Decode { decoder, source, channels } => ActionView::Decode {
                decoder: *decoder,
                source: *source,
                channels: *channels,
            },
            Action::Transfer { decoder, count } => ActionView::Transfer {
                decoder: *decoder,
                count: *count,
            },
            Action::Release => ActionView::Release,
            Action::Finish(result) => ActionView::Finish(result@),
        }
    }
}

impl<F> ActionView<F> {
    /// The action ends with the engine's buffer released.
    pub open spec fn releases_buffer(self) -> bool {
        self is Transfer || self is Release
    }
}

/// How far a load has come: which answer the loader is waiting for.
#[derive(Clone, Copy, Debug, PartialEq, Eq, Structural)]
pub enum Phase {
    /// Waiting for the answer of the HDR probe.
    Probing,
    /// Waiting for the outcome of a decode.
    Decoding(Decoder),
    /// Waiting for the samples of an image of this shape.
    Transferring { decoder: Decoder, width: i32, height: i32, depth: i32 },
    /// Waiting for a buffer that cannot be used to be released.
    Releasing(Decoder),
    /// The result has been handed out.
    Done,
}

/// The state of one load.
#[derive(Clone, Copy, Debug, PartialEq, Eq, Structural)]
pub struct Loader {
    pub source: Source,
    /// The number of channels the caller wants, or zero for as many as the
    /// encoded image has.
    pub force_depth: usize,
    pub phase: Phase,
}

/// `n` as the engine receives it in a 32-bit signed integer: `n` itself where
/// it fits, and otherwise what its low 32 bits denote.
pub open spec fn engine_int(n: usize) -> i32 {
    n as i32
}

/// The decoder for a source whose HDR probe gave `answer`.
pub open spec fn decoder_for(answer: i32) -> Decoder {
    if answer != 0 {
        Decoder::Float
    } else {
        Decoder::Integer
    }
}

/// The number of samples per pixel in a decoded buffer. The engine lays the
/// buffer out with the requested number of channels where one was requested,
/// and with the channels of the encoded image where none was.
pub open spec fn effective_depth(force_depth: usize, channels: i32) -> i32 {
    if force_depth != 0 {
        engine_int(force_depth)
    } else {
        channels
    }
}

/// The message of the error returned where a path is not valid text.
pub open spec fn invalid_path_message() -> Seq<char> {
    "path is not valid utf8"@
}

/// The message of the error returned where a decode fails. It names the
/// entry point of the engine that was called.
pub open spec fn failure_message(source: Source, decoder: Decoder) -> Seq<char> {
    match (source, decoder) {
        (Source::File, Decoder::Float) => "stbi_loadf failed"@,
        (Source::File, Decoder::Integer) => "stbi_load failed"@,
        (Source::Memory(_), Decoder::Float) => "stbi_loadf_from_memory failed"@,
        (Source::Memory(_), Decoder::Integer) => "stbi_load_from_memory failed"@,
    }
}

impl Loader {
    /// A finished loader.
    pub open spec fn done(self) -> Loader {
        Loader { phase: Phase::Done, ..self }
    }

    /// Asking for a decode with `decoder`.
    pub open spec fn ask_decode<F>(self, decoder: Decoder) -> (Loader, ActionView<F>) {
        (
            Loader { phase: Phase::Decoding(decoder), ..self },
            ActionView::Decode {
                decoder,
                source: self.source,
                channels: engine_int(self.force_depth),
            },
        )
    }

    /// Finishing with the error of a failed decode.
    pub open spec fn fail<F>(self, decoder: Decoder) -> (Loader, ActionView<F>) {
        (
            self.done(),
            ActionView::Finish(LoadResultView::Error(failure_message(self.source, decoder))),
        )
    }

    /// How a load of `source` begins. The HDR probe is made only where
    /// conversion to 8-bit samples was not asked for; where it was, the
    /// integer decoder is called whatever the source holds.
    pub open spec fn begin<F>(source: Source, force_depth: usize, convert_hdr: bool) -> (
        Loader,
        ActionView<F>,
    ) {
        let loader = Loader { source, force_depth, phase: Phase::Probing };
        if convert_hdr {
            loader.ask_decode(Decoder::Integer)
        } else {
            (loader, ActionView::ProbeHdr(source))
        }
    }

    /// How a load from a path begins: `valid_text` says whether the path is
    /// valid text. Where it is not, the load is over at once.
    pub open spec fn begin_path<F>(valid_text: bool, force_depth: usize, convert_hdr: bool) -> (
        Loader,
        ActionView<F>,
    ) {
        if valid_text {
            Self::begin(Source::File, force_depth, convert_hdr)
        } else {
            (
                Loader { source: Source::File, force_depth, phase: Phase::Done },
                ActionView::Finish(LoadResultView::Error(invalid_path_message())),
            )
        }
    }

    /// The transition function: the state and the action that follow when
    /// `event` arrives, or `None` where `event` answers nothing that this
    /// loader is waiting for.
    pub open spec fn next<F>(self, event: EventView<F>) -> Option<(Loader, ActionView<F>)> {
        match (self.phase, event) {
            (Phase::Probing, EventView::HdrProbed(answer)) => Some(
                self.ask_decode(decoder_for(answer)),
            ),
            (Phase::Decoding(decoder), EventView::Decoded(None)) => Some(self.fail(decoder)),
            (Phase::Decoding(decoder), EventView::Decoded(Some(dims))) => {
                let depth = effective_depth(self.force_depth, dims.channels);
                match sample_count(dims.width, dims.height, depth) {
                    Some(count) => Some(
                        (
                            Loader {
                                phase: Phase::Transferring {
                                    decoder,
                                    width: dims.width,
                                    height: dims.height,
                                    depth,
                                },
                                ..self
                            },
                            ActionView::Transfer { decoder, count },
                        ),
                    ),
                    None => Some(
                        (Loader { phase: Phase::Releasing(decoder), ..self }, ActionView::Release),
                    ),
                }
            },
            (
                Phase::Transferring { decoder: Decoder::Integer, width, height, depth },
                EventView::CopiedU8(samples),
            ) => {
                if sample_count(width, height, depth) matches Some(count) && count
                    == samples.len() {
                    Some(
                        (
                            self.done(),
                            ActionView::Finish(
                                LoadResultView::ImageU8(image_of(width, height, depth, samples)),
                            ),
                        ),
                    )
                } else {
                    None
                }
            },
            (
                Phase::Transferring { decoder: Decoder::Float, width, height, depth },
                EventView::CopiedF32(samples),
            ) => {
                if sample_count(width, height, depth) matches Some(count) && count
                    == samples.len() {
                    Some(
                        (
                            self.done(),
                            ActionView::Finish(
                                LoadResultView::ImageF32(image_of(width, height, depth, samples)),
                            ),
                        ),
                    )
                } else {
                    None
                }
            },
            (Phase::Releasing(decoder), EventView::Released) => Some(self.fail(decoder)),
            _ => None,
        }
    }
}

/// Computes [`engine_int`]: the cast with which an integer is handed to the
/// engine.
pub fn to_engine_int(n: usize) -> (value: i32)
    ensures
        value == engine_int(n),
        n <= i32::MAX ==> value == n,
{
    #[verifier::truncate]
    (n as i32)
}

/// Computes [`decoder_for`].
pub fn select_decoder(answer: i32) -> (decoder: Decoder)
    ensures
        decoder == decoder_for(answer),
{
    if answer != 0 {
        Decoder::Float
    } else {
        Decoder::Integer
    }
}

/// The error with which a load ends where the decode with `decoder` fails.
pub fn decode_failure<F>(source: Source, decoder: Decoder) -> (result: LoadResult<F>)
    ensures
        result@ == LoadResultView::<F>::Error(failure_message(source, decoder)),
{
    let message = match (source, decoder) {
        (Source::File, Decoder::Float) => "stbi_loadf failed",
        (Source::File, Decoder::Integer) => "stbi_load failed",
        (Source::Memory(_), Decoder::Float) => "stbi_loadf_from_memory failed",
        (Source::Memory(_), Decoder::Integer) => "stbi_load_from_memory failed",
    };
    LoadResult::Error(message.to_owned())
}

impl Loader {
    /// Begins a load from the file at a path. `path_text` is the path as
    /// text, or `None` where it is not valid text: the load then ends at once
    /// with an error, and the engine is not called.
    pub fn for_path<F>(path_text: Option<&str>, force_depth: usize, convert_hdr: bool) -> (start: (
        Loader,
        Action<F>,
    ))
        ensures
            (start.0, start.1@) == Loader::begin_path::<F>(
                path_text is Some,
                force_depth,
                convert_hdr,
            ),
    {
        if path_text.is_none() {
            let loader = Loader { source: Source::File, force_depth, phase: Phase::Done };
            (loader, Action::Finish(LoadResult::Error("path is not valid utf8".to_owned())))
        } else {
            Loader::start(Source::File, force_depth, convert_hdr)
        }
    }

    /// Begins a load from the bytes of `buffer`.
    pub fn for_memory<F>(buffer: &[u8], force_depth: usize, convert_hdr: bool) -> (start: (
        Loader,
        Action<F>,
    ))
        ensures
            (start.0, start.1@) == Loader::begin::<F>(
                Source::Memory(engine_int(buffer@.len() as usize)),
                force_depth,
                convert_hdr,
            ),
    {
        Loader::start(Source::Memory(to_engine_int(buffer.len())), force_depth, convert_hdr)
    }

    /// Takes what the driver reports and says where the load stands then and
    /// what the driver is to do next, or `None` where `event` is not the
    /// answer this loader is waiting for.
    pub fn step<F>(self, event: Event<F>) -> (next: Option<(Loader, Action<F>)>)
        ensures
            match next {
                Some((loader, action)) => self.next(event@) == Some((loader, action@)),
                None => self.next(event@) is None,
            },
            next matches Some((_, Action::Finish(result))) ==> result.well_formed(),
    {
        match (self.phase, event) {
            (Phase::Probing, Event::HdrProbed(answer)) => Some(
                self.decode_with(select_decoder(answer)),
            ),
            (Phase::Decoding(decoder), Event::Decoded(None)) => Some(self.finish_failed(decoder)),
            (Phase::Decoding(decoder), Event::Decoded(Some(dims))) => {
                let depth = if self.force_depth != 0 {
                    to_engine_int(self.force_depth)
                } else {
                    dims.channels
                };
                match count_samples(dims.width, dims.height, depth) {
                    Some(count) => {
                        let phase = Phase::Transferring {
                            decoder,
                            width: dims.width,
                            height: dims.height,
                            depth,
                        };
                        Some((Loader { phase, ..self }, Action::Transfer { decoder, count }))
                    },
                    None => Some(
                        (Loader { phase: Phase::Releasing(decoder), ..self }, Action::Release),
                    ),
                }
            },
            (
                Phase::Transferring { decoder: Decoder::Integer, width, height, depth },
                Event::CopiedU8(samples),
            ) => {
                if count_samples(width, height, depth) == Some(samples.len()) {
                    let image = load_internal(samples, width, height, depth);
                    Some((self.finished(), Action::Finish(LoadResult::ImageU8(image))))
                } else {
                    None
                }
            },
            (
                Phase::Transferring { decoder: Decoder::Float, width, height, depth },
                Event::CopiedF32(samples),
            ) => {
                if count_samples(width, height, depth) == Some(samples.len()) {
                    let image = load_internal(samples, width, height, depth);
                    Some((self.finished(), Action::Finish(LoadResult::ImageF32(image))))
                } else {
                    None
                }
            },
            (Phase::Releasing(decoder), Event::Released) => Some(self.finish_failed(decoder)),
            _ => None,
        }
    }

    fn start<F>(source: Source, force_depth: usize, convert_hdr: bool) -> (start: (
        Loader,
        Action<F>,
    ))
        ensures
            (start.0, start.1@) == Loader::begin::<F>(source, force_depth, convert_hdr),
    {
        let loader = Loader { source, force_depth, phase: Phase::Probing };
        if convert_hdr {
            loader.decode_with(Decoder::Integer)
        } else {
            (loader, Action::ProbeHdr(source))
        }
    }

    fn finished(self) -> (loader: Loader)
        ensures
            loader == self.done(),
    {
        Loader { phase: Phase::Done, ..self }
    }

    fn decode_with<F>(self, decoder: Decoder) -> (next: (Loader, Action<F>))
        ensures
            (next.0, next.1@) == self.ask_decode::<F>(decoder),
    {
        (
            Loader { phase: Phase::Decoding(decoder), ..self },
            Action::Decode {
                decoder,
                source: self.source,
                channels: to_engine_int(self.force_depth),
            },
        )
    }

    fn finish_failed<F>(self, decoder: Decoder) -> (next: (Loader, Action<F>))
        ensures
            (next.0, next.1@) == self.fail::<F>(decoder),
            next.1 matches Action::Finish(result) && result.well_formed(),
    {
        (self.finished(), Action::Finish(decode_failure(self.source, decoder)))
    }
}

} // verus!
