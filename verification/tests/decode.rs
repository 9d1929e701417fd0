use stb_image::decode::{
    decode_failure, select_decoder, to_engine_int, Action, Decoder, Dimensions, Event, Loader,
    Phase, Source,
};
use stb_image::image::{Image, LoadResult};

fn dims(width: i32, height: i32, channels: i32) -> Dimensions {
    Dimensions { width, height, channels }
}

fn error(message: &str) -> LoadResult<f32> {
    LoadResult::Error(message.to_string())
}

#[test]
fn small_numbers_reach_the_engine_unchanged() {
    assert_eq!(to_engine_int(0), 0);
    assert_eq!(to_engine_int(4), 4);
    assert_eq!(to_engine_int(i32::MAX as usize), i32::MAX);
}

#[test]
fn large_numbers_reach_the_engine_as_their_low_bits() {
    assert_eq!(to_engine_int(i32::MAX as usize + 1), i32::MIN);
    assert_eq!(to_engine_int(u32::MAX as usize), -1);
    assert_eq!(to_engine_int(usize::MAX), -1);
}

#[test]
fn probe_answer_selects_the_decoder() {
    assert_eq!(select_decoder(0), Decoder::Integer);
    assert_eq!(select_decoder(1), Decoder::Float);
    assert_eq!(select_decoder(-1), Decoder::Float);
    assert_eq!(select_decoder(i32::MIN), Decoder::Float);
}

#[test]
fn failure_names_the_entry_point() {
    assert_eq!(decode_failure::<f32>(Source::File, Decoder::Float), error("stbi_loadf failed"));
    assert_eq!(decode_failure::<f32>(Source::File, Decoder::Integer), error("stbi_load failed"));
    assert_eq!(
        decode_failure::<f32>(Source::Memory(10), Decoder::Float),
        error("stbi_loadf_from_memory failed")
    );
    assert_eq!(
        decode_failure::<f32>(Source::Memory(10), Decoder::Integer),
        error("stbi_load_from_memory failed")
    );
}

#[test]
fn load_from_memory_begins_with_the_probe() {
    let (loader, action) = Loader::for_memory::<f32>(&[1, 2, 3], 0, false);
    assert_eq!(action, Action::ProbeHdr(Source::Memory(3)));
    assert_eq!(loader, Loader { source: Source::Memory(3), force_depth: 0, phase: Phase::Probing });
}

#[test]
fn load_from_empty_memory_begins_with_the_probe() {
    let (_, action) = Loader::for_memory::<f32>(&[], 0, false);
    assert_eq!(action, Action::ProbeHdr(Source::Memory(0)));
}

#[test]
fn load_with_conversion_begins_with_the_integer_decoder() {
    let (loader, action) = Loader::for_memory::<f32>(&[1, 2, 3, 4], 3, true);
    assert_eq!(
        action,
        Action::Decode { decoder: Decoder::Integer, source: Source::Memory(4), channels: 3 }
    );
    assert_eq!(loader.phase, Phase::Decoding(Decoder::Integer));
    let (loader, action) = Loader::for_path::<f32>(Some("a.png"), 0, true);
    assert_eq!(
        action,
        Action::Decode { decoder: Decoder::Integer, source: Source::File, channels: 0 }
    );
    assert_eq!(loader.phase, Phase::Decoding(Decoder::Integer));
}

#[test]
fn load_from_path_begins_with_the_probe() {
    let (loader, action) = Loader::for_path::<f32>(Some("a.hdr"), 4, false);
    assert_eq!(action, Action::ProbeHdr(Source::File));
    assert_eq!(loader, Loader { source: Source::File, force_depth: 4, phase: Phase::Probing });
}

#[test]
fn invalid_path_ends_the_load_at_once() {
    for convert_hdr in [false, true] {
        let (loader, action) = Loader::for_path::<f32>(None, 0, convert_hdr);
        assert_eq!(action, Action::Finish(error("path is not valid utf8")));
        assert_eq!(loader.phase, Phase::Done);
        assert_eq!(loader.step(Event::<f32>::HdrProbed(1)), None);
        assert_eq!(loader.step(Event::<f32>::Decoded(None)), None);
        assert_eq!(loader.step(Event::<f32>::Decoded(Some(dims(1, 1, 1)))), None);
        assert_eq!(loader.step(Event::<f32>::CopiedU8(vec![0])), None);
        assert_eq!(loader.step(Event::<f32>::CopiedF32(vec![0.0])), None);
        assert_eq!(loader.step(Event::<f32>::Released), None);
    }
}

#[test]
fn probe_answer_is_followed_by_the_matching_decode() {
    let (loader, _) = Loader::for_memory::<f32>(&[0; 8], 0, false);
    let (after, action) = loader.step(Event::<f32>::HdrProbed(0)).unwrap();
    assert_eq!(
        action,
        Action::Decode { decoder: Decoder::Integer, source: Source::Memory(8), channels: 0 }
    );
    assert_eq!(after.phase, Phase::Decoding(Decoder::Integer));
    let (after, action) = loader.step(Event::<f32>::HdrProbed(1)).unwrap();
    assert_eq!(
        action,
        Action::Decode { decoder: Decoder::Float, source: Source::Memory(8), channels: 0 }
    );
    assert_eq!(after.phase, Phase::Decoding(Decoder::Float));
}

#[test]
fn null_from_the_decoder_is_an_error() {
    for (source, decoder, message) in [
        (Source::File, Decoder::Float, "stbi_loadf failed"),
        (Source::File, Decoder::Integer, "stbi_load failed"),
        (Source::Memory(5), Decoder::Float, "stbi_loadf_from_memory failed"),
        (Source::Memory(5), Decoder::Integer, "stbi_load_from_memory failed"),
    ] {
        let loader = Loader { source, force_depth: 0, phase: Phase::Decoding(decoder) };
        let (after, action) = loader.step(Event::<f32>::Decoded(None)).unwrap();
        assert_eq!(action, Action::Finish(error(message)));
        assert_eq!(after.phase, Phase::Done);
    }
}

#[test]
fn decoded_shape_is_followed_by_the_transfer() {
    let loader =
        Loader { source: Source::File, force_depth: 0, phase: Phase::Decoding(Decoder::Integer) };
    let (after, action) = loader.step(Event::<f32>::Decoded(Some(dims(4, 5, 3)))).unwrap();
    assert_eq!(action, Action::Transfer { decoder: Decoder::Integer, count: 60 });
    assert_eq!(
        after.phase,
        Phase::Transferring { decoder: Decoder::Integer, width: 4, height: 5, depth: 3 }
    );
}

#[test]
fn forced_depth_replaces_the_reported_channels() {
    for source in [Source::File, Source::Memory(100)] {
        let loader = Loader { source, force_depth: 4, phase: Phase::Decoding(Decoder::Float) };
        let (after, action) = loader.step(Event::<f32>::Decoded(Some(dims(2, 3, 1)))).unwrap();
        assert_eq!(action, Action::Transfer { decoder: Decoder::Float, count: 24 });
        let samples: Vec<f32> = (0..24).map(|i| i as f32).collect();
        let (_, action) = after.step(Event::CopiedF32(samples.clone())).unwrap();
        assert_eq!(
            action,
            Action::Finish(LoadResult::ImageF32(Image {
                width: 2,
                height: 3,
                depth: 4,
                data: samples
            }))
        );
    }
}

#[test]
fn transfer_finishes_with_the_image() {
    let loader = Loader {
        source: Source::Memory(9),
        force_depth: 0,
        phase: Phase::Transferring { decoder: Decoder::Integer, width: 2, height: 1, depth: 3 },
    };
    let (after, action) = loader.step(Event::<f32>::CopiedU8(vec![1, 2, 3, 4, 5, 6])).unwrap();
    assert_eq!(
        action,
        Action::Finish(LoadResult::ImageU8(Image {
            width: 2,
            height: 1,
            depth: 3,
            data: vec![1, 2, 3, 4, 5, 6]
        }))
    );
    assert_eq!(after.phase, Phase::Done);
}

#[test]
fn samples_of_the_wrong_length_or_kind_are_turned_down() {
    let loader = Loader {
        source: Source::Memory(9),
        force_depth: 0,
        phase: Phase::Transferring { decoder: Decoder::Integer, width: 2, height: 1, depth: 3 },
    };
    assert_eq!(loader.step(Event::<f32>::CopiedU8(vec![1, 2, 3, 4, 5])), None);
    assert_eq!(loader.step(Event::<f32>::CopiedU8(vec![1, 2, 3, 4, 5, 6, 7])), None);
    assert_eq!(loader.step(Event::<f32>::CopiedU8(Vec::new())), None);
    assert_eq!(loader.step(Event::<f32>::CopiedF32(vec![0.0; 6])), None);
    let float = Loader {
        phase: Phase::Transferring { decoder: Decoder::Float, width: 2, height: 1, depth: 3 },
        ..loader
    };
    assert_eq!(float.step(Event::<f32>::CopiedU8(vec![0; 6])), None);
    assert_eq!(float.step(Event::<f32>::CopiedF32(vec![0.0; 5])), None);
    assert!(float.step(Event::<f32>::CopiedF32(vec![0.0; 6])).is_some());
}

#[test]
fn events_out_of_turn_are_turned_down() {
    let probing = Loader { source: Source::File, force_depth: 0, phase: Phase::Probing };
    assert_eq!(probing.step(Event::<f32>::Decoded(None)), None);
    assert_eq!(probing.step(Event::<f32>::Decoded(Some(dims(1, 1, 1)))), None);
    assert_eq!(probing.step(Event::<f32>::CopiedU8(vec![0])), None);
    assert_eq!(probing.step(Event::<f32>::Released), None);
    let decoding = Loader { phase: Phase::Decoding(Decoder::Integer), ..probing };
    assert_eq!(decoding.step(Event::<f32>::HdrProbed(0)), None);
    assert_eq!(decoding.step(Event::<f32>::CopiedU8(vec![0])), None);
    assert_eq!(decoding.step(Event::<f32>::Released), None);
    let releasing = Loader { phase: Phase::Releasing(Decoder::Integer), ..probing };
    assert_eq!(releasing.step(Event::<f32>::HdrProbed(0)), None);
    assert_eq!(releasing.step(Event::<f32>::Decoded(None)), None);
    assert_eq!(releasing.step(Event::<f32>::CopiedU8(Vec::new())), None);
    let transferring = Loader {
        phase: Phase::Transferring { decoder: Decoder::Integer, width: 1, height: 1, depth: 1 },
        ..probing
    };
    assert_eq!(transferring.step(Event::<f32>::HdrProbed(0)), None);
    assert_eq!(transferring.step(Event::<f32>::Decoded(None)), None);
    assert_eq!(transferring.step(Event::<f32>::Released), None);
}

#[test]
fn ill_formed_transfer_state_accepts_nothing() {
    let loader = Loader {
        source: Source::File,
        force_depth: 0,
        phase: Phase::Transferring { decoder: Decoder::Integer, width: -1, height: 1, depth: 1 },
    };
    assert_eq!(loader.step(Event::<f32>::CopiedU8(Vec::new())), None);
    assert_eq!(loader.step(Event::<f32>::CopiedU8(vec![0])), None);
}

#[test]
fn unusable_shape_is_released_and_reported_as_failure() {
    for shape in [dims(-1, 2, 3), dims(2, -5, 3), dims(2, 2, -1), dims(i32::MAX, i32::MAX, i32::MAX)]
    {
        let loader = Loader {
            source: Source::Memory(7),
            force_depth: 0,
            phase: Phase::Decoding(Decoder::Integer),
        };
        let (after, action) = loader.step(Event::<f32>::Decoded(Some(shape))).unwrap();
        assert_eq!(action, Action::Release);
        assert_eq!(after.phase, Phase::Releasing(Decoder::Integer));
        let (after, action) = after.step(Event::<f32>::Released).unwrap();
        assert_eq!(action, Action::Finish(error("stbi_load_from_memory failed")));
        assert_eq!(after.phase, Phase::Done);
    }
}

#[test]
fn forced_depth_that_reaches_the_engine_negative_is_unusable() {
    let loader = Loader {
        source: Source::File,
        force_depth: usize::MAX,
        phase: Phase::Decoding(Decoder::Float),
    };
    let (after, action) = loader.step(Event::<f32>::Decoded(Some(dims(2, 2, 3)))).unwrap();
    assert_eq!(action, Action::Release);
    let (_, action) = after.step(Event::<f32>::Released).unwrap();
    assert_eq!(action, Action::Finish(error("stbi_loadf failed")));
}

#[test]
fn empty_shape_gives_an_empty_image() {
    let loader =
        Loader { source: Source::File, force_depth: 0, phase: Phase::Decoding(Decoder::Integer) };
    let (after, action) = loader.step(Event::<f32>::Decoded(Some(dims(0, 10, 3)))).unwrap();
    assert_eq!(action, Action::Transfer { decoder: Decoder::Integer, count: 0 });
    let (_, action) = after.step(Event::<f32>::CopiedU8(Vec::new())).unwrap();
    assert_eq!(
        action,
        Action::Finish(LoadResult::ImageU8(Image {
            width: 0,
            height: 10,
            depth: 3,
            data: Vec::new()
        }))
    );
}

#[test]
fn a_step_repeats() {
    let loader =
        Loader { source: Source::Memory(3), force_depth: 2, phase: Phase::Decoding(Decoder::Float) };
    let once = loader.step(Event::<f32>::Decoded(Some(dims(3, 3, 4))));
    let again = loader.step(Event::<f32>::Decoded(Some(dims(3, 3, 4))));
    assert_eq!(once, again);
    assert_eq!(
        Loader::for_memory::<f32>(&[1, 2], 1, false),
        Loader::for_memory::<f32>(&[1, 2], 1, false)
    );
    assert_eq!(
        Loader::for_path::<f32>(Some("a"), 1, true),
        Loader::for_path::<f32>(Some("b"), 1, true)
    );
}
