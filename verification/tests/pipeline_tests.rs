use androidsink::pipeline::{
    bus_verdict, example_audio_caps, missing_element_message, received_error_message,
    sample_energy, samples_from_bytes, BusMessage, LoopVerdict, SampleDecodeError,
};

#[test]
fn the_example_requests_mono_sixteen_bit_audio() {
    let caps = example_audio_caps();
    assert_eq!(caps.media, "audio/x-raw");
    assert_eq!(caps.format, "S16LE");
    assert_eq!(caps.layout, "interleaved");
    assert_eq!(caps.channels, 1);
    assert_eq!(caps.rate_min, 1);
    assert_eq!(caps.rate_max, i32::MAX);
}

#[test]
fn element_and_bus_error_messages_are_fixed() {
    assert_eq!(
        missing_element_message("audiotestsrc"),
        "Missing element audiotestsrc"
    );
    assert_eq!(
        received_error_message("/pipeline0/src", "internal data stream error"),
        "Received error from /pipeline0/src: internal data stream error"
    );
}

#[test]
fn the_run_loop_stops_on_end_of_stream_and_fails_on_errors() {
    assert_eq!(bus_verdict(&BusMessage::EndOfStream), LoopVerdict::Stop);
    assert_eq!(
        bus_verdict(&BusMessage::ErrorReport {
            source: String::from("/pipeline0/src"),
            detail: String::from("gone"),
        }),
        LoopVerdict::Fail
    );
    assert_eq!(bus_verdict(&BusMessage::Other), LoopVerdict::KeepWaiting);
}

#[test]
fn samples_decode_little_endian() {
    let bytes: Vec<u8> = vec![0x34, 0x12, 0xff, 0xff, 0x00, 0x80, 0xff, 0x7f];
    let samples = samples_from_bytes(&bytes).unwrap();
    assert_eq!(samples, vec![0x1234, -1, -32768, 32767]);
}

#[test]
fn an_empty_buffer_decodes_to_no_samples() {
    let samples = samples_from_bytes(&[]).unwrap();
    assert!(samples.is_empty());
}

#[test]
fn a_trailing_byte_is_rejected() {
    assert_eq!(
        samples_from_bytes(&[0x01, 0x02, 0x03]),
        Err(SampleDecodeError::TrailingByte)
    );
}

#[test]
fn the_energy_is_the_sum_of_squares() {
    assert_eq!(sample_energy(&vec![]), 0);
    assert_eq!(sample_energy(&vec![3, -4]), 25);
    assert_eq!(sample_energy(&vec![i16::MIN]), 1_073_741_824);
    assert_eq!(sample_energy(&vec![i16::MAX, i16::MAX]), 2 * 1_073_676_289);
}

#[test]
fn the_energy_matches_the_root_mean_square_the_example_prints() {
    // The example normalizes each sample by the widest positive sample and
    // prints the root of the mean square; the integer energy carries all of
    // the information that computation needs.
    let bytes: Vec<u8> = vec![0x00, 0x40, 0x00, 0xc0];
    let samples = samples_from_bytes(&bytes).unwrap();
    assert_eq!(samples, vec![16384, -16384]);
    let energy = sample_energy(&samples);
    assert_eq!(energy, 2 * 16384u128 * 16384u128);
    let rms = ((energy as f64 / samples.len() as f64).sqrt()) / (i16::MAX as f64);
    assert!((rms - 16384.0 / 32767.0).abs() < 1e-12);
}
