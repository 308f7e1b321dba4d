//! The example pipeline: the capability set it requests, the run loop's
//! decisions, and the decoding and integer energy of the pulled samples.
//! The framework builds and drives the graph; the unverified layer pulls
//! each buffer's bytes out and takes the square root at the very end.

use vstd::prelude::*;

verus! {

/// The fixed capability set the example requests from its source: signed
/// sixteen-bit little-endian samples, interleaved, one channel, any rate.
pub struct AudioCaps {
    pub media: String,
    pub format: String,
    pub layout: String,
    pub channels: i32,
    pub rate_min: i32,
    pub rate_max: i32,
}

/// The capability set of the example pipeline.
pub fn example_audio_caps() -> (r: AudioCaps)
    ensures
        r.media@ == "audio/x-raw"@,
        r.format@ == "S16LE"@,
        r.layout@ == "interleaved"@,
        r.channels == 1i32,
        r.rate_min == 1i32,
        r.rate_max == 0x7fff_ffffi32,
{
    AudioCaps {
        media: String::from_str("audio/x-raw"),
        format: String::from_str("S16LE"),
        layout: String::from_str("interleaved"),
        channels: 1,
        rate_min: 1,
        rate_max: 0x7fff_ffff,
    }
}

/// The error text naming a pipeline element that could not be created.
pub fn missing_element_message(name: &str) -> (r: String)
    ensures
        r@ == "Missing element "@ + name@,
{
    let mut out = String::from_str("Missing element ");
    out.append(name);
    out
}

/// The report for an error taken off the bus: the erroring element's path
/// and the error's text.
pub fn received_error_message(source: &str, detail: &str) -> (r: String)
    ensures
        r@ == "Received error from "@ + source@ + ": "@ + detail@,
{
    proof {
        reveal_strlit("Received error from ");
        reveal_strlit(": ");
    }
    let mut out = String::from_str("Received error from ");
    out.append(source);
    out.append(": ");
    out.append(detail);
    proof {
        assert(out@ =~= "Received error from "@ + source@ + ": "@ + detail@);
    }
    out
}

/// One message taken off the pipeline bus, reduced to what the run loop
/// reads of it.
pub enum BusMessage {
    /// The stream ended.
    EndOfStream,
    /// An element reported an error: the reporting object's path and the
    /// error's text come along for the report.
    ErrorReport { source: String, detail: String },
    /// Anything else on the bus.
    Other,
}

/// What the run loop does with one message.
#[derive(Clone, Copy, Debug, PartialEq, Eq, Structural)]
pub enum LoopVerdict {
    /// Shut the pipeline down normally and stop.
    Stop,
    /// Shut the pipeline down and report the failure.
    Fail,
    /// Keep waiting for the next message.
    KeepWaiting,
}

/// The run loop's decision on one message: end of stream stops it, an error
/// fails it, everything else leaves it waiting.
pub fn bus_verdict(msg: &BusMessage) -> (r: LoopVerdict)
    ensures
        r == (match *msg {
            BusMessage::EndOfStream => LoopVerdict::Stop,
            BusMessage::ErrorReport { .. } => LoopVerdict::Fail,
            BusMessage::Other => LoopVerdict::KeepWaiting,
        }),
{
    match msg {
        BusMessage::EndOfStream => LoopVerdict::Stop,
        BusMessage::ErrorReport { .. } => LoopVerdict::Fail,
        BusMessage::Other => LoopVerdict::KeepWaiting,
    }
}

/// The signed sixteen-bit sample two bytes encode little-endian.
pub open spec fn sample_value(lo: u8, hi: u8) -> int {
    let v = lo + 256 * hi;
    if v < 32768 {
        v
    } else {
        v - 65536
    }
}

/// The error when a buffer cannot be read as whole samples.
#[derive(Clone, Copy, Debug, PartialEq, Eq, Structural)]
pub enum SampleDecodeError {
    /// The buffer's byte length is odd: a trailing byte is left over.
    TrailingByte,
}

/// Reads a buffer of interleaved signed sixteen-bit little-endian samples.
/// Succeeds exactly on buffers of whole samples, yielding every sample in
/// order.
pub fn samples_from_bytes(bytes: &[u8]) -> (r: Result<Vec<i16>, SampleDecodeError>)
    ensures
        bytes@.len() % 2 == 0 ==> (r matches Ok(v) && v@.len() == bytes@.len() / 2 && forall|
            i: int,
        |
            0 <= i < v@.len() ==> v@[i] == sample_value(bytes@[2 * i], bytes@[2 * i + 1])),
        bytes@.len() % 2 != 0 ==> (r matches Err(e) && e == SampleDecodeError::TrailingByte),
{
    let n = bytes.len();
    if n % 2 != 0 {
        return Err(SampleDecodeError::TrailingByte);
    }
    let mut v: Vec<i16> = Vec::new();
    let mut i: usize = 0;
    while i < n / 2
        invariant
            n == bytes@.len(),
            n % 2 == 0,
            i <= n / 2,
            v@.len() == i,
            forall|j: int| 0 <= j < i ==> v@[j] == sample_value(bytes@[2 * j], bytes@[2 * j + 1]),
        decreases n / 2 - i,
    {
        let lo = bytes[2 * i];
        let hi = bytes[2 * i + 1];
        let value: i32 = lo as i32 + 256 * (hi as i32);
        let s: i16 = if value < 32768 {
            value as i16
        } else {
            (value - 65536) as i16
        };
        v.push(s);
        i = i + 1;
    }
    Ok(v)
}

/// The sum of the squares of the samples.
pub open spec fn sum_squares(s: Seq<i16>) -> int
    decreases s.len(),
{
    if s.len() == 0 {
        0
    } else {
        sum_squares(s.drop_last()) + s.last() * s.last()
    }
}

/// An energy is never negative and never more than the sample count times
/// the square of the widest sample.
pub proof fn lemma_sum_squares_bounds(s: Seq<i16>)
    ensures
        0 <= sum_squares(s) <= s.len() * 0x4000_0000,
    decreases s.len(),
{
    if s.len() > 0 {
        lemma_sum_squares_bounds(s.drop_last());
        let x = s.last() as int;
        assert(0 <= x * x <= 0x4000_0000) by (nonlinear_arith)
            requires
                -0x8000 <= x <= 0x7fff,
        ;
        assert((s.len() - 1) * 0x4000_0000 + 0x4000_0000 == s.len() * 0x4000_0000)
            by (nonlinear_arith);
    }
}

/// The exact energy of a sample buffer: the sum of the squares of its
/// samples.  The root mean square the example prints is derived from this
/// by the unverified layer, which owns the floating point.
pub fn sample_energy(samples: &Vec<i16>) -> (r: u128)
    ensures
        r == sum_squares(samples@),
{
    let n = samples.len();
    let mut acc: u128 = 0;
    let mut i: usize = 0;
    while i < n
        invariant
            n == samples@.len(),
            i <= n,
            acc == sum_squares(samples@.take(i as int)),
        decreases n - i,
    {
        let s = samples[i];
        proof {
            lemma_sum_squares_bounds(samples@.take(i as int));
            let x = s as int;
            assert(0 <= x * x <= 0x4000_0000) by (nonlinear_arith)
                requires
                    -0x8000 <= x <= 0x7fff,
            ;
            assert((i as int) * 0x4000_0000 + 0x4000_0000 < u128::MAX) by (nonlinear_arith)
                requires
                    0 <= i < 0x1_0000_0000_0000_0000,
            ;
        }
        let wide: i64 = (s as i64) * (s as i64);
        acc = acc + (wide as u128);
        proof {
            assert(samples@.take(i + 1).drop_last() =~= samples@.take(i as int));
        }
        i = i + 1;
    }
    proof {
        assert(samples@.take(n as int) =~= samples@);
    }
    acc
}

} // verus!
