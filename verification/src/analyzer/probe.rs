//! The metadata probe: codec, sample rate, channels, bitrate, container
//! and duration, read from the probe's JSON document.

use vstd::prelude::*;
use vstd::string::*;
use crate::analyzer::metrics::text_of;
use crate::analyzer::reading::Reading;
use crate::analyzer::text::to_chars;
use crate::analyzer::token::{
    all_digits, is_digit, parse_measurement, token_measurement, whole_value,
};

verus! {

/// What the probe says of one file.
#[derive(Debug, PartialEq, Eq)]
pub struct ProbeInfo {
    pub sample_rate_hz: Option<u32>,
    pub bitrate_kbps: Option<u32>,
    pub channels: Option<u32>,
    pub codec_name: Option<String>,
    pub container_format: Option<String>,
    pub duration_seconds: Option<Reading>,
}

/// What stands at one place of a JSON document.
#[derive(Debug, PartialEq, Eq)]
pub enum JsonField {
    /// The document is not JSON.
    Malformed,
    /// The document has nothing at that place.
    Missing,
    /// A string.
    Text(String),
    /// A number that is a non-negative integer below 2^64.
    Whole(u64),
    /// Anything else.
    Other,
}

/// A field as plain values.
pub enum JsonFieldView {
    Malformed,
    Missing,
    Text(Seq<char>),
    Whole(u64),
    Other,
}

impl View for JsonField {
    type V = JsonFieldView;

    open spec fn view(&self) -> JsonFieldView {
        match self {
            JsonField::Malformed => JsonFieldView::Malformed,
            JsonField::Missing => JsonFieldView::Missing,
            JsonField::Text(t) => JsonFieldView::Text(t@),
            JsonField::Whole(n) => JsonFieldView::Whole(*n),
            JsonField::Other => JsonFieldView::Other,
        }
    }
}

/// What stands in a JSON document at the place that a JSON pointer names.
pub uninterp spec fn json_field(document: Seq<char>, pointer: Seq<char>) -> JsonFieldView;

/// `serde_json::from_str` to a `serde_json::Value`, then `Value::pointer`:
/// what stands at the place that the JSON pointer names, told apart by the
/// variant of the value found there (`Number::as_u64` for a number).
#[verifier::external_body]
fn lookup_json(document: &str, pointer: &str) -> (field: JsonField)
    ensures
        field@ == json_field(document@, pointer@),
{
    let Ok(value) = serde_json::from_str::<serde_json::Value>(document) else {
        return JsonField::Malformed;
    };
    match value.pointer(pointer) {
        None => JsonField::Missing,
        Some(serde_json::Value::String(text)) => JsonField::Text(text.clone()),
        Some(serde_json::Value::Number(number)) => match number.as_u64() {
            Some(whole) => JsonField::Whole(whole),
            None => JsonField::Other,
        },
        Some(_) => JsonField::Other,
    }
}

/// The places of the probe document that are read.
#[derive(Debug, Clone, Copy, PartialEq, Eq, Structural)]
pub enum ProbeField {
    CodecName,
    SampleRate,
    Channels,
    StreamBitRate,
    FormatName,
    FormatBitRate,
    Duration,
}

impl ProbeField {
    /// The JSON pointer of the place.
    pub open spec fn pointer(self) -> Seq<char> {
        match self {
            ProbeField::CodecName => "/streams/0/codec_name"@,
            ProbeField::SampleRate => "/streams/0/sample_rate"@,
            ProbeField::Channels => "/streams/0/channels"@,
            ProbeField::StreamBitRate => "/streams/0/bit_rate"@,
            ProbeField::FormatName => "/format/format_name"@,
            ProbeField::FormatBitRate => "/format/bit_rate"@,
            ProbeField::Duration => "/format/duration"@,
        }
    }

    /// What the document holds at the place.
    pub open spec fn of(self, document: Seq<char>) -> JsonFieldView {
        json_field(document, self.pointer())
    }

    /// The JSON pointer of the place.
    pub fn as_str(self) -> (pointer: &'static str)
        ensures
            pointer@ == self.pointer(),
    {
        match self {
            ProbeField::CodecName => "/streams/0/codec_name",
            ProbeField::SampleRate => "/streams/0/sample_rate",
            ProbeField::Channels => "/streams/0/channels",
            ProbeField::StreamBitRate => "/streams/0/bit_rate",
            ProbeField::FormatName => "/format/format_name",
            ProbeField::FormatBitRate => "/format/bit_rate",
            ProbeField::Duration => "/format/duration",
        }
    }

    /// Looks the place up in `document`.
    pub fn read(self, document: &str) -> (field: JsonField)
        ensures
            field@ == self.of(document@),
    {
        lookup_json(document, self.as_str())
    }
}

/// A count that a field holds: a whole number, or a string of one to
/// eighteen digits.
pub open spec fn count_of(field: JsonFieldView) -> Option<u64> {
    match field {
        JsonFieldView::Whole(n) => Some(n),
        JsonFieldView::Text(t) => if 1 <= t.len() <= 18 && all_digits(t) {
            Some(whole_value(t) as u64)
        } else {
            None
        },
        _ => None,
    }
}

/// A count that fits 32 bits.
pub open spec fn small_count_of(field: JsonFieldView) -> Option<u32> {
    match count_of(field) {
        Some(n) => if n <= u32::MAX {
            Some(n as u32)
        } else {
            None
        },
        None => None,
    }
}

/// Bits per second as kbps, rounded to the nearest.
pub open spec fn kbps_of(field: JsonFieldView) -> Option<u32> {
    match count_of(field) {
        Some(bps) => if (bps + 500) / 1000 <= u32::MAX {
            Some(((bps + 500) / 1000) as u32)
        } else {
            None
        },
        None => None,
    }
}

/// The text that a field holds.
pub open spec fn name_of(field: JsonFieldView) -> Option<Seq<char>> {
    match field {
        JsonFieldView::Text(t) => Some(t),
        _ => None,
    }
}

/// The duration that a field holds: a numeric string, or a whole number of
/// seconds.
pub open spec fn duration_of(field: JsonFieldView) -> Option<Reading> {
    match field {
        JsonFieldView::Text(t) => match token_measurement(t) {
            Ok(value) => value,
            Err(_) => None,
        },
        JsonFieldView::Whole(n) => if n <= 9_000_000_000_000 {
            Some(Reading::Finite((n * 1_000_000) as i64))
        } else {
            Some(Reading::PosInfinity)
        },
        _ => None,
    }
}

/// The probe's findings as plain values.
pub struct ProbeView {
    pub sample_rate_hz: Option<u32>,
    pub bitrate_kbps: Option<u32>,
    pub channels: Option<u32>,
    pub codec_name: Option<Seq<char>>,
    pub container_format: Option<Seq<char>>,
    pub duration_seconds: Option<Reading>,
}

impl View for ProbeInfo {
    type V = ProbeView;

    open spec fn view(&self) -> ProbeView {
        ProbeView {
            sample_rate_hz: self.sample_rate_hz,
            bitrate_kbps: self.bitrate_kbps,
            channels: self.channels,
            codec_name: text_of(self.codec_name),
            container_format: text_of(self.container_format),
            duration_seconds: self.duration_seconds,
        }
    }
}

/// The message for a probe document that is not JSON.
pub open spec fn malformed_probe_message() -> Seq<char> {
    "the probe's output is not a JSON document"@
}

/// The probe's findings from the seven fields of its document. The bitrate
/// of the stream is preferred to that of the container. A document that is
/// not JSON is a failure; a field that is missing or of another kind is
/// absent.
pub open spec fn probe_of(
    codec_name: JsonFieldView,
    sample_rate: JsonFieldView,
    channels: JsonFieldView,
    stream_bit_rate: JsonFieldView,
    format_name: JsonFieldView,
    format_bit_rate: JsonFieldView,
    duration: JsonFieldView,
) -> Result<ProbeView, Seq<char>> {
    if codec_name is Malformed {
        Err(malformed_probe_message())
    } else {
        Ok(
            ProbeView {
                sample_rate_hz: small_count_of(sample_rate),
                bitrate_kbps: match kbps_of(stream_bit_rate) {
                    Some(kbps) => Some(kbps),
                    None => kbps_of(format_bit_rate),
                },
                channels: small_count_of(channels),
                codec_name: name_of(codec_name),
                container_format: name_of(format_name),
                duration_seconds: duration_of(duration),
            },
        )
    }
}

fn read_count(field: &JsonField) -> (count: Option<u64>)
    ensures
        count == count_of(field@),
{
    match field {
        JsonField::Whole(n) => Some(*n),
        JsonField::Text(t) => {
            let chars = to_chars(t.as_str());
            if chars.len() < 1 || chars.len() > 18 {
                return None;
            }
            let mut value: u64 = 0;
            let mut i: usize = 0;
            while i < chars.len()
                invariant
                    i <= chars.len(),
                    1 <= chars.len() <= 18,
                    chars@ == t@,
                    field@ == JsonFieldView::Text(t@),
                    all_digits(chars@.take(i as int)),
                    value == whole_value(chars@.take(i as int)),
                    value < place_limit(i as int),
                decreases chars.len() - i,
            {
                let c = chars[i];
                if !('0' <= c && c <= '9') {
                    assert(!is_digit(chars@[i as int]));
                    return None;
                }
                proof {
                    let longer = chars@.take(i + 1);
                    assert(longer.drop_last() == chars@.take(i as int));
                    assert(longer.last() == c);
                    assert forall|k: int| 0 <= k < longer.len() implies is_digit(
                        #[trigger] longer[k],
                    ) by {
                        if k < i {
                            assert(chars@.take(i as int)[k] == longer[k]);
                        }
                    }
                    lemma_place_limit_step(i as int);
                }
                value = value * 10 + (c as u32 - '0' as u32) as u64;
                i = i + 1;
            }
            assert(chars@.take(chars.len() as int) == chars@);
            Some(value)
        },
        _ => None,
    }
}

/// Ten to the power `digits`, for up to eighteen digits.
pub open spec fn place_limit(digits: int) -> int
    decreases digits,
{
    if digits <= 0 {
        1
    } else {
        10 * place_limit(digits - 1)
    }
}

proof fn lemma_place_limit_step(digits: int)
    requires
        0 <= digits < 18,
    ensures
        place_limit(digits + 1) == 10 * place_limit(digits),
        place_limit(digits + 1) <= 1_000_000_000_000_000_000,
        place_limit(digits) >= 1,
    decreases digits,
{
    reveal_with_fuel(place_limit, 20);
}

fn read_small_count(field: &JsonField) -> (count: Option<u32>)
    ensures
        count == small_count_of(field@),
{
    match read_count(field) {
        Some(n) => if n <= u32::MAX as u64 {
            Some(n as u32)
        } else {
            None
        },
        None => None,
    }
}

fn read_kbps(field: &JsonField) -> (kbps: Option<u32>)
    ensures
        kbps == kbps_of(field@),
{
    match read_count(field) {
        Some(bps) => {
            let rounded: u64 = if bps > u64::MAX - 500 {
                bps / 1000 + 1
            } else {
                (bps + 500) / 1000
            };
            if rounded <= u32::MAX as u64 {
                Some(rounded as u32)
            } else {
                None
            }
        },
        None => None,
    }
}

fn read_name(field: &JsonField) -> (name: Option<String>)
    ensures
        text_of(name) == name_of(field@),
{
    match field {
        JsonField::Text(t) => Some(t.clone()),
        _ => None,
    }
}

fn read_duration(field: &JsonField) -> (duration: Option<Reading>)
    ensures
        duration == duration_of(field@),
{
    match field {
        JsonField::Text(t) => match parse_measurement(t.as_str()) {
            Ok(value) => value,
            Err(_) => None,
        },
        JsonField::Whole(n) => if *n <= 9_000_000_000_000 {
            Some(Reading::Finite((*n * 1_000_000) as i64))
        } else {
            Some(Reading::PosInfinity)
        },
        _ => None,
    }
}

/// Builds the probe's findings from the seven fields of its document.
pub fn probe_from_fields(
    codec_name: &JsonField,
    sample_rate: &JsonField,
    channels: &JsonField,
    stream_bit_rate: &JsonField,
    format_name: &JsonField,
    format_bit_rate: &JsonField,
    duration: &JsonField,
) -> (probe: Result<ProbeInfo, String>)
    ensures
        match probe {
            Ok(info) => probe_of(
                codec_name@,
                sample_rate@,
                channels@,
                stream_bit_rate@,
                format_name@,
                format_bit_rate@,
                duration@,
            ) == Ok::<ProbeView, Seq<char>>(info@),
            Err(message) => probe_of(
                codec_name@,
                sample_rate@,
                channels@,
                stream_bit_rate@,
                format_name@,
                format_bit_rate@,
                duration@,
            ) == Err::<ProbeView, Seq<char>>(message@),
        },
{
    match codec_name {
        JsonField::Malformed => {
            return Err("the probe's output is not a JSON document".to_owned());
        },
        _ => {},
    }
    let bitrate_kbps = match read_kbps(stream_bit_rate) {
        Some(kbps) => Some(kbps),
        None => read_kbps(format_bit_rate),
    };
    Ok(
        ProbeInfo {
            sample_rate_hz: read_small_count(sample_rate),
            bitrate_kbps,
            channels: read_small_count(channels),
            codec_name: read_name(codec_name),
            container_format: read_name(format_name),
            duration_seconds: read_duration(duration),
        },
    )
}

/// Reads the probe's JSON document.
pub fn parse_probe(document: &str) -> (probe: Result<ProbeInfo, String>)
    ensures
        match probe {
            Ok(info) => probe_of(
                ProbeField::CodecName.of(document@),
                ProbeField::SampleRate.of(document@),
                ProbeField::Channels.of(document@),
                ProbeField::StreamBitRate.of(document@),
                ProbeField::FormatName.of(document@),
                ProbeField::FormatBitRate.of(document@),
                ProbeField::Duration.of(document@),
            ) == Ok::<ProbeView, Seq<char>>(info@),
            Err(message) => probe_of(
                ProbeField::CodecName.of(document@),
                ProbeField::SampleRate.of(document@),
                ProbeField::Channels.of(document@),
                ProbeField::StreamBitRate.of(document@),
                ProbeField::FormatName.of(document@),
                ProbeField::FormatBitRate.of(document@),
                ProbeField::Duration.of(document@),
            ) == Err::<ProbeView, Seq<char>>(message@),
        },
{
    let codec_name = ProbeField::CodecName.read(document);
    let sample_rate = ProbeField::SampleRate.read(document);
    let channels = ProbeField::Channels.read(document);
    let stream_bit_rate = ProbeField::StreamBitRate.read(document);
    let format_name = ProbeField::FormatName.read(document);
    let format_bit_rate = ProbeField::FormatBitRate.read(document);
    let duration = ProbeField::Duration.read(document);
    probe_from_fields(
        &codec_name,
        &sample_rate,
        &channels,
        &stream_bit_rate,
        &format_name,
        &format_bit_rate,
        &duration,
    )
}

} // verus!
