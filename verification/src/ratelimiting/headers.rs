//! The rate-limit headers of a response, and how they are read.

use hyper::header::{HeaderMap, HeaderValue, ToStrError};
use vstd::prelude::*;
use crate::ratelimiting::header_map::{
    all_visible, first_value, held, spelled, value_copy, value_text,
};
use crate::ratelimiting::text::{
    decimal, flag, millis, number, parse_bool, parse_int, parse_millis, pow10,
    thousandths_are_rounded_up, whole_number,
};

verus! {

pub const BUCKET: &'static str = "x-ratelimit-bucket";

pub const GLOBAL: &'static str = "x-ratelimit-global";

pub const LIMIT: &'static str = "x-ratelimit-limit";

pub const REMAINING: &'static str = "x-ratelimit-remaining";

pub const RESET: &'static str = "x-ratelimit-reset";

pub const RESET_AFTER: &'static str = "x-ratelimit-reset-after";

/// Why a set of rate-limit headers could not be read.
#[derive(Debug)]
#[non_exhaustive]
pub enum HeaderParseError {
    /// No rate-limit header is present.
    NoHeaders,
    /// A header is missing while others are present.
    HeaderMissing { name: &'static str },
    /// A header's value is not text; `source` is what reading it as text
    /// gave.
    HeaderNotUtf8 { name: &'static str, source: ToStrError, value: Vec<u8> },
    /// A header's text is not a flag.
    ParsingBoolText { name: &'static str, text: String },
    /// A header's text is not a decimal number.
    ParsingFloatText { name: &'static str, text: String },
    /// A header's text is not a whole number.
    ParsingIntText { name: &'static str, text: String },
}

/// What a [`HeaderParseError`] says.
pub enum HeaderFault {
    NoHeaders,
    HeaderMissing { name: Seq<char> },
    HeaderNotUtf8 { name: Seq<char>, value: Seq<u8> },
    ParsingBoolText { name: Seq<char>, text: Seq<char> },
    ParsingFloatText { name: Seq<char>, text: Seq<char> },
    ParsingIntText { name: Seq<char>, text: Seq<char> },
}

impl View for HeaderParseError {
    type V = HeaderFault;

    open spec fn view(&self) -> HeaderFault {
        match *self {
            HeaderParseError::NoHeaders => HeaderFault::NoHeaders,
            HeaderParseError::HeaderMissing { name } => HeaderFault::HeaderMissing { name: name@ },
            HeaderParseError::HeaderNotUtf8 { name, value, .. } => HeaderFault::HeaderNotUtf8 {
                name: name@,
                value: value@,
            },
            HeaderParseError::ParsingBoolText { name, text } => HeaderFault::ParsingBoolText {
                name: name@,
                text: text@,
            },
            HeaderParseError::ParsingFloatText { name, text } => HeaderFault::ParsingFloatText {
                name: name@,
                text: text@,
            },
            HeaderParseError::ParsingIntText { name, text } => HeaderFault::ParsingIntText {
                name: name@,
                text: text@,
            },
        }
    }
}

/// What the rate-limit headers of a response say.
#[derive(Clone, Debug)]
#[non_exhaustive]
pub enum Headers {
    /// All buckets are limited for `reset_after` milliseconds.
    GlobalLimited { reset_after: u64 },
    /// The route is not limited.
    Unlimited,
    /// The state of the route's bucket: `reset` is the time of the next
    /// reset in milliseconds since the epoch, `reset_after` the time until
    /// then in milliseconds.
    Present {
        bucket: Option<String>,
        global: bool,
        limit: u64,
        remaining: u64,
        reset: u64,
        reset_after: u64,
    },
}


/// What a [`Headers`] says.
pub enum HeadersView {
    GlobalLimited { reset_after: u64 },
    Unlimited,
    Present {
        bucket: Option<Seq<char>>,
        global: bool,
        limit: u64,
        remaining: u64,
        reset: u64,
        reset_after: u64,
    },
}

impl View for Headers {
    type V = HeadersView;

    open spec fn view(&self) -> HeadersView {
        match *self {
            Headers::GlobalLimited { reset_after } => HeadersView::GlobalLimited { reset_after },
            Headers::Unlimited => HeadersView::Unlimited,
            Headers::Present { bucket, global, limit, remaining, reset, reset_after } => {
                HeadersView::Present {
                    bucket: match bucket {
                        Some(b) => Some(b@),
                        None => None,
                    },
                    global,
                    limit,
                    remaining,
                    reset,
                    reset_after,
                }
            },
        }
    }
}

impl Headers {
    /// Whether all buckets are limited.
    pub fn is_global(&self) -> (global: bool)
        ensures
            global == match self@ {
                HeadersView::GlobalLimited { .. } => true,
                HeadersView::Unlimited => false,
                HeadersView::Present { global, .. } => global,
            },
    {
        match self {
            Headers::GlobalLimited { .. } => true,
            Headers::Unlimited => false,
            Headers::Present { global, .. } => *global,
        }
    }

    /// Whether the route is not limited.
    pub fn is_none(&self) -> (none: bool)
        ensures
            none == (self@ is Unlimited),
    {
        match self {
            Headers::Unlimited => true,
            _ => false,
        }
    }

    /// Whether the headers give the state of a bucket.
    pub fn is_present(&self) -> (present: bool)
        ensures
            present == (self@ is Present),
    {
        match self {
            Headers::Present { .. } => true,
            _ => false,
        }
    }
}

/// What a response holds for one header: nothing, bytes that are no text,
/// with what reading them as text gave, or text.
#[derive(Debug)]
pub enum RawHeader {
    Absent,
    Opaque { value: Vec<u8>, source: ToStrError },
    Text(String),
}

/// What a [`RawHeader`] holds.
pub enum RawView {
    Absent,
    Opaque(Seq<u8>),
    Text(Seq<char>),
}

impl View for RawHeader {
    type V = RawView;

    open spec fn view(&self) -> RawView {
        match *self {
            RawHeader::Absent => RawView::Absent,
            RawHeader::Opaque { value, .. } => RawView::Opaque(value@),
            RawHeader::Text(text) => RawView::Text(text@),
        }
    }
}

/// What a response holds for each of the rate-limit headers.
#[derive(Debug)]
pub struct RawHeaders {
    pub bucket: RawHeader,
    pub global: RawHeader,
    pub limit: RawHeader,
    pub remaining: RawHeader,
    pub reset: RawHeader,
    pub reset_after: RawHeader,
}

/// What a [`RawHeaders`] holds.
pub struct RawHeadersView {
    pub bucket: RawView,
    pub global: RawView,
    pub limit: RawView,
    pub remaining: RawView,
    pub reset: RawView,
    pub reset_after: RawView,
}

impl View for RawHeaders {
    type V = RawHeadersView;

    open spec fn view(&self) -> RawHeadersView {
        RawHeadersView {
            bucket: self.bucket@,
            global: self.global@,
            limit: self.limit@,
            remaining: self.remaining@,
            reset: self.reset@,
            reset_after: self.reset_after@,
        }
    }
}

/// What a header map holds for a header.
pub open spec fn found(held: Map<Seq<char>, Seq<u8>>, name: Seq<char>) -> RawView {
    if !held.contains_key(name) {
        RawView::Absent
    } else if all_visible(held[name]) {
        RawView::Text(spelled(held[name]))
    } else {
        RawView::Opaque(held[name])
    }
}

/// The text of a header, which it has where it is present and is text.
pub open spec fn text_in(raw: RawView, name: Seq<char>) -> Result<Seq<char>, HeaderFault> {
    match raw {
        RawView::Absent => Err(HeaderFault::HeaderMissing { name }),
        RawView::Opaque(value) => Err(HeaderFault::HeaderNotUtf8 { name, value }),
        RawView::Text(text) => Ok(text),
    }
}

/// The whole number of a header.
pub open spec fn int_in(raw: RawView, name: Seq<char>) -> Result<u64, HeaderFault> {
    match text_in(raw, name) {
        Ok(text) => match whole_number(text) {
            Some(n) => if n <= u64::MAX {
                Ok(n as u64)
            } else {
                Err(HeaderFault::ParsingIntText { name, text })
            },
            None => Err(HeaderFault::ParsingIntText { name, text }),
        },
        Err(fault) => Err(fault),
    }
}

/// The flag of a header.
pub open spec fn bool_in(raw: RawView, name: Seq<char>) -> Result<bool, HeaderFault> {
    match text_in(raw, name) {
        Ok(text) => match flag(text) {
            Some(b) => Ok(b),
            None => Err(HeaderFault::ParsingBoolText { name, text }),
        },
        Err(fault) => Err(fault),
    }
}

/// The milliseconds that a header of decimal seconds comes to.
pub open spec fn millis_in(raw: RawView, name: Seq<char>) -> Result<u64, HeaderFault> {
    match text_in(raw, name) {
        Ok(text) => match millis(text) {
            Some(n) => Ok(n),
            None => Err(HeaderFault::ParsingFloatText { name, text }),
        },
        Err(fault) => Err(fault),
    }
}

/// What a header map holds for each of the rate-limit headers.
pub open spec fn all_found(held: Map<Seq<char>, Seq<u8>>) -> RawHeadersView {
    RawHeadersView {
        bucket: found(held, BUCKET@),
        global: found(held, GLOBAL@),
        limit: found(held, LIMIT@),
        remaining: found(held, REMAINING@),
        reset: found(held, RESET@),
        reset_after: found(held, RESET_AFTER@),
    }
}

impl RawHeadersView {
    /// The state of a bucket, where limit, remaining, reset and reset-after
    /// can all be read; else the fault of the first of them that cannot. A
    /// bucket name or global flag that cannot be read counts as not given.
    pub open spec fn present(self) -> Result<HeadersView, HeaderFault> {
        match int_in(self.limit, LIMIT@) {
            Ok(limit) => match int_in(self.remaining, REMAINING@) {
                Ok(remaining) => match millis_in(self.reset, RESET@) {
                    Ok(reset) => match millis_in(self.reset_after, RESET_AFTER@) {
                        Ok(reset_after) => Ok(
                            HeadersView::Present {
                                bucket: match text_in(self.bucket, BUCKET@) {
                                    Ok(text) => Some(text),
                                    Err(_) => None,
                                },
                                global: match bool_in(self.global, GLOBAL@) {
                                    Ok(b) => b,
                                    Err(_) => false,
                                },
                                limit,
                                remaining,
                                reset,
                                reset_after,
                            },
                        ),
                        Err(fault) => Err(fault),
                    },
                    Err(fault) => Err(fault),
                },
                Err(fault) => Err(fault),
            },
            Err(fault) => Err(fault),
        }
    }

    /// Whether one of the headers of a single bucket is there: its name,
    /// limit, remaining or reset.
    pub open spec fn any_of_bucket(self) -> bool {
        !(self.bucket is Absent) || !(self.limit is Absent) || !(self.remaining is Absent)
            || !(self.reset is Absent)
    }

    /// What the headers say. Where they do not give the state of a bucket:
    /// that is a fault if a header of the bucket is there; else, if the
    /// global flag is there, all buckets are limited for the milliseconds
    /// that the seconds of reset-after come to, rounded up; else the route is
    /// not limited.
    pub open spec fn classified(self) -> Result<HeadersView, HeaderFault> {
        match self.present() {
            Ok(present) => Ok(present),
            Err(fault) => if self.any_of_bucket() {
                Err(fault)
            } else if !(self.global is Absent) {
                match millis_in(self.reset_after, RESET_AFTER@) {
                    Ok(reset_after) => Ok(HeadersView::GlobalLimited { reset_after }),
                    Err(fault) => Err(fault),
                }
            } else {
                Ok(HeadersView::Unlimited)
            },
        }
    }

}

impl RawHeaders {
    /// Reads the rate-limit headers off a header map.
    pub fn read(map: &HeaderMap<HeaderValue>) -> (raw: RawHeaders)
        ensures
            raw@ == all_found(held(*map)),
    {
        RawHeaders {
            bucket: read(map, BUCKET),
            global: read(map, GLOBAL),
            limit: read(map, LIMIT),
            remaining: read(map, REMAINING),
            reset: read(map, RESET),
            reset_after: read(map, RESET_AFTER),
        }
    }
}

/// Whether `read` is the outcome `wanted`, the fault by what it says.
pub open spec fn comes_to<T>(read: Result<T, HeaderParseError>, wanted: Result<T, HeaderFault>) -> bool {
    match read {
        Ok(value) => wanted == Ok::<T, HeaderFault>(value),
        Err(fault) => wanted == Err::<T, HeaderFault>(fault@),
    }
}

/// Reads one header off a header map.
pub fn read(map: &HeaderMap<HeaderValue>, name: &str) -> (raw: RawHeader)
    ensures
        raw@ == found(held(*map), name@),
{
    match first_value(map, name) {
        Some(value) => match value_text(value) {
            Ok(text) => RawHeader::Text(text.to_owned()),
            Err(source) => RawHeader::Opaque { value: value_copy(value), source },
        },
        None => RawHeader::Absent,
    }
}

/// The text of the header `name`.
pub fn text_value(name: &'static str, raw: RawHeader) -> (text: Result<String, HeaderParseError>)
    ensures
        match text {
            Ok(t) => text_in(raw@, name@) == Ok::<Seq<char>, HeaderFault>(t@),
            Err(fault) => text_in(raw@, name@) == Err::<Seq<char>, HeaderFault>(fault@),
        },
{
    match raw {
        RawHeader::Absent => Err(HeaderParseError::HeaderMissing { name }),
        RawHeader::Opaque { value, source } => Err(
            HeaderParseError::HeaderNotUtf8 { name, source, value },
        ),
        RawHeader::Text(text) => Ok(text),
    }
}

/// The whole number of the header `name`.
pub fn int_value(name: &'static str, raw: RawHeader) -> (value: Result<u64, HeaderParseError>)
    ensures
        comes_to(value, int_in(raw@, name@)),
{
    match text_value(name, raw) {
        Ok(text) => match parse_int(text.as_str()) {
            Some(n) => Ok(n),
            None => Err(HeaderParseError::ParsingIntText { name, text }),
        },
        Err(fault) => Err(fault),
    }
}

/// The flag of the header `name`.
pub fn bool_value(name: &'static str, raw: RawHeader) -> (value: Result<bool, HeaderParseError>)
    ensures
        comes_to(value, bool_in(raw@, name@)),
{
    match text_value(name, raw) {
        Ok(text) => match parse_bool(text.as_str()) {
            Some(b) => Ok(b),
            None => Err(HeaderParseError::ParsingBoolText { name, text }),
        },
        Err(fault) => Err(fault),
    }
}

/// The milliseconds that the header `name`, a decimal number of seconds,
/// comes to, rounded up.
pub fn millis_value(name: &'static str, raw: RawHeader) -> (value: Result<
    u64,
    HeaderParseError,
>)
    ensures
        comes_to(value, millis_in(raw@, name@)),
{
    match text_value(name, raw) {
        Ok(text) => match parse_millis(text.as_str()) {
            Some(n) => Ok(n),
            None => Err(HeaderParseError::ParsingFloatText { name, text }),
        },
        Err(fault) => Err(fault),
    }
}

/// The flag that the map holds for the header `name`.
pub fn header_bool(map: &HeaderMap<HeaderValue>, name: &'static str) -> (value: Result<
    bool,
    HeaderParseError,
>)
    ensures
        comes_to(value, bool_in(found(held(*map), name@), name@)),
{
    bool_value(name, read(map, name))
}

/// The milliseconds that the decimal seconds come to which the map holds
/// for the header `name`.
pub fn header_float(map: &HeaderMap<HeaderValue>, name: &'static str) -> (value: Result<
    u64,
    HeaderParseError,
>)
    ensures
        comes_to(value, millis_in(found(held(*map), name@), name@)),
{
    millis_value(name, read(map, name))
}

/// The whole number that the map holds for the header `name`.
pub fn header_int(map: &HeaderMap<HeaderValue>, name: &'static str) -> (value: Result<
    u64,
    HeaderParseError,
>)
    ensures
        comes_to(value, int_in(found(held(*map), name@), name@)),
{
    int_value(name, read(map, name))
}

/// The text that the map holds for the header `name`.
pub fn header_str(map: &HeaderMap<HeaderValue>, name: &'static str) -> (text: Result<
    String,
    HeaderParseError,
>)
    ensures
        match text {
            Ok(t) => text_in(found(held(*map), name@), name@) == Ok::<Seq<char>, HeaderFault>(
                t@,
            ),
            Err(fault) => text_in(found(held(*map), name@), name@) == Err::<
                Seq<char>,
                HeaderFault,
            >(fault@),
        },
{
    text_value(name, read(map, name))
}

/// Whether `read` is the outcome `wanted`, headers and fault by what they
/// say.
pub open spec fn says(read: Result<Headers, HeaderParseError>, wanted: Result<
    HeadersView,
    HeaderFault,
>) -> bool {
    match read {
        Ok(headers) => wanted == Ok::<HeadersView, HeaderFault>(headers@),
        Err(fault) => wanted == Err::<HeadersView, HeaderFault>(fault@),
    }
}

impl Headers {
    /// The state of a bucket as the headers give it.
    pub fn present(raw: RawHeaders) -> (headers: Result<Headers, HeaderParseError>)
        ensures
            says(headers, raw@.present()),
    {
        let RawHeaders { bucket, global, limit, remaining, reset, reset_after } = raw;
        let bucket = match text_value(BUCKET, bucket) {
            Ok(text) => Some(text),
            Err(_) => None,
        };
        let global = match bool_value(GLOBAL, global) {
            Ok(b) => b,
            Err(_) => false,
        };
        let limit = match int_value(LIMIT, limit) {
            Ok(n) => n,
            Err(fault) => {
                return Err(fault);
            },
        };
        let remaining = match int_value(REMAINING, remaining) {
            Ok(n) => n,
            Err(fault) => {
                return Err(fault);
            },
        };
        let reset = match millis_value(RESET, reset) {
            Ok(n) => n,
            Err(fault) => {
                return Err(fault);
            },
        };
        let reset_after = match millis_value(RESET_AFTER, reset_after) {
            Ok(n) => n,
            Err(fault) => {
                return Err(fault);
            },
        };
        Ok(Headers::Present { bucket, global, limit, remaining, reset, reset_after })
    }

    /// What headers say that do not give the state of a bucket because of
    /// `fault`: the fault if a header of the bucket is there; else, if the
    /// global flag is there, that all buckets are limited for what
    /// reset-after came to; else that the route is not limited.
    fn without_bucket(
        fault: HeaderParseError,
        any_of_bucket: bool,
        has_global: bool,
        reset_after: Result<u64, HeaderParseError>,
    ) -> (headers: Result<Headers, HeaderParseError>)
        ensures
            says(
                headers,
                if any_of_bucket {
                    Err::<HeadersView, HeaderFault>(fault@)
                } else if has_global {
                    match reset_after {
                        Ok(n) => Ok::<HeadersView, HeaderFault>(
                            HeadersView::GlobalLimited { reset_after: n },
                        ),
                        Err(late) => Err::<HeadersView, HeaderFault>(late@),
                    }
                } else {
                    Ok::<HeadersView, HeaderFault>(HeadersView::Unlimited)
                },
            ),
    {
        if any_of_bucket {
            Err(fault)
        } else if has_global {
            match reset_after {
                Ok(reset_after) => Ok(Headers::GlobalLimited { reset_after }),
                Err(late) => Err(late),
            }
        } else {
            Ok(Headers::Unlimited)
        }
    }

    /// What the rate-limit headers of a response say.
    pub fn from_raw(raw: RawHeaders) -> (headers: Result<Headers, HeaderParseError>)
        ensures
            says(headers, raw@.classified()),
    {
        let any_of_bucket = !is_absent(&raw.bucket) || !is_absent(&raw.limit) || !is_absent(
            &raw.remaining,
        ) || !is_absent(&raw.reset);
        let has_global = !is_absent(&raw.global);
        let RawHeaders { bucket, global, limit, remaining, reset, reset_after } = raw;
        let bucket = match text_value(BUCKET, bucket) {
            Ok(text) => Some(text),
            Err(_) => None,
        };
        let global = match bool_value(GLOBAL, global) {
            Ok(b) => b,
            Err(_) => false,
        };
        let reset_after = millis_value(RESET_AFTER, reset_after);
        let limit = match int_value(LIMIT, limit) {
            Ok(n) => n,
            Err(fault) => {
                return Headers::without_bucket(fault, any_of_bucket, has_global, reset_after);
            },
        };
        let remaining = match int_value(REMAINING, remaining) {
            Ok(n) => n,
            Err(fault) => {
                return Headers::without_bucket(fault, any_of_bucket, has_global, reset_after);
            },
        };
        let reset = match millis_value(RESET, reset) {
            Ok(n) => n,
            Err(fault) => {
                return Headers::without_bucket(fault, any_of_bucket, has_global, reset_after);
            },
        };
        match reset_after {
            Ok(reset_after) => Ok(
                Headers::Present { bucket, global, limit, remaining, reset, reset_after },
            ),
            Err(fault) => {
                if any_of_bucket || has_global {
                    Err(fault)
                } else {
                    Ok(Headers::Unlimited)
                }
            },
        }
    }

    /// What the rate-limit headers of a header map say.
    pub fn try_from(map: &HeaderMap<HeaderValue>) -> (headers: Result<Headers, HeaderParseError>)
        ensures
            says(headers, all_found(held(*map)).classified()),
    {
        let raw = RawHeaders::read(map);
        Headers::from_raw(raw)
    }
}

/// The state of a bucket as the rate-limit headers of a header map give it.
pub fn parse_map(map: &HeaderMap<HeaderValue>) -> (headers: Result<Headers, HeaderParseError>)
    ensures
        says(headers, all_found(held(*map)).present()),
{
    let raw = RawHeaders::read(map);
    Headers::present(raw)
}

/// Whether `value` is what the seconds that a header writes come to in
/// milliseconds: the seconds times a thousand, rounded up to the next whole
/// number and kept within what 64 bits hold, so that a negative number of
/// seconds comes to zero. The seconds are the number that the header's
/// digits write, divided by ten to the power of the number of digits after
/// the decimal point.
pub open spec fn rounded_up(raw: RawView, value: u64) -> bool {
    match raw {
        RawView::Text(text) => match decimal(text) {
            Some(d) => {
                let n = number(d.whole + d.fraction);
                let p = pow10(d.fraction.len());
                if d.negative {
                    value == 0
                } else if value < u64::MAX {
                    value * p >= 1000 * n && value * p < 1000 * n + p
                } else {
                    u64::MAX * p < 1000 * n + p
                }
            },
            None => false,
        },
        _ => false,
    }
}

/// What the thousandths of a decimal number come to within 64 bits is the
/// number times a thousand, rounded up.
proof fn millis_are_rounded_up(raw: RawView, name: Seq<char>)
    requires
        millis_in(raw, name) is Ok,
    ensures
        rounded_up(raw, millis_in(raw, name)->Ok_0),
{
    match raw {
        RawView::Text(text) => {
            let d = decimal(text).unwrap();
            thousandths_are_rounded_up(d.whole, d.fraction);
            let t = crate::ratelimiting::text::thousandths(d.whole, d.fraction);
            let p = pow10(d.fraction.len());
            if t > u64::MAX {
                assert(u64::MAX * p <= t * p) by (nonlinear_arith)
                    requires
                        t > u64::MAX,
                        p > 0,
                ;
            }
        },
        _ => {},
    }
}

/// Whatever the headers say, the times they give are what the seconds of
/// their headers come to in milliseconds, rounded up: the time of the reset
/// and the time until it where they give the state of a bucket, and the time
/// for which all buckets are limited where they say that.
pub proof fn reset_times_are_rounded_up(raw: RawHeadersView)
    requires
        raw.classified() is Ok,
    ensures
        match raw.classified() {
            Ok(HeadersView::Present { reset, reset_after, .. }) => rounded_up(raw.reset, reset)
                && rounded_up(raw.reset_after, reset_after),
            Ok(HeadersView::GlobalLimited { reset_after }) => rounded_up(
                raw.reset_after,
                reset_after,
            ),
            _ => true,
        },
{
    if raw.present() is Ok {
        millis_are_rounded_up(raw.reset, RESET@);
        millis_are_rounded_up(raw.reset_after, RESET_AFTER@);
    } else if raw.classified() matches Ok(HeadersView::GlobalLimited { .. }) {
        millis_are_rounded_up(raw.reset_after, RESET_AFTER@);
    }
}

/// Whether the response holds nothing for the header.
pub fn is_absent(raw: &RawHeader) -> (absent: bool)
    ensures
        absent == (raw@ is Absent),
{
    match raw {
        RawHeader::Absent => true,
        _ => false,
    }
}

} // verus!
