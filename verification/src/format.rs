//! Turning records into bytes: the `Formatter` trait and three ready-made
//! formatters. Each formatter's output is pinned down, byte for byte, as a
//! function of the record.

use vstd::prelude::*;
use vstd::string::StringSliceAdditionalSpecFns;
use vstd::utf8::encode_utf8;

use crate::encoding::{dec_bytes, push_bytes, push_dec_u128, push_dec_u64};
use crate::level::{level_name, Level};
use crate::record::Record;

verus! {

#[verifier::external_type_specification]
pub struct ExFmtError(core::fmt::Error);

/// Converts one record into its byte representation. Implementations must
/// be callable from the consumer thread; one that is shared between logger
/// instances must tolerate concurrent use.
pub trait Formatter: Send + Sync {
    /// Render `record` as bytes, or report that it cannot be rendered.
    fn format(&self, record: &Record) -> Result<Vec<u8>, core::fmt::Error>;
}

/// The level name padded with spaces to five characters, as the default
/// formatter prints it.
pub open spec fn padded_level_name(l: Level) -> Seq<char> {
    match l {
        Level::Trace => "TRACE"@,
        Level::Debug => "DEBUG"@,
        Level::Info => "INFO "@,
        Level::Warn => "WARN "@,
        Level::Error => "ERROR"@,
    }
}

/// The ANSI colour code the default formatter uses for a level.
pub open spec fn level_colour(l: Level) -> nat {
    match l {
        Level::Trace => 90,
        Level::Debug => 36,
        Level::Info => 32,
        Level::Warn => 33,
        Level::Error => 31,
    }
}

/// `bytes` with every double-quote byte preceded by a backslash, as the
/// JSON formatter embeds message text.
pub open spec fn escape_quotes(bytes: Seq<u8>) -> Seq<u8>
    decreases bytes.len(),
{
    if bytes.len() == 0 {
        Seq::<u8>::empty()
    } else {
        (if bytes[0] == 34 {
            seq![92u8, 34u8]
        } else {
            seq![bytes[0]]
        }) + escape_quotes(bytes.drop_first())
    }
}

/// Escaping distributes over concatenation.
pub proof fn lemma_escape_quotes_concat(a: Seq<u8>, b: Seq<u8>)
    ensures
        escape_quotes(a + b) == escape_quotes(a) + escape_quotes(b),
    decreases a.len(),
{
    if a.len() == 0 {
        assert(a + b =~= b);
        assert(escape_quotes(a) + escape_quotes(b) =~= escape_quotes(b));
    } else {
        assert((a + b).drop_first() =~= a.drop_first() + b);
        lemma_escape_quotes_concat(a.drop_first(), b);
        assert(escape_quotes(a + b) =~= escape_quotes(a) + escape_quotes(b));
    }
}

/// Escaping a single byte yields the escape pair for a double quote and
/// the byte itself otherwise.
pub proof fn lemma_escape_quotes_single(x: u8)
    ensures
        escape_quotes(seq![x]) == (if x == 34 {
            seq![92u8, 34u8]
        } else {
            seq![x]
        }),
{
    assert(seq![x].drop_first() =~= Seq::<u8>::empty());
    assert(escape_quotes(Seq::<u8>::empty()) == Seq::<u8>::empty());
    if x == 34 {
        assert(escape_quotes(seq![x]) =~= seq![92u8, 34u8]);
    } else {
        assert(escape_quotes(seq![x]) =~= seq![x]);
    }
}

/// Append `src` to `out` with every double-quote byte escaped.
fn push_escaped(out: &mut Vec<u8>, src: &[u8])
    ensures
        final(out)@ == old(out)@ + escape_quotes(src@),
{
    let mut i: usize = 0;
    while i < src.len()
        invariant
            i <= src@.len(),
            out@ == old(out)@ + escape_quotes(src@.subrange(0, i as int)),
        decreases src@.len() - i,
    {
        let b = src[i];
        proof {
            assert(src@.subrange(0, i + 1) =~= src@.subrange(0, i as int) + seq![src@[i as int]]);
            lemma_escape_quotes_concat(src@.subrange(0, i as int), seq![src@[i as int]]);
            lemma_escape_quotes_single(src@[i as int]);
        }
        if b == 34 {
            out.push(92);
            out.push(34);
        } else {
            out.push(b);
        }
        i = i + 1;
        proof {
            assert(out@ =~= old(out)@ + escape_quotes(src@.subrange(0, i as int)));
        }
    }
    proof {
        assert(src@.subrange(0, src@.len() as int) =~= src@);
    }
}

/// The seconds part of a nanosecond timestamp, clamped to `i64::MAX` as
/// chrono's calendar arithmetic requires.
pub open spec fn clamped_secs(ns: nat) -> int {
    if ns / 1_000_000_000 > i64::MAX as nat {
        i64::MAX as int
    } else {
        (ns / 1_000_000_000) as int
    }
}

/// The sub-second part of a nanosecond timestamp; zero when the seconds
/// were clamped.
pub open spec fn clamped_nanos(ns: nat) -> int {
    if ns / 1_000_000_000 > i64::MAX as nat {
        0
    } else {
        (ns % 1_000_000_000) as int
    }
}

/// What chrono renders for the given UTC time with format
/// `%Y-%m-%dT%H:%M:%S%.9fZ`. The text depends on the arguments alone.
pub uninterp spec fn iso_utc_chars(secs: i64, nanos: u32) -> Seq<char>;

/// What chrono renders for the given time shifted by a fixed offset, with
/// format `%Y-%m-%dT%H:%M:%S%.9f%:z`. The text depends on the arguments
/// alone.
pub uninterp spec fn iso_offset_chars(secs: i64, nanos: u32, offset_secs: i32) -> Seq<char>;

/// Relies on chrono's `DateTime::<Utc>::from_timestamp` and `format`:
/// renders the time as an ISO 8601 string in UTC with nine fractional
/// digits and a literal `Z`; out-of-range input falls back to the epoch.
#[verifier::external_body]
fn iso8601_utc(secs: i64, nanos: u32) -> (r: String)
    ensures
        r@ == iso_utc_chars(secs, nanos),
{
    let dt = chrono::DateTime::<chrono::Utc>::from_timestamp(secs, nanos)
        .unwrap_or(chrono::DateTime::<chrono::Utc>::UNIX_EPOCH);
    dt.format("%Y-%m-%dT%H:%M:%S%.9fZ").to_string()
}

/// Relies on chrono's `FixedOffset::east_opt`, `DateTime::with_timezone`
/// and `format`: renders the time shifted by the offset, with the offset
/// spelled out. `east_opt` accepts exactly the offsets admitted here.
#[verifier::external_body]
fn iso8601_offset(secs: i64, nanos: u32, offset_secs: i32) -> (r: String)
    requires
        -86400 < offset_secs < 86400,
    ensures
        r@ == iso_offset_chars(secs, nanos, offset_secs),
{
    let offset = chrono::FixedOffset::east_opt(offset_secs).unwrap();
    let dt = chrono::DateTime::<chrono::Utc>::from_timestamp(secs, nanos)
        .unwrap_or(chrono::DateTime::<chrono::Utc>::UNIX_EPOCH);
    dt.with_timezone(&offset).format("%Y-%m-%dT%H:%M:%S%.9f%:z").to_string()
}

/// How the default formatter renders a record's timestamp.
pub enum TimestampStyle {
    /// Nanoseconds since the UNIX epoch, in decimal.
    NumericNs,
    /// ISO 8601 text; `Some(secs)` shifts into the fixed offset of that
    /// many seconds east (when it is a valid offset), `None` means UTC.
    Iso8601(Option<i32>),
}

/// Whether an offset, in seconds east, is one chrono can represent.
pub open spec fn valid_offset(secs: int) -> bool {
    -86400 < secs < 86400
}

/// The bytes the default formatter prints for a timestamp.
pub open spec fn timestamp_bytes(style: TimestampStyle, ns: nat) -> Seq<u8> {
    match style {
        TimestampStyle::NumericNs => dec_bytes(ns),
        TimestampStyle::Iso8601(offset) => match offset {
            Some(secs) => if valid_offset(secs as int) {
                encode_utf8(iso_offset_chars(clamped_secs(ns) as i64, clamped_nanos(ns) as u32, secs))
            } else {
                encode_utf8(iso_utc_chars(clamped_secs(ns) as i64, clamped_nanos(ns) as u32))
            },
            None => encode_utf8(iso_utc_chars(clamped_secs(ns) as i64, clamped_nanos(ns) as u32)),
        },
    }
}

/// Append the rendering of a timestamp in the given style.
fn push_timestamp(out: &mut Vec<u8>, style: &TimestampStyle, ns: u128)
    ensures
        final(out)@ == old(out)@ + timestamp_bytes(*style, ns as nat),
{
    match style {
        TimestampStyle::NumericNs => {
            push_dec_u128(out, ns);
        },
        TimestampStyle::Iso8601(offset) => {
            let secs_wide: u128 = ns / 1_000_000_000;
            let nanos: u32 = (ns % 1_000_000_000) as u32;
            let (secs, nanos): (i64, u32) = if secs_wide > i64::MAX as u128 {
                (i64::MAX, 0)
            } else {
                (secs_wide as i64, nanos)
            };
            let text = match offset {
                Some(off) => {
                    let off: i32 = *off;
                    if -86400 < off && off < 86400 {
                        iso8601_offset(secs, nanos, off)
                    } else {
                        iso8601_utc(secs, nanos)
                    }
                },
                None => iso8601_utc(secs, nanos),
            };
            push_bytes(out, text.as_str().as_bytes());
        },
    }
}

/// The bytes the default formatter prints for the level field.
pub open spec fn level_field_bytes(colored: bool, l: Level) -> Seq<u8> {
    if colored {
        encode_utf8("\u{1b}["@) + dec_bytes(level_colour(l)) + encode_utf8("m["@) + encode_utf8(
            padded_level_name(l),
        ) + encode_utf8("]\u{1b}[0m "@)
    } else {
        encode_utf8("["@) + encode_utf8(padded_level_name(l)) + encode_utf8("] "@)
    }
}

/// The level name padded with spaces to five characters.
fn padded_level_str(l: Level) -> (r: &'static str)
    ensures
        r@ == padded_level_name(l),
{
    match l {
        Level::Trace => "TRACE",
        Level::Debug => "DEBUG",
        Level::Info => "INFO ",
        Level::Warn => "WARN ",
        Level::Error => "ERROR",
    }
}

/// Append the level field, with ANSI colour when asked for.
fn push_level_field(out: &mut Vec<u8>, colored: bool, l: Level)
    ensures
        final(out)@ == old(out)@ + level_field_bytes(colored, l),
{
    if colored {
        let code: u64 = match l {
            Level::Trace => 90,
            Level::Debug => 36,
            Level::Info => 32,
            Level::Warn => 33,
            Level::Error => 31,
        };
        push_bytes(out, "\u{1b}[".as_bytes());
        push_dec_u64(out, code);
        push_bytes(out, "m[".as_bytes());
        push_bytes(out, padded_level_str(l).as_bytes());
        push_bytes(out, "]\u{1b}[0m ".as_bytes());
        proof {
            assert(out@ =~= old(out)@ + level_field_bytes(colored, l));
        }
    } else {
        push_bytes(out, "[".as_bytes());
        push_bytes(out, padded_level_str(l).as_bytes());
        push_bytes(out, "] ".as_bytes());
        proof {
            assert(out@ =~= old(out)@ + level_field_bytes(colored, l));
        }
    }
}

/// The full output of the default formatter for one record.
pub open spec fn default_format_bytes(
    colored: bool,
    style: TimestampStyle,
    l: Level,
    ts: nat,
    target: Seq<char>,
    line: nat,
    msg: Seq<char>,
) -> Seq<u8> {
    encode_utf8("["@) + timestamp_bytes(style, ts) + encode_utf8("] "@) + level_field_bytes(
        colored,
        l,
    ) + encode_utf8("["@) + encode_utf8(target) + encode_utf8(":"@) + dec_bytes(line) + encode_utf8(
        "] "@,
    ) + encode_utf8(msg) + encode_utf8("\n"@)
}

/// The standard formatter: bracketed timestamp, padded level (optionally
/// coloured), call site, then the message.
pub struct DefaultFormatter {
    colored: bool,
    timestamp_style: TimestampStyle,
}

impl DefaultFormatter {
    /// Whether output is wrapped in ANSI colour codes.
    pub closed spec fn is_colored(&self) -> bool {
        self.colored
    }

    /// How timestamps are rendered.
    pub closed spec fn style(&self) -> TimestampStyle {
        self.timestamp_style
    }

    /// Coloured output with numeric timestamps.
    pub fn new() -> (r: DefaultFormatter)
        ensures
            r.is_colored(),
            r.style() is NumericNs,
    {
        DefaultFormatter { colored: true, timestamp_style: TimestampStyle::NumericNs }
    }

    /// Coloured output with numeric timestamps.
    pub fn colored() -> (r: DefaultFormatter)
        ensures
            r.is_colored(),
            r.style() is NumericNs,
    {
        DefaultFormatter { colored: true, timestamp_style: TimestampStyle::NumericNs }
    }

    /// Plain output with numeric timestamps.
    pub fn plain() -> (r: DefaultFormatter)
        ensures
            !r.is_colored(),
            r.style() is NumericNs,
    {
        DefaultFormatter { colored: false, timestamp_style: TimestampStyle::NumericNs }
    }

    /// Coloured output with ISO 8601 timestamps in the UTC+8 offset.
    pub fn with_iso8601_shanghai() -> (r: DefaultFormatter)
        ensures
            r.is_colored(),
            r.style() == TimestampStyle::Iso8601(Some(28800i32)),
    {
        DefaultFormatter { colored: true, timestamp_style: TimestampStyle::Iso8601(Some(28800)) }
    }

    /// Coloured output with the given timestamp style.
    pub fn with_timestamp_style(style: TimestampStyle) -> (r: DefaultFormatter)
        ensures
            r.is_colored(),
            r.style() == style,
    {
        DefaultFormatter { colored: true, timestamp_style: style }
    }
}

impl Default for DefaultFormatter {
    fn default() -> (r: Self)
        ensures
            r.is_colored(),
            r.style() is NumericNs,
    {
        DefaultFormatter::new()
    }
}

impl Formatter for DefaultFormatter {
    fn format(&self, record: &Record) -> (r: Result<Vec<u8>, core::fmt::Error>)
        ensures
            r matches Ok(v) && v@ == default_format_bytes(
                self.is_colored(),
                self.style(),
                record.level,
                record.timestamp as nat,
                record.target@,
                record.line as nat,
                record.message@,
            ),
    {
        let mut out: Vec<u8> = Vec::new();
        push_bytes(&mut out, "[".as_bytes());
        push_timestamp(&mut out, &self.timestamp_style, record.timestamp());
        push_bytes(&mut out, "] ".as_bytes());
        push_level_field(&mut out, self.colored, record.level());
        push_bytes(&mut out, "[".as_bytes());
        push_bytes(&mut out, record.target().as_bytes());
        push_bytes(&mut out, ":".as_bytes());
        push_dec_u64(&mut out, record.line() as u64);
        push_bytes(&mut out, "] ".as_bytes());
        push_bytes(&mut out, record.message().as_bytes());
        push_bytes(&mut out, "\n".as_bytes());
        proof {
            assert(out@ =~= default_format_bytes(
                self.is_colored(),
                self.style(),
                record.level,
                record.timestamp as nat,
                record.target@,
                record.line as nat,
                record.message@,
            ));
        }
        Ok(out)
    }
}

/// The full output of the JSON formatter for one record.
pub open spec fn json_format_bytes(
    pretty: bool,
    l: Level,
    ts: nat,
    target: Seq<char>,
    file: Seq<char>,
    line: nat,
    msg: Seq<char>,
) -> Seq<u8> {
    if pretty {
        encode_utf8("{\n  \"timestamp\": "@) + dec_bytes(ts) + encode_utf8(",\n  \"level\": \""@)
            + encode_utf8(level_name(l)) + encode_utf8("\",\n  \"target\": \""@) + encode_utf8(
            target,
        ) + encode_utf8("\",\n  \"file\": \""@) + encode_utf8(file) + encode_utf8(
            "\",\n  \"line\": "@,
        ) + dec_bytes(line) + encode_utf8(",\n  \"message\": \""@) + escape_quotes(
            encode_utf8(msg),
        ) + encode_utf8("\"\n}\n"@)
    } else {
        encode_utf8("{\"timestamp\":"@) + dec_bytes(ts) + encode_utf8(",\"level\":\""@)
            + encode_utf8(level_name(l)) + encode_utf8("\",\"target\":\""@) + encode_utf8(target)
            + encode_utf8("\",\"file\":\""@) + encode_utf8(file) + encode_utf8("\",\"line\":"@)
            + dec_bytes(line) + encode_utf8(",\"message\":\""@) + escape_quotes(encode_utf8(msg))
            + encode_utf8("\"}\n"@)
    }
}

/// Renders each record as one JSON object. Double quotes in the message
/// are escaped; the object ends with a newline.
pub struct JsonFormatter {
    pretty: bool,
}

impl JsonFormatter {
    /// Whether output is pretty-printed over several lines.
    pub closed spec fn is_pretty(&self) -> bool {
        self.pretty
    }

    /// Compact output: one object per line.
    pub fn new() -> (r: JsonFormatter)
        ensures
            !r.is_pretty(),
    {
        JsonFormatter { pretty: false }
    }

    /// Pretty-printed output over several lines.
    pub fn pretty() -> (r: JsonFormatter)
        ensures
            r.is_pretty(),
    {
        JsonFormatter { pretty: true }
    }
}

impl Default for JsonFormatter {
    fn default() -> (r: Self)
        ensures
            !r.is_pretty(),
    {
        JsonFormatter::new()
    }
}

impl Formatter for JsonFormatter {
    fn format(&self, record: &Record) -> (r: Result<Vec<u8>, core::fmt::Error>)
        ensures
            r matches Ok(v) && v@ == json_format_bytes(
                self.is_pretty(),
                record.level,
                record.timestamp as nat,
                record.target@,
                record.file@,
                record.line as nat,
                record.message@,
            ),
    {
        let mut out: Vec<u8> = Vec::new();
        if self.pretty {
            push_bytes(&mut out, "{\n  \"timestamp\": ".as_bytes());
            push_dec_u128(&mut out, record.timestamp());
            push_bytes(&mut out, ",\n  \"level\": \"".as_bytes());
            push_bytes(&mut out, record.level().as_str().as_bytes());
            push_bytes(&mut out, "\",\n  \"target\": \"".as_bytes());
            push_bytes(&mut out, record.target().as_bytes());
            push_bytes(&mut out, "\",\n  \"file\": \"".as_bytes());
            push_bytes(&mut out, record.file().as_bytes());
            push_bytes(&mut out, "\",\n  \"line\": ".as_bytes());
            push_dec_u64(&mut out, record.line() as u64);
            push_bytes(&mut out, ",\n  \"message\": \"".as_bytes());
            push_escaped(&mut out, record.message().as_bytes());
            push_bytes(&mut out, "\"\n}\n".as_bytes());
        } else {
            push_bytes(&mut out, "{\"timestamp\":".as_bytes());
            push_dec_u128(&mut out, record.timestamp());
            push_bytes(&mut out, ",\"level\":\"".as_bytes());
            push_bytes(&mut out, record.level().as_str().as_bytes());
            push_bytes(&mut out, "\",\"target\":\"".as_bytes());
            push_bytes(&mut out, record.target().as_bytes());
            push_bytes(&mut out, "\",\"file\":\"".as_bytes());
            push_bytes(&mut out, record.file().as_bytes());
            push_bytes(&mut out, "\",\"line\":".as_bytes());
            push_dec_u64(&mut out, record.line() as u64);
            push_bytes(&mut out, ",\"message\":\"".as_bytes());
            push_escaped(&mut out, record.message().as_bytes());
            push_bytes(&mut out, "\"}\n".as_bytes());
        }
        proof {
            assert(out@ =~= json_format_bytes(
                self.is_pretty(),
                record.level,
                record.timestamp as nat,
                record.target@,
                record.file@,
                record.line as nat,
                record.message@,
            ));
        }
        Ok(out)
    }
}

/// The full output of the simple formatter for one record.
pub open spec fn simple_format_bytes(l: Level, msg: Seq<char>) -> Seq<u8> {
    encode_utf8("["@) + encode_utf8(level_name(l)) + encode_utf8("] "@) + encode_utf8(msg)
        + encode_utf8("\n"@)
}

/// The fastest formatter: just the level and the message.
pub struct SimpleFormatter;

impl SimpleFormatter {
    /// Make a simple formatter.
    pub fn new() -> SimpleFormatter {
        SimpleFormatter
    }
}

impl Default for SimpleFormatter {
    fn default() -> Self {
        SimpleFormatter::new()
    }
}

impl Formatter for SimpleFormatter {
    fn format(&self, record: &Record) -> (r: Result<Vec<u8>, core::fmt::Error>)
        ensures
            r matches Ok(v) && v@ == simple_format_bytes(record.level, record.message@),
    {
        let mut out: Vec<u8> = Vec::new();
        push_bytes(&mut out, "[".as_bytes());
        push_bytes(&mut out, record.level().as_str().as_bytes());
        push_bytes(&mut out, "] ".as_bytes());
        push_bytes(&mut out, record.message().as_bytes());
        push_bytes(&mut out, "\n".as_bytes());
        proof {
            assert(out@ =~= simple_format_bytes(record.level, record.message@));
        }
        Ok(out)
    }
}

} // verus!
