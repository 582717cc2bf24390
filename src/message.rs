use vstd::prelude::*;
use vstd::string::*;

use crate::text::{find_dash, first_dash, lemma_first_dash_bounds, text_equals};

verus! {

/// One telemetry reading from a welding station.
///
/// The cycle time is carried in whole milliseconds.
#[derive(Debug, Clone, PartialEq)]
pub struct WeldingMessage {
    pub machine_id: String,
    pub timestamp: String,
    pub status: String,
    pub last_cycle_time_ms: i64,
    pub quality: String,
    pub assembly_type: String,
    pub assembly_id: String,
    pub station_id: String,
}

/// Why a payload did not become a message.
#[derive(Debug, Clone, Copy, PartialEq, Eq, Structural)]
pub enum MessageError {
    /// The payload is not a well-formed message document.
    Decode,
    /// The document decoded, but the reading it holds is not a valid operation.
    InvalidOperation,
}

/// An instant as seconds and nanoseconds since the Unix epoch, in UTC.
#[derive(Debug, Clone, Copy, PartialEq, Eq, Structural)]
pub struct UtcTimestamp {
    pub seconds: i64,
    pub nanos: u32,
}

/// The message's timestamp is not an RFC 3339 date and time.
#[derive(Debug, Clone, Copy, PartialEq, Eq, Structural)]
pub struct TimestampError;

#[verifier::external_type_specification]
#[verifier::external_body]
pub struct ExChronoParseError(chrono::ParseError);

/// The instant that an RFC 3339 text denotes, as (seconds, nanoseconds) since the epoch.
pub uninterp spec fn rfc3339_instant(s: Seq<char>) -> Option<(int, int)>;

/// Relies on chrono's `DateTime::parse_from_rfc3339`, read back through `timestamp` and
/// `timestamp_subsec_nanos`: the result depends on the text alone.
#[verifier::external_body]
fn parse_rfc3339(s: &str) -> (r: Result<UtcTimestamp, chrono::ParseError>)
    ensures
        r is Ok <==> rfc3339_instant(s@) is Some,
        r matches Ok(t) ==> rfc3339_instant(s@) == Some((t.seconds as int, t.nanos as int)),
{
    chrono::DateTime::parse_from_rfc3339(s).map(
        |dt| UtcTimestamp { seconds: dt.timestamp(), nanos: dt.timestamp_subsec_nanos() },
    )
}

pub open spec fn is_quality_token(q: Seq<char>) -> bool {
    q == seq!['g', 'o', 'o', 'd'] || q == seq!['s', 'c', 'r', 'a', 'p'] || q == seq![
        'r',
        'e',
        'w',
        'o',
        'r',
        'k',
    ]
}

pub open spec fn is_status_token(s: Seq<char>) -> bool {
    s == seq!['r', 'u', 'n', 'n', 'i', 'n', 'g'] || s == seq!['i', 'd', 'l', 'e'] || s == seq![
        'c',
        'o',
        'o',
        'l',
        'i',
        'n',
        'g',
    ] || s == seq!['f', 'a', 'u', 'l', 't', 'e', 'd']
}

/// The (line, station) location that a machine identifier of the shape
/// `LINE-<line>-STATION-<station>-...` names, split on `-`.
pub open spec fn line_info_of(s: Seq<char>) -> Option<(Seq<char>, Seq<char>)> {
    let a = first_dash(s, 0);
    let b = first_dash(s, a + 1);
    let c = first_dash(s, b + 1);
    let d = first_dash(s, c + 1);
    if a < s.len() && s.subrange(0, a) == seq!['L', 'I', 'N', 'E'] && b < s.len() && c < s.len()
        && s.subrange(b + 1, c) == seq!['S', 'T', 'A', 'T', 'I', 'O', 'N'] {
        Some(
            (
                seq!['L', 'I', 'N', 'E', '-'] + s.subrange(a + 1, b),
                seq!['S', 'T', 'A', 'T', 'I', 'O', 'N', '-'] + s.subrange(c + 1, d),
            ),
        )
    } else {
        None
    }
}

impl WeldingMessage {
    /// A valid operation: an identified machine, a known quality verdict and
    /// operational status, and a positive cycle time.
    pub open spec fn valid(&self) -> bool {
        &&& self.machine_id@.len() > 0
        &&& self.quality@.len() > 0
        &&& self.last_cycle_time_ms > 0
        &&& is_quality_token(self.quality@)
        &&& is_status_token(self.status@)
    }

    /// Parses the timestamp as an RFC 3339 date and time.
    pub fn get_timestamp(&self) -> (r: Result<UtcTimestamp, TimestampError>)
        ensures
            r is Ok <==> rfc3339_instant(self.timestamp@) is Some,
            r matches Ok(t) ==> rfc3339_instant(self.timestamp@) == Some(
                (t.seconds as int, t.nanos as int),
            ),
    {
        match parse_rfc3339(self.timestamp.as_str()) {
            Ok(t) => Ok(t),
            Err(_) => Err(TimestampError),
        }
    }

    /// Whether the message describes a valid welding operation.
    pub fn is_valid_operation(&self) -> (r: bool)
        ensures
            r == self.valid(),
    {
        proof {
            reveal_strlit("good");
            reveal_strlit("scrap");
            reveal_strlit("rework");
            reveal_strlit("running");
            reveal_strlit("idle");
            reveal_strlit("cooling");
            reveal_strlit("faulted");
            assert("good"@ =~= seq!['g', 'o', 'o', 'd']);
            assert("scrap"@ =~= seq!['s', 'c', 'r', 'a', 'p']);
            assert("rework"@ =~= seq!['r', 'e', 'w', 'o', 'r', 'k']);
            assert("running"@ =~= seq!['r', 'u', 'n', 'n', 'i', 'n', 'g']);
            assert("idle"@ =~= seq!['i', 'd', 'l', 'e']);
            assert("cooling"@ =~= seq!['c', 'o', 'o', 'l', 'i', 'n', 'g']);
            assert("faulted"@ =~= seq!['f', 'a', 'u', 'l', 't', 'e', 'd']);
        }
        let q = self.quality.as_str();
        let s = self.status.as_str();
        let quality_known = text_equals(q, "good") || text_equals(q, "scrap") || text_equals(
            q,
            "rework",
        );
        let status_known = text_equals(s, "running") || text_equals(s, "idle") || text_equals(
            s,
            "cooling",
        ) || text_equals(s, "faulted");
        !self.machine_id.as_str().is_empty() && !q.is_empty() && self.last_cycle_time_ms > 0
            && quality_known && status_known
    }

    /// The line and station named by the machine identifier, when it has the
    /// shape `LINE-<line>-STATION-<station>-...`.
    pub fn get_line_info(&self) -> (r: Option<(String, String)>)
        ensures
            r matches Some(p) ==> line_info_of(self.machine_id@) == Some((p.0@, p.1@)),
            r is None <==> line_info_of(self.machine_id@) is None,
    {
        let s = self.machine_id.as_str();
        let ghost v = s@;
        proof {
            reveal_strlit("LINE");
            reveal_strlit("STATION");
            reveal_strlit("LINE-");
            reveal_strlit("STATION-");
            assert("LINE"@ =~= seq!['L', 'I', 'N', 'E']);
            assert("STATION"@ =~= seq!['S', 'T', 'A', 'T', 'I', 'O', 'N']);
            assert("LINE-"@ =~= seq!['L', 'I', 'N', 'E', '-']);
            assert("STATION-"@ =~= seq!['S', 'T', 'A', 'T', 'I', 'O', 'N', '-']);
        }
        let n = s.unicode_len();
        let a = find_dash(s, 0);
        if a >= n {
            return None;
        }
        let b = find_dash(s, a + 1);
        if b >= n {
            return None;
        }
        let c = find_dash(s, b + 1);
        if c >= n {
            return None;
        }
        let d = find_dash(s, c + 1);
        proof {
            lemma_first_dash_bounds(v, c as int + 1);
        }
        let t0 = s.substring_char(0, a);
        let t1 = s.substring_char(a + 1, b);
        let t2 = s.substring_char(b + 1, c);
        let t3 = s.substring_char(c + 1, d);
        if !text_equals(t0, "LINE") || !text_equals(t2, "STATION") {
            return None;
        }
        let line = String::from_str("LINE-").concat(t1);
        let station = String::from_str("STATION-").concat(t3);
        Some((line, station))
    }
}

/// Checks a decoded reading: a document that did not decode is a decode
/// error; one that decoded but is not a valid operation is rejected as such.
pub fn parse_welding_message(decoded: Option<WeldingMessage>) -> (r: Result<
    WeldingMessage,
    MessageError,
>)
    ensures
        decoded is None ==> r == Err::<WeldingMessage, MessageError>(MessageError::Decode),
        decoded matches Some(m) ==> (m.valid() ==> r == Ok::<WeldingMessage, MessageError>(m)),
        decoded matches Some(m) ==> (!m.valid() ==> r == Err::<WeldingMessage, MessageError>(
            MessageError::InvalidOperation,
        )),
{
    match decoded {
        None => Err(MessageError::Decode),
        Some(m) => {
            if m.is_valid_operation() {
                Ok(m)
            } else {
                Err(MessageError::InvalidOperation)
            }
        },
    }
}

} // verus!
