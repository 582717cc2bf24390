use vstd::prelude::*;
use vstd::string::*;

use crate::filter::utc_now_rfc3339;
use crate::metrics::MetricsData;
use crate::text::{
    decimal_of, decimal_text, hundredths_string, hundredths_text, parse_decimal, text_equals,
    u128_text,
};

verus! {

/// Version reported by the health endpoint.
pub const SERVICE_VERSION: &'static str = "0.1.0";

/// Overall health with the result of each check.
#[derive(Debug, Clone, PartialEq)]
pub struct HealthStatus {
    pub status: String,
    pub timestamp: String,
    pub version: String,
    pub uptime_seconds: u64,
    pub checks: HealthChecks,
}

/// The four checks that make up a health report.
#[derive(Debug, Clone, PartialEq)]
pub struct HealthChecks {
    pub wasm_module: CheckResult,
    pub mqtt_connection: CheckResult,
    pub memory_usage: CheckResult,
    pub message_processing: CheckResult,
}

/// The outcome of one check: a status token and a message.
#[derive(Debug, Clone, PartialEq)]
pub struct CheckResult {
    pub status: String,
    pub message: String,
    pub last_checked: String,
}

/// What the environment reported at the time of a health check.
#[derive(Debug)]
pub struct HealthProbes {
    /// Size in bytes of the quality-filter module, or why it could not be read.
    pub module_size: Result<u64, String>,
    /// Resident memory in megabytes, or why it could not be determined.
    pub memory_usage_mb: Result<u64, String>,
    pub uptime_seconds: u64,
}

/// Derives health reports from metrics readings and environment probes.
pub struct HealthService;

pub open spec fn check_is(c: CheckResult, status: Seq<char>, message: Seq<char>, at: Seq<char>) -> bool {
    c.status@ == status && c.message@ == message && c.last_checked@ == at
}

pub open spec fn module_check(size: Result<u64, String>) -> (Seq<char>, Seq<char>) {
    match size {
        Ok(n) => if n > 0 {
            ("healthy"@, "WASM module accessible, size: "@ + decimal_text(n as nat) + " bytes"@)
        } else {
            ("unhealthy"@, "WASM module file is empty"@)
        },
        Err(e) => ("unhealthy"@, "WASM module not accessible: "@ + e@),
    }
}

pub open spec fn connection_check(errors: u64, received: u64) -> (Seq<char>, Seq<char>) {
    if errors == 0 || received > 0 {
        (
            "healthy"@,
            "MQTT connection healthy, messages received: "@ + decimal_text(received as nat)
                + ", errors: "@ + decimal_text(errors as nat),
        )
    } else {
        ("degraded"@, "MQTT connection issues detected, errors: "@ + decimal_text(errors as nat))
    }
}

pub open spec fn memory_check(usage: Result<u64, String>) -> (Seq<char>, Seq<char>) {
    match usage {
        Ok(mb) => if mb < 100 {
            ("healthy"@, "Memory usage: "@ + decimal_text(mb as nat) + " MB"@)
        } else if mb < 200 {
            ("warning"@, "Memory usage elevated: "@ + decimal_text(mb as nat) + " MB"@)
        } else {
            ("unhealthy"@, "Memory usage high: "@ + decimal_text(mb as nat) + " MB"@)
        },
        Err(e) => ("unknown"@, "Could not determine memory usage: "@ + e@),
    }
}

/// Processing errors per processed message, in hundredths of a percent,
/// rounded down; zero before anything was processed.
pub open spec fn error_rate_hundredths(errors: u64, processed: u64) -> nat {
    if processed == 0 {
        0
    } else {
        ((errors as int * 10000) / (processed as int)) as nat
    }
}

pub open spec fn processing_check(errors: u64, processed: u64) -> (Seq<char>, Seq<char>) {
    let shown = decimal_text(processed as nat) + ", error rate: "@ + hundredths_text(
        error_rate_hundredths(errors, processed),
    ) + "%"@;
    if processed == 0 || (errors as int) * 100 < processed as int {
        ("healthy"@, "Processing healthy, processed: "@ + shown)
    } else if (errors as int) * 100 < 5 * (processed as int) {
        ("warning"@, "Processing has some errors, processed: "@ + shown)
    } else {
        ("unhealthy"@, "High processing error rate, processed: "@ + shown)
    }
}

/// The aggregation rule: the module must be healthy, connectivity may be
/// degraded, memory and processing may be at warning.
pub open spec fn overall_healthy(
    module: Seq<char>,
    connection: Seq<char>,
    memory: Seq<char>,
    processing: Seq<char>,
) -> bool {
    &&& module == "healthy"@
    &&& (connection == "healthy"@ || connection == "degraded"@)
    &&& (memory == "healthy"@ || memory == "warning"@)
    &&& (processing == "healthy"@ || processing == "warning"@)
}

pub open spec fn checks_healthy(c: HealthChecks) -> bool {
    overall_healthy(
        c.wasm_module.status@,
        c.mqtt_connection.status@,
        c.memory_usage.status@,
        c.message_processing.status@,
    )
}

/// A module check that is unhealthy makes the whole report unhealthy,
/// whatever the other checks say.
pub proof fn lemma_unhealthy_module_decides(
    connection: Seq<char>,
    memory: Seq<char>,
    processing: Seq<char>,
)
    ensures
        !overall_healthy("unhealthy"@, connection, memory, processing),
{
    reveal_strlit("unhealthy");
    reveal_strlit("healthy");
    assert("unhealthy"@[0] != "healthy"@[0]);
}

/// Degraded connectivity alone still leaves the report healthy.
pub proof fn lemma_degraded_connection_tolerated()
    ensures
        overall_healthy("healthy"@, "degraded"@, "healthy"@, "healthy"@),
{
}

/// Resident memory assumed when the process status names none.
pub const FALLBACK_MEMORY_MB: u64 = 50;

/// White space as `char::is_whitespace` knows it.
pub open spec fn is_space(c: char) -> bool {
    c == '\t' || c == '\n' || c == '\u{0B}' || c == '\u{0C}' || c == '\r' || c == ' '
        || c == '\u{85}' || c == '\u{A0}' || c == '\u{1680}' || ('\u{2000}' <= c <= '\u{200A}')
        || c == '\u{2028}' || c == '\u{2029}' || c == '\u{202F}' || c == '\u{205F}'
        || c == '\u{3000}'
}

fn space(c: char) -> (r: bool)
    ensures
        r == is_space(c),
{
    c == '\t' || c == '\n' || c == '\u{0B}' || c == '\u{0C}' || c == '\r' || c == ' '
        || c == '\u{85}' || c == '\u{A0}' || c == '\u{1680}' || ('\u{2000}' <= c && c <= '\u{200A}')
        || c == '\u{2028}' || c == '\u{2029}' || c == '\u{202F}' || c == '\u{205F}'
        || c == '\u{3000}'
}

/// The first index at or after `i` where the character is (or, with
/// `want_space` false, is not) white space; the length when there is none.
pub open spec fn scan_space(s: Seq<char>, i: int, want_space: bool) -> int
    decreases s.len() - i,
{
    if i >= s.len() {
        s.len() as int
    } else if is_space(s[i]) == want_space {
        i
    } else {
        scan_space(s, i + 1, want_space)
    }
}

/// The end of the line that starts at `i`.
pub open spec fn line_end(s: Seq<char>, i: int) -> int
    decreases s.len() - i,
{
    if i >= s.len() {
        s.len() as int
    } else if s[i] == '\n' {
        i
    } else {
        line_end(s, i + 1)
    }
}

pub open spec fn rss_tag() -> Seq<char> {
    seq!['V', 'm', 'R', 'S', 'S', ':']
}

/// The resident-set figure, in kilobytes, that the process status gives from
/// the line at `p` on: the second white-space separated word of the first
/// line that starts with `VmRSS:` and has one. `Some(None)` when that word is
/// not a number, `None` when no line qualifies.
pub open spec fn rss_from(s: Seq<char>, p: int) -> Option<Option<nat>>
    decreases s.len() - p,
{
    if p < 0 || p > s.len() {
        None
    } else {
        let e = line_end(s, p);
        let a = scan_space(s, p, true);
        let b = scan_space(s, a, false);
        let c = scan_space(s, b, true);
        if p + 6 <= e && s.subrange(p, p + 6) == rss_tag() && b < e {
            Some(decimal_of(s.subrange(b, c), u64::MAX as nat))
        } else if e >= s.len() || e < p {
            None
        } else {
            rss_from(s, e + 1)
        }
    }
}

/// The memory figure, in megabytes, that a process status text gives.
pub open spec fn memory_from_status(s: Seq<char>) -> Option<nat> {
    match rss_from(s, 0) {
        Some(Some(kb)) => Some(kb / 1024),
        Some(None) => None,
        None => Some(FALLBACK_MEMORY_MB as nat),
    }
}

proof fn lemma_scan_bounds(s: Seq<char>, i: int, want_space: bool)
    requires
        0 <= i <= s.len(),
    ensures
        i <= scan_space(s, i, want_space) <= s.len(),
    decreases s.len() - i,
{
    if i < s.len() && is_space(s[i]) != want_space {
        lemma_scan_bounds(s, i + 1, want_space);
    }
}

proof fn lemma_line_end_bounds(s: Seq<char>, i: int)
    requires
        0 <= i <= s.len(),
    ensures
        i <= line_end(s, i) <= s.len(),
        line_end(s, i) < s.len() ==> s[line_end(s, i)] == '\n',
    decreases s.len() - i,
{
    if i < s.len() && s[i] != '\n' {
        lemma_line_end_bounds(s, i + 1);
    }
}

fn find_space(s: &str, start: usize, want_space: bool) -> (r: usize)
    requires
        start <= s@.len(),
    ensures
        r == scan_space(s@, start as int, want_space),
{
    let n = s.unicode_len();
    let mut i: usize = start;
    while i < n && space(s.get_char(i)) != want_space
        invariant
            n == s@.len(),
            start <= i <= n,
            scan_space(s@, start as int, want_space) == scan_space(s@, i as int, want_space),
        decreases n - i,
    {
        i = i + 1;
    }
    i
}

fn find_line_end(s: &str, start: usize) -> (r: usize)
    requires
        start <= s@.len(),
    ensures
        r == line_end(s@, start as int),
{
    let n = s.unicode_len();
    let mut i: usize = start;
    while i < n && s.get_char(i) != '\n'
        invariant
            n == s@.len(),
            start <= i <= n,
            line_end(s@, start as int) == line_end(s@, i as int),
        decreases n - i,
    {
        i = i + 1;
    }
    i
}

/// Reads resident memory, in megabytes, from the text of the process status
/// file: the `VmRSS:` figure in kilobytes, divided down. Without such a line
/// the fallback figure is assumed; an unreadable figure is an error.
pub fn memory_usage_from_status(status: &str) -> (r: Result<u64, String>)
    ensures
        r is Ok <==> memory_from_status(status@) is Some,
        r matches Ok(mb) ==> memory_from_status(status@) == Some(mb as nat),
{
    let n = status.unicode_len();
    let ghost s = status@;
    proof {
        reveal_strlit("VmRSS:");
        assert("VmRSS:"@ =~= rss_tag());
    }
    let mut p: usize = 0;
    while p <= n
        invariant
            n == s.len(),
            s == status@,
            "VmRSS:"@ == rss_tag(),
            rss_from(s, 0) == rss_from(s, p as int),
        decreases n + 1 - p,
    {
        let e = find_line_end(status, p);
        let a = find_space(status, p, true);
        proof {
            lemma_line_end_bounds(s, p as int);
            lemma_scan_bounds(s, p as int, true);
            lemma_scan_bounds(s, a as int, false);
        }
        let b = find_space(status, a, false);
        proof {
            lemma_scan_bounds(s, b as int, true);
        }
        let c = find_space(status, b, true);
        if e - p >= 6 && b < e && text_equals(status.substring_char(p, p + 6), "VmRSS:") {
            let word = status.substring_char(b, c);
            return match parse_decimal(word, u64::MAX) {
                Some(kb) => Ok(kb / 1024),
                None => Err(String::from_str("invalid VmRSS figure")),
            };
        }
        if e >= n {
            return Ok(FALLBACK_MEMORY_MB);
        }
        p = e + 1;
    }
    Ok(FALLBACK_MEMORY_MB)
}

fn make_check(status: &str, message: String, now: &String) -> (r: CheckResult)
    ensures
        check_is(r, status@, message@, now@),
{
    CheckResult { status: String::from_str(status), message, last_checked: now.clone() }
}

impl HealthService {
    pub fn new() -> (r: HealthService) {
        HealthService
    }

    /// The module is available when its file could be read and is not empty.
    pub fn check_wasm_module(module_size: &Result<u64, String>, now: &String) -> (r: CheckResult)
        ensures
            check_is(r, module_check(*module_size).0, module_check(*module_size).1, now@),
    {
        match module_size {
            Ok(n) => {
                if *n > 0 {
                    let m = String::from_str("WASM module accessible, size: ").concat(
                        u128_text(*n as u128).as_str(),
                    ).concat(" bytes");
                    make_check("healthy", m, now)
                } else {
                    make_check("unhealthy", String::from_str("WASM module file is empty"), now)
                }
            },
            Err(e) => {
                let m = String::from_str("WASM module not accessible: ").concat(e.as_str());
                make_check("unhealthy", m, now)
            },
        }
    }

    /// Connectivity is taken as healthy while no connection error was seen, or
    /// once a message has arrived; degraded otherwise.
    pub fn check_mqtt_connection(metrics: &MetricsData, now: &String) -> (r: CheckResult)
        ensures
            check_is(
                r,
                connection_check(metrics.connection_errors, metrics.messages_received).0,
                connection_check(metrics.connection_errors, metrics.messages_received).1,
                now@,
            ),
    {
        let errors = metrics.connection_errors;
        let received = metrics.messages_received;
        if errors == 0 || received > 0 {
            let m = String::from_str("MQTT connection healthy, messages received: ").concat(
                u128_text(received as u128).as_str(),
            ).concat(", errors: ").concat(u128_text(errors as u128).as_str());
            make_check("healthy", m, now)
        } else {
            let m = String::from_str("MQTT connection issues detected, errors: ").concat(
                u128_text(errors as u128).as_str(),
            );
            make_check("degraded", m, now)
        }
    }

    /// Memory below 100 MB is healthy, below 200 MB a warning, above that unhealthy.
    pub fn check_memory_usage(usage_mb: &Result<u64, String>, now: &String) -> (r: CheckResult)
        ensures
            check_is(r, memory_check(*usage_mb).0, memory_check(*usage_mb).1, now@),
    {
        match usage_mb {
            Ok(mb) => {
                let shown = u128_text(*mb as u128);
                if *mb < 100 {
                    let m = String::from_str("Memory usage: ").concat(shown.as_str()).concat(" MB");
                    make_check("healthy", m, now)
                } else if *mb < 200 {
                    let m = String::from_str("Memory usage elevated: ").concat(shown.as_str()).concat(
                        " MB",
                    );
                    make_check("warning", m, now)
                } else {
                    let m = String::from_str("Memory usage high: ").concat(shown.as_str()).concat(
                        " MB",
                    );
                    make_check("unhealthy", m, now)
                }
            },
            Err(e) => {
                let m = String::from_str("Could not determine memory usage: ").concat(e.as_str());
                make_check("unknown", m, now)
            },
        }
    }

    /// An error rate below 1% is healthy, below 5% a warning, above that unhealthy.
    pub fn check_message_processing(metrics: &MetricsData, now: &String) -> (r: CheckResult)
        ensures
            check_is(
                r,
                processing_check(metrics.processing_errors, metrics.messages_processed).0,
                processing_check(metrics.processing_errors, metrics.messages_processed).1,
                now@,
            ),
    {
        let errors = metrics.processing_errors;
        let processed = metrics.messages_processed;
        let rate: u128 = if processed > 0 {
            (errors as u128 * 10000) / (processed as u128)
        } else {
            0
        };
        let shown = u128_text(processed as u128).concat(", error rate: ").concat(
            hundredths_string(rate).as_str(),
        ).concat("%");
        if processed == 0 || (errors as u128) * 100 < processed as u128 {
            let m = String::from_str("Processing healthy, processed: ").concat(shown.as_str());
            make_check("healthy", m, now)
        } else if (errors as u128) * 100 < 5 * (processed as u128) {
            let m = String::from_str("Processing has some errors, processed: ").concat(
                shown.as_str(),
            );
            make_check("warning", m, now)
        } else {
            let m = String::from_str("High processing error rate, processed: ").concat(
                shown.as_str(),
            );
            make_check("unhealthy", m, now)
        }
    }

    /// Applies the aggregation rule to the four checks.
    pub fn is_healthy(&self, checks: &HealthChecks) -> (r: bool)
        ensures
            r == checks_healthy(*checks),
    {
        let module = checks.wasm_module.status.as_str();
        let connection = checks.mqtt_connection.status.as_str();
        let memory = checks.memory_usage.status.as_str();
        let processing = checks.message_processing.status.as_str();
        text_equals(module, "healthy") && (text_equals(connection, "healthy") || text_equals(
            connection,
            "degraded",
        )) && (text_equals(memory, "healthy") || text_equals(memory, "warning")) && (text_equals(
            processing,
            "healthy",
        ) || text_equals(processing, "warning"))
    }

    /// Runs the four checks at one instant and aggregates them.
    pub fn check_health(&self, metrics: &MetricsData, probes: &HealthProbes) -> (r: HealthStatus)
        ensures
            check_is(
                r.checks.wasm_module,
                module_check(probes.module_size).0,
                module_check(probes.module_size).1,
                r.timestamp@,
            ),
            check_is(
                r.checks.mqtt_connection,
                connection_check(metrics.connection_errors, metrics.messages_received).0,
                connection_check(metrics.connection_errors, metrics.messages_received).1,
                r.timestamp@,
            ),
            check_is(
                r.checks.memory_usage,
                memory_check(probes.memory_usage_mb).0,
                memory_check(probes.memory_usage_mb).1,
                r.timestamp@,
            ),
            check_is(
                r.checks.message_processing,
                processing_check(metrics.processing_errors, metrics.messages_processed).0,
                processing_check(metrics.processing_errors, metrics.messages_processed).1,
                r.timestamp@,
            ),
            r.status@ == (if checks_healthy(r.checks) {
                "healthy"@
            } else {
                "unhealthy"@
            }),
            r.version@ == SERVICE_VERSION@,
            r.uptime_seconds == probes.uptime_seconds,
    {
        let now = utc_now_rfc3339();
        let checks = HealthChecks {
            wasm_module: Self::check_wasm_module(&probes.module_size, &now),
            mqtt_connection: Self::check_mqtt_connection(metrics, &now),
            memory_usage: Self::check_memory_usage(&probes.memory_usage_mb, &now),
            message_processing: Self::check_message_processing(metrics, &now),
        };
        let status = if self.is_healthy(&checks) {
            String::from_str("healthy")
        } else {
            String::from_str("unhealthy")
        };
        HealthStatus {
            status,
            timestamp: now,
            version: String::from_str(SERVICE_VERSION),
            uptime_seconds: probes.uptime_seconds,
            checks,
        }
    }
}

} // verus!
