use vstd::prelude::*;
use vstd::string::*;

use crate::message::{line_info_of, WeldingMessage};
use crate::text::text_equals;

verus! {

/// Cycle times below this many milliseconds, on scrap parts, raise an alert.
pub const CYCLE_TIME_THRESHOLD_MS: i64 = 7000;

/// The quality verdict that can raise an alert.
pub const SCRAP_QUALITY: &'static str = "scrap";

/// The reading that raised an alert, next to the threshold it was held against.
#[derive(Debug, Clone, PartialEq)]
pub struct TriggerConditions {
    pub quality: String,
    pub cycle_time_ms: i64,
    pub threshold_ms: i64,
}

/// The assembly being welded when the alert was raised.
#[derive(Debug, Clone, PartialEq)]
pub struct AssemblyDetails {
    pub assembly_type: String,
    pub id: String,
    pub station_id: String,
}

/// Production line and station taken from the machine identifier.
#[derive(Debug, Clone, PartialEq)]
pub struct LineInfo {
    pub line: String,
    pub station: String,
}

/// A quality-control alert derived from one welding message.
#[derive(Debug, Clone, PartialEq)]
pub struct QualityControlAlert {
    pub alert_type: String,
    pub source_machine: String,
    pub timestamp: String,
    pub trigger_conditions: TriggerConditions,
    pub assembly_details: AssemblyDetails,
    pub severity: String,
    pub recommended_action: String,
    pub line_info: Option<LineInfo>,
}

/// The content of an alert, as text and integers.
pub struct AlertView {
    pub alert_type: Seq<char>,
    pub source_machine: Seq<char>,
    pub timestamp: Seq<char>,
    pub quality: Seq<char>,
    pub cycle_time_ms: int,
    pub threshold_ms: int,
    pub assembly_type: Seq<char>,
    pub assembly_id: Seq<char>,
    pub station_id: Seq<char>,
    pub severity: Seq<char>,
    pub recommended_action: Seq<char>,
    pub line_info: Option<(Seq<char>, Seq<char>)>,
}

impl AlertView {
    /// The same alert, generated at another time.
    pub open spec fn restamped(self, timestamp: Seq<char>) -> AlertView {
        AlertView { timestamp, ..self }
    }
}

impl View for QualityControlAlert {
    type V = AlertView;

    open spec fn view(&self) -> AlertView {
        AlertView {
            alert_type: self.alert_type@,
            source_machine: self.source_machine@,
            timestamp: self.timestamp@,
            quality: self.trigger_conditions.quality@,
            cycle_time_ms: self.trigger_conditions.cycle_time_ms as int,
            threshold_ms: self.trigger_conditions.threshold_ms as int,
            assembly_type: self.assembly_details.assembly_type@,
            assembly_id: self.assembly_details.id@,
            station_id: self.assembly_details.station_id@,
            severity: self.severity@,
            recommended_action: self.recommended_action@,
            line_info: match self.line_info {
                Some(l) => Some((l.line@, l.station@)),
                None => None,
            },
        }
    }
}

/// How far, in milliseconds, a cycle time falls below the threshold.
pub open spec fn deviation_ms(cycle_time_ms: int) -> int {
    CYCLE_TIME_THRESHOLD_MS - cycle_time_ms
}

pub open spec fn severity_of(cycle_time_ms: int) -> Seq<char> {
    if deviation_ms(cycle_time_ms) >= 2000 {
        "high"@
    } else if deviation_ms(cycle_time_ms) >= 1000 {
        "medium"@
    } else {
        "low"@
    }
}

pub open spec fn action_of(cycle_time_ms: int) -> Seq<char> {
    if deviation_ms(cycle_time_ms) >= 2000 {
        "immediate_inspection_required"@
    } else if deviation_ms(cycle_time_ms) >= 1000 {
        "investigate_welding_parameters"@
    } else {
        "monitor_next_cycle"@
    }
}

/// The alert that a message gives when generated at `timestamp`.
pub open spec fn alert_for(m: WeldingMessage, timestamp: Seq<char>) -> AlertView {
    AlertView {
        alert_type: "quality_control"@,
        source_machine: m.machine_id@,
        timestamp,
        quality: m.quality@,
        cycle_time_ms: m.last_cycle_time_ms as int,
        threshold_ms: CYCLE_TIME_THRESHOLD_MS as int,
        assembly_type: m.assembly_type@,
        assembly_id: m.assembly_id@,
        station_id: m.station_id@,
        severity: severity_of(m.last_cycle_time_ms as int),
        recommended_action: action_of(m.last_cycle_time_ms as int),
        line_info: line_info_of(m.machine_id@),
    }
}

/// The alert rule on a quality verdict already in lower case.
pub open spec fn alert_condition_holds(lowered_quality: Seq<char>, cycle_time_ms: int) -> bool {
    lowered_quality == seq!['s', 'c', 'r', 'a', 'p'] && cycle_time_ms < CYCLE_TIME_THRESHOLD_MS
}

/// The lower-case form of a text, as `str::to_lowercase` gives it.
pub uninterp spec fn lower_of(s: Seq<char>) -> Seq<char>;

/// Whether a message raises an alert: its quality, in lower case, is scrap and
/// its cycle time is below the threshold.
pub open spec fn should_alert(m: WeldingMessage) -> bool {
    alert_condition_holds(lower_of(m.quality@), m.last_cycle_time_ms as int)
}

/// Relies on `str::to_lowercase`: the result depends on the characters alone,
/// and an empty text stays empty.
#[verifier::external_body]
fn lowercase(s: &str) -> (r: String)
    ensures
        r@ == lower_of(s@),
        s@.len() == 0 ==> r@.len() == 0,
{
    s.to_lowercase()
}

/// Relies on chrono's `Utc::now` and `DateTime::to_rfc3339`: the current time as
/// RFC 3339 text. Nothing is known of which instant it is.
#[verifier::external_body]
pub(crate) fn utc_now_rfc3339() -> (r: String) {
    chrono::Utc::now().to_rfc3339()
}

/// The alert rule, applied to a quality verdict that is already in lower case.
pub fn alert_condition(lowered_quality: &str, cycle_time_ms: i64) -> (r: bool)
    ensures
        r == alert_condition_holds(lowered_quality@, cycle_time_ms as int),
{
    proof {
        reveal_strlit("scrap");
        assert("scrap"@ =~= seq!['s', 'c', 'r', 'a', 'p']);
    }
    text_equals(lowered_quality, SCRAP_QUALITY) && cycle_time_ms < CYCLE_TIME_THRESHOLD_MS
}

/// Whether a message raises a quality-control alert.
pub fn should_trigger_alert(message: &WeldingMessage) -> (r: bool)
    ensures
        r == should_alert(*message),
{
    let lowered = lowercase(message.quality.as_str());
    alert_condition(lowered.as_str(), message.last_cycle_time_ms)
}

/// The severity of an alert, from how far the cycle time falls below the threshold.
pub fn determine_severity(message: &WeldingMessage) -> (r: String)
    ensures
        r@ == severity_of(message.last_cycle_time_ms as int),
{
    if message.last_cycle_time_ms <= CYCLE_TIME_THRESHOLD_MS - 2000 {
        String::from_str("high")
    } else if message.last_cycle_time_ms <= CYCLE_TIME_THRESHOLD_MS - 1000 {
        String::from_str("medium")
    } else {
        String::from_str("low")
    }
}

/// The recommended action, from how far the cycle time falls below the threshold.
pub fn determine_recommended_action(message: &WeldingMessage) -> (r: String)
    ensures
        r@ == action_of(message.last_cycle_time_ms as int),
{
    if message.last_cycle_time_ms <= CYCLE_TIME_THRESHOLD_MS - 2000 {
        String::from_str("immediate_inspection_required")
    } else if message.last_cycle_time_ms <= CYCLE_TIME_THRESHOLD_MS - 1000 {
        String::from_str("investigate_welding_parameters")
    } else {
        String::from_str("monitor_next_cycle")
    }
}

/// Builds the alert for a message, stamped with the given generation time.
pub fn build_quality_alert(message: &WeldingMessage, timestamp: String) -> (r: QualityControlAlert)
    ensures
        r@ == alert_for(*message, timestamp@),
{
    let severity = determine_severity(message);
    let recommended_action = determine_recommended_action(message);
    let line_info = match message.get_line_info() {
        Some((line, station)) => Some(LineInfo { line, station }),
        None => None,
    };
    QualityControlAlert {
        alert_type: String::from_str("quality_control"),
        source_machine: message.machine_id.clone(),
        timestamp,
        trigger_conditions: TriggerConditions {
            quality: message.quality.clone(),
            cycle_time_ms: message.last_cycle_time_ms,
            threshold_ms: CYCLE_TIME_THRESHOLD_MS,
        },
        assembly_details: AssemblyDetails {
            assembly_type: message.assembly_type.clone(),
            id: message.assembly_id.clone(),
            station_id: message.station_id.clone(),
        },
        severity,
        recommended_action,
        line_info,
    }
}

/// Generates the alert for a message, stamped with the current time.
pub fn generate_quality_alert(message: &WeldingMessage) -> (r: QualityControlAlert)
    ensures
        r@ == alert_for(*message, r.timestamp@),
{
    build_quality_alert(message, utc_now_rfc3339())
}

/// Two alerts generated from one message agree in every field but the
/// generation time.
pub proof fn lemma_alert_generation_idempotent(
    m: WeldingMessage,
    a: QualityControlAlert,
    b: QualityControlAlert,
)
    requires
        a@ == alert_for(m, a@.timestamp),
        b@ == alert_for(m, b@.timestamp),
    ensures
        a@.restamped(b@.timestamp) == b@,
{
}

/// Impact levels and equipment checks that add context to an alert.
pub struct QualityAnalyzer;

pub open spec fn equipment_issue(m: WeldingMessage) -> bool {
    m.last_cycle_time_ms < 5000 && m.quality@ == "scrap"@
}

pub open spec fn impact_of(assembly_type: Seq<char>) -> Seq<char> {
    if assembly_type == "FrameAssembly"@ || assembly_type == "EngineMount"@ {
        "critical"@
    } else if assembly_type == "WingJoint"@ || assembly_type == "DockingPort"@ {
        "high"@
    } else if assembly_type == "HullSeam"@ {
        "medium"@
    } else {
        "low"@
    }
}

pub open spec fn context_of(m: WeldingMessage) -> Seq<char> {
    if equipment_issue(m) {
        "Potential equipment malfunction detected. Assembly impact: "@ + impact_of(
            m.assembly_type@,
        ) + ". Consider immediate maintenance."@
    } else {
        "Quality deviation detected. Assembly impact: "@ + impact_of(m.assembly_type@)
            + ". Review welding parameters."@
    }
}

impl QualityAnalyzer {
    /// Very short cycles on scrap parts hint at an equipment fault.
    pub fn check_equipment_health(message: &WeldingMessage) -> (r: bool)
        ensures
            r == equipment_issue(*message),
    {
        message.last_cycle_time_ms < 5000 && text_equals(message.quality.as_str(), SCRAP_QUALITY)
    }

    /// How much the affected assembly matters.
    pub fn estimate_impact(message: &WeldingMessage) -> (r: String)
        ensures
            r@ == impact_of(message.assembly_type@),
    {
        let t = message.assembly_type.as_str();
        if text_equals(t, "FrameAssembly") || text_equals(t, "EngineMount") {
            String::from_str("critical")
        } else if text_equals(t, "WingJoint") || text_equals(t, "DockingPort") {
            String::from_str("high")
        } else if text_equals(t, "HullSeam") {
            String::from_str("medium")
        } else {
            String::from_str("low")
        }
    }

    /// A sentence of context for the alert.
    pub fn get_context_info(message: &WeldingMessage) -> (r: String)
        ensures
            r@ == context_of(*message),
    {
        let impact = Self::estimate_impact(message);
        if Self::check_equipment_health(message) {
            String::from_str("Potential equipment malfunction detected. Assembly impact: ").concat(
                impact.as_str(),
            ).concat(". Consider immediate maintenance.")
        } else {
            String::from_str("Quality deviation detected. Assembly impact: ").concat(
                impact.as_str(),
            ).concat(". Review welding parameters.")
        }
    }
}

} // verus!
