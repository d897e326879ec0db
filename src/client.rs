//! The reporting client: configuration, the errors it accepts, and the
//! preparation of one report (capture, filter, event, log line, document).

use vstd::prelude::*;
use crate::document::{Document, document_spec, format_event, log_line, log_line_spec};
use crate::event::{ErrorEvent, EventModel, build_event};
use crate::frames::{FilterRules, FrameModel, RawFrame, RawSymbol, filter_frames, filter_spec, raw_model};

verus! {

/// The application's name and the webhook that reports go to.
pub struct Config {
    pub app_name: String,
    pub slack_webhook_url: String,
}

/// An error that can be reported: it names its variant with a stable
/// identifier and describes itself in a message.
pub trait Reportable {
    /// The identifier of the error's variant.
    spec fn kind_spec(&self) -> Seq<char>;

    /// The error's message.
    spec fn message_spec(&self) -> Seq<char>;

    fn error_type(&self) -> (r: String)
        ensures
            r@ == self.kind_spec(),
    ;

    fn message(&self) -> (r: String)
        ensures
            r@ == self.message_spec(),
    ;
}

/// The client: a fixed configuration and the rules that pick the
/// application's frames.
pub struct WudClient {
    pub config: Config,
    pub rules: FilterRules,
}

/// What one report amounts to: the line to log locally, the endpoint, and
/// the document to post there.
pub struct ReportPlan {
    pub log_line: String,
    pub endpoint: String,
    pub document: Document,
}

/// The default rules: paths under `/home`, but not in the dependency cache
/// (`.cargo`), the toolchain (`.rustc`) or a library root file (`lib.rs`).
pub open spec fn default_rules_spec(rules: FilterRules) -> bool {
    &&& rules.root_marker@ == "/home"@
    &&& rules.exclusions@.map_values(|s: String| s@) == seq![".cargo"@, ".rustc"@, "lib.rs"@]
}

/// The event that a report of an error with the given kind and message, and
/// the given retained frames, amounts to.
pub open spec fn event_spec(
    config: Config,
    kind: Seq<char>,
    message: Seq<char>,
    frames: Seq<FrameModel>,
) -> EventModel {
    EventModel { app_name: config.app_name@, error_type: kind, error_message: message, frames }
}

/// A plan holds the log line and the document of `e`, for `endpoint`.
pub open spec fn plan_matches(p: ReportPlan, endpoint: Seq<char>, e: EventModel) -> bool {
    &&& p.log_line@ == log_line_spec(e)
    &&& p.endpoint@ == endpoint
    &&& p.document@ == document_spec(e)
}

/// The default filter rules.
pub fn default_rules() -> (r: FilterRules)
    ensures
        default_rules_spec(r),
{
    let mut exclusions: Vec<String> = Vec::new();
    exclusions.push(String::from_str(".cargo"));
    exclusions.push(String::from_str(".rustc"));
    exclusions.push(String::from_str("lib.rs"));
    let r = FilterRules { root_marker: String::from_str("/home"), exclusions };
    assert(r.exclusions@.map_values(|s: String| s@) =~= seq![".cargo"@, ".rustc"@, "lib.rs"@]);
    r
}

/// Relies on backtrace::Backtrace::new with BacktraceFrame::symbols and
/// BacktraceSymbol's filename, lineno and name: the call stack at this point,
/// each frame with its symbol resolutions. It depends on the machine, so
/// nothing is promised of it.
#[verifier::external_body]
fn capture_trace() -> (r: Vec<RawFrame>) {
    backtrace::Backtrace::new().frames().iter().map(|frame| RawFrame {
        symbols: frame.symbols().iter().map(|s| RawSymbol {
            file: s.filename().map(|p| p.to_string_lossy().into_owned()),
            line: s.lineno(),
            function: s.name().map(|n| format!("{:#}", n)),
        }).collect(),
    }).collect()
}

impl WudClient {
    /// A client with the given configuration and the default filter rules.
    pub fn new(config: Config) -> (r: Self)
        ensures
            r.config == config,
            default_rules_spec(r.rules),
    {
        WudClient { config, rules: default_rules() }
    }

    /// The event of `error` with the application frames of `raw`.
    pub fn create_error_event<E: Reportable>(&self, error: &E, raw: &Vec<RawFrame>) -> (r: ErrorEvent)
        ensures
            r@ == event_spec(
                self.config,
                error.kind_spec(),
                error.message_spec(),
                filter_spec(self.rules, raw_model(raw@)),
            ),
    {
        let frames = filter_frames(&self.rules, raw);
        build_event(&self.config.app_name, error.error_type(), error.message(), frames)
    }

    /// The report of `error` given the raw capture `raw`.
    pub fn build_report<E: Reportable>(&self, error: &E, raw: &Vec<RawFrame>) -> (r: ReportPlan)
        ensures
            plan_matches(
                r,
                self.config.slack_webhook_url@,
                event_spec(
                    self.config,
                    error.kind_spec(),
                    error.message_spec(),
                    filter_spec(self.rules, raw_model(raw@)),
                ),
            ),
    {
        let event = self.create_error_event(error, raw);
        ReportPlan {
            log_line: log_line(&event),
            endpoint: self.config.slack_webhook_url.clone(),
            document: format_event(&event),
        }
    }

    /// The report of `error`, with the call stack captured here.
    pub fn prepare_report<E: Reportable>(&self, error: &E) -> (r: ReportPlan)
        ensures
            exists|raw: Seq<Seq<RawSymbol>>|
                plan_matches(
                    r,
                    self.config.slack_webhook_url@,
                    event_spec(
                        self.config,
                        error.kind_spec(),
                        error.message_spec(),
                        #[trigger] filter_spec(self.rules, raw),
                    ),
                ),
    {
        let raw = capture_trace();
        self.build_report(error, &raw)
    }
}

} // verus!
