//! The status service's data model: the runtime health snapshot, the sleep
//! state derived from CPU load, the single-slot container that holds the
//! current snapshot, and the snapshot's JSON form.
//!
//! CPU load and resident memory are carried as fixed-point integers in
//! hundredths (of a percent, and of a megabyte), so that the thresholds and
//! the JSON rendering are exact.

use crate::json::{
    push_bool, push_centi, push_dec, push_escaped, spec_bool_json, spec_centi, spec_dec,
    spec_escaped,
};
use vstd::prelude::*;
use vstd::string::*;

verus! {

/// CPU load below this many hundredths of a percent is `idle`.
pub const IDLE_BELOW_CENTI: u32 = 500;

/// CPU load below this many hundredths of a percent (and not idle) is
/// `warm`; at or above it, `active`.
pub const WARM_BELOW_CENTI: u32 = 4000;

/// How busy the host looks, derived from CPU load.
#[derive(Clone, Copy, Debug, PartialEq, Eq, Structural)]
pub enum SleepState {
    /// CPU load under 5 percent.
    Idle,
    /// CPU load of at least 5 and under 40 percent.
    Warm,
    /// CPU load of at least 40 percent.
    Active,
}

/// The sleep state for a CPU load of `cpu_centi_percent` hundredths of a
/// percent: `idle` under 5.00, `warm` from 5.00 under 40.00, `active` from
/// 40.00 up.
pub open spec fn spec_sleep_state(cpu_centi_percent: int) -> SleepState {
    if cpu_centi_percent < IDLE_BELOW_CENTI {
        SleepState::Idle
    } else if cpu_centi_percent < WARM_BELOW_CENTI {
        SleepState::Warm
    } else {
        SleepState::Active
    }
}

/// The JSON name of a sleep state.
pub open spec fn spec_sleep_state_name(state: SleepState) -> Seq<char> {
    match state {
        SleepState::Idle => "idle"@,
        SleepState::Warm => "warm"@,
        SleepState::Active => "active"@,
    }
}

/// One runtime health snapshot. A snapshot is only ever replaced wholesale:
/// no field of a published snapshot is ever rewritten in place.
pub struct RuntimeStatus {
    /// CPU load in hundredths of a percent (`1234` is 12.34%).
    pub cpu_centi_percent: u32,
    /// Resident memory in hundredths of a megabyte.
    pub rss_centi_mb: u64,
    /// Whole seconds since process start.
    pub uptime_seconds: u64,
    /// Derived from `cpu_centi_percent`; see [`spec_sleep_state`].
    pub sleep_state: SleepState,
    /// Always true: the sampler runs on periodic timer ticks.
    pub tickless: bool,
    /// Whether a configured module was preloaded successfully at startup.
    pub wasm_loaded: bool,
    /// The configured module path, if any.
    pub wasm_module: Option<String>,
    /// The sampling instant as an RFC 3339 UTC timestamp; empty before the
    /// first sampling cycle.
    pub timestamp: String,
}

/// The mathematical value of a snapshot.
pub struct StatusModel {
    pub cpu_centi_percent: int,
    pub rss_centi_mb: int,
    pub uptime_seconds: int,
    pub sleep_state: SleepState,
    pub tickless: bool,
    pub wasm_loaded: bool,
    pub wasm_module: Option<Seq<char>>,
    pub timestamp: Seq<char>,
}

impl View for RuntimeStatus {
    type V = StatusModel;

    open spec fn view(&self) -> StatusModel {
        StatusModel {
            cpu_centi_percent: self.cpu_centi_percent as int,
            rss_centi_mb: self.rss_centi_mb as int,
            uptime_seconds: self.uptime_seconds as int,
            sleep_state: self.sleep_state,
            tickless: self.tickless,
            wasm_loaded: self.wasm_loaded,
            wasm_module: match self.wasm_module {
                Some(path) => Some(path@),
                None => None,
            },
            timestamp: self.timestamp@,
        }
    }
}

impl RuntimeStatus {
    /// A snapshot is well formed when its sleep state agrees with its CPU
    /// load and it records tick-driven sampling.
    pub open spec fn wf(&self) -> bool {
        &&& self.sleep_state == spec_sleep_state(self.cpu_centi_percent as int)
        &&& self.tickless
    }
}

impl Clone for RuntimeStatus {
    /// An exact copy: every field of the copy equals the source's.
    fn clone(&self) -> (copy: Self)
        ensures
            copy@ == self@,
    {
        RuntimeStatus {
            cpu_centi_percent: self.cpu_centi_percent,
            rss_centi_mb: self.rss_centi_mb,
            uptime_seconds: self.uptime_seconds,
            sleep_state: self.sleep_state,
            tickless: self.tickless,
            wasm_loaded: self.wasm_loaded,
            wasm_module: match &self.wasm_module {
                Some(path) => Some(path.clone()),
                None => None,
            },
            timestamp: self.timestamp.clone(),
        }
    }
}

/// Classifies a CPU load, in hundredths of a percent, into a sleep state:
/// `idle` under 5.00%, `warm` from 5.00% under 40.00%, `active` from 40.00%.
pub fn classify_sleep_state(cpu_centi_percent: u32) -> (state: SleepState)
    ensures
        state == spec_sleep_state(cpu_centi_percent as int),
{
    if cpu_centi_percent < IDLE_BELOW_CENTI {
        SleepState::Idle
    } else if cpu_centi_percent < WARM_BELOW_CENTI {
        SleepState::Warm
    } else {
        SleepState::Active
    }
}

/// `wasm_loaded` is true exactly when a module path was configured and the
/// loader succeeded on it; with no path configured it is false whatever the
/// loader would have said.
pub fn wasm_loaded_flag(path_configured: bool, load_succeeded: bool) -> (loaded: bool)
    ensures
        loaded == (path_configured && load_succeeded),
{
    path_configured && load_succeeded
}

/// Builds one snapshot wholesale from one cycle's measurements: every field
/// comes from this call's arguments, and the sleep state is derived from the
/// CPU load.
pub fn build_status(
    cpu_centi_percent: u32,
    rss_centi_mb: u64,
    uptime_seconds: u64,
    wasm_loaded: bool,
    wasm_module: Option<String>,
    timestamp: String,
) -> (status: RuntimeStatus)
    ensures
        status.cpu_centi_percent == cpu_centi_percent,
        status.rss_centi_mb == rss_centi_mb,
        status.uptime_seconds == uptime_seconds,
        status.sleep_state == spec_sleep_state(cpu_centi_percent as int),
        status.tickless,
        status.wasm_loaded == wasm_loaded,
        status.wasm_module == wasm_module,
        status.timestamp == timestamp,
        status.wf(),
{
    RuntimeStatus {
        cpu_centi_percent,
        rss_centi_mb,
        uptime_seconds,
        sleep_state: classify_sleep_state(cpu_centi_percent),
        tickless: true,
        wasm_loaded,
        wasm_module,
        timestamp,
    }
}

/// The zeroed snapshot installed at startup, before the first sampling
/// cycle: no load, no memory, no uptime, an empty timestamp, and the module
/// preload outcome fixed for the life of the process.
pub fn startup_status(wasm_loaded: bool, wasm_module: Option<String>) -> (status: RuntimeStatus)
    ensures
        status.cpu_centi_percent == 0,
        status.rss_centi_mb == 0,
        status.uptime_seconds == 0,
        status.sleep_state == SleepState::Idle,
        status.tickless,
        status.wasm_loaded == wasm_loaded,
        status.wasm_module == wasm_module,
        status.timestamp@ == Seq::<char>::empty(),
        status.wf(),
{
    build_status(0, 0, 0, wasm_loaded, wasm_module, String::new())
}

/// Relies on `chrono::Utc::now` and `chrono::DateTime::to_rfc3339`: the
/// current UTC time rendered as an RFC 3339 timestamp. The result depends on
/// the clock, so nothing is claimed about its value.
#[verifier::external_body]
fn now_rfc3339() -> String {
    chrono::Utc::now().to_rfc3339()
}

/// One sampling cycle's snapshot: the measured values classified and
/// assembled, stamped with the current UTC clock time. Every field except
/// the timestamp is pinned by the arguments.
pub fn sampled_status(
    cpu_centi_percent: u32,
    rss_centi_mb: u64,
    uptime_seconds: u64,
    wasm_loaded: bool,
    wasm_module: Option<String>,
) -> (status: RuntimeStatus)
    ensures
        status.cpu_centi_percent == cpu_centi_percent,
        status.rss_centi_mb == rss_centi_mb,
        status.uptime_seconds == uptime_seconds,
        status.sleep_state == spec_sleep_state(cpu_centi_percent as int),
        status.tickless,
        status.wasm_loaded == wasm_loaded,
        status.wasm_module == wasm_module,
        status.wf(),
{
    let timestamp = now_rfc3339();
    build_status(
        cpu_centi_percent,
        rss_centi_mb,
        uptime_seconds,
        wasm_loaded,
        wasm_module,
        timestamp,
    )
}

/// The single-slot container for the current snapshot: exactly one snapshot
/// is current at any instant. The writer replaces it wholesale; readers copy
/// it out whole, so no read ever mixes fields of two sampling cycles.
pub struct StatusSlot {
    current: RuntimeStatus,
}

impl View for StatusSlot {
    type V = StatusModel;

    /// The value of the one current snapshot.
    closed spec fn view(&self) -> StatusModel {
        self.current@
    }
}

impl StatusSlot {
    /// A slot holding `initial` as the current snapshot.
    pub fn new(initial: RuntimeStatus) -> (slot: StatusSlot)
        ensures
            slot@ == initial@,
    {
        StatusSlot { current: initial }
    }

    /// The writer's swap: `status` replaces the current snapshot wholesale.
    pub fn store(&mut self, status: RuntimeStatus)
        ensures
            final(self)@ == status@,
    {
        self.current = status;
    }

    /// The reader's copy-out: an exact copy of the whole current snapshot.
    pub fn read(&self) -> (status: RuntimeStatus)
        ensures
            status@ == self@,
    {
        self.current.clone()
    }
}

/// The snapshot's JSON form: every field, in this fixed order, with the
/// fixed-point fields written with two fraction digits and the string fields
/// escaped.
pub open spec fn spec_status_json(m: StatusModel) -> Seq<char> {
    "{\"cpu_percent\":"@ + spec_centi(m.cpu_centi_percent as nat) + ",\"rss_mb\":"@ + spec_centi(
        m.rss_centi_mb as nat,
    ) + ",\"uptime_seconds\":"@ + spec_dec(m.uptime_seconds as nat) + ",\"sleep_state\":\""@
        + spec_sleep_state_name(m.sleep_state) + "\",\"tickless\":"@ + spec_bool_json(m.tickless)
        + ",\"wasm_loaded\":"@ + spec_bool_json(m.wasm_loaded) + ",\"wasm_module\":"@
        + spec_module_json(m.wasm_module) + ",\"timestamp\":\""@ + spec_escaped(m.timestamp)
        + "\"}"@
}

/// An optional module path in JSON: `null`, or the escaped path in quotes.
pub open spec fn spec_module_json(module: Option<Seq<char>>) -> Seq<char> {
    match module {
        None => "null"@,
        Some(path) => "\""@ + spec_escaped(path) + "\""@,
    }
}

/// Appends the sleep state's JSON name to `out`.
fn push_sleep_state(out: &mut String, state: &SleepState)
    ensures
        final(out)@ == old(out)@ + spec_sleep_state_name(*state),
{
    match state {
        SleepState::Idle => out.append("idle"),
        SleepState::Warm => out.append("warm"),
        SleepState::Active => out.append("active"),
    }
}

/// Appends the optional module path's JSON form to `out`.
fn push_module(out: &mut String, module: &Option<String>)
    ensures
        final(out)@ == old(out)@ + spec_module_json(
            match *module {
                Some(path) => Some(path@),
                None => None,
            },
        ),
{
    match module {
        None => out.append("null"),
        Some(path) => {
            out.append("\"");
            push_escaped(out, path.as_str());
            out.append("\"");
            proof {
                assert(old(out)@ + (("\""@ + spec_escaped(path@)) + "\""@) =~= ((old(out)@ + "\""@)
                    + spec_escaped(path@)) + "\""@);
            }
        },
    }
}

/// Serializes a snapshot as the status endpoint's JSON document, with all
/// fields always present and `wasm_module` written as `null` when absent.
pub fn status_json(status: &RuntimeStatus) -> (json: String)
    ensures
        json@ == spec_status_json(status@),
{
    let mut out = String::new();
    proof {
        assert(Seq::<char>::empty() + "{\"cpu_percent\":"@ =~= "{\"cpu_percent\":"@);
    }
    out.append("{\"cpu_percent\":");
    push_centi(&mut out, status.cpu_centi_percent as u64);
    out.append(",\"rss_mb\":");
    push_centi(&mut out, status.rss_centi_mb);
    out.append(",\"uptime_seconds\":");
    push_dec(&mut out, status.uptime_seconds);
    out.append(",\"sleep_state\":\"");
    push_sleep_state(&mut out, &status.sleep_state);
    out.append("\",\"tickless\":");
    push_bool(&mut out, status.tickless);
    out.append(",\"wasm_loaded\":");
    push_bool(&mut out, status.wasm_loaded);
    out.append(",\"wasm_module\":");
    push_module(&mut out, &status.wasm_module);
    out.append(",\"timestamp\":\"");
    push_escaped(&mut out, status.timestamp.as_str());
    out.append("\"}");
    out
}

} // verus!
