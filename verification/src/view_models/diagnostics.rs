//! The diagnostics pane: counters of what the host did, and its recent log.
use vstd::prelude::*;
use vstd::string::*;
use crate::inventory::model::{InventoryDevice, InventorySnapshot, Sessionability};
use crate::ordered::texts;
use crate::text::{decimal, decimal_text};
use crate::view_models::startup::StartupViewModel;

verus! {

/// Counters and recent log lines of the host.
#[derive(Debug, PartialEq, Eq)]
pub struct DiagnosticsViewModel {
    pub host_error: Option<String>,
    pub control_summary: String,
    pub grounding_summary: String,
    pub startup_probe_runs: u64,
    pub inventory_refreshes: u64,
    pub inventory_rows: u64,
    pub inventory_startable_rows: u64,
    pub inventory_blocked_rows: u64,
    pub session_start_attempts: u64,
    pub session_start_successes: u64,
    pub session_start_failures: u64,
    pub log_lines: Vec<String>,
}

/// The diagnostics pane, with its texts as characters.
pub struct DiagnosticsView {
    pub host_error: Option<Seq<char>>,
    pub control_summary: Seq<char>,
    pub grounding_summary: Seq<char>,
    pub startup_probe_runs: u64,
    pub inventory_refreshes: u64,
    pub inventory_rows: u64,
    pub inventory_startable_rows: u64,
    pub inventory_blocked_rows: u64,
    pub session_start_attempts: u64,
    pub session_start_successes: u64,
    pub session_start_failures: u64,
    pub log_lines: Seq<Seq<char>>,
}

impl View for DiagnosticsViewModel {
    type V = DiagnosticsView;

    open spec fn view(&self) -> DiagnosticsView {
        DiagnosticsView {
            host_error: crate::inventory::model::opt_view(self.host_error),
            control_summary: self.control_summary@,
            grounding_summary: self.grounding_summary@,
            startup_probe_runs: self.startup_probe_runs,
            inventory_refreshes: self.inventory_refreshes,
            inventory_rows: self.inventory_rows,
            inventory_startable_rows: self.inventory_startable_rows,
            inventory_blocked_rows: self.inventory_blocked_rows,
            session_start_attempts: self.session_start_attempts,
            session_start_successes: self.session_start_successes,
            session_start_failures: self.session_start_failures,
            log_lines: texts(self.log_lines@),
        }
    }
}

/// How many log lines the pane keeps.
pub const MAX_LOG_LINES: usize = 12;

/// A counter after one more event; it stops at its largest value.
pub open spec fn sat_inc(c: u64) -> u64 {
    if c < u64::MAX {
        (c + 1) as u64
    } else {
        c
    }
}

/// A counter after one more event; it stops at its largest value.
pub fn count_one(c: u64) -> (r: u64)
    ensures
        r == sat_inc(c),
{
    if c < u64::MAX {
        c + 1
    } else {
        c
    }
}

/// The last `MAX_LOG_LINES` lines.
pub open spec fn keep_last(lines: Seq<Seq<char>>) -> Seq<Seq<char>> {
    if lines.len() > MAX_LOG_LINES {
        lines.subrange(lines.len() - MAX_LOG_LINES, lines.len() as int)
    } else {
        lines
    }
}

/// The log after one more line.
pub open spec fn logged(before: DiagnosticsViewModel, after: DiagnosticsViewModel, line: Seq<char>) -> bool {
    texts(after.log_lines@) == keep_last(texts(before.log_lines@).push(line))
}

/// Rows that can be started on some path.
pub open spec fn startable_count(devices: Seq<InventoryDevice>) -> nat
    decreases devices.len(),
{
    if devices.len() == 0 {
        0
    } else {
        startable_count(devices.drop_last()) + match devices.last().sessionability {
            Sessionability::StartableWithPreferredPath | Sessionability::StartableWithFallback => 1nat,
            _ => 0nat,
        }
    }
}

/// Rows that cannot be started now.
pub open spec fn blocked_count(devices: Seq<InventoryDevice>) -> nat
    decreases devices.len(),
{
    if devices.len() == 0 {
        0
    } else {
        blocked_count(devices.drop_last()) + match devices.last().sessionability {
            Sessionability::NotStartable | Sessionability::Unknown => 1nat,
            _ => 0nat,
        }
    }
}

/// Rows that can be started on some path, over row views.
pub open spec fn startable_views(devices: Seq<crate::inventory::model::DeviceView>) -> nat
    decreases devices.len(),
{
    if devices.len() == 0 {
        0
    } else {
        startable_views(devices.drop_last()) + match devices.last().sessionability {
            Sessionability::StartableWithPreferredPath | Sessionability::StartableWithFallback => 1nat,
            _ => 0nat,
        }
    }
}

/// Rows that cannot be started now, over row views.
pub open spec fn blocked_views(devices: Seq<crate::inventory::model::DeviceView>) -> nat
    decreases devices.len(),
{
    if devices.len() == 0 {
        0
    } else {
        blocked_views(devices.drop_last()) + match devices.last().sessionability {
            Sessionability::NotStartable | Sessionability::Unknown => 1nat,
            _ => 0nat,
        }
    }
}

/// The row counts are the same over rows and over their views.
pub proof fn lemma_count_views(devices: Seq<InventoryDevice>)
    ensures
        startable_count(devices) == startable_views(crate::inventory::model::device_views(devices)),
        blocked_count(devices) == blocked_views(crate::inventory::model::device_views(devices)),
    decreases devices.len(),
{
    if devices.len() > 0 {
        lemma_count_views(devices.drop_last());
        assert(crate::inventory::model::device_views(devices.drop_last())
            =~= crate::inventory::model::device_views(devices).drop_last());
    }
}

/// An optional text, or a stand-in when there is none.
pub open spec fn or_text(s: Option<Seq<char>>, default: Seq<char>) -> Seq<char> {
    match s {
        Some(v) => v,
        None => default,
    }
}

/// The characters of an optional string slice.
pub open spec fn str_opt(s: Option<&str>) -> Option<Seq<char>> {
    match s {
        Some(v) => Some(v@),
        None => None,
    }
}

fn text_or<'a>(s: Option<&'a str>, default: &'a str) -> (r: &'a str)
    ensures
        r@ == or_text(str_opt(s), default@),
{
    match s {
        Some(v) => v,
        None => default,
    }
}

proof fn lemma_counts_bounded(devices: Seq<InventoryDevice>)
    ensures
        startable_count(devices) <= devices.len(),
        blocked_count(devices) <= devices.len(),
    decreases devices.len(),
{
    if devices.len() > 0 {
        lemma_counts_bounded(devices.drop_last());
    }
}

impl DiagnosticsViewModel {
    /// Adds a line to the log and gives it back.
    pub fn record_host_log_line(&mut self, message: &str) -> (r: String)
        ensures
            r@ == message@,
            logged(*old(self), *final(self), message@),
            *final(self) == (DiagnosticsViewModel { log_lines: final(self).log_lines, ..*old(self) }),
    {
        let line = crate::text::owned(message);
        self.push_log(line.clone());
        line
    }

    /// Counts a startup probe and logs its summary.
    pub fn record_startup_view(&mut self, startup: &StartupViewModel) -> (r: String)
        ensures
            r@ == "startup probe "@ + startup.summary@,
            logged(*old(self), *final(self), r@),
            *final(self) == (DiagnosticsViewModel {
                startup_probe_runs: sat_inc(old(self).startup_probe_runs),
                log_lines: final(self).log_lines,
                ..*old(self)
            }),
    {
        self.startup_probe_runs = count_one(self.startup_probe_runs);
        let line = crate::text::joined("startup probe ", startup.summary.as_str());
        self.push_log(line.clone());
        line
    }

    /// Counts an inventory refresh, records its row counts, and logs them.
    pub fn record_inventory_snapshot(&mut self, snapshot: &InventorySnapshot) -> (r: String)
        ensures
            final(self).inventory_rows == snapshot.devices@.len(),
            final(self).inventory_startable_rows == startable_count(snapshot.devices@),
            final(self).inventory_blocked_rows == blocked_count(snapshot.devices@),
            r@ == "inventory snapshot total="@ + decimal(snapshot.devices@.len()) + " startable="@
                + decimal(startable_count(snapshot.devices@)) + " blocked="@ + decimal(
                blocked_count(snapshot.devices@),
            ),
            logged(*old(self), *final(self), r@),
            *final(self) == (DiagnosticsViewModel {
                inventory_refreshes: sat_inc(old(self).inventory_refreshes),
                inventory_rows: final(self).inventory_rows,
                inventory_startable_rows: final(self).inventory_startable_rows,
                inventory_blocked_rows: final(self).inventory_blocked_rows,
                log_lines: final(self).log_lines,
                ..*old(self)
            }),
    {
        self.inventory_refreshes = count_one(self.inventory_refreshes);
        let devices = &snapshot.devices;
        let n = devices.len();
        let mut startable: u64 = 0;
        let mut blocked: u64 = 0;
        let mut i: usize = 0;
        proof {
            lemma_counts_bounded(devices@);
        }
        while i < n
            invariant
                n == devices@.len(),
                i <= n,
                startable == startable_count(devices@.subrange(0, i as int)),
                blocked == blocked_count(devices@.subrange(0, i as int)),
                startable <= i,
                blocked <= i,
            decreases n - i,
        {
            assert(devices@.subrange(0, i + 1).drop_last() =~= devices@.subrange(0, i as int));
            match devices[i].sessionability {
                Sessionability::StartableWithPreferredPath | Sessionability::StartableWithFallback => {
                    startable = startable + 1;
                },
                _ => {
                    blocked = blocked + 1;
                },
            }
            i = i + 1;
        }
        assert(devices@.subrange(0, n as int) =~= devices@);
        self.inventory_rows = n as u64;
        self.inventory_startable_rows = startable;
        self.inventory_blocked_rows = blocked;
        let mut line = crate::text::owned("inventory snapshot total=");
        line.append(decimal_text(n as u64).as_str());
        line.append(" startable=");
        line.append(decimal_text(startable).as_str());
        line.append(" blocked=");
        line.append(decimal_text(blocked).as_str());
        self.push_log(line.clone());
        line
    }

    /// Counts a session start request and logs it.
    pub fn record_session_start_attempt(&mut self, device_id: &str, source_id: Option<&str>) -> (r:
        String)
        ensures
            r@ == "session start requested device="@ + device_id@ + " source="@ + or_text(
                str_opt(source_id),
                "auto"@,
            ),
            logged(*old(self), *final(self), r@),
            *final(self) == (DiagnosticsViewModel {
                session_start_attempts: sat_inc(old(self).session_start_attempts),
                log_lines: final(self).log_lines,
                ..*old(self)
            }),
    {
        self.session_start_attempts = count_one(self.session_start_attempts);
        let mut line = crate::text::owned("session start requested device=");
        line.append(device_id);
        line.append(" source=");
        line.append(text_or(source_id, "auto"));
        self.push_log(line.clone());
        line
    }

    /// Counts a successful session start and logs it.
    pub fn record_session_start_success(&mut self, device_id: &str, source_id: Option<&str>) -> (r:
        String)
        ensures
            r@ == "session start succeeded device="@ + device_id@ + " source="@ + or_text(
                str_opt(source_id),
                "auto"@,
            ),
            logged(*old(self), *final(self), r@),
            *final(self) == (DiagnosticsViewModel {
                session_start_successes: sat_inc(old(self).session_start_successes),
                log_lines: final(self).log_lines,
                ..*old(self)
            }),
    {
        self.session_start_successes = count_one(self.session_start_successes);
        let mut line = crate::text::owned("session start succeeded device=");
        line.append(device_id);
        line.append(" source=");
        line.append(text_or(source_id, "auto"));
        self.push_log(line.clone());
        line
    }

    /// Counts a failed session start and logs it with its error.
    pub fn record_session_start_failure(&mut self, device_id: Option<&str>, error: &str) -> (r:
        String)
        ensures
            r@ == "session start failed device="@ + or_text(str_opt(device_id), "none"@)
                + " error="@ + error@,
            logged(*old(self), *final(self), r@),
            *final(self) == (DiagnosticsViewModel {
                session_start_failures: sat_inc(old(self).session_start_failures),
                log_lines: final(self).log_lines,
                ..*old(self)
            }),
    {
        self.session_start_failures = count_one(self.session_start_failures);
        let mut line = crate::text::owned("session start failed device=");
        line.append(text_or(device_id, "none"));
        line.append(" error=");
        line.append(error);
        self.push_log(line.clone());
        line
    }

    /// The counters, one `name | value` line each.
    pub fn metric_lines(&self) -> (r: Vec<String>)
        ensures
            texts(r@) == seq![
                "startup probes | "@ + decimal(self.startup_probe_runs as nat),
                "inventory refreshes | "@ + decimal(self.inventory_refreshes as nat),
                "inventory rows | "@ + decimal(self.inventory_rows as nat),
                "inventory startable rows | "@ + decimal(self.inventory_startable_rows as nat),
                "inventory blocked rows | "@ + decimal(self.inventory_blocked_rows as nat),
                "session start attempts | "@ + decimal(self.session_start_attempts as nat),
                "session start successes | "@ + decimal(self.session_start_successes as nat),
                "session start failures | "@ + decimal(self.session_start_failures as nat),
            ],
    {
        let mut r: Vec<String> = Vec::new();
        r.push(crate::text::joined("startup probes | ", decimal_text(self.startup_probe_runs).as_str()));
        r.push(crate::text::joined("inventory refreshes | ", decimal_text(self.inventory_refreshes).as_str()));
        r.push(crate::text::joined("inventory rows | ", decimal_text(self.inventory_rows).as_str()));
        r.push(crate::text::joined("inventory startable rows | ", decimal_text(self.inventory_startable_rows).as_str()));
        r.push(crate::text::joined("inventory blocked rows | ", decimal_text(self.inventory_blocked_rows).as_str()));
        r.push(crate::text::joined("session start attempts | ", decimal_text(self.session_start_attempts).as_str()));
        r.push(crate::text::joined("session start successes | ", decimal_text(self.session_start_successes).as_str()));
        r.push(crate::text::joined("session start failures | ", decimal_text(self.session_start_failures).as_str()));
        assert(texts(r@) =~= seq![
            "startup probes | "@ + decimal(self.startup_probe_runs as nat),
            "inventory refreshes | "@ + decimal(self.inventory_refreshes as nat),
            "inventory rows | "@ + decimal(self.inventory_rows as nat),
            "inventory startable rows | "@ + decimal(self.inventory_startable_rows as nat),
            "inventory blocked rows | "@ + decimal(self.inventory_blocked_rows as nat),
            "session start attempts | "@ + decimal(self.session_start_attempts as nat),
            "session start successes | "@ + decimal(self.session_start_successes as nat),
            "session start failures | "@ + decimal(self.session_start_failures as nat),
        ]);
        r
    }

    /// Appends a line to the log, dropping the oldest lines beyond the last
    /// `MAX_LOG_LINES`.
    fn push_log(&mut self, message: String)
        ensures
            logged(*old(self), *final(self), message@),
            *final(self) == (DiagnosticsViewModel { log_lines: final(self).log_lines, ..*old(self) }),
    {
        let ghost all = texts(self.log_lines@).push(message@);
        self.log_lines.push(message);
        assert(texts(self.log_lines@) =~= all);
        while self.log_lines.len() > MAX_LOG_LINES
            invariant
                self.log_lines@.len() <= all.len(),
                all == texts(old(self).log_lines@).push(message@),
                all.len() > MAX_LOG_LINES ==> self.log_lines@.len() >= MAX_LOG_LINES,
                all.len() <= MAX_LOG_LINES ==> self.log_lines@.len() == all.len(),
                *self == (DiagnosticsViewModel { log_lines: self.log_lines, ..*old(self) }),
                texts(self.log_lines@) == all.subrange(
                    all.len() - self.log_lines@.len(),
                    all.len() as int,
                ),
            decreases self.log_lines@.len(),
        {
            let ghost before = self.log_lines@;
            self.log_lines.remove(0);
            assert(texts(self.log_lines@) =~= texts(before).subrange(1, before.len() as int));
        }
        proof {
            if all.len() <= MAX_LOG_LINES {
                assert(all.subrange(0, all.len() as int) =~= all);
            }
        }
    }
}

} // verus!
