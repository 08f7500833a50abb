//! Forwarding the preview's input events to the device, and describing them
//! for the host log.
use vstd::prelude::*;
use crate::preview::{event_views, EventView};
use crate::protocol::{ControlInputEvent, ControlSessionPhase, ExecutionSummary, MouseInputReport};
use crate::text::decimal;
use crate::view_models::diagnostics::DiagnosticsView;
use super::requests::{with_request, RequestView, RuntimeRequest};
use super::workspace::phase_name;
use super::{keeps_runtime, with_log_line, AppView, HostDesktopApp};

verus! {

/// An integer in decimal, with a minus sign when negative.
pub open spec fn signed_decimal(v: int) -> Seq<char> {
    if v < 0 {
        "-"@ + decimal((-v) as nat)
    } else {
        decimal(v as nat)
    }
}

/// A truth value as text.
pub open spec fn bool_text_spec(b: bool) -> Seq<char> {
    if b {
        "true"@
    } else {
        "false"@
    }
}

/// The fields of a mouse report.
pub open spec fn report_fields(m: MouseInputReport) -> Seq<char> {
    "buttons="@ + decimal(m.buttons as nat) + " dx="@ + signed_decimal(m.dx as int) + " dy="@
        + signed_decimal(m.dy as int) + " wheel="@ + signed_decimal(m.wheel as int)
}

/// The first reports of a sequence, at most `limit`, separated by commas.
pub open spec fn reports_preview(reports: Seq<MouseInputReport>, limit: int) -> Seq<char>
    decreases limit,
{
    if limit <= 0 || reports.len() == 0 {
        seq![]
    } else if limit == 1 || reports.len() == 1 {
        report_fields(reports[0])
    } else {
        reports_preview(reports, limit - 1) + ", "@ + report_fields(reports[limit - 1])
    }
}

/// One event described for the log.
pub open spec fn event_summary(e: EventView) -> Seq<char> {
    match e {
        EventView::Mouse(m) => "mouse "@ + report_fields(m),
        EventView::MouseSequence(reports) => "mouse-sequence reports="@ + decimal(reports.len())
            + " ["@ + reports_preview(reports, if reports.len() < 6 { reports.len() as int } else { 6 })
            + if reports.len() > 6 { ", ..."@ } else { ""@ } + "]"@,
        EventView::Keyboard(k) => "keyboard usage="@ + decimal(k.usage_id as nat) + " pressed="@
            + bool_text_spec(k.pressed) + " shift="@ + bool_text_spec(k.modifiers.shift) + " alt="@
            + bool_text_spec(k.modifiers.alt) + " ctrl="@ + bool_text_spec(k.modifiers.ctrl) + " meta="@
            + bool_text_spec(k.modifiers.meta),
        EventView::Text(t) => "text chars="@ + decimal(t.len()),
    }
}

/// Events described for the log, separated by semicolons.
pub open spec fn events_summary(events: Seq<EventView>) -> Seq<char>
    decreases events.len(),
{
    if events.len() == 0 {
        seq![]
    } else if events.len() == 1 {
        event_summary(events[0])
    } else {
        events_summary(events.drop_last()) + "; "@ + event_summary(events.last())
    }
}

fn bool_text(b: bool) -> (r: &'static str)
    ensures
        r@ == bool_text_spec(b),
{
    proof {
        reveal_strlit("true");
        reveal_strlit("false");
    }
    if b {
        "true"
    } else {
        "false"
    }
}

/// An integer in decimal, with a minus sign when negative.
pub fn signed_text(v: i64) -> (r: String)
    ensures
        r@ == signed_decimal(v as int),
{
    if v < 0 {
        let magnitude: u64 = if v == i64::MIN {
            9223372036854775808u64
        } else {
            (-v) as u64
        };
        crate::text::joined("-", crate::text::decimal_text(magnitude).as_str())
    } else {
        crate::text::decimal_text(v as u64)
    }
}

fn report_text(m: &MouseInputReport) -> (r: String)
    ensures
        r@ == report_fields(*m),
{
    let mut r = crate::text::joined("buttons=", crate::text::decimal_text(m.buttons as u64).as_str());
    r.append(" dx=");
    r.append(signed_text(m.dx as i64).as_str());
    r.append(" dy=");
    r.append(signed_text(m.dy as i64).as_str());
    r.append(" wheel=");
    r.append(signed_text(m.wheel as i64).as_str());
    r
}

fn event_text(e: &ControlInputEvent) -> (r: String)
    ensures
        r@ == event_summary(e@),
{
    match e {
        ControlInputEvent::Mouse(m) => crate::text::joined("mouse ", report_text(m).as_str()),
        ControlInputEvent::MouseSequence(reports) => {
            let n = reports.len();
            let limit: usize = if n < 6 { n } else { 6 };
            let mut preview = String::new();
            let mut i: usize = 0;
            while i < limit
                invariant
                    limit <= n,
                    n == reports@.len(),
                    i <= limit,
                    preview@ == reports_preview(reports@, i as int),
                decreases limit - i,
            {
                if i > 0 {
                    preview.append(", ");
                }
                preview.append(report_text(&reports[i]).as_str());
                i = i + 1;
            }
            let mut r = crate::text::joined("mouse-sequence reports=", crate::text::decimal_text(n as u64).as_str());
            r.append(" [");
            r.append(preview.as_str());
            if n > 6 {
                r.append(", ...");
            } else {
                r.append("");
            }
            r.append("]");
            r
        },
        ControlInputEvent::Keyboard(k) => {
            let mut r = crate::text::joined("keyboard usage=", crate::text::decimal_text(k.usage_id as u64).as_str());
            r.append(" pressed=");
            r.append(bool_text(k.pressed));
            r.append(" shift=");
            r.append(bool_text(k.modifiers.shift));
            r.append(" alt=");
            r.append(bool_text(k.modifiers.alt));
            r.append(" ctrl=");
            r.append(bool_text(k.modifiers.ctrl));
            r.append(" meta=");
            r.append(bool_text(k.modifiers.meta));
            r
        },
        ControlInputEvent::Text(t) => crate::text::joined(
            "text chars=",
            crate::text::decimal_text(t.as_str().unicode_len() as u64).as_str(),
        ),
    }
}

/// Describes events for the host log, one after the other.
pub fn preview_input_event_summary(events: &[ControlInputEvent]) -> (r: String)
    ensures
        r@ == events_summary(event_views(events@)),
{
    let ghost views = event_views(events@);
    let n = events.len();
    let mut r = String::new();
    let mut i: usize = 0;
    while i < n
        invariant
            n == events@.len(),
            views == event_views(events@),
            i <= n,
            r@ == events_summary(views.subrange(0, i as int)),
        decreases n - i,
    {
        assert(views.subrange(0, i + 1).drop_last() =~= views.subrange(0, i as int));
        assert(views.subrange(0, i + 1).last() == events@[i as int]@);
        if i > 0 {
            r.append("; ");
        } else {
            assert(views.subrange(0, 1)[0] == events@[0]@);
        }
        r.append(event_text(&events[i]).as_str());
        i = i + 1;
    }
    assert(views.subrange(0, n as int) =~= views);
    r
}

/// The log line of a forwarded batch.
pub open spec fn forwarding_line(events: Seq<EventView>) -> Seq<char> {
    "preview input forwarding "@ + decimal(events.len()) + " event(s): "@ + events_summary(events)
}

/// Forwarding the preview's events: logged when preview input logging is on;
/// nothing more without a selected device; a failure without a runtime;
/// otherwise the runtime is asked to forward them.
pub open spec fn forward_spec(s: AppView, events: Seq<EventView>, log: bool) -> AppView {
    let s1 = if log { with_log_line(s, forwarding_line(events)) } else { s };
    match s1.selected_device_id {
        None => s1,
        Some(dev) => if !s1.runtime_available {
            AppView {
                diagnostics: DiagnosticsView {
                    host_error: Some("Preview input failed: host runtime unavailable"@),
                    ..s1.diagnostics
                },
                ..s1
            }
        } else {
            with_request(s1, RequestView::Forward(dev, events))
        },
    }
}

/// The result of forwarding one event, with its texts as characters.
pub open spec fn outcome_view(o: Result<ExecutionSummary, String>) -> Result<(Seq<char>, ControlSessionPhase), Seq<char>> {
    match o {
        Ok(e) => Ok((e.summary@, e.phase)),
        Err(e) => Err(e@),
    }
}

/// Taking in the results of forwarding, in order, up to the first failure:
/// each success becomes the control summary (and is logged when preview input
/// logging is on); the first failure is shown and ends the batch. Gives the
/// state and whether a failure ended it.
pub open spec fn forward_results_spec(
    s: AppView,
    dev: Seq<char>,
    outcomes: Seq<Result<(Seq<char>, ControlSessionPhase), Seq<char>>>,
    log: bool,
) -> (AppView, bool)
    decreases outcomes.len(),
{
    if outcomes.len() == 0 {
        (s, false)
    } else {
        let (s1, stopped) = forward_results_spec(s, dev, outcomes.drop_last(), log);
        if stopped {
            (s1, true)
        } else {
            forward_step_spec(s1, dev, outcomes.last(), log)
        }
    }
}

/// Taking in the result of forwarding one event: a success becomes the
/// control summary (logged when preview input logging is on); a failure is
/// shown and ends the batch.
pub open spec fn forward_step_spec(
    s: AppView,
    dev: Seq<char>,
    outcome: Result<(Seq<char>, ControlSessionPhase), Seq<char>>,
    log: bool,
) -> (AppView, bool) {
    match outcome {
        Ok((summary, phase)) => {
            let s2 = if log {
                with_log_line(s, "preview input result: "@ + summary + " "@ + phase_name(phase))
            } else {
                s
            };
            (AppView { diagnostics: DiagnosticsView { control_summary: summary, ..s2.diagnostics }, ..s2 }, false)
        },
        Err(e) => (
            AppView {
                diagnostics: DiagnosticsView {
                    host_error: Some("Preview input failed for "@ + dev + ": "@ + e),
                    ..s.diagnostics
                },
                ..s
            },
            true,
        ),
    }
}

impl HostDesktopApp {
    /// Forwards the preview's events to the selected device.
    pub fn forward_preview_input(&mut self, events: Vec<ControlInputEvent>, preview_input_log: bool)
        ensures
            keeps_runtime(old(self)@, final(self)@),
            final(self)@ == forward_spec(old(self)@, event_views(events@), preview_input_log),
    {
        if preview_input_log {
            let mut line = crate::text::joined(
                "preview input forwarding ",
                crate::text::decimal_text(events.len() as u64).as_str(),
            );
            line.append(" event(s): ");
            line.append(preview_input_event_summary(events.as_slice()).as_str());
            self.log_line(line);
        }
        let device_id = match &self.selected_device_id {
            Some(d) => d.clone(),
            None => return,
        };
        if !self.runtime_available {
            self.diagnostics.host_error = Some(crate::text::owned("Preview input failed: host runtime unavailable"));
            return;
        }
        self.push_request(RuntimeRequest::Forward { device_id, events });
    }

    #[verifier::rlimit(60)]
    fn take_forward_outcome(
        &mut self,
        device_id: &str,
        outcome: &Result<ExecutionSummary, String>,
        preview_input_log: bool,
    ) -> (stopped: bool)
        ensures
            keeps_runtime(old(self)@, final(self)@),
            stopped == forward_step_spec(old(self)@, device_id@, outcome_view(*outcome), preview_input_log).1,
            final(self)@ == forward_step_spec(old(self)@, device_id@, outcome_view(*outcome), preview_input_log).0,
    {
        match outcome {
            Ok(summary) => {
                if preview_input_log {
                    let mut line = crate::text::joined("preview input result: ", summary.summary.as_str());
                    line.append(" ");
                    line.append(super::workspace::phase_label(summary.phase));
                    self.log_line(line);
                }
                self.diagnostics.control_summary = summary.summary.clone();
                false
            },
            Err(error) => {
                let mut message = crate::text::joined("Preview input failed for ", device_id);
                message.append(": ");
                message.append(error.as_str());
                self.diagnostics.host_error = Some(message);
                true
            },
        }
    }

    /// Takes in the results of forwarding a batch to the device, in order.
    pub fn finish_forward_input(
        &mut self,
        device_id: &str,
        outcomes: Vec<Result<ExecutionSummary, String>>,
        preview_input_log: bool,
    )
        ensures
            keeps_runtime(old(self)@, final(self)@),
            final(self)@ == forward_results_spec(
                old(self)@,
                device_id@,
                outcomes@.map_values(|o: Result<ExecutionSummary, String>| outcome_view(o)),
                preview_input_log,
            ).0,
    {
        let ghost views = outcomes@.map_values(|o: Result<ExecutionSummary, String>| outcome_view(o));
        let ghost s = self@;
        let n = outcomes.len();
        let mut stopped = false;
        let mut i: usize = 0;
        while i < n && !stopped
            invariant
                n == outcomes@.len(),
                views == outcomes@.map_values(|o: Result<ExecutionSummary, String>| outcome_view(o)),
                i <= n,
                (self@, stopped) == forward_results_spec(s, device_id@, views.subrange(0, i as int), preview_input_log),
                keeps_runtime(s, self@),
            decreases n - i,
        {
            assert(views.subrange(0, i + 1).drop_last() =~= views.subrange(0, i as int));
            assert(views.subrange(0, i + 1).last() == outcome_view(outcomes@[i as int]));
            let step = self.take_forward_outcome(device_id, &outcomes[i], preview_input_log);
            stopped = step;
            i = i + 1;
        }
        if stopped {
            proof {
                lemma_forward_stopped(s, device_id@, views, i as int, preview_input_log);
            }
        } else {
            assert(views.subrange(0, n as int) =~= views);
        }
    }
}

/// Once a failure ended the batch, later results change nothing.
proof fn lemma_forward_stopped(
    s: AppView,
    dev: Seq<char>,
    outcomes: Seq<Result<(Seq<char>, ControlSessionPhase), Seq<char>>>,
    k: int,
    log: bool,
)
    requires
        0 <= k <= outcomes.len(),
        forward_results_spec(s, dev, outcomes.subrange(0, k), log).1,
    ensures
        forward_results_spec(s, dev, outcomes, log) == forward_results_spec(s, dev, outcomes.subrange(0, k), log),
    decreases outcomes.len() - k,
{
    if k < outcomes.len() {
        assert(outcomes.subrange(0, k + 1).drop_last() =~= outcomes.subrange(0, k));
        lemma_forward_stopped(s, dev, outcomes, k + 1, log);
    } else {
        assert(outcomes.subrange(0, k) =~= outcomes);
    }
}

} // verus!
