//! What the startup probes of the runtime's plugins found, and how ready the
//! host is as a result.
use vstd::prelude::*;
use vstd::string::*;
use crate::protocol::{CaptureCapability, ControlCapability};
use super::model::PluginPaths;
use crate::text::decimal;
use crate::view_models::startup::{
    DirectReceiverViewModel, StartupItem, StartupReadiness, StartupViewModel,
};

verus! {

/// The characters of a startup item.
pub open spec fn item_is(item: StartupItem, label: Seq<char>, status: Seq<char>, detail: Seq<char>) -> bool {
    item.label@ == label && item.status@ == status && item.detail@ == detail
}

/// The text of an optional reason, or a stand-in.
pub open spec fn reason_or(reason: Option<String>, default: Seq<char>) -> Seq<char> {
    match reason {
        Some(r) => r@,
        None => default,
    }
}

/// The window-capture item from its probes: missing without its file;
/// blocked when the probe reports capture unavailable or no source; ready with
/// the number of sources found; an error when the probe failed.
pub open spec fn capture_item_ok(
    r: StartupItem,
    label: Seq<char>,
    path: Seq<char>,
    is_file: bool,
    probe: Option<Result<CaptureCapability, String>>,
    sources: Option<Result<usize, String>>,
) -> bool {
    &&& (!is_file ==> item_is(r, label, "Missing"@, path))
    &&& (is_file ==> match probe->0 {
        Err(e) => item_is(r, label, "Error"@, "capture probe failed: "@ + e@),
        Ok(c) => if !c.available {
            item_is(r, label, "Blocked"@, reason_or(c.reason, "capture probe reported unavailable"@))
        } else {
            match sources->0 {
                Ok(n) => if n > 0 {
                    item_is(r, label, "Ready"@, c.backend_id@ + " | "@ + decimal(n as nat)
                        + " source"@ + (if n == 1 { ""@ } else { "s"@ }) + " discovered"@)
                } else {
                    item_is(r, label, "Blocked"@, c.backend_id@ + " | no capture sources discovered"@)
                },
                Err(e) => item_is(r, label, "Blocked"@, c.backend_id@ + " | source listing failed: "@ + e@),
            }
        }
    })
}

/// A control item from its probe: missing without its file; ready with the
/// transport when control is supported; blocked with the probe's reason
/// otherwise; an error when the probe failed.
pub open spec fn control_item_ok(
    r: StartupItem,
    label: Seq<char>,
    path: Seq<char>,
    is_file: bool,
    probe: Option<Result<ControlCapability, String>>,
) -> bool {
    &&& (!is_file ==> item_is(r, label, "Missing"@, path))
    &&& (is_file ==> match probe->0 {
        Err(e) => item_is(r, label, "Error"@, "control probe failed: "@ + e@),
        Ok(c) => if c.supported {
            item_is(r, label, "Ready"@, c.transport@ + " | helper ready"@)
        } else {
            item_is(r, label, "Blocked"@, reason_or(c.reason, "control probe reported unavailable"@))
        }
    })
}

/// The direct receiver from its probe: missing without its file; available
/// when capture is available; blocked or an error otherwise.
pub open spec fn direct_receiver_ok(
    r: DirectReceiverViewModel,
    path: Seq<char>,
    is_file: bool,
    probe: Option<Result<CaptureCapability, String>>,
) -> bool {
    &&& (!is_file ==> !r.available && r.status@ == "Missing"@ && r.detail@ == path)
    &&& (is_file ==> match probe->0 {
        Err(e) => !r.available && r.status@ == "Error"@ && r.detail@ == "capture probe failed: "@ + e@,
        Ok(c) => if c.available {
            r.available && r.status@ == "Ready"@ && r.detail@ == c.backend_id@ + " | receiver ready"@
        } else {
            !r.available && r.status@ == "Blocked"@ && r.detail@ == reason_or(
                c.reason,
                "capture probe reported unavailable"@,
            )
        }
    })
}

/// The item of a plugin that was not probed: ready if its file exists,
/// missing otherwise; the path as detail.
pub fn item_for_path(label: &str, path: &str, is_file: bool) -> (r: StartupItem)
    ensures
        item_is(r, label@, if is_file { "Ready"@ } else { "Missing"@ }, path@),
{
    StartupItem {
        label: crate::text::owned(label),
        status: if is_file {
            crate::text::owned("Ready")
        } else {
            crate::text::owned("Missing")
        },
        detail: crate::text::owned(path),
    }
}

fn reason_text(reason: Option<String>, default: &str) -> (r: String)
    ensures
        r@ == reason_or(reason, default@),
{
    match reason {
        Some(r) => r,
        None => crate::text::owned(default),
    }
}

/// The window-capture item: missing without its file; blocked when the probe
/// reports capture unavailable or no source; ready with the number of sources
/// found; an error when the probe failed. `probe` is the capability probe's
/// result and `sources` the source count or listing error, taken only when
/// capture is available.
pub fn probe_capture_item(
    label: &str,
    path: &str,
    is_file: bool,
    probe: Option<Result<CaptureCapability, String>>,
    sources: Option<Result<usize, String>>,
) -> (r: StartupItem)
    requires
        is_file ==> probe is Some,
        is_file ==> (probe matches Some(Ok(c)) && c.available ==> sources is Some),
    ensures
        capture_item_ok(r, label@, path@, is_file, probe, sources),
{
    if !is_file {
        return item_for_path(label, path, is_file);
    }
    let probe = match probe {
        Some(p) => p,
        None => return item_for_path(label, path, is_file),
    };
    match probe {
        Err(error) => StartupItem {
            label: crate::text::owned(label),
            status: crate::text::owned("Error"),
            detail: crate::text::joined("capture probe failed: ", error.as_str()),
        },
        Ok(capability) => {
            if !capability.available {
                return StartupItem {
                    label: crate::text::owned(label),
                    status: crate::text::owned("Blocked"),
                    detail: reason_text(capability.reason, "capture probe reported unavailable"),
                };
            }
            let sources = match sources {
                Some(s) => s,
                None => return item_for_path(label, path, is_file),
            };
            match sources {
                Ok(n) => if n > 0 {
                    let mut detail = capability.backend_id.clone();
                    detail.append(" | ");
                    detail.append(crate::text::decimal_text(n as u64).as_str());
                    detail.append(" source");
                    detail.append(if n == 1 { "" } else { "s" });
                    detail.append(" discovered");
                    StartupItem {
                        label: crate::text::owned(label),
                        status: crate::text::owned("Ready"),
                        detail,
                    }
                } else {
                    StartupItem {
                        label: crate::text::owned(label),
                        status: crate::text::owned("Blocked"),
                        detail: crate::text::joined(
                            capability.backend_id.as_str(),
                            " | no capture sources discovered",
                        ),
                    }
                },
                Err(error) => StartupItem {
                    label: crate::text::owned(label),
                    status: crate::text::owned("Blocked"),
                    detail: crate::text::joined3(
                        capability.backend_id.as_str(),
                        " | source listing failed: ",
                        error.as_str(),
                    ),
                },
            }
        },
    }
}

/// A control item: missing without its file; ready with the transport when
/// the probe reports control supported; blocked with the probe's reason
/// otherwise; an error when the probe failed.
pub fn probe_control_item(
    label: &str,
    path: &str,
    is_file: bool,
    probe: Option<Result<ControlCapability, String>>,
) -> (r: StartupItem)
    requires
        is_file ==> probe is Some,
    ensures
        control_item_ok(r, label@, path@, is_file, probe),
{
    if !is_file {
        return item_for_path(label, path, is_file);
    }
    let probe = match probe {
        Some(p) => p,
        None => return item_for_path(label, path, is_file),
    };
    match probe {
        Ok(capability) => if capability.supported {
            StartupItem {
                label: crate::text::owned(label),
                status: crate::text::owned("Ready"),
                detail: crate::text::joined(capability.transport.as_str(), " | helper ready"),
            }
        } else {
            StartupItem {
                label: crate::text::owned(label),
                status: crate::text::owned("Blocked"),
                detail: reason_text(capability.reason, "control probe reported unavailable"),
            }
        },
        Err(error) => StartupItem {
            label: crate::text::owned(label),
            status: crate::text::owned("Error"),
            detail: crate::text::joined("control probe failed: ", error.as_str()),
        },
    }
}

/// The direct receiver: missing without its file; available when the probe
/// reports capture available; blocked or an error otherwise.
pub fn probe_direct_receiver(
    path: &str,
    is_file: bool,
    probe: Option<Result<CaptureCapability, String>>,
) -> (r: DirectReceiverViewModel)
    requires
        is_file ==> probe is Some,
    ensures
        direct_receiver_ok(r, path@, is_file, probe),
{
    let missing = DirectReceiverViewModel {
        available: false,
        status: crate::text::owned("Missing"),
        detail: crate::text::owned(path),
    };
    if !is_file {
        return missing;
    }
    let probe = match probe {
        Some(p) => p,
        None => return missing,
    };
    match probe {
        Ok(capability) => if capability.available {
            DirectReceiverViewModel {
                available: true,
                status: crate::text::owned("Ready"),
                detail: crate::text::joined(capability.backend_id.as_str(), " | receiver ready"),
            }
        } else {
            DirectReceiverViewModel {
                available: false,
                status: crate::text::owned("Blocked"),
                detail: reason_text(capability.reason, "capture probe reported unavailable"),
            }
        },
        Err(error) => DirectReceiverViewModel {
            available: false,
            status: crate::text::owned("Error"),
            detail: crate::text::joined("capture probe failed: ", error.as_str()),
        },
    }
}

/// How ready the host is: ready when capture (window capture ready, or the
/// direct receiver available) and control (BLE or the window input bridge
/// ready) both are; partial when one is; blocked otherwise.
pub open spec fn readiness_spec(capture_ready: bool, control_ready: bool) -> StartupReadiness {
    if capture_ready && control_ready {
        StartupReadiness::Ready
    } else if capture_ready || control_ready {
        StartupReadiness::Partial
    } else {
        StartupReadiness::Blocked
    }
}

/// The summary line of a readiness.
pub open spec fn summary_spec(readiness: StartupReadiness) -> Seq<char> {
    match readiness {
        StartupReadiness::Ready => "Ready: runtime components resolved"@,
        StartupReadiness::Partial => "Partial: some runtime components are unavailable"@,
        StartupReadiness::Blocked => "Blocked: no usable device path yet"@,
    }
}

/// The item is ready.
pub open spec fn is_ready(item: StartupItem) -> bool {
    item.status@ == "Ready"@
}

/// The startup pane from the probes' items: window capture, BLE control and
/// the window input bridge (and grounding, when it has a path), with the
/// readiness they add up to.
pub fn startup_from_plugin_paths(
    window_capture: StartupItem,
    ble_control: StartupItem,
    window_input_bridge: StartupItem,
    grounding: Option<StartupItem>,
    direct_receiver: DirectReceiverViewModel,
) -> (r: StartupViewModel)
    ensures
        r.readiness == readiness_spec(
            direct_receiver.available || is_ready(window_capture),
            is_ready(ble_control) || is_ready(window_input_bridge),
        ),
        r.summary@ == summary_spec(r.readiness),
        r.items@ == seq![window_capture, ble_control, window_input_bridge] + match grounding {
            Some(g) => seq![g],
            None => seq![],
        },
        r.direct_receiver == direct_receiver,
{
    let capture_ready = direct_receiver.available || crate::text::same_text(
        window_capture.status.as_str(),
        "Ready",
    );
    let control_ready = crate::text::same_text(ble_control.status.as_str(), "Ready")
        || crate::text::same_text(window_input_bridge.status.as_str(), "Ready");
    let readiness = if capture_ready && control_ready {
        StartupReadiness::Ready
    } else if capture_ready || control_ready {
        StartupReadiness::Partial
    } else {
        StartupReadiness::Blocked
    };
    let summary = match readiness {
        StartupReadiness::Ready => crate::text::owned("Ready: runtime components resolved"),
        StartupReadiness::Partial => crate::text::owned("Partial: some runtime components are unavailable"),
        StartupReadiness::Blocked => crate::text::owned("Blocked: no usable device path yet"),
    };
    let ghost g = grounding;
    let mut items: Vec<StartupItem> = Vec::new();
    items.push(window_capture);
    items.push(ble_control);
    items.push(window_input_bridge);
    if let Some(item) = grounding {
        items.push(item);
    }
    assert(items@ =~= seq![window_capture, ble_control, window_input_bridge] + match g {
        Some(x) => seq![x],
        None => seq![],
    });
    StartupViewModel { readiness, summary, items, direct_receiver }
}

/// What the startup probes of the plugins answered, as plain values: for
/// each plugin whether its file exists and what its probe returned (asked only
/// where the file exists), and the window-capture source count or listing
/// error (asked only where capture is available).
#[derive(Debug, PartialEq, Eq)]
pub struct StartupProbes {
    pub capture_exists: bool,
    pub capture_probe: Option<Result<CaptureCapability, String>>,
    pub capture_sources: Option<Result<usize, String>>,
    pub direct_exists: bool,
    pub direct_probe: Option<Result<CaptureCapability, String>>,
    pub ble_exists: bool,
    pub ble_probe: Option<Result<ControlCapability, String>>,
    pub bridge_exists: bool,
    pub bridge_probe: Option<Result<ControlCapability, String>>,
    pub grounding_exists: bool,
}

/// Each probe was asked where its file exists, and the sources were listed
/// where capture is available.
pub open spec fn probes_complete(p: StartupProbes) -> bool {
    &&& p.capture_exists ==> p.capture_probe is Some
    &&& p.capture_exists ==> (p.capture_probe matches Some(Ok(c)) && c.available ==> p.capture_sources is Some)
    &&& p.direct_exists ==> p.direct_probe is Some
    &&& p.ble_exists ==> p.ble_probe is Some
    &&& p.bridge_exists ==> p.bridge_probe is Some
}

/// The startup pane from the probes of the runtime's plugins: "Window
/// Capture", "BLE Control" and "Window Input Bridge" (and "Grounding" when it
/// has a path), each from its own probe, the direct receiver, and the
/// readiness and summary they add up to.
pub fn startup_from_probes(paths: &PluginPaths, probes: StartupProbes) -> (r: StartupViewModel)
    requires
        probes_complete(probes),
    ensures
        r.items@.len() == if paths.grounding is Some { 4int } else { 3int },
        capture_item_ok(
            r.items@[0],
            "Window Capture"@,
            paths.capture@,
            probes.capture_exists,
            probes.capture_probe,
            probes.capture_sources,
        ),
        control_item_ok(r.items@[1], "BLE Control"@, paths.control_ble@, probes.ble_exists, probes.ble_probe),
        control_item_ok(
            r.items@[2],
            "Window Input Bridge"@,
            paths.control_fallback@,
            probes.bridge_exists,
            probes.bridge_probe,
        ),
        paths.grounding matches Some(g) ==> item_is(
            r.items@[3],
            "Grounding"@,
            if probes.grounding_exists { "Ready"@ } else { "Missing"@ },
            g@,
        ),
        direct_receiver_ok(r.direct_receiver, paths.capture_direct@, probes.direct_exists, probes.direct_probe),
        r.readiness == readiness_spec(
            r.direct_receiver.available || is_ready(r.items@[0]),
            is_ready(r.items@[1]) || is_ready(r.items@[2]),
        ),
        r.summary@ == summary_spec(r.readiness),
{
    proof {
        reveal_strlit("Window Capture");
        reveal_strlit("BLE Control");
        reveal_strlit("Window Input Bridge");
        reveal_strlit("Grounding");
    }
    let window_capture = probe_capture_item(
        "Window Capture",
        paths.capture.as_str(),
        probes.capture_exists,
        probes.capture_probe,
        probes.capture_sources,
    );
    let ble = probe_control_item("BLE Control", paths.control_ble.as_str(), probes.ble_exists, probes.ble_probe);
    let bridge = probe_control_item(
        "Window Input Bridge",
        paths.control_fallback.as_str(),
        probes.bridge_exists,
        probes.bridge_probe,
    );
    let grounding = match &paths.grounding {
        Some(path) => Some(item_for_path("Grounding", path.as_str(), probes.grounding_exists)),
        None => None,
    };
    let direct = probe_direct_receiver(paths.capture_direct.as_str(), probes.direct_exists, probes.direct_probe);
    startup_from_plugin_paths(window_capture, ble, bridge, grounding, direct)
}

} // verus!
