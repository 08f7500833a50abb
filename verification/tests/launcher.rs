use host_desktop::panels::launcher::session_menu_row;
use host_desktop::view_models::fleet::FleetRow;

fn row(id: &str) -> FleetRow {
    FleetRow {
        device_id: id.into(),
        device_name: id.into(),
        evidence_badges: vec![],
        readiness_summary: "Startable".into(),
        start_enabled: true,
        operator_action: None,
        active_session: false,
    }
}

#[test]
fn session_menu_follows_session_then_selection_then_first_row() {
    let rows = vec![row("a"), row("b"), row("c")];
    assert_eq!(session_menu_row(&rows, Some("b"), Some("c")).as_deref(), Some("c"));
    assert_eq!(session_menu_row(&rows, Some("b"), Some("zz")).as_deref(), Some("b"));
    assert_eq!(session_menu_row(&rows, Some("zz"), None).as_deref(), Some("a"));
    assert_eq!(session_menu_row(&Vec::new(), Some("a"), Some("a")), None);
}
