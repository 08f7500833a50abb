//! The dashboard's device buttons.
use vstd::prelude::*;
use crate::ordered::texts;
use crate::view_models::fleet::{FleetRow, FleetRowView};

verus! {

/// The parts joined with `sep` between each two.
pub open spec fn join_spec(parts: Seq<Seq<char>>, sep: Seq<char>) -> Seq<char>
    decreases parts.len(),
{
    if parts.len() == 0 {
        seq![]
    } else if parts.len() == 1 {
        parts[0]
    } else {
        join_spec(parts.drop_last(), sep) + sep + parts.last()
    }
}

/// A row's button label: its name, its evidence badges and its readiness,
/// then `action required`, `active` and `selected` where they apply.
pub open spec fn row_label_spec(row: FleetRowView, selected: Option<Seq<char>>) -> Seq<char> {
    row.device_name + " | "@ + join_spec(row.evidence_badges, ", "@) + " | "@ + row.readiness_summary
        + if row.operator_action is Some { " | action required"@ } else { seq![] }
        + if row.active_session { " | active"@ } else { seq![] }
        + if selected == Some(row.device_id) { " | selected"@ } else { seq![] }
}

/// The parts joined with `sep` between each two.
pub fn join_texts(parts: &Vec<String>, sep: &str) -> (r: String)
    ensures
        r@ == join_spec(texts(parts@), sep@),
{
    let ghost views = texts(parts@);
    let mut r = String::new();
    let n = parts.len();
    let mut i: usize = 0;
    while i < n
        invariant
            n == parts@.len(),
            views == texts(parts@),
            i <= n,
            r@ == join_spec(views.subrange(0, i as int), sep@),
        decreases n - i,
    {
        if i > 0 {
            r.append(sep);
        }
        r.append(parts[i].as_str());
        proof {
            let next = views.subrange(0, i + 1);
            assert(next.drop_last() =~= views.subrange(0, i as int));
            assert(next.last() == parts@[i as int]@);
            if i == 0 {
                assert(views.subrange(0, 0) =~= seq![]);
                assert(next.len() == 1);
            }
        }
        i = i + 1;
    }
    assert(views.subrange(0, n as int) =~= views);
    r
}

/// The label of a row's button on the dashboard.
pub fn row_label(row: &FleetRow, selected_device_id: Option<&str>) -> (r: String)
    ensures
        r@ == row_label_spec(row@, crate::preferences::str_opt_view(selected_device_id)),
{
    let mut label = crate::text::joined(row.device_name.as_str(), " | ");
    let badges = join_texts(&row.evidence_badges, ", ");
    label.append(badges.as_str());
    label.append(" | ");
    label.append(row.readiness_summary.as_str());
    if row.operator_action.is_some() {
        label.append(" | action required");
    }
    if row.active_session {
        label.append(" | active");
    }
    let is_selected = match selected_device_id {
        Some(id) => crate::text::same_text(row.device_id.as_str(), id),
        None => false,
    };
    if is_selected {
        label.append(" | selected");
    }
    proof {
        let rv = row@;
        assert(label@ =~= row_label_spec(rv, crate::preferences::str_opt_view(selected_device_id)));
    }
    label
}

} // verus!
