//! What holds of the panels of the dashboard as a whole.
use crate::action;
use crate::action::ActionModel;
use crate::json::Number;
use crate::links::{GroupModel, RowModel};
use crate::model;
use crate::model::{Dashboard, DashboardModel, FcLink, Health, StepModel};
use crate::text;
use crate::ui;
use crate::ui::{Cell, CellModel, Paint, Span, SpanModel};
use crate::update;
use vstd::prelude::*;

verus! {

/// A chip that reads `text`, with a space on either side, in a colour.
pub open spec fn chip(text: Seq<char>, paint: Paint) -> SpanModel {
    SpanModel { text, paint, bold: false, chip: true }
}

/// Whether the vehicle is armed shows exactly as it is known: the row of the
/// link has the chip `ARMED`, in the colour of danger, when the vehicle is
/// armed, the chip `DISARMED`, in the colour of success, when it is not, and
/// neither of them while that is unknown.
pub proof fn law_the_armed_state_shows_as_it_is(m: DashboardModel)
    ensures
        ui::link_cell(m).contains(chip(" ARMED "@, Paint::Danger)) <==> m.armed == Some(true),
        ui::link_cell(m).contains(chip(" DISARMED "@, Paint::Success)) <==> m.armed == Some(
            false,
        ),
        forall|i: int|
            0 <= i < ui::link_cell(m).len() && (#[trigger] ui::link_cell(m)[i]).chip
                && ui::link_cell(m)[i].paint == Paint::Danger ==> m.armed == Some(true)
                && ui::link_cell(m)[i].text == " ARMED "@,
        forall|i: int|
            0 <= i < ui::link_cell(m).len() && (#[trigger] ui::link_cell(m)[i]).chip
                && ui::link_cell(m)[i].paint == Paint::Success ==> m.armed == Some(false)
                && ui::link_cell(m)[i].text == " DISARMED "@,
{
    lemma_chip_texts();
    let line = ui::link_cell(m);
    if m.armed is Some {
        let last = line[line.len() - 1];
        assert(line.contains(last));
        assert(last.chip);
    }
    assert forall|i: int| 0 <= i < line.len() && (#[trigger] line[i]).chip implies (line[i].paint
        == Paint::Accent && m.mode is Some) || (line[i] == chip(" ARMED "@, Paint::Danger)
        && m.armed == Some(true)) || (line[i] == chip(" DISARMED "@, Paint::Success) && m.armed
        == Some(false)) by {}
}

proof fn lemma_chip_texts()
    ensures
        " "@ + "ARMED"@ + " "@ == " ARMED "@,
        " "@ + "DISARMED"@ + " "@ == " DISARMED "@,
{
    reveal_strlit(" ");
    reveal_strlit("ARMED");
    reveal_strlit("DISARMED");
    reveal_strlit(" ARMED ");
    reveal_strlit(" DISARMED ");
    assert(" "@ + "ARMED"@ + " "@ =~= " ARMED "@);
    assert(" "@ + "DISARMED"@ + " "@ =~= " DISARMED "@);
}

/// The row of the link has a chip with the flight mode exactly where the mode
/// is known, and no other chip in its colour.
pub proof fn law_the_flight_mode_shows(m: DashboardModel)
    ensures
        m.mode is Some ==> ui::link_cell(m).contains(chip(" "@ + m.mode->0 + " "@, Paint::Accent)),
        forall|i: int|
            0 <= i < ui::link_cell(m).len() && (#[trigger] ui::link_cell(m)[i]).chip
                && ui::link_cell(m)[i].paint == Paint::Accent ==> m.mode is Some
                && ui::link_cell(m)[i].text == " "@ + m.mode->0 + " "@,
{
    let line = ui::link_cell(m);
    if m.mode is Some {
        assert(line[3] == chip(" "@ + m.mode->0 + " "@, Paint::Accent));
    }
}

/// The row of the link begins with what is known of the flight controller:
/// green while it is connected, the accent while it speaks MSP, a warning while
/// only its port is open, and danger while there is none.
pub proof fn law_the_link_shows_as_it_is(m: DashboardModel)
    ensures
        ({
            let line = ui::link_cell(m);
            let open = m.transport_open == Some(true) && m.mavlink_alive == Some(false);
            &&& line.len() >= 2
            &&& line[0].text == "● "@
            &&& line[1].bold && line[1].paint == Paint::Heading
            &&& (line[0].paint == Paint::Success <==> m.mavlink_connected)
            &&& (line[0].paint == Paint::Accent <==> !m.mavlink_connected && open && m.fc_variant
                is Some)
            &&& (line[0].paint == Paint::Warning <==> !m.mavlink_connected && open && m.fc_variant
                is None)
            &&& (line[0].paint == Paint::Danger <==> !m.mavlink_connected && !open)
            &&& m.mavlink_connected ==> line[1].text == "FC connected"@
            &&& !m.mavlink_connected && open && m.fc_variant is Some ==> line[1].text == "FC: "@
                + m.fc_variant->0 + " (MSP)"@
            &&& !m.mavlink_connected && open && m.fc_variant is None ==> line[1].text
                == "port open · no MAVLink"@
            &&& !m.mavlink_connected && !open ==> line[1].text == "FC not connected"@
        }),
{
}

/// What is said about the link: a node without a flight controller says so and
/// what to do, an MSP flight controller that MAVLink telemetry does not apply,
/// and otherwise the router's hint shows, with its underscores as spaces.
pub proof fn law_the_note_fits_the_link(m: DashboardModel)
    ensures
        model::link_state(m) == FcLink::Msp ==> ui::link_note(m) == Some(
            "MSP flight controller · MAVLink telemetry N/A"@,
        ),
        model::link_state(m) == FcLink::Down ==> ui::link_note(m) == Some(
            "No flight controller detected on USB/serial — connect the FC over USB, then [r] refresh (or [l] logs)."@,
        ),
        model::link_state(m) == FcLink::Connected || model::link_state(m) == FcLink::PortOpen ==> (
        ui::link_note(m) is Some <==> m.fc_link_hint is Some),
        m.mavlink_connected && m.fc_link_hint is Some ==> (ui::link_note(m)->0).len()
            == m.fc_link_hint->0.len() && forall|i: int|
            0 <= i < (ui::link_note(m)->0).len() ==> #[trigger] (ui::link_note(m)->0)[i] == (
            if m.fc_link_hint->0[i] == '_' {
                ' '
            } else {
                m.fc_link_hint->0[i]
            }),
{
    if m.mavlink_connected && m.fc_link_hint is Some {
        lemma_underscores(m.fc_link_hint->0);
    }
}

proof fn lemma_underscores(s: Seq<char>)
    ensures
        text::replaced(s, '_', " "@).len() == s.len(),
        forall|i: int|
            0 <= i < s.len() ==> #[trigger] text::replaced(s, '_', " "@)[i] == (if s[i] == '_' {
                ' '
            } else {
                s[i]
            }),
    decreases s.len(),
{
    reveal_strlit(" ");
    if s.len() > 0 {
        lemma_underscores(s.drop_last());
        let before = text::replaced(s.drop_last(), '_', " "@);
        assert forall|i: int| 0 <= i < s.len() implies #[trigger] text::replaced(s, '_', " "@)[i]
            == (if s[i] == '_' {
            ' '
        } else {
            s[i]
        }) by {
            if i < before.len() {
                assert(before[i] == text::replaced(s, '_', " "@)[i]);
                assert(s.drop_last()[i] == s[i]);
            }
        }
    }
}

/// The serial endpoint shows first, dim, and then the note, with a gap between
/// them where both are there.
pub proof fn law_the_detail_row(m: DashboardModel)
    ensures
        ui::detail_cell(m).len() == 0 <==> m.fc_port is None && ui::link_note(m) is None,
        m.fc_port is Some ==> ui::detail_cell(m)[0] == ui::dim_span((model::endpoint_text(m))->0)
            && m.fc_port->0.is_prefix_of((model::endpoint_text(m))->0),
        ui::link_note(m) is Some ==> ui::detail_cell(m).last() == ui::dim_span(ui::link_note(m)->0),
        m.fc_port is Some && ui::link_note(m) is Some ==> ui::detail_cell(m).len() == 3,
        m.fc_port is Some && m.fc_baud is Some ==> model::endpoint_text(m) == Some(
            m.fc_port->0 + " · "@ + text::signed_decimal(m.fc_baud->0 as int),
        ),
        m.fc_port is Some && m.fc_baud is None ==> model::endpoint_text(m) == m.fc_port,
{
    if m.fc_port is Some {
        let e = model::endpoint_text(m)->0;
        assert(m.fc_port->0 =~= e.subrange(0, m.fc_port->0.len() as int));
    }
}

/// A battery above a half is green, one above a fifth a warning, and any other
/// a danger.
pub proof fn law_the_colour_of_a_battery(n: Number)
    ensures
        n matches Number::Unsigned(u) ==> (ui::battery_paint(n) == Paint::Success <==> u > 50) && (
        ui::battery_paint(n) == Paint::Warning <==> 20 < u <= 50) && (ui::battery_paint(n)
            == Paint::Danger <==> u <= 20),
        n matches Number::Negative(i) ==> (i <= 0 ==> ui::battery_paint(n) == Paint::Danger),
        n matches Number::Real(b) ==> (ui::battery_paint(n) == Paint::Success <==> 0x4049_0000_0000_0000
            < b <= 0x7ff0_0000_0000_0000) && (ui::battery_paint(n) == Paint::Warning
            <==> 0x4034_0000_0000_0000 < b <= 0x4049_0000_0000_0000),
{
}

/// The autopilot panel begins with the row of the link. A ground station
/// without a flight controller has no such panel and says so.
pub proof fn law_the_autopilot_panel_begins_with_the_link(
    m: DashboardModel,
    battery_samples: nat,
    alt_samples: nat,
)
    ensures
        ({
            let cells = ui::autopilot_cells(m, battery_samples, alt_samples);
            let absent = m.profile == "ground_station"@ && !m.mavlink_connected;
            &&& absent ==> cells == seq![
                CellModel::Line(seq![ui::dim_span("no autopilot (ground station)"@)]),
            ]
            &&& !absent ==> cells[0] == CellModel::Line(ui::link_cell(m))
            &&& !absent && ui::detail_cell(m).len() > 0 ==> cells.contains(
                CellModel::Line(ui::detail_cell(m)),
            )
        }),
{
    let cells = ui::autopilot_cells(m, battery_samples, alt_samples);
    if !(m.profile == "ground_station"@ && !m.mavlink_connected) {
        if ui::detail_cell(m).len() > 0 {
            assert(cells[1] == CellModel::Line(ui::detail_cell(m)));
        }
    }
}

/// The panel has a battery gauge exactly where a charge is known, of that
/// charge and in its colour, and a trend of it from two samples on.
pub proof fn law_the_battery_gauge(m: DashboardModel, battery_samples: nat, alt_samples: nat)
    requires
        m.profile != "ground_station"@ || m.mavlink_connected,
    ensures
        ({
            let cells = ui::autopilot_cells(m, battery_samples, alt_samples);
            &&& m.battery is Some ==> cells.contains(
                CellModel::Gauge(m.battery->0, ui::battery_paint(m.battery->0)),
            )
            &&& forall|i: int|
                0 <= i < cells.len() && #[trigger] cells[i] is Gauge ==> m.battery is Some
            &&& m.battery is Some && battery_samples >= 2 ==> cells.contains(
                CellModel::BatteryTrend(ui::battery_paint(m.battery->0)),
            )
            &&& forall|i: int|
                0 <= i < cells.len() && #[trigger] cells[i] is BatteryTrend ==> m.battery is Some
                    && battery_samples >= 2
        }),
{
    let cells = ui::autopilot_cells(m, battery_samples, alt_samples);
    if m.battery is Some {
        let k: int = if ui::detail_cell(m).len() > 0 {
            2
        } else {
            1
        };
        assert(cells[k] == CellModel::Gauge(m.battery->0, ui::battery_paint(m.battery->0)));
        if battery_samples >= 2 {
            assert(cells[k + 1] == CellModel::BatteryTrend(ui::battery_paint(m.battery->0)));
        }
    }
}

/// The panel has a row of the fix, the satellites and the altitude exactly
/// where one of them is known, and a trend of the altitude from two samples on.
pub proof fn law_the_navigation_row(m: DashboardModel, battery_samples: nat, alt_samples: nat)
    requires
        m.profile != "ground_station"@ || m.mavlink_connected,
    ensures
        ({
            let cells = ui::autopilot_cells(m, battery_samples, alt_samples);
            let known = m.gps_fix is Some || m.satellites is Some || m.alt is Some;
            &&& known ==> cells.contains(CellModel::Nav(ui::nav_cell(m), m.alt))
            &&& forall|i: int| 0 <= i < cells.len() && #[trigger] cells[i] is Nav ==> known
            &&& m.alt is Some && alt_samples >= 2 ==> cells.contains(
                CellModel::AltTrend(Paint::Accent),
            )
            &&& forall|i: int|
                0 <= i < cells.len() && #[trigger] cells[i] is AltTrend ==> m.alt is Some
                    && alt_samples >= 2
            &&& m.gps_fix is Some ==> ui::nav_cell(m)[0] == ui::dim_span("GPS "@) && ui::nav_cell(
                m,
            )[1] == ui::bright_span(m.gps_fix->0)
            &&& m.satellites is Some ==> ui::nav_cell(m)[ui::nav_cell(m).len() - 3]
                == ui::dim_span("sats "@) && ui::nav_cell(m)[ui::nav_cell(m).len() - 2]
                == ui::bright_span(text::signed_decimal(m.satellites->0 as int))
        }),
{
    let cells = ui::autopilot_cells(m, battery_samples, alt_samples);
    let front = seq![CellModel::Line(ui::link_cell(m))] + ui::cell_if(
        ui::detail_cell(m).len() > 0,
        CellModel::Line(ui::detail_cell(m)),
    ) + (match m.battery {
        Some(b) => seq![CellModel::Gauge(b, ui::battery_paint(b))] + ui::cell_if(
            battery_samples >= 2,
            CellModel::BatteryTrend(ui::battery_paint(b)),
        ),
        None => Seq::empty(),
    });
    let k = front.len() as int;
    if m.gps_fix is Some || m.satellites is Some || m.alt is Some {
        assert(cells[k] == CellModel::Nav(ui::nav_cell(m), m.alt));
        if m.alt is Some && alt_samples >= 2 {
            assert(cells[k + 1] == CellModel::AltTrend(Paint::Accent));
        }
    }
}

/// The header names the node and its profile once they are known, says when
/// the picture was refreshed, and warns exactly while the picture is stale.
pub proof fn law_the_header_names_the_node(
    d: Option<DashboardModel>,
    refreshed: Seq<char>,
    stale: bool,
)
    ensures
        ui::header_left_line(d)[1].text == "ADOS"@,
        d is Some ==> ui::header_left_line(d).last() == ui::bright_span(
            d->0.device_name + " · "@ + d->0.profile,
        ),
        d is None ==> ui::header_left_line(d).last() == ui::dim_span("connecting"@),
        ui::header_right_line(d, refreshed, stale).contains(
            ui::dim_span("refreshed "@ + refreshed + " UTC"@),
        ),
        d is Some ==> ui::header_right_line(d, refreshed, stale)[0].text == "v"@ + d->0.version
            + "  ·  "@,
        stale ==> ui::header_right_line(d, refreshed, stale).contains(
            ui::tint_span("  stale"@, Paint::Warning),
        ),
        forall|i: int|
            0 <= i < ui::header_right_line(d, refreshed, stale).len() && (
            #[trigger] ui::header_right_line(d, refreshed, stale)[i]).paint == Paint::Warning
                ==> stale,
{
    let line = ui::header_right_line(d, refreshed, stale);
    let k: int = if d is Some {
        1
    } else {
        0
    };
    assert(line[k] == ui::dim_span("refreshed "@ + refreshed + " UTC"@));
    if stale {
        assert(line[k + 1] == ui::tint_span("  stale"@, Paint::Warning));
    }
}

/// The verdict is green exactly on a healthy node and a warning on any other,
/// in one colour throughout; what it says of the pairing stands under it.
pub proof fn law_the_verdict_shows_in_its_colour(m: DashboardModel)
    ensures
        ({
            let lines = ui::verdict_lines(Some(m));
            let h = model::verdict(m);
            &&& lines.len() == 2
            &&& (lines[0][0].paint == Paint::Success <==> h == Health::Healthy)
            &&& h != Health::Healthy ==> lines[0][0].paint == Paint::Warning
            &&& lines[0][1].paint == lines[0][0].paint
            &&& (lines[0][1].bold <==> h != Health::Setup)
            &&& h == Health::Healthy ==> lines[0][1].text == "HEALTHY"@ && lines[0][0].text
                == "●"@ + " "@
            &&& h == Health::Degraded ==> lines[0][1].text == "DEGRADED"@ && lines[0][0].text
                == "▲"@ + " "@
            &&& h == Health::Setup ==> lines[0][1].text == "SETUP"@ && lines[0][0].text == "●"@
                + " "@
            &&& lines[1] == seq![ui::dim_span(model::summary_text(m))]
            &&& ui::verdict_lines(None) == seq![seq![ui::dim_span("· · ·"@)]]
        }),
{
}

/// A key stands in brackets before what it does.
pub proof fn law_key_hints(key: Seq<char>, label: Seq<char>)
    ensures
        ui::hint_spans(key, label).len() == 2,
        ui::hint_spans(key, label)[0] == ui::tint_span("["@ + key + "] "@, Paint::Accent),
        ui::hint_spans(key, label)[1] == ui::dim_span(label + "  "@),
{
}

/// The footer hints at every action that has a key, and at no other.
pub proof fn law_every_key_is_hinted_at(actions: Seq<ActionModel>, i: int)
    requires
        0 <= i < actions.len(),
    ensures
        actions[i].key is Some ==> ui::action_hints(actions).contains(
            ui::tint_span("["@ + seq![actions[i].key->0] + "] "@, Paint::Accent),
        ) && ui::action_hints(actions).contains(ui::dim_span(actions[i].short + "  "@)),
        ui::action_hints(actions).len() <= 2 * actions.len(),
    decreases actions.len(),
{
    let before = ui::action_hints(actions.drop_last());
    let all = ui::action_hints(actions);
    lemma_hints_bound(actions);
    if i < actions.len() - 1 {
        law_every_key_is_hinted_at(actions.drop_last(), i);
        assert(actions.drop_last()[i] == actions[i]);
        if actions[i].key is Some {
            let a = ui::tint_span("["@ + seq![actions[i].key->0] + "] "@, Paint::Accent);
            let b = ui::dim_span(actions[i].short + "  "@);
            let x = choose|x: int| 0 <= x < before.len() && before[x] == a;
            let y = choose|y: int| 0 <= y < before.len() && before[y] == b;
            assert(all[x] == a && all[y] == b);
        }
    } else if actions[i].key is Some {
        assert(all[before.len() as int] == ui::tint_span(
            "["@ + seq![actions[i].key->0] + "] "@,
            Paint::Accent,
        ));
        assert(all[before.len() as int + 1] == ui::dim_span(actions[i].short + "  "@));
    }
}

proof fn lemma_hints_bound(actions: Seq<ActionModel>)
    ensures
        ui::action_hints(actions).len() <= 2 * actions.len(),
    decreases actions.len(),
{
    if actions.len() > 0 {
        lemma_hints_bound(actions.drop_last());
    }
}

/// The footer begins with the actions and ends with the list of actions, the
/// refresh and the way out; the key of the update stands between them exactly
/// while a newer version is known.
pub proof fn law_the_footer_ends_with_the_way_out(
    d: Option<DashboardModel>,
    latest: Option<Seq<char>>,
)
    ensures
        ({
            let line = ui::footer_left_line(d, latest);
            let n = line.len();
            let hints = ui::action_hints(action::action_table());
            &&& hints.is_prefix_of(line)
            &&& line.skip(n - 6) == ui::hint_spans("a"@, "actions"@) + ui::hint_spans(
                "r"@,
                "refresh"@,
            ) + ui::hint_spans("q"@, "quit"@)
            &&& ui::update_known(d, latest) ==> n == hints.len() + 8 && line.subrange(
                n - 8,
                n - 6,
            ) == ui::hint_spans("u"@, "update"@)
            &&& !ui::update_known(d, latest) ==> n == hints.len() + 6
        }),
{
    let line = ui::footer_left_line(d, latest);
    let n = line.len();
    let hints = ui::action_hints(action::action_table());
    assert(hints =~= line.subrange(0, hints.len() as int));
    assert(line.skip(n - 6) =~= ui::hint_spans("a"@, "actions"@) + ui::hint_spans(
        "r"@,
        "refresh"@,
    ) + ui::hint_spans("q"@, "quit"@));
    if ui::update_known(d, latest) {
        assert(line.subrange(n - 8, n - 6) =~= ui::hint_spans("u"@, "update"@));
    }
}

/// An update is offered exactly when both versions are known and the released
/// one is newer.
pub proof fn law_when_an_update_is_offered(d: Option<DashboardModel>, latest: Option<Seq<char>>)
    ensures
        ui::update_known(d, latest) <==> d is Some && latest is Some && update::newer(
            latest->0,
            d->0.version,
        ),
        d is Some ==> ui::footer_right_line(d, latest)[0] == ui::dim_span("v"@ + d->0.version),
        d is None ==> ui::footer_right_line(d, latest).len() == 0,
        d is Some && latest is None ==> ui::footer_right_line(d, latest).len() == 1,
        d is Some && latest is Some ==> ui::footer_right_line(d, latest).len() == 2
            && ui::footer_right_line(d, latest)[1] == (if ui::update_known(d, latest) {
            ui::tint_span("  ·  update available → ados update"@, Paint::Warning)
        } else {
            ui::dim_span("  ·  up to date"@)
        }),
{
}

/// The overlay lists every action in its order, the selected one marked, and
/// those that ask first are marked as such.
pub proof fn law_the_overlay_lists_every_action(selected: int, i: int)
    requires
        0 <= i < action::action_table().len(),
    ensures
        ({
            let a = action::action_table()[i];
            let line = ui::overlay_lines(selected)[i];
            &&& ui::overlay_lines(selected).len() == 10
            &&& (line[0].text == "› "@ <==> i == selected)
            &&& i != selected ==> line[0].text == "  "@
            &&& (line[1].paint == Paint::Accent <==> i == selected)
            &&& line[1].text == text::padded(a.label, 27)
            &&& line[2] == ui::dim_span(a.desc)
            &&& (line.len() == 4 <==> a.confirm)
            &&& a.confirm ==> line[3] == ui::dim_span("  (confirm)"@)
            &&& ui::overlay_lines(selected)[9] == seq![
                ui::dim_span("↑↓ select · Enter run · Esc close"@),
            ]
        }),
{
    reveal_strlit("› ");
    reveal_strlit("  ");
    assert("› "@[0] != "  "@[0]);
}

/// The splash goes from the installed version to the released one, and says
/// which key takes it.
pub proof fn law_the_splash_names_both_versions(installed: Seq<char>, latest: Seq<char>)
    ensures
        ui::splash_lines(installed, latest).len() == 4,
        ui::splash_lines(installed, latest)[1] == seq![
            ui::dim_span("v"@ + installed),
            ui::tint_span("  →  "@, Paint::Accent),
            ui::bright_span("v"@ + latest),
        ],
        ui::splash_lines(installed, latest)[3][0].text == "[u] "@,
        ui::splash_lines(installed, latest)[3][1].text == "update now"@,
{
}

/// A link shows its address, dim where it is a loopback one and bright
/// elsewhere, and has a dot behind it exactly where it is the primary one and
/// leads elsewhere.
pub proof fn law_a_link_shows_its_address(row: RowModel)
    ensures
        ui::link_line(row)[0].text == "➜ "@,
        ui::link_line(row)[1].text == row.url,
        ui::link_line(row)[0].paint == Paint::Muted <==> row.loopback,
        ui::link_line(row)[1].paint == Paint::Muted <==> row.loopback,
        ui::link_line(row)[1].bold <==> !row.loopback,
        ui::link_line(row).len() == 3 <==> row.primary && !row.loopback,
        row.primary && !row.loopback ==> ui::link_line(row)[2] == ui::tint_span(
            "  ●"@,
            Paint::Accent,
        ),
        ui::link_line(row).len() == 2 || ui::link_line(row).len() == 3,
{
}

/// Every group shows its title and each of its links.
pub proof fn law_every_group_shows(groups: Seq<GroupModel>, g: int, r: int)
    requires
        0 <= g < groups.len(),
        0 <= r < groups[g].rows.len(),
    ensures
        ui::all_group_lines(groups).contains(
            seq![ui::tint_span(groups[g].title, Paint::Heading)],
        ),
        ui::all_group_lines(groups).contains(ui::link_line(groups[g].rows[r])),
        groups[g].desc.len() > 0 ==> ui::all_group_lines(groups).contains(
            seq![ui::dim_span(groups[g].desc)],
        ),
    decreases groups.len(),
{
    let all = ui::all_group_lines(groups);
    let before = ui::all_group_lines(groups.drop_last());
    if g < groups.len() - 1 {
        law_every_group_shows(groups.drop_last(), g, r);
        assert(groups.drop_last()[g] == groups[g]);
        assert forall|x: Seq<SpanModel>| #[trigger] before.contains(x) implies all.contains(x) by {
            let k = choose|k: int| 0 <= k < before.len() && before[k] == x;
            assert(all[k] == x);
        }
    } else {
        let own = ui::group_lines(groups[g]);
        let start = all.len() - own.len();
        let rows = ui::row_lines(groups[g].rows);
        assert(all[start] == own[0]);
        assert(rows[r] == ui::link_line(groups[g].rows[r]));
        assert(all[all.len() - rows.len() + r] == rows[r]);
        if groups[g].desc.len() > 0 {
            assert(all[start + 1] == own[1]);
        }
    }
}

/// Groups are counted line by line: a title each, a description where there is
/// one, the links, and an empty line between neighbours. So nothing else shows.
pub proof fn law_groups_show_nothing_else(groups: Seq<GroupModel>, g: GroupModel)
    ensures
        ui::all_group_lines(seq![g]) == ui::group_lines(g),
        ui::group_lines(g).len() == 1 + (if g.desc.len() > 0 {
            1int
        } else {
            0int
        }) + g.rows.len(),
        groups.len() > 0 ==> ui::all_group_lines(groups.push(g)) == ui::all_group_lines(groups)
            + seq![seq![ui::plain_span(""@)]] + ui::group_lines(g),
{
    assert(seq![g].drop_last() =~= Seq::<GroupModel>::empty());
    assert(ui::all_group_lines(Seq::<GroupModel>::empty()) =~= Seq::<Seq<SpanModel>>::empty());
    assert(ui::all_group_lines(seq![g]) =~= ui::group_lines(g));
    assert(groups.push(g).drop_last() =~= groups);
}

/// The links panel says that there are no links exactly where there are none,
/// and otherwise ends with the two words of advice.
pub proof fn law_the_links_panel(m: DashboardModel)
    ensures
        ui::shown_groups(m).len() == 0 ==> ui::links_lines(m) == seq![
            seq![ui::dim_span("no links advertised yet"@)],
        ],
        ui::shown_groups(m).len() > 0 ==> ui::all_group_lines(ui::shown_groups(m)).is_prefix_of(
            ui::links_lines(m),
        ) && ui::links_lines(m).len() == ui::all_group_lines(ui::shown_groups(m)).len() + 3,
{
    if ui::shown_groups(m).len() > 0 {
        let a = ui::all_group_lines(ui::shown_groups(m));
        assert(a =~= ui::links_lines(m).subrange(0, a.len() as int));
    }
}

/// A video that runs is green, one of which nothing is known dim, and any other
/// state a warning.
pub proof fn law_the_colour_of_a_video(state: Seq<char>)
    ensures
        ui::video_paint(state) == Paint::Success <==> state == "running"@ || state
            == "streaming"@,
        ui::video_paint(state) == Paint::Muted <==> state.len() == 0 || state == "unknown"@,
        ui::video_paint(state) == Paint::Success || ui::video_paint(state) == Paint::Muted
            || ui::video_paint(state) == Paint::Warning,
{
    reveal_strlit("");
    reveal_strlit("running");
    reveal_strlit("streaming");
    reveal_strlit("unknown");
    assert("running"@[0] == 'r' && "streaming"@[0] == 's' && "unknown"@[0] == 'u');
    if state.len() == 0 {
        assert(state =~= ""@);
    }
}

/// The cloud relay is green exactly where the node is paired through it, a
/// warning where it is configured and not paired, and dim elsewhere.
pub proof fn law_the_colour_of_the_relay(paired: bool, backend: Seq<char>, mode: Seq<char>)
    ensures
        ui::cloud_paint(model::relay_line(paired, backend, mode)) == Paint::Success <==> paired
            && backend.len() > 0,
        ui::cloud_paint(model::relay_line(paired, backend, mode)) == Paint::Warning <==> !paired
            && backend.len() > 0 && mode != "local"@,
        ui::cloud_paint(model::relay_line(paired, backend, mode)) != Paint::Success
            && ui::cloud_paint(model::relay_line(paired, backend, mode)) != Paint::Warning
            ==> ui::cloud_paint(model::relay_line(paired, backend, mode)) == Paint::Muted,
{
    reveal_strlit("paired");
    reveal_strlit("paired (");
    reveal_strlit("configured");
    reveal_strlit("configured (");
    reveal_strlit(")");
    reveal_strlit("disabled (local mode)");
    reveal_strlit("not configured");
    let line = model::relay_line(paired, backend, mode);
    if paired && backend.len() > 0 {
        assert("paired"@ =~= line.subrange(0, 6));
    } else if backend.len() > 0 && mode != "local"@ {
        assert("configured"@ =~= line.subrange(0, 10));
        assert(line[0] == 'c');
    } else {
        assert(line[0] == 'd' || line[0] == 'n');
    }
    assert("paired"@[0] == 'p' && "configured"@[0] == 'c');
    if "paired"@.is_prefix_of(line) {
        assert(line.subrange(0, 6)[0] == line[0]);
    }
    if "configured"@.is_prefix_of(line) {
        assert(line.subrange(0, 10)[0] == line[0]);
    }
}

/// Remote access is green in the four states in which it works, dim in those in
/// which it is off, and a warning in any other.
pub proof fn law_the_colour_of_remote_access(value: Seq<char>)
    ensures
        ui::remote_paint(value) == Paint::Success <==> value == "running"@ || value
            == "connected"@ || value == "enabled"@ || value == "up"@,
        ui::remote_paint(value) == Paint::Muted <==> value.len() == 0 || value == "disabled"@
            || value == "off"@ || value == "stopped"@ || value == "unknown"@,
        ui::remote_paint(value) == Paint::Success || ui::remote_paint(value) == Paint::Muted
            || ui::remote_paint(value) == Paint::Warning,
{
    reveal_strlit("");
    reveal_strlit("running");
    reveal_strlit("connected");
    reveal_strlit("enabled");
    reveal_strlit("up");
    reveal_strlit("disabled");
    reveal_strlit("off");
    reveal_strlit("stopped");
    reveal_strlit("unknown");
    assert("running"@[0] == 'r' && "connected"@[0] == 'c' && "enabled"@[0] == 'e' && "up"@[0] == 'u'
        && "disabled"@[0] == 'd' && "off"@[0] == 'o' && "stopped"@[0] == 's' && "unknown"@[0]
        == 'u' && "up"@.len() == 2 && "unknown"@.len() == 7);
    if value.len() == 0 {
        assert(value =~= ""@);
    }
}

/// The link panel shows the relay, remote access and the hotspot, in this
/// order, each behind its label; a hotspot without a name is off.
pub proof fn law_the_link_panel(m: DashboardModel)
    ensures
        ui::link_lines(m).len() == 3,
        ui::link_lines(m)[0] == seq![
            ui::dim_span(text::padded("cloud"@, 8) + " "@),
            ui::tint_span(m.cloud_relay, ui::cloud_paint(m.cloud_relay)),
        ],
        ui::link_lines(m)[1] == seq![
            ui::dim_span(text::padded("remote"@, 8) + " "@),
            ui::tint_span(m.remote_status, ui::remote_paint(m.remote_status)),
        ],
        ui::link_lines(m)[2][0] == ui::dim_span(text::padded("hotspot"@, 8) + " "@),
        ui::link_lines(m)[2].len() == 2,
        m.hotspot.len() == 0 ==> ui::link_lines(m)[2][1] == ui::dim_span("off"@),
        m.hotspot.len() > 0 ==> ui::link_lines(m)[2][1] == ui::bright_span(m.hotspot),
{
}

/// A step is green exactly when it is complete; each state has its own mark.
pub proof fn law_the_mark_of_a_step(s: StepModel)
    ensures
        ({
            let lines = ui::step_lines(s);
            &&& (lines[0][0].paint == Paint::Success <==> s.state == "complete"@)
            &&& (lines[0][0].paint == Paint::Accent <==> s.state == "in_progress"@)
            &&& (lines[0][0].paint == Paint::Warning <==> s.state == "needs_action"@)
            &&& s.state == "complete"@ ==> lines[0][0].text == "●"@ + " "@
            &&& s.state == "in_progress"@ ==> lines[0][0].text == "◐"@ + " "@
            &&& s.state == "needs_action"@ ==> lines[0][0].text == "▲"@ + " "@
            &&& s.state != "complete"@ && s.state != "in_progress"@ && s.state != "needs_action"@
                ==> lines[0][0] == ui::tint_span("○"@ + " "@, Paint::Muted)
            &&& lines[0][1] == ui::bright_span(s.label)
            &&& lines[0].last() == ui::dim_span(model::state_name(s.state))
            &&& (lines.len() == 2 <==> s.state != "complete"@ && s.detail.len() > 0)
            &&& lines.len() == 2 ==> lines[1] == seq![ui::dim_span("    "@ + s.detail)]
        }),
{
    reveal_strlit("complete");
    reveal_strlit("in_progress");
    reveal_strlit("needs_action");
    assert("complete"@[0] == 'c' && "in_progress"@[0] == 'i' && "needs_action"@[0] == 'n');
}

/// Every step shows, and nothing but the steps.
pub proof fn law_every_step_shows(steps: Seq<StepModel>, s: StepModel)
    ensures
        ui::all_step_lines(Seq::empty()) == Seq::<Seq<SpanModel>>::empty(),
        ui::all_step_lines(steps.push(s)) == ui::all_step_lines(steps) + ui::step_lines(s),
{
    assert(steps.push(s).drop_last() =~= steps);
}

/// The services panel begins with how many services run and how many do not.
/// The steps of the setup show exactly while it is unfinished, with the next
/// thing to do at the end unless a step says it already.
pub proof fn law_the_services_panel(m: DashboardModel)
    ensures
        ({
            let lines = ui::services_lines(m);
            let steps = ui::all_step_lines(m.steps);
            let shown = m.has_steps && !m.steps_all_complete;
            let next = m.next_action.len() > 0 && !ui::explains(m.steps, m.next_action);
            &&& lines[0][0] == ui::tint_span(
                "● "@ + text::decimal(m.services_running as nat) + " running"@,
                Paint::Success,
            )
            &&& m.services_running <= m.services_total ==> lines[0][2] == ui::dim_span(
                "○ "@ + text::decimal((m.services_total - m.services_running) as nat)
                    + " stopped"@,
            )
            &&& !shown ==> lines.len() == 1
            &&& shown ==> lines[1] == seq![ui::dim_span("setup steps"@)] && lines.subrange(
                2,
                2 + steps.len() as int,
            ) == steps
            &&& shown && next ==> lines.len() == 3 + steps.len() && lines.last() == seq![
                ui::dim_span(m.next_action),
            ]
            &&& shown && !next ==> lines.len() == 2 + steps.len()
        }),
{
    let lines = ui::services_lines(m);
    let steps = ui::all_step_lines(m.steps);
    if m.has_steps && !m.steps_all_complete {
        assert(lines.subrange(2, 2 + steps.len() as int) =~= steps);
    }
}

/// The next thing to do is said already exactly where a step that is not
/// complete has it as its explanation.
pub proof fn law_when_a_step_says_it_already(steps: Seq<StepModel>, note: Seq<char>, i: int)
    ensures
        0 <= i < steps.len() && steps[i].state != "complete"@ && steps[i].detail == note
            ==> ui::explains(steps, note),
        (forall|k: int|
            0 <= k < steps.len() ==> (#[trigger] steps[k]).state == "complete"@ || steps[k].detail
                != note) ==> !ui::explains(steps, note),
{
}

/// A panel that takes a share of a width is never wider than it, and takes all
/// of it only from a full share on.
pub proof fn law_shares_stay_within(width: int, pct: int)
    requires
        0 <= width,
        0 <= pct,
    ensures
        0 <= ui::share(width, pct) <= width,
        pct <= 100 ==> 100 * ui::share(width, pct) <= width * pct < 100 * (ui::share(width, pct)
            + 1),
        pct >= 100 ==> ui::share(width, pct) == width,
{
    assert(0 <= width * pct) by (nonlinear_arith)
        requires
            0 <= width,
            0 <= pct,
    ;
    if pct <= 100 {
        assert(width * pct <= 100 * width) by (nonlinear_arith)
            requires
                0 <= width,
                pct <= 100,
        ;
    }
    if pct >= 100 {
        assert(width * pct >= 100 * width) by (nonlinear_arith)
            requires
                0 <= width,
                pct >= 100,
        ;
    }
}

/// The kinds of text: plain in the terminal's own colour, dim, bright and bold,
/// tinted, and the chip with a space on either side.
pub proof fn law_the_kinds_of_text(t: Seq<char>, p: Paint)
    ensures
        ui::plain_span(t) == (SpanModel { text: t, paint: Paint::Unset, bold: false, chip: false }),
        ui::dim_span(t) == (SpanModel { text: t, paint: Paint::Muted, bold: false, chip: false }),
        ui::bright_span(t) == (SpanModel {
            text: t,
            paint: Paint::Heading,
            bold: true,
            chip: false,
        }),
        ui::tint_span(t, p) == (SpanModel { text: t, paint: p, bold: false, chip: false }),
        ui::bold_span(t, p) == (SpanModel { text: t, paint: p, bold: true, chip: false }),
        ui::pill_span(t, p) == (SpanModel {
            text: " "@ + t + " "@,
            paint: p,
            bold: false,
            chip: true,
        }),
{
}

/// The model of what is drawn is what its fields hold.
pub proof fn law_what_is_drawn_is_what_is_held(s: Span, v: Vec<Span>, n: Number, p: Paint)
    ensures
        s@.text == s.text@ && s@.paint == s.paint && s@.bold == s.bold && s@.chip == s.chip,
        Cell::Line(v)@ == CellModel::Line(ui::line_model(v@)),
        Cell::Nav(v, Some(n))@ == CellModel::Nav(ui::line_model(v@), Some(n)),
        Cell::Nav(v, None)@ == CellModel::Nav(ui::line_model(v@), None),
        Cell::Gauge(n, p)@ == CellModel::Gauge(n, p),
        Cell::BatteryTrend(p)@ == CellModel::BatteryTrend(p),
        Cell::AltTrend(p)@ == CellModel::AltTrend(p),
{
}

/// Lines are drawn piece by piece and panels line by line, none left out.
pub proof fn law_lines_are_drawn_in_full(v: Seq<Span>, w: Seq<Vec<Span>>, c: Seq<Cell>, i: int)
    ensures
        ui::line_model(v).len() == v.len(),
        0 <= i < v.len() ==> ui::line_model(v)[i] == v[i]@,
        ui::line_models(w).len() == w.len(),
        0 <= i < w.len() ==> ui::line_models(w)[i] == ui::line_model(w[i]@),
        ui::cell_models(c).len() == c.len(),
        0 <= i < c.len() ==> ui::cell_models(c)[i] == c[i]@,
{
}

/// A picture that is there is seen, and one that is missing is not.
pub proof fn law_a_picture_is_seen_as_it_is(d: &Dashboard, t: &str)
    ensures
        ui::seen(Some(d)) == Some(d@),
        ui::seen(None) is None,
        ui::told(Some(t)) == Some(t@),
        ui::told(None) is None,
{
}

} // verus!
