//! What the terminal dashboard shows, as styled text.
//!
//! Every panel is a list of lines, each a list of styled pieces of text. The
//! drawing itself, and the numbers that are drawn as bars or written with
//! decimals, are left to whoever puts the lines on the screen.
use crate::action;
use crate::action::{Action, ActionModel, ACTIONS};
use crate::json::Number;
use crate::links;
use crate::links::{GroupModel, LinkGroup, LinkRow, RowModel};
use crate::model;
use crate::model::{state_label, Dashboard, DashboardModel, FcLink, Health, StepModel};
use crate::text;
use crate::update;
use vstd::prelude::*;

verus! {

/// The role of a colour.
#[derive(Debug, Clone, Copy, PartialEq, Eq, Structural)]
pub enum Paint {
    /// The terminal's own colour.
    Unset,
    Accent,
    Muted,
    Heading,
    Success,
    Warning,
    Danger,
}

/// A styled piece of text.
#[derive(Debug, Clone, PartialEq, Eq)]
pub struct Span {
    pub text: String,
    pub paint: Paint,
    pub bold: bool,
    /// Dark text on the colour instead of text in the colour.
    pub chip: bool,
}

/// The model of a piece of text.
#[verifier::ext_equal]
pub struct SpanModel {
    pub text: Seq<char>,
    pub paint: Paint,
    pub bold: bool,
    pub chip: bool,
}

impl View for Span {
    type V = SpanModel;

    open spec fn view(&self) -> SpanModel {
        SpanModel { text: self.text@, paint: self.paint, bold: self.bold, chip: self.chip }
    }
}

/// The model of a line.
pub open spec fn line_model(v: Seq<Span>) -> Seq<SpanModel> {
    Seq::new(v.len(), |i: int| v[i]@)
}

/// The models of lines.
pub open spec fn line_models(v: Seq<Vec<Span>>) -> Seq<Seq<SpanModel>> {
    Seq::new(v.len(), |i: int| line_model(v[i]@))
}

/// Text in the terminal's own colour.
pub open spec fn plain_span(text: Seq<char>) -> SpanModel {
    SpanModel { text, paint: Paint::Unset, bold: false, chip: false }
}

/// Text in a colour.
pub open spec fn tint_span(text: Seq<char>, paint: Paint) -> SpanModel {
    SpanModel { text, paint, bold: false, chip: false }
}

/// Bold text in a colour.
pub open spec fn bold_span(text: Seq<char>, paint: Paint) -> SpanModel {
    SpanModel { text, paint, bold: true, chip: false }
}

/// Dim text.
pub open spec fn dim_span(text: Seq<char>) -> SpanModel {
    tint_span(text, Paint::Muted)
}

/// Bright text.
pub open spec fn bright_span(text: Seq<char>) -> SpanModel {
    bold_span(text, Paint::Heading)
}

/// A chip with a space on either side of its text.
pub open spec fn pill_span(text: Seq<char>, paint: Paint) -> SpanModel {
    SpanModel { text: " "@ + text + " "@, paint, bold: false, chip: true }
}

fn plain(text: &str) -> (r: Span)
    ensures
        r@ == plain_span(text@),
{
    Span { text: text.to_owned(), paint: Paint::Unset, bold: false, chip: false }
}

fn tint(text: &str, paint: Paint) -> (r: Span)
    ensures
        r@ == tint_span(text@, paint),
{
    Span { text: text.to_owned(), paint, bold: false, chip: false }
}

fn bold(text: &str, paint: Paint) -> (r: Span)
    ensures
        r@ == bold_span(text@, paint),
{
    Span { text: text.to_owned(), paint, bold: true, chip: false }
}

fn dim(text: &str) -> (r: Span)
    ensures
        r@ == dim_span(text@),
{
    tint(text, Paint::Muted)
}

fn bright(text: &str) -> (r: Span)
    ensures
        r@ == bright_span(text@),
{
    bold(text, Paint::Heading)
}

/// A short chip, such as ` ARMED `.
pub fn pill(text: &str, paint: Paint) -> (r: Span)
    ensures
        r@ == pill_span(text@, paint),
{
    let mut t = text::cat(" ", text);
    t.append(" ");
    Span { text: t, paint, bold: false, chip: true }
}

fn put(line: &mut Vec<Span>, s: Span)
    ensures
        line_model(final(line)@) == line_model(old(line)@).push(s@),
{
    line.push(s);
    assert(line_model(line@) =~= line_model(old(line)@).push(s@));
}

fn put_line(lines: &mut Vec<Vec<Span>>, line: Vec<Span>)
    ensures
        line_models(final(lines)@) == line_models(old(lines)@).push(line_model(line@)),
{
    lines.push(line);
    assert(line_models(lines@) =~= line_models(old(lines)@).push(line_model(line@)));
}

fn new_line() -> (r: Vec<Span>)
    ensures
        line_model(r@) == Seq::<SpanModel>::empty(),
{
    let r: Vec<Span> = Vec::new();
    assert(line_model(r@) =~= Seq::<SpanModel>::empty());
    r
}

fn line_of(s: Span) -> (r: Vec<Span>)
    ensures
        line_model(r@) == seq![s@],
{
    let mut r = new_line();
    put(&mut r, s);
    assert(line_model(r@) =~= seq![s@]);
    r
}

fn no_lines() -> (r: Vec<Vec<Span>>)
    ensures
        line_models(r@) == Seq::<Seq<SpanModel>>::empty(),
{
    let r: Vec<Vec<Span>> = Vec::new();
    assert(line_models(r@) =~= Seq::<Seq<SpanModel>>::empty());
    r
}

/// The model of a dashboard that may be missing.
pub open spec fn seen(d: Option<&Dashboard>) -> Option<DashboardModel> {
    match d {
        Some(x) => Some(x@),
        None => None,
    }
}

/// The model of a text that may be missing.
pub open spec fn told(s: Option<&str>) -> Option<Seq<char>> {
    match s {
        Some(x) => Some(x@),
        None => None,
    }
}

// ---------------------------------------------------------------------------
// header, verdict, footer
// ---------------------------------------------------------------------------

/// The left half of the header.
pub open spec fn header_left_line(d: Option<DashboardModel>) -> Seq<SpanModel> {
    seq![
        tint_span("▌ "@, Paint::Accent),
        bold_span("ADOS"@, Paint::Accent),
        plain_span("   "@),
        match d {
            Some(m) => bright_span(m.device_name + " · "@ + m.profile),
            None => dim_span("connecting"@),
        },
    ]
}

/// The right half of the header.
pub open spec fn header_right_line(
    d: Option<DashboardModel>,
    refreshed: Seq<char>,
    stale: bool,
) -> Seq<SpanModel> {
    (match d {
        Some(m) => seq![dim_span("v"@ + m.version + "  ·  "@)],
        None => Seq::empty(),
    }) + seq![dim_span("refreshed "@ + refreshed + " UTC"@)] + if stale {
        seq![tint_span("  stale"@, Paint::Warning)]
    } else {
        Seq::empty()
    }
}

/// The two halves of the header: the word-mark and the node, the version and
/// the time of the last refresh.
pub fn header(dash: Option<&Dashboard>, refreshed: &str, stale: bool) -> (r: (
    Vec<Span>,
    Vec<Span>,
))
    ensures
        line_model((r.0)@) == header_left_line(seen(dash)),
        line_model((r.1)@) == header_right_line(seen(dash), refreshed@, stale),
{
    let mut left = new_line();
    put(&mut left, tint("▌ ", Paint::Accent));
    put(&mut left, bold("ADOS", Paint::Accent));
    put(&mut left, plain("   "));
    let mut right = new_line();
    match dash {
        Some(d) => {
            put(&mut left, bright(d.ident().as_str()));
            let mut v = text::cat("v", d.version.as_str());
            v.append("  ·  ");
            put(&mut right, dim(v.as_str()));
        },
        None => {
            put(&mut left, dim("connecting"));
        },
    }
    assert(line_model(left@) =~= header_left_line(seen(dash)));
    let mut at = text::cat("refreshed ", refreshed);
    at.append(" UTC");
    put(&mut right, dim(at.as_str()));
    if stale {
        put(&mut right, tint("  stale", Paint::Warning));
    }
    assert(line_model(right@) =~= header_right_line(seen(dash), refreshed@, stale));
    (left, right)
}

/// The colour of a verdict.
pub open spec fn health_paint(h: Health) -> Paint {
    match h {
        Health::Healthy => Paint::Success,
        _ => Paint::Warning,
    }
}

/// The verdict and the line under it.
pub open spec fn verdict_lines(d: Option<DashboardModel>) -> Seq<Seq<SpanModel>> {
    match d {
        Some(m) => {
            let h = model::verdict(m);
            seq![
                seq![
                    tint_span(h.dot_text() + " "@, health_paint(h)),
                    SpanModel {
                        text: h.label_text(),
                        paint: health_paint(h),
                        bold: h != Health::Setup,
                        chip: false,
                    },
                ],
                seq![dim_span(model::summary_text(m))],
            ]
        },
        None => seq![seq![dim_span("· · ·"@)]],
    }
}

/// The verdict and the line under it.
pub fn verdict(dash: Option<&Dashboard>) -> (r: Vec<Vec<Span>>)
    ensures
        line_models(r@) == verdict_lines(seen(dash)),
{
    let mut lines = no_lines();
    match dash {
        Some(d) => {
            let h = d.health();
            let paint = match h {
                Health::Healthy => Paint::Success,
                _ => Paint::Warning,
            };
            let mut first = new_line();
            let dot = text::cat(h.dot(), " ");
            put(&mut first, tint(dot.as_str(), paint));
            put(
                &mut first,
                Span {
                    text: h.label().to_owned(),
                    paint,
                    bold: h != Health::Setup,
                    chip: false,
                },
            );
            assert(line_model(first@) =~= verdict_lines(seen(dash))[0]);
            put_line(&mut lines, first);
            put_line(&mut lines, line_of(dim(d.status_summary().as_str())));
        },
        None => {
            put_line(&mut lines, line_of(dim("· · ·")));
        },
    }
    assert(line_models(lines@) =~= verdict_lines(seen(dash)));
    lines
}

/// A key and what it does.
pub open spec fn hint_spans(key: Seq<char>, label: Seq<char>) -> Seq<SpanModel> {
    seq![tint_span("["@ + key + "] "@, Paint::Accent), dim_span(label + "  "@)]
}

fn key_hint(line: &mut Vec<Span>, key: &str, label: &str)
    ensures
        line_model(final(line)@) == line_model(old(line)@) + hint_spans(key@, label@),
{
    let mut k = text::cat("[", key);
    k.append("] ");
    let l = text::cat(label, "  ");
    put(line, tint(k.as_str(), Paint::Accent));
    put(line, dim(l.as_str()));
    assert(line_model(line@) =~= line_model(old(line)@) + hint_spans(key@, label@));
}

/// The keys of the actions that have one.
pub open spec fn action_hints(actions: Seq<ActionModel>) -> Seq<SpanModel>
    decreases actions.len(),
{
    if actions.len() == 0 {
        Seq::empty()
    } else {
        action_hints(actions.drop_last()) + match actions.last().key {
            Some(k) => hint_spans(seq![k], actions.last().short),
            None => Seq::empty(),
        }
    }
}

/// A newer version than the one shown is known.
pub open spec fn update_known(d: Option<DashboardModel>, latest: Option<Seq<char>>) -> bool {
    match (d, latest) {
        (Some(m), Some(l)) => update::newer(l, m.version),
        _ => false,
    }
}

/// The left half of the footer.
pub open spec fn footer_left_line(
    d: Option<DashboardModel>,
    latest: Option<Seq<char>>,
) -> Seq<SpanModel> {
    action_hints(action::action_table()) + (if update_known(d, latest) {
        hint_spans("u"@, "update"@)
    } else {
        Seq::empty()
    }) + hint_spans("a"@, "actions"@) + hint_spans("r"@, "refresh"@) + hint_spans("q"@, "quit"@)
}

/// The right half of the footer.
pub open spec fn footer_right_line(
    d: Option<DashboardModel>,
    latest: Option<Seq<char>>,
) -> Seq<SpanModel> {
    match d {
        Some(m) => seq![dim_span("v"@ + m.version)] + if latest is None {
            Seq::empty()
        } else if update_known(d, latest) {
            seq![tint_span("  ·  update available → ados update"@, Paint::Warning)]
        } else {
            seq![dim_span("  ·  up to date"@)]
        },
        None => Seq::empty(),
    }
}

/// A newer version than the one shown is known.
pub fn update_available(dash: Option<&Dashboard>, latest: Option<&str>) -> (r: bool)
    ensures
        r == update_known(seen(dash), told(latest)),
{
    match (dash, latest) {
        (Some(d), Some(l)) => update::is_newer(l, d.version.as_str()),
        _ => false,
    }
}

/// The two halves of the footer: the keys, the version and whether there is a
/// newer one. The update key shows only while there is; the right half is
/// silent about updates until the latest version is known.
pub fn footer(dash: Option<&Dashboard>, latest: Option<&str>) -> (r: (Vec<Span>, Vec<Span>))
    ensures
        line_model((r.0)@) == footer_left_line(seen(dash), told(latest)),
        line_model((r.1)@) == footer_right_line(seen(dash), told(latest)),
{
    let newer = update_available(dash, latest);
    let mut left = new_line();
    let all = ACTIONS();
    let ghost table = action::action_table();
    let mut i: usize = 0;
    assert(table.take(0).len() == 0);
    while i < all.len()
        invariant
            i <= all@.len(),
            action::action_models(all@) == table,
            line_model(left@) == action_hints(table.take(i as int)),
        decreases all@.len() - i,
    {
        let ghost before = line_model(left@);
        proof {
            assert(table.take(i + 1).drop_last() == table.take(i as int));
            assert(table.take(i + 1).last() == all@[i as int]@);
        }
        match all[i].key {
            Some(c) => {
                let mut key = String::new();
                key.push(c);
                assert(key@ =~= seq![c]);
                key_hint(&mut left, key.as_str(), all[i].short);
            },
            None => {
                assert(before + Seq::<SpanModel>::empty() =~= before);
            },
        }
        i += 1;
    }
    assert(table.take(all@.len() as int) == table);
    if newer {
        key_hint(&mut left, "u", "update");
    }
    key_hint(&mut left, "a", "actions");
    key_hint(&mut left, "r", "refresh");
    key_hint(&mut left, "q", "quit");
    assert(line_model(left@) =~= footer_left_line(seen(dash), told(latest)));
    let mut right = new_line();
    if let Some(d) = dash {
        let v = text::cat("v", d.version.as_str());
        put(&mut right, dim(v.as_str()));
        if latest.is_some() {
            if newer {
                put(&mut right, tint("  ·  update available → ados update", Paint::Warning));
            } else {
                put(&mut right, dim("  ·  up to date"));
            }
        }
    }
    assert(line_model(right@) =~= footer_right_line(seen(dash), told(latest)));
    (left, right)
}

/// What the status panel says while there is no dashboard.
pub fn status_message(error: Option<&str>) -> (r: String)
    ensures
        r@ == (match error {
            Some(e) => e@,
            None => "Connecting to the agent…"@,
        }),
{
    match error {
        Some(e) => e.to_owned(),
        None => "Connecting to the agent…".to_owned(),
    }
}

// ---------------------------------------------------------------------------
// overlays
// ---------------------------------------------------------------------------

/// A place on the screen, in character cells.
#[derive(Debug, Clone, Copy, PartialEq, Eq, Structural)]
pub struct Rect {
    pub x: u16,
    pub y: u16,
    pub width: u16,
    pub height: u16,
}

/// The width of a box that takes `pct` percent of `width`.
pub open spec fn share(width: int, pct: int) -> int {
    if width * pct / 100 < width {
        width * pct / 100
    } else {
        width
    }
}

/// A box `pct_x` percent wide and `height` tall in the middle of `area`, no
/// larger than `area`.
pub fn centered_rect(pct_x: u16, height: u16, area: Rect) -> (r: Rect)
    requires
        area.width * pct_x <= u16::MAX,
        area.x + (area.width - share(area.width as int, pct_x as int)) / 2 <= u16::MAX,
        area.y + (area.height - (if height < area.height {
            height
        } else {
            area.height
        })) / 2 <= u16::MAX,
    ensures
        r.width == share(area.width as int, pct_x as int),
        r.height == (if height < area.height {
            height
        } else {
            area.height
        }),
        r.x == area.x + (area.width - r.width) / 2,
        r.y == area.y + (area.height - r.height) / 2,
{
    let part: u16 = area.width * pct_x / 100;
    let w: u16 = if part < area.width {
        part
    } else {
        area.width
    };
    let h: u16 = if height < area.height {
        height
    } else {
        area.height
    };
    Rect {
        x: area.x + (area.width - w) / 2,
        y: area.y + (area.height - h) / 2,
        width: w,
        height: h,
    }
}

/// A centred box stays within its area, and is as far from one side as from
/// the other, but for one cell.
pub proof fn law_centered_boxes_stay_inside(area: Rect, r: Rect)
    requires
        r.width <= area.width,
        r.x == area.x + (area.width - r.width) / 2,
    ensures
        area.x <= r.x,
        r.x + r.width <= area.x + area.width,
        0 <= (area.x + area.width) - (r.x + r.width) - (r.x - area.x) <= 1,
{
}

/// The line of one action in the list.
pub open spec fn action_line(a: ActionModel, selected: bool) -> Seq<SpanModel> {
    seq![
        tint_span(
            if selected {
                "› "@
            } else {
                "  "@
            },
            Paint::Accent,
        ),
        bold_span(
            text::padded(a.label, 27),
            if selected {
                Paint::Accent
            } else {
                Paint::Heading
            },
        ),
        dim_span(a.desc),
    ] + if a.confirm {
        seq![dim_span("  (confirm)"@)]
    } else {
        Seq::empty()
    }
}

/// The list of actions with one of them selected.
pub open spec fn overlay_lines(selected: int) -> Seq<Seq<SpanModel>> {
    Seq::new(
        action::action_table().len(),
        |i: int| action_line(action::action_table()[i], i == selected),
    ) + seq![seq![plain_span(""@)], seq![dim_span("↑↓ select · Enter run · Esc close"@)]]
}

fn one_action(a: &Action, selected: bool) -> (r: Vec<Span>)
    ensures
        line_model(r@) == action_line(a@, selected),
{
    let mut line = new_line();
    let label = text::pad(a.label, 27);
    if selected {
        put(&mut line, tint("› ", Paint::Accent));
        put(&mut line, bold(label.as_str(), Paint::Accent));
    } else {
        put(&mut line, tint("  ", Paint::Accent));
        put(&mut line, bright(label.as_str()));
    }
    put(&mut line, dim(a.desc));
    if a.confirm {
        put(&mut line, dim("  (confirm)"));
    }
    assert(line_model(line@) =~= action_line(a@, selected));
    line
}

/// The list of actions with one of them selected.
pub fn actions_overlay(selected: usize) -> (r: Vec<Vec<Span>>)
    ensures
        line_models(r@) == overlay_lines(selected as int),
{
    let all = ACTIONS();
    let ghost table = action::action_table();
    let mut lines = no_lines();
    let mut i: usize = 0;
    while i < all.len()
        invariant
            i <= all@.len(),
            action::action_models(all@) == table,
            line_models(lines@).len() == i,
            forall|k: int|
                0 <= k < i ==> (#[trigger] line_models(lines@)[k]) == action_line(
                    table[k],
                    k == selected,
                ),
        decreases all@.len() - i,
    {
        assert(table[i as int] == all@[i as int]@);
        put_line(&mut lines, one_action(&all[i], i == selected));
        i += 1;
    }
    put_line(&mut lines, line_of(plain("")));
    put_line(&mut lines, line_of(dim("↑↓ select · Enter run · Esc close")));
    assert(table.len() == all@.len());
    assert(line_models(lines@) =~= overlay_lines(selected as int));
    lines
}

/// What the update splash says.
pub open spec fn splash_lines(installed: Seq<char>, latest: Seq<char>) -> Seq<Seq<SpanModel>> {
    seq![
        seq![plain_span(""@)],
        seq![
            dim_span("v"@ + installed),
            tint_span("  →  "@, Paint::Accent),
            bright_span("v"@ + latest),
        ],
        seq![plain_span(""@)],
        seq![
            tint_span("[u] "@, Paint::Accent),
            bright_span("update now"@),
            dim_span("      any key: later"@),
        ],
    ]
}

/// What the update splash says: the two versions, and the key that updates.
pub fn update_splash_overlay(installed: &str, latest: &str) -> (r: Vec<Vec<Span>>)
    ensures
        line_models(r@) == splash_lines(installed@, latest@),
{
    let mut lines = no_lines();
    put_line(&mut lines, line_of(plain("")));
    let mut versions = new_line();
    let from = text::cat("v", installed);
    let to = text::cat("v", latest);
    put(&mut versions, dim(from.as_str()));
    put(&mut versions, tint("  →  ", Paint::Accent));
    put(&mut versions, bright(to.as_str()));
    assert(line_model(versions@) =~= splash_lines(installed@, latest@)[1]);
    put_line(&mut lines, versions);
    put_line(&mut lines, line_of(plain("")));
    let mut keys = new_line();
    put(&mut keys, tint("[u] ", Paint::Accent));
    put(&mut keys, bright("update now"));
    put(&mut keys, dim("      any key: later"));
    assert(line_model(keys@) =~= splash_lines(installed@, latest@)[3]);
    put_line(&mut lines, keys);
    assert(line_models(lines@) =~= splash_lines(installed@, latest@));
    lines
}

// ---------------------------------------------------------------------------
// links
// ---------------------------------------------------------------------------

/// The line of one link.
pub open spec fn link_line(row: RowModel) -> Seq<SpanModel> {
    (if row.loopback {
        seq![dim_span("➜ "@), dim_span(row.url)]
    } else {
        seq![tint_span("➜ "@, Paint::Accent), bright_span(row.url)]
    }) + if row.primary && !row.loopback {
        seq![tint_span("  ●"@, Paint::Accent)]
    } else {
        Seq::empty()
    }
}

/// The lines of the links.
pub open spec fn row_lines(rows: Seq<RowModel>) -> Seq<Seq<SpanModel>> {
    Seq::new(rows.len(), |i: int| link_line(rows[i]))
}

/// The lines of one group.
pub open spec fn group_lines(g: GroupModel) -> Seq<Seq<SpanModel>> {
    seq![seq![tint_span(g.title, Paint::Heading)]] + (if g.desc.len() > 0 {
        seq![seq![dim_span(g.desc)]]
    } else {
        Seq::empty()
    }) + row_lines(g.rows)
}

/// The lines of the groups, with an empty line between neighbours.
pub open spec fn all_group_lines(groups: Seq<GroupModel>) -> Seq<Seq<SpanModel>>
    decreases groups.len(),
{
    if groups.len() == 0 {
        Seq::empty()
    } else {
        all_group_lines(groups.drop_last()) + (if groups.len() > 1 {
            seq![seq![plain_span(""@)]]
        } else {
            Seq::empty()
        }) + group_lines(groups.last())
    }
}

/// The groups that the panel shows: how to point a ground-control station at
/// the node, then everything that is advertised.
pub open spec fn shown_groups(m: DashboardModel) -> Seq<GroupModel> {
    links::group_if_full("Connect to GCS"@, ""@, links::connect_rows(m)) + links::groups_of(m)
}

/// The lines of the links panel.
pub open spec fn links_lines(m: DashboardModel) -> Seq<Seq<SpanModel>> {
    let groups = shown_groups(m);
    if groups.len() == 0 {
        seq![seq![dim_span("no links advertised yet"@)]]
    } else {
        all_group_lines(groups) + seq![
            seq![plain_span(""@)],
            seq![dim_span("Direct IP is most reliable. It works from command.altnautica.com too."@)],
            seq![dim_span("The .local (mDNS) name needs a desktop app on the LAN."@)],
        ]
    }
}

fn one_link(row: &LinkRow) -> (r: Vec<Span>)
    ensures
        line_model(r@) == link_line(row@),
{
    let mut line = new_line();
    if row.loopback {
        put(&mut line, dim("➜ "));
        put(&mut line, dim(row.url.as_str()));
    } else {
        put(&mut line, tint("➜ ", Paint::Accent));
        put(&mut line, bright(row.url.as_str()));
    }
    if row.primary && !row.loopback {
        put(&mut line, tint("  ●", Paint::Accent));
    }
    assert(line_model(line@) =~= link_line(row@));
    line
}

fn put_group(lines: &mut Vec<Vec<Span>>, title: &str, desc: &str, rows: &Vec<LinkRow>)
    ensures
        line_models(final(lines)@) == line_models(old(lines)@) + group_lines(
            GroupModel { title: title@, desc: desc@, rows: links::row_models(rows@) },
        ),
{
    let ghost g = GroupModel { title: title@, desc: desc@, rows: links::row_models(rows@) };
    let ghost start = line_models(lines@);
    put_line(lines, line_of(tint(title, Paint::Heading)));
    if desc.unicode_len() > 0 {
        put_line(lines, line_of(dim(desc)));
    }
    let ghost head = line_models(lines@);
    let ghost all = row_lines(g.rows);
    let mut i: usize = 0;
    assert(head + all.take(0) =~= head);
    while i < rows.len()
        invariant
            i <= rows@.len(),
            g.rows == links::row_models(rows@),
            all == row_lines(g.rows),
            line_models(lines@) == head + all.take(i as int),
        decreases rows@.len() - i,
    {
        let ghost before = line_models(lines@);
        assert(g.rows[i as int] == rows@[i as int]@);
        put_line(lines, one_link(&rows[i]));
        assert(before.push(all[i as int]) =~= head + all.take(i + 1));
        i += 1;
    }
    assert(all.take(rows@.len() as int) == all);
    assert(line_models(lines@) =~= start + group_lines(g));
}

/// The groups that the panel shows.
fn groups_to_show(dash: &Dashboard) -> (r: Vec<LinkGroup>)
    ensures
        links::group_models(r@) == shown_groups(dash@),
{
    let connect = dash.connect_links();
    let mut groups = dash.reach_links();
    let mut out: Vec<LinkGroup> = Vec::new();
    assert(links::row_models(connect@).len() == connect@.len());
    if connect.len() > 0 {
        out.push(LinkGroup { title: "Connect to GCS", desc: "", rows: connect });
    }
    assert(links::group_models(out@) =~= links::group_if_full(
        "Connect to GCS"@,
        ""@,
        links::connect_rows(dash@),
    ));
    let ghost first = out@;
    let ghost rest = groups@;
    out.append(&mut groups);
    assert(links::group_models(first + rest) =~= links::group_models(first)
        + links::group_models(rest));
    out
}

/// The lines of all groups.
fn lines_of_groups(groups: &Vec<LinkGroup>) -> (r: Vec<Vec<Span>>)
    ensures
        line_models(r@) == all_group_lines(links::group_models(groups@)),
{
    let ghost shown = links::group_models(groups@);
    let mut lines = no_lines();
    let mut i: usize = 0;
    assert(all_group_lines(shown.take(0)) =~= Seq::<Seq<SpanModel>>::empty());
    while i < groups.len()
        invariant
            i <= groups@.len(),
            shown == links::group_models(groups@),
            line_models(lines@) == all_group_lines(shown.take(i as int)),
        decreases groups@.len() - i,
    {
        let ghost next = shown.take(i + 1);
        proof {
            assert(next.drop_last() =~= shown.take(i as int));
            assert(next.last() == groups@[i as int]@);
        }
        if i > 0 {
            put_line(&mut lines, line_of(plain("")));
        }
        put_group(&mut lines, groups[i].title, groups[i].desc, &groups[i].rows);
        assert(line_models(lines@) =~= all_group_lines(next));
        i += 1;
    }
    assert(shown.take(groups@.len() as int) =~= shown);
    lines
}

/// The links panel. A link to another machine stands out, and the primary one
/// is marked.
pub fn links_panel(dash: &Dashboard) -> (r: Vec<Vec<Span>>)
    ensures
        line_models(r@) == links_lines(dash@),
{
    let groups = groups_to_show(dash);
    assert(links::group_models(groups@).len() == groups@.len());
    if groups.len() == 0 {
        let mut lines = no_lines();
        put_line(&mut lines, line_of(dim("no links advertised yet")));
        assert(line_models(lines@) =~= links_lines(dash@));
        return lines;
    }
    let mut lines = lines_of_groups(&groups);
    put_line(&mut lines, line_of(plain("")));
    put_line(
        &mut lines,
        line_of(dim("Direct IP is most reliable. It works from command.altnautica.com too.")),
    );
    put_line(&mut lines, line_of(dim("The .local (mDNS) name needs a desktop app on the LAN.")));
    assert(line_models(lines@) =~= links_lines(dash@));
    lines
}

// ---------------------------------------------------------------------------
// autopilot
// ---------------------------------------------------------------------------

/// One row of the autopilot panel.
#[derive(Debug, Clone, PartialEq, Eq)]
pub enum Cell {
    /// Text.
    Line(Vec<Span>),
    /// Text, and behind it the altitude where there is one.
    Nav(Vec<Span>, Option<Number>),
    /// The battery as a gauge.
    Gauge(Number, Paint),
    /// The battery's trend.
    BatteryTrend(Paint),
    /// The altitude's trend.
    AltTrend(Paint),
}

/// The model of a row.
#[verifier::ext_equal]
pub enum CellModel {
    Line(Seq<SpanModel>),
    Nav(Seq<SpanModel>, Option<Number>),
    Gauge(Number, Paint),
    BatteryTrend(Paint),
    AltTrend(Paint),
}

impl View for Cell {
    type V = CellModel;

    open spec fn view(&self) -> CellModel {
        match self {
            Cell::Line(v) => CellModel::Line(line_model(v@)),
            Cell::Nav(v, alt) => CellModel::Nav(line_model(v@), *alt),
            Cell::Gauge(n, p) => CellModel::Gauge(*n, *p),
            Cell::BatteryTrend(p) => CellModel::BatteryTrend(*p),
            Cell::AltTrend(p) => CellModel::AltTrend(*p),
        }
    }
}

/// The models of rows.
pub open spec fn cell_models(v: Seq<Cell>) -> Seq<CellModel> {
    Seq::new(v.len(), |i: int| v[i]@)
}

/// The bits of 50 in double precision.
pub const FIFTY_BITS: u64 = 0x4049_0000_0000_0000;

/// The bits of 20 in double precision.
pub const TWENTY_BITS: u64 = 0x4034_0000_0000_0000;

/// The number is greater than `whole`, whose double-precision bits are `bits`.
pub open spec fn exceeds(n: Number, whole: int, bits: u64) -> bool {
    match n {
        Number::Unsigned(u) => u > whole,
        Number::Negative(i) => i > whole,
        Number::Real(b) => bits < b <= model::INFINITY_BITS,
    }
}

/// The colour of a battery level.
pub open spec fn battery_paint(n: Number) -> Paint {
    if exceeds(n, 50, FIFTY_BITS) {
        Paint::Success
    } else if exceeds(n, 20, TWENTY_BITS) {
        Paint::Warning
    } else {
        Paint::Danger
    }
}

/// The colour and the words for the state of the link.
pub open spec fn link_words(m: DashboardModel) -> (Paint, Seq<char>) {
    match model::link_state(m) {
        FcLink::Connected => (Paint::Success, "FC connected"@),
        FcLink::Msp => (
            Paint::Accent,
            "FC: "@ + (match m.fc_variant {
                Some(v) => v,
                None => "MSP"@,
            }) + " (MSP)"@,
        ),
        FcLink::PortOpen => (Paint::Warning, "port open · no MAVLink"@),
        FcLink::Down => (Paint::Danger, "FC not connected"@),
    }
}

/// The link, the flight mode and whether the vehicle is armed.
pub open spec fn link_cell(m: DashboardModel) -> Seq<SpanModel> {
    seq![tint_span("● "@, link_words(m).0), bright_span(link_words(m).1)] + (match m.mode {
        Some(mode) => seq![plain_span("  "@), pill_span(mode, Paint::Accent)],
        None => Seq::empty(),
    }) + (match m.armed {
        Some(true) => seq![plain_span(" "@), pill_span("ARMED"@, Paint::Danger)],
        Some(false) => seq![plain_span(" "@), pill_span("DISARMED"@, Paint::Success)],
        None => Seq::empty(),
    })
}

/// What is said about the link: that MAVLink telemetry does not apply, what to
/// check, or the router's hint.
pub open spec fn link_note(m: DashboardModel) -> Option<Seq<char>> {
    match model::link_state(m) {
        FcLink::Msp => Some("MSP flight controller · MAVLink telemetry N/A"@),
        FcLink::Down => Some(
            "No flight controller detected on USB/serial — connect the FC over USB, then [r] refresh (or [l] logs)."@,
        ),
        _ => match m.fc_link_hint {
            Some(h) => Some(text::replaced(h, '_', " "@)),
            None => None,
        },
    }
}

/// The serial endpoint and what is said about the link.
pub open spec fn detail_cell(m: DashboardModel) -> Seq<SpanModel> {
    let endpoint = match model::endpoint_text(m) {
        Some(e) => seq![dim_span(e)],
        None => Seq::empty(),
    };
    endpoint + match link_note(m) {
        Some(note) => if endpoint.len() > 0 {
            seq![plain_span("   "@), dim_span(note)]
        } else {
            seq![dim_span(note)]
        },
        None => Seq::empty(),
    }
}

/// The fix and the satellites.
pub open spec fn nav_cell(m: DashboardModel) -> Seq<SpanModel> {
    (match m.gps_fix {
        Some(fix) => seq![dim_span("GPS "@), bright_span(fix), plain_span("   "@)],
        None => Seq::empty(),
    }) + (match m.satellites {
        Some(n) => seq![
            dim_span("sats "@),
            bright_span(text::signed_decimal(n as int)),
            plain_span("   "@),
        ],
        None => Seq::empty(),
    })
}

/// One row, when there is something in it.
pub open spec fn cell_if(shown: bool, c: CellModel) -> Seq<CellModel> {
    if shown {
        seq![c]
    } else {
        Seq::empty()
    }
}

/// The rows of the autopilot panel. A trend is drawn from two samples on. A
/// ground station without a flight controller has no autopilot to show.
pub open spec fn autopilot_cells(
    m: DashboardModel,
    battery_samples: nat,
    alt_samples: nat,
) -> Seq<CellModel> {
    if m.profile == "ground_station"@ && !m.mavlink_connected {
        seq![CellModel::Line(seq![dim_span("no autopilot (ground station)"@)])]
    } else {
        seq![CellModel::Line(link_cell(m))] + cell_if(
            detail_cell(m).len() > 0,
            CellModel::Line(detail_cell(m)),
        ) + (match m.battery {
            Some(b) => seq![CellModel::Gauge(b, battery_paint(b))] + cell_if(
                battery_samples >= 2,
                CellModel::BatteryTrend(battery_paint(b)),
            ),
            None => Seq::empty(),
        }) + cell_if(
            nav_cell(m).len() > 0 || m.alt is Some,
            CellModel::Nav(nav_cell(m), m.alt),
        ) + cell_if(m.alt is Some && alt_samples >= 2, CellModel::AltTrend(Paint::Accent))
    }
}

fn put_cell(cells: &mut Vec<Cell>, c: Cell)
    ensures
        cell_models(final(cells)@) == cell_models(old(cells)@).push(c@),
{
    cells.push(c);
    assert(cell_models(cells@) =~= cell_models(old(cells)@).push(c@));
}

/// The number is greater than `whole`, whose double-precision bits are `bits`.
fn is_above(n: Number, whole: u64, bits: u64) -> (r: bool)
    requires
        whole < 1000,
    ensures
        r == exceeds(n, whole as int, bits),
{
    match n {
        Number::Unsigned(u) => u > whole,
        Number::Negative(i) => i > whole as i64,
        Number::Real(b) => bits < b && b <= model::INFINITY_BITS,
    }
}

fn link_spans(dash: &Dashboard) -> (r: Vec<Span>)
    ensures
        line_model(r@) == link_cell(dash@),
{
    let (paint, words): (Paint, String) = match dash.fc_link() {
        FcLink::Connected => (Paint::Success, "FC connected".to_owned()),
        FcLink::Msp => {
            let name = match dash.fc_variant_label() {
                Some(v) => v,
                None => "MSP".to_owned(),
            };
            let mut w = text::cat("FC: ", name.as_str());
            w.append(" (MSP)");
            (Paint::Accent, w)
        },
        FcLink::PortOpen => (Paint::Warning, "port open · no MAVLink".to_owned()),
        FcLink::Down => (Paint::Danger, "FC not connected".to_owned()),
    };
    let mut line = new_line();
    put(&mut line, tint("● ", paint));
    put(&mut line, bright(words.as_str()));
    if let Some(mode) = &dash.mode {
        put(&mut line, plain("  "));
        put(&mut line, pill(mode.as_str(), Paint::Accent));
    }
    if let Some(armed) = dash.armed {
        put(&mut line, plain(" "));
        if armed {
            put(&mut line, pill("ARMED", Paint::Danger));
        } else {
            put(&mut line, pill("DISARMED", Paint::Success));
        }
    }
    assert(line_model(line@) =~= link_cell(dash@));
    line
}

fn detail_spans(dash: &Dashboard) -> (r: Vec<Span>)
    ensures
        line_model(r@) == detail_cell(dash@),
{
    let mut line = new_line();
    let endpoint = dash.fc_endpoint();
    if let Some(e) = &endpoint {
        put(&mut line, dim(e.as_str()));
    }
    let note = match dash.fc_link() {
        FcLink::Msp => Some("MSP flight controller · MAVLink telemetry N/A".to_owned()),
        FcLink::Down => Some(
            "No flight controller detected on USB/serial — connect the FC over USB, then [r] refresh (or [l] logs).".to_owned(),
        ),
        _ => dash.fc_hint(),
    };
    if let Some(n) = &note {
        if endpoint.is_some() {
            put(&mut line, plain("   "));
        }
        put(&mut line, dim(n.as_str()));
    }
    assert(line_model(line@) =~= detail_cell(dash@));
    line
}

fn nav_spans(dash: &Dashboard) -> (r: Vec<Span>)
    ensures
        line_model(r@) == nav_cell(dash@),
{
    let mut line = new_line();
    if let Some(fix) = &dash.gps_fix {
        put(&mut line, dim("GPS "));
        put(&mut line, bright(fix.as_str()));
        put(&mut line, plain("   "));
    }
    if let Some(n) = dash.satellites {
        let digits = text::signed_decimal_of(n);
        put(&mut line, dim("sats "));
        put(&mut line, bright(digits.as_str()));
        put(&mut line, plain("   "));
    }
    assert(line_model(line@) =~= nav_cell(dash@));
    line
}

/// The rows of the autopilot panel, given how many samples each trend has.
pub fn autopilot_panel(dash: &Dashboard, battery_samples: usize, alt_samples: usize) -> (r: Vec<
    Cell,
>)
    ensures
        cell_models(r@) == autopilot_cells(dash@, battery_samples as nat, alt_samples as nat),
{
    let mut cells: Vec<Cell> = Vec::new();
    assert(cell_models(cells@) =~= Seq::<CellModel>::empty());
    if text::same(dash.profile.as_str(), "ground_station") && !dash.mavlink_connected {
        put_cell(&mut cells, Cell::Line(line_of(dim("no autopilot (ground station)"))));
        assert(cell_models(cells@) =~= autopilot_cells(
            dash@,
            battery_samples as nat,
            alt_samples as nat,
        ));
        return cells;
    }
    put_cell(&mut cells, Cell::Line(link_spans(dash)));
    let detail = detail_spans(dash);
    assert(line_model(detail@).len() == detail@.len());
    if detail.len() > 0 {
        put_cell(&mut cells, Cell::Line(detail));
    }
    if let Some(battery) = dash.battery {
        let paint = if is_above(battery, 50, FIFTY_BITS) {
            Paint::Success
        } else if is_above(battery, 20, TWENTY_BITS) {
            Paint::Warning
        } else {
            Paint::Danger
        };
        put_cell(&mut cells, Cell::Gauge(battery, paint));
        if battery_samples >= 2 {
            put_cell(&mut cells, Cell::BatteryTrend(paint));
        }
    }
    let nav = nav_spans(dash);
    assert(line_model(nav@).len() == nav@.len());
    if nav.len() > 0 || dash.alt.is_some() {
        put_cell(&mut cells, Cell::Nav(nav, dash.alt));
    }
    if dash.alt.is_some() && alt_samples >= 2 {
        put_cell(&mut cells, Cell::AltTrend(Paint::Accent));
    }
    assert(cell_models(cells@) =~= autopilot_cells(
        dash@,
        battery_samples as nat,
        alt_samples as nat,
    ));
    cells
}

// ---------------------------------------------------------------------------
// video, link, services
// ---------------------------------------------------------------------------

/// The colour of a video state.
pub open spec fn video_paint(state: Seq<char>) -> Paint {
    if state == "running"@ || state == "streaming"@ {
        Paint::Success
    } else if state == ""@ || state == "unknown"@ {
        Paint::Muted
    } else {
        Paint::Warning
    }
}

/// The line of the video panel.
pub fn video_panel(dash: &Dashboard) -> (r: Vec<Span>)
    ensures
        line_model(r@) == seq![
            tint_span("● "@, video_paint(dash@.video_state)),
            bright_span(
                if dash@.video_state.len() == 0 {
                    "unknown"@
                } else {
                    dash@.video_state
                },
            ),
        ],
        dash@.video_state.len() > 0 ==> line_model(r@)[1].text == dash@.video_state,
{
    let state = dash.video_state.as_str();
    let paint = if text::same(state, "running") || text::same(state, "streaming") {
        Paint::Success
    } else if text::same(state, "") || text::same(state, "unknown") {
        Paint::Muted
    } else {
        Paint::Warning
    };
    let mut line = new_line();
    put(&mut line, tint("● ", paint));
    if state.unicode_len() == 0 {
        put(&mut line, bright("unknown"));
    } else {
        put(&mut line, bright(state));
    }
    line
}

/// The colour of a cloud-relay line.
pub open spec fn cloud_paint(value: Seq<char>) -> Paint {
    if "paired"@.is_prefix_of(value) {
        Paint::Success
    } else if "configured"@.is_prefix_of(value) {
        Paint::Warning
    } else {
        Paint::Muted
    }
}

/// The colour of a remote-access status.
pub open spec fn remote_paint(value: Seq<char>) -> Paint {
    if value == "running"@ || value == "connected"@ || value == "enabled"@ || value == "up"@ {
        Paint::Success
    } else if model::remote_is_off(value) {
        Paint::Muted
    } else {
        Paint::Warning
    }
}

/// The cloud-relay line in the colour of its state.
pub fn cloud_span(value: &str) -> (r: Span)
    ensures
        r@ == tint_span(value@, cloud_paint(value@)),
{
    let paint = if text::starts_with(value, "paired") {
        Paint::Success
    } else if text::starts_with(value, "configured") {
        Paint::Warning
    } else {
        Paint::Muted
    };
    tint(value, paint)
}

/// The remote-access status in the colour of its state.
pub fn remote_span(value: &str) -> (r: Span)
    ensures
        r@ == tint_span(value@, remote_paint(value@)),
{
    let paint = if text::same(value, "running") || text::same(value, "connected") || text::same(
        value,
        "enabled",
    ) || text::same(value, "up") {
        Paint::Success
    } else if model::is_remote_off(value) {
        Paint::Muted
    } else {
        Paint::Warning
    };
    tint(value, paint)
}

/// A dim label padded for alignment, and its value.
pub open spec fn kv_line(label: Seq<char>, value: SpanModel) -> Seq<SpanModel> {
    seq![dim_span(text::padded(label, 8) + " "@), value]
}

fn kv(label: &str, value: Span) -> (r: Vec<Span>)
    ensures
        line_model(r@) == kv_line(label@, value@),
{
    let mut l = text::pad(label, 8);
    l.append(" ");
    let mut line = new_line();
    put(&mut line, dim(l.as_str()));
    put(&mut line, value);
    assert(line_model(line@) =~= kv_line(label@, value@));
    line
}

/// The lines of the link panel.
pub open spec fn link_lines(m: DashboardModel) -> Seq<Seq<SpanModel>> {
    seq![
        kv_line("cloud"@, tint_span(m.cloud_relay, cloud_paint(m.cloud_relay))),
        kv_line("remote"@, tint_span(m.remote_status, remote_paint(m.remote_status))),
        kv_line(
            "hotspot"@,
            if m.hotspot.len() == 0 {
                dim_span("off"@)
            } else {
                bright_span(m.hotspot)
            },
        ),
    ]
}

/// The link panel: cloud relay, remote access and hotspot.
pub fn link_panel(dash: &Dashboard) -> (r: Vec<Vec<Span>>)
    ensures
        line_models(r@) == link_lines(dash@),
{
    let mut lines = no_lines();
    put_line(&mut lines, kv("cloud", cloud_span(dash.cloud_relay.as_str())));
    put_line(&mut lines, kv("remote", remote_span(dash.remote_status.as_str())));
    if dash.hotspot.as_str().unicode_len() == 0 {
        put_line(&mut lines, kv("hotspot", dim("off")));
    } else {
        put_line(&mut lines, kv("hotspot", bright(dash.hotspot.as_str())));
    }
    assert(line_models(lines@) =~= link_lines(dash@));
    lines
}

/// The glyph and the colour of a setup-step state.
pub open spec fn step_mark(state: Seq<char>) -> (Seq<char>, Paint) {
    if state == "complete"@ {
        ("●"@, Paint::Success)
    } else if state == "in_progress"@ {
        ("◐"@, Paint::Accent)
    } else if state == "needs_action"@ {
        ("▲"@, Paint::Warning)
    } else {
        ("○"@, Paint::Muted)
    }
}

/// The glyph and the colour of a setup-step state.
pub fn step_dot(state: &str) -> (r: (&'static str, Paint))
    ensures
        ((r.0)@, r.1) == step_mark(state@),
{
    if text::same(state, "complete") {
        ("●", Paint::Success)
    } else if text::same(state, "in_progress") {
        ("◐", Paint::Accent)
    } else if text::same(state, "needs_action") {
        ("▲", Paint::Warning)
    } else {
        ("○", Paint::Muted)
    }
}

/// The step still needs attention and the agent says why.
pub open spec fn is_explained(s: StepModel) -> bool {
    s.state != "complete"@ && s.detail.len() > 0
}

/// The lines of one step: its state, and the agent's explanation while the
/// step still needs attention.
pub open spec fn step_lines(s: StepModel) -> Seq<Seq<SpanModel>> {
    seq![
        seq![
            tint_span(step_mark(s.state).0 + " "@, step_mark(s.state).1),
            bright_span(s.label),
            plain_span("  "@),
            dim_span(model::state_name(s.state)),
        ],
    ] + if is_explained(s) {
        seq![seq![dim_span("    "@ + s.detail)]]
    } else {
        Seq::empty()
    }
}

/// The lines of the steps.
pub open spec fn all_step_lines(steps: Seq<StepModel>) -> Seq<Seq<SpanModel>>
    decreases steps.len(),
{
    if steps.len() == 0 {
        Seq::empty()
    } else {
        all_step_lines(steps.drop_last()) + step_lines(steps.last())
    }
}

/// A step that still needs attention is explained by exactly this text.
pub open spec fn explains(steps: Seq<StepModel>, note: Seq<char>) -> bool {
    exists|i: int|
        0 <= i < steps.len() && (#[trigger] steps[i]).state != "complete"@ && steps[i].detail
            == note
}

/// The lines of the services panel: how many services run, and the steps of an
/// unfinished setup with the next thing to do, unless a step says it already.
pub open spec fn services_lines(m: DashboardModel) -> Seq<Seq<SpanModel>> {
    let stopped = if m.services_total > m.services_running {
        m.services_total - m.services_running
    } else {
        0
    };
    seq![
        seq![
            tint_span(
                "● "@ + text::decimal(m.services_running as nat) + " running"@,
                Paint::Success,
            ),
            plain_span("   "@),
            dim_span("○ "@ + text::decimal(stopped as nat) + " stopped"@),
        ],
    ] + if m.has_steps && !m.steps_all_complete {
        seq![seq![dim_span("setup steps"@)]] + all_step_lines(m.steps) + if m.next_action.len() > 0
            && !explains(m.steps, m.next_action) {
            seq![seq![dim_span(m.next_action)]]
        } else {
            Seq::empty()
        }
    } else {
        Seq::empty()
    }
}

fn put_step(lines: &mut Vec<Vec<Span>>, step: &model::Step)
    ensures
        line_models(final(lines)@) == line_models(old(lines)@) + step_lines(step@),
{
    let (glyph, paint) = step_dot(step.state.as_str());
    let mark = text::cat(glyph, " ");
    let mut line = new_line();
    put(&mut line, tint(mark.as_str(), paint));
    put(&mut line, bright(step.label.as_str()));
    put(&mut line, plain("  "));
    put(&mut line, dim(state_label(step.state.as_str()).as_str()));
    assert(line_model(line@) =~= step_lines(step@)[0]);
    put_line(lines, line);
    if !text::same(step.state.as_str(), "complete") && step.detail.as_str().unicode_len() > 0 {
        let d = text::cat("    ", step.detail.as_str());
        put_line(lines, line_of(dim(d.as_str())));
    }
    assert(line_models(lines@) =~= line_models(old(lines)@) + step_lines(step@));
}

fn has_explanation(steps: &Vec<model::Step>, note: &str) -> (r: bool)
    ensures
        r == explains(model::step_models(steps@), note@),
{
    let ghost all = model::step_models(steps@);
    let mut i: usize = 0;
    while i < steps.len()
        invariant
            i <= steps@.len(),
            all == model::step_models(steps@),
            forall|k: int|
                0 <= k < i ==> (#[trigger] all[k]).state == "complete"@ || all[k].detail != note@,
        decreases steps@.len() - i,
    {
        assert(all[i as int] == steps@[i as int]@);
        if !text::same(steps[i].state.as_str(), "complete") && text::same(
            steps[i].detail.as_str(),
            note,
        ) {
            assert(all[i as int].state != "complete"@);
            return true;
        }
        i += 1;
    }
    false
}

/// The services panel.
pub fn services_panel(dash: &Dashboard) -> (r: Vec<Vec<Span>>)
    ensures
        line_models(r@) == services_lines(dash@),
{
    let stopped: usize = if dash.services_total > dash.services_running {
        dash.services_total - dash.services_running
    } else {
        0
    };
    let mut lines = no_lines();
    let mut counts = new_line();
    let mut up = "● ".to_owned();
    up.append(text::decimal_of(dash.services_running as u64).as_str());
    up.append(" running");
    let mut down = "○ ".to_owned();
    down.append(text::decimal_of(stopped as u64).as_str());
    down.append(" stopped");
    put(&mut counts, tint(up.as_str(), Paint::Success));
    put(&mut counts, plain("   "));
    put(&mut counts, dim(down.as_str()));
    assert(line_model(counts@) =~= services_lines(dash@)[0]);
    put_line(&mut lines, counts);
    if dash.has_steps && !dash.steps_all_complete {
        put_line(&mut lines, line_of(dim("setup steps")));
        let ghost head = line_models(lines@);
        let ghost steps = dash@.steps;
        let mut i: usize = 0;
        assert(head + all_step_lines(steps.take(0)) =~= head);
        while i < dash.steps.len()
            invariant
                i <= dash.steps@.len(),
                steps == model::step_models(dash.steps@),
                line_models(lines@) == head + all_step_lines(steps.take(i as int)),
            decreases dash.steps@.len() - i,
        {
            proof {
                assert(steps.take(i + 1).drop_last() == steps.take(i as int));
                assert(steps.take(i + 1).last() == dash.steps@[i as int]@);
            }
            put_step(&mut lines, &dash.steps[i]);
            i += 1;
            assert(line_models(lines@) =~= head + all_step_lines(steps.take(i as int)));
        }
        assert(steps.take(dash.steps@.len() as int) == steps);
        if dash.next_action.as_str().unicode_len() > 0 && !has_explanation(
            &dash.steps,
            dash.next_action.as_str(),
        ) {
            put_line(&mut lines, line_of(dim(dash.next_action.as_str())));
        }
    }
    assert(line_models(lines@) =~= services_lines(dash@));
    lines
}

} // verus!
