//! Actions, keys, versions and colours of the terminal dashboard.
use ados_media::action::{
    radio_unit, update_request, ACTIONS, RADIO_PROFILE_UNKNOWN, UPDATE_INDEX, UPDATE_REFUSED_ARMED,
};
use ados_media::cockpit::{action_for_key, Cockpit, Facts, Key, Reaction};
use ados_media::theme;
use ados_media::theme::{color_for, resolve_tier, Color, Tier};
use ados_media::update::{is_newer, parse_tuple, parse_version};

const AMBER: (u8, u8, u8) = (235, 193, 87);

#[test]
fn an_update_request_is_confirmed_and_refused_while_armed() {
    let a = update_request(Some(false)).expect("disarmed runs");
    assert!(a.confirm, "the update always asks y/N");
    assert_eq!(
        a.argv(None).unwrap(),
        ("ados", vec!["update"]),
        "never the non-interactive --yes form"
    );
    assert!(update_request(None).is_ok_and(|a| a.confirm));
    assert_eq!(update_request(Some(true)).err(), Some(UPDATE_REFUSED_ARMED));
}

#[test]
fn restart_radio_restarts_the_unit_the_profile_runs() {
    let actions = ACTIONS();
    let restart = actions
        .iter()
        .find(|a| a.label == "Restart radio")
        .expect("ACTIONS carries the radio restart");
    assert!(restart.confirm);
    assert_eq!(
        restart.argv(Some("ground_station")).unwrap(),
        ("sudo", vec!["systemctl", "restart", "ados-wfb-rx"]),
        "a ground station receives on ados-wfb-rx; ados-wfb is disabled there"
    );
    assert_eq!(
        restart.argv(Some("drone")).unwrap(),
        ("sudo", vec!["systemctl", "restart", "ados-wfb"])
    );
    assert_eq!(restart.argv(None), Err(RADIO_PROFILE_UNKNOWN));
    assert_eq!(restart.argv(Some("?")), Err(RADIO_PROFILE_UNKNOWN));
}

#[test]
fn the_action_table_is_complete() {
    let actions = ACTIONS();
    let labels: Vec<&str> = actions.iter().map(|a| a.label).collect();
    assert_eq!(
        labels,
        vec![
            "Install RTL driver",
            "Pair",
            "Logs",
            "Radio status",
            "Update agent",
            "Restart radio",
            "Unpair",
            "Reboot host"
        ]
    );
    assert_eq!(actions.iter().filter(|a| a.is_update()).count(), 1);
    assert!(actions[UPDATE_INDEX].is_update());
    assert_eq!(actions[7].argv(None).unwrap(), ("sudo", vec!["systemctl", "reboot"]));
    assert_eq!(radio_unit("relay"), None);
}

#[test]
fn resolve_tier_reads_the_ladder() {
    assert_eq!(resolve_tier(true, "xterm-256color", "truecolor"), Tier::Plain);
    assert_eq!(resolve_tier(false, "dumb", "truecolor"), Tier::Plain);
    assert_eq!(resolve_tier(false, "xterm", "truecolor"), Tier::Truecolor);
    assert_eq!(resolve_tier(false, "xterm", "24bit"), Tier::Truecolor);
    assert_eq!(resolve_tier(false, "xterm-256color", ""), Tier::Ansi256);
    assert_eq!(resolve_tier(false, "xterm", ""), Tier::Basic);
    assert_eq!(resolve_tier(false, "xterm", "TrueColor"), Tier::Truecolor);
}

#[test]
fn color_for_falls_back_per_tier() {
    assert_eq!(
        color_for(Tier::Truecolor, AMBER, 179, Color::Yellow),
        Color::Rgb(235, 193, 87)
    );
    assert_eq!(
        color_for(Tier::Ansi256, AMBER, 179, Color::Yellow),
        Color::Indexed(179)
    );
    assert_eq!(
        color_for(Tier::Basic, AMBER, 179, Color::Yellow),
        Color::Yellow
    );
    assert_eq!(
        color_for(Tier::Plain, AMBER, 179, Color::Yellow),
        Color::Reset
    );
}

#[test]
fn the_palette_is_amber_on_charcoal() {
    assert_eq!(theme::accent(Tier::Truecolor), Color::Rgb(235, 193, 87));
    assert_eq!(theme::muted(Tier::Ansi256), Color::Indexed(245));
    assert_eq!(theme::heading(Tier::Basic), Color::White);
    assert_eq!(theme::on_amber(Tier::Truecolor), Color::Rgb(26, 26, 26));
    assert_eq!(theme::success(Tier::Basic), Color::Green);
    assert_eq!(theme::warning(Tier::Ansi256), Color::Indexed(179));
    assert_eq!(theme::danger(Tier::Truecolor), Color::Rgb(224, 108, 90));
    assert_eq!(theme::danger(Tier::Plain), Color::Reset);
    assert_eq!(theme::background(Tier::Truecolor), Some(Color::Rgb(31, 31, 31)));
    assert_eq!(theme::background(Tier::Ansi256), Some(Color::Indexed(234)));
    assert_eq!(theme::background(Tier::Basic), None);
}

#[test]
fn parses_version_from_source() {
    assert_eq!(
        parse_version("__version__ = \"0.99.108\"\n").as_deref(),
        Some("0.99.108")
    );
    assert_eq!(
        parse_version("x = 1\n__version__='1.2.3'  # note\n").as_deref(),
        Some("1.2.3")
    );
    assert_eq!(parse_version("no version here"), None);
    assert_eq!(parse_version("__version__ = \" 1.2 \"").as_deref(), Some("1.2"));
    assert_eq!(parse_version("__version__ = \"\""), None);
    assert_eq!(parse_version("__version__ = \"1.2"), None);
    assert_eq!(parse_version("__version__ = 1"), None);
    assert_eq!(parse_version("__version__"), None);
}

#[test]
fn newer_uses_numeric_tuple_order() {
    assert!(is_newer("0.99.109", "0.99.108"));
    assert!(is_newer("0.100.0", "0.99.108"));
    assert!(is_newer("0.99.108", "0.99"));
    assert!(!is_newer("0.99.108", "0.99.108"));
    assert!(!is_newer("0.99.107", "0.99.108"));
    assert!(!is_newer("0.99.108", "?"));
}

#[test]
fn newer_falls_back_for_non_numeric() {
    assert!(is_newer("2.0.0-rc1", "1.9.9"));
    assert!(!is_newer("", "1.0.0"));
}

#[test]
fn dotted_versions_are_read_part_by_part() {
    assert_eq!(parse_tuple("0.99.108"), Some(vec![0, 99, 108]));
    assert_eq!(parse_tuple("1..2"), None);
    assert_eq!(parse_tuple(""), None);
    assert_eq!(parse_tuple("18446744073709551616"), None);
}

fn facts(update_available: bool, armed: Option<bool>) -> Facts {
    Facts { update_available, armed }
}

#[test]
fn control_c_quits_from_every_screen() {
    for s in [
        Cockpit::default(),
        Cockpit { update_splash: true, ..Cockpit::default() },
        Cockpit { actions_selected: Some(3), ..Cockpit::default() },
    ] {
        let mut c = s;
        assert_eq!(c.press(Key::Char('c'), true, facts(false, None)), Reaction::Quit);
        assert_eq!(c, s);
    }
}

#[test]
fn the_splash_shows_once_and_takes_any_key() {
    let mut c = Cockpit::default();
    c.frame(facts(true, None));
    assert!(c.update_splash);
    assert_eq!(c.press(Key::Char('q'), false, facts(true, None)), Reaction::Stay);
    assert!(!c.update_splash && c.update_splash_done);
    c.frame(facts(true, None));
    assert!(!c.update_splash);
}

#[test]
fn the_splash_runs_the_update_unless_armed() {
    let up = Cockpit { update_splash: true, ..Cockpit::default() };
    let mut c = up;
    assert_eq!(
        c.press(Key::Enter, false, facts(true, Some(false))),
        Reaction::Run(UPDATE_INDEX)
    );
    let mut c = up;
    assert_eq!(
        c.press(Key::Char('U'), false, facts(true, Some(true))),
        Reaction::RefuseUpdate
    );
}

#[test]
fn the_splash_never_covers_the_list() {
    let mut c = Cockpit { actions_selected: Some(0), ..Cockpit::default() };
    c.frame(facts(true, None));
    assert!(!c.update_splash);
}

#[test]
fn the_list_moves_within_its_rows() {
    let f = facts(false, None);
    let mut c = Cockpit::default();
    assert_eq!(c.press(Key::Char('a'), false, f), Reaction::Stay);
    assert_eq!(c.actions_selected, Some(0));
    c.press(Key::Up, false, f);
    assert_eq!(c.actions_selected, Some(0));
    for _ in 0..20 {
        c.press(Key::Char('j'), false, f);
    }
    assert_eq!(c.actions_selected, Some(7));
    c.press(Key::Char('k'), false, f);
    assert_eq!(c.press(Key::Enter, false, f), Reaction::Run(6));
    assert_eq!(c.actions_selected, None);
    c.press(Key::Char('A'), false, f);
    assert_eq!(c.press(Key::Char('q'), false, f), Reaction::Stay);
    assert_eq!(c.actions_selected, None);
}

#[test]
fn the_list_refuses_an_update_while_armed() {
    let mut c = Cockpit { actions_selected: Some(UPDATE_INDEX), ..Cockpit::default() };
    assert_eq!(
        c.press(Key::Enter, false, facts(false, Some(true))),
        Reaction::RefuseUpdate
    );
}

#[test]
fn the_dashboard_keys() {
    let mut c = Cockpit::default();
    let f = facts(false, None);
    assert_eq!(c.press(Key::Char('Q'), false, f), Reaction::Quit);
    assert_eq!(c.press(Key::Char('r'), false, f), Reaction::Refresh);
    assert_eq!(c.press(Key::Char('u'), false, f), Reaction::Stay);
    assert_eq!(c.press(Key::Char('u'), false, facts(true, None)), Reaction::Run(UPDATE_INDEX));
    assert_eq!(c.press(Key::Char('P'), false, f), Reaction::Run(1));
    assert_eq!(c.press(Key::Char('c'), false, f), Reaction::Stay);
    assert_eq!(c.press(Key::Enter, false, f), Reaction::Stay);
    assert_eq!(c.press(Key::Other, false, f), Reaction::Stay);
    assert_eq!(action_for_key('l'), Some(2));
    assert_eq!(action_for_key('x'), None);
}
