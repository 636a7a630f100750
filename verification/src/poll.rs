//! What the render loop knows of the agent, and how one poll changes it.
use crate::health::Nanos;
use crate::json::Json;
use crate::model;
use crate::model::{Dashboard, DashboardModel, History};
use crate::text;
use vstd::prelude::*;

verus! {

/// How often the agent is polled.
pub const POLL_INTERVAL: Nanos = 2_000_000_000;

/// How long the render loop waits for a key.
pub const TICK: Nanos = 100_000_000;

/// Past this age without a successful poll the shown snapshot counts as stale,
/// so that an agent that has gone never keeps looking live.
pub const STALE_AFTER: Nanos = 6_000_000_000;

/// One poll of the agent: the setup status that the dashboard is built from,
/// and the native status with the link detail, when that route answered.
#[derive(Debug)]
pub struct PollResult {
    pub setup: Result<Json, String>,
    pub fc_status: Option<Json>,
}

/// What the render loop knows of the agent.
#[derive(Debug)]
pub struct AgentView {
    /// The dashboard of the last successful poll.
    pub dash: Option<Dashboard>,
    /// The trends, one sample per successful poll.
    pub history: History,
    /// Why the latest poll failed; cleared by the next success.
    pub error: Option<String>,
    /// The clock at the last successful poll.
    pub refreshed: Option<String>,
    /// The instant of the last successful poll.
    pub last_success: Option<Nanos>,
}

/// The dashboard that a successful poll brings.
pub open spec fn polled(setup: Json, fc_status: Option<Json>) -> DashboardModel {
    match fc_status {
        Some(fc) => model::with_fc_status(model::dashboard_of(setup), fc),
        None => model::dashboard_of(setup),
    }
}

/// The view `b` is what the view `a` becomes by one poll result.
pub open spec fn folds(
    a: AgentView,
    b: AgentView,
    setup: Result<Json, String>,
    fc_status: Option<Json>,
    now: Nanos,
    clock: Seq<char>,
) -> bool {
    match setup {
        Ok(s) => {
            let d = polled(s, fc_status);
            &&& b.dash is Some && b.dash->0@ == d
            &&& b.history.battery@ == model::sampled(a.history.battery@, d.battery)
            &&& b.history.alt@ == model::sampled(a.history.alt@, d.alt)
            &&& b.error is None
            &&& text::opt_view(b.refreshed) == Some(clock)
            &&& b.last_success == Some(now)
        },
        Err(e) => {
            &&& b.dash == a.dash
            &&& b.history == a.history
            &&& text::opt_view(b.error) == Some(e@)
            &&& b.refreshed == a.refreshed
            &&& b.last_success == a.last_success
        },
    }
}

/// The snapshot of `v` is older than `after` at `now`.
pub open spec fn outdated(v: AgentView, now: Nanos, after: Nanos) -> bool {
    match v.last_success {
        Some(t) => now - t > after,
        None => false,
    }
}

impl Default for AgentView {
    /// Nothing is known yet.
    fn default() -> (r: Self)
        ensures
            r.dash is None,
            r.history.battery@.len() == 0,
            r.history.alt@.len() == 0,
            r.error is None,
            r.refreshed is None,
            r.last_success is None,
    {
        AgentView {
            dash: None,
            history: History::default(),
            error: None,
            refreshed: None,
            last_success: None,
        }
    }
}

impl AgentView {
    /// Fold one poll result in. A success rebuilds the dashboard and moves the
    /// clock; a failure records its reason and leaves the last snapshot, and
    /// the time at which it was taken, as they were.
    pub fn apply(&mut self, result: PollResult, now: Nanos, clock: String)
        ensures
            folds(*old(self), *final(self), result.setup, result.fc_status, now, clock@),
    {
        match result.setup {
            Ok(setup) => {
                let mut dash = Dashboard::from_status(&setup);
                if let Some(fc) = &result.fc_status {
                    dash.merge_fc_status(fc);
                }
                assert(dash@ == polled(setup, result.fc_status));
                assert(dash.battery == dash@.battery && dash.alt == dash@.alt);
                self.history.record(&dash);
                self.dash = Some(dash);
                self.error = None;
                self.refreshed = Some(clock);
                self.last_success = Some(now);
            },
            Err(e) => {
                self.error = Some(e);
            },
        }
    }

    /// The shown snapshot is older than `after`.
    pub fn is_stale(&self, now: Nanos, after: Nanos) -> (r: bool)
        ensures
            r == outdated(*self, now, after),
    {
        match self.last_success {
            Some(t) => now > t && now - t > after,
            None => false,
        }
    }
}

/// Two digits.
pub open spec fn two_digits(n: nat) -> Seq<char> {
    seq![text::digit(n / 10), text::digit(n % 10)]
}

/// The time of day, to the second, of an instant in seconds since midnight of
/// some day.
pub open spec fn time_of_day(secs: nat) -> Seq<char> {
    let s = secs % 86_400;
    two_digits(s / 3600) + ":"@ + two_digits((s % 3600) / 60) + ":"@ + two_digits(s % 60)
}

fn two(n: u64) -> (r: String)
    requires
        n < 100,
    ensures
        r@ == two_digits(n as nat),
{
    let a = text::decimal_of(n / 10);
    let b = text::decimal_of(n % 10);
    let out = text::cat(a.as_str(), b.as_str());
    assert(out@ =~= two_digits(n as nat));
    out
}

/// The time of day in UTC, as `HH:MM:SS`, of an instant in seconds since the
/// Unix epoch.
pub fn hms(secs: u64) -> (r: String)
    ensures
        r@ == time_of_day(secs as nat),
{
    let s: u64 = secs % 86_400;
    let mut out = two(s / 3600);
    out.append(":");
    let m = two((s % 3600) / 60);
    out.append(m.as_str());
    out.append(":");
    let sec = two(s % 60);
    out.append(sec.as_str());
    out
}

// ---------------------------------------------------------------------------
// laws
// ---------------------------------------------------------------------------

/// A failed poll never makes a stale snapshot look fresh, nor a fresh one
/// stale: only time and successes do.
pub proof fn law_failure_moves_no_clock(
    a: AgentView,
    b: AgentView,
    setup: Result<Json, String>,
    fc_status: Option<Json>,
    now: Nanos,
    clock: Seq<char>,
    later: Nanos,
    after: Nanos,
)
    requires
        folds(a, b, setup, fc_status, now, clock),
        setup is Err,
    ensures
        outdated(b, later, after) == outdated(a, later, after),
        b.dash == a.dash,
        b.refreshed == a.refreshed,
{
}

/// A snapshot is fresh when it is taken and for `after` from then on, and once
/// stale it stays stale until the next success.
pub proof fn law_staleness_is_monotone(v: AgentView, now: Nanos, later: Nanos, after: Nanos)
    requires
        now <= later,
        outdated(v, now, after),
    ensures
        outdated(v, later, after),
        v.last_success is Some,
{
}

/// A view whose trends are within the cap keeps them within it.
pub proof fn law_trends_stay_bounded(
    a: AgentView,
    b: AgentView,
    setup: Result<Json, String>,
    fc_status: Option<Json>,
    now: Nanos,
    clock: Seq<char>,
)
    requires
        folds(a, b, setup, fc_status, now, clock),
        a.history.battery@.len() <= model::HISTORY_CAP,
        a.history.alt@.len() <= model::HISTORY_CAP,
    ensures
        b.history.battery@.len() <= model::HISTORY_CAP,
        b.history.alt@.len() <= model::HISTORY_CAP,
{
}

/// The clock reads hours, minutes and seconds in two digits each, whatever the
/// day.
pub proof fn law_the_clock_reads_the_time(day: nat, h: nat, m: nat, s: nat)
    requires
        h < 24,
        m < 60,
        s < 60,
    ensures
        time_of_day(day * 86_400 + h * 3600 + m * 60 + s) == two_digits(h) + ":"@ + two_digits(m)
            + ":"@ + two_digits(s),
{
    let t = h * 3600 + m * 60 + s;
    let all = day * 86_400 + t;
    assert(all % 86_400 == t) by (nonlinear_arith)
        requires
            all == day * 86_400 + t,
            0 <= t < 86_400,
    ;
    assert(t / 3600 == h);
    assert(t % 3600 == m * 60 + s);
    assert((t % 3600) / 60 == m);
    assert(t % 60 == s);
    assert((all % 86_400) == t);
}

/// Two digits spell their number.
pub proof fn law_two_digits_spell_their_number(n: nat)
    requires
        n < 100,
    ensures
        two_digits(n).len() == 2,
        10 * (two_digits(n)[0] as int - '0' as int) + (two_digits(n)[1] as int - '0' as int) == n,
        '0' <= two_digits(n)[0] <= '9',
        '0' <= two_digits(n)[1] <= '9',
{
}

/// A snapshot is outdated exactly when more than the given time has passed
/// since the last success; without one there is nothing to be outdated.
pub proof fn law_when_a_snapshot_is_outdated(v: AgentView, now: Nanos, after: Nanos)
    ensures
        v.last_success is None ==> !outdated(v, now, after),
        v.last_success matches Some(t) ==> (outdated(v, now, after) <==> now > t + after),
{
}

/// A poll that succeeds replaces the snapshot, clears the error and notes the
/// time; one that fails keeps all of it and notes the error.
pub proof fn law_a_poll_replaces_or_keeps(
    a: AgentView,
    b: AgentView,
    setup: Result<Json, String>,
    fc_status: Option<Json>,
    now: Nanos,
    clock: Seq<char>,
)
    requires
        folds(a, b, setup, fc_status, now, clock),
    ensures
        b.error is None <==> setup is Ok,
        setup is Ok ==> b.dash is Some && b.last_success == Some(now) && text::opt_view(
            b.refreshed,
        ) == Some(clock),
        setup is Ok && fc_status is None ==> b.dash->0@ == model::dashboard_of(setup->Ok_0),
        setup is Ok && fc_status is Some ==> b.dash->0@ == model::with_fc_status(
            model::dashboard_of(setup->Ok_0),
            fc_status->0,
        ),
        setup is Ok && b.dash->0@.battery is None ==> b.history.battery@ == a.history.battery@,
        setup is Ok && b.dash->0@.battery is Some ==> b.history.battery@.last()
            == b.dash->0@.battery->0,
        setup is Ok && b.dash->0@.alt is None ==> b.history.alt@ == a.history.alt@,
        setup is Ok && b.dash->0@.alt is Some ==> b.history.alt@.last() == b.dash->0@.alt->0,
        setup is Err ==> b.last_success == a.last_success && b.history == a.history
            && text::opt_view(b.error) == Some(setup->Err_0@),
{
}

/// The node is asked every two seconds, the screen is looked after ten times a
/// second, and a picture is stale once three answers are missing.
pub proof fn law_the_times_of_the_dashboard()
    ensures
        POLL_INTERVAL == 2_000_000_000,
        TICK == 100_000_000,
        STALE_AFTER == 6_000_000_000,
        STALE_AFTER == 3 * POLL_INTERVAL,
{
}

} // verus!
