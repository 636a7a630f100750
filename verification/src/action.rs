//! The quick actions of the terminal dashboard.
//!
//! Each is a labelled run of an existing `ados` or `systemctl` command. The set
//! is small on purpose: it opens no write path to the agent of its own.
use crate::text;
use vstd::prelude::*;

verus! {

/// What an action runs.
#[derive(Debug, Clone, PartialEq, Eq)]
pub enum Command {
    /// A fixed program and its arguments.
    Run(&'static str, Vec<&'static str>),
    /// A restart of the radio unit that this node's profile runs.
    RestartRadio,
}

/// The model of a command.
#[verifier::ext_equal]
pub enum CommandModel {
    Run(Seq<char>, Seq<Seq<char>>),
    RestartRadio,
}

/// The models of literal arguments.
pub open spec fn words(v: Seq<&'static str>) -> Seq<Seq<char>> {
    Seq::new(v.len(), |i: int| v[i]@)
}

impl View for Command {
    type V = CommandModel;

    open spec fn view(&self) -> CommandModel {
        match self {
            Command::Run(program, args) => CommandModel::Run(program@, words(args@)),
            Command::RestartRadio => CommandModel::RestartRadio,
        }
    }
}

/// One quick action.
#[derive(Debug, Clone, PartialEq, Eq)]
pub struct Action {
    /// A key that runs it straight from the dashboard, if any.
    pub key: Option<char>,
    /// A short word for the bottom bar, where there is a key.
    pub short: &'static str,
    /// The label in the list of actions.
    pub label: &'static str,
    /// The description beside the label.
    pub desc: &'static str,
    /// Ask before running.
    pub confirm: bool,
    pub command: Command,
}

/// The model of an action.
#[verifier::ext_equal]
pub struct ActionModel {
    pub key: Option<char>,
    pub short: Seq<char>,
    pub label: Seq<char>,
    pub desc: Seq<char>,
    pub confirm: bool,
    pub command: CommandModel,
}

impl View for Action {
    type V = ActionModel;

    open spec fn view(&self) -> ActionModel {
        ActionModel {
            key: self.key,
            short: self.short@,
            label: self.label@,
            desc: self.desc@,
            confirm: self.confirm,
            command: self.command@,
        }
    }
}

/// The models of actions.
pub open spec fn action_models(v: Seq<Action>) -> Seq<ActionModel> {
    Seq::new(v.len(), |i: int| v[i]@)
}

/// Shown instead of running an update while the vehicle reports armed: an
/// update restarts the agent, which drops the MAVLink router, video and radio
/// in flight.
pub const UPDATE_REFUSED_ARMED: &'static str = "Update refused: the vehicle reports ARMED. Disarm first; an update restarts the MAVLink router, video and radio.";

/// Shown instead of restarting the radio while the profile is unknown: a drone
/// and a ground station run different units, and restarting the wrong one
/// starts a unit that is disabled on this profile.
pub const RADIO_PROFILE_UNKNOWN: &'static str = "Restart radio refused: the agent has not reported this node's profile yet, so the radio unit to restart is unknown.";

/// The radio unit that a profile runs.
pub open spec fn unit_of(profile: Seq<char>) -> Option<Seq<char>> {
    if profile == "drone"@ {
        Some("ados-wfb"@)
    } else if profile == "ground_station"@ {
        Some("ados-wfb-rx"@)
    } else {
        None
    }
}

/// The radio unit that a profile runs: the transmit unit of a drone, the
/// receive unit of a ground station, none for any other profile.
pub fn radio_unit(profile: &str) -> (r: Option<&'static str>)
    ensures
        match r {
            Some(u) => unit_of(profile@) == Some(u@),
            None => unit_of(profile@) is None,
        },
{
    if text::same(profile, "drone") {
        Some("ados-wfb")
    } else if text::same(profile, "ground_station") {
        Some("ados-wfb-rx")
    } else {
        None
    }
}

/// What a command runs on a node with the given profile; nothing when it
/// cannot run there.
pub open spec fn argv_of(c: CommandModel, profile: Option<Seq<char>>) -> Option<
    (Seq<char>, Seq<Seq<char>>),
> {
    match c {
        CommandModel::Run(program, args) => Some((program, args)),
        CommandModel::RestartRadio => match profile {
            Some(p) => match unit_of(p) {
                Some(unit) => Some(("sudo"@, seq!["systemctl"@, "restart"@, unit])),
                None => None,
            },
            None => None,
        },
    }
}

/// The command updates the agent.
pub open spec fn updates(c: CommandModel) -> bool {
    match c {
        CommandModel::Run(program, args) => program == "ados"@ && args.len() > 0 && args[0]
            == "update"@,
        CommandModel::RestartRadio => false,
    }
}

impl Action {
    /// The program and arguments to run on a node with this profile, or why
    /// the action cannot run there.
    pub fn argv(&self, profile: Option<&str>) -> (r: Result<
        (&'static str, Vec<&'static str>),
        &'static str,
    >)
        ensures
            ({
                let p = match profile {
                    Some(s) => Some(s@),
                    None => None,
                };
                match r {
                    Ok((program, args)) => argv_of(self@.command, p) == Some(
                        (program@, words(args@)),
                    ),
                    Err(e) => argv_of(self@.command, p) is None && e@ == RADIO_PROFILE_UNKNOWN@,
                }
            }),
    {
        match &self.command {
            Command::Run(program, args) => {
                let mut out: Vec<&'static str> = Vec::new();
                let mut i: usize = 0;
                while i < args.len()
                    invariant
                        i <= args@.len(),
                        out@ == args@.take(i as int),
                    decreases args@.len() - i,
                {
                    out.push(args[i]);
                    i += 1;
                    assert(args@.take(i as int) == args@.take(i - 1).push(args@[i - 1]));
                }
                assert(out@ =~= args@);
                Ok((*program, out))
            },
            Command::RestartRadio => {
                let unit = match profile {
                    Some(p) => radio_unit(p),
                    None => None,
                };
                match unit {
                    Some(u) => {
                        let args: Vec<&'static str> = vec!["systemctl", "restart", u];
                        assert(words(args@) =~= seq!["systemctl"@, "restart"@, u@]);
                        Ok(("sudo", args))
                    },
                    None => Err(RADIO_PROFILE_UNKNOWN),
                }
            },
        }
    }

    /// This is the action that updates the agent.
    pub fn is_update(&self) -> (r: bool)
        ensures
            r == updates(self@.command),
    {
        match &self.command {
            Command::Run(program, args) => text::same(program, "ados") && args.len() > 0
                && text::same(args[0], "update"),
            Command::RestartRadio => false,
        }
    }
}

/// One entry of the table of actions that runs a fixed command.
pub open spec fn entry(
    key: Option<char>,
    short: Seq<char>,
    label: Seq<char>,
    desc: Seq<char>,
    confirm: bool,
    program: Seq<char>,
    args: Seq<Seq<char>>,
) -> ActionModel {
    ActionModel { key, short, label, desc, confirm, command: CommandModel::Run(program, args) }
}

/// The quick actions in the order in which they are listed.
pub open spec fn action_table() -> Seq<ActionModel> {
    seq![
        entry(
            Some('d'),
            "driver"@,
            "Install RTL driver"@,
            "Build the RTL8812EU WFB kernel driver if missing"@,
            true,
            "ados"@,
            seq!["radio"@, "install-driver"@],
        ),
        entry(
            Some('p'),
            "pair"@,
            "Pair"@,
            "Show Mission Control pairing info"@,
            false,
            "ados"@,
            seq!["pair"@],
        ),
        entry(
            Some('l'),
            "logs"@,
            "Logs"@,
            "Follow the agent logs"@,
            false,
            "ados"@,
            seq!["logs"@, "tail"@],
        ),
        entry(
            None,
            ""@,
            "Radio status"@,
            "Show the WFB radio link"@,
            false,
            "ados"@,
            seq!["radio"@, "status"@],
        ),
        entry(
            None,
            ""@,
            "Update agent"@,
            "Update the agent to the latest"@,
            true,
            "ados"@,
            seq!["update"@],
        ),
        ActionModel {
            key: None,
            short: ""@,
            label: "Restart radio"@,
            desc: "Restart this node's WFB radio service"@,
            confirm: true,
            command: CommandModel::RestartRadio,
        },
        entry(
            None,
            ""@,
            "Unpair"@,
            "Release this agent's pairing"@,
            true,
            "ados"@,
            seq!["unpair"@],
        ),
        entry(
            None,
            ""@,
            "Reboot host"@,
            "Reboot this device"@,
            true,
            "sudo"@,
            seq!["systemctl"@, "reboot"@],
        ),
    ]
}

/// How many quick actions there are.
pub const ACTION_COUNT: usize = 8;

/// Where the update stands among the actions.
pub const UPDATE_INDEX: usize = 4;

fn fixed(
    key: Option<char>,
    short: &'static str,
    label: &'static str,
    desc: &'static str,
    confirm: bool,
    program: &'static str,
    args: Vec<&'static str>,
) -> (r: Action)
    ensures
        r@ == entry(key, short@, label@, desc@, confirm, program@, words(args@)),
{
    Action { key, short, label, desc, confirm, command: Command::Run(program, args) }
}

/// The quick actions in the order in which they are listed. The first three
/// have keys of their own.
#[allow(non_snake_case)]
pub fn ACTIONS() -> (r: Vec<Action>)
    ensures
        action_models(r@) == action_table(),
        r@.len() == ACTION_COUNT,
{
    let driver: Vec<&'static str> = vec!["radio", "install-driver"];
    let pair: Vec<&'static str> = vec!["pair"];
    let logs: Vec<&'static str> = vec!["logs", "tail"];
    let status: Vec<&'static str> = vec!["radio", "status"];
    let update: Vec<&'static str> = vec!["update"];
    let unpair: Vec<&'static str> = vec!["unpair"];
    let reboot: Vec<&'static str> = vec!["systemctl", "reboot"];
    proof {
        assert(words(driver@) =~= seq!["radio"@, "install-driver"@]);
        assert(words(pair@) =~= seq!["pair"@]);
        assert(words(logs@) =~= seq!["logs"@, "tail"@]);
        assert(words(status@) =~= seq!["radio"@, "status"@]);
        assert(words(update@) =~= seq!["update"@]);
        assert(words(unpair@) =~= seq!["unpair"@]);
        assert(words(reboot@) =~= seq!["systemctl"@, "reboot"@]);
    }
    let mut out: Vec<Action> = Vec::new();
    out.push(
        fixed(
            Some('d'),
            "driver",
            "Install RTL driver",
            "Build the RTL8812EU WFB kernel driver if missing",
            true,
            "ados",
            driver,
        ),
    );
    out.push(
        fixed(Some('p'), "pair", "Pair", "Show Mission Control pairing info", false, "ados", pair),
    );
    out.push(fixed(Some('l'), "logs", "Logs", "Follow the agent logs", false, "ados", logs));
    out.push(fixed(None, "", "Radio status", "Show the WFB radio link", false, "ados", status));
    out.push(
        fixed(None, "", "Update agent", "Update the agent to the latest", true, "ados", update),
    );
    out.push(
        Action {
            key: None,
            short: "",
            label: "Restart radio",
            desc: "Restart this node's WFB radio service",
            confirm: true,
            command: Command::RestartRadio,
        },
    );
    out.push(fixed(None, "", "Unpair", "Release this agent's pairing", true, "ados", unpair));
    out.push(fixed(None, "", "Reboot host", "Reboot this device", true, "sudo", reboot));
    assert(action_models(out@) =~= action_table());
    out
}

/// The update is the only entry that updates the agent.
proof fn lemma_one_update()
    ensures
        forall|i: int|
            0 <= i < action_table().len() ==> (updates((#[trigger] action_table()[i]).command)
                <==> i == UPDATE_INDEX),
{
    reveal_strlit("update");
    reveal_strlit("radio");
    reveal_strlit("pair");
    reveal_strlit("logs");
    reveal_strlit("unpair");
    reveal_strlit("ados");
    reveal_strlit("sudo");
    assert("update"@[0] == 'u' && "radio"@[0] == 'r' && "pair"@[0] == 'p' && "logs"@[0] == 'l');
    assert("unpair"@[1] == 'n' && "update"@[1] == 'p');
    assert("ados"@[0] == 'a' && "sudo"@[0] == 's');
}

/// The entry that an operator's request to update stands for, which always
/// asks before it runs; refused while the vehicle reports armed. An unknown
/// arm state is no refusal: the question still stands before the update.
pub fn update_request(armed: Option<bool>) -> (r: Result<Action, &'static str>)
    ensures
        match r {
            Ok(a) => armed != Some(true) && a@ == action_table()[UPDATE_INDEX as int],
            Err(e) => armed == Some(true) && e@ == UPDATE_REFUSED_ARMED@,
        },
        r is Ok <==> armed != Some(true),
{
    if let Some(true) = armed {
        return Err(UPDATE_REFUSED_ARMED);
    }
    let mut all = ACTIONS();
    assert(all@[UPDATE_INDEX as int]@ == action_models(all@)[UPDATE_INDEX as int]);
    Ok(all.swap_remove(UPDATE_INDEX))
}

/// The one action that updates the agent asks before it runs, and runs the
/// plain form of the command, which asks again.
pub proof fn law_updates_are_confirmed(i: int, profile: Option<Seq<char>>)
    requires
        0 <= i < action_table().len(),
        updates(action_table()[i].command),
    ensures
        i == UPDATE_INDEX,
        action_table()[i].confirm,
        argv_of(action_table()[i].command, profile) == Some(("ados"@, seq!["update"@])),
{
    lemma_one_update();
}

/// No two actions share a key.
pub proof fn law_keys_are_distinct(i: int, j: int)
    requires
        0 <= i < j < action_table().len(),
        action_table()[i].key is Some,
    ensures
        action_table()[i].key != action_table()[j].key,
{
}

/// A drone never restarts a ground station's radio unit nor the other way
/// round, and a node with any other profile restarts none.
pub proof fn law_radio_restart_fits_the_profile(profile: Option<Seq<char>>)
    ensures
        argv_of(CommandModel::RestartRadio, profile) is Some <==> profile == Some("drone"@)
            || profile == Some("ground_station"@),
        profile == Some("drone"@) ==> (argv_of(CommandModel::RestartRadio, profile)->0).1[2]
            == "ados-wfb"@,
        profile == Some("ground_station"@) ==> (argv_of(
            CommandModel::RestartRadio,
            profile,
        )->0).1[2] == "ados-wfb-rx"@,
{
    reveal_strlit("drone");
    reveal_strlit("ground_station");
    assert("drone"@.len() != "ground_station"@.len());
}

/// Looking never asks first; whatever changes the node does.
pub proof fn law_changes_are_confirmed(i: int)
    requires
        0 <= i < action_table().len(),
    ensures
        action_table().len() == 8,
        action_table()[i].confirm <==> i != 1 && i != 2 && i != 3,
{
}

/// What the actions run: an action with a fixed command runs it whatever the
/// profile is, and each has its own.
pub proof fn law_what_the_actions_run(profile: Option<Seq<char>>)
    ensures
        ({
            let runs = |i: int| argv_of(action_table()[i].command, profile);
            &&& runs(0) == Some(("ados"@, seq!["radio"@, "install-driver"@]))
            &&& runs(1) == Some(("ados"@, seq!["pair"@]))
            &&& runs(2) == Some(("ados"@, seq!["logs"@, "tail"@]))
            &&& runs(3) == Some(("ados"@, seq!["radio"@, "status"@]))
            &&& runs(4) == Some(("ados"@, seq!["update"@]))
            &&& runs(6) == Some(("ados"@, seq!["unpair"@]))
            &&& runs(7) == Some(("sudo"@, seq!["systemctl"@, "reboot"@]))
            &&& profile == Some("drone"@) ==> runs(5) == Some(
                ("sudo"@, seq!["systemctl"@, "restart"@, "ados-wfb"@]),
            )
            &&& profile == Some("ground_station"@) ==> runs(5) == Some(
                ("sudo"@, seq!["systemctl"@, "restart"@, "ados-wfb-rx"@]),
            )
            &&& profile is None ==> runs(5) is None
        }),
{
    reveal_strlit("drone");
    reveal_strlit("ground_station");
    assert("drone"@[0] != "ground_station"@[0]);
}

/// A fixed command is run as it stands.
pub proof fn law_fixed_commands_run_as_they_stand(
    program: Seq<char>,
    args: Seq<Seq<char>>,
    profile: Option<Seq<char>>,
)
    ensures
        argv_of(CommandModel::Run(program, args), profile) == Some((program, args)),
        updates(CommandModel::Run(program, args)) <==> program == "ados"@ && args.len() > 0
            && args[0] == "update"@,
        !updates(CommandModel::RestartRadio),
{
}

/// The model of an action is what its fields hold, and a list of them is
/// modelled one for one.
pub proof fn law_actions_are_what_they_hold(a: Action, v: Seq<Action>, w: Seq<&'static str>, i: int)
    ensures
        a@.key == a.key && a@.confirm == a.confirm,
        a@.short == a.short@ && a@.label == a.label@ && a@.desc == a.desc@,
        a.command matches Command::Run(program, args) ==> a@.command == CommandModel::Run(
            program@,
            words(args@),
        ),
        a.command is RestartRadio ==> a@.command is RestartRadio,
        action_models(v).len() == v.len(),
        0 <= i < v.len() ==> action_models(v)[i] == v[i]@,
        words(w).len() == w.len(),
        0 <= i < w.len() ==> words(w)[i] == w[i]@,
{
}

/// What is said where an action is refused.
pub proof fn law_refusals_in_words()
    ensures
        UPDATE_REFUSED_ARMED@
            == "Update refused: the vehicle reports ARMED. Disarm first; an update restarts the MAVLink router, video and radio."@,
        RADIO_PROFILE_UNKNOWN@
            == "Restart radio refused: the agent has not reported this node's profile yet, so the radio unit to restart is unknown."@,
{
}

} // verus!
