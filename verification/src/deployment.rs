use vstd::prelude::*;
use vstd::string::*;

use crate::text::{decimal_text, push_decimal};

verus! {

/// How a Jetson should be hardened: the power mode to set, if any, and
/// whether to lock the clocks.
#[derive(Clone, Debug, PartialEq, Eq, Structural)]
pub struct JetsonHardeningConfig {
    pub nvpmodel_mode: Option<u8>,
    pub lock_clocks: bool,
}

/// A shell command of a deployment plan.
#[derive(Clone, Debug, PartialEq, Eq)]
pub struct DeploymentCommand {
    pub label: &'static str,
    pub command: String,
    pub mutates_system: bool,
}

/// An ordered list of deployment commands.
#[derive(Clone, Debug, PartialEq, Eq)]
pub struct JetsonHardeningPlan {
    pub commands: Vec<DeploymentCommand>,
}

/// What running a deployment command gave.
#[derive(Clone, Debug, PartialEq, Eq)]
pub struct CommandOutcome {
    pub label: &'static str,
    pub command: String,
    pub status_code: Option<i32>,
    pub success: bool,
}

/// A command as its label, its shell text and whether it changes the system.
pub type CommandView = (Seq<char>, Seq<char>, bool);

impl View for DeploymentCommand {
    type V = CommandView;

    open spec fn view(&self) -> CommandView {
        (self.label@, self.command@, self.mutates_system)
    }
}

impl View for JetsonHardeningPlan {
    type V = Seq<CommandView>;

    open spec fn view(&self) -> Seq<CommandView> {
        self.commands@.map_values(|c: DeploymentCommand| c@)
    }
}

/// The probes that read the board's state without changing it.
pub open spec fn status_command_views() -> Seq<CommandView> {
    seq![
        ("l4t_release"@, "cat /etc/nv_tegra_release 2>/dev/null || true"@, false),
        ("architecture"@, "uname -m"@, false),
        ("nvpmodel_status"@, "nvpmodel -q 2>/dev/null || true"@, false),
        ("clock_status"@, "sudo -n jetson_clocks --show 2>/dev/null || true"@, false),
        (
            "tegrastats_sample"@,
            "tegrastats --interval 1000 2>/dev/null & pid=$!; sleep 2; kill $pid 2>/dev/null || true; wait $pid 2>/dev/null || true"@,
            false,
        ),
    ]
}

/// The hardening plan for `config`: set the power mode when one is given,
/// lock the clocks when asked, then run the status probes.
pub open spec fn hardening_plan_views(config: JetsonHardeningConfig) -> Seq<CommandView> {
    (match config.nvpmodel_mode {
        Some(mode) => seq![("set_nvpmodel"@, "sudo nvpmodel -m "@ + decimal_text(mode as nat), true)],
        None => Seq::empty(),
    }) + (if config.lock_clocks {
        seq![("lock_clocks"@, "sudo jetson_clocks"@, true)]
    } else {
        Seq::empty()
    }) + status_command_views()
}

/// The plan that undoes the clock lock and shows the clocks.
pub open spec fn restore_plan_views() -> Seq<CommandView> {
    seq![
        ("restore_clocks"@, "sudo jetson_clocks --restore"@, true),
        ("show_clocks"@, "sudo -n jetson_clocks --show 2>/dev/null || true"@, false),
    ]
}

/// One rendered line: `[apply]` or `[status]`, the label, a colon and the command.
pub open spec fn rendered_line(c: CommandView) -> Seq<char> {
    "["@ + (if c.2 { "apply"@ } else { "status"@ }) + "] "@ + c.0 + ": "@ + c.1
}

/// The rendered lines joined by newlines.
pub open spec fn rendered_plan(cs: Seq<CommandView>) -> Seq<char>
    decreases cs.len(),
{
    if cs.len() == 0 {
        Seq::empty()
    } else if cs.len() == 1 {
        rendered_line(cs[0])
    } else {
        rendered_plan(cs.drop_last()) + "\n"@ + rendered_line(cs.last())
    }
}

fn command(label: &'static str, text: &str, mutates_system: bool) -> (c: DeploymentCommand)
    ensures
        c@ == (label@, text@, mutates_system),
{
    DeploymentCommand { label, command: String::from_str(text), mutates_system }
}

fn push_status_commands(commands: &mut Vec<DeploymentCommand>)
    ensures
        final(commands)@.map_values(|c: DeploymentCommand| c@) == old(commands)@.map_values(
            |c: DeploymentCommand| c@,
        ) + status_command_views(),
{
    commands.push(command("l4t_release", "cat /etc/nv_tegra_release 2>/dev/null || true", false));
    commands.push(command("architecture", "uname -m", false));
    commands.push(command("nvpmodel_status", "nvpmodel -q 2>/dev/null || true", false));
    commands.push(command("clock_status", "sudo -n jetson_clocks --show 2>/dev/null || true", false));
    commands.push(
        command(
            "tegrastats_sample",
            "tegrastats --interval 1000 2>/dev/null & pid=$!; sleep 2; kill $pid 2>/dev/null || true; wait $pid 2>/dev/null || true",
            false,
        ),
    );
    assert(final(commands)@.map_values(|c: DeploymentCommand| c@) =~= old(commands)@.map_values(
        |c: DeploymentCommand| c@,
    ) + status_command_views());
}

fn status_commands() -> (commands: Vec<DeploymentCommand>)
    ensures
        commands@.map_values(|c: DeploymentCommand| c@) == status_command_views(),
{
    let mut commands: Vec<DeploymentCommand> = Vec::new();
    push_status_commands(&mut commands);
    assert(commands@.map_values(|c: DeploymentCommand| c@) =~= status_command_views());
    commands
}

impl Default for JetsonHardeningConfig {
    fn default() -> (config: Self)
        ensures
            config.nvpmodel_mode == Some(0u8),
            config.lock_clocks,
    {
        JetsonHardeningConfig { nvpmodel_mode: Some(0), lock_clocks: true }
    }
}

impl JetsonHardeningConfig {
    /// The hardening plan: the power mode command when a mode is set, the
    /// clock lock when asked for, then the status probes.
    pub fn plan(&self) -> (plan: JetsonHardeningPlan)
        ensures
            plan@ == hardening_plan_views(*self),
    {
        let mut commands: Vec<DeploymentCommand> = Vec::new();
        if let Some(mode) = self.nvpmodel_mode {
            let mut text = String::from_str("sudo nvpmodel -m ");
            push_decimal(&mut text, mode as u64);
            commands.push(DeploymentCommand { label: "set_nvpmodel", command: text, mutates_system: true });
        }
        if self.lock_clocks {
            commands.push(command("lock_clocks", "sudo jetson_clocks", true));
        }
        push_status_commands(&mut commands);
        let plan = JetsonHardeningPlan { commands };
        assert(plan@ =~= hardening_plan_views(*self));
        plan
    }

    /// The plan that restores the clocks.
    pub fn restore_plan() -> (plan: JetsonHardeningPlan)
        ensures
            plan@ == restore_plan_views(),
    {
        let mut commands: Vec<DeploymentCommand> = Vec::new();
        commands.push(command("restore_clocks", "sudo jetson_clocks --restore", true));
        commands.push(command("show_clocks", "sudo -n jetson_clocks --show 2>/dev/null || true", false));
        let plan = JetsonHardeningPlan { commands };
        assert(plan@ =~= restore_plan_views());
        plan
    }
}

impl JetsonHardeningPlan {
    /// The plan made of the status probes alone.
    pub fn status_plan() -> (plan: Self)
        ensures
            plan@ == status_command_views(),
    {
        JetsonHardeningPlan { commands: status_commands() }
    }

    /// The plan as text, one line per command.
    pub fn render(&self) -> (text: String)
        ensures
            text@ == rendered_plan(self@),
    {
        let mut text = String::new();
        let n = self.commands.len();
        let mut i: usize = 0;
        while i < n
            invariant
                n == self.commands@.len(),
                i <= n,
                text@ == rendered_plan(self@.take(i as int)),
            decreases n - i,
        {
            let c = &self.commands[i];
            let ghost before = text@;
            if i > 0 {
                text.append("\n");
            }
            let ghost after_separator = text@;
            text.append("[");
            if c.mutates_system {
                text.append("apply");
            } else {
                text.append("status");
            }
            text.append("] ");
            text.append(c.label);
            text.append(": ");
            text.append(c.command.as_str());
            proof {
                let cs = self@.take(i + 1);
                assert(cs.drop_last() =~= self@.take(i as int));
                assert(cs.last() == c@);
                assert(text@ =~= after_separator + rendered_line(c@));
                if i == 0 {
                    assert(before =~= Seq::<char>::empty());
                    assert(after_separator =~= Seq::<char>::empty());
                }
            }
            i = i + 1;
        }
        proof {
            assert(self@.take(n as int) =~= self@);
        }
        text
    }
}

/// The status plan never changes the system.
pub proof fn lemma_status_plan_is_read_only()
    ensures
        forall|k: int| 0 <= k < status_command_views().len() ==> !(#[trigger] status_command_views()[k]).2,
{
}

/// A hardening plan ends with the status probes, and the commands before
/// them are exactly the mutating ones: one for the power mode when a mode is
/// set and one for the clocks when they are locked.
pub proof fn lemma_hardening_plan_shape(config: JetsonHardeningConfig)
    ensures
        ({
            let plan = hardening_plan_views(config);
            let prefix = (if config.nvpmodel_mode is Some { 1int } else { 0int }) + (if config.lock_clocks {
                1int
            } else {
                0int
            });
            &&& plan.len() == prefix + status_command_views().len()
            &&& plan.subrange(prefix, plan.len() as int) == status_command_views()
            &&& forall|k: int| 0 <= k < plan.len() ==> ((#[trigger] plan[k]).2 <==> k < prefix)
        }),
{
    let plan = hardening_plan_views(config);
    let prefix = (if config.nvpmodel_mode is Some { 1int } else { 0int }) + (if config.lock_clocks {
        1int
    } else {
        0int
    });
    assert(plan.subrange(prefix, plan.len() as int) =~= status_command_views());
}

} // verus!
