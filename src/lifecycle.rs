//! Startup ordering. The single-instance guard runs first: a secondary launch
//! forwards its invocation to the running process and exits before any window
//! exists; a primary launch resolves the windows, configures them for the
//! platform, installs the tray and the close interception, and finally starts
//! the configuration bootstrap.

use crate::platform::window_setup;
use crate::platform::window_setup_spec;
use crate::platform::Platform;
use crate::platform::WindowOp;
use vstd::prelude::*;

verus! {

/// What the single-instance guard made of this launch.
#[derive(Clone, Copy, PartialEq, Eq, Structural, Debug)]
pub enum LaunchRole {
    /// This process holds the instance lock and runs the application.
    Primary,
    /// Another process holds the lock; this one hands over and leaves.
    Secondary,
}

impl LaunchRole {
    /// The role of a launch that did (`true`) or did not claim the lock.
    pub fn from_lock(claimed: bool) -> (r: LaunchRole)
        ensures
            r == (if claimed { LaunchRole::Primary } else { LaunchRole::Secondary }),
    {
        if claimed {
            LaunchRole::Primary
        } else {
            LaunchRole::Secondary
        }
    }
}

/// One step of startup, after the instance lock has been tried.
#[derive(Clone, Copy, PartialEq, Eq, Structural, Debug)]
pub enum StartupStep {
    /// Hand the arguments and working directory to the running process.
    ForwardInvocation,
    /// Leave the process.
    Exit,
    /// Look up the main and settings windows; fatal if either is missing.
    ResolveWindows,
    /// One window configuration call.
    Configure(WindowOp),
    /// Build the tray menu from the pin flag and install it.
    InstallTray,
    /// Register the close-to-hide policy on every window.
    InstallCloseInterceptors,
    /// Start the configuration bootstrap, without waiting on its outcome.
    BootstrapConfig,
}

/// `ops` as configuration steps.
pub open spec fn configure_steps(ops: Seq<WindowOp>) -> Seq<StartupStep> {
    Seq::new(ops.len(), |i: int| StartupStep::Configure(ops[i]))
}

/// The steps of startup for a launch of role `role`, in order.
pub open spec fn startup_plan_spec(role: LaunchRole, platform: Platform, dev_build: bool) -> Seq<
    StartupStep,
> {
    match role {
        LaunchRole::Secondary => seq![StartupStep::ForwardInvocation, StartupStep::Exit],
        LaunchRole::Primary => seq![StartupStep::ResolveWindows] + configure_steps(
            window_setup_spec(platform, dev_build),
        ) + seq![
            StartupStep::InstallTray,
            StartupStep::InstallCloseInterceptors,
            StartupStep::BootstrapConfig,
        ],
    }
}

/// The steps of startup for a launch of role `role` on `platform`, in order.
pub fn startup_plan(role: LaunchRole, platform: Platform, dev_build: bool) -> (r: Vec<StartupStep>)
    ensures
        r@ == startup_plan_spec(role, platform, dev_build),
{
    let mut steps: Vec<StartupStep> = Vec::new();
    match role {
        LaunchRole::Secondary => {
            steps.push(StartupStep::ForwardInvocation);
            steps.push(StartupStep::Exit);
            assert(steps@ =~= startup_plan_spec(role, platform, dev_build));
        },
        LaunchRole::Primary => {
            steps.push(StartupStep::ResolveWindows);
            let ops = window_setup(platform, dev_build);
            let n = ops.len();
            let mut i: usize = 0;
            while i < n
                invariant
                    n == ops@.len(),
                    i <= n,
                    steps@ =~= seq![StartupStep::ResolveWindows] + configure_steps(
                        ops@.take(i as int),
                    ),
                decreases n - i,
            {
                steps.push(StartupStep::Configure(ops[i]));
                i = i + 1;
                assert(configure_steps(ops@.take(i as int)) =~= configure_steps(
                    ops@.take(i - 1 as int),
                ).push(StartupStep::Configure(ops@[i - 1])));
            }
            assert(ops@.take(n as int) =~= ops@);
            steps.push(StartupStep::InstallTray);
            steps.push(StartupStep::InstallCloseInterceptors);
            steps.push(StartupStep::BootstrapConfig);
            assert(steps@ =~= startup_plan_spec(role, platform, dev_build));
        },
    }
    steps
}

/// A launch while another instance runs opens no window, configures nothing,
/// installs no tray and ends in a bounded number of steps with its exit.
pub proof fn lemma_secondary_launch_is_inert(platform: Platform, dev_build: bool)
    ensures
        startup_plan_spec(LaunchRole::Secondary, platform, dev_build).len() == 2,
        startup_plan_spec(LaunchRole::Secondary, platform, dev_build).last() == StartupStep::Exit,
        forall|i: int|
            0 <= i < startup_plan_spec(LaunchRole::Secondary, platform, dev_build).len() ==> {
                let s = #[trigger] startup_plan_spec(LaunchRole::Secondary, platform, dev_build)[i];
                &&& s != StartupStep::ResolveWindows
                &&& !(s is Configure)
                &&& s != StartupStep::InstallTray
            },
{
}

/// A primary launch resolves the windows before anything else, configures
/// them before the tray and the close interception are installed, and starts
/// the configuration bootstrap last.
pub proof fn lemma_primary_launch_order(platform: Platform, dev_build: bool)
    ensures
        ({
            let plan = startup_plan_spec(LaunchRole::Primary, platform, dev_build);
            let n = window_setup_spec(platform, dev_build).len() as int;
            &&& plan.len() == n + 4
            &&& plan[0] == StartupStep::ResolveWindows
            &&& forall|i: int| 1 <= i <= n ==> (#[trigger] plan[i]) is Configure
            &&& plan[n + 1] == StartupStep::InstallTray
            &&& plan[n + 2] == StartupStep::InstallCloseInterceptors
            &&& plan[n + 3] == StartupStep::BootstrapConfig
        }),
{
}

} // verus!
