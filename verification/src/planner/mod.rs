//! Planners: what to install on a kind of machine, and in which order.
//!
//! A planner does not inspect the machine. It lists the actions to plan, in
//! order, as [`PlannedAction`] values; each is planned against the live
//! system by whoever drives the library.

pub mod bootc;

use vstd::prelude::*;
use vstd::std_specs::convert::FromSpecImpl;
use crate::action::{ActionError, ActionErrorView};
use crate::error::HasExpectedErrors;
use crate::planner::bootc::{Bootc, BootcError};
use crate::settings::InitSystem;

verus! {

/// Which SELinux policy package to install.
#[derive(Clone, Copy, Debug, PartialEq, Eq, Structural)]
pub enum SelinuxPolicy {
    /// The policy for upstream Nix.
    Nix,
    /// The policy for Determinate Nix.
    DeterminateNix,
}

/// One entry of a plan before it is planned against the machine: the kind
/// of action and the arguments that its planning takes.
#[derive(Debug)]
pub enum PlannedAction {
    /// Create a file with the given contents.
    CreateFile {
        path: String,
        user: Option<String>,
        group: Option<String>,
        mode: u32,
        buf: String,
        force: bool,
    },
    /// Create a directory.
    CreateDirectory {
        path: String,
        user: Option<String>,
        group: Option<String>,
        mode: u32,
        force_prune_on_revert: bool,
    },
    /// Provision the Determinate Nix daemon.
    ProvisionDeterminateNixd,
    /// Provision Nix itself, from the planner's common settings.
    ProvisionNix,
    /// Create the build users and their group, from the planner's common
    /// settings.
    CreateUsersAndGroups,
    /// Configure Nix and the default shell profiles, from the planner's
    /// common settings.
    ConfigureNix,
    /// Install an SELinux policy package at `policy_path`.
    ProvisionSelinux { policy_path: String, policy: SelinuxPolicy },
    /// Set up the daemon's service of the upstream distribution.
    ConfigureUpstreamInitService { init: InitSystem, start_daemon: bool },
    /// Move the directory `src` to `dest`.
    MoveDirectory { src: String, dest: String },
    /// Remove the directory `path`.
    RemoveDirectory { path: String },
}

/// The view of a [`PlannedAction`].
pub enum PlannedActionView {
    CreateFile {
        path: Seq<char>,
        user: Option<Seq<char>>,
        group: Option<Seq<char>>,
        mode: u32,
        buf: Seq<char>,
        force: bool,
    },
    CreateDirectory {
        path: Seq<char>,
        user: Option<Seq<char>>,
        group: Option<Seq<char>>,
        mode: u32,
        force_prune_on_revert: bool,
    },
    ProvisionDeterminateNixd,
    ProvisionNix,
    CreateUsersAndGroups,
    ConfigureNix,
    ProvisionSelinux { policy_path: Seq<char>, policy: SelinuxPolicy },
    ConfigureUpstreamInitService { init: InitSystem, start_daemon: bool },
    MoveDirectory { src: Seq<char>, dest: Seq<char> },
    RemoveDirectory { path: Seq<char> },
}

impl View for PlannedAction {
    type V = PlannedActionView;

    open spec fn view(&self) -> PlannedActionView {
        match self {
            PlannedAction::CreateFile { path, user, group, mode, buf, force } => {
                PlannedActionView::CreateFile {
                    path: path@,
                    user: user.deep_view(),
                    group: group.deep_view(),
                    mode: *mode,
                    buf: buf@,
                    force: *force,
                }
            },
            PlannedAction::CreateDirectory { path, user, group, mode, force_prune_on_revert } => {
                PlannedActionView::CreateDirectory {
                    path: path@,
                    user: user.deep_view(),
                    group: group.deep_view(),
                    mode: *mode,
                    force_prune_on_revert: *force_prune_on_revert,
                }
            },
            PlannedAction::ProvisionDeterminateNixd => PlannedActionView::ProvisionDeterminateNixd,
            PlannedAction::ProvisionNix => PlannedActionView::ProvisionNix,
            PlannedAction::CreateUsersAndGroups => PlannedActionView::CreateUsersAndGroups,
            PlannedAction::ConfigureNix => PlannedActionView::ConfigureNix,
            PlannedAction::ProvisionSelinux { policy_path, policy } => {
                PlannedActionView::ProvisionSelinux { policy_path: policy_path@, policy: *policy }
            },
            PlannedAction::ConfigureUpstreamInitService { init, start_daemon } => {
                PlannedActionView::ConfigureUpstreamInitService {
                    init: *init,
                    start_daemon: *start_daemon,
                }
            },
            PlannedAction::MoveDirectory { src, dest } => PlannedActionView::MoveDirectory {
                src: src@,
                dest: dest@,
            },
            PlannedAction::RemoveDirectory { path } => PlannedActionView::RemoveDirectory {
                path: path@,
            },
        }
    }
}

impl DeepView for PlannedAction {
    type V = PlannedActionView;

    open spec fn deep_view(&self) -> PlannedActionView {
        self@
    }
}

/// The operating system of the machine the installer runs on.
#[derive(Debug)]
pub enum HostOs {
    Linux,
    /// Any other system, by its name.
    Other(String),
}

/// Calls `target_lexicon::OperatingSystem::host`.
///
/// Nothing is claimed of the result: it is the system the installer was
/// built for. `Linux` is told apart; every other system comes back under
/// the name that `target_lexicon` prints for it.
#[verifier::external_body]
pub(crate) fn host_os() -> HostOs {
    match target_lexicon::OperatingSystem::host() {
        target_lexicon::OperatingSystem::Linux => HostOs::Linux,
        other => HostOs::Other(other.to_string()),
    }
}

/// What a planner needs to know of the machine before it installs or
/// uninstalls.
#[derive(Clone, Copy, Debug)]
pub struct HostFacts {
    /// Whether the machine runs NixOS.
    pub is_nixos: bool,
    /// Whether Nix is installed on the machine.
    pub nix_installed: bool,
    /// Whether the machine is a WSL1 guest.
    pub is_wsl1: bool,
}

/// Why a planner refuses to plan, install or uninstall.
#[derive(Debug)]
pub enum PlannerError {
    /// The planner is of no use on this operating system.
    IncompatibleOperatingSystem { planner: String, host_os: String },
    /// An action could not be planned.
    Action(ActionError),
    /// NixOS installs Nix by itself.
    NixOs,
    /// Nix is installed already.
    NixExists,
    /// WSL1 is not supported.
    Wsl1,
    /// An error of the bootc planner.
    Custom(BootcError),
}

/// The view of a [`PlannerError`].
pub enum PlannerErrorView {
    IncompatibleOperatingSystem { planner: Seq<char>, host_os: Seq<char> },
    Action(ActionErrorView),
    NixOs,
    NixExists,
    Wsl1,
    Custom(BootcError),
}

impl View for PlannerError {
    type V = PlannerErrorView;

    open spec fn view(&self) -> PlannerErrorView {
        match self {
            PlannerError::IncompatibleOperatingSystem { planner, host_os } => {
                PlannerErrorView::IncompatibleOperatingSystem {
                    planner: planner@,
                    host_os: host_os@,
                }
            },
            PlannerError::Action(error) => PlannerErrorView::Action(error@),
            PlannerError::NixOs => PlannerErrorView::NixOs,
            PlannerError::NixExists => PlannerErrorView::NixExists,
            PlannerError::Wsl1 => PlannerErrorView::Wsl1,
            PlannerError::Custom(error) => PlannerErrorView::Custom(*error),
        }
    }
}

impl From<BootcError> for PlannerError {
    fn from(error: BootcError) -> (wrapped: PlannerError) {
        PlannerError::Custom(error)
    }
}

impl FromSpecImpl<BootcError> for PlannerError {
    open spec fn obeys_from_spec() -> bool {
        true
    }

    open spec fn from_spec(error: BootcError) -> PlannerError {
        PlannerError::Custom(error)
    }
}

impl HasExpectedErrors for PlannerError {
    /// Expected: the wrong operating system, a machine that has Nix or
    /// brings its own, an unsupported guest, and what the bootc planner
    /// expects.
    open spec fn is_expected(&self) -> bool {
        match self {
            PlannerError::IncompatibleOperatingSystem { .. } => true,
            PlannerError::Action(_) => false,
            PlannerError::NixOs => true,
            PlannerError::NixExists => true,
            PlannerError::Wsl1 => true,
            PlannerError::Custom(error) => error.is_expected(),
        }
    }

    fn expected(&self) -> (expected: Option<&Self>) {
        match self {
            PlannerError::IncompatibleOperatingSystem { .. } => Some(self),
            PlannerError::Action(_) => None,
            PlannerError::NixOs => Some(self),
            PlannerError::NixExists => Some(self),
            PlannerError::Wsl1 => Some(self),
            PlannerError::Custom(error) => match error.expected() {
                Some(_) => Some(self),
                None => None,
            },
        }
    }
}

/// Refuses a machine that runs NixOS.
pub fn check_not_nixos(host: &HostFacts) -> (checked: Result<(), PlannerError>)
    ensures
        checked is Ok <==> !host.is_nixos,
        checked matches Err(error) ==> error@ == PlannerErrorView::NixOs,
{
    if host.is_nixos {
        Err(PlannerError::NixOs)
    } else {
        Ok(())
    }
}

/// Refuses a machine that has Nix.
pub fn check_nix_not_already_installed(host: &HostFacts) -> (checked: Result<(), PlannerError>)
    ensures
        checked is Ok <==> !host.nix_installed,
        checked matches Err(error) ==> error@ == PlannerErrorView::NixExists,
{
    if host.nix_installed {
        Err(PlannerError::NixExists)
    } else {
        Ok(())
    }
}

/// Refuses a WSL1 guest.
pub fn check_not_wsl1(host: &HostFacts) -> (checked: Result<(), PlannerError>)
    ensures
        checked is Ok <==> !host.is_wsl1,
        checked matches Err(error) ==> error@ == PlannerErrorView::Wsl1,
{
    if host.is_wsl1 {
        Err(PlannerError::Wsl1)
    } else {
        Ok(())
    }
}

/// The planners that come with the installer.
#[derive(Debug)]
pub enum BuiltinPlanner {
    Bootc(Bootc),
}

impl From<Bootc> for BuiltinPlanner {
    fn from(planner: Bootc) -> (wrapped: BuiltinPlanner) {
        BuiltinPlanner::Bootc(planner)
    }
}

impl FromSpecImpl<Bootc> for BuiltinPlanner {
    open spec fn obeys_from_spec() -> bool {
        true
    }

    open spec fn from_spec(planner: Bootc) -> BuiltinPlanner {
        BuiltinPlanner::Bootc(planner)
    }
}

} // verus!
