//! The planner for bootable container images.
//!
//! Nix is installed under `/nix`, moved to a read-only image directory, and
//! mounted back at boot as an overlay whose changes live in a second
//! directory.

use vstd::prelude::*;
use vstd::string::StringExecFns;
use crate::error::HasExpectedErrors;
use crate::paths::{push_path, pushed_path};
use crate::planner::{
    check_nix_not_already_installed, check_not_nixos, check_not_wsl1, host_os, HostFacts, HostOs,
    PlannedAction, PlannedActionView, PlannerError, PlannerErrorView, SelinuxPolicy,
};
use crate::settings::{
    changed, changed_settings, lemma_changed_keeps_keys_apart, no_key_twice, text_setting,
    CommonSettings, Distribution, InitSystem, Setting, SettingValueView, SettingView, SCRATCH_DIR,
};

verus! {

/// A planner for bootable container systems using bootc.
#[derive(Debug)]
pub struct Bootc {
    /// Where the read-only image of `/nix` is installed in the container.
    pub readonly_image: String,
    /// Where changes to `/nix` are persisted in the container.
    pub overlay: String,
    /// Where systemd units are written.
    pub systemd_unit_dir: String,
    /// The settings shared with every planner.
    pub settings: CommonSettings,
}

/// The tmpfiles.d configuration that creates the overlay directories.
pub open spec fn tmpfiles_text(upper_dir: Seq<char>, work_dir: Seq<char>) -> Seq<char> {
    "# Create overlay directories for Nix.\nd "@ + upper_dir + " 0755 root root -\n"@
        + "# Work dir must be empty before overlayfs is mounted.\nR "@ + work_dir
        + " - - - - -\nd "@ + work_dir + " 0755 root root -\n"@
}

/// The mount unit up to the directories of the overlay.
pub const NIX_MOUNT_UNIT_HEAD: &'static str = "[Unit]\n\
Description=Overlay mount for Nix in bootc container\n\
DefaultDependencies=no\n\
Requires=local-fs.target systemd-tmpfiles-setup.service\n\
After=local-fs.target systemd-tmpfiles-setup.service\n\
Before=nix-daemon.service\n\
Before=nix-daemon.socket\n\
PropagatesStopTo=nix-daemon.service\n\
ConditionPathIsDirectory=/nix\n\
\n\
[Mount]\n\
What=overlay\n\
Where=/nix\n\
Type=overlay\n\
Options=lowerdir=";

/// The mount unit after the directories of the overlay.
pub const NIX_MOUNT_UNIT_TAIL: &'static str = "\n\
DirectoryMode=0755\n\
\n\
[Install]\n\
WantedBy=sysinit.target\n\
RequiredBy=nix-daemon.service\n\
RequiredBy=nix-daemon.socket\n";

/// The systemd mount unit that lays the overlay over the read-only image
/// and mounts it at `/nix`.
pub open spec fn nix_mount_unit_text(
    readonly_image: Seq<char>,
    upper_dir: Seq<char>,
    work_dir: Seq<char>,
) -> Seq<char> {
    NIX_MOUNT_UNIT_HEAD@ + readonly_image + ",upperdir="@ + upper_dir + ",workdir="@ + work_dir
        + NIX_MOUNT_UNIT_TAIL@
}

/// The systemd unit that reloads the daemon once `/nix` is mounted, so that
/// units linked into it resolve.
pub const ENSURE_SYMLINKED_UNITS_RESOLVE: &'static str = "[Unit]\n\
Description=Ensure Nix related units which are symlinked resolve\n\
After=nix.mount\n\
Requires=nix.mount\n\
DefaultDependencies=no\n\
\n\
[Service]\n\
Type=oneshot\n\
RemainAfterExit=yes\n\
ExecStart=/usr/bin/systemctl daemon-reload\n\
ExecStart=/usr/bin/systemctl restart --no-block nix-daemon.socket\n\
\n\
[Install]\n\
WantedBy=sysinit.target\n";

/// Writes out [`tmpfiles_text`].
pub fn tmpfiles_content(upper_dir: &str, work_dir: &str) -> (content: String)
    ensures
        content@ == tmpfiles_text(upper_dir@, work_dir@),
{
    let mut content = String::from_str("# Create overlay directories for Nix.\nd ");
    content.append(upper_dir);
    content.append(" 0755 root root -\n");
    content.append("# Work dir must be empty before overlayfs is mounted.\nR ");
    content.append(work_dir);
    content.append(" - - - - -\nd ");
    content.append(work_dir);
    content.append(" 0755 root root -\n");
    content
}

/// Writes out [`nix_mount_unit_text`].
pub fn nix_mount_unit_content(readonly_image: &str, upper_dir: &str, work_dir: &str) -> (content:
    String)
    ensures
        content@ == nix_mount_unit_text(readonly_image@, upper_dir@, work_dir@),
{
    let mut content = String::from_str(NIX_MOUNT_UNIT_HEAD);
    content.append(readonly_image);
    content.append(",upperdir=");
    content.append(upper_dir);
    content.append(",workdir=");
    content.append(work_dir);
    content.append(NIX_MOUNT_UNIT_TAIL);
    content
}

/// The actions that set up Nix in a bootc container, in order, for the
/// given directories and unit paths.
pub open spec fn planned_actions(
    readonly_image: Seq<char>,
    upper_dir: Seq<char>,
    work_dir: Seq<char>,
    nix_mount_unit: Seq<char>,
    resolve_unit: Seq<char>,
    distribution: Distribution,
) -> Seq<PlannedActionView> {
    let prepare = seq![
        PlannedActionView::CreateFile {
            path: "/usr/lib/tmpfiles.d/nix.conf"@,
            user: None,
            group: None,
            mode: 0o644u32,
            buf: tmpfiles_text(upper_dir, work_dir),
            force: false,
        },
        PlannedActionView::CreateDirectory {
            path: "/nix"@,
            user: None,
            group: None,
            mode: 0o755u32,
            force_prune_on_revert: false,
        },
        PlannedActionView::CreateFile {
            path: nix_mount_unit,
            user: None,
            group: None,
            mode: 0o644u32,
            buf: nix_mount_unit_text(readonly_image, upper_dir, work_dir),
            force: false,
        },
        PlannedActionView::CreateFile {
            path: resolve_unit,
            user: None,
            group: None,
            mode: 0o644u32,
            buf: ENSURE_SYMLINKED_UNITS_RESOLVE@,
            force: false,
        },
        PlannedActionView::CreateDirectory {
            path: "/nix"@,
            user: None,
            group: None,
            mode: 0o755u32,
            force_prune_on_revert: true,
        },
    ];
    let daemon = if distribution == Distribution::DeterminateNix {
        seq![PlannedActionView::ProvisionDeterminateNixd]
    } else {
        Seq::<PlannedActionView>::empty()
    };
    let install = seq![
        PlannedActionView::ProvisionNix,
        PlannedActionView::CreateUsersAndGroups,
        PlannedActionView::ConfigureNix,
        PlannedActionView::ProvisionSelinux {
            policy_path: "/etc/nix-installer/selinux/packages/nix.pp"@,
            policy: if distribution == Distribution::DeterminateNix {
                SelinuxPolicy::DeterminateNix
            } else {
                SelinuxPolicy::Nix
            },
        },
        PlannedActionView::ConfigureUpstreamInitService {
            init: InitSystem::Systemd,
            start_daemon: false,
        },
        PlannedActionView::MoveDirectory { src: "/nix"@, dest: readonly_image },
        PlannedActionView::CreateDirectory {
            path: "/nix"@,
            user: None,
            group: None,
            mode: 0o755u32,
            force_prune_on_revert: true,
        },
        PlannedActionView::RemoveDirectory { path: SCRATCH_DIR@ },
    ];
    prepare + daemon + install
}

/// Lists the actions of [`planned_actions`].
pub fn plan_actions(
    readonly_image: &str,
    upper_dir: &str,
    work_dir: &str,
    nix_mount_unit: String,
    resolve_unit: String,
    distribution: Distribution,
) -> (plan: Vec<PlannedAction>)
    ensures
        plan.deep_view() == planned_actions(
            readonly_image@,
            upper_dir@,
            work_dir@,
            nix_mount_unit@,
            resolve_unit@,
            distribution,
        ),
{
    let mut plan: Vec<PlannedAction> = Vec::new();

    // The overlay directories are created at boot, by systemd-tmpfiles.
    // /usr/lib/tmpfiles.d is taken to exist, as it does in a bootc image.
    plan.push(
        PlannedAction::CreateFile {
            path: String::from_str("/usr/lib/tmpfiles.d/nix.conf"),
            user: None,
            group: None,
            mode: 0o644,
            buf: tmpfiles_content(upper_dir, work_dir),
            force: false,
        },
    );
    plan.push(
        PlannedAction::CreateDirectory {
            path: String::from_str("/nix"),
            user: None,
            group: None,
            mode: 0o755,
            force_prune_on_revert: false,
        },
    );
    plan.push(
        PlannedAction::CreateFile {
            path: nix_mount_unit,
            user: None,
            group: None,
            mode: 0o644,
            buf: nix_mount_unit_content(readonly_image, upper_dir, work_dir),
            force: false,
        },
    );
    plan.push(
        PlannedAction::CreateFile {
            path: resolve_unit,
            user: None,
            group: None,
            mode: 0o644,
            buf: String::from_str(ENSURE_SYMLINKED_UNITS_RESOLVE),
            force: false,
        },
    );
    // Nix is installed into /nix first and moved to the image directory
    // at the end.
    plan.push(
        PlannedAction::CreateDirectory {
            path: String::from_str("/nix"),
            user: None,
            group: None,
            mode: 0o755,
            force_prune_on_revert: true,
        },
    );
    let determinate = match distribution {
        Distribution::DeterminateNix => true,
        Distribution::Nix => false,
    };
    if determinate {
        plan.push(PlannedAction::ProvisionDeterminateNixd);
    }
    plan.push(PlannedAction::ProvisionNix);
    plan.push(PlannedAction::CreateUsersAndGroups);
    plan.push(PlannedAction::ConfigureNix);
    // A bootc image always ships SELinux. The policy is installed even
    // where SELinux is disabled, in case a later layer enables it.
    plan.push(
        PlannedAction::ProvisionSelinux {
            policy_path: String::from_str("/etc/nix-installer/selinux/packages/nix.pp"),
            policy: if determinate {
                SelinuxPolicy::DeterminateNix
            } else {
                SelinuxPolicy::Nix
            },
        },
    );
    // The daemon is set up but not started: nothing runs in an image build.
    plan.push(
        PlannedAction::ConfigureUpstreamInitService {
            init: InitSystem::Systemd,
            start_daemon: false,
        },
    );
    plan.push(
        PlannedAction::MoveDirectory {
            src: String::from_str("/nix"),
            dest: String::from_str(readonly_image),
        },
    );
    // The root of the container is read-only, so the mount point has to be
    // part of the image.
    plan.push(
        PlannedAction::CreateDirectory {
            path: String::from_str("/nix"),
            user: None,
            group: None,
            mode: 0o755,
            force_prune_on_revert: true,
        },
    );
    plan.push(PlannedAction::RemoveDirectory { path: String::from_str(SCRATCH_DIR) });
    assert(plan.deep_view() =~= planned_actions(
        readonly_image@,
        upper_dir@,
        work_dir@,
        nix_mount_unit@,
        resolve_unit@,
        distribution,
    ));
    plan
}

impl Bootc {
    /// The overlay's work directory.
    pub fn work_dir(&self) -> (work_dir: String)
        ensures
            work_dir@ == pushed_path(self.overlay@, "work"@),
    {
        push_path(self.overlay.as_str(), "work")
    }

    /// The overlay's upper directory, which holds the changes.
    pub fn upper_dir(&self) -> (upper_dir: String)
        ensures
            upper_dir@ == pushed_path(self.overlay@, "upper"@),
    {
        push_path(self.overlay.as_str(), "upper")
    }

    /// Where the systemd unit `unit_name` is written.
    pub fn systemd_unit_path(&self, unit_name: &str) -> (path: String)
        ensures
            path@ == pushed_path(self.systemd_unit_dir@, unit_name@),
    {
        push_path(self.systemd_unit_dir.as_str(), unit_name)
    }

    /// The planner with its default directories and the given settings.
    pub fn default(settings: CommonSettings) -> (planner: Self)
        ensures
            planner.readonly_image@ == "/usr/lib/nix-install"@,
            planner.overlay@ == "/var/lib/nix-overlay"@,
            planner.systemd_unit_dir@ == "/etc/systemd/system"@,
            planner.settings == settings,
    {
        Bootc {
            readonly_image: String::from_str("/usr/lib/nix-install"),
            overlay: String::from_str("/var/lib/nix-overlay"),
            systemd_unit_dir: String::from_str("/etc/systemd/system"),
            settings,
        }
    }

    /// The name under which this planner is recorded.
    pub open spec fn name() -> Seq<char> {
        "bootc"@
    }

    /// The planner's configuration as keys and values: the common settings,
    /// then the three directories.
    pub open spec fn spec_settings(&self) -> Seq<SettingView> {
        self.settings.spec_settings() + seq![
            SettingView {
                key: "readonly_image"@,
                value: SettingValueView::Text(self.readonly_image@),
            },
            SettingView { key: "overlay"@, value: SettingValueView::Text(self.overlay@) },
            SettingView {
                key: "systemd_unit_dir"@,
                value: SettingValueView::Text(self.systemd_unit_dir@),
            },
        ]
    }

    /// Every setting of the planner has a key of its own.
    pub proof fn lemma_settings_have_their_own_keys(&self)
        ensures
            no_key_twice(self.spec_settings()),
    {
        self.settings.lemma_settings_have_their_own_keys();
        reveal_strlit("determinate_nix");
        reveal_strlit("nix_build_group_name");
        reveal_strlit("nix_build_group_id");
        reveal_strlit("nix_build_user_prefix");
        reveal_strlit("nix_build_user_count");
        reveal_strlit("nix_build_user_id_base");
        reveal_strlit("readonly_image");
        reveal_strlit("overlay");
        reveal_strlit("systemd_unit_dir");
        let common = self.settings.spec_settings();
        let settings = self.spec_settings();
        assert forall|i: int, j: int| 0 <= i < j < settings.len() implies (
        #[trigger] settings[i]).key != (#[trigger] settings[j]).key by {
            assert(forall|k: int| 0 <= k < 6 ==> settings[k] == common[k]);
            assert(settings[0].key.len() == 15);
            assert(settings[1].key.len() == 20);
            assert(settings[2].key.len() == 18);
            assert(settings[3].key.len() == 21);
            assert(settings[4].key.len() == 20);
            assert(settings[5].key.len() == 22);
            assert(settings[6].key.len() == 14);
            assert(settings[7].key.len() == 7);
            assert(settings[8].key.len() == 16);
            if j < 6 {
                assert(common[i].key != common[j].key);
            }
        }
    }

    /// The planner's configuration as keys and values, each key once.
    pub fn settings(&self) -> (settings: Vec<Setting>)
        ensures
            settings.deep_view() == self.spec_settings(),
            no_key_twice(settings.deep_view()),
    {
        proof {
            self.lemma_settings_have_their_own_keys();
        }
        let mut settings = self.settings.settings();
        settings.push(text_setting("readonly_image", self.readonly_image.as_str()));
        settings.push(text_setting("overlay", self.overlay.as_str()));
        settings.push(text_setting("systemd_unit_dir", self.systemd_unit_dir.as_str()));
        assert(settings.deep_view() =~= self.spec_settings());
        settings
    }

    /// The settings in which this planner differs from `default`, in the
    /// order of [`Self::spec_settings`].
    pub fn configured_settings(&self, default: &Bootc) -> (settings: Vec<Setting>)
        ensures
            settings.deep_view() == changed(default.spec_settings(), self.spec_settings()),
            no_key_twice(settings.deep_view()),
    {
        proof {
            self.lemma_settings_have_their_own_keys();
            lemma_changed_keeps_keys_apart(default.spec_settings(), self.spec_settings());
        }
        let default = default.settings();
        let configured = self.settings();
        changed_settings(&default, &configured)
    }

    /// What the platform check answers on the operating system `host`: the
    /// planner works on Linux and nowhere else.
    pub open spec fn platform_checked(host: HostOs) -> Result<(), PlannerErrorView> {
        match host {
            HostOs::Linux => Ok(()),
            HostOs::Other(name) => Err(
                PlannerErrorView::IncompatibleOperatingSystem {
                    planner: Self::name(),
                    host_os: name@,
                },
            ),
        }
    }

    /// Checks that the planner can work on the operating system `host`.
    pub fn platform_check_on(&self, host: HostOs) -> (checked: Result<(), PlannerError>)
        ensures
            checked is Ok <==> host is Linux,
            checked matches Err(error) ==> Self::platform_checked(host) == Err::<
                (),
                PlannerErrorView,
            >(error@),
    {
        match host {
            HostOs::Linux => Ok(()),
            HostOs::Other(name) => Err(
                PlannerError::IncompatibleOperatingSystem {
                    planner: String::from_str("bootc"),
                    host_os: name,
                },
            ),
        }
    }

    /// Checks that the planner can work on this machine's operating
    /// system. Which system that is cannot be known here; whatever it is,
    /// the only error is that it is incompatible with this planner.
    pub fn platform_check(&self) -> (checked: Result<(), PlannerError>)
        ensures
            checked matches Err(error) ==> error@
                matches PlannerErrorView::IncompatibleOperatingSystem { planner, .. } && planner
                == Self::name(),
    {
        self.platform_check_on(host_os())
    }

    /// Checks that the machine can be uninstalled from: it must not be a
    /// WSL1 guest.
    pub fn pre_uninstall_check(&self, host: &HostFacts) -> (checked: Result<(), PlannerError>)
        ensures
            checked is Ok <==> !host.is_wsl1,
            checked matches Err(error) ==> error@ == PlannerErrorView::Wsl1,
    {
        check_not_wsl1(host)
    }

    /// Checks that the machine can be installed to. It must not run NixOS,
    /// must not have Nix, and must not be a WSL1 guest; the first of these
    /// that fails, in this order, is the error.
    pub fn pre_install_check(&self, host: &HostFacts) -> (checked: Result<(), PlannerError>)
        ensures
            checked is Ok <==> !host.is_nixos && !host.nix_installed && !host.is_wsl1,
            checked matches Err(error) ==> error@ == (if host.is_nixos {
                PlannerErrorView::NixOs
            } else if host.nix_installed {
                PlannerErrorView::NixExists
            } else {
                PlannerErrorView::Wsl1
            }),
    {
        match check_not_nixos(host) {
            Ok(()) => {},
            Err(error) => {
                return Err(error);
            },
        }
        match check_nix_not_already_installed(host) {
            Ok(()) => {},
            Err(error) => {
                return Err(error);
            },
        }
        check_not_wsl1(host)
    }

    /// The actions that install Nix into the image, in order: those of
    /// [`planned_actions`] for this planner's directories.
    pub fn plan(&self) -> (plan: Vec<PlannedAction>)
        ensures
            plan.deep_view() == planned_actions(
                self.readonly_image@,
                pushed_path(self.overlay@, "upper"@),
                pushed_path(self.overlay@, "work"@),
                pushed_path(self.systemd_unit_dir@, "nix.mount"@),
                pushed_path(self.systemd_unit_dir@, "ensure-symlinked-units-resolve.service"@),
                self.settings.spec_distribution(),
            ),
    {
        let upper_dir = self.upper_dir();
        let work_dir = self.work_dir();
        plan_actions(
            self.readonly_image.as_str(),
            upper_dir.as_str(),
            work_dir.as_str(),
            self.systemd_unit_path("nix.mount"),
            self.systemd_unit_path("ensure-symlinked-units-resolve.service"),
            self.settings.distribution(),
        )
    }
}

/// What keeps the bootc planner from working.
#[non_exhaustive]
#[derive(Clone, Copy, Debug, PartialEq, Eq, Structural)]
pub enum BootcError {
    NotBootcContainer,
    PersistenceNotAvailable,
    BootcToolsNotAvailable,
}

impl BootcError {
    /// The error in words.
    pub open spec fn text(&self) -> Seq<char> {
        match self {
            BootcError::NotBootcContainer => "Not running in a bootc container environment"@,
            BootcError::PersistenceNotAvailable => {
                "Persistence directory is not available or writable"@
            },
            BootcError::BootcToolsNotAvailable => "Required bootc tools are not available"@,
        }
    }

    /// The error in words.
    pub fn message(&self) -> (message: String)
        ensures
            message@ == self.text(),
    {
        match self {
            BootcError::NotBootcContainer => String::from_str(
                "Not running in a bootc container environment",
            ),
            BootcError::PersistenceNotAvailable => String::from_str(
                "Persistence directory is not available or writable",
            ),
            BootcError::BootcToolsNotAvailable => String::from_str(
                "Required bootc tools are not available",
            ),
        }
    }
}

impl HasExpectedErrors for BootcError {
    /// Every error of the bootc planner is an expected one.
    open spec fn is_expected(&self) -> bool {
        true
    }

    fn expected(&self) -> (expected: Option<&Self>) {
        match self {
            BootcError::NotBootcContainer => Some(self),
            BootcError::PersistenceNotAvailable => Some(self),
            BootcError::BootcToolsNotAvailable => Some(self),
        }
    }
}

} // verus!
