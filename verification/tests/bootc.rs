use nix_installer::error::HasExpectedErrors;
use nix_installer::planner::bootc::{
    nix_mount_unit_content, plan_actions, tmpfiles_content, Bootc, BootcError,
    ENSURE_SYMLINKED_UNITS_RESOLVE,
};
use nix_installer::planner::{
    check_nix_not_already_installed, check_not_nixos, check_not_wsl1, BuiltinPlanner, HostFacts,
    HostOs, PlannedAction, PlannerError, SelinuxPolicy,
};
use nix_installer::settings::{CommonSettings, Distribution, InitSystem, SettingValue};

fn settings(determinate_nix: bool) -> CommonSettings {
    CommonSettings {
        determinate_nix,
        nix_build_group_name: String::from("nixbld"),
        nix_build_group_id: 30000,
        nix_build_user_prefix: String::from("nixbld"),
        nix_build_user_count: 32,
        nix_build_user_id_base: 30000,
    }
}

fn host() -> HostFacts {
    HostFacts {
        is_nixos: false,
        nix_installed: false,
        is_wsl1: false,
    }
}

const TMPFILES: &str = "# Create overlay directories for Nix.
d /var/lib/nix-overlay/upper 0755 root root -
# Work dir must be empty before overlayfs is mounted.
R /var/lib/nix-overlay/work - - - - -
d /var/lib/nix-overlay/work 0755 root root -
";

const NIX_MOUNT: &str = "[Unit]
Description=Overlay mount for Nix in bootc container
DefaultDependencies=no
Requires=local-fs.target systemd-tmpfiles-setup.service
After=local-fs.target systemd-tmpfiles-setup.service
Before=nix-daemon.service
Before=nix-daemon.socket
PropagatesStopTo=nix-daemon.service
ConditionPathIsDirectory=/nix

[Mount]
What=overlay
Where=/nix
Type=overlay
Options=lowerdir=/usr/lib/nix-install,upperdir=/var/lib/nix-overlay/upper,workdir=/var/lib/nix-overlay/work
DirectoryMode=0755

[Install]
WantedBy=sysinit.target
RequiredBy=nix-daemon.service
RequiredBy=nix-daemon.socket
";

const RESOLVE: &str = "[Unit]
Description=Ensure Nix related units which are symlinked resolve
After=nix.mount
Requires=nix.mount
DefaultDependencies=no

[Service]
Type=oneshot
RemainAfterExit=yes
ExecStart=/usr/bin/systemctl daemon-reload
ExecStart=/usr/bin/systemctl restart --no-block nix-daemon.socket

[Install]
WantedBy=sysinit.target
";

#[test]
fn the_default_planner_has_the_default_directories() {
    let planner = Bootc::default(settings(true));
    assert_eq!(planner.readonly_image, "/usr/lib/nix-install");
    assert_eq!(planner.overlay, "/var/lib/nix-overlay");
    assert_eq!(planner.systemd_unit_dir, "/etc/systemd/system");
    assert!(planner.settings.determinate_nix);
    assert_eq!(planner.settings.nix_build_user_count, 32);
}

#[test]
fn overlay_directories_lie_under_the_overlay() {
    let planner = Bootc::default(settings(false));
    assert_eq!(planner.work_dir(), "/var/lib/nix-overlay/work");
    assert_eq!(planner.upper_dir(), "/var/lib/nix-overlay/upper");
    assert_eq!(
        planner.systemd_unit_path("nix.mount"),
        "/etc/systemd/system/nix.mount"
    );
}

#[test]
fn paths_are_joined_as_the_standard_library_joins_them() {
    let mut planner = Bootc::default(settings(false));
    planner.overlay = String::from("/overlay/");
    planner.systemd_unit_dir = String::from("units");
    assert_eq!(planner.work_dir(), "/overlay/work");
    assert_eq!(planner.upper_dir(), "/overlay/upper");
    assert_eq!(planner.systemd_unit_path("nix.mount"), "units/nix.mount");
    // An absolute unit path stands for itself.
    assert_eq!(planner.systemd_unit_path("/run/nix.mount"), "/run/nix.mount");
}

#[test]
fn the_generated_files_read_as_intended() {
    assert_eq!(
        tmpfiles_content("/var/lib/nix-overlay/upper", "/var/lib/nix-overlay/work"),
        TMPFILES
    );
    assert_eq!(
        nix_mount_unit_content(
            "/usr/lib/nix-install",
            "/var/lib/nix-overlay/upper",
            "/var/lib/nix-overlay/work"
        ),
        NIX_MOUNT
    );
    assert_eq!(ENSURE_SYMLINKED_UNITS_RESOLVE, RESOLVE);
}

fn assert_plan(plan: &[PlannedAction], determinate: bool) {
    let mut steps = plan.iter();
    match steps.next().unwrap() {
        PlannedAction::CreateFile {
            path,
            user,
            group,
            mode,
            buf,
            force,
        } => {
            assert_eq!(path, "/usr/lib/tmpfiles.d/nix.conf");
            assert_eq!(user, &None);
            assert_eq!(group, &None);
            assert_eq!(*mode, 0o644);
            assert_eq!(buf, TMPFILES);
            assert!(!force);
        }
        other => panic!("unexpected entry {other:?}"),
    }
    match steps.next().unwrap() {
        PlannedAction::CreateDirectory {
            path,
            user,
            group,
            mode,
            force_prune_on_revert,
        } => {
            assert_eq!(path, "/nix");
            assert_eq!(user, &None);
            assert_eq!(group, &None);
            assert_eq!(*mode, 0o755);
            assert!(!force_prune_on_revert);
        }
        other => panic!("unexpected entry {other:?}"),
    }
    match steps.next().unwrap() {
        PlannedAction::CreateFile {
            path,
            mode,
            buf,
            force,
            ..
        } => {
            assert_eq!(path, "/etc/systemd/system/nix.mount");
            assert_eq!(*mode, 0o644);
            assert_eq!(buf, NIX_MOUNT);
            assert!(!force);
        }
        other => panic!("unexpected entry {other:?}"),
    }
    match steps.next().unwrap() {
        PlannedAction::CreateFile {
            path,
            mode,
            buf,
            force,
            ..
        } => {
            assert_eq!(
                path,
                "/etc/systemd/system/ensure-symlinked-units-resolve.service"
            );
            assert_eq!(*mode, 0o644);
            assert_eq!(buf, RESOLVE);
            assert!(!force);
        }
        other => panic!("unexpected entry {other:?}"),
    }
    assert!(matches!(
        steps.next().unwrap(),
        PlannedAction::CreateDirectory { path, mode: 0o755, force_prune_on_revert: true, .. }
            if path == "/nix"
    ));
    if determinate {
        assert!(matches!(
            steps.next().unwrap(),
            PlannedAction::ProvisionDeterminateNixd
        ));
    }
    assert!(matches!(steps.next().unwrap(), PlannedAction::ProvisionNix));
    assert!(matches!(
        steps.next().unwrap(),
        PlannedAction::CreateUsersAndGroups
    ));
    assert!(matches!(steps.next().unwrap(), PlannedAction::ConfigureNix));
    match steps.next().unwrap() {
        PlannedAction::ProvisionSelinux {
            policy_path,
            policy,
        } => {
            assert_eq!(policy_path, "/etc/nix-installer/selinux/packages/nix.pp");
            assert_eq!(
                *policy,
                if determinate {
                    SelinuxPolicy::DeterminateNix
                } else {
                    SelinuxPolicy::Nix
                }
            );
        }
        other => panic!("unexpected entry {other:?}"),
    }
    assert!(matches!(
        steps.next().unwrap(),
        PlannedAction::ConfigureUpstreamInitService {
            init: InitSystem::Systemd,
            start_daemon: false
        }
    ));
    assert!(matches!(
        steps.next().unwrap(),
        PlannedAction::MoveDirectory { src, dest } if src == "/nix" && dest == "/usr/lib/nix-install"
    ));
    assert!(matches!(
        steps.next().unwrap(),
        PlannedAction::CreateDirectory { path, mode: 0o755, force_prune_on_revert: true, .. }
            if path == "/nix"
    ));
    assert!(matches!(
        steps.next().unwrap(),
        PlannedAction::RemoveDirectory { path } if path == "/nix/temp-install-dir"
    ));
    assert!(steps.next().is_none());
}

#[test]
fn the_plan_for_upstream_nix_has_thirteen_entries() {
    let plan = Bootc::default(settings(false)).plan();
    assert_eq!(plan.len(), 13);
    assert_plan(&plan, false);
}

#[test]
fn the_plan_for_determinate_nix_provisions_its_daemon() {
    let plan = Bootc::default(settings(true)).plan();
    assert_eq!(plan.len(), 14);
    assert_plan(&plan, true);
}

#[test]
fn a_plan_can_be_listed_for_any_directories() {
    let plan = plan_actions(
        "/image",
        "/o/upper",
        "/o/work",
        String::from("/units/nix.mount"),
        String::from("/units/resolve.service"),
        Distribution::Nix,
    );
    assert_eq!(plan.len(), 13);
    assert!(matches!(
        &plan[0],
        PlannedAction::CreateFile { buf, .. } if buf == &tmpfiles_content("/o/upper", "/o/work")
    ));
    assert!(matches!(
        &plan[2],
        PlannedAction::CreateFile { path, buf, .. }
            if path == "/units/nix.mount"
                && buf == &nix_mount_unit_content("/image", "/o/upper", "/o/work")
    ));
    assert!(matches!(
        &plan[3],
        PlannedAction::CreateFile { path, .. } if path == "/units/resolve.service"
    ));
    assert!(matches!(
        &plan[10],
        PlannedAction::MoveDirectory { src, dest } if src == "/nix" && dest == "/image"
    ));
}

#[test]
fn the_settings_list_the_common_ones_then_the_directories() {
    let settings = Bootc::default(settings(true)).settings();
    let keys: Vec<&str> = settings.iter().map(|setting| setting.key.as_str()).collect();
    assert_eq!(
        keys,
        vec![
            "determinate_nix",
            "nix_build_group_name",
            "nix_build_group_id",
            "nix_build_user_prefix",
            "nix_build_user_count",
            "nix_build_user_id_base",
            "readonly_image",
            "overlay",
            "systemd_unit_dir"
        ]
    );
    assert!(matches!(settings[0].value, SettingValue::Bool(true)));
    assert!(matches!(&settings[1].value, SettingValue::Text(name) if name == "nixbld"));
    assert!(matches!(settings[2].value, SettingValue::Number(30000)));
    assert!(matches!(&settings[3].value, SettingValue::Text(prefix) if prefix == "nixbld"));
    assert!(matches!(settings[4].value, SettingValue::Number(32)));
    assert!(matches!(settings[5].value, SettingValue::Number(30000)));
    assert!(matches!(&settings[6].value, SettingValue::Text(path) if path == "/usr/lib/nix-install"));
    assert!(matches!(&settings[7].value, SettingValue::Text(path) if path == "/var/lib/nix-overlay"));
    assert!(matches!(&settings[8].value, SettingValue::Text(path) if path == "/etc/systemd/system"));
}

#[test]
fn the_default_planner_has_nothing_configured() {
    let default = Bootc::default(settings(false));
    let planner = Bootc::default(settings(false));
    assert!(planner.configured_settings(&default).is_empty());
}

#[test]
fn configured_settings_are_those_that_differ_from_the_default() {
    let default = Bootc::default(settings(false));
    let mut planner = Bootc::default(settings(true));
    planner.overlay = String::from("/persist/nix");
    planner.settings.nix_build_user_count = 8;
    let configured = planner.configured_settings(&default);
    assert_eq!(configured.len(), 3);
    assert_eq!(configured[0].key, "determinate_nix");
    assert!(matches!(configured[0].value, SettingValue::Bool(true)));
    assert_eq!(configured[1].key, "nix_build_user_count");
    assert!(matches!(configured[1].value, SettingValue::Number(8)));
    assert_eq!(configured[2].key, "overlay");
    assert!(matches!(&configured[2].value, SettingValue::Text(path) if path == "/persist/nix"));
}

#[test]
fn the_planner_works_on_linux_only() {
    let planner = Bootc::default(settings(false));
    assert!(planner.platform_check_on(HostOs::Linux).is_ok());
    match planner.platform_check_on(HostOs::Other(String::from("darwin"))) {
        Err(PlannerError::IncompatibleOperatingSystem { planner, host_os }) => {
            assert_eq!(planner, "bootc");
            assert_eq!(host_os, "darwin");
        }
        other => panic!("unexpected answer {other:?}"),
    }
}

#[test]
fn the_platform_check_names_this_planner_where_it_fails() {
    match Bootc::default(settings(false)).platform_check() {
        Ok(()) => {}
        Err(PlannerError::IncompatibleOperatingSystem { planner, host_os }) => {
            assert_eq!(planner, "bootc");
            assert_ne!(host_os, "linux");
        }
        Err(other) => panic!("unexpected error {other:?}"),
    }
}

#[test]
fn a_machine_is_checked_before_install() {
    let planner = Bootc::default(settings(false));
    assert!(planner.pre_install_check(&host()).is_ok());
    let all = HostFacts {
        is_nixos: true,
        nix_installed: true,
        is_wsl1: true,
    };
    assert!(matches!(planner.pre_install_check(&all), Err(PlannerError::NixOs)));
    let installed = HostFacts {
        is_nixos: false,
        ..all
    };
    assert!(matches!(
        planner.pre_install_check(&installed),
        Err(PlannerError::NixExists)
    ));
    let wsl1 = HostFacts {
        nix_installed: false,
        ..installed
    };
    assert!(matches!(planner.pre_install_check(&wsl1), Err(PlannerError::Wsl1)));
}

#[test]
fn a_machine_is_checked_before_uninstall() {
    let planner = Bootc::default(settings(false));
    assert!(planner.pre_uninstall_check(&host()).is_ok());
    // What keeps from installing does not keep from uninstalling.
    let installed = HostFacts {
        is_nixos: true,
        nix_installed: true,
        is_wsl1: false,
    };
    assert!(planner.pre_uninstall_check(&installed).is_ok());
    let wsl1 = HostFacts {
        is_wsl1: true,
        ..host()
    };
    assert!(matches!(planner.pre_uninstall_check(&wsl1), Err(PlannerError::Wsl1)));
}

#[test]
fn each_check_refuses_one_thing() {
    let nixos = HostFacts {
        is_nixos: true,
        ..host()
    };
    let installed = HostFacts {
        nix_installed: true,
        ..host()
    };
    let wsl1 = HostFacts {
        is_wsl1: true,
        ..host()
    };
    assert!(check_not_nixos(&host()).is_ok());
    assert!(matches!(check_not_nixos(&nixos), Err(PlannerError::NixOs)));
    assert!(check_not_nixos(&installed).is_ok());
    assert!(check_nix_not_already_installed(&host()).is_ok());
    assert!(matches!(
        check_nix_not_already_installed(&installed),
        Err(PlannerError::NixExists)
    ));
    assert!(check_nix_not_already_installed(&wsl1).is_ok());
    assert!(check_not_wsl1(&host()).is_ok());
    assert!(matches!(check_not_wsl1(&wsl1), Err(PlannerError::Wsl1)));
    assert!(check_not_wsl1(&nixos).is_ok());
}

#[test]
fn every_error_of_the_planner_is_expected() {
    for error in [
        BootcError::NotBootcContainer,
        BootcError::PersistenceNotAvailable,
        BootcError::BootcToolsNotAvailable,
    ] {
        assert_eq!(error.expected(), Some(&error));
    }
}

#[test]
fn the_errors_of_the_planner_say_what_is_wrong() {
    assert_eq!(
        BootcError::NotBootcContainer.message(),
        "Not running in a bootc container environment"
    );
    assert_eq!(
        BootcError::PersistenceNotAvailable.message(),
        "Persistence directory is not available or writable"
    );
    assert_eq!(
        BootcError::BootcToolsNotAvailable.message(),
        "Required bootc tools are not available"
    );
}

#[test]
fn a_planner_error_wraps_the_error_of_the_planner() {
    let error = PlannerError::from(BootcError::NotBootcContainer);
    assert!(matches!(
        error,
        PlannerError::Custom(BootcError::NotBootcContainer)
    ));
    assert!(error.expected().is_some());
    assert!(PlannerError::NixExists.expected().is_some());
    assert!(PlannerError::NixOs.expected().is_some());
    assert!(PlannerError::Wsl1.expected().is_some());
    let incompatible = PlannerError::IncompatibleOperatingSystem {
        planner: String::from("bootc"),
        host_os: String::from("darwin"),
    };
    assert!(incompatible.expected().is_some());
}

#[test]
fn the_planner_is_one_of_the_builtin_planners() {
    let planner = BuiltinPlanner::from(Bootc::default(settings(false)));
    let BuiltinPlanner::Bootc(inner) = planner;
    assert_eq!(inner.overlay, "/var/lib/nix-overlay");
}
