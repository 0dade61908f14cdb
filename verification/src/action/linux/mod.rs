//! Actions that only make sense on Linux.

pub mod create_users_and_groups_sysusers;
pub mod enable_systemd_unit;

pub use create_users_and_groups_sysusers::CreateUsersAndGroupsSysUsers;
pub use enable_systemd_unit::{EnableSystemdUnit, EnableSystemdUnitError};
