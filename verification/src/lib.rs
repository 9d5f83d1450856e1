//! Configuration, provisioning and template logic of goldboot: building
//! image configurations, choosing provisioning steps, validating fields and
//! describing unattended Windows installs.

pub mod config;
pub mod init;
pub mod json;
pub mod provisioner;
pub mod random;
pub mod templates;
pub mod text;
pub mod unattend;
pub mod unattend_xml;
pub mod unix_account;
pub mod validate;
pub mod windows_11;

pub use config::BuildConfig;
pub use provisioner::{AnsibleProvisioner, Partition, Provisioner, ShellProvisioner};
pub use random::random_password;
