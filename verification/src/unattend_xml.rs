//! The XML text of an answer file, written by quick_xml from the answer
//! file's serde_win_unattend form.

use vstd::prelude::*;

use crate::unattend;
use crate::unattend::UnattendView;

verus! {

/// An answer file as serde_win_unattend declares it.
#[verifier::external_type_specification]
#[verifier::external_body]
pub struct ExUnattendXml(serde_win_unattend::UnattendXml);

/// A configuration pass as serde_win_unattend declares it.
#[verifier::external_type_specification]
#[verifier::external_body]
pub struct ExSettings(serde_win_unattend::Settings);

/// A component as serde_win_unattend declares it.
#[verifier::external_type_specification]
#[verifier::external_body]
pub struct ExComponent(serde_win_unattend::Component);

/// The commands of a component as serde_win_unattend declares them.
#[verifier::external_type_specification]
#[verifier::external_body]
pub struct ExRunSynchronous(serde_win_unattend::RunSynchronous);

/// A setup command as serde_win_unattend declares it.
#[verifier::external_type_specification]
#[verifier::external_body]
pub struct ExRunSynchronousCommand(serde_win_unattend::RunSynchronousCommand);

/// The setup language as serde_win_unattend declares it.
#[verifier::external_type_specification]
#[verifier::external_body]
pub struct ExSetupUILanguage(serde_win_unattend::SetupUILanguage);

/// The licence and owner data as serde_win_unattend declares them.
#[verifier::external_type_specification]
#[verifier::external_body]
pub struct ExUserData(serde_win_unattend::UserData);

/// A disk configuration as serde_win_unattend declares it.
#[verifier::external_type_specification]
#[verifier::external_body]
pub struct ExDiskConfiguration(serde_win_unattend::DiskConfiguration);

/// A created partition as serde_win_unattend declares it.
#[verifier::external_type_specification]
#[verifier::external_body]
pub struct ExCreatePartition(serde_win_unattend::CreatePartition);

/// A partition's format and label as serde_win_unattend declares them.
#[verifier::external_type_specification]
#[verifier::external_body]
pub struct ExModifyPartition(serde_win_unattend::ModifyPartition);

/// An image install as serde_win_unattend declares it.
#[verifier::external_type_specification]
#[verifier::external_body]
pub struct ExImageInstall(serde_win_unattend::ImageInstall);

/// Builds a `serde_win_unattend::CreatePartition` from the same fields. No
/// contract: the value is only handed on to the serializer.
#[verifier::external_body]
fn create_partition_xml(p: &unattend::PartitionSpec) -> serde_win_unattend::CreatePartition {
    serde_win_unattend::CreatePartition {
        Extend: p.extend.clone(),
        Order: p.order.clone(),
        Size: p.size.clone(),
        Type: p.type_.clone(),
    }
}

/// Builds a `serde_win_unattend::ModifyPartition` from the same fields. No
/// contract: the value is only handed on to the serializer.
#[verifier::external_body]
fn modify_partition_xml(p: &unattend::PartitionFormat) -> serde_win_unattend::ModifyPartition {
    serde_win_unattend::ModifyPartition {
        Format: p.format.clone(),
        Label: p.label.clone(),
        Letter: p.letter.clone(),
        Order: p.order.clone(),
        PartitionID: p.partition_id.clone(),
    }
}

/// Builds a `serde_win_unattend::DiskConfiguration` (with its `Disk`,
/// `CreatePartitions` and `ModifyPartitions`) from the same fields. No
/// contract: the value is only handed on to the serializer.
#[verifier::external_body]
fn disk_configuration_xml(d: &unattend::DiskLayout) -> serde_win_unattend::DiskConfiguration {
    let create = d.disk.create_partitions.iter().map(create_partition_xml).collect();
    let modify = d.disk.modify_partitions.iter().map(modify_partition_xml).collect();
    serde_win_unattend::DiskConfiguration {
        WillShowUI: d.will_show_ui.clone(),
        Disk: serde_win_unattend::Disk {
            CreatePartitions: serde_win_unattend::CreatePartitions { CreatePartition: create },
            DiskID: d.disk.disk_id.clone(),
            ModifyPartitions: serde_win_unattend::ModifyPartitions { ModifyPartition: modify },
            WillWipeDisk: d.disk.will_wipe_disk.clone(),
        },
    }
}

/// Builds a `serde_win_unattend::ImageInstall` (with its `OSImage` and
/// `InstallTo`) from the same fields. No contract: the value is only handed
/// on to the serializer.
#[verifier::external_body]
fn image_install_xml(i: &unattend::InstallTarget) -> serde_win_unattend::ImageInstall {
    let install_to = match &i.install_to {
        Some(t) => Some(serde_win_unattend::InstallTo {
            DiskID: t.disk_id.clone(),
            PartitionID: t.partition_id.clone(),
        }),
        None => None,
    };
    serde_win_unattend::ImageInstall {
        OSImage: serde_win_unattend::OSImage {
            InstallTo: install_to,
            InstallToAvailablePartition: i.install_to_available_partition.clone(),
            WillShowUI: i.will_show_ui.clone(),
        },
    }
}

/// Builds a `serde_win_unattend::RunSynchronousCommand` from the same fields.
/// No contract: the value is only handed on to the serializer.
#[verifier::external_body]
fn run_command_xml(c: &unattend::SetupCommand) -> serde_win_unattend::RunSynchronousCommand {
    serde_win_unattend::RunSynchronousCommand {
        Path: c.path.clone(),
        Description: c.description.clone(),
        Order: c.order.clone(),
        action: c.action.clone(),
    }
}

/// Builds a `serde_win_unattend::RunSynchronous` holding the commands. No
/// contract: the value is only handed on to the serializer.
#[verifier::external_body]
fn run_synchronous_xml(commands: &Vec<unattend::SetupCommand>) -> serde_win_unattend::RunSynchronous {
    serde_win_unattend::RunSynchronous {
        RunSynchronousCommand: commands.iter().map(run_command_xml).collect(),
    }
}

/// Builds a `serde_win_unattend::SetupUILanguage` holding the language. No
/// contract: the value is only handed on to the serializer.
#[verifier::external_body]
fn setup_ui_language_xml(language: &String) -> serde_win_unattend::SetupUILanguage {
    serde_win_unattend::SetupUILanguage { UILanguage: language.clone() }
}

/// Builds a `serde_win_unattend::UserData` (with its `ProductKey`) from the
/// same fields. No contract: the value is only handed on to the serializer.
#[verifier::external_body]
fn user_data_xml(u: &unattend::OwnerData) -> serde_win_unattend::UserData {
    serde_win_unattend::UserData {
        AcceptEula: u.accept_eula.clone(),
        FullName: u.full_name.clone(),
        Organization: u.organization.clone(),
        ProductKey: serde_win_unattend::ProductKey {
            Key: u.product_key.key.clone(),
            WillShowUI: u.product_key.will_show_ui.clone(),
        },
    }
}

/// Builds a `serde_win_unattend::Component` from the same fields; the
/// attributes it does not hold keep `Component::default()`'s values. No
/// contract: the value is only handed on to the serializer.
#[verifier::external_body]
fn component_xml(c: &unattend::SetupComponent) -> serde_win_unattend::Component {
    serde_win_unattend::Component {
        name: c.name.clone(),
        ComputerName: c.computer_name.clone(),
        DiskConfiguration: c.disk_configuration.as_ref().map(disk_configuration_xml),
        ImageInstall: c.image_install.as_ref().map(image_install_xml),
        InputLocale: c.input_locale.clone(),
        RunSynchronous: c.run_synchronous.as_ref().map(run_synchronous_xml),
        SetupUILanguage: c.setup_ui_language.as_ref().map(setup_ui_language_xml),
        SystemLocale: c.system_locale.clone(),
        UILanguage: c.ui_language.clone(),
        UserData: c.user_data.as_ref().map(user_data_xml),
        UserLocale: c.user_locale.clone(),
        ..Default::default()
    }
}

/// Builds a `serde_win_unattend::Settings` from the same fields. No
/// contract: the value is only handed on to the serializer.
#[verifier::external_body]
fn settings_xml(s: &unattend::SetupPass) -> serde_win_unattend::Settings {
    serde_win_unattend::Settings {
        component: s.component.iter().map(component_xml).collect(),
        pass: s.pass.clone(),
    }
}

/// Builds a `serde_win_unattend::UnattendXml` from the same fields. No
/// contract: the value is only handed on to the serializer.
#[verifier::external_body]
fn unattend_xml(u: &unattend::Unattend) -> serde_win_unattend::UnattendXml {
    serde_win_unattend::UnattendXml {
        xmlns: u.xmlns.clone(),
        settings: u.settings.iter().map(settings_xml).collect(),
    }
}

/// The XML text that quick_xml writes for the answer file `u`, or `None`
/// where it refuses to write it.
pub uninterp spec fn unattend_xml_text(u: UnattendView) -> Option<Seq<char>>;

/// Writes the answer file with `quick_xml::se::to_string` in its
/// serde_win_unattend form. The text is quick_xml's: the contract names it
/// `unattend_xml_text` of the answer file's value and claims nothing more.
#[verifier::external_body]
pub(crate) fn answer_file_text(u: &unattend::Unattend) -> (r: Option<String>)
    ensures
        r is Some <==> unattend_xml_text(u@) is Some,
        r matches Some(s) ==> unattend_xml_text(u@) == Some(s@),
{
    match quick_xml::se::to_string(&unattend_xml(u)) {
        Ok(s) => Some(s),
        Err(_) => None,
    }
}

} // verus!
