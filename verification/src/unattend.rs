//! The content of a Windows `Autounattend.xml` answer file, as plain values.
//! Each type holds the elements of the answer file that goldboot sets.

use vstd::prelude::*;

verus! {

/// An answer file: its namespace and its configuration passes.
#[derive(Clone, Debug, PartialEq, Eq)]
pub struct Unattend {
    pub xmlns: String,
    pub settings: Vec<SetupPass>,
}

/// The components configured in one pass of Windows setup.
#[derive(Clone, Debug, PartialEq, Eq)]
pub struct SetupPass {
    pub pass: String,
    pub component: Vec<SetupComponent>,
}

/// One component of a pass, with the settings that goldboot gives it.
#[derive(Clone, Debug, PartialEq, Eq)]
pub struct SetupComponent {
    pub name: String,
    pub computer_name: Option<String>,
    pub disk_configuration: Option<DiskLayout>,
    pub image_install: Option<InstallTarget>,
    pub input_locale: Option<String>,
    pub run_synchronous: Option<Vec<SetupCommand>>,
    pub setup_ui_language: Option<String>,
    pub system_locale: Option<String>,
    pub ui_language: Option<String>,
    pub user_data: Option<OwnerData>,
    pub user_locale: Option<String>,
}

impl SetupComponent {
    /// A component with this name and no settings.
    pub fn named(name: &str) -> (r: SetupComponent)
        ensures
            r@ == blank_component(name@),
    {
        SetupComponent {
            name: name.to_owned(),
            computer_name: None,
            disk_configuration: None,
            image_install: None,
            input_locale: None,
            run_synchronous: None,
            setup_ui_language: None,
            system_locale: None,
            ui_language: None,
            user_data: None,
            user_locale: None,
        }
    }
}

/// A command that setup runs.
#[derive(Clone, Debug, PartialEq, Eq)]
pub struct SetupCommand {
    pub path: String,
    pub description: Option<String>,
    pub order: String,
    pub action: Option<String>,
}

/// How setup partitions the disk.
#[derive(Clone, Debug, PartialEq, Eq)]
pub struct DiskLayout {
    pub will_show_ui: Option<String>,
    pub disk: Disk,
}

/// The partitioning of one disk.
#[derive(Clone, Debug, PartialEq, Eq)]
pub struct Disk {
    pub create_partitions: Vec<PartitionSpec>,
    pub modify_partitions: Vec<PartitionFormat>,
    pub will_wipe_disk: String,
    pub disk_id: String,
}

/// A partition that setup creates.
#[derive(Clone, Debug, PartialEq, Eq)]
pub struct PartitionSpec {
    pub order: String,
    pub size: Option<String>,
    pub extend: Option<String>,
    pub type_: String,
}

/// How setup formats and labels a partition.
#[derive(Clone, Debug, PartialEq, Eq)]
pub struct PartitionFormat {
    pub format: String,
    pub label: String,
    pub order: String,
    pub partition_id: String,
    pub letter: Option<String>,
}

/// Where setup installs the operating system image.
#[derive(Clone, Debug, PartialEq, Eq)]
pub struct InstallTarget {
    pub install_to: Option<InstallTo>,
    pub will_show_ui: Option<String>,
    pub install_to_available_partition: Option<String>,
}

/// A disk and partition to install to.
#[derive(Clone, Debug, PartialEq, Eq)]
pub struct InstallTo {
    pub disk_id: String,
    pub partition_id: String,
}

/// The licence and owner of the installation.
#[derive(Clone, Debug, PartialEq, Eq)]
pub struct OwnerData {
    pub accept_eula: String,
    pub full_name: String,
    pub organization: String,
    pub product_key: ProductKey,
}

/// A product key.
#[derive(Clone, Debug, PartialEq, Eq)]
pub struct ProductKey {
    pub key: String,
    pub will_show_ui: Option<String>,
}

/// The view of an optional string.
pub open spec fn opt_view(o: Option<String>) -> Option<Seq<char>> {
    match o {
        Some(s) => Some(s@),
        None => None,
    }
}

/// The value of an answer file.
pub struct UnattendView {
    pub xmlns: Seq<char>,
    pub settings: Seq<SetupPassView>,
}

/// The value of a pass.
pub struct SetupPassView {
    pub pass: Seq<char>,
    pub component: Seq<SetupComponentView>,
}

/// The value of a component.
pub struct SetupComponentView {
    pub name: Seq<char>,
    pub computer_name: Option<Seq<char>>,
    pub disk_configuration: Option<DiskLayoutView>,
    pub image_install: Option<InstallTargetView>,
    pub input_locale: Option<Seq<char>>,
    pub run_synchronous: Option<Seq<SetupCommandView>>,
    pub setup_ui_language: Option<Seq<char>>,
    pub system_locale: Option<Seq<char>>,
    pub ui_language: Option<Seq<char>>,
    pub user_data: Option<OwnerDataView>,
    pub user_locale: Option<Seq<char>>,
}

/// The value of a setup command.
pub struct SetupCommandView {
    pub path: Seq<char>,
    pub description: Option<Seq<char>>,
    pub order: Seq<char>,
    pub action: Option<Seq<char>>,
}

/// The value of a disk configuration.
pub struct DiskLayoutView {
    pub will_show_ui: Option<Seq<char>>,
    pub create_partitions: Seq<PartitionSpecView>,
    pub modify_partitions: Seq<PartitionFormatView>,
    pub will_wipe_disk: Seq<char>,
    pub disk_id: Seq<char>,
}

/// The value of a created partition.
pub struct PartitionSpecView {
    pub order: Seq<char>,
    pub size: Option<Seq<char>>,
    pub extend: Option<Seq<char>>,
    pub type_: Seq<char>,
}

/// The value of a partition's format and label.
pub struct PartitionFormatView {
    pub format: Seq<char>,
    pub label: Seq<char>,
    pub order: Seq<char>,
    pub partition_id: Seq<char>,
    pub letter: Option<Seq<char>>,
}

/// The value of an image install.
pub struct InstallTargetView {
    pub install_to: Option<(Seq<char>, Seq<char>)>,
    pub will_show_ui: Option<Seq<char>>,
    pub install_to_available_partition: Option<Seq<char>>,
}

/// The value of the licence and owner data.
pub struct OwnerDataView {
    pub accept_eula: Seq<char>,
    pub full_name: Seq<char>,
    pub organization: Seq<char>,
    pub key: Seq<char>,
    pub key_will_show_ui: Option<Seq<char>>,
}

/// The component named `name` with no settings.
pub open spec fn blank_component(name: Seq<char>) -> SetupComponentView {
    SetupComponentView {
        name,
        computer_name: None,
        disk_configuration: None,
        image_install: None,
        input_locale: None,
        run_synchronous: None,
        setup_ui_language: None,
        system_locale: None,
        ui_language: None,
        user_data: None,
        user_locale: None,
    }
}

impl View for SetupCommand {
    type V = SetupCommandView;

    open spec fn view(&self) -> SetupCommandView {
        SetupCommandView {
            path: self.path@,
            description: opt_view(self.description),
            order: self.order@,
            action: opt_view(self.action),
        }
    }
}

impl View for PartitionSpec {
    type V = PartitionSpecView;

    open spec fn view(&self) -> PartitionSpecView {
        PartitionSpecView {
            order: self.order@,
            size: opt_view(self.size),
            extend: opt_view(self.extend),
            type_: self.type_@,
        }
    }
}

impl View for PartitionFormat {
    type V = PartitionFormatView;

    open spec fn view(&self) -> PartitionFormatView {
        PartitionFormatView {
            format: self.format@,
            label: self.label@,
            order: self.order@,
            partition_id: self.partition_id@,
            letter: opt_view(self.letter),
        }
    }
}

impl View for DiskLayout {
    type V = DiskLayoutView;

    open spec fn view(&self) -> DiskLayoutView {
        DiskLayoutView {
            will_show_ui: opt_view(self.will_show_ui),
            create_partitions: self.disk.create_partitions@.map_values(|p: PartitionSpec| p@),
            modify_partitions: self.disk.modify_partitions@.map_values(|p: PartitionFormat| p@),
            will_wipe_disk: self.disk.will_wipe_disk@,
            disk_id: self.disk.disk_id@,
        }
    }
}

impl View for InstallTarget {
    type V = InstallTargetView;

    open spec fn view(&self) -> InstallTargetView {
        InstallTargetView {
            install_to: match self.install_to {
                Some(t) => Some((t.disk_id@, t.partition_id@)),
                None => None,
            },
            will_show_ui: opt_view(self.will_show_ui),
            install_to_available_partition: opt_view(self.install_to_available_partition),
        }
    }
}

impl View for OwnerData {
    type V = OwnerDataView;

    open spec fn view(&self) -> OwnerDataView {
        OwnerDataView {
            accept_eula: self.accept_eula@,
            full_name: self.full_name@,
            organization: self.organization@,
            key: self.product_key.key@,
            key_will_show_ui: opt_view(self.product_key.will_show_ui),
        }
    }
}

impl View for SetupComponent {
    type V = SetupComponentView;

    open spec fn view(&self) -> SetupComponentView {
        SetupComponentView {
            name: self.name@,
            computer_name: opt_view(self.computer_name),
            disk_configuration: match self.disk_configuration {
                Some(d) => Some(d@),
                None => None,
            },
            image_install: match self.image_install {
                Some(i) => Some(i@),
                None => None,
            },
            input_locale: opt_view(self.input_locale),
            run_synchronous: match self.run_synchronous {
                Some(cmds) => Some(cmds@.map_values(|c: SetupCommand| c@)),
                None => None,
            },
            setup_ui_language: opt_view(self.setup_ui_language),
            system_locale: opt_view(self.system_locale),
            ui_language: opt_view(self.ui_language),
            user_data: match self.user_data {
                Some(u) => Some(u@),
                None => None,
            },
            user_locale: opt_view(self.user_locale),
        }
    }
}

impl View for SetupPass {
    type V = SetupPassView;

    open spec fn view(&self) -> SetupPassView {
        SetupPassView { pass: self.pass@, component: self.component@.map_values(|c: SetupComponent| c@) }
    }
}

impl View for Unattend {
    type V = UnattendView;

    open spec fn view(&self) -> UnattendView {
        UnattendView { xmlns: self.xmlns@, settings: self.settings@.map_values(|s: SetupPass| s@) }
    }
}

} // verus!
