//! The Windows 11 mold: its install source and its unattended install.

use vstd::prelude::*;

use crate::unattend::{
    blank_component, Disk, DiskLayout, DiskLayoutView, InstallTarget, InstallTargetView, InstallTo,
    OwnerData, OwnerDataView, PartitionFormat, PartitionFormatView, PartitionSpec, PartitionSpecView,
    ProductKey, SetupCommand, SetupCommandView, SetupComponent, SetupComponentView, SetupPass,
    SetupPassView, Unattend, UnattendView,
};
use crate::unattend_xml::{answer_file_text, unattend_xml_text};
use vstd::string::StringExecFns;

verus! {

/// The architecture of an image, as goldboot_image declares it.
#[verifier::external_type_specification]
#[verifier::external_body]
pub struct ExImageArch(goldboot_image::ImageArch);

/// The hostname of a machine.
#[derive(Clone, Debug, PartialEq, Eq)]
pub struct Hostname {
    pub hostname: String,
}

/// Where the installation media of an image come from.
#[derive(Clone, Debug, PartialEq, Eq)]
pub enum ImageSource {
    /// An ISO image at `url`, with an optional checksum.
    Iso { url: String, checksum: Option<String> },
}

/// The Windows 11 mold.
#[derive(Clone, Debug, PartialEq, Eq)]
pub struct Windows11 {
    pub hostname: Hostname,
}

impl Default for Hostname {
    fn default() -> (r: Self)
        ensures
            r.hostname@.len() == 0,
    {
        Hostname { hostname: String::new() }
    }
}

impl Default for Windows11 {
    fn default() -> (r: Self)
        ensures
            r.hostname.hostname@.len() == 0,
    {
        Windows11 { hostname: Hostname::default() }
    }
}

/// Whether `o` holds a string equal to `s`.
pub open spec fn holds(o: Option<String>, s: Seq<char>) -> bool {
    o matches Some(v) && v@ == s
}

/// The command that lets setup pass over the Secure Boot check.
pub open spec fn bypass_secure_boot() -> Seq<char> {
    r#"cmd /c reg add "HKLM\SYSTEM\Setup\LabConfig" /v "BypassSecureBootCheck" /t REG_DWORD /d 1"#@
}

/// The command that lets setup pass over the TPM check.
pub open spec fn bypass_tpm() -> Seq<char> {
    r#"cmd /c reg add "HKLM\SYSTEM\Setup\LabConfig" /v "BypassTPMCheck" /t REG_DWORD /d 1"#@
}

/// The generic product key that setup is given.
pub open spec fn product_key() -> Seq<char> {
    "W269N-WFGWX-YVC9B-4J6C9-T83GX"@
}

/// The language component of the windowsPE pass: every language and locale
/// `en-US`.
pub open spec fn language_view() -> SetupComponentView {
    SetupComponentView {
        input_locale: Some("en-US"@),
        setup_ui_language: Some("en-US"@),
        system_locale: Some("en-US"@),
        ui_language: Some("en-US"@),
        user_locale: Some("en-US"@),
        ..blank_component("Microsoft-Windows-International-Core-WinPE"@)
    }
}

/// The command `path`, added to run at position `order`.
pub open spec fn command_view(path: Seq<char>, order: Seq<char>) -> SetupCommandView {
    SetupCommandView { path, description: None, order, action: Some("add"@) }
}

/// Disk 0 laid out as a 512 MB `System` partition followed by an `OS`
/// partition `C` over the rest, both NTFS and primary, without wiping the
/// disk.
pub open spec fn disk_layout_view() -> DiskLayoutView {
    DiskLayoutView {
        will_show_ui: None,
        create_partitions: seq![
            PartitionSpecView { order: "1"@, size: Some("512"@), extend: None, type_: "Primary"@ },
            PartitionSpecView { order: "2"@, size: None, extend: None, type_: "Primary"@ },
        ],
        modify_partitions: seq![
            PartitionFormatView {
                format: "NTFS"@,
                label: "System"@,
                order: "1"@,
                partition_id: "1"@,
                letter: None,
            },
            PartitionFormatView {
                format: "NTFS"@,
                label: "OS"@,
                order: "2"@,
                partition_id: "2"@,
                letter: Some("C"@),
            },
        ],
        will_wipe_disk: "false"@,
        disk_id: "0"@,
    }
}

/// The setup component of the windowsPE pass: it passes over the Secure Boot
/// and TPM checks, lays out the disk, installs to partition 2 of disk 0, and
/// accepts the licence with the generic product key.
pub open spec fn setup_view() -> SetupComponentView {
    SetupComponentView {
        run_synchronous: Some(seq![command_view(bypass_secure_boot(), "1"@), command_view(bypass_tpm(), "2"@)]),
        disk_configuration: Some(disk_layout_view()),
        image_install: Some(
            InstallTargetView {
                install_to: Some(("0"@, "2"@)),
                will_show_ui: Some("Never"@),
                install_to_available_partition: None,
            },
        ),
        user_data: Some(
            OwnerDataView {
                accept_eula: "true"@,
                full_name: "test"@,
                organization: "test"@,
                key: product_key(),
                key_will_show_ui: Some("Never"@),
            },
        ),
        ..blank_component("Microsoft-Windows-Setup"@)
    }
}

/// The shell component of the specialize pass, which names the computer
/// `hostname` and sets nothing else.
pub open spec fn shell_view(hostname: Seq<char>) -> SetupComponentView {
    SetupComponentView {
        computer_name: Some(hostname),
        ..blank_component("Microsoft-Windows-Shell-Setup"@)
    }
}

/// The answer file that installs Windows 11 unattended on a machine named
/// `hostname`: a windowsPE pass with the language and setup components, then
/// a specialize pass with the shell component.
pub open spec fn answer_file(hostname: Seq<char>) -> UnattendView {
    UnattendView {
        xmlns: "urn:schemas-microsoft-com:unattend"@,
        settings: seq![
            SetupPassView { pass: "windowsPE"@, component: seq![language_view(), setup_view()] },
            SetupPassView { pass: "specialize"@, component: seq![shell_view(hostname)] },
        ],
    }
}

/// The line that opens an XML document encoded in UTF-8.
pub open spec fn xml_declaration() -> Seq<char> {
    "<?xml version=\"1.0\" encoding=\"utf-8\"?>\n"@
}

/// The `Autounattend.xml` document whose root element is written in `body`:
/// the XML declaration, then the body.
pub fn autounattend_document(body: &str) -> (r: String)
    ensures
        r@ == xml_declaration() + body@,
{
    "<?xml version=\"1.0\" encoding=\"utf-8\"?>\n".to_owned().concat(body)
}

fn language_component() -> (c: SetupComponent)
    ensures
        c@ == language_view(),
{
    let mut c = SetupComponent::named("Microsoft-Windows-International-Core-WinPE");
    c.ui_language = Some("en-US".to_owned());
    c.user_locale = Some("en-US".to_owned());
    c.system_locale = Some("en-US".to_owned());
    c.input_locale = Some("en-US".to_owned());
    c.setup_ui_language = Some("en-US".to_owned());
    c
}

fn added_command(path: &str, order: &str) -> (c: SetupCommand)
    ensures
        c@ == command_view(path@, order@),
{
    SetupCommand {
        path: path.to_owned(),
        description: None,
        order: order.to_owned(),
        action: Some("add".to_owned()),
    }
}

fn disk_layout() -> (d: DiskLayout)
    ensures
        d@ == disk_layout_view(),
{
    let mut create: Vec<PartitionSpec> = Vec::new();
    create.push(PartitionSpec {
        order: "1".to_owned(),
        size: Some("512".to_owned()),
        extend: None,
        type_: "Primary".to_owned(),
    });
    create.push(PartitionSpec { order: "2".to_owned(), size: None, extend: None, type_: "Primary".to_owned() });
    let mut modify: Vec<PartitionFormat> = Vec::new();
    modify.push(PartitionFormat {
        format: "NTFS".to_owned(),
        label: "System".to_owned(),
        order: "1".to_owned(),
        partition_id: "1".to_owned(),
        letter: None,
    });
    modify.push(PartitionFormat {
        format: "NTFS".to_owned(),
        label: "OS".to_owned(),
        order: "2".to_owned(),
        partition_id: "2".to_owned(),
        letter: Some("C".to_owned()),
    });
    let d = DiskLayout {
        will_show_ui: None,
        disk: Disk {
            create_partitions: create,
            modify_partitions: modify,
            will_wipe_disk: "false".to_owned(),
            disk_id: "0".to_owned(),
        },
    };
    assert(d.disk.create_partitions@.map_values(|p: PartitionSpec| p@) =~= disk_layout_view().create_partitions);
    assert(d.disk.modify_partitions@.map_values(|p: PartitionFormat| p@) =~= disk_layout_view().modify_partitions);
    d
}

fn setup_component() -> (c: SetupComponent)
    ensures
        c@ == setup_view(),
{
    let mut commands: Vec<SetupCommand> = Vec::new();
    commands.push(added_command(
        r#"cmd /c reg add "HKLM\SYSTEM\Setup\LabConfig" /v "BypassSecureBootCheck" /t REG_DWORD /d 1"#,
        "1",
    ));
    commands.push(added_command(
        r#"cmd /c reg add "HKLM\SYSTEM\Setup\LabConfig" /v "BypassTPMCheck" /t REG_DWORD /d 1"#,
        "2",
    ));
    assert(commands@.map_values(|c: SetupCommand| c@) =~= seq![
        command_view(bypass_secure_boot(), "1"@),
        command_view(bypass_tpm(), "2"@),
    ]);
    let mut c = SetupComponent::named("Microsoft-Windows-Setup");
    c.run_synchronous = Some(commands);
    c.disk_configuration = Some(disk_layout());
    c.image_install = Some(InstallTarget {
        install_to: Some(InstallTo { disk_id: "0".to_owned(), partition_id: "2".to_owned() }),
        will_show_ui: Some("Never".to_owned()),
        install_to_available_partition: None,
    });
    c.user_data = Some(OwnerData {
        accept_eula: "true".to_owned(),
        full_name: "test".to_owned(),
        organization: "test".to_owned(),
        product_key: ProductKey {
            key: "W269N-WFGWX-YVC9B-4J6C9-T83GX".to_owned(),
            will_show_ui: Some("Never".to_owned()),
        },
    });
    c
}

impl Windows11 {
    /// Where the installation media come from, whatever the architecture.
    pub fn default_source(&self, _arch: goldboot_image::ImageArch) -> (r: ImageSource)
        ensures
            r matches ImageSource::Iso { url, checksum } && url@ == "<TODO>.iso"@ && holds(
                checksum,
                "sha256:<TODO>"@,
            ),
    {
        ImageSource::Iso { url: "<TODO>.iso".to_owned(), checksum: Some("sha256:<TODO>".to_owned()) }
    }

    /// The answer file that installs Windows 11 unattended on this machine.
    pub fn unattend(&self) -> (r: Unattend)
        ensures
            r@ == answer_file(self.hostname.hostname@),
            r@.settings[0].component[1].disk_configuration->0.will_wipe_disk == "false"@,
            r@.settings[1].component[0].computer_name == Some(self.hostname.hostname@),
    {
        let mut pe: Vec<SetupComponent> = Vec::new();
        pe.push(language_component());
        pe.push(setup_component());
        let mut shell = SetupComponent::named("Microsoft-Windows-Shell-Setup");
        shell.computer_name = Some(self.hostname.hostname.clone());
        let mut specialize: Vec<SetupComponent> = Vec::new();
        specialize.push(shell);
        let mut settings: Vec<SetupPass> = Vec::new();
        settings.push(SetupPass { pass: "windowsPE".to_owned(), component: pe });
        settings.push(SetupPass { pass: "specialize".to_owned(), component: specialize });
        let r = Unattend { xmlns: "urn:schemas-microsoft-com:unattend".to_owned(), settings };
        let ghost h = self.hostname.hostname@;
        assert(r.settings@[0].component@.map_values(|c: SetupComponent| c@) =~= seq![language_view(), setup_view()]);
        assert(r.settings@[1].component@.map_values(|c: SetupComponent| c@) =~= seq![shell_view(h)]);
        assert(r.settings@.map_values(|p: SetupPass| p@) =~= answer_file(h).settings);
        r
    }

    /// The `Autounattend.xml` document that installs Windows 11 unattended on
    /// this machine: the XML declaration, then the answer file as quick_xml
    /// writes it; `None` where quick_xml refuses to write it.
    pub fn autounattend(&self) -> (r: Option<String>)
        ensures
            r is Some <==> unattend_xml_text(answer_file(self.hostname.hostname@)) is Some,
            r matches Some(d) ==> d@ == xml_declaration() + unattend_xml_text(
                answer_file(self.hostname.hostname@),
            )->0,
    {
        let u = self.unattend();
        match answer_file_text(&u) {
            Some(body) => Some(autounattend_document(body.as_str())),
            None => None,
        }
    }
}

/// What the answer file for `hostname` asks of Windows setup: in the
/// windowsPE pass, every language and locale `en-US`; the Secure Boot and TPM
/// checks bypassed, in that order; disk 0 kept, not wiped, and split into a
/// primary 512 MB NTFS `System` partition and a primary NTFS `OS` partition
/// `C` over the rest; the image installed to partition 2 of disk 0; the
/// licence accepted with the generic key. In the specialize pass, the
/// computer named `hostname`. Two answer files are the same exactly when
/// their hostnames are.
pub proof fn lemma_answer_file_content(hostname: Seq<char>, other: Seq<char>)
    ensures
        ({
            let a = answer_file(hostname);
            let pe = a.settings[0].component;
            let setup = pe[1];
            let disk = setup.disk_configuration->0;
            let shell = a.settings[1].component[0];
            &&& a.xmlns == "urn:schemas-microsoft-com:unattend"@
            &&& a.settings.len() == 2
            &&& a.settings[0].pass == "windowsPE"@
            &&& a.settings[1].pass == "specialize"@
            &&& pe.len() == 2
            &&& pe[0].name == "Microsoft-Windows-International-Core-WinPE"@
            &&& pe[0].ui_language == Some("en-US"@)
            &&& pe[0].setup_ui_language == Some("en-US"@)
            &&& pe[0].input_locale == Some("en-US"@)
            &&& pe[0].system_locale == Some("en-US"@)
            &&& pe[0].user_locale == Some("en-US"@)
            &&& setup.name == "Microsoft-Windows-Setup"@
            &&& setup.run_synchronous matches Some(cmds) && cmds.len() == 2
                && cmds[0].path == r#"cmd /c reg add "HKLM\SYSTEM\Setup\LabConfig" /v "BypassSecureBootCheck" /t REG_DWORD /d 1"#@
                && cmds[0].order == "1"@
                && cmds[1].path == r#"cmd /c reg add "HKLM\SYSTEM\Setup\LabConfig" /v "BypassTPMCheck" /t REG_DWORD /d 1"#@
                && cmds[1].order == "2"@
            &&& setup.disk_configuration is Some
            &&& disk.will_wipe_disk == "false"@
            &&& disk.disk_id == "0"@
            &&& disk.create_partitions.len() == 2
            &&& disk.create_partitions[0].size == Some("512"@)
            &&& disk.create_partitions[0].type_ == "Primary"@
            &&& disk.create_partitions[1].size is None
            &&& disk.create_partitions[1].type_ == "Primary"@
            &&& disk.modify_partitions.len() == 2
            &&& disk.modify_partitions[0].label == "System"@
            &&& disk.modify_partitions[0].format == "NTFS"@
            &&& disk.modify_partitions[1].label == "OS"@
            &&& disk.modify_partitions[1].format == "NTFS"@
            &&& disk.modify_partitions[1].letter == Some("C"@)
            &&& setup.image_install matches Some(i) && i.install_to == Some(("0"@, "2"@))
            &&& setup.user_data matches Some(u) && u.accept_eula == "true"@
                && u.key == "W269N-WFGWX-YVC9B-4J6C9-T83GX"@
            &&& shell.name == "Microsoft-Windows-Shell-Setup"@
            &&& shell.computer_name == Some(hostname)
        }),
        answer_file(hostname) == answer_file(other) <==> hostname == other,
{
    if answer_file(hostname) == answer_file(other) {
        assert(answer_file(hostname).settings[1].component[0].computer_name == Some(hostname));
        assert(answer_file(other).settings[1].component[0].computer_name == Some(other));
    }
}

} // verus!
