use goldboot::templates::{
    provisioner_kind, provisioner_kind_of, template_base, ProvisionerDecision, GeneralContainer, ProvisionerKind, ProvisionersContainer,
    RootPasswordContainer, TemplateBase, TemplateError,
};
use goldboot::validate::ValidationErrors;

const ALL: [TemplateBase; 10] = [
    TemplateBase::AlpineLinux,
    TemplateBase::ArchLinux,
    TemplateBase::Debian,
    TemplateBase::GoldbootLinux,
    TemplateBase::MacOs,
    TemplateBase::PopOs,
    TemplateBase::SteamDeck,
    TemplateBase::SteamOs,
    TemplateBase::Ubuntu,
    TemplateBase::Windows10,
];

#[test]
fn names_read_back_as_their_kind() {
    for b in ALL {
        assert_eq!(TemplateBase::from_name(&b.name()), Some(b));
    }
    assert_eq!(TemplateBase::ArchLinux.name(), "ArchLinux");
    assert_eq!(TemplateBase::Windows10.name(), "Windows10");
    assert_eq!(TemplateBase::from_name("archlinux"), None);
    assert_eq!(TemplateBase::from_name(""), None);
}

#[test]
fn try_from_knows_arch_linux_only() {
    assert_eq!(
        TemplateBase::try_from("ArchLinux".to_string()),
        Ok(TemplateBase::ArchLinux)
    );
    assert_eq!(
        TemplateBase::try_from("Debian".to_string()),
        Err(TemplateError::UnknownTemplateName)
    );
}

#[test]
fn default_base_is_alpine() {
    assert_eq!(TemplateBase::default(), TemplateBase::AlpineLinux);
}

#[test]
fn template_error_message() {
    assert_eq!(TemplateError::UnknownTemplateName.message(), "Unknown template name");
}

#[test]
fn names_give_objects_that_read_back() {
    for b in ALL {
        let object = format!("{{\"base\":\"{}\"}}", b.name());
        assert_eq!(template_base(&object), Some(b));
    }
}

#[test]
fn template_base_of_objects() {
    assert_eq!(template_base(r#"{"base":"MacOs"}"#), Some(TemplateBase::MacOs));
    assert_eq!(template_base(r#" { "x": 1, "base" : "Ubuntu" } "#), Some(TemplateBase::Ubuntu));
    assert_eq!(template_base(r#"{"base":"macos"}"#), None);
    assert_eq!(template_base(r#"{"base":["MacOs"]}"#), None);
    assert_eq!(template_base(r#"["base","MacOs"]"#), None);
    assert_eq!(template_base(r#"{"base":"MacOs""#), None);
}

#[test]
fn storage_size_in_bytes() {
    let mut g = GeneralContainer::default();
    assert_eq!(g.base, TemplateBase::AlpineLinux);
    assert!(g.qemuargs.is_none());
    assert_eq!(g.checked_storage_size_bytes(), None);
    g.storage_size = "1GiB".to_string();
    assert_eq!(g.storage_size_bytes(), 1073741824);
    g.storage_size = "256 kB".to_string();
    assert_eq!(g.storage_size_bytes(), 256000);
    assert_eq!(g.checked_storage_size_bytes(), Some(256000));
    g.storage_size = "0.5MB".to_string();
    assert_eq!(g.storage_size_bytes(), 500000);
    g.storage_size = "ten gigabytes".to_string();
    assert_eq!(g.checked_storage_size_bytes(), None);
}

#[test]
fn root_password_container() {
    let c = RootPasswordContainer::default();
    assert_eq!(c.root_password.chars().count(), 12);
    assert_eq!(c.validate(), Ok(()));
    let c = RootPasswordContainer { root_password: "p".repeat(65) };
    assert_eq!(
        c.validate(),
        Err(ValidationErrors { fields: vec!["root_password".to_string()] })
    );
    let c = RootPasswordContainer { root_password: "ü".repeat(64) };
    assert_eq!(c.validate(), Ok(()));
}

#[test]
fn provisioner_kinds() {
    assert_eq!(provisioner_kind("ansible"), ProvisionerKind::Ansible);
    assert_eq!(provisioner_kind("shell"), ProvisionerKind::Shell);
    assert_eq!(provisioner_kind("script"), ProvisionerKind::Script);
    assert_eq!(provisioner_kind("Shell"), ProvisionerKind::Other);
}

#[test]
fn provisioners_plan() {
    let c = ProvisionersContainer {
        provisioners: Some(vec![
            r#"{"type": "shell", "inline": "echo hi"}"#.to_string(),
            r#"{"type": "ansible", "playbook": "site.yml"}"#.to_string(),
            r#"{"type": "chef"}"#.to_string(),
            r#"{"type": "script", "script": "a.sh"}"#.to_string(),
        ]),
    };
    let expected = vec![
        ProvisionerKind::Shell,
        ProvisionerKind::Ansible,
        ProvisionerKind::Other,
        ProvisionerKind::Script,
    ];
    assert_eq!(c.plan(), expected);
    assert_eq!(c.checked_plan(), Some(expected));
}

#[test]
fn provisioners_plan_without_types() {
    let c = ProvisionersContainer::default();
    assert_eq!(c.plan(), vec![]);
    assert_eq!(c.checked_plan(), Some(vec![]));
    let c = ProvisionersContainer {
        provisioners: Some(vec![
            r#"{"type": "shell"}"#.to_string(),
            r#"{"inline": "ls"}"#.to_string(),
        ]),
    };
    assert_eq!(c.checked_plan(), None);
}

#[test]
fn provisioner_kind_of_objects() {

    assert_eq!(provisioner_kind_of(r#"{"type":"ansible"}"#), Some(ProvisionerKind::Ansible));
    assert_eq!(provisioner_kind_of(r#"{"type":"puppet"}"#), Some(ProvisionerKind::Other));
    assert_eq!(provisioner_kind_of(r#"{"type":1}"#), None);
    assert_eq!(provisioner_kind_of(r#"{}"#), None);
}

#[test]
fn provisioning_decisions() {
    let c = ProvisionersContainer {
        provisioners: Some(vec![
            r#"{"type": "shell"}"#.to_string(),
            r#"{"type": "chef"}"#.to_string(),
            r#"{"inline": "ls"}"#.to_string(),
        ]),
    };
    assert_eq!(c.decision_at(0), ProvisionerDecision::Run(ProvisionerKind::Shell));
    assert_eq!(c.decision_at(1), ProvisionerDecision::Skip);
    assert_eq!(c.decision_at(2), ProvisionerDecision::MissingType);
    assert_eq!(c.decision_at(3), ProvisionerDecision::Done);
    assert_eq!(ProvisionersContainer::default().decision_at(0), ProvisionerDecision::Done);
}
