use goldboot::provisioner::{
    ProvisionRun,
    AnsibleProvisioner, Partition, ProvisionAction, ProvisionError, Provisioner, ShellProvisioner,
};

#[test]
fn inline_shell_provisioner() {
    let p = ShellProvisioner::inline("apt-get update");
    assert_eq!(p.type_, "shell");
    assert_eq!(p.ansible.playbook, None);
    assert_eq!(p.shell.inline, Some("apt-get update".to_string()));
    assert!(p.shell.scripts.is_empty());
    assert_eq!(
        p.actions("root", "secret"),
        vec![ProvisionAction::Exec("apt-get update".to_string())]
    );
}

#[test]
fn actions_run_inline_then_scripts_then_playbook() {
    let p = Provisioner {
        type_: "shell".to_string(),
        ansible: AnsibleProvisioner { playbook: Some("site.yml".to_string()) },
        shell: ShellProvisioner {
            scripts: vec!["a.sh".to_string(), "b.sh".to_string()],
            inline: Some("true".to_string()),
        },
    };
    assert_eq!(
        p.actions("admin", "pw 1"),
        vec![
            ProvisionAction::Exec("true".to_string()),
            ProvisionAction::UploadExec("a.sh".to_string()),
            ProvisionAction::UploadExec("b.sh".to_string()),
            ProvisionAction::RunAnsible(vec![
                "--extra-vars".to_string(),
                "ansible_user=admin ansible_password=pw 1".to_string(),
                "site.yml".to_string(),
            ]),
        ]
    );
}

#[test]
fn empty_provisioner_takes_no_step() {
    let p = Provisioner {
        type_: "ansible".to_string(),
        ansible: AnsibleProvisioner::default(),
        shell: ShellProvisioner::default(),
    };
    assert_eq!(p.actions("root", "root"), vec![]);
}

#[test]
fn outcomes() {
    let exec = ProvisionAction::Exec("ls".to_string());
    assert_eq!(exec.outcome(Some(0)), Ok(()));
    assert_eq!(exec.outcome(Some(1)), Err(ProvisionError::ProvisioningFailed));
    assert_eq!(exec.outcome(None), Err(ProvisionError::ProvisioningFailed));
    let upload = ProvisionAction::UploadExec("a.sh".to_string());
    assert_eq!(upload.outcome(Some(3)), Ok(()));
    let ansible = ProvisionAction::RunAnsible(vec![]);
    assert_eq!(ansible.outcome(Some(0)), Ok(()));
    assert_eq!(ansible.outcome(None), Ok(()));
    assert_eq!(ansible.outcome(Some(2)), Err(ProvisionError::ProvisioningFailed));
}

#[test]
fn partitions_hold_their_fields() {
    let p = Partition {
        type_: "efi".to_string(),
        size: "512M".to_string(),
        label: "boot".to_string(),
        format: "fat32".to_string(),
    };
    assert_eq!(p.clone(), p);
}

#[test]
fn run_goes_in_order_and_stops_at_the_first_failure() {

    let mut run = ProvisionRun::new(vec![
        ProvisionAction::Exec("a".to_string()),
        ProvisionAction::UploadExec("b.sh".to_string()),
        ProvisionAction::Exec("c".to_string()),
        ProvisionAction::Exec("d".to_string()),
    ]);
    assert_eq!(run.next_action(), Some(&ProvisionAction::Exec("a".to_string())));
    assert_eq!(run.record(Some(0)), Ok(()));
    assert_eq!(run.next_action(), Some(&ProvisionAction::UploadExec("b.sh".to_string())));
    assert_eq!(run.record(Some(7)), Ok(()));
    assert_eq!(run.next_action(), Some(&ProvisionAction::Exec("c".to_string())));
    assert_eq!(run.record(Some(1)), Err(ProvisionError::ProvisioningFailed));
    assert_eq!(run.next_action(), None);
    assert_eq!(run.record(Some(0)), Ok(()));
    assert_eq!(run.next_action(), None);
    assert!(!run.succeeded());
}

#[test]
fn run_of_all_good_steps_succeeds() {

    let p = ShellProvisioner::inline("true");
    let mut run = ProvisionRun::new(p.actions("root", "pw"));
    assert!(run.next_action().is_some());
    assert_eq!(run.record(Some(0)), Ok(()));
    assert_eq!(run.next_action(), None);
    assert!(run.succeeded());
    let empty = ProvisionRun::new(vec![]);
    assert!(empty.succeeded());
}
