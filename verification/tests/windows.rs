use goldboot::windows_11::{autounattend_document, Hostname, ImageSource, Windows11};

fn mold(name: &str) -> Windows11 {
    Windows11 { hostname: Hostname { hostname: name.to_string() } }
}

#[test]
fn unattend_names_the_computer() {
    let u = mold("build-pc").unattend();
    assert_eq!(u.xmlns, "urn:schemas-microsoft-com:unattend");
    assert_eq!(u.settings.len(), 2);
    assert_eq!(u.settings[0].pass, "windowsPE");
    assert_eq!(u.settings[1].pass, "specialize");
    let shell = &u.settings[1].component[0];
    assert_eq!(shell.name, "Microsoft-Windows-Shell-Setup");
    assert_eq!(shell.computer_name, Some("build-pc".to_string()));
}

#[test]
fn unattend_setup_component() {
    let u = mold("x").unattend();
    let language = &u.settings[0].component[0];
    assert_eq!(language.name, "Microsoft-Windows-International-Core-WinPE");
    assert_eq!(language.setup_ui_language, Some("en-US".to_string()));
    let setup = &u.settings[0].component[1];
    assert_eq!(setup.name, "Microsoft-Windows-Setup");
    let commands = setup.run_synchronous.as_ref().unwrap();
    assert_eq!(commands.len(), 2);
    assert!(commands[0].path.contains("BypassSecureBootCheck"));
    assert!(commands[1].path.contains("BypassTPMCheck"));
    assert_eq!(commands[1].order, "2");
    let disk = &setup.disk_configuration.as_ref().unwrap().disk;
    assert_eq!(disk.create_partitions[0].size, Some("512".to_string()));
    assert_eq!(disk.create_partitions[1].size, None);
    assert_eq!(disk.modify_partitions[1].letter, Some("C".to_string()));
    let install = setup.image_install.as_ref().unwrap().install_to.as_ref().unwrap();
    assert_eq!(install.partition_id, "2");
    let user = setup.user_data.as_ref().unwrap();
    assert_eq!(user.product_key.key, "W269N-WFGWX-YVC9B-4J6C9-T83GX");
}

#[test]
fn document_starts_with_the_declaration() {
    assert_eq!(
        autounattend_document("<unattend/>"),
        "<?xml version=\"1.0\" encoding=\"utf-8\"?>\n<unattend/>"
    );
}

#[test]
fn iso_source() {
    let s = mold("x").default_source(goldboot_image::ImageArch::Amd64);
    assert_eq!(
        s,
        ImageSource::Iso {
            url: "<TODO>.iso".to_string(),
            checksum: Some("sha256:<TODO>".to_string())
        }
    );
}

#[test]
fn default_mold_has_no_hostname() {
    let w = Windows11::default();
    assert_eq!(w.hostname.hostname, "");
    assert_eq!(mold("a").unattend(), mold("a").unattend());
}

#[test]
fn autounattend_document_holds_the_answer_file() {
    let xml = mold("build-pc").autounattend().unwrap();
    assert!(xml.starts_with("<?xml version=\"1.0\" encoding=\"utf-8\"?>\n<unattend"));
    assert!(xml.contains("<ComputerName>build-pc</ComputerName>"));
    assert!(xml.contains("W269N-WFGWX-YVC9B-4J6C9-T83GX"));
    assert!(xml.contains(r#"pass="windowsPE""#));
    assert_eq!(xml, mold("build-pc").autounattend().unwrap());
    assert_ne!(xml, mold("other-pc").autounattend().unwrap());
}
