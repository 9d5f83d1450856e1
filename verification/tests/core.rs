use goldboot::config::{BuildConfig, ConfigError};
use goldboot::init::{guess_memory_size, init_config, InitError};
use goldboot::random::{port_candidate, random_password};
use goldboot::templates::TemplateBase;
use goldboot::text::{decimal_string, str_eq};
use goldboot::validate::ValidationErrors;

fn general(b: TemplateBase) -> String {
    format!("{{\"base\":\"{}\",\"storage_size\":\"\"}}", b.name())
}

#[test]
fn it_works() {
    let result = 2 + 2;
    assert_eq!(result, 4);
}

#[test]
fn guessed_memory_is_below_free_memory() {
    assert_eq!(guess_memory_size(16384), 2048);
    assert_eq!(guess_memory_size(2049), 2048);
    assert_eq!(guess_memory_size(2048), 1024);
    assert_eq!(guess_memory_size(1000), 500);
    assert_eq!(guess_memory_size(1), 0);
}

#[test]
fn decimal_strings() {
    assert_eq!(decimal_string(0), "0");
    assert_eq!(decimal_string(7), "7");
    assert_eq!(decimal_string(2048), "2048");
    assert_eq!(decimal_string(u64::MAX), u64::MAX.to_string());
}

#[test]
fn string_equality() {
    assert!(str_eq("root", "root"));
    assert!(!str_eq("root", "Root"));
    assert!(!str_eq("root", "roots"));
}

#[test]
fn random_passwords_are_twelve_alphanumerics() {
    for _ in 0..20 {
        let p = random_password();
        assert_eq!(p.chars().count(), 12);
        assert!(p.chars().all(|c| c.is_ascii_alphanumeric()));
    }
}

#[test]
fn port_candidates_stay_in_range() {
    for _ in 0..100 {
        let p = port_candidate(5900, 5910);
        assert!((5900..5910).contains(&p));
    }
    assert_eq!(port_candidate(8080, 8081), 8080);
}

fn config_with(templates: Vec<&str>) -> BuildConfig {
    let mut c = BuildConfig::default();
    c.name = "image".to_string();
    c.templates = templates.into_iter().map(|t| t.to_string()).collect();
    c
}

#[test]
fn default_config_is_empty() {
    let c = BuildConfig::default();
    assert_eq!(c.name, "");
    assert!(c.description.is_none());
    assert!(c.arch.is_none());
    assert!(c.memory.is_none());
    assert!(c.nvme.is_none());
    assert!(c.templates.is_empty());
}

#[test]
fn template_bases_are_read() {
    let c = config_with(vec![
        r#"{"base": "ArchLinux", "storage_size": "10 GiB"}"#,
        r#"{"storage_size": "1GiB", "base": "Debian"}"#,
    ]);
    assert_eq!(
        c.get_template_bases(),
        Ok(vec!["ArchLinux".to_string(), "Debian".to_string()])
    );
    assert_eq!(
        c.template_bases(),
        Some(vec!["ArchLinux".to_string(), "Debian".to_string()])
    );
}

#[test]
fn template_bases_missing() {
    let c = config_with(vec![r#"{"base": "ArchLinux"}"#, r#"{"base": 3}"#]);
    assert_eq!(c.template_bases(), None);
    let c = config_with(vec![r#"not json"#]);
    assert_eq!(c.template_bases(), None);
}

#[test]
fn template_kinds_are_read() {
    let c = config_with(vec![r#"{"base": "Windows10"}"#, r#"{"base": "PopOs"}"#]);
    assert_eq!(
        c.get_templates(),
        Ok(vec![TemplateBase::Windows10, TemplateBase::PopOs])
    );
    let c = config_with(vec![
        r#"{"base": "Ubuntu"}"#,
        r#"{"base": "Gentoo"}"#,
        r#"{"kind": "Debian"}"#,
    ]);
    assert_eq!(c.get_templates(), Err(ConfigError::UnknownTemplateBase(1)));
    let c = config_with(vec![r#"{"kind": "Debian"}"#]);
    assert_eq!(c.get_templates(), Err(ConfigError::UnknownTemplateBase(0)));
}

#[test]
fn config_validation() {
    let c = config_with(vec![r#"{"base": "Debian"}"#]);
    assert_eq!(c.validate(), Ok(()));

    let mut c = config_with(vec![]);
    c.name = String::new();
    c.description = Some("x".repeat(4097));
    assert_eq!(
        c.validate(),
        Err(ValidationErrors {
            fields: vec![
                "name".to_string(),
                "description".to_string(),
                "templates".to_string()
            ]
        })
    );

    let mut c = config_with(vec![r#"{"base": "Debian"}"#]);
    c.description = Some("é".repeat(4096));
    assert_eq!(c.validate(), Ok(()));
}

#[test]
fn init_without_templates() {
    let r = init_config(&vec![], None, None, "x86_64", None, Some(8192), general);
    assert_eq!(r, Err(InitError::NoTemplates));
}

#[test]
fn init_on_unsupported_platform() {
    let r = init_config(&vec!["ArchLinux".to_string()], None, None, "riscv64", None, Some(8192), general);
    assert_eq!(r, Err(InitError::UnsupportedPlatform));
}

#[test]
fn init_with_unknown_template() {
    let names = vec!["ArchLinux".to_string(), "Gentoo".to_string(), "Nope".to_string()];
    let r = init_config(&names, None, None, "aarch64", None, Some(8192), general);
    assert_eq!(r, Err(InitError::UnknownTemplate(1)));
}

#[test]
fn init_fills_in_the_config() {
    let names = vec!["ArchLinux".to_string(), "Windows10".to_string()];
    let c = init_config(&names, None, Some("work".to_string()), "x86_64", None, Some(8192), general).unwrap();
    assert_eq!(c.name, "work");
    assert_eq!(c.arch, Some("x86_64".to_string()));
    assert_eq!(c.memory, Some("2048".to_string()));
    assert!(c.description.is_none());
    assert!(c.nvme.is_none());
    assert_eq!(
        c.templates,
        vec![
            r#"{"base":"ArchLinux","storage_size":""}"#.to_string(),
            r#"{"base":"Windows10","storage_size":""}"#.to_string()
        ]
    );
    assert_eq!(
        c.get_template_bases(),
        Ok(vec!["ArchLinux".to_string(), "Windows10".to_string()])
    );
    assert_eq!(c.validate(), Ok(()));

    let c = init_config(
        &names,
        Some("given".to_string()),
        Some("work".to_string()),
        "aarch64",
        Some("4096".to_string()),
        None,
        general,
    )
    .unwrap();
    assert_eq!(c.name, "given");
    assert_eq!(c.arch, Some("aarch64".to_string()));
    assert_eq!(c.memory, Some("4096".to_string()));

    let c = init_config(&names, None, None, "x86_64", None, Some(1500), general).unwrap();
    assert_eq!(c.name, "");
    assert_eq!(c.memory, Some("750".to_string()));
    let c = init_config(&names, None, None, "x86_64", None, None, general).unwrap();
    assert_eq!(c.memory, Some("2048".to_string()));
    let c = init_config(&names, None, None, "x86_64", None, Some(0), general).unwrap();
    assert_eq!(c.memory, Some("2048".to_string()));
}

#[test]
fn passwords_from_bytes() {
    assert_eq!(goldboot::random::password_from_bytes(&b"aZ09xy".to_vec()), "aZ09xy");
    assert_eq!(goldboot::random::password_from_bytes(&vec![]), "");
}
