use mail_allowlist::{empty_string_vector, Config, ConfigError, EmailRequest, RawConfig};
use serde_yaml::Value;

fn string_list(doc: &Value, key: &str) -> Option<Vec<String>> {
    doc.get(key).map(|v| {
        v.as_sequence()
            .expect("a list")
            .iter()
            .map(|item| item.as_str().expect("a string").to_string())
            .collect()
    })
}

fn raw_from_yaml(yaml: &str) -> RawConfig {
    let doc: Value = serde_yaml::from_str(yaml).expect("well-formed yaml");
    RawConfig {
        allowed_domains: string_list(&doc, "allowed_domains"),
        allowed_mails: string_list(&doc, "allowed_mails"),
        token: doc.get("token").map(|t| t.as_str().expect("a string").to_string()),
    }
}

fn strings(items: &[&str]) -> Vec<String> {
    items.iter().map(|s| s.to_string()).collect()
}

#[test]
fn empty_string_vector_returns_empty_vec() {
    let v = empty_string_vector();
    assert!(v.is_empty());
}

#[test]
fn config_normalize_lowercases_domains_and_mails() {
    let mut cfg = Config {
        allowed_domains: vec!["EXAMPLE.COM".into(), "Sub.Domain.Org".into()],
        allowed_mails: vec!["User@Example.COM".into(), "ADMIN@ORG.NET".into()],
        token: "secret".into(),
    };

    cfg.normalize();

    assert_eq!(cfg.allowed_domains, vec!["example.com", "sub.domain.org"]);
    assert_eq!(cfg.allowed_mails, vec!["user@example.com", "admin@org.net"]);
}

#[test]
fn normalize_keeps_token_as_is() {
    let mut cfg = Config {
        allowed_domains: vec![],
        allowed_mails: vec![],
        token: "MiXeD-Secret".into(),
    };
    cfg.normalize();
    assert_eq!(cfg.token, "MiXeD-Secret");
    assert!(cfg.allowed_domains.is_empty());
    assert!(cfg.allowed_mails.is_empty());
}

#[test]
fn load_config_reads_and_normalizes_yaml() {
    let yaml = r#"
allowed_domains:
  - ExAmPlE.com
  - API.Service.IO
allowed_mails:
  - USER@One.Org
token: SUPER_TOKEN
"#;
    let raw = raw_from_yaml(yaml);
    let loaded = Config::load(raw).expect("config loads");
    assert_eq!(loaded.token, "SUPER_TOKEN");
    assert_eq!(loaded.allowed_domains, vec!["example.com", "api.service.io"]);
    assert_eq!(loaded.allowed_mails, vec!["user@one.org"]);
    for entry in loaded.allowed_domains.iter().chain(loaded.allowed_mails.iter()) {
        assert_eq!(entry, &entry.to_lowercase());
    }
}

#[test]
fn load_config_applies_defaults_when_missing() {
    let yaml = r#"
token: t123
"#;
    let raw = raw_from_yaml(yaml);
    let loaded = Config::load(raw).expect("config loads with defaults");
    assert_eq!(loaded.token, "t123");
    assert!(loaded.allowed_domains.is_empty());
    assert!(loaded.allowed_mails.is_empty());
}

#[test]
fn load_rejects_missing_token_as_parse_error() {
    let raw = RawConfig {
        allowed_domains: Some(strings(&["example.com"])),
        allowed_mails: None,
        token: None,
    };
    assert!(matches!(Config::load(raw), Err(ConfigError::Parse(_))));
}

#[test]
fn load_rejects_empty_token_as_validation_error() {
    let raw = RawConfig {
        allowed_domains: None,
        allowed_mails: None,
        token: Some(String::new()),
    };
    assert!(matches!(Config::load(raw), Err(ConfigError::Validation(_))));
}

#[test]
fn email_request_validate_accepts_valid_email() {
    let req = EmailRequest {
        email: "user@example.com".into(),
    };
    assert!(req.validate().is_ok());
}

#[test]
fn email_request_validate_rejects_invalid_email() {
    let req = EmailRequest {
        email: "not-an-email".into(),
    };
    assert!(req.validate().is_err());
}

#[test]
fn email_request_validate_rejects_empty_and_bad_user_part() {
    assert!(EmailRequest { email: String::new() }.validate().is_err());
    assert!(EmailRequest { email: "two words@example.com".into() }.validate().is_err());
    assert!(EmailRequest { email: "user@".into() }.validate().is_err());
}

#[test]
fn normalize_lowercases_non_ascii_entries() {
    let mut cfg = Config {
        allowed_domains: vec!["MÜNCHEN.DE".into()],
        allowed_mails: vec!["ÄRGER@Example.ORG".into()],
        token: "t".into(),
    };
    cfg.normalize();
    assert_eq!(cfg.allowed_domains, vec!["münchen.de"]);
    assert_eq!(cfg.allowed_mails, vec!["ärger@example.org"]);
}
