use finance_query_cli::config::{
    accept_prompted_email, resolve_edgar_email, CliConfig, CliError, ConfigStorage,
    EmailResolution,
};

#[test]
fn an_email_given_on_the_command_line_is_trimmed_and_saved() {
    let mut config = CliConfig::default();
    match resolve_edgar_email(Some("  me@example.com \n".to_string()), &mut config) {
        EmailResolution::Resolved { email, save } => {
            assert_eq!(email, "me@example.com");
            assert!(save);
        }
        _ => panic!("expected an email"),
    }
    assert_eq!(config.edgar_email.as_deref(), Some("me@example.com"));
}

#[test]
fn a_saved_email_is_reused_without_saving() {
    let mut config = CliConfig::default();
    let _ = resolve_edgar_email(Some("first@example.com".to_string()), &mut config);
    match resolve_edgar_email(None, &mut config) {
        EmailResolution::Resolved { email, save } => {
            assert_eq!(email, "first@example.com");
            assert!(!save);
        }
        _ => panic!("expected the saved email"),
    }
}

#[test]
fn a_blank_email_is_refused_and_nothing_is_saved() {
    let mut config = CliConfig { edgar_email: Some("old@example.com".to_string()) };
    match resolve_edgar_email(Some("   ".to_string()), &mut config) {
        EmailResolution::Failed(CliError::InvalidArgument(m)) => {
            assert_eq!(m, "EDGAR email cannot be empty")
        }
        _ => panic!("expected a refusal"),
    }
    assert_eq!(config.edgar_email.as_deref(), Some("old@example.com"));
}

#[test]
fn without_any_email_the_user_is_asked() {
    let mut config = CliConfig::default();
    assert!(matches!(resolve_edgar_email(None, &mut config), EmailResolution::Prompt));
    let err = accept_prompted_email("\t \n".to_string(), &mut config).unwrap_err();
    assert_eq!(
        err.message(),
        "Invalid argument: EDGAR email required to access SEC filings"
    );
    assert!(config.edgar_email.is_none());
    let email = accept_prompted_email(" typed@example.com\n".to_string(), &mut config).unwrap();
    assert_eq!(email, "typed@example.com");
    assert_eq!(config.edgar_email.as_deref(), Some("typed@example.com"));
}

#[test]
fn config_file_lives_under_fq() {
    if let Ok(storage) = ConfigStorage::new() {
        assert_eq!(storage.subdir(), "fq");
        assert_eq!(storage.file_name(), "config.json");
    }
}

#[test]
fn storage_is_located_under_the_config_dir() {
    let base = std::path::PathBuf::from("/home/u/.config");
    let storage = ConfigStorage::from_config_dir(Some(base.clone())).unwrap();
    assert_eq!(storage.base(), &base);
    assert_eq!(storage.subdir(), "fq");
    assert_eq!(storage.file_name(), "config.json");
    let err = ConfigStorage::from_config_dir(None).err().unwrap();
    assert_eq!(err.message(), "Failed to get config directory");
}
