use secpar::cli::flow::{Action, Event, Flow, Output, Request, Step};
use secpar::cli::par::{ParameterEntry, ParameterType};
use secpar::cli::sec::{SecretDetails, SecretEntry};
use secpar::errors::{SecParError, ServiceError};
use secpar::opt::{Command, GlobalOpts, ParCommand, SecCommand};
use secpar::specs::ParameterStore;

fn opts() -> GlobalOpts {
    GlobalOpts { region: "us-east-1".to_string(), profile: None }
}

fn sec(c: SecCommand) -> (Flow, Step) {
    Flow::start(Command::Secret { command: c }, &opts())
}

fn par(c: ParCommand) -> (Flow, Step) {
    Flow::start(Command::Parameter { command: c }, &opts())
}

fn texts(step: &Step) -> Vec<String> {
    step.output
        .iter()
        .map(|o| match o {
            Output::Text(t) => t.clone(),
            other => panic!("not text: {other:?}"),
        })
        .collect()
}

fn feed(flow: Flow, event: Event) -> (Flow, Step) {
    assert!(flow.accepts(&event));
    flow.step(event)
}

fn listed_secrets(f: Flow, entries: Vec<SecretEntry>) -> (Flow, Step) {
    let (f, s) = feed(f, Event::SecretPage(Ok(Some(entries))));
    assert!(s.output.is_empty());
    assert!(matches!(&s.action, Action::Call { request: Request::NextSecretPage, .. }));
    feed(f, Event::SecretPage(Ok(None)))
}

fn secret(name: &str) -> SecretEntry {
    SecretEntry {
        name: Some(name.to_string()),
        arn: Some(format!("arn:{name}")),
        last_changed: Some("2026-03-02T01:27:23.089076Z".to_string()),
    }
}

fn param(name: &str) -> ParameterEntry {
    ParameterEntry {
        name: Some(name.to_string()),
        kind: Some("SecureString".to_string()),
        last_modified: None,
    }
}

#[test]
fn sec_list_shows_table_and_count() {
    let (f, s) = sec(SecCommand::List {});
    assert!(matches!(&s.action, Action::Call { request: Request::ListSecrets, spinner } if spinner == "Listing secrets…"));
    let (f, s) = listed_secrets(f, vec![secret("prod/db/password"), secret("prod/api/key")]);
    assert!(matches!(f, Flow::Finished));
    assert!(matches!(s.action, Action::Finish(Ok(()))));
    match &s.output[0] {
        Output::SecretsTable(rows) => {
            assert_eq!(rows.len(), 2);
            assert_eq!(rows[0].0, "prod/db/password");
            assert_eq!(rows[1].1, "arn:prod/api/key");
        }
        other => panic!("{other:?}"),
    }
    match &s.output[1] {
        Output::Text(t) => assert_eq!(t, "ℹ️  2 secret(s) found."),
        other => panic!("{other:?}"),
    }
}

#[test]
fn sec_list_empty_and_fallbacks() {
    let (f, _) = sec(SecCommand::List {});
    let (_, s) = listed_secrets(f, vec![]);
    assert_eq!(texts(&s), vec!["No secrets found."]);
    let (f, _) = sec(SecCommand::List {});
    let blank = SecretEntry { name: None, arn: None, last_changed: None };
    let (_, s) = listed_secrets(f, vec![blank]);
    match &s.output[0] {
        Output::SecretsTable(rows) => {
            assert_eq!(rows[0], ("unknown".to_string(), String::new(), String::new()))
        }
        other => panic!("{other:?}"),
    }
}

#[test]
fn sec_list_failure_keeps_the_message() {
    let (f, _) = sec(SecCommand::List {});
    let (_, s) = feed(f, Event::SecretPage(Err(ServiceError::Other("throttled".to_string()))));
    assert!(s.output.is_empty());
    match s.action {
        Action::Finish(Err(SecParError::AwsSdk(m))) => assert_eq!(m, "throttled"),
        other => panic!("{other:?}"),
    }
}

#[test]
fn sec_get_with_name_fetches_directly() {
    let (f, s) = sec(SecCommand::Get { name: Some("prod/api/key".to_string()) });
    match &s.action {
        Action::Call { request: Request::GetSecretValue { name }, spinner } => {
            assert_eq!(name, "prod/api/key");
            assert_eq!(spinner, "Retrieving 'prod/api/key'…");
        }
        other => panic!("{other:?}"),
    }
    let (_, s) = feed(f, Event::SecretValue(Ok(Some("sk-abc123xyz".to_string()))));
    assert_eq!(texts(&s), vec!["🔑 prod/api/key\nsk-abc123xyz"]);
}

#[test]
fn sec_get_missing_value() {
    let (f, _) = sec(SecCommand::Get { name: Some("k".to_string()) });
    let (_, s) = feed(f, Event::SecretValue(Ok(None)));
    match s.action {
        Action::Finish(Err(SecParError::MissingValue(m))) => assert_eq!(m, "secret value is empty for k"),
        other => panic!("{other:?}"),
    }
}

#[test]
fn sec_get_without_name_lists_then_selects() {
    let (f, s) = sec(SecCommand::Get { name: None });
    assert!(matches!(&s.action, Action::Call { request: Request::ListSecrets, spinner } if spinner == "Fetching secrets for selection…"));
    let (f, s) = listed_secrets(f, vec![secret("a"), secret("b")]);
    match &s.action {
        Action::Select(sel) => {
            assert_eq!(sel.prompt, "Select a secret");
            assert_eq!(sel.default, 0);
            assert_eq!(sel.items, vec!["a".to_string(), "b".to_string()]);
        }
        other => panic!("{other:?}"),
    }
    assert!(!f.accepts(&Event::Selected(Ok(2))));
    let (_, s) = feed(f, Event::Selected(Ok(1)));
    assert!(matches!(&s.action, Action::Call { request: Request::GetSecretValue { name }, .. } if name == "b"));
}

#[test]
fn selection_over_nothing_fails() {
    let (f, _) = sec(SecCommand::Describe { name: None });
    let (_, s) = listed_secrets(f, vec![]);
    match s.action {
        Action::Finish(Err(e)) => assert_eq!(e.message(), "Interactive prompt error: No items available to select from"),
        other => panic!("{other:?}"),
    }
}

#[test]
fn selection_failure_is_interactive_error() {
    let (f, _) = sec(SecCommand::Get { name: None });
    let (f, _) = listed_secrets(f, vec![secret("a")]);
    let (_, s) = feed(f, Event::Selected(Err("not a tty".to_string())));
    assert!(matches!(s.action, Action::Finish(Err(SecParError::Interactive(m))) if m == "not a tty"));
}

#[test]
fn sec_describe_shows_details() {
    let (f, s) = sec(SecCommand::Describe { name: Some("prod/db/password".to_string()) });
    assert!(matches!(&s.action, Action::Call { request: Request::DescribeSecret { name }, spinner } if name == "prod/db/password" && spinner == "Describing 'prod/db/password'…"));
    let details = SecretDetails {
        name: Some("prod/db/password".to_string()),
        arn: Some("arn:x".to_string()),
        description: None,
        last_changed: Some("2026-03-02T01:27:23.089076Z".to_string()),
        last_accessed: None,
        rotation_enabled: None,
    };
    let (_, s) = feed(f, Event::SecretDescribed(Ok(details)));
    assert_eq!(
        texts(&s),
        vec![
            "ℹ️  Secret details",
            "  Name          : prod/db/password",
            "  ARN           : arn:x",
            "  Description   : -",
            "  Last Changed  : 2026-03-02T01:27:23.089076Z",
            "  Last Accessed : -",
            "  Rotation      : disabled",
        ]
    );
}

#[test]
fn rotation_enabled_is_shown() {
    let (f, _) = sec(SecCommand::Describe { name: Some("s".to_string()) });
    let details = SecretDetails {
        name: None,
        arn: None,
        description: Some("d".to_string()),
        last_changed: None,
        last_accessed: None,
        rotation_enabled: Some(true),
    };
    let (_, s) = feed(f, Event::SecretDescribed(Ok(details)));
    let lines = texts(&s);
    assert_eq!(lines[1], "  Name          : -");
    assert_eq!(lines[3], "  Description   : d");
    assert_eq!(lines[6], "  Rotation      : enabled");
}

#[test]
fn sec_create_reports_arn() {
    let (f, s) = sec(SecCommand::Create { name: "staging/token".to_string(), secret: "tok-xyz789".to_string() });
    match &s.action {
        Action::Call { request: Request::CreateSecret { name, secret }, spinner } => {
            assert_eq!(name, "staging/token");
            assert_eq!(secret, "tok-xyz789");
            assert_eq!(spinner, "Creating secret 'staging/token'…");
        }
        other => panic!("{other:?}"),
    }
    let (_, s) = feed(f, Event::SecretCreated(Ok(Some("arn:aws:x".to_string()))));
    assert_eq!(texts(&s), vec!["✅ Secret 'staging/token' created.", "ℹ️  ARN: arn:aws:x"]);
}

#[test]
fn sec_create_without_arn() {
    let (f, _) = sec(SecCommand::Create { name: "n".to_string(), secret: "s".to_string() });
    let (_, s) = feed(f, Event::SecretCreated(Ok(None)));
    assert!(matches!(s.action, Action::Finish(Err(SecParError::MissingValue(m))) if m == "secret ARN is missing for n"));
}

#[test]
fn sec_delete_asks_first() {
    let (f, s) = sec(SecCommand::Delete { name: Some("staging/token".to_string()), force: false });
    match &s.action {
        Action::Confirm { name, prompt, default } => {
            assert_eq!(name, "staging/token");
            assert_eq!(prompt, "Delete 'staging/token'?");
            assert!(!*default);
        }
        other => panic!("{other:?}"),
    }
    let (f, s) = feed(f, Event::Confirmed(Ok(true)));
    assert!(matches!(&s.action, Action::Call { request: Request::DeleteSecret { name, recovery_window_in_days: Some(7), force_delete_without_recovery: None }, spinner } if name == "staging/token" && spinner == "Deleting 'staging/token'…"));
    let (_, s) = feed(f, Event::SecretDeleted(Ok(())));
    assert_eq!(texts(&s), vec!["✅ Secret 'staging/token' deleted."]);
}

#[test]
fn sec_delete_declined_aborts() {
    let (f, _) = sec(SecCommand::Delete { name: Some("t".to_string()), force: false });
    let (f, s) = feed(f, Event::Confirmed(Ok(false)));
    assert!(matches!(f, Flow::Finished));
    assert!(matches!(s.action, Action::Finish(Ok(()))));
    assert_eq!(texts(&s), vec!["Aborted."]);
}

#[test]
fn sec_delete_force_skips_confirmation() {
    let (f, s) = sec(SecCommand::Delete { name: Some("staging/token".to_string()), force: true });
    assert!(matches!(&s.action, Action::Call { request: Request::DeleteSecret { name, recovery_window_in_days: None, force_delete_without_recovery: Some(true) }, .. } if name == "staging/token"));
    let (_, s) = feed(f, Event::SecretDeleted(Ok(())));
    assert_eq!(texts(&s), vec!["✅ Secret 'staging/token' deleted (force)."]);
}

#[test]
fn sec_delete_without_name_selects_then_asks() {
    let (f, _) = sec(SecCommand::Delete { name: None, force: false });
    let (f, _) = listed_secrets(f, vec![secret("x"), secret("y")]);
    let (f, s) = feed(f, Event::Selected(Ok(0)));
    assert!(matches!(&s.action, Action::Confirm { name, .. } if name == "x"));
    let (_, s) = feed(f, Event::Confirmed(Err("closed".to_string())));
    assert!(matches!(s.action, Action::Finish(Err(SecParError::Interactive(m))) if m == "closed"));
}

#[test]
fn sec_delete_failure() {
    let (f, _) = sec(SecCommand::Delete { name: Some("t".to_string()), force: true });
    let (_, s) = feed(f, Event::SecretDeleted(Err(ServiceError::Other("denied".to_string()))));
    assert!(matches!(s.action, Action::Finish(Err(SecParError::AwsSdk(m))) if m == "denied"));
}

#[test]
fn par_list_collects_pages() {
    let (f, s) = par(ParCommand::List {});
    assert!(matches!(&s.action, Action::Call { request: Request::DescribeParameters, .. }));
    let (f, s) = feed(f, Event::ParameterPage(Ok(Some(vec![param("/prod/db/host"), param("/prod/db/port")]))));
    assert!(matches!(&s.action, Action::Call { request: Request::NextParameterPage, .. }));
    let (f, _) = feed(f, Event::ParameterPage(Ok(Some(vec![param("/prod/cache/url")]))));
    let (_, s) = feed(f, Event::ParameterPage(Ok(None)));
    match &s.output[0] {
        Output::ParametersTable(rows) => {
            let names: Vec<&str> = rows.iter().map(|r| r.0.as_str()).collect();
            assert_eq!(names, vec!["/prod/db/host", "/prod/db/port", "/prod/cache/url"]);
            assert_eq!(rows[0].1, "SecureString");
            assert_eq!(rows[0].2, "");
        }
        other => panic!("{other:?}"),
    }
    assert!(matches!(&s.output[1], Output::Text(t) if t == "ℹ️  3 parameter(s) found."));
}

#[test]
fn par_list_empty_and_failure() {
    let (f, _) = par(ParCommand::List {});
    let (_, s) = feed(f, Event::ParameterPage(Ok(None)));
    assert_eq!(texts(&s), vec!["No parameters found."]);
    let (f, _) = par(ParCommand::List {});
    let (f, _) = feed(f, Event::ParameterPage(Ok(Some(vec![param("/a")]))));
    let (_, s) = feed(f, Event::ParameterPage(Err(ServiceError::Other("page failed".to_string()))));
    assert!(matches!(s.action, Action::Finish(Err(SecParError::AwsSdk(m))) if m == "page failed"));
    let (f, _) = par(ParCommand::List {});
    let blank = ParameterEntry { name: None, kind: None, last_modified: Some("d".to_string()) };
    let (f, _) = feed(f, Event::ParameterPage(Ok(Some(vec![blank]))));
    let (_, s) = feed(f, Event::ParameterPage(Ok(None)));
    assert!(matches!(&s.output[0], Output::ParametersTable(rows) if rows[0] == ("unknown".to_string(), "unknown".to_string(), "d".to_string())));
}

#[test]
fn par_get_decrypts() {
    let (f, s) = par(ParCommand::Get { name: Some("/prod/db/host".to_string()) });
    assert!(matches!(&s.action, Action::Call { request: Request::GetParameter { name, with_decryption: true }, .. } if name == "/prod/db/host"));
    let (_, s) = feed(f, Event::ParameterValue(Ok(Some("db.internal.example.com".to_string()))));
    assert_eq!(texts(&s), vec!["🔑 /prod/db/host\ndb.internal.example.com"]);
    let (f, _) = par(ParCommand::Get { name: Some("/p".to_string()) });
    let (_, s) = feed(f, Event::ParameterValue(Ok(None)));
    assert!(matches!(s.action, Action::Finish(Err(SecParError::MissingValue(m))) if m == "parameter value is empty for /p"));
}

#[test]
fn par_get_without_name_selects_across_pages() {
    let (f, s) = par(ParCommand::Get { name: None });
    assert!(matches!(&s.action, Action::Call { request: Request::DescribeParameters, spinner } if spinner == "Fetching parameters for selection…"));
    let (f, _) = feed(f, Event::ParameterPage(Ok(Some(vec![param("/a")]))));
    let (f, _) = feed(f, Event::ParameterPage(Ok(Some(vec![param("/b")]))));
    let (f, s) = feed(f, Event::ParameterPage(Ok(None)));
    match &s.action {
        Action::Select(sel) => {
            assert_eq!(sel.prompt, "Select a parameter");
            assert_eq!(sel.items, vec!["/a".to_string(), "/b".to_string()]);
        }
        other => panic!("{other:?}"),
    }
    let (_, s) = feed(f, Event::Selected(Ok(1)));
    assert!(matches!(&s.action, Action::Call { request: Request::GetParameter { name, .. }, .. } if name == "/b"));
}

#[test]
fn par_create_is_secure_string_overwrite() {
    let (f, s) = par(ParCommand::Create { name: "/staging/feature-flag".to_string(), value: "true".to_string() });
    match &s.action {
        Action::Call { request: Request::PutParameter { name, value, overwrite, kind }, spinner } => {
            assert_eq!(name, "/staging/feature-flag");
            assert_eq!(value, "true");
            assert!(*overwrite);
            assert_eq!(*kind, ParameterType::SecureString);
            assert_eq!(spinner, "Creating parameter '/staging/feature-flag'…");
        }
        other => panic!("{other:?}"),
    }
    let (_, s) = feed(f, Event::ParameterPut(Ok(())));
    assert_eq!(texts(&s), vec!["✅ Parameter '/staging/feature-flag' created."]);
}

#[test]
fn par_delete_always_asks() {
    let (f, s) = par(ParCommand::Delete { name: Some("/staging/feature-flag".to_string()) });
    assert!(matches!(&s.action, Action::Confirm { prompt, .. } if prompt == "Delete '/staging/feature-flag'?"));
    let (f, s) = feed(f, Event::Confirmed(Ok(true)));
    assert!(matches!(&s.action, Action::Call { request: Request::DeleteParameter { name }, .. } if name == "/staging/feature-flag"));
    let (_, s) = feed(f, Event::ParameterDeleted(Ok(())));
    assert_eq!(texts(&s), vec!["✅ Parameter '/staging/feature-flag' deleted."]);
}

#[test]
fn par_apply_puts_valid_entries_in_order() {
    let path = std::path::PathBuf::from("./templates/parameter_store_template.yaml");
    let (f, s) = par(ParCommand::Apply { path: path.clone() });
    assert!(matches!(&s.output[0], Output::ApplyingFrom(p) if *p == path));
    assert!(matches!(&s.action, Action::ReadSpec { path: p } if *p == path));
    let store = ParameterStore {
        parameters: vec![
            "/secpar/TEST:TEST_VALUE".to_string(),
            "bad entry".to_string(),
            "/secpar/qa/SASL_USERNAME:USER:NAME".to_string(),
        ],
    };
    let (f, s) = feed(f, Event::SpecRead(Ok(store)));
    assert!(matches!(&s.action, Action::Call { request: Request::PutParameter { name, value, overwrite: true, kind: ParameterType::SecureString }, spinner }
        if name == "/secpar/TEST" && value == "TEST_VALUE" && spinner == "Applying parameters from spec…"));
    let (f, s) = feed(f, Event::ParameterPut(Ok(())));
    assert!(matches!(&s.action, Action::Call { request: Request::PutParameter { name, value, .. }, .. }
        if name == "/secpar/qa/SASL_USERNAME" && value == "USER:NAME"));
    let (f, s) = feed(f, Event::ParameterPut(Ok(())));
    assert!(matches!(f, Flow::Finished));
    assert_eq!(texts(&s), vec!["✅ Parameters applied successfully."]);
}

#[test]
fn par_apply_stops_at_first_failure() {
    let (f, _) = par(ParCommand::Apply { path: "spec.yaml".into() });
    let store = ParameterStore { parameters: vec!["/a:1".to_string(), "/b:2".to_string()] };
    let (f, _) = feed(f, Event::SpecRead(Ok(store)));
    let (f, s) = feed(f, Event::ParameterPut(Err(ServiceError::Other("AccessDenied".to_string()))));
    assert!(matches!(f, Flow::Finished));
    assert!(matches!(s.action, Action::Finish(Err(SecParError::CreateFail(m))) if m == "AccessDenied"));
}

#[test]
fn par_apply_empty_and_unreadable_spec() {
    let (f, _) = par(ParCommand::Apply { path: "spec.yaml".into() });
    let (_, s) = feed(f, Event::SpecRead(Ok(ParameterStore { parameters: vec!["x".to_string()] })));
    assert_eq!(texts(&s), vec!["✅ Parameters applied successfully."]);
    let (f, _) = par(ParCommand::Apply { path: "spec.yaml".into() });
    let io = std::io::Error::new(std::io::ErrorKind::NotFound, "gone");
    let read = Err(secpar::errors::ParseFileError::NoSuchFile("spec.yaml".to_string(), io));
    let (_, s) = feed(f, Event::SpecRead(read));
    assert!(matches!(s.action, Action::Finish(Err(SecParError::InvalidSpec(_)))));
}

#[test]
fn env_shows_region_and_profile() {
    let (f, s) = Flow::start(Command::Env, &opts());
    assert!(matches!(f, Flow::Finished));
    assert_eq!(
        texts(&s),
        vec!["ℹ️  Active AWS environment", "  Region        : us-east-1", "  Profile       : -"]
    );
    let staging = GlobalOpts { region: "eu-west-1".to_string(), profile: Some("staging".to_string()) };
    let (_, s) = Flow::start(Command::Env, &staging);
    assert_eq!(texts(&s)[2], "  Profile       : staging");
}

#[test]
fn mismatched_replies_are_not_accepted() {
    let (f, _) = sec(SecCommand::List {});
    assert!(!f.accepts(&Event::ParameterPage(Ok(None))));
    assert!(!Flow::Finished.accepts(&Event::Confirmed(Ok(true))));
}

#[test]
fn sec_list_collects_pages() {
    let (f, _) = sec(SecCommand::List {});
    let (f, s) = feed(f, Event::SecretPage(Ok(Some(vec![secret("a"), secret("b")]))));
    assert!(matches!(&s.action, Action::Call { request: Request::NextSecretPage, spinner } if spinner == "Listing secrets…"));
    let (f, _) = feed(f, Event::SecretPage(Ok(Some(vec![secret("c")]))));
    let (_, s) = feed(f, Event::SecretPage(Ok(None)));
    match &s.output[0] {
        Output::SecretsTable(rows) => {
            let names: Vec<&str> = rows.iter().map(|r| r.0.as_str()).collect();
            assert_eq!(names, vec!["a", "b", "c"]);
        }
        other => panic!("{other:?}"),
    }
    assert!(matches!(&s.output[1], Output::Text(t) if t == "ℹ️  3 secret(s) found."));
}

#[test]
fn sec_selection_gathers_all_pages() {
    let (f, _) = sec(SecCommand::Get { name: None });
    let (f, s) = feed(f, Event::SecretPage(Ok(Some(vec![secret("a")]))));
    assert!(matches!(&s.action, Action::Call { request: Request::NextSecretPage, spinner } if spinner == "Fetching secrets for selection…"));
    let (f, _) = feed(f, Event::SecretPage(Ok(Some(vec![secret("b")]))));
    let (f, s) = feed(f, Event::SecretPage(Ok(None)));
    assert!(matches!(&s.action, Action::Select(sel) if sel.items == vec!["a".to_string(), "b".to_string()]));
    let (_, s) = feed(f, Event::Selected(Ok(1)));
    assert!(matches!(&s.action, Action::Call { request: Request::GetSecretValue { name }, .. } if name == "b"));
}

#[test]
fn sec_selection_page_failure() {
    let (f, _) = sec(SecCommand::Get { name: None });
    let (f, _) = feed(f, Event::SecretPage(Ok(Some(vec![secret("a")]))));
    let (_, s) = feed(f, Event::SecretPage(Err(ServiceError::Other("page 2 failed".to_string()))));
    assert!(matches!(s.action, Action::Finish(Err(SecParError::AwsSdk(m))) if m == "page 2 failed"));
}

#[test]
fn forced_delete_without_name_selects_then_deletes_at_once() {
    let (f, _) = sec(SecCommand::Delete { name: None, force: true });
    let (f, _) = listed_secrets(f, vec![secret("x")]);
    let (_, s) = feed(f, Event::Selected(Ok(0)));
    assert!(matches!(&s.action, Action::Call { request: Request::DeleteSecret { name, recovery_window_in_days: None, force_delete_without_recovery: Some(true) }, .. } if name == "x"));
}

#[test]
fn missing_secret_or_parameter_is_not_found() {
    let (f, _) = sec(SecCommand::Get { name: Some("gone".to_string()) });
    let (_, s) = feed(f, Event::SecretValue(Err(ServiceError::NotFound("no such secret".to_string()))));
    assert!(matches!(s.action, Action::Finish(Err(SecParError::NotFound(m))) if m == "no such secret"));
    let (f, _) = sec(SecCommand::Describe { name: Some("gone".to_string()) });
    let (_, s) = feed(f, Event::SecretDescribed(Err(ServiceError::NotFound("nf".to_string()))));
    assert!(matches!(s.action, Action::Finish(Err(SecParError::NotFound(m))) if m == "nf"));
    let (f, _) = par(ParCommand::Get { name: Some("/gone".to_string()) });
    let (_, s) = feed(f, Event::ParameterValue(Err(ServiceError::NotFound("ParameterNotFound".to_string()))));
    assert!(matches!(s.action, Action::Finish(Err(SecParError::NotFound(m))) if m == "ParameterNotFound"));
    let (f, _) = par(ParCommand::Delete { name: Some("/gone".to_string()) });
    let (f, _) = feed(f, Event::Confirmed(Ok(true)));
    let (_, s) = feed(f, Event::ParameterDeleted(Err(ServiceError::NotFound("nf".to_string()))));
    assert!(matches!(s.action, Action::Finish(Err(SecParError::NotFound(m))) if m == "nf"));
}

#[test]
fn other_lookup_failures_are_sdk_errors() {
    let (f, _) = par(ParCommand::Get { name: Some("/p".to_string()) });
    let (_, s) = feed(f, Event::ParameterValue(Err(ServiceError::Other("timeout".to_string()))));
    assert!(matches!(s.action, Action::Finish(Err(SecParError::AwsSdk(m))) if m == "timeout"));
}

#[test]
fn failed_creates_are_create_fail() {
    let (f, _) = sec(SecCommand::Create { name: "taken".to_string(), secret: "s".to_string() });
    let (_, s) = feed(f, Event::SecretCreated(Err(ServiceError::Other("ResourceExistsException".to_string()))));
    assert!(matches!(s.action, Action::Finish(Err(SecParError::CreateFail(m))) if m == "ResourceExistsException"));
    let (f, _) = par(ParCommand::Create { name: "/p".to_string(), value: "v".to_string() });
    let (_, s) = feed(f, Event::ParameterPut(Err(ServiceError::Other("AccessDenied".to_string()))));
    assert!(matches!(s.action, Action::Finish(Err(SecParError::CreateFail(m))) if m == "AccessDenied"));
}
