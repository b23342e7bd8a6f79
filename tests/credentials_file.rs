use autocisco::credentials::{format_credentials, parse_credentials, Credentials};
use autocisco::invocation::{credentials_from_file, plan, FileRead, Plan};
use autocisco::failure::Failure;

fn creds(u: &str, p: &str) -> Credentials {
    Credentials { username: u.to_string(), password: p.to_string() }
}

#[test]
fn format_puts_each_value_on_its_own_line() {
    assert_eq!(format_credentials(&creds("alice", "s3cr3t")), "alice\ns3cr3t\n");
}

#[test]
fn write_then_read_gives_the_same_pair() {
    for (u, p) in [("alice", "s3cr3t"), ("bob", ""), ("", "pw"), ("a b", "RAy1N!ng@*Z0f")] {
        let text = format_credentials(&creds(u, p));
        assert_eq!(parse_credentials(&text), Some(creds(u, p)));
    }
}

#[test]
fn parse_takes_the_first_two_lines() {
    assert_eq!(parse_credentials("u\np\nextra\n"), Some(creds("u", "p")));
    assert_eq!(parse_credentials("u\np"), Some(creds("u", "p")));
}

#[test]
fn parse_drops_carriage_returns_before_line_feeds() {
    assert_eq!(parse_credentials("u\r\np\r\n"), Some(creds("u", "p")));
    assert_eq!(parse_credentials("u\r\np\r"), Some(creds("u", "p\r")));
}

#[test]
fn parse_needs_two_lines() {
    assert_eq!(parse_credentials(""), None);
    assert_eq!(parse_credentials("only"), None);
    assert_eq!(parse_credentials("only\n"), None);
}

#[test]
fn parse_keeps_non_ascii_text() {
    assert_eq!(parse_credentials("jörg\nпароль\n"), Some(creds("jörg", "пароль")));
}

#[test]
fn empty_file_means_credentials_missing() {
    assert_eq!(plan(false, None, None), Plan::Load);
    assert_eq!(
        credentials_from_file(FileRead::Contents(String::new())),
        Err(Failure::CredentialsMissing)
    );
}

#[test]
fn missing_file_means_credentials_missing() {
    assert_eq!(credentials_from_file(FileRead::Missing), Err(Failure::CredentialsMissing));
}

#[test]
fn unreadable_file_is_a_file_error() {
    assert_eq!(
        credentials_from_file(FileRead::Unreadable("permission denied".to_string())),
        Err(Failure::CredentialFileError("permission denied".to_string()))
    );
}

#[test]
fn file_with_two_lines_gives_credentials() {
    assert_eq!(
        credentials_from_file(FileRead::Contents("alice\ns3cr3t\n".to_string())),
        Ok(creds("alice", "s3cr3t"))
    );
}

#[test]
fn stop_ignores_credential_arguments() {
    assert_eq!(
        plan(true, Some("alice".to_string()), Some("s3cr3t".to_string())),
        Plan::Stop
    );
    assert_eq!(plan(true, None, None), Plan::Stop);
}

#[test]
fn both_arguments_are_stored() {
    assert_eq!(
        plan(false, Some("alice".to_string()), Some("s3cr3t".to_string())),
        Plan::Store(creds("alice", "s3cr3t"))
    );
}

#[test]
fn one_argument_alone_loads_the_file() {
    assert_eq!(plan(false, Some("alice".to_string()), None), Plan::Load);
    assert_eq!(plan(false, None, Some("s3cr3t".to_string())), Plan::Load);
}
