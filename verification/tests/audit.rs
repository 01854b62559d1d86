use ssh_gatekeeper::audit::{AuditKind, AuditRecord};

#[test]
fn label_names_each_kind() {
    assert_eq!(AuditKind::Attempted.label(), "Attempted command");
    assert_eq!(AuditKind::Executed.label(), "Executed command");
    assert_eq!(AuditKind::ExecutedDefault.label(), "Executed command");
    assert_eq!(AuditKind::Denied.label(), "Denied attempt");
}

#[test]
fn new_takes_the_first_token_of_the_descriptor() {
    let record = AuditRecord::new(
        "2024-05-06 07:08:09.123456789 +02:00".to_string(),
        Some("alice"),
        Some("192.168.1.10 54321 22"),
        AuditKind::Attempted,
        "git fetch",
    );
    assert_eq!(
        record,
        AuditRecord {
            timestamp: "2024-05-06 07:08:09.123456789 +02:00".to_string(),
            user: "alice".to_string(),
            client_address: "192.168.1.10".to_string(),
            kind: AuditKind::Attempted,
            command: "git fetch".to_string(),
        }
    );
}

#[test]
fn new_records_an_absent_user_and_descriptor_as_empty() {
    let record = AuditRecord::new("t".to_string(), None, None, AuditKind::Denied, "rm -rf /");
    assert_eq!(record.user, "");
    assert_eq!(record.client_address, "");
    assert_eq!(record.line(), "t - User \"\" [] Denied attempt: rm -rf /");
}

#[test]
fn new_records_a_blank_descriptor_as_empty() {
    let record = AuditRecord::new("t".to_string(), Some("bob"), Some("  "), AuditKind::Denied, "x");
    assert_eq!(record.client_address, "");
    let record = AuditRecord::new("t".to_string(), Some("bob"), Some(""), AuditKind::Denied, "x");
    assert_eq!(record.client_address, "");
}

#[test]
fn line_has_the_log_format() {
    let record = AuditRecord::new(
        "2024-05-06 07:08:09.123456789 +02:00".to_string(),
        Some("alice"),
        Some("192.168.1.10 54321 22"),
        AuditKind::Executed,
        "/usr/bin/git upload-pack 'repo'",
    );
    assert_eq!(
        record.line(),
        "2024-05-06 07:08:09.123456789 +02:00 - User \"alice\" [192.168.1.10] Executed command: /usr/bin/git upload-pack 'repo'"
    );
}

#[test]
fn line_of_each_kind() {
    let line = |kind: AuditKind| {
        AuditRecord::new("T".to_string(), Some("u"), Some("h 1 2"), kind, "c d").line()
    };
    assert_eq!(line(AuditKind::Attempted), "T - User \"u\" [h] Attempted command: c d");
    assert_eq!(line(AuditKind::Executed), "T - User \"u\" [h] Executed command: c d");
    assert_eq!(line(AuditKind::ExecutedDefault), "T - User \"u\" [h] Executed command: c d");
    assert_eq!(line(AuditKind::Denied), "T - User \"u\" [h] Denied attempt: c d");
}

#[test]
fn new_keeps_the_time_it_is_given() {
    let stamp = chrono::Local::now().to_string();
    let record = AuditRecord::new(
        stamp.clone(),
        Some("carol"),
        Some("10.0.0.7 1 22"),
        AuditKind::Denied,
        "ls",
    );
    assert_eq!(record.timestamp, stamp);
    assert_eq!(record.user, "carol");
    assert_eq!(record.client_address, "10.0.0.7");
    assert_eq!(record.kind, AuditKind::Denied);
    assert_eq!(record.command, "ls");
    assert!(!record.timestamp.is_empty());
    let line = record.line();
    assert!(line.starts_with(&record.timestamp));
    assert!(line.ends_with(" - User \"carol\" [10.0.0.7] Denied attempt: ls"));
    assert_eq!(
        line.len(),
        record.timestamp.len() + " - User \"carol\" [10.0.0.7] Denied attempt: ls".len()
    );
}
