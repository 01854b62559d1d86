//! Audit records: who asked for what, from where, and how it ended, and the
//! line that is written to the log for each.

use crate::text::{first_token, first_word};
use vstd::prelude::*;

verus! {

/// What an audit record reports.
#[derive(Clone, Copy, Debug, PartialEq, Eq)]
pub enum AuditKind {
    /// A command was asked for. Recorded before anything is decided.
    Attempted,
    /// An allowed command was run.
    Executed,
    /// No command was asked for, and the default command was run.
    ExecutedDefault,
    /// The command was refused.
    Denied,
}

impl AuditKind {
    /// The words that stand for this kind in a log line.
    pub open spec fn phrase(self) -> Seq<char> {
        match self {
            AuditKind::Attempted => "Attempted command"@,
            AuditKind::Executed => "Executed command"@,
            AuditKind::ExecutedDefault => "Executed command"@,
            AuditKind::Denied => "Denied attempt"@,
        }
    }

    /// The words that stand for this kind in a log line.
    pub fn label(&self) -> (words: &'static str)
        ensures
            words@ == self.phrase(),
    {
        match self {
            AuditKind::Attempted => "Attempted command",
            AuditKind::Executed => "Executed command",
            AuditKind::ExecutedDefault => "Executed command",
            AuditKind::Denied => "Denied attempt",
        }
    }
}

/// One entry of the audit log.
#[derive(Clone, Debug, PartialEq, Eq)]
pub struct AuditRecord {
    /// When the record was made.
    pub timestamp: String,
    /// Who acted. Empty where the user is unknown.
    pub user: String,
    /// The address the client connected from. Empty where it is unknown.
    pub client_address: String,
    /// What is reported.
    pub kind: AuditKind,
    /// The command the report is about.
    pub command: String,
}

/// What an `AuditRecord` holds, as plain text.
pub struct AuditEntry {
    pub timestamp: Seq<char>,
    pub user: Seq<char>,
    pub client_address: Seq<char>,
    pub kind: AuditKind,
    pub command: Seq<char>,
}

impl View for AuditRecord {
    type V = AuditEntry;

    open spec fn view(&self) -> AuditEntry {
        AuditEntry {
            timestamp: self.timestamp@,
            user: self.user@,
            client_address: self.client_address@,
            kind: self.kind,
            command: self.command@,
        }
    }
}

/// The user an audit record names: the one given, or nobody.
pub open spec fn acting_user(client_user: Option<&str>) -> Seq<char> {
    match client_user {
        Some(user) => user@,
        None => Seq::empty(),
    }
}

/// The address an audit record names: the first token of the client's
/// connection descriptor, or nothing where there is no descriptor or no token
/// in it.
pub open spec fn client_address(client_descriptor: Option<&str>) -> Seq<char> {
    match client_descriptor {
        Some(descriptor) => first_token(descriptor@),
        None => Seq::empty(),
    }
}

impl AuditEntry {
    /// The log line of this entry, without a line end.
    pub open spec fn line(self) -> Seq<char> {
        self.timestamp + " - User \""@ + self.user + "\" ["@ + self.client_address + "] "@
            + self.kind.phrase() + ": "@ + self.command
    }
}

impl AuditRecord {
    /// A record made at `timestamp`, the time as the caller read it from the
    /// clock. An absent user and an absent connection descriptor are recorded
    /// as empty text.
    pub fn new(
        timestamp: String,
        client_user: Option<&str>,
        client_descriptor: Option<&str>,
        kind: AuditKind,
        command: &str,
    ) -> (record: AuditRecord)
        ensures
            record@ == (AuditEntry {
                timestamp: timestamp@,
                user: acting_user(client_user),
                client_address: client_address(client_descriptor),
                kind: kind,
                command: command@,
            }),
    {
        let user = match client_user {
            Some(user) => user.to_owned(),
            None => String::new(),
        };
        let address = match client_descriptor {
            Some(descriptor) => first_word(descriptor),
            None => String::new(),
        };
        AuditRecord { timestamp, user, client_address: address, kind, command: command.to_owned() }
    }

    /// The log line of this record, without a line end.
    pub fn line(&self) -> (out: String)
        ensures
            out@ == self@.line(),
    {
        let mut out = self.timestamp.clone();
        out.append(" - User \"");
        out.append(self.user.as_str());
        out.append("\" [");
        out.append(self.client_address.as_str());
        out.append("] ");
        out.append(self.kind.label());
        out.append(": ");
        out.append(self.command.as_str());
        out
    }
}

} // verus!
