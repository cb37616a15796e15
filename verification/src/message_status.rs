//! The lifecycle stage of an assistant response.

use vstd::prelude::*;

use crate::error::ParseError;
use crate::token::same_token;

verus! {

/// The state of a response message.
#[derive(Debug, Clone, Copy, PartialEq, Eq, Hash, Structural)]
pub enum MessageStatus {
    /// The message is complete.
    Completed,
    /// The message is still being produced.
    InProgress,
    /// Producing the message failed.
    Error,
}

impl MessageStatus {
    /// The wire token of each status.
    pub open spec fn wire(self) -> Seq<char> {
        match self {
            MessageStatus::Completed => "COMPLETED"@,
            MessageStatus::InProgress => "IN_PROGRESS"@,
            MessageStatus::Error => "ERROR"@,
        }
    }

    /// The status that a token names, if it names one.
    ///
    /// A token must match exactly: case matters and nothing is trimmed.
    pub open spec fn parse(token: Seq<char>) -> Option<MessageStatus> {
        if token == MessageStatus::Completed.wire() {
            Some(MessageStatus::Completed)
        } else if token == MessageStatus::InProgress.wire() {
            Some(MessageStatus::InProgress)
        } else if token == MessageStatus::Error.wire() {
            Some(MessageStatus::Error)
        } else {
            None
        }
    }

    /// Returns the wire token of this status.
    pub fn as_str(&self) -> (token: &'static str)
        ensures
            token@ == self.wire(),
    {
        match self {
            MessageStatus::Completed => "COMPLETED",
            MessageStatus::InProgress => "IN_PROGRESS",
            MessageStatus::Error => "ERROR",
        }
    }

    /// Parses a wire token.
    ///
    /// Succeeds exactly on the three tokens, and otherwise hands the token
    /// back inside the error.
    pub fn from_wire_string(token: &str) -> (parsed: Result<MessageStatus, ParseError>)
        ensures
            match parsed {
                Ok(status) => Self::parse(token@) == Some(status),
                Err(e) => Self::parse(token@) is None && e.token@ == token@,
            },
    {
        if same_token(token, MessageStatus::Completed.as_str()) {
            Ok(MessageStatus::Completed)
        } else if same_token(token, MessageStatus::InProgress.as_str()) {
            Ok(MessageStatus::InProgress)
        } else if same_token(token, MessageStatus::Error.as_str()) {
            Ok(MessageStatus::Error)
        } else {
            Err(ParseError { token: token.to_owned() })
        }
    }

    /// Returns the text shown for this status, which is its wire token.
    pub fn to_string(&self) -> (text: String)
        ensures
            text@ == self.wire(),
    {
        self.as_str().to_owned()
    }

    /// Parsing the wire token of a status gives that status back.
    pub proof fn parse_inverts_wire(status: MessageStatus)
        ensures
            Self::parse(status.wire()) == Some(status),
    {
        reveal_strlit("COMPLETED");
        reveal_strlit("IN_PROGRESS");
        reveal_strlit("ERROR");
        // The three tokens differ in length.
        assert("COMPLETED"@.len() == 9);
        assert("IN_PROGRESS"@.len() == 11);
        assert("ERROR"@.len() == 5);
    }

    /// A token parses to a status exactly when it is that status's wire token.
    pub proof fn parse_is_exact(token: Seq<char>, status: MessageStatus)
        ensures
            Self::parse(token) == Some(status) <==> token == status.wire(),
    {
        Self::parse_inverts_wire(status);
    }

    /// Distinct statuses have distinct wire tokens.
    pub proof fn wire_is_injective(a: MessageStatus, b: MessageStatus)
        requires
            a.wire() == b.wire(),
        ensures
            a == b,
    {
        Self::parse_inverts_wire(a);
        Self::parse_inverts_wire(b);
    }
}

impl Default for MessageStatus {
    /// A status that was not given is `InProgress`.
    fn default() -> (status: MessageStatus)
        ensures
            status == MessageStatus::InProgress,
    {
        MessageStatus::InProgress
    }
}

} // verus!
