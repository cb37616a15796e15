//! The classified purpose of a user request.

use vstd::prelude::*;

use crate::error::ParseError;
use crate::token::same_token;

verus! {

/// What the user asks the assistant to do.
///
/// There is no default intent: a request without one carries `None`.
#[derive(Debug, Clone, Copy, PartialEq, Eq, Hash, Structural)]
pub enum UserIntent {
    /// Explain the selected code.
    ExplainCodeSelection,
    /// Suggest another implementation.
    SuggestAlternateImplementation,
    /// Apply common best practices.
    ApplyCommonBestPractices,
    /// Improve the code.
    ImproveCode,
    /// Show examples.
    ShowExamples,
    /// Cite sources.
    CiteSources,
    /// Explain the code line by line.
    ExplainLineByLine,
}

impl UserIntent {
    /// The wire token of each intent.
    pub open spec fn wire(self) -> Seq<char> {
        match self {
            UserIntent::ExplainCodeSelection => "EXPLAIN_CODE_SELECTION"@,
            UserIntent::SuggestAlternateImplementation => "SUGGEST_ALTERNATE_IMPLEMENTATION"@,
            UserIntent::ApplyCommonBestPractices => "APPLY_COMMON_BEST_PRACTICES"@,
            UserIntent::ImproveCode => "IMPROVE_CODE"@,
            UserIntent::ShowExamples => "SHOW_EXAMPLES"@,
            UserIntent::CiteSources => "CITE_SOURCES"@,
            UserIntent::ExplainLineByLine => "EXPLAIN_LINE_BY_LINE"@,
        }
    }

    /// The intent that a token names, if it names one.
    ///
    /// A token must match exactly: case matters and nothing is trimmed.
    pub open spec fn parse(token: Seq<char>) -> Option<UserIntent> {
        if token == UserIntent::ExplainCodeSelection.wire() {
            Some(UserIntent::ExplainCodeSelection)
        } else if token == UserIntent::SuggestAlternateImplementation.wire() {
            Some(UserIntent::SuggestAlternateImplementation)
        } else if token == UserIntent::ApplyCommonBestPractices.wire() {
            Some(UserIntent::ApplyCommonBestPractices)
        } else if token == UserIntent::ImproveCode.wire() {
            Some(UserIntent::ImproveCode)
        } else if token == UserIntent::ShowExamples.wire() {
            Some(UserIntent::ShowExamples)
        } else if token == UserIntent::CiteSources.wire() {
            Some(UserIntent::CiteSources)
        } else if token == UserIntent::ExplainLineByLine.wire() {
            Some(UserIntent::ExplainLineByLine)
        } else {
            None
        }
    }

    /// Returns the wire token of this intent.
    pub fn as_str(&self) -> (token: &'static str)
        ensures
            token@ == self.wire(),
    {
        match self {
            UserIntent::ExplainCodeSelection => "EXPLAIN_CODE_SELECTION",
            UserIntent::SuggestAlternateImplementation => "SUGGEST_ALTERNATE_IMPLEMENTATION",
            UserIntent::ApplyCommonBestPractices => "APPLY_COMMON_BEST_PRACTICES",
            UserIntent::ImproveCode => "IMPROVE_CODE",
            UserIntent::ShowExamples => "SHOW_EXAMPLES",
            UserIntent::CiteSources => "CITE_SOURCES",
            UserIntent::ExplainLineByLine => "EXPLAIN_LINE_BY_LINE",
        }
    }

    /// Parses a wire token.
    ///
    /// Succeeds exactly on the seven tokens, and otherwise hands the token
    /// back inside the error.
    pub fn from_wire_string(token: &str) -> (parsed: Result<UserIntent, ParseError>)
        ensures
            match parsed {
                Ok(intent) => Self::parse(token@) == Some(intent),
                Err(e) => Self::parse(token@) is None && e.token@ == token@,
            },
    {
        if same_token(token, UserIntent::ExplainCodeSelection.as_str()) {
            Ok(UserIntent::ExplainCodeSelection)
        } else if same_token(token, UserIntent::SuggestAlternateImplementation.as_str()) {
            Ok(UserIntent::SuggestAlternateImplementation)
        } else if same_token(token, UserIntent::ApplyCommonBestPractices.as_str()) {
            Ok(UserIntent::ApplyCommonBestPractices)
        } else if same_token(token, UserIntent::ImproveCode.as_str()) {
            Ok(UserIntent::ImproveCode)
        } else if same_token(token, UserIntent::ShowExamples.as_str()) {
            Ok(UserIntent::ShowExamples)
        } else if same_token(token, UserIntent::CiteSources.as_str()) {
            Ok(UserIntent::CiteSources)
        } else if same_token(token, UserIntent::ExplainLineByLine.as_str()) {
            Ok(UserIntent::ExplainLineByLine)
        } else {
            Err(ParseError { token: token.to_owned() })
        }
    }

    /// Returns the text shown for this intent, which is its wire token.
    pub fn to_string(&self) -> (text: String)
        ensures
            text@ == self.wire(),
    {
        self.as_str().to_owned()
    }

    /// Parsing the wire token of an intent gives that intent back.
    pub proof fn parse_inverts_wire(intent: UserIntent)
        ensures
            Self::parse(intent.wire()) == Some(intent),
    {
        reveal_strlit("EXPLAIN_CODE_SELECTION");
        reveal_strlit("SUGGEST_ALTERNATE_IMPLEMENTATION");
        reveal_strlit("APPLY_COMMON_BEST_PRACTICES");
        reveal_strlit("IMPROVE_CODE");
        reveal_strlit("SHOW_EXAMPLES");
        reveal_strlit("CITE_SOURCES");
        reveal_strlit("EXPLAIN_LINE_BY_LINE");
        // The tokens differ in length, but for two of twelve characters,
        // which differ in the first.
        assert("EXPLAIN_CODE_SELECTION"@.len() == 22);
        assert("SUGGEST_ALTERNATE_IMPLEMENTATION"@.len() == 32);
        assert("APPLY_COMMON_BEST_PRACTICES"@.len() == 27);
        assert("IMPROVE_CODE"@.len() == 12);
        assert("SHOW_EXAMPLES"@.len() == 13);
        assert("CITE_SOURCES"@.len() == 12);
        assert("EXPLAIN_LINE_BY_LINE"@.len() == 20);
        assert("IMPROVE_CODE"@[0] == 'I');
        assert("CITE_SOURCES"@[0] == 'C');
    }

    /// A token parses to an intent exactly when it is that intent's wire token.
    pub proof fn parse_is_exact(token: Seq<char>, intent: UserIntent)
        ensures
            Self::parse(token) == Some(intent) <==> token == intent.wire(),
    {
        Self::parse_inverts_wire(intent);
    }

    /// Distinct intents have distinct wire tokens.
    pub proof fn wire_is_injective(a: UserIntent, b: UserIntent)
        requires
            a.wire() == b.wire(),
        ensures
            a == b,
    {
        Self::parse_inverts_wire(a);
        Self::parse_inverts_wire(b);
    }
}

} // verus!
