//! The format of response content.

use vstd::prelude::*;

use crate::error::ParseError;
use crate::token::same_token;

verus! {

/// The MIME type of a piece of content.
#[derive(Debug, PartialEq, Eq, Hash, Structural)]
pub enum ContentType {
    /// Markdown text.
    Markdown,
    /// Plain text.
    Plain,
    /// JSON.
    Json,
}

impl ContentType {
    /// The wire token of each content type: its MIME string.
    pub open spec fn wire(self) -> Seq<char> {
        match self {
            ContentType::Markdown => "text/markdown"@,
            ContentType::Plain => "text/plain"@,
            ContentType::Json => "application/json"@,
        }
    }

    /// The content type that a token names, if it names one.
    ///
    /// A token must match exactly: case matters and nothing is trimmed.
    pub open spec fn parse(token: Seq<char>) -> Option<ContentType> {
        if token == ContentType::Markdown.wire() {
            Some(ContentType::Markdown)
        } else if token == ContentType::Plain.wire() {
            Some(ContentType::Plain)
        } else if token == ContentType::Json.wire() {
            Some(ContentType::Json)
        } else {
            None
        }
    }

    /// Returns the MIME string of this content type.
    pub fn as_str(&self) -> (token: &'static str)
        ensures
            token@ == self.wire(),
    {
        match self {
            ContentType::Markdown => "text/markdown",
            ContentType::Plain => "text/plain",
            ContentType::Json => "application/json",
        }
    }

    /// Parses a MIME string.
    ///
    /// Succeeds exactly on the three strings, and otherwise hands the token
    /// back inside the error.
    pub fn from_wire_string(token: &str) -> (parsed: Result<ContentType, ParseError>)
        ensures
            match parsed {
                Ok(content_type) => Self::parse(token@) == Some(content_type),
                Err(e) => Self::parse(token@) is None && e.token@ == token@,
            },
    {
        if same_token(token, ContentType::Markdown.as_str()) {
            Ok(ContentType::Markdown)
        } else if same_token(token, ContentType::Plain.as_str()) {
            Ok(ContentType::Plain)
        } else if same_token(token, ContentType::Json.as_str()) {
            Ok(ContentType::Json)
        } else {
            Err(ParseError { token: token.to_owned() })
        }
    }

    /// Returns the text shown for this content type, which is its MIME string.
    pub fn to_string(&self) -> (text: String)
        ensures
            text@ == self.wire(),
    {
        self.as_str().to_owned()
    }

    /// Parsing the MIME string of a content type gives that type back.
    pub proof fn parse_inverts_wire(content_type: ContentType)
        ensures
            Self::parse(content_type.wire()) == Some(content_type),
    {
        reveal_strlit("text/markdown");
        reveal_strlit("text/plain");
        reveal_strlit("application/json");
        // The three strings differ in length.
        assert("text/markdown"@.len() == 13);
        assert("text/plain"@.len() == 10);
        assert("application/json"@.len() == 16);
    }

    /// A token parses to a content type exactly when it is that type's MIME
    /// string.
    pub proof fn parse_is_exact(token: Seq<char>, content_type: ContentType)
        ensures
            Self::parse(token) == Some(content_type) <==> token == content_type.wire(),
    {
        Self::parse_inverts_wire(content_type);
    }

    /// Distinct content types have distinct MIME strings.
    pub proof fn wire_is_injective(a: ContentType, b: ContentType)
        requires
            a.wire() == b.wire(),
        ensures
            a == b,
    {
        Self::parse_inverts_wire(a);
        Self::parse_inverts_wire(b);
    }
}

impl Clone for ContentType {
    /// A clone is the same content type.
    fn clone(&self) -> (copy: ContentType)
        ensures
            copy == *self,
    {
        match self {
            ContentType::Markdown => ContentType::Markdown,
            ContentType::Plain => ContentType::Plain,
            ContentType::Json => ContentType::Json,
        }
    }
}

impl Default for ContentType {
    /// Content whose type was not given is Markdown.
    fn default() -> (content_type: ContentType)
        ensures
            content_type == ContentType::Markdown,
    {
        ContentType::Markdown
    }
}

} // verus!
