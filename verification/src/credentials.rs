//! The application identifier and bearer token that accompany every request,
//! and their form in a configuration file.
//!
//! The file is a TOML document with the strings `client_id` and `token`.
//! Reading and writing the file itself is the caller's part: this module turns
//! the file's content into credentials and credentials into content.

use crate::nesting::{measure_nesting, nesting_peak, MAX_NESTING};
use crate::table::{
    all_text, bare_keys, empty_table, has_text, parse_table, render_table, set_text,
    table_entries, text_at, toml_document, toml_text, Entries,
};
use toml::value::Table;
use vstd::prelude::*;
use vstd::utf8::encode_utf8;

verus! {

/// What identifies the application and the user towards the API.
#[derive(Debug)]
pub struct Credentials {
    /// Identifier issued to the registered application.
    pub client_id: String,
    /// Bearer token of the user; empty until one is set.
    pub token: String,
}

/// Why a configuration could not be read or written.
#[derive(Debug, Clone, Copy, PartialEq, Eq, Structural)]
pub enum ConfigError {
    /// The content is not a TOML document.
    Malformed,
    /// The document holds no string under `client_id`.
    NoClientId,
    /// The document holds no string under `token`.
    NoToken,
    /// The content nests arrays, tables and dotted keys deeper than a
    /// configuration file is read with.
    TooNested,
    /// There is no rendering to write.
    Unwritable,
}

/// The entries of the document that stands for the credentials
/// `client_id` and `token`.
pub open spec fn credential_entries(client_id: Seq<char>, token: Seq<char>) -> Entries {
    Entries::empty().insert("client_id"@, Some(client_id)).insert("token"@, Some(token))
}

/// What a document with the entries `entries` yields: the credentials it
/// names, or the first of the two strings that it lacks. Entries under other
/// keys are ignored.
pub open spec fn credentials_in(entries: Entries) -> Result<(Seq<char>, Seq<char>), ConfigError> {
    if !has_text(entries, "client_id"@) {
        Err(ConfigError::NoClientId)
    } else if !has_text(entries, "token"@) {
        Err(ConfigError::NoToken)
    } else {
        Ok((entries["client_id"@]->0, entries["token"@]->0))
    }
}

/// What the content of a file yields, given what the parser made of it:
/// `Malformed` where it is no document, else what the document yields.
pub open spec fn credentials_of(document: Option<Entries>) -> Result<
    (Seq<char>, Seq<char>),
    ConfigError,
> {
    match document {
        None => Err(ConfigError::Malformed),
        Some(entries) => credentials_in(entries),
    }
}

/// The entries of a parsed document, if there is one.
pub open spec fn parsed_entries(parsed: Option<Table>) -> Option<Entries> {
    match parsed {
        Some(table) => Some(table_entries(table)),
        None => None,
    }
}

/// Whether `loaded` is what `expected` describes: the same error, or
/// credentials with the same two strings.
pub open spec fn agrees(
    loaded: Result<Credentials, ConfigError>,
    expected: Result<(Seq<char>, Seq<char>), ConfigError>,
) -> bool {
    match (loaded, expected) {
        (Ok(cred), Ok((client_id, token))) => cred.client_id@ == client_id && cred.token@ == token,
        (Err(e), Err(f)) => e == f,
        _ => false,
    }
}

/// What the content of a configuration file yields: `TooNested` where its
/// structure nests deeper than a configuration is read with, else what the
/// parser's reading of it yields.
pub open spec fn file_yields(content: Seq<char>) -> Result<(Seq<char>, Seq<char>), ConfigError> {
    if nesting_peak(encode_utf8(content)) > MAX_NESTING {
        Err(ConfigError::TooNested)
    } else {
        credentials_of(toml_document(content))
    }
}

/// Both entries of a credentials document are strings, under keys that
/// need no quotes.
proof fn lemma_credential_entries_are_plain(client_id: Seq<char>, token: Seq<char>)
    ensures
        all_text(credential_entries(client_id, token)),
        bare_keys(credential_entries(client_id, token)),
{
    reveal_strlit("client_id");
    reveal_strlit("token");
}

impl Credentials {
    /// Credentials of an application that holds no token yet.
    pub fn new(clid: String) -> (cred: Credentials)
        ensures
            cred.client_id@ == clid@,
            cred.token@ == Seq::<char>::empty(),
    {
        Credentials { client_id: clid, token: String::new() }
    }

    /// Replaces the token; the application identifier stays.
    pub fn set_token(&mut self, token: &str)
        ensures
            final(self).token@ == token@,
            final(self).client_id@ == old(self).client_id@,
    {
        self.token = token.to_owned();
    }

    /// Reads credentials out of a parsed document.
    pub fn from_table(table: &Table) -> (loaded: Result<Credentials, ConfigError>)
        ensures
            agrees(loaded, credentials_in(table_entries(*table))),
    {
        match text_at(table, "client_id") {
            None => Err(ConfigError::NoClientId),
            Some(client_id) => match text_at(table, "token") {
                None => Err(ConfigError::NoToken),
                Some(token) => Ok(Credentials { client_id, token }),
            },
        }
    }

    /// The document that stands for these credentials.
    pub fn to_table(&self) -> (table: Table)
        ensures
            table_entries(table) == credential_entries(self.client_id@, self.token@),
    {
        let mut table = empty_table();
        set_text(&mut table, "client_id", self.client_id.as_str());
        set_text(&mut table, "token", self.token.as_str());
        table
    }

    /// Reads credentials out of what the parser made of a file's content:
    /// `Malformed` where it made nothing of it.
    pub fn from_parsed(parsed: Option<Table>) -> (loaded: Result<Credentials, ConfigError>)
        ensures
            agrees(loaded, credentials_of(parsed_entries(parsed))),
    {
        match parsed {
            None => Err(ConfigError::Malformed),
            Some(table) => Credentials::from_table(&table),
        }
    }

    /// Reads credentials from the content of a configuration file.
    ///
    /// Content whose arrays, inline tables and dotted keys nest deeper than
    /// `MAX_NESTING` is `TooNested` and is not parsed; what stands in strings
    /// and comments does not count. Other content that is no TOML document is
    /// `Malformed`. A document must hold both strings; what else it holds is
    /// ignored.
    pub fn set_from_file(content: &str) -> (loaded: Result<Credentials, ConfigError>)
        ensures
            agrees(loaded, file_yields(content@)),
    {
        if measure_nesting(content) > MAX_NESTING {
            return Err(ConfigError::TooNested);
        }
        Credentials::from_parsed(parse_table(content))
    }

    /// The file content that a rendering attempt amounts to: the text, or
    /// `Unwritable` where there is none.
    pub fn to_content(rendered: Option<String>) -> (content: Result<String, ConfigError>)
        ensures
            match rendered {
                Some(text) => content is Ok && content->Ok_0 == text,
                None => content is Err && content->Err_0 == ConfigError::Unwritable,
            },
    {
        match rendered {
            Some(text) => Ok(text),
            None => Err(ConfigError::Unwritable),
        }
    }

    /// The content of the configuration file that holds these credentials:
    /// the text of the document with the two strings. There always is one,
    /// and `set_from_file` reads the same credentials out of it.
    pub fn write_to_file(&self) -> (content: Result<String, ConfigError>)
        ensures
            content is Ok,
            content->Ok_0@ == toml_text(credential_entries(self.client_id@, self.token@)),
            file_yields(content->Ok_0@) is Ok,
            file_yields(content->Ok_0@)->Ok_0 == (self.client_id@, self.token@),
    {
        let table = self.to_table();
        proof {
            lemma_credential_entries_are_plain(self.client_id@, self.token@);
            lemma_table_round_trip(self.client_id@, self.token@);
        }
        Credentials::to_content(render_table(&table))
    }
}

/// The document that stands for credentials names those credentials again:
/// what `to_table` builds, `from_table` reads back unchanged.
pub proof fn lemma_table_round_trip(client_id: Seq<char>, token: Seq<char>)
    ensures
        credentials_in(credential_entries(client_id, token)) is Ok,
        credentials_in(credential_entries(client_id, token))->Ok_0 == (client_id, token),
{
    reveal_strlit("client_id");
    reveal_strlit("token");
    assert("client_id"@.len() == 9);
    assert("token"@.len() == 5);
}

} // verus!
