//! The rows of the record store: saved queries and conversations, and what
//! the store decides of a search and of a deletion.

use vstd::prelude::*;

verus! {

/// A saved query.
#[derive(Debug)]
pub struct DorkQuery {
    pub id: String,
    pub name: String,
    pub query: String,
    pub category: String,
    pub tags: Vec<String>,
    pub created_at: String,
    pub updated_at: Option<String>,
}

/// A saved conversation, with its messages in order.
#[derive(Debug)]
pub struct Conversation {
    pub id: String,
    pub title: String,
    pub messages: Vec<Message>,
    pub created_at: String,
    pub updated_at: String,
}

/// One message of a conversation.
#[derive(Debug)]
pub struct Message {
    pub id: String,
    pub role: String,
    pub content: String,
    pub timestamp: String,
    /// The query that the message proposed, if it proposed one.
    pub dork: Option<String>,
}

/// What kind of row a deletion was to remove.
#[derive(Clone, Copy, Debug, PartialEq, Eq, Structural)]
pub enum RowKind {
    Dork,
    Conversation,
}

/// Why an operation on the record store failed.
#[derive(Debug)]
pub enum VaultError {
    /// No row of this kind has the identifier.
    NotFound(RowKind, String),
}

/// The message of a row that was not found.
pub open spec fn not_found_text(kind: RowKind, id: Seq<char>) -> Seq<char> {
    match kind {
        RowKind::Dork => "Dork not found: "@ + id,
        RowKind::Conversation => "Conversation not found: "@ + id,
    }
}

impl VaultError {
    /// Says in words what failed.
    pub fn message(&self) -> (text: String)
        ensures
            *self matches VaultError::NotFound(kind, id) && text@ == not_found_text(kind, id@),
    {
        match self {
            VaultError::NotFound(kind, id) => {
                let mut text = match kind {
                    RowKind::Dork => String::from_str("Dork not found: "),
                    RowKind::Conversation => String::from_str("Conversation not found: "),
                };
                text.append(id.as_str());
                text
            },
        }
    }
}

/// The pattern that finds the rows which hold `query` anywhere in a text.
pub fn search_pattern(query: &str) -> (pattern: String)
    ensures
        pattern@ == "%"@ + query@ + "%"@,
{
    let mut pattern = String::from_str("%");
    pattern.append(query);
    pattern.append("%");
    pattern
}

/// What a deletion that removed `rows_affected` rows came to: a deletion that
/// removed nothing did not find its row.
pub fn deletion_outcome(kind: RowKind, id: &str, rows_affected: usize) -> (outcome: Result<
    (),
    VaultError,
>)
    ensures
        outcome is Ok <==> rows_affected > 0,
        outcome matches Err(VaultError::NotFound(k, missing)) ==> k == kind && missing@ == id@,
{
    if rows_affected == 0 {
        Err(VaultError::NotFound(kind, String::from_str(id)))
    } else {
        Ok(())
    }
}

} // verus!
