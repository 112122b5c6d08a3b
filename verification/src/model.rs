use vstd::prelude::*;

verus! {

/// A stored document. Times are microseconds since the Unix epoch, UTC.
#[derive(Debug, Clone, PartialEq)]
pub struct Document {
    pub id: i32,
    pub name: String,
    pub content: String,
    pub created_at: i64,
    pub updated_at: i64,
    pub user_id: Option<i32>,
}

/// What a client sends to create a document.
#[derive(Debug, Clone, PartialEq)]
pub struct CreateDocumentPayload {
    pub name: String,
    pub content: String,
    pub user_id: Option<i32>,
    pub created_at: i64,
    pub updated_at: i64,
}

/// What a client sends to change a document.
#[derive(Debug, Clone, PartialEq)]
pub struct UpdateDocumentPayload {
    pub name: String,
    pub content: String,
    pub updated_at: i64,
}

/// What a client sends to give a user a role on a document.
#[derive(Debug, Clone, PartialEq)]
pub struct CreatePermissionPayload {
    pub user_id: i32,
    pub role: String,
}

/// What a client sends to change a user's role on a document.
#[derive(Debug, Clone, PartialEq)]
pub struct UpdatePermissionPayload {
    pub user_id: i32,
    pub role: String,
}

/// A user who holds a role on a document, as the listing of a document's
/// users gives it back.
#[derive(Debug, Clone, PartialEq)]
pub struct DocumentUser {
    pub user_id: i32,
    pub name: String,
    pub email: String,
    pub role: String,
}

} // verus!
