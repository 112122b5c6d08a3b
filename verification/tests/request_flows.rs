use backend::error::{DbError, Error};
use backend::flow::{
    accepts_outcome, start, step, Action, Body, Flow, GuardedRequest, Outcome, Query, Request,
    ACTING_USER_ID,
};
use backend::permission::Role;
use backend::model::{
    CreateDocumentPayload, CreatePermissionPayload, Document, DocumentUser, UpdateDocumentPayload,
    UpdatePermissionPayload,
};

/// Handles `request`, answering its queries with `outcomes` in turn, and
/// gives back every action taken.
fn drive(request: Request, outcomes: Vec<Outcome>) -> Vec<Action> {
    let (mut flow, first) = start(request);
    let mut actions = Vec::new();
    let mut replied = matches!(first, Action::Reply(_));
    actions.push(first);
    for outcome in outcomes {
        assert!(!replied, "an outcome was left over after the reply");
        assert!(accepts_outcome(&flow, &outcome));
        let (after, action) = step(flow, outcome);
        replied = matches!(action, Action::Reply(_));
        assert_eq!(replied, matches!(after, Flow::Finished));
        actions.push(action);
        flow = after;
    }
    actions
}

fn sample_document(id: i32) -> Document {
    Document {
        id,
        name: "Test Document".to_string(),
        content: "This is a test document content".to_string(),
        created_at: 1_700_000_000_000_000,
        updated_at: 1_700_000_000_000_000,
        user_id: None,
    }
}

fn acting_lookup(document_id: i32) -> Action {
    Action::Run(Query::LookupRole { document_id, user_id: ACTING_USER_ID })
}

fn role(name: &str) -> Outcome {
    Outcome::Role(Ok(Some(name.to_string())))
}

#[test]
fn acting_user_is_one() {
    assert_eq!(ACTING_USER_ID, 1);
}

#[test]
fn get_document_found() {
    let actions = drive(
        Request::GetDocument { document_id: 1 },
        vec![Outcome::Document(Ok(sample_document(1)))],
    );
    assert_eq!(
        actions,
        vec![
            Action::Run(Query::FetchDocument { document_id: 1 }),
            Action::Reply(Ok(Body::Document(sample_document(1)))),
        ]
    );
}

#[test]
fn get_document_missing_is_user_not_found() {
    let actions = drive(
        Request::GetDocument { document_id: 9 },
        vec![Outcome::Document(Err(DbError))],
    );
    assert_eq!(actions[1], Action::Reply(Err(Error::UserNotFoundError)));
}

fn create_payload() -> CreateDocumentPayload {
    CreateDocumentPayload {
        name: "Test Document".to_string(),
        content: "This is a test document content".to_string(),
        user_id: None,
        created_at: 1_700_000_000_000_000,
        updated_at: 1_700_000_000_000_000,
    }
}

#[test]
fn create_document_reads_back_what_was_stored() {
    let actions = drive(
        Request::CreateDocument { payload: create_payload() },
        vec![Outcome::Inserted(Ok(7)), Outcome::Document(Ok(sample_document(7)))],
    );
    assert_eq!(
        actions,
        vec![
            Action::Run(Query::InsertDocument { payload: create_payload() }),
            Action::Run(Query::FetchDocument { document_id: 7 }),
            Action::Reply(Ok(Body::Document(sample_document(7)))),
        ]
    );
}

#[test]
fn create_document_insert_failure_is_user_creation_error() {
    let actions = drive(
        Request::CreateDocument { payload: create_payload() },
        vec![Outcome::Inserted(Err(DbError))],
    );
    assert_eq!(actions[1], Action::Reply(Err(Error::UserCreationError)));
    assert_eq!(actions.len(), 2);
}

#[test]
fn create_document_read_back_failure_is_document_not_found() {
    let actions = drive(
        Request::CreateDocument { payload: create_payload() },
        vec![Outcome::Inserted(Ok(3)), Outcome::Document(Err(DbError))],
    );
    assert_eq!(actions[2], Action::Reply(Err(Error::DocumentNotFoundError)));
}

fn update_payload() -> UpdateDocumentPayload {
    UpdateDocumentPayload {
        name: "Updated Test Document".to_string(),
        content: "This document has been updated".to_string(),
        updated_at: 1_700_000_100_000_000,
    }
}

fn update_document(document_id: i32) -> Request {
    Request::Guarded(GuardedRequest::UpdateDocument { document_id, payload: update_payload() })
}

#[test]
fn update_document_by_editor() {
    let actions = drive(update_document(1), vec![role("editor"), Outcome::Executed(Ok(()))]);
    assert_eq!(
        actions,
        vec![
            acting_lookup(1),
            Action::Run(Query::UpdateDocument { document_id: 1, payload: update_payload() }),
            Action::Reply(Ok(Body::Success)),
        ]
    );
}

#[test]
fn update_document_by_owner() {
    let actions = drive(update_document(1), vec![role("owner"), Outcome::Executed(Ok(()))]);
    assert_eq!(actions[2], Action::Reply(Ok(Body::Success)));
}

#[test]
fn update_document_by_viewer_is_denied() {
    let actions = drive(update_document(1), vec![role("viewer")]);
    assert_eq!(
        actions,
        vec![acting_lookup(1), Action::Reply(Err(Error::PermissionDeniedError))]
    );
}

#[test]
fn update_document_without_role_is_denied() {
    let actions = drive(update_document(4), vec![Outcome::Role(Ok(None))]);
    assert_eq!(actions[1], Action::Reply(Err(Error::PermissionDeniedError)));
}

#[test]
fn update_document_lookup_failure_is_permission_error() {
    let actions = drive(update_document(4), vec![Outcome::Role(Err(DbError))]);
    assert_eq!(actions[1], Action::Reply(Err(Error::PermissionError)));
}

#[test]
fn update_document_write_failure() {
    let actions = drive(update_document(1), vec![role("editor"), Outcome::Executed(Err(DbError))]);
    assert_eq!(actions[2], Action::Reply(Err(Error::DocumentUpdateError)));
}

fn grant(document_id: i32, user_id: i32, role_name: &str) -> Request {
    Request::Guarded(GuardedRequest::GrantPermission {
        document_id,
        payload: CreatePermissionPayload { user_id, role: role_name.to_string() },
    })
}

#[test]
fn grant_permission_by_owner() {
    let actions = drive(grant(1, 2, "editor"), vec![role("owner"), Outcome::Executed(Ok(()))]);
    assert_eq!(
        actions,
        vec![
            acting_lookup(1),
            Action::Run(Query::UpsertPermission {
                document_id: 1,
                user_id: 2,
                role: "editor".to_string(),
            }),
            Action::Reply(Ok(Body::Success)),
        ]
    );
}

#[test]
fn grant_permission_by_editor_is_permission_error() {
    let actions = drive(grant(1, 2, "editor"), vec![role("editor")]);
    assert_eq!(actions, vec![acting_lookup(1), Action::Reply(Err(Error::PermissionError))]);
}

#[test]
fn grant_permission_write_failure() {
    let actions = drive(grant(1, 2, "viewer"), vec![role("owner"), Outcome::Executed(Err(DbError))]);
    assert_eq!(actions[2], Action::Reply(Err(Error::PermissionError)));
}

fn list_users(document_id: i32) -> Request {
    Request::Guarded(GuardedRequest::ListDocumentUsers { document_id })
}

fn sample_users() -> Vec<DocumentUser> {
    vec![
        DocumentUser {
            user_id: 1,
            name: "Ada".to_string(),
            email: "ada@example.com".to_string(),
            role: "owner".to_string(),
        },
        DocumentUser {
            user_id: 2,
            name: "Bob".to_string(),
            email: "bob@example.com".to_string(),
            role: "editor".to_string(),
        },
    ]
}

#[test]
fn list_users_by_any_role() {
    let actions = drive(list_users(1), vec![role("reader"), Outcome::Users(Ok(sample_users()))]);
    assert_eq!(
        actions,
        vec![
            acting_lookup(1),
            Action::Run(Query::ListDocumentUsers { document_id: 1 }),
            Action::Reply(Ok(Body::Users(sample_users()))),
        ]
    );
}

#[test]
fn list_users_without_role_is_permission_error() {
    let actions = drive(list_users(1), vec![Outcome::Role(Ok(None))]);
    assert_eq!(actions[1], Action::Reply(Err(Error::PermissionError)));
}

#[test]
fn list_users_failure_is_document_not_found() {
    let actions = drive(list_users(1), vec![role("viewer"), Outcome::Users(Err(DbError))]);
    assert_eq!(actions[2], Action::Reply(Err(Error::DocumentNotFoundError)));
}

fn update_permission(document_id: i32, user_id: i32, role_name: &str) -> Request {
    Request::Guarded(GuardedRequest::UpdatePermission {
        document_id,
        payload: UpdatePermissionPayload { user_id, role: role_name.to_string() },
    })
}

#[test]
fn update_permission_by_owner() {
    let actions =
        drive(update_permission(1, 2, "editor"), vec![role("owner"), Outcome::Executed(Ok(()))]);
    assert_eq!(
        actions,
        vec![
            acting_lookup(1),
            Action::Run(Query::UpdatePermission {
                document_id: 1,
                user_id: 2,
                role: "editor".to_string(),
            }),
            Action::Reply(Ok(Body::PermissionUpdated)),
        ]
    );
}

#[test]
fn update_permission_by_editor_is_denied() {
    let actions = drive(update_permission(1, 2, "owner"), vec![role("editor")]);
    assert_eq!(actions[1], Action::Reply(Err(Error::PermissionDeniedError)));
}

#[test]
fn update_permission_write_failure() {
    let actions = drive(
        update_permission(1, 2, "owner"),
        vec![role("owner"), Outcome::Executed(Err(DbError))],
    );
    assert_eq!(actions[2], Action::Reply(Err(Error::PermissionError)));
}

fn remove(document_id: i32, target_user_id: i32) -> Request {
    Request::Guarded(GuardedRequest::RemovePermission { document_id, target_user_id })
}

fn removal_prefix(document_id: i32, target_user_id: i32) -> Vec<Action> {
    vec![
        acting_lookup(document_id),
        Action::Run(Query::CountOwners { document_id }),
        Action::Run(Query::LookupRole { document_id, user_id: target_user_id }),
    ]
}

#[test]
fn remove_editor_permission() {
    let actions = drive(
        remove(1, 2),
        vec![
            role("owner"),
            Outcome::OwnerCount(Ok(Some(1))),
            role("editor"),
            Outcome::Executed(Ok(())),
        ],
    );
    let mut expected = removal_prefix(1, 2);
    expected.push(Action::Run(Query::DeletePermission { document_id: 1, user_id: 2 }));
    expected.push(Action::Reply(Ok(Body::PermissionRemoved)));
    assert_eq!(actions, expected);
}

#[test]
fn remove_last_owner_is_denied() {
    let actions = drive(
        remove(1, 1),
        vec![role("owner"), Outcome::OwnerCount(Ok(Some(1))), role("owner")],
    );
    let mut expected = removal_prefix(1, 1);
    expected.push(Action::Reply(Err(Error::PermissionDeniedError)));
    assert_eq!(actions, expected);
}

#[test]
fn remove_owner_when_count_is_missing_is_denied() {
    let actions =
        drive(remove(1, 3), vec![role("owner"), Outcome::OwnerCount(Ok(None)), role("owner")]);
    assert_eq!(actions[3], Action::Reply(Err(Error::PermissionDeniedError)));
}

#[test]
fn remove_one_of_two_owners() {
    let actions = drive(
        remove(1, 3),
        vec![
            role("owner"),
            Outcome::OwnerCount(Ok(Some(2))),
            role("owner"),
            Outcome::Executed(Ok(())),
        ],
    );
    assert_eq!(actions[3], Action::Run(Query::DeletePermission { document_id: 1, user_id: 3 }));
    assert_eq!(actions[4], Action::Reply(Ok(Body::PermissionRemoved)));
}

#[test]
fn remove_goes_ahead_when_the_count_fails() {
    let actions = drive(
        remove(1, 1),
        vec![
            role("owner"),
            Outcome::OwnerCount(Err(DbError)),
            role("owner"),
            Outcome::Executed(Ok(())),
        ],
    );
    assert_eq!(actions[3], Action::Run(Query::DeletePermission { document_id: 1, user_id: 1 }));
}

#[test]
fn remove_user_without_role_still_deletes() {
    let actions = drive(
        remove(1, 5),
        vec![
            role("owner"),
            Outcome::OwnerCount(Ok(Some(1))),
            Outcome::Role(Ok(None)),
            Outcome::Executed(Ok(())),
        ],
    );
    assert_eq!(actions[4], Action::Reply(Ok(Body::PermissionRemoved)));
}

#[test]
fn remove_by_editor_is_denied() {
    let actions = drive(remove(1, 2), vec![role("editor")]);
    assert_eq!(actions, vec![acting_lookup(1), Action::Reply(Err(Error::PermissionDeniedError))]);
}

#[test]
fn remove_delete_failure_is_permission_error() {
    let actions = drive(
        remove(1, 2),
        vec![
            role("owner"),
            Outcome::OwnerCount(Ok(Some(3))),
            role("viewer"),
            Outcome::Executed(Err(DbError)),
        ],
    );
    assert_eq!(actions[4], Action::Reply(Err(Error::PermissionError)));
}

#[test]
fn finished_flow_accepts_nothing() {
    let (flow, _) = start(Request::GetDocument { document_id: 1 });
    let (done, _) = step(flow, Outcome::Document(Err(DbError)));
    assert!(!accepts_outcome(&done, &Outcome::Executed(Ok(()))));
    assert!(!accepts_outcome(&done, &Outcome::Role(Ok(None))));
}

#[test]
fn flows_accept_only_their_answer() {
    let (flow, _) = start(update_document(1));
    assert!(accepts_outcome(&flow, &Outcome::Role(Ok(None))));
    assert!(!accepts_outcome(&flow, &Outcome::Executed(Ok(()))));
    assert!(!accepts_outcome(&flow, &Outcome::Document(Err(DbError))));
}

#[test]
fn guarded_request_properties() {
    let g = GuardedRequest::RemovePermission { document_id: 8, target_user_id: 2 };
    assert_eq!(g.required_role(), Role::Owner);
    assert_eq!(g.denial_error(), Error::PermissionDeniedError);
    assert_eq!(g.document_id(), 8);
    let l = GuardedRequest::ListDocumentUsers { document_id: 3 };
    assert_eq!(l.required_role(), Role::Viewer);
    assert_eq!(l.denial_error(), Error::PermissionError);
}

fn delete_document(document_id: i32) -> Request {
    Request::Guarded(GuardedRequest::DeleteDocument { document_id })
}

#[test]
fn delete_document_by_owner() {
    let actions = drive(delete_document(1), vec![role("owner"), Outcome::Executed(Ok(()))]);
    assert_eq!(
        actions,
        vec![
            acting_lookup(1),
            Action::Run(Query::DeleteDocument { document_id: 1 }),
            Action::Reply(Ok(Body::Success)),
        ]
    );
}

#[test]
fn delete_document_by_editor_is_denied() {
    let actions = drive(delete_document(1), vec![role("editor")]);
    assert_eq!(actions, vec![acting_lookup(1), Action::Reply(Err(Error::PermissionDeniedError))]);
}

#[test]
fn delete_document_lookup_failure_is_permission_error() {
    let actions = drive(delete_document(2), vec![Outcome::Role(Err(DbError))]);
    assert_eq!(actions[1], Action::Reply(Err(Error::PermissionError)));
}

#[test]
fn delete_document_failure() {
    let actions = drive(delete_document(1), vec![role("owner"), Outcome::Executed(Err(DbError))]);
    assert_eq!(actions[2], Action::Reply(Err(Error::DocumentDeletionError)));
}

#[test]
fn delete_document_properties() {
    let g = GuardedRequest::DeleteDocument { document_id: 6 };
    assert_eq!(g.required_role(), Role::Owner);
    assert_eq!(g.denial_error(), Error::PermissionDeniedError);
    assert_eq!(g.document_id(), 6);
}

#[test]
fn each_query_is_awaited_with_its_own_answer() {
    let (flow, action) = start(remove(1, 2));
    assert!(matches!(action, Action::Run(Query::LookupRole { .. })));
    assert!(accepts_outcome(&flow, &Outcome::Role(Ok(None))));
    let (flow, action) = step(flow, role("owner"));
    assert!(matches!(action, Action::Run(Query::CountOwners { .. })));
    assert!(accepts_outcome(&flow, &Outcome::OwnerCount(Ok(Some(2)))));
    assert!(!accepts_outcome(&flow, &Outcome::Role(Ok(None))));
}
