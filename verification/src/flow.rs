use vstd::prelude::*;
use crate::error::{DbError, Error};
use crate::model::{
    CreateDocumentPayload, CreatePermissionPayload, Document, DocumentUser, UpdateDocumentPayload,
    UpdatePermissionPayload,
};
use crate::permission::{
    check_document_permission, grants, last_owner_guard, permission_answer, removal_blocked, Role,
};

verus! {

/// The user on whose behalf every request acts: requests carry no identity
/// yet, so the service acts as this user.
pub const ACTING_USER_ID: i32 = 1;

/// A request that may only go ahead when the acting user holds a role on the
/// document.
#[derive(Debug, Clone, PartialEq)]
pub enum GuardedRequest {
    UpdateDocument { document_id: i32, payload: UpdateDocumentPayload },
    DeleteDocument { document_id: i32 },
    GrantPermission { document_id: i32, payload: CreatePermissionPayload },
    ListDocumentUsers { document_id: i32 },
    UpdatePermission { document_id: i32, payload: UpdatePermissionPayload },
    RemovePermission { document_id: i32, target_user_id: i32 },
}

/// A request to the document service.
#[derive(Debug, Clone, PartialEq)]
pub enum Request {
    GetDocument { document_id: i32 },
    CreateDocument { payload: CreateDocumentPayload },
    Guarded(GuardedRequest),
}

/// A database statement that the service asks to be run.
#[derive(Debug, Clone, PartialEq)]
pub enum Query {
    /// Read one document by id; answered with `Outcome::Document`.
    FetchDocument { document_id: i32 },
    /// Store a new document; answered with `Outcome::Inserted` and its id.
    InsertDocument { payload: CreateDocumentPayload },
    /// Read the role of a user on a document; answered with `Outcome::Role`.
    LookupRole { document_id: i32, user_id: i32 },
    /// Overwrite a document's name, content and change time; answered with
    /// `Outcome::Executed`.
    UpdateDocument { document_id: i32, payload: UpdateDocumentPayload },
    /// Delete a document together with the roles held on it; answered with
    /// `Outcome::Executed`.
    DeleteDocument { document_id: i32 },
    /// Give a user a role on a document, replacing any role held before;
    /// answered with `Outcome::Executed`.
    UpsertPermission { document_id: i32, user_id: i32, role: String },
    /// List the users holding a role on a document; answered with
    /// `Outcome::Users`.
    ListDocumentUsers { document_id: i32 },
    /// Change the role that a user holds on a document; answered with
    /// `Outcome::Executed`.
    UpdatePermission { document_id: i32, user_id: i32, role: String },
    /// Count the owners of a document; answered with `Outcome::OwnerCount`.
    CountOwners { document_id: i32 },
    /// Take a user's role on a document away; answered with
    /// `Outcome::Executed`.
    DeletePermission { document_id: i32, user_id: i32 },
}

/// What the database answered to a query.
#[derive(Debug, PartialEq)]
pub enum Outcome {
    Document(Result<Document, DbError>),
    Inserted(Result<i32, DbError>),
    Role(Result<Option<String>, DbError>),
    Executed(Result<(), DbError>),
    Users(Result<Vec<DocumentUser>, DbError>),
    OwnerCount(Result<Option<i64>, DbError>),
}

/// The body of a successful reply.
#[derive(Debug, Clone, PartialEq)]
pub enum Body {
    Document(Document),
    Success,
    PermissionUpdated,
    PermissionRemoved,
    Users(Vec<DocumentUser>),
}

/// What the service does next: run a query, or answer the request.
#[derive(Debug, PartialEq)]
pub enum Action {
    Run(Query),
    Reply(Result<Body, Error>),
}

/// Where the handling of one request stands, and the query it waits on.
#[derive(Debug, PartialEq)]
pub enum Flow {
    /// A document is being read; if that fails the request is answered with
    /// `missing`.
    AwaitDocument { missing: Error },
    /// A new document is being stored.
    AwaitInsert,
    /// The acting user's role on the document of `request` is being read.
    AwaitPermission { request: GuardedRequest },
    /// A change is being written; it is answered with `success` or
    /// `failure`.
    AwaitWrite { failure: Error, success: Body },
    /// The users of a document are being listed.
    AwaitUsers,
    /// The owners of a document are being counted before a removal.
    AwaitOwnerCount { document_id: i32, target_user_id: i32 },
    /// The role of the user to be removed is being read; `owners` is what
    /// the count of owners gave back.
    AwaitTargetRole {
        document_id: i32,
        target_user_id: i32,
        owners: Result<Option<i64>, DbError>,
    },
    /// The request has been answered.
    Finished,
}

impl GuardedRequest {
    /// The role that the acting user must hold: editing a document needs an
    /// editor, deleting it or managing its permissions an owner, listing its
    /// users any role.
    pub open spec fn required(self) -> Role {
        match self {
            GuardedRequest::UpdateDocument { .. } => Role::Editor,
            GuardedRequest::DeleteDocument { .. } => Role::Owner,
            GuardedRequest::GrantPermission { .. } => Role::Owner,
            GuardedRequest::ListDocumentUsers { .. } => Role::Viewer,
            GuardedRequest::UpdatePermission { .. } => Role::Owner,
            GuardedRequest::RemovePermission { .. } => Role::Owner,
        }
    }

    /// The error with which the request is refused when the role is missing.
    pub open spec fn denial(self) -> Error {
        match self {
            GuardedRequest::UpdateDocument { .. } => Error::PermissionDeniedError,
            GuardedRequest::DeleteDocument { .. } => Error::PermissionDeniedError,
            GuardedRequest::GrantPermission { .. } => Error::PermissionError,
            GuardedRequest::ListDocumentUsers { .. } => Error::PermissionError,
            GuardedRequest::UpdatePermission { .. } => Error::PermissionDeniedError,
            GuardedRequest::RemovePermission { .. } => Error::PermissionDeniedError,
        }
    }

    /// The document that the request is about.
    pub open spec fn document(self) -> i32 {
        match self {
            GuardedRequest::UpdateDocument { document_id, .. } => document_id,
            GuardedRequest::DeleteDocument { document_id } => document_id,
            GuardedRequest::GrantPermission { document_id, .. } => document_id,
            GuardedRequest::ListDocumentUsers { document_id } => document_id,
            GuardedRequest::UpdatePermission { document_id, .. } => document_id,
            GuardedRequest::RemovePermission { document_id, .. } => document_id,
        }
    }

    /// Executable form of `required`.
    pub fn required_role(&self) -> (r: Role)
        ensures
            r == self.required(),
    {
        match self {
            GuardedRequest::UpdateDocument { .. } => Role::Editor,
            GuardedRequest::DeleteDocument { .. } => Role::Owner,
            GuardedRequest::GrantPermission { .. } => Role::Owner,
            GuardedRequest::ListDocumentUsers { .. } => Role::Viewer,
            GuardedRequest::UpdatePermission { .. } => Role::Owner,
            GuardedRequest::RemovePermission { .. } => Role::Owner,
        }
    }

    /// Executable form of `denial`.
    pub fn denial_error(&self) -> (e: Error)
        ensures
            e == self.denial(),
    {
        match self {
            GuardedRequest::UpdateDocument { .. } => Error::PermissionDeniedError,
            GuardedRequest::DeleteDocument { .. } => Error::PermissionDeniedError,
            GuardedRequest::GrantPermission { .. } => Error::PermissionError,
            GuardedRequest::ListDocumentUsers { .. } => Error::PermissionError,
            GuardedRequest::UpdatePermission { .. } => Error::PermissionDeniedError,
            GuardedRequest::RemovePermission { .. } => Error::PermissionDeniedError,
        }
    }

    /// Executable form of `document`.
    pub fn document_id(&self) -> (d: i32)
        ensures
            d == self.document(),
    {
        match self {
            GuardedRequest::UpdateDocument { document_id, .. } => *document_id,
            GuardedRequest::DeleteDocument { document_id } => *document_id,
            GuardedRequest::GrantPermission { document_id, .. } => *document_id,
            GuardedRequest::ListDocumentUsers { document_id } => *document_id,
            GuardedRequest::UpdatePermission { document_id, .. } => *document_id,
            GuardedRequest::RemovePermission { document_id, .. } => *document_id,
        }
    }
}

/// Answering ends the handling of a request.
pub open spec fn finish(reply: Result<Body, Error>) -> (Flow, Action) {
    (Flow::Finished, Action::Reply(reply))
}

/// How a request starts: reads and creations go straight to the database;
/// every other request first reads the acting user's role on its document.
pub open spec fn begin(request: Request) -> (Flow, Action) {
    match request {
        Request::GetDocument { document_id } => (
            Flow::AwaitDocument { missing: Error::UserNotFoundError },
            Action::Run(Query::FetchDocument { document_id }),
        ),
        Request::CreateDocument { payload } => (
            Flow::AwaitInsert,
            Action::Run(Query::InsertDocument { payload }),
        ),
        Request::Guarded(request) => (
            Flow::AwaitPermission { request },
            Action::Run(
                Query::LookupRole { document_id: request.document(), user_id: ACTING_USER_ID },
            ),
        ),
    }
}

/// What a guarded request does once the acting user's role was found enough.
pub open spec fn proceed(request: GuardedRequest) -> (Flow, Action) {
    match request {
        GuardedRequest::UpdateDocument { document_id, payload } => (
            Flow::AwaitWrite { failure: Error::DocumentUpdateError, success: Body::Success },
            Action::Run(Query::UpdateDocument { document_id, payload }),
        ),
        GuardedRequest::DeleteDocument { document_id } => (
            Flow::AwaitWrite { failure: Error::DocumentDeletionError, success: Body::Success },
            Action::Run(Query::DeleteDocument { document_id }),
        ),
        GuardedRequest::GrantPermission { document_id, payload } => (
            Flow::AwaitWrite { failure: Error::PermissionError, success: Body::Success },
            Action::Run(
                Query::UpsertPermission {
                    document_id,
                    user_id: payload.user_id,
                    role: payload.role,
                },
            ),
        ),
        GuardedRequest::ListDocumentUsers { document_id } => (
            Flow::AwaitUsers,
            Action::Run(Query::ListDocumentUsers { document_id }),
        ),
        GuardedRequest::UpdatePermission { document_id, payload } => (
            Flow::AwaitWrite { failure: Error::PermissionError, success: Body::PermissionUpdated },
            Action::Run(
                Query::UpdatePermission {
                    document_id,
                    user_id: payload.user_id,
                    role: payload.role,
                },
            ),
        ),
        GuardedRequest::RemovePermission { document_id, target_user_id } => (
            Flow::AwaitOwnerCount { document_id, target_user_id },
            Action::Run(Query::CountOwners { document_id }),
        ),
    }
}

/// Whether `outcome` answers the query that `flow` waits on. A finished flow
/// waits on nothing.
pub open spec fn accepts(flow: Flow, outcome: Outcome) -> bool {
    match flow {
        Flow::AwaitDocument { .. } => outcome is Document,
        Flow::AwaitInsert => outcome is Inserted,
        Flow::AwaitPermission { .. } => outcome is Role,
        Flow::AwaitWrite { .. } => outcome is Executed,
        Flow::AwaitUsers => outcome is Users,
        Flow::AwaitOwnerCount { .. } => outcome is OwnerCount,
        Flow::AwaitTargetRole { .. } => outcome is Role,
        Flow::Finished => false,
    }
}

/// Whether `outcome` is the kind of answer that `query` gets.
pub open spec fn answers(query: Query, outcome: Outcome) -> bool {
    match query {
        Query::FetchDocument { .. } => outcome is Document,
        Query::InsertDocument { .. } => outcome is Inserted,
        Query::LookupRole { .. } => outcome is Role,
        Query::UpdateDocument { .. } => outcome is Executed,
        Query::DeleteDocument { .. } => outcome is Executed,
        Query::UpsertPermission { .. } => outcome is Executed,
        Query::ListDocumentUsers { .. } => outcome is Users,
        Query::UpdatePermission { .. } => outcome is Executed,
        Query::CountOwners { .. } => outcome is OwnerCount,
        Query::DeletePermission { .. } => outcome is Executed,
    }
}

/// Whether, when `action` runs a query, `flow` accepts exactly the answers
/// to that query.
pub open spec fn awaits_answer(flow: Flow, action: Action) -> bool {
    action matches Action::Run(query) ==> forall|o: Outcome|
        #[trigger] accepts(flow, o) == answers(query, o)
}

/// The transition of a flow on the answer to the query it waits on.
pub open spec fn next(flow: Flow, outcome: Outcome) -> (Flow, Action)
    recommends
        accepts(flow, outcome),
{
    match (flow, outcome) {
        (Flow::AwaitDocument { missing }, Outcome::Document(fetched)) => match fetched {
            Ok(document) => finish(Ok(Body::Document(document))),
            Err(_) => finish(Err(missing)),
        },
        (Flow::AwaitInsert, Outcome::Inserted(inserted)) => match inserted {
            Ok(id) => (
                Flow::AwaitDocument { missing: Error::DocumentNotFoundError },
                Action::Run(Query::FetchDocument { document_id: id }),
            ),
            Err(_) => finish(Err(Error::UserCreationError)),
        },
        (Flow::AwaitPermission { request }, Outcome::Role(lookup)) => match permission_answer(
            lookup,
            request.required().name(),
        ) {
            Ok(true) => proceed(request),
            Ok(false) => finish(Err(request.denial())),
            Err(e) => finish(Err(e)),
        },
        (Flow::AwaitWrite { failure, success }, Outcome::Executed(executed)) => match executed {
            Ok(()) => finish(Ok(success)),
            Err(_) => finish(Err(failure)),
        },
        (Flow::AwaitUsers, Outcome::Users(listed)) => match listed {
            Ok(users) => finish(Ok(Body::Users(users))),
            Err(_) => finish(Err(Error::DocumentNotFoundError)),
        },
        (Flow::AwaitOwnerCount { document_id, target_user_id }, Outcome::OwnerCount(owners)) => (
            Flow::AwaitTargetRole { document_id, target_user_id, owners },
            Action::Run(Query::LookupRole { document_id, user_id: target_user_id }),
        ),
        (
            Flow::AwaitTargetRole { document_id, target_user_id, owners },
            Outcome::Role(target),
        ) => if removal_blocked(owners, target) {
            finish(Err(Error::PermissionDeniedError))
        } else {
            (
                Flow::AwaitWrite { failure: Error::PermissionError, success: Body::PermissionRemoved },
                Action::Run(Query::DeletePermission { document_id, user_id: target_user_id }),
            )
        },
        _ => arbitrary(),
    }
}

/// An upper bound on the queries a flow may still issue.
pub open spec fn remaining(flow: Flow) -> nat {
    match flow {
        Flow::AwaitDocument { .. } => 1,
        Flow::AwaitInsert => 2,
        Flow::AwaitPermission { .. } => 4,
        Flow::AwaitWrite { .. } => 1,
        Flow::AwaitUsers => 1,
        Flow::AwaitOwnerCount { .. } => 3,
        Flow::AwaitTargetRole { .. } => 2,
        Flow::Finished => 0,
    }
}

/// Starts the handling of a request: the first query to run, and the flow
/// that waits on its answer.
pub fn start(request: Request) -> (r: (Flow, Action))
    ensures
        r == begin(request),
        r.1 is Run,
        awaits_answer(r.0, r.1),
{
    proof {
        lemma_begin_awaits_its_query(request);
    }
    match request {
        Request::GetDocument { document_id } => (
            Flow::AwaitDocument { missing: Error::UserNotFoundError },
            Action::Run(Query::FetchDocument { document_id }),
        ),
        Request::CreateDocument { payload } => (
            Flow::AwaitInsert,
            Action::Run(Query::InsertDocument { payload }),
        ),
        Request::Guarded(request) => {
            let document_id = request.document_id();
            (
                Flow::AwaitPermission { request },
                Action::Run(Query::LookupRole { document_id, user_id: ACTING_USER_ID }),
            )
        },
    }
}

/// Whether `outcome` answers the query that `flow` waits on.
pub fn accepts_outcome(flow: &Flow, outcome: &Outcome) -> (r: bool)
    ensures
        r == accepts(*flow, *outcome),
{
    match flow {
        Flow::AwaitDocument { .. } => matches!(outcome, Outcome::Document(_)),
        Flow::AwaitInsert => matches!(outcome, Outcome::Inserted(_)),
        Flow::AwaitPermission { .. } => matches!(outcome, Outcome::Role(_)),
        Flow::AwaitWrite { .. } => matches!(outcome, Outcome::Executed(_)),
        Flow::AwaitUsers => matches!(outcome, Outcome::Users(_)),
        Flow::AwaitOwnerCount { .. } => matches!(outcome, Outcome::OwnerCount(_)),
        Flow::AwaitTargetRole { .. } => matches!(outcome, Outcome::Role(_)),
        Flow::Finished => false,
    }
}

fn proceed_with(request: GuardedRequest) -> (r: (Flow, Action))
    ensures
        r == proceed(request),
{
    match request {
        GuardedRequest::UpdateDocument { document_id, payload } => (
            Flow::AwaitWrite { failure: Error::DocumentUpdateError, success: Body::Success },
            Action::Run(Query::UpdateDocument { document_id, payload }),
        ),
        GuardedRequest::DeleteDocument { document_id } => (
            Flow::AwaitWrite { failure: Error::DocumentDeletionError, success: Body::Success },
            Action::Run(Query::DeleteDocument { document_id }),
        ),
        GuardedRequest::GrantPermission { document_id, payload } => (
            Flow::AwaitWrite { failure: Error::PermissionError, success: Body::Success },
            Action::Run(
                Query::UpsertPermission {
                    document_id,
                    user_id: payload.user_id,
                    role: payload.role,
                },
            ),
        ),
        GuardedRequest::ListDocumentUsers { document_id } => (
            Flow::AwaitUsers,
            Action::Run(Query::ListDocumentUsers { document_id }),
        ),
        GuardedRequest::UpdatePermission { document_id, payload } => (
            Flow::AwaitWrite { failure: Error::PermissionError, success: Body::PermissionUpdated },
            Action::Run(
                Query::UpdatePermission {
                    document_id,
                    user_id: payload.user_id,
                    role: payload.role,
                },
            ),
        ),
        GuardedRequest::RemovePermission { document_id, target_user_id } => (
            Flow::AwaitOwnerCount { document_id, target_user_id },
            Action::Run(Query::CountOwners { document_id }),
        ),
    }
}

/// Advances a flow on the answer to the query it waits on: the next query to
/// run, or the reply. A reply ends the flow, and every step brings it closer
/// to its end.
pub fn step(flow: Flow, outcome: Outcome) -> (r: (Flow, Action))
    requires
        accepts(flow, outcome),
    ensures
        r == next(flow, outcome),
        (r.1 is Reply) == (r.0 is Finished),
        remaining(r.0) < remaining(flow),
        awaits_answer(r.0, r.1),
{
    proof {
        lemma_next_progresses(flow, outcome);
        lemma_next_awaits_its_query(flow, outcome);
    }
    match flow {
        Flow::AwaitDocument { missing } => match outcome {
            Outcome::Document(Ok(document)) => (
                Flow::Finished,
                Action::Reply(Ok(Body::Document(document))),
            ),
            _ => (Flow::Finished, Action::Reply(Err(missing))),
        },
        Flow::AwaitInsert => match outcome {
            Outcome::Inserted(Ok(id)) => (
                Flow::AwaitDocument { missing: Error::DocumentNotFoundError },
                Action::Run(Query::FetchDocument { document_id: id }),
            ),
            _ => (Flow::Finished, Action::Reply(Err(Error::UserCreationError))),
        },
        Flow::AwaitPermission { request } => match outcome {
            Outcome::Role(lookup) => {
                let required = request.required_role();
                match check_document_permission(lookup, required.as_str()) {
                    Ok(true) => proceed_with(request),
                    Ok(false) => {
                        let denial = request.denial_error();
                        (Flow::Finished, Action::Reply(Err(denial)))
                    },
                    Err(e) => (Flow::Finished, Action::Reply(Err(e))),
                }
            },
            // `accepts` rules out any other outcome here.
            _ => (Flow::Finished, Action::Reply(Err(Error::PermissionError))),
        },
        Flow::AwaitWrite { failure, success } => match outcome {
            Outcome::Executed(Ok(())) => (Flow::Finished, Action::Reply(Ok(success))),
            _ => (Flow::Finished, Action::Reply(Err(failure))),
        },
        Flow::AwaitUsers => match outcome {
            Outcome::Users(Ok(users)) => (Flow::Finished, Action::Reply(Ok(Body::Users(users)))),
            _ => (Flow::Finished, Action::Reply(Err(Error::DocumentNotFoundError))),
        },
        Flow::AwaitOwnerCount { document_id, target_user_id } => match outcome {
            Outcome::OwnerCount(owners) => (
                Flow::AwaitTargetRole { document_id, target_user_id, owners },
                Action::Run(Query::LookupRole { document_id, user_id: target_user_id }),
            ),
            // `accepts` rules out any other outcome here.
            _ => (Flow::Finished, Action::Reply(Err(Error::PermissionError))),
        },
        Flow::AwaitTargetRole { document_id, target_user_id, owners } => match outcome {
            Outcome::Role(target) => {
                if last_owner_guard(&owners, &target) {
                    (Flow::Finished, Action::Reply(Err(Error::PermissionDeniedError)))
                } else {
                    (
                        Flow::AwaitWrite {
                            failure: Error::PermissionError,
                            success: Body::PermissionRemoved,
                        },
                        Action::Run(Query::DeletePermission { document_id, user_id: target_user_id }),
                    )
                }
            },
            // `accepts` rules out any other outcome here.
            _ => (Flow::Finished, Action::Reply(Err(Error::PermissionError))),
        },
        // `accepts` rules out every outcome for a finished flow.
        Flow::Finished => (Flow::Finished, Action::Reply(Err(Error::PermissionError))),
    }
}

/// The actions taken from `flow` on, as long as each outcome answers the
/// query waited on.
pub open spec fn trace(flow: Flow, outcomes: Seq<Outcome>) -> Seq<Action>
    decreases outcomes.len(),
{
    if outcomes.len() == 0 || !accepts(flow, outcomes[0]) {
        Seq::empty()
    } else {
        seq![next(flow, outcomes[0]).1] + trace(next(flow, outcomes[0]).0, outcomes.drop_first())
    }
}

/// The actions taken in handling `request` when the database answers its
/// queries with `outcomes`, one after another.
pub open spec fn run(request: Request, outcomes: Seq<Outcome>) -> Seq<Action> {
    seq![begin(request).1] + trace(begin(request).0, outcomes)
}

/// Whether an action changes a document or its permissions on behalf of a
/// guarded request.
pub open spec fn is_guarded_write(action: Action) -> bool {
    match action {
        Action::Run(Query::UpdateDocument { .. }) => true,
        Action::Run(Query::DeleteDocument { .. }) => true,
        Action::Run(Query::UpsertPermission { .. }) => true,
        Action::Run(Query::UpdatePermission { .. }) => true,
        Action::Run(Query::DeletePermission { .. }) => true,
        _ => false,
    }
}

/// The document that a guarded write changes.
pub open spec fn written_document(action: Action) -> i32 {
    match action {
        Action::Run(Query::UpdateDocument { document_id, .. }) => document_id,
        Action::Run(Query::DeleteDocument { document_id }) => document_id,
        Action::Run(Query::UpsertPermission { document_id, .. }) => document_id,
        Action::Run(Query::UpdatePermission { document_id, .. }) => document_id,
        Action::Run(Query::DeletePermission { document_id, .. }) => document_id,
        _ => arbitrary(),
    }
}

/// Whether `outcome` is a role lookup that found a role enough for `role`.
pub open spec fn grants_role(outcome: Outcome, role: Role) -> bool {
    outcome matches Outcome::Role(Ok(Some(held))) && grants(role.name(), held@)
}

/// Every step either answers the request and finishes, or waits on a new
/// query and has fewer left to issue.
pub proof fn lemma_next_progresses(flow: Flow, outcome: Outcome)
    requires
        accepts(flow, outcome),
    ensures
        (next(flow, outcome).1 is Reply) == (next(flow, outcome).0 is Finished),
        remaining(next(flow, outcome).0) < remaining(flow),
{
}

/// A request starts by running a query, and its flow then accepts exactly
/// the answers to that query.
pub proof fn lemma_begin_awaits_its_query(request: Request)
    ensures
        begin(request).1 is Run,
        awaits_answer(begin(request).0, begin(request).1),
{
}

/// After every step that runs a query, the flow accepts exactly the answers
/// to that query, so a database that answers each query with its own kind of
/// answer is never refused by `step`.
pub proof fn lemma_next_awaits_its_query(flow: Flow, outcome: Outcome)
    requires
        accepts(flow, outcome),
    ensures
        awaits_answer(next(flow, outcome).0, next(flow, outcome).1),
{
}

/// A flow issues at most `remaining(flow)` more actions.
proof fn lemma_trace_bounded(flow: Flow, outcomes: Seq<Outcome>)
    ensures
        trace(flow, outcomes).len() <= remaining(flow),
    decreases outcomes.len(),
{
    if outcomes.len() > 0 && accepts(flow, outcomes[0]) {
        lemma_next_progresses(flow, outcomes[0]);
        lemma_trace_bounded(next(flow, outcomes[0]).0, outcomes.drop_first());
    }
}

/// A reply is the last action of a flow.
proof fn lemma_trace_reply_is_last(flow: Flow, outcomes: Seq<Outcome>, i: int)
    requires
        0 <= i < trace(flow, outcomes).len(),
        trace(flow, outcomes)[i] is Reply,
    ensures
        i == trace(flow, outcomes).len() - 1,
    decreases outcomes.len(),
{
    lemma_next_progresses(flow, outcomes[0]);
    let after = next(flow, outcomes[0]).0;
    let rest = outcomes.drop_first();
    if i == 0 {
        if after is Finished {
            assert(trace(after, rest) =~= Seq::<Action>::empty());
        }
    } else {
        assert(trace(after, rest)[i - 1] == trace(flow, outcomes)[i]);
        lemma_trace_reply_is_last(after, rest, i - 1);
    }
}

/// Every request is handled in at most five actions, and is answered at
/// most once: a reply is always the last action.
pub proof fn lemma_request_answered_once(request: Request, outcomes: Seq<Outcome>, i: int)
    requires
        0 <= i < run(request, outcomes).len(),
        run(request, outcomes)[i] is Reply,
    ensures
        i == run(request, outcomes).len() - 1,
{
    lemma_trace_bounded(begin(request).0, outcomes);
    assert(i != 0);
    let t = trace(begin(request).0, outcomes);
    assert(t[i - 1] == run(request, outcomes)[i]);
    lemma_trace_reply_is_last(begin(request).0, outcomes, i - 1);
}

/// Handling a request takes at most five actions.
pub proof fn lemma_run_is_short(request: Request, outcomes: Seq<Outcome>)
    ensures
        run(request, outcomes).len() <= 5,
{
    lemma_trace_bounded(begin(request).0, outcomes);
}

/// From a flow that holds no granted permission, no guarded write follows.
proof fn lemma_no_write_without_grant(flow: Flow, outcomes: Seq<Outcome>, i: int)
    requires
        flow is AwaitDocument || flow is AwaitInsert || flow is AwaitWrite || flow is AwaitUsers
            || flow is Finished,
        0 <= i < trace(flow, outcomes).len(),
    ensures
        !is_guarded_write(trace(flow, outcomes)[i]),
    decreases outcomes.len(),
{
    if i > 0 {
        let after = next(flow, outcomes[0]).0;
        let rest = outcomes.drop_first();
        assert(trace(after, rest)[i - 1] == trace(flow, outcomes)[i]);
        lemma_no_write_without_grant(after, rest, i - 1);
    }
}

/// During a removal, the only guarded write deletes the permission of the
/// user being removed, on the document of the removal.
pub proof fn lemma_removal_writes(
    flow: Flow,
    document_id: i32,
    target_user_id: i32,
    outcomes: Seq<Outcome>,
    i: int,
)
    requires
        flow == (Flow::AwaitOwnerCount { document_id, target_user_id }) || (
        flow matches Flow::AwaitTargetRole { document_id: d, target_user_id: t, .. } && d
            == document_id && t == target_user_id),
        0 <= i < trace(flow, outcomes).len(),
        is_guarded_write(trace(flow, outcomes)[i]),
    ensures
        trace(flow, outcomes)[i] == Action::Run(
            Query::DeletePermission { document_id, user_id: target_user_id },
        ),
    decreases outcomes.len(),
{
    let after = next(flow, outcomes[0]).0;
    let rest = outcomes.drop_first();
    if i > 0 {
        assert(trace(after, rest)[i - 1] == trace(flow, outcomes)[i]);
        if flow is AwaitOwnerCount {
            lemma_removal_writes(after, document_id, target_user_id, rest, i - 1);
        } else {
            lemma_no_write_without_grant(after, rest, i - 1);
        }
    }
}

/// A change to a document or to its permissions is only ever made after the
/// acting user's role on that document was read, first of all, and found
/// enough for the request, and it is made to that document. Reads and creations of
/// documents make no such change.
pub proof fn lemma_writes_follow_a_grant(request: Request, outcomes: Seq<Outcome>, i: int)
    requires
        0 <= i < run(request, outcomes).len(),
        is_guarded_write(run(request, outcomes)[i]),
    ensures
        request is Guarded,
        outcomes.len() > 0,
        grants_role(outcomes[0], request->Guarded_0.required()),
        written_document(run(request, outcomes)[i]) == request->Guarded_0.document(),
        run(request, outcomes)[0] == Action::Run(
            Query::LookupRole { document_id: request->Guarded_0.document(), user_id: ACTING_USER_ID },
        ),
{
    let flow = begin(request).0;
    assert(i != 0);
    let t = trace(flow, outcomes);
    assert(t[i - 1] == run(request, outcomes)[i]);
    match request {
        Request::Guarded(guarded) => {
            let (after, action) = next(flow, outcomes[0]);
            let rest = outcomes.drop_first();
            let lookup = outcomes[0]->Role_0;
            let answer = permission_answer(lookup, guarded.required().name());
            if answer != Ok::<bool, Error>(true) {
                assert(after is Finished);
                assert(trace(after, rest) =~= Seq::<Action>::empty());
            } else {
                if i > 1 {
                    assert(trace(after, rest)[i - 2] == t[i - 1]);
                    match guarded {
                        GuardedRequest::RemovePermission { document_id, target_user_id } => {
                            lemma_removal_writes(after, document_id, target_user_id, rest, i - 2);
                        },
                        _ => {
                            lemma_no_write_without_grant(after, rest, i - 2);
                        },
                    }
                }
            }
        },
        _ => {
            lemma_no_write_without_grant(flow, outcomes, i - 1);
        },
    }
}

/// The only change that removing a user's role makes is deleting that
/// user's role on that document.
pub proof fn lemma_removal_deletes_only_its_target(
    document_id: i32,
    target_user_id: i32,
    outcomes: Seq<Outcome>,
    i: int,
)
    requires
        0 <= i < run(
            Request::Guarded(GuardedRequest::RemovePermission { document_id, target_user_id }),
            outcomes,
        ).len(),
        is_guarded_write(
            run(
                Request::Guarded(GuardedRequest::RemovePermission { document_id, target_user_id }),
                outcomes,
            )[i],
        ),
    ensures
        run(
            Request::Guarded(GuardedRequest::RemovePermission { document_id, target_user_id }),
            outcomes,
        )[i] == Action::Run(Query::DeletePermission { document_id, user_id: target_user_id }),
{
    let guarded = GuardedRequest::RemovePermission { document_id, target_user_id };
    let request = Request::Guarded(guarded);
    lemma_writes_follow_a_grant(request, outcomes, i);
    let flow = begin(request).0;
    let t = trace(flow, outcomes);
    assert(t[i - 1] == run(request, outcomes)[i]);
    let after = next(flow, outcomes[0]).0;
    let rest = outcomes.drop_first();
    assert(after == Flow::AwaitOwnerCount { document_id, target_user_id });
    assert(i > 1);
    assert(trace(after, rest)[i - 2] == t[i - 1]);
    lemma_removal_writes(after, document_id, target_user_id, rest, i - 2);
}

/// A guarded request whose acting user's role could not be read is answered
/// with `PermissionError`; one whose acting user holds no role on the
/// document, or a role not enough for it, is refused with the request's own
/// error. Either way nothing more is asked of the database.
pub proof fn lemma_refused_request(guarded: GuardedRequest, outcomes: Seq<Outcome>)
    requires
        outcomes.len() > 0,
        outcomes[0] is Role,
        !grants_role(outcomes[0], guarded.required()),
    ensures
        run(Request::Guarded(guarded), outcomes) == seq![
            Action::Run(Query::LookupRole { document_id: guarded.document(), user_id: ACTING_USER_ID }),
            Action::Reply(
                Err(
                    if outcomes[0]->Role_0 is Err {
                        Error::PermissionError
                    } else {
                        guarded.denial()
                    },
                ),
            ),
        ],
{
    let flow = begin(Request::Guarded(guarded)).0;
    let after = next(flow, outcomes[0]).0;
    assert(after is Finished);
    assert(trace(after, outcomes.drop_first()) =~= Seq::<Action>::empty());
    assert(run(Request::Guarded(guarded), outcomes) =~= seq![
        Action::Run(Query::LookupRole { document_id: guarded.document(), user_id: ACTING_USER_ID }),
        Action::Reply(
            Err(
                if outcomes[0]->Role_0 is Err {
                    Error::PermissionError
                } else {
                    guarded.denial()
                },
            ),
        ),
    ]);
}

/// A new document is stored as sent, then read back under the id that
/// storing it gave; the reply is the document read back, or
/// `DocumentNotFoundError` when it cannot be read.
pub proof fn lemma_created_document_is_read_back(
    payload: CreateDocumentPayload,
    id: i32,
    fetched: Result<Document, DbError>,
    outcomes: Seq<Outcome>,
)
    requires
        outcomes.len() >= 2,
        outcomes[0] == Outcome::Inserted(Ok(id)),
        outcomes[1] == Outcome::Document(fetched),
    ensures
        run(Request::CreateDocument { payload }, outcomes) == seq![
            Action::Run(Query::InsertDocument { payload }),
            Action::Run(Query::FetchDocument { document_id: id }),
            Action::Reply(
                match fetched {
                    Ok(document) => Ok(Body::Document(document)),
                    Err(_) => Err(Error::DocumentNotFoundError),
                },
            ),
        ],
{
    let f0 = Flow::AwaitInsert;
    let o1 = outcomes.drop_first();
    let o2 = o1.drop_first();
    assert(o1[0] == outcomes[1]);
    let f1 = next(f0, outcomes[0]).0;
    let f2 = next(f1, o1[0]).0;
    let reply = match fetched {
        Ok(document) => Ok(Body::Document(document)),
        Err(_) => Err(Error::DocumentNotFoundError),
    };
    assert(f1 == Flow::AwaitDocument { missing: Error::DocumentNotFoundError });
    assert(f2 is Finished);
    assert(trace(f2, o2) =~= Seq::<Action>::empty());
    assert(trace(f1, o1) =~= seq![Action::Reply(reply)]);
    assert(trace(f0, outcomes) =~= seq![
        Action::Run(Query::FetchDocument { document_id: id }),
        Action::Reply(reply),
    ]);
    assert(run(Request::CreateDocument { payload }, outcomes) =~= seq![
        Action::Run(Query::InsertDocument { payload }),
        Action::Run(Query::FetchDocument { document_id: id }),
        Action::Reply(
            match fetched {
                Ok(document) => Ok(Body::Document(document)),
                Err(_) => Err(Error::DocumentNotFoundError),
            },
        ),
    ]);
}

/// A removal never takes the last owner away from a document: when the
/// count of owners and the role of the user to be removed were both read,
/// the user is an owner and there is at most one owner, no permission is
/// deleted, and if the acting user could remove at all the request is
/// refused with `PermissionDeniedError`.
pub proof fn lemma_last_owner_is_kept(
    document_id: i32,
    target_user_id: i32,
    owners: Result<Option<i64>, DbError>,
    target: Result<Option<String>, DbError>,
    outcomes: Seq<Outcome>,
)
    requires
        outcomes.len() >= 3,
        outcomes[1] == Outcome::OwnerCount(owners),
        outcomes[2] == Outcome::Role(target),
        removal_blocked(owners, target),
    ensures
        ({
            let actions = run(
                Request::Guarded(GuardedRequest::RemovePermission { document_id, target_user_id }),
                outcomes,
            );
            &&& forall|i: int| 0 <= i < actions.len() ==> !is_guarded_write(#[trigger] actions[i])
            &&& grants_role(outcomes[0], Role::Owner) ==> actions == seq![
                Action::Run(Query::LookupRole { document_id, user_id: ACTING_USER_ID }),
                Action::Run(Query::CountOwners { document_id }),
                Action::Run(Query::LookupRole { document_id, user_id: target_user_id }),
                Action::Reply(Err(Error::PermissionDeniedError)),
            ]
        }),
{
    let request = Request::Guarded(GuardedRequest::RemovePermission { document_id, target_user_id });
    let actions = run(request, outcomes);
    let f0 = begin(request).0;
    let o1 = outcomes.drop_first();
    let o2 = o1.drop_first();
    let o3 = o2.drop_first();
    assert(o1[0] == outcomes[1]);
    assert(o2[0] == outcomes[2]);
    if grants_role(outcomes[0], Role::Owner) {
        let f1 = next(f0, outcomes[0]).0;
        let f2 = next(f1, o1[0]).0;
        let f3 = next(f2, o2[0]).0;
        assert(f1 == Flow::AwaitOwnerCount { document_id, target_user_id });
        assert(f2 == Flow::AwaitTargetRole { document_id, target_user_id, owners });
        assert(f3 is Finished);
        assert(trace(f3, o3) =~= Seq::<Action>::empty());
        assert(trace(f2, o2) =~= seq![Action::Reply(Err(Error::PermissionDeniedError))]);
        assert(trace(f1, o1) =~= seq![
            Action::Run(Query::LookupRole { document_id, user_id: target_user_id }),
            Action::Reply(Err(Error::PermissionDeniedError)),
        ]);
        assert(trace(f0, outcomes) =~= seq![
            Action::Run(Query::CountOwners { document_id }),
            Action::Run(Query::LookupRole { document_id, user_id: target_user_id }),
            Action::Reply(Err(Error::PermissionDeniedError)),
        ]);
        assert(actions =~= seq![
            Action::Run(Query::LookupRole { document_id, user_id: ACTING_USER_ID }),
            Action::Run(Query::CountOwners { document_id }),
            Action::Run(Query::LookupRole { document_id, user_id: target_user_id }),
            Action::Reply(Err(Error::PermissionDeniedError)),
        ]);
    }
    assert forall|i: int| 0 <= i < actions.len() implies !is_guarded_write(#[trigger] actions[i]) by {
        if is_guarded_write(actions[i]) {
            lemma_writes_follow_a_grant(request, outcomes, i);
        }
    }
}

} // verus!
