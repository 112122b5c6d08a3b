use vstd::prelude::*;
use crate::error::{DbError, Error};
use crate::flow::{
    accepts, begin, is_guarded_write, lemma_writes_follow_a_grant, next, run, trace, Action, Body,
    Flow, GuardedRequest, Outcome, Query, Request, ACTING_USER_ID,
};
use crate::model::{
    CreateDocumentPayload, CreatePermissionPayload, Document, DocumentUser, UpdateDocumentPayload,
    UpdatePermissionPayload,
};
use crate::permission::{lemma_role_names_differ, lemma_who_may_change};

verus! {

/// The document that a query reads or changes; a document still to be
/// stored has none.
pub open spec fn query_document(query: Query) -> Option<i32> {
    match query {
        Query::FetchDocument { document_id } => Some(document_id),
        Query::InsertDocument { .. } => None,
        Query::LookupRole { document_id, .. } => Some(document_id),
        Query::UpdateDocument { document_id, .. } => Some(document_id),
        Query::DeleteDocument { document_id } => Some(document_id),
        Query::UpsertPermission { document_id, .. } => Some(document_id),
        Query::ListDocumentUsers { document_id } => Some(document_id),
        Query::UpdatePermission { document_id, .. } => Some(document_id),
        Query::CountOwners { document_id } => Some(document_id),
        Query::DeletePermission { document_id, .. } => Some(document_id),
    }
}

/// The document id that a guarded request carries in its path.
pub open spec fn path_document(request: GuardedRequest) -> i32 {
    match request {
        GuardedRequest::UpdateDocument { document_id, .. } => document_id,
        GuardedRequest::DeleteDocument { document_id } => document_id,
        GuardedRequest::GrantPermission { document_id, .. } => document_id,
        GuardedRequest::ListDocumentUsers { document_id } => document_id,
        GuardedRequest::UpdatePermission { document_id, .. } => document_id,
        GuardedRequest::RemovePermission { document_id, .. } => document_id,
    }
}

/// A finished flow takes no more actions.
proof fn lemma_finished_is_silent(outcomes: Seq<Outcome>)
    ensures
        trace(Flow::Finished, outcomes) == Seq::<Action>::empty(),
{
    assert(trace(Flow::Finished, outcomes) =~= Seq::<Action>::empty());
}

/// A run that ends after its first answer.
proof fn lemma_run_of_one(request: Request, outcomes: Seq<Outcome>)
    requires
        outcomes.len() >= 1,
        accepts(begin(request).0, outcomes[0]),
        next(begin(request).0, outcomes[0]).0 is Finished,
    ensures
        run(request, outcomes) == seq![begin(request).1, next(begin(request).0, outcomes[0]).1],
{
    let f1 = next(begin(request).0, outcomes[0]).0;
    lemma_finished_is_silent(outcomes.drop_first());
    assert(trace(begin(request).0, outcomes) =~= seq![next(begin(request).0, outcomes[0]).1]);
    assert(run(request, outcomes) =~= seq![
        begin(request).1,
        next(begin(request).0, outcomes[0]).1,
    ]);
}

/// A run that ends after its second answer.
proof fn lemma_run_of_two(request: Request, outcomes: Seq<Outcome>)
    requires
        outcomes.len() >= 2,
        accepts(begin(request).0, outcomes[0]),
        accepts(next(begin(request).0, outcomes[0]).0, outcomes[1]),
        next(next(begin(request).0, outcomes[0]).0, outcomes[1]).0 is Finished,
    ensures
        run(request, outcomes) == seq![
            begin(request).1,
            next(begin(request).0, outcomes[0]).1,
            next(next(begin(request).0, outcomes[0]).0, outcomes[1]).1,
        ],
{
    let f0 = begin(request).0;
    let f1 = next(f0, outcomes[0]).0;
    let o1 = outcomes.drop_first();
    assert(o1[0] == outcomes[1]);
    lemma_finished_is_silent(o1.drop_first());
    assert(trace(f1, o1) =~= seq![next(f1, outcomes[1]).1]);
    assert(trace(f0, outcomes) =~= seq![next(f0, outcomes[0]).1, next(f1, outcomes[1]).1]);
    assert(run(request, outcomes) =~= seq![
        begin(request).1,
        next(f0, outcomes[0]).1,
        next(f1, outcomes[1]).1,
    ]);
}

/// A run that ends after its fourth answer.
proof fn lemma_run_of_four(request: Request, outcomes: Seq<Outcome>)
    requires
        outcomes.len() >= 4,
        accepts(begin(request).0, outcomes[0]),
        accepts(next(begin(request).0, outcomes[0]).0, outcomes[1]),
        accepts(next(next(begin(request).0, outcomes[0]).0, outcomes[1]).0, outcomes[2]),
        accepts(
            next(next(next(begin(request).0, outcomes[0]).0, outcomes[1]).0, outcomes[2]).0,
            outcomes[3],
        ),
        next(
            next(next(next(begin(request).0, outcomes[0]).0, outcomes[1]).0, outcomes[2]).0,
            outcomes[3],
        ).0 is Finished,
    ensures
        run(request, outcomes) == seq![
            begin(request).1,
            next(begin(request).0, outcomes[0]).1,
            next(next(begin(request).0, outcomes[0]).0, outcomes[1]).1,
            next(next(next(begin(request).0, outcomes[0]).0, outcomes[1]).0, outcomes[2]).1,
            next(
                next(next(next(begin(request).0, outcomes[0]).0, outcomes[1]).0, outcomes[2]).0,
                outcomes[3],
            ).1,
        ],
{
    let f0 = begin(request).0;
    let f1 = next(f0, outcomes[0]).0;
    let f2 = next(f1, outcomes[1]).0;
    let f3 = next(f2, outcomes[2]).0;
    let o1 = outcomes.drop_first();
    let o2 = o1.drop_first();
    let o3 = o2.drop_first();
    assert(o1[0] == outcomes[1]);
    assert(o2[0] == outcomes[2]);
    assert(o3[0] == outcomes[3]);
    lemma_finished_is_silent(o3.drop_first());
    assert(trace(f3, o3) =~= seq![next(f3, outcomes[3]).1]);
    assert(trace(f2, o2) =~= seq![next(f2, outcomes[2]).1, next(f3, outcomes[3]).1]);
    assert(trace(f1, o1) =~= seq![
        next(f1, outcomes[1]).1,
        next(f2, outcomes[2]).1,
        next(f3, outcomes[3]).1,
    ]);
    assert(trace(f0, outcomes) =~= seq![
        next(f0, outcomes[0]).1,
        next(f1, outcomes[1]).1,
        next(f2, outcomes[2]).1,
        next(f3, outcomes[3]).1,
    ]);
    assert(run(request, outcomes) =~= seq![
        begin(request).1,
        next(f0, outcomes[0]).1,
        next(f1, outcomes[1]).1,
        next(f2, outcomes[2]).1,
        next(f3, outcomes[3]).1,
    ]);
}

/// Getting document `document_id` reads exactly that document, and answers
/// with what was read, or with `UserNotFoundError` when it cannot be read.
pub proof fn lemma_get_document_reads_the_named_document(
    document_id: i32,
    fetched: Result<Document, DbError>,
    outcomes: Seq<Outcome>,
)
    requires
        outcomes.len() >= 1,
        outcomes[0] == Outcome::Document(fetched),
    ensures
        run(Request::GetDocument { document_id }, outcomes) == seq![
            Action::Run(Query::FetchDocument { document_id }),
            Action::Reply(
                match fetched {
                    Ok(document) => Ok(Body::Document(document)),
                    Err(_) => Err(Error::UserNotFoundError),
                },
            ),
        ],
{
    lemma_run_of_one(Request::GetDocument { document_id }, outcomes);
}

/// A document that cannot be stored is answered with `UserCreationError`,
/// and nothing is read.
pub proof fn lemma_failed_creation(
    payload: CreateDocumentPayload,
    failure: DbError,
    outcomes: Seq<Outcome>,
)
    requires
        outcomes.len() >= 1,
        outcomes[0] == Outcome::Inserted(Err(failure)),
    ensures
        run(Request::CreateDocument { payload }, outcomes) == seq![
            Action::Run(Query::InsertDocument { payload }),
            Action::Reply(Err(Error::UserCreationError)),
        ],
{
    lemma_run_of_one(Request::CreateDocument { payload }, outcomes);
}

/// Any user who holds a role on a document, whatever its name, may list the
/// document's users: the acting user's role on the document is read, then
/// the users of that same document are listed and sent back, or
/// `DocumentNotFoundError` is answered when the listing fails.
pub proof fn lemma_any_role_lists_the_users(
    document_id: i32,
    held: String,
    listed: Result<Vec<DocumentUser>, DbError>,
    outcomes: Seq<Outcome>,
)
    requires
        outcomes.len() >= 2,
        outcomes[0] == Outcome::Role(Ok(Some(held))),
        outcomes[1] == Outcome::Users(listed),
    ensures
        run(Request::Guarded(GuardedRequest::ListDocumentUsers { document_id }), outcomes) == seq![
            Action::Run(Query::LookupRole { document_id, user_id: ACTING_USER_ID }),
            Action::Run(Query::ListDocumentUsers { document_id }),
            Action::Reply(
                match listed {
                    Ok(users) => Ok(Body::Users(users)),
                    Err(_) => Err(Error::DocumentNotFoundError),
                },
            ),
        ],
{
    reveal_strlit("viewer");
    lemma_run_of_two(Request::Guarded(GuardedRequest::ListDocumentUsers { document_id }), outcomes);
}

/// An editor or an owner of a document may change it: the change sent is
/// written to that document, and the reply is `Success`, or
/// `DocumentUpdateError` when the write fails.
pub proof fn lemma_editor_updates_the_document(
    document_id: i32,
    payload: UpdateDocumentPayload,
    held: String,
    written: Result<(), DbError>,
    outcomes: Seq<Outcome>,
)
    requires
        outcomes.len() >= 2,
        outcomes[0] == Outcome::Role(Ok(Some(held))),
        held@ == "editor"@ || held@ == "owner"@,
        outcomes[1] == Outcome::Executed(written),
    ensures
        run(
            Request::Guarded(GuardedRequest::UpdateDocument { document_id, payload }),
            outcomes,
        ) == seq![
            Action::Run(Query::LookupRole { document_id, user_id: ACTING_USER_ID }),
            Action::Run(Query::UpdateDocument { document_id, payload }),
            Action::Reply(
                if written is Ok {
                    Ok(Body::Success)
                } else {
                    Err(Error::DocumentUpdateError)
                },
            ),
        ],
{
    lemma_who_may_change(held@);
    lemma_run_of_two(
        Request::Guarded(GuardedRequest::UpdateDocument { document_id, payload }),
        outcomes,
    );
}

/// An owner of a document may delete it: the document is deleted, and the
/// reply is `Success`, or `DocumentDeletionError` when the delete fails.
pub proof fn lemma_owner_deletes_the_document(
    document_id: i32,
    held: String,
    deleted: Result<(), DbError>,
    outcomes: Seq<Outcome>,
)
    requires
        outcomes.len() >= 2,
        outcomes[0] == Outcome::Role(Ok(Some(held))),
        held@ == "owner"@,
        outcomes[1] == Outcome::Executed(deleted),
    ensures
        run(Request::Guarded(GuardedRequest::DeleteDocument { document_id }), outcomes) == seq![
            Action::Run(Query::LookupRole { document_id, user_id: ACTING_USER_ID }),
            Action::Run(Query::DeleteDocument { document_id }),
            Action::Reply(
                if deleted is Ok {
                    Ok(Body::Success)
                } else {
                    Err(Error::DocumentDeletionError)
                },
            ),
        ],
{
    lemma_who_may_change(held@);
    lemma_run_of_two(Request::Guarded(GuardedRequest::DeleteDocument { document_id }), outcomes);
}

/// An owner of a document may give any user any role on it: the role sent
/// is written for the user sent, on that document, and the reply is
/// `Success`, or `PermissionError` when the write fails.
pub proof fn lemma_owner_grants_a_role(
    document_id: i32,
    payload: CreatePermissionPayload,
    held: String,
    written: Result<(), DbError>,
    outcomes: Seq<Outcome>,
)
    requires
        outcomes.len() >= 2,
        outcomes[0] == Outcome::Role(Ok(Some(held))),
        held@ == "owner"@,
        outcomes[1] == Outcome::Executed(written),
    ensures
        run(
            Request::Guarded(GuardedRequest::GrantPermission { document_id, payload }),
            outcomes,
        ) == seq![
            Action::Run(Query::LookupRole { document_id, user_id: ACTING_USER_ID }),
            Action::Run(
                Query::UpsertPermission {
                    document_id,
                    user_id: payload.user_id,
                    role: payload.role,
                },
            ),
            Action::Reply(
                if written is Ok {
                    Ok(Body::Success)
                } else {
                    Err(Error::PermissionError)
                },
            ),
        ],
{
    lemma_who_may_change(held@);
    lemma_run_of_two(
        Request::Guarded(GuardedRequest::GrantPermission { document_id, payload }),
        outcomes,
    );
}

/// An owner of a document may change any user's role on it: the role sent
/// is written for the user sent, on that document, and the reply is
/// `PermissionUpdated`, or `PermissionError` when the write fails.
pub proof fn lemma_owner_changes_a_role(
    document_id: i32,
    payload: UpdatePermissionPayload,
    held: String,
    written: Result<(), DbError>,
    outcomes: Seq<Outcome>,
)
    requires
        outcomes.len() >= 2,
        outcomes[0] == Outcome::Role(Ok(Some(held))),
        held@ == "owner"@,
        outcomes[1] == Outcome::Executed(written),
    ensures
        run(
            Request::Guarded(GuardedRequest::UpdatePermission { document_id, payload }),
            outcomes,
        ) == seq![
            Action::Run(Query::LookupRole { document_id, user_id: ACTING_USER_ID }),
            Action::Run(
                Query::UpdatePermission {
                    document_id,
                    user_id: payload.user_id,
                    role: payload.role,
                },
            ),
            Action::Reply(
                if written is Ok {
                    Ok(Body::PermissionUpdated)
                } else {
                    Err(Error::PermissionError)
                },
            ),
        ],
{
    lemma_who_may_change(held@);
    lemma_run_of_two(
        Request::Guarded(GuardedRequest::UpdatePermission { document_id, payload }),
        outcomes,
    );
}

/// Who may change what: a document is changed only when the acting user's
/// role on it was read first and is "editor" or "owner"; a document is
/// deleted, or a role on it given, changed or taken away, only when that
/// role is "owner" — whatever document, user or role the request names.
pub proof fn lemma_who_may_write(request: Request, outcomes: Seq<Outcome>, i: int)
    requires
        0 <= i < run(request, outcomes).len(),
        is_guarded_write(run(request, outcomes)[i]),
    ensures
        request is Guarded,
        outcomes.len() > 0,
        outcomes[0] is Role,
        outcomes[0]->Role_0 is Ok,
        outcomes[0]->Role_0->Ok_0 is Some,
        request->Guarded_0 is UpdateDocument ==> (outcomes[0]->Role_0->Ok_0->Some_0@ == "editor"@
            || outcomes[0]->Role_0->Ok_0->Some_0@ == "owner"@),
        !(request->Guarded_0 is UpdateDocument) ==> outcomes[0]->Role_0->Ok_0->Some_0@
            == "owner"@,
{
    lemma_writes_follow_a_grant(request, outcomes, i);
    let held = outcomes[0]->Role_0->Ok_0->Some_0;
    lemma_who_may_change(held@);
    lemma_role_names_differ();
    reveal_strlit("viewer");
    if request->Guarded_0 is ListDocumentUsers {
        let flow = begin(request).0;
        let after = next(flow, outcomes[0]).0;
        let rest = outcomes.drop_first();
        assert(after is AwaitUsers);
        assert(i != 0);
        assert(trace(flow, outcomes)[i - 1] == run(request, outcomes)[i]);
        if i > 1 {
            assert(trace(after, rest)[i - 2] == run(request, outcomes)[i]);
            let after2 = next(after, rest[0]).0;
            assert(after2 is Finished);
            if i > 2 {
                lemma_finished_is_silent(rest.drop_first());
                assert(trace(after2, rest.drop_first())[i - 3] == run(request, outcomes)[i]);
            }
        }
    }
}

/// A user without a role on a document is refused before anything else is
/// read or changed: with `PermissionError` when giving a role or listing
/// the users, with `PermissionDeniedError` for every other guarded request.
pub proof fn lemma_user_without_role_is_refused(guarded: GuardedRequest, outcomes: Seq<Outcome>)
    requires
        outcomes.len() >= 1,
        outcomes[0] == Outcome::Role(Ok(None)),
    ensures
        run(Request::Guarded(guarded), outcomes) == seq![
            Action::Run(
                Query::LookupRole { document_id: path_document(guarded), user_id: ACTING_USER_ID },
            ),
            Action::Reply(
                Err(
                    if guarded is GrantPermission || guarded is ListDocumentUsers {
                        Error::PermissionError
                    } else {
                        Error::PermissionDeniedError
                    },
                ),
            ),
        ],
{
    lemma_run_of_one(Request::Guarded(guarded), outcomes);
}

/// A removal goes ahead — the user's role on the document is deleted — when
/// the acting user is an owner and the user to be removed is not the last
/// owner: their role is not "owner" (or they hold none), more than one
/// owner is counted, or either lookup failed. The reply is
/// `PermissionRemoved`, or `PermissionError` when the delete fails.
pub proof fn lemma_removal_goes_ahead(
    document_id: i32,
    target_user_id: i32,
    held: String,
    owners: Result<Option<i64>, DbError>,
    target: Result<Option<String>, DbError>,
    deleted: Result<(), DbError>,
    outcomes: Seq<Outcome>,
)
    requires
        outcomes.len() >= 4,
        outcomes[0] == Outcome::Role(Ok(Some(held))),
        held@ == "owner"@,
        outcomes[1] == Outcome::OwnerCount(owners),
        outcomes[2] == Outcome::Role(target),
        outcomes[3] == Outcome::Executed(deleted),
        !(target is Ok && target->Ok_0 is Some && target->Ok_0->Some_0@ == "owner"@) || owners is Err
            || (owners->Ok_0 is Some && owners->Ok_0->Some_0 > 1),
    ensures
        run(
            Request::Guarded(GuardedRequest::RemovePermission { document_id, target_user_id }),
            outcomes,
        ) == seq![
            Action::Run(Query::LookupRole { document_id, user_id: ACTING_USER_ID }),
            Action::Run(Query::CountOwners { document_id }),
            Action::Run(Query::LookupRole { document_id, user_id: target_user_id }),
            Action::Run(Query::DeletePermission { document_id, user_id: target_user_id }),
            Action::Reply(
                if deleted is Ok {
                    Ok(Body::PermissionRemoved)
                } else {
                    Err(Error::PermissionError)
                },
            ),
        ],
{
    lemma_who_may_change(held@);
    lemma_run_of_four(
        Request::Guarded(GuardedRequest::RemovePermission { document_id, target_user_id }),
        outcomes,
    );
}

/// The sole owner of a document is never removed: when the acting user is
/// an owner, the count of owners reads at most one (or nothing), and the
/// user to be removed holds "owner", nothing is deleted and the removal is
/// refused with `PermissionDeniedError`.
pub proof fn lemma_sole_owner_stays(
    document_id: i32,
    target_user_id: i32,
    held: String,
    count: Option<i64>,
    target_role: String,
    outcomes: Seq<Outcome>,
)
    requires
        outcomes.len() >= 3,
        outcomes[0] == Outcome::Role(Ok(Some(held))),
        held@ == "owner"@,
        outcomes[1] == Outcome::OwnerCount(Ok(count)),
        count is Some ==> count->Some_0 <= 1,
        outcomes[2] == Outcome::Role(Ok(Some(target_role))),
        target_role@ == "owner"@,
    ensures
        run(
            Request::Guarded(GuardedRequest::RemovePermission { document_id, target_user_id }),
            outcomes,
        ) == seq![
            Action::Run(Query::LookupRole { document_id, user_id: ACTING_USER_ID }),
            Action::Run(Query::CountOwners { document_id }),
            Action::Run(Query::LookupRole { document_id, user_id: target_user_id }),
            Action::Reply(Err(Error::PermissionDeniedError)),
        ],
{
    let request = Request::Guarded(GuardedRequest::RemovePermission { document_id, target_user_id });
    lemma_who_may_change(held@);
    let f0 = begin(request).0;
    let f1 = next(f0, outcomes[0]).0;
    let f2 = next(f1, outcomes[1]).0;
    let f3 = next(f2, outcomes[2]).0;
    let o1 = outcomes.drop_first();
    let o2 = o1.drop_first();
    let o3 = o2.drop_first();
    assert(o1[0] == outcomes[1]);
    assert(o2[0] == outcomes[2]);
    assert(f3 is Finished);
    lemma_finished_is_silent(o3);
    assert(trace(f2, o2) =~= seq![next(f2, outcomes[2]).1]);
    assert(trace(f1, o1) =~= seq![next(f1, outcomes[1]).1, next(f2, outcomes[2]).1]);
    assert(trace(f0, outcomes) =~= seq![
        next(f0, outcomes[0]).1,
        next(f1, outcomes[1]).1,
        next(f2, outcomes[2]).1,
    ]);
    assert(run(request, outcomes) =~= seq![
        begin(request).1,
        next(f0, outcomes[0]).1,
        next(f1, outcomes[1]).1,
        next(f2, outcomes[2]).1,
    ]);
}

/// From a flow waiting on a write, a listing, a removal's lookups, or
/// nothing, every query issued is about document `d` (or no query is
/// issued at all).
proof fn lemma_later_queries_name(flow: Flow, d: i32, outcomes: Seq<Outcome>, i: int)
    requires
        flow is AwaitWrite || flow is AwaitUsers || flow is Finished || (flow is AwaitOwnerCount
            && flow->AwaitOwnerCount_document_id == d) || (flow is AwaitTargetRole
            && flow->AwaitTargetRole_document_id == d),
        0 <= i < trace(flow, outcomes).len(),
        trace(flow, outcomes)[i] is Run,
    ensures
        query_document(trace(flow, outcomes)[i]->Run_0) == Some(d),
    decreases outcomes.len(),
{
    if i > 0 {
        let after = next(flow, outcomes[0]).0;
        let rest = outcomes.drop_first();
        assert(trace(after, rest)[i - 1] == trace(flow, outcomes)[i]);
        lemma_later_queries_name(after, d, rest, i - 1);
    }
}

/// Every query that a guarded request issues is about the document that
/// the request names.
pub proof fn lemma_guarded_queries_name_the_document(
    guarded: GuardedRequest,
    outcomes: Seq<Outcome>,
    i: int,
)
    requires
        0 <= i < run(Request::Guarded(guarded), outcomes).len(),
        run(Request::Guarded(guarded), outcomes)[i] is Run,
    ensures
        query_document(run(Request::Guarded(guarded), outcomes)[i]->Run_0) == Some(
            path_document(guarded),
        ),
{
    let request = Request::Guarded(guarded);
    let d = path_document(guarded);
    if i > 0 {
        let flow = begin(request).0;
        let t = trace(flow, outcomes);
        assert(t[i - 1] == run(request, outcomes)[i]);
        let after = next(flow, outcomes[0]).0;
        let rest = outcomes.drop_first();
        if i > 1 {
            assert(trace(after, rest)[i - 2] == t[i - 1]);
            lemma_later_queries_name(after, d, rest, i - 2);
        }
    }
}

} // verus!
