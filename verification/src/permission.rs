use vstd::prelude::*;
use crate::error::{DbError, Error};
use crate::text::same_text;

verus! {

/// Whether a user holding `held` on a document may act where `required` is
/// asked for. Every role may view; editors and owners may edit; only owners
/// may manage permissions. A requirement other than these three is never met.
pub open spec fn grants(required: Seq<char>, held: Seq<char>) -> bool {
    if required == "viewer"@ {
        true
    } else if required == "editor"@ {
        held == "editor"@ || held == "owner"@
    } else if required == "owner"@ {
        held == "owner"@
    } else {
        false
    }
}

/// The answer to a permission check, given what the lookup of the user's
/// role on the document gave back.
pub open spec fn permission_answer(
    lookup: Result<Option<String>, DbError>,
    required: Seq<char>,
) -> Result<bool, Error> {
    match lookup {
        Ok(Some(held)) => Ok(grants(required, held@)),
        Ok(None) => Ok(false),
        Err(_) => Err(Error::PermissionError),
    }
}

/// Executable form of `grants`.
pub fn role_grants(required_role: &str, held_role: &str) -> (r: bool)
    ensures
        r == grants(required_role@, held_role@),
{
    if same_text(required_role, "viewer") {
        true
    } else if same_text(required_role, "editor") {
        same_text(held_role, "editor") || same_text(held_role, "owner")
    } else if same_text(required_role, "owner") {
        same_text(held_role, "owner")
    } else {
        false
    }
}

/// Decides a permission check from the lookup of the user's role on the
/// document: a user without a role is refused, a failed lookup is an error.
pub fn check_document_permission(
    lookup: Result<Option<String>, DbError>,
    required_role: &str,
) -> (r: Result<bool, Error>)
    ensures
        r == permission_answer(lookup, required_role@),
{
    match lookup {
        Ok(Some(held)) => Ok(role_grants(required_role, held.as_str())),
        Ok(None) => Ok(false),
        Err(_) => Err(Error::PermissionError),
    }
}

/// Whether removing a user's role must be refused to keep a document from
/// losing its last owner: both lookups went through, the user to be removed
/// is an owner, and the document has at most one owner (a missing count is
/// taken as none). When either lookup failed the removal is not held back.
pub open spec fn removal_blocked(
    owners: Result<Option<i64>, DbError>,
    target: Result<Option<String>, DbError>,
) -> bool {
    match (owners, target) {
        (Ok(count), Ok(Some(role))) => role@ == "owner"@ && match count {
            Some(c) => c <= 1,
            None => true,
        },
        _ => false,
    }
}

/// Executable form of `removal_blocked`.
pub fn last_owner_guard(
    owners: &Result<Option<i64>, DbError>,
    target: &Result<Option<String>, DbError>,
) -> (r: bool)
    ensures
        r == removal_blocked(*owners, *target),
{
    match (owners, target) {
        (Ok(count), Ok(Some(role))) => {
            let count_or_zero: i64 = match count {
                Some(c) => *c,
                None => 0,
            };
            same_text(role.as_str(), "owner") && count_or_zero <= 1
        },
        _ => false,
    }
}

/// The three roles that a request can ask for, from least to most.
#[derive(Debug, Clone, Copy, PartialEq, Eq, Structural)]
pub enum Role {
    Viewer,
    Editor,
    Owner,
}

impl Role {
    /// The role's name as the permission table writes it.
    pub open spec fn name(self) -> Seq<char> {
        match self {
            Role::Viewer => "viewer"@,
            Role::Editor => "editor"@,
            Role::Owner => "owner"@,
        }
    }

    /// The role's place in the order viewer < editor < owner.
    pub open spec fn rank(self) -> nat {
        match self {
            Role::Viewer => 0,
            Role::Editor => 1,
            Role::Owner => 2,
        }
    }

    /// The role's name as the permission table writes it.
    pub fn as_str(&self) -> (s: &'static str)
        ensures
            s@ == self.name(),
    {
        match self {
            Role::Viewer => "viewer",
            Role::Editor => "editor",
            Role::Owner => "owner",
        }
    }
}

/// The three role names are pairwise different.
pub proof fn lemma_role_names_differ()
    ensures
        "viewer"@ != "editor"@,
        "viewer"@ != "owner"@,
        "editor"@ != "owner"@,
{
    reveal_strlit("viewer");
    reveal_strlit("editor");
    reveal_strlit("owner");
    assert("viewer"@[0] != "editor"@[0]);
    assert("viewer"@.len() != "owner"@.len());
    assert("editor"@.len() != "owner"@.len());
}

/// Roles are ordered: a held role that meets a requirement meets every lesser
/// one, so an owner may do all that an editor may, and an editor all that a
/// viewer may.
pub proof fn lemma_roles_are_ordered(lesser: Role, greater: Role, held: Seq<char>)
    requires
        lesser.rank() <= greater.rank(),
        grants(greater.name(), held),
    ensures
        grants(lesser.name(), held),
{
    lemma_role_names_differ();
}

/// An owner meets every requirement that a request can ask for, and any
/// role at all (even a name that is no role) is enough to view.
pub proof fn lemma_owner_meets_all(required: Role, held: Seq<char>)
    ensures
        grants(required.name(), "owner"@),
        grants(Role::Viewer.name(), held),
{
    reveal_strlit("viewer");
    reveal_strlit("editor");
    reveal_strlit("owner");
}

/// Only "editor" and "owner" may edit, and only "owner" may manage.
pub proof fn lemma_who_may_change(held: Seq<char>)
    ensures
        grants(Role::Editor.name(), held) <==> (held == "editor"@ || held == "owner"@),
        grants(Role::Owner.name(), held) <==> held == "owner"@,
{
    lemma_role_names_differ();
}

/// What a permission check answers, in terms of the role that the lookup
/// found: every found role may view; only "editor" or "owner" may edit;
/// only "owner" may manage; a requirement that is none of these is never
/// met; a user without a role is refused, and a failed lookup is a
/// `PermissionError`, whatever is asked.
pub proof fn lemma_permission_answers(held: String, required: Seq<char>, failure: DbError)
    ensures
        permission_answer(Ok(Some(held)), "viewer"@) == Ok::<bool, Error>(true),
        permission_answer(Ok(Some(held)), "editor"@) == Ok::<bool, Error>(
            held@ == "editor"@ || held@ == "owner"@,
        ),
        permission_answer(Ok(Some(held)), "owner"@) == Ok::<bool, Error>(held@ == "owner"@),
        required != "viewer"@ && required != "editor"@ && required != "owner"@ ==> permission_answer(
            Ok(Some(held)),
            required,
        ) == Ok::<bool, Error>(false),
        permission_answer(Ok(None), required) == Ok::<bool, Error>(false),
        permission_answer(Err(failure), required) == Err::<bool, Error>(Error::PermissionError),
{
    lemma_role_names_differ();
}

/// The removal guard holds back only the removal of a user whose role is
/// exactly "owner", and only when the count of owners was read and is at
/// most one (a missing count is taken as none). Any other role, a user
/// without a role, a count above one, or a failed lookup lets the removal
/// go ahead.
pub proof fn lemma_removal_guard(
    owners: Result<Option<i64>, DbError>,
    target: Result<Option<String>, DbError>,
)
    ensures
        removal_blocked(owners, target) <==> (owners is Ok && target is Ok && target->Ok_0 is Some
            && target->Ok_0->Some_0@ == "owner"@ && (owners->Ok_0 is Some ==> owners->Ok_0->Some_0
            <= 1)),
        target is Ok && target->Ok_0 is Some && target->Ok_0->Some_0@ != "owner"@ ==> !removal_blocked(
            owners,
            target,
        ),
        owners is Ok && owners->Ok_0 is Some && owners->Ok_0->Some_0 > 1 ==> !removal_blocked(
            owners,
            target,
        ),
        owners is Err || target is Err ==> !removal_blocked(owners, target),
{
}

} // verus!
