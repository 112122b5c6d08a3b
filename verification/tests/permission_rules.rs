use backend::error::{DbError, Error};
use backend::permission::{check_document_permission, last_owner_guard, role_grants, Role};

#[test]
fn viewer_requirement_is_met_by_any_role() {
    assert!(role_grants("viewer", "viewer"));
    assert!(role_grants("viewer", "editor"));
    assert!(role_grants("viewer", "owner"));
    assert!(role_grants("viewer", "somebody"));
}

#[test]
fn editor_requirement_needs_editor_or_owner() {
    assert!(!role_grants("editor", "viewer"));
    assert!(role_grants("editor", "editor"));
    assert!(role_grants("editor", "owner"));
    assert!(!role_grants("editor", "Editor"));
}

#[test]
fn owner_requirement_needs_owner() {
    assert!(!role_grants("owner", "viewer"));
    assert!(!role_grants("owner", "editor"));
    assert!(role_grants("owner", "owner"));
}

#[test]
fn unknown_requirement_is_never_met() {
    assert!(!role_grants("admin", "owner"));
    assert!(!role_grants("", ""));
}

#[test]
fn roles_are_ordered_on_examples() {
    let roles = [Role::Viewer, Role::Editor, Role::Owner];
    for held in ["viewer", "editor", "owner", "guest"] {
        for (i, lesser) in roles.iter().enumerate() {
            for greater in &roles[i..] {
                if role_grants(greater.as_str(), held) {
                    assert!(role_grants(lesser.as_str(), held));
                }
            }
        }
    }
}

#[test]
fn role_names() {
    assert_eq!(Role::Viewer.as_str(), "viewer");
    assert_eq!(Role::Editor.as_str(), "editor");
    assert_eq!(Role::Owner.as_str(), "owner");
}

#[test]
fn permission_check_with_role() {
    assert_eq!(check_document_permission(Ok(Some("editor".to_string())), "editor"), Ok(true));
    assert_eq!(check_document_permission(Ok(Some("viewer".to_string())), "editor"), Ok(false));
    assert_eq!(check_document_permission(Ok(Some("owner".to_string())), "owner"), Ok(true));
}

#[test]
fn permission_check_without_role_is_refused() {
    assert_eq!(check_document_permission(Ok(None), "viewer"), Ok(false));
}

#[test]
fn permission_check_failure_is_permission_error() {
    assert_eq!(check_document_permission(Err(DbError), "viewer"), Err(Error::PermissionError));
}

#[test]
fn last_owner_guard_blocks_only_sole_owner() {
    let owner = Ok(Some("owner".to_string()));
    assert!(last_owner_guard(&Ok(Some(1)), &owner));
    assert!(last_owner_guard(&Ok(Some(0)), &owner));
    assert!(last_owner_guard(&Ok(None), &owner));
    assert!(!last_owner_guard(&Ok(Some(2)), &owner));
    assert!(!last_owner_guard(&Ok(Some(1)), &Ok(Some("editor".to_string()))));
    assert!(!last_owner_guard(&Ok(Some(1)), &Ok(None)));
}

#[test]
fn last_owner_guard_lets_failed_lookups_through() {
    assert!(!last_owner_guard(&Err(DbError), &Ok(Some("owner".to_string()))));
    assert!(!last_owner_guard(&Ok(Some(1)), &Err(DbError)));
}
