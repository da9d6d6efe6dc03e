use monitoreo::rbac::{Permission, RbacChecker, RbacError, UserPermissions};

fn perms(role: &str, list: &[&str]) -> UserPermissions {
    UserPermissions::new(7, role.to_string(), list.iter().map(|s| s.to_string()).collect())
}

#[test]
fn permission_from_str_needs_exactly_one_colon() {
    let p = Permission::from_str("devices:read").unwrap();
    assert_eq!(p.resource, "devices");
    assert_eq!(p.action, "read");
    assert!(Permission::from_str("devices").is_none());
    assert!(Permission::from_str("a:b:c").is_none());
    let empty = Permission::from_str(":").unwrap();
    assert_eq!(empty.resource, "");
    assert_eq!(empty.action, "");
}

#[test]
fn permission_matches_both_parts() {
    let p = Permission::from_str("alerts:write").unwrap();
    assert!(p.matches("alerts", "write"));
    assert!(!p.matches("alerts", "read"));
    assert!(!p.matches("devices", "write"));
}

#[test]
fn has_permission_and_wildcard() {
    let u = perms("operator", &["devices:read", "devices:read", "alerts:write"]);
    assert_eq!(u.permissions.len(), 2);
    assert!(u.has_permission("devices", "read"));
    assert!(!u.has_permission("devices", "write"));
    assert!(!u.is_admin());
    let w = perms("viewer", &["*:*"]);
    assert!(w.has_permission("anything", "at_all"));
    assert!(w.is_admin());
    assert!(perms("admin", &[]).is_admin());
}

#[test]
fn checker_decisions() {
    let checker = RbacChecker::new(|id: u128| {
        if id == 1 {
            Some(UserPermissions::new(1, "admin".to_string(), Vec::new()))
        } else if id == 2 {
            Some(UserPermissions::new(2, "viewer".to_string(), vec!["sedes:read".to_string()]))
        } else {
            None
        }
    });
    assert_eq!(checker.check_permission(None, "sedes", "read"), Err(RbacError::NoUserId));
    assert_eq!(checker.check_permission(Some(9), "sedes", "read"), Err(RbacError::UserNotFound));
    assert_eq!(checker.check_permission(Some(1), "devices", "delete"), Ok(()));
    assert_eq!(checker.check_permission(Some(2), "sedes", "read"), Ok(()));
    assert_eq!(
        checker.check_permission(Some(2), "sedes", "write"),
        Err(RbacError::PermissionDenied { resource: "sedes".to_string(), action: "write".to_string() })
    );
}

#[test]
fn rbac_error_answers() {
    assert_eq!(RbacError::NoUserId.status_code(), 401);
    assert_eq!(RbacError::NoUserId.message(), "Authentication required");
    assert_eq!(RbacError::UserNotFound.status_code(), 401);
    assert_eq!(RbacError::UserNotFound.message(), "User not found");
    let d = RbacError::PermissionDenied { resource: "a".to_string(), action: "b".to_string() };
    assert_eq!(d.status_code(), 403);
    assert_eq!(d.message(), "Permission denied: a:b");
}
