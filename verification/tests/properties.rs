use rbac_core::access_control::AccessControl;
use rbac_core::access_manager::AccessManager;
use rbac_core::audit_log::AuditLog;
use rbac_core::cache::AccessCache;
use rbac_core::error::AccessError;
use rbac_core::multi_factor_auth::MultiFactorAuth;
use rbac_core::permission::Permission;
use rbac_core::rate_limiter::RateLimiter;
use rbac_core::resource::Resource;
use rbac_core::resource::ResourceGroup;
use rbac_core::role::Role;
use rbac_core::role::RoleDelegation;
use rbac_core::session::MultiSessionManager;
use rbac_core::session::Session;

#[test]
fn role_is_higher_or_equal_is_reflexive() {
    let solo = Role::new("auditor", None);
    assert!(solo.is_higher_or_equal(&solo));

    let parent = Role::new("admin", None);
    let child = Role::new("super_admin", Some(Box::new(parent)));
    assert!(child.is_higher_or_equal(&child));
}

#[test]
fn role_dominance_runs_up_the_chain() {
    let grandparent = Role::new("user", None);
    let parent = Role::new("admin", Some(Box::new(grandparent.clone())));
    let child = Role::new("super_admin", Some(Box::new(parent.clone())));

    assert!(child.is_higher_or_equal(&grandparent));
    assert!(child.is_higher_or_equal(&parent));
    assert!(!grandparent.is_higher_or_equal(&child));
    assert!(!parent.is_higher_or_equal(&child));
}

#[test]
fn resource_allow_list_is_exact() {
    let resource = Resource::new("report", vec!["admin".to_string()]);
    assert!(resource.is_access_allowed("admin"));
    assert!(!resource.is_access_allowed("guest"));
    assert!(!resource.is_access_allowed("Admin")); // case-sensitive
}

#[test]
fn resource_group_grants_through_any_member() {
    let a = Resource::new("inbox", vec!["reader".to_string()]);
    let b = Resource::new("outbox", vec!["writer".to_string()]);
    let group = ResourceGroup::new("mail", vec![a, b]);
    assert!(group.is_access_allowed("reader"));
    assert!(group.is_access_allowed("writer"));
    assert!(!group.is_access_allowed("admin"));

    let empty = ResourceGroup::new("void", Vec::new());
    assert!(!empty.is_access_allowed("reader"));
}

#[test]
fn rate_limiter_fixed_window() {
    let mut limiter = RateLimiter::new_at(5, 60, 1000);
    for _ in 0..5 {
        assert!(limiter.is_within_limit_at(1000));
    }
    assert!(!limiter.is_within_limit_at(1000)); // the 6th is rejected
    assert_eq!(limiter.requests, 5);

    // the boundary is inclusive of the old window: no reset at exactly
    // start + window
    assert!(!limiter.is_within_limit_at(1060));
    assert_eq!(limiter.requests, 5);

    // strictly past the boundary the window resets and the call counts 1
    assert!(limiter.is_within_limit_at(1061));
    assert_eq!(limiter.requests, 1);
    assert_eq!(limiter.start_time, 1061);
}

#[test]
fn manager_grants_known_user_and_denies_unknown() {
    let mut manager = AccessManager::new();
    let admin_role = Role::new("admin", None);
    let resource = Resource::new("secure_file", vec!["admin".to_string()]);

    manager.add_user("bob", admin_role);
    assert!(manager.check_access("bob", &resource));
    assert!(!manager.check_access("eve", &resource));
}

#[test]
fn exhausted_rate_limiter_dominates_roles() {
    let mut manager = AccessManager {
        users: Vec::new(),
        rate_limiter: RateLimiter::new_at(1, 60, 0),
    };
    let admin_role = Role::new("admin", None);
    let resource = Resource::new("secure_file", vec!["admin".to_string()]);
    manager.add_user("bob", admin_role);

    assert!(manager.check_access_at("bob", &resource, 10));
    // the single budget slot is spent: bob still holds a granting role but
    // the admission gate now denies him
    assert!(!manager.check_access_at("bob", &resource, 20));
    // an unknown user consumes no budget and is denied as well
    assert!(!manager.check_access_at("eve", &resource, 20));
}

#[test]
fn add_role_to_user_mutates_first_entry_only() {
    let mut manager = AccessManager::new();
    manager.add_user("bob", Role::new("guest", None));
    manager.add_role_to_user("bob", Role::new("editor", None));
    assert!(manager.users[0].1.has_role("guest"));
    assert!(manager.users[0].1.has_role("editor"));

    // unknown user: a silent no-op
    manager.add_role_to_user("mallory", Role::new("admin", None));
    assert_eq!(manager.users.len(), 1);
    assert!(!manager.users[0].1.has_role("admin"));
}

#[test]
fn duplicate_user_entry_is_dead_state() {
    let mut manager = AccessManager::new();
    let resource = Resource::new("secure_file", vec!["admin".to_string()]);
    manager.add_user("bob", Role::new("guest", None));
    manager.add_user("bob", Role::new("admin", None));
    // lookups only ever see the first entry, so the admin role of the
    // second entry never grants anything
    assert!(!manager.check_access_at("bob", &resource, 10));
}

#[test]
fn delegation_validity_follows_expiry() {
    let role = Role::new("admin", None);
    let delegation = RoleDelegation::new("alice", "bob", role, 1000);
    assert!(delegation.is_valid_at(999));
    assert!(!delegation.is_valid_at(1000)); // strict: valid only before
    assert!(!delegation.is_valid_at(2000));

    let expired = RoleDelegation::new("alice", "bob", Role::new("admin", None), 0);
    assert!(!expired.is_valid());
    let open_ended = RoleDelegation::new("alice", "bob", Role::new("admin", None), u64::MAX);
    assert!(open_ended.is_valid());
}

#[test]
fn queries_are_idempotent() {
    let mut control = AccessControl::new();
    control.add_role(Role::new("admin", None));
    let resource = Resource::new("secure_file", vec!["admin".to_string()]);

    assert_eq!(control.has_access(&resource), control.has_access(&resource));
    assert_eq!(control.has_role("admin"), control.has_role("admin"));
    assert_eq!(
        resource.is_access_allowed("admin"),
        resource.is_access_allowed("admin")
    );

    let permission = Permission {
        name: "read".to_string(),
        resource: "file".to_string(),
        condition: Some("daytime".to_string()),
    };
    assert_eq!(
        permission.is_granted(Some("daytime".to_string())),
        permission.is_granted(Some("daytime".to_string()))
    );
}

#[test]
fn empty_role_list_grants_nothing() {
    let control = AccessControl::new();
    let resource = Resource::new("anything", vec!["admin".to_string()]);
    assert!(!control.has_access(&resource));
    assert!(!control.has_role("admin"));
}

#[test]
fn permission_condition_gates_grant() {
    let unconditional = Permission {
        name: "read".to_string(),
        resource: "file".to_string(),
        condition: None,
    };
    assert!(unconditional.is_granted(None));
    assert!(unconditional.is_granted(Some("anything".to_string())));

    let conditional = Permission {
        name: "write".to_string(),
        resource: "file".to_string(),
        condition: Some("office_hours".to_string()),
    };
    assert!(conditional.is_granted(Some("office_hours".to_string())));
    assert!(!conditional.is_granted(Some("weekend".to_string())));
    assert!(!conditional.is_granted(Some("Office_Hours".to_string())));
    assert!(!conditional.is_granted(None));
}

#[test]
fn cache_stores_and_overwrites_decisions() {
    let mut cache = AccessCache::new();
    assert_eq!(cache.check_cache("bob:file"), None);

    cache.add_to_cache("bob:file", true);
    assert_eq!(cache.check_cache("bob:file"), Some(true));

    cache.add_to_cache("eve:file", false);
    assert_eq!(cache.check_cache("eve:file"), Some(false));
    assert_eq!(cache.check_cache("bob:file"), Some(true));

    cache.add_to_cache("bob:file", false);
    assert_eq!(cache.check_cache("bob:file"), Some(false));
    assert_eq!(cache.check_cache("eve:file"), Some(false));
}

#[test]
fn session_manager_removes_by_token_and_user() {
    let mut manager = MultiSessionManager::new();
    manager.add_session(Session::new("alice", "tok_a1", 1000));
    manager.add_session(Session::new("alice", "tok_a2", 1000));
    manager.add_session(Session::new("bob", "tok_b1", 1000));
    assert_eq!(manager.sessions.len(), 3);

    manager.end_session("tok_a1");
    assert_eq!(manager.sessions.len(), 2);
    assert_eq!(manager.sessions[0].session_token, "tok_a2");
    assert_eq!(manager.sessions[1].session_token, "tok_b1");

    manager.end_all_sessions("alice");
    assert_eq!(manager.sessions.len(), 1);
    assert_eq!(manager.sessions[0].user, "bob");

    manager.end_all_sessions("nobody");
    assert_eq!(manager.sessions.len(), 1);
}

#[test]
fn session_validity_follows_expiry() {
    let session = Session::new("alice", "tok", 500);
    assert!(session.is_session_valid_at(499));
    assert!(!session.is_session_valid_at(500));
    assert!(!session.is_session_valid_at(501));

    let expired = Session::new("alice", "tok", 0);
    assert!(!expired.is_session_valid());
    let open_ended = Session::new("alice", "tok", u64::MAX);
    assert!(open_ended.is_session_valid());
}

#[test]
fn second_factor_checks_token_and_expiry() {
    let mfa = MultiFactorAuth::new("alice", "123456", 900);
    assert!(mfa.verify_token_at("123456", 899));
    assert!(!mfa.verify_token_at("123456", 900)); // expired, right token
    assert!(!mfa.verify_token_at("654321", 899)); // valid time, wrong token

    let dead = MultiFactorAuth::new("alice", "123456", 0);
    assert!(!dead.verify_token("123456"));
    let live = MultiFactorAuth::new("alice", "123456", u64::MAX);
    assert!(!live.verify_token("654321"));
    assert!(live.verify_token("123456"));
}

#[test]
fn audit_log_records_the_decision() {
    let log = AuditLog::new_at("bob", "secure_file", "read", true, 1234, "10.0.0.7");
    assert_eq!(log.user, "bob");
    assert_eq!(log.resource, "secure_file");
    assert_eq!(log.action, "read");
    assert!(log.access_granted);
    assert_eq!(log.timestamp, 1234);
    assert_eq!(log.ip_address, "10.0.0.7");

    let denied = AuditLog::new("eve", "secure_file", "write", false, "10.0.0.9");
    assert_eq!(denied.user, "eve");
    assert!(!denied.access_granted);
}

#[test]
fn manager_defaults_to_100_per_minute() {
    let manager = AccessManager::new();
    assert_eq!(manager.rate_limiter.max_requests, 100);
    assert_eq!(manager.rate_limiter.window, 60);
    assert_eq!(manager.rate_limiter.requests, 0);
    assert!(manager.users.is_empty());
}

#[test]
fn error_messages_name_each_refusal() {
    assert_eq!(AccessError::InvalidRole.message(), "Invalid role provided");
    assert_eq!(AccessError::UserNotFound.message(), "User not found");
    assert_eq!(AccessError::AccessDenied.message(), "Access denied");
    assert_ne!(AccessError::InvalidRole, AccessError::AccessDenied);
}
