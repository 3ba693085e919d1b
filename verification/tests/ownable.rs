use rbac_core::ownable::Ownable;

#[test]
fn test_initial_ownership() {
    let ownable = Ownable::new("alice");
    assert_eq!(ownable.get_owner(), "alice");
}

#[test]
fn test_transfer_ownership() {
    let mut ownable = Ownable::new("alice");
    assert_eq!(ownable.get_owner(), "alice");

    ownable.transfer_ownership("bob");
    assert_eq!(ownable.get_owner(), "bob");
}

#[test]
fn test_multiple_transfers() {
    let mut ownable = Ownable::new("alice");
    ownable.transfer_ownership("bob");
    assert_eq!(ownable.get_owner(), "bob");

    ownable.transfer_ownership("charlie");
    assert_eq!(ownable.get_owner(), "charlie");

    ownable.transfer_ownership("dave");
    assert_eq!(ownable.get_owner(), "dave");
}
