use axi_budget::{
    Amount, Budget, BudgetPeriod, Group, Ratio, Timestamp, Transaction, TransactionCategory,
    TransactionId, TransactionType, UserId, UserProfile,
};

fn at(seconds: i64, nanos: u32) -> Timestamp {
    Timestamp { seconds, nanos }
}

fn stamped_transaction() -> Transaction {
    Transaction::new_at(
        UserId::new("user123".to_string()),
        TransactionType::Flow,
        Amount::jpy(300),
        "Taxi".to_string(),
        TransactionCategory::Transportation,
        TransactionId::new("t-1".to_string()),
        at(100, 5),
    )
}

#[test]
fn transaction_new_at_uses_the_given_id_and_time() {
    let t = stamped_transaction();
    assert_eq!(t.transaction_id.value(), "t-1");
    assert_eq!(t.created_at, at(100, 5));
    assert_eq!(t.updated_at, at(100, 5));
    assert_eq!(t.transaction_date, at(100, 5));
    assert!(!t.affects_budget());
}

#[test]
fn transaction_update_at_stamps_even_without_changes() {
    let mut t = stamped_transaction();
    t.update_at(None, None, at(200, 0));
    assert_eq!(t.updated_at, at(200, 0));
    assert_eq!(t.description, "Taxi");
    assert_eq!(t.created_at, at(100, 5));
    t.update_at(Some("Bus".to_string()), None, at(300, 0));
    assert_eq!(t.description, "Bus");
    assert_eq!(t.updated_at, at(300, 0));
}

#[test]
fn tag_stamps_follow_the_rules() {
    let mut t = stamped_transaction();
    t.add_tag_at("work".to_string(), at(110, 0));
    assert_eq!(t.updated_at, at(110, 0));
    t.add_tag_at("work".to_string(), at(120, 0));
    assert_eq!(t.updated_at, at(110, 0));
    assert_eq!(t.tags, vec!["work".to_string()]);
    t.remove_tag_at("absent", at(130, 0));
    assert_eq!(t.updated_at, at(130, 0));
    assert_eq!(t.tags, vec!["work".to_string()]);
    t.remove_tag_at("work", at(140, 0));
    assert!(t.tags.is_empty());
    assert_eq!(t.updated_at, at(140, 0));
}

#[test]
fn profile_update_at_moves_the_time_forward() {
    let mut p = UserProfile::new_at(UserId::new("user123".to_string()), at(10, 0));
    assert_eq!(p.currency, "JPY");
    assert_eq!(p.timezone, "Asia/Tokyo");
    assert_eq!(p.created_at, at(10, 0));
    p.update_at(Some("Alice".to_string()), None, None, at(10, 1));
    assert_eq!(p.display_name, Some("Alice".to_string()));
    assert_eq!(p.currency, "JPY");
    assert!(p.updated_at > at(10, 0));
    p.update_at(None, None, None, at(11, 0));
    assert_eq!(p.updated_at, at(11, 0));
    assert_eq!(p.display_name, Some("Alice".to_string()));
}

#[test]
fn budget_new_at_uses_the_given_id_and_time() {
    let b = Budget::new_at(
        UserId::new("user123".to_string()),
        TransactionCategory::Healthcare,
        Amount::jpy(5000),
        BudgetPeriod::Yearly,
        Ratio::new(1, 2),
        "b-1".to_string(),
        at(7, 0),
    );
    assert_eq!(b.budget_id, "b-1");
    assert_eq!(b.created_at, at(7, 0));
    assert_eq!(b.updated_at, at(7, 0));
    assert!(b.should_alert(&Amount::jpy(2500)).unwrap());
}

#[test]
fn group_stamps_only_effective_changes() {
    let owner = UserId::new("U".to_string());
    let v = UserId::new("V".to_string());
    let mut g = Group::new_at("Home".to_string(), "".to_string(), owner.clone(), "g-1".to_string(), at(1, 0));
    assert_eq!(g.group_id, "g-1");
    assert_eq!(g.members, vec![owner.clone()]);
    g.add_member_at(v.clone(), at(2, 0));
    assert_eq!(g.updated_at, at(2, 0));
    g.add_member_at(v.clone(), at(3, 0));
    assert_eq!(g.updated_at, at(2, 0));
    g.remove_member_at(&owner, at(4, 0));
    assert_eq!(g.updated_at, at(2, 0));
    g.remove_member_at(&v, at(5, 0));
    assert_eq!(g.updated_at, at(5, 0));
    assert_eq!(g.members, vec![owner.clone()]);
    g.remove_member_at(&v, at(6, 0));
    assert_eq!(g.updated_at, at(5, 0));
}

#[test]
fn clock_readings_are_after_the_epoch() {
    let t = Transaction::new(
        UserId::new("user123".to_string()),
        TransactionType::Real,
        Amount::jpy(1),
        "x".to_string(),
        TransactionCategory::Other,
    );
    assert!(t.created_at.seconds > 0);
    assert!(t.created_at.nanos < 1_000_000_000);
}
