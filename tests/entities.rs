use axi_budget::{
    Amount, Budget, BudgetPeriod, Group, Ratio, Transaction, TransactionCategory,
    TransactionType, UserId, UserProfile,
};

fn as_float(r: &Ratio) -> f64 {
    r.numerator as f64 / r.denominator as f64
}

#[test]
fn entities_test_transaction_creation() {
    let user_id = UserId::new("user123".to_string());
    let amount = Amount::jpy(1000);
    let transaction = Transaction::new(
        user_id.clone(),
        TransactionType::Real,
        amount,
        "Test transaction".to_string(),
        TransactionCategory::Food,
    );

    assert_eq!(transaction.user_id, user_id);
    assert!(transaction.affects_budget());
    assert_eq!(transaction.description, "Test transaction");
}

#[test]
fn entities_test_budget_usage_calculation() {
    let user_id = UserId::new("user123".to_string());
    let budget_amount = Amount::jpy(10000);
    let budget = Budget::new(
        user_id,
        TransactionCategory::Food,
        budget_amount,
        BudgetPeriod::Monthly,
        Ratio::new(8, 10),
    );

    let spent = Amount::jpy(8000);
    let usage = budget.calculate_usage_percentage(&spent).unwrap();
    assert_eq!(as_float(&usage), 0.8);

    assert!(budget.should_alert(&spent).unwrap());

    let low_spent = Amount::jpy(5000);
    assert!(!budget.should_alert(&low_spent).unwrap());
}

#[test]
fn test_group_creation() {
    let owner_id = UserId::new("owner123".to_string());
    let group = Group::new(
        "Test Group".to_string(),
        "A test group".to_string(),
        owner_id.clone(),
    );

    assert_eq!(group.name, "Test Group");
    assert_eq!(group.owner_id, owner_id);
    assert!(group.is_member(&owner_id));
    assert!(group.is_owner(&owner_id));
}

#[test]
fn test_group_member_management() {
    let owner_id = UserId::new("owner123".to_string());
    let member_id = UserId::new("member456".to_string());
    let mut group = Group::new(
        "Test Group".to_string(),
        "A test group".to_string(),
        owner_id.clone(),
    );

    group.add_member(member_id.clone());
    assert!(group.is_member(&member_id));
    assert!(!group.is_owner(&member_id));

    group.remove_member(&member_id);
    assert!(!group.is_member(&member_id));

    group.remove_member(&owner_id);
    assert!(group.is_member(&owner_id));
}

fn sample(kind: TransactionType) -> Transaction {
    Transaction::new(
        UserId::new("user123".to_string()),
        kind,
        Amount::jpy(1200),
        "Lunch".to_string(),
        TransactionCategory::Food,
    )
}

#[test]
fn flow_transactions_stay_out_of_the_budget() {
    assert!(sample(TransactionType::Real).affects_budget());
    assert!(!sample(TransactionType::Flow).affects_budget());
}

#[test]
fn new_transaction_starts_bare() {
    let t = sample(TransactionType::Real);
    assert!(t.tags.is_empty());
    assert!(t.settlement_info.is_none());
    assert_eq!(t.created_at, t.updated_at);
    assert_eq!(t.transaction_date, t.created_at);
    assert_eq!(t.transaction_id.value().len(), 36);
    assert_eq!(t.amount, Amount::jpy(1200));
}

#[test]
fn adding_a_tag_twice_keeps_one_copy_and_the_time() {
    let mut t = sample(TransactionType::Real);
    t.add_tag("trip".to_string());
    let after_first = t.updated_at;
    t.add_tag("trip".to_string());
    assert_eq!(t.tags, vec!["trip".to_string()]);
    assert_eq!(t.updated_at, after_first);
}

#[test]
fn removing_a_tag_keeps_the_others_in_order() {
    let mut t = sample(TransactionType::Real);
    t.add_tag("a".to_string());
    t.add_tag("b".to_string());
    t.add_tag("c".to_string());
    t.remove_tag("b");
    assert_eq!(t.tags, vec!["a".to_string(), "c".to_string()]);
    t.remove_tag("zzz");
    assert_eq!(t.tags, vec!["a".to_string(), "c".to_string()]);
}

#[test]
fn transaction_update_is_partial() {
    let mut t = sample(TransactionType::Real);
    let id = t.transaction_id.clone();
    let created = t.created_at;
    t.update(Some("Dinner".to_string()), None);
    assert_eq!(t.description, "Dinner");
    assert_eq!(t.category, TransactionCategory::Food);
    t.update(None, Some(TransactionCategory::Shopping));
    assert_eq!(t.description, "Dinner");
    assert_eq!(t.category, TransactionCategory::Shopping);
    assert_eq!(t.transaction_id, id);
    assert_eq!(t.created_at, created);
}

#[test]
fn zero_cap_budget_reports_no_usage() {
    let budget = Budget::new(
        UserId::new("user123".to_string()),
        TransactionCategory::Food,
        Amount::jpy(0),
        BudgetPeriod::Monthly,
        Ratio::new(5, 10),
    );
    let usage = budget.calculate_usage_percentage(&Amount::jpy(100)).unwrap();
    assert_eq!(usage, Ratio::new(0, 1));
    assert_eq!(as_float(&usage), 0.0);
    assert!(!budget.should_alert(&Amount::jpy(100)).unwrap());
}

#[test]
fn budget_rejects_another_currency() {
    let budget = Budget::new(
        UserId::new("user123".to_string()),
        TransactionCategory::Utilities,
        Amount::jpy(10000),
        BudgetPeriod::Yearly,
        Ratio::new(8, 10),
    );
    let usd = Amount::new(8000, "USD".to_string());
    let e = budget.calculate_usage_percentage(&usd).unwrap_err();
    assert_eq!(e.left, "JPY");
    assert_eq!(e.right, "USD");
    assert!(budget.should_alert(&usd).is_err());
}

#[test]
fn budget_usage_is_spent_over_cap() {
    let budget = Budget::new(
        UserId::new("user123".to_string()),
        TransactionCategory::Food,
        Amount::jpy(10000),
        BudgetPeriod::Monthly,
        Ratio::new(8, 10),
    );
    assert_eq!(
        budget.calculate_usage_percentage(&Amount::jpy(2500)).unwrap(),
        Ratio::new(2500, 10000)
    );
    assert!(budget.should_alert(&Amount::jpy(12000)).unwrap());
    assert!(!budget.should_alert(&Amount::jpy(7999)).unwrap());
    assert!(!budget.should_alert(&Amount::jpy(-100)).unwrap());
}

#[test]
fn ratio_comparison_handles_signs() {
    assert!(Ratio::new(8, 10).at_least(&Ratio::new(4, 5)));
    assert!(Ratio::new(-8, -10).at_least(&Ratio::new(4, 5)));
    assert!(!Ratio::new(7, 10).at_least(&Ratio::new(4, 5)));
    assert!(Ratio::new(1, -2).at_least(&Ratio::new(-1, 1)));
    assert!(!Ratio::new(1, -2).at_least(&Ratio::new(0, 1)));
    assert!(Ratio::new(i64::MAX, 1).at_least(&Ratio::new(i64::MIN, 1)));
}

#[test]
fn group_add_then_remove_restores_members() {
    let owner = UserId::new("U".to_string());
    let mut group = Group::new("Home".to_string(), "".to_string(), owner.clone());
    assert_eq!(group.members, vec![owner.clone()]);
    assert!(group.is_owner(&owner));

    group.remove_member(&owner);
    assert_eq!(group.members, vec![owner.clone()]);

    let v = UserId::new("V".to_string());
    group.add_member(v.clone());
    group.add_member(v.clone());
    assert_eq!(group.members, vec![owner.clone(), v.clone()]);
    group.remove_member(&v);
    assert_eq!(group.members, vec![owner.clone()]);
}

#[test]
fn group_no_op_calls_keep_the_time() {
    let owner = UserId::new("U".to_string());
    let mut group = Group::new("Home".to_string(), "".to_string(), owner.clone());
    let stamp = group.updated_at;
    group.remove_member(&owner);
    group.remove_member(&UserId::new("stranger".to_string()));
    group.add_member(owner.clone());
    assert_eq!(group.updated_at, stamp);
}

#[test]
fn profile_defaults_and_partial_update() {
    let mut profile = UserProfile::new(UserId::new("user123".to_string()));
    assert_eq!(profile.currency, "JPY");
    assert_eq!(profile.timezone, "Asia/Tokyo");
    assert!(profile.display_name.is_none());
    let before = profile.updated_at;

    profile.update(Some("Alice".to_string()), None, None);
    assert_eq!(profile.display_name, Some("Alice".to_string()));
    assert_eq!(profile.currency, "JPY");
    assert_eq!(profile.timezone, "Asia/Tokyo");
    assert!(profile.updated_at > before);

    profile.update(None, Some("USD".to_string()), Some("UTC".to_string()));
    assert_eq!(profile.display_name, Some("Alice".to_string()));
    assert_eq!(profile.currency, "USD");
    assert_eq!(profile.timezone, "UTC");
}
