use startup_sim::software::Software;
use startup_sim::software::SoftwareError;

#[test]
fn software_lines_tests() {
    let mut software = Software::new(0, 0, 0, 0);

    software.add_lines(100);
    assert_eq!(software.lines_of_code(), 100);

    let removed = software.remove_lines(50);
    assert!(removed.is_ok());
    assert_eq!(software.lines_of_code(), 50);
}

#[test]
fn software_age_tests() {
    let mut software = Software::new(0, 0, 0, 0);

    software.add_age(100);
    assert_eq!(software.age_of_code(), 100);
}

#[test]
fn software_complexity_tests() {
    let mut software = Software::new(0, 0, 0, 0);

    software.add_complexity(100);
    assert_eq!(software.complexity_of_code(), 100);

    let removed = software.remove_complexity(50);
    assert!(removed.is_ok());
    assert_eq!(software.complexity_of_code(), 50);
}

#[test]
fn software_customers_tests() {
    let mut software = Software::new(0, 0, 0, 0);

    software.add_customers(20, false);
    assert_eq!(software.customers(), 20);
}

#[test]
fn consumer_sale_adds_users_one_for_one() {
    let mut software = Software::new(0, 0, 0, 0);

    software.add_customers(20, false);
    assert_eq!(software.customers(), 20);
    assert_eq!(software.active_users, 20);
}

#[test]
fn business_sale_bounds_user_growth() {
    let mut software = Software::new(0, 0, 0, 0);

    software.add_customers(100, true);
    assert_eq!(software.customers(), 100);
    assert!(software.active_users <= 2000);
}

#[test]
fn remove_lines_past_zero_is_a_fault() {
    let mut software = Software::new(10, 0, 0, 0);

    let removed = software.remove_lines(11);
    assert_eq!(removed, Err(SoftwareError::InvariantViolation));
    assert_eq!(software.lines_of_code(), 10);
}

#[test]
fn remove_complexity_past_zero_is_a_fault() {
    let mut software = Software::new(0, 0, 7, 0);

    let removed = software.remove_complexity(8);
    assert_eq!(removed, Err(SoftwareError::InvariantViolation));
    assert_eq!(software.complexity_of_code(), 7);
}

#[test]
fn remove_up_to_the_customer_count_wipes_the_account() {
    let mut software = Software::new(0, 0, 0, 0);

    software.add_customers(20, false);
    let removed = software.remove_customers(5);
    assert!(removed.is_ok());
    assert_eq!(software.customers(), 0);
    assert_eq!(software.active_users, 0);
}

#[test]
fn remove_from_an_empty_account_divides_by_zero() {
    let mut software = Software::new(0, 0, 0, 0);

    let removed = software.remove_customers(7);
    assert_eq!(removed, Err(SoftwareError::DivisionByZero));
    assert_eq!(software.customers(), 0);
}

#[test]
fn remove_more_than_the_customer_count_is_a_fault() {
    let mut software = Software::new(0, 0, 0, 0);

    software.add_customers(10, false);
    let removed = software.remove_customers(25);
    assert_eq!(removed, Err(SoftwareError::InvariantViolation));
    assert_eq!(software.customers(), 10);
    assert_eq!(software.active_users, 10);
}

#[test]
fn remove_with_a_vanishing_reduction_ratio_divides_by_zero() {
    let mut software = Software::new(0, 0, 0, 0);
    software.customers = 10;

    let removed = software.remove_customers(25);
    assert_eq!(removed, Err(SoftwareError::DivisionByZero));
    assert_eq!(software.customers(), 10);
    assert_eq!(software.active_users, 0);
}

#[test]
fn work_on_features_follows_the_line_formula() {
    let mut software = Software::new(0, 0, 0, 0);

    software.work_on_features(2, 50, 3);
    assert_eq!(software.lines_of_code(), 750);
    assert_eq!(software.complexity_of_code(), 50);
}

#[test]
fn work_on_features_resets_complexity() {
    let mut software = Software::new(0, 0, 99, 0);

    software.work_on_features(0, 0, 0);
    assert_eq!(software.lines_of_code(), 0);
    assert_eq!(software.complexity_of_code(), 50);
}

#[test]
fn the_line_counter_works_at_its_limit() {
    let mut software = Software::new(0, 0, 0, 0);

    software.add_lines(u32::MAX);
    assert_eq!(software.lines_of_code(), u32::MAX);

    let removed = software.remove_lines(u32::MAX);
    assert!(removed.is_ok());
    assert_eq!(software.lines_of_code(), 0);
}

#[test]
fn refactor_and_bug_fix_change_nothing() {
    let mut software = Software::new(11, 22, 33, 44);

    software.refactor();
    software.bug_fix();
    assert_eq!(software.lines_of_code(), 11);
    assert_eq!(software.age_of_code(), 22);
    assert_eq!(software.complexity_of_code(), 33);
    assert_eq!(software.cost_of_service(), 44);
}
