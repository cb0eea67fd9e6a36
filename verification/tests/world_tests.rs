use startup_sim::company::Company;
use startup_sim::company::CompanyDirection;
use startup_sim::company::Employee;
use startup_sim::company::EmployeeType;
use startup_sim::software::Software;
use startup_sim::timeframe::Timeframe;
use startup_sim::world::World;

#[test]
fn world_tests() {
    let world = World::new(100, 100, 100, 100, 0);
    assert_eq!(world.game_ticks(), 0);
}

#[test]
fn time_tests() {
    let mut world = World::new(100, 100, 100, 100, 0);

    let company: Company = Company::new(100, CompanyDirection::B2B);
    let software: Software = Software::new(100, 100, 100, 100);
    world.increment_game_ticks(&company, &software, 1_000);
    assert_eq!(world.game_ticks(), 1);
}

#[test]
fn a_tick_leaves_the_collaborators_untouched() {
    let mut world = World::new(100, 100, 100, 100, 0);
    let company = Company::new(5_000, CompanyDirection::B2C);
    let software = Software::new(10, 20, 30, 40);

    world.increment_game_ticks(&company, &software, 2_500);

    assert_eq!(world.game_ticks(), 1);
    assert_eq!(world.last_tick_time(), 2_500);
    assert_eq!(company.cash_in_bank(), 5_000);
    assert_eq!(software.lines_of_code(), 10);
    assert_eq!(software.age_of_code(), 20);
    assert_eq!(software.complexity_of_code(), 30);
    assert_eq!(software.cost_of_service(), 40);
    assert_eq!(world.global_economic_factors(), 100);
    assert_eq!(world.competition_in_market(), 100);
    assert_eq!(world.job_market(), 100);
    assert_eq!(world.speed(), 100);
}

#[test]
fn repeated_ticks_count_up_one_by_one() {
    let mut world = World::new(1, 2, 3, 4, 7);
    let company = Company::new(0, CompanyDirection::B2B);
    let software = Software::new(0, 0, 0, 0);

    world.increment_game_ticks(&company, &software, 10);
    world.increment_game_ticks(&company, &software, 20);
    world.increment_game_ticks(&company, &software, 30);
    assert_eq!(world.game_ticks(), 10);
    assert_eq!(world.last_tick_time(), 30);
}

#[test]
fn the_calendar_reads_are_consistent() {
    let timeframe = Timeframe::new(100, 519);
    assert_eq!(timeframe.ticks_per_week(), 10);
    assert_eq!(timeframe.game_year_week(), 51);
    assert_eq!(timeframe.game_week(), 52);
    assert_eq!(timeframe.game_month(), 13);
    assert_eq!(timeframe.game_year(), 2000);

    let later = Timeframe::new(100, 520);
    assert_eq!(later.game_year_week(), 52);
    assert_eq!(later.game_week(), 1);
    assert_eq!(later.game_month(), 1);
    assert_eq!(later.game_year(), 2001);
}

#[test]
fn the_world_forwards_the_calendar() {
    let world = World::new(0, 0, 0, 100, 137);
    assert_eq!(world.ticks_per_week(), 10);
    assert_eq!(world.game_year_week(), 13);
    assert_eq!(world.game_week(), 14);
    assert_eq!(world.game_month(), 4);
    assert_eq!(world.game_year(), 2000);
}

#[test]
fn recording_time_is_unconditional() {
    let mut timeframe = Timeframe::new(100, 0);
    timeframe.set_current_time(9_000);
    assert_eq!(timeframe.last_tick_time(), 9_000);
    timeframe.set_current_time(4_000);
    assert_eq!(timeframe.last_tick_time(), 4_000);
    assert_eq!(timeframe.get_game_elapse_time(1_000), 3_000);
}

#[test]
fn elapsed_time_is_measured_from_the_last_tick() {
    let mut world = World::new(0, 0, 0, 50, 0);
    let company = Company::new(0, CompanyDirection::B2B);
    let software = Software::new(0, 0, 0, 0);
    world.increment_game_ticks(&company, &software, 8_000);
    assert_eq!(world.get_game_elapse_time(2_000), 6_000);
}

#[test]
fn the_company_ledger_and_direction_cycle() {
    let mut company = Company::new(100, CompanyDirection::B2B);
    company.add_cash(1_000);
    assert_eq!(company.cash_in_bank(), 1_100);
    company.remove_cash(2_000);
    assert_eq!(company.cash_in_bank(), -900);

    company.cycle_direction();
    assert_eq!(company.direction(), CompanyDirection::B2C);
    company.cycle_direction();
    assert_eq!(company.direction(), CompanyDirection::B2B);
}

#[test]
fn the_roster_keeps_hiring_order() {
    let mut company = Company::new(0, CompanyDirection::B2B);
    let dev = Employee::new(EmployeeType::Developer, 1, "Developer 1".to_string(), 50, 90, 200, 90);
    let admin = Employee::new(EmployeeType::Administrator, 2, "Admin 1".to_string(), 37, 80, 80, 65);
    company.add_employee(dev);
    company.add_employee(admin);

    let roster = company.get_employees();
    assert_eq!(roster.len(), 2);
    assert_eq!(roster[0].employee_type(), EmployeeType::Developer);
    assert_eq!(roster[1].employee_type(), EmployeeType::Administrator);
    assert_eq!(roster[0].id, 1);
    assert_eq!(roster[1].name, "Admin 1");
}

#[test]
fn development_capacity_averages_the_two_scores() {
    let company = Company::new(0, CompanyDirection::B2B);
    assert_eq!(company.get_development_capacity(100, 50), 75);
    assert_eq!(company.get_development_capacity(0, 0), 0);
}
