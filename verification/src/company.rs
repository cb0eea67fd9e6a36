//! The company collaborator, seen through the narrow interface the core
//! consumes: a cash balance, a market direction, an employee roster and
//! a derived development-capacity read. The core itself never mutates a
//! company; the driver does, in response to input.

use vstd::prelude::*;

verus! {

/// The market a company sells into.
#[derive(Debug, PartialEq, Eq, Copy, Clone, Structural)]
pub enum CompanyDirection {
    B2B,
    B2C,
}

/// The role an employee fills.
#[derive(Debug, PartialEq, Eq, Copy, Clone, Structural)]
pub enum EmployeeType {
    Developer,
    Tester,
    Administrator,
    Marketeer,
    Salesperson,
    ProductManager,
    ProductOwner,
    CEO,
    CTO,
    CMO,
    CPO,
    FinanceDirector,
    Accountant,
}

/// A member of the company's roster, type-tagged by role.
pub struct Employee {
    /// The role this employee fills.
    pub employee_type: EmployeeType,
    /// Roster identifier.
    pub id: u32,
    /// Display name.
    pub name: String,
    /// Age in years.
    pub age: u16,
    /// Skill level, nominally 0-100.
    pub skill_level: u16,
    /// Salary.
    pub salary: u16,
    /// Productivity, nominally 0-100.
    pub productivity: u16,
}

impl Employee {
    /// Builds a roster entry.
    pub fn new(
        employee_type: EmployeeType,
        id: u32,
        name: String,
        age: u16,
        skill_level: u16,
        salary: u16,
        productivity: u16,
    ) -> (r: Employee)
        ensures
            r.employee_type == employee_type,
            r.id == id,
            r.name == name,
            r.age == age,
            r.skill_level == skill_level,
            r.salary == salary,
            r.productivity == productivity,
    {
        Employee { employee_type, id, name, age, skill_level, salary, productivity }
    }

    /// The role this employee fills.
    pub fn employee_type(&self) -> (r: EmployeeType)
        ensures
            r == self.employee_type,
    {
        self.employee_type
    }
}

/// A company: cash balance, direction and roster. Borrowed read-only by
/// the core during a tick; mutated only by the driving loop.
pub struct Company {
    /// Cash balance; may go negative.
    pub cash_in_bank: i64,
    /// The market the company sells into.
    pub direction: CompanyDirection,
    /// The employee roster, in hiring order.
    pub employees: Vec<Employee>,
}

impl Company {
    /// Creates a company with the given cash balance and direction and
    /// an empty roster.
    pub fn new(cash_in_bank: i64, direction: CompanyDirection) -> (r: Company)
        ensures
            r.cash_in_bank == cash_in_bank,
            r.direction == direction,
            r.employees@ == Seq::<Employee>::empty(),
    {
        Company { cash_in_bank, direction, employees: Vec::new() }
    }

    /// The cash balance.
    pub fn cash_in_bank(&self) -> (r: i64)
        ensures
            r == self.cash_in_bank,
    {
        self.cash_in_bank
    }

    /// Adds to the cash balance.
    pub fn add_cash(&mut self, amount: u32)
        requires
            old(self).cash_in_bank + amount <= i64::MAX,
        ensures
            final(self).cash_in_bank == old(self).cash_in_bank + amount,
            final(self).direction == old(self).direction,
            final(self).employees@ == old(self).employees@,
    {
        self.cash_in_bank = self.cash_in_bank + amount as i64;
    }

    /// Subtracts from the cash balance; the balance may go negative.
    pub fn remove_cash(&mut self, amount: u32)
        requires
            old(self).cash_in_bank - amount >= i64::MIN,
        ensures
            final(self).cash_in_bank == old(self).cash_in_bank - amount,
            final(self).direction == old(self).direction,
            final(self).employees@ == old(self).employees@,
    {
        self.cash_in_bank = self.cash_in_bank - amount as i64;
    }

    /// The market the company sells into.
    pub fn direction(&self) -> (r: CompanyDirection)
        ensures
            r == self.direction,
    {
        self.direction
    }

    /// Switches the direction to the other market.
    pub fn cycle_direction(&mut self)
        ensures
            old(self).direction == CompanyDirection::B2B ==> final(self).direction
                == CompanyDirection::B2C,
            old(self).direction == CompanyDirection::B2C ==> final(self).direction
                == CompanyDirection::B2B,
            final(self).cash_in_bank == old(self).cash_in_bank,
            final(self).employees@ == old(self).employees@,
    {
        self.direction = match self.direction {
            CompanyDirection::B2B => CompanyDirection::B2C,
            CompanyDirection::B2C => CompanyDirection::B2B,
        };
    }

    /// Appends an employee to the roster.
    pub fn add_employee(&mut self, employee: Employee)
        ensures
            final(self).employees@ == old(self).employees@.push(employee),
            final(self).cash_in_bank == old(self).cash_in_bank,
            final(self).direction == old(self).direction,
    {
        self.employees.push(employee);
    }

    /// The employee roster, in hiring order.
    pub fn get_employees(&self) -> (r: &Vec<Employee>)
        ensures
            r@ == self.employees@,
    {
        &self.employees
    }

    /// Development capacity derived from the product's reliability and
    /// quality scores: their average. A pure read used for display.
    pub fn get_development_capacity(&self, reliability: u16, quality: u16) -> (r: u16)
        ensures
            r == (reliability + quality) / 2,
    {
        ((reliability as u32 + quality as u32) / 2) as u16
    }
}

} // verus!
