//! Domain records: plain data for every resource the remote service offers,
//! together with their create/update/filter variants and the few derived
//! calculations the records carry. Amounts are integer hundredths, as
//! everywhere in the library.

use vstd::prelude::*;

use crate::strutil::{dec_string, i32_to_string};

verus! {

#[derive(Debug, Clone, PartialEq)]
pub struct User {
    pub id: i32,
    pub email: String,
    pub full_name: Option<String>,
    pub is_active: bool,
    pub is_admin: bool,
}

#[derive(Debug, Clone, PartialEq)]
pub struct UserLogin {
    pub email: String,
    pub password: String,
}

#[derive(Debug, Clone, PartialEq)]
pub struct TokenResponse {
    pub access_token: String,
    pub token_type: String,
    pub user_id: i32,
    pub email: String,
}

#[derive(Debug, Clone, PartialEq)]
pub struct ChangePasswordRequest {
    pub current_password: String,
    pub new_password: String,
}

#[derive(Debug, Clone, PartialEq)]
pub struct ChangePasswordResponse {
    pub message: String,
}

#[derive(Debug, Clone, PartialEq)]
pub struct Category {
    pub id: i32,
    pub name: String,
    pub color: String,
}

#[derive(Debug, Clone, PartialEq)]
pub struct CategoryCreate {
    pub name: String,
    pub color: Option<String>,
}

#[derive(Debug, Clone, PartialEq)]
pub struct CategoryUpdate {
    pub name: String,
    pub color: Option<String>,
}

#[derive(Debug, Clone, PartialEq)]
pub struct Period {
    pub id: i32,
    pub name: String,
    pub color: String,
}

#[derive(Debug, Clone, PartialEq)]
pub struct PeriodCreate {
    pub name: String,
    pub color: Option<String>,
}

#[derive(Debug, Clone, PartialEq)]
pub struct PeriodUpdate {
    pub name: String,
    pub color: Option<String>,
}

#[derive(Debug, Clone, PartialEq)]
pub struct IncomeType {
    pub id: i32,
    pub name: String,
    pub color: String,
}

#[derive(Debug, Clone, PartialEq)]
pub struct IncomeTypeCreate {
    pub name: String,
    pub color: Option<String>,
}

#[derive(Debug, Clone, PartialEq)]
pub struct IncomeTypeUpdate {
    pub name: String,
    pub color: Option<String>,
}

#[derive(Debug, Clone, PartialEq)]
pub struct Month {
    pub id: i32,
    pub year: i32,
    /// Calendar month, 1 through 12.
    pub month: i32,
    pub name: String,
    pub start_date: String,
    pub end_date: String,
    pub is_closed: bool,
    pub closed_at: Option<String>,
    pub closed_by: Option<String>,
}

#[derive(Debug, Clone, PartialEq)]
pub struct MonthCreate {
    pub year: i32,
    pub month: i32,
}

#[derive(Debug, Clone, PartialEq)]
pub struct MonthCloseResponse {
    pub message: String,
}

/// English name of a calendar month number.
pub open spec fn month_name_spec(m: int) -> Seq<char> {
    if m == 1 {
        "January"@
    } else if m == 2 {
        "February"@
    } else if m == 3 {
        "March"@
    } else if m == 4 {
        "April"@
    } else if m == 5 {
        "May"@
    } else if m == 6 {
        "June"@
    } else if m == 7 {
        "July"@
    } else if m == 8 {
        "August"@
    } else if m == 9 {
        "September"@
    } else if m == 10 {
        "October"@
    } else if m == 11 {
        "November"@
    } else if m == 12 {
        "December"@
    } else {
        "Unknown"@
    }
}

impl Month {
    /// The month as shown to the user: its English name and its year.
    pub fn display_name(&self) -> (r: String)
        ensures
            r@ == month_name_spec(self.month as int) + seq![' '] + dec_string(self.year as int),
    {
        let name: &str = match self.month {
            1 => "January",
            2 => "February",
            3 => "March",
            4 => "April",
            5 => "May",
            6 => "June",
            7 => "July",
            8 => "August",
            9 => "September",
            10 => "October",
            11 => "November",
            12 => "December",
            _ => "Unknown",
        };
        let mut out = String::from_str(name);
        out.append(" ");
        let year = i32_to_string(self.year);
        out.append(year.as_str());
        proof {
            assert(" "@ =~= seq![' ']) by {
                reveal_strlit(" ");
            }
            assert(out@ =~= month_name_spec(self.month as int) + seq![' '] + dec_string(
                self.year as int,
            ));
        }
        out
    }
}

#[derive(Debug, Clone, PartialEq)]
pub struct Purchase {
    pub name: String,
    pub amount: i64,
    pub date: Option<String>,
}

#[derive(Debug, Clone, PartialEq)]
pub struct Expense {
    pub id: i32,
    pub expense_name: String,
    pub period: String,
    pub category: String,
    pub budget: i64,
    pub cost: i64,
    pub notes: Option<String>,
    pub month_id: i32,
    pub purchases: Option<Vec<Purchase>>,
    pub order: i32,
    pub expense_date: Option<String>,
}

#[derive(Debug, Clone, PartialEq)]
pub struct ExpenseCreate {
    pub expense_name: String,
    pub period: String,
    pub category: String,
    pub budget: i64,
    pub cost: i64,
    pub notes: Option<String>,
    pub month_id: i32,
    pub purchases: Option<Vec<Purchase>>,
    pub expense_date: Option<String>,
}

#[derive(Debug, Clone, PartialEq)]
pub struct ExpenseUpdate {
    pub expense_name: Option<String>,
    pub period: Option<String>,
    pub category: Option<String>,
    pub budget: Option<i64>,
    pub cost: Option<i64>,
    pub notes: Option<String>,
    pub month_id: Option<i32>,
    pub purchases: Option<Vec<Purchase>>,
    pub expense_date: Option<String>,
}

impl Default for ExpenseUpdate {
    /// An update that names no field at all.
    fn default() -> (r: Self)
        ensures
            r.expense_name is None,
            r.period is None,
            r.category is None,
            r.budget is None,
            r.cost is None,
            r.notes is None,
            r.month_id is None,
            r.purchases is None,
            r.expense_date is None,
    {
        ExpenseUpdate {
            expense_name: None,
            period: None,
            category: None,
            budget: None,
            cost: None,
            notes: None,
            month_id: None,
            purchases: None,
            expense_date: None,
        }
    }
}

#[derive(Debug, Clone, PartialEq)]
pub struct ExpenseFilters {
    pub period: Option<String>,
    pub category: Option<String>,
    pub month_id: Option<i32>,
}

impl Default for ExpenseFilters {
    fn default() -> (r: Self)
        ensures
            r.period is None,
            r.category is None,
            r.month_id is None,
    {
        ExpenseFilters { period: None, category: None, month_id: None }
    }
}

/// The views of a query-parameter list, pairing each key with its value.
pub open spec fn pair_views(v: Seq<(&'static str, String)>) -> Seq<(Seq<char>, Seq<char>)> {
    v.map_values(|p: (&'static str, String)| (p.0@, p.1@))
}

/// The pairs an expense filter contributes, in their fixed order.
pub open spec fn expense_filter_pairs(f: ExpenseFilters) -> Seq<(Seq<char>, Seq<char>)> {
    (match f.period {
        Some(p) => seq![("period"@, p@)],
        None => seq![],
    }) + (match f.category {
        Some(c) => seq![("category"@, c@)],
        None => seq![],
    }) + (match f.month_id {
        Some(m) => seq![("month_id"@, dec_string(m as int))],
        None => seq![],
    })
}

impl ExpenseFilters {
    /// The filter as query parameters: one pair per present field, in the
    /// order period, category, month.
    pub fn to_query_params(&self) -> (r: Vec<(&'static str, String)>)
        ensures
            pair_views(r@) == expense_filter_pairs(*self),
    {
        let mut params: Vec<(&'static str, String)> = Vec::new();
        if let Some(period) = &self.period {
            params.push(("period", period.clone()));
        }
        if let Some(category) = &self.category {
            params.push(("category", category.clone()));
        }
        if let Some(month_id) = self.month_id {
            params.push(("month_id", i32_to_string(month_id)));
        }
        proof {
            assert(pair_views(params@) =~= expense_filter_pairs(*self));
        }
        params
    }
}

#[derive(Debug, Clone, PartialEq)]
pub struct ExpenseReorderRequest {
    pub expense_ids: Vec<i32>,
}

#[derive(Debug, Clone, PartialEq)]
pub struct CloneResponse {
    pub message: String,
    pub cloned_count: i32,
    pub cloned_income_count: i32,
    pub next_month_id: i32,
    pub next_month_name: String,
}

#[derive(Debug, Clone, PartialEq)]
pub struct PayExpenseRequest {
    pub amount: Option<i64>,
}

#[derive(Debug, Clone, PartialEq)]
pub struct Income {
    pub id: i32,
    pub income_type_id: i32,
    pub period: String,
    pub budget: i64,
    pub amount: i64,
    pub month_id: i32,
    pub created_at: String,
    pub updated_at: String,
    pub created_by: Option<String>,
    pub updated_by: Option<String>,
}

#[derive(Debug, Clone, PartialEq)]
pub struct IncomeCreate {
    pub income_type_id: i32,
    pub period: String,
    pub budget: i64,
    pub amount: i64,
    pub month_id: i32,
}

#[derive(Debug, Clone, PartialEq)]
pub struct IncomeUpdate {
    pub income_type_id: Option<i32>,
    pub period: Option<String>,
    pub budget: Option<i64>,
    pub amount: Option<i64>,
    pub month_id: Option<i32>,
}

impl Default for IncomeUpdate {
    /// An update that names no field at all.
    fn default() -> (r: Self)
        ensures
            r.income_type_id is None,
            r.period is None,
            r.budget is None,
            r.amount is None,
            r.month_id is None,
    {
        IncomeUpdate { income_type_id: None, period: None, budget: None, amount: None, month_id: None }
    }
}

#[derive(Debug, Clone, PartialEq)]
pub struct IncomeFilters {
    pub period: Option<String>,
    pub income_type_id: Option<i32>,
    pub month_id: Option<i32>,
}

impl Default for IncomeFilters {
    fn default() -> (r: Self)
        ensures
            r.period is None,
            r.income_type_id is None,
            r.month_id is None,
    {
        IncomeFilters { period: None, income_type_id: None, month_id: None }
    }
}

/// The pairs an income filter contributes, in their fixed order.
pub open spec fn income_filter_pairs(f: IncomeFilters) -> Seq<(Seq<char>, Seq<char>)> {
    (match f.period {
        Some(p) => seq![("period"@, p@)],
        None => seq![],
    }) + (match f.income_type_id {
        Some(t) => seq![("income_type_id"@, dec_string(t as int))],
        None => seq![],
    }) + (match f.month_id {
        Some(m) => seq![("month_id"@, dec_string(m as int))],
        None => seq![],
    })
}

impl IncomeFilters {
    /// The filter as query parameters: one pair per present field, in the
    /// order period, income type, month.
    pub fn to_query_params(&self) -> (r: Vec<(&'static str, String)>)
        ensures
            pair_views(r@) == income_filter_pairs(*self),
    {
        let mut params: Vec<(&'static str, String)> = Vec::new();
        if let Some(period) = &self.period {
            params.push(("period", period.clone()));
        }
        if let Some(income_type_id) = self.income_type_id {
            params.push(("income_type_id", i32_to_string(income_type_id)));
        }
        if let Some(month_id) = self.month_id {
            params.push(("month_id", i32_to_string(month_id)));
        }
        proof {
            assert(pair_views(params@) =~= income_filter_pairs(*self));
        }
        params
    }
}

#[derive(Debug, Clone, PartialEq)]
pub struct SummaryTotals {
    pub total_budgeted_expenses: i64,
    pub total_current_expenses: i64,
    pub total_budgeted_income: i64,
    pub total_current_income: i64,
    pub total_budgeted: i64,
    pub total_current: i64,
}

/// A difference held inside the 64-bit range.
pub open spec fn saturating_diff(a: int, b: int) -> int {
    if a - b > i64::MAX {
        i64::MAX as int
    } else if a - b < i64::MIN {
        i64::MIN as int
    } else {
        a - b
    }
}

impl SummaryTotals {
    /// Planned balance: budgeted income less budgeted expenses.
    pub fn balance_budgeted(&self) -> (r: i64)
        ensures
            r == saturating_diff(
                self.total_budgeted_income as int,
                self.total_budgeted_expenses as int,
            ),
    {
        saturating_sub_i64(self.total_budgeted_income, self.total_budgeted_expenses)
    }

    /// Actual balance: current income less current expenses.
    pub fn balance_current(&self) -> (r: i64)
        ensures
            r == saturating_diff(
                self.total_current_income as int,
                self.total_current_expenses as int,
            ),
    {
        saturating_sub_i64(self.total_current_income, self.total_current_expenses)
    }

    /// Whether spending has passed its budget.
    pub fn expenses_over_budget(&self) -> (r: bool)
        ensures
            r == (self.total_current_expenses > self.total_budgeted_expenses),
    {
        self.total_current_expenses > self.total_budgeted_expenses
    }

    /// Whether income has fallen short of its budget.
    pub fn income_under_budget(&self) -> (r: bool)
        ensures
            r == (self.total_current_income < self.total_budgeted_income),
    {
        self.total_current_income < self.total_budgeted_income
    }
}

fn saturating_sub_i64(a: i64, b: i64) -> (r: i64)
    ensures
        r == saturating_diff(a as int, b as int),
{
    let wide: i128 = a as i128 - b as i128;
    if wide > i64::MAX as i128 {
        i64::MAX
    } else if wide < i64::MIN as i128 {
        i64::MIN
    } else {
        wide as i64
    }
}

#[derive(Debug, Clone, PartialEq)]
pub struct CategorySummary {
    pub category: String,
    pub budget: i64,
    pub total: i64,
    pub over_budget: bool,
}

#[derive(Debug, Clone, PartialEq)]
pub struct IncomeTypeSummary {
    pub income_type: String,
    pub budget: i64,
    pub total: i64,
}

#[derive(Debug, Clone, PartialEq)]
pub struct PeriodSummary {
    pub period: String,
    pub color: String,
    pub total_income: i64,
    pub total_expenses: i64,
    pub difference: i64,
}

#[derive(Debug, Clone, PartialEq)]
pub struct PeriodSummaryResponse {
    pub periods: Vec<PeriodSummary>,
    pub grand_total_income: i64,
    pub grand_total_expenses: i64,
    pub grand_total_difference: i64,
}

} // verus!
