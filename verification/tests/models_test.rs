//! Model tests: query-parameter building, display names and summary
//! calculations. Amounts are integer hundredths throughout.

use budget_tui::models::{
    ExpenseFilters, ExpenseUpdate, IncomeFilters, IncomeUpdate, Month, SummaryTotals,
};

#[test]
fn test_expense_filters_to_query_params() {
    let filters = ExpenseFilters {
        period: Some("Monthly".to_string()),
        category: Some("Food".to_string()),
        month_id: Some(1),
    };

    let params = filters.to_query_params();
    assert_eq!(params.len(), 3);
    assert!(params.contains(&("period", "Monthly".to_string())));
    assert!(params.contains(&("category", "Food".to_string())));
    assert!(params.contains(&("month_id", "1".to_string())));
}

#[test]
fn test_expense_filters_empty() {
    let filters = ExpenseFilters::default();
    let params = filters.to_query_params();
    assert!(params.is_empty());
}

#[test]
fn test_income_filters_to_query_params() {
    let filters = IncomeFilters {
        period: Some("Monthly".to_string()),
        income_type_id: Some(2),
        month_id: Some(3),
    };

    let params = filters.to_query_params();
    assert_eq!(params.len(), 3);
    assert!(params.contains(&("period", "Monthly".to_string())));
    assert!(params.contains(&("income_type_id", "2".to_string())));
    assert!(params.contains(&("month_id", "3".to_string())));
}

#[test]
fn test_expense_update_default_names_no_field() {
    let update = ExpenseUpdate {
        expense_name: Some("Updated Name".to_string()),
        cost: Some(20000),
        ..Default::default()
    };

    assert_eq!(update.expense_name, Some("Updated Name".to_string()));
    assert_eq!(update.cost, Some(20000));
    // Fields the caller did not name stay unset.
    assert!(update.budget.is_none());
    assert!(update.period.is_none());
    assert!(update.category.is_none());
    assert!(update.month_id.is_none());
    assert!(update.purchases.is_none());
    assert!(update.expense_date.is_none());
}

#[test]
fn test_income_update_default_names_no_field() {
    let update = IncomeUpdate {
        amount: Some(520000),
        ..Default::default()
    };

    assert_eq!(update.amount, Some(520000));
    assert!(update.budget.is_none());
    assert!(update.period.is_none());
    assert!(update.income_type_id.is_none());
    assert!(update.month_id.is_none());
}

#[test]
fn test_month_display_name() {
    let m = Month {
        id: 1,
        year: 2024,
        month: 11,
        name: "November 2024".to_string(),
        start_date: "2024-11-01".to_string(),
        end_date: "2024-11-30".to_string(),
        is_closed: false,
        closed_at: None,
        closed_by: None,
    };
    assert_eq!(m.display_name(), "November 2024");

    let odd = Month { month: 13, ..m };
    assert_eq!(odd.display_name(), "Unknown 2024");
}

#[test]
fn test_summary_totals_balances() {
    let totals = SummaryTotals {
        total_budgeted_expenses: 300000,
        total_current_expenses: 350000,
        total_budgeted_income: 500000,
        total_current_income: 450000,
        total_budgeted: 200000,
        total_current: 100000,
    };
    assert_eq!(totals.balance_budgeted(), 200000);
    assert_eq!(totals.balance_current(), 100000);
    assert!(totals.expenses_over_budget());
    assert!(totals.income_under_budget());

    let even = SummaryTotals {
        total_budgeted_expenses: 100,
        total_current_expenses: 100,
        total_budgeted_income: 100,
        total_current_income: 100,
        total_budgeted: 0,
        total_current: 0,
    };
    assert_eq!(even.balance_budgeted(), 0);
    assert!(!even.expenses_over_budget());
    assert!(!even.income_under_budget());
}

#[test]
fn test_summary_totals_balance_saturates() {
    let totals = SummaryTotals {
        total_budgeted_expenses: i64::MIN,
        total_current_expenses: 0,
        total_budgeted_income: i64::MAX,
        total_current_income: 0,
        total_budgeted: 0,
        total_current: 0,
    };
    // The difference overflows the 64-bit range and is held at its edge.
    assert_eq!(totals.balance_budgeted(), i64::MAX);
}
