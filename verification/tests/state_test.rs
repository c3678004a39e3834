//! State management tests: screens, tab cycles, modals, month navigation,
//! filtering and messages.

use budget_tui::models::{Expense, Income, Month};
use budget_tui::state::{
    AppState, DashboardTab, EntityType, InputMode, Modal, Screen, SettingsTab,
};

fn month(id: i32, year: i32, m: i32, name: &str, start: &str, end: &str) -> Month {
    Month {
        id,
        year,
        month: m,
        name: name.to_string(),
        start_date: start.to_string(),
        end_date: end.to_string(),
        is_closed: false,
        closed_at: None,
        closed_by: None,
    }
}

#[test]
fn test_screen_enum() {
    let login = Screen::Login;
    let dashboard = Screen::Dashboard;

    assert_eq!(login, Screen::Login);
    assert_eq!(dashboard, Screen::Dashboard);
    assert_ne!(login, dashboard);
}

#[test]
fn test_dashboard_tab_all() {
    let tabs = DashboardTab::all();
    assert_eq!(tabs.len(), 5);
    assert_eq!(tabs[0], DashboardTab::Summary);
    assert_eq!(tabs[1], DashboardTab::Expenses);
    assert_eq!(tabs[2], DashboardTab::Income);
    assert_eq!(tabs[3], DashboardTab::Charts);
    assert_eq!(tabs[4], DashboardTab::Settings);
}

#[test]
fn test_dashboard_tab_as_str() {
    assert_eq!(DashboardTab::Summary.as_str(), "Summary");
    assert_eq!(DashboardTab::Expenses.as_str(), "Expenses");
    assert_eq!(DashboardTab::Income.as_str(), "Income");
    assert_eq!(DashboardTab::Charts.as_str(), "Charts");
    assert_eq!(DashboardTab::Settings.as_str(), "Settings");
}

#[test]
fn test_dashboard_tab_index() {
    assert_eq!(DashboardTab::Summary.index(), 0);
    assert_eq!(DashboardTab::Expenses.index(), 1);
    assert_eq!(DashboardTab::Income.index(), 2);
    assert_eq!(DashboardTab::Charts.index(), 3);
    assert_eq!(DashboardTab::Settings.index(), 4);
}

#[test]
fn test_dashboard_tab_from_index() {
    assert_eq!(DashboardTab::from_index(0), DashboardTab::Summary);
    assert_eq!(DashboardTab::from_index(1), DashboardTab::Expenses);
    assert_eq!(DashboardTab::from_index(2), DashboardTab::Income);
    assert_eq!(DashboardTab::from_index(3), DashboardTab::Charts);
    assert_eq!(DashboardTab::from_index(4), DashboardTab::Settings);
    // Out of bounds defaults to Summary
    assert_eq!(DashboardTab::from_index(99), DashboardTab::Summary);
}

#[test]
fn test_dashboard_tab_next() {
    assert_eq!(DashboardTab::Summary.next(), DashboardTab::Expenses);
    assert_eq!(DashboardTab::Expenses.next(), DashboardTab::Income);
    assert_eq!(DashboardTab::Income.next(), DashboardTab::Charts);
    assert_eq!(DashboardTab::Charts.next(), DashboardTab::Settings);
    // Wraps around
    assert_eq!(DashboardTab::Settings.next(), DashboardTab::Summary);
}

#[test]
fn test_dashboard_tab_previous() {
    // Wraps around
    assert_eq!(DashboardTab::Summary.previous(), DashboardTab::Settings);
    assert_eq!(DashboardTab::Expenses.previous(), DashboardTab::Summary);
    assert_eq!(DashboardTab::Income.previous(), DashboardTab::Expenses);
    assert_eq!(DashboardTab::Charts.previous(), DashboardTab::Income);
    assert_eq!(DashboardTab::Settings.previous(), DashboardTab::Charts);
}

#[test]
fn test_settings_tab_all() {
    let tabs = SettingsTab::all();
    assert_eq!(tabs.len(), 4);
    assert_eq!(tabs[0], SettingsTab::Categories);
    assert_eq!(tabs[1], SettingsTab::Periods);
    assert_eq!(tabs[2], SettingsTab::IncomeTypes);
    assert_eq!(tabs[3], SettingsTab::Password);
}

#[test]
fn test_settings_tab_as_str() {
    assert_eq!(SettingsTab::Categories.as_str(), "Categories");
    assert_eq!(SettingsTab::Periods.as_str(), "Periods");
    assert_eq!(SettingsTab::IncomeTypes.as_str(), "Income Types");
    assert_eq!(SettingsTab::Password.as_str(), "Password");
}

#[test]
fn test_settings_tab_index() {
    assert_eq!(SettingsTab::Categories.index(), 0);
    assert_eq!(SettingsTab::Periods.index(), 1);
    assert_eq!(SettingsTab::IncomeTypes.index(), 2);
    assert_eq!(SettingsTab::Password.index(), 3);
}

#[test]
fn test_settings_tab_from_index() {
    assert_eq!(SettingsTab::from_index(0), SettingsTab::Categories);
    assert_eq!(SettingsTab::from_index(1), SettingsTab::Periods);
    assert_eq!(SettingsTab::from_index(2), SettingsTab::IncomeTypes);
    assert_eq!(SettingsTab::from_index(3), SettingsTab::Password);
    // Out of bounds defaults to Categories
    assert_eq!(SettingsTab::from_index(99), SettingsTab::Categories);
}

#[test]
fn test_settings_tab_next() {
    assert_eq!(SettingsTab::Categories.next(), SettingsTab::Periods);
    assert_eq!(SettingsTab::Periods.next(), SettingsTab::IncomeTypes);
    assert_eq!(SettingsTab::IncomeTypes.next(), SettingsTab::Password);
    // Wraps around
    assert_eq!(SettingsTab::Password.next(), SettingsTab::Categories);
}

#[test]
fn test_settings_tab_previous() {
    // Wraps around
    assert_eq!(SettingsTab::Categories.previous(), SettingsTab::Password);
    assert_eq!(SettingsTab::Periods.previous(), SettingsTab::Categories);
    assert_eq!(SettingsTab::IncomeTypes.previous(), SettingsTab::Periods);
    assert_eq!(SettingsTab::Password.previous(), SettingsTab::IncomeTypes);
}

#[test]
fn test_input_mode() {
    let normal = InputMode::Normal;
    let editing = InputMode::Editing;

    assert_eq!(normal, InputMode::Normal);
    assert_eq!(editing, InputMode::Editing);
    assert_ne!(normal, editing);
}

#[test]
fn test_entity_type() {
    assert_eq!(EntityType::Expense, EntityType::Expense);
    assert_eq!(EntityType::Income, EntityType::Income);
    assert_eq!(EntityType::Category, EntityType::Category);
    assert_eq!(EntityType::Period, EntityType::Period);
    assert_eq!(EntityType::IncomeType, EntityType::IncomeType);
    assert_ne!(EntityType::Expense, EntityType::Income);
}

#[test]
fn test_modal_variants() {
    let help = Modal::Help;
    let password = Modal::PasswordForm;
    let confirm = Modal::ConfirmDelete {
        message: "Delete?".to_string(),
        id: 1,
        entity_type: EntityType::Expense,
    };

    assert_eq!(help, Modal::Help);
    assert_eq!(password, Modal::PasswordForm);

    if let Modal::ConfirmDelete {
        message,
        id,
        entity_type,
    } = confirm
    {
        assert_eq!(message, "Delete?");
        assert_eq!(id, 1);
        assert_eq!(entity_type, EntityType::Expense);
    } else {
        panic!("Expected ConfirmDelete modal");
    }
}

#[test]
fn test_app_state_default() {
    let state = AppState::default();

    assert_eq!(state.screen, Screen::Login);
    assert!(state.user.is_none());
    assert!(state.data.expenses.is_empty());
    assert!(state.data.incomes.is_empty());
    assert!(state.data.categories.is_empty());
    assert!(state.data.periods.is_empty());
    assert!(state.data.income_types.is_empty());
    assert!(state.data.months.is_empty());
    assert!(state.data.current_month.is_none());
    assert_eq!(state.ui.selected_tab, DashboardTab::Summary);
    assert_eq!(state.ui.settings_tab, SettingsTab::Categories);
    assert_eq!(state.ui.input_mode, InputMode::Normal);
    assert!(!state.ui.is_loading);
    assert!(state.ui.error_message.is_none());
    assert!(state.ui.success_message.is_none());
}

#[test]
fn test_app_state_month_navigation() {
    let mut state = AppState::default();

    // Add some months
    state.data.months = vec![
        month(1, 2024, 1, "January 2024", "2024-01-01", "2024-01-31"),
        month(2, 2024, 2, "February 2024", "2024-02-01", "2024-02-29"),
        month(3, 2024, 3, "March 2024", "2024-03-01", "2024-03-31"),
    ];

    // Initial state
    assert_eq!(state.ui.selected_month_index, 0);
    assert_eq!(state.selected_month_id(), Some(1));

    // Navigate forward
    state.next_month();
    assert_eq!(state.ui.selected_month_index, 1);
    assert_eq!(state.selected_month_id(), Some(2));

    state.next_month();
    assert_eq!(state.ui.selected_month_index, 2);
    assert_eq!(state.selected_month_id(), Some(3));

    // At the end, should not go beyond
    state.next_month();
    assert_eq!(state.ui.selected_month_index, 2);

    // Navigate backward
    state.previous_month();
    assert_eq!(state.ui.selected_month_index, 1);

    state.previous_month();
    assert_eq!(state.ui.selected_month_index, 0);

    // At the start, should not go below 0
    state.previous_month();
    assert_eq!(state.ui.selected_month_index, 0);
}

#[test]
fn test_app_state_select_current_month() {
    let mut state = AppState::default();

    state.data.months = vec![
        month(1, 2024, 1, "January 2024", "2024-01-01", "2024-01-31"),
        month(2, 2024, 2, "February 2024", "2024-02-01", "2024-02-29"),
        month(3, 2024, 3, "March 2024", "2024-03-01", "2024-03-31"),
    ];

    state.data.current_month = Some(month(2, 2024, 2, "February 2024", "2024-02-01", "2024-02-29"));

    state.select_current_month();
    assert_eq!(state.ui.selected_month_index, 1);
    assert_eq!(state.selected_month_id(), Some(2));
}

#[test]
fn test_app_state_selected_month_empty() {
    let state = AppState::default();

    assert!(state.selected_month().is_none());
    assert!(state.selected_month_id().is_none());
}

#[test]
fn test_app_state_filtered_expenses() {
    let mut state = AppState::default();

    state.data.expenses = vec![
        Expense {
            id: 1,
            expense_name: "Groceries".to_string(),
            period: "Monthly".to_string(),
            category: "Food".to_string(),
            budget: 50000,
            cost: 45000,
            notes: None,
            month_id: 1,
            purchases: None,
            order: 0,
            expense_date: None,
        },
        Expense {
            id: 2,
            expense_name: "Rent".to_string(),
            period: "Monthly".to_string(),
            category: "Housing".to_string(),
            budget: 150000,
            cost: 150000,
            notes: None,
            month_id: 1,
            purchases: None,
            order: 1,
            expense_date: None,
        },
        Expense {
            id: 3,
            expense_name: "Bus Pass".to_string(),
            period: "Weekly".to_string(),
            category: "Transport".to_string(),
            budget: 10000,
            cost: 8000,
            notes: None,
            month_id: 1,
            purchases: None,
            order: 2,
            expense_date: None,
        },
    ];

    // No filters - all expenses
    assert_eq!(state.filtered_expenses().len(), 3);

    // Filter by period
    state.ui.period_filter = Some("Monthly".to_string());
    let filtered = state.filtered_expenses();
    assert_eq!(filtered.len(), 2);
    assert!(filtered.iter().all(|e| e.period == "Monthly"));

    // Filter by category
    state.ui.period_filter = None;
    state.ui.category_filter = Some("Food".to_string());
    let filtered = state.filtered_expenses();
    assert_eq!(filtered.len(), 1);
    assert_eq!(filtered[0].expense_name, "Groceries");

    // Filter by both
    state.ui.period_filter = Some("Monthly".to_string());
    state.ui.category_filter = Some("Housing".to_string());
    let filtered = state.filtered_expenses();
    assert_eq!(filtered.len(), 1);
    assert_eq!(filtered[0].expense_name, "Rent");

    // Clearing the filters hands back the full set, in order,
    // and the cache itself was never touched.
    state.ui.period_filter = None;
    state.ui.category_filter = None;
    let filtered = state.filtered_expenses();
    assert_eq!(filtered.len(), 3);
    assert_eq!(filtered[0].id, 1);
    assert_eq!(filtered[1].id, 2);
    assert_eq!(filtered[2].id, 3);
    assert_eq!(state.data.expenses.len(), 3);
}

#[test]
fn test_app_state_filtered_incomes() {
    let mut state = AppState::default();

    state.data.incomes = vec![
        Income {
            id: 1,
            income_type_id: 1,
            period: "Monthly".to_string(),
            budget: 500000,
            amount: 480000,
            month_id: 1,
            created_at: "2024-01-01".to_string(),
            updated_at: "2024-01-01".to_string(),
            created_by: None,
            updated_by: None,
        },
        Income {
            id: 2,
            income_type_id: 2,
            period: "Weekly".to_string(),
            budget: 20000,
            amount: 20000,
            month_id: 1,
            created_at: "2024-01-01".to_string(),
            updated_at: "2024-01-01".to_string(),
            created_by: None,
            updated_by: None,
        },
    ];

    // No filters - all incomes
    assert_eq!(state.filtered_incomes().len(), 2);

    // Filter by period
    state.ui.period_filter = Some("Monthly".to_string());
    let filtered = state.filtered_incomes();
    assert_eq!(filtered.len(), 1);
    assert_eq!(filtered[0].id, 1);
}

#[test]
fn test_app_state_messages() {
    let mut state = AppState::default();

    // Set error message
    state.set_error("Something went wrong".to_string());
    assert_eq!(
        state.ui.error_message,
        Some("Something went wrong".to_string())
    );
    assert!(state.ui.success_message.is_none());

    // Set success message (clears error)
    state.set_success("Operation successful".to_string());
    assert!(state.ui.error_message.is_none());
    assert_eq!(
        state.ui.success_message,
        Some("Operation successful".to_string())
    );

    // Clear all messages
    state.clear_messages();
    assert!(state.ui.error_message.is_none());
    assert!(state.ui.success_message.is_none());
}

#[test]
fn test_select_current_month_prefers_open_future_month() {
    let mut state = AppState::default();
    let mut closed_feb = month(2, 2024, 2, "February 2024", "2024-02-01", "2024-02-29");
    closed_feb.is_closed = true;
    let mut closed_mar = month(3, 2024, 3, "March 2024", "2024-03-01", "2024-03-31");
    closed_mar.is_closed = true;
    state.data.months = vec![
        month(1, 2024, 1, "January 2024", "2024-01-01", "2024-01-31"),
        closed_feb.clone(),
        closed_mar,
        month(4, 2024, 4, "April 2024", "2024-04-01", "2024-04-30"),
    ];
    state.data.current_month = Some(closed_feb);

    // The current month is closed: the first later open month is chosen.
    state.select_current_month();
    assert_eq!(state.ui.selected_month_index, 3);
}

#[test]
fn test_set_expenses_reclamps_selection() {
    let mut state = AppState::default();
    let expense = |id: i32, name: &str| Expense {
        id,
        expense_name: name.to_string(),
        period: "Monthly".to_string(),
        category: "Food".to_string(),
        budget: 10000,
        cost: 0,
        notes: None,
        month_id: 1,
        purchases: None,
        order: 0,
        expense_date: None,
    };
    state.set_expenses(vec![expense(1, "a"), expense(2, "b"), expense(3, "c")]);
    state.ui.expense_selected = Some(2);

    // The cache shrinks to two records: the selection is pulled back to
    // the last valid position instead of pointing past the end.
    state.set_expenses(vec![expense(1, "a"), expense(2, "b")]);
    assert_eq!(state.ui.expense_selected, Some(1));

    // An empty cache drops the selection entirely.
    state.set_expenses(vec![]);
    assert_eq!(state.ui.expense_selected, None);
}

#[test]
fn test_set_month_closed_flips_only_that_month() {
    let mut state = AppState::default();
    state.data.months = vec![
        month(1, 2024, 1, "January 2024", "2024-01-01", "2024-01-31"),
        month(2, 2024, 2, "February 2024", "2024-02-01", "2024-02-29"),
    ];
    state.set_month_closed(2, true);
    assert!(!state.data.months[0].is_closed);
    assert!(state.data.months[1].is_closed);
    assert_eq!(state.data.months[1].name, "February 2024");
}
