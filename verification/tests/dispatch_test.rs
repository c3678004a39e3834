//! Dispatch tests: key routing, the closed-month guard, and the four
//! end-to-end scenarios driven through the command interface.

use budget_tui::client::ApiError;
use budget_tui::color::generate_random_color;
use budget_tui::dispatch::{App, ApiConfigField, Command, Key, LoginField};
use budget_tui::models::{Category, Expense, IncomeType, Month, Period};
use budget_tui::state::{DashboardTab, EntityType, Modal, Screen, SettingsTab};

fn new_app() -> App {
    App::new("https://example.test".to_string(), "key".to_string())
}

fn month(id: i32, closed: bool) -> Month {
    Month {
        id,
        year: 2024,
        month: id,
        name: format!("Month {}", id),
        start_date: "2024-01-01".to_string(),
        end_date: "2024-01-31".to_string(),
        is_closed: closed,
        closed_at: None,
        closed_by: None,
    }
}

fn expense(id: i32, name: &str) -> Expense {
    Expense {
        id,
        expense_name: name.to_string(),
        period: "Monthly".to_string(),
        category: "Food".to_string(),
        budget: 10000,
        cost: 0,
        notes: None,
        month_id: 1,
        purchases: None,
        order: 0,
        expense_date: None,
    }
}

#[test]
fn field_indices() {
    assert_eq!(LoginField::Email.index(), 0);
    assert_eq!(LoginField::Password.index(), 1);
    assert_eq!(LoginField::from_index(0), LoginField::Email);
    assert_eq!(LoginField::from_index(7), LoginField::Password);
    assert_eq!(LoginField::count(), 2);
    assert_eq!(ApiConfigField::ApiUrl.index(), 0);
    assert_eq!(ApiConfigField::from_index(1), ApiConfigField::ApiKey);
    assert_eq!(ApiConfigField::count(), 2);
}

#[test]
fn login_typing_and_validation() {
    let mut app = new_app();
    assert_eq!(app.state.screen, Screen::Login);

    // Enter on an empty form only shows a message.
    let cmd = app.handle_login_key(Key::Enter);
    assert_eq!(cmd, Command::Idle);
    assert_eq!(app.login_error, Some("Please enter email and password".to_string()));

    // Typing fills the focused field; Tab moves to the password.
    for c in "me@example.test".chars() {
        app.handle_login_key(Key::Char(c));
    }
    assert_eq!(app.login_email, "me@example.test");
    app.handle_login_key(Key::Tab);
    for c in "secret".chars() {
        app.handle_login_key(Key::Char(c));
    }
    assert_eq!(app.login_password, "secret");

    // Backspace edits the focused field.
    app.handle_login_key(Key::Backspace);
    assert_eq!(app.login_password, "secre");

    // Enter now submits the credentials.
    let cmd = app.handle_login_key(Key::Enter);
    match cmd {
        Command::Login { email, password } => {
            assert_eq!(email, "me@example.test");
            assert_eq!(password, "secre");
        }
        other => panic!("expected a login command, got {:?}", other),
    }
    assert!(app.state.ui.is_loading);
}

#[test]
fn login_s_reaches_api_config_only_on_untouched_form() {
    let mut app = new_app();
    app.handle_login_key(Key::Char('s'));
    assert_eq!(app.state.screen, Screen::ApiConfig);

    let mut app2 = new_app();
    app2.handle_login_key(Key::Char('x'));
    app2.handle_login_key(Key::Char('s'));
    assert_eq!(app2.state.screen, Screen::Login);
    assert_eq!(app2.login_email, "xs");
}

#[test]
fn scenario_login_rejected_stays_on_login() {
    let mut app = new_app();
    for c in "me@example.test".chars() {
        app.handle_login_key(Key::Char(c));
    }
    app.handle_login_key(Key::Tab);
    for c in "wrong-password".chars() {
        app.handle_login_key(Key::Char(c));
    }
    let cmd = app.handle_login_key(Key::Enter);
    assert!(matches!(cmd, Command::Login { .. }));

    // The remote rejects the attempt: the screen stays on the login form,
    // a message is shown, and no session is recorded.
    let cmd = app.apply_login_failure(&ApiError::Unauthorized);
    assert_eq!(cmd, Command::Idle);
    assert_eq!(app.state.screen, Screen::Login);
    assert!(app.state.user.is_none());
    let error = app.login_error.clone().unwrap();
    assert!(!error.is_empty());
    assert_eq!(error, "Login failed: Unauthorized - please login again");
    assert!(!app.state.ui.is_loading);
}

#[test]
fn quit_keys() {
    let stored_url = "https://example.test".to_string();
    let stored_key = "key".to_string();
    let mut app = new_app();
    app.handle_key_event(Key::Ctrl('c'), &stored_url, &stored_key);
    assert!(app.should_quit);

    let mut app2 = new_app();
    app2.state.screen = Screen::Dashboard;
    app2.handle_key_event(Key::Char('q'), &stored_url, &stored_key);
    assert!(app2.should_quit);
}

#[test]
fn dashboard_tab_keys() {
    let mut app = new_app();
    app.state.screen = Screen::Dashboard;

    assert_eq!(app.handle_dashboard_key(Key::Tab), Command::LoadTab);
    assert_eq!(app.state.ui.selected_tab, DashboardTab::Expenses);
    assert_eq!(app.handle_dashboard_key(Key::BackTab), Command::LoadTab);
    assert_eq!(app.state.ui.selected_tab, DashboardTab::Summary);

    assert_eq!(app.handle_dashboard_key(Key::Char('3')), Command::LoadTab);
    assert_eq!(app.state.ui.selected_tab, DashboardTab::Income);
    assert_eq!(app.handle_dashboard_key(Key::Char('5')), Command::LoadTab);
    assert_eq!(app.state.ui.selected_tab, DashboardTab::Settings);

    // Inside settings, digits pick a pane instead.
    assert_eq!(app.handle_dashboard_key(Key::Char('2')), Command::Idle);
    assert_eq!(app.state.ui.settings_tab, SettingsTab::Periods);
    assert_eq!(app.handle_dashboard_key(Key::Char('4')), Command::Idle);
    assert_eq!(app.state.ui.settings_tab, SettingsTab::Password);
}

#[test]
fn month_navigation_keys_are_clamped() {
    let mut app = new_app();
    app.state.data.months = vec![month(1, false), month(2, false)];
    assert_eq!(app.handle_dashboard_key(Key::Char('h')), Command::LoadMonth);
    assert_eq!(app.state.ui.selected_month_index, 0);
    assert_eq!(app.handle_dashboard_key(Key::Char('l')), Command::LoadMonth);
    assert_eq!(app.state.ui.selected_month_index, 1);
    assert_eq!(app.handle_dashboard_key(Key::Right), Command::LoadMonth);
    assert_eq!(app.state.ui.selected_month_index, 1);
    assert_eq!(app.handle_dashboard_key(Key::Left), Command::LoadMonth);
    assert_eq!(app.state.ui.selected_month_index, 0);
}

#[test]
fn list_selection_wraps_over_filtered_view() {
    let mut app = new_app();
    app.state.ui.selected_tab = DashboardTab::Expenses;
    app.state.set_expenses(vec![expense(1, "a"), expense(2, "b"), expense(3, "c")]);
    app.handle_dashboard_key(Key::Char('j'));
    assert_eq!(app.state.ui.expense_selected, Some(1));
    app.handle_dashboard_key(Key::Char('j'));
    app.handle_dashboard_key(Key::Char('j'));
    assert_eq!(app.state.ui.expense_selected, Some(0));
    app.handle_dashboard_key(Key::Char('k'));
    assert_eq!(app.state.ui.expense_selected, Some(2));
}

#[test]
fn closed_month_guard_blocks_record_actions() {
    let mut app = new_app();
    app.state.data.months = vec![month(1, true)];
    app.state.ui.selected_tab = DashboardTab::Expenses;
    app.state.set_expenses(vec![expense(1, "a")]);
    app.state.ui.expense_selected = Some(0);

    for key in [Key::Char('n'), Key::Char('e'), Key::Char('d'), Key::Char('p')] {
        let cmd = app.handle_dashboard_key(key);
        assert_eq!(cmd, Command::Idle);
        // No modal opens, and a message names the problem.
        assert!(app.state.ui.modal.is_none());
        let error = app.state.ui.error_message.clone().unwrap();
        assert!(!error.is_empty());
        app.state.clear_messages();
    }
}

#[test]
fn scenario_new_income_preselects_only_income_type() {
    let mut app = new_app();
    app.state.ui.selected_tab = DashboardTab::Income;
    app.state.data.months = vec![month(1, false)];

    // Start from an empty income-type cache, then one type arrives.
    assert!(app.state.data.income_types.is_empty());
    app.state.set_income_types(vec![IncomeType {
        id: 42,
        name: "Salary".to_string(),
        color: "#00ff00".to_string(),
    }]);

    app.handle_dashboard_key(Key::Char('n'));
    assert!(matches!(app.state.ui.modal, Some(Modal::IncomeForm { editing: None })));
    assert_eq!(app.income_form.income_type_id, Some(42));
}

#[test]
fn scenario_delete_reclamps_selection() {
    let mut app = new_app();
    app.state.ui.selected_tab = DashboardTab::Expenses;
    app.state.data.months = vec![month(1, false)];
    app.state.set_expenses(vec![expense(1, "a"), expense(2, "b"), expense(3, "c")]);
    app.state.ui.expense_selected = Some(2);

    // Ask to delete the selected expense and confirm.
    app.handle_dashboard_key(Key::Char('d'));
    assert!(matches!(app.state.ui.modal, Some(Modal::ConfirmDelete { id: 3, .. })));
    let cmd = app.handle_modal_key(Key::Char('y'));
    assert_eq!(cmd, Command::DeleteEntity { entity: EntityType::Expense, id: 3 });

    // The delete succeeds and the tab reloads; the server now returns two
    // expenses, so the stale selection is pulled back into range.
    let cmd = app.apply_delete_result(Ok(()));
    assert_eq!(cmd, Command::LoadTab);
    app.state.set_expenses(vec![expense(1, "a"), expense(2, "b")]);
    assert_eq!(app.state.ui.expense_selected, Some(1));
}

#[test]
fn scenario_close_month_flips_cached_flag() {
    let mut app = new_app();
    app.state.data.months = vec![month(1, false), month(2, false)];
    app.state.ui.selected_month_index = 1;

    app.handle_dashboard_key(Key::Char('c'));
    match &app.state.ui.modal {
        Some(Modal::ConfirmCloseMonth { month_id, is_closing, .. }) => {
            assert_eq!(*month_id, 2);
            assert!(*is_closing);
        }
        other => panic!("expected a close-month confirmation, got {:?}", other),
    }

    let cmd = app.handle_modal_key(Key::Char('y'));
    assert_eq!(cmd, Command::CloseMonth { month_id: 2 });

    // On success the cached month's flag flips without any re-fetch.
    let cmd = app.apply_close_month_result(2, true, Ok(()));
    assert_eq!(cmd, Command::Idle);
    assert!(app.state.data.months[1].is_closed);
    assert!(!app.state.data.months[0].is_closed);
    assert_eq!(
        app.state.ui.success_message,
        Some("Month closed successfully".to_string())
    );
}

#[test]
fn expense_form_keys() {
    let mut app = new_app();
    app.state.data.months = vec![month(1, false)];
    app.state.ui.selected_tab = DashboardTab::Expenses;
    app.state.data.periods = vec![
        Period { id: 1, name: "Monthly".to_string(), color: "#111111".to_string() },
        Period { id: 2, name: "Weekly".to_string(), color: "#222222".to_string() },
    ];
    app.state.data.categories = vec![
        Category { id: 1, name: "Food".to_string(), color: "#333333".to_string() },
        Category { id: 2, name: "Housing".to_string(), color: "#444444".to_string() },
    ];

    app.handle_dashboard_key(Key::Char('n'));
    assert!(matches!(app.state.ui.modal, Some(Modal::ExpenseForm { editing: None })));
    assert_eq!(app.expense_form.period, "Monthly");
    assert_eq!(app.expense_form.category, "Food");

    // Typing edits the name.
    app.handle_modal_key(Key::Char('T'));
    app.handle_modal_key(Key::Char('v'));
    assert_eq!(app.expense_form.name, "Tv");

    // Right cycles the period with wraparound.
    app.handle_modal_key(Key::Tab);
    app.handle_modal_key(Key::Right);
    assert_eq!(app.expense_form.period, "Weekly");
    app.handle_modal_key(Key::Right);
    assert_eq!(app.expense_form.period, "Monthly");
    app.handle_modal_key(Key::Left);
    assert_eq!(app.expense_form.period, "Weekly");

    // The budget takes digits and one point only.
    app.handle_modal_key(Key::Tab);
    app.handle_modal_key(Key::Tab);
    for c in "12.a5.".chars() {
        app.handle_modal_key(Key::Char(c));
    }
    assert_eq!(app.expense_form.budget, "12.5");

    // Purchase lines: Enter on an empty list adds a first one.
    app.handle_modal_key(Key::Tab);
    app.handle_modal_key(Key::Enter);
    assert_eq!(app.expense_form.purchases.len(), 1);
    app.handle_modal_key(Key::Char('m'));
    assert_eq!(app.expense_form.purchases[0].name, "m");
    app.handle_modal_key(Key::Right);
    for c in "3.50".chars() {
        app.handle_modal_key(Key::Char(c));
    }
    assert_eq!(app.expense_form.purchase_amount_inputs[0], "3.50");
    assert_eq!(app.expense_form.calculated_cost(), 350);

    // Enter with purchases submits a creation command.
    let cmd = app.handle_modal_key(Key::Enter);
    match cmd {
        Command::CreateExpense(create) => {
            assert_eq!(create.expense_name, "Tv");
            assert_eq!(create.period, "Weekly");
            assert_eq!(create.budget, 1250);
            assert_eq!(create.cost, 350);
            assert_eq!(create.month_id, 1);
        }
        other => panic!("expected a create command, got {:?}", other),
    }

    // Folding in success closes the modal and resets the draft.
    let cmd = app.apply_expense_save_result(false, Ok(()));
    assert_eq!(cmd, Command::LoadTab);
    assert!(app.state.ui.modal.is_none());
    assert_eq!(app.expense_form.name, "");
    assert_eq!(
        app.state.ui.success_message,
        Some("Expense created successfully".to_string())
    );
}

#[test]
fn pay_confirmation_flow() {
    let mut app = new_app();
    app.state.data.months = vec![month(1, false)];
    app.state.ui.selected_tab = DashboardTab::Expenses;
    app.state.set_expenses(vec![expense(7, "Internet")]);
    app.state.ui.expense_selected = Some(0);

    app.handle_dashboard_key(Key::Char('p'));
    match &app.state.ui.modal {
        Some(Modal::ConfirmPay { expense_id, amount, amount_input, .. }) => {
            assert_eq!(*expense_id, 7);
            assert_eq!(*amount, 10000);
            assert_eq!(amount_input, "100.00");
        }
        other => panic!("expected a pay confirmation, got {:?}", other),
    }

    // The amount stays editable; a second point is refused.
    app.handle_modal_key(Key::Backspace);
    app.handle_modal_key(Key::Char('5'));
    app.handle_modal_key(Key::Char('.'));
    match &app.state.ui.modal {
        Some(Modal::ConfirmPay { amount_input, .. }) => assert_eq!(amount_input, "100.05"),
        other => panic!("expected a pay confirmation, got {:?}", other),
    }

    let cmd = app.handle_modal_key(Key::Enter);
    match cmd {
        Command::Pay { expense_id, request } => {
            assert_eq!(expense_id, 7);
            assert_eq!(request.amount, Some(10005));
        }
        other => panic!("expected a pay command, got {:?}", other),
    }

    let cmd = app.apply_pay_result(10005, Ok(()));
    assert_eq!(cmd, Command::LoadTab);
    assert_eq!(
        app.state.ui.success_message,
        Some("Payment of $100.05 added successfully".to_string())
    );
}

#[test]
fn pay_rejected_for_expense_with_purchases() {
    let mut app = new_app();
    app.state.data.months = vec![month(1, false)];
    app.state.ui.selected_tab = DashboardTab::Expenses;
    let mut paid = expense(7, "Internet");
    paid.purchases = Some(vec![budget_tui::models::Purchase {
        name: "done".to_string(),
        amount: 10000,
        date: None,
    }]);
    app.state.set_expenses(vec![paid]);
    app.state.ui.expense_selected = Some(0);

    app.handle_dashboard_key(Key::Char('p'));
    assert!(app.state.ui.modal.is_none());
    assert_eq!(
        app.state.ui.error_message,
        Some("Expense already has purchases".to_string())
    );
}

#[test]
fn entity_form_flow() {
    let mut app = new_app();
    app.state.ui.selected_tab = DashboardTab::Settings;
    app.state.ui.settings_tab = SettingsTab::Categories;

    app.handle_dashboard_key(Key::Char('n'));
    assert!(matches!(app.state.ui.modal, Some(Modal::CategoryForm { editing: None })));

    // Enter on a blank name only shows a message.
    let cmd = app.handle_modal_key(Key::Enter);
    assert_eq!(cmd, Command::Idle);
    assert_eq!(app.state.ui.error_message, Some("Name is required".to_string()));

    for c in "Food".chars() {
        app.handle_modal_key(Key::Char(c));
    }
    // `r` draws a color of the right shape.
    app.handle_modal_key(Key::Char('r'));
    let color = app.category_form.color.clone();
    assert_eq!(color.len(), 7);
    assert!(color.starts_with('#'));
    assert!(color[1..].chars().all(|c| c.is_ascii_hexdigit()));
    // The name was not touched by the color key.
    assert_eq!(app.category_form.name, "Food");

    let cmd = app.handle_modal_key(Key::Enter);
    match cmd {
        Command::CreateCategory(create) => {
            assert_eq!(create.name, "Food");
            assert_eq!(create.color, Some(color));
        }
        other => panic!("expected a create command, got {:?}", other),
    }

    let cmd = app.apply_entity_save_result(EntityType::Category, Ok(()));
    assert_eq!(cmd, Command::LoadSettings);
    assert_eq!(
        app.state.ui.success_message,
        Some("Category saved successfully".to_string())
    );
}

#[test]
fn help_modal_closes_on_any_key() {
    let mut app = new_app();
    app.handle_dashboard_key(Key::Char('?'));
    assert!(matches!(app.state.ui.modal, Some(Modal::Help)));
    app.handle_modal_key(Key::Char('x'));
    assert!(app.state.ui.modal.is_none());
}

#[test]
fn edit_modal_prefills_from_selected_record() {
    let mut app = new_app();
    app.state.data.months = vec![month(1, false)];
    app.state.ui.selected_tab = DashboardTab::Expenses;
    app.state.set_expenses(vec![expense(1, "a"), expense(2, "b")]);
    app.state.ui.expense_selected = Some(1);

    app.handle_dashboard_key(Key::Char('e'));
    assert!(matches!(app.state.ui.modal, Some(Modal::ExpenseForm { editing: Some(2) })));
    assert_eq!(app.expense_form.editing_id, Some(2));
    assert_eq!(app.expense_form.name, "b");
}

#[test]
fn startup_session_and_login_success() {
    let mut app = new_app();
    let user = budget_tui::models::User {
        id: 1,
        email: "me@example.test".to_string(),
        full_name: None,
        is_active: true,
        is_admin: false,
    };
    let cmd = app.apply_startup_session(Some(user.clone()));
    assert_eq!(cmd, Command::LoadInitial);
    assert_eq!(app.state.screen, Screen::Dashboard);

    let mut app2 = app_with_credentials();
    let cmd = app2.apply_login_success(Some(user));
    assert_eq!(cmd, Command::LoadInitial);
    assert_eq!(app2.state.screen, Screen::Dashboard);
    assert_eq!(app2.login_email, "");
    assert_eq!(app2.login_password, "");
    assert!(app2.login_error.is_none());
}

fn app_with_credentials() -> App {
    let mut app = new_app();
    for c in "me@example.test".chars() {
        app.handle_login_key(Key::Char(c));
    }
    app.handle_login_key(Key::Tab);
    for c in "secret".chars() {
        app.handle_login_key(Key::Char(c));
    }
    app
}

#[test]
fn api_config_flow() {
    let stored_url = "https://old.example.test".to_string();
    let stored_key = "old-key".to_string();
    let mut app = App::new(stored_url.clone(), stored_key.clone());
    app.state.screen = Screen::ApiConfig;

    // Typing edits the URL; Tab moves to the key field.
    app.handle_api_config_key(Key::Char('x'), &stored_url, &stored_key);
    assert_eq!(app.api_url, "https://old.example.testx");
    app.handle_api_config_key(Key::Tab, &stored_url, &stored_key);
    app.handle_api_config_key(Key::Char('y'), &stored_url, &stored_key);
    assert_eq!(app.api_key, "old-keyy");

    // Enter submits a save command with the edited values.
    let cmd = app.handle_api_config_key(Key::Enter, &stored_url, &stored_key);
    match cmd {
        Command::SaveConfig { url, api_key } => {
            assert_eq!(url, "https://old.example.testx");
            assert_eq!(api_key, "old-keyy");
        }
        other => panic!("expected a save command, got {:?}", other),
    }
    let cmd = app.apply_save_config_result(None);
    assert_eq!(cmd, Command::Idle);
    assert_eq!(app.state.screen, Screen::Login);

    // Escape restores the stored values and goes back.
    app.state.screen = Screen::ApiConfig;
    app.handle_api_config_key(Key::Char('z'), &stored_url, &stored_key);
    app.handle_api_config_key(Key::Esc, &stored_url, &stored_key);
    assert_eq!(app.api_url, stored_url);
    assert_eq!(app.api_key, stored_key);
    assert_eq!(app.state.screen, Screen::Login);

    // An empty URL is refused.
    let mut empty = App::new(String::new(), String::new());
    empty.state.screen = Screen::ApiConfig;
    let cmd = empty.handle_api_config_key(Key::Enter, &stored_url, &stored_key);
    assert_eq!(cmd, Command::Idle);
    assert_eq!(empty.api_config_error, Some("API URL is required".to_string()));
}

#[test]
fn random_colors_are_well_formed() {
    for _ in 0..5 {
        let color = generate_random_color();
        assert_eq!(color.len(), 7);
        assert!(color.starts_with('#'));
        assert!(color[1..].chars().all(|c| c.is_ascii_hexdigit()));
    }
}

#[test]
fn load_filters_follow_state() {
    let mut app = new_app();
    app.state.data.months = vec![month(4, false)];
    app.state.ui.period_filter = Some("Weekly".to_string());
    app.state.ui.category_filter = Some("Food".to_string());

    let filters = app.tab_expense_filters();
    assert_eq!(filters.period, Some("Weekly".to_string()));
    assert_eq!(filters.category, Some("Food".to_string()));
    assert_eq!(filters.month_id, Some(4));

    let filters = app.tab_income_filters();
    assert_eq!(filters.period, Some("Weekly".to_string()));
    assert_eq!(filters.income_type_id, None);
    assert_eq!(filters.month_id, Some(4));

    let filters = app.month_expense_filters();
    assert_eq!(filters.period, None);
    assert_eq!(filters.category, None);
    assert_eq!(filters.month_id, Some(4));

    let filters = app.month_income_filters();
    assert_eq!(filters.period, None);
    assert_eq!(filters.month_id, Some(4));
}

#[test]
fn password_modal_flow() {
    let mut app = new_app();
    app.state.ui.selected_tab = DashboardTab::Settings;
    app.state.ui.settings_tab = SettingsTab::Password;
    app.handle_dashboard_key(Key::Char('n'));
    assert!(matches!(app.state.ui.modal, Some(Modal::PasswordForm)));

    for c in "old-secret".chars() {
        app.handle_modal_key(Key::Char(c));
    }
    app.handle_modal_key(Key::Tab);
    for c in "new-secret".chars() {
        app.handle_modal_key(Key::Char(c));
    }
    app.handle_modal_key(Key::Tab);
    for c in "new-secret".chars() {
        app.handle_modal_key(Key::Char(c));
    }

    let cmd = app.handle_modal_key(Key::Enter);
    match cmd {
        Command::ChangePassword { current, new } => {
            assert_eq!(current, "old-secret");
            assert_eq!(new, "new-secret");
        }
        other => panic!("expected a change-password command, got {:?}", other),
    }

    let cmd = app.apply_password_result(Ok(()));
    assert_eq!(cmd, Command::Idle);
    assert!(app.state.ui.modal.is_none());
    assert_eq!(app.password_form.current_password, "");
    assert_eq!(
        app.state.ui.success_message,
        Some("Password changed successfully".to_string())
    );
}
