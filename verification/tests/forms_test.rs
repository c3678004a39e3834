//! Form draft tests: field cycles, purchase-line editing, the cost
//! invariant, validation, and payload conversion.

use budget_tui::forms::{
    CategoryFormState, ExpenseField, ExpenseFormState, IncomeField, IncomeFormState,
    IncomeTypeFormState, LoginFormState, PasswordFormState, PeriodFormState,
};
use budget_tui::models::{Expense, Income, Purchase};

fn draft_with_purchases(amounts: &[&str]) -> ExpenseFormState {
    let mut form = ExpenseFormState::default();
    form.name = "Groceries".to_string();
    form.period = "Monthly".to_string();
    form.category = "Food".to_string();
    form.budget = "500".to_string();
    for a in amounts {
        form.purchases.push(Purchase { name: "item".to_string(), amount: 0, date: None });
        form.purchase_amount_inputs.push(a.to_string());
    }
    form
}

#[test]
fn expense_field_cycle() {
    assert_eq!(ExpenseField::Name.next(), ExpenseField::Period);
    assert_eq!(ExpenseField::Notes.next(), ExpenseField::Name);
    assert_eq!(ExpenseField::Name.previous(), ExpenseField::Notes);
    let mut f = ExpenseField::Name;
    for _ in 0..6 {
        f = f.next();
    }
    assert_eq!(f, ExpenseField::Name);
    assert_eq!(ExpenseField::all().len(), 6);
    assert_eq!(ExpenseField::Budget.index(), 3);
    assert_eq!(ExpenseField::from_index(4), ExpenseField::Purchases);
    assert_eq!(ExpenseField::from_index(99), ExpenseField::Name);
}

#[test]
fn income_field_cycle() {
    assert_eq!(IncomeField::IncomeType.next(), IncomeField::Period);
    assert_eq!(IncomeField::Amount.next(), IncomeField::IncomeType);
    assert_eq!(IncomeField::IncomeType.previous(), IncomeField::Amount);
    let mut f = IncomeField::Budget;
    for _ in 0..4 {
        f = f.next();
    }
    assert_eq!(f, IncomeField::Budget);
    assert_eq!(IncomeField::all().len(), 4);
}

#[test]
fn calculated_cost_is_exact_sum() {
    let form = draft_with_purchases(&["1.50", "2.25", "0.25"]);
    assert_eq!(form.calculated_cost(), 400);

    // An ill-formed amount text counts as zero.
    let form = draft_with_purchases(&["1.50", "x"]);
    assert_eq!(form.calculated_cost(), 150);

    let form = draft_with_purchases(&[]);
    assert_eq!(form.calculated_cost(), 0);
}

#[test]
fn cost_recomputed_after_add_and_remove() {
    let mut form = draft_with_purchases(&["1.00", "2.00"]);
    assert_eq!(form.calculated_cost(), 300);

    // A fresh blank line contributes nothing.
    form.add_purchase();
    assert_eq!(form.purchases.len(), 3);
    assert_eq!(form.selected_purchase, 2);
    assert_eq!(form.calculated_cost(), 300);

    // Removing the selected (blank) line restores the old sum; removing a
    // real line subtracts exactly its amount.
    form.remove_purchase();
    assert_eq!(form.calculated_cost(), 300);
    form.selected_purchase = 0;
    form.remove_purchase();
    assert_eq!(form.calculated_cost(), 200);
    assert_eq!(form.purchases.len(), 1);
    assert_eq!(form.selected_purchase, 0);
}

#[test]
fn remove_purchase_clamps_selection() {
    let mut form = draft_with_purchases(&["1.00", "2.00", "3.00"]);
    form.selected_purchase = 2;
    form.remove_purchase();
    assert_eq!(form.purchases.len(), 2);
    assert_eq!(form.selected_purchase, 1);
    form.remove_purchase();
    form.remove_purchase();
    assert_eq!(form.purchases.len(), 0);
    assert_eq!(form.selected_purchase, 0);
    // Removing from an empty draft does nothing.
    form.remove_purchase();
    assert_eq!(form.purchases.len(), 0);
}

#[test]
fn expense_validation_gates_submission() {
    // No purchase line at all: at least one message.
    let form = draft_with_purchases(&[]);
    let errors = form.validate();
    assert_eq!(errors, vec!["At least one purchase is required".to_string()]);

    // Purchases summing to zero: at least one message.
    let form = draft_with_purchases(&["0", "0.00"]);
    let errors = form.validate();
    assert_eq!(errors, vec!["Purchases must have amounts".to_string()]);

    // A fully valid draft: no message.
    let form = draft_with_purchases(&["1.50"]);
    assert!(form.validate().is_empty());

    // Every broken rule is named.
    let empty = ExpenseFormState::default();
    let errors = empty.validate();
    assert_eq!(
        errors,
        vec![
            "Name is required".to_string(),
            "Period is required".to_string(),
            "Category is required".to_string(),
            "Budget must be a valid number".to_string(),
            "At least one purchase is required".to_string(),
        ]
    );
}

#[test]
fn expense_payloads_take_parsed_amounts() {
    let form = draft_with_purchases(&["1.50", "2.50"]);
    let create = form.to_create(7).unwrap();
    assert_eq!(create.expense_name, "Groceries");
    assert_eq!(create.budget, 50000);
    assert_eq!(create.cost, 400);
    assert_eq!(create.month_id, 7);
    assert!(create.notes.is_none());
    assert!(create.expense_date.is_none());
    let purchases = create.purchases.unwrap();
    assert_eq!(purchases.len(), 2);
    assert_eq!(purchases[0].amount, 150);
    assert_eq!(purchases[1].amount, 250);

    // An ill-formed budget blocks conversion.
    let mut bad = draft_with_purchases(&["1.50"]);
    bad.budget = "12..".to_string();
    assert!(bad.to_create(7).is_none());
}

#[test]
fn expense_update_omits_uncaptured_fields() {
    let mut form = draft_with_purchases(&["1.00"]);
    form.editing_id = Some(3);
    let update = form.to_update().unwrap();
    // The form captures these, so they are present ...
    assert_eq!(update.expense_name, Some("Groceries".to_string()));
    assert_eq!(update.period, Some("Monthly".to_string()));
    assert_eq!(update.category, Some("Food".to_string()));
    assert_eq!(update.budget, Some(50000));
    assert_eq!(update.cost, Some(100));
    assert!(update.purchases.is_some());
    // ... and these it does not capture, so they stay unset.
    assert!(update.month_id.is_none());
    assert!(update.expense_date.is_none());
}

#[test]
fn expense_draft_from_expense() {
    let expense = Expense {
        id: 9,
        expense_name: "Rent".to_string(),
        period: "Monthly".to_string(),
        category: "Housing".to_string(),
        budget: 150000,
        cost: 150000,
        notes: Some("due on the 1st".to_string()),
        month_id: 1,
        purchases: Some(vec![Purchase {
            name: "January".to_string(),
            amount: 150000,
            date: None,
        }]),
        order: 0,
        expense_date: None,
    };
    let form = ExpenseFormState::from_expense(&expense);
    assert_eq!(form.editing_id, Some(9));
    assert_eq!(form.name, "Rent");
    assert_eq!(form.budget, "1500");
    assert_eq!(form.notes, "due on the 1st");
    assert_eq!(form.purchases.len(), 1);
    assert_eq!(form.purchase_amount_inputs[0], "1500");
    assert_eq!(form.focused_field, ExpenseField::Name);
}

#[test]
fn income_validation_and_payloads() {
    let mut form = IncomeFormState::default();
    let errors = form.validate();
    assert_eq!(
        errors,
        vec![
            "Income type is required".to_string(),
            "Period is required".to_string(),
            "Budget must be a valid number".to_string(),
        ]
    );

    form.income_type_id = Some(2);
    form.period = "Monthly".to_string();
    form.budget = "5000".to_string();
    form.amount = "4800.50".to_string();
    assert!(form.validate().is_empty());

    let create = form.to_create(4).unwrap();
    assert_eq!(create.income_type_id, 2);
    assert_eq!(create.budget, 500000);
    assert_eq!(create.amount, 480050);
    assert_eq!(create.month_id, 4);

    let update = form.to_update().unwrap();
    assert_eq!(update.amount, Some(480050));
    assert!(update.month_id.is_none());
}

#[test]
fn income_draft_from_income() {
    let income = Income {
        id: 5,
        income_type_id: 2,
        period: "Monthly".to_string(),
        budget: 500000,
        amount: 480000,
        month_id: 1,
        created_at: "2024-01-01".to_string(),
        updated_at: "2024-01-01".to_string(),
        created_by: None,
        updated_by: None,
    };
    let form = IncomeFormState::from_income(&income);
    assert_eq!(form.editing_id, Some(5));
    assert_eq!(form.income_type_id, Some(2));
    assert_eq!(form.budget, "5000");
    assert_eq!(form.amount, "4800");
}

#[test]
fn named_entity_forms() {
    let mut form = CategoryFormState::default();
    assert_eq!(form.validate(), vec!["Name is required".to_string()]);
    form.name = "Food".to_string();
    assert!(form.validate().is_empty());
    let create = form.to_create();
    assert_eq!(create.name, "Food");
    assert!(create.color.is_none());
    form.color = "#aabbcc".to_string();
    assert_eq!(form.to_update().color, Some("#aabbcc".to_string()));

    let mut period = PeriodFormState::default();
    period.name = "Weekly".to_string();
    assert!(period.validate().is_empty());
    assert_eq!(period.to_create().name, "Weekly");

    let mut income_type = IncomeTypeFormState::default();
    assert_eq!(income_type.validate(), vec!["Name is required".to_string()]);
    income_type.name = "Bonus".to_string();
    assert_eq!(income_type.to_update().name, "Bonus");
}

#[test]
fn password_validation() {
    let mut form = PasswordFormState::default();
    let errors = form.validate();
    assert_eq!(
        errors,
        vec![
            "Current password is required".to_string(),
            "New password is required".to_string(),
            "New password must be at least 8 characters".to_string(),
        ]
    );

    form.current_password = "old-secret".to_string();
    form.new_password = "short".to_string();
    form.confirm_password = "different".to_string();
    let errors = form.validate();
    assert_eq!(
        errors,
        vec![
            "New password must be at least 8 characters".to_string(),
            "Passwords do not match".to_string(),
        ]
    );

    form.new_password = "long-enough".to_string();
    form.confirm_password = "long-enough".to_string();
    assert!(form.validate().is_empty());
}

#[test]
fn login_form() {
    let mut form = LoginFormState::default();
    assert_eq!(
        form.validate(),
        vec!["Email is required".to_string(), "Password is required".to_string()]
    );
    form.email = "user@example.test".to_string();
    form.password = "secret".to_string();
    assert!(form.validate().is_empty());

    assert_eq!(form.focused_field, 0);
    form.next_field();
    assert_eq!(form.focused_field, 1);
    form.next_field();
    assert_eq!(form.focused_field, 0);
    form.previous_field();
    assert_eq!(form.focused_field, 1);
}
