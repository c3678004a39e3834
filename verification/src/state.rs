//! Application state: the current screen, the dashboard tab and settings
//! sub-tab cycles, the modal overlay, the resource caches, and the derived
//! filtered views. Everything here is plain state; the dispatch module
//! mutates it and the rendering layer outside the library only reads it.

use vstd::prelude::*;

use crate::models::{
    Category, CategorySummary, Expense, Income, IncomeType, IncomeTypeSummary, Month, Period,
    PeriodSummaryResponse, SummaryTotals, User,
};

verus! {

/// Current screen.
#[derive(Debug, Clone, Copy, PartialEq, Eq, Structural)]
pub enum Screen {
    Login,
    ApiConfig,
    Dashboard,
}

/// Dashboard tabs, in their fixed cyclic order.
#[derive(Debug, Clone, Copy, PartialEq, Eq, Structural)]
pub enum DashboardTab {
    Summary,
    Expenses,
    Income,
    Charts,
    Settings,
}

impl DashboardTab {
    pub open spec fn index_spec(self) -> int {
        match self {
            DashboardTab::Summary => 0,
            DashboardTab::Expenses => 1,
            DashboardTab::Income => 2,
            DashboardTab::Charts => 3,
            DashboardTab::Settings => 4,
        }
    }

    pub open spec fn from_index_spec(index: int) -> DashboardTab {
        if index == 0 {
            DashboardTab::Summary
        } else if index == 1 {
            DashboardTab::Expenses
        } else if index == 2 {
            DashboardTab::Income
        } else if index == 3 {
            DashboardTab::Charts
        } else if index == 4 {
            DashboardTab::Settings
        } else {
            DashboardTab::Summary
        }
    }

    /// The tab after this one, wrapping from the last to the first.
    pub open spec fn next_spec(self) -> DashboardTab {
        match self {
            DashboardTab::Summary => DashboardTab::Expenses,
            DashboardTab::Expenses => DashboardTab::Income,
            DashboardTab::Income => DashboardTab::Charts,
            DashboardTab::Charts => DashboardTab::Settings,
            DashboardTab::Settings => DashboardTab::Summary,
        }
    }

    /// The tab before this one, wrapping from the first to the last.
    pub open spec fn previous_spec(self) -> DashboardTab {
        match self {
            DashboardTab::Summary => DashboardTab::Settings,
            DashboardTab::Expenses => DashboardTab::Summary,
            DashboardTab::Income => DashboardTab::Expenses,
            DashboardTab::Charts => DashboardTab::Income,
            DashboardTab::Settings => DashboardTab::Charts,
        }
    }

    /// All tabs, in cycle order.
    pub fn all() -> (r: Vec<DashboardTab>)
        ensures
            r@ == seq![
                DashboardTab::Summary,
                DashboardTab::Expenses,
                DashboardTab::Income,
                DashboardTab::Charts,
                DashboardTab::Settings,
            ],
    {
        let mut v: Vec<DashboardTab> = Vec::new();
        v.push(DashboardTab::Summary);
        v.push(DashboardTab::Expenses);
        v.push(DashboardTab::Income);
        v.push(DashboardTab::Charts);
        v.push(DashboardTab::Settings);
        proof {
            assert(v@ =~= seq![
                DashboardTab::Summary,
                DashboardTab::Expenses,
                DashboardTab::Income,
                DashboardTab::Charts,
                DashboardTab::Settings,
            ]);
        }
        v
    }

    pub fn as_str(&self) -> (r: &'static str)
        ensures
            r@ == match self {
                DashboardTab::Summary => "Summary"@,
                DashboardTab::Expenses => "Expenses"@,
                DashboardTab::Income => "Income"@,
                DashboardTab::Charts => "Charts"@,
                DashboardTab::Settings => "Settings"@,
            },
    {
        match self {
            DashboardTab::Summary => "Summary",
            DashboardTab::Expenses => "Expenses",
            DashboardTab::Income => "Income",
            DashboardTab::Charts => "Charts",
            DashboardTab::Settings => "Settings",
        }
    }

    pub fn index(&self) -> (r: usize)
        ensures
            r == self.index_spec(),
    {
        match self {
            DashboardTab::Summary => 0,
            DashboardTab::Expenses => 1,
            DashboardTab::Income => 2,
            DashboardTab::Charts => 3,
            DashboardTab::Settings => 4,
        }
    }

    /// The tab at an index; anything out of range falls back to the first.
    pub fn from_index(index: usize) -> (r: Self)
        ensures
            r == Self::from_index_spec(index as int),
    {
        match index {
            0 => DashboardTab::Summary,
            1 => DashboardTab::Expenses,
            2 => DashboardTab::Income,
            3 => DashboardTab::Charts,
            4 => DashboardTab::Settings,
            _ => DashboardTab::Summary,
        }
    }

    pub fn next(&self) -> (r: Self)
        ensures
            r == self.next_spec(),
    {
        match self {
            DashboardTab::Summary => DashboardTab::Expenses,
            DashboardTab::Expenses => DashboardTab::Income,
            DashboardTab::Income => DashboardTab::Charts,
            DashboardTab::Charts => DashboardTab::Settings,
            DashboardTab::Settings => DashboardTab::Summary,
        }
    }

    pub fn previous(&self) -> (r: Self)
        ensures
            r == self.previous_spec(),
    {
        match self {
            DashboardTab::Summary => DashboardTab::Settings,
            DashboardTab::Expenses => DashboardTab::Summary,
            DashboardTab::Income => DashboardTab::Expenses,
            DashboardTab::Charts => DashboardTab::Income,
            DashboardTab::Settings => DashboardTab::Charts,
        }
    }
}

/// The dashboard tab cycle is total: stepping back then forward is the
/// identity, and five forward steps return to the start.
pub proof fn lemma_dashboard_tab_cycle(t: DashboardTab)
    ensures
        t.previous_spec().next_spec() == t,
        t.next_spec().previous_spec() == t,
        t.next_spec().next_spec().next_spec().next_spec().next_spec() == t,
{
}

/// Settings sub-tabs, in their fixed cyclic order.
#[derive(Debug, Clone, Copy, PartialEq, Eq, Structural)]
pub enum SettingsTab {
    Categories,
    Periods,
    IncomeTypes,
    Password,
}

impl SettingsTab {
    pub open spec fn index_spec(self) -> int {
        match self {
            SettingsTab::Categories => 0,
            SettingsTab::Periods => 1,
            SettingsTab::IncomeTypes => 2,
            SettingsTab::Password => 3,
        }
    }

    pub open spec fn from_index_spec(index: int) -> SettingsTab {
        if index == 0 {
            SettingsTab::Categories
        } else if index == 1 {
            SettingsTab::Periods
        } else if index == 2 {
            SettingsTab::IncomeTypes
        } else if index == 3 {
            SettingsTab::Password
        } else {
            SettingsTab::Categories
        }
    }

    /// The sub-tab after this one, wrapping.
    pub open spec fn next_spec(self) -> SettingsTab {
        match self {
            SettingsTab::Categories => SettingsTab::Periods,
            SettingsTab::Periods => SettingsTab::IncomeTypes,
            SettingsTab::IncomeTypes => SettingsTab::Password,
            SettingsTab::Password => SettingsTab::Categories,
        }
    }

    /// The sub-tab before this one, wrapping.
    pub open spec fn previous_spec(self) -> SettingsTab {
        match self {
            SettingsTab::Categories => SettingsTab::Password,
            SettingsTab::Periods => SettingsTab::Categories,
            SettingsTab::IncomeTypes => SettingsTab::Periods,
            SettingsTab::Password => SettingsTab::IncomeTypes,
        }
    }

    /// All sub-tabs, in cycle order.
    pub fn all() -> (r: Vec<SettingsTab>)
        ensures
            r@ == seq![
                SettingsTab::Categories,
                SettingsTab::Periods,
                SettingsTab::IncomeTypes,
                SettingsTab::Password,
            ],
    {
        let mut v: Vec<SettingsTab> = Vec::new();
        v.push(SettingsTab::Categories);
        v.push(SettingsTab::Periods);
        v.push(SettingsTab::IncomeTypes);
        v.push(SettingsTab::Password);
        proof {
            assert(v@ =~= seq![
                SettingsTab::Categories,
                SettingsTab::Periods,
                SettingsTab::IncomeTypes,
                SettingsTab::Password,
            ]);
        }
        v
    }

    pub fn as_str(&self) -> (r: &'static str)
        ensures
            r@ == match self {
                SettingsTab::Categories => "Categories"@,
                SettingsTab::Periods => "Periods"@,
                SettingsTab::IncomeTypes => "Income Types"@,
                SettingsTab::Password => "Password"@,
            },
    {
        match self {
            SettingsTab::Categories => "Categories",
            SettingsTab::Periods => "Periods",
            SettingsTab::IncomeTypes => "Income Types",
            SettingsTab::Password => "Password",
        }
    }

    pub fn index(&self) -> (r: usize)
        ensures
            r == self.index_spec(),
    {
        match self {
            SettingsTab::Categories => 0,
            SettingsTab::Periods => 1,
            SettingsTab::IncomeTypes => 2,
            SettingsTab::Password => 3,
        }
    }

    /// The sub-tab at an index; anything out of range falls back to the first.
    pub fn from_index(index: usize) -> (r: Self)
        ensures
            r == Self::from_index_spec(index as int),
    {
        match index {
            0 => SettingsTab::Categories,
            1 => SettingsTab::Periods,
            2 => SettingsTab::IncomeTypes,
            3 => SettingsTab::Password,
            _ => SettingsTab::Categories,
        }
    }

    pub fn next(&self) -> (r: Self)
        ensures
            r == self.next_spec(),
    {
        match self {
            SettingsTab::Categories => SettingsTab::Periods,
            SettingsTab::Periods => SettingsTab::IncomeTypes,
            SettingsTab::IncomeTypes => SettingsTab::Password,
            SettingsTab::Password => SettingsTab::Categories,
        }
    }

    pub fn previous(&self) -> (r: Self)
        ensures
            r == self.previous_spec(),
    {
        match self {
            SettingsTab::Categories => SettingsTab::Password,
            SettingsTab::Periods => SettingsTab::Categories,
            SettingsTab::IncomeTypes => SettingsTab::Periods,
            SettingsTab::Password => SettingsTab::IncomeTypes,
        }
    }
}

/// The settings sub-tab cycle is total: stepping back then forward is the
/// identity, and four forward steps return to the start.
pub proof fn lemma_settings_tab_cycle(t: SettingsTab)
    ensures
        t.previous_spec().next_spec() == t,
        t.next_spec().previous_spec() == t,
        t.next_spec().next_spec().next_spec().next_spec() == t,
{
}

/// Input mode for text fields.
#[derive(Debug, Clone, Copy, PartialEq, Eq, Structural)]
pub enum InputMode {
    Normal,
    Editing,
}

/// The entity kinds a confirmation can act on.
#[derive(Debug, Clone, Copy, PartialEq, Eq, Structural)]
pub enum EntityType {
    Expense,
    Income,
    Category,
    Period,
    IncomeType,
}

/// The single modal overlay, tagged by kind. A form modal carries the id
/// of the record being edited, and stands for create mode when it is
/// absent; the live draft itself is owned by the dispatch aggregate.
#[derive(Debug, Clone, PartialEq)]
pub enum Modal {
    ExpenseForm { editing: Option<i32> },
    IncomeForm { editing: Option<i32> },
    CategoryForm { editing: Option<i32> },
    PeriodForm { editing: Option<i32> },
    IncomeTypeForm { editing: Option<i32> },
    PasswordForm,
    ConfirmDelete { message: String, id: i32, entity_type: EntityType },
    ConfirmPay { expense_name: String, expense_id: i32, amount: i64, amount_input: String },
    ConfirmCloseMonth { month_name: String, month_id: i32, is_closing: bool },
    Help,
}

/// Cached data from the remote service, wholesale-replaced on each fetch.
#[derive(Debug)]
pub struct DataState {
    pub expenses: Vec<Expense>,
    pub incomes: Vec<Income>,
    pub categories: Vec<Category>,
    pub periods: Vec<Period>,
    pub income_types: Vec<IncomeType>,
    pub months: Vec<Month>,
    pub current_month: Option<Month>,
    pub summary_totals: Option<SummaryTotals>,
    pub category_summary: Vec<CategorySummary>,
    pub income_type_summary: Vec<IncomeTypeSummary>,
    pub period_summary: Option<PeriodSummaryResponse>,
}

impl Default for DataState {
    /// Empty caches.
    fn default() -> (r: Self)
        ensures
            r.expenses@.len() == 0,
            r.incomes@.len() == 0,
            r.categories@.len() == 0,
            r.periods@.len() == 0,
            r.income_types@.len() == 0,
            r.months@.len() == 0,
            r.current_month is None,
            r.summary_totals is None,
            r.category_summary@.len() == 0,
            r.income_type_summary@.len() == 0,
            r.period_summary is None,
    {
        DataState {
            expenses: Vec::new(),
            incomes: Vec::new(),
            categories: Vec::new(),
            periods: Vec::new(),
            income_types: Vec::new(),
            months: Vec::new(),
            current_month: None,
            summary_totals: None,
            category_summary: Vec::new(),
            income_type_summary: Vec::new(),
            period_summary: None,
        }
    }
}

/// Interface state: selections, filters, the modal, and messages.
#[derive(Debug)]
pub struct UIState {
    pub selected_month_index: usize,
    pub selected_tab: DashboardTab,
    pub settings_tab: SettingsTab,
    pub period_filter: Option<String>,
    pub category_filter: Option<String>,
    pub expense_selected: Option<usize>,
    pub income_selected: Option<usize>,
    pub category_selected: Option<usize>,
    pub period_selected: Option<usize>,
    pub income_type_selected: Option<usize>,
    pub modal: Option<Modal>,
    pub input_mode: InputMode,
    pub is_loading: bool,
    pub error_message: Option<String>,
    pub success_message: Option<String>,
}

impl Default for UIState {
    /// The summary tab, no filters, no selection, no modal, no message.
    fn default() -> (r: Self)
        ensures
            r.selected_month_index == 0,
            r.selected_tab == DashboardTab::Summary,
            r.settings_tab == SettingsTab::Categories,
            r.period_filter is None,
            r.category_filter is None,
            r.expense_selected is None,
            r.income_selected is None,
            r.category_selected is None,
            r.period_selected is None,
            r.income_type_selected is None,
            r.modal is None,
            r.input_mode == InputMode::Normal,
            !r.is_loading,
            r.error_message is None,
            r.success_message is None,
    {
        UIState {
            selected_month_index: 0,
            selected_tab: DashboardTab::Summary,
            settings_tab: SettingsTab::Categories,
            period_filter: None,
            category_filter: None,
            expense_selected: None,
            income_selected: None,
            category_selected: None,
            period_selected: None,
            income_type_selected: None,
            modal: None,
            input_mode: InputMode::Normal,
            is_loading: false,
            error_message: None,
            success_message: None,
        }
    }
}

/// Complete application state.
#[derive(Debug)]
pub struct AppState {
    pub screen: Screen,
    pub user: Option<User>,
    pub data: DataState,
    pub ui: UIState,
}

impl Default for AppState {
    /// The login screen over empty caches.
    fn default() -> (r: Self)
        ensures
            r.screen == Screen::Login,
            r.user is None,
            r.data.expenses@.len() == 0,
            r.data.incomes@.len() == 0,
            r.data.categories@.len() == 0,
            r.data.periods@.len() == 0,
            r.data.income_types@.len() == 0,
            r.data.months@.len() == 0,
            r.data.current_month is None,
            r.data.summary_totals is None,
            r.data.category_summary@.len() == 0,
            r.data.income_type_summary@.len() == 0,
            r.data.period_summary is None,
            r.ui.selected_month_index == 0,
            r.ui.selected_tab == DashboardTab::Summary,
            r.ui.settings_tab == SettingsTab::Categories,
            r.ui.period_filter is None,
            r.ui.category_filter is None,
            r.ui.expense_selected is None,
            r.ui.income_selected is None,
            r.ui.category_selected is None,
            r.ui.period_selected is None,
            r.ui.income_type_selected is None,
            r.ui.modal is None,
            r.ui.input_mode == InputMode::Normal,
            !r.ui.is_loading,
            r.ui.error_message is None,
            r.ui.success_message is None,
    {
        AppState {
            screen: Screen::Login,
            user: None,
            data: DataState::default(),
            ui: UIState::default(),
        }
    }
}

/// Index after stepping one month forward, clamped to the last month.
pub open spec fn next_month_index(len: int, idx: int) -> int {
    if len > 0 && idx < len - 1 {
        idx + 1
    } else {
        idx
    }
}

/// Index after stepping one month back, clamped to the first month.
pub open spec fn prev_month_index(idx: int) -> int {
    if idx > 0 {
        idx - 1
    } else {
        idx
    }
}

/// Month navigation is clamped: stepping back at the first month and
/// stepping forward at the last are no-ops.
pub proof fn lemma_month_navigation_clamped(len: int, idx: int)
    ensures
        idx == 0 ==> prev_month_index(idx) == idx,
        idx == len - 1 ==> next_month_index(len, idx) == idx,
{
}

/// `i` is the first position in `months` holding the month with this id.
pub open spec fn is_first_index_of(months: Seq<Month>, id: i32, i: int) -> bool {
    &&& 0 <= i < months.len()
    &&& months[i].id == id
    &&& forall|j: int| 0 <= j < i ==> months[j].id != id
}

/// `j` is the first position after `start` holding an open month.
pub open spec fn is_first_open_after(months: Seq<Month>, start: int, j: int) -> bool {
    &&& start < j < months.len()
    &&& !months[j].is_closed
    &&& forall|l: int| start < l < j ==> months[l].is_closed
}

/// The rule for the default month selection: the current month where it is
/// open; the closest later open month where it is closed; the current month
/// again where no later month is open; the first month where the current
/// month is unknown; and an untouched selection over an empty cache.
pub open spec fn default_month_selection(
    months: Seq<Month>,
    current: Option<Month>,
    old_idx: int,
    k: int,
) -> bool {
    if months.len() == 0 {
        k == old_idx
    } else {
        match current {
            None => k == 0,
            Some(c) => {
                if !(exists|i: int| 0 <= i < months.len() && months[i].id == c.id) {
                    k == 0
                } else {
                    exists|i: int|
                        #[trigger] is_first_index_of(months, c.id, i) && if !c.is_closed {
                            k == i
                        } else if exists|j: int| is_first_open_after(months, i, j) {
                            is_first_open_after(months, i, k)
                        } else {
                            k == i
                        }
                }
            },
        }
    }
}

/// `post` is `pre` with the closed flag of every month with this id set to
/// `closed`, and every other record untouched.
pub open spec fn months_flag_set(
    pre: Seq<Month>,
    post: Seq<Month>,
    month_id: i32,
    closed: bool,
) -> bool {
    &&& post.len() == pre.len()
    &&& forall|i: int|
        0 <= i < pre.len() ==> #[trigger] post[i] == (if pre[i].id == month_id {
            (Month { is_closed: closed, ..pre[i] })
        } else {
            pre[i]
        })
}

/// A list selection clamped to a list length: dropped over an empty list,
/// kept when in range, and pulled back to the last entry otherwise.
pub open spec fn clamp_selection(sel: Option<usize>, len: int) -> Option<usize> {
    match sel {
        Some(i) => if len == 0 {
            None
        } else if i < len {
            Some(i)
        } else {
            Some((len - 1) as usize)
        },
        None => None,
    }
}

/// Clamp a selection to a list length.
pub fn clamp_selection_to(sel: Option<usize>, len: usize) -> (r: Option<usize>)
    ensures
        r == clamp_selection(sel, len as int),
{
    match sel {
        Some(i) => if len == 0 {
            None
        } else if i < len {
            Some(i)
        } else {
            Some(len - 1)
        },
        None => None,
    }
}

/// The selection after stepping one entry down, wrapping at the end; an
/// empty list leaves it untouched, and an absent selection starts at the
/// first entry.
pub open spec fn wrap_next_selection(sel: Option<usize>, len: int) -> Option<usize> {
    if len == 0 {
        sel
    } else {
        let i = match sel {
            Some(i) => i as int,
            None => 0,
        };
        if i >= len - 1 {
            Some(0usize)
        } else {
            Some((i + 1) as usize)
        }
    }
}

/// The selection after stepping one entry up, wrapping at the start.
pub open spec fn wrap_prev_selection(sel: Option<usize>, len: int) -> Option<usize> {
    if len == 0 {
        sel
    } else {
        let i = match sel {
            Some(i) => i as int,
            None => 0,
        };
        if i == 0 {
            Some((len - 1) as usize)
        } else {
            Some((i - 1) as usize)
        }
    }
}

/// Step a selection one entry down, wrapping over the list length.
pub fn wrap_next_exec(sel: Option<usize>, len: usize) -> (r: Option<usize>)
    ensures
        r == wrap_next_selection(sel, len as int),
{
    if len == 0 {
        return sel;
    }
    let i = match sel {
        Some(i) => i,
        None => 0,
    };
    if i >= len - 1 {
        Some(0)
    } else {
        Some(i + 1)
    }
}

/// Step a selection one entry up, wrapping over the list length.
pub fn wrap_prev_exec(sel: Option<usize>, len: usize) -> (r: Option<usize>)
    ensures
        r == wrap_prev_selection(sel, len as int),
{
    if len == 0 {
        return sel;
    }
    let i = match sel {
        Some(i) => i,
        None => 0,
    };
    if i == 0 {
        Some(len - 1)
    } else {
        Some(i - 1)
    }
}

/// The filtered expense view: the cached expenses that pass the filters,
/// in cache order.
pub open spec fn filtered_expense_seq(s: AppState) -> Seq<Expense> {
    s.data.expenses@.filter(
        |e: Expense| expense_passes(e, s.ui.period_filter, s.ui.category_filter),
    )
}

/// The filtered income view: the cached incomes that pass the period
/// filter, in cache order.
pub open spec fn filtered_income_seq(s: AppState) -> Seq<Income> {
    s.data.incomes@.filter(|i: Income| income_passes(i, s.ui.period_filter))
}

/// Length of the filtered expense view.
pub open spec fn filtered_expenses_len(s: AppState) -> int {
    filtered_expense_seq(s).len() as int
}

/// Length of the filtered income view.
pub open spec fn filtered_incomes_len(s: AppState) -> int {
    filtered_income_seq(s).len() as int
}

/// The state after stepping the active list's selection one entry down:
/// the filtered view for expenses and incomes, the raw lists in settings,
/// the next settings sub-tab on the password pane, and no change on the
/// summary and charts tabs.
pub open spec fn next_item_state(s: AppState) -> AppState {
    match s.ui.selected_tab {
        DashboardTab::Expenses => AppState {
            ui: UIState {
                expense_selected: wrap_next_selection(
                    s.ui.expense_selected,
                    filtered_expenses_len(s),
                ),
                ..s.ui
            },
            ..s
        },
        DashboardTab::Income => AppState {
            ui: UIState {
                income_selected: wrap_next_selection(
                    s.ui.income_selected,
                    filtered_incomes_len(s),
                ),
                ..s.ui
            },
            ..s
        },
        DashboardTab::Settings => match s.ui.settings_tab {
            SettingsTab::Categories => AppState {
                ui: UIState {
                    category_selected: wrap_next_selection(
                        s.ui.category_selected,
                        s.data.categories@.len() as int,
                    ),
                    ..s.ui
                },
                ..s
            },
            SettingsTab::Periods => AppState {
                ui: UIState {
                    period_selected: wrap_next_selection(
                        s.ui.period_selected,
                        s.data.periods@.len() as int,
                    ),
                    ..s.ui
                },
                ..s
            },
            SettingsTab::IncomeTypes => AppState {
                ui: UIState {
                    income_type_selected: wrap_next_selection(
                        s.ui.income_type_selected,
                        s.data.income_types@.len() as int,
                    ),
                    ..s.ui
                },
                ..s
            },
            SettingsTab::Password => AppState {
                ui: UIState { settings_tab: s.ui.settings_tab.next_spec(), ..s.ui },
                ..s
            },
        },
        _ => s,
    }
}

/// The state after stepping the active list's selection one entry up.
pub open spec fn prev_item_state(s: AppState) -> AppState {
    match s.ui.selected_tab {
        DashboardTab::Expenses => AppState {
            ui: UIState {
                expense_selected: wrap_prev_selection(
                    s.ui.expense_selected,
                    filtered_expenses_len(s),
                ),
                ..s.ui
            },
            ..s
        },
        DashboardTab::Income => AppState {
            ui: UIState {
                income_selected: wrap_prev_selection(
                    s.ui.income_selected,
                    filtered_incomes_len(s),
                ),
                ..s.ui
            },
            ..s
        },
        DashboardTab::Settings => match s.ui.settings_tab {
            SettingsTab::Categories => AppState {
                ui: UIState {
                    category_selected: wrap_prev_selection(
                        s.ui.category_selected,
                        s.data.categories@.len() as int,
                    ),
                    ..s.ui
                },
                ..s
            },
            SettingsTab::Periods => AppState {
                ui: UIState {
                    period_selected: wrap_prev_selection(
                        s.ui.period_selected,
                        s.data.periods@.len() as int,
                    ),
                    ..s.ui
                },
                ..s
            },
            SettingsTab::IncomeTypes => AppState {
                ui: UIState {
                    income_type_selected: wrap_prev_selection(
                        s.ui.income_type_selected,
                        s.data.income_types@.len() as int,
                    ),
                    ..s.ui
                },
                ..s
            },
            SettingsTab::Password => AppState {
                ui: UIState { settings_tab: s.ui.settings_tab.previous_spec(), ..s.ui },
                ..s
            },
        },
        _ => s,
    }
}

/// Whether the currently selected month is closed; an out-of-range
/// selection counts as open.
pub open spec fn selected_month_closed(s: AppState) -> bool {
    s.ui.selected_month_index < s.data.months@.len()
        && s.data.months@[s.ui.selected_month_index as int].is_closed
}

/// Whether an expense passes the optional period and category filters.
pub open spec fn expense_passes(e: Expense, period: Option<String>, category: Option<String>) -> bool {
    &&& match period {
        Some(p) => e.period@ == p@,
        None => true,
    }
    &&& match category {
        Some(c) => e.category@ == c@,
        None => true,
    }
}

/// Whether an income passes the optional period filter.
pub open spec fn income_passes(i: Income, period: Option<String>) -> bool {
    match period {
        Some(p) => i.period@ == p@,
        None => true,
    }
}

/// With no filters set, filtering expenses keeps every record in order:
/// applying and then clearing a filter hands back exactly the cache.
pub proof fn lemma_unfiltered_expenses_identity(s: Seq<Expense>)
    ensures
        s.filter(|e: Expense| expense_passes(e, None, None)) == s,
    decreases s.len(),
{
    reveal(Seq::filter);
    if s.len() == 0 {
        assert(s.filter(|e: Expense| expense_passes(e, None, None)) =~= s);
    } else {
        lemma_unfiltered_expenses_identity(s.drop_last());
        assert(s.filter(|e: Expense| expense_passes(e, None, None)) =~= s);
    }
}

/// With no filter set, filtering incomes keeps every record in order.
pub proof fn lemma_unfiltered_incomes_identity(s: Seq<Income>)
    ensures
        s.filter(|i: Income| income_passes(i, None)) == s,
    decreases s.len(),
{
    reveal(Seq::filter);
    if s.len() == 0 {
        assert(s.filter(|i: Income| income_passes(i, None)) =~= s);
    } else {
        lemma_unfiltered_incomes_identity(s.drop_last());
        assert(s.filter(|i: Income| income_passes(i, None)) =~= s);
    }
}

impl AppState {
    /// The currently selected month, if the selection is in range.
    pub fn selected_month(&self) -> (r: Option<&Month>)
        ensures
            match r {
                Some(m) => self.ui.selected_month_index < self.data.months@.len() && *m
                    == self.data.months@[self.ui.selected_month_index as int],
                None => self.ui.selected_month_index >= self.data.months@.len(),
            },
    {
        if self.ui.selected_month_index < self.data.months.len() {
            Some(&self.data.months[self.ui.selected_month_index])
        } else {
            None
        }
    }

    /// The id of the currently selected month, if any.
    pub fn selected_month_id(&self) -> (r: Option<i32>)
        ensures
            match r {
                Some(id) => self.ui.selected_month_index < self.data.months@.len() && id
                    == self.data.months@[self.ui.selected_month_index as int].id,
                None => self.ui.selected_month_index >= self.data.months@.len(),
            },
    {
        match self.selected_month() {
            Some(m) => Some(m.id),
            None => None,
        }
    }

    /// Step the selected month forward, clamped to the last month.
    pub fn next_month(&mut self)
        ensures
            *final(self) == (AppState {
                ui: UIState {
                    selected_month_index: next_month_index(
                        old(self).data.months@.len() as int,
                        old(self).ui.selected_month_index as int,
                    ) as usize,
                    ..old(self).ui
                },
                ..*old(self)
            }),
    {
        if !self.data.months.is_empty() && self.ui.selected_month_index < self.data.months.len() - 1
        {
            self.ui.selected_month_index += 1;
        }
    }

    /// Step the selected month back, clamped to the first month.
    pub fn previous_month(&mut self)
        ensures
            *final(self) == (AppState {
                ui: UIState {
                    selected_month_index: prev_month_index(
                        old(self).ui.selected_month_index as int,
                    ) as usize,
                    ..old(self).ui
                },
                ..*old(self)
            }),
    {
        if self.ui.selected_month_index > 0 {
            self.ui.selected_month_index -= 1;
        }
    }

    /// The filtered expense view: the cached expenses, in order, that pass
    /// the current filters. The cache itself is untouched.
    pub fn filtered_expenses(&self) -> (r: Vec<&Expense>)
        ensures
            r@.map_values(|e: &Expense| *e) == filtered_expense_seq(*self),
    {
        let ghost pred = |e: Expense|
            expense_passes(e, self.ui.period_filter, self.ui.category_filter);
        let mut out: Vec<&Expense> = Vec::new();
        let mut i: usize = 0;
        while i < self.data.expenses.len()
            invariant
                i <= self.data.expenses@.len(),
                pred == (|e: Expense|
                    expense_passes(e, self.ui.period_filter, self.ui.category_filter)),
                out@.map_values(|e: &Expense| *e) == self.data.expenses@.subrange(
                    0,
                    i as int,
                ).filter(pred),
            decreases self.data.expenses@.len() - i,
        {
            let e = &self.data.expenses[i];
            let period_match = match &self.ui.period_filter {
                Some(p) => e.period.eq(p),
                None => true,
            };
            let category_match = match &self.ui.category_filter {
                Some(c) => e.category.eq(c),
                None => true,
            };
            proof {
                reveal(Seq::filter);
                let pre = self.data.expenses@.subrange(0, i as int);
                let nxt = self.data.expenses@.subrange(0, i as int + 1);
                assert(nxt.drop_last() =~= pre);
                assert(nxt.last() == self.data.expenses@[i as int]);
            }
            if period_match && category_match {
                out.push(e);
                proof {
                    assert(out@.map_values(|e: &Expense| *e) =~= self.data.expenses@.subrange(
                        0,
                        i as int + 1,
                    ).filter(pred));
                }
            } else {
                proof {
                    assert(out@.map_values(|e: &Expense| *e) =~= self.data.expenses@.subrange(
                        0,
                        i as int + 1,
                    ).filter(pred));
                }
            }
            i += 1;
        }
        proof {
            assert(self.data.expenses@.subrange(0, self.data.expenses@.len() as int)
                =~= self.data.expenses@);
        }
        out
    }

    /// The filtered income view: the cached incomes, in order, that pass
    /// the current period filter. The cache itself is untouched.
    pub fn filtered_incomes(&self) -> (r: Vec<&Income>)
        ensures
            r@.map_values(|i: &Income| *i) == filtered_income_seq(*self),
    {
        let ghost pred = |inc: Income| income_passes(inc, self.ui.period_filter);
        let mut out: Vec<&Income> = Vec::new();
        let mut i: usize = 0;
        while i < self.data.incomes.len()
            invariant
                i <= self.data.incomes@.len(),
                pred == (|inc: Income| income_passes(inc, self.ui.period_filter)),
                out@.map_values(|i: &Income| *i) == self.data.incomes@.subrange(0, i as int).filter(
                    pred,
                ),
            decreases self.data.incomes@.len() - i,
        {
            let inc = &self.data.incomes[i];
            let period_match = match &self.ui.period_filter {
                Some(p) => inc.period.eq(p),
                None => true,
            };
            proof {
                reveal(Seq::filter);
                let pre = self.data.incomes@.subrange(0, i as int);
                let nxt = self.data.incomes@.subrange(0, i as int + 1);
                assert(nxt.drop_last() =~= pre);
                assert(nxt.last() == self.data.incomes@[i as int]);
            }
            if period_match {
                out.push(inc);
                proof {
                    assert(out@.map_values(|i: &Income| *i) =~= self.data.incomes@.subrange(
                        0,
                        i as int + 1,
                    ).filter(pred));
                }
            } else {
                proof {
                    assert(out@.map_values(|i: &Income| *i) =~= self.data.incomes@.subrange(
                        0,
                        i as int + 1,
                    ).filter(pred));
                }
            }
            i += 1;
        }
        proof {
            assert(self.data.incomes@.subrange(0, self.data.incomes@.len() as int)
                =~= self.data.incomes@);
        }
        out
    }

    /// Select the current month, or the closest later open month when the
    /// current one is closed.
    pub fn select_current_month(&mut self)
        ensures
            default_month_selection(
                old(self).data.months@,
                old(self).data.current_month,
                old(self).ui.selected_month_index as int,
                final(self).ui.selected_month_index as int,
            ),
            *final(self) == (AppState {
                ui: UIState {
                    selected_month_index: final(self).ui.selected_month_index,
                    ..old(self).ui
                },
                ..*old(self)
            }),
    {
        let len = self.data.months.len();
        if len == 0 {
            return;
        }
        let mut default_index: Option<usize> = None;
        if let Some(current) = &self.data.current_month {
            let mut pos: Option<usize> = None;
            let mut i: usize = 0;
            while i < len && pos.is_none()
                invariant
                    len == self.data.months@.len(),
                    i <= len,
                    self.data.current_month == Some(*current),
                    match pos {
                        Some(p) => is_first_index_of(self.data.months@, current.id, p as int),
                        None => forall|j: int|
                            0 <= j < i ==> self.data.months@[j].id != current.id,
                    },
                decreases len - i + (if pos is None {
                    1int
                } else {
                    0int
                }),
            {
                if self.data.months[i].id == current.id {
                    pos = Some(i);
                } else {
                    i += 1;
                }
            }
            if let Some(idx) = pos {
                if current.is_closed {
                    let mut found: Option<usize> = None;
                    let mut j: usize = idx + 1;
                    while j < len && found.is_none()
                        invariant
                            len == self.data.months@.len(),
                            idx < j <= len,
                            match found {
                                Some(f) => is_first_open_after(
                                    self.data.months@,
                                    idx as int,
                                    f as int,
                                ),
                                None => forall|l: int|
                                    idx < l < j ==> self.data.months@[l].is_closed,
                            },
                        decreases len - j + (if found is None {
                            1int
                        } else {
                            0int
                        }),
                    {
                        if !self.data.months[j].is_closed {
                            found = Some(j);
                        } else {
                            j += 1;
                        }
                    }
                    match found {
                        Some(f) => {
                            default_index = Some(f);
                        },
                        None => {
                            default_index = Some(idx);
                            proof {
                                assert(forall|jj: int|
                                    is_first_open_after(
                                        self.data.months@,
                                        idx as int,
                                        jj,
                                    ) ==> false);
                            }
                        },
                    }
                } else {
                    default_index = Some(idx);
                }
            }
        }
        match default_index {
            Some(idx) => {
                self.ui.selected_month_index = idx;
            },
            None => {
                self.ui.selected_month_index = 0;
            },
        }
    }

    /// Replace the expense cache wholesale and clamp the expense selection
    /// to the new filtered view, so it never points past the end.
    pub fn set_expenses(&mut self, expenses: Vec<Expense>)
        ensures
            *final(self) == (AppState {
                data: DataState { expenses, ..old(self).data },
                ui: UIState {
                    expense_selected: clamp_selection(
                        old(self).ui.expense_selected,
                        filtered_expenses_len(
                            (AppState {
                                data: DataState { expenses, ..old(self).data },
                                ..*old(self)
                            }),
                        ),
                    ),
                    ..old(self).ui
                },
                ..*old(self)
            }),
    {
        self.data.expenses = expenses;
        let filtered_len = self.filtered_expenses().len();
        self.ui.expense_selected = clamp_selection_to(self.ui.expense_selected, filtered_len);
    }

    /// Replace the income cache wholesale and clamp the income selection to
    /// the new filtered view.
    pub fn set_incomes(&mut self, incomes: Vec<Income>)
        ensures
            *final(self) == (AppState {
                data: DataState { incomes, ..old(self).data },
                ui: UIState {
                    income_selected: clamp_selection(
                        old(self).ui.income_selected,
                        filtered_incomes_len(
                            (AppState {
                                data: DataState { incomes, ..old(self).data },
                                ..*old(self)
                            }),
                        ),
                    ),
                    ..old(self).ui
                },
                ..*old(self)
            }),
    {
        self.data.incomes = incomes;
        let filtered_len = self.filtered_incomes().len();
        self.ui.income_selected = clamp_selection_to(self.ui.income_selected, filtered_len);
    }

    /// Replace the category cache wholesale and clamp its selection.
    pub fn set_categories(&mut self, categories: Vec<Category>)
        ensures
            *final(self) == (AppState {
                data: DataState { categories, ..old(self).data },
                ui: UIState {
                    category_selected: clamp_selection(
                        old(self).ui.category_selected,
                        categories@.len() as int,
                    ),
                    ..old(self).ui
                },
                ..*old(self)
            }),
    {
        let len = categories.len();
        self.data.categories = categories;
        self.ui.category_selected = clamp_selection_to(self.ui.category_selected, len);
    }

    /// Replace the period cache wholesale and clamp its selection.
    pub fn set_periods(&mut self, periods: Vec<Period>)
        ensures
            *final(self) == (AppState {
                data: DataState { periods, ..old(self).data },
                ui: UIState {
                    period_selected: clamp_selection(
                        old(self).ui.period_selected,
                        periods@.len() as int,
                    ),
                    ..old(self).ui
                },
                ..*old(self)
            }),
    {
        let len = periods.len();
        self.data.periods = periods;
        self.ui.period_selected = clamp_selection_to(self.ui.period_selected, len);
    }

    /// Replace the income-type cache wholesale and clamp its selection.
    pub fn set_income_types(&mut self, income_types: Vec<IncomeType>)
        ensures
            *final(self) == (AppState {
                data: DataState { income_types, ..old(self).data },
                ui: UIState {
                    income_type_selected: clamp_selection(
                        old(self).ui.income_type_selected,
                        income_types@.len() as int,
                    ),
                    ..old(self).ui
                },
                ..*old(self)
            }),
    {
        let len = income_types.len();
        self.data.income_types = income_types;
        self.ui.income_type_selected = clamp_selection_to(self.ui.income_type_selected, len);
    }

    /// Replace the month cache wholesale.
    pub fn set_months(&mut self, months: Vec<Month>)
        ensures
            *final(self) == (AppState {
                data: DataState { months, ..old(self).data },
                ..*old(self)
            }),
    {
        self.data.months = months;
    }

    /// Replace the current-month record wholesale.
    pub fn set_current_month(&mut self, month: Month)
        ensures
            *final(self) == (AppState {
                data: DataState { current_month: Some(month), ..old(self).data },
                ..*old(self)
            }),
    {
        self.data.current_month = Some(month);
    }

    /// Replace the cached summary totals wholesale.
    pub fn set_summary_totals(&mut self, totals: SummaryTotals)
        ensures
            *final(self) == (AppState {
                data: DataState { summary_totals: Some(totals), ..old(self).data },
                ..*old(self)
            }),
    {
        self.data.summary_totals = Some(totals);
    }

    /// Replace the cached category summary wholesale.
    pub fn set_category_summary(&mut self, summary: Vec<CategorySummary>)
        ensures
            *final(self) == (AppState {
                data: DataState { category_summary: summary, ..old(self).data },
                ..*old(self)
            }),
    {
        self.data.category_summary = summary;
    }

    /// Replace the cached income-type summary wholesale.
    pub fn set_income_type_summary(&mut self, summary: Vec<IncomeTypeSummary>)
        ensures
            *final(self) == (AppState {
                data: DataState { income_type_summary: summary, ..old(self).data },
                ..*old(self)
            }),
    {
        self.data.income_type_summary = summary;
    }

    /// Replace the cached per-period summary wholesale.
    pub fn set_period_summary(&mut self, summary: PeriodSummaryResponse)
        ensures
            *final(self) == (AppState {
                data: DataState { period_summary: Some(summary), ..old(self).data },
                ..*old(self)
            }),
    {
        self.data.period_summary = Some(summary);
    }

    /// After a month was closed or reopened on the server, flip that
    /// month's flag in the cache; every other record is kept as it was.
    pub fn set_month_closed(&mut self, month_id: i32, closed: bool)
        ensures
            months_flag_set(old(self).data.months@, final(self).data.months@, month_id, closed),
            *final(self) == (AppState {
                data: DataState { months: final(self).data.months, ..old(self).data },
                ..*old(self)
            }),
    {
        let len = self.data.months.len();
        let mut i: usize = 0;
        while i < len
            invariant
                len == self.data.months@.len(),
                i <= len,
                self.data.months@.len() == old(self).data.months@.len(),
                forall|j: int|
                    i <= j < len ==> #[trigger] self.data.months@[j] == old(
                        self,
                    ).data.months@[j],
                forall|j: int|
                    0 <= j < i ==> #[trigger] self.data.months@[j] == (if old(
                        self,
                    ).data.months@[j].id == month_id {
                        (Month { is_closed: closed, ..old(self).data.months@[j] })
                    } else {
                        old(self).data.months@[j]
                    }),
                self.screen == old(self).screen,
                self.user == old(self).user,
                self.ui == old(self).ui,
                self.data == (DataState { months: self.data.months, ..old(self).data }),
            decreases len - i,
        {
            if self.data.months[i].id == month_id {
                let ghost pre = self.data.months@;
                let taken = self.data.months.remove(i);
                let updated = Month { is_closed: closed, ..taken };
                self.data.months.insert(i, updated);
                proof {
                    assert(self.data.months@ =~= pre.update(
                        i as int,
                        (Month { is_closed: closed, ..pre[i as int] }),
                    ));
                }
            }
            i += 1;
        }
    }

    /// Whether the currently selected month is closed.
    pub fn is_month_closed(&self) -> (r: bool)
        ensures
            r == selected_month_closed(*self),
    {
        match self.selected_month() {
            Some(m) => m.is_closed,
            None => false,
        }
    }

    /// Step the active list's selection one entry down, wrapping.
    pub fn select_next_item(&mut self)
        ensures
            *final(self) == next_item_state(*old(self)),
    {
        match self.ui.selected_tab {
            DashboardTab::Expenses => {
                let len = self.filtered_expenses().len();
                self.ui.expense_selected = wrap_next_exec(self.ui.expense_selected, len);
            },
            DashboardTab::Income => {
                let len = self.filtered_incomes().len();
                self.ui.income_selected = wrap_next_exec(self.ui.income_selected, len);
            },
            DashboardTab::Settings => match self.ui.settings_tab {
                SettingsTab::Categories => {
                    let len = self.data.categories.len();
                    self.ui.category_selected = wrap_next_exec(self.ui.category_selected, len);
                },
                SettingsTab::Periods => {
                    let len = self.data.periods.len();
                    self.ui.period_selected = wrap_next_exec(self.ui.period_selected, len);
                },
                SettingsTab::IncomeTypes => {
                    let len = self.data.income_types.len();
                    self.ui.income_type_selected = wrap_next_exec(
                        self.ui.income_type_selected,
                        len,
                    );
                },
                SettingsTab::Password => {
                    self.ui.settings_tab = self.ui.settings_tab.next();
                },
            },
            _ => {},
        }
    }

    /// Step the active list's selection one entry up, wrapping.
    pub fn select_previous_item(&mut self)
        ensures
            *final(self) == prev_item_state(*old(self)),
    {
        match self.ui.selected_tab {
            DashboardTab::Expenses => {
                let len = self.filtered_expenses().len();
                self.ui.expense_selected = wrap_prev_exec(self.ui.expense_selected, len);
            },
            DashboardTab::Income => {
                let len = self.filtered_incomes().len();
                self.ui.income_selected = wrap_prev_exec(self.ui.income_selected, len);
            },
            DashboardTab::Settings => match self.ui.settings_tab {
                SettingsTab::Categories => {
                    let len = self.data.categories.len();
                    self.ui.category_selected = wrap_prev_exec(self.ui.category_selected, len);
                },
                SettingsTab::Periods => {
                    let len = self.data.periods.len();
                    self.ui.period_selected = wrap_prev_exec(self.ui.period_selected, len);
                },
                SettingsTab::IncomeTypes => {
                    let len = self.data.income_types.len();
                    self.ui.income_type_selected = wrap_prev_exec(
                        self.ui.income_type_selected,
                        len,
                    );
                },
                SettingsTab::Password => {
                    self.ui.settings_tab = self.ui.settings_tab.previous();
                },
            },
            _ => {},
        }
    }

    /// Drop both transient messages.
    pub fn clear_messages(&mut self)
        ensures
            *final(self) == (AppState {
                ui: UIState { error_message: None, success_message: None, ..old(self).ui },
                ..*old(self)
            }),
    {
        self.ui.error_message = None;
        self.ui.success_message = None;
    }

    /// Show an error message, replacing any success message.
    pub fn set_error(&mut self, message: String)
        ensures
            *final(self) == (AppState {
                ui: UIState {
                    error_message: Some(message),
                    success_message: None,
                    ..old(self).ui
                },
                ..*old(self)
            }),
    {
        self.ui.error_message = Some(message);
        self.ui.success_message = None;
    }

    /// Show a success message, replacing any error message.
    pub fn set_success(&mut self, message: String)
        ensures
            *final(self) == (AppState {
                ui: UIState {
                    success_message: Some(message),
                    error_message: None,
                    ..old(self).ui
                },
                ..*old(self)
            }),
    {
        self.ui.success_message = Some(message);
        self.ui.error_message = None;
    }
}

} // verus!
