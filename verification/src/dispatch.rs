//! The event dispatch core: one aggregate owning the whole application
//! state, a key type mirroring the keyboard surface, and one handler per
//! screen and modal context. A handler mutates the aggregate and returns
//! the single command the caller must perform against the remote service;
//! the outcome is folded back through the `apply_*` functions. Nothing here
//! performs I/O.

use vstd::prelude::*;

use crate::client::ApiError;
use crate::color::{generate_random_color, is_hex_color};
use crate::forms::{
    CategoryFormState, ExpenseField, ExpenseFormState, IncomeField, IncomeFormState,
    IncomeTypeFormState, LoginFormState, PasswordFormState, PeriodFormState, PurchaseEditField,
    expense_validation_msgs, income_validation_msgs, login_validation_msgs,
    name_validation_msgs, password_validation_msgs,
};
use crate::models::{
    Category, CategoryCreate, CategoryUpdate, ExpenseCreate, ExpenseFilters, ExpenseUpdate,
    IncomeCreate, IncomeFilters, IncomeType, IncomeTypeCreate, IncomeTypeUpdate, IncomeUpdate,
    PayExpenseRequest, Period, PeriodCreate, PeriodUpdate, Purchase, User,
};
use crate::state::{
    AppState, DashboardTab, DataState, EntityType, Modal, Screen, SettingsTab, UIState,
    next_item_state, prev_item_state, next_month_index, prev_month_index,
    selected_month_closed,
};
use crate::strutil::{join_messages, joined_msgs, push_char, pop_char, text_is_blank};

verus! {

/// The keys the dispatch layer distinguishes, as handed in by the terminal
/// layer. A control-modified character arrives as `Ctrl`.
#[derive(Debug, Clone, Copy, PartialEq, Eq, Structural)]
pub enum Key {
    Char(char),
    Ctrl(char),
    Tab,
    BackTab,
    Enter,
    Esc,
    Backspace,
    Up,
    Down,
    Left,
    Right,
    Insert,
    Delete,
    Other,
}

/// Login form fields.
#[derive(Debug, Clone, Copy, PartialEq, Eq, Structural)]
pub enum LoginField {
    Email,
    Password,
}

impl LoginField {
    pub open spec fn index_spec(self) -> int {
        match self {
            LoginField::Email => 0,
            LoginField::Password => 1,
        }
    }

    pub fn index(self) -> (r: usize)
        ensures
            r == self.index_spec(),
    {
        match self {
            LoginField::Email => 0,
            LoginField::Password => 1,
        }
    }

    /// The field at an index: zero is the email, everything else the
    /// password.
    pub fn from_index(index: usize) -> (r: Self)
        ensures
            index == 0 ==> r == LoginField::Email,
            index != 0 ==> r == LoginField::Password,
    {
        match index {
            0 => LoginField::Email,
            _ => LoginField::Password,
        }
    }

    pub fn count() -> (r: usize)
        ensures
            r == 2,
    {
        2
    }
}

/// Server configuration form fields.
#[derive(Debug, Clone, Copy, PartialEq, Eq, Structural)]
pub enum ApiConfigField {
    ApiUrl,
    ApiKey,
}

impl ApiConfigField {
    pub open spec fn index_spec(self) -> int {
        match self {
            ApiConfigField::ApiUrl => 0,
            ApiConfigField::ApiKey => 1,
        }
    }

    pub fn index(self) -> (r: usize)
        ensures
            r == self.index_spec(),
    {
        match self {
            ApiConfigField::ApiUrl => 0,
            ApiConfigField::ApiKey => 1,
        }
    }

    /// The field at an index: zero is the URL, everything else the key.
    pub fn from_index(index: usize) -> (r: Self)
        ensures
            index == 0 ==> r == ApiConfigField::ApiUrl,
            index != 0 ==> r == ApiConfigField::ApiKey,
    {
        match index {
            0 => ApiConfigField::ApiUrl,
            _ => ApiConfigField::ApiKey,
        }
    }

    pub fn count() -> (r: usize)
        ensures
            r == 2,
    {
        2
    }
}

/// What the caller must perform after a dispatch step: at most one request
/// against the remote service, or one reload of cached data.
#[derive(Debug, Clone, PartialEq)]
pub enum Command {
    /// Nothing to perform.
    Idle,
    /// Authenticate with these credentials.
    Login { email: String, password: String },
    /// Persist the server settings and rebuild the transport.
    SaveConfig { url: String, api_key: String },
    /// Change the password.
    ChangePassword { current: String, new: String },
    CreateExpense(ExpenseCreate),
    UpdateExpense(i32, ExpenseUpdate),
    CreateIncome(IncomeCreate),
    UpdateIncome(i32, IncomeUpdate),
    CreateCategory(CategoryCreate),
    UpdateCategory(i32, CategoryUpdate),
    CreatePeriod(PeriodCreate),
    UpdatePeriod(i32, PeriodUpdate),
    CreateIncomeType(IncomeTypeCreate),
    UpdateIncomeType(i32, IncomeTypeUpdate),
    /// Delete one record of the named kind.
    DeleteEntity { entity: EntityType, id: i32 },
    /// Pay one expense.
    Pay { expense_id: i32, request: PayExpenseRequest },
    /// Close one month.
    CloseMonth { month_id: i32 },
    /// Reopen one month.
    OpenMonth { month_id: i32 },
    /// Reload the data the active tab shows.
    LoadTab,
    /// Reload everything scoped to the selected month.
    LoadMonth,
    /// Reload the settings lists.
    LoadSettings,
    /// Reload everything after authentication.
    LoadInitial,
}

/// The application aggregate: the shared state, the two pre-dashboard
/// screens' fields, one live draft per entity kind, and the quit flag.
#[derive(Debug)]
pub struct App {
    pub state: AppState,
    pub api_url: String,
    pub api_key: String,
    pub api_config_focused_field: usize,
    pub api_config_error: Option<String>,
    pub login_email: String,
    pub login_password: String,
    pub login_focused_field: usize,
    pub login_error: Option<String>,
    pub expense_form: ExpenseFormState,
    pub income_form: IncomeFormState,
    pub category_form: CategoryFormState,
    pub period_form: PeriodFormState,
    pub income_type_form: IncomeTypeFormState,
    pub password_form: PasswordFormState,
    pub should_quit: bool,
}

impl App {
    /// The one structural invariant: the expense draft is well-formed.
    pub open spec fn wf(self) -> bool {
        self.expense_form.wf()
    }

    /// A fresh application over the given server settings: the login
    /// screen, empty forms, nothing loaded.
    pub fn new(api_url: String, api_key: String) -> (r: App)
        ensures
            r.state.screen == Screen::Login,
            r.state.user is None,
            r.api_url == api_url,
            r.api_key == api_key,
            r.api_config_focused_field == 0,
            r.api_config_error is None,
            r.login_email@.len() == 0,
            r.login_password@.len() == 0,
            r.login_focused_field == 0,
            r.login_error is None,
            !r.should_quit,
            r.state.ui.modal is None,
            r.wf(),
    {
        App {
            state: AppState::default(),
            api_url,
            api_key,
            api_config_focused_field: ApiConfigField::ApiUrl.index(),
            api_config_error: None,
            login_email: String::new(),
            login_password: String::new(),
            login_focused_field: LoginField::Email.index(),
            login_error: None,
            expense_form: ExpenseFormState::default(),
            income_form: IncomeFormState::default(),
            category_form: CategoryFormState::default(),
            period_form: PeriodFormState::default(),
            income_type_form: IncomeTypeFormState::default(),
            password_form: PasswordFormState::default(),
            should_quit: false,
        }
    }

    /// Keys on the login screen: Tab and the arrows move the focus, typing
    /// edits the focused field, Enter submits, `s` on an untouched form
    /// reaches the server configuration, and Escape quits. Any key but
    /// Enter clears a shown error first.
    pub fn handle_login_key(&mut self, key: Key) -> (cmd: Command)
        requires
            old(self).wf(),
        ensures
            final(self).wf(),
            login_key_step(*old(self), *final(self), cmd, key),
    {
        if self.login_error.is_some() && key != Key::Enter {
            self.login_error = None;
        }
        match key {
            Key::Tab | Key::Down => {
                self.login_focused_field = (self.login_focused_field % 2 + 1) % 2;
                Command::Idle
            },
            Key::BackTab | Key::Up => {
                self.login_focused_field = if self.login_focused_field == 0 {
                    1
                } else {
                    self.login_focused_field - 1
                };
                Command::Idle
            },
            Key::Enter => self.attempt_login(),
            Key::Char(c) => {
                if c == 's' && self.login_email.as_str().is_empty()
                    && self.login_password.as_str().is_empty() {
                    self.state.screen = Screen::ApiConfig;
                } else {
                    match LoginField::from_index(self.login_focused_field) {
                        LoginField::Email => push_char(&mut self.login_email, c),
                        LoginField::Password => push_char(&mut self.login_password, c),
                    }
                }
                Command::Idle
            },
            Key::Backspace => {
                match LoginField::from_index(self.login_focused_field) {
                    LoginField::Email => {
                        pop_char(&mut self.login_email);
                    },
                    LoginField::Password => {
                        pop_char(&mut self.login_password);
                    },
                }
                Command::Idle
            },
            Key::Esc => {
                self.should_quit = true;
                Command::Idle
            },
            _ => Command::Idle,
        }
    }

    /// Submit the login form: with either credential missing a message is
    /// shown and nothing is sent; otherwise the credentials go out as a
    /// login command.
    pub fn attempt_login(&mut self) -> (cmd: Command)
        requires
            old(self).wf(),
        ensures
            final(self).wf(),
            old(self).login_email@.len() == 0 || old(self).login_password@.len() == 0 ==> {
                &&& final(self).login_error matches Some(m) && m@
                    == "Please enter email and password"@
                &&& *final(self) == (App { login_error: final(self).login_error, ..*old(self) })
                &&& cmd == Command::Idle
            },
            old(self).login_email@.len() > 0 && old(self).login_password@.len() > 0 ==> {
                &&& *final(self) == (App {
                    state: AppState {
                        ui: UIState { is_loading: true, ..old(self).state.ui },
                        ..old(self).state
                    },
                    ..*old(self)
                })
                &&& cmd matches Command::Login { email, password } && email@ == old(self).login_email@ && password@ == old(self).login_password@
            },
    {
        if self.login_email.as_str().is_empty() || self.login_password.as_str().is_empty() {
            self.login_error = Some(String::from_str("Please enter email and password"));
            return Command::Idle;
        }
        self.state.ui.is_loading = true;
        Command::Login { email: self.login_email.clone(), password: self.login_password.clone() }
    }

    /// Fold a successful login back in: the form is cleared, the user
    /// recorded, the dashboard shown, and the initial load requested. The
    /// caller has already stored the token.
    pub fn apply_login_success(&mut self, user: Option<User>) -> (cmd: Command)
        requires
            old(self).wf(),
        ensures
            final(self).wf(),
            final(self).login_email@.len() == 0,
            final(self).login_password@.len() == 0,
            final(self).login_error is None,
            final(self).state.user == user,
            final(self).state.screen == Screen::Dashboard,
            !final(self).state.ui.is_loading,
            *final(self) == (App {
                state: AppState {
                    screen: Screen::Dashboard,
                    user,
                    ui: UIState { is_loading: false, ..old(self).state.ui },
                    ..old(self).state
                },
                login_email: final(self).login_email,
                login_password: final(self).login_password,
                login_error: None,
                ..*old(self)
            }),
            cmd == Command::LoadInitial,
    {
        self.state.user = user;
        self.login_email = String::new();
        self.login_password = String::new();
        self.login_error = None;
        self.state.screen = Screen::Dashboard;
        self.state.ui.is_loading = false;
        Command::LoadInitial
    }

    /// Fold a failed login back in: the screen stays on the login form, no
    /// user or token is recorded, and a message names the failure.
    pub fn apply_login_failure(&mut self, error: &ApiError) -> (cmd: Command)
        requires
            old(self).wf(),
        ensures
            final(self).wf(),
            final(self).state.screen == old(self).state.screen,
            final(self).state.user == old(self).state.user,
            final(self).login_error matches Some(m) && m@ == "Login failed: "@
                + crate::client::api_error_message(*error),
            m_len_positive(final(self).login_error),
            *final(self) == (App {
                state: AppState {
                    ui: UIState { is_loading: false, ..old(self).state.ui },
                    ..old(self).state
                },
                login_error: final(self).login_error,
                ..*old(self)
            }),
            cmd == Command::Idle,
    {
        self.state.ui.is_loading = false;
        let mut msg = String::from_str("Login failed: ");
        let detail = error.message();
        msg.append(detail.as_str());
        proof {
            reveal_strlit("Login failed: ");
        }
        self.login_error = Some(msg);
        Command::Idle
    }

    /// Keys on the server configuration screen: Tab and the arrows move
    /// the focus, typing edits the focused field, Enter validates and
    /// saves, and Escape restores the stored values and goes back to the
    /// login screen. Any key but Enter clears a shown error first.
    pub fn handle_api_config_key(&mut self, key: Key, stored_url: &String, stored_key: &String) -> (cmd:
        Command)
        requires
            old(self).wf(),
        ensures
            final(self).wf(),
            api_config_key_step(*old(self), *final(self), cmd, key, stored_url, stored_key),
    {
        if self.api_config_error.is_some() && key != Key::Enter {
            self.api_config_error = None;
        }
        match key {
            Key::Tab | Key::Down => {
                self.api_config_focused_field = (self.api_config_focused_field % 2 + 1) % 2;
                Command::Idle
            },
            Key::BackTab | Key::Up => {
                self.api_config_focused_field = if self.api_config_focused_field == 0 {
                    1
                } else {
                    self.api_config_focused_field - 1
                };
                Command::Idle
            },
            Key::Enter => self.save_api_config(),
            Key::Char(c) => {
                match ApiConfigField::from_index(self.api_config_focused_field) {
                    ApiConfigField::ApiUrl => push_char(&mut self.api_url, c),
                    ApiConfigField::ApiKey => push_char(&mut self.api_key, c),
                }
                Command::Idle
            },
            Key::Backspace => {
                match ApiConfigField::from_index(self.api_config_focused_field) {
                    ApiConfigField::ApiUrl => {
                        pop_char(&mut self.api_url);
                    },
                    ApiConfigField::ApiKey => {
                        pop_char(&mut self.api_key);
                    },
                }
                Command::Idle
            },
            Key::Esc => {
                self.api_url = stored_url.clone();
                self.api_key = stored_key.clone();
                self.api_config_error = None;
                self.state.screen = Screen::Login;
                Command::Idle
            },
            _ => Command::Idle,
        }
    }

    /// Submit the server configuration: with an empty URL a message is
    /// shown and nothing is saved; otherwise the settings go out as a save
    /// command for the caller to persist.
    pub fn save_api_config(&mut self) -> (cmd: Command)
        requires
            old(self).wf(),
        ensures
            final(self).wf(),
            old(self).api_url@.len() == 0 ==> {
                &&& final(self).api_config_error matches Some(m) && m@ == "API URL is required"@
                &&& *final(self) == (App {
                    api_config_error: final(self).api_config_error,
                    ..*old(self)
                })
                &&& cmd == Command::Idle
            },
            old(self).api_url@.len() > 0 ==> {
                &&& *final(self) == *old(self)
                &&& cmd matches Command::SaveConfig { url, api_key } && url@ == old(self).api_url@
                    && api_key@ == old(self).api_key@
            },
    {
        if self.api_url.as_str().is_empty() {
            self.api_config_error = Some(String::from_str("API URL is required"));
            return Command::Idle;
        }
        Command::SaveConfig { url: self.api_url.clone(), api_key: self.api_key.clone() }
    }

    /// Fold the outcome of saving the configuration back in: on success
    /// the screen returns to login; on failure a message names what went
    /// wrong and the screen stays.
    pub fn apply_save_config_result(&mut self, error: Option<String>) -> (cmd: Command)
        requires
            old(self).wf(),
        ensures
            final(self).wf(),
            error is None ==> *final(self) == (App {
                state: AppState { screen: Screen::Login, ..old(self).state },
                api_config_error: None,
                ..*old(self)
            }),
            error matches Some(m) ==> *final(self) == (App {
                api_config_error: Some(m),
                ..*old(self)
            }),
            cmd == Command::Idle,
    {
        match error {
            None => {
                self.api_config_error = None;
                self.state.screen = Screen::Login;
            },
            Some(m) => {
                self.api_config_error = Some(m);
            },
        }
        Command::Idle
    }
}

/// What one key does on the login screen; the handler's whole contract.
pub open spec fn login_key_step(pre: App, post: App, cmd: Command, key: Key) -> bool {
    ({
        let cleared: Option<String> = if pre.login_error is Some && key != Key::Enter {
            None
        } else {
            pre.login_error
        };
        match key {
            Key::Tab | Key::Down => {
                &&& post == (App {
                    login_focused_field: (((pre.login_focused_field as int) + 1)
                        % 2) as usize,
                    login_error: cleared,
                    ..pre
                })
                &&& cmd == Command::Idle
            },
            Key::BackTab | Key::Up => {
                &&& post == (App {
                    login_focused_field: (if pre.login_focused_field == 0 {
                        1usize
                    } else {
                        ((pre.login_focused_field as int) - 1) as usize
                    }),
                    login_error: cleared,
                    ..pre
                })
                &&& cmd == Command::Idle
            },
            Key::Enter => {
                if pre.login_email@.len() == 0 || pre.login_password@.len()
                    == 0 {
                    &&& post.login_error matches Some(m) && m@
                        == "Please enter email and password"@
                    &&& post == (App {
                        login_error: post.login_error,
                        ..pre
                    })
                    &&& cmd == Command::Idle
                } else {
                    &&& post == (App {
                        state: AppState {
                            ui: UIState { is_loading: true, ..pre.state.ui },
                            ..pre.state
                        },
                        ..pre
                    })
                    &&& cmd matches Command::Login { email, password } && email@ == pre.login_email@ && password@ == pre.login_password@
                }
            },
            Key::Char(c) => {
                if c == 's' && pre.login_email@.len() == 0 && pre.login_password@.len() == 0 {
                    &&& post == (App {
                        state: AppState { screen: Screen::ApiConfig, ..pre.state },
                        login_error: cleared,
                        ..pre
                    })
                    &&& cmd == Command::Idle
                } else if pre.login_focused_field == 0 {
                    &&& post == (App {
                        login_email: post.login_email,
                        login_error: cleared,
                        ..pre
                    })
                    &&& post.login_email@ == pre.login_email@.push(c)
                    &&& cmd == Command::Idle
                } else {
                    &&& post == (App {
                        login_password: post.login_password,
                        login_error: cleared,
                        ..pre
                    })
                    &&& post.login_password@ == pre.login_password@.push(c)
                    &&& cmd == Command::Idle
                }
            },
            Key::Backspace => {
                if pre.login_focused_field == 0 {
                    &&& post == (App {
                        login_email: post.login_email,
                        login_error: cleared,
                        ..pre
                    })
                    &&& post.login_email@ == (if pre.login_email@.len() == 0 {
                        pre.login_email@
                    } else {
                        pre.login_email@.drop_last()
                    })
                    &&& cmd == Command::Idle
                } else {
                    &&& post == (App {
                        login_password: post.login_password,
                        login_error: cleared,
                        ..pre
                    })
                    &&& post.login_password@ == (if pre.login_password@.len() == 0 {
                        pre.login_password@
                    } else {
                        pre.login_password@.drop_last()
                    })
                    &&& cmd == Command::Idle
                }
            },
            Key::Esc => {
                &&& post == (App {
                    should_quit: true,
                    login_error: cleared,
                    ..pre
                })
                &&& cmd == Command::Idle
            },
            _ => {
                &&& post == (App { login_error: cleared, ..pre })
                &&& cmd == Command::Idle
            },
        }
            })
}

/// What one key does on the server-configuration screen; the handler's
/// whole contract.
pub open spec fn api_config_key_step(
    pre: App,
    post: App,
    cmd: Command,
    key: Key,
    stored_url: &String,
    stored_key: &String,
) -> bool {
    let cleared: Option<String> = if pre.api_config_error is Some && key
        != Key::Enter {
        None
    } else {
        pre.api_config_error
    };
    match key {
        Key::Tab | Key::Down => {
            &&& post == (App {
                api_config_focused_field: (((pre.api_config_focused_field
                    as int) + 1) % 2) as usize,
                api_config_error: cleared,
                ..pre
            })
            &&& cmd == Command::Idle
        },
        Key::BackTab | Key::Up => {
            &&& post == (App {
                api_config_focused_field: (if pre.api_config_focused_field == 0 {
                    1usize
                } else {
                    ((pre.api_config_focused_field as int) - 1) as usize
                }),
                api_config_error: cleared,
                ..pre
            })
            &&& cmd == Command::Idle
        },
        Key::Enter => {
            if pre.api_url@.len() == 0 {
                &&& post.api_config_error matches Some(m) && m@
                    == "API URL is required"@
                &&& post == (App {
                    api_config_error: post.api_config_error,
                    ..pre
                })
                &&& cmd == Command::Idle
            } else {
                &&& post == pre
                &&& cmd matches Command::SaveConfig { url, api_key } && url@ == pre.api_url@ && api_key@ == pre.api_key@
            }
        },
        Key::Char(c) => {
            if pre.api_config_focused_field == 0 {
                &&& post == (App {
                    api_url: post.api_url,
                    api_config_error: cleared,
                    ..pre
                })
                &&& post.api_url@ == pre.api_url@.push(c)
                &&& cmd == Command::Idle
            } else {
                &&& post == (App {
                    api_key: post.api_key,
                    api_config_error: cleared,
                    ..pre
                })
                &&& post.api_key@ == pre.api_key@.push(c)
                &&& cmd == Command::Idle
            }
        },
        Key::Backspace => {
            if pre.api_config_focused_field == 0 {
                &&& post == (App {
                    api_url: post.api_url,
                    api_config_error: cleared,
                    ..pre
                })
                &&& post.api_url@ == (if pre.api_url@.len() == 0 {
                    pre.api_url@
                } else {
                    pre.api_url@.drop_last()
                })
                &&& cmd == Command::Idle
            } else {
                &&& post == (App {
                    api_key: post.api_key,
                    api_config_error: cleared,
                    ..pre
                })
                &&& post.api_key@ == (if pre.api_key@.len() == 0 {
                    pre.api_key@
                } else {
                    pre.api_key@.drop_last()
                })
                &&& cmd == Command::Idle
            }
        },
        Key::Esc => {
            &&& post == (App {
                state: AppState { screen: Screen::Login, ..pre.state },
                api_url: post.api_url,
                api_key: post.api_key,
                api_config_error: None,
                ..pre
            })
            &&& post.api_url@ == stored_url@
            &&& post.api_key@ == stored_key@
            &&& cmd == Command::Idle
        },
        _ => {
            &&& post == (App { api_config_error: cleared, ..pre })
            &&& cmd == Command::Idle
        },
    }
}

/// What one key does on the dashboard while no modal is open; the
/// handler's whole contract, including the closed-month guard: a
/// record-level action on a guarded tab shows a message and opens no
/// modal.
pub open spec fn dashboard_key_step(pre: App, post: App, cmd: Command, key: Key) -> bool {
    &&& ({
    let s = pre.state;
    match key {
        Key::Char('q') => post == (App { should_quit: true, ..pre })
            && cmd == Command::Idle,
        Key::Char('?') => post == (App {
            state: AppState {
                ui: UIState { modal: Some(Modal::Help), ..s.ui },
                ..s
            },
            ..pre
        }) && cmd == Command::Idle,
        Key::Tab => post == (App {
            state: AppState {
                ui: UIState {
                    selected_tab: s.ui.selected_tab.next_spec(),
                    ..s.ui
                },
                ..s
            },
            ..pre
        }) && cmd == Command::LoadTab,
        Key::BackTab => post == (App {
            state: AppState {
                ui: UIState {
                    selected_tab: s.ui.selected_tab.previous_spec(),
                    ..s.ui
                },
                ..s
            },
            ..pre
        }) && cmd == Command::LoadTab,
        Key::Char('1') => digit_key_step(
            pre,
            post,
            cmd,
            SettingsTab::Categories,
            DashboardTab::Summary,
        ),
        Key::Char('2') => digit_key_step(
            pre,
            post,
            cmd,
            SettingsTab::Periods,
            DashboardTab::Expenses,
        ),
        Key::Char('3') => digit_key_step(
            pre,
            post,
            cmd,
            SettingsTab::IncomeTypes,
            DashboardTab::Income,
        ),
        Key::Char('4') => digit_key_step(
            pre,
            post,
            cmd,
            SettingsTab::Password,
            DashboardTab::Charts,
        ),
        Key::Char('5') => post == (App {
            state: AppState {
                ui: UIState { selected_tab: DashboardTab::Settings, ..s.ui },
                ..s
            },
            ..pre
        }) && cmd == Command::LoadTab,
        Key::Char('h') | Key::Left => post == (App {
            state: AppState {
                ui: UIState {
                    selected_month_index: prev_month_index(
                        s.ui.selected_month_index as int,
                    ) as usize,
                    ..s.ui
                },
                ..s
            },
            ..pre
        }) && cmd == Command::LoadMonth,
        Key::Char('l') | Key::Right => post == (App {
            state: AppState {
                ui: UIState {
                    selected_month_index: next_month_index(
                        s.data.months@.len() as int,
                        s.ui.selected_month_index as int,
                    ) as usize,
                    ..s.ui
                },
                ..s
            },
            ..pre
        }) && cmd == Command::LoadMonth,
        Key::Char('j') | Key::Down => post == (App {
            state: next_item_state(s),
            ..pre
        }) && cmd == Command::Idle,
        Key::Char('k') | Key::Up => post == (App {
            state: prev_item_state(s),
            ..pre
        }) && cmd == Command::Idle,
        Key::Char('n') => new_item_step(pre, post) && cmd == Command::Idle,
        Key::Char('e') | Key::Enter => edit_item_step(pre, post) && cmd == Command::Idle,
        Key::Char('d') => delete_confirmation_step(pre, post) && cmd == Command::Idle,
        Key::Char('p') => pay_confirmation_step(pre, post) && cmd == Command::Idle,
        Key::Char('c') => close_month_confirmation_step(pre, post) && cmd == Command::Idle,
        _ => post == pre && cmd == Command::Idle,
    }
})
    &&& ({
    let s = pre.state;
    let guarded_tab = s.ui.selected_tab == DashboardTab::Expenses
        || s.ui.selected_tab == DashboardTab::Income;
    (match key {
        Key::Char('n') | Key::Char('e') | Key::Enter | Key::Char('d') => guarded_tab
            && selected_month_closed(s),
        Key::Char('p') => s.ui.selected_tab == DashboardTab::Expenses
            && selected_month_closed(s),
        _ => false,
    }) ==> {
        &&& post.state.ui.modal == s.ui.modal
        &&& post.state.ui.error_message is Some
        &&& m_len_positive(post.state.ui.error_message)
    }
})
}

/// The position one cycle step away, wrapping over the list length.
pub open spec fn cycle_pos(i: int, len: int, forward: bool) -> int {
    if forward {
        if i + 1 >= len {
            0
        } else {
            i + 1
        }
    } else {
        if i == 0 {
            len - 1
        } else {
            i - 1
        }
    }
}

/// `i` is the first position in `ps` whose period carries this name.
pub open spec fn is_first_period_match(ps: Seq<Period>, name: Seq<char>, i: int) -> bool {
    &&& 0 <= i < ps.len()
    &&& ps[i].name@ == name
    &&& forall|j: int| 0 <= j < i ==> ps[j].name@ != name
}

/// Cycling a period selection by name: where the current name occurs in
/// the list, the new name is one wrapping step away from its first
/// occurrence; where it does not, nothing moves.
pub open spec fn period_name_cycled(
    ps: Seq<Period>,
    pre: Seq<char>,
    post: Seq<char>,
    forward: bool,
) -> bool {
    if exists|i: int| is_first_period_match(ps, pre, i) {
        exists|i: int|
            #[trigger] is_first_period_match(ps, pre, i) && post == ps[cycle_pos(
                i,
                ps.len() as int,
                forward,
            )].name@
    } else {
        post == pre
    }
}

/// `i` is the first position in `cs` whose category carries this name.
pub open spec fn is_first_category_match(cs: Seq<Category>, name: Seq<char>, i: int) -> bool {
    &&& 0 <= i < cs.len()
    &&& cs[i].name@ == name
    &&& forall|j: int| 0 <= j < i ==> cs[j].name@ != name
}

/// Cycling a category selection by name, as for periods.
pub open spec fn category_name_cycled(
    cs: Seq<Category>,
    pre: Seq<char>,
    post: Seq<char>,
    forward: bool,
) -> bool {
    if exists|i: int| is_first_category_match(cs, pre, i) {
        exists|i: int|
            #[trigger] is_first_category_match(cs, pre, i) && post == cs[cycle_pos(
                i,
                cs.len() as int,
                forward,
            )].name@
    } else {
        post == pre
    }
}

/// `i` is the first position in `ts` whose income type carries this id.
pub open spec fn is_first_income_type_match(ts: Seq<IncomeType>, id: i32, i: int) -> bool {
    &&& 0 <= i < ts.len()
    &&& ts[i].id == id
    &&& forall|j: int| 0 <= j < i ==> ts[j].id != id
}

/// Cycling an income-type selection by id: with a selected id that occurs
/// in the list, the new id is one wrapping step away from its first
/// occurrence; otherwise nothing moves.
pub open spec fn income_type_id_cycled(
    ts: Seq<IncomeType>,
    pre: Option<i32>,
    post: Option<i32>,
    forward: bool,
) -> bool {
    match pre {
        Some(cur) => if exists|i: int| is_first_income_type_match(ts, cur, i) {
            exists|i: int|
                #[trigger] is_first_income_type_match(ts, cur, i) && post == Some(
                    ts[cycle_pos(i, ts.len() as int, forward)].id,
                )
        } else {
            post == pre
        },
        None => post == pre,
    }
}

/// Cycle a period name through the cached periods; nothing when the
/// current name has no match.
fn cycle_period(periods: &Vec<Period>, current: &String, forward: bool) -> (r: Option<String>)
    ensures
        r matches Some(n) ==> period_name_cycled(periods@, current@, n@, forward),
        r is None ==> forall|j: int| 0 <= j < periods@.len() ==> periods@[j].name@ != current@,
{
    let len = periods.len();
    let mut i: usize = 0;
    while i < len
        invariant
            len == periods@.len(),
            i <= len,
            forall|j: int| 0 <= j < i ==> periods@[j].name@ != current@,
        decreases len - i,
    {
        if periods[i].name.eq(current) {
            let new_idx = if forward {
                if i + 1 >= len {
                    0
                } else {
                    i + 1
                }
            } else {
                if i == 0 {
                    len - 1
                } else {
                    i - 1
                }
            };
            proof {
                assert(is_first_period_match(periods@, current@, i as int));
            }
            return Some(periods[new_idx].name.clone());
        }
        i += 1;
    }
    None
}

/// Cycle a category name through the cached categories.
fn cycle_category(categories: &Vec<Category>, current: &String, forward: bool) -> (r: Option<
    String,
>)
    ensures
        r matches Some(n) ==> category_name_cycled(categories@, current@, n@, forward),
        r is None ==> forall|j: int|
            0 <= j < categories@.len() ==> categories@[j].name@ != current@,
{
    let len = categories.len();
    let mut i: usize = 0;
    while i < len
        invariant
            len == categories@.len(),
            i <= len,
            forall|j: int| 0 <= j < i ==> categories@[j].name@ != current@,
        decreases len - i,
    {
        if categories[i].name.eq(current) {
            let new_idx = if forward {
                if i + 1 >= len {
                    0
                } else {
                    i + 1
                }
            } else {
                if i == 0 {
                    len - 1
                } else {
                    i - 1
                }
            };
            proof {
                assert(is_first_category_match(categories@, current@, i as int));
            }
            return Some(categories[new_idx].name.clone());
        }
        i += 1;
    }
    None
}

/// Cycle an income-type id through the cached income types.
fn cycle_income_type(types: &Vec<IncomeType>, current: i32, forward: bool) -> (r: Option<i32>)
    ensures
        r matches Some(id) ==> income_type_id_cycled(types@, Some(current), Some(id), forward),
        r is None ==> forall|j: int| 0 <= j < types@.len() ==> types@[j].id != current,
{
    let len = types.len();
    let mut i: usize = 0;
    while i < len
        invariant
            len == types@.len(),
            i <= len,
            forall|j: int| 0 <= j < i ==> types@[j].id != current,
        decreases len - i,
    {
        if types[i].id == current {
            let new_idx = if forward {
                if i + 1 >= len {
                    0
                } else {
                    i + 1
                }
            } else {
                if i == 0 {
                    len - 1
                } else {
                    i - 1
                }
            };
            proof {
                assert(is_first_income_type_match(types@, current, i as int));
                assert(new_idx as int == cycle_pos(i as int, types@.len() as int, forward));
                assert(income_type_id_cycled(
                    types@,
                    Some(current),
                    Some(types@[new_idx as int].id),
                    forward,
                ));
            }
            return Some(types[new_idx].id);
        }
        i += 1;
    }
    None
}

/// `post` is `pre` with only the expense draft changed.
pub open spec fn only_expense_form(pre: App, post: App) -> bool {
    post == (App { expense_form: post.expense_form, ..pre })
}

/// `post` is `pre` with the modal closed and nothing else moved.
pub open spec fn modal_closed(pre: App, post: App) -> bool {
    post == (App {
        state: AppState {
            ui: UIState { modal: None, ..pre.state.ui },
            ..pre.state
        },
        ..pre
    })
}

/// One purchase line's name replaced, all other lines untouched.
pub open spec fn purchase_name_edited(
    pre: Seq<Purchase>,
    post: Seq<Purchase>,
    sel: int,
    name: Seq<char>,
) -> bool {
    &&& post.len() == pre.len()
    &&& forall|j: int| 0 <= j < pre.len() && j != sel ==> post[j] == pre[j]
    &&& post[sel].name@ == name
    &&& post[sel].amount == pre[sel].amount
    &&& post[sel].date == pre[sel].date
}

/// One editable amount text replaced, all others untouched.
pub open spec fn amount_input_edited(
    pre: Seq<String>,
    post: Seq<String>,
    sel: int,
    text: Seq<char>,
) -> bool {
    &&& post.len() == pre.len()
    &&& forall|j: int| 0 <= j < pre.len() && j != sel ==> post[j] == pre[j]
    &&& post[sel]@ == text
}

/// A text with one character appended.
pub open spec fn pushed(pre: Seq<char>, c: char) -> Seq<char> {
    pre.push(c)
}

/// A text with its last character removed; an empty text stays empty.
pub open spec fn popped(pre: Seq<char>) -> Seq<char> {
    if pre.len() == 0 {
        pre
    } else {
        pre.drop_last()
    }
}

/// Whether this character may enter a numeric field holding this text:
/// digits always, a decimal point only as the first one.
pub open spec fn numeric_key_allowed(text: Seq<char>, c: char) -> bool {
    crate::money::is_digit_char(c) || (c == '.' && !text.contains('.'))
}

/// What one key does inside the expense form modal; the handler's whole
/// contract. With focus on the purchases field the purchase-line editor
/// runs; on the other fields the text and selection editors run; Enter
/// submits, except that on an empty purchase list it adds a first line.
pub open spec fn expense_form_key_step(pre: App, post: App, cmd: Command, key: Key) -> bool {
    let f = pre.expense_form;
    let s = pre.state;
    if f.focused_field == ExpenseField::Purchases {
        match key {
            Key::Ctrl('n') | Key::Insert => only_expense_form(pre, post)
                && crate::forms::purchase_line_added(f, post.expense_form) && cmd == Command::Idle,
            Key::Ctrl('d') | Key::Delete => only_expense_form(pre, post)
                && crate::forms::purchase_line_removed(f, post.expense_form) && cmd
                == Command::Idle,
            Key::Esc => modal_closed(pre, post) && cmd == Command::Idle,
            Key::Tab => only_expense_form(pre, post) && post.expense_form == (ExpenseFormState {
                focused_field: f.focused_field.next_spec(),
                ..f
            }) && cmd == Command::Idle,
            Key::BackTab => only_expense_form(pre, post) && post.expense_form
                == (ExpenseFormState { focused_field: f.focused_field.previous_spec(), ..f })
                && cmd == Command::Idle,
            Key::Enter => if f.purchases@.len() == 0 {
                only_expense_form(pre, post) && crate::forms::purchase_line_added(
                    f,
                    post.expense_form,
                ) && cmd == Command::Idle
            } else {
                expense_save_step(pre, post, cmd)
            },
            Key::Up => only_expense_form(pre, post) && post.expense_form == (ExpenseFormState {
                selected_purchase: (if f.selected_purchase > 0 {
                    (f.selected_purchase - 1) as usize
                } else {
                    f.selected_purchase
                }),
                ..f
            }) && cmd == Command::Idle,
            Key::Down => only_expense_form(pre, post) && post.expense_form == (ExpenseFormState {
                selected_purchase: (if f.purchases@.len() > 0 && (f.selected_purchase as int)
                    < f.purchases@.len() - 1 {
                    (f.selected_purchase + 1) as usize
                } else {
                    f.selected_purchase
                }),
                ..f
            }) && cmd == Command::Idle,
            Key::Left | Key::Right => only_expense_form(pre, post) && post.expense_form
                == (ExpenseFormState {
                purchase_edit_field: (match f.purchase_edit_field {
                    PurchaseEditField::Name => PurchaseEditField::Amount,
                    PurchaseEditField::Amount => PurchaseEditField::Name,
                }),
                ..f
            }) && cmd == Command::Idle,
            Key::Char(c) => {
                let sel = f.selected_purchase as int;
                match f.purchase_edit_field {
                    PurchaseEditField::Name => if sel < f.purchases@.len() {
                        &&& only_expense_form(pre, post)
                        &&& post.expense_form == (ExpenseFormState {
                            purchases: post.expense_form.purchases,
                            ..f
                        })
                        &&& purchase_name_edited(
                            f.purchases@,
                            post.expense_form.purchases@,
                            sel,
                            pushed(f.purchases@[sel].name@, c),
                        )
                        &&& cmd == Command::Idle
                    } else {
                        post == pre && cmd == Command::Idle
                    },
                    PurchaseEditField::Amount => if sel < f.purchase_amount_inputs@.len()
                        && numeric_key_allowed(f.purchase_amount_inputs@[sel]@, c) {
                        &&& only_expense_form(pre, post)
                        &&& post.expense_form == (ExpenseFormState {
                            purchase_amount_inputs: post.expense_form.purchase_amount_inputs,
                            ..f
                        })
                        &&& amount_input_edited(
                            f.purchase_amount_inputs@,
                            post.expense_form.purchase_amount_inputs@,
                            sel,
                            pushed(f.purchase_amount_inputs@[sel]@, c),
                        )
                        &&& cmd == Command::Idle
                    } else {
                        post == pre && cmd == Command::Idle
                    },
                }
            },
            Key::Backspace => {
                let sel = f.selected_purchase as int;
                match f.purchase_edit_field {
                    PurchaseEditField::Name => if sel < f.purchases@.len() {
                        &&& only_expense_form(pre, post)
                        &&& post.expense_form == (ExpenseFormState {
                            purchases: post.expense_form.purchases,
                            ..f
                        })
                        &&& purchase_name_edited(
                            f.purchases@,
                            post.expense_form.purchases@,
                            sel,
                            popped(f.purchases@[sel].name@),
                        )
                        &&& cmd == Command::Idle
                    } else {
                        post == pre && cmd == Command::Idle
                    },
                    PurchaseEditField::Amount => if sel < f.purchase_amount_inputs@.len() {
                        &&& only_expense_form(pre, post)
                        &&& post.expense_form == (ExpenseFormState {
                            purchase_amount_inputs: post.expense_form.purchase_amount_inputs,
                            ..f
                        })
                        &&& amount_input_edited(
                            f.purchase_amount_inputs@,
                            post.expense_form.purchase_amount_inputs@,
                            sel,
                            popped(f.purchase_amount_inputs@[sel]@),
                        )
                        &&& cmd == Command::Idle
                    } else {
                        post == pre && cmd == Command::Idle
                    },
                }
            },
            _ => post == pre && cmd == Command::Idle,
        }
    } else {
        match key {
            Key::Esc => modal_closed(pre, post) && cmd == Command::Idle,
            Key::Tab => only_expense_form(pre, post) && post.expense_form == (ExpenseFormState {
                focused_field: f.focused_field.next_spec(),
                ..f
            }) && cmd == Command::Idle,
            Key::BackTab => only_expense_form(pre, post) && post.expense_form
                == (ExpenseFormState { focused_field: f.focused_field.previous_spec(), ..f })
                && cmd == Command::Idle,
            Key::Enter => expense_save_step(pre, post, cmd),
            Key::Left | Key::Right => {
                let forward = key == Key::Right;
                match f.focused_field {
                    ExpenseField::Period => only_expense_form(pre, post) && post.expense_form
                        == (ExpenseFormState { period: post.expense_form.period, ..f })
                        && period_name_cycled(
                        s.data.periods@,
                        f.period@,
                        post.expense_form.period@,
                        forward,
                    ) && cmd == Command::Idle,
                    ExpenseField::Category => only_expense_form(pre, post) && post.expense_form
                        == (ExpenseFormState { category: post.expense_form.category, ..f })
                        && category_name_cycled(
                        s.data.categories@,
                        f.category@,
                        post.expense_form.category@,
                        forward,
                    ) && cmd == Command::Idle,
                    _ => post == pre && cmd == Command::Idle,
                }
            },
            Key::Char(c) => match f.focused_field {
                ExpenseField::Name => only_expense_form(pre, post) && post.expense_form
                    == (ExpenseFormState { name: post.expense_form.name, ..f })
                    && post.expense_form.name@ == pushed(f.name@, c) && cmd == Command::Idle,
                ExpenseField::Budget => if numeric_key_allowed(f.budget@, c) {
                    only_expense_form(pre, post) && post.expense_form == (ExpenseFormState {
                        budget: post.expense_form.budget,
                        ..f
                    }) && post.expense_form.budget@ == pushed(f.budget@, c) && cmd
                        == Command::Idle
                } else {
                    post == pre && cmd == Command::Idle
                },
                ExpenseField::Notes => only_expense_form(pre, post) && post.expense_form
                    == (ExpenseFormState { notes: post.expense_form.notes, ..f })
                    && post.expense_form.notes@ == pushed(f.notes@, c) && cmd == Command::Idle,
                _ => post == pre && cmd == Command::Idle,
            },
            Key::Backspace => match f.focused_field {
                ExpenseField::Name => only_expense_form(pre, post) && post.expense_form
                    == (ExpenseFormState { name: post.expense_form.name, ..f })
                    && post.expense_form.name@ == popped(f.name@) && cmd == Command::Idle,
                ExpenseField::Budget => only_expense_form(pre, post) && post.expense_form
                    == (ExpenseFormState { budget: post.expense_form.budget, ..f })
                    && post.expense_form.budget@ == popped(f.budget@) && cmd == Command::Idle,
                ExpenseField::Notes => only_expense_form(pre, post) && post.expense_form
                    == (ExpenseFormState { notes: post.expense_form.notes, ..f })
                    && post.expense_form.notes@ == popped(f.notes@) && cmd == Command::Idle,
                _ => post == pre && cmd == Command::Idle,
            },
            _ => post == pre && cmd == Command::Idle,
        }
    }
}

/// `post` is `pre` with only the income draft changed.
pub open spec fn only_income_form(pre: App, post: App) -> bool {
    post == (App { income_form: post.income_form, ..pre })
}

/// What one key does inside the income form modal; the handler's whole
/// contract.
pub open spec fn income_form_key_step(pre: App, post: App, cmd: Command, key: Key) -> bool {
    let f = pre.income_form;
    let s = pre.state;
    match key {
        Key::Esc => modal_closed(pre, post) && cmd == Command::Idle,
        Key::Tab => only_income_form(pre, post) && post.income_form == (IncomeFormState {
            focused_field: f.focused_field.next_spec(),
            ..f
        }) && cmd == Command::Idle,
        Key::BackTab => only_income_form(pre, post) && post.income_form == (IncomeFormState {
            focused_field: f.focused_field.previous_spec(),
            ..f
        }) && cmd == Command::Idle,
        Key::Enter => income_save_step(pre, post, cmd),
        Key::Left | Key::Right => {
            let forward = key == Key::Right;
            match f.focused_field {
                IncomeField::IncomeType => only_income_form(pre, post) && post.income_form
                    == (IncomeFormState {
                    income_type_id: post.income_form.income_type_id,
                    ..f
                }) && income_type_id_cycled(
                    s.data.income_types@,
                    f.income_type_id,
                    post.income_form.income_type_id,
                    forward,
                ) && cmd == Command::Idle,
                IncomeField::Period => only_income_form(pre, post) && post.income_form
                    == (IncomeFormState { period: post.income_form.period, ..f })
                    && period_name_cycled(
                    s.data.periods@,
                    f.period@,
                    post.income_form.period@,
                    forward,
                ) && cmd == Command::Idle,
                _ => post == pre && cmd == Command::Idle,
            }
        },
        Key::Char(c) => match f.focused_field {
            IncomeField::Budget => if numeric_key_allowed(f.budget@, c) {
                only_income_form(pre, post) && post.income_form == (IncomeFormState {
                    budget: post.income_form.budget,
                    ..f
                }) && post.income_form.budget@ == pushed(f.budget@, c) && cmd == Command::Idle
            } else {
                post == pre && cmd == Command::Idle
            },
            IncomeField::Amount => if numeric_key_allowed(f.amount@, c) {
                only_income_form(pre, post) && post.income_form == (IncomeFormState {
                    amount: post.income_form.amount,
                    ..f
                }) && post.income_form.amount@ == pushed(f.amount@, c) && cmd == Command::Idle
            } else {
                post == pre && cmd == Command::Idle
            },
            _ => post == pre && cmd == Command::Idle,
        },
        Key::Backspace => match f.focused_field {
            IncomeField::Budget => only_income_form(pre, post) && post.income_form
                == (IncomeFormState { budget: post.income_form.budget, ..f })
                && post.income_form.budget@ == popped(f.budget@) && cmd == Command::Idle,
            IncomeField::Amount => only_income_form(pre, post) && post.income_form
                == (IncomeFormState { amount: post.income_form.amount, ..f })
                && post.income_form.amount@ == popped(f.amount@) && cmd == Command::Idle,
            _ => post == pre && cmd == Command::Idle,
        },
        _ => post == pre && cmd == Command::Idle,
    }
}

/// What one key does inside a category, period or income-type form modal;
/// the handler's whole contract. Typing edits the name, `r` draws a fresh
/// color, Enter submits.
pub open spec fn entity_form_key_step(
    pre: App,
    post: App,
    cmd: Command,
    key: Key,
    kind: EntityType,
) -> bool {
    match key {
        Key::Esc => modal_closed(pre, post) && cmd == Command::Idle,
        Key::Tab | Key::BackTab => post == pre && cmd == Command::Idle,
        Key::Enter => match kind {
            EntityType::Category => category_save_step(pre, post, cmd),
            EntityType::Period => period_save_step(pre, post, cmd),
            EntityType::IncomeType => income_type_save_step(pre, post, cmd),
            _ => post == pre && cmd == Command::Idle,
        },
        Key::Char(c) => if c == 'r' {
            match kind {
                EntityType::Category => post == (App {
                    category_form: post.category_form,
                    ..pre
                }) && post.category_form == (CategoryFormState {
                    color: post.category_form.color,
                    ..pre.category_form
                }) && is_hex_color(post.category_form.color@) && cmd == Command::Idle,
                EntityType::Period => post == (App { period_form: post.period_form, ..pre })
                    && post.period_form == (PeriodFormState {
                    color: post.period_form.color,
                    ..pre.period_form
                }) && is_hex_color(post.period_form.color@) && cmd == Command::Idle,
                EntityType::IncomeType => post == (App {
                    income_type_form: post.income_type_form,
                    ..pre
                }) && post.income_type_form == (IncomeTypeFormState {
                    color: post.income_type_form.color,
                    ..pre.income_type_form
                }) && is_hex_color(post.income_type_form.color@) && cmd == Command::Idle,
                _ => post == pre && cmd == Command::Idle,
            }
        } else {
            match kind {
                EntityType::Category => post == (App {
                    category_form: post.category_form,
                    ..pre
                }) && post.category_form == (CategoryFormState {
                    name: post.category_form.name,
                    ..pre.category_form
                }) && post.category_form.name@ == pushed(pre.category_form.name@, c) && cmd
                    == Command::Idle,
                EntityType::Period => post == (App { period_form: post.period_form, ..pre })
                    && post.period_form == (PeriodFormState {
                    name: post.period_form.name,
                    ..pre.period_form
                }) && post.period_form.name@ == pushed(pre.period_form.name@, c) && cmd
                    == Command::Idle,
                EntityType::IncomeType => post == (App {
                    income_type_form: post.income_type_form,
                    ..pre
                }) && post.income_type_form == (IncomeTypeFormState {
                    name: post.income_type_form.name,
                    ..pre.income_type_form
                }) && post.income_type_form.name@ == pushed(pre.income_type_form.name@, c) && cmd
                    == Command::Idle,
                _ => post == pre && cmd == Command::Idle,
            }
        },
        Key::Backspace => match kind {
            EntityType::Category => post == (App { category_form: post.category_form, ..pre })
                && post.category_form == (CategoryFormState {
                name: post.category_form.name,
                ..pre.category_form
            }) && post.category_form.name@ == popped(pre.category_form.name@) && cmd
                == Command::Idle,
            EntityType::Period => post == (App { period_form: post.period_form, ..pre })
                && post.period_form == (PeriodFormState {
                name: post.period_form.name,
                ..pre.period_form
            }) && post.period_form.name@ == popped(pre.period_form.name@) && cmd == Command::Idle,
            EntityType::IncomeType => post == (App {
                income_type_form: post.income_type_form,
                ..pre
            }) && post.income_type_form == (IncomeTypeFormState {
                name: post.income_type_form.name,
                ..pre.income_type_form
            }) && post.income_type_form.name@ == popped(pre.income_type_form.name@) && cmd
                == Command::Idle,
            _ => post == pre && cmd == Command::Idle,
        },
        _ => post == pre && cmd == Command::Idle,
    }
}

/// What one key does inside the password modal; the handler's whole
/// contract. Escape discards the draft along with the modal.
pub open spec fn password_form_key_step(pre: App, post: App, cmd: Command, key: Key) -> bool {
    let f = pre.password_form;
    match key {
        Key::Esc => {
            &&& post == (App {
                state: AppState {
                    ui: UIState { modal: None, ..pre.state.ui },
                    ..pre.state
                },
                password_form: post.password_form,
                ..pre
            })
            &&& post.password_form.current_password@.len() == 0
            &&& post.password_form.new_password@.len() == 0
            &&& post.password_form.confirm_password@.len() == 0
            &&& post.password_form.focused_field == 0
            &&& cmd == Command::Idle
        },
        Key::Tab => post == (App { password_form: post.password_form, ..pre })
            && post.password_form == (PasswordFormState {
            focused_field: (((f.focused_field as int) + 1) % 3) as usize,
            ..f
        }) && cmd == Command::Idle,
        Key::BackTab => post == (App { password_form: post.password_form, ..pre })
            && post.password_form == (PasswordFormState {
            focused_field: (if f.focused_field == 0 {
                2usize
            } else {
                ((f.focused_field as int) - 1) as usize
            }),
            ..f
        }) && cmd == Command::Idle,
        Key::Enter => password_save_step(pre, post, cmd),
        Key::Char(c) => if f.focused_field == 0 {
            post == (App { password_form: post.password_form, ..pre }) && post.password_form
                == (PasswordFormState {
                current_password: post.password_form.current_password,
                ..f
            }) && post.password_form.current_password@ == pushed(f.current_password@, c) && cmd
                == Command::Idle
        } else if f.focused_field == 1 {
            post == (App { password_form: post.password_form, ..pre }) && post.password_form
                == (PasswordFormState { new_password: post.password_form.new_password, ..f })
                && post.password_form.new_password@ == pushed(f.new_password@, c) && cmd
                == Command::Idle
        } else if f.focused_field == 2 {
            post == (App { password_form: post.password_form, ..pre }) && post.password_form
                == (PasswordFormState {
                confirm_password: post.password_form.confirm_password,
                ..f
            }) && post.password_form.confirm_password@ == pushed(f.confirm_password@, c) && cmd
                == Command::Idle
        } else {
            post == pre && cmd == Command::Idle
        },
        Key::Backspace => if f.focused_field == 0 {
            post == (App { password_form: post.password_form, ..pre }) && post.password_form
                == (PasswordFormState {
                current_password: post.password_form.current_password,
                ..f
            }) && post.password_form.current_password@ == popped(f.current_password@) && cmd
                == Command::Idle
        } else if f.focused_field == 1 {
            post == (App { password_form: post.password_form, ..pre }) && post.password_form
                == (PasswordFormState { new_password: post.password_form.new_password, ..f })
                && post.password_form.new_password@ == popped(f.new_password@) && cmd
                == Command::Idle
        } else if f.focused_field == 2 {
            post == (App { password_form: post.password_form, ..pre }) && post.password_form
                == (PasswordFormState {
                confirm_password: post.password_form.confirm_password,
                ..f
            }) && post.password_form.confirm_password@ == popped(f.confirm_password@) && cmd
                == Command::Idle
        } else {
            post == pre && cmd == Command::Idle
        },
        _ => post == pre && cmd == Command::Idle,
    }
}

/// What one key does while a modal is open; the handler's whole contract.
/// Form modals run their own editors; the confirmations take `y`, `n` and
/// Escape, the pay confirmation additionally edits its amount text, and
/// any key closes the help.
pub open spec fn modal_key_step(pre: App, post: App, cmd: Command, key: Key) -> bool {
    let s = pre.state;
    match s.ui.modal {
        Some(Modal::ExpenseForm { .. }) => expense_form_key_step(pre, post, cmd, key),
        Some(Modal::IncomeForm { .. }) => income_form_key_step(pre, post, cmd, key),
        Some(Modal::CategoryForm { .. }) => entity_form_key_step(
            pre,
            post,
            cmd,
            key,
            EntityType::Category,
        ),
        Some(Modal::PeriodForm { .. }) => entity_form_key_step(
            pre,
            post,
            cmd,
            key,
            EntityType::Period,
        ),
        Some(Modal::IncomeTypeForm { .. }) => entity_form_key_step(
            pre,
            post,
            cmd,
            key,
            EntityType::IncomeType,
        ),
        Some(Modal::PasswordForm) => password_form_key_step(pre, post, cmd, key),
        Some(Modal::ConfirmPay { expense_name, expense_id, amount, amount_input }) => match key {
            Key::Esc => modal_closed(pre, post) && cmd == Command::Idle,
            Key::Enter => {
                &&& post == (App {
                    state: AppState { ui: UIState { is_loading: true, ..s.ui }, ..s },
                    ..pre
                })
                &&& cmd matches Command::Pay { expense_id: eid, request } && eid == expense_id
                    && request.amount == Some(crate::money::input_amount(amount_input@) as i64)
            },
            Key::Char(c) => if numeric_key_allowed(amount_input@, c) {
                &&& post.state.ui.modal matches Some(
                    Modal::ConfirmPay {
                        expense_name: n2,
                        expense_id: id2,
                        amount: a2,
                        amount_input: inp2,
                    },
                ) && n2@ == expense_name@ && id2 == expense_id && a2 == amount && inp2@ == pushed(
                    amount_input@,
                    c,
                )
                &&& post == (App {
                    state: AppState {
                        ui: UIState { modal: post.state.ui.modal, ..s.ui },
                        ..s
                    },
                    ..pre
                })
                &&& cmd == Command::Idle
            } else {
                post == pre && cmd == Command::Idle
            },
            Key::Backspace => {
                &&& post.state.ui.modal matches Some(
                    Modal::ConfirmPay {
                        expense_name: n2,
                        expense_id: id2,
                        amount: a2,
                        amount_input: inp2,
                    },
                ) && n2@ == expense_name@ && id2 == expense_id && a2 == amount && inp2@ == popped(
                    amount_input@,
                )
                &&& post == (App {
                    state: AppState {
                        ui: UIState { modal: post.state.ui.modal, ..s.ui },
                        ..s
                    },
                    ..pre
                })
                &&& cmd == Command::Idle
            },
            _ => post == pre && cmd == Command::Idle,
        },
        Some(Modal::ConfirmDelete { id, entity_type, .. }) => match key {
            Key::Esc | Key::Char('n') => modal_closed(pre, post) && cmd == Command::Idle,
            Key::Char('y') => {
                &&& post == (App {
                    state: AppState { ui: UIState { is_loading: true, ..s.ui }, ..s },
                    ..pre
                })
                &&& cmd == (Command::DeleteEntity { entity: entity_type, id })
            },
            _ => post == pre && cmd == Command::Idle,
        },
        Some(Modal::ConfirmCloseMonth { month_id, is_closing, .. }) => match key {
            Key::Esc | Key::Char('n') => modal_closed(pre, post) && cmd == Command::Idle,
            Key::Char('y') => {
                &&& post == (App {
                    state: AppState { ui: UIState { is_loading: true, ..s.ui }, ..s },
                    ..pre
                })
                &&& cmd == (if is_closing {
                    (Command::CloseMonth { month_id })
                } else {
                    (Command::OpenMonth { month_id })
                })
            },
            _ => post == pre && cmd == Command::Idle,
        },
        Some(Modal::Help) => modal_closed(pre, post) && cmd == Command::Idle,
        None => post == pre && cmd == Command::Idle,
    }
}

/// A shown message is never empty.
pub open spec fn m_len_positive(o: Option<String>) -> bool {
    match o {
        Some(m) => m@.len() > 0,
        None => true,
    }
}

/// `post` is `pre` with exactly this error message shown.
pub open spec fn with_error(pre: App, post: App, msg: Seq<char>) -> bool {
    &&& post.state.ui.error_message matches Some(m) && m@ == msg
    &&& post == (App {
        state: AppState {
            ui: UIState {
                error_message: post.state.ui.error_message,
                success_message: None,
                ..pre.state.ui
            },
            ..pre.state
        },
        ..pre
    })
}

/// A fresh expense draft in create mode, pre-seeded with the first cached
/// period and category when available.
pub open spec fn is_new_expense_draft(f: ExpenseFormState, s: AppState) -> bool {
    &&& f.editing_id is None
    &&& f.name@.len() == 0
    &&& (if s.data.periods@.len() > 0 {
        f.period@ == s.data.periods@[0].name@
    } else {
        f.period@.len() == 0
    })
    &&& (if s.data.categories@.len() > 0 {
        f.category@ == s.data.categories@[0].name@
    } else {
        f.category@.len() == 0
    })
    &&& f.budget@.len() == 0
    &&& f.notes@.len() == 0
    &&& f.purchases@.len() == 0
    &&& f.purchase_amount_inputs@.len() == 0
    &&& f.focused_field == ExpenseField::Name
}

/// A fresh income draft in create mode, pre-seeded with the first cached
/// period and the first cached income type when available.
pub open spec fn is_new_income_draft(f: IncomeFormState, s: AppState) -> bool {
    &&& f.editing_id is None
    &&& f.income_type_id == (if s.data.income_types@.len() > 0 {
        Some(s.data.income_types@[0].id)
    } else {
        Option::<i32>::None
    })
    &&& (if s.data.periods@.len() > 0 {
        f.period@ == s.data.periods@[0].name@
    } else {
        f.period@.len() == 0
    })
    &&& f.budget@.len() == 0
    &&& f.amount@ == "0"@
    &&& f.focused_field == IncomeField::IncomeType
}

impl App {
    /// Open the create modal for the active tab's entity kind, pre-seeding
    /// defaults from the caches. Blocked with a message, and with no modal
    /// opened, when the selected month is closed and the kind is an
    /// expense or an income.
    pub fn open_new_item_modal(&mut self)
        requires
            old(self).wf(),
        ensures
            final(self).wf(),
            new_item_step(*old(self), *final(self)),
    {
        if (matches!(self.state.ui.selected_tab, DashboardTab::Expenses)
            || matches!(self.state.ui.selected_tab, DashboardTab::Income))
            && self.state.is_month_closed() {
            self.state.set_error(
                String::from_str("Cannot add items to a closed month. Reopen the month first."),
            );
            return;
        }
        match self.state.ui.selected_tab {
            DashboardTab::Expenses => {
                let mut form = ExpenseFormState::default();
                if self.state.data.periods.len() > 0 {
                    form.period = self.state.data.periods[0].name.clone();
                }
                if self.state.data.categories.len() > 0 {
                    form.category = self.state.data.categories[0].name.clone();
                }
                self.expense_form = form;
                self.state.ui.modal = Some(Modal::ExpenseForm { editing: None });
            },
            DashboardTab::Income => {
                let mut form = IncomeFormState::default();
                if self.state.data.periods.len() > 0 {
                    form.period = self.state.data.periods[0].name.clone();
                }
                if self.state.data.income_types.len() > 0 {
                    form.income_type_id = Some(self.state.data.income_types[0].id);
                }
                self.income_form = form;
                self.state.ui.modal = Some(Modal::IncomeForm { editing: None });
            },
            DashboardTab::Settings => match self.state.ui.settings_tab {
                SettingsTab::Categories => {
                    self.category_form = CategoryFormState::default();
                    self.state.ui.modal = Some(Modal::CategoryForm { editing: None });
                },
                SettingsTab::Periods => {
                    self.period_form = PeriodFormState::default();
                    self.state.ui.modal = Some(Modal::PeriodForm { editing: None });
                },
                SettingsTab::IncomeTypes => {
                    self.income_type_form = IncomeTypeFormState::default();
                    self.state.ui.modal = Some(Modal::IncomeTypeForm { editing: None });
                },
                SettingsTab::Password => {
                    self.password_form = PasswordFormState::default();
                    self.state.ui.modal = Some(Modal::PasswordForm);
                },
            },
            _ => {},
        }
    }

    /// Open the edit modal for the selected record, pre-filling the draft
    /// from it. Blocked with a message, and with no modal opened, when the
    /// selected month is closed and the kind is an expense or an income; a
    /// missing or out-of-range selection does nothing.
    pub fn open_edit_item_modal(&mut self)
        requires
            old(self).wf(),
        ensures
            final(self).wf(),
            edit_item_step(*old(self), *final(self)),
    {
        if (matches!(self.state.ui.selected_tab, DashboardTab::Expenses)
            || matches!(self.state.ui.selected_tab, DashboardTab::Income))
            && self.state.is_month_closed() {
            self.state.set_error(
                String::from_str("Cannot edit items in a closed month. Reopen the month first."),
            );
            return;
        }
        match self.state.ui.selected_tab {
            DashboardTab::Expenses => {
                if let Some(idx) = self.state.ui.expense_selected {
                    let filtered = self.state.filtered_expenses();
                    if idx < filtered.len() {
                        let expense = filtered[idx];
                        let id = expense.id;
                        self.expense_form = ExpenseFormState::from_expense(expense);
                        self.state.ui.modal = Some(Modal::ExpenseForm { editing: Some(id) });
                    }
                }
            },
            DashboardTab::Income => {
                if let Some(idx) = self.state.ui.income_selected {
                    let filtered = self.state.filtered_incomes();
                    if idx < filtered.len() {
                        let income = filtered[idx];
                        let id = income.id;
                        self.income_form = IncomeFormState::from_income(income);
                        self.state.ui.modal = Some(Modal::IncomeForm { editing: Some(id) });
                    }
                }
            },
            DashboardTab::Settings => match self.state.ui.settings_tab {
                SettingsTab::Categories => {
                    if let Some(idx) = self.state.ui.category_selected {
                        if idx < self.state.data.categories.len() {
                            let id = self.state.data.categories[idx].id;
                            self.category_form = CategoryFormState::from_category(
                                &self.state.data.categories[idx],
                            );
                            self.state.ui.modal = Some(Modal::CategoryForm { editing: Some(id) });
                        }
                    }
                },
                SettingsTab::Periods => {
                    if let Some(idx) = self.state.ui.period_selected {
                        if idx < self.state.data.periods.len() {
                            let id = self.state.data.periods[idx].id;
                            self.period_form = PeriodFormState::from_period(
                                &self.state.data.periods[idx],
                            );
                            self.state.ui.modal = Some(Modal::PeriodForm { editing: Some(id) });
                        }
                    }
                },
                SettingsTab::IncomeTypes => {
                    if let Some(idx) = self.state.ui.income_type_selected {
                        if idx < self.state.data.income_types.len() {
                            let id = self.state.data.income_types[idx].id;
                            self.income_type_form = IncomeTypeFormState::from_income_type(
                                &self.state.data.income_types[idx],
                            );
                            self.state.ui.modal = Some(Modal::IncomeTypeForm {
                                editing: Some(id),
                            });
                        }
                    }
                },
                SettingsTab::Password => {
                    self.password_form = PasswordFormState::default();
                    self.state.ui.modal = Some(Modal::PasswordForm);
                },
            },
            _ => {},
        }
    }

    /// Open the delete confirmation naming the selected record. Blocked
    /// with a message when the selected month is closed and the kind is an
    /// expense or an income; a missing or out-of-range selection does
    /// nothing.
    pub fn open_delete_confirmation(&mut self)
        requires
            old(self).wf(),
        ensures
            final(self).wf(),
            delete_confirmation_step(*old(self), *final(self)),
    {
        if (matches!(self.state.ui.selected_tab, DashboardTab::Expenses)
            || matches!(self.state.ui.selected_tab, DashboardTab::Income))
            && self.state.is_month_closed() {
            self.state.set_error(
                String::from_str("Cannot delete items in a closed month. Reopen the month first."),
            );
            return;
        }
        match self.state.ui.selected_tab {
            DashboardTab::Expenses => {
                if let Some(idx) = self.state.ui.expense_selected {
                    let filtered = self.state.filtered_expenses();
                    if idx < filtered.len() {
                        let expense = filtered[idx];
                        let mut message = String::from_str("Delete expense '");
                        message.append(expense.expense_name.as_str());
                        message.append("'?");
                        let id = expense.id;
                        self.state.ui.modal = Some(Modal::ConfirmDelete {
                            message,
                            id,
                            entity_type: EntityType::Expense,
                        });
                    }
                }
            },
            DashboardTab::Income => {
                if let Some(idx) = self.state.ui.income_selected {
                    let filtered = self.state.filtered_incomes();
                    if idx < filtered.len() {
                        let id = filtered[idx].id;
                        self.state.ui.modal = Some(Modal::ConfirmDelete {
                            message: String::from_str("Delete this income entry?"),
                            id,
                            entity_type: EntityType::Income,
                        });
                    }
                }
            },
            DashboardTab::Settings => match self.state.ui.settings_tab {
                SettingsTab::Categories => {
                    if let Some(idx) = self.state.ui.category_selected {
                        if idx < self.state.data.categories.len() {
                            let mut message = String::from_str("Delete category '");
                            message.append(self.state.data.categories[idx].name.as_str());
                            message.append("'?");
                            let id = self.state.data.categories[idx].id;
                            self.state.ui.modal = Some(Modal::ConfirmDelete {
                                message,
                                id,
                                entity_type: EntityType::Category,
                            });
                        }
                    }
                },
                SettingsTab::Periods => {
                    if let Some(idx) = self.state.ui.period_selected {
                        if idx < self.state.data.periods.len() {
                            let mut message = String::from_str("Delete period '");
                            message.append(self.state.data.periods[idx].name.as_str());
                            message.append("'?");
                            let id = self.state.data.periods[idx].id;
                            self.state.ui.modal = Some(Modal::ConfirmDelete {
                                message,
                                id,
                                entity_type: EntityType::Period,
                            });
                        }
                    }
                },
                SettingsTab::IncomeTypes => {
                    if let Some(idx) = self.state.ui.income_type_selected {
                        if idx < self.state.data.income_types.len() {
                            let mut message = String::from_str("Delete income type '");
                            message.append(self.state.data.income_types[idx].name.as_str());
                            message.append("'?");
                            let id = self.state.data.income_types[idx].id;
                            self.state.ui.modal = Some(Modal::ConfirmDelete {
                                message,
                                id,
                                entity_type: EntityType::IncomeType,
                            });
                        }
                    }
                },
                SettingsTab::Password => {},
            },
            _ => {},
        }
    }

    /// Open the pay confirmation for the selected expense, pre-filled with
    /// its budget as an editable amount. Only on the expenses tab; blocked
    /// with a message when the month is closed or the expense already has
    /// purchases.
    pub fn open_pay_confirmation(&mut self)
        requires
            old(self).wf(),
        ensures
            final(self).wf(),
            pay_confirmation_step(*old(self), *final(self)),
    {
        if !matches!(self.state.ui.selected_tab, DashboardTab::Expenses) {
            return;
        }
        if self.state.is_month_closed() {
            self.state.set_error(
                String::from_str("Cannot pay expenses in a closed month. Reopen the month first."),
            );
            return;
        }
        if let Some(idx) = self.state.ui.expense_selected {
            let filtered = self.state.filtered_expenses();
            if idx < filtered.len() {
                let expense = filtered[idx];
                let already_paid = match &expense.purchases {
                    Some(p) => p.len() > 0,
                    None => false,
                };
                if already_paid {
                    self.state.set_error(String::from_str("Expense already has purchases"));
                    return;
                }
                let name = expense.expense_name.clone();
                let id = expense.id;
                let budget = expense.budget;
                self.state.ui.modal = Some(Modal::ConfirmPay {
                    expense_name: name,
                    expense_id: id,
                    amount: budget,
                    amount_input: crate::money::format_cents_two(budget),
                });
            }
        }
    }

    /// Keys on the dashboard while no modal is open: `q` quits, `?` opens
    /// help, Tab and the digits move between tabs and settings panes and
    /// reload, `h`/`l` and the horizontal arrows step the month and reload
    /// its data, `j`/`k` and the vertical arrows step the active list's
    /// selection, and `n`, `e`, `d`, `p`, `c` open the record-level
    /// modals, whose exact behavior the respective functions state. While
    /// the selected month is closed, new, edit and delete on expenses or
    /// incomes, and pay on expenses, show a message and open no modal.
    pub fn handle_dashboard_key(&mut self, key: Key) -> (cmd: Command)
        requires
            old(self).wf(),
        ensures
            final(self).wf(),
            dashboard_key_step(*old(self), *final(self), cmd, key),
    {
        proof {
            reveal_strlit("Cannot add items to a closed month. Reopen the month first.");
            reveal_strlit("Cannot edit items in a closed month. Reopen the month first.");
            reveal_strlit("Cannot delete items in a closed month. Reopen the month first.");
            reveal_strlit("Cannot pay expenses in a closed month. Reopen the month first.");
        }
        match key {
            Key::Char('q') => {
                self.should_quit = true;
                Command::Idle
            },
            Key::Char('?') => {
                self.state.ui.modal = Some(Modal::Help);
                Command::Idle
            },
            Key::Tab => {
                self.state.ui.selected_tab = self.state.ui.selected_tab.next();
                Command::LoadTab
            },
            Key::BackTab => {
                self.state.ui.selected_tab = self.state.ui.selected_tab.previous();
                Command::LoadTab
            },
            Key::Char('1') => self.digit_key(SettingsTab::Categories, DashboardTab::Summary),
            Key::Char('2') => self.digit_key(SettingsTab::Periods, DashboardTab::Expenses),
            Key::Char('3') => self.digit_key(SettingsTab::IncomeTypes, DashboardTab::Income),
            Key::Char('4') => self.digit_key(SettingsTab::Password, DashboardTab::Charts),
            Key::Char('5') => {
                self.state.ui.selected_tab = DashboardTab::Settings;
                Command::LoadTab
            },
            Key::Char('h') | Key::Left => {
                self.state.previous_month();
                Command::LoadMonth
            },
            Key::Char('l') | Key::Right => {
                self.state.next_month();
                Command::LoadMonth
            },
            Key::Char('j') | Key::Down => {
                self.state.select_next_item();
                Command::Idle
            },
            Key::Char('k') | Key::Up => {
                self.state.select_previous_item();
                Command::Idle
            },
            Key::Char('n') => {
                self.open_new_item_modal();
                Command::Idle
            },
            Key::Char('e') | Key::Enter => {
                self.open_edit_item_modal();
                Command::Idle
            },
            Key::Char('d') => {
                self.open_delete_confirmation();
                Command::Idle
            },
            Key::Char('p') => {
                self.open_pay_confirmation();
                Command::Idle
            },
            Key::Char('c') => {
                self.open_close_month_confirmation();
                Command::Idle
            },
            _ => Command::Idle,
        }
    }

    /// A digit key: inside the settings tab it selects a settings pane;
    /// anywhere else it jumps to a dashboard tab and reloads.
    fn digit_key(&mut self, pane: SettingsTab, tab: DashboardTab) -> (cmd: Command)
        requires
            old(self).wf(),
        ensures
            final(self).wf(),
            digit_key_step(*old(self), *final(self), cmd, pane, tab),
    {
        if matches!(self.state.ui.selected_tab, DashboardTab::Settings) {
            self.state.ui.settings_tab = pane;
            Command::Idle
        } else {
            self.state.ui.selected_tab = tab;
            Command::LoadTab
        }
    }

    /// Keys while a modal is open, as [`modal_key_step`] states them.
    pub fn handle_modal_key(&mut self, key: Key) -> (cmd: Command)
        requires
            old(self).wf(),
        ensures
            final(self).wf(),
            modal_key_step(*old(self), *final(self), cmd, key),
    {
        if matches!(self.state.ui.modal, Some(Modal::ExpenseForm { .. })) {
            return self.handle_expense_form_key(key);
        }
        if matches!(self.state.ui.modal, Some(Modal::IncomeForm { .. })) {
            return self.handle_income_form_key(key);
        }
        if matches!(self.state.ui.modal, Some(Modal::CategoryForm { .. })) {
            return self.handle_entity_form_key(key, EntityType::Category);
        }
        if matches!(self.state.ui.modal, Some(Modal::PeriodForm { .. })) {
            return self.handle_entity_form_key(key, EntityType::Period);
        }
        if matches!(self.state.ui.modal, Some(Modal::IncomeTypeForm { .. })) {
            return self.handle_entity_form_key(key, EntityType::IncomeType);
        }
        if matches!(self.state.ui.modal, Some(Modal::PasswordForm)) {
            return self.handle_password_form_key(key);
        }
        if matches!(self.state.ui.modal, Some(Modal::ConfirmPay { .. })) {
            return match key {
                Key::Esc => {
                    self.state.ui.modal = None;
                    Command::Idle
                },
                Key::Enter => self.confirm_pay(),
                Key::Char(c) => {
                    if let Some(Modal::ConfirmPay {
                        expense_name,
                        expense_id,
                        amount,
                        amount_input,
                    }) = &self.state.ui.modal {
                        let u = c as u32;
                        let allowed = (48 <= u && u <= 57) || (c == '.'
                            && !crate::strutil::contains_char(amount_input.as_str(), '.'));
                        if allowed {
                            let name = expense_name.clone();
                            let id = *expense_id;
                            let amt = *amount;
                            let mut input = amount_input.clone();
                            push_char(&mut input, c);
                            self.state.ui.modal = Some(Modal::ConfirmPay {
                                expense_name: name,
                                expense_id: id,
                                amount: amt,
                                amount_input: input,
                            });
                        }
                    }
                    Command::Idle
                },
                Key::Backspace => {
                    if let Some(Modal::ConfirmPay {
                        expense_name,
                        expense_id,
                        amount,
                        amount_input,
                    }) = &self.state.ui.modal {
                        let name = expense_name.clone();
                        let id = *expense_id;
                        let amt = *amount;
                        let mut input = amount_input.clone();
                        pop_char(&mut input);
                        self.state.ui.modal = Some(Modal::ConfirmPay {
                            expense_name: name,
                            expense_id: id,
                            amount: amt,
                            amount_input: input,
                        });
                    }
                    Command::Idle
                },
                _ => Command::Idle,
            };
        }
        if matches!(self.state.ui.modal, Some(Modal::ConfirmDelete { .. })) {
            return match key {
                Key::Esc | Key::Char('n') => {
                    self.state.ui.modal = None;
                    Command::Idle
                },
                Key::Char('y') => self.confirm_delete(),
                _ => Command::Idle,
            };
        }
        if matches!(self.state.ui.modal, Some(Modal::ConfirmCloseMonth { .. })) {
            return match key {
                Key::Esc | Key::Char('n') => {
                    self.state.ui.modal = None;
                    Command::Idle
                },
                Key::Char('y') => self.confirm_close_month(),
                _ => Command::Idle,
            };
        }
        if matches!(self.state.ui.modal, Some(Modal::Help)) {
            self.state.ui.modal = None;
            return Command::Idle;
        }
        Command::Idle
    }

    /// One key, routed to the active screen and modal context: the global
    /// quit chord works everywhere; on the dashboard an open modal takes
    /// every key. The stored server settings are what Escape on the
    /// configuration screen restores.
    pub fn handle_key_event(
        &mut self,
        key: Key,
        stored_url: &String,
        stored_key: &String,
    ) -> (cmd: Command)
        requires
            old(self).wf(),
        ensures
            final(self).wf(),
            ({
                if key == Key::Ctrl('c') {
                    *final(self) == (App { should_quit: true, ..*old(self) }) && cmd
                        == Command::Idle
                } else {
                    match old(self).state.screen {
                        Screen::Login => login_key_step(*old(self), *final(self), cmd, key),
                        Screen::ApiConfig => api_config_key_step(
                            *old(self),
                            *final(self),
                            cmd,
                            key,
                            stored_url,
                            stored_key,
                        ),
                        Screen::Dashboard => if old(self).state.ui.modal is Some {
                            modal_key_step(*old(self), *final(self), cmd, key)
                        } else {
                            dashboard_key_step(*old(self), *final(self), cmd, key)
                        },
                    }
                }
            }),
    {
        if matches!(key, Key::Ctrl('c')) {
            self.should_quit = true;
            return Command::Idle;
        }
        match self.state.screen {
            Screen::Login => self.handle_login_key(key),
            Screen::ApiConfig => self.handle_api_config_key(key, stored_url, stored_key),
            Screen::Dashboard => {
                if self.state.ui.modal.is_some() {
                    self.handle_modal_key(key)
                } else {
                    self.handle_dashboard_key(key)
                }
            },
        }
    }

    /// Fold the startup token check back in: a recognized user lands on
    /// the dashboard and the initial load is requested; otherwise the
    /// login screen stays. The caller has already cleared a rejected
    /// token.
    pub fn apply_startup_session(&mut self, user: Option<User>) -> (cmd: Command)
        requires
            old(self).wf(),
        ensures
            final(self).wf(),
            user is Some ==> *final(self) == (App {
                state: AppState {
                    screen: Screen::Dashboard,
                    user,
                    ..old(self).state
                },
                ..*old(self)
            }) && cmd == Command::LoadInitial,
            user is None ==> *final(self) == *old(self) && cmd == Command::Idle,
    {
        match user {
            Some(u) => {
                self.state.user = Some(u);
                self.state.screen = Screen::Dashboard;
                Command::LoadInitial
            },
            None => Command::Idle,
        }
    }

    /// The filters a tab-scoped expense reload carries: the selected month
    /// and both client-side filters.
    pub fn tab_expense_filters(&self) -> (r: ExpenseFilters)
        ensures
            crate::forms::opt_text_view(r.period) == crate::forms::opt_text_view(
                self.state.ui.period_filter,
            ),
            crate::forms::opt_text_view(r.category) == crate::forms::opt_text_view(
                self.state.ui.category_filter,
            ),
            r.month_id == (if (self.state.ui.selected_month_index as int)
                < self.state.data.months@.len() {
                Some(self.state.data.months@[self.state.ui.selected_month_index as int].id)
            } else {
                Option::<i32>::None
            }),
    {
        let period = match &self.state.ui.period_filter {
            Some(p) => Some(p.clone()),
            None => None,
        };
        let category = match &self.state.ui.category_filter {
            Some(c) => Some(c.clone()),
            None => None,
        };
        ExpenseFilters { period, category, month_id: self.state.selected_month_id() }
    }

    /// The filters a tab-scoped income reload carries: the selected month
    /// and the period filter.
    pub fn tab_income_filters(&self) -> (r: IncomeFilters)
        ensures
            crate::forms::opt_text_view(r.period) == crate::forms::opt_text_view(
                self.state.ui.period_filter,
            ),
            r.income_type_id is None,
            r.month_id == (if (self.state.ui.selected_month_index as int)
                < self.state.data.months@.len() {
                Some(self.state.data.months@[self.state.ui.selected_month_index as int].id)
            } else {
                Option::<i32>::None
            }),
    {
        let period = match &self.state.ui.period_filter {
            Some(p) => Some(p.clone()),
            None => None,
        };
        IncomeFilters {
            period,
            income_type_id: None,
            month_id: self.state.selected_month_id(),
        }
    }

    /// The filters a month-scoped expense reload carries: only the
    /// selected month.
    pub fn month_expense_filters(&self) -> (r: ExpenseFilters)
        ensures
            r.period is None,
            r.category is None,
            r.month_id == (if (self.state.ui.selected_month_index as int)
                < self.state.data.months@.len() {
                Some(self.state.data.months@[self.state.ui.selected_month_index as int].id)
            } else {
                Option::<i32>::None
            }),
    {
        ExpenseFilters { period: None, category: None, month_id: self.state.selected_month_id() }
    }

    /// The filters a month-scoped income reload carries: only the selected
    /// month.
    pub fn month_income_filters(&self) -> (r: IncomeFilters)
        ensures
            r.period is None,
            r.income_type_id is None,
            r.month_id == (if (self.state.ui.selected_month_index as int)
                < self.state.data.months@.len() {
                Some(self.state.data.months@[self.state.ui.selected_month_index as int].id)
            } else {
                Option::<i32>::None
            }),
    {
        IncomeFilters {
            period: None,
            income_type_id: None,
            month_id: self.state.selected_month_id(),
        }
    }

    /// Open the close-or-reopen confirmation for the selected month,
    /// describing which of the two the month's flag calls for.
    pub fn open_close_month_confirmation(&mut self)
        requires
            old(self).wf(),
        ensures
            final(self).wf(),
            close_month_confirmation_step(*old(self), *final(self)),
    {
        if self.state.ui.selected_month_index < self.state.data.months.len() {
            let name = self.state.data.months[self.state.ui.selected_month_index].display_name();
            let id = self.state.data.months[self.state.ui.selected_month_index].id;
            let closing = !self.state.data.months[self.state.ui.selected_month_index].is_closed;
            self.state.ui.modal = Some(Modal::ConfirmCloseMonth {
                month_name: name,
                month_id: id,
                is_closing: closing,
            });
        }
    }
}

/// Whether an expense already carries purchase lines.
pub open spec fn has_purchases(e: crate::models::Expense) -> bool {
    match e.purchases {
        Some(p) => p@.len() > 0,
        None => false,
    }
}

/// A reset expense draft: create mode, every text empty, no purchase
/// lines, focus back at the name.
pub open spec fn is_reset_expense_draft(f: ExpenseFormState) -> bool {
    &&& f.editing_id is None
    &&& f.name@.len() == 0
    &&& f.period@.len() == 0
    &&& f.category@.len() == 0
    &&& f.budget@.len() == 0
    &&& f.notes@.len() == 0
    &&& f.purchases@.len() == 0
    &&& f.purchase_amount_inputs@.len() == 0
    &&& f.focused_field == ExpenseField::Name
}

impl App {
    /// Keys inside the expense form modal, as [`expense_form_key_step`]
    /// states them.
    #[verifier::rlimit(100)]
    pub fn handle_expense_form_key(&mut self, key: Key) -> (cmd: Command)
        requires
            old(self).wf(),
        ensures
            final(self).wf(),
            expense_form_key_step(*old(self), *final(self), cmd, key),
    {
        if matches!(self.expense_form.focused_field, ExpenseField::Purchases) {
            match key {
                Key::Ctrl('n') | Key::Insert => {
                    self.expense_form.add_purchase();
                    Command::Idle
                },
                Key::Ctrl('d') | Key::Delete => {
                    self.expense_form.remove_purchase();
                    Command::Idle
                },
                Key::Esc => {
                    self.state.ui.modal = None;
                    Command::Idle
                },
                Key::Tab => {
                    self.expense_form.focused_field = self.expense_form.focused_field.next();
                    Command::Idle
                },
                Key::BackTab => {
                    self.expense_form.focused_field = self.expense_form.focused_field.previous();
                    Command::Idle
                },
                Key::Enter => {
                    if self.expense_form.purchases.len() == 0 {
                        self.expense_form.add_purchase();
                        Command::Idle
                    } else {
                        self.save_expense()
                    }
                },
                Key::Up => {
                    if self.expense_form.selected_purchase > 0 {
                        self.expense_form.selected_purchase -= 1;
                    }
                    Command::Idle
                },
                Key::Down => {
                    if self.expense_form.purchases.len() > 0 && self.expense_form.selected_purchase
                        < self.expense_form.purchases.len() - 1 {
                        self.expense_form.selected_purchase += 1;
                    }
                    Command::Idle
                },
                Key::Left | Key::Right => {
                    self.expense_form.purchase_edit_field =
                        match self.expense_form.purchase_edit_field {
                        PurchaseEditField::Name => PurchaseEditField::Amount,
                        PurchaseEditField::Amount => PurchaseEditField::Name,
                    };
                    Command::Idle
                },
                Key::Char(c) => {
                    let sel = self.expense_form.selected_purchase;
                    match self.expense_form.purchase_edit_field {
                        PurchaseEditField::Name => {
                            if sel < self.expense_form.purchases.len() {
                                let ghost pre = self.expense_form.purchases@;
                                let mut taken = self.expense_form.purchases.remove(sel);
                                push_char(&mut taken.name, c);
                                self.expense_form.purchases.insert(sel, taken);
                                proof {
                                    assert(self.expense_form.purchases@ =~= pre.update(
                                        sel as int,
                                        self.expense_form.purchases@[sel as int],
                                    ));
                                }
                            }
                            Command::Idle
                        },
                        PurchaseEditField::Amount => {
                            if sel < self.expense_form.purchase_amount_inputs.len() {
                                let u = c as u32;
                                let allowed = (48 <= u && u <= 57) || (c == '.'
                                    && !crate::strutil::contains_char(
                                    self.expense_form.purchase_amount_inputs[sel].as_str(),
                                    '.',
                                ));
                                if allowed {
                                    let ghost pre = self.expense_form.purchase_amount_inputs@;
                                    let mut taken = self.expense_form.purchase_amount_inputs.remove(
                                        sel,
                                    );
                                    push_char(&mut taken, c);
                                    self.expense_form.purchase_amount_inputs.insert(sel, taken);
                                    proof {
                                        assert(self.expense_form.purchase_amount_inputs@
                                            =~= pre.update(
                                            sel as int,
                                            self.expense_form.purchase_amount_inputs@[sel as int],
                                        ));
                                    }
                                }
                            }
                            Command::Idle
                        },
                    }
                },
                Key::Backspace => {
                    let sel = self.expense_form.selected_purchase;
                    match self.expense_form.purchase_edit_field {
                        PurchaseEditField::Name => {
                            if sel < self.expense_form.purchases.len() {
                                let ghost pre = self.expense_form.purchases@;
                                let mut taken = self.expense_form.purchases.remove(sel);
                                pop_char(&mut taken.name);
                                self.expense_form.purchases.insert(sel, taken);
                                proof {
                                    assert(self.expense_form.purchases@ =~= pre.update(
                                        sel as int,
                                        self.expense_form.purchases@[sel as int],
                                    ));
                                }
                            }
                            Command::Idle
                        },
                        PurchaseEditField::Amount => {
                            if sel < self.expense_form.purchase_amount_inputs.len() {
                                let ghost pre = self.expense_form.purchase_amount_inputs@;
                                let mut taken = self.expense_form.purchase_amount_inputs.remove(
                                    sel,
                                );
                                pop_char(&mut taken);
                                self.expense_form.purchase_amount_inputs.insert(sel, taken);
                                proof {
                                    assert(self.expense_form.purchase_amount_inputs@ =~= pre.update(
                                        sel as int,
                                        self.expense_form.purchase_amount_inputs@[sel as int],
                                    ));
                                }
                            }
                            Command::Idle
                        },
                    }
                },
                _ => Command::Idle,
            }
        } else {
            match key {
                Key::Esc => {
                    self.state.ui.modal = None;
                    Command::Idle
                },
                Key::Tab => {
                    self.expense_form.focused_field = self.expense_form.focused_field.next();
                    Command::Idle
                },
                Key::BackTab => {
                    self.expense_form.focused_field = self.expense_form.focused_field.previous();
                    Command::Idle
                },
                Key::Enter => self.save_expense(),
                Key::Left | Key::Right => {
                    let forward = matches!(key, Key::Right);
                    match self.expense_form.focused_field {
                        ExpenseField::Period => {
                            match cycle_period(
                                &self.state.data.periods,
                                &self.expense_form.period,
                                forward,
                            ) {
                                Some(name) => {
                                    self.expense_form.period = name;
                                },
                                None => {},
                            }
                            Command::Idle
                        },
                        ExpenseField::Category => {
                            match cycle_category(
                                &self.state.data.categories,
                                &self.expense_form.category,
                                forward,
                            ) {
                                Some(name) => {
                                    self.expense_form.category = name;
                                },
                                None => {},
                            }
                            Command::Idle
                        },
                        _ => Command::Idle,
                    }
                },
                Key::Char(c) => {
                    match self.expense_form.focused_field {
                        ExpenseField::Name => {
                            push_char(&mut self.expense_form.name, c);
                        },
                        ExpenseField::Budget => {
                            let u = c as u32;
                            let allowed = (48 <= u && u <= 57) || (c == '.'
                                && !crate::strutil::contains_char(
                                self.expense_form.budget.as_str(),
                                '.',
                            ));
                            if allowed {
                                push_char(&mut self.expense_form.budget, c);
                            }
                        },
                        ExpenseField::Notes => {
                            push_char(&mut self.expense_form.notes, c);
                        },
                        _ => {},
                    }
                    Command::Idle
                },
                Key::Backspace => {
                    match self.expense_form.focused_field {
                        ExpenseField::Name => {
                            pop_char(&mut self.expense_form.name);
                        },
                        ExpenseField::Budget => {
                            pop_char(&mut self.expense_form.budget);
                        },
                        ExpenseField::Notes => {
                            pop_char(&mut self.expense_form.notes);
                        },
                        _ => {},
                    }
                    Command::Idle
                },
                _ => Command::Idle,
            }
        }
    }

    /// Submit the expense draft. A draft breaking any rule only shows the
    /// joined messages; a valid draft goes out as a create command in the
    /// selected month, or as an update command when the draft edits an
    /// existing expense. With no month selected nothing is sent.
    pub fn save_expense(&mut self) -> (cmd: Command)
        requires
            old(self).wf(),
        ensures
            final(self).wf(),
            expense_save_step(*old(self), *final(self), cmd),
    {
        let errors = self.expense_form.validate();
        if errors.len() > 0 {
            let msg = join_messages(&errors);
            self.state.set_error(msg);
            return Command::Idle;
        }
        proof {
            crate::forms::lemma_expense_validation_gates(self.expense_form);
        }
        let month_id = match self.state.selected_month_id() {
            Some(id) => id,
            None => {
                self.state.set_error(String::from_str("No month selected"));
                return Command::Idle;
            },
        };
        self.state.ui.is_loading = true;
        match self.expense_form.editing_id {
            Some(id) => match self.expense_form.to_update() {
                Some(update) => Command::UpdateExpense(id, update),
                None => {
                    proof {
                        assert(false);
                    }
                    Command::Idle
                },
            },
            None => match self.expense_form.to_create(month_id) {
                Some(create) => Command::CreateExpense(create),
                None => {
                    proof {
                        assert(false);
                    }
                    Command::Idle
                },
            },
        }
    }

    /// Fold the outcome of saving an expense back in: the modal closes and
    /// the draft resets either way; success shows a message and reloads the
    /// tab, failure shows what went wrong and reloads nothing.
    pub fn apply_expense_save_result(
        &mut self,
        was_editing: bool,
        result: Result<(), ApiError>,
    ) -> (cmd: Command)
        requires
            old(self).wf(),
        ensures
            final(self).wf(),
            is_reset_expense_draft(final(self).expense_form),
            ({
                let s = old(self).state;
                match result {
                    Ok(_) => {
                        &&& final(self).state.ui.success_message matches Some(m) && m@ == (if
                            was_editing {
                            "Expense updated successfully"@
                        } else {
                            "Expense created successfully"@
                        })
                        &&& *final(self) == (App {
                            state: AppState {
                                ui: UIState {
                                    is_loading: false,
                                    modal: None,
                                    success_message: final(self).state.ui.success_message,
                                    error_message: None,
                                    ..s.ui
                                },
                                ..s
                            },
                            expense_form: final(self).expense_form,
                            ..*old(self)
                        })
                        &&& cmd == Command::LoadTab
                    },
                    Err(e) => {
                        &&& final(self).state.ui.error_message matches Some(m) && m@
                            == "Failed to save expense: "@ + crate::client::api_error_message(e)
                        &&& *final(self) == (App {
                            state: AppState {
                                ui: UIState {
                                    is_loading: false,
                                    modal: None,
                                    error_message: final(self).state.ui.error_message,
                                    success_message: None,
                                    ..s.ui
                                },
                                ..s
                            },
                            expense_form: final(self).expense_form,
                            ..*old(self)
                        })
                        &&& cmd == Command::Idle
                    },
                }
            }),
    {
        self.state.ui.is_loading = false;
        self.state.ui.modal = None;
        self.expense_form = ExpenseFormState::default();
        match result {
            Ok(_) => {
                let message = if was_editing {
                    String::from_str("Expense updated successfully")
                } else {
                    String::from_str("Expense created successfully")
                };
                self.state.set_success(message);
                Command::LoadTab
            },
            Err(e) => {
                let mut message = String::from_str("Failed to save expense: ");
                let detail = e.message();
                message.append(detail.as_str());
                self.state.set_error(message);
                Command::Idle
            },
        }
    }

    /// Keys inside the income form modal, as [`income_form_key_step`]
    /// states them.
    pub fn handle_income_form_key(&mut self, key: Key) -> (cmd: Command)
        requires
            old(self).wf(),
        ensures
            final(self).wf(),
            income_form_key_step(*old(self), *final(self), cmd, key),
    {
        match key {
            Key::Esc => {
                self.state.ui.modal = None;
                Command::Idle
            },
            Key::Tab => {
                self.income_form.focused_field = self.income_form.focused_field.next();
                Command::Idle
            },
            Key::BackTab => {
                self.income_form.focused_field = self.income_form.focused_field.previous();
                Command::Idle
            },
            Key::Enter => self.save_income(),
            Key::Left | Key::Right => {
                let forward = matches!(key, Key::Right);
                match self.income_form.focused_field {
                    IncomeField::IncomeType => {
                        if let Some(current) = self.income_form.income_type_id {
                            match cycle_income_type(
                                &self.state.data.income_types,
                                current,
                                forward,
                            ) {
                                Some(id) => {
                                    self.income_form.income_type_id = Some(id);
                                },
                                None => {},
                            }
                        }
                        Command::Idle
                    },
                    IncomeField::Period => {
                        match cycle_period(
                            &self.state.data.periods,
                            &self.income_form.period,
                            forward,
                        ) {
                            Some(name) => {
                                self.income_form.period = name;
                            },
                            None => {},
                        }
                        Command::Idle
                    },
                    _ => Command::Idle,
                }
            },
            Key::Char(c) => {
                match self.income_form.focused_field {
                    IncomeField::Budget => {
                        let u = c as u32;
                        let allowed = (48 <= u && u <= 57) || (c == '.'
                            && !crate::strutil::contains_char(
                            self.income_form.budget.as_str(),
                            '.',
                        ));
                        if allowed {
                            push_char(&mut self.income_form.budget, c);
                        }
                    },
                    IncomeField::Amount => {
                        let u = c as u32;
                        let allowed = (48 <= u && u <= 57) || (c == '.'
                            && !crate::strutil::contains_char(
                            self.income_form.amount.as_str(),
                            '.',
                        ));
                        if allowed {
                            push_char(&mut self.income_form.amount, c);
                        }
                    },
                    _ => {},
                }
                Command::Idle
            },
            Key::Backspace => {
                match self.income_form.focused_field {
                    IncomeField::Budget => {
                        pop_char(&mut self.income_form.budget);
                    },
                    IncomeField::Amount => {
                        pop_char(&mut self.income_form.amount);
                    },
                    _ => {},
                }
                Command::Idle
            },
            _ => Command::Idle,
        }
    }

    /// Keys inside a category, period or income-type form modal, as
    /// [`entity_form_key_step`] states them.
    pub fn handle_entity_form_key(&mut self, key: Key, kind: EntityType) -> (cmd: Command)
        requires
            old(self).wf(),
        ensures
            final(self).wf(),
            entity_form_key_step(*old(self), *final(self), cmd, key, kind),
    {
        match key {
            Key::Esc => {
                self.state.ui.modal = None;
                Command::Idle
            },
            Key::Tab | Key::BackTab => Command::Idle,
            Key::Enter => match kind {
                EntityType::Category => self.save_category(),
                EntityType::Period => self.save_period(),
                EntityType::IncomeType => self.save_income_type(),
                _ => Command::Idle,
            },
            Key::Char(c) => {
                if c == 'r' {
                    let color = generate_random_color();
                    match kind {
                        EntityType::Category => {
                            self.category_form.color = color;
                        },
                        EntityType::Period => {
                            self.period_form.color = color;
                        },
                        EntityType::IncomeType => {
                            self.income_type_form.color = color;
                        },
                        _ => {},
                    }
                } else {
                    match kind {
                        EntityType::Category => push_char(&mut self.category_form.name, c),
                        EntityType::Period => push_char(&mut self.period_form.name, c),
                        EntityType::IncomeType => push_char(&mut self.income_type_form.name, c),
                        _ => {},
                    }
                }
                Command::Idle
            },
            Key::Backspace => {
                match kind {
                    EntityType::Category => {
                        pop_char(&mut self.category_form.name);
                    },
                    EntityType::Period => {
                        pop_char(&mut self.period_form.name);
                    },
                    EntityType::IncomeType => {
                        pop_char(&mut self.income_type_form.name);
                    },
                    _ => {},
                }
                Command::Idle
            },
            _ => Command::Idle,
        }
    }

    /// Keys inside the password modal, as [`password_form_key_step`]
    /// states them.
    pub fn handle_password_form_key(&mut self, key: Key) -> (cmd: Command)
        requires
            old(self).wf(),
        ensures
            final(self).wf(),
            password_form_key_step(*old(self), *final(self), cmd, key),
    {
        match key {
            Key::Esc => {
                self.state.ui.modal = None;
                self.password_form = PasswordFormState::default();
                Command::Idle
            },
            Key::Tab => {
                self.password_form.focused_field = (self.password_form.focused_field % 3 + 1) % 3;
                Command::Idle
            },
            Key::BackTab => {
                self.password_form.focused_field = if self.password_form.focused_field == 0 {
                    2
                } else {
                    self.password_form.focused_field - 1
                };
                Command::Idle
            },
            Key::Enter => self.save_password(),
            Key::Char(c) => {
                if self.password_form.focused_field == 0 {
                    push_char(&mut self.password_form.current_password, c);
                } else if self.password_form.focused_field == 1 {
                    push_char(&mut self.password_form.new_password, c);
                } else if self.password_form.focused_field == 2 {
                    push_char(&mut self.password_form.confirm_password, c);
                }
                Command::Idle
            },
            Key::Backspace => {
                if self.password_form.focused_field == 0 {
                    pop_char(&mut self.password_form.current_password);
                } else if self.password_form.focused_field == 1 {
                    pop_char(&mut self.password_form.new_password);
                } else if self.password_form.focused_field == 2 {
                    pop_char(&mut self.password_form.confirm_password);
                }
                Command::Idle
            },
            _ => Command::Idle,
        }
    }

    /// Submit the income draft. A draft breaking any rule only shows the
    /// joined messages; a valid draft goes out as a create command in the
    /// selected month, or as an update command when the draft edits an
    /// existing income. With no month selected nothing is sent.
    pub fn save_income(&mut self) -> (cmd: Command)
        requires
            old(self).wf(),
        ensures
            final(self).wf(),
            income_save_step(*old(self), *final(self), cmd),
    {
        let errors = self.income_form.validate();
        if errors.len() > 0 {
            let msg = join_messages(&errors);
            self.state.set_error(msg);
            return Command::Idle;
        }
        proof {
            let f = self.income_form;
            assert(income_validation_msgs(f).len() == 0);
            assert(f.income_type_id is Some) by {
                if f.income_type_id is None {
                    assert(income_validation_msgs(f).len() > 0);
                }
            }
            assert(crate::money::is_money_text(f.budget@)) by {
                if !crate::money::is_money_text(f.budget@) {
                    assert(income_validation_msgs(f).len() > 0);
                }
            }
            assert(crate::money::is_money_text(f.amount@)) by {
                if !crate::money::is_money_text(f.amount@) {
                    assert(income_validation_msgs(f).len() > 0);
                }
            }
        }
        let month_id = match self.state.selected_month_id() {
            Some(id) => id,
            None => {
                self.state.set_error(String::from_str("No month selected"));
                return Command::Idle;
            },
        };
        self.state.ui.is_loading = true;
        match self.income_form.editing_id {
            Some(id) => match self.income_form.to_update() {
                Some(update) => Command::UpdateIncome(id, update),
                None => {
                    proof {
                        assert(false);
                    }
                    Command::Idle
                },
            },
            None => match self.income_form.to_create(month_id) {
                Some(create) => Command::CreateIncome(create),
                None => {
                    proof {
                        assert(false);
                    }
                    Command::Idle
                },
            },
        }
    }

    /// Fold the outcome of saving an income back in: the modal closes
    /// either way; success shows a message and reloads the tab.
    pub fn apply_income_save_result(
        &mut self,
        was_editing: bool,
        result: Result<(), ApiError>,
    ) -> (cmd: Command)
        requires
            old(self).wf(),
        ensures
            final(self).wf(),
            ({
                let s = old(self).state;
                match result {
                    Ok(_) => {
                        &&& final(self).state.ui.success_message matches Some(m) && m@ == (if
                            was_editing {
                            "Income updated successfully"@
                        } else {
                            "Income created successfully"@
                        })
                        &&& *final(self) == (App {
                            state: AppState {
                                ui: UIState {
                                    is_loading: false,
                                    modal: None,
                                    success_message: final(self).state.ui.success_message,
                                    error_message: None,
                                    ..s.ui
                                },
                                ..s
                            },
                            ..*old(self)
                        })
                        &&& cmd == Command::LoadTab
                    },
                    Err(e) => {
                        &&& final(self).state.ui.error_message matches Some(m) && m@
                            == "Failed to save income: "@ + crate::client::api_error_message(e)
                        &&& *final(self) == (App {
                            state: AppState {
                                ui: UIState {
                                    is_loading: false,
                                    modal: None,
                                    error_message: final(self).state.ui.error_message,
                                    success_message: None,
                                    ..s.ui
                                },
                                ..s
                            },
                            ..*old(self)
                        })
                        &&& cmd == Command::Idle
                    },
                }
            }),
    {
        self.state.ui.is_loading = false;
        self.state.ui.modal = None;
        match result {
            Ok(_) => {
                let message = if was_editing {
                    String::from_str("Income updated successfully")
                } else {
                    String::from_str("Income created successfully")
                };
                self.state.set_success(message);
                Command::LoadTab
            },
            Err(e) => {
                let mut message = String::from_str("Failed to save income: ");
                let detail = e.message();
                message.append(detail.as_str());
                self.state.set_error(message);
                Command::Idle
            },
        }
    }

    /// Submit the category draft: a blank name only shows a message;
    /// otherwise the draft goes out as a create or update command.
    pub fn save_category(&mut self) -> (cmd: Command)
        requires
            old(self).wf(),
        ensures
            final(self).wf(),
            category_save_step(*old(self), *final(self), cmd),
    {
        if text_is_blank(self.category_form.name.as_str()) {
            self.state.set_error(String::from_str("Name is required"));
            return Command::Idle;
        }
        self.state.ui.is_loading = true;
        match self.category_form.editing_id {
            Some(id) => Command::UpdateCategory(id, self.category_form.to_update()),
            None => Command::CreateCategory(self.category_form.to_create()),
        }
    }

    /// Submit the period draft: a blank name only shows a message;
    /// otherwise the draft goes out as a create or update command.
    pub fn save_period(&mut self) -> (cmd: Command)
        requires
            old(self).wf(),
        ensures
            final(self).wf(),
            period_save_step(*old(self), *final(self), cmd),
    {
        if text_is_blank(self.period_form.name.as_str()) {
            self.state.set_error(String::from_str("Name is required"));
            return Command::Idle;
        }
        self.state.ui.is_loading = true;
        match self.period_form.editing_id {
            Some(id) => Command::UpdatePeriod(id, self.period_form.to_update()),
            None => Command::CreatePeriod(self.period_form.to_create()),
        }
    }

    /// Submit the income-type draft: a blank name only shows a message;
    /// otherwise the draft goes out as a create or update command.
    pub fn save_income_type(&mut self) -> (cmd: Command)
        requires
            old(self).wf(),
        ensures
            final(self).wf(),
            income_type_save_step(*old(self), *final(self), cmd),
    {
        if text_is_blank(self.income_type_form.name.as_str()) {
            self.state.set_error(String::from_str("Name is required"));
            return Command::Idle;
        }
        self.state.ui.is_loading = true;
        match self.income_type_form.editing_id {
            Some(id) => Command::UpdateIncomeType(id, self.income_type_form.to_update()),
            None => Command::CreateIncomeType(self.income_type_form.to_create()),
        }
    }

    /// Fold the outcome of saving a category, period or income type back
    /// in: the modal closes either way; success shows a message naming the
    /// kind and reloads the settings lists.
    pub fn apply_entity_save_result(
        &mut self,
        entity: EntityType,
        result: Result<(), ApiError>,
    ) -> (cmd: Command)
        requires
            old(self).wf(),
        ensures
            final(self).wf(),
            ({
                let s = old(self).state;
                match result {
                    Ok(_) => {
                        &&& final(self).state.ui.success_message matches Some(m) && m@
                            == entity_label(entity) + " saved successfully"@
                        &&& *final(self) == (App {
                            state: AppState {
                                ui: UIState {
                                    is_loading: false,
                                    modal: None,
                                    success_message: final(self).state.ui.success_message,
                                    error_message: None,
                                    ..s.ui
                                },
                                ..s
                            },
                            ..*old(self)
                        })
                        &&& cmd == Command::LoadSettings
                    },
                    Err(e) => {
                        &&& final(self).state.ui.error_message matches Some(m) && m@
                            == "Failed to save: "@ + crate::client::api_error_message(e)
                        &&& *final(self) == (App {
                            state: AppState {
                                ui: UIState {
                                    is_loading: false,
                                    modal: None,
                                    error_message: final(self).state.ui.error_message,
                                    success_message: None,
                                    ..s.ui
                                },
                                ..s
                            },
                            ..*old(self)
                        })
                        &&& cmd == Command::Idle
                    },
                }
            }),
    {
        self.state.ui.is_loading = false;
        self.state.ui.modal = None;
        match result {
            Ok(_) => {
                let label = match entity {
                    EntityType::Category => "Category",
                    EntityType::Period => "Period",
                    EntityType::IncomeType => "Income type",
                    _ => "Entity",
                };
                let mut message = String::from_str(label);
                message.append(" saved successfully");
                self.state.set_success(message);
                Command::LoadSettings
            },
            Err(e) => {
                let mut message = String::from_str("Failed to save: ");
                let detail = e.message();
                message.append(detail.as_str());
                self.state.set_error(message);
                Command::Idle
            },
        }
    }

    /// Submit the password form. A draft breaking any rule only shows the
    /// joined messages; a valid one goes out as a change command.
    pub fn save_password(&mut self) -> (cmd: Command)
        requires
            old(self).wf(),
        ensures
            final(self).wf(),
            password_save_step(*old(self), *final(self), cmd),
    {
        let errors = self.password_form.validate();
        if errors.len() > 0 {
            let msg = join_messages(&errors);
            self.state.set_error(msg);
            return Command::Idle;
        }
        self.state.ui.is_loading = true;
        Command::ChangePassword {
            current: self.password_form.current_password.clone(),
            new: self.password_form.new_password.clone(),
        }
    }

    /// Fold the outcome of a password change back in: the modal closes and
    /// the form resets either way; a message reports the outcome.
    pub fn apply_password_result(&mut self, result: Result<(), ApiError>) -> (cmd: Command)
        requires
            old(self).wf(),
        ensures
            final(self).wf(),
            final(self).password_form.current_password@.len() == 0,
            final(self).password_form.new_password@.len() == 0,
            final(self).password_form.confirm_password@.len() == 0,
            ({
                let s = old(self).state;
                match result {
                    Ok(_) => {
                        &&& final(self).state.ui.success_message matches Some(m) && m@
                            == "Password changed successfully"@
                        &&& *final(self) == (App {
                            state: AppState {
                                ui: UIState {
                                    is_loading: false,
                                    modal: None,
                                    success_message: final(self).state.ui.success_message,
                                    error_message: None,
                                    ..s.ui
                                },
                                ..s
                            },
                            password_form: final(self).password_form,
                            ..*old(self)
                        })
                        &&& cmd == Command::Idle
                    },
                    Err(e) => {
                        &&& final(self).state.ui.error_message matches Some(m) && m@
                            == "Failed to change password: "@ + crate::client::api_error_message(e)
                        &&& *final(self) == (App {
                            state: AppState {
                                ui: UIState {
                                    is_loading: false,
                                    modal: None,
                                    error_message: final(self).state.ui.error_message,
                                    success_message: None,
                                    ..s.ui
                                },
                                ..s
                            },
                            password_form: final(self).password_form,
                            ..*old(self)
                        })
                        &&& cmd == Command::Idle
                    },
                }
            }),
    {
        self.state.ui.is_loading = false;
        self.state.ui.modal = None;
        self.password_form = PasswordFormState::default();
        match result {
            Ok(_) => {
                self.state.set_success(String::from_str("Password changed successfully"));
                Command::Idle
            },
            Err(e) => {
                let mut message = String::from_str("Failed to change password: ");
                let detail = e.message();
                message.append(detail.as_str());
                self.state.set_error(message);
                Command::Idle
            },
        }
    }

    /// Confirm the open delete dialog: the named record's delete goes out;
    /// with any other modal nothing happens.
    pub fn confirm_delete(&mut self) -> (cmd: Command)
        requires
            old(self).wf(),
        ensures
            final(self).wf(),
            ({
                let s = old(self).state;
                match s.ui.modal {
                    Some(Modal::ConfirmDelete { id, entity_type, .. }) => {
                        &&& *final(self) == (App {
                            state: AppState {
                                ui: UIState { is_loading: true, ..s.ui },
                                ..s
                            },
                            ..*old(self)
                        })
                        &&& cmd == (Command::DeleteEntity { entity: entity_type, id })
                    },
                    _ => *final(self) == *old(self) && cmd == Command::Idle,
                }
            }),
    {
        let (id, entity) = match &self.state.ui.modal {
            Some(Modal::ConfirmDelete { id, entity_type, .. }) => (*id, *entity_type),
            _ => {
                return Command::Idle;
            },
        };
        self.state.ui.is_loading = true;
        Command::DeleteEntity { entity, id }
    }

    /// Fold the outcome of a delete back in: the modal closes either way;
    /// success shows a message and reloads the tab, so the selection is
    /// re-clamped against the refreshed list.
    pub fn apply_delete_result(&mut self, result: Result<(), ApiError>) -> (cmd: Command)
        requires
            old(self).wf(),
        ensures
            final(self).wf(),
            ({
                let s = old(self).state;
                match result {
                    Ok(_) => {
                        &&& final(self).state.ui.success_message matches Some(m) && m@
                            == "Item deleted successfully"@
                        &&& *final(self) == (App {
                            state: AppState {
                                ui: UIState {
                                    is_loading: false,
                                    modal: None,
                                    success_message: final(self).state.ui.success_message,
                                    error_message: None,
                                    ..s.ui
                                },
                                ..s
                            },
                            ..*old(self)
                        })
                        &&& cmd == Command::LoadTab
                    },
                    Err(e) => {
                        &&& final(self).state.ui.error_message matches Some(m) && m@
                            == "Failed to delete: "@ + crate::client::api_error_message(e)
                        &&& *final(self) == (App {
                            state: AppState {
                                ui: UIState {
                                    is_loading: false,
                                    modal: None,
                                    error_message: final(self).state.ui.error_message,
                                    success_message: None,
                                    ..s.ui
                                },
                                ..s
                            },
                            ..*old(self)
                        })
                        &&& cmd == Command::Idle
                    },
                }
            }),
    {
        self.state.ui.is_loading = false;
        self.state.ui.modal = None;
        match result {
            Ok(_) => {
                self.state.set_success(String::from_str("Item deleted successfully"));
                Command::LoadTab
            },
            Err(e) => {
                let mut message = String::from_str("Failed to delete: ");
                let detail = e.message();
                message.append(detail.as_str());
                self.state.set_error(message);
                Command::Idle
            },
        }
    }

    /// Confirm the open pay dialog: the edited amount is parsed — an
    /// ill-formed text counts as zero — and the payment goes out; with any
    /// other modal nothing happens.
    pub fn confirm_pay(&mut self) -> (cmd: Command)
        requires
            old(self).wf(),
        ensures
            final(self).wf(),
            ({
                let s = old(self).state;
                match s.ui.modal {
                    Some(Modal::ConfirmPay { expense_id, amount_input, .. }) => {
                        &&& *final(self) == (App {
                            state: AppState {
                                ui: UIState { is_loading: true, ..s.ui },
                                ..s
                            },
                            ..*old(self)
                        })
                        &&& cmd matches Command::Pay { expense_id: eid, request } && eid
                            == expense_id && request.amount == Some(
                            crate::money::input_amount(amount_input@) as i64,
                        )
                    },
                    _ => *final(self) == *old(self) && cmd == Command::Idle,
                }
            }),
    {
        let (id, amount) = match &self.state.ui.modal {
            Some(Modal::ConfirmPay { expense_id, amount_input, .. }) => {
                let amount = match crate::money::parse_amount(amount_input.as_str()) {
                    Some(v) => v,
                    None => 0,
                };
                (*expense_id, amount)
            },
            _ => {
                return Command::Idle;
            },
        };
        self.state.ui.is_loading = true;
        Command::Pay { expense_id: id, request: PayExpenseRequest { amount: Some(amount) } }
    }

    /// Fold the outcome of a payment back in: the modal closes either way;
    /// success names the paid amount and reloads the tab.
    pub fn apply_pay_result(&mut self, amount: i64, result: Result<(), ApiError>) -> (cmd: Command)
        requires
            old(self).wf(),
        ensures
            final(self).wf(),
            ({
                let s = old(self).state;
                match result {
                    Ok(_) => {
                        &&& final(self).state.ui.success_message matches Some(m) && m@
                            == "Payment of $"@ + crate::money::format_cents_two_spec(amount as int)
                            + " added successfully"@
                        &&& *final(self) == (App {
                            state: AppState {
                                ui: UIState {
                                    is_loading: false,
                                    modal: None,
                                    success_message: final(self).state.ui.success_message,
                                    error_message: None,
                                    ..s.ui
                                },
                                ..s
                            },
                            ..*old(self)
                        })
                        &&& cmd == Command::LoadTab
                    },
                    Err(e) => {
                        &&& final(self).state.ui.error_message matches Some(m) && m@
                            == "Failed to pay: "@ + crate::client::api_error_message(e)
                        &&& *final(self) == (App {
                            state: AppState {
                                ui: UIState {
                                    is_loading: false,
                                    modal: None,
                                    error_message: final(self).state.ui.error_message,
                                    success_message: None,
                                    ..s.ui
                                },
                                ..s
                            },
                            ..*old(self)
                        })
                        &&& cmd == Command::Idle
                    },
                }
            }),
    {
        self.state.ui.is_loading = false;
        self.state.ui.modal = None;
        match result {
            Ok(_) => {
                let mut message = String::from_str("Payment of $");
                let rendered = crate::money::format_cents_two(amount);
                message.append(rendered.as_str());
                message.append(" added successfully");
                self.state.set_success(message);
                Command::LoadTab
            },
            Err(e) => {
                let mut message = String::from_str("Failed to pay: ");
                let detail = e.message();
                message.append(detail.as_str());
                self.state.set_error(message);
                Command::Idle
            },
        }
    }

    /// Confirm the open close-month dialog: the close or reopen goes out,
    /// as the dialog describes; with any other modal nothing happens.
    pub fn confirm_close_month(&mut self) -> (cmd: Command)
        requires
            old(self).wf(),
        ensures
            final(self).wf(),
            ({
                let s = old(self).state;
                match s.ui.modal {
                    Some(Modal::ConfirmCloseMonth { month_id, is_closing, .. }) => {
                        &&& *final(self) == (App {
                            state: AppState {
                                ui: UIState { is_loading: true, ..s.ui },
                                ..s
                            },
                            ..*old(self)
                        })
                        &&& cmd == (if is_closing {
                            (Command::CloseMonth { month_id })
                        } else {
                            (Command::OpenMonth { month_id })
                        })
                    },
                    _ => *final(self) == *old(self) && cmd == Command::Idle,
                }
            }),
    {
        let (id, closing) = match &self.state.ui.modal {
            Some(Modal::ConfirmCloseMonth { month_id, is_closing, .. }) => (*month_id, *is_closing),
            _ => {
                return Command::Idle;
            },
        };
        self.state.ui.is_loading = true;
        if closing {
            Command::CloseMonth { month_id: id }
        } else {
            Command::OpenMonth { month_id: id }
        }
    }

    /// Fold the outcome of closing or reopening a month back in: on
    /// success that month's flag flips in the cache — no re-fetch is
    /// needed for the cache to be right — and a message reports which of
    /// the two happened; on failure the cache is untouched.
    pub fn apply_close_month_result(
        &mut self,
        month_id: i32,
        closing: bool,
        result: Result<(), ApiError>,
    ) -> (cmd: Command)
        requires
            old(self).wf(),
        ensures
            final(self).wf(),
            ({
                let s = old(self).state;
                match result {
                    Ok(_) => {
                        &&& crate::state::months_flag_set(
                            s.data.months@,
                            final(self).state.data.months@,
                            month_id,
                            closing,
                        )
                        &&& final(self).state.ui.success_message matches Some(m) && m@ == (if
                            closing {
                            "Month closed successfully"@
                        } else {
                            "Month reopened successfully"@
                        })
                        &&& *final(self) == (App {
                            state: AppState {
                                data: DataState {
                                    months: final(self).state.data.months,
                                    ..s.data
                                },
                                ui: UIState {
                                    is_loading: false,
                                    modal: None,
                                    success_message: final(self).state.ui.success_message,
                                    error_message: None,
                                    ..s.ui
                                },
                                ..s
                            },
                            ..*old(self)
                        })
                        &&& cmd == Command::Idle
                    },
                    Err(e) => {
                        &&& final(self).state.ui.error_message matches Some(m) && m@ == (if closing {
                            "Failed to close month: "@
                        } else {
                            "Failed to reopen month: "@
                        }) + crate::client::api_error_message(e)
                        &&& *final(self) == (App {
                            state: AppState {
                                ui: UIState {
                                    is_loading: false,
                                    modal: None,
                                    error_message: final(self).state.ui.error_message,
                                    success_message: None,
                                    ..s.ui
                                },
                                ..s
                            },
                            ..*old(self)
                        })
                        &&& cmd == Command::Idle
                    },
                }
            }),
    {
        self.state.ui.is_loading = false;
        self.state.ui.modal = None;
        match result {
            Ok(_) => {
                self.state.set_month_closed(month_id, closing);
                let message = if closing {
                    String::from_str("Month closed successfully")
                } else {
                    String::from_str("Month reopened successfully")
                };
                self.state.set_success(message);
                Command::Idle
            },
            Err(e) => {
                let mut message = if closing {
                    String::from_str("Failed to close month: ")
                } else {
                    String::from_str("Failed to reopen month: ")
                };
                let detail = e.message();
                message.append(detail.as_str());
                self.state.set_error(message);
                Command::Idle
            },
        }
    }
}


/// Submitting the expense draft: messages block it, a valid draft goes
/// out as a create in the selected month or an update of the edited
/// record, and with no month selected nothing is sent.
pub open spec fn expense_save_step(pre: App, post: App, cmd: Command) -> bool {
    let s = pre.state;
    let f = pre.expense_form;
    let msgs = expense_validation_msgs(f);
    if msgs.len() > 0 {
        &&& with_error(pre, post, joined_msgs(msgs))
        &&& cmd == Command::Idle
    } else if (s.ui.selected_month_index as int) >= s.data.months@.len() {
        &&& with_error(pre, post, "No month selected"@)
        &&& cmd == Command::Idle
    } else {
        &&& post == (App {
            state: AppState { ui: UIState { is_loading: true, ..s.ui }, ..s },
            ..pre
        })
        &&& match f.editing_id {
            Some(id) => cmd matches Command::UpdateExpense(uid, u) && uid == id
                && crate::forms::is_expense_update_payload(u, f),
            None => cmd matches Command::CreateExpense(c)
                && crate::forms::is_expense_create_payload(
                c,
                f,
                s.data.months@[s.ui.selected_month_index as int].id,
            ),
        }
    }
}

/// Submitting the income draft, in the same shape as the expense save.
pub open spec fn income_save_step(pre: App, post: App, cmd: Command) -> bool {
    let s = pre.state;
    let f = pre.income_form;
    let msgs = income_validation_msgs(f);
    if msgs.len() > 0 {
        &&& with_error(pre, post, joined_msgs(msgs))
        &&& cmd == Command::Idle
    } else if (s.ui.selected_month_index as int) >= s.data.months@.len() {
        &&& with_error(pre, post, "No month selected"@)
        &&& cmd == Command::Idle
    } else {
        &&& post == (App {
            state: AppState { ui: UIState { is_loading: true, ..s.ui }, ..s },
            ..pre
        })
        &&& match f.editing_id {
            Some(id) => cmd matches Command::UpdateIncome(uid, u) && uid == id
                && crate::forms::is_income_update_payload(u, f),
            None => cmd matches Command::CreateIncome(c)
                && crate::forms::is_income_create_payload(
                c,
                f,
                s.data.months@[s.ui.selected_month_index as int].id,
            ),
        }
    }
}

/// Submitting the category draft: a blank name blocks it.
pub open spec fn category_save_step(pre: App, post: App, cmd: Command) -> bool {
    let s = pre.state;
    let f = pre.category_form;
    if crate::strutil::is_blank(f.name@) {
        &&& with_error(pre, post, "Name is required"@)
        &&& cmd == Command::Idle
    } else {
        &&& post == (App {
            state: AppState { ui: UIState { is_loading: true, ..s.ui }, ..s },
            ..pre
        })
        &&& match f.editing_id {
            Some(id) => cmd matches Command::UpdateCategory(uid, u) && uid == id && u.name@
                == f.name@ && color_payload_like(u.color, f.color),
            None => cmd matches Command::CreateCategory(c) && c.name@ == f.name@
                && color_payload_like(c.color, f.color),
        }
    }
}

/// Submitting the period draft: a blank name blocks it.
pub open spec fn period_save_step(pre: App, post: App, cmd: Command) -> bool {
    let s = pre.state;
    let f = pre.period_form;
    if crate::strutil::is_blank(f.name@) {
        &&& with_error(pre, post, "Name is required"@)
        &&& cmd == Command::Idle
    } else {
        &&& post == (App {
            state: AppState { ui: UIState { is_loading: true, ..s.ui }, ..s },
            ..pre
        })
        &&& match f.editing_id {
            Some(id) => cmd matches Command::UpdatePeriod(uid, u) && uid == id && u.name@
                == f.name@ && color_payload_like(u.color, f.color),
            None => cmd matches Command::CreatePeriod(c) && c.name@ == f.name@
                && color_payload_like(c.color, f.color),
        }
    }
}

/// Submitting the income-type draft: a blank name blocks it.
pub open spec fn income_type_save_step(pre: App, post: App, cmd: Command) -> bool {
    let s = pre.state;
    let f = pre.income_type_form;
    if crate::strutil::is_blank(f.name@) {
        &&& with_error(pre, post, "Name is required"@)
        &&& cmd == Command::Idle
    } else {
        &&& post == (App {
            state: AppState { ui: UIState { is_loading: true, ..s.ui }, ..s },
            ..pre
        })
        &&& match f.editing_id {
            Some(id) => cmd matches Command::UpdateIncomeType(uid, u) && uid == id && u.name@
                == f.name@ && color_payload_like(u.color, f.color),
            None => cmd matches Command::CreateIncomeType(c) && c.name@ == f.name@
                && color_payload_like(c.color, f.color),
        }
    }
}

/// Submitting the password form: messages block it.
pub open spec fn password_save_step(pre: App, post: App, cmd: Command) -> bool {
    let s = pre.state;
    let f = pre.password_form;
    let msgs = password_validation_msgs(f);
    if msgs.len() > 0 {
        &&& with_error(pre, post, joined_msgs(msgs))
        &&& cmd == Command::Idle
    } else {
        &&& post == (App {
            state: AppState { ui: UIState { is_loading: true, ..s.ui }, ..s },
            ..pre
        })
        &&& cmd matches Command::ChangePassword { current, new } && current@
            == f.current_password@ && new@ == f.new_password@
    }
}

/// A color payload: a blank draft color is left unset for the server to
/// default, any other is carried as typed.
pub open spec fn color_payload_like(payload: Option<String>, draft: String) -> bool {
    crate::forms::opt_text_view(payload) == (if draft@.len() == 0 {
        Option::<Seq<char>>::None
    } else {
        Option::<Seq<char>>::Some(draft@)
    })
}

/// The user-facing name of an entity kind, as save messages spell it.
pub open spec fn entity_label(entity: EntityType) -> Seq<char> {
    match entity {
        EntityType::Category => "Category"@,
        EntityType::Period => "Period"@,
        EntityType::IncomeType => "Income type"@,
        _ => "Entity"@,
    }
}

/// What a digit key does: on the settings tab it picks a settings pane;
/// anywhere else it jumps to a dashboard tab and reloads that tab.
pub open spec fn digit_key_step(
    pre: App,
    post: App,
    cmd: Command,
    pane: SettingsTab,
    tab: DashboardTab,
) -> bool {
    if pre.state.ui.selected_tab == DashboardTab::Settings {
        &&& post == (App {
            state: AppState {
                ui: UIState { settings_tab: pane, ..pre.state.ui },
                ..pre.state
            },
            ..pre
        })
        &&& cmd == Command::Idle
    } else {
        &&& post == (App {
            state: AppState {
                ui: UIState { selected_tab: tab, ..pre.state.ui },
                ..pre.state
            },
            ..pre
        })
        &&& cmd == Command::LoadTab
    }
}

/// Opening the create modal for the active tab's entity kind; the
/// operation's whole contract, including the closed-month guard.
pub open spec fn new_item_step(pre: App, post: App) -> bool {
    let s = pre.state;
    let guard = (s.ui.selected_tab == DashboardTab::Expenses || s.ui.selected_tab
        == DashboardTab::Income) && selected_month_closed(s);
    if guard {
        &&& with_error(
            pre,
            post,
            "Cannot add items to a closed month. Reopen the month first."@,
        )
        &&& post.state.ui.modal == s.ui.modal
    } else {
        match s.ui.selected_tab {
            DashboardTab::Expenses => {
                &&& is_new_expense_draft(post.expense_form, s)
                &&& post == (App {
                    state: AppState {
                        ui: UIState {
                            modal: Some(Modal::ExpenseForm { editing: None }),
                            ..s.ui
                        },
                        ..s
                    },
                    expense_form: post.expense_form,
                    ..pre
                })
            },
            DashboardTab::Income => {
                &&& is_new_income_draft(post.income_form, s)
                &&& post == (App {
                    state: AppState {
                        ui: UIState {
                            modal: Some(Modal::IncomeForm { editing: None }),
                            ..s.ui
                        },
                        ..s
                    },
                    income_form: post.income_form,
                    ..pre
                })
            },
            DashboardTab::Settings => match s.ui.settings_tab {
                SettingsTab::Categories => {
                    &&& post.category_form.editing_id is None
                    &&& post.category_form.name@.len() == 0
                    &&& post.category_form.color@.len() == 0
                    &&& post == (App {
                        state: AppState {
                            ui: UIState {
                                modal: Some(Modal::CategoryForm { editing: None }),
                                ..s.ui
                            },
                            ..s
                        },
                        category_form: post.category_form,
                        ..pre
                    })
                },
                SettingsTab::Periods => {
                    &&& post.period_form.editing_id is None
                    &&& post.period_form.name@.len() == 0
                    &&& post.period_form.color@.len() == 0
                    &&& post == (App {
                        state: AppState {
                            ui: UIState {
                                modal: Some(Modal::PeriodForm { editing: None }),
                                ..s.ui
                            },
                            ..s
                        },
                        period_form: post.period_form,
                        ..pre
                    })
                },
                SettingsTab::IncomeTypes => {
                    &&& post.income_type_form.editing_id is None
                    &&& post.income_type_form.name@.len() == 0
                    &&& post.income_type_form.color@.len() == 0
                    &&& post == (App {
                        state: AppState {
                            ui: UIState {
                                modal: Some(Modal::IncomeTypeForm { editing: None }),
                                ..s.ui
                            },
                            ..s
                        },
                        income_type_form: post.income_type_form,
                        ..pre
                    })
                },
                SettingsTab::Password => {
                    &&& post.password_form.current_password@.len() == 0
                    &&& post.password_form.new_password@.len() == 0
                    &&& post.password_form.confirm_password@.len() == 0
                    &&& post == (App {
                        state: AppState {
                            ui: UIState {
                                modal: Some(Modal::PasswordForm),
                                ..s.ui
                            },
                            ..s
                        },
                        password_form: post.password_form,
                        ..pre
                    })
                },
            },
            _ => post == pre,
        }
    }
}

/// Opening the edit modal pre-filled from the selected record; the
/// operation's whole contract.
pub open spec fn edit_item_step(pre: App, post: App) -> bool {
    let s = pre.state;
    let guard = (s.ui.selected_tab == DashboardTab::Expenses || s.ui.selected_tab
        == DashboardTab::Income) && selected_month_closed(s);
    if guard {
        &&& with_error(
pre,
post,
"Cannot edit items in a closed month. Reopen the month first."@,
        )
        &&& post.state.ui.modal == s.ui.modal
    } else {
        match s.ui.selected_tab {
DashboardTab::Expenses => {
    let flt = crate::state::filtered_expense_seq(s);
    match s.ui.expense_selected {
        Some(idx) => if (idx as int) < flt.len() {
        &&& crate::forms::is_expense_draft_of(
            post.expense_form,
            flt[idx as int],
        )
        &&& post == (App {
            state: AppState {
                ui: UIState {
                    modal: Some(Modal::ExpenseForm {
                        editing: Some(flt[idx as int].id),
                    }),
                    ..s.ui
                },
                ..s
            },
            expense_form: post.expense_form,
            ..pre
        })
    } else {
        post == pre
    },
        None => post == pre,
    }
},
DashboardTab::Income => {
    let flt = crate::state::filtered_income_seq(s);
    match s.ui.income_selected {
        Some(idx) => if (idx as int) < flt.len() {
        &&& crate::forms::is_income_draft_of(
            post.income_form,
            flt[idx as int],
        )
        &&& post == (App {
            state: AppState {
                ui: UIState {
                    modal: Some(Modal::IncomeForm {
                        editing: Some(flt[idx as int].id),
                    }),
                    ..s.ui
                },
                ..s
            },
            income_form: post.income_form,
            ..pre
        })
    } else {
        post == pre
    },
        None => post == pre,
    }
},
DashboardTab::Settings => match s.ui.settings_tab {
    SettingsTab::Categories => {
        match s.ui.category_selected {
        Some(idx) => if (idx as int)
            < s.data.categories@.len() {
            &&& post.category_form.editing_id == Some(
                s.data.categories@[idx as int].id,
            )
            &&& post.category_form.name@
                == s.data.categories@[idx as int].name@
            &&& post.category_form.color@
                == s.data.categories@[idx as int].color@
            &&& post == (App {
                state: AppState {
                    ui: UIState {
                        modal: Some(Modal::CategoryForm {
                            editing: Some(
                                s.data.categories@[idx as int].id,
                            ),
                        }),
                        ..s.ui
                    },
                    ..s
                },
                category_form: post.category_form,
                ..pre
            })
        } else {
            post == pre
        },
        None => post == pre,
        }
    },
    SettingsTab::Periods => {
        match s.ui.period_selected {
        Some(idx) => if (idx as int)
            < s.data.periods@.len() {
            &&& post.period_form.editing_id == Some(
                s.data.periods@[idx as int].id,
            )
            &&& post.period_form.name@
                == s.data.periods@[idx as int].name@
            &&& post.period_form.color@
                == s.data.periods@[idx as int].color@
            &&& post == (App {
                state: AppState {
                    ui: UIState {
                        modal: Some(Modal::PeriodForm {
                            editing: Some(s.data.periods@[idx as int].id),
                        }),
                        ..s.ui
                    },
                    ..s
                },
                period_form: post.period_form,
                ..pre
            })
        } else {
            post == pre
        },
        None => post == pre,
        }
    },
    SettingsTab::IncomeTypes => {
        match s.ui.income_type_selected {
        Some(idx) => if (idx as int)
            < s.data.income_types@.len() {
            &&& post.income_type_form.editing_id == Some(
                s.data.income_types@[idx as int].id,
            )
            &&& post.income_type_form.name@
                == s.data.income_types@[idx as int].name@
            &&& post.income_type_form.color@
                == s.data.income_types@[idx as int].color@
            &&& post == (App {
                state: AppState {
                    ui: UIState {
                        modal: Some(Modal::IncomeTypeForm {
                            editing: Some(
                                s.data.income_types@[idx as int].id,
                            ),
                        }),
                        ..s.ui
                    },
                    ..s
                },
                income_type_form: post.income_type_form,
                ..pre
            })
        } else {
            post == pre
        },
        None => post == pre,
        }
    },
    SettingsTab::Password => {
        &&& post.password_form.current_password@.len() == 0
        &&& post.password_form.new_password@.len() == 0
        &&& post.password_form.confirm_password@.len() == 0
        &&& post == (App {
            state: AppState {
                ui: UIState { modal: Some(Modal::PasswordForm), ..s.ui },
                ..s
            },
            password_form: post.password_form,
            ..pre
        })
    },
},
_ => post == pre,
        }
    }
}

/// Opening the delete confirmation for the selected record; the
/// operation's whole contract.
pub open spec fn delete_confirmation_step(pre: App, post: App) -> bool {
    let s = pre.state;
    let guard = (s.ui.selected_tab == DashboardTab::Expenses || s.ui.selected_tab
        == DashboardTab::Income) && selected_month_closed(s);
    if guard {
        &&& with_error(
pre,
post,
"Cannot delete items in a closed month. Reopen the month first."@,
        )
        &&& post.state.ui.modal == s.ui.modal
    } else {
        match s.ui.selected_tab {
DashboardTab::Expenses => {
    let flt = crate::state::filtered_expense_seq(s);
    match s.ui.expense_selected {
        Some(idx) => if (idx as int) < flt.len() {
            confirm_delete_opened(
                pre,
                post,
                "Delete expense '"@ + flt[idx as int].expense_name@
                    + "'?"@,
                flt[idx as int].id,
                EntityType::Expense,
            )
        } else {
            post == pre
        },
        None => post == pre,
    }
},
DashboardTab::Income => {
    let flt = crate::state::filtered_income_seq(s);
    match s.ui.income_selected {
        Some(idx) => if (idx as int) < flt.len() {
            confirm_delete_opened(
                pre,
                post,
                "Delete this income entry?"@,
                flt[idx as int].id,
                EntityType::Income,
            )
        } else {
            post == pre
        },
        None => post == pre,
    }
},
DashboardTab::Settings => match s.ui.settings_tab {
    SettingsTab::Categories => match s.ui.category_selected {
        Some(idx) => if (idx as int) < s.data.categories@.len() {
            confirm_delete_opened(
                pre,
                post,
                "Delete category '"@ + s.data.categories@[idx as int].name@
                    + "'?"@,
                s.data.categories@[idx as int].id,
                EntityType::Category,
            )
        } else {
            post == pre
        },
        None => post == pre,
    },
    SettingsTab::Periods => match s.ui.period_selected {
        Some(idx) => if (idx as int) < s.data.periods@.len() {
            confirm_delete_opened(
                pre,
                post,
                "Delete period '"@ + s.data.periods@[idx as int].name@
                    + "'?"@,
                s.data.periods@[idx as int].id,
                EntityType::Period,
            )
        } else {
            post == pre
        },
        None => post == pre,
    },
    SettingsTab::IncomeTypes => match s.ui.income_type_selected {
        Some(idx) => if (idx as int) < s.data.income_types@.len() {
            confirm_delete_opened(
                pre,
                post,
                "Delete income type '"@
                    + s.data.income_types@[idx as int].name@ + "'?"@,
                s.data.income_types@[idx as int].id,
                EntityType::IncomeType,
            )
        } else {
            post == pre
        },
        None => post == pre,
    },
    SettingsTab::Password => post == pre,
},
_ => post == pre,
        }
    }
}

/// Opening the pay confirmation for the selected expense; the
/// operation's whole contract.
pub open spec fn pay_confirmation_step(pre: App, post: App) -> bool {
    let s = pre.state;
    if s.ui.selected_tab != DashboardTab::Expenses {
        post == pre
    } else if selected_month_closed(s) {
        &&& with_error(
pre,
post,
"Cannot pay expenses in a closed month. Reopen the month first."@,
        )
        &&& post.state.ui.modal == s.ui.modal
    } else {
        let flt = crate::state::filtered_expense_seq(s);
        match s.ui.expense_selected {
Some(idx) => if (idx as int) < flt.len() {
    let e = flt[idx as int];
    if has_purchases(e) {
        &&& with_error(
            pre,
            post,
            "Expense already has purchases"@,
        )
        &&& post.state.ui.modal == s.ui.modal
    } else {
        &&& post.state.ui.modal matches Some(
            Modal::ConfirmPay {
                expense_name,
                expense_id,
                amount,
                amount_input,
            },
        ) && expense_name@ == e.expense_name@ && expense_id == e.id
            && amount == e.budget && amount_input@
            == crate::money::format_cents_two_spec(e.budget as int)
        &&& post == (App {
            state: AppState {
                ui: UIState {
                    modal: post.state.ui.modal,
                    ..s.ui
                },
                ..s
            },
            ..pre
        })
    }
} else {
    post == pre
},
None => post == pre,
        }
    }
}

/// Opening the close-or-reopen confirmation for the selected month; the
/// operation's whole contract.
pub open spec fn close_month_confirmation_step(pre: App, post: App) -> bool {
    let s = pre.state;
    if (s.ui.selected_month_index as int) < s.data.months@.len() {
        let m = s.data.months@[s.ui.selected_month_index as int];
        &&& post.state.ui.modal matches Some(
Modal::ConfirmCloseMonth { month_name, month_id, is_closing },
        ) && month_name@ == crate::models::month_name_spec(m.month as int)
+ seq![' '] + crate::strutil::dec_string(m.year as int) && month_id == m.id
&& is_closing == !m.is_closed
        &&& post == (App {
state: AppState {
    ui: UIState { modal: post.state.ui.modal, ..s.ui },
    ..s
},
..pre
        })
    } else {
        post == pre
    }
}

/// `post` is `pre` with a delete confirmation opened, naming this record.
pub open spec fn confirm_delete_opened(
    pre: App,
    post: App,
    msg: Seq<char>,
    id: i32,
    entity: EntityType,
) -> bool {
    &&& post.state.ui.modal matches Some(
        Modal::ConfirmDelete { message, id: mid, entity_type },
    ) && message@ == msg && mid == id && entity_type == entity
    &&& post == (App {
        state: AppState {
ui: UIState { modal: post.state.ui.modal, ..pre.state.ui },
..pre.state
        },
        ..pre
    })
}

} // verus!
