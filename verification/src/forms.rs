//! Per-entity form drafts: string-typed editable fields, a focused-field
//! cursor with a total cyclic order, client-side validation, and the
//! conversion of a valid draft into a create or partial-update payload.
//!
//! A draft keeps the raw text the user typed, so half-finished numbers stay
//! representable while editing; parsing happens only at submission time.

use vstd::prelude::*;

use crate::models::{
    Category, CategoryCreate, CategoryUpdate, Expense, ExpenseCreate, ExpenseUpdate, Income,
    IncomeCreate, IncomeType, IncomeTypeCreate, IncomeTypeUpdate, IncomeUpdate, Period,
    PeriodCreate, PeriodUpdate, Purchase,
};
use crate::money::{
    format_cents, format_cents_spec, input_amount, is_money_text, money_value_of, parse_amount,
    lemma_money_value_bounds, MAX_AMOUNT_CENTS,
};
use crate::strutil::{is_blank, text_is_blank};

verus! {

/// The view of an optional text.
pub open spec fn opt_text_view(o: Option<String>) -> Option<Seq<char>> {
    match o {
        Some(s) => Some(s@),
        None => None,
    }
}

/// Two purchase lines with the same content.
pub open spec fn purchase_like(a: Purchase, b: Purchase) -> bool {
    &&& a.name@ == b.name@
    &&& a.amount == b.amount
    &&& opt_text_view(a.date) == opt_text_view(b.date)
}

/// Fields of the expense form, in their fixed cyclic order. The cost is not
/// a field: it is always calculated from the purchase lines.
#[derive(Debug, Clone, Copy, PartialEq, Eq, Structural)]
pub enum ExpenseField {
    Name,
    Period,
    Category,
    Budget,
    Purchases,
    Notes,
}

impl ExpenseField {
    pub open spec fn index_spec(self) -> int {
        match self {
            ExpenseField::Name => 0,
            ExpenseField::Period => 1,
            ExpenseField::Category => 2,
            ExpenseField::Budget => 3,
            ExpenseField::Purchases => 4,
            ExpenseField::Notes => 5,
        }
    }

    pub open spec fn from_index_spec(index: int) -> ExpenseField {
        if index == 0 {
            ExpenseField::Name
        } else if index == 1 {
            ExpenseField::Period
        } else if index == 2 {
            ExpenseField::Category
        } else if index == 3 {
            ExpenseField::Budget
        } else if index == 4 {
            ExpenseField::Purchases
        } else if index == 5 {
            ExpenseField::Notes
        } else {
            ExpenseField::Name
        }
    }

    /// The field after this one, wrapping.
    pub open spec fn next_spec(self) -> ExpenseField {
        match self {
            ExpenseField::Name => ExpenseField::Period,
            ExpenseField::Period => ExpenseField::Category,
            ExpenseField::Category => ExpenseField::Budget,
            ExpenseField::Budget => ExpenseField::Purchases,
            ExpenseField::Purchases => ExpenseField::Notes,
            ExpenseField::Notes => ExpenseField::Name,
        }
    }

    /// The field before this one, wrapping.
    pub open spec fn previous_spec(self) -> ExpenseField {
        match self {
            ExpenseField::Name => ExpenseField::Notes,
            ExpenseField::Period => ExpenseField::Name,
            ExpenseField::Category => ExpenseField::Period,
            ExpenseField::Budget => ExpenseField::Category,
            ExpenseField::Purchases => ExpenseField::Budget,
            ExpenseField::Notes => ExpenseField::Purchases,
        }
    }

    /// All fields, in cycle order.
    pub fn all() -> (r: Vec<ExpenseField>)
        ensures
            r@ == seq![
                ExpenseField::Name,
                ExpenseField::Period,
                ExpenseField::Category,
                ExpenseField::Budget,
                ExpenseField::Purchases,
                ExpenseField::Notes,
            ],
    {
        let mut v: Vec<ExpenseField> = Vec::new();
        v.push(ExpenseField::Name);
        v.push(ExpenseField::Period);
        v.push(ExpenseField::Category);
        v.push(ExpenseField::Budget);
        v.push(ExpenseField::Purchases);
        v.push(ExpenseField::Notes);
        proof {
            assert(v@ =~= seq![
                ExpenseField::Name,
                ExpenseField::Period,
                ExpenseField::Category,
                ExpenseField::Budget,
                ExpenseField::Purchases,
                ExpenseField::Notes,
            ]);
        }
        v
    }

    pub fn index(&self) -> (r: usize)
        ensures
            r == self.index_spec(),
    {
        match self {
            ExpenseField::Name => 0,
            ExpenseField::Period => 1,
            ExpenseField::Category => 2,
            ExpenseField::Budget => 3,
            ExpenseField::Purchases => 4,
            ExpenseField::Notes => 5,
        }
    }

    /// The field at an index; anything out of range falls back to the first.
    pub fn from_index(index: usize) -> (r: Self)
        ensures
            r == Self::from_index_spec(index as int),
    {
        match index {
            0 => ExpenseField::Name,
            1 => ExpenseField::Period,
            2 => ExpenseField::Category,
            3 => ExpenseField::Budget,
            4 => ExpenseField::Purchases,
            5 => ExpenseField::Notes,
            _ => ExpenseField::Name,
        }
    }

    pub fn next(&self) -> (r: Self)
        ensures
            r == self.next_spec(),
    {
        match self {
            ExpenseField::Name => ExpenseField::Period,
            ExpenseField::Period => ExpenseField::Category,
            ExpenseField::Category => ExpenseField::Budget,
            ExpenseField::Budget => ExpenseField::Purchases,
            ExpenseField::Purchases => ExpenseField::Notes,
            ExpenseField::Notes => ExpenseField::Name,
        }
    }

    pub fn previous(&self) -> (r: Self)
        ensures
            r == self.previous_spec(),
    {
        match self {
            ExpenseField::Name => ExpenseField::Notes,
            ExpenseField::Period => ExpenseField::Name,
            ExpenseField::Category => ExpenseField::Period,
            ExpenseField::Budget => ExpenseField::Category,
            ExpenseField::Purchases => ExpenseField::Budget,
            ExpenseField::Notes => ExpenseField::Purchases,
        }
    }
}

/// The expense-field cycle is total: stepping back then forward is the
/// identity, and six forward steps return to the start.
pub proof fn lemma_expense_field_cycle(f: ExpenseField)
    ensures
        f.previous_spec().next_spec() == f,
        f.next_spec().previous_spec() == f,
        f.next_spec().next_spec().next_spec().next_spec().next_spec().next_spec() == f,
{
}

/// Fields of the income form, in their fixed cyclic order.
#[derive(Debug, Clone, Copy, PartialEq, Eq, Structural)]
pub enum IncomeField {
    IncomeType,
    Period,
    Budget,
    Amount,
}

impl IncomeField {
    pub open spec fn index_spec(self) -> int {
        match self {
            IncomeField::IncomeType => 0,
            IncomeField::Period => 1,
            IncomeField::Budget => 2,
            IncomeField::Amount => 3,
        }
    }

    pub open spec fn from_index_spec(index: int) -> IncomeField {
        if index == 0 {
            IncomeField::IncomeType
        } else if index == 1 {
            IncomeField::Period
        } else if index == 2 {
            IncomeField::Budget
        } else if index == 3 {
            IncomeField::Amount
        } else {
            IncomeField::IncomeType
        }
    }

    /// The field after this one, wrapping.
    pub open spec fn next_spec(self) -> IncomeField {
        match self {
            IncomeField::IncomeType => IncomeField::Period,
            IncomeField::Period => IncomeField::Budget,
            IncomeField::Budget => IncomeField::Amount,
            IncomeField::Amount => IncomeField::IncomeType,
        }
    }

    /// The field before this one, wrapping.
    pub open spec fn previous_spec(self) -> IncomeField {
        match self {
            IncomeField::IncomeType => IncomeField::Amount,
            IncomeField::Period => IncomeField::IncomeType,
            IncomeField::Budget => IncomeField::Period,
            IncomeField::Amount => IncomeField::Budget,
        }
    }

    /// All fields, in cycle order.
    pub fn all() -> (r: Vec<IncomeField>)
        ensures
            r@ == seq![
                IncomeField::IncomeType,
                IncomeField::Period,
                IncomeField::Budget,
                IncomeField::Amount,
            ],
    {
        let mut v: Vec<IncomeField> = Vec::new();
        v.push(IncomeField::IncomeType);
        v.push(IncomeField::Period);
        v.push(IncomeField::Budget);
        v.push(IncomeField::Amount);
        proof {
            assert(v@ =~= seq![
                IncomeField::IncomeType,
                IncomeField::Period,
                IncomeField::Budget,
                IncomeField::Amount,
            ]);
        }
        v
    }

    pub fn index(&self) -> (r: usize)
        ensures
            r == self.index_spec(),
    {
        match self {
            IncomeField::IncomeType => 0,
            IncomeField::Period => 1,
            IncomeField::Budget => 2,
            IncomeField::Amount => 3,
        }
    }

    /// The field at an index; anything out of range falls back to the first.
    pub fn from_index(index: usize) -> (r: Self)
        ensures
            r == Self::from_index_spec(index as int),
    {
        match index {
            0 => IncomeField::IncomeType,
            1 => IncomeField::Period,
            2 => IncomeField::Budget,
            3 => IncomeField::Amount,
            _ => IncomeField::IncomeType,
        }
    }

    pub fn next(&self) -> (r: Self)
        ensures
            r == self.next_spec(),
    {
        match self {
            IncomeField::IncomeType => IncomeField::Period,
            IncomeField::Period => IncomeField::Budget,
            IncomeField::Budget => IncomeField::Amount,
            IncomeField::Amount => IncomeField::IncomeType,
        }
    }

    pub fn previous(&self) -> (r: Self)
        ensures
            r == self.previous_spec(),
    {
        match self {
            IncomeField::IncomeType => IncomeField::Amount,
            IncomeField::Period => IncomeField::IncomeType,
            IncomeField::Budget => IncomeField::Period,
            IncomeField::Amount => IncomeField::Budget,
        }
    }
}

/// The income-field cycle is total: stepping back then forward is the
/// identity, and four forward steps return to the start.
pub proof fn lemma_income_field_cycle(f: IncomeField)
    ensures
        f.previous_spec().next_spec() == f,
        f.next_spec().previous_spec() == f,
        f.next_spec().next_spec().next_spec().next_spec() == f,
{
}

/// Which sub-field of a purchase line is being edited.
#[derive(Debug, Clone, Copy, PartialEq, Eq, Structural)]
pub enum PurchaseEditField {
    Name,
    Amount,
}

/// Sum, in hundredths, of the amounts a list of editable texts denotes.
pub open spec fn sum_input_amounts(ss: Seq<String>) -> int
    decreases ss.len(),
{
    if ss.len() == 0 {
        0
    } else {
        sum_input_amounts(ss.drop_last()) + input_amount(ss.last()@)
    }
}

/// Every text denotes an amount between zero and [`MAX_AMOUNT_CENTS`], so
/// the sum lies between zero and the length times that bound.
pub proof fn lemma_sum_input_amounts_bounds(ss: Seq<String>)
    ensures
        0 <= sum_input_amounts(ss) <= ss.len() * (MAX_AMOUNT_CENTS as int),
    decreases ss.len(),
{
    if ss.len() > 0 {
        lemma_sum_input_amounts_bounds(ss.drop_last());
        if is_money_text(ss.last()@) {
            lemma_money_value_bounds(ss.last()@);
        }
    }
}

/// The cost a draft reports: its purchase sum, held inside the 64-bit
/// range.
pub open spec fn cost_of_sum(sum: int) -> int {
    if sum > i64::MAX {
        i64::MAX as int
    } else {
        sum
    }
}

/// Expense form draft.
#[derive(Debug, Clone)]
pub struct ExpenseFormState {
    pub editing_id: Option<i32>,
    pub name: String,
    pub period: String,
    pub category: String,
    pub budget: String,
    pub notes: String,
    /// Purchase lines; amounts here are the last parsed values, while the
    /// editable texts live in `purchase_amount_inputs`, one per line.
    pub purchases: Vec<Purchase>,
    pub purchase_amount_inputs: Vec<String>,
    pub selected_purchase: usize,
    pub purchase_edit_field: PurchaseEditField,
    pub focused_field: ExpenseField,
}

impl ExpenseFormState {
    /// Every purchase line has an editable amount text, and the selection
    /// stays inside the lines.
    pub open spec fn wf(self) -> bool {
        &&& self.purchases@.len() == self.purchase_amount_inputs@.len()
        &&& (self.purchases@.len() == 0 ==> self.selected_purchase == 0)
        &&& (self.purchases@.len() > 0 ==> (self.selected_purchase as int)
            < self.purchases@.len())
    }
}

impl Default for ExpenseFormState {
    /// An empty draft in create mode, focused on the name.
    fn default() -> (r: Self)
        ensures
            r.editing_id is None,
            r.name@.len() == 0,
            r.period@.len() == 0,
            r.category@.len() == 0,
            r.budget@.len() == 0,
            r.notes@.len() == 0,
            r.purchases@.len() == 0,
            r.purchase_amount_inputs@.len() == 0,
            r.selected_purchase == 0,
            r.purchase_edit_field == PurchaseEditField::Name,
            r.focused_field == ExpenseField::Name,
            r.wf(),
    {
        ExpenseFormState {
            editing_id: None,
            name: String::new(),
            period: String::new(),
            category: String::new(),
            budget: String::new(),
            notes: String::new(),
            purchases: Vec::new(),
            purchase_amount_inputs: Vec::new(),
            selected_purchase: 0,
            purchase_edit_field: PurchaseEditField::Name,
            focused_field: ExpenseField::Name,
        }
    }
}

/// A draft pre-filled from an expense: update mode with its id, its texts,
/// its budget rendered as an amount text, one amount text per purchase
/// line, and focus at the start.
pub open spec fn is_expense_draft_of(r: ExpenseFormState, expense: Expense) -> bool {
    &&& r.editing_id == Some(expense.id)
    &&& r.name@ == expense.expense_name@
    &&& r.period@ == expense.period@
    &&& r.category@ == expense.category@
    &&& r.budget@ == format_cents_spec(expense.budget as int)
    &&& r.notes@ == (match expense.notes {
        Some(n) => n@,
        None => Seq::<char>::empty(),
    })
    &&& r.purchases@.len() == (match expense.purchases {
        Some(p) => p@.len(),
        None => 0,
    })
    &&& (match expense.purchases {
        Some(p) => forall|i: int|
            0 <= i < p@.len() ==> purchase_like(#[trigger] r.purchases@[i], p@[i]),
        None => true,
    })
    &&& forall|i: int|
        0 <= i < r.purchases@.len() ==> #[trigger] r.purchase_amount_inputs@[i]@
            == format_cents_spec(r.purchases@[i].amount as int)
    &&& r.selected_purchase == 0
    &&& r.purchase_edit_field == PurchaseEditField::Name
    &&& r.focused_field == ExpenseField::Name
}

impl ExpenseFormState {
    /// A draft in update mode, pre-filled from an existing expense.
    pub fn from_expense(expense: &Expense) -> (r: Self)
        ensures
            is_expense_draft_of(r, *expense),
            r.editing_id == Some(expense.id),
            r.name@ == expense.expense_name@,
            r.period@ == expense.period@,
            r.category@ == expense.category@,
            r.budget@ == format_cents_spec(expense.budget as int),
            r.notes@ == (match expense.notes {
                Some(n) => n@,
                None => Seq::<char>::empty(),
            }),
            r.purchases@.len() == (match expense.purchases {
                Some(p) => p@.len(),
                None => 0,
            }),
            (match expense.purchases {
                Some(p) => forall|i: int|
                    0 <= i < p@.len() ==> purchase_like(#[trigger] r.purchases@[i], p@[i]),
                None => true,
            }),
            forall|i: int|
                0 <= i < r.purchases@.len() ==> #[trigger] r.purchase_amount_inputs@[i]@
                    == format_cents_spec(r.purchases@[i].amount as int),
            r.selected_purchase == 0,
            r.purchase_edit_field == PurchaseEditField::Name,
            r.focused_field == ExpenseField::Name,
            r.wf(),
    {
        let notes = match &expense.notes {
            Some(n) => n.clone(),
            None => String::new(),
        };
        let mut purchases: Vec<Purchase> = Vec::new();
        let mut inputs: Vec<String> = Vec::new();
        if let Some(source) = &expense.purchases {
            let mut i: usize = 0;
            while i < source.len()
                invariant
                    i <= source@.len(),
                    expense.purchases == Some(*source),
                    purchases@.len() == i,
                    inputs@.len() == i,
                    forall|j: int|
                        0 <= j < i ==> purchase_like(#[trigger] purchases@[j], source@[j]),
                    forall|j: int|
                        0 <= j < i ==> #[trigger] inputs@[j]@ == format_cents_spec(
                            purchases@[j].amount as int,
                        ),
                decreases source@.len() - i,
            {
                let p = &source[i];
                let date = match &p.date {
                    Some(d) => Some(d.clone()),
                    None => None,
                };
                purchases.push(Purchase { name: p.name.clone(), amount: p.amount, date });
                inputs.push(format_cents(p.amount));
                i += 1;
            }
        }
        ExpenseFormState {
            editing_id: Some(expense.id),
            name: expense.expense_name.clone(),
            period: expense.period.clone(),
            category: expense.category.clone(),
            budget: format_cents(expense.budget),
            notes,
            purchases,
            purchase_amount_inputs: inputs,
            selected_purchase: 0,
            purchase_edit_field: PurchaseEditField::Name,
            focused_field: ExpenseField::Name,
        }
    }

    /// The editable amount text of one purchase line; empty out of range.
    pub fn get_purchase_amount_input(&self, i: usize) -> (r: &str)
        ensures
            r@ == (if i < self.purchase_amount_inputs@.len() {
                self.purchase_amount_inputs@[i as int]@
            } else {
                Seq::<char>::empty()
            }),
    {
        if i < self.purchase_amount_inputs.len() {
            self.purchase_amount_inputs[i].as_str()
        } else {
            proof {
                reveal_strlit("");
                assert(""@ =~= Seq::<char>::empty());
            }
            ""
        }
    }

    /// Append a blank purchase line and select it.
    pub fn add_purchase(&mut self)
        requires
            old(self).wf(),
        ensures
            purchase_line_added(*old(self), *final(self)),
            final(self).wf(),
    {
        self.purchases.push(Purchase { name: String::new(), amount: 0, date: None });
        self.purchase_amount_inputs.push(String::new());
        self.selected_purchase = self.purchases.len() - 1;
        proof {
            assert(final(self).purchases@.subrange(0, old(self).purchases@.len() as int)
                =~= old(self).purchases@);
            assert(final(self).purchase_amount_inputs@.subrange(
                0,
                old(self).purchases@.len() as int,
            ) =~= old(self).purchase_amount_inputs@);
        }
    }

    /// Remove the selected purchase line, clamping the selection to the new
    /// bounds; a draft with no lines is left unchanged.
    pub fn remove_purchase(&mut self)
        requires
            old(self).wf(),
        ensures
            purchase_line_removed(*old(self), *final(self)),
            final(self).wf(),
    {
        if self.purchases.len() == 0 {
            return;
        }
        let sel = self.selected_purchase;
        self.purchases.remove(sel);
        self.purchase_amount_inputs.remove(sel);
        let new_len = self.purchases.len();
        if new_len == 0 {
            self.selected_purchase = 0;
        } else if sel >= new_len {
            self.selected_purchase = new_len - 1;
        }
    }

    /// The draft's cost: the exact sum of its purchase amounts, recomputed
    /// from the editable texts on every call, held inside the 64-bit range.
    pub fn calculated_cost(&self) -> (r: i64)
        ensures
            r == cost_of_sum(sum_input_amounts(self.purchase_amount_inputs@)),
            sum_input_amounts(self.purchase_amount_inputs@) <= i64::MAX ==> r
                == sum_input_amounts(self.purchase_amount_inputs@),
    {
        let n = self.purchase_amount_inputs.len();
        let mut acc: i128 = 0;
        let mut i: usize = 0;
        while i < n
            invariant
                n == self.purchase_amount_inputs@.len(),
                i <= n,
                acc == sum_input_amounts(self.purchase_amount_inputs@.subrange(0, i as int)),
                0 <= acc <= (i as int) * (MAX_AMOUNT_CENTS as int),
            decreases n - i,
        {
            let a: i64 = match parse_amount(self.purchase_amount_inputs[i].as_str()) {
                Some(v) => v,
                None => 0,
            };
            proof {
                let pre = self.purchase_amount_inputs@.subrange(0, i as int);
                let nxt = self.purchase_amount_inputs@.subrange(0, i as int + 1);
                assert(nxt.drop_last() =~= pre);
                assert(nxt.last() == self.purchase_amount_inputs@[i as int]);
                lemma_sum_input_amounts_bounds(pre);
            }
            acc = acc + a as i128;
            i += 1;
        }
        proof {
            assert(self.purchase_amount_inputs@.subrange(
                0,
                self.purchase_amount_inputs@.len() as int,
            ) =~= self.purchase_amount_inputs@);
        }
        if acc > i64::MAX as i128 {
            i64::MAX
        } else {
            acc as i64
        }
    }

    /// The purchase lines as they would be submitted: each line's amount is
    /// the value its editable text denotes.
    pub fn purchases_for_payload(&self) -> (r: Vec<Purchase>)
        requires
            self.wf(),
        ensures
            r@.len() == self.purchases@.len(),
            forall|i: int|
                0 <= i < r@.len() ==> #[trigger] r@[i].name@ == self.purchases@[i].name@
                    && r@[i].amount == input_amount(self.purchase_amount_inputs@[i]@)
                    && opt_text_view(r@[i].date) == opt_text_view(self.purchases@[i].date),
    {
        let mut out: Vec<Purchase> = Vec::new();
        let mut i: usize = 0;
        while i < self.purchases.len()
            invariant
                self.wf(),
                i <= self.purchases@.len(),
                out@.len() == i,
                forall|j: int|
                    0 <= j < i ==> #[trigger] out@[j].name@ == self.purchases@[j].name@
                        && out@[j].amount == input_amount(self.purchase_amount_inputs@[j]@)
                        && opt_text_view(out@[j].date) == opt_text_view(self.purchases@[j].date),
            decreases self.purchases@.len() - i,
        {
            let p = &self.purchases[i];
            let amount: i64 = match parse_amount(self.purchase_amount_inputs[i].as_str()) {
                Some(v) => v,
                None => 0,
            };
            let date = match &p.date {
                Some(d) => Some(d.clone()),
                None => None,
            };
            out.push(Purchase { name: p.name.clone(), amount, date });
            i += 1;
        }
        out
    }
}

/// `post` is `pre` with a blank purchase line appended and selected:
/// nothing else of the draft moves.
pub open spec fn purchase_line_added(pre: ExpenseFormState, post: ExpenseFormState) -> bool {
    &&& post.purchases@.len() == pre.purchases@.len() + 1
    &&& post.purchases@.subrange(0, pre.purchases@.len() as int) == pre.purchases@
    &&& post.purchases@.last().name@.len() == 0
    &&& post.purchases@.last().amount == 0
    &&& post.purchases@.last().date is None
    &&& post.purchase_amount_inputs@.len() == pre.purchases@.len() + 1
    &&& post.purchase_amount_inputs@.subrange(0, pre.purchases@.len() as int)
        == pre.purchase_amount_inputs@
    &&& post.purchase_amount_inputs@.last()@.len() == 0
    &&& post.selected_purchase == pre.purchases@.len()
    &&& post == (ExpenseFormState {
        purchases: post.purchases,
        purchase_amount_inputs: post.purchase_amount_inputs,
        selected_purchase: post.selected_purchase,
        ..pre
    })
}

/// `post` is `pre` with the selected purchase line removed and the
/// selection clamped to the new bounds; a draft with no lines is left
/// unchanged.
pub open spec fn purchase_line_removed(pre: ExpenseFormState, post: ExpenseFormState) -> bool {
    if pre.purchases@.len() == 0 {
        post == pre
    } else {
        let sel = pre.selected_purchase as int;
        let new_len = pre.purchases@.len() - 1;
        &&& post.purchases@ == pre.purchases@.remove(sel)
        &&& post.purchase_amount_inputs@ == pre.purchase_amount_inputs@.remove(sel)
        &&& post.selected_purchase as int == (if new_len == 0 {
            0
        } else if sel < new_len {
            sel
        } else {
            new_len - 1
        })
        &&& post == (ExpenseFormState {
            purchases: post.purchases,
            purchase_amount_inputs: post.purchase_amount_inputs,
            selected_purchase: post.selected_purchase,
            ..pre
        })
    }
}

/// Submitted purchase lines: names and dates from the draft's lines, each
/// amount the value its editable text denotes.
pub open spec fn payload_purchases_like(
    v: Seq<Purchase>,
    src: Seq<Purchase>,
    inputs: Seq<String>,
) -> bool {
    &&& v.len() == src.len()
    &&& forall|i: int|
        0 <= i < v.len() ==> #[trigger] v[i].name@ == src[i].name@ && v[i].amount == input_amount(
            inputs[i]@,
        ) && opt_text_view(v[i].date) == opt_text_view(src[i].date)
}

/// A creation payload carrying exactly what an expense draft holds: its
/// texts, its budget's value, the exact purchase sum as the cost, the
/// purchase lines, and the month it is created in; absent notes and
/// purchases are left unset, and the date is never set.
pub open spec fn is_expense_create_payload(
    c: ExpenseCreate,
    f: ExpenseFormState,
    month_id: i32,
) -> bool {
    &&& c.expense_name@ == f.name@
    &&& c.period@ == f.period@
    &&& c.category@ == f.category@
    &&& c.budget == money_value_of(f.budget@)
    &&& c.cost == cost_of_sum(sum_input_amounts(f.purchase_amount_inputs@))
    &&& opt_text_view(c.notes) == (if f.notes@.len() == 0 {
        Option::<Seq<char>>::None
    } else {
        Option::<Seq<char>>::Some(f.notes@)
    })
    &&& c.month_id == month_id
    &&& (f.purchases@.len() == 0 ==> c.purchases is None)
    &&& (f.purchases@.len() > 0 ==> (c.purchases matches Some(v) && payload_purchases_like(
        v@,
        f.purchases@,
        f.purchase_amount_inputs@,
    )))
    &&& c.expense_date is None
}

/// A partial-update payload carrying exactly the fields the expense form
/// captures; the month and the date are left unset.
pub open spec fn is_expense_update_payload(u: ExpenseUpdate, f: ExpenseFormState) -> bool {
    &&& u.expense_name matches Some(n) && n@ == f.name@
    &&& u.period matches Some(p) && p@ == f.period@
    &&& u.category matches Some(c) && c@ == f.category@
    &&& u.budget == Some(money_value_of(f.budget@) as i64)
    &&& u.cost == Some(cost_of_sum(sum_input_amounts(f.purchase_amount_inputs@)) as i64)
    &&& u.notes matches Some(n) && n@ == f.notes@
    &&& u.month_id is None
    &&& u.purchases matches Some(v) && payload_purchases_like(
        v@,
        f.purchases@,
        f.purchase_amount_inputs@,
    )
    &&& u.expense_date is None
}

/// The validation messages of an expense draft, in their fixed order.
pub open spec fn expense_validation_msgs(f: ExpenseFormState) -> Seq<Seq<char>> {
    (if is_blank(f.name@) {
        seq!["Name is required"@]
    } else {
        seq![]
    }) + (if is_blank(f.period@) {
        seq!["Period is required"@]
    } else {
        seq![]
    }) + (if is_blank(f.category@) {
        seq!["Category is required"@]
    } else {
        seq![]
    }) + (if !is_money_text(f.budget@) {
        seq!["Budget must be a valid number"@]
    } else {
        seq![]
    }) + (if f.purchases@.len() == 0 {
        seq!["At least one purchase is required"@]
    } else if sum_input_amounts(f.purchase_amount_inputs@) == 0 {
        seq!["Purchases must have amounts"@]
    } else {
        seq![]
    })
}

impl ExpenseFormState {
    /// The draft as a creation payload, or nothing when the budget text is
    /// not a well-formed amount.
    #[verifier::rlimit(50)]
    pub fn to_create(&self, month_id: i32) -> (r: Option<ExpenseCreate>)
        requires
            self.wf(),
        ensures
            r is Some <==> is_money_text(self.budget@),
            r matches Some(c) ==> is_expense_create_payload(c, *self, month_id),
    {
        let budget = match parse_amount(self.budget.as_str()) {
            Some(v) => v,
            None => {
                return None;
            },
        };
        let cost = self.calculated_cost();
        let notes = if self.notes.as_str().is_empty() {
            None
        } else {
            Some(self.notes.clone())
        };
        let purchases = if self.purchases.len() == 0 {
            None
        } else {
            let pp = self.purchases_for_payload();
            proof {
                assert(pp@.len() == self.purchases@.len());
                assert forall|i: int| 0 <= i < pp@.len() implies #[trigger] pp@[i].name@
                    == self.purchases@[i].name@ && pp@[i].amount == input_amount(
                    self.purchase_amount_inputs@[i]@,
                ) && opt_text_view(pp@[i].date) == opt_text_view(self.purchases@[i].date) by {
                    assert(pp@[i].name@ == self.purchases@[i].name@);
                }
                assert(payload_purchases_like(
                    pp@,
                    self.purchases@,
                    self.purchase_amount_inputs@,
                ));
            }
            Some(pp)
        };
        Some(ExpenseCreate {
            expense_name: self.name.clone(),
            period: self.period.clone(),
            category: self.category.clone(),
            budget,
            cost,
            notes,
            month_id,
            purchases,
            expense_date: None,
        })
    }

    /// The draft as a partial-update payload: exactly the fields the form
    /// captures are present, and the month and date are left unset. Nothing
    /// when the budget text is not a well-formed amount.
    #[verifier::rlimit(50)]
    pub fn to_update(&self) -> (r: Option<ExpenseUpdate>)
        requires
            self.wf(),
        ensures
            r is Some <==> is_money_text(self.budget@),
            r matches Some(u) ==> is_expense_update_payload(u, *self),
    {
        let budget = match parse_amount(self.budget.as_str()) {
            Some(v) => v,
            None => {
                return None;
            },
        };
        let cost = self.calculated_cost();
        let pp = self.purchases_for_payload();
        proof {
            assert(pp@.len() == self.purchases@.len());
            assert forall|i: int| 0 <= i < pp@.len() implies #[trigger] pp@[i].name@
                == self.purchases@[i].name@ && pp@[i].amount == input_amount(
                self.purchase_amount_inputs@[i]@,
            ) && opt_text_view(pp@[i].date) == opt_text_view(self.purchases@[i].date) by {
                assert(pp@[i].name@ == self.purchases@[i].name@);
            }
            assert(payload_purchases_like(pp@, self.purchases@, self.purchase_amount_inputs@));
        }
        Some(ExpenseUpdate {
            expense_name: Some(self.name.clone()),
            period: Some(self.period.clone()),
            category: Some(self.category.clone()),
            budget: Some(budget),
            cost: Some(cost),
            notes: Some(self.notes.clone()),
            month_id: None,
            purchases: Some(pp),
            expense_date: None,
        })
    }

    /// Check the draft against every submission rule, returning one message
    /// per broken rule and none for a valid draft.
    pub fn validate(&self) -> (r: Vec<String>)
        ensures
            r@.map_values(|s: String| s@) == expense_validation_msgs(*self),
    {
        let mut errors: Vec<String> = Vec::new();
        if text_is_blank(self.name.as_str()) {
            errors.push(String::from_str("Name is required"));
        }
        if text_is_blank(self.period.as_str()) {
            errors.push(String::from_str("Period is required"));
        }
        if text_is_blank(self.category.as_str()) {
            errors.push(String::from_str("Category is required"));
        }
        if parse_amount(self.budget.as_str()).is_none() {
            errors.push(String::from_str("Budget must be a valid number"));
        }
        if self.purchases.len() == 0 {
            errors.push(String::from_str("At least one purchase is required"));
        } else if self.calculated_cost() == 0 {
            proof {
                lemma_sum_input_amounts_bounds(self.purchase_amount_inputs@);
            }
            errors.push(String::from_str("Purchases must have amounts"));
        } else {
            proof {
                lemma_sum_input_amounts_bounds(self.purchase_amount_inputs@);
            }
        }
        proof {
            assert(errors@.map_values(|s: String| s@) =~~= expense_validation_msgs(*self));
        }
        errors
    }
}

/// Validation gates submission: a draft with no purchase line, or with
/// lines summing to zero, yields at least one message; and a draft with no
/// message satisfies every rule, so its payload conversion succeeds.
pub proof fn lemma_expense_validation_gates(f: ExpenseFormState)
    ensures
        f.purchases@.len() == 0 ==> expense_validation_msgs(f).len() > 0,
        f.purchases@.len() > 0 && sum_input_amounts(f.purchase_amount_inputs@) == 0
            ==> expense_validation_msgs(f).len() > 0,
        (!is_blank(f.name@) && !is_blank(f.period@) && !is_blank(f.category@) && is_money_text(
            f.budget@,
        ) && f.purchases@.len() > 0 && sum_input_amounts(f.purchase_amount_inputs@) != 0)
            <==> expense_validation_msgs(f).len() == 0,
{
}

/// A blank new line leaves the purchase sum unchanged: the cost after
/// adding a line is still the exact sum of all lines.
pub proof fn lemma_sum_after_add(inputs: Seq<String>, blank: String)
    requires
        blank@.len() == 0,
    ensures
        sum_input_amounts(inputs.push(blank)) == sum_input_amounts(inputs),
{
    assert(inputs.push(blank).drop_last() =~= inputs);
    assert(!is_money_text(blank@));
}

/// Removing a line subtracts exactly that line's amount from the sum: the
/// cost after removing a line is the exact sum of the remaining lines.
pub proof fn lemma_sum_after_remove(inputs: Seq<String>, k: int)
    requires
        0 <= k < inputs.len(),
    ensures
        sum_input_amounts(inputs.remove(k)) == sum_input_amounts(inputs) - input_amount(
            inputs[k]@,
        ),
    decreases inputs.len(),
{
    if k == inputs.len() - 1 {
        assert(inputs.remove(k) =~= inputs.drop_last());
    } else {
        assert(inputs.remove(k).drop_last() =~= inputs.drop_last().remove(k));
        assert(inputs.remove(k).last() == inputs.last());
        lemma_sum_after_remove(inputs.drop_last(), k);
    }
}

/// A creation payload carrying exactly what an income draft holds.
pub open spec fn is_income_create_payload(
    c: IncomeCreate,
    f: IncomeFormState,
    month_id: i32,
) -> bool {
    &&& Some(c.income_type_id) == f.income_type_id
    &&& c.period@ == f.period@
    &&& c.budget == money_value_of(f.budget@)
    &&& c.amount == money_value_of(f.amount@)
    &&& c.month_id == month_id
}

/// A partial-update payload carrying exactly the fields the income form
/// captures; the month is left unset.
pub open spec fn is_income_update_payload(u: IncomeUpdate, f: IncomeFormState) -> bool {
    &&& u.income_type_id == f.income_type_id
    &&& u.period matches Some(p) && p@ == f.period@
    &&& u.budget == Some(money_value_of(f.budget@) as i64)
    &&& u.amount == Some(money_value_of(f.amount@) as i64)
    &&& u.month_id is None
}

/// The validation messages of an income draft, in their fixed order.
pub open spec fn income_validation_msgs(f: IncomeFormState) -> Seq<Seq<char>> {
    (if f.income_type_id is None {
        seq!["Income type is required"@]
    } else {
        seq![]
    }) + (if is_blank(f.period@) {
        seq!["Period is required"@]
    } else {
        seq![]
    }) + (if !is_money_text(f.budget@) {
        seq!["Budget must be a valid number"@]
    } else {
        seq![]
    }) + (if !is_money_text(f.amount@) {
        seq!["Amount must be a valid number"@]
    } else {
        seq![]
    })
}

/// Income form draft.
#[derive(Debug, Clone)]
pub struct IncomeFormState {
    pub editing_id: Option<i32>,
    pub income_type_id: Option<i32>,
    pub period: String,
    pub budget: String,
    pub amount: String,
    pub focused_field: IncomeField,
}

impl Default for IncomeFormState {
    /// An empty draft in create mode with a zero amount, focused on the
    /// income type.
    fn default() -> (r: Self)
        ensures
            r.editing_id is None,
            r.income_type_id is None,
            r.period@.len() == 0,
            r.budget@.len() == 0,
            r.amount@ == "0"@,
            r.focused_field == IncomeField::IncomeType,
    {
        IncomeFormState {
            editing_id: None,
            income_type_id: None,
            period: String::new(),
            budget: String::new(),
            amount: String::from_str("0"),
            focused_field: IncomeField::IncomeType,
        }
    }
}

/// A draft pre-filled from an income: update mode with its id and type,
/// its period, and its amounts rendered as texts.
pub open spec fn is_income_draft_of(r: IncomeFormState, income: Income) -> bool {
    &&& r.editing_id == Some(income.id)
    &&& r.income_type_id == Some(income.income_type_id)
    &&& r.period@ == income.period@
    &&& r.budget@ == format_cents_spec(income.budget as int)
    &&& r.amount@ == format_cents_spec(income.amount as int)
    &&& r.focused_field == IncomeField::IncomeType
}

impl IncomeFormState {
    /// A draft in update mode, pre-filled from an existing income.
    pub fn from_income(income: &Income) -> (r: Self)
        ensures
            is_income_draft_of(r, *income),
            r.editing_id == Some(income.id),
            r.income_type_id == Some(income.income_type_id),
            r.period@ == income.period@,
            r.budget@ == format_cents_spec(income.budget as int),
            r.amount@ == format_cents_spec(income.amount as int),
            r.focused_field == IncomeField::IncomeType,
    {
        IncomeFormState {
            editing_id: Some(income.id),
            income_type_id: Some(income.income_type_id),
            period: income.period.clone(),
            budget: format_cents(income.budget),
            amount: format_cents(income.amount),
            focused_field: IncomeField::IncomeType,
        }
    }

    /// The draft as a creation payload, or nothing when no income type is
    /// selected or a numeric text is not a well-formed amount.
    pub fn to_create(&self, month_id: i32) -> (r: Option<IncomeCreate>)
        ensures
            r is Some <==> (self.income_type_id is Some && is_money_text(self.budget@)
                && is_money_text(self.amount@)),
            r matches Some(c) ==> is_income_create_payload(c, *self, month_id),
    {
        let income_type_id = match self.income_type_id {
            Some(id) => id,
            None => {
                return None;
            },
        };
        let budget = match parse_amount(self.budget.as_str()) {
            Some(v) => v,
            None => {
                return None;
            },
        };
        let amount = match parse_amount(self.amount.as_str()) {
            Some(v) => v,
            None => {
                return None;
            },
        };
        Some(IncomeCreate {
            income_type_id,
            period: self.period.clone(),
            budget,
            amount,
            month_id,
        })
    }

    /// The draft as a partial-update payload: exactly the fields the form
    /// captures are present, and the month is left unset. Nothing when a
    /// numeric text is not a well-formed amount.
    pub fn to_update(&self) -> (r: Option<IncomeUpdate>)
        ensures
            r is Some <==> (is_money_text(self.budget@) && is_money_text(self.amount@)),
            r matches Some(u) ==> is_income_update_payload(u, *self),
    {
        let budget = match parse_amount(self.budget.as_str()) {
            Some(v) => v,
            None => {
                return None;
            },
        };
        let amount = match parse_amount(self.amount.as_str()) {
            Some(v) => v,
            None => {
                return None;
            },
        };
        Some(IncomeUpdate {
            income_type_id: self.income_type_id,
            period: Some(self.period.clone()),
            budget: Some(budget),
            amount: Some(amount),
            month_id: None,
        })
    }

    /// Check the draft against every submission rule, returning one message
    /// per broken rule and none for a valid draft.
    pub fn validate(&self) -> (r: Vec<String>)
        ensures
            r@.map_values(|s: String| s@) == income_validation_msgs(*self),
    {
        let mut errors: Vec<String> = Vec::new();
        if self.income_type_id.is_none() {
            errors.push(String::from_str("Income type is required"));
        }
        if text_is_blank(self.period.as_str()) {
            errors.push(String::from_str("Period is required"));
        }
        if parse_amount(self.budget.as_str()).is_none() {
            errors.push(String::from_str("Budget must be a valid number"));
        }
        if parse_amount(self.amount.as_str()).is_none() {
            errors.push(String::from_str("Amount must be a valid number"));
        }
        proof {
            assert(errors@.map_values(|s: String| s@) =~~= income_validation_msgs(*self));
        }
        errors
    }
}

/// The single validation message of a named entity, for a blank name.
pub open spec fn name_validation_msgs(name: Seq<char>) -> Seq<Seq<char>> {
    if is_blank(name) {
        seq!["Name is required"@]
    } else {
        seq![]
    }
}

/// Category form draft.
#[derive(Debug, Clone)]
pub struct CategoryFormState {
    pub editing_id: Option<i32>,
    pub name: String,
    pub color: String,
}

impl Default for CategoryFormState {
    /// An empty draft in create mode.
    fn default() -> (r: Self)
        ensures
            r.editing_id is None,
            r.name@.len() == 0,
            r.color@.len() == 0,
    {
        CategoryFormState { editing_id: None, name: String::new(), color: String::new() }
    }
}

impl CategoryFormState {
    /// A draft in update mode, pre-filled from an existing category.
    pub fn from_category(category: &Category) -> (r: Self)
        ensures
            r.editing_id == Some(category.id),
            r.name@ == category.name@,
            r.color@ == category.color@,
    {
        CategoryFormState {
            editing_id: Some(category.id),
            name: category.name.clone(),
            color: category.color.clone(),
        }
    }

    /// The draft as a creation payload; a blank color is left unset for the
    /// server to default.
    pub fn to_create(&self) -> (r: CategoryCreate)
        ensures
            r.name@ == self.name@,
            opt_text_view(r.color) == (if self.color@.len() == 0 {
                Option::<Seq<char>>::None
            } else {
                Option::<Seq<char>>::Some(self.color@)
            }),
    {
        CategoryCreate {
            name: self.name.clone(),
            color: if self.color.as_str().is_empty() {
                None
            } else {
                Some(self.color.clone())
            },
        }
    }

    /// The draft as an update payload; a blank color is left unset.
    pub fn to_update(&self) -> (r: CategoryUpdate)
        ensures
            r.name@ == self.name@,
            opt_text_view(r.color) == (if self.color@.len() == 0 {
                Option::<Seq<char>>::None
            } else {
                Option::<Seq<char>>::Some(self.color@)
            }),
    {
        CategoryUpdate {
            name: self.name.clone(),
            color: if self.color.as_str().is_empty() {
                None
            } else {
                Some(self.color.clone())
            },
        }
    }

    /// Check the draft: the name must not be blank.
    pub fn validate(&self) -> (r: Vec<String>)
        ensures
            r@.map_values(|s: String| s@) == name_validation_msgs(self.name@),
    {
        let mut errors: Vec<String> = Vec::new();
        if text_is_blank(self.name.as_str()) {
            errors.push(String::from_str("Name is required"));
        }
        proof {
            assert(errors@.map_values(|s: String| s@) =~~= name_validation_msgs(self.name@));
        }
        errors
    }
}

/// Period form draft.
#[derive(Debug, Clone)]
pub struct PeriodFormState {
    pub editing_id: Option<i32>,
    pub name: String,
    pub color: String,
}

impl Default for PeriodFormState {
    /// An empty draft in create mode.
    fn default() -> (r: Self)
        ensures
            r.editing_id is None,
            r.name@.len() == 0,
            r.color@.len() == 0,
    {
        PeriodFormState { editing_id: None, name: String::new(), color: String::new() }
    }
}

impl PeriodFormState {
    /// A draft in update mode, pre-filled from an existing period.
    pub fn from_period(period: &Period) -> (r: Self)
        ensures
            r.editing_id == Some(period.id),
            r.name@ == period.name@,
            r.color@ == period.color@,
    {
        PeriodFormState {
            editing_id: Some(period.id),
            name: period.name.clone(),
            color: period.color.clone(),
        }
    }

    /// The draft as a creation payload; a blank color is left unset.
    pub fn to_create(&self) -> (r: PeriodCreate)
        ensures
            r.name@ == self.name@,
            opt_text_view(r.color) == (if self.color@.len() == 0 {
                Option::<Seq<char>>::None
            } else {
                Option::<Seq<char>>::Some(self.color@)
            }),
    {
        PeriodCreate {
            name: self.name.clone(),
            color: if self.color.as_str().is_empty() {
                None
            } else {
                Some(self.color.clone())
            },
        }
    }

    /// The draft as an update payload; a blank color is left unset.
    pub fn to_update(&self) -> (r: PeriodUpdate)
        ensures
            r.name@ == self.name@,
            opt_text_view(r.color) == (if self.color@.len() == 0 {
                Option::<Seq<char>>::None
            } else {
                Option::<Seq<char>>::Some(self.color@)
            }),
    {
        PeriodUpdate {
            name: self.name.clone(),
            color: if self.color.as_str().is_empty() {
                None
            } else {
                Some(self.color.clone())
            },
        }
    }

    /// Check the draft: the name must not be blank.
    pub fn validate(&self) -> (r: Vec<String>)
        ensures
            r@.map_values(|s: String| s@) == name_validation_msgs(self.name@),
    {
        let mut errors: Vec<String> = Vec::new();
        if text_is_blank(self.name.as_str()) {
            errors.push(String::from_str("Name is required"));
        }
        proof {
            assert(errors@.map_values(|s: String| s@) =~~= name_validation_msgs(self.name@));
        }
        errors
    }
}

/// Income-type form draft.
#[derive(Debug, Clone)]
pub struct IncomeTypeFormState {
    pub editing_id: Option<i32>,
    pub name: String,
    pub color: String,
}

impl Default for IncomeTypeFormState {
    /// An empty draft in create mode.
    fn default() -> (r: Self)
        ensures
            r.editing_id is None,
            r.name@.len() == 0,
            r.color@.len() == 0,
    {
        IncomeTypeFormState { editing_id: None, name: String::new(), color: String::new() }
    }
}

impl IncomeTypeFormState {
    /// A draft in update mode, pre-filled from an existing income type.
    pub fn from_income_type(income_type: &IncomeType) -> (r: Self)
        ensures
            r.editing_id == Some(income_type.id),
            r.name@ == income_type.name@,
            r.color@ == income_type.color@,
    {
        IncomeTypeFormState {
            editing_id: Some(income_type.id),
            name: income_type.name.clone(),
            color: income_type.color.clone(),
        }
    }

    /// The draft as a creation payload; a blank color is left unset.
    pub fn to_create(&self) -> (r: IncomeTypeCreate)
        ensures
            r.name@ == self.name@,
            opt_text_view(r.color) == (if self.color@.len() == 0 {
                Option::<Seq<char>>::None
            } else {
                Option::<Seq<char>>::Some(self.color@)
            }),
    {
        IncomeTypeCreate {
            name: self.name.clone(),
            color: if self.color.as_str().is_empty() {
                None
            } else {
                Some(self.color.clone())
            },
        }
    }

    /// The draft as an update payload; a blank color is left unset.
    pub fn to_update(&self) -> (r: IncomeTypeUpdate)
        ensures
            r.name@ == self.name@,
            opt_text_view(r.color) == (if self.color@.len() == 0 {
                Option::<Seq<char>>::None
            } else {
                Option::<Seq<char>>::Some(self.color@)
            }),
    {
        IncomeTypeUpdate {
            name: self.name.clone(),
            color: if self.color.as_str().is_empty() {
                None
            } else {
                Some(self.color.clone())
            },
        }
    }

    /// Check the draft: the name must not be blank.
    pub fn validate(&self) -> (r: Vec<String>)
        ensures
            r@.map_values(|s: String| s@) == name_validation_msgs(self.name@),
    {
        let mut errors: Vec<String> = Vec::new();
        if text_is_blank(self.name.as_str()) {
            errors.push(String::from_str("Name is required"));
        }
        proof {
            assert(errors@.map_values(|s: String| s@) =~~= name_validation_msgs(self.name@));
        }
        errors
    }
}

/// The validation messages of a password-change draft, in their fixed
/// order.
pub open spec fn password_validation_msgs(f: PasswordFormState) -> Seq<Seq<char>> {
    (if f.current_password@.len() == 0 {
        seq!["Current password is required"@]
    } else {
        seq![]
    }) + (if f.new_password@.len() == 0 {
        seq!["New password is required"@]
    } else {
        seq![]
    }) + (if f.new_password@.len() < 8 {
        seq!["New password must be at least 8 characters"@]
    } else {
        seq![]
    }) + (if f.new_password@ != f.confirm_password@ {
        seq!["Passwords do not match"@]
    } else {
        seq![]
    })
}

/// Password change form draft.
#[derive(Debug, Clone)]
pub struct PasswordFormState {
    pub current_password: String,
    pub new_password: String,
    pub confirm_password: String,
    pub focused_field: usize,
}

impl Default for PasswordFormState {
    /// An empty draft focused on the current password.
    fn default() -> (r: Self)
        ensures
            r.current_password@.len() == 0,
            r.new_password@.len() == 0,
            r.confirm_password@.len() == 0,
            r.focused_field == 0,
    {
        PasswordFormState {
            current_password: String::new(),
            new_password: String::new(),
            confirm_password: String::new(),
            focused_field: 0,
        }
    }
}

impl PasswordFormState {
    /// Check the draft: both passwords present, the new one at least eight
    /// characters and equal to its confirmation.
    pub fn validate(&self) -> (r: Vec<String>)
        ensures
            r@.map_values(|s: String| s@) == password_validation_msgs(*self),
    {
        let mut errors: Vec<String> = Vec::new();
        if self.current_password.as_str().is_empty() {
            errors.push(String::from_str("Current password is required"));
        }
        if self.new_password.as_str().is_empty() {
            errors.push(String::from_str("New password is required"));
        }
        if self.new_password.as_str().unicode_len() < 8 {
            errors.push(String::from_str("New password must be at least 8 characters"));
        }
        if !self.new_password.eq(&self.confirm_password) {
            errors.push(String::from_str("Passwords do not match"));
        }
        proof {
            assert(errors@.map_values(|s: String| s@) =~~= password_validation_msgs(*self));
        }
        errors
    }
}

/// The validation messages of the login form, in their fixed order.
pub open spec fn login_validation_msgs(f: LoginFormState) -> Seq<Seq<char>> {
    (if is_blank(f.email@) {
        seq!["Email is required"@]
    } else {
        seq![]
    }) + (if f.password@.len() == 0 {
        seq!["Password is required"@]
    } else {
        seq![]
    })
}

/// Login form draft.
#[derive(Debug, Clone)]
pub struct LoginFormState {
    pub email: String,
    pub password: String,
    /// 0 is the email field, 1 the password field.
    pub focused_field: usize,
    pub error: Option<String>,
}

impl Default for LoginFormState {
    /// An empty form focused on the email field.
    fn default() -> (r: Self)
        ensures
            r.email@.len() == 0,
            r.password@.len() == 0,
            r.focused_field == 0,
            r.error is None,
    {
        LoginFormState {
            email: String::new(),
            password: String::new(),
            focused_field: 0,
            error: None,
        }
    }
}

impl LoginFormState {
    /// Check the form: an email and a password must be present.
    pub fn validate(&self) -> (r: Vec<String>)
        ensures
            r@.map_values(|s: String| s@) == login_validation_msgs(*self),
    {
        let mut errors: Vec<String> = Vec::new();
        if text_is_blank(self.email.as_str()) {
            errors.push(String::from_str("Email is required"));
        }
        if self.password.as_str().is_empty() {
            errors.push(String::from_str("Password is required"));
        }
        proof {
            assert(errors@.map_values(|s: String| s@) =~~= login_validation_msgs(*self));
        }
        errors
    }

    /// Move the focus to the other field.
    pub fn next_field(&mut self)
        ensures
            *final(self) == (LoginFormState {
                focused_field: ((old(self).focused_field as int + 1) % 2) as usize,
                ..*old(self)
            }),
    {
        self.focused_field = (self.focused_field % 2 + 1) % 2;
    }

    /// Move the focus to the other field.
    pub fn previous_field(&mut self)
        ensures
            *final(self) == (LoginFormState {
                focused_field: (if old(self).focused_field == 0 {
                    1usize
                } else {
                    0usize
                }),
                ..*old(self)
            }),
    {
        self.focused_field = if self.focused_field == 0 {
            1
        } else {
            0
        };
    }
}

} // verus!
