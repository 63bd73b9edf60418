//! Invoices: a frozen copy of the sessions that are billed.

use vstd::prelude::*;
use vstd::string::*;
use crate::models::WorkSession;
use crate::text::{same_text, four_digits, four_digit_text};

verus! {

/// Where an invoice stands.
#[derive(Debug, Clone, Copy, PartialEq, Eq, Structural)]
pub enum InvoiceStatus {
    Draft,
    Sent,
    Paid,
    Overdue,
}

impl InvoiceStatus {
    /// The label under which a status is stored.
    pub open spec fn label(self) -> Seq<char> {
        match self {
            InvoiceStatus::Draft => "Draft"@,
            InvoiceStatus::Sent => "Sent"@,
            InvoiceStatus::Paid => "Paid"@,
            InvoiceStatus::Overdue => "Overdue"@,
        }
    }

    /// The status that a stored label names, if any.
    pub open spec fn parse(text: Seq<char>) -> Option<InvoiceStatus> {
        if text == "Draft"@ {
            Some(InvoiceStatus::Draft)
        } else if text == "Sent"@ {
            Some(InvoiceStatus::Sent)
        } else if text == "Paid"@ {
            Some(InvoiceStatus::Paid)
        } else if text == "Overdue"@ {
            Some(InvoiceStatus::Overdue)
        } else {
            None
        }
    }

    pub fn to_string(&self) -> (r: String)
        ensures
            r@ == self.label(),
    {
        match self {
            InvoiceStatus::Draft => "Draft".to_string(),
            InvoiceStatus::Sent => "Sent".to_string(),
            InvoiceStatus::Paid => "Paid".to_string(),
            InvoiceStatus::Overdue => "Overdue".to_string(),
        }
    }

    /// Reads a label; an unknown label is an error that quotes it.
    pub fn from_string(s: &str) -> (r: Result<InvoiceStatus, String>)
        ensures
            match r {
                Ok(status) => InvoiceStatus::parse(s@) == Some(status),
                Err(e) => InvoiceStatus::parse(s@).is_none() && e@ == "Invalid invoice status: "@
                    + s@,
            },
    {
        if same_text(s, "Draft") {
            Ok(InvoiceStatus::Draft)
        } else if same_text(s, "Sent") {
            Ok(InvoiceStatus::Sent)
        } else if same_text(s, "Paid") {
            Ok(InvoiceStatus::Paid)
        } else if same_text(s, "Overdue") {
            Ok(InvoiceStatus::Overdue)
        } else {
            Err("Invalid invoice status: ".to_string().concat(s))
        }
    }

    /// Reads the label of a stored invoice. This reading is lenient on
    /// purpose: an unknown label reads as `Draft`, so that one odd row does
    /// not keep the invoices from loading.
    pub fn from_stored(s: &str) -> (r: InvoiceStatus)
        ensures
            r == match InvoiceStatus::parse(s@) {
                Some(status) => status,
                None => InvoiceStatus::Draft,
            },
    {
        match InvoiceStatus::from_string(s) {
            Ok(status) => status,
            Err(_) => InvoiceStatus::Draft,
        }
    }
}

/// One line of an invoice: a session as it was when the invoice was made.
#[derive(Debug, Clone)]
pub struct InvoiceItem {
    pub id: i64,
    pub invoice_id: i64,
    /// The session that the line was copied from.
    pub session_id: Option<i64>,
    pub description: String,
    pub minutes: u16,
    /// Cents per hour.
    pub rate: u32,
    /// Cents.
    pub amount: u64,
}

/// An invoice. Money is in cents.
#[derive(Debug, Clone)]
pub struct Invoice {
    pub id: i64,
    pub invoice_number: String,
    pub client_name: String,
    pub client_email: Option<String>,
    pub created_date: String,
    pub due_date: String,
    pub status: InvoiceStatus,
    pub subtotal: u128,
    /// In hundredths of a percent.
    pub tax_rate: Option<u16>,
    pub tax_amount: u128,
    pub total: u128,
    pub notes: Option<String>,
    pub items: Vec<InvoiceItem>,
}

/// What is needed to make an invoice.
#[derive(Debug, Clone)]
pub struct NewInvoice {
    pub client_name: String,
    pub client_email: Option<String>,
    pub due_date: String,
    /// In hundredths of a percent.
    pub tax_rate: Option<u16>,
    pub notes: Option<String>,
    pub session_ids: Vec<i64>,
}

/// What the sessions earn together, in cents.
pub open spec fn sessions_pay(s: Seq<WorkSession>) -> int
    decreases s.len(),
{
    if s.len() == 0 {
        0
    } else {
        sessions_pay(s.drop_last()) + s.last().pay()
    }
}

/// The tax on an amount at a rate in hundredths of a percent, rounded
/// down; nothing without a rate.
pub open spec fn tax_of(subtotal: int, tax_rate: Option<u16>) -> int {
    match tax_rate {
        Some(rate) => (subtotal * rate) / 10000,
        None => 0,
    }
}

/// The number of the invoice after `count` others: `INV-` and the next
/// number in at least four digits.
pub open spec fn invoice_number_of(count: u64) -> Seq<char> {
    "INV-"@ + four_digits((count + 1) as nat)
}

/// The category of a line: that of the session, `Work` where it has none.
pub open spec fn line_category(s: WorkSession) -> Seq<char> {
    match s.session_type_name {
        Some(name) => name@,
        None => "Work"@,
    }
}

/// Whether a line is the copy of a session.
pub open spec fn bills(item: InvoiceItem, s: WorkSession) -> bool {
    &&& item.id == 0
    &&& item.invoice_id == 0
    &&& item.session_id == Some(s.id)
    &&& item.description@ == line_category(s) + " - "@ + s.project_name@
    &&& item.minutes == s.minutes
    &&& item.rate == match s.hourly_rate {
        Some(r) => r,
        None => 0,
    }
    &&& item.amount == s.pay()
}

/// Copies a session into a line.
pub fn bill_session(s: &WorkSession) -> (item: InvoiceItem)
    ensures
        bills(item, *s),
{
    let category = match &s.session_type_name {
        Some(name) => name.clone(),
        None => "Work".to_string(),
    };
    let rate = match s.hourly_rate {
        Some(r) => r,
        None => 0,
    };
    InvoiceItem {
        id: 0,
        invoice_id: 0,
        session_id: Some(s.id),
        description: category.concat(" - ").concat(s.project_name.as_str()),
        minutes: s.minutes,
        rate,
        amount: s.calculate_pay(),
    }
}

fn copy_text(o: &Option<String>) -> (r: Option<String>)
    ensures
        r == *o,
{
    match o {
        Some(t) => Some(t.clone()),
        None => None,
    }
}

/// Makes the draft of an invoice over the sessions selected for it, as the
/// invoice after `invoice_count` others, created on the date given. The
/// ids of the invoice and of its lines are 0 until the store gives them.
pub fn create_invoice(
    invoice: &NewInvoice,
    sessions: &Vec<WorkSession>,
    invoice_count: u64,
    created_date: String,
) -> (r: Invoice)
    ensures
        r.id == 0,
        r.invoice_number@ == invoice_number_of(invoice_count),
        r.client_name == invoice.client_name,
        r.client_email == invoice.client_email,
        r.created_date == created_date,
        r.due_date == invoice.due_date,
        r.status == InvoiceStatus::Draft,
        r.subtotal == sessions_pay(sessions@),
        r.tax_rate == invoice.tax_rate,
        r.tax_amount == tax_of(r.subtotal as int, invoice.tax_rate),
        r.total == r.subtotal + r.tax_amount,
        r.notes == invoice.notes,
        r.items@.len() == sessions@.len(),
        forall|k: int| 0 <= k < sessions@.len() ==> bills(#[trigger] r.items@[k], sessions@[k]),
{
    let mut items: Vec<InvoiceItem> = Vec::new();
    let mut subtotal: u128 = 0;
    let mut k: usize = 0;
    while k < sessions.len()
        invariant
            k <= sessions@.len(),
            items@.len() == k,
            subtotal == sessions_pay(sessions@.take(k as int)),
            subtotal <= k * crate::models::MAX_SESSION_PAY,
            forall|j: int| 0 <= j < k ==> bills(#[trigger] items@[j], sessions@[j]),
        decreases sessions@.len() - k,
    {
        proof {
            let next = sessions@.take(k as int + 1);
            assert(next.drop_last() =~= sessions@.take(k as int));
            assert(next.last() == sessions@[k as int]);
            let e = sessions@[k as int];
            crate::models::lemma_pay_bounds(e.pay_type, e.hourly_rate, e.fixed_amount, e.minutes);
        }
        let item = bill_session(&sessions[k]);
        subtotal = subtotal + item.amount as u128;
        items.push(item);
        k = k + 1;
    }
    proof {
        assert(sessions@.take(sessions@.len() as int) =~= sessions@);
    }
    let tax_amount: u128 = match invoice.tax_rate {
        Some(rate) => {
            assert(subtotal * rate <= 0x1_0000_0000_0000_0000_0000_0000_0000 * 0xffff)
                by (nonlinear_arith)
                requires
                    0 <= subtotal <= 0x1_0000_0000_0000_0000_0000_0000_0000,
                    0 <= rate <= 0xffff,
            ;
            subtotal * rate as u128 / 10000
        },
        None => 0,
    };
    let number = "INV-".to_string().concat(four_digit_text(invoice_count as u128 + 1).as_str());
    Invoice {
        id: 0,
        invoice_number: number,
        client_name: invoice.client_name.clone(),
        client_email: copy_text(&invoice.client_email),
        created_date,
        due_date: invoice.due_date.clone(),
        status: InvoiceStatus::Draft,
        subtotal,
        tax_rate: invoice.tax_rate,
        tax_amount,
        total: subtotal + tax_amount,
        notes: copy_text(&invoice.notes),
        items,
    }
}

} // verus!
