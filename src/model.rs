use vstd::prelude::*;

use crate::schema::{copy_opt_str, opt_str_view};

verus! {

pub open spec fn or_default(o: Option<String>, d: Seq<char>) -> Seq<char> {
    match o {
        Some(s) => s@,
        None => d,
    }
}

fn string_or(o: Option<String>, d: &str) -> (r: String)
    ensures
        r@ == or_default(o, d@),
{
    match o {
        Some(s) => s,
        None => String::from_str(d),
    }
}

/// A client record as stored.
#[derive(Debug)]
pub struct Client {
    pub id: String,
    pub first_name: String,
    pub last_name: String,
    pub investment_manager: Option<String>,
    pub knowledge_experience: String,
    pub loss_pct: i32,
    pub account_number: String,
    pub type_account: String,
    pub salutation: Option<String>,
    pub objective: String,
    pub risk: String,
    pub email: Option<String>,
    pub phone: Option<String>,
    pub address: Option<String>,
    pub power_of_attorney: Option<String>,
    pub annual_review_date: String,
    pub fees_commission_rate: String,
}

/// Two client records hold the same values.
pub open spec fn same_client(a: Client, b: Client) -> bool {
    &&& a.id@ == b.id@
    &&& a.first_name@ == b.first_name@
    &&& a.last_name@ == b.last_name@
    &&& opt_str_view(a.investment_manager) == opt_str_view(b.investment_manager)
    &&& a.knowledge_experience@ == b.knowledge_experience@
    &&& a.loss_pct == b.loss_pct
    &&& a.account_number@ == b.account_number@
    &&& a.type_account@ == b.type_account@
    &&& opt_str_view(a.salutation) == opt_str_view(b.salutation)
    &&& a.objective@ == b.objective@
    &&& a.risk@ == b.risk@
    &&& opt_str_view(a.email) == opt_str_view(b.email)
    &&& opt_str_view(a.phone) == opt_str_view(b.phone)
    &&& opt_str_view(a.address) == opt_str_view(b.address)
    &&& opt_str_view(a.power_of_attorney) == opt_str_view(b.power_of_attorney)
    &&& a.annual_review_date@ == b.annual_review_date@
    &&& a.fees_commission_rate@ == b.fees_commission_rate@
}

impl Client {
    pub fn copy(&self) -> (r: Client)
        ensures
            same_client(r, *self),
    {
        Client {
            id: self.id.clone(),
            first_name: self.first_name.clone(),
            last_name: self.last_name.clone(),
            investment_manager: copy_opt_str(&self.investment_manager),
            knowledge_experience: self.knowledge_experience.clone(),
            loss_pct: self.loss_pct,
            account_number: self.account_number.clone(),
            type_account: self.type_account.clone(),
            salutation: copy_opt_str(&self.salutation),
            objective: self.objective.clone(),
            risk: self.risk.clone(),
            email: copy_opt_str(&self.email),
            phone: copy_opt_str(&self.phone),
            address: copy_opt_str(&self.address),
            power_of_attorney: copy_opt_str(&self.power_of_attorney),
            annual_review_date: self.annual_review_date.clone(),
            fees_commission_rate: self.fees_commission_rate.clone(),
        }
    }

    /// The record a creation request describes, each omitted defaulted field
    /// taking its documented default.
    pub fn from_new(n: NewClient) -> (r: Client)
        ensures
            client_from_new(r, n),
    {
        Client {
            id: n.id,
            first_name: n.first_name,
            last_name: n.last_name,
            investment_manager: n.investment_manager,
            knowledge_experience: string_or(n.knowledge_experience, "Medium"),
            loss_pct: match n.loss_pct {
                Some(p) => p,
                None => 0,
            },
            account_number: n.account_number,
            type_account: n.type_account,
            salutation: n.salutation,
            objective: string_or(n.objective, "Balance"),
            risk: string_or(n.risk, "Medium"),
            email: n.email,
            phone: n.phone,
            address: n.address,
            power_of_attorney: n.power_of_attorney,
            annual_review_date: string_or(n.annual_review_date, "N/A"),
            fees_commission_rate: string_or(n.fees_commission_rate, "N/A"),
        }
    }
}

/// A request to create a client. `None` in a defaulted field asks for its
/// default.
#[derive(Debug)]
pub struct NewClient {
    pub id: String,
    pub first_name: String,
    pub last_name: String,
    pub investment_manager: Option<String>,
    pub knowledge_experience: Option<String>,
    pub loss_pct: Option<i32>,
    pub account_number: String,
    pub type_account: String,
    pub salutation: Option<String>,
    pub objective: Option<String>,
    pub risk: Option<String>,
    pub email: Option<String>,
    pub phone: Option<String>,
    pub address: Option<String>,
    pub power_of_attorney: Option<String>,
    pub annual_review_date: Option<String>,
    pub fees_commission_rate: Option<String>,
}

impl NewClient {
    /// A request with the required fields given and every other field left out.
    pub fn required(
        id: String,
        first_name: String,
        last_name: String,
        account_number: String,
        type_account: String,
    ) -> (r: NewClient)
        ensures
            r.id == id,
            r.first_name == first_name,
            r.last_name == last_name,
            r.account_number == account_number,
            r.type_account == type_account,
            r.investment_manager is None,
            r.knowledge_experience is None,
            r.loss_pct is None,
            r.salutation is None,
            r.objective is None,
            r.risk is None,
            r.email is None,
            r.phone is None,
            r.address is None,
            r.power_of_attorney is None,
            r.annual_review_date is None,
            r.fees_commission_rate is None,
    {
        NewClient {
            id,
            first_name,
            last_name,
            investment_manager: None,
            knowledge_experience: None,
            loss_pct: None,
            account_number,
            type_account,
            salutation: None,
            objective: None,
            risk: None,
            email: None,
            phone: None,
            address: None,
            power_of_attorney: None,
            annual_review_date: None,
            fees_commission_rate: None,
        }
    }
}

/// `c` is what `n` asks for, with documented defaults in the fields `n` leaves out.
pub open spec fn client_from_new(c: Client, n: NewClient) -> bool {
    &&& c.id@ == n.id@
    &&& c.first_name@ == n.first_name@
    &&& c.last_name@ == n.last_name@
    &&& opt_str_view(c.investment_manager) == opt_str_view(n.investment_manager)
    &&& c.knowledge_experience@ == or_default(n.knowledge_experience, "Medium"@)
    &&& c.loss_pct == match n.loss_pct {
        Some(p) => p,
        None => 0i32,
    }
    &&& c.account_number@ == n.account_number@
    &&& c.type_account@ == n.type_account@
    &&& opt_str_view(c.salutation) == opt_str_view(n.salutation)
    &&& c.objective@ == or_default(n.objective, "Balance"@)
    &&& c.risk@ == or_default(n.risk, "Medium"@)
    &&& opt_str_view(c.email) == opt_str_view(n.email)
    &&& opt_str_view(c.phone) == opt_str_view(n.phone)
    &&& opt_str_view(c.address) == opt_str_view(n.address)
    &&& opt_str_view(c.power_of_attorney) == opt_str_view(n.power_of_attorney)
    &&& c.annual_review_date@ == or_default(n.annual_review_date, "N/A"@)
    &&& c.fees_commission_rate@ == or_default(n.fees_commission_rate, "N/A"@)
}

/// One page of clients and the number of clients in the store.
#[derive(Debug)]
pub struct ClientList {
    pub items: Vec<Client>,
    pub total: usize,
}

/// A transaction record.
#[derive(Debug)]
pub struct Trade {
    pub id: u64,
    pub client_id: String,
    pub asset_name: String,
    pub account_type: String,
    pub asset_type: String,
    pub asset_risk: String,
    pub side: String,
    pub quantity: Option<String>,
    pub time_of_trade: Option<String>,
    pub date_of_trade: Option<String>,
    pub reason_1: Option<String>,
    pub reason_2: Option<String>,
    pub reason_3: Option<String>,
    pub created_at: String,
}

/// A request to record a trade. `None` in a defaulted field asks for its default.
#[derive(Debug)]
pub struct NewTrade {
    pub client_id: String,
    pub asset_name: String,
    pub account_type: Option<String>,
    pub asset_type: Option<String>,
    pub asset_risk: Option<String>,
    pub side: Option<String>,
    pub quantity: Option<String>,
    pub time_of_trade: Option<String>,
    pub date_of_trade: Option<String>,
    pub reason_1: Option<String>,
    pub reason_2: Option<String>,
    pub reason_3: Option<String>,
}

/// `t` is the trade `n` asks for, under identifier `id`, created at `now`.
pub open spec fn trade_from_new(t: Trade, n: NewTrade, id: u64, now: Seq<char>) -> bool {
    &&& t.id == id
    &&& t.client_id@ == n.client_id@
    &&& t.asset_name@ == n.asset_name@
    &&& t.account_type@ == or_default(n.account_type, "ISA"@)
    &&& t.asset_type@ == or_default(n.asset_type, "Equity"@)
    &&& t.asset_risk@ == or_default(n.asset_risk, "Medium"@)
    &&& t.side@ == or_default(n.side, "Buy"@)
    &&& opt_str_view(t.quantity) == opt_str_view(n.quantity)
    &&& opt_str_view(t.time_of_trade) == opt_str_view(n.time_of_trade)
    &&& opt_str_view(t.date_of_trade) == opt_str_view(n.date_of_trade)
    &&& opt_str_view(t.reason_1) == opt_str_view(n.reason_1)
    &&& opt_str_view(t.reason_2) == opt_str_view(n.reason_2)
    &&& opt_str_view(t.reason_3) == opt_str_view(n.reason_3)
    &&& t.created_at@ == now
}

impl Trade {
    pub fn from_new(n: NewTrade, id: u64, now: String) -> (r: Trade)
        ensures
            trade_from_new(r, n, id, now@),
    {
        Trade {
            id,
            client_id: n.client_id,
            asset_name: n.asset_name,
            account_type: string_or(n.account_type, "ISA"),
            asset_type: string_or(n.asset_type, "Equity"),
            asset_risk: string_or(n.asset_risk, "Medium"),
            side: string_or(n.side, "Buy"),
            quantity: n.quantity,
            time_of_trade: n.time_of_trade,
            date_of_trade: n.date_of_trade,
            reason_1: n.reason_1,
            reason_2: n.reason_2,
            reason_3: n.reason_3,
            created_at: now,
        }
    }
}

/// A generated suitability document.
#[derive(Debug)]
pub struct SuitabilityLetter {
    pub id: u64,
    pub client_id: String,
    pub content: Option<String>,
    pub pdf_path: Option<String>,
    pub status: String,
    pub created_at: String,
    pub updated_at: String,
}

/// A request to record a suitability letter; `status` defaults to "draft".
#[derive(Debug)]
pub struct NewLetter {
    pub client_id: String,
    pub content: Option<String>,
    pub pdf_path: Option<String>,
    pub status: Option<String>,
}

/// `l` is the letter `n` asks for, under identifier `id`, created at `now`.
pub open spec fn letter_from_new(l: SuitabilityLetter, n: NewLetter, id: u64, now: Seq<char>) -> bool {
    &&& l.id == id
    &&& l.client_id@ == n.client_id@
    &&& opt_str_view(l.content) == opt_str_view(n.content)
    &&& opt_str_view(l.pdf_path) == opt_str_view(n.pdf_path)
    &&& l.status@ == or_default(n.status, "draft"@)
    &&& l.created_at@ == now
    &&& l.updated_at@ == now
}

impl SuitabilityLetter {
    pub fn from_new(n: NewLetter, id: u64, now: String) -> (r: SuitabilityLetter)
        ensures
            letter_from_new(r, n, id, now@),
    {
        SuitabilityLetter {
            id,
            client_id: n.client_id,
            content: n.content,
            pdf_path: n.pdf_path,
            status: string_or(n.status, "draft"),
            created_at: now.clone(),
            updated_at: now,
        }
    }
}

} // verus!
