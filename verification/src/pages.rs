//! The HTML pages of the application, each stated as its template with the
//! values put in.
use vstd::prelude::*;

use crate::display::{format_date, format_date_time, utc_date_text, utc_date_time_text, uuid_hyphenated, uuid_text};
use crate::models::{Customer, CustomerNote};
use crate::search::{concat_map, lemma_concat_map_step};
use crate::status::{badge_html, status_badge, StatusTally};
use crate::templates as tpl;
use crate::text::{
    decimal, has_sub, i64_text, lemma_has_sub_concat, lemma_has_sub_self, occurs_at, signed_decimal, text_eq,
    text_starts_with, usize_text,
};

verus! {

// ---------------------------------------------------------------------------
// Frame and navigation
// ---------------------------------------------------------------------------

/// A full HTML document titled `title` around `content`.
pub open spec fn base_html_text(title: Seq<char>, content: Seq<char>) -> Seq<char> {
    tpl::BASE_0@ + title + tpl::BASE_1@ + content + tpl::BASE_2@
}

/// A full HTML document titled `title` around `content`.
pub fn base_html(title: &str, content: &str) -> (r: String)
    ensures
        r@ == base_html_text(title@, content@),
{
    let mut r = tpl::BASE_0.to_owned();
    r.append(title);
    r.append(tpl::BASE_1);
    r.append(content);
    r.append(tpl::BASE_2);
    r
}

/// The classes of the sidebar link of the current section.
pub const ACTIVE_LINK: &'static str = "sidebar-link sidebar-link-active";

/// The classes of the other sidebar links.
pub const LINK: &'static str = "sidebar-link";

/// The dashboard link is highlighted on `/` and `/dashboard`.
pub open spec fn dashboard_link_class(path: Seq<char>) -> Seq<char> {
    if path == "/"@ || path == "/dashboard"@ {
        ACTIVE_LINK@
    } else {
        LINK@
    }
}

/// The customers link is highlighted on every path under `/customers`.
pub open spec fn customers_link_class(path: Seq<char>) -> Seq<char> {
    if occurs_at(path, "/customers"@, 0) {
        ACTIVE_LINK@
    } else {
        LINK@
    }
}

/// The page layout with the sidebar, for the page at `path`, around `content`.
pub open spec fn sidebar_text(path: Seq<char>, content: Seq<char>) -> Seq<char> {
    tpl::SIDEBAR_0@ + dashboard_link_class(path) + tpl::SIDEBAR_1@ + customers_link_class(path)
        + tpl::SIDEBAR_2@ + content + tpl::SIDEBAR_3@
}

/// The page layout with the sidebar, for the page at `current_path`, around `content`.
pub fn sidebar_layout(current_path: &str, content: &str) -> (r: String)
    ensures
        r@ == sidebar_text(current_path@, content@),
{
    let dashboard_class = if text_eq(current_path, "/") || text_eq(current_path, "/dashboard") {
        ACTIVE_LINK
    } else {
        LINK
    };
    let customers_class = if text_starts_with(current_path, "/customers") {
        ACTIVE_LINK
    } else {
        LINK
    };
    let mut r = tpl::SIDEBAR_0.to_owned();
    r.append(dashboard_class);
    r.append(tpl::SIDEBAR_1);
    r.append(customers_class);
    r.append(tpl::SIDEBAR_2);
    r.append(content);
    r.append(tpl::SIDEBAR_3);
    r
}

/// A page of the customers section titled `title` around `content`.
pub open spec fn customers_page_text(title: Seq<char>, content: Seq<char>) -> Seq<char> {
    base_html_text(title, sidebar_text("/customers"@, content))
}

fn customers_page(title: &str, content: &str) -> (r: String)
    ensures
        r@ == customers_page_text(title@, content@),
{
    let inner = sidebar_layout("/customers", content);
    base_html(title, inner.as_str())
}

// ---------------------------------------------------------------------------
// Small pieces
// ---------------------------------------------------------------------------

/// An optional text, or `default` when missing.
pub open spec fn text_or(s: Option<String>, default: Seq<char>) -> Seq<char> {
    match s {
        Some(t) => t@,
        None => default,
    }
}

fn text_or_default<'a>(s: &'a Option<String>, default: &'a str) -> (r: &'a str)
    ensures
        r@ == text_or(*s, default@),
{
    match s {
        Some(t) => t.as_str(),
        None => default,
    }
}

/// One `<option>` of a select list, marked selected when its value is `current`.
pub open spec fn option_text(value: Seq<char>, label: Seq<char>, current: Seq<char>) -> Seq<char> {
    tpl::OPTION_0@ + value + tpl::OPTION_1@ + (if value == current {
        " selected"@
    } else {
        ""@
    }) + tpl::OPTION_2@ + label + tpl::OPTION_3@
}

/// The options of a select list with `current` selected.
pub open spec fn options_text(options: Seq<(&'static str, &'static str)>, current: Seq<char>) -> Seq<char> {
    concat_map(options, |o: (&'static str, &'static str)| option_text(o.0@, o.1@, current))
}

/// The choices of the status filter of the customer list.
pub const FILTER_OPTIONS: [(&'static str, &'static str); 5] = [
    ("", "All Statuses"),
    ("new", "New"),
    ("contacted", "Contacted"),
    ("callback", "Callback"),
    ("follow_up", "Follow Up"),
];

/// The choices of the status field of the edit form.
pub const STATUS_OPTIONS: [(&'static str, &'static str); 4] = [
    ("new", "New"),
    ("contacted", "Contacted"),
    ("callback", "Callback"),
    ("follow_up", "Follow Up"),
];

fn options_html(options: &[(&'static str, &'static str)], current: &str) -> (r: String)
    ensures
        r@ == options_text(options@, current@),
{
    let ghost f = |o: (&'static str, &'static str)| option_text(o.0@, o.1@, current@);
    let mut r = String::new();
    let mut i: usize = 0;
    while i < options.len()
        invariant
            i <= options.len(),
            f == (|o: (&'static str, &'static str)| option_text(o.0@, o.1@, current@)),
            r@ == concat_map(options@.take(i as int), f),
        decreases options.len() - i,
    {
        proof {
            lemma_concat_map_step(options@, f, i as int);
        }
        let (value, label) = options[i];
        r.append(tpl::OPTION_0);
        r.append(value);
        r.append(tpl::OPTION_1);
        if text_eq(value, current) {
            r.append(" selected");
        } else {
            r.append("");
        }
        r.append(tpl::OPTION_2);
        r.append(label);
        r.append(tpl::OPTION_3);
        i += 1;
    }
    assert(options@.take(options.len() as int) =~= options@);
    r
}

// ---------------------------------------------------------------------------
// The customer list
// ---------------------------------------------------------------------------

/// The search text of a customer-list request.
pub struct SearchQuery {
    pub q: Option<String>,
}

/// The status filter of a customer-list request.
pub struct FilterQuery {
    pub status: Option<String>,
}

/// A status change of one customer.
pub struct StatusForm {
    pub status: String,
}

/// A note to add to a customer.
pub struct CreateNoteForm {
    pub body: String,
}

/// Which customers the list shows.
pub enum Listing {
    /// Those matching a search.
    Search(String),
    /// Those with a status.
    Filter(String),
    /// All of them.
    All,
}

/// The customers a list request asks for: a non-empty search wins over a
/// status filter, and with neither (an empty status is the "All Statuses"
/// choice) it is all of them.
pub open spec fn listing_for(search: Option<String>, status: Option<String>) -> Listing {
    match search {
        Some(q) if q@.len() > 0 => Listing::Search(q),
        _ => match status {
            Some(s) if s@.len() > 0 => Listing::Filter(s),
            _ => Listing::All,
        },
    }
}

/// The customers a list request asks for.
pub fn choose_listing(search_q: &SearchQuery, filter_q: &FilterQuery) -> (r: Listing)
    ensures
        r == listing_for(search_q.q, filter_q.status),
{
    let search = &search_q.q;
    let status = &filter_q.status;
    match search {
        Some(q) => {
            if !q.as_str().is_empty() {
                return Listing::Search(q.clone());
            }
        },
        None => {},
    }
    match status {
        Some(s) => {
            if s.as_str().is_empty() {
                Listing::All
            } else {
                Listing::Filter(s.clone())
            }
        },
        None => Listing::All,
    }
}

/// One row of the customer list.
pub open spec fn index_row_text(c: Customer) -> Seq<char> {
    tpl::INDEX_ROW_0@ + c.name@ + tpl::INDEX_ROW_1@ + text_or(c.email, "-"@) + tpl::INDEX_ROW_2@ + text_or(
        c.phone,
        "-"@,
    ) + tpl::INDEX_ROW_3@ + badge_html(c.status@) + tpl::INDEX_ROW_4@ + utc_date_text(
        c.created_at as int,
    ) + tpl::INDEX_ROW_5@ + uuid_hyphenated(c.id) + tpl::INDEX_ROW_6@
}

/// The row-text function of the customer list.
pub open spec fn index_row_fn() -> spec_fn(Customer) -> Seq<char> {
    |c: Customer| index_row_text(c)
}

fn index_row(c: &Customer) -> (r: String)
    ensures
        r@ == index_row_text(*c),
{
    let mut r = tpl::INDEX_ROW_0.to_owned();
    r.append(c.name.as_str());
    r.append(tpl::INDEX_ROW_1);
    r.append(text_or_default(&c.email, "-"));
    r.append(tpl::INDEX_ROW_2);
    r.append(text_or_default(&c.phone, "-"));
    r.append(tpl::INDEX_ROW_3);
    r.append(status_badge(c).as_str());
    r.append(tpl::INDEX_ROW_4);
    r.append(format_date(c.created_at).as_str());
    r.append(tpl::INDEX_ROW_5);
    r.append(uuid_text(c.id).as_str());
    r.append(tpl::INDEX_ROW_6);
    r
}

/// The rows of the customer list.
pub fn index_rows(customers: &Vec<Customer>) -> (r: String)
    ensures
        r@ == concat_map(customers@, index_row_fn()),
{
    let mut r = String::new();
    let mut i: usize = 0;
    while i < customers.len()
        invariant
            i <= customers.len(),
            r@ == concat_map(customers@.take(i as int), index_row_fn()),
        decreases customers.len() - i,
    {
        proof {
            lemma_concat_map_step(customers@, index_row_fn(), i as int);
        }
        let row = index_row(&customers[i]);
        r.append(row.as_str());
        i += 1;
    }
    assert(customers@.take(customers.len() as int) =~= customers@);
    r
}

/// The highlight of a stats card: `ring` when `value` is the current filter.
pub open spec fn ring_if(current: Seq<char>, value: Seq<char>, ring: Seq<char>) -> Seq<char> {
    if current == value {
        ring
    } else {
        ""@
    }
}

fn ring_when(current: &str, value: &str, ring: &'static str) -> (r: &'static str)
    ensures
        r@ == ring_if(current@, value@, ring@),
{
    if text_eq(current, value) {
        ring
    } else {
        ""
    }
}

/// A status card's label, what stands between it and its count, the count in
/// decimal, and the end of the count's paragraph.
pub open spec fn card_text(label: Seq<char>, open: Seq<char>, count: int) -> Seq<char> {
    label + open + signed_decimal(count) + "</p>"@
}

/// Appends a status card's label and count.
fn push_card(s: &mut String, label: &str, open: &str, count: i64)
    ensures
        final(s)@ == old(s)@ + card_text(label@, open@, count as int),
{
    s.append(label);
    s.append(open);
    s.append(i64_text(count).as_str());
    s.append("</p>");
}

/// The body of the customer list.
pub open spec fn index_content_text(
    customers: Seq<Customer>,
    tally: StatusTally,
    search: Seq<char>,
    current: Seq<char>,
) -> Seq<char> {
    tpl::INDEX_0@ + decimal(tally.total as nat) + tpl::INDEX_1@ + ring_if(current, ""@, "ring-2 ring-blue-500"@)
        + tpl::INDEX_2@ + decimal(tally.total as nat) + tpl::INDEX_3@ + ring_if(current, "new"@, "ring-2 ring-green-500"@)
        + tpl::INDEX_4@ + card_text("New"@, tpl::CARD_COUNT_OPEN@, tally.new_count as int) + tpl::INDEX_5@ + ring_if(
        current,
        "contacted"@,
        "ring-2 ring-blue-500"@,
    ) + tpl::INDEX_6@ + card_text("Contacted"@, tpl::CARD_COUNT_OPEN@, tally.contacted_count as int) + tpl::INDEX_7@ + ring_if(
        current,
        "callback"@,
        "ring-2 ring-yellow-500"@,
    ) + tpl::INDEX_8@ + card_text("Callback"@, tpl::CARD_COUNT_OPEN@, tally.callback_count as int) + tpl::INDEX_9@ + ring_if(
        current,
        "follow_up"@,
        "ring-2 ring-purple-500"@,
    ) + tpl::INDEX_10@ + card_text("Follow Up"@, tpl::CARD_COUNT_OPEN@, tally.follow_up_count as int) + tpl::INDEX_11@ + search
        + tpl::INDEX_12@ + options_text(FILTER_OPTIONS@, current) + tpl::INDEX_13@ + concat_map(
        customers,
        index_row_fn(),
    ) + tpl::INDEX_14@
}

/// Any text built by concatenation around `needle` contains it.
proof fn lemma_concat_keeps(needle: Seq<char>)
    ensures
        has_sub(needle, needle),
        forall|a: Seq<char>, b: Seq<char>|
            (has_sub(a, needle) || has_sub(b, needle)) ==> #[trigger] has_sub(a + b, needle),
{
    lemma_has_sub_self(needle);
    assert forall|a: Seq<char>, b: Seq<char>|
        (has_sub(a, needle) || has_sub(b, needle)) implies #[trigger] has_sub(a + b, needle) by {
        lemma_has_sub_concat(a, b, needle);
    }
}

/// On the customer list page, each status card shows its own count from the
/// tally right after its label: New the new count, Contacted the contacted
/// count, Callback the callback count and Follow Up the follow-up count.
pub proof fn lemma_index_cards_show_their_counts(
    customers: Seq<Customer>,
    tally: StatusTally,
    search: Seq<char>,
    current: Seq<char>,
)
    ensures
        ({
            let page = customers_page_text("Customers"@, index_content_text(customers, tally, search, current));
            &&& has_sub(page, "New"@ + tpl::CARD_COUNT_OPEN@ + signed_decimal(tally.new_count as int) + "</p>"@)
            &&& has_sub(page, "Contacted"@ + tpl::CARD_COUNT_OPEN@ + signed_decimal(tally.contacted_count as int) + "</p>"@)
            &&& has_sub(page, "Callback"@ + tpl::CARD_COUNT_OPEN@ + signed_decimal(tally.callback_count as int) + "</p>"@)
            &&& has_sub(page, "Follow Up"@ + tpl::CARD_COUNT_OPEN@ + signed_decimal(tally.follow_up_count as int) + "</p>"@)
        }),
{
    lemma_concat_keeps("New"@ + tpl::CARD_COUNT_OPEN@ + signed_decimal(tally.new_count as int) + "</p>"@);
    lemma_concat_keeps("Contacted"@ + tpl::CARD_COUNT_OPEN@ + signed_decimal(tally.contacted_count as int) + "</p>"@);
    lemma_concat_keeps("Callback"@ + tpl::CARD_COUNT_OPEN@ + signed_decimal(tally.callback_count as int) + "</p>"@);
    lemma_concat_keeps("Follow Up"@ + tpl::CARD_COUNT_OPEN@ + signed_decimal(tally.follow_up_count as int) + "</p>"@);
}

/// The customer list page: the listed customers, the per-status tally, the
/// search text and the status filter of the request.
pub fn index_page(
    customers: &Vec<Customer>,
    tally: &StatusTally,
    search: &Option<String>,
    status: &Option<String>,
) -> (r: String)
    ensures
        r@ == customers_page_text(
            "Customers"@,
            index_content_text(customers@, *tally, text_or(*search, ""@), text_or(*status, ""@)),
        ),
{
    let current = text_or_default(status, "");
    let search_value = text_or_default(search, "");
    let total = usize_text(tally.total);
    let mut c = tpl::INDEX_0.to_owned();
    c.append(total.as_str());
    c.append(tpl::INDEX_1);
    c.append(ring_when(current, "", "ring-2 ring-blue-500"));
    c.append(tpl::INDEX_2);
    c.append(total.as_str());
    c.append(tpl::INDEX_3);
    c.append(ring_when(current, "new", "ring-2 ring-green-500"));
    c.append(tpl::INDEX_4);
    push_card(&mut c, "New", tpl::CARD_COUNT_OPEN, tally.new_count);
    c.append(tpl::INDEX_5);
    c.append(ring_when(current, "contacted", "ring-2 ring-blue-500"));
    c.append(tpl::INDEX_6);
    push_card(&mut c, "Contacted", tpl::CARD_COUNT_OPEN, tally.contacted_count);
    c.append(tpl::INDEX_7);
    c.append(ring_when(current, "callback", "ring-2 ring-yellow-500"));
    c.append(tpl::INDEX_8);
    push_card(&mut c, "Callback", tpl::CARD_COUNT_OPEN, tally.callback_count);
    c.append(tpl::INDEX_9);
    c.append(ring_when(current, "follow_up", "ring-2 ring-purple-500"));
    c.append(tpl::INDEX_10);
    push_card(&mut c, "Follow Up", tpl::CARD_COUNT_OPEN, tally.follow_up_count);
    c.append(tpl::INDEX_11);
    c.append(search_value);
    c.append(tpl::INDEX_12);
    c.append(options_html(&FILTER_OPTIONS, current).as_str());
    c.append(tpl::INDEX_13);
    c.append(index_rows(customers).as_str());
    c.append(tpl::INDEX_14);
    customers_page("Customers", c.as_str())
}

// ---------------------------------------------------------------------------
// Single customer pages
// ---------------------------------------------------------------------------

/// The form for a new customer.
pub fn create_page() -> (r: String)
    ensures
        r@ == customers_page_text("Add Customer"@, tpl::CREATE_CONTENT@),
{
    customers_page("Add Customer", tpl::CREATE_CONTENT)
}

/// The page for a customer that does not exist.
pub fn not_found_page() -> (r: String)
    ensures
        r@ == customers_page_text("Not Found"@, tpl::NOT_FOUND_CONTENT@),
{
    customers_page("Not Found", tpl::NOT_FOUND_CONTENT)
}

/// What a customer page shows when the database cannot be read.
pub open spec fn database_error_text(message: Seq<char>) -> Seq<char> {
    "<div class='p-4 bg-red-100 dark:bg-red-900/30 text-red-800 dark:text-red-300'>Database error: "@
        + message + "</div>"@
}

/// What a customer page shows when the database cannot be read.
pub fn database_error_html(message: &str) -> (r: String)
    ensures
        r@ == database_error_text(message@),
{
    let mut r = "<div class='p-4 bg-red-100 dark:bg-red-900/30 text-red-800 dark:text-red-300'>Database error: ".to_owned();
    r.append(message);
    r.append("</div>");
    r
}

/// What a status change answers when it fails.
pub open spec fn status_error_text(message: Seq<char>) -> Seq<char> {
    "<div class='p-4 bg-red-100 dark:bg-red-900/30 text-red-800 dark:text-red-300'>Error: "@ + message
        + "</div>"@
}

/// What a status change answers when it fails.
pub fn status_error_html(message: &str) -> (r: String)
    ensures
        r@ == status_error_text(message@),
{
    let mut r = "<div class='p-4 bg-red-100 dark:bg-red-900/30 text-red-800 dark:text-red-300'>Error: ".to_owned();
    r.append(message);
    r.append("</div>");
    r
}

/// What deleting or clearing the review of a missing customer answers.
pub const CUSTOMER_MISSING_HTML: &'static str = "<div>Customer not found</div>";

/// A note in the list on a customer's page.
pub open spec fn note_item_text(n: CustomerNote) -> Seq<char> {
    tpl::NOTE_ITEM_0@ + n.body@ + tpl::NOTE_ITEM_1@ + utc_date_time_text(n.created_at as int)
        + tpl::NOTE_ITEM_2@
}

/// The note-text function of a customer's page.
pub open spec fn note_item_fn() -> spec_fn(CustomerNote) -> Seq<char> {
    |n: CustomerNote| note_item_text(n)
}

/// A note in the list that answers adding a note.
pub open spec fn note_list_item_text(n: CustomerNote) -> Seq<char> {
    tpl::NOTE_LIST_ITEM_0@ + n.body@ + tpl::NOTE_LIST_ITEM_1@ + utc_date_time_text(n.created_at as int)
        + tpl::NOTE_LIST_ITEM_2@
}

/// The note-text function of the answer to adding a note.
pub open spec fn note_list_item_fn() -> spec_fn(CustomerNote) -> Seq<char> {
    |n: CustomerNote| note_list_item_text(n)
}

/// The notes of a customer, as listed on the customer's page.
pub fn notes_html(notes: &Vec<CustomerNote>) -> (r: String)
    ensures
        r@ == concat_map(notes@, note_item_fn()),
{
    let mut r = String::new();
    let mut i: usize = 0;
    while i < notes.len()
        invariant
            i <= notes.len(),
            r@ == concat_map(notes@.take(i as int), note_item_fn()),
        decreases notes.len() - i,
    {
        proof {
            lemma_concat_map_step(notes@, note_item_fn(), i as int);
        }
        let n = &notes[i];
        r.append(tpl::NOTE_ITEM_0);
        r.append(n.body.as_str());
        r.append(tpl::NOTE_ITEM_1);
        r.append(format_date_time(n.created_at).as_str());
        r.append(tpl::NOTE_ITEM_2);
        i += 1;
    }
    assert(notes@.take(notes.len() as int) =~= notes@);
    r
}

/// The notes of a customer, as the answer to adding a note lists them.
pub fn note_list_html(notes: &Vec<CustomerNote>) -> (r: String)
    ensures
        r@ == concat_map(notes@, note_list_item_fn()),
{
    let mut r = String::new();
    let mut i: usize = 0;
    while i < notes.len()
        invariant
            i <= notes.len(),
            r@ == concat_map(notes@.take(i as int), note_list_item_fn()),
        decreases notes.len() - i,
    {
        proof {
            lemma_concat_map_step(notes@, note_list_item_fn(), i as int);
        }
        let n = &notes[i];
        r.append(tpl::NOTE_LIST_ITEM_0);
        r.append(n.body.as_str());
        r.append(tpl::NOTE_LIST_ITEM_1);
        r.append(format_date_time(n.created_at).as_str());
        r.append(tpl::NOTE_LIST_ITEM_2);
        i += 1;
    }
    assert(notes@.take(notes.len() as int) =~= notes@);
    r
}

/// What adding a note answers when the note cannot be stored.
pub open spec fn note_error_text(message: Seq<char>) -> Seq<char> {
    "<div class='p-4 bg-red-100 text-red-800'>Error: "@ + message + "</div>"@
}

/// What adding a note answers when the note cannot be stored.
pub fn note_error_html(message: &str) -> (r: String)
    ensures
        r@ == note_error_text(message@),
{
    let mut r = "<div class='p-4 bg-red-100 text-red-800'>Error: ".to_owned();
    r.append(message);
    r.append("</div>");
    r
}

/// The review notice of a customer page: shown only for a customer flagged for review.
pub open spec fn review_badge_text(c: Customer) -> Seq<char> {
    if c.needs_review {
        tpl::REVIEW_BADGE_0@ + text_or(c.review_reason, "No reason provided"@) + tpl::REVIEW_BADGE_1@
            + uuid_hyphenated(c.id) + tpl::REVIEW_BADGE_2@
    } else {
        ""@
    }
}

fn review_badge(c: &Customer) -> (r: String)
    ensures
        r@ == review_badge_text(*c),
{
    if c.needs_review {
        let mut r = tpl::REVIEW_BADGE_0.to_owned();
        r.append(text_or_default(&c.review_reason, "No reason provided"));
        r.append(tpl::REVIEW_BADGE_1);
        r.append(uuid_text(c.id).as_str());
        r.append(tpl::REVIEW_BADGE_2);
        r
    } else {
        "".to_owned()
    }
}

/// The body of a customer's page; `id` is the id the page was asked for.
pub open spec fn show_content_text(c: Customer, notes: Seq<CustomerNote>, id: u128) -> Seq<char> {
    tpl::SHOW_0@ + c.name@ + tpl::SHOW_1@ + uuid_hyphenated(c.id) + tpl::SHOW_2@ + review_badge_text(c)
        + tpl::SHOW_3@ + text_or(c.email, "-"@) + tpl::SHOW_4@ + text_or(c.phone, "-"@) + tpl::SHOW_5@
        + text_or(c.website, "-"@) + tpl::SHOW_6@ + text_or(c.city, "-"@) + tpl::SHOW_7@ + text_or(
        c.state,
        "-"@,
    ) + tpl::SHOW_8@ + text_or(c.industry, "-"@) + tpl::SHOW_9@ + uuid_hyphenated(c.id) + tpl::SHOW_10@
        + badge_html(c.status@) + tpl::SHOW_11@ + concat_map(notes, note_item_fn()) + tpl::SHOW_12@
        + uuid_hyphenated(id) + tpl::SHOW_13@
}

/// A customer's page with its notes; `id` is the id the page was asked for.
pub fn show_page(c: &Customer, notes: &Vec<CustomerNote>, id: u128) -> (r: String)
    ensures
        r@ == customers_page_text(c.name@, show_content_text(*c, notes@, id)),
{
    let cid = uuid_text(c.id);
    let mut s = tpl::SHOW_0.to_owned();
    s.append(c.name.as_str());
    s.append(tpl::SHOW_1);
    s.append(cid.as_str());
    s.append(tpl::SHOW_2);
    s.append(review_badge(c).as_str());
    s.append(tpl::SHOW_3);
    s.append(text_or_default(&c.email, "-"));
    s.append(tpl::SHOW_4);
    s.append(text_or_default(&c.phone, "-"));
    s.append(tpl::SHOW_5);
    s.append(text_or_default(&c.website, "-"));
    s.append(tpl::SHOW_6);
    s.append(text_or_default(&c.city, "-"));
    s.append(tpl::SHOW_7);
    s.append(text_or_default(&c.state, "-"));
    s.append(tpl::SHOW_8);
    s.append(text_or_default(&c.industry, "-"));
    s.append(tpl::SHOW_9);
    s.append(cid.as_str());
    s.append(tpl::SHOW_10);
    s.append(status_badge(c).as_str());
    s.append(tpl::SHOW_11);
    s.append(notes_html(notes).as_str());
    s.append(tpl::SHOW_12);
    s.append(uuid_text(id).as_str());
    s.append(tpl::SHOW_13);
    customers_page(c.name.as_str(), s.as_str())
}

/// The body of the edit form of a customer.
pub open spec fn edit_content_text(c: Customer) -> Seq<char> {
    tpl::EDIT_0@ + uuid_hyphenated(c.id) + tpl::EDIT_1@ + uuid_hyphenated(c.id) + tpl::EDIT_2@ + c.name@
        + tpl::EDIT_3@ + text_or(c.email, ""@) + tpl::EDIT_4@ + text_or(c.phone, ""@) + tpl::EDIT_5@
        + text_or(c.website, ""@) + tpl::EDIT_6@ + text_or(c.city, ""@) + tpl::EDIT_7@ + text_or(
        c.state,
        ""@,
    ) + tpl::EDIT_8@ + text_or(c.industry, ""@) + tpl::EDIT_9@ + options_text(STATUS_OPTIONS@, c.status@)
        + tpl::EDIT_10@ + uuid_hyphenated(c.id) + tpl::EDIT_11@
}

/// The edit form of a customer, its current status selected.
pub fn edit_page(c: &Customer) -> (r: String)
    ensures
        r@ == customers_page_text("Edit Customer"@, edit_content_text(*c)),
{
    let cid = uuid_text(c.id);
    let mut s = tpl::EDIT_0.to_owned();
    s.append(cid.as_str());
    s.append(tpl::EDIT_1);
    s.append(cid.as_str());
    s.append(tpl::EDIT_2);
    s.append(c.name.as_str());
    s.append(tpl::EDIT_3);
    s.append(text_or_default(&c.email, ""));
    s.append(tpl::EDIT_4);
    s.append(text_or_default(&c.phone, ""));
    s.append(tpl::EDIT_5);
    s.append(text_or_default(&c.website, ""));
    s.append(tpl::EDIT_6);
    s.append(text_or_default(&c.city, ""));
    s.append(tpl::EDIT_7);
    s.append(text_or_default(&c.state, ""));
    s.append(tpl::EDIT_8);
    s.append(text_or_default(&c.industry, ""));
    s.append(tpl::EDIT_9);
    s.append(options_html(&STATUS_OPTIONS, c.status.as_str()).as_str());
    s.append(tpl::EDIT_10);
    s.append(cid.as_str());
    s.append(tpl::EDIT_11);
    customers_page("Edit Customer", s.as_str())
}

/// The document that sends the browser on to the page of customer `id`.
pub open spec fn customer_refresh_text(id: u128) -> Seq<char> {
    tpl::CUSTOMER_REFRESH_0@ + uuid_hyphenated(id) + tpl::CUSTOMER_REFRESH_1@ + uuid_hyphenated(id)
        + tpl::CUSTOMER_REFRESH_2@
}

/// The document that sends the browser on to the page of customer `id`.
pub fn customer_refresh(id: u128) -> (r: String)
    ensures
        r@ == customer_refresh_text(id),
{
    let cid = uuid_text(id);
    let mut r = tpl::CUSTOMER_REFRESH_0.to_owned();
    r.append(cid.as_str());
    r.append(tpl::CUSTOMER_REFRESH_1);
    r.append(cid.as_str());
    r.append(tpl::CUSTOMER_REFRESH_2);
    r
}

// ---------------------------------------------------------------------------
// Dashboard
// ---------------------------------------------------------------------------

/// The customers the dashboard shows: the first five of the list (which comes
/// newest first), in its order.
pub open spec fn recent_customers(customers: Seq<Customer>) -> Seq<Customer> {
    if customers.len() < 5 {
        customers
    } else {
        customers.take(5)
    }
}

/// One row of the dashboard's table.
pub open spec fn dashboard_row_text(c: Customer) -> Seq<char> {
    tpl::DASHBOARD_ROW_0@ + c.name@ + tpl::DASHBOARD_ROW_1@ + text_or(c.email, "-"@) + tpl::DASHBOARD_ROW_2@
        + text_or(c.phone, "-"@) + tpl::DASHBOARD_ROW_3@ + badge_html(c.status@) + tpl::DASHBOARD_ROW_4@
        + utc_date_text(c.created_at as int) + tpl::DASHBOARD_ROW_5@
}

/// The row-text function of the dashboard.
pub open spec fn dashboard_row_fn() -> spec_fn(Customer) -> Seq<char> {
    |c: Customer| dashboard_row_text(c)
}

/// The dashboard page.
pub open spec fn dashboard_text(customers: Seq<Customer>, tally: StatusTally) -> Seq<char> {
    tpl::DASHBOARD_0@ + decimal(tally.total as nat) + tpl::DASHBOARD_1@
        + card_text("New"@, tpl::DASHBOARD_COUNT_OPEN@, tally.new_count as int) + tpl::DASHBOARD_2@
        + card_text("Contacted"@, tpl::DASHBOARD_COUNT_OPEN@, tally.contacted_count as int) + tpl::DASHBOARD_3@
        + card_text("Callback"@, tpl::DASHBOARD_COUNT_OPEN@, tally.callback_count as int) + tpl::DASHBOARD_4@
        + card_text("Follow Up"@, tpl::DASHBOARD_COUNT_OPEN@, tally.follow_up_count as int) + tpl::DASHBOARD_5@
        + concat_map(recent_customers(customers), dashboard_row_fn()) + tpl::DASHBOARD_6@
}

/// On the dashboard, each status card shows its own count from the tally
/// right after its label: New the new count, Contacted the contacted count,
/// Callback the callback count and Follow Up the follow-up count.
pub proof fn lemma_dashboard_cards_show_their_counts(customers: Seq<Customer>, tally: StatusTally)
    ensures
        ({
            let page = dashboard_text(customers, tally);
            &&& has_sub(page, "New"@ + tpl::DASHBOARD_COUNT_OPEN@ + signed_decimal(tally.new_count as int) + "</p>"@)
            &&& has_sub(page, "Contacted"@ + tpl::DASHBOARD_COUNT_OPEN@ + signed_decimal(tally.contacted_count as int) + "</p>"@)
            &&& has_sub(page, "Callback"@ + tpl::DASHBOARD_COUNT_OPEN@ + signed_decimal(tally.callback_count as int) + "</p>"@)
            &&& has_sub(page, "Follow Up"@ + tpl::DASHBOARD_COUNT_OPEN@ + signed_decimal(tally.follow_up_count as int) + "</p>"@)
        }),
{
    lemma_concat_keeps("New"@ + tpl::DASHBOARD_COUNT_OPEN@ + signed_decimal(tally.new_count as int) + "</p>"@);
    lemma_concat_keeps("Contacted"@ + tpl::DASHBOARD_COUNT_OPEN@ + signed_decimal(tally.contacted_count as int) + "</p>"@);
    lemma_concat_keeps("Callback"@ + tpl::DASHBOARD_COUNT_OPEN@ + signed_decimal(tally.callback_count as int) + "</p>"@);
    lemma_concat_keeps("Follow Up"@ + tpl::DASHBOARD_COUNT_OPEN@ + signed_decimal(tally.follow_up_count as int) + "</p>"@);
}

/// The dashboard: the per-status tally and the most recent customers.
pub fn dashboard_page(customers: &Vec<Customer>, tally: &StatusTally) -> (r: String)
    ensures
        r@ == dashboard_text(customers@, *tally),
{
    let ghost recent = recent_customers(customers@);
    let n: usize = if customers.len() < 5 {
        customers.len()
    } else {
        5
    };
    let mut rows = String::new();
    let mut k: usize = 0;
    while k < n
        invariant
            k <= n,
            n <= customers.len(),
            n == recent.len(),
            recent == recent_customers(customers@),
            rows@ == concat_map(recent.take(k as int), dashboard_row_fn()),
        decreases n - k,
    {
        proof {
            lemma_concat_map_step(recent, dashboard_row_fn(), k as int);
        }
        let c = &customers[k];
        assert(*c == recent[k as int]);
        rows.append(tpl::DASHBOARD_ROW_0);
        rows.append(c.name.as_str());
        rows.append(tpl::DASHBOARD_ROW_1);
        rows.append(text_or_default(&c.email, "-"));
        rows.append(tpl::DASHBOARD_ROW_2);
        rows.append(text_or_default(&c.phone, "-"));
        rows.append(tpl::DASHBOARD_ROW_3);
        rows.append(status_badge(c).as_str());
        rows.append(tpl::DASHBOARD_ROW_4);
        rows.append(format_date(c.created_at).as_str());
        rows.append(tpl::DASHBOARD_ROW_5);
        k += 1;
    }
    assert(recent.take(n as int) =~= recent);
    let mut r = tpl::DASHBOARD_0.to_owned();
    r.append(usize_text(tally.total).as_str());
    r.append(tpl::DASHBOARD_1);
    push_card(&mut r, "New", tpl::DASHBOARD_COUNT_OPEN, tally.new_count);
    r.append(tpl::DASHBOARD_2);
    push_card(&mut r, "Contacted", tpl::DASHBOARD_COUNT_OPEN, tally.contacted_count);
    r.append(tpl::DASHBOARD_3);
    push_card(&mut r, "Callback", tpl::DASHBOARD_COUNT_OPEN, tally.callback_count);
    r.append(tpl::DASHBOARD_4);
    push_card(&mut r, "Follow Up", tpl::DASHBOARD_COUNT_OPEN, tally.follow_up_count);
    r.append(tpl::DASHBOARD_5);
    r.append(rows.as_str());
    r.append(tpl::DASHBOARD_6);
    r
}

// ---------------------------------------------------------------------------
// Pages without data
// ---------------------------------------------------------------------------

/// The CSV import page.
pub fn import_page() -> (r: String)
    ensures
        r@ == tpl::IMPORT_DOC_0@ + tpl::IMPORT_NAV@ + tpl::IMPORT_DOC_1@ + tpl::IMPORT_CONTENT@ + tpl::IMPORT_DOC_2@,
{
    let mut r = tpl::IMPORT_DOC_0.to_owned();
    r.append(tpl::IMPORT_NAV);
    r.append(tpl::IMPORT_DOC_1);
    r.append(tpl::IMPORT_CONTENT);
    r.append(tpl::IMPORT_DOC_2);
    r
}

/// The sign-in page.
pub fn login_page() -> (r: &'static str)
    ensures
        r@ == tpl::LOGIN_PAGE@,
{
    tpl::LOGIN_PAGE
}

/// The registration page.
pub fn register_page() -> (r: &'static str)
    ensures
        r@ == tpl::REGISTER_PAGE@,
{
    tpl::REGISTER_PAGE
}

} // verus!
