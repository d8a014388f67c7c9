use fastclient::models::{Customer, CustomerNote};
use fastclient::pages::{
    base_html, choose_listing, create_page, customer_refresh, dashboard_page, database_error_html,
    edit_page, import_page, index_page, index_rows, login_page, not_found_page, note_error_html,
    note_list_html, notes_html, register_page, show_page, sidebar_layout, status_error_html,
    FilterQuery, Listing, SearchQuery,
};
use fastclient::status::StatusTally;

const ID: u128 = 0x550e8400e29b41d4a716446655440000;
const ID_TEXT: &str = "550e8400-e29b-41d4-a716-446655440000";
const NOV_14_2023: i64 = 1_700_000_000_000_000;

fn customer(name: &str, status: &str) -> Customer {
    Customer {
        id: ID,
        name: name.to_string(),
        email: Some("a@acme.io".to_string()),
        phone: None,
        website: None,
        city: Some("Austin".to_string()),
        state: None,
        industry: None,
        status: status.to_string(),
        needs_review: false,
        review_reason: None,
        created_at: NOV_14_2023,
        updated_at: NOV_14_2023,
    }
}

fn tally() -> StatusTally {
    StatusTally { total: 9, new_count: 4, contacted_count: 3, callback_count: 2, follow_up_count: 0 }
}

#[test]
fn document_frame() {
    let page = base_html("Title", "<p>body</p>");
    assert!(page.starts_with("<!DOCTYPE html>"));
    assert!(page.contains("<title>Title - FastClient</title>"));
    assert!(page.contains("<p>body</p>"));
    assert!(page.ends_with("</html>"));
}

#[test]
fn sidebar_highlights_the_current_section() {
    let home = sidebar_layout("/", "X");
    assert!(home.contains(r#"<a href="/" class="sidebar-link sidebar-link-active">"#));
    assert!(home.contains(r#"<a href="/customers" class="sidebar-link">"#));
    let list = sidebar_layout("/customers/new", "X");
    assert!(list.contains(r#"<a href="/" class="sidebar-link">"#));
    assert!(list.contains(r#"<a href="/customers" class="sidebar-link sidebar-link-active">"#));
    let other = sidebar_layout("/dashboardx", "X");
    assert!(other.contains(r#"<a href="/" class="sidebar-link">"#));
}

#[test]
fn search_wins_over_filter() {
    let q = SearchQuery { q: Some("acme".to_string()) };
    let f = FilterQuery { status: Some("new".to_string()) };
    assert!(matches!(choose_listing(&q, &f), Listing::Search(s) if s == "acme"));
    let empty = SearchQuery { q: Some(String::new()) };
    assert!(matches!(choose_listing(&empty, &f), Listing::Filter(s) if s == "new"));
    let none = SearchQuery { q: None };
    assert!(matches!(choose_listing(&none, &FilterQuery { status: None }), Listing::All));
}

#[test]
fn all_statuses_option_lists_everyone() {
    let none = SearchQuery { q: None };
    let all = FilterQuery { status: Some(String::new()) };
    assert!(matches!(choose_listing(&none, &all), Listing::All));
    let empty = SearchQuery { q: Some(String::new()) };
    assert!(matches!(choose_listing(&empty, &all), Listing::All));
}

#[test]
fn list_rows_show_uuid_and_date() {
    let rows = index_rows(&vec![customer("Acme", "new")]);
    assert!(rows.contains(ID_TEXT));
    assert!(rows.contains(">2023-11-14</td>"));
    assert!(rows.contains(">a@acme.io</td>"));
    assert!(rows.contains(">-</td>"));
    assert!(rows.contains(">New</span>"));
}

#[test]
fn list_page_marks_the_filter() {
    let page = index_page(
        &vec![customer("Acme", "new")],
        &tally(),
        &Some("ac".to_string()),
        &Some("callback".to_string()),
    );
    assert!(page.contains("9 total customers"));
    assert!(page.contains(r#"value="ac""#));
    assert!(page.contains(r#"<input type="search" name="q" placeholder="Search customers..." value="ac""#));
    assert!(page.contains(r#"<option value="callback" selected>Callback</option>"#));
    assert!(page.contains(r#"<option value="">All Statuses</option>"#));
    assert!(page.contains("card card-status p-4 ring-2 ring-yellow-500"));
    assert!(page.contains("<title>Customers - FastClient</title>"));
}

#[test]
fn static_customer_pages() {
    assert!(create_page().contains("<title>Add Customer - FastClient</title>"));
    assert!(not_found_page().contains("Customer Not Found"));
    assert!(import_page().contains(r#"name="csv_file""#));
    assert!(login_page().contains("Sign in to your account"));
    assert!(register_page().contains("password_confirmation"));
}

#[test]
fn error_fragments() {
    assert_eq!(
        database_error_html("down"),
        "<div class='p-4 bg-red-100 dark:bg-red-900/30 text-red-800 dark:text-red-300'>Database error: down</div>"
    );
    assert_eq!(
        status_error_html("x"),
        "<div class='p-4 bg-red-100 dark:bg-red-900/30 text-red-800 dark:text-red-300'>Error: x</div>"
    );
    assert_eq!(note_error_html("y"), "<div class='p-4 bg-red-100 text-red-800'>Error: y</div>");
}

#[test]
fn customer_page_with_notes_and_review() {
    let mut c = customer("Acme", "contacted");
    c.needs_review = true;
    let notes = vec![CustomerNote { id: 1, customer_id: ID, body: "Called back".to_string(), created_at: NOV_14_2023 }];
    let page = show_page(&c, &notes, ID);
    assert!(page.contains("<title>Acme - FastClient</title>"));
    assert!(page.contains("<strong>Needs Review:</strong> No reason provided"));
    assert!(page.contains("Called back"));
    assert!(page.contains("2023-11-14 22:13"));
    assert!(page.contains(&format!(r#"action="/customers/{}/notes""#, ID_TEXT)));
    c.needs_review = false;
    assert!(!show_page(&c, &notes, ID).contains("Needs Review"));
    assert!(notes_html(&notes).contains("last:border-0"));
    assert!(note_list_html(&notes).starts_with(r#"<div class="py-2 border-b border-gray-200">"#));
}

#[test]
fn edit_form_selects_current_status() {
    let page = edit_page(&customer("Acme", "follow_up"));
    assert!(page.contains(r#"<option value="follow_up" selected>Follow Up</option>"#));
    assert!(page.contains(r#"<option value="new">New</option>"#));
    assert!(page.contains(r#"<input type="text" name="state" value="" required class="form-input">"#));
}

#[test]
fn refresh_document() {
    assert_eq!(
        customer_refresh(ID),
        format!(
            "<!DOCTYPE html>\n<html>\n<head><meta http-equiv=\"refresh\" content=\"0;url=/customers/{0}\"></head>\n<body><a href=\"/customers/{0}\">Redirect</a></body>\n</html>",
            ID_TEXT
        )
    );
    assert!(customer_refresh(1).contains("00000000-0000-0000-0000-000000000001"));
}

#[test]
fn dashboard_shows_first_five_in_order() {
    let names = ["c1", "c2", "c3", "c4", "c5", "c6", "c7"];
    let cs: Vec<Customer> = names.iter().map(|n| customer(n, "new")).collect();
    let page = dashboard_page(&cs, &tally());
    assert!(!page.contains(">c6</td>") && !page.contains(">c7</td>"));
    let p1 = page.find(">c1</td>").unwrap();
    let p5 = page.find(">c5</td>").unwrap();
    assert!(p1 < p5);
    assert!(page.contains(r#"<p class="text-xl font-semibold text-gray-900 dark:text-warm-100">9</p>"#));
}
