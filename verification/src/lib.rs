//! FastClient: the customer-relationship logic of a small CRM: customer
//! records and their statuses, CSV import and export, reading contact details
//! off a business's web page, account checks, settings, and the HTML pages.
use vstd::prelude::*;

pub mod accounts;
pub mod config;
pub mod csv_data;
pub mod display;
pub mod json;
pub mod migrations;
pub mod models;
pub mod pages;
pub mod scrape;
pub mod search;
pub mod status;
pub mod templates;
pub mod text;

verus! {

} // verus!
