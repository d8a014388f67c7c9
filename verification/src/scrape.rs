//! Reading a business's contact details out of its web page: the JSON-LD
//! organisation record when the page has one, and pattern searches over the
//! visible text for whatever that record leaves out.
use vstd::prelude::*;

use crate::json::{json_get, json_parsed, json_text, member_position, parse_json, JsonValue};
use crate::search::{
    find_first, first_such, lemma_find_first_at, lemma_find_first_none,
};
use crate::text::{
    chars_of, eq_ascii_nocase, has_sub, join2, lemma_trimmed_edges, lemma_trimmed_fixed, occurs_at,
    lowercased, string_of, text_contains, to_lowercase, text_eq_ignore_ascii_case, text_starts_with, trim, trim_chars,
    trimmed,
};

verus! {

// ---------------------------------------------------------------------------
// Requests and responses
// ---------------------------------------------------------------------------

/// A request to read the details of the business at `url`.
pub struct ScrapeRequest {
    pub url: String,
}

/// The details found on a page; each one that could not be found is `None`.
pub struct ScrapeData {
    pub name: Option<String>,
    pub email: Option<String>,
    pub phone: Option<String>,
    pub city: Option<String>,
    pub state: Option<String>,
    pub industry: Option<String>,
}

/// The answer to a scrape request.
pub struct ScrapeResponse {
    pub success: bool,
    pub data: Option<ScrapeData>,
    pub error: Option<String>,
}

/// The message for a request whose URL is blank.
pub const EMPTY_URL_MESSAGE: &'static str = "Please enter a website URL first.";

impl ScrapeResponse {
    /// A failed scrape that reports `message`.
    pub fn failure(message: String) -> (r: ScrapeResponse)
        ensures
            !r.success,
            r.data is None,
            r.error == Some(message),
    {
        ScrapeResponse { success: false, data: None, error: Some(message) }
    }

    /// A successful scrape that found `data`.
    pub fn found(data: ScrapeData) -> (r: ScrapeResponse)
        ensures
            r.success,
            r.data == Some(data),
            r.error is None,
    {
        ScrapeResponse { success: true, data: Some(data), error: None }
    }
}

// ---------------------------------------------------------------------------
// The URL to fetch
// ---------------------------------------------------------------------------

/// The address fetched for a requested URL: the trimmed URL, with `https://`
/// in front unless it already names `http://` or `https://`; nothing when blank.
pub open spec fn normalized_url(url: Seq<char>) -> Option<Seq<char>> {
    let t = trimmed(url);
    if t.len() == 0 {
        None
    } else if occurs_at(t, "http://"@, 0) || occurs_at(t, "https://"@, 0) {
        Some(t)
    } else {
        Some("https://"@ + t)
    }
}

/// The address to fetch for `url`, or `None` when it is blank.
pub fn normalize_url(url: &str) -> (r: Option<String>)
    ensures
        r.deep_view() == normalized_url(url@),
{
    let t = trim(url);
    if t.as_str().is_empty() {
        return None;
    }
    if text_starts_with(t.as_str(), "http://") || text_starts_with(t.as_str(), "https://") {
        Some(t)
    } else {
        Some(join2("https://", t.as_str()))
    }
}

/// The address to fetch for a request, or the failure to answer with when its
/// URL is blank.
pub fn prepare_scrape(req: &ScrapeRequest) -> (r: Result<String, ScrapeResponse>)
    ensures
        match r {
            Ok(u) => normalized_url(req.url@) == Some(u@),
            Err(resp) => {
                &&& normalized_url(req.url@) is None
                &&& !resp.success
                &&& resp.data is None
                &&& resp.error.deep_view() == Some(EMPTY_URL_MESSAGE@)
            },
        },
{
    match normalize_url(req.url.as_str()) {
        Some(u) => Ok(u),
        None => Err(ScrapeResponse::failure(EMPTY_URL_MESSAGE.to_owned())),
    }
}

/// Normalising an address that was already normalised changes nothing.
pub proof fn lemma_normalize_url_idempotent(url: Seq<char>)
    requires
        normalized_url(url) is Some,
    ensures
        normalized_url(normalized_url(url).unwrap()) == normalized_url(url),
{
    reveal_strlit("http://");
    reveal_strlit("https://");
    let t = trimmed(url);
    lemma_trimmed_edges(url);
    let r = normalized_url(url).unwrap();
    if occurs_at(t, "http://"@, 0) || occurs_at(t, "https://"@, 0) {
        lemma_trimmed_fixed(t);
    } else {
        let h = "https://"@;
        assert(r == h + t);
        assert(r[0] == 'h');
        assert(r.last() == t.last());
        lemma_trimmed_fixed(r);
        assert(r.subrange(0, 8) =~= h);
    }
}

// ---------------------------------------------------------------------------
// Pattern searches (the `regex` crate)
// ---------------------------------------------------------------------------

/// What `Regex::new(pattern)` then `replace_all(text, replacement)` gives:
/// `None` when the pattern does not compile.
pub uninterp spec fn regex_replaced(pattern: Seq<char>, text: Seq<char>, replacement: Seq<char>) -> Option<Seq<char>>;

/// The texts of all the matches that `find_iter` yields, left to right:
/// `None` when the pattern does not compile.
pub uninterp spec fn regex_matches(pattern: Seq<char>, text: Seq<char>) -> Option<Seq<Seq<char>>>;

/// The text of the first match that `find` yields, if any:
/// `None` when the pattern does not compile.
pub uninterp spec fn regex_first_match(pattern: Seq<char>, text: Seq<char>) -> Option<Option<Seq<char>>>;

/// The groups of the first match that `captures` yields (group 0 first; a group
/// that took no part is `None`): `None` when the pattern does not compile.
pub uninterp spec fn regex_first_captures(pattern: Seq<char>, text: Seq<char>) -> Option<Option<Seq<Option<Seq<char>>>>>;

/// The groups of every match that `captures_iter` yields, left to right:
/// `None` when the pattern does not compile.
pub uninterp spec fn regex_all_captures(pattern: Seq<char>, text: Seq<char>) -> Option<Seq<Seq<Option<Seq<char>>>>>;

/// Compiles `pattern` with `regex::Regex::new` and replaces every match in `text`
/// with `replacement` (`Regex::replace_all`); the result is named, not stated.
#[verifier::external_body]
fn regex_replace_all(pattern: &str, text: &str, replacement: &str) -> (r: Option<String>)
    ensures
        r.deep_view() == regex_replaced(pattern@, text@, replacement@),
{
    regex::Regex::new(pattern).ok().map(|re| re.replace_all(text, replacement).into_owned())
}

/// Compiles `pattern` with `regex::Regex::new` and lists the texts of the matches
/// that `Regex::find_iter` yields in `text`; the result is named, not stated.
#[verifier::external_body]
fn regex_find_all(pattern: &str, text: &str) -> (r: Option<Vec<String>>)
    ensures
        r.deep_view() == regex_matches(pattern@, text@),
{
    regex::Regex::new(pattern).ok().map(|re| re.find_iter(text).map(|m| m.as_str().to_string()).collect())
}

/// Compiles `pattern` with `regex::Regex::new` and gives the text of the match
/// that `Regex::find` yields in `text`; the result is named, not stated.
#[verifier::external_body]
fn regex_find(pattern: &str, text: &str) -> (r: Option<Option<String>>)
    ensures
        r.deep_view() == regex_first_match(pattern@, text@),
{
    regex::Regex::new(pattern).ok().map(|re| re.find(text).map(|m| m.as_str().to_string()))
}

/// Compiles `pattern` with `regex::Regex::new` and gives the groups of the match
/// that `Regex::captures` yields in `text`; the result is named, not stated.
#[verifier::external_body]
fn regex_captures(pattern: &str, text: &str) -> (r: Option<Option<Vec<Option<String>>>>)
    ensures
        r.deep_view() == regex_first_captures(pattern@, text@),
{
    regex::Regex::new(pattern).ok().map(
        |re| re.captures(text).map(|c| c.iter().map(|g| g.map(|m| m.as_str().to_string())).collect()),
    )
}

/// Compiles `pattern` with `regex::Regex::new` and gives the groups of each match
/// that `Regex::captures_iter` yields in `text`; the result is named, not stated.
#[verifier::external_body]
fn regex_captures_all(pattern: &str, text: &str) -> (r: Option<Vec<Vec<Option<String>>>>)
    ensures
        r.deep_view() == regex_all_captures(pattern@, text@),
{
    regex::Regex::new(pattern).ok().map(
        |re| re.captures_iter(text).map(|c| c.iter().map(|g| g.map(|m| m.as_str().to_string())).collect()).collect(),
    )
}

/// Group `i` of a match, `None` when the match has no such group or it took no part.
pub open spec fn capture_group(groups: Seq<Option<Seq<char>>>, i: int) -> Option<Seq<char>> {
    if 0 <= i < groups.len() {
        groups[i]
    } else {
        None
    }
}

fn group_of(groups: &Vec<Option<String>>, i: usize) -> (r: Option<String>)
    ensures
        r.deep_view() == capture_group(groups.deep_view(), i as int),
{
    if i < groups.len() {
        match &groups[i] {
            Some(s) => Some(s.clone()),
            None => None,
        }
    } else {
        None
    }
}

// ---------------------------------------------------------------------------
// Patterns and tables
// ---------------------------------------------------------------------------

/// Script and style elements (the back-reference makes `regex` refuse it).
pub const SCRIPT_STYLE_PATTERN: &'static str = r#"<(script|style)[^>]*>.*?</\1>"#;

/// Any HTML tag.
pub const TAG_PATTERN: &'static str = r#"<[^>]+>"#;

/// A JSON-LD script element; group 1 is its body.
pub const JSON_LD_PATTERN: &'static str = r#"<script[^>]*type=["']application/ld\+json["'][^>]*>(.*?)</script>"#;

/// An e-mail address.
pub const EMAIL_PATTERN: &'static str = r#"[a-zA-Z0-9._%+\-]+@[a-zA-Z0-9.\-]+\.[a-zA-Z]{2,}"#;

/// North American phone numbers, tried in this order.
pub const PHONE_PATTERNS: [&'static str; 3] = [
    r"\(?\d{3}\)?[\s.\-]?\d{3}[\s.\-]?\d{4}",
    r"1[\s.\-]?\(?\d{3}\)?[\s.\-]?\d{3}[\s.\-]?\d{4}",
    r"\+1[\s.\-]?\(?\d{3}\)?[\s.\-]?\d{3}[\s.\-]?\d{4}",
];

/// `City, ST 12345`; group 1 is the city and group 2 the state.
pub const CITY_STATE_ZIP_PATTERN: &'static str = r#"([A-Z][a-zA-Z\s.\-]{1,30}),\s*(AL|AK|AZ|AR|CA|CO|CT|DE|FL|GA|HI|ID|IL|IN|IA|KS|KY|LA|ME|MD|MA|MI|MN|MS|MO|MT|NE|NV|NH|NJ|NM|NY|NC|ND|OH|OK|OR|PA|RI|SC|SD|TN|TX|UT|VT|VA|WA|WV|WI|WY|DC)[\s,]+\d{5}"#;

/// `City, ST`; group 1 is the city and group 2 the state.
pub const CITY_STATE_PATTERN: &'static str = r#"([A-Z][a-zA-Z\s.\-]{1,30}),\s*(AL|AK|AZ|AR|CA|CO|CT|DE|FL|GA|HI|ID|IL|IN|IA|KS|KY|LA|ME|MD|MA|MI|MN|MS|MO|MT|NE|NV|NH|NJ|NM|NY|NC|ND|OH|OK|OR|PA|RI|SC|SD|TN|TX|UT|VT|VA|WA|WV|WI|WY|DC)"#;

/// The page title; group 1 is its text.
pub const TITLE_PATTERN: &'static str = r"<title[^>]*>(.*?)</title>";

/// Addresses in these domains are placeholders, never the business's own.
pub const SKIP_DOMAINS: [&'static str; 3] = ["example.com", "sentry.io", "w3.org"];

/// The schema.org types that a JSON-LD organisation record may have.
pub const ORG_TYPES: [&'static str; 14] = [
    "Organization",
    "LocalBusiness",
    "Corporation",
    "Store",
    "Restaurant",
    "MedicalBusiness",
    "LegalService",
    "FinancialService",
    "RealEstateAgent",
    "AutoDealer",
    "AutoRepair",
    "EducationalOrganization",
    "ProfessionalService",
    "HomeAndConstructionBusiness",
];

/// schema.org business types and the industry each belongs to.
pub const INDUSTRY_MAP: [(&'static str, &'static str); 38] = [
    ("Restaurant", "Restaurant"),
    ("FoodEstablishment", "Restaurant"),
    ("CafeOrCoffeeShop", "Restaurant"),
    ("BarOrPub", "Restaurant"),
    ("AutoDealer", "Automotive"),
    ("AutoRepair", "Automotive"),
    ("Attorney", "Legal"),
    ("LegalService", "Legal"),
    ("MedicalBusiness", "Healthcare"),
    ("Dentist", "Healthcare"),
    ("Physician", "Healthcare"),
    ("Hospital", "Healthcare"),
    ("Pharmacy", "Healthcare"),
    ("VeterinaryCare", "Healthcare"),
    ("RealEstateAgent", "Real Estate"),
    ("InsuranceAgency", "Insurance"),
    ("FinancialService", "Finance"),
    ("AccountingService", "Finance"),
    ("EducationalOrganization", "Education"),
    ("School", "Education"),
    ("Store", "Retail"),
    ("ClothingStore", "Retail"),
    ("HardwareStore", "Retail"),
    ("ElectronicsStore", "Retail"),
    ("GroceryStore", "Retail"),
    ("HomeAndConstructionBusiness", "Construction"),
    ("Plumber", "Construction"),
    ("Electrician", "Construction"),
    ("RoofingContractor", "Construction"),
    ("HVACBusiness", "Construction"),
    ("LodgingBusiness", "Hospitality"),
    ("Hotel", "Hospitality"),
    ("SportsActivityLocation", "Fitness"),
    ("HealthAndBeautyBusiness", "Beauty"),
    ("HairSalon", "Beauty"),
    ("DaySpa", "Beauty"),
    ("TravelAgency", "Travel"),
    ("ProfessionalService", "Professional Services"),
];

/// Words of the page text and the industry each points to, tried in this order.
pub const INDUSTRY_KEYWORDS: [(&'static str, &'static str); 25] = [
    ("restaurant", "Restaurant"),
    ("plumbing", "Construction"),
    ("hvac", "Construction"),
    ("roofing", "Construction"),
    ("dental", "Healthcare"),
    ("medical", "Healthcare"),
    ("clinic", "Healthcare"),
    ("law firm", "Legal"),
    ("attorney", "Legal"),
    ("real estate", "Real Estate"),
    ("realty", "Real Estate"),
    ("insurance", "Insurance"),
    ("salon", "Beauty"),
    ("spa", "Beauty"),
    ("fitness", "Fitness"),
    ("gym", "Fitness"),
    ("auto", "Automotive"),
    ("car dealer", "Automotive"),
    ("hotel", "Hospitality"),
    ("motel", "Hospitality"),
    ("accounting", "Finance"),
    ("consulting", "Professional Services"),
    ("technology", "Technology"),
    ("software", "Technology"),
    ("marketing", "Marketing"),
];

// ---------------------------------------------------------------------------
// The visible text of a page
// ---------------------------------------------------------------------------

/// The page with script and style elements blanked out (the page itself when
/// that pattern does not compile).
pub open spec fn without_scripts(html: Seq<char>) -> Seq<char> {
    match regex_replaced(SCRIPT_STYLE_PATTERN@, html, " "@) {
        Some(t) => t,
        None => html,
    }
}

/// The page text with scripts, styles and tags blanked out.
pub open spec fn visible_text(html: Seq<char>) -> Seq<char> {
    let c = without_scripts(html);
    match regex_replaced(TAG_PATTERN@, c, " "@) {
        Some(t) => t,
        None => c,
    }
}

fn strip_scripts(html: &str) -> (r: String)
    ensures
        r@ == without_scripts(html@),
{
    match regex_replace_all(SCRIPT_STYLE_PATTERN, html, " ") {
        Some(t) => t,
        None => html.to_owned(),
    }
}

fn page_text(html: &str) -> (r: String)
    ensures
        r@ == visible_text(html@),
{
    let c = strip_scripts(html);
    match regex_replace_all(TAG_PATTERN, c.as_str(), " ") {
        Some(t) => t,
        None => c,
    }
}

// ---------------------------------------------------------------------------
// E-mail
// ---------------------------------------------------------------------------

/// `d` occurs in the address `e`.
pub open spec fn names_domain(e: Seq<char>) -> spec_fn(&'static str) -> bool {
    |d: &'static str| has_sub(e, d@)
}

/// An address that names none of the placeholder domains.
pub open spec fn kept_email() -> spec_fn(Seq<char>) -> bool {
    |e: Seq<char>| find_first(SKIP_DOMAINS@, names_domain(e)) is None
}

/// The first address on the page (outside scripts and styles) that names no
/// placeholder domain.
pub open spec fn extracted_email(html: Seq<char>) -> Option<Seq<char>> {
    match regex_matches(EMAIL_PATTERN@, without_scripts(html)) {
        Some(ms) => first_such(ms, kept_email()),
        None => None,
    }
}

fn names_skipped_domain(e: &str) -> (r: bool)
    ensures
        r == !kept_email()(e@),
{
    let mut i: usize = 0;
    while i < 3
        invariant
            i <= 3,
            forall|j: int| 0 <= j < i ==> !names_domain(e@)(#[trigger] SKIP_DOMAINS@[j]),
        decreases 3 - i,
    {
        if text_contains(e, SKIP_DOMAINS[i]) {
            proof {
                lemma_find_first_at(SKIP_DOMAINS@, names_domain(e@), i as int);
            }
            return true;
        }
        i += 1;
    }
    proof {
        lemma_find_first_none(SKIP_DOMAINS@, names_domain(e@));
    }
    false
}

/// The business's e-mail address as the page text shows it.
pub fn extract_email(html: &str) -> (r: Option<String>)
    ensures
        r.deep_view() == extracted_email(html@),
{
    let clean = strip_scripts(html);
    let found = regex_find_all(EMAIL_PATTERN, clean.as_str());
    let matches = match found {
        Some(ms) => ms,
        None => return None,
    };
    let ghost ms = matches.deep_view();
    assert(regex_matches(EMAIL_PATTERN@, without_scripts(html@)) == Some(ms));
    let mut i: usize = 0;
    while i < matches.len()
        invariant
            i <= matches.len(),
            ms == matches.deep_view(),
            ms.len() == matches.len(),
            regex_matches(EMAIL_PATTERN@, without_scripts(html@)) == Some(ms),
            forall|j: int| 0 <= j < i ==> !kept_email()(#[trigger] ms[j]),
        decreases matches.len() - i,
    {
        assert(ms[i as int] == matches[i as int]@);
        if !names_skipped_domain(matches[i].as_str()) {
            proof {
                lemma_find_first_at(ms, kept_email(), i as int);
            }
            let m = matches[i].clone();
            assert(Some(m).deep_view() == Some(ms[i as int]));
            return Some(m);
        }
        i += 1;
    }
    proof {
        lemma_find_first_none(ms, kept_email());
    }
    None
}

// ---------------------------------------------------------------------------
// Phone
// ---------------------------------------------------------------------------

/// The phone pattern `p` compiles and matches `text`.
pub open spec fn phone_hit(text: Seq<char>) -> spec_fn(&'static str) -> bool {
    |p: &'static str| regex_first_match(p@, text) matches Some(Some(_))
}

/// The first match in the visible text of the first phone pattern that matches.
pub open spec fn extracted_phone(html: Seq<char>) -> Option<Seq<char>> {
    let clean = visible_text(html);
    match first_such(PHONE_PATTERNS@, phone_hit(clean)) {
        Some(p) => regex_first_match(p@, clean).unwrap(),
        None => None,
    }
}

/// The business's phone number as the page text shows it.
pub fn extract_phone(html: &str) -> (r: Option<String>)
    ensures
        r.deep_view() == extracted_phone(html@),
{
    let clean = page_text(html);
    let mut i: usize = 0;
    while i < 3
        invariant
            i <= 3,
            clean@ == visible_text(html@),
            forall|j: int| 0 <= j < i ==> !phone_hit(clean@)(#[trigger] PHONE_PATTERNS@[j]),
        decreases 3 - i,
    {
        match regex_find(PHONE_PATTERNS[i], clean.as_str()) {
            Some(Some(m)) => {
                proof {
                    lemma_find_first_at(PHONE_PATTERNS@, phone_hit(clean@), i as int);
                }
                return Some(m);
            },
            _ => {},
        }
        i += 1;
    }
    proof {
        lemma_find_first_none(PHONE_PATTERNS@, phone_hit(clean@));
    }
    None
}

// ---------------------------------------------------------------------------
// City and state
// ---------------------------------------------------------------------------

/// What one city/state pattern decides: `None` when it does not match (or does
/// not compile), so the next one is tried; otherwise the city and state groups,
/// or `None` inside when one of them is missing.
pub open spec fn address_attempt(pattern: Seq<char>, text: Seq<char>) -> Option<Option<(Seq<char>, Seq<char>)>> {
    match regex_first_captures(pattern, text) {
        Some(Some(g)) => Some(
            match (capture_group(g, 1), capture_group(g, 2)) {
                (Some(c), Some(s)) => Some((c, s)),
                _ => None,
            },
        ),
        _ => None,
    }
}

/// The city and state in the visible text: `City, ST 12345` first, then `City, ST`.
pub open spec fn extracted_address(html: Seq<char>) -> Option<(Seq<char>, Seq<char>)> {
    let clean = visible_text(html);
    match address_attempt(CITY_STATE_ZIP_PATTERN@, clean) {
        Some(r) => r,
        None => match address_attempt(CITY_STATE_PATTERN@, clean) {
            Some(r) => r,
            None => None,
        },
    }
}

fn try_address(pattern: &str, text: &str) -> (r: Option<Option<(String, String)>>)
    ensures
        match r {
            Some(Some((c, s))) => address_attempt(pattern@, text@) == Some(Some((c@, s@))),
            Some(None) => address_attempt(pattern@, text@) == Some(None::<(Seq<char>, Seq<char>)>),
            None => address_attempt(pattern@, text@) is None,
        },
{
    match regex_captures(pattern, text) {
        Some(Some(groups)) => {
            let city = group_of(&groups, 1);
            let state = group_of(&groups, 2);
            match (city, state) {
                (Some(c), Some(s)) => Some(Some((c, s))),
                _ => Some(None),
            }
        },
        _ => None,
    }
}

/// The business's city and state as the page text shows them.
pub fn extract_address(html: &str) -> (r: Option<(String, String)>)
    ensures
        match r {
            Some((c, s)) => extracted_address(html@) == Some((c@, s@)),
            None => extracted_address(html@) is None,
        },
{
    let clean = page_text(html);
    match try_address(CITY_STATE_ZIP_PATTERN, clean.as_str()) {
        Some(r) => r,
        None => match try_address(CITY_STATE_PATTERN, clean.as_str()) {
            Some(r) => r,
            None => None,
        },
    }
}

// ---------------------------------------------------------------------------
// Industry
// ---------------------------------------------------------------------------

/// The keyword of the entry occurs in `text`.
pub open spec fn keyword_in(text: Seq<char>) -> spec_fn((&'static str, &'static str)) -> bool {
    |kv: (&'static str, &'static str)| has_sub(text, kv.0@)
}

/// The industry of the first keyword that occurs in the lower-cased visible text.
pub open spec fn extracted_industry(html: Seq<char>) -> Option<Seq<char>> {
    match first_such(INDUSTRY_KEYWORDS@, keyword_in(lowercased(visible_text(html)))) {
        Some(kv) => Some(kv.1@),
        None => None,
    }
}

/// The business's industry as guessed from the words of the page.
pub fn extract_industry(html: &str) -> (r: Option<String>)
    ensures
        r.deep_view() == extracted_industry(html@),
{
    let clean = page_text(html);
    let lower = to_lowercase(clean.as_str());
    let mut i: usize = 0;
    while i < 25
        invariant
            i <= 25,
            lower@ == lowercased(visible_text(html@)),
            forall|j: int| 0 <= j < i ==> !keyword_in(lower@)(#[trigger] INDUSTRY_KEYWORDS@[j]),
        decreases 25 - i,
    {
        let (keyword, industry) = INDUSTRY_KEYWORDS[i];
        if text_contains(lower.as_str(), keyword) {
            proof {
                lemma_find_first_at(INDUSTRY_KEYWORDS@, keyword_in(lower@), i as int);
            }
            return Some(industry.to_owned());
        }
        i += 1;
    }
    proof {
        lemma_find_first_none(INDUSTRY_KEYWORDS@, keyword_in(lower@));
    }
    None
}

/// The entry's schema.org type equals `t` up to ASCII case.
pub open spec fn schema_type_is(t: Seq<char>) -> spec_fn((&'static str, &'static str)) -> bool {
    |kv: (&'static str, &'static str)| eq_ascii_nocase(t, kv.0@)
}

/// The industry of the first schema.org type in the table equal to `t` up to ASCII case.
pub open spec fn industry_of_type(t: Seq<char>) -> Option<Seq<char>> {
    match first_such(INDUSTRY_MAP@, schema_type_is(t)) {
        Some(kv) => Some(kv.1@),
        None => None,
    }
}

/// The industry that a schema.org business type belongs to.
pub fn industry_for_type(t: &str) -> (r: Option<String>)
    ensures
        r.deep_view() == industry_of_type(t@),
{
    let mut i: usize = 0;
    while i < 38
        invariant
            i <= 38,
            forall|j: int| 0 <= j < i ==> !schema_type_is(t@)(#[trigger] INDUSTRY_MAP@[j]),
        decreases 38 - i,
    {
        let (schema_type, industry) = INDUSTRY_MAP[i];
        if text_eq_ignore_ascii_case(t, schema_type) {
            proof {
                lemma_find_first_at(INDUSTRY_MAP@, schema_type_is(t@), i as int);
            }
            return Some(industry.to_owned());
        }
        i += 1;
    }
    proof {
        lemma_find_first_none(INDUSTRY_MAP@, schema_type_is(t@));
    }
    None
}

// ---------------------------------------------------------------------------
// Name
// ---------------------------------------------------------------------------

/// The characters that separate a business name from the rest of a page title.
pub open spec fn is_title_separator(c: char) -> bool {
    c == '|' || c == '-' || c == '\u{2013}' || c == '\u{2014}'
}

/// The separator predicate.
pub open spec fn title_separator() -> spec_fn(char) -> bool {
    |c: char| is_title_separator(c)
}

/// The part of a title before its first separator.
pub open spec fn first_piece(title: Seq<char>) -> Seq<char> {
    match find_first(title, title_separator()) {
        Some(k) => title.take(k),
        None => title,
    }
}

/// The business name: the trimmed part of the page title before its first
/// separator, when that is not empty.
pub open spec fn extracted_name(html: Seq<char>) -> Option<Seq<char>> {
    match regex_first_captures(TITLE_PATTERN@, html) {
        Some(Some(g)) => match capture_group(g, 1) {
            Some(title) => {
                let n = trimmed(first_piece(title));
                if n.len() == 0 {
                    None
                } else {
                    Some(n)
                }
            },
            None => None,
        },
        _ => None,
    }
}

fn first_piece_of(title: &str) -> (r: Vec<char>)
    ensures
        r@ == first_piece(title@),
{
    let v = chars_of(title);
    let mut i: usize = 0;
    while i < v.len()
        invariant
            i <= v.len(),
            v@ == title@,
            forall|j: int| 0 <= j < i ==> !title_separator()(#[trigger] v@[j]),
        decreases v.len() - i,
    {
        let c = v[i];
        if c == '|' || c == '-' || c == '\u{2013}' || c == '\u{2014}' {
            proof {
                lemma_find_first_at(v@, title_separator(), i as int);
            }
            let mut r: Vec<char> = Vec::new();
            let mut k: usize = 0;
            while k < i
                invariant
                    k <= i < v.len(),
                    r@ == v@.take(k as int),
                decreases i - k,
            {
                r.push(v[k]);
                assert(v@.take(k + 1) =~= v@.take(k as int).push(v@[k as int]));
                k += 1;
            }
            return r;
        }
        i += 1;
    }
    proof {
        lemma_find_first_none(v@, title_separator());
    }
    v
}

/// A title separator is one of `|`, `-`, `–` and `—`.
pub open spec fn separates_title(c: char) -> bool {
    c == '|' || c == '-' || c == '\u{2013}' || c == '\u{2014}'
}

/// The name taken from a title `x`, a separator, then `y` (where `x` holds no
/// separator) is `x`: whatever follows the first `|`, `-`, `–` or `—` is dropped.
pub proof fn lemma_title_cut_at_first_separator(x: Seq<char>, sep: char, y: Seq<char>)
    requires
        separates_title(sep),
        forall|k: int| 0 <= k < x.len() ==> !separates_title(#[trigger] x[k]),
    ensures
        first_piece(x + seq![sep] + y) == x,
{
    let t = x + seq![sep] + y;
    assert forall|j: int| 0 <= j < x.len() implies !title_separator()(#[trigger] t[j]) by {
        assert(t[j] == x[j]);
    }
    assert(t[x.len() as int] == sep);
    lemma_find_first_at(t, title_separator(), x.len() as int);
    assert(t.take(x.len() as int) =~= x);
}

/// A title without any separator is taken whole.
pub proof fn lemma_title_without_separator(t: Seq<char>)
    requires
        forall|k: int| 0 <= k < t.len() ==> !separates_title(#[trigger] t[k]),
    ensures
        first_piece(t) == t,
{
    assert forall|j: int| 0 <= j < t.len() implies !title_separator()(#[trigger] t[j]) by {}
    lemma_find_first_none(t, title_separator());
}

/// When the page title (group 1 of the title pattern) is `x`, a separator, then
/// `y`, with no separator in `x` and `x` not blank, the business name found on
/// the page is `x` trimmed.
pub proof fn lemma_name_from_title(html: Seq<char>, groups: Seq<Option<Seq<char>>>, x: Seq<char>, sep: char, y: Seq<char>)
    requires
        regex_first_captures(TITLE_PATTERN@, html) == Some(Some(groups)),
        capture_group(groups, 1) == Some(x + seq![sep] + y),
        separates_title(sep),
        forall|k: int| 0 <= k < x.len() ==> !separates_title(#[trigger] x[k]),
        trimmed(x).len() > 0,
    ensures
        extracted_name(html) == Some(trimmed(x)),
{
    lemma_title_cut_at_first_separator(x, sep, y);
}

/// The business name as the page title shows it.
pub fn extract_name(html: &str) -> (r: Option<String>)
    ensures
        r.deep_view() == extracted_name(html@),
{
    let groups = match regex_captures(TITLE_PATTERN, html) {
        Some(Some(g)) => g,
        _ => return None,
    };
    let title = match group_of(&groups, 1) {
        Some(t) => t,
        None => return None,
    };
    let piece = first_piece_of(title.as_str());
    let name = trim_chars(&piece);
    if name.len() == 0 {
        None
    } else {
        Some(string_of(&name))
    }
}

// ---------------------------------------------------------------------------
// JSON-LD
// ---------------------------------------------------------------------------

/// One JSON-LD script element of a page, as read by the JSON parser.
pub enum JsonLdBlock {
    /// The element matched but its body group did not take part.
    MissingBody,
    /// The body is not JSON.
    Malformed,
    /// The body, parsed.
    Parsed(JsonValue),
}

/// The bodies of the JSON-LD script elements of `html`, in page order
/// (`None` for an element whose body group took no part), or `None` when the
/// pattern does not compile.
pub open spec fn json_ld_bodies(html: Seq<char>) -> Option<Seq<Option<Seq<char>>>> {
    match regex_all_captures(JSON_LD_PATTERN@, html) {
        Some(caps) => Some(caps.map_values(|g: Seq<Option<Seq<char>>>| capture_group(g, 1))),
        None => None,
    }
}

/// The bodies of the JSON-LD script elements of a page, for the JSON parser.
pub fn json_ld_blocks(html: &str) -> (r: Option<Vec<Option<String>>>)
    ensures
        r.deep_view() == json_ld_bodies(html@),
{
    let caps = match regex_captures_all(JSON_LD_PATTERN, html) {
        Some(c) => c,
        None => return None,
    };
    let ghost cv = caps.deep_view();
    let mut out: Vec<Option<String>> = Vec::new();
    let mut i: usize = 0;
    while i < caps.len()
        invariant
            i <= caps.len(),
            cv == caps.deep_view(),
            cv.len() == caps.len(),
            out.deep_view() =~= cv.take(i as int).map_values(|g: Seq<Option<Seq<char>>>| capture_group(g, 1)),
        decreases caps.len() - i,
    {
        let b = group_of(&caps[i], 1);
        let ghost before = out.deep_view();
        assert(cv[i as int] == caps[i as int].deep_view());
        out.push(b);
        assert(out.deep_view() =~= before.push(capture_group(cv[i as int], 1)));
        assert(cv.take(i + 1) =~= cv.take(i as int).push(cv[i as int]));
        i += 1;
    }
    assert(cv.take(caps.len() as int) =~= cv);
    Some(out)
}

/// The `@type` of a JSON value, when it is a string.
pub open spec fn type_text(v: JsonValue) -> Option<Seq<char>> {
    json_text(json_get(v, "@type"@))
}

/// The organisation-type predicate "equal to `t` up to ASCII case".
pub open spec fn org_type_named(t: Seq<char>) -> spec_fn(&'static str) -> bool {
    |o: &'static str| eq_ascii_nocase(o@, t)
}

/// A JSON value whose `@type` is one of the organisation types.
pub open spec fn is_org(v: JsonValue) -> bool {
    match type_text(v) {
        Some(t) => find_first(ORG_TYPES@, org_type_named(t)) is Some,
        None => false,
    }
}

/// The organisation predicate on JSON values.
pub open spec fn org_record() -> spec_fn(JsonValue) -> bool {
    |v: JsonValue| is_org(v)
}

/// What one JSON-LD element decides: `None` to look further; otherwise the
/// answer, which is no record when the element has no body.
pub open spec fn block_outcome(b: JsonLdBlock) -> Option<Option<JsonValue>> {
    match b {
        JsonLdBlock::MissingBody => Some(None),
        JsonLdBlock::Malformed => None,
        JsonLdBlock::Parsed(json) => match json_get(json, "@graph"@) {
            Some(JsonValue::Array(items)) => match first_such(items@, org_record()) {
                Some(item) => Some(Some(item)),
                None => None,
            },
            _ => if is_org(json) {
                Some(Some(json))
            } else {
                None
            },
        },
    }
}

/// The predicate "this element decides".
pub open spec fn decisive() -> spec_fn(JsonLdBlock) -> bool {
    |b: JsonLdBlock| block_outcome(b) is Some
}

/// The organisation record of a page: the answer of the first deciding element.
pub open spec fn selected_record(blocks: Seq<JsonLdBlock>) -> Option<JsonValue> {
    match first_such(blocks, decisive()) {
        Some(b) => block_outcome(b).unwrap(),
        None => None,
    }
}

/// Whether a JSON value is an organisation record.
pub fn is_org_record(v: &JsonValue) -> (r: bool)
    ensures
        r == is_org(*v),
{
    let t = match v.get("@type") {
        Some(tv) => match tv.as_text() {
            Some(s) => s,
            None => return false,
        },
        None => return false,
    };
    let mut i: usize = 0;
    while i < 14
        invariant
            i <= 14,
            type_text(*v) == Some(t@),
            forall|j: int| 0 <= j < i ==> !org_type_named(t@)(#[trigger] ORG_TYPES@[j]),
        decreases 14 - i,
    {
        if text_eq_ignore_ascii_case(ORG_TYPES[i], t.as_str()) {
            proof {
                lemma_find_first_at(ORG_TYPES@, org_type_named(t@), i as int);
            }
            return true;
        }
        i += 1;
    }
    proof {
        lemma_find_first_none(ORG_TYPES@, org_type_named(t@));
    }
    false
}

/// The position of the first organisation record among `items`.
fn first_org_position(items: &Vec<JsonValue>) -> (r: Option<usize>)
    ensures
        match r {
            Some(i) => i < items.len() && first_such(items@, org_record()) == Some(items@[i as int]),
            None => first_such(items@, org_record()) is None,
        },
{
    let mut i: usize = 0;
    while i < items.len()
        invariant
            i <= items.len(),
            forall|j: int| 0 <= j < i ==> !org_record()(#[trigger] items@[j]),
        decreases items.len() - i,
    {
        if is_org_record(&items[i]) {
            proof {
                lemma_find_first_at(items@, org_record(), i as int);
            }
            return Some(i);
        }
        i += 1;
    }
    proof {
        lemma_find_first_none(items@, org_record());
    }
    None
}

/// What one element decides (see `block_outcome`).
fn block_decision(b: &JsonLdBlock) -> (r: Option<Option<&JsonValue>>)
    ensures
        match r {
            Some(Some(v)) => block_outcome(*b) == Some(Some(*v)),
            Some(None) => block_outcome(*b) == Some(None::<JsonValue>),
            None => block_outcome(*b) is None,
        },
{
    match b {
        JsonLdBlock::MissingBody => Some(None),
        JsonLdBlock::Malformed => None,
        JsonLdBlock::Parsed(json) => match json.get("@graph") {
            Some(JsonValue::Array(items)) => match first_org_position(items) {
                Some(i) => Some(Some(&items[i])),
                None => None,
            },
            _ => if is_org_record(json) {
                Some(Some(json))
            } else {
                None
            },
        },
    }
}

/// The organisation record of a page, from its parsed JSON-LD elements in page order.
pub fn select_json_ld(blocks: &Vec<JsonLdBlock>) -> (r: Option<&JsonValue>)
    ensures
        match r {
            Some(v) => selected_record(blocks@) == Some(*v),
            None => selected_record(blocks@) is None,
        },
{
    let mut i: usize = 0;
    while i < blocks.len()
        invariant
            i <= blocks.len(),
            forall|j: int| 0 <= j < i ==> !decisive()(#[trigger] blocks@[j]),
        decreases blocks.len() - i,
    {
        match block_decision(&blocks[i]) {
            Some(answer) => {
                proof {
                    lemma_find_first_at(blocks@, decisive(), i as int);
                }
                return answer;
            },
            None => {},
        }
        i += 1;
    }
    proof {
        lemma_find_first_none(blocks@, decisive());
    }
    None
}

// ---------------------------------------------------------------------------
// Putting it together
// ---------------------------------------------------------------------------

/// The record that a reference points to.
pub open spec fn owned_record(record: Option<&JsonValue>) -> Option<JsonValue> {
    match record {
        Some(v) => Some(*v),
        None => None,
    }
}

/// A string member of the record, if there is a record.
pub open spec fn record_text(record: Option<JsonValue>, key: Seq<char>) -> Option<Seq<char>> {
    match record {
        Some(v) => json_text(json_get(v, key)),
        None => None,
    }
}

/// A string member of the record's `address` object.
pub open spec fn record_address_text(record: Option<JsonValue>, key: Seq<char>) -> Option<Seq<char>> {
    match record {
        Some(v) => match json_get(v, "address"@) {
            Some(a) => match a {
                JsonValue::Object(_) => json_text(json_get(a, key)),
                _ => None,
            },
            None => None,
        },
        None => None,
    }
}

/// The industry of the record's `@type`.
pub open spec fn record_industry(record: Option<JsonValue>) -> Option<Seq<char>> {
    match record_text(record, "@type"@) {
        Some(t) => industry_of_type(t),
        None => None,
    }
}

/// `a`, or `b` when `a` is missing.
pub open spec fn or_else(a: Option<Seq<char>>, b: Option<Seq<char>>) -> Option<Seq<char>> {
    if a is Some {
        a
    } else {
        b
    }
}

/// The city found: the record's, else the page text's when the record lacks
/// the city or the state.
pub open spec fn scraped_city(record: Option<JsonValue>, html: Seq<char>) -> Option<Seq<char>> {
    let city = record_address_text(record, "addressLocality"@);
    if city is Some {
        city
    } else {
        match extracted_address(html) {
            Some((c, _)) => Some(c),
            None => None,
        }
    }
}

/// The state found: the record's, else the page text's when the record lacks
/// the city or the state.
pub open spec fn scraped_state(record: Option<JsonValue>, html: Seq<char>) -> Option<Seq<char>> {
    let state = record_address_text(record, "addressRegion"@);
    if state is Some {
        state
    } else {
        match extracted_address(html) {
            Some((_, s)) => Some(s),
            None => None,
        }
    }
}

/// The details of a business: each from its JSON-LD record when that has it,
/// else from the page text.
pub fn scrape_data(record: Option<&JsonValue>, html: &str) -> (r: ScrapeData)
    ensures
        r.name.deep_view() == or_else(record_text(owned_record(record), "name"@), extracted_name(html@)),
        r.email.deep_view() == or_else(record_text(owned_record(record), "email"@), extracted_email(html@)),
        r.phone.deep_view() == or_else(record_text(owned_record(record), "telephone"@), extracted_phone(html@)),
        r.city.deep_view() == scraped_city(owned_record(record), html@),
        r.state.deep_view() == scraped_state(owned_record(record), html@),
        r.industry.deep_view() == or_else(record_industry(owned_record(record)), extracted_industry(html@)),
{
    let mut data = ScrapeData { name: None, email: None, phone: None, city: None, state: None, industry: None };
    match record {
        Some(json) => {
            data.name = json.text_of("name");
            data.email = json.text_of("email");
            data.phone = json.text_of("telephone");
            match json.get("address") {
                Some(addr) => match addr {
                    JsonValue::Object(_) => {
                        data.city = addr.text_of("addressLocality");
                        data.state = addr.text_of("addressRegion");
                    },
                    _ => {},
                },
                None => {},
            }
            match json.text_of("@type") {
                Some(t) => {
                    data.industry = industry_for_type(t.as_str());
                },
                None => {},
            }
        },
        None => {},
    }
    if data.email.is_none() {
        data.email = extract_email(html);
    }
    if data.phone.is_none() {
        data.phone = extract_phone(html);
    }
    if data.city.is_none() || data.state.is_none() {
        match extract_address(html) {
            Some((city, state)) => {
                if data.city.is_none() {
                    data.city = Some(city);
                }
                if data.state.is_none() {
                    data.state = Some(state);
                }
            },
            None => {},
        }
    }
    if data.industry.is_none() {
        data.industry = extract_industry(html);
    }
    if data.name.is_none() {
        data.name = extract_name(html);
    }
    data
}

// ---------------------------------------------------------------------------
// From the page to its organisation record
// ---------------------------------------------------------------------------

/// What one JSON-LD body reads as: missing, not JSON, or the parsed value.
pub open spec fn block_of(body: Option<Seq<char>>) -> JsonLdBlock {
    match body {
        None => JsonLdBlock::MissingBody,
        Some(t) => match json_parsed(t) {
            Some(v) => JsonLdBlock::Parsed(v),
            None => JsonLdBlock::Malformed,
        },
    }
}

/// The JSON-LD elements of a page, each body read by the JSON parser, in page
/// order; `None` when the element pattern does not compile.
pub open spec fn page_blocks(html: Seq<char>) -> Option<Seq<JsonLdBlock>> {
    match json_ld_bodies(html) {
        Some(bodies) => Some(bodies.map_values(|b: Option<Seq<char>>| block_of(b))),
        None => None,
    }
}

/// The organisation record of a page, from its JSON-LD elements.
pub open spec fn page_record(html: Seq<char>) -> Option<JsonValue> {
    match page_blocks(html) {
        Some(blocks) => selected_record(blocks),
        None => None,
    }
}

/// Reads one JSON-LD body with the JSON parser.
pub fn read_block(body: Option<String>) -> (r: JsonLdBlock)
    ensures
        r == block_of(body.deep_view()),
{
    match body {
        None => JsonLdBlock::MissingBody,
        Some(t) => match parse_json(t.as_str()) {
            Some(v) => JsonLdBlock::Parsed(v),
            None => JsonLdBlock::Malformed,
        },
    }
}

/// What one element decides, taking the record out of it (see `block_outcome`).
fn take_decision(b: JsonLdBlock) -> (r: Option<Option<JsonValue>>)
    ensures
        r == block_outcome(b),
{
    match b {
        JsonLdBlock::MissingBody => Some(None),
        JsonLdBlock::Malformed => None,
        JsonLdBlock::Parsed(json) => {
            let graph: Option<usize> = match &json {
                JsonValue::Object(members) => match member_position(members, "@graph") {
                    Some(k) => match &members[k].value {
                        JsonValue::Array(_) => Some(k),
                        _ => None,
                    },
                    None => None,
                },
                _ => None,
            };
            match graph {
                Some(k) => match json {
                    JsonValue::Object(members) => {
                        let mut members = members;
                        let member = members.remove(k);
                        match member.value {
                            JsonValue::Array(items) => match first_org_position(&items) {
                                Some(i) => {
                                    let mut items = items;
                                    Some(Some(items.remove(i)))
                                },
                                None => None,
                            },
                            _ => None,
                        }
                    },
                    _ => None,
                },
                None => {
                    if is_org_record(&json) {
                        Some(Some(json))
                    } else {
                        None
                    }
                },
            }
        },
    }
}

/// The organisation record of a page: its JSON-LD elements are found, each
/// body is parsed, and the first element that decides gives the answer.
pub fn json_ld_record(html: &str) -> (r: Option<JsonValue>)
    ensures
        r == page_record(html@),
{
    let bodies = match json_ld_blocks(html) {
        Some(b) => b,
        None => return None,
    };
    let ghost blocks = bodies.deep_view().map_values(|b: Option<Seq<char>>| block_of(b));
    assert(page_blocks(html@) == Some(blocks));
    let mut i: usize = 0;
    while i < bodies.len()
        invariant
            i <= bodies.len(),
            page_blocks(html@) == Some(blocks),
            blocks.len() == bodies.len(),
            blocks == bodies.deep_view().map_values(|b: Option<Seq<char>>| block_of(b)),
            forall|j: int| 0 <= j < i ==> !decisive()(#[trigger] blocks[j]),
        decreases bodies.len() - i,
    {
        let body: Option<String> = match &bodies[i] {
            Some(t) => Some(t.clone()),
            None => None,
        };
        assert(body.deep_view() == bodies.deep_view()[i as int]);
        let block = read_block(body);
        assert(block == blocks[i as int]);
        match take_decision(block) {
            Some(answer) => {
                proof {
                    lemma_find_first_at(blocks, decisive(), i as int);
                }
                return answer;
            },
            None => {},
        }
        i += 1;
    }
    proof {
        lemma_find_first_none(blocks, decisive());
    }
    None
}

/// The details of the business whose page is `html`: `scrape_data` with the
/// page's own JSON-LD organisation record.
pub fn scrape_page(html: &str) -> (r: ScrapeData)
    ensures
        r.name.deep_view() == or_else(record_text(page_record(html@), "name"@), extracted_name(html@)),
        r.email.deep_view() == or_else(record_text(page_record(html@), "email"@), extracted_email(html@)),
        r.phone.deep_view() == or_else(record_text(page_record(html@), "telephone"@), extracted_phone(html@)),
        r.city.deep_view() == scraped_city(page_record(html@), html@),
        r.state.deep_view() == scraped_state(page_record(html@), html@),
        r.industry.deep_view() == or_else(record_industry(page_record(html@)), extracted_industry(html@)),
{
    let record = json_ld_record(html);
    match record {
        Some(v) => scrape_data(Some(&v), html),
        None => scrape_data(None, html),
    }
}

} // verus!
