//! The stages a customer goes through, their labels and badge colours, and the
//! tally of customers per stage.
use vstd::prelude::*;

use crate::models::{Customer, StatusCount};
use crate::search::{find_first, lemma_find_first_at, lemma_find_first_none, lemma_find_first_spec};
use crate::text::text_eq;

verus! {

/// The statuses a customer can have, in pipeline order.
pub const STATUSES: [&'static str; 4] = ["new", "contacted", "callback", "follow_up"];

/// The display label of each status.
pub const STATUS_LABELS: [&'static str; 4] = ["New", "Contacted", "Callback", "Follow Up"];

/// The badge colours of each status.
pub const STATUS_CLASSES: [&'static str; 4] = [
    "bg-green-100 text-green-800 dark:bg-green-900/40 dark:text-green-300",
    "bg-blue-100 text-blue-800 dark:bg-blue-900/40 dark:text-blue-300",
    "bg-yellow-100 text-yellow-800 dark:bg-yellow-900/40 dark:text-yellow-300",
    "bg-purple-100 text-purple-800 dark:bg-purple-900/40 dark:text-purple-300",
];

/// The label of a status that is none of the known ones.
pub const UNKNOWN_LABEL: &'static str = "Unknown";

/// The badge colours of a status that is none of the known ones.
pub const UNKNOWN_CLASS: &'static str = "bg-gray-100 text-gray-800 dark:bg-gray-900/40 dark:text-gray-300";

/// The predicate "is the status `s`".
pub open spec fn status_named(s: Seq<char>) -> spec_fn(&'static str) -> bool {
    |x: &'static str| x@ == s
}

/// The position of `s` among the known statuses.
pub open spec fn status_index(s: Seq<char>) -> Option<int> {
    find_first(STATUSES@, status_named(s))
}

/// `s` is one of the known statuses.
pub open spec fn is_known_status(s: Seq<char>) -> bool {
    status_index(s) is Some
}

/// The display label of a status.
pub open spec fn status_label_of(s: Seq<char>) -> Seq<char> {
    match status_index(s) {
        Some(k) => STATUS_LABELS@[k]@,
        None => UNKNOWN_LABEL@,
    }
}

/// The badge colours of a status.
pub open spec fn status_class_of(s: Seq<char>) -> Seq<char> {
    match status_index(s) {
        Some(k) => STATUS_CLASSES@[k]@,
        None => UNKNOWN_CLASS@,
    }
}

/// The position of `status` among the known statuses.
pub fn find_status(status: &str) -> (r: Option<usize>)
    ensures
        match r {
            Some(k) => status_index(status@) == Some(k as int) && k < 4,
            None => status_index(status@) is None,
        },
{
    let mut i: usize = 0;
    while i < 4
        invariant
            i <= 4,
            forall|j: int| 0 <= j < i ==> !status_named(status@)(#[trigger] STATUSES@[j]),
        decreases 4 - i,
    {
        if text_eq(STATUSES[i], status) {
            proof {
                lemma_find_first_at(STATUSES@, status_named(status@), i as int);
            }
            return Some(i);
        }
        i += 1;
    }
    proof {
        lemma_find_first_none(STATUSES@, status_named(status@));
    }
    None
}

/// Whether `status` is one of the known statuses.
pub fn is_valid_status(status: &str) -> (r: bool)
    ensures
        r == is_known_status(status@),
{
    find_status(status).is_some()
}

/// The display label of a status.
pub fn status_label(status: &str) -> (r: &'static str)
    ensures
        r@ == status_label_of(status@),
{
    match find_status(status) {
        Some(k) => STATUS_LABELS[k],
        None => UNKNOWN_LABEL,
    }
}

/// The badge colours of a status.
pub fn status_class(status: &str) -> (r: &'static str)
    ensures
        r@ == status_class_of(status@),
{
    match find_status(status) {
        Some(k) => STATUS_CLASSES[k],
        None => UNKNOWN_CLASS,
    }
}

/// The opening of a status badge, up to its colour classes.
pub const BADGE_OPEN: &'static str = r#"<span class="px-2 inline-flex text-xs leading-5 font-semibold rounded-full "#;

/// Between the colour classes and the label of a badge.
pub const BADGE_MIDDLE: &'static str = r#"">"#;

/// The end of a badge.
pub const BADGE_CLOSE: &'static str = "</span>";

/// The HTML badge that shows a status.
pub open spec fn badge_html(status: Seq<char>) -> Seq<char> {
    BADGE_OPEN@ + status_class_of(status) + BADGE_MIDDLE@ + status_label_of(status) + BADGE_CLOSE@
}

/// The HTML badge that shows a status.
pub fn status_badge_for(status: &str) -> (r: String)
    ensures
        r@ == badge_html(status@),
{
    let mut r = BADGE_OPEN.to_owned();
    r.append(status_class(status));
    r.append(BADGE_MIDDLE);
    r.append(status_label(status));
    r.append(BADGE_CLOSE);
    r
}

/// The HTML badge that shows a customer's status.
pub fn status_badge(customer: &Customer) -> (r: String)
    ensures
        r@ == badge_html(customer.status@),
{
    status_badge_for(customer.status.as_str())
}

/// A known status is labelled with its own label, an unknown one as `Unknown`,
/// and no two known statuses share a label or a colour.
pub proof fn lemma_status_labels(s: Seq<char>, t: Seq<char>)
    ensures
        is_known_status(s) <==> status_label_of(s) != UNKNOWN_LABEL@,
        is_known_status(s) <==> status_class_of(s) != UNKNOWN_CLASS@,
        is_known_status(s) && is_known_status(t) && s != t ==> status_label_of(s) != status_label_of(t)
            && status_class_of(s) != status_class_of(t),
{
    reveal_strlit("New");
    reveal_strlit("Contacted");
    reveal_strlit("Callback");
    reveal_strlit("Follow Up");
    reveal_strlit("Unknown");
    reveal_strlit("bg-green-100 text-green-800 dark:bg-green-900/40 dark:text-green-300");
    reveal_strlit("bg-blue-100 text-blue-800 dark:bg-blue-900/40 dark:text-blue-300");
    reveal_strlit("bg-yellow-100 text-yellow-800 dark:bg-yellow-900/40 dark:text-yellow-300");
    reveal_strlit("bg-purple-100 text-purple-800 dark:bg-purple-900/40 dark:text-purple-300");
    reveal_strlit("bg-gray-100 text-gray-800 dark:bg-gray-900/40 dark:text-gray-300");
    lemma_find_first_spec(STATUSES@, status_named(s));
    lemma_find_first_spec(STATUSES@, status_named(t));
    let l0 = "New"@;
    let l1 = "Contacted"@;
    let l2 = "Callback"@;
    let l3 = "Follow Up"@;
    let lu = "Unknown"@;
    assert(l0 != lu && l1 != lu && l2 != lu && l3 != lu) by {
        assert(l0.len() != lu.len());
        assert(l1[0] != lu[0]);
        assert(l2[0] != lu[0]);
        assert(l3[0] != lu[0]);
    }
    assert(l0 != l1 && l0 != l2 && l0 != l3 && l1 != l2 && l1 != l3 && l2 != l3) by {
        assert(l0[0] != l1[0]);
        assert(l0[0] != l2[0]);
        assert(l0[0] != l3[0]);
        assert(l1[2] != l2[2]);
        assert(l1[0] != l3[0]);
        assert(l2[0] != l3[0]);
    }
    let c0 = STATUS_CLASSES@[0]@;
    let c1 = STATUS_CLASSES@[1]@;
    let c2 = STATUS_CLASSES@[2]@;
    let c3 = STATUS_CLASSES@[3]@;
    let cu = UNKNOWN_CLASS@;
    assert(c0[4] != c1[4] && c0[4] != c2[4] && c0[4] != c3[4] && c0[5] != cu[5]);
    assert(c1[4] != c2[4] && c1[4] != c3[4] && c1[4] != cu[4]);
    assert(c2[4] != c3[4] && c2[4] != cu[4] && c3[4] != cu[4]);
}

// ---------------------------------------------------------------------------
// Tally of customers per status
// ---------------------------------------------------------------------------

/// The last count that `rows` give for `status`, as a map keyed by status
/// keeps it.
pub open spec fn last_count(rows: Seq<StatusCount>, status: Seq<char>) -> Option<i64>
    decreases rows.len(),
{
    if rows.len() == 0 {
        None
    } else if rows.last().status@ == status {
        Some(rows.last().count)
    } else {
        last_count(rows.drop_last(), status)
    }
}

/// Row `i` is the last row for its status.
pub open spec fn is_last_row(rows: Seq<StatusCount>, i: int) -> bool {
    forall|j: int| i < j < rows.len() ==> rows[j].status@ != rows[i].status@
}

/// The sum of the counts of the rows before `n` that are the last for their status.
pub open spec fn kept_sum(rows: Seq<StatusCount>, n: int) -> int
    decreases n,
{
    if n <= 0 {
        0
    } else {
        kept_sum(rows, n - 1) + if is_last_row(rows, n - 1) {
            rows[n - 1].count as int
        } else {
            0
        }
    }
}

/// The total of a tally: one count per status, the last one given.
pub open spec fn tally_total(rows: Seq<StatusCount>) -> int {
    kept_sum(rows, rows.len() as int)
}

/// The count of a status in a tally, zero when the rows do not give one.
pub open spec fn count_or_zero(rows: Seq<StatusCount>, status: Seq<char>) -> i64 {
    match last_count(rows, status) {
        Some(c) => c,
        None => 0,
    }
}

/// The number of customers at each stage, and in all.
pub struct StatusTally {
    pub total: usize,
    pub new_count: i64,
    pub contacted_count: i64,
    pub callback_count: i64,
    pub follow_up_count: i64,
}

fn count_for(rows: &Vec<StatusCount>, status: &str) -> (r: i64)
    ensures
        r == count_or_zero(rows@, status@),
{
    let mut found: Option<i64> = None;
    let mut i: usize = 0;
    while i < rows.len()
        invariant
            i <= rows.len(),
            found == last_count(rows@.take(i as int), status@),
        decreases rows.len() - i,
    {
        assert(rows@.take(i + 1).drop_last() =~= rows@.take(i as int));
        if text_eq(rows[i].status.as_str(), status) {
            found = Some(rows[i].count);
        }
        i += 1;
    }
    assert(rows@.take(rows.len() as int) =~= rows@);
    match found {
        Some(c) => c,
        None => 0,
    }
}

fn row_is_last(rows: &Vec<StatusCount>, i: usize) -> (r: bool)
    requires
        i < rows.len(),
    ensures
        r == is_last_row(rows@, i as int),
{
    let mut j = i + 1;
    while j < rows.len()
        invariant
            i < j <= rows.len(),
            forall|k: int| i < k < j ==> rows@[k].status@ != rows@[i as int].status@,
        decreases rows.len() - j,
    {
        if text_eq(rows[j].status.as_str(), rows[i].status.as_str()) {
            return false;
        }
        j += 1;
    }
    true
}

proof fn lemma_kept_sum_bounds(rows: Seq<StatusCount>, n: int)
    requires
        0 <= n <= rows.len(),
    ensures
        -n * 0x8000_0000_0000_0000 <= kept_sum(rows, n) <= n * 0x8000_0000_0000_0000,
    decreases n,
{
    if n > 0 {
        lemma_kept_sum_bounds(rows, n - 1);
    }
}

/// Tallies the per-status counts the database reports. When a status occurs in
/// more than one row the last row counts, as in a map filled in row order.
/// `None` when the total does not fit in an `i64`.
pub fn tally_statuses(rows: &Vec<StatusCount>) -> (r: Option<StatusTally>)
    ensures
        r is Some <==> i64::MIN <= tally_total(rows@) <= i64::MAX,
        r matches Some(t) ==> {
            &&& t.total == (tally_total(rows@) as i64) as usize
            &&& t.new_count == count_or_zero(rows@, "new"@)
            &&& t.contacted_count == count_or_zero(rows@, "contacted"@)
            &&& t.callback_count == count_or_zero(rows@, "callback"@)
            &&& t.follow_up_count == count_or_zero(rows@, "follow_up"@)
        },
{
    let mut sum: i128 = 0;
    let mut i: usize = 0;
    while i < rows.len()
        invariant
            i <= rows.len(),
            rows.len() <= usize::MAX,
            sum == kept_sum(rows@, i as int),
        decreases rows.len() - i,
    {
        proof {
            lemma_kept_sum_bounds(rows@, i as int + 1);
            assert(i + 1 <= 0x1_0000_0000_0000_0000);
            assert((i + 1) * 0x8000_0000_0000_0000 <= 0x1_0000_0000_0000_0000 * 0x8000_0000_0000_0000)
                by (nonlinear_arith)
                requires
                    i + 1 <= 0x1_0000_0000_0000_0000,
            ;
        }
        if row_is_last(rows, i) {
            sum = sum + rows[i].count as i128;
        }
        i += 1;
    }
    if sum < i64::MIN as i128 || sum > i64::MAX as i128 {
        return None;
    }
    let total64 = sum as i64;
    Some(
        StatusTally {
            total: total64 as usize,
            new_count: count_for(rows, "new"),
            contacted_count: count_for(rows, "contacted"),
            callback_count: count_for(rows, "callback"),
            follow_up_count: count_for(rows, "follow_up"),
        },
    )
}

} // verus!
