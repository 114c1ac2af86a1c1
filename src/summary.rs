//! The summary record and the rules that fill it from a document's text.

use vstd::prelude::*;

use crate::outside::{find_all, is_white, lower_of, lowercase, pattern_matches, push_char, white};
use crate::text::{chars_of, occurs, occurs_in};

verus! {

/// Dates as `D/M/Y` or `Y/M/D` (with `/` or `-`), or as "Feb 28, 2024".
pub const DATE_PATTERN: &'static str = "\\b\\d{1,2}[/-]\\d{1,2}[/-]\\d{2,4}\\b|\\b\\d{4}[/-]\\d{1,2}[/-]\\d{1,2}\\b|\\b(?:Jan|Feb|Mar|Apr|May|Jun|Jul|Aug|Sep|Oct|Nov|Dec)[a-z]*\\s+\\d{1,2},?\\s+\\d{4}\\b";

/// Rupee amounts, or digit groups followed by a unit word in any case.
pub const AMOUNT_PATTERN: &'static str = "\u{20b9}\\s*[\\d,]+(?:\\.\\d{2})?|\\b\\d{1,3}(?:,\\d{3})*(?:\\.\\d{2})?\\s*(?i:lakh|crore|thousand|million|billion)\\b";

/// E-mail addresses, or Indian mobile numbers with an optional `+91` or `0`.
pub const CONTACT_PATTERN: &'static str = "\\b[A-Za-z0-9._%+-]+@[A-Za-z0-9.-]+\\.[A-Za-z]{2,}\\b|\\b(?:\\+91|0)?[6-9]\\d{9}\\b";

pub const DEADLINES_LABEL: &'static str = "Deadlines found: ";
pub const DEADLINES_ACTION: &'static str = "Review submission deadlines and plan accordingly";
pub const AMOUNTS_LABEL: &'static str = "Financial values: ";
pub const AMOUNTS_ACTION: &'static str = "Verify budget allocation and financial requirements";
pub const ELIGIBILITY_NOTE: &'static str = "Eligibility criteria mentioned in document";
pub const ELIGIBILITY_ACTION: &'static str = "Review eligibility requirements and ensure compliance";
pub const CONTACTS_LABEL: &'static str = "Contact information: ";
pub const CONTACTS_ACTION: &'static str = "Save contact details for inquiries";
pub const PROCUREMENT_NOTE: &'static str = "Procurement/tender document identified";
pub const PROCUREMENT_ACTION: &'static str = "Review procurement process and requirements";
pub const FALLBACK_SUMMARY: &'static str = "Document processed successfully";
pub const LIST_SEPARATOR: &'static str = ", ";

/// The structured summary of one document.
pub struct SummaryResult {
    pub short_summary: String,
    pub relevance_to_officials: Vec<String>,
    pub action_items: Vec<String>,
    pub confidence_estimate: String,
}

/// A request to summarize one document's text.
pub struct MockSummaryRequest {
    pub text: String,
}

/// The mathematical model of a `SummaryResult`.
pub struct SummaryView {
    pub short_summary: Seq<char>,
    pub relevance_to_officials: Seq<Seq<char>>,
    pub action_items: Seq<Seq<char>>,
    pub confidence_estimate: Seq<char>,
}

/// The character sequences of a list of strings.
pub open spec fn texts(v: Seq<String>) -> Seq<Seq<char>> {
    v.map_values(|s: String| s@)
}

impl View for SummaryResult {
    type V = SummaryView;

    open spec fn view(&self) -> SummaryView {
        SummaryView {
            short_summary: self.short_summary@,
            relevance_to_officials: texts(self.relevance_to_officials@),
            action_items: texts(self.action_items@),
            confidence_estimate: self.confidence_estimate@,
        }
    }
}

/// What the five detectors found in one text.
pub struct Findings {
    pub dates: Seq<Seq<char>>,
    pub amounts: Seq<Seq<char>>,
    pub eligibility: bool,
    pub contacts: Seq<Seq<char>>,
    pub procurement: bool,
}

/// The items separated by `sep`.
pub open spec fn joined(items: Seq<Seq<char>>, sep: Seq<char>) -> Seq<char>
    decreases items.len(),
{
    if items.len() == 0 {
        Seq::empty()
    } else if items.len() == 1 {
        items[0]
    } else {
        joined(items.drop_last(), sep) + sep + items.last()
    }
}

/// Whether one of `words` occurs in `hay`.
pub open spec fn mentions(hay: Seq<char>, words: Seq<Seq<char>>) -> bool {
    exists|i: int| 0 <= i < words.len() && occurs_in(hay, #[trigger] words[i])
}

/// Words, in lowercase, whose presence signals eligibility conditions.
pub open spec fn eligibility_words() -> Seq<Seq<char>> {
    seq!["eligibility"@, "qualification"@, "criteria"@, "requirement"@, "minimum"@]
}

/// Words, in lowercase, whose presence marks a procurement document.
pub open spec fn procurement_words() -> Seq<Seq<char>> {
    seq!["tender"@, "procurement"@, "bid"@, "quotation"@, "rfp"@, "rfq"@]
}

/// One entry `label` followed by the comma-joined `found`, if anything was found.
pub open spec fn listed(label: Seq<char>, found: Seq<Seq<char>>) -> Seq<Seq<char>> {
    if found.len() > 0 {
        seq![label + joined(found, LIST_SEPARATOR@)]
    } else {
        Seq::empty()
    }
}

/// The one entry `note` if `hit`, else nothing.
pub open spec fn noted(note: Seq<char>, hit: bool) -> Seq<Seq<char>> {
    if hit {
        seq![note]
    } else {
        Seq::empty()
    }
}

/// Relevance points, in detector order: dates, money, eligibility, contacts, procurement.
pub open spec fn relevance_of(f: Findings) -> Seq<Seq<char>> {
    listed(DEADLINES_LABEL@, f.dates) + listed(AMOUNTS_LABEL@, f.amounts) + noted(
        ELIGIBILITY_NOTE@,
        f.eligibility,
    ) + listed(CONTACTS_LABEL@, f.contacts) + noted(PROCUREMENT_NOTE@, f.procurement)
}

/// Action items, one for each detector that fired, in the same order.
pub open spec fn actions_of(f: Findings) -> Seq<Seq<char>> {
    noted(DEADLINES_ACTION@, f.dates.len() > 0) + noted(AMOUNTS_ACTION@, f.amounts.len() > 0)
        + noted(ELIGIBILITY_ACTION@, f.eligibility) + noted(CONTACTS_ACTION@, f.contacts.len() > 0)
        + noted(PROCUREMENT_ACTION@, f.procurement)
}

/// "high" for three or more relevance points, "medium" for one or two, "low" for none.
pub open spec fn confidence_label(n: nat) -> Seq<char> {
    if n >= 3 {
        "high"@
    } else if n >= 1 {
        "medium"@
    } else {
        "low"@
    }
}

/// The first `k` pieces of `s` between '.' characters, rejoined with ". ".
pub open spec fn lead_pieces(s: Seq<char>, k: nat) -> Seq<char>
    decreases s.len(),
{
    if s.len() == 0 {
        Seq::empty()
    } else if s[0] == '.' {
        if k <= 1 {
            Seq::empty()
        } else {
            seq!['.', ' '] + lead_pieces(s.drop_first(), (k - 1) as nat)
        }
    } else {
        seq![s[0]] + lead_pieces(s.drop_first(), k)
    }
}

/// `s` without its leading white space.
pub open spec fn trim_start(s: Seq<char>) -> Seq<char>
    decreases s.len(),
{
    if s.len() > 0 && is_white(s[0]) {
        trim_start(s.drop_first())
    } else {
        s
    }
}

/// `s` without its trailing white space.
pub open spec fn trim_end(s: Seq<char>) -> Seq<char>
    decreases s.len(),
{
    if s.len() > 0 && is_white(s.last()) {
        trim_end(s.drop_last())
    } else {
        s
    }
}

/// `s` without leading and trailing white space.
pub open spec fn trimmed(s: Seq<char>) -> Seq<char> {
    trim_end(trim_start(s))
}

/// The first three sentences, trimmed, or the fallback text when that is empty.
pub open spec fn summary_line(text: Seq<char>) -> Seq<char> {
    let t = trimmed(lead_pieces(text, 3));
    if t.len() == 0 {
        FALLBACK_SUMMARY@
    } else {
        t
    }
}

/// The summary of `text` given the detectors' findings `f`.
pub open spec fn summary_from(text: Seq<char>, f: Findings) -> SummaryView {
    SummaryView {
        short_summary: summary_line(text),
        relevance_to_officials: relevance_of(f),
        action_items: actions_of(f),
        confidence_estimate: confidence_label(relevance_of(f).len()),
    }
}

/// What the detectors find in `text`.
pub open spec fn findings_of(text: Seq<char>) -> Findings {
    Findings {
        dates: pattern_matches(DATE_PATTERN@, text),
        amounts: pattern_matches(AMOUNT_PATTERN@, text),
        eligibility: mentions(lower_of(text), eligibility_words()),
        contacts: pattern_matches(CONTACT_PATTERN@, text),
        procurement: mentions(lower_of(text), procurement_words()),
    }
}

/// The summary of `text`.
pub open spec fn summary_of(text: Seq<char>) -> SummaryView {
    summary_from(text, findings_of(text))
}

/// `label` followed by `items` separated by ", ".
fn labelled_list(label: &str, items: &Vec<String>) -> (r: String)
    ensures
        r@ == label@ + joined(texts(items@), LIST_SEPARATOR@),
{
    let mut r = String::from_str(label);
    let mut i: usize = 0;
    while i < items.len()
        invariant
            i <= items.len(),
            r@ == label@ + joined(texts(items@).take(i as int), LIST_SEPARATOR@),
        decreases items.len() - i,
    {
        let ghost before = texts(items@).take(i as int);
        let ghost after = texts(items@).take(i + 1);
        if i > 0 {
            r.append(LIST_SEPARATOR);
        }
        r.append(items[i].as_str());
        proof {
            assert(after.drop_last() =~= before);
            assert(after.last() == items@[i as int]@);
            assert(r@ =~= label@ + joined(after, LIST_SEPARATOR@));
        }
        i = i + 1;
    }
    assert(texts(items@).take(items.len() as int) =~= texts(items@));
    r
}

/// Whether one of `words` occurs in `hay`.
fn mentions_any(hay: &Vec<char>, words: &Vec<&str>) -> (r: bool)
    ensures
        r == mentions(hay@, words@.map_values(|w: &str| w@)),
{
    let ghost ws = words@.map_values(|w: &str| w@);
    let mut i: usize = 0;
    while i < words.len()
        invariant
            i <= words.len(),
            ws == words@.map_values(|w: &str| w@),
            forall|k: int| 0 <= k < i ==> !occurs_in(hay@, #[trigger] ws[k]),
        decreases words.len() - i,
    {
        let w = chars_of(words[i]);
        if occurs(hay, &w) {
            assert(occurs_in(hay@, ws[i as int]));
            return true;
        }
        i = i + 1;
    }
    false
}

/// The label for `n` relevance points.
fn confidence(n: usize) -> (r: String)
    ensures
        r@ == confidence_label(n as nat),
{
    if n >= 3 {
        String::from_str("high")
    } else if n >= 1 {
        String::from_str("medium")
    } else {
        String::from_str("low")
    }
}

/// The first three '.'-separated pieces of `s`, rejoined with ". ".
fn lead_part(s: &Vec<char>) -> (r: Vec<char>)
    ensures
        r@ == lead_pieces(s@, 3),
{
    let n = s.len();
    let mut r: Vec<char> = Vec::new();
    let mut k: usize = 3;
    let mut i: usize = 0;
    assert(s@.subrange(0, n as int) =~= s@);
    while i < n
        invariant
            n == s.len(),
            i <= n,
            1 <= k <= 3,
            r@ + lead_pieces(s@.subrange(i as int, n as int), k as nat) == lead_pieces(s@, 3),
        decreases n - i,
    {
        let ghost rest = s@.subrange(i as int, n as int);
        let ghost next = s@.subrange(i + 1, n as int);
        let ghost r0 = r@;
        assert(rest.drop_first() =~= next);
        assert(rest[0] == s@[i as int]);
        if s[i] == '.' {
            if k <= 1 {
                assert(r@ + lead_pieces(rest, k as nat) =~= r@);
                return r;
            }
            r.push('.');
            r.push(' ');
            k = k - 1;
            assert(lead_pieces(rest, (k + 1) as nat) == seq!['.', ' '] + lead_pieces(next, k as nat));
            assert(r0 + (seq!['.', ' '] + lead_pieces(next, k as nat)) =~= r@ + lead_pieces(
                next,
                k as nat,
            ));
        } else {
            r.push(s[i]);
            assert(lead_pieces(rest, k as nat) == seq![s@[i as int]] + lead_pieces(next, k as nat));
            assert(r0 + (seq![s@[i as int]] + lead_pieces(next, k as nat)) =~= r@ + lead_pieces(
                next,
                k as nat,
            ));
        }
        i = i + 1;
    }
    assert(r@ + lead_pieces(s@.subrange(n as int, n as int), k as nat) =~= r@);
    r
}

/// The bounds of `s` without its leading and trailing white space.
fn trim_range(s: &Vec<char>) -> (r: (usize, usize))
    ensures
        r.0 <= r.1 <= s.len(),
        s@.subrange(r.0 as int, r.1 as int) == trimmed(s@),
{
    let n = s.len();
    let mut i: usize = 0;
    assert(s@.subrange(0, n as int) =~= s@);
    while i < n && white(s[i])
        invariant
            n == s.len(),
            i <= n,
            trim_start(s@.subrange(i as int, n as int)) == trim_start(s@),
        decreases n - i,
    {
        assert(s@.subrange(i as int, n as int).drop_first() =~= s@.subrange(i + 1, n as int));
        i = i + 1;
    }
    let mut j: usize = n;
    while j > i && white(s[j - 1])
        invariant
            n == s.len(),
            i <= j <= n,
            trim_end(s@.subrange(i as int, j as int)) == trim_end(s@.subrange(i as int, n as int)),
        decreases j - i,
    {
        assert(s@.subrange(i as int, j as int).drop_last() =~= s@.subrange(i as int, j - 1));
        j = j - 1;
    }
    (i, j)
}

/// The characters `s[from..to]` as a `String`.
fn string_of(s: &Vec<char>, from: usize, to: usize) -> (r: String)
    requires
        from <= to <= s.len(),
    ensures
        r@ == s@.subrange(from as int, to as int),
{
    let mut r = String::new();
    let mut i: usize = from;
    while i < to
        invariant
            from <= i <= to <= s.len(),
            r@ == s@.subrange(from as int, i as int),
        decreases to - i,
    {
        push_char(&mut r, s[i]);
        assert(r@ =~= s@.subrange(from as int, i + 1));
        i = i + 1;
    }
    r
}

/// The short summary of `text`: its first three sentences, trimmed, or the
/// fallback text when nothing is left.
pub fn summary_text(text: &str) -> (r: String)
    ensures
        r@ == summary_line(text@),
{
    let chars = chars_of(text);
    let lead = lead_part(&chars);
    let (from, to) = trim_range(&lead);
    if from == to {
        String::from_str(FALLBACK_SUMMARY)
    } else {
        string_of(&lead, from, to)
    }
}

/// Appends one relevance point and the action item that goes with it.
fn add_entry(points: &mut Vec<String>, actions: &mut Vec<String>, point: String, action: &str)
    ensures
        texts(final(points)@) == texts(old(points)@).push(point@),
        texts(final(actions)@) == texts(old(actions)@).push(action@),
{
    let ghost p = point@;
    points.push(point);
    actions.push(String::from_str(action));
    assert(texts(points@) =~= texts(old(points)@).push(p));
    assert(texts(actions@) =~= texts(old(actions)@).push(action@));
}

/// The findings given by the matches of the three patterns and by the
/// lowercase form of the text.
pub open spec fn scanned(
    dates: Seq<Seq<char>>,
    amounts: Seq<Seq<char>>,
    lowered: Seq<char>,
    contacts: Seq<Seq<char>>,
) -> Findings {
    Findings {
        dates,
        amounts,
        eligibility: mentions(lowered, eligibility_words()),
        contacts,
        procurement: mentions(lowered, procurement_words()),
    }
}

/// Builds the summary of `text` from what the scans found in it: the date,
/// amount and contact matches, and `lowered`, the text in lowercase, in which
/// the keywords are looked for.
pub fn summarize_scanned(
    text: &str,
    dates: &Vec<String>,
    amounts: &Vec<String>,
    lowered: &str,
    contacts: &Vec<String>,
) -> (r: SummaryResult)
    ensures
        r@ == summary_from(
            text@,
            scanned(texts(dates@), texts(amounts@), lowered@, texts(contacts@)),
        ),
        r@.relevance_to_officials.len() == r@.action_items.len(),
        r@.confidence_estimate == confidence_label(r@.relevance_to_officials.len()),
{
    let ghost f = scanned(texts(dates@), texts(amounts@), lowered@, texts(contacts@));
    let mut points: Vec<String> = Vec::new();
    let mut actions: Vec<String> = Vec::new();
    if dates.len() > 0 {
        add_entry(&mut points, &mut actions, labelled_list(DEADLINES_LABEL, dates), DEADLINES_ACTION);
    }
    let ghost p1 = listed(DEADLINES_LABEL@, f.dates);
    let ghost a1 = noted(DEADLINES_ACTION@, f.dates.len() > 0);
    assert(texts(points@) =~= p1);
    assert(texts(actions@) =~= a1);
    if amounts.len() > 0 {
        add_entry(&mut points, &mut actions, labelled_list(AMOUNTS_LABEL, amounts), AMOUNTS_ACTION);
    }
    let ghost p2 = p1 + listed(AMOUNTS_LABEL@, f.amounts);
    let ghost a2 = a1 + noted(AMOUNTS_ACTION@, f.amounts.len() > 0);
    assert(texts(points@) =~= p2);
    assert(texts(actions@) =~= a2);
    let lowered_chars = chars_of(lowered);
    let eligibility = vec!["eligibility", "qualification", "criteria", "requirement", "minimum"];
    assert(eligibility@.map_values(|w: &str| w@) =~= eligibility_words());
    if mentions_any(&lowered_chars, &eligibility) {
        add_entry(&mut points, &mut actions, String::from_str(ELIGIBILITY_NOTE), ELIGIBILITY_ACTION);
    }
    let ghost p3 = p2 + noted(ELIGIBILITY_NOTE@, f.eligibility);
    let ghost a3 = a2 + noted(ELIGIBILITY_ACTION@, f.eligibility);
    assert(texts(points@) =~= p3);
    assert(texts(actions@) =~= a3);
    if contacts.len() > 0 {
        add_entry(&mut points, &mut actions, labelled_list(CONTACTS_LABEL, contacts), CONTACTS_ACTION);
    }
    let ghost p4 = p3 + listed(CONTACTS_LABEL@, f.contacts);
    let ghost a4 = a3 + noted(CONTACTS_ACTION@, f.contacts.len() > 0);
    assert(texts(points@) =~= p4);
    assert(texts(actions@) =~= a4);
    let procurement = vec!["tender", "procurement", "bid", "quotation", "rfp", "rfq"];
    assert(procurement@.map_values(|w: &str| w@) =~= procurement_words());
    if mentions_any(&lowered_chars, &procurement) {
        add_entry(&mut points, &mut actions, String::from_str(PROCUREMENT_NOTE), PROCUREMENT_ACTION);
    }
    assert(texts(points@) =~= relevance_of(f));
    assert(texts(actions@) =~= actions_of(f));
    let confidence_estimate = confidence(points.len());
    SummaryResult {
        short_summary: summary_text(text),
        relevance_to_officials: points,
        action_items: actions,
        confidence_estimate,
    }
}

/// Summarizes a document: runs the five detectors over `text` and derives the
/// short summary and the confidence label.
pub fn mock_summarize(text: &str) -> (r: SummaryResult)
    ensures
        r@ == summary_of(text@),
        r@.relevance_to_officials.len() == r@.action_items.len(),
        r@.confidence_estimate == confidence_label(r@.relevance_to_officials.len()),
{
    let dates = find_all(DATE_PATTERN, text);
    let amounts = find_all(AMOUNT_PATTERN, text);
    let lowered = lowercase(text);
    let contacts = find_all(CONTACT_PATTERN, text);
    summarize_scanned(text, &dates, &amounts, lowered.as_str(), &contacts)
}

/// Answers a summary request with the rule-based summary of its text.
pub fn summarize_text_mock(request: MockSummaryRequest) -> (r: Result<SummaryResult, String>)
    ensures
        r is Ok,
        r matches Ok(s) ==> s@ == summary_of(request.text@),
{
    Ok(mock_summarize(request.text.as_str()))
}

} // verus!
