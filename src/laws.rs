//! Properties of the summary that hold for every input text.

use vstd::prelude::*;

use crate::summary::{
    actions_of, confidence_label, findings_of, mentions, relevance_of, summary_from, summary_of, Findings,
};
use crate::text::occurs_in;

verus! {

/// Every detector that fires adds exactly one relevance point and one action
/// item, so the two lists of any summary have the same length.
pub proof fn lemma_points_match_actions(text: Seq<char>)
    ensures
        summary_of(text).relevance_to_officials.len() == summary_of(text).action_items.len(),
{
    lemma_findings_in_step(findings_of(text));
}

/// For any findings, one action item stands beside each relevance point.
pub proof fn lemma_findings_in_step(f: Findings)
    ensures
        relevance_of(f).len() == actions_of(f).len(),
{
}

/// The confidence label is "low", "medium" or "high", and depends on the
/// number of relevance points alone.
pub proof fn lemma_confidence_from_count(text: Seq<char>)
    ensures
        summary_of(text).confidence_estimate == confidence_label(
            summary_of(text).relevance_to_officials.len(),
        ),
        summary_of(text).confidence_estimate == "low"@ || summary_of(text).confidence_estimate
            == "medium"@ || summary_of(text).confidence_estimate == "high"@,
{
}

/// Summarizing is a function of the text: equal texts give equal summaries.
pub proof fn lemma_summary_deterministic(a: Seq<char>, b: Seq<char>)
    requires
        a == b,
    ensures
        summary_of(a) == summary_of(b),
{
}

/// Which entries appear depends only on which detectors fired: two sets of
/// findings that fire the same detectors give the same action items, the same
/// number of relevance points and the same confidence label.
pub proof fn lemma_fired_detectors_decide(text: Seq<char>, f: Findings, g: Findings)
    requires
        f.dates.len() > 0 <==> g.dates.len() > 0,
        f.amounts.len() > 0 <==> g.amounts.len() > 0,
        f.eligibility == g.eligibility,
        f.contacts.len() > 0 <==> g.contacts.len() > 0,
        f.procurement == g.procurement,
    ensures
        actions_of(f) == actions_of(g),
        relevance_of(f).len() == relevance_of(g).len(),
        summary_from(text, f).confidence_estimate == summary_from(text, g).confidence_estimate,
{
    assert(actions_of(f) =~= actions_of(g));
}

/// A keyword found in one part of a (lowercase) text is still found when the
/// text is that part joined with another, in either order.
pub proof fn lemma_keyword_survives_reordering(a: Seq<char>, b: Seq<char>, words: Seq<Seq<char>>)
    requires
        mentions(a, words) || mentions(b, words),
    ensures
        mentions(a + b, words),
        mentions(b + a, words),
{
    let i = choose|i: int| 0 <= i < words.len() && (occurs_in(a, #[trigger] words[i]) || occurs_in(b, words[i]));
    let w = words[i];
    if occurs_in(a, w) {
        let k = choose|k: int| 0 <= k && k + w.len() <= a.len() && #[trigger] a.subrange(k, k + w.len()) == w;
        assert((a + b).subrange(k, k + w.len()) =~= w);
        assert((b + a).subrange(b.len() + k, b.len() + k + w.len()) =~= w);
    } else {
        let k = choose|k: int| 0 <= k && k + w.len() <= b.len() && #[trigger] b.subrange(k, k + w.len()) == w;
        assert((a + b).subrange(a.len() + k, a.len() + k + w.len()) =~= w);
        assert((b + a).subrange(k, k + w.len()) =~= w);
    }
    assert(occurs_in(a + b, words[i]));
    assert(occurs_in(b + a, words[i]));
}

} // verus!
