//! The address of a Buyee vinyl search, filled in from a template.
use vstd::prelude::*;
use crate::collector::{
    draft_base, draft_term, draft_vinyl, target_base_url, vinyl_category_path, CollectorTarget,
    UrlDraft,
};
use crate::text::{replace, replace_all};

verus! {

pub const BUYEE_URL: &'static str = "https://buyee.jp/item/search/query/{{term}}/category/22260";

/// The placeholder that the search term takes the place of.
pub open spec fn term_placeholder() -> Seq<char> {
    "{{term}}"@
}

/// The text of `BUYEE_URL`.
pub open spec fn buyee_url_template() -> Seq<char> {
    "https://buyee.jp/item/search/query/{{term}}/category/22260"@
}

/// The address of the vinyl search for `term`: `BUYEE_URL` with the term in
/// place of its placeholder.
pub fn buyee_search_url(term: &str) -> (r: String)
    ensures
        r@ == replace_all(buyee_url_template(), term_placeholder(), term@),
{
    proof {
        reveal_strlit("{{term}}");
    }
    replace(BUYEE_URL, "{{term}}", term)
}

/// Replacing leaves alone a prefix in which the pattern's first character
/// does not occur.
proof fn lemma_replace_skips_prefix(a: Seq<char>, t: Seq<char>, pat: Seq<char>, rep: Seq<char>)
    requires
        pat.len() > 0,
        forall|i: int| 0 <= i < a.len() ==> a[i] != pat[0],
    ensures
        replace_all(a + t, pat, rep) == a + replace_all(t, pat, rep),
    decreases a.len(),
{
    if a.len() == 0 {
        assert(a + t =~= t);
        assert(a + replace_all(t, pat, rep) =~= replace_all(t, pat, rep));
    } else {
        let s = a + t;
        assert(s[0] == a[0]);
        if s.len() >= pat.len() {
            assert(s.take(pat.len() as int)[0] != pat[0]);
        }
        assert(s.skip(1) =~= a.skip(1) + t);
        lemma_replace_skips_prefix(a.skip(1), t, pat, rep);
        if s.len() < pat.len() {
            assert(s.skip(1).len() < pat.len());
            assert(replace_all(s.skip(1), pat, rep) == s.skip(1));
            assert(s =~= seq![s[0]] + s.skip(1));
        }
        assert(a =~= seq![a[0]] + a.skip(1));
        assert(seq![a[0]] + (a.skip(1) + replace_all(t, pat, rep)) =~= a + replace_all(t, pat,
            rep));
    }
}

/// The vinyl search address for a term is Buyee's base search URL, the
/// term, then the vinyl category path: the URL that the builder gives for the
/// same term with vinyl only, before scrape protection.
pub proof fn lemma_buyee_search_url_layout(term: Seq<char>)
    ensures
        replace_all(buyee_url_template(), term_placeholder(), term) == target_base_url(
            CollectorTarget::Buyee,
        ) + term + vinyl_category_path(),
        replace_all(buyee_url_template(), term_placeholder(), term) == draft_vinyl(
            draft_term(draft_base(UrlDraft { target: CollectorTarget::Buyee, url: Seq::empty() }), term),
            true,
        ).url,
{
    reveal_strlit("https://buyee.jp/item/search/query/{{term}}/category/22260");
    reveal_strlit("https://buyee.jp/item/search/query/");
    reveal_strlit("{{term}}");
    reveal_strlit("/category/22260");
    let base = target_base_url(CollectorTarget::Buyee);
    let pat = term_placeholder();
    let tail = vinyl_category_path();
    assert(buyee_url_template() =~= base + (pat + tail));
    assert forall|i: int| 0 <= i < base.len() implies base[i] != pat[0] by {}
    lemma_replace_skips_prefix(base, pat + tail, pat, term);
    // the placeholder itself
    assert((pat + tail).take(pat.len() as int) =~= pat);
    assert((pat + tail).skip(pat.len() as int) =~= tail);
    // nothing to replace in the tail
    assert forall|i: int| 0 <= i < tail.len() implies tail[i] != pat[0] by {}
    lemma_replace_skips_prefix(tail, Seq::empty(), pat, term);
    assert(tail + Seq::<char>::empty() =~= tail);
    assert(replace_all(Seq::<char>::empty(), pat, term) =~= Seq::<char>::empty());
    assert(base + (term + tail) =~= base + term + tail);
}

} // verus!
