//! What holds of the controller over every state and every reply.

use vstd::prelude::*;
use crate::app::{
    classify, complementary, default_caption, default_suggestions, invalid_name_label,
    matched_flag, matches_caption, monochromatic, no_palette_label, no_palette_marker, palette_flag, primary,
    settled, step, AppState, MsgView, PALETTE_LEN, SUGGESTION_SLOTS,
};
use crate::text::{split_of, trim};

verus! {

/// A search asked for while a request is outstanding changes nothing: the
/// committed query stays as it was and the request stays the only one.
pub proof fn lemma_search_in_flight_is_ignored(s: AppState)
    requires
        s.in_flight,
    ensures
        step(s, MsgView::SearchPokemon) == s,
        step(s, MsgView::SearchPokemon).committed == s.committed,
{
}

/// A palette reply of fifteen codes puts them, in order, into the palette: the
/// first five are the primary group, the next five the complementary group and the
/// last five the monochromatic group.
pub proof fn lemma_palette_reply_fills_palette(s: AppState, data: Seq<char>)
    requires
        split_of(data).len() == PALETTE_LEN,
        data != no_palette_marker(),
    ensures
        ({
            let t = step(s, classify(true, Some((palette_flag(), data))));
            &&& t.colours == split_of(data)
            &&& primary(t.colours) == split_of(data).subrange(0, 5)
            &&& complementary(t.colours) == split_of(data).subrange(5, 10)
            &&& monochromatic(t.colours) == split_of(data).subrange(10, 15)
            &&& t.label == s.committed
            &&& !t.in_flight
        }),
{
}

/// A reply that the name has no palette shows that label and keeps the palette.
pub proof fn lemma_no_palette_keeps_palette(s: AppState)
    ensures
        ({
            let t = step(s, classify(true, Some((palette_flag(), no_palette_marker()))));
            &&& t.label == no_palette_label()
            &&& t.colours == s.colours
            &&& !t.in_flight
        }),
{
}

/// A reply with one to four suggested names fills the first slots with the trimmed
/// names, leaves the others empty and shows the suggestion caption.
pub proof fn lemma_matched_reply_fills_slots(s: AppState, data: Seq<char>)
    requires
        1 <= split_of(data).len() <= SUGGESTION_SLOTS,
    ensures
        ({
            let names = split_of(data);
            let t = step(s, classify(true, Some((matched_flag(), data))));
            &&& t.suggestions.len() == SUGGESTION_SLOTS
            &&& forall|k: int| 0 <= k < names.len() ==> #[trigger] t.suggestions[k] == trim(names[k])
            &&& forall|k: int|
                names.len() <= k < SUGGESTION_SLOTS ==> #[trigger] t.suggestions[k] == Seq::<
                    char,
                >::empty()
            &&& t.caption == matches_caption()
            &&& t.label == invalid_name_label()
            &&& !t.in_flight
        }),
{
    reveal_strlit("MATCHED");
    reveal_strlit("PALETTE");
    assert(matched_flag() != palette_flag()) by {
        assert(matched_flag()[0] != palette_flag()[0]);
    }
}

/// A failed exchange, an unreadable reply, or a palette reply that does not hold
/// exactly fifteen codes ends as a failed lookup: the invalid-name label with the
/// default suggestions, and the palette untouched.
pub proof fn lemma_failed_lookup_resets(
    s: AppState,
    success: bool,
    body: Option<(Seq<char>, Seq<char>)>,
)
    requires
        !success || match body {
            None => true,
            Some((flag, data)) => flag == palette_flag() && data != no_palette_marker()
                && split_of(data).len() != PALETTE_LEN,
        },
    ensures
        classify(success, body) == MsgView::FetchPokemonFailed,
        step(s, classify(success, body)) == settled(s, invalid_name_label()),
        step(s, classify(success, body)).suggestions == default_suggestions(),
        step(s, classify(success, body)).caption == default_caption(),
        step(s, classify(success, body)).colours == s.colours,
{
}

} // verus!
