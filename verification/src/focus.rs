//! Where the input focus is, and how it moves.
//!
//! The moves are stated here as functions on plain values; the editor's
//! handlers are held to them.

use crate::beancount::PostingField;
use vstd::prelude::*;

verus! {

/// Number of metadata fields of a transaction.
pub const METADATA_FIELDS: usize = 4;

/// Index of the payee among the metadata fields: where focus starts, and
/// where it returns to when another transaction is shown.
pub const PAYEE_FIELD: usize = 2;

/// The field that has the focus: a metadata field by its index, or a part
/// of a posting by the index of the posting.
#[derive(Debug, Clone, Copy, PartialEq, Eq, Structural)]
pub enum FocusLocation {
    Metadata(usize),
    Posting(usize, PostingField),
}

/// The metadata field after the one at `index`, wrapping at the end.
pub open spec fn next_metadata_field(index: int) -> int {
    (index + 1) % (METADATA_FIELDS as int)
}

/// The metadata field before the one at `index`, wrapping at the start.
pub open spec fn prev_metadata_field(index: int) -> int {
    (index + METADATA_FIELDS - 1) % (METADATA_FIELDS as int)
}

/// The focus of the editor. While focus is on the postings, the metadata
/// field it came from is remembered, and is where it goes back to.
pub struct Focus {
    pub on_postings: bool,
    pub metadata_field: int,
    pub posting: int,
    pub posting_field: PostingField,
}

impl Focus {
    /// The focus of an editor that has just shown a transaction: on the
    /// payee.
    pub open spec fn initial() -> Focus {
        Focus {
            on_postings: false,
            metadata_field: PAYEE_FIELD as int,
            posting: 0,
            posting_field: PostingField::Account,
        }
    }

    /// Whether the focus names a field of a transaction with `postings`
    /// postings.
    pub open spec fn wf(self, postings: int) -> bool {
        &&& 0 <= self.metadata_field < METADATA_FIELDS
        &&& self.on_postings ==> 0 <= self.posting < postings
    }

    /// Left or right along the metadata row.
    pub open spec fn navigate_metadata_field(self, forward: bool) -> Focus {
        Focus {
            metadata_field: if forward {
                next_metadata_field(self.metadata_field)
            } else {
                prev_metadata_field(self.metadata_field)
            },
            ..self
        }
    }

    /// Left or right along the parts of a posting.
    pub open spec fn navigate_posting_field(self, forward: bool) -> Focus {
        Focus { posting_field: self.posting_field.cycle(forward), ..self }
    }

    /// From the metadata row into the postings: onto the account of the
    /// first posting when entering from the top, of the last one when
    /// entering from the bottom. Where there is no posting, focus stays.
    pub open spec fn enter_postings(self, postings: int, from_top: bool) -> Focus {
        if postings <= 0 {
            self
        } else {
            Focus {
                on_postings: true,
                posting: if from_top {
                    0
                } else {
                    postings - 1
                },
                posting_field: PostingField::Account,
                ..self
            }
        }
    }

    /// One posting down (`forward`) or up. A move past either end of the
    /// list leaves the postings for the metadata row instead.
    pub open spec fn navigate_posting(self, postings: int, forward: bool) -> Focus {
        if forward {
            if self.posting + 1 >= postings {
                Focus { on_postings: false, ..self }
            } else {
                Focus { posting: self.posting + 1, ..self }
            }
        } else {
            if self.posting <= 0 {
                Focus { on_postings: false, ..self }
            } else {
                Focus { posting: self.posting - 1, ..self }
            }
        }
    }

    /// The focus after `steps` moves down the postings.
    pub open spec fn walk_down(self, postings: int, steps: nat) -> Focus
        decreases steps,
    {
        if steps == 0 {
            self
        } else {
            self.navigate_posting(postings, true).walk_down(postings, (steps - 1) as nat)
        }
    }
}

/// Stepping right and then left along the metadata row, or left and then
/// right, ends on the field it started from.
pub proof fn law_metadata_steps_undo_each_other(index: int)
    requires
        0 <= index < METADATA_FIELDS,
    ensures
        prev_metadata_field(next_metadata_field(index)) == index,
        next_metadata_field(prev_metadata_field(index)) == index,
        0 <= next_metadata_field(index) < METADATA_FIELDS,
        0 <= prev_metadata_field(index) < METADATA_FIELDS,
{
}

/// Three steps along the parts of a posting, all forward or all backward,
/// end on the part they started from.
pub proof fn law_posting_field_cycle_has_length_three(field: PostingField)
    ensures
        field.cycle(true).cycle(true).cycle(true) == field,
        field.cycle(false).cycle(false).cycle(false) == field,
        field.cycle(true) != field,
        field.cycle(true).cycle(true) != field,
        field.cycle(true).cycle(false) == field,
        field.cycle(false).cycle(true) == field,
{
}

/// No move into, within or out of the postings changes which metadata field
/// is remembered. So whatever happens between entering the postings and
/// leaving them, focus returns to the metadata field it came from.
pub proof fn law_posting_moves_keep_the_metadata_field(
    focus: Focus,
    postings: int,
    forward: bool,
)
    ensures
        focus.enter_postings(postings, forward).metadata_field == focus.metadata_field,
        focus.navigate_posting(postings, forward).metadata_field == focus.metadata_field,
        focus.navigate_posting_field(forward).metadata_field == focus.metadata_field,
{
}

/// Moving down from the last posting leaves the postings, and the metadata
/// row has the focus on the field it had before.
pub proof fn law_leaving_from_last_posting(focus: Focus, postings: int)
    requires
        focus.wf(postings),
        focus.on_postings,
        focus.posting == postings - 1,
    ensures
        !focus.navigate_posting(postings, true).on_postings,
        focus.navigate_posting(postings, true).metadata_field == focus.metadata_field,
{
}

/// Entering the postings and walking down past the last one comes back to
/// the metadata field that had the focus before: after one step when
/// entered from the bottom, after as many steps as there are postings when
/// entered from the top. On the way focus stays on the postings.
pub proof fn law_postings_round_trip(focus: Focus, postings: int)
    requires
        focus.wf(postings),
        !focus.on_postings,
        postings > 0,
    ensures
        focus.enter_postings(postings, false).navigate_posting(postings, true) == (Focus {
            posting: postings - 1,
            posting_field: PostingField::Account,
            ..focus
        }),
        focus.enter_postings(postings, true).walk_down(postings, postings as nat) == (Focus {
            posting: postings - 1,
            posting_field: PostingField::Account,
            ..focus
        }),
        forall|steps: nat|
            steps < postings ==> (#[trigger] focus.enter_postings(postings, true).walk_down(
                postings,
                steps,
            )).on_postings,
{
    let entered = focus.enter_postings(postings, true);
    assert forall|steps: nat| steps < postings implies (#[trigger] entered.walk_down(
        postings,
        steps,
    )) == (Focus { posting: steps as int, ..entered }) by {
        lemma_walk_down(entered, postings, steps);
    }
    lemma_walk_down(entered, postings, (postings - 1) as nat);
    lemma_walk_down_split(entered, postings, (postings - 1) as nat);
}

/// Walking down fewer steps than there are postings below moves the focus
/// by that many postings.
proof fn lemma_walk_down(focus: Focus, postings: int, steps: nat)
    requires
        focus.on_postings,
        0 <= focus.posting,
        focus.posting + steps < postings,
    ensures
        focus.walk_down(postings, steps) == (Focus { posting: focus.posting + steps, ..focus }),
    decreases steps,
{
    if steps > 0 {
        lemma_walk_down(focus.navigate_posting(postings, true), postings, (steps - 1) as nat);
    }
}

/// One more step down is one more move at the end of the walk.
proof fn lemma_walk_down_split(focus: Focus, postings: int, steps: nat)
    ensures
        focus.walk_down(postings, steps + 1) == focus.walk_down(postings, steps).navigate_posting(
            postings,
            true,
        ),
    decreases steps,
{
    if steps > 0 {
        lemma_walk_down_split(focus.navigate_posting(postings, true), postings, (steps - 1) as nat);
    } else {
        assert(focus.walk_down(postings, 1) == focus.navigate_posting(postings, true).walk_down(
            postings,
            0,
        ));
    }
}

} // verus!
