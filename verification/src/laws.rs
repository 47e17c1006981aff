//! Proved laws of the operations' transitions.
//!
//! Each proof function here states a property of the spec transition
//! functions that the executable operations promise. Together with the
//! operations' contracts — on success the record's model is the transition's
//! `Ok` value, on failure the record is unchanged — these pin down the
//! observable behaviour of the store.

use vstd::prelude::*;

use crate::model::spec_add_content;
use crate::model::spec_remove_todo;
use crate::model::spec_update_content;
use crate::model::spec_update_state;
use crate::model::ItemModel;
use crate::model::ListModel;
use crate::model::TodoError;
use crate::model::MAX_CONTENT_LEN;
use crate::model::MAX_ITEMS;
use crate::text::trim_seq;

verus! {

/// A caller other than the owner is turned away with `Unauthorized` by every
/// mutating operation, whatever the content or index. The operations'
/// contracts add that a rejected record is left unchanged.
pub proof fn lemma_unauthorized_rejected(
    m: ListModel,
    caller: Seq<u8>,
    content: Seq<char>,
    index: u8,
)
    requires
        caller != m.owner,
    ensures
        spec_add_content(m, caller, content) == Err::<ListModel, TodoError>(
            TodoError::Unauthorized,
        ),
        spec_update_state(m, caller, index) == Err::<ListModel, TodoError>(
            TodoError::Unauthorized,
        ),
        spec_remove_todo(m, caller, index) == Err::<ListModel, TodoError>(TodoError::Unauthorized),
        spec_update_content(m, caller, index, content) == Err::<ListModel, TodoError>(
            TodoError::Unauthorized,
        ),
{
}

/// An append succeeds exactly when the caller owns the record, the trimmed
/// content is non-empty, the untrimmed content is within the length bound and
/// the record is below capacity; it then appends the trimmed content as a
/// new, not-done item and moves no other item.
pub proof fn lemma_append_succeeds_iff(m: ListModel, caller: Seq<u8>, content: Seq<char>)
    ensures
        (spec_add_content(m, caller, content) is Ok <==> (caller == m.owner && trim_seq(
            content,
        ).len() > 0 && content.len() <= MAX_CONTENT_LEN as int && m.items.len() < MAX_ITEMS
            as int)),
        (spec_add_content(m, caller, content) is Ok ==> spec_add_content(m, caller, content)->Ok_0
            == (ListModel {
            owner: m.owner,
            items: m.items.push(ItemModel { content: trim_seq(content), is_done: false }),
        })),
{
}

/// A record at capacity turns every authorized append of acceptable content
/// away with `MaxTodosReached`; the operation's contract adds that the item
/// count then stays at the capacity bound.
pub proof fn lemma_append_at_capacity_rejected(m: ListModel, caller: Seq<u8>, content: Seq<char>)
    requires
        m.items.len() == MAX_ITEMS as int,
    ensures
        (caller == m.owner && trim_seq(content).len() > 0 && content.len() <= MAX_CONTENT_LEN
            as int) ==> spec_add_content(m, caller, content) == Err::<ListModel, TodoError>(
            TodoError::MaxTodosReached,
        ),
{
}

/// Flipping the completion flag at one index twice restores the record
/// exactly; no other item is touched by either step.
pub proof fn lemma_toggle_twice_restores(m: ListModel, caller: Seq<u8>, index: u8)
    requires
        caller == m.owner,
        (index as int) < m.items.len(),
    ensures
        ({
            let once = spec_update_state(m, caller, index);
            &&& once is Ok
            &&& spec_update_state(once->Ok_0, caller, index) == Ok::<ListModel, TodoError>(m)
        }),
{
    let m1 = spec_update_state(m, caller, index)->Ok_0;
    let m2 = spec_update_state(m1, caller, index)->Ok_0;
    assert(m1.items[index as int].content == m.items[index as int].content);
    assert(m2.items =~~= m.items);
    assert(m2 =~~= m);
}

/// A toggle changes nothing but the completion flag of the addressed item:
/// every other item keeps its value, and the addressed item keeps its
/// content.
pub proof fn lemma_toggle_changes_only_index(m: ListModel, caller: Seq<u8>, index: u8)
    requires
        caller == m.owner,
        (index as int) < m.items.len(),
    ensures
        ({
            let r = spec_update_state(m, caller, index);
            &&& r is Ok
            &&& r->Ok_0.owner == m.owner
            &&& r->Ok_0.items.len() == m.items.len()
            &&& forall|j: int|
                0 <= j < m.items.len() && j != index as int ==> r->Ok_0.items[j] == #[trigger] m
                    .items[j]
            &&& r->Ok_0.items[index as int].content == m.items[index as int].content
            &&& r->Ok_0.items[index as int].is_done == !m.items[index as int].is_done
        }),
{
}

/// A removal shortens the record by exactly one item, keeps every item below
/// the removed index in place and shifts every item above it down by one.
pub proof fn lemma_remove_shifts_down(m: ListModel, caller: Seq<u8>, index: u8)
    requires
        caller == m.owner,
        (index as int) < m.items.len(),
    ensures
        ({
            let r = spec_remove_todo(m, caller, index);
            &&& r is Ok
            &&& r->Ok_0.owner == m.owner
            &&& r->Ok_0.items.len() == m.items.len() - 1
            &&& forall|j: int|
                0 <= j < index as int ==> r->Ok_0.items[j] == #[trigger] m.items[j]
            &&& forall|j: int|
                (index as int) < j < m.items.len() ==> r->Ok_0.items[j - 1] == #[trigger] m.items[j]
        }),
{
    m.items.remove_ensures(index as int);
}

/// An index at or past the item count — in particular any index on an empty
/// record — is turned away with `InvalidIndex` by toggle and removal, and by
/// an edit whose content passes its own checks first.
pub proof fn lemma_invalid_index_rejected(
    m: ListModel,
    caller: Seq<u8>,
    index: u8,
    content: Seq<char>,
)
    requires
        caller == m.owner,
        (index as int) >= m.items.len(),
    ensures
        spec_update_state(m, caller, index) == Err::<ListModel, TodoError>(TodoError::InvalidIndex),
        spec_remove_todo(m, caller, index) == Err::<ListModel, TodoError>(TodoError::InvalidIndex),
        (trim_seq(content).len() > 0 && content.len() <= MAX_CONTENT_LEN as int)
            ==> spec_update_content(m, caller, index, content) == Err::<ListModel, TodoError>(
            TodoError::InvalidIndex,
        ),
{
}

/// An edit succeeds exactly when the caller owns the record, the trimmed
/// content is non-empty, the untrimmed content is within the length bound and
/// the index addresses an item; it then stores the trimmed content there,
/// keeps that item's completion flag and moves no other item.
pub proof fn lemma_edit_succeeds_iff(m: ListModel, caller: Seq<u8>, index: u8, content: Seq<char>)
    ensures
        (spec_update_content(m, caller, index, content) is Ok <==> (caller == m.owner && trim_seq(
            content,
        ).len() > 0 && content.len() <= MAX_CONTENT_LEN as int && (index as int) < m.items.len())),
        spec_update_content(m, caller, index, content) is Ok ==> ({
            let r = spec_update_content(m, caller, index, content);
            &&& r->Ok_0.owner == m.owner
            &&& r->Ok_0.items.len() == m.items.len()
            &&& forall|j: int|
                0 <= j < m.items.len() && j != index as int ==> r->Ok_0.items[j] == #[trigger] m
                    .items[j]
            &&& r->Ok_0.items[index as int].content == trim_seq(content)
            &&& r->Ok_0.items[index as int].is_done == m.items[index as int].is_done
        }),
{
}

} // verus!
