//! The mathematical model of a record and the transition functions of the
//! five operations.
//!
//! `ListModel` is what a stored record means: an owner identity (a byte
//! sequence) and an ordered sequence of items. Each operation of the store is
//! specified by a spec function from the old model and the call's arguments to
//! either the new model or the error that the call reports. The executable
//! operations promise exactly these transitions.

use vstd::prelude::*;

use crate::text::is_trimmed;
use crate::text::trim_seq;

verus! {

/// Capacity bound of a record: no more than this many items at any time.
pub const MAX_ITEMS: usize = 20;

/// Longest accepted content, measured in characters on the submitted text
/// before trimming.
pub const MAX_CONTENT_LEN: usize = 200;

/// The error that a rejected operation reports.
#[derive(Clone, Copy, Debug, PartialEq, Eq, Structural)]
pub enum TodoError {
    /// An append was attempted on a record that already holds `MAX_ITEMS`
    /// items.
    MaxTodosReached,
    /// The index does not address an item of the record.
    InvalidIndex,
    /// The caller is not the owner of the record.
    Unauthorized,
    /// The submitted content is empty once trimmed.
    EmptyContent,
    /// The submitted content is longer than `MAX_CONTENT_LEN` characters.
    ContentTooLong,
}

/// What one stored item means: its trimmed content and its completion flag.
#[verifier::ext_equal]
pub struct ItemModel {
    pub content: Seq<char>,
    pub is_done: bool,
}

/// What one record means: its owner and its items, in insertion order.
#[verifier::ext_equal]
pub struct ListModel {
    pub owner: Seq<u8>,
    pub items: Seq<ItemModel>,
}

/// A stored item is valid: its content is non-empty, trimmed, and no longer
/// than `MAX_CONTENT_LEN` characters.
pub open spec fn item_valid(it: ItemModel) -> bool {
    &&& 1 <= it.content.len() <= MAX_CONTENT_LEN as int
    &&& is_trimmed(it.content)
}

/// A record is valid: the owner is non-empty, the item count is within the
/// capacity bound, and every stored item is valid.
pub open spec fn list_valid(m: ListModel) -> bool {
    &&& m.owner.len() > 0
    &&& m.items.len() <= MAX_ITEMS as int
    &&& forall|j: int| 0 <= j < m.items.len() ==> item_valid(#[trigger] m.items[j])
}

/// The record that `initialize` establishes for a caller: owned by the
/// caller, with no items.
pub open spec fn spec_initialize(caller: Seq<u8>) -> ListModel {
    ListModel { owner: caller, items: Seq::empty() }
}

/// The transition of `add_content`. The checks apply in order: ownership,
/// emptiness of the trimmed content, length of the untrimmed content, then
/// capacity; the first violated check names the error. On success the trimmed
/// content is appended as a new, not-done item.
pub open spec fn spec_add_content(m: ListModel, caller: Seq<u8>, content: Seq<char>) -> Result<
    ListModel,
    TodoError,
> {
    if m.owner != caller {
        Err(TodoError::Unauthorized)
    } else if trim_seq(content).len() == 0 {
        Err(TodoError::EmptyContent)
    } else if content.len() > MAX_CONTENT_LEN as int {
        Err(TodoError::ContentTooLong)
    } else if m.items.len() >= MAX_ITEMS as int {
        Err(TodoError::MaxTodosReached)
    } else {
        Ok(
            ListModel {
                owner: m.owner,
                items: m.items.push(ItemModel { content: trim_seq(content), is_done: false }),
            },
        )
    }
}

/// The transition of `update_state`: ownership, then the index; on success
/// the completion flag of the addressed item flips and nothing else changes.
pub open spec fn spec_update_state(m: ListModel, caller: Seq<u8>, index: u8) -> Result<
    ListModel,
    TodoError,
> {
    if m.owner != caller {
        Err(TodoError::Unauthorized)
    } else if m.items.len() <= index as int {
        Err(TodoError::InvalidIndex)
    } else {
        let it = m.items[index as int];
        Ok(
            ListModel {
                owner: m.owner,
                items: m.items.update(
                    index as int,
                    ItemModel { content: it.content, is_done: !it.is_done },
                ),
            },
        )
    }
}

/// The transition of `remove_todo`: ownership, then the index; on success the
/// addressed item leaves and every later item shifts down by one.
pub open spec fn spec_remove_todo(m: ListModel, caller: Seq<u8>, index: u8) -> Result<
    ListModel,
    TodoError,
> {
    if m.owner != caller {
        Err(TodoError::Unauthorized)
    } else if m.items.len() <= index as int {
        Err(TodoError::InvalidIndex)
    } else {
        Ok(ListModel { owner: m.owner, items: m.items.remove(index as int) })
    }
}

/// The transition of `update_content`. The checks apply in order: ownership,
/// emptiness of the trimmed content, length of the untrimmed content, then
/// the index. On success the addressed item holds the trimmed content and
/// keeps its completion flag.
pub open spec fn spec_update_content(
    m: ListModel,
    caller: Seq<u8>,
    index: u8,
    new_content: Seq<char>,
) -> Result<ListModel, TodoError> {
    if m.owner != caller {
        Err(TodoError::Unauthorized)
    } else if trim_seq(new_content).len() == 0 {
        Err(TodoError::EmptyContent)
    } else if new_content.len() > MAX_CONTENT_LEN as int {
        Err(TodoError::ContentTooLong)
    } else if m.items.len() <= index as int {
        Err(TodoError::InvalidIndex)
    } else {
        let it = m.items[index as int];
        Ok(
            ListModel {
                owner: m.owner,
                items: m.items.update(
                    index as int,
                    ItemModel { content: trim_seq(new_content), is_done: it.is_done },
                ),
            },
        )
    }
}

} // verus!
