//! The executable store: identities, items, records and the five operations.
//!
//! Each operation promises exactly the transition that the corresponding spec
//! function of the model describes: on success the record's model is the
//! function's `Ok` value, and on failure the record is unchanged and the
//! reported error is the function's `Err` value.

use vstd::prelude::*;
use vstd::string::StrSliceExecFns;

use crate::model::item_valid;
use crate::model::list_valid;
use crate::model::spec_add_content;
use crate::model::spec_initialize;
use crate::model::spec_remove_todo;
use crate::model::spec_update_content;
use crate::model::spec_update_state;
use crate::model::ItemModel;
use crate::model::ListModel;
use crate::model::TodoError;
use crate::model::MAX_CONTENT_LEN;
use crate::model::MAX_ITEMS;
use crate::text::lemma_trim_seq_props;
use crate::text::trim_seq;
use crate::text::trim_string;

verus! {

/// An opaque caller identity: a non-empty sequence of bytes, compared for
/// equality only.
pub struct Identity {
    bytes: Vec<u8>,
}

impl View for Identity {
    type V = Seq<u8>;

    closed spec fn view(&self) -> Seq<u8> {
        self.bytes@
    }
}

impl Identity {
    /// An identity is well formed when it holds at least one byte.
    pub open spec fn wf(&self) -> bool {
        self@.len() > 0
    }

    /// Wrap a byte string as an identity; an empty byte string is refused.
    pub fn new(bytes: Vec<u8>) -> (r: Option<Identity>)
        ensures
            bytes@.len() > 0 ==> (r matches Some(id) && id@ == bytes@ && id.wf()),
            bytes@.len() == 0 ==> r is None,
    {
        if bytes.len() == 0 {
            None
        } else {
            Some(Identity { bytes })
        }
    }

    /// The bytes this identity carries.
    pub fn as_bytes(&self) -> (r: &Vec<u8>)
        ensures
            r@ == self@,
    {
        &self.bytes
    }

    /// Whether two identities carry the same bytes.
    pub fn equals(&self, other: &Identity) -> (r: bool)
        ensures
            r == (self@ == other@),
    {
        if self.bytes.len() != other.bytes.len() {
            return false;
        }
        let n = self.bytes.len();
        let mut i: usize = 0;
        while i < n
            invariant
                n == self.bytes@.len(),
                n == other.bytes@.len(),
                i <= n,
                forall|j: int| 0 <= j < i ==> self.bytes@[j] == other.bytes@[j],
            decreases n - i,
        {
            if self.bytes[i] != other.bytes[i] {
                return false;
            }
            i = i + 1;
        }
        proof {
            assert(self.bytes@ =~= other.bytes@);
        }
        true
    }
}

/// One stored list entry: trimmed text content and a completion flag.
#[derive(Clone, Debug)]
pub struct Item {
    pub content: String,
    pub is_done: bool,
}

impl View for Item {
    type V = ItemModel;

    open spec fn view(&self) -> ItemModel {
        ItemModel { content: self.content@, is_done: self.is_done }
    }
}

/// The items of a vector of stored entries, as their models.
pub open spec fn items_model(todos: Seq<Item>) -> Seq<ItemModel> {
    todos.map_values(|it: Item| it@)
}

/// One record: the owner's identity and the owner's items, in insertion
/// order.
pub struct List {
    user: Identity,
    todos: Vec<Item>,
}

impl View for List {
    type V = ListModel;

    closed spec fn view(&self) -> ListModel {
        ListModel { owner: self.user@, items: items_model(self.todos@) }
    }
}

impl List {
    /// A record is well formed when its model is valid: non-empty owner,
    /// item count within capacity, every item non-empty, trimmed and within
    /// the content bound.
    pub open spec fn wf(&self) -> bool {
        list_valid(self@)
    }

    /// The owner's identity.
    pub fn owner(&self) -> (r: &Identity)
        ensures
            r@ == self@.owner,
    {
        &self.user
    }

    /// How many items the record holds.
    pub fn todo_count(&self) -> (n: usize)
        ensures
            n == self@.items.len(),
    {
        self.todos.len()
    }

    /// The item at `index`.
    pub fn get_todo(&self, index: usize) -> (it: &Item)
        requires
            index < self@.items.len(),
        ensures
            it@ == self@.items[index as int],
    {
        &self.todos[index]
    }
}

/// Establish a caller's record: owned by the caller, with no items.
pub fn initialize(caller: Identity) -> (r: List)
    requires
        caller.wf(),
    ensures
        r@ == spec_initialize(caller@),
        r.wf(),
{
    let r = List { user: caller, todos: Vec::new() };
    proof {
        assert(r@.items =~= Seq::<ItemModel>::empty());
        assert(r@ =~~= spec_initialize(r.user@));
    }
    r
}

/// Append content to the caller's record, after validating the caller, the
/// content and the capacity in that order.
pub fn add_content(record: &mut List, caller: &Identity, content: String) -> (r: Result<
    (),
    TodoError,
>)
    requires
        old(record).wf(),
    ensures
        final(record).wf(),
        match spec_add_content(old(record)@, caller@, content@) {
            Ok(m) => r == Ok::<(), TodoError>(()) && final(record)@ == m,
            Err(e) => r == Err::<(), TodoError>(e) && final(record)@ == old(record)@,
        },
{
    if !record.user.equals(caller) {
        return Err(TodoError::Unauthorized);
    }
    let trimmed = trim_string(content.as_str());
    if trimmed.as_str().is_empty() {
        return Err(TodoError::EmptyContent);
    }
    if content.as_str().unicode_len() > MAX_CONTENT_LEN {
        return Err(TodoError::ContentTooLong);
    }
    if record.todos.len() >= MAX_ITEMS {
        return Err(TodoError::MaxTodosReached);
    }
    proof {
        lemma_trim_seq_props(content@);
    }
    let ghost old_items = record@.items;
    record.todos.push(Item { content: trimmed, is_done: false });
    proof {
        let it = ItemModel { content: trim_seq(content@), is_done: false };
        assert(record@.items =~= old_items.push(it));
        assert(record@ =~~= spec_add_content(old(record)@, caller@, content@)->Ok_0);
        assert(item_valid(it));
    }
    Ok(())
}

/// Flip the completion flag of the item at `index` in the caller's record.
pub fn update_state(record: &mut List, caller: &Identity, index: u8) -> (r: Result<(), TodoError>)
    requires
        old(record).wf(),
    ensures
        final(record).wf(),
        match spec_update_state(old(record)@, caller@, index) {
            Ok(m) => r == Ok::<(), TodoError>(()) && final(record)@ == m,
            Err(e) => r == Err::<(), TodoError>(e) && final(record)@ == old(record)@,
        },
{
    if !record.user.equals(caller) {
        return Err(TodoError::Unauthorized);
    }
    let i = index as usize;
    if i >= record.todos.len() {
        return Err(TodoError::InvalidIndex);
    }
    let ghost old_items = record@.items;
    let mut it = record.todos.remove(i);
    it.is_done = !it.is_done;
    record.todos.insert(i, it);
    proof {
        let m = ItemModel { content: old_items[i as int].content, is_done: !old_items[
            i as int
        ].is_done };
        assert(it@ =~~= m);
        assert(record@.items =~= old_items.update(i as int, m));
        assert(record@ =~~= spec_update_state(old(record)@, caller@, index)->Ok_0);
    }
    Ok(())
}

/// Remove the item at `index` from the caller's record; later items shift
/// down by one.
pub fn remove_todo(record: &mut List, caller: &Identity, index: u8) -> (r: Result<(), TodoError>)
    requires
        old(record).wf(),
    ensures
        final(record).wf(),
        match spec_remove_todo(old(record)@, caller@, index) {
            Ok(m) => r == Ok::<(), TodoError>(()) && final(record)@ == m,
            Err(e) => r == Err::<(), TodoError>(e) && final(record)@ == old(record)@,
        },
{
    if !record.user.equals(caller) {
        return Err(TodoError::Unauthorized);
    }
    let i = index as usize;
    if i >= record.todos.len() {
        return Err(TodoError::InvalidIndex);
    }
    let ghost old_items = record@.items;
    record.todos.remove(i);
    proof {
        assert(record@.items =~= old_items.remove(i as int));
        assert(record@ =~~= spec_remove_todo(old(record)@, caller@, index)->Ok_0);
    }
    Ok(())
}

/// Replace the content of the item at `index` in the caller's record with the
/// trimmed submitted content; the completion flag stays.
pub fn update_content(record: &mut List, caller: &Identity, index: u8, new_content: String) -> (r:
    Result<(), TodoError>)
    requires
        old(record).wf(),
    ensures
        final(record).wf(),
        match spec_update_content(old(record)@, caller@, index, new_content@) {
            Ok(m) => r == Ok::<(), TodoError>(()) && final(record)@ == m,
            Err(e) => r == Err::<(), TodoError>(e) && final(record)@ == old(record)@,
        },
{
    if !record.user.equals(caller) {
        return Err(TodoError::Unauthorized);
    }
    let trimmed = trim_string(new_content.as_str());
    if trimmed.as_str().is_empty() {
        return Err(TodoError::EmptyContent);
    }
    if new_content.as_str().unicode_len() > MAX_CONTENT_LEN {
        return Err(TodoError::ContentTooLong);
    }
    let i = index as usize;
    if i >= record.todos.len() {
        return Err(TodoError::InvalidIndex);
    }
    proof {
        lemma_trim_seq_props(new_content@);
    }
    let ghost old_items = record@.items;
    let mut it = record.todos.remove(i);
    it.content = trimmed;
    record.todos.insert(i, it);
    proof {
        let m = ItemModel { content: trim_seq(new_content@), is_done: old_items[
            i as int
        ].is_done };
        assert(it@ =~~= m);
        assert(record@.items =~= old_items.update(i as int, m));
        assert(record@ =~~= spec_update_content(old(record)@, caller@, index, new_content@)->Ok_0);
        assert(item_valid(m));
    }
    Ok(())
}

} // verus!
