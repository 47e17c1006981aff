//! A per-user, capacity-bounded todo-list store.
//!
//! Every record holds one owner identity and an ordered list of items. Each
//! mutating operation validates the caller's identity, the submitted content
//! and the index before it touches the record; on any failure the record is
//! left exactly as it was and a typed error names the first violated check.
//! The contracts of the operations pin each outcome down to a spec-level
//! transition function of the `model` module, and the `laws` module proves
//! the global properties of those transitions.

pub mod laws;
pub mod model;
pub mod store;
pub mod text;

pub use model::ItemModel;
pub use model::ListModel;
pub use model::TodoError;
pub use model::MAX_CONTENT_LEN;
pub use model::MAX_ITEMS;
pub use store::add_content;
pub use store::initialize;
pub use store::remove_todo;
pub use store::update_content;
pub use store::update_state;
pub use store::Identity;
pub use store::Item;
pub use store::List;
