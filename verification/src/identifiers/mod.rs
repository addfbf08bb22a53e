//! Identifiers: immutable textual tags that name things in the model.

pub mod order_list_id;
