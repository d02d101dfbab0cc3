//! Semantic core of a declarative document language: typed values and
//! definitions, dotted-name resolution across documents, property-value
//! resolution and mutation, and the suspendable incremental resolver.

pub mod ast;
pub mod builder;
pub mod calls;
pub mod component;
pub mod define;
pub mod dependencies;
pub mod document;
pub mod error;
pub mod executor;
pub mod found;
pub mod instance;
pub mod interpret;
pub mod json;
pub mod kind;
pub mod kind_of;
pub mod laws;
pub mod library;
pub mod lookup;
pub mod mutate;
pub mod names;
pub mod ops;
pub mod resolve;
pub mod resume;
pub mod scan;
pub mod scan_items;
pub mod script;
pub mod search;
pub mod semantics;
pub mod state;
pub mod tdoc;
pub mod text;
pub mod thing;
pub mod typed;
pub mod utils;
pub mod value;
pub mod values;
pub mod vec_map;
