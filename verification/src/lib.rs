//! Runtime values of a small embedded scripting language: the tagged value
//! type, the association-list record built from it, native callables behind a
//! value-semantics handle, and the dispatcher that executes a handle by its tag.

pub mod dispatch;
pub mod error;
pub mod function;
pub mod object;
pub mod record;
pub mod text;
