//! What a handler decides to answer.

use vstd::prelude::*;
use crate::page::PageTemplate;

verus! {

/// The answer to a request, before it is put on the wire.
pub enum Reply<T> {
    /// Send the visitor on to this address.
    Redirect(String),
    /// Render this page.
    Page(PageTemplate<T>),
    /// Answer with this text.
    Text(&'static str),
    /// Answer with an internal server error and this text.
    ServerError(&'static str),
}

} // verus!
