//! What the foreign library reports when an operation fails.
use vstd::prelude::*;

verus! {

/// The text of a diagnostic that the foreign library may have set: empty
/// where it set none.
pub open spec fn text_of(message: Option<String>) -> Seq<char> {
    match message {
        Some(m) => m@,
        None => Seq::empty(),
    }
}

/// The text of a failure's diagnostic, or an empty text where the foreign
/// library set none.
pub fn failure_text(message: Option<String>) -> (r: String)
    ensures
        r@ == text_of(message),
{
    match message {
        Some(m) => m,
        None => String::new(),
    }
}

/// The outcome of an operation that reports failure only by setting a
/// diagnostic: it failed exactly when `message` is present.
pub fn status_of(message: Option<String>) -> (r: Result<(), String>)
    ensures
        r is Ok <==> message is None,
        r is Err ==> r->Err_0@ == text_of(message),
{
    match message {
        None => Ok(()),
        Some(m) => Err(m),
    }
}

} // verus!
