//! Text forms of a buffer: the inspection form, which shows both values by
//! role, and the address of the current value.

use vstd::prelude::*;
use vstd::string::StringExecFns;
use crate::buffer::DoubleBuffer;
use core::fmt::{Debug, Write};

verus! {

/// The inspection form of a buffer whose current value is shown as
/// `current` and whose next value is shown as `next`.
pub open spec fn debug_layout(current: Seq<char>, next: Seq<char>) -> Seq<char> {
    "DoubleBuffer { current: "@ + current + ", next: "@ + next + " }"@
}

/// `write!` with `{:?}` into a new `String`: the text that the `Debug` impl
/// of `T` writes for `value`, or `None` where that impl reports an error.
/// Nothing is claimed of either: the impl is the caller's.
#[verifier::external_body]
fn debug_repr<T: Debug>(value: &T) -> Option<String> {
    let mut text = String::new();
    match write!(text, "{:?}", value) {
        Ok(()) => Some(text),
        Err(_) => None,
    }
}

/// `format!` with `{:p}`: the address that `value` is stored at, as text.
/// Nothing is claimed of it: it differs from run to run.
#[verifier::external_body]
fn address_repr<T>(value: &T) -> String {
    format!("{:p}", value)
}

/// `text` is what formatting `value` with `{:?}` may give: a text, or `None`
/// where the `Debug` impl of `T` reports an error.
pub closed spec fn shown_as<T: Debug>(value: T, text: Option<String>) -> bool {
    call_ensures(debug_repr::<T>, (&value,), text)
}

/// `text` is a text that formatting the place of `value` with `{:p}` may
/// give.
pub closed spec fn located_as<T>(value: T, text: String) -> bool {
    call_ensures(address_repr::<T>, (&value,), text)
}

/// Lays out the inspection form around the two values' own text forms.
pub fn debug_frame(current: &str, next: &str) -> (text: String)
    ensures
        text@ == debug_layout(current@, next@),
{
    let mut text = String::new();
    text.append("DoubleBuffer { current: ");
    text.append(current);
    text.append(", next: ");
    text.append(next);
    text.append(" }");
    text
}

impl<T: Debug> DoubleBuffer<T> {
    /// The inspection form: the current value as its `Debug` impl shows it,
    /// then the next value as its `Debug` impl shows it, laid out by
    /// [`debug_layout`], whichever slot each is stored in. `None` where the
    /// impl reports an error for one of the two.
    pub fn debug_string(&self) -> (text: Option<String>)
        ensures
            match text {
                Some(shown) => exists|current: String, next: String|
                    shown_as(self@.current, Some(current)) && shown_as(self@.next, Some(next))
                        && shown@ == #[trigger] debug_layout(current@, next@),
                None => shown_as(self@.current, None) || shown_as(self@.next, None),
            },
    {
        match debug_repr(self.current()) {
            Some(current) => match debug_repr(self.next()) {
                Some(next) => Some(debug_frame(current.as_str(), next.as_str())),
                None => None,
            },
            None => None,
        }
    }
}

impl<T> DoubleBuffer<T> {
    /// The address of the current value, as text, for diagnostics: what
    /// formatting with `{:p}` gives for the value that reads go to.
    pub fn pointer_string(&self) -> (text: String)
        ensures
            located_as(self@.current, text),
    {
        address_repr(self.current())
    }
}

} // verus!
