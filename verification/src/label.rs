//! The texts a menu entry can be labelled with.

use std::borrow::Cow;
use vstd::prelude::*;

verus! {

/// A text that can become the label of an entry: a string slice, a `String`
/// or a `Cow<str>`, as `Into<Cow<str>>` accepts them.
pub trait IntoLabel {
    /// The characters of the text.
    spec fn text(&self) -> Seq<char>;

    /// Turns the text into an owned label with the same characters.
    fn into_label(self) -> (label: String)
        ensures
            label@ == self.text(),
    ;
}

impl<'a> IntoLabel for &'a str {
    open spec fn text(&self) -> Seq<char> {
        (*self)@
    }

    fn into_label(self) -> (label: String) {
        self.to_owned()
    }
}

impl IntoLabel for String {
    open spec fn text(&self) -> Seq<char> {
        self@
    }

    fn into_label(self) -> (label: String) {
        self
    }
}

impl<'a> IntoLabel for &'a String {
    open spec fn text(&self) -> Seq<char> {
        (*self)@
    }

    fn into_label(self) -> (label: String) {
        self.clone()
    }
}

impl<'a> IntoLabel for Cow<'a, str> {
    open spec fn text(&self) -> Seq<char> {
        self@
    }

    fn into_label(self) -> (label: String) {
        match self {
            Cow::Borrowed(text) => text.to_owned(),
            Cow::Owned(text) => text,
        }
    }
}

} // verus!
