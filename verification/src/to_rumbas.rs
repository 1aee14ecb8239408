//! Turning data read from a Numbas exam into the data types of this library.
use crate::jme::JMEString;
use crate::noneable::Noneable;
use crate::translatable::{file_content, FileString, TranslatableString};
use vstd::prelude::*;

verus! {

/// Data that can be turned into the data type `RumbasType` of this library.
pub trait ToRumbas<RumbasType>: Sized {
    /// Whether `r` is what this data turns into.
    spec fn converts_to(&self, r: RumbasType) -> bool;

    /// The data in the form of this library.
    fn to_rumbas(&self) -> (r: RumbasType)
        ensures
            self.converts_to(r),
    ;
}

impl ToRumbas<String> for String {
    open spec fn converts_to(&self, r: String) -> bool {
        r@ == self@
    }

    fn to_rumbas(&self) -> (r: String) {
        self.clone()
    }
}

impl ToRumbas<bool> for bool {
    open spec fn converts_to(&self, r: bool) -> bool {
        r == *self
    }

    fn to_rumbas(&self) -> (r: bool) {
        *self
    }
}

impl ToRumbas<usize> for usize {
    open spec fn converts_to(&self, r: usize) -> bool {
        r == *self
    }

    fn to_rumbas(&self) -> (r: usize) {
        *self
    }
}

impl ToRumbas<JMEString> for JMEString {
    open spec fn converts_to(&self, r: JMEString) -> bool {
        r == *self
    }

    fn to_rumbas(&self) -> (r: JMEString) {
        self.clone()
    }
}

impl ToRumbas<FileString> for String {
    /// A literal file string with this text.
    open spec fn converts_to(&self, r: FileString) -> bool {
        &&& r.file_name is None
        &&& forall|locale: Seq<char>| #[trigger] file_content(r, locale) == Some(self@)
    }

    fn to_rumbas(&self) -> (r: FileString) {
        let r = FileString::s(self.as_str());
        assert forall|locale: Seq<char>| #[trigger] file_content(r, locale) == Some(self@) by {
            crate::string_map::lemma_position(r.translated_content.entries_spec(), locale);
        }
        r
    }
}

impl ToRumbas<TranslatableString> for String {
    /// A translatable string that is this text in every locale.
    open spec fn converts_to(&self, r: TranslatableString) -> bool {
        &&& r matches TranslatableString::NotTranslated(fs)
        &&& fs.file_name is None
        &&& forall|locale: Seq<char>| #[trigger] file_content(fs, locale) == Some(self@)
    }

    fn to_rumbas(&self) -> (r: TranslatableString) {
        let fs: FileString = self.to_rumbas();
        TranslatableString::NotTranslated(fs)
    }
}

impl<T, O: ToRumbas<T>> ToRumbas<Vec<T>> for Vec<O> {
    /// Each item converted.
    open spec fn converts_to(&self, r: Vec<T>) -> bool {
        &&& r@.len() == self@.len()
        &&& forall|i: int| 0 <= i < self@.len() ==> #[trigger] self@[i].converts_to(r@[i])
    }

    fn to_rumbas(&self) -> (r: Vec<T>) {
        let mut r: Vec<T> = Vec::new();
        let mut i: usize = 0;
        while i < self.len()
            invariant
                i <= self@.len(),
                r@.len() == i,
                forall|k: int| 0 <= k < i ==> #[trigger] self@[k].converts_to(r@[k]),
            decreases self@.len() - i,
        {
            let item = self[i].to_rumbas();
            r.push(item);
            i += 1;
        }
        r
    }
}

impl<K, L: ToRumbas<K>, S, O: ToRumbas<S>> ToRumbas<(K, S)> for (L, O) {
    open spec fn converts_to(&self, r: (K, S)) -> bool {
        self.0.converts_to(r.0) && self.1.converts_to(r.1)
    }

    fn to_rumbas(&self) -> (r: (K, S)) {
        (self.0.to_rumbas(), self.1.to_rumbas())
    }
}

impl<T, O: ToRumbas<T>> ToRumbas<Option<T>> for Option<O> {
    open spec fn converts_to(&self, r: Option<T>) -> bool {
        match (*self, r) {
            (None, None) => true,
            (Some(a), Some(b)) => a.converts_to(b),
            _ => false,
        }
    }

    fn to_rumbas(&self) -> (r: Option<T>) {
        match self {
            Some(a) => Some(a.to_rumbas()),
            None => None,
        }
    }
}

impl<T, O: ToRumbas<T>> ToRumbas<Noneable<T>> for Option<O> {
    /// An absent value becomes `none`.
    open spec fn converts_to(&self, r: Noneable<T>) -> bool {
        match (*self, r) {
            (None, Noneable::NoneValue) => true,
            (Some(a), Noneable::NotNone(b)) => a.converts_to(b),
            _ => false,
        }
    }

    fn to_rumbas(&self) -> (r: Noneable<T>) {
        match self {
            Some(a) => Noneable::NotNone(a.to_rumbas()),
            None => Noneable::NoneValue,
        }
    }
}

} // verus!
