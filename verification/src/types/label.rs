//! Record labels.

use vstd::prelude::*;

verus! {

/// The label that released a media entry.
#[derive(Debug)]
pub struct Label {
    pub id: String,
    pub name: String,
    /// The label code; empty where the label has none.
    pub label_code: String,
    /// The label's URLs, kept as one delimited text.
    pub urls: String,
}

/// What a [`Label`] holds, as plain text.
pub ghost struct LabelView {
    pub id: Seq<char>,
    pub name: Seq<char>,
    pub label_code: Seq<char>,
    pub urls: Seq<char>,
}

impl View for Label {
    type V = LabelView;

    open spec fn view(&self) -> LabelView {
        LabelView {
            id: self.id@,
            name: self.name@,
            label_code: self.label_code@,
            urls: self.urls@,
        }
    }
}

impl Label {
    /// The label whose four fields are empty.
    pub open spec fn spec_empty() -> LabelView {
        LabelView { id: Seq::empty(), name: Seq::empty(), label_code: Seq::empty(), urls: Seq::empty() }
    }
}

impl Default for Label {
    fn default() -> (label: Self)
        ensures
            label@ == Label::spec_empty(),
    {
        Label { id: String::new(), name: String::new(), label_code: String::new(), urls: String::new() }
    }
}

impl Clone for Label {
    fn clone(&self) -> (copy: Self)
        ensures
            copy == *self,
    {
        Label {
            id: self.id.clone(),
            name: self.name.clone(),
            label_code: self.label_code.clone(),
            urls: self.urls.clone(),
        }
    }
}

} // verus!
