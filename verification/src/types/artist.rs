//! Artists.

use vstd::prelude::*;

verus! {

/// A performer credited on a media entry.
#[derive(Debug)]
pub struct Artist {
    pub id: String,
    pub name: String,
    /// The artist's URLs, kept as one delimited text.
    pub urls: String,
}

/// What an [`Artist`] holds, as plain text.
pub ghost struct ArtistView {
    pub id: Seq<char>,
    pub name: Seq<char>,
    pub urls: Seq<char>,
}

impl View for Artist {
    type V = ArtistView;

    open spec fn view(&self) -> ArtistView {
        ArtistView { id: self.id@, name: self.name@, urls: self.urls@ }
    }
}

impl Clone for Artist {
    fn clone(&self) -> (copy: Self)
        ensures
            copy == *self,
    {
        Artist { id: self.id.clone(), name: self.name.clone(), urls: self.urls.clone() }
    }
}

} // verus!
