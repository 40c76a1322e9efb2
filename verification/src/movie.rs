//! The movie record: the sole entity the catalogue holds.

use vstd::prelude::*;

verus! {

/// Mathematical view of a movie record: the id as a plain 128-bit
/// integer and the two text fields as character sequences.
pub struct MovieView {
    pub id: u128,
    pub title: Seq<char>,
    pub director: Seq<char>,
}

/// A movie record. The id is assigned by the store on creation and is
/// immutable thereafter; title and director are free-form text.
pub struct Movie {
    pub id: u128,
    pub title: String,
    pub director: String,
}

impl View for Movie {
    type V = MovieView;

    open spec fn view(&self) -> MovieView {
        MovieView { id: self.id, title: self.title@, director: self.director@ }
    }
}

impl Clone for Movie {
    fn clone(&self) -> (r: Self)
        ensures
            r == *self,
    {
        Movie { id: self.id, title: self.title.clone(), director: self.director.clone() }
    }
}

} // verus!
