use vstd::prelude::*;

verus! {

/// One published comic, as the feed describes it.
#[derive(Debug, Clone, PartialEq, Eq)]
pub struct Comic {
    pub month: String,
    pub num: usize,
    pub link: String,
    pub year: String,
    pub news: String,
    pub safe_title: String,
    pub transcript: String,
    pub alt: String,
    pub img: String,
    pub title: String,
    pub day: String,
}

} // verus!
