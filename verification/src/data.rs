//! What goes into one image: the question, its author and community, the
//! outcome, and the history of each outcome.

use vstd::prelude::*;

verus! {

/// Everything that one OpenGraph image shows. The generator reads it and never
/// changes it.
#[derive(Debug, Clone, PartialEq, Eq)]
pub struct OgImageData<'a> {
    /// The prediction market question
    pub question: &'a str,
    /// Author information
    pub author: OgImageAuthorData<'a>,
    /// Community information
    pub community: OgImageCommunityData<'a>,
    /// Current outcome status
    pub outcome: &'a str,
    /// Graph data containing outcome-specific order history
    pub graph: &'a [OgImageGraphData<'a>],
}

/// The community a question belongs to.
#[derive(Debug, Clone, PartialEq, Eq)]
pub struct OgImageCommunityData<'a> {
    /// Community handle
    pub handle: &'a str,
    /// Community avatar URL
    pub avatar: &'a str,
}

/// The history of one outcome.
#[derive(Debug, Clone, PartialEq, Eq)]
pub struct OgImageGraphData<'a> {
    /// Outcome identifier (e.g., "Yes", "No")
    pub outcome: &'a str,
    /// Color hex code for this outcome
    pub color: &'a str,
    /// Historical order data points for this outcome
    pub data: &'a [OgImageDataPoint],
}

/// The value of an outcome at one moment.
#[derive(Debug, Clone, PartialEq, Eq)]
pub struct OgImageDataPoint {
    /// Unix timestamp
    pub time: u64,
    /// Value at that time
    pub value: u32,
}

/// The author of a question.
#[derive(Debug, Clone, PartialEq, Eq)]
pub struct OgImageAuthorData<'a> {
    /// Author username/name
    pub name: &'a str,
    /// Avatar URL
    pub avatar: &'a str,
}

impl<'a> OgImageCommunityData<'a> {
    /// A community with the given handle and avatar URL.
    pub fn new(handle: &'a str, avatar: &'a str) -> (community: Self)
        ensures
            community == (OgImageCommunityData { handle, avatar }),
    {
        Self { handle, avatar }
    }
}

impl<'a> OgImageAuthorData<'a> {
    /// An author with the given name and avatar URL.
    pub fn new(name: &'a str, avatar: &'a str) -> (author: Self)
        ensures
            author == (OgImageAuthorData { name, avatar }),
    {
        Self { name, avatar }
    }
}

} // verus!
