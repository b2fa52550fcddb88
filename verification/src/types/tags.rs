//! Tag-related types.

use vstd::prelude::*;
use crate::json::JsonDoc;
use crate::types::common::{LettaId, Metadata, StringMap};

verus! {

/// Query parameters for listing tags.
#[derive(Debug)]
pub struct ListTagsParams {
    /// Cursor for pagination - return results after this ID.
    pub after: Option<String>,
    /// Maximum number of results to return.
    pub limit: Option<i32>,
    /// Text to filter/search tags.
    pub query_text: Option<String>,
}

impl Default for ListTagsParams {
    /// Every field empty.
    fn default() -> (r: Self)
        ensures
            r.after is None,
            r.limit is None,
            r.query_text is None,
    {
        ListTagsParams {
            after: None,
            limit: None,
            query_text: None,
        }
    }
}

/// Tag schema (used in other entities).
#[derive(Debug)]
pub struct TagSchema {
    /// The tag value.
    pub tag: String,
}

} // verus!

verus! {

impl TagSchema {
    /// A tag.
    pub fn new(tag: &str) -> (r: Self)
        ensures
            r.tag@ == tag@,
    {
        TagSchema { tag: tag.to_string() }
    }

    /// The display text: the tag itself.
    pub fn to_string(&self) -> (r: String)
        ensures
            r@ == self.tag@,
    {
        self.tag.clone()
    }
}

impl From<String> for TagSchema {
    fn from(tag: String) -> (r: Self)
        ensures
            r == (TagSchema { tag }),
    {
        TagSchema { tag }
    }
}

impl vstd::std_specs::convert::FromSpecImpl<String> for TagSchema {
    open spec fn obeys_from_spec() -> bool {
        true
    }

    open spec fn from_spec(tag: String) -> Self {
        TagSchema { tag }
    }
}

impl From<&str> for TagSchema {
    fn from(tag: &str) -> (r: Self)
        ensures
            r.tag@ == tag@,
    {
        TagSchema { tag: String::from_str(tag) }
    }
}

impl vstd::std_specs::convert::FromSpecImpl<&str> for TagSchema {
    open spec fn obeys_from_spec() -> bool {
        false
    }

    open spec fn from_spec(tag: &str) -> Self {
        arbitrary()
    }
}

} // verus!
