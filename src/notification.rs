use vstd::prelude::*;
use crate::channel::Channel;
use crate::escape::{escape_backslashes, escape_spec};

verus! {

/// One message to the presentation layer: the stream, the path with its
/// backslashes doubled, and the full content.
#[derive(Clone, Debug)]
pub struct ContentUpdate {
    pub channel: Channel,
    pub path: String,
    pub content: String,
}

impl ContentUpdate {
    /// Builds the message for `content` read from (or pushed as) `path`.
    pub fn new(channel: Channel, path: &str, content: String) -> (r: ContentUpdate)
        ensures
            r.channel == channel,
            r.path@ == escape_spec(path@),
            r.content == content,
    {
        ContentUpdate { channel, path: escape_backslashes(path), content }
    }
}

} // verus!
