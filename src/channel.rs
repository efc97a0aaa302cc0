use vstd::prelude::*;

verus! {

/// A notification stream of the presentation layer.
#[derive(Clone, Copy, Debug, PartialEq, Eq, Structural)]
pub enum Channel {
    Markdown,
    Stylesheet,
    Tcp,
}

/// A stream fed by watching one file.
#[derive(Clone, Copy, Debug, PartialEq, Eq, Structural)]
pub enum WatchChannel {
    Markdown,
    Stylesheet,
}

pub open spec fn watch_channel_spec(w: WatchChannel) -> Channel {
    match w {
        WatchChannel::Markdown => Channel::Markdown,
        WatchChannel::Stylesheet => Channel::Stylesheet,
    }
}

impl WatchChannel {
    /// The notification stream that this watched file feeds.
    pub fn channel(&self) -> (r: Channel)
        ensures
            r == watch_channel_spec(*self),
    {
        match self {
            WatchChannel::Markdown => Channel::Markdown,
            WatchChannel::Stylesheet => Channel::Stylesheet,
        }
    }
}

/// The name under which the presentation layer listens for a stream.
pub open spec fn event_name_spec(c: Channel) -> Seq<char> {
    match c {
        Channel::Markdown => "update_md"@,
        Channel::Stylesheet => "update_css"@,
        Channel::Tcp => "update_md_tcp"@,
    }
}

impl Channel {
    pub fn event_name(&self) -> (r: &'static str)
        ensures
            r@ == event_name_spec(*self),
    {
        match self {
            Channel::Markdown => "update_md",
            Channel::Stylesheet => "update_css",
            Channel::Tcp => "update_md_tcp",
        }
    }
}

} // verus!
