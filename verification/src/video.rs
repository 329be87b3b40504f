//! The records that the user interface hands to the backend.

use vstd::prelude::*;

verus! {

/// The attributes of a planned video.
#[derive(Debug)]
pub struct Video {
    pub title: String,
    pub description: String,
    pub tags: Vec<String>,
}

/// What a `Video` holds, as sequences of characters.
pub ghost struct VideoView {
    pub title: Seq<char>,
    pub description: Seq<char>,
    pub tags: Seq<Seq<char>>,
}

/// The texts of a list of strings, in order.
pub open spec fn texts(items: Seq<String>) -> Seq<Seq<char>> {
    items.map_values(|s: String| s@)
}

impl View for Video {
    type V = VideoView;

    open spec fn view(&self) -> VideoView {
        VideoView {
            title: self.title@,
            description: self.description@,
            tags: texts(self.tags@),
        }
    }
}

/// A request of the user interface: the video, and the name of what is to
/// be written for it (`"title"`, `"description"` or `"tags"`).
#[derive(Debug)]
pub struct Props {
    pub video: Video,
    pub generate: String,
}

/// What a `Props` holds.
pub ghost struct PropsView {
    pub video: VideoView,
    pub generate: Seq<char>,
}

impl View for Props {
    type V = PropsView;

    open spec fn view(&self) -> PropsView {
        PropsView { video: self.video@, generate: self.generate@ }
    }
}

} // verus!
