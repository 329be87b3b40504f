//! The prompt: one fixed template for each kind of text, filled with the
//! video's attributes.

use vstd::prelude::*;
use vstd::string::StringExecFns;
use crate::video::{texts, Video, VideoView};

verus! {

/// What the language model is asked to write.
#[derive(Clone, Copy, Debug, PartialEq, Eq, Structural)]
pub enum GenerationKind {
    Title,
    Description,
    Tags,
}

/// The template of a title, up to the attributes.
pub const TITLE_HEAD: &'static str =
    "You are a professional YouTube content creator known for creating viral, attention-grabbing, clickbaity titles. Create a short, engaging, clickbaity title for a video with these attributes: ";

/// The template of a title, after the attributes.
pub const TITLE_TAIL: &'static str =
    ". The title should be under 30 characters and create curiosity. RESPOND ONLY WITH THE TITLE TEXT, no explanations or markers.";

/// The template of a description, up to the attributes.
pub const DESCRIPTION_HEAD: &'static str =
    "You are a skilled YouTube content optimizer. Create an engaging video description for a video with these attributes: ";

/// The template of a description, after the attributes.
pub const DESCRIPTION_TAIL: &'static str =
    ". Follow these rules:1. First 2-3 sentences should hook the viewer and summarize the value they'll get2. Use short paragraphs and easy-to-read formatting3. Include a call-to-action for likes and subscriptions4. Keep it positive and enthusiastic5. Aim for 150-200 wordsRESPOND ONLY WITH THE DESCRIPTION TEXT, no explanations or markers.";

/// The template of a tag list, up to the attributes.
pub const TAGS_HEAD: &'static str =
    "You are a YouTube SEO expert specialized in tag optimization. Create a list of 15-20 highly relevant tags for a video with these attributes: ";

/// The template of a tag list, after the attributes.
pub const TAGS_TAIL: &'static str =
    ". The tags should:1. Include both broad and specific keywords2. Use relevant search terms people actually look for3. Include some trending/popular related terms4. Be ordered from most to least relevantRESPOND ONLY WITH THE TAGS IN THIS FORMAT: tag1,tag2,tag3 (no spaces after commas)";

/// The kind that a name stands for: `"title"`, `"description"` and `"tags"`
/// name the three kinds, and no other text names one.
pub open spec fn kind_of(name: Seq<char>) -> Option<GenerationKind> {
    if name == "title"@ {
        Some(GenerationKind::Title)
    } else if name == "description"@ {
        Some(GenerationKind::Description)
    } else if name == "tags"@ {
        Some(GenerationKind::Tags)
    } else {
        None
    }
}

/// The part of a kind's template that stands before the attributes.
pub open spec fn template_head(kind: GenerationKind) -> Seq<char> {
    match kind {
        GenerationKind::Title => TITLE_HEAD@,
        GenerationKind::Description => DESCRIPTION_HEAD@,
        GenerationKind::Tags => TAGS_HEAD@,
    }
}

/// The part of a kind's template that stands after the attributes.
pub open spec fn template_tail(kind: GenerationKind) -> Seq<char> {
    match kind {
        GenerationKind::Title => TITLE_TAIL@,
        GenerationKind::Description => DESCRIPTION_TAIL@,
        GenerationKind::Tags => TAGS_TAIL@,
    }
}

/// The prompt of a kind for the given rendering of the attributes.
pub open spec fn prompt_text(kind: GenerationKind, attributes: Seq<char>) -> Seq<char> {
    template_head(kind) + attributes + template_tail(kind)
}

/// The text that std's `Debug` formatting (`{:?}`) writes for a string
/// slice that holds the characters `s`: the quoted, escaped form in which a
/// string stands in a record's rendering. Nothing more is said of it here.
pub uninterp spec fn str_debug(s: Seq<char>) -> Seq<char>;

/// Each text in its quoted form.
pub open spec fn quoted(items: Seq<Seq<char>>) -> Seq<Seq<char>> {
    items.map_values(|t: Seq<char>| str_debug(t))
}

/// The items one after the other, with `", "` between two neighbours.
pub open spec fn listing(items: Seq<Seq<char>>) -> Seq<char>
    decreases items.len(),
{
    if items.len() == 0 {
        Seq::empty()
    } else if items.len() == 1 {
        items[0]
    } else {
        listing(items.drop_last()) + ", "@ + items.last()
    }
}

/// The record as it is shown in a prompt, from the quoted forms of its
/// fields: the type's name, then each field's name with its value, the
/// tags as a list in square brackets.
pub open spec fn video_rendering(
    title: Seq<char>,
    description: Seq<char>,
    tags: Seq<Seq<char>>,
) -> Seq<char> {
    "Video { title: "@ + title + ", description: "@ + description + ", tags: ["@ + listing(tags)
        + "] }"@
}

/// The record as it is shown in a prompt.
pub open spec fn video_debug(video: VideoView) -> Seq<char> {
    video_rendering(str_debug(video.title), str_debug(video.description), quoted(video.tags))
}

/// The three names stand for the three kinds, each for its own.
pub proof fn lemma_kind_names()
    ensures
        kind_of("title"@) == Some(GenerationKind::Title),
        kind_of("description"@) == Some(GenerationKind::Description),
        kind_of("tags"@) == Some(GenerationKind::Tags),
{
    reveal_strlit("title");
    reveal_strlit("description");
    reveal_strlit("tags");
    assert("title"@.len() == 5);
    assert("description"@.len() == 11);
    assert("tags"@.len() == 4);
}

/// Formats a string slice with std's `Debug` (`{:?}`, which for `str` is
/// `<str as core::fmt::Debug>::fmt`). Believed, not proved: the result is
/// the text that this formatting writes, which depends on the characters
/// alone and is named `str_debug`.
#[verifier::external_body]
fn debug_str(s: &str) -> (r: String)
    ensures
        r@ == str_debug(s@),
{
    format!("{:?}", s)
}

/// Whether two string slices hold the same characters.
fn same_text(a: &str, b: &str) -> (r: bool)
    ensures
        r == (a@ == b@),
{
    let x = String::from_str(a);
    let y = String::from_str(b);
    x == y
}

/// Reads the name of a kind.
pub fn parse_kind(name: &str) -> (r: Option<GenerationKind>)
    ensures
        r == kind_of(name@),
{
    if same_text(name, "title") {
        Some(GenerationKind::Title)
    } else if same_text(name, "description") {
        Some(GenerationKind::Description)
    } else if same_text(name, "tags") {
        Some(GenerationKind::Tags)
    } else {
        None
    }
}

/// Fills the template of `kind` with `attributes`.
pub fn prompt_for(kind: GenerationKind, attributes: &str) -> (r: String)
    ensures
        r@ == prompt_text(kind, attributes@),
{
    let mut out = match kind {
        GenerationKind::Title => String::from_str(TITLE_HEAD),
        GenerationKind::Description => String::from_str(DESCRIPTION_HEAD),
        GenerationKind::Tags => String::from_str(TAGS_HEAD),
    };
    out.append(attributes);
    match kind {
        GenerationKind::Title => out.append(TITLE_TAIL),
        GenerationKind::Description => out.append(DESCRIPTION_TAIL),
        GenerationKind::Tags => out.append(TAGS_TAIL),
    }
    out
}

/// Writes the items one after the other, with `", "` between two
/// neighbours.
pub fn list_items(items: &Vec<String>) -> (r: String)
    ensures
        r@ == listing(texts(items@)),
{
    let ghost all = texts(items@);
    let mut out = String::new();
    let mut i: usize = 0;
    while i < items.len()
        invariant
            i <= items.len(),
            all == texts(items@),
            out@ == listing(all.take(i as int)),
        decreases items.len() - i,
    {
        if i > 0 {
            out.append(", ");
        }
        out.append(items[i].as_str());
        proof {
            let next = all.take(i + 1);
            assert(next.drop_last() =~= all.take(i as int));
            assert(next.last() == items@[i as int]@);
            assert(out@ =~= listing(next));
        }
        i += 1;
    }
    proof {
        assert(all.take(items.len() as int) =~= all);
    }
    out
}

/// Writes the record as it is shown in a prompt, from the quoted forms of
/// its fields.
pub fn render_video(title: &str, description: &str, tags: &Vec<String>) -> (r: String)
    ensures
        r@ == video_rendering(title@, description@, texts(tags@)),
{
    let list = list_items(tags);
    let mut out = String::from_str("Video { title: ");
    out.append(title);
    out.append(", description: ");
    out.append(description);
    out.append(", tags: [");
    out.append(list.as_str());
    out.append("] }");
    out
}

/// The quoted form of each item, in order.
fn quote_all(items: &Vec<String>) -> (r: Vec<String>)
    ensures
        texts(r@) == quoted(texts(items@)),
{
    let mut out: Vec<String> = Vec::new();
    let mut i: usize = 0;
    while i < items.len()
        invariant
            i <= items.len(),
            out@.len() == i,
            forall|k: int| 0 <= k < i ==> (#[trigger] out@[k])@ == str_debug(items@[k]@),
        decreases items.len() - i,
    {
        out.push(debug_str(items[i].as_str()));
        i += 1;
    }
    proof {
        assert(texts(out@) =~= quoted(texts(items@)));
    }
    out
}

/// Writes the record as it is shown in a prompt: every text in the form
/// that `Debug` gives it.
pub fn describe_video(video: &Video) -> (r: String)
    ensures
        r@ == video_debug(video@),
{
    let title = debug_str(video.title.as_str());
    let description = debug_str(video.description.as_str());
    let tags = quote_all(&video.tags);
    render_video(title.as_str(), description.as_str(), &tags)
}

/// The prompt of `kind` for `video`: the kind's template around the
/// rendering of the record.
pub fn build_prompt(video: &Video, kind: GenerationKind) -> (r: String)
    ensures
        r@ == prompt_text(kind, video_debug(video@)),
{
    let attributes = describe_video(video);
    prompt_for(kind, attributes.as_str())
}

} // verus!
