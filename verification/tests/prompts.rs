use content_planner::prompt::{
    build_prompt, describe_video, list_items, parse_kind, prompt_for, render_video, GenerationKind,
};
use content_planner::video::Video;

fn sample() -> Video {
    Video {
        title: "Rust in 10 minutes".to_string(),
        description: "A quick tour".to_string(),
        tags: vec!["rust".to_string(), "tutorial".to_string()],
    }
}

const SAMPLE_RENDERING: &str =
    "Video { title: \"Rust in 10 minutes\", description: \"A quick tour\", tags: [\"rust\", \"tutorial\"] }";

#[test]
fn kind_names_are_read() {
    assert_eq!(parse_kind("title"), Some(GenerationKind::Title));
    assert_eq!(parse_kind("description"), Some(GenerationKind::Description));
    assert_eq!(parse_kind("tags"), Some(GenerationKind::Tags));
}

#[test]
fn other_names_are_no_kind() {
    assert_eq!(parse_kind(""), None);
    assert_eq!(parse_kind("Title"), None);
    assert_eq!(parse_kind("tag"), None);
    assert_eq!(parse_kind("tags "), None);
    assert_eq!(parse_kind("thumbnail"), None);
}

#[test]
fn title_template_is_filled() {
    let expected = format!(
        "You are a professional YouTube content creator known for creating viral, attention-grabbing, clickbaity titles. \
            Create a short, engaging, clickbaity title for a video with these attributes: {}. \
            The title should be under 30 characters and create curiosity. \
            RESPOND ONLY WITH THE TITLE TEXT, no explanations or markers.",
        "ATTRS"
    );
    assert_eq!(prompt_for(GenerationKind::Title, "ATTRS"), expected);
}

#[test]
fn description_template_is_filled() {
    let expected = format!(
        "You are a skilled YouTube content optimizer. \
            Create an engaging video description for a video with these attributes: {}. \
            Follow these rules:\
            1. First 2-3 sentences should hook the viewer and summarize the value they'll get\
            2. Use short paragraphs and easy-to-read formatting\
            3. Include a call-to-action for likes and subscriptions\
            4. Keep it positive and enthusiastic\
            5. Aim for 150-200 words\
            RESPOND ONLY WITH THE DESCRIPTION TEXT, no explanations or markers.",
        "ATTRS"
    );
    assert_eq!(prompt_for(GenerationKind::Description, "ATTRS"), expected);
}

#[test]
fn tags_template_is_filled() {
    let expected = format!(
        "You are a YouTube SEO expert specialized in tag optimization. \
            Create a list of 15-20 highly relevant tags for a video with these attributes: {}. \
            The tags should:\
            1. Include both broad and specific keywords\
            2. Use relevant search terms people actually look for\
            3. Include some trending/popular related terms\
            4. Be ordered from most to least relevant\
            RESPOND ONLY WITH THE TAGS IN THIS FORMAT: tag1,tag2,tag3 (no spaces after commas)",
        "ATTRS"
    );
    assert_eq!(prompt_for(GenerationKind::Tags, "ATTRS"), expected);
}

#[test]
fn title_prompt_in_full() {
    assert_eq!(
        prompt_for(GenerationKind::Title, "x"),
        "You are a professional YouTube content creator known for creating viral, attention-grabbing, clickbaity titles. Create a short, engaging, clickbaity title for a video with these attributes: x. The title should be under 30 characters and create curiosity. RESPOND ONLY WITH THE TITLE TEXT, no explanations or markers."
    );
}

#[test]
fn empty_attributes_leave_the_template() {
    let prompt = prompt_for(GenerationKind::Tags, "");
    assert!(prompt.contains("with these attributes: . The tags should:1. Include"));
    assert!(prompt.ends_with("tag1,tag2,tag3 (no spaces after commas)"));
}

#[test]
fn the_three_templates_differ() {
    let title = prompt_for(GenerationKind::Title, "x");
    let description = prompt_for(GenerationKind::Description, "x");
    let tags = prompt_for(GenerationKind::Tags, "x");
    assert_ne!(title, description);
    assert_ne!(title, tags);
    assert_ne!(description, tags);
}

#[test]
fn listing_of_nothing_is_empty() {
    assert_eq!(list_items(&Vec::new()), "");
}

#[test]
fn listing_of_one_has_no_separator() {
    assert_eq!(list_items(&vec!["a".to_string()]), "a");
}

#[test]
fn listing_separates_neighbours() {
    let items = vec!["a".to_string(), "b".to_string(), "c".to_string()];
    assert_eq!(list_items(&items), "a, b, c");
}

#[test]
fn rendering_from_quoted_fields() {
    let tags = vec!["\"rust\"".to_string(), "\"tutorial\"".to_string()];
    assert_eq!(
        render_video("\"Rust in 10 minutes\"", "\"A quick tour\"", &tags),
        SAMPLE_RENDERING
    );
}

#[test]
fn rendering_without_tags() {
    assert_eq!(
        render_video("\"t\"", "\"d\"", &Vec::new()),
        "Video { title: \"t\", description: \"d\", tags: [] }"
    );
}

#[test]
fn video_is_described_with_quotes() {
    assert_eq!(describe_video(&sample()), SAMPLE_RENDERING);
}

#[test]
fn description_agrees_with_debug_formatting() {
    let video = sample();
    assert_eq!(describe_video(&video), format!("{:?}", video));
}

#[test]
fn special_characters_are_escaped() {
    let video = Video {
        title: "say \"hi\"\n".to_string(),
        description: "back\\slash\ttab".to_string(),
        tags: vec!["caf\u{e9}".to_string(), "it's".to_string(), String::new()],
    };
    let expected = "Video { title: \"say \\\"hi\\\"\\n\", description: \"back\\\\slash\\ttab\", tags: [\"caf\u{e9}\", \"it's\", \"\"] }";
    assert_eq!(describe_video(&video), expected);
    assert_eq!(describe_video(&video), format!("{:?}", video));
}

#[test]
fn empty_video_is_described() {
    let video = Video { title: String::new(), description: String::new(), tags: Vec::new() };
    assert_eq!(describe_video(&video), "Video { title: \"\", description: \"\", tags: [] }");
}

#[test]
fn prompt_of_a_video_for_each_kind() {
    let video = sample();
    for kind in [GenerationKind::Title, GenerationKind::Description, GenerationKind::Tags] {
        assert_eq!(build_prompt(&video, kind), prompt_for(kind, SAMPLE_RENDERING));
    }
    assert!(build_prompt(&video, GenerationKind::Title)
        .starts_with("You are a professional YouTube content creator"));
    assert!(build_prompt(&video, GenerationKind::Description)
        .starts_with("You are a skilled YouTube content optimizer."));
    assert!(build_prompt(&video, GenerationKind::Tags).starts_with("You are a YouTube SEO expert"));
}
