use lqcli::config::{
    default_postprocessing_model, default_postprocessing_prompt, default_request_delay,
    default_whisper_model, LingqConfig, LqcliConfig, OpenaiConfig,
};
use lqcli::fetch::DownloadMethod;
use lqcli::source::{
    default_content_type, default_download_method, default_transcript_via, ContentType, Source,
    Tags,
};

fn source(name: &str, tags: Option<&[&str]>) -> Source {
    Source {
        content_type: ContentType::Syndication,
        download_method: DownloadMethod::YtDlp,
        url: format!("http://example.com/{}.xml", name),
        name: name.to_string(),
        postprocessing_prompt: None,
        course_id: 1,
        language: "de".to_string(),
        tags: Tags(tags.map(|t| t.iter().map(|s| s.to_string()).collect())),
        transcript_via: "openai".to_string(),
    }
}

fn config(sources: Vec<Source>) -> LqcliConfig {
    LqcliConfig {
        lingq: LingqConfig { api_key: "key".to_string(), request_delay: 5 },
        openai: OpenaiConfig {
            api_key: "key".to_string(),
            postprocessing_prompt: "prompt".to_string(),
            postprocessing_model: "model".to_string(),
            whisper_model: "whisper".to_string(),
        },
        sources,
    }
}

fn names(sources: &[&Source]) -> Vec<String> {
    sources.iter().map(|s| s.name.clone()).collect()
}

fn tags(list: &[&str]) -> Vec<String> {
    list.iter().map(|s| s.to_string()).collect()
}

#[test]
fn empty_filter_selects_every_source_in_order() {
    let cfg = config(vec![
        source("c", Some(&["daily"])),
        source("a", None),
        source("b", Some(&[])),
        source("a", Some(&["hourly"])),
    ]);
    assert_eq!(names(&cfg.filtered_sources(&[])), vec!["c", "a", "b", "a"]);
}

#[test]
fn filter_selects_sources_sharing_a_tag() {
    let cfg = config(vec![
        source("one", Some(&["daily", "news"])),
        source("two", Some(&["hourly"])),
        source("three", None),
        source("four", Some(&[])),
        source("five", Some(&["news"])),
    ]);
    assert_eq!(names(&cfg.filtered_sources(&tags(&["news"]))), vec!["one", "five"]);
    assert_eq!(
        names(&cfg.filtered_sources(&tags(&["hourly", "daily"]))),
        vec!["one", "two"]
    );
    assert!(cfg.filtered_sources(&tags(&["weekly"])).is_empty());
}

#[test]
fn tag_filter_is_case_sensitive() {
    let cfg = config(vec![source("one", Some(&["News"]))]);
    assert!(cfg.filtered_sources(&tags(&["news"])).is_empty());
    assert_eq!(names(&cfg.filtered_sources(&tags(&["News"]))), vec!["one"]);
}

#[test]
fn untagged_source_never_matches_a_filter() {
    let cfg = config(vec![source("bare", None), source("empty", Some(&[]))]);
    assert!(cfg.filtered_sources(&tags(&["daily"])).is_empty());
    assert!(cfg.filtered_sources(&tags(&[""])).is_empty());
}

#[test]
fn tags_join_with_commas() {
    assert_eq!(Tags(None).joined(), "");
    assert_eq!(Tags(Some(vec![])).joined(), "");
    assert_eq!(Tags(Some(tags(&["daily"]))).joined(), "daily");
    assert_eq!(Tags(Some(tags(&["daily", "news", "de"]))).joined(), "daily, news, de");
}

#[test]
fn configuration_defaults() {
    assert_eq!(default_request_delay(), 5);
    assert_eq!(default_postprocessing_model(), "gpt-4o-mini");
    assert_eq!(default_whisper_model(), "whisper-1");
    let prompt = default_postprocessing_prompt();
    assert!(prompt.starts_with("You are editing the transcript for a podcast or video.\n"));
    assert!(prompt.contains("You MAY also add MINOR additional information to the transcript, such as"));
    assert!(prompt.ends_with("You SHALL insert a blank line between paragraphs."));
    assert_eq!(default_content_type(), ContentType::Syndication);
    assert_eq!(default_download_method(), DownloadMethod::YtDlp);
    assert_eq!(default_transcript_via(), "openai");
}
