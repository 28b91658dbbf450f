use headlines::{ConfigInput, FetchedArticle, Headlines, HeadlinesConfig, NewsCardData, Screen};

fn with_key(key: &str) -> Headlines {
    Headlines::new(Some(HeadlinesConfig { dark_mode: false, api_key: key.to_string() }))
}

/// A session in which the fetch was asked for and reported as started.
fn fetching(key: &str) -> Headlines {
    let mut headlines = with_key(key);
    assert_eq!(headlines.post_rendering(), Some(key.to_string()));
    headlines.fetch_started();
    headlines
}

fn fetched(title: &str, description: Option<&str>, url: &str) -> FetchedArticle {
    FetchedArticle {
        title: title.to_string(),
        description: description.map(|d| d.to_string()),
        url: url.to_string(),
    }
}

fn card(n: usize) -> NewsCardData {
    NewsCardData {
        title: format!("title{}", n),
        desc: format!("desc{}", n),
        url: format!("https://example.com/{}", n),
    }
}

fn titles(headlines: &Headlines) -> Vec<String> {
    headlines.articles().iter().map(|a| a.title.clone()).collect()
}

#[test]
fn empty_key_shows_the_dialog_and_never_fetches() {
    let mut headlines = Headlines::new(None);
    for _ in 0..1000 {
        let plan = headlines.update(Vec::new());
        assert_eq!(plan.screen, Screen::KeyEntry);
        assert!(plan.repaint);
        assert!(headlines.post_rendering().is_none());
    }
    assert!(!headlines.fetch_requested());
    assert!(!headlines.data_is_set());
    assert!(!headlines.api_key_initialized());
    assert!(headlines.articles().is_empty());
}

#[test]
fn fetch_is_requested_once_however_often_the_hook_runs() {
    let mut headlines = with_key("abc123");
    let mut requests = Vec::new();
    for _ in 0..5000 {
        if let Some(key) = headlines.post_rendering() {
            requests.push(key);
            headlines.fetch_started();
        }
        headlines.update(Vec::new());
    }
    assert_eq!(requests, vec!["abc123".to_string()]);
    assert!(headlines.fetch_requested());
    assert!(headlines.data_is_set());
}

#[test]
fn fetch_is_requested_once_even_if_no_start_is_reported() {
    let mut headlines = with_key("abc123");
    let mut requests = 0;
    for _ in 0..5000 {
        if headlines.post_rendering().is_some() {
            requests += 1;
        }
        headlines.update(Vec::new());
    }
    assert_eq!(requests, 1);
    assert!(headlines.fetch_requested());
    assert!(!headlines.data_is_set());
}

#[test]
fn fetch_is_asked_for_on_the_first_hook_run_and_started_on_report() {
    let mut headlines = with_key("k");
    assert!(!headlines.fetch_requested());
    assert!(!headlines.data_is_set());
    assert_eq!(headlines.post_rendering(), Some("k".to_string()));
    assert!(headlines.fetch_requested());
    assert!(!headlines.data_is_set());
    headlines.fetch_started();
    assert!(headlines.data_is_set());
    assert_eq!(headlines.post_rendering(), None);
    headlines.fetch_started();
    assert!(headlines.data_is_set());
}

#[test]
fn reported_start_without_a_request_records_nothing() {
    let mut headlines = with_key("k");
    headlines.fetch_started();
    assert!(!headlines.fetch_requested());
    assert!(!headlines.data_is_set());
    headlines.update(vec![card(0)]);
    assert!(headlines.articles().is_empty());
    assert_eq!(headlines.post_rendering(), Some("k".to_string()));
}

#[test]
fn fetch_starts_as_soon_as_a_key_is_typed() {
    let mut headlines = Headlines::new(None);
    assert_eq!(headlines.post_rendering(), None);
    headlines.render_config(ConfigInput {
        api_key: "a".to_string(),
        lost_focus: false,
        enter_pressed: false,
    });
    assert_eq!(headlines.post_rendering(), Some("a".to_string()));
    assert!(!headlines.api_key_initialized());
    headlines.render_config(ConfigInput {
        api_key: "ab".to_string(),
        lost_focus: true,
        enter_pressed: true,
    });
    assert_eq!(headlines.post_rendering(), None);
}

#[test]
fn missing_description_becomes_three_dots() {
    let response = vec![
        fetched("A", Some("descA"), "urlA"),
        fetched("B", Some("descB"), "urlB"),
        fetched("C", None, "urlC"),
    ];
    let mut headlines = fetching("abc123");

    headlines.update(NewsCardData::from_response(&response));

    let list = headlines.articles();
    assert_eq!(list.len(), 3);
    assert_eq!((list[0].title.as_str(), list[0].desc.as_str(), list[0].url.as_str()), ("A", "descA", "urlA"));
    assert_eq!((list[1].title.as_str(), list[1].desc.as_str(), list[1].url.as_str()), ("B", "descB", "urlB"));
    assert_eq!((list[2].title.as_str(), list[2].desc.as_str(), list[2].url.as_str()), ("C", "...", "urlC"));
}

#[test]
fn single_article_conversion_keeps_title_and_url() {
    let card = NewsCardData::from_fetched(&fetched("T", Some(""), "https://example.com/t"));
    assert_eq!(card.title, "T");
    assert_eq!(card.desc, "");
    assert_eq!(card.url, "https://example.com/t");
    let card = NewsCardData::from_fetched(&fetched("T", None, "u"));
    assert_eq!(card.desc, "...");
}

#[test]
fn empty_response_gives_no_cards() {
    assert!(NewsCardData::from_response(&Vec::new()).is_empty());
}

#[test]
fn arrivals_are_listed_once_and_in_order_across_frames() {
    let mut headlines = fetching("abc123");
    let batches: Vec<Vec<usize>> = vec![vec![], vec![0], vec![1, 2, 3], vec![], vec![4, 5], vec![6]];
    for batch in batches {
        headlines.update(batch.into_iter().map(card).collect());
        headlines.post_rendering();
    }
    let expected: Vec<String> = (0..7).map(|n| format!("title{}", n)).collect();
    assert_eq!(titles(&headlines), expected);
    assert_eq!(headlines.articles()[3].desc, "desc3");
    assert_eq!(headlines.articles()[3].url, "https://example.com/3");
}

#[test]
fn article_list_only_grows() {
    let mut headlines = fetching("abc123");
    headlines.update(vec![card(0), card(1)]);
    let before = titles(&headlines);
    headlines.update(Vec::new());
    headlines.render_config(ConfigInput {
        api_key: "other".to_string(),
        lost_focus: true,
        enter_pressed: true,
    });
    headlines.preload_articles(vec![card(2)]);
    let after = titles(&headlines);
    assert_eq!(&after[..before.len()], &before[..]);
    assert_eq!(after.len(), 3);
}

#[test]
fn nothing_is_taken_in_before_a_fetch_was_started() {
    let mut headlines = Headlines::new(None);
    headlines.preload_articles(vec![card(0)]);
    headlines.update(vec![card(1)]);
    assert!(headlines.articles().is_empty());

    let mut headlines = with_key("k");
    assert!(headlines.post_rendering().is_some());
    headlines.preload_articles(vec![card(0)]);
    headlines.update(vec![card(1)]);
    assert!(headlines.articles().is_empty());
    headlines.fetch_started();
    headlines.update(vec![card(2)]);
    assert_eq!(titles(&headlines), vec!["title2".to_string()]);
}

#[test]
fn equal_records_are_kept_as_separate_entries() {
    let mut headlines = fetching("k");
    headlines.update(vec![card(7), card(7)]);
    assert_eq!(titles(&headlines), vec!["title7".to_string(), "title7".to_string()]);
}

#[test]
fn failed_fetch_leaves_no_partial_state() {
    let mut headlines = Headlines::new(Some(HeadlinesConfig {
        dark_mode: true,
        api_key: "bad-key".to_string(),
    }));
    let request = headlines.post_rendering();
    assert_eq!(request, Some("bad-key".to_string()));
    // The request fails here: no worker is spawned and no start is reported.
    // The state says that no fetch was started, and list, settings and
    // commit flag are what they were.
    assert!(!headlines.data_is_set());
    assert_eq!(headlines.config().dark_mode, true);
    assert_eq!(headlines.config().api_key, "bad-key");
    assert!(headlines.articles().is_empty());
    assert!(!headlines.api_key_initialized());
    // Nothing that arrives without a started fetch is listed either.
    headlines.update(vec![card(0)]);
    assert!(headlines.articles().is_empty());
    assert!(!headlines.data_is_set());
}

#[test]
fn card_data_clone_is_equal_field_by_field() {
    let copy = card(3).clone();
    assert_eq!(copy.title, "title3");
    assert_eq!(copy.desc, "desc3");
    assert_eq!(copy.url, "https://example.com/3");
}
