use gclone_fetch::bitbucket;
use gclone_fetch::bitbucket::BitbucketCrawl;
use gclone_fetch::config::GitlabConfig;
use gclone_fetch::github::GithubCrawl;
use gclone_fetch::gitlab::GitlabCrawl;
use gclone_fetch::text::render_lines;
use gclone_fetch::{BatchSink, CrawlError, SinkError};

struct CaptureSink {
    batches: Vec<Vec<String>>,
}

impl BatchSink for CaptureSink {
    fn on_batch(&mut self, urls: &Vec<String>) -> Result<(), SinkError> {
        self.batches.push(urls.clone());
        Ok(())
    }
}

fn run_gitlab(
    pages: &[(&str, Option<&str>, Option<&str>)],
) -> Result<(Vec<String>, Vec<Vec<String>>), CrawlError> {
    let cfg = GitlabConfig { token: "tok".to_string() };
    let mut st = GitlabCrawl::new();
    let mut sink = CaptureSink { batches: Vec::new() };
    let mut served: usize = 0;
    while let Some(_url) = st.current_url(&cfg) {
        let (body, total_pages, total) = pages[served];
        served += 1;
        st.on_page(body, total_pages, total, &mut sink)?;
    }
    assert_eq!(served, pages.len(), "every synthetic page must be fetched exactly once");
    Ok((st.urls().clone(), sink.batches))
}

fn run_github(pages: &[&str]) -> Result<(Vec<String>, Vec<Vec<String>>), CrawlError> {
    let mut st = GithubCrawl::new();
    let mut sink = CaptureSink { batches: Vec::new() };
    let mut served: usize = 0;
    loop {
        assert!(st.page_number() < i32::MAX as i64);
        match st.current_url() {
            Some(_url) => {
                let body = pages[served];
                served += 1;
                st.on_page(body, &mut sink)?;
            }
            None => break,
        }
    }
    assert_eq!(served, pages.len(), "every synthetic page must be fetched exactly once");
    Ok((st.urls().clone(), sink.batches))
}

fn run_bitbucket(
    pages: &[&str],
) -> Result<(Vec<String>, Vec<Vec<String>>, Vec<String>), CrawlError> {
    let mut st = BitbucketCrawl::new();
    let mut sink = CaptureSink { batches: Vec::new() };
    let mut served: usize = 0;
    let mut requested: Vec<String> = Vec::new();
    while let Some(url) = st.current_url() {
        requested.push(url);
        let body = pages[served];
        served += 1;
        st.on_page(body, &mut sink)?;
    }
    assert_eq!(served, pages.len(), "every synthetic page must be fetched exactly once");
    Ok((st.urls().clone(), sink.batches, requested))
}

fn owned(items: &[&str]) -> Vec<String> {
    items.iter().map(|s| s.to_string()).collect()
}

#[test]
fn gitlab_result_is_concatenation_of_pages() {
    let p1 = r#"[{"ssh_url_to_repo": "u1"}, {"ssh_url_to_repo": "u2"}]"#;
    let p2 = r#"[{"ssh_url_to_repo": "u3"}]"#;
    let p3 = r#"[{"ssh_url_to_repo": "u4"}, {"ssh_url_to_repo": "u5"}]"#;
    let headers = Some("3");
    let (urls, batches) =
        run_gitlab(&[(p1, headers, None), (p2, headers, None), (p3, headers, None)]).unwrap();
    assert_eq!(urls, owned(&["u1", "u2", "u3", "u4", "u5"]));
    assert_eq!(batches, vec![owned(&["u1", "u2"]), owned(&["u3"]), owned(&["u4", "u5"])]);
    assert_eq!(urls, batches.concat());
}

#[test]
fn github_result_is_concatenation_of_pages() {
    let p1 = r#"[{"ssh_url": "g1"}, {"ssh_url": "g2"}]"#;
    let p2 = r#"[{"ssh_url": "g3"}]"#;
    let (urls, batches) = run_github(&[p1, p2, "[]"]).unwrap();
    assert_eq!(urls, owned(&["g1", "g2", "g3"]));
    assert_eq!(urls, batches.concat());
}

#[test]
fn bitbucket_result_is_concatenation_of_pages() {
    let p1 = r#"{"next": "https://api.bitbucket.org/p2",
                 "values": [{"links": {"clone": [{"name": "ssh", "href": "b1"}]}},
                            {"links": {"clone": [{"name": "ssh", "href": "b2"}]}}]}"#;
    let p2 = r#"{"values": [{"links": {"clone": [{"name": "ssh", "href": "b3"}]}}]}"#;
    let (urls, batches, requested) = run_bitbucket(&[p1, p2]).unwrap();
    assert_eq!(urls, owned(&["b1", "b2", "b3"]));
    assert_eq!(urls, batches.concat());
    assert_eq!(
        requested,
        owned(&[
            "https://api.bitbucket.org/2.0/repositories/?role=member&pagelen=100",
            "https://api.bitbucket.org/p2",
        ])
    );
}

#[test]
fn gitlab_missing_total_pages_fetches_exactly_one_page() {
    let p1 = r#"[{"ssh_url_to_repo": "u1"}]"#;
    let (urls, batches) = run_gitlab(&[(p1, None, None)]).unwrap();
    assert_eq!(urls, owned(&["u1"]));
    assert_eq!(batches.len(), 1);
}

#[test]
fn gitlab_non_numeric_total_pages_fetches_exactly_one_page() {
    let p1 = r#"[{"ssh_url_to_repo": "u1"}, {"ssh_url_to_repo": "u2"}]"#;
    let (urls, batches) = run_gitlab(&[(p1, Some("lots"), Some("7"))]).unwrap();
    assert_eq!(urls, owned(&["u1", "u2"]));
    assert_eq!(batches.len(), 1);
}

#[test]
fn github_stops_at_the_first_empty_page() {
    let p1 = r#"[{"ssh_url": "g1"}]"#;
    let p2 = r#"[{"ssh_url": "g2"}]"#;
    // run_github asserts that no page beyond the empty third one is fetched
    let (urls, batches) = run_github(&[p1, p2, "[]"]).unwrap();
    assert_eq!(urls, owned(&["g1", "g2"]));
    assert_eq!(batches.len(), 3);
    assert!(batches[2].is_empty());
}

#[test]
fn github_empty_first_page_is_an_empty_success() {
    let (urls, batches) = run_github(&["[]"]).unwrap();
    assert!(urls.is_empty());
    assert_eq!(batches.len(), 1);
    assert_eq!(render_lines(&urls), "");
}

#[test]
fn github_hundred_then_empty_fetches_exactly_two_pages() {
    let mut items: Vec<String> = Vec::new();
    for i in 0..100 {
        items.push(format!(r#"{{"ssh_url": "git@github.com:u/r{}.git"}}"#, i));
    }
    let p1 = format!("[{}]", items.join(","));
    let (urls, batches) = run_github(&[p1.as_str(), "[]"]).unwrap();
    assert_eq!(batches.len(), 2);
    assert_eq!(urls.len(), 100);
    let cache = render_lines(&urls);
    assert_eq!(cache.lines().count(), 100);
    assert_eq!(urls[0], "git@github.com:u/r0.git");
    assert_eq!(urls[99], "git@github.com:u/r99.git");
}

#[test]
fn bitbucket_items_without_ssh_entries_contribute_nothing_without_aborting() {
    let p1 = r#"{"next": "https://api.bitbucket.org/p2",
                 "values": [{"links": {"clone": [{"name": "https", "href": "h1"}]}},
                            {"links": {"clone": [{"name": "ssh", "href": 7}]}}]}"#;
    let p2 = r#"{"values": [{"links": {"clone": [{"name": "ssh", "href": "b1"}]}}]}"#;
    let (urls, batches, _requested) = run_bitbucket(&[p1, p2]).unwrap();
    assert_eq!(urls, owned(&["b1"]));
    assert_eq!(batches.len(), 2);
    assert!(batches[0].is_empty());
}

#[test]
fn bitbucket_token_then_single_page_scenario() {
    let token = bitbucket::parse_token_response(r#"{"access_token": "t1"}"#).unwrap();
    assert_eq!(token, "t1");
    assert_eq!(bitbucket::bearer_header(&token), "Bearer t1");
    let p1 = r#"{"next": null,
                 "values": [{"links": {"clone": [{"name": "ssh", "href": "git@x:y.git"},
                                                 {"name": "https", "href": "https://x/y"}]}}]}"#;
    let (urls, _batches, requested) = run_bitbucket(&[p1]).unwrap();
    assert_eq!(requested.len(), 1);
    assert_eq!(urls, owned(&["git@x:y.git"]));
    assert_eq!(render_lines(&urls), "git@x:y.git\n");
}

#[test]
fn gitlab_two_pages_land_in_the_cache_in_page_order() {
    let p1 = r#"[{"ssh_url_to_repo": "u1"}, {"ssh_url_to_repo": "u2"}]"#;
    let p2 = r#"[{"ssh_url_to_repo": "u3"}]"#;
    let (urls, _batches) = run_gitlab(&[(p1, Some("2"), Some("3")), (p2, Some("2"), Some("3"))])
        .unwrap();
    let cache = render_lines(&urls);
    assert_eq!(cache, "u1\nu2\nu3\n");
    assert_eq!(cache.lines().count(), 3);
}

#[test]
fn rerunning_an_unchanged_crawl_gives_identical_cache_text() {
    let pages = [
        (r#"[{"ssh_url_to_repo": "u1"}, {"ssh_url_to_repo": "u2"}]"#, Some("2"), Some("3")),
        (r#"[{"ssh_url_to_repo": "u3"}]"#, Some("2"), Some("3")),
    ];
    let first = run_gitlab(&pages).unwrap();
    let second = run_gitlab(&pages).unwrap();
    assert_eq!(first.0, second.0);
    assert_eq!(render_lines(&first.0).into_bytes(), render_lines(&second.0).into_bytes());
}

#[test]
fn transport_error_on_page_two_aborts_and_keeps_page_one_in_the_sink() {
    let p1 = r#"[{"ssh_url_to_repo": "u1"}]"#;
    let cfg = GitlabConfig { token: "tok".to_string() };
    let mut st = GitlabCrawl::new();
    let mut sink = CaptureSink { batches: Vec::new() };
    let mut final_cache: Option<String> = None;
    let mut result: Result<Vec<String>, CrawlError> = Ok(Vec::new());
    let mut fetches: usize = 0;
    while let Some(_url) = st.current_url(&cfg) {
        fetches += 1;
        if fetches == 1 {
            if let Err(e) = st.on_page(p1, Some("2"), Some("2"), &mut sink) {
                result = Err(e);
                break;
            }
        } else {
            // the transport fails on the second request: the crawl aborts
            result = Err(CrawlError::Fetch);
            break;
        }
    }
    if let Ok(_) = &result {
        final_cache = Some(render_lines(st.urls()));
    }
    assert_eq!(result.unwrap_err(), CrawlError::Fetch);
    assert_eq!(sink.batches, vec![owned(&["u1"])]);
    assert!(final_cache.is_none(), "the final cache must not be written");
}

#[test]
fn gitlab_parse_failure_mid_crawl_leaves_earlier_pages_in_the_sink() {
    let p1 = r#"[{"ssh_url_to_repo": "u1"}]"#;
    let p2 = r#"[{"no_url": true}]"#;
    let err = run_gitlab(&[(p1, Some("2"), None), (p2, Some("2"), None)]).unwrap_err();
    assert_eq!(err, CrawlError::Parse);
}
