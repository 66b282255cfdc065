//! The GitLab driver: offset pagination bounded by the `x-total-pages`
//! response header of page 1. Page 1 is always fetched; pages 2 up to that
//! total follow in increasing order, and a missing or non-numeric header
//! counts as 0, so nothing follows page 1.
use vstd::prelude::*;
use vstd::string::StringExecFns;

use crate::config::GitlabConfig;
use crate::decode::{json_of, parse_json};
use crate::json::{url_list_of, Json};
use crate::numbers::{dec_seq, parse_i32, parse_i32_spec, u32_to_dec};
use crate::text::{concat_all, lemma_concat_all_push, views_of};
use crate::{BatchSink, CrawlError};

verus! {

/// The URLs of one page body: the body must decode to a JSON array whose
/// every item carries a string `ssh_url_to_repo`.
pub open spec fn gitlab_page_urls(body: Seq<char>) -> Option<Seq<Seq<char>>> {
    match json_of(body) {
        Some(j) => url_list_of(j, "ssh_url_to_repo"@),
        None => None,
    }
}

/// The count a pagination header contributes: its decimal value, or 0 when
/// the header is absent or not a number.
pub open spec fn header_i32(h: Option<Seq<char>>) -> int {
    match h {
        Some(s) => match parse_i32_spec(s) {
            Some(v) => v as int,
            None => 0,
        },
        None => 0,
    }
}

/// The listing URL for one page of the project list.
pub open spec fn gitlab_url(token: Seq<char>, page: nat) -> Seq<char> {
    "https://gitlab.com/api/v4/projects/?private_token="@ + token
        + "&membership=true&simple=true&per_page=100&page="@ + dec_seq(page)
}

/// Builds the listing URL for `page`.
pub fn build_url(token: &str, page: i32) -> (r: String)
    requires
        1 <= page,
    ensures
        r@ == gitlab_url(token@, page as nat),
{
    let mut url: String = "https://gitlab.com/api/v4/projects/?private_token=".to_owned();
    url.append(token);
    url.append("&membership=true&simple=true&per_page=100&page=");
    let page_str = u32_to_dec(page as u32);
    url.append(page_str.as_str());
    proof {
        assert(url@ =~= gitlab_url(token@, page as nat));
    }
    url
}

/// Reads an integer response header, as the drivers do: `None` when the
/// header is absent or not a decimal number.
pub fn extract_i32_header(value: Option<&str>) -> (r: Option<i32>)
    ensures
        r == match value {
            Some(s) => parse_i32_spec(s@),
            None => None::<i32>,
        },
{
    match value {
        Some(s) => parse_i32(s),
        None => None,
    }
}

/// Extracts every item's `ssh_url_to_repo`; one item without it rejects the
/// whole page.
pub fn parse_result(json: &Json) -> (r: Result<Vec<String>, CrawlError>)
    ensures
        match r {
            Ok(urls) => url_list_of(*json, "ssh_url_to_repo"@) == Some(views_of(urls@)),
            Err(e) => url_list_of(*json, "ssh_url_to_repo"@) is None && e == CrawlError::Parse,
        },
{
    crate::json::extract_url_list(json, "ssh_url_to_repo")
}

/// One decoded page: the URLs it lists and the totals its headers carried.
#[derive(Debug)]
pub struct CrawlResult {
    pub total_pages: i32,
    pub total: i32,
    pub repository_urls: Vec<String>,
}

/// The compute half of fetching one page: decode the body, extract the URL
/// list, and read the two pagination headers, each defaulting to 0.
pub fn parse_page(
    body: &str,
    total_pages_header: Option<&str>,
    total_header: Option<&str>,
) -> (r: Result<CrawlResult, CrawlError>)
    ensures
        match r {
            Ok(cr) => {
                &&& gitlab_page_urls(body@) == Some(views_of(cr.repository_urls@))
                &&& cr.total_pages as int == header_i32(total_pages_header.deep_view())
                &&& cr.total as int == header_i32(total_header.deep_view())
            },
            Err(e) => gitlab_page_urls(body@) is None && e == CrawlError::Parse,
        },
{
    match parse_json(body) {
        Some(j) => match parse_result(&j) {
            Ok(urls) => {
                let total_pages = match extract_i32_header(total_pages_header) {
                    Some(v) => v,
                    None => 0,
                };
                let total = match extract_i32_header(total_header) {
                    Some(v) => v,
                    None => 0,
                };
                Ok(CrawlResult { total_pages, total, repository_urls: urls })
            },
            Err(e) => Err(e),
        },
        None => Err(CrawlError::Parse),
    }
}

/// A GitLab crawl in progress: the next page to request, the totals learned
/// from page 1, and everything accumulated so far.
pub struct GitlabCrawl {
    total_pages: i32,
    total: i32,
    next_page: i64,
    urls: Vec<String>,
    batches: Ghost<Seq<Seq<Seq<char>>>>,
}

impl GitlabCrawl {
    /// Everything accumulated so far, in fetch order.
    pub closed spec fn urls_view(self) -> Seq<Seq<char>> {
        views_of(self.urls@)
    }

    /// The URL batch of each page processed so far, in fetch order.
    pub closed spec fn batches_view(self) -> Seq<Seq<Seq<char>>> {
        self.batches@
    }

    pub closed spec fn next_page_spec(self) -> int {
        self.next_page as int
    }

    pub closed spec fn total_pages_spec(self) -> int {
        self.total_pages as int
    }

    pub closed spec fn total_spec(self) -> int {
        self.total as int
    }

    pub closed spec fn wf(self) -> bool {
        &&& self.urls_view() == concat_all(self.batches_view())
        &&& 1 <= self.next_page <= 0x8000_0000
    }

    /// Another page is owed: page 1 unconditionally, then every page up to
    /// the total learned from page 1.
    pub open spec fn in_progress(self) -> bool {
        self.next_page_spec() == 1 || self.next_page_spec() <= self.total_pages_spec()
    }

    pub fn new() -> (r: GitlabCrawl)
        ensures
            r.wf(),
            r.next_page_spec() == 1,
            r.total_pages_spec() == 0,
            r.total_spec() == 0,
            r.urls_view() == Seq::<Seq<char>>::empty(),
            r.batches_view() == Seq::<Seq<Seq<char>>>::empty(),
    {
        let r = GitlabCrawl {
            total_pages: 0,
            total: 0,
            next_page: 1,
            urls: Vec::new(),
            batches: Ghost(Seq::empty()),
        };
        proof {
            assert(views_of(r.urls@) =~= Seq::<Seq<char>>::empty());
        }
        r
    }

    /// The URL to fetch next, or `None` once every owed page is in.
    pub fn current_url(&self, config: &GitlabConfig) -> (r: Option<String>)
        requires
            self.wf(),
        ensures
            match r {
                Some(u) => self.in_progress() && u@ == gitlab_url(
                    config.token@,
                    self.next_page_spec() as nat,
                ),
                None => !self.in_progress(),
            },
    {
        if self.next_page == 1 || self.next_page <= self.total_pages as i64 {
            Some(build_url(config.token.as_str(), self.next_page as i32))
        } else {
            None
        }
    }

    /// Consumes the response for the page `current_url` asked for: forwards
    /// the page's URLs to `sink` (best effort), accumulates them, and on
    /// page 1 fixes the totals from the response headers.
    pub fn on_page<S: BatchSink>(
        &mut self,
        body: &str,
        total_pages_header: Option<&str>,
        total_header: Option<&str>,
        sink: &mut S,
    ) -> (r: Result<(), CrawlError>)
        requires
            old(self).wf(),
            old(self).in_progress(),
        ensures
            final(self).wf(),
            match r {
                Ok(()) => {
                    &&& gitlab_page_urls(body@) is Some
                    &&& final(self).batches_view() == old(self).batches_view().push(
                        gitlab_page_urls(body@).unwrap(),
                    )
                    &&& final(self).urls_view() == old(self).urls_view() + gitlab_page_urls(
                        body@,
                    ).unwrap()
                    &&& final(self).next_page_spec() == old(self).next_page_spec() + 1
                    &&& final(self).total_pages_spec() == if old(self).next_page_spec() == 1 {
                        header_i32(total_pages_header.deep_view())
                    } else {
                        old(self).total_pages_spec()
                    }
                    &&& final(self).total_spec() == if old(self).next_page_spec() == 1 {
                        header_i32(total_header.deep_view())
                    } else {
                        old(self).total_spec()
                    }
                },
                Err(e) => {
                    &&& e == CrawlError::Parse
                    &&& gitlab_page_urls(body@) is None
                    &&& *final(self) == *old(self)
                },
            },
    {
        match parse_page(body, total_pages_header, total_header) {
            Ok(cr) => {
                let CrawlResult { total_pages, total, repository_urls: mut batch } = cr;
                let _ = sink.on_batch(&batch);
                let ghost batch_view = views_of(batch@);
                let ghost prev_urls = self.urls@;
                if self.next_page == 1 {
                    self.total_pages = total_pages;
                    self.total = total;
                }
                self.next_page = self.next_page + 1;
                self.urls.append(&mut batch);
                self.batches = Ghost(self.batches@.push(batch_view));
                proof {
                    lemma_concat_all_push(old(self).batches@, batch_view);
                    assert(views_of(self.urls@) =~= views_of(prev_urls) + batch_view);
                }
                Ok(())
            },
            Err(e) => Err(e),
        }
    }

    /// The accumulated URL list, for the final cache write.
    pub fn urls(&self) -> (r: &Vec<String>)
        ensures
            views_of(r@) == self.urls_view(),
    {
        &self.urls
    }
}

/// A crawl's accumulated URL sequence is exactly the concatenation of its
/// pages' URL batches, in fetch order.
pub proof fn lemma_urls_are_concatenation(st: GitlabCrawl)
    requires
        st.wf(),
    ensures
        st.urls_view() == concat_all(st.batches_view()),
{
}

/// When page 1 carries no usable `x-total-pages` header, the crawl that has
/// just consumed page 1 is already complete: exactly one page is fetched.
pub proof fn lemma_missing_total_pages_stops(st: GitlabCrawl, h: Option<Seq<char>>)
    requires
        st.next_page_spec() == 2,
        st.total_pages_spec() == header_i32(h),
        h is None || parse_i32_spec(h.unwrap()) is None,
    ensures
        !st.in_progress(),
{
}

} // verus!
