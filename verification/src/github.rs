//! The GitHub driver: pages of up to 100 repositories, numbered from 1, with
//! no total known in advance. The crawl stops at the first page that lists
//! zero repositories; an empty page 1 is an empty, successful crawl.
use vstd::prelude::*;
use vstd::string::StringExecFns;

use crate::decode::{json_of, parse_json};
use crate::json::{url_list_of, Json};
use crate::numbers::{dec_seq, u32_to_dec};
use crate::text::{concat_all, lemma_concat_all_push, views_of};
use crate::{BatchSink, CrawlError};

verus! {

/// The URLs of one page body: the body must decode to a JSON array whose
/// every item carries a string `ssh_url`.
pub open spec fn github_page_urls(body: Seq<char>) -> Option<Seq<Seq<char>>> {
    match json_of(body) {
        Some(j) => url_list_of(j, "ssh_url"@),
        None => None,
    }
}

/// The listing URL for one page of the caller's repositories.
pub open spec fn github_url(page: nat) -> Seq<char> {
    "https://api.github.com/user/repos?per_page=100&page="@ + dec_seq(page)
}

/// Builds the listing URL for `page`.
pub fn build_url(page: i32) -> (r: String)
    requires
        1 <= page,
    ensures
        r@ == github_url(page as nat),
{
    let mut url: String = "https://api.github.com/user/repos?per_page=100&page=".to_owned();
    let page_str = u32_to_dec(page as u32);
    url.append(page_str.as_str());
    url
}

/// Extracts every item's `ssh_url`; one item without it rejects the whole
/// page.
pub fn parse_result(json: &Json) -> (r: Result<Vec<String>, CrawlError>)
    ensures
        match r {
            Ok(urls) => url_list_of(*json, "ssh_url"@) == Some(views_of(urls@)),
            Err(e) => url_list_of(*json, "ssh_url"@) is None && e == CrawlError::Parse,
        },
{
    crate::json::extract_url_list(json, "ssh_url")
}

/// One decoded page: the URLs it lists.
#[derive(Debug)]
pub struct CrawlResult {
    pub repository_urls: Vec<String>,
}

/// The compute half of fetching one page: decode the body and extract its
/// URL list.
pub fn parse_page(body: &str) -> (r: Result<CrawlResult, CrawlError>)
    ensures
        match r {
            Ok(cr) => github_page_urls(body@) == Some(views_of(cr.repository_urls@)),
            Err(e) => github_page_urls(body@) is None && e == CrawlError::Parse,
        },
{
    match parse_json(body) {
        Some(j) => match parse_result(&j) {
            Ok(urls) => Ok(CrawlResult { repository_urls: urls }),
            Err(e) => Err(e),
        },
        None => Err(CrawlError::Parse),
    }
}

/// A GitHub crawl in progress: the next page to request, whether an empty
/// page has ended the crawl, and everything accumulated so far.
pub struct GithubCrawl {
    next_page: i64,
    done: bool,
    urls: Vec<String>,
    batches: Ghost<Seq<Seq<Seq<char>>>>,
}

impl GithubCrawl {
    /// Everything accumulated so far, in fetch order.
    pub closed spec fn urls_view(self) -> Seq<Seq<char>> {
        views_of(self.urls@)
    }

    /// The URL batch of each page processed so far, in fetch order.
    pub closed spec fn batches_view(self) -> Seq<Seq<Seq<char>>> {
        self.batches@
    }

    pub closed spec fn next_page_spec(self) -> int {
        self.next_page as int
    }

    pub closed spec fn wf(self) -> bool {
        &&& self.urls_view() == concat_all(self.batches_view())
        &&& 1 <= self.next_page
    }

    /// Another page is owed: no page yet fetched has come back empty.
    pub closed spec fn in_progress(self) -> bool {
        !self.done
    }

    pub fn new() -> (r: GithubCrawl)
        ensures
            r.wf(),
            r.in_progress(),
            r.next_page_spec() == 1,
            r.urls_view() == Seq::<Seq<char>>::empty(),
            r.batches_view() == Seq::<Seq<Seq<char>>>::empty(),
    {
        let r = GithubCrawl {
            next_page: 1,
            done: false,
            urls: Vec::new(),
            batches: Ghost(Seq::empty()),
        };
        proof {
            assert(views_of(r.urls@) =~= Seq::<Seq<char>>::empty());
        }
        r
    }

    /// The URL to fetch next, or `None` once an empty page ended the crawl.
    pub fn current_url(&self) -> (r: Option<String>)
        requires
            self.wf(),
            self.next_page_spec() <= 0x7fff_ffff,
        ensures
            match r {
                Some(u) => self.in_progress() && u@ == github_url(self.next_page_spec() as nat),
                None => !self.in_progress(),
            },
    {
        if self.done {
            None
        } else {
            Some(build_url(self.next_page as i32))
        }
    }

    /// Consumes the response for the page `current_url` asked for: forwards
    /// the page's URLs to `sink` (best effort) and accumulates them. An
    /// empty page finishes the crawl; a non-empty one asks for the next.
    pub fn on_page<S: BatchSink>(&mut self, body: &str, sink: &mut S) -> (r: Result<
        (),
        CrawlError,
    >)
        requires
            old(self).wf(),
            old(self).in_progress(),
            old(self).next_page_spec() < 0x7fff_ffff_ffff_ffff,
        ensures
            final(self).wf(),
            match r {
                Ok(()) => {
                    &&& github_page_urls(body@) is Some
                    &&& final(self).batches_view() == old(self).batches_view().push(
                        github_page_urls(body@).unwrap(),
                    )
                    &&& final(self).urls_view() == old(self).urls_view() + github_page_urls(
                        body@,
                    ).unwrap()
                    &&& final(self).next_page_spec() == old(self).next_page_spec() + 1
                    &&& final(self).in_progress() == (github_page_urls(body@).unwrap().len() > 0)
                },
                Err(e) => {
                    &&& e == CrawlError::Parse
                    &&& github_page_urls(body@) is None
                    &&& *final(self) == *old(self)
                },
            },
    {
        match parse_page(body) {
            Ok(cr) => {
                let CrawlResult { repository_urls: mut batch } = cr;
                let _ = sink.on_batch(&batch);
                let ghost batch_view = views_of(batch@);
                let ghost prev_urls = self.urls@;
                if batch.len() == 0 {
                    self.done = true;
                }
                self.next_page = self.next_page + 1;
                self.urls.append(&mut batch);
                self.batches = Ghost(self.batches@.push(batch_view));
                proof {
                    lemma_concat_all_push(old(self).batches@, batch_view);
                    assert(views_of(self.urls@) =~= views_of(prev_urls) + batch_view);
                }
                Ok(())
            },
            Err(e) => Err(e),
        }
    }

    /// The accumulated URL list, for the final cache write.
    pub fn urls(&self) -> (r: &Vec<String>)
        ensures
            views_of(r@) == self.urls_view(),
    {
        &self.urls
    }

    /// The number of the page the next request would ask for.
    pub fn page_number(&self) -> (r: i64)
        ensures
            r as int == self.next_page_spec(),
    {
        self.next_page
    }
}

/// A crawl's accumulated URL sequence is exactly the concatenation of its
/// pages' URL batches, in fetch order.
pub proof fn lemma_urls_are_concatenation(st: GithubCrawl)
    requires
        st.wf(),
    ensures
        st.urls_view() == concat_all(st.batches_view()),
{
}

/// Once a fetched page turns out empty, the crawl is over, whatever earlier
/// pages held: no page beyond the first empty one is ever requested.
pub proof fn lemma_empty_page_stops(post: GithubCrawl, body: Seq<char>)
    requires
        github_page_urls(body) == Some(Seq::<Seq<char>>::empty()),
        post.in_progress() == (github_page_urls(body).unwrap().len() > 0),
    ensures
        !post.in_progress(),
{
}

} // verus!
