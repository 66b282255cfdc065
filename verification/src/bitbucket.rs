//! The Bitbucket driver: cursor pagination through each response's `next`
//! URL, after an OAuth `client_credentials` token exchange. Per item, only
//! the clone link named `"ssh"` contributes a URL; malformed clone links are
//! skipped rather than fatal, while a page without a `values` array is.
use vstd::prelude::*;
use vstd::string::StringExecFns;

use crate::config::BitbucketConfig;
use crate::decode::{json_of, parse_json};
use crate::json::{field_of, index_of, str_field_of, Json};
use crate::text::{concat_all, lemma_concat_all_push, views_of};
use crate::{BatchSink, CrawlError};

verus! {

/// The URL one clone-link entry contributes: its `href`, if the entry is
/// named `"ssh"` and both fields are strings.
pub open spec fn link_url(v: Json) -> Option<Seq<char>> {
    match (field_of(v, "name"@), field_of(v, "href"@)) {
        (Some(Json::Str(name)), Some(Json::Str(href))) => if name@ == "ssh"@ {
            Some(href@)
        } else {
            None
        },
        _ => None,
    }
}

/// Zero or one URL, as a sequence.
pub open spec fn opt_url_seq(o: Option<Seq<char>>) -> Seq<Seq<char>> {
    match o {
        Some(u) => seq![u],
        None => Seq::empty(),
    }
}

/// The URLs a clone-link list contributes, in order; entries that contribute
/// nothing are skipped, never fatal.
pub open spec fn clone_links_of(links: Seq<Json>) -> Seq<Seq<char>>
    decreases links.len(),
{
    if links.len() == 0 {
        Seq::empty()
    } else {
        clone_links_of(links.drop_last()) + opt_url_seq(link_url(links.last()))
    }
}

/// The URLs one repository item contributes: those of its `links.clone`
/// list, or none at all when that list is absent or not an array.
pub open spec fn item_urls(item: Json) -> Seq<Seq<char>> {
    match index_of(index_of(item, "links"@), "clone"@) {
        Json::Arr(links) => clone_links_of(links@),
        _ => Seq::empty(),
    }
}

/// The URLs all items of a page contribute, in response order.
pub open spec fn items_urls(items: Seq<Json>) -> Seq<Seq<char>>
    decreases items.len(),
{
    if items.len() == 0 {
        Seq::empty()
    } else {
        items_urls(items.drop_last()) + item_urls(items.last())
    }
}

/// The URLs of one page value: its `values` field must be an array; each
/// item then contributes its ssh clone links.
pub open spec fn page_urls_of(j: Json) -> Option<Seq<Seq<char>>> {
    match index_of(j, "values"@) {
        Json::Arr(items) => Some(items_urls(items@)),
        _ => None,
    }
}

/// The cursor to the next page: the page's `next` field, when it is a string.
pub open spec fn next_of(j: Json) -> Option<Seq<char>> {
    match index_of(j, "next"@) {
        Json::Str(s) => Some(s@),
        _ => None,
    }
}

/// The URLs of one page body, or `None` when the body is not usable JSON.
pub open spec fn bitbucket_page_urls(body: Seq<char>) -> Option<Seq<Seq<char>>> {
    match json_of(body) {
        Some(j) => page_urls_of(j),
        None => None,
    }
}

/// The `next` cursor of one page body.
pub open spec fn bitbucket_next(body: Seq<char>) -> Option<Seq<char>> {
    match json_of(body) {
        Some(j) => next_of(j),
        None => None,
    }
}

/// The token the exchange response carries: its `access_token` field, when
/// the body is JSON and that field is a string.
pub open spec fn token_of_body(body: Seq<char>) -> Option<Seq<char>> {
    match json_of(body) {
        Some(j) => match index_of(j, "access_token"@) {
            Json::Str(s) => Some(s@),
            _ => None,
        },
        None => None,
    }
}

/// Reads the URLs out of one clone-link list: only entries named `"ssh"`
/// with a string `href` count, anything else is skipped. Never fails.
pub fn parse_clone_links(a: &Vec<Json>) -> (r: Result<Vec<String>, CrawlError>)
    ensures
        match r {
            Ok(urls) => views_of(urls@) == clone_links_of(a@),
            Err(_) => false,
        },
{
    let mut out: Vec<String> = Vec::new();
    let ssh_name: String = "ssh".to_owned();
    let n = a.len();
    proof {
        assert(views_of(out@).len() == 0);
    }
    for i in 0..n
        invariant
            n == a@.len(),
            ssh_name@ == "ssh"@,
            views_of(out@) == clone_links_of(a@.take(i as int)),
    {
        let v = &a[i];
        let ghost prev = views_of(out@);
        match (v.get_field("name"), v.get_field("href")) {
            (Some(Json::Str(name)), Some(Json::Str(href))) => {
                if *name == ssh_name {
                    out.push(href.clone());
                    proof {
                        assert(link_url(a@[i as int]) == Some(href@));
                        assert(views_of(out@) =~= prev.push(href@));
                    }
                } else {
                    proof {
                        assert(link_url(a@[i as int]) is None);
                    }
                }
            },
            _ => {
                proof {
                    assert(link_url(a@[i as int]) is None);
                }
            },
        }
        proof {
            let cur = a@.take(i + 1);
            assert(cur.drop_last() =~= a@.take(i as int));
            assert(cur.last() == a@[i as int]);
            assert(views_of(out@) =~= prev + opt_url_seq(link_url(a@[i as int])));
        }
    }
    proof {
        assert(a@.take(n as int) =~= a@);
    }
    Ok(out)
}

/// One decoded page: the URLs it lists and the cursor to the next page.
#[derive(Debug)]
pub struct CrawlResult {
    pub next_url: Option<String>,
    pub repository_urls: Vec<String>,
}

/// Reads one page value: `values` must be an array; each item contributes
/// the `href` of its clone links named `"ssh"`, leniently.
pub fn parse_response(json: &Json) -> (r: Result<CrawlResult, CrawlError>)
    ensures
        match r {
            Ok(cr) => {
                &&& page_urls_of(*json) == Some(views_of(cr.repository_urls@))
                &&& cr.next_url.deep_view() == next_of(*json)
            },
            Err(e) => page_urls_of(*json) is None && e == CrawlError::Parse,
        },
{
    let next_url: Option<String> = match json.get_field("next") {
        Some(Json::Str(s)) => Some(s.clone()),
        _ => None,
    };
    proof {
        assert(next_url.deep_view() == next_of(*json));
    }
    match json.get_field("values") {
        Some(Json::Arr(items)) => {
            let mut urls: Vec<String> = Vec::new();
            let n = items.len();
            proof {
                assert(views_of(urls@).len() == 0);
            }
            for i in 0..n
                invariant
                    n == items@.len(),
                    page_urls_of(*json) == Some(items_urls(items@)),
                    views_of(urls@) == items_urls(items@.take(i as int)),
            {
                let item = &items[i];
                let ghost prev = views_of(urls@);
                let clone_field: Option<&Json> = match item.get_field("links") {
                    Some(links) => links.get_field("clone"),
                    None => None,
                };
                match clone_field {
                    Some(Json::Arr(links)) => {
                        match parse_clone_links(links) {
                            Ok(mut batch) => {
                                urls.append(&mut batch);
                                proof {
                                    assert(item_urls(items@[i as int]) == clone_links_of(links@));
                                }
                            },
                            Err(e) => {
                                return Err(e);
                            },
                        }
                    },
                    _ => {
                        proof {
                            assert(item_urls(items@[i as int]) =~= Seq::<Seq<char>>::empty());
                        }
                    },
                }
                proof {
                    let cur = items@.take(i + 1);
                    assert(cur.drop_last() =~= items@.take(i as int));
                    assert(cur.last() == items@[i as int]);
                    assert(views_of(urls@) =~= prev + item_urls(items@[i as int]));
                }
            }
            proof {
                assert(items@.take(n as int) =~= items@);
            }
            Ok(CrawlResult { next_url, repository_urls: urls })
        },
        _ => Err(CrawlError::Parse),
    }
}

/// The compute half of fetching one page: decode the body and read it.
pub fn parse_page(body: &str) -> (r: Result<CrawlResult, CrawlError>)
    ensures
        match r {
            Ok(cr) => {
                &&& bitbucket_page_urls(body@) == Some(views_of(cr.repository_urls@))
                &&& cr.next_url.deep_view() == bitbucket_next(body@)
            },
            Err(e) => bitbucket_page_urls(body@) is None && e == CrawlError::Parse,
        },
{
    match parse_json(body) {
        Some(j) => parse_response(&j),
        None => Err(CrawlError::Parse),
    }
}

/// Reads the `access_token` out of the token-exchange response body; a body
/// that is not JSON or carries no string `access_token` is a failed exchange.
pub fn parse_token_response(body: &str) -> (r: Result<String, CrawlError>)
    ensures
        match r {
            Ok(t) => token_of_body(body@) == Some(t@),
            Err(e) => token_of_body(body@) is None && e == CrawlError::TokenExchange,
        },
{
    match parse_json(body) {
        Some(j) => match j.get_field("access_token") {
            Some(Json::Str(s)) => Ok(s.clone()),
            _ => Err(CrawlError::TokenExchange),
        },
        None => Err(CrawlError::TokenExchange),
    }
}

/// The form fields of the OAuth token exchange: the app id and password as
/// the credentials of a `client_credentials` grant.
pub fn token_request_params(config: &BitbucketConfig) -> (r: Vec<(String, String)>)
    ensures
        r@.len() == 3,
        r@[0].0@ == "username"@ && r@[0].1@ == config.app_id@,
        r@[1].0@ == "password"@ && r@[1].1@ == config.app_password@,
        r@[2].0@ == "grant_type"@ && r@[2].1@ == "client_credentials"@,
{
    let mut v: Vec<(String, String)> = Vec::new();
    v.push(("username".to_owned(), config.app_id.clone()));
    v.push(("password".to_owned(), config.app_password.clone()));
    v.push(("grant_type".to_owned(), "client_credentials".to_owned()));
    v
}

/// Where the token exchange is posted.
pub fn token_endpoint() -> (r: &'static str)
    ensures
        r@ == "https://bitbucket.org/site/oauth2/access_token"@,
{
    "https://bitbucket.org/site/oauth2/access_token"
}

/// Where the first page of the repository listing lives.
pub fn first_url() -> (r: &'static str)
    ensures
        r@ == "https://api.bitbucket.org/2.0/repositories/?role=member&pagelen=100"@,
{
    "https://api.bitbucket.org/2.0/repositories/?role=member&pagelen=100"
}

/// The `Authorization` header value carrying the exchanged token.
pub fn bearer_header(token: &str) -> (r: String)
    ensures
        r@ == "Bearer "@ + token@,
{
    let mut h: String = "Bearer ".to_owned();
    h.append(token);
    h
}

/// A Bitbucket crawl in progress: the URL to fetch next, if any, and
/// everything accumulated so far.
pub struct BitbucketCrawl {
    next_url: Option<String>,
    urls: Vec<String>,
    batches: Ghost<Seq<Seq<Seq<char>>>>,
}

impl BitbucketCrawl {
    /// Everything accumulated so far, in fetch order.
    pub closed spec fn urls_view(self) -> Seq<Seq<char>> {
        views_of(self.urls@)
    }

    /// The URL batch of each page processed so far, in fetch order.
    pub closed spec fn batches_view(self) -> Seq<Seq<Seq<char>>> {
        self.batches@
    }

    /// The cursor: the URL the next request targets, until a page without a
    /// `next` field ends the chain.
    pub closed spec fn next_url_view(self) -> Option<Seq<char>> {
        self.next_url.deep_view()
    }

    pub closed spec fn wf(self) -> bool {
        self.urls_view() == concat_all(self.batches_view())
    }

    /// Another page is owed: the last response carried a `next` URL (or no
    /// page was fetched yet).
    pub open spec fn in_progress(self) -> bool {
        self.next_url_view() is Some
    }

    pub fn new() -> (r: BitbucketCrawl)
        ensures
            r.wf(),
            r.next_url_view() == Some(
                "https://api.bitbucket.org/2.0/repositories/?role=member&pagelen=100"@,
            ),
            r.urls_view() == Seq::<Seq<char>>::empty(),
            r.batches_view() == Seq::<Seq<Seq<char>>>::empty(),
    {
        let r = BitbucketCrawl {
            next_url: Some(first_url().to_owned()),
            urls: Vec::new(),
            batches: Ghost(Seq::empty()),
        };
        proof {
            assert(views_of(r.urls@) =~= Seq::<Seq<char>>::empty());
        }
        r
    }

    /// The URL to fetch next, or `None` once the link chain has ended.
    pub fn current_url(&self) -> (r: Option<String>)
        ensures
            match r {
                Some(u) => self.next_url_view() == Some(u@),
                None => !self.in_progress(),
            },
    {
        match &self.next_url {
            Some(u) => Some(u.clone()),
            None => None,
        }
    }

    /// Consumes the response for the page `current_url` asked for: forwards
    /// the page's URLs to `sink` (best effort), accumulates them, and takes
    /// the response's `next` URL as the new cursor.
    pub fn on_page<S: BatchSink>(&mut self, body: &str, sink: &mut S) -> (r: Result<
        (),
        CrawlError,
    >)
        requires
            old(self).wf(),
            old(self).in_progress(),
        ensures
            final(self).wf(),
            match r {
                Ok(()) => {
                    &&& bitbucket_page_urls(body@) is Some
                    &&& final(self).batches_view() == old(self).batches_view().push(
                        bitbucket_page_urls(body@).unwrap(),
                    )
                    &&& final(self).urls_view() == old(self).urls_view() + bitbucket_page_urls(
                        body@,
                    ).unwrap()
                    &&& final(self).next_url_view() == bitbucket_next(body@)
                },
                Err(e) => {
                    &&& e == CrawlError::Parse
                    &&& bitbucket_page_urls(body@) is None
                    &&& *final(self) == *old(self)
                },
            },
    {
        match parse_page(body) {
            Ok(cr) => {
                let CrawlResult { next_url, repository_urls: mut batch } = cr;
                let _ = sink.on_batch(&batch);
                let ghost batch_view = views_of(batch@);
                let ghost prev_urls = self.urls@;
                self.next_url = next_url;
                self.urls.append(&mut batch);
                self.batches = Ghost(self.batches@.push(batch_view));
                proof {
                    lemma_concat_all_push(old(self).batches@, batch_view);
                    assert(views_of(self.urls@) =~= views_of(prev_urls) + batch_view);
                }
                Ok(())
            },
            Err(e) => Err(e),
        }
    }

    /// The accumulated URL list, for the final cache write.
    pub fn urls(&self) -> (r: &Vec<String>)
        ensures
            views_of(r@) == self.urls_view(),
    {
        &self.urls
    }
}

/// A crawl's accumulated URL sequence is exactly the concatenation of its
/// pages' URL batches, in fetch order.
pub proof fn lemma_urls_are_concatenation(st: BitbucketCrawl)
    requires
        st.wf(),
    ensures
        st.urls_view() == concat_all(st.batches_view()),
{
}

/// An item whose clone-link list holds no entry named `"ssh"` contributes no
/// URL at all, and the crawl does not fail on its account.
pub proof fn lemma_no_ssh_entry_no_urls(links: Seq<Json>)
    requires
        forall|i: int|
            0 <= i < links.len() ==> str_field_of(#[trigger] links[i], "name"@) != Some("ssh"@),
    ensures
        clone_links_of(links).len() == 0,
    decreases links.len(),
{
    if links.len() > 0 {
        assert(forall|i: int|
            0 <= i < links.drop_last().len() ==> str_field_of(
                #[trigger] links.drop_last()[i],
                "name"@,
            ) != Some("ssh"@));
        lemma_no_ssh_entry_no_urls(links.drop_last());
        assert(str_field_of(links.last(), "name"@) != Some("ssh"@));
        assert(link_url(links.last()) is None);
    }
}

/// A clone link named `"ssh"` whose `href` is not a string is skipped, not
/// fatal, and only that single link is lost: adding it to a list leaves the
/// extracted URLs unchanged.
pub proof fn lemma_non_string_href_skipped(links: Seq<Json>, v: Json)
    requires
        str_field_of(v, "name"@) == Some("ssh"@),
        !(field_of(v, "href"@) matches Some(Json::Str(_))),
    ensures
        clone_links_of(links.push(v)) == clone_links_of(links),
{
    assert(links.push(v).drop_last() =~= links);
    assert(links.push(v).last() == v);
    assert(link_url(v) is None);
}

} // verus!
