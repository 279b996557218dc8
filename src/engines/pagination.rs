use crate::engines::request::{form_field_set, form_fields, field_views};
use crate::engines::results_page::params_view;
use crate::error::VideoSearchError;
use crate::models::{raw_views, PageParams, PageParamsView, RawSearchResult, RawSearchResultView};
use vstd::prelude::*;

verus! {

/// Whether a search that has fetched `fetched` pages of at most `max_pages`, and whose last
/// page reported a continuation token or not (`has_token`), goes on to fetch another page.
pub open spec fn continues(fetched: nat, max_pages: nat, has_token: bool) -> bool {
    has_token && fetched + 1 < max_pages
}

/// The state of one paginated search between two page fetches.
pub struct SearchSession {
    results: Vec<RawSearchResult>,
    next: Option<PageParams>,
    pages_fetched: usize,
    max_pages: usize,
}

/// What a search does after a page: fetch another one, or end with its outcome.
pub enum SearchStep {
    /// Fetch the next page, with this session.
    Fetch(SearchSession),
    /// The search is over.
    Finished(Result<Vec<RawSearchResult>, VideoSearchError>),
}

impl SearchSession {
    /// The results gathered so far.
    pub closed spec fn gathered(&self) -> Seq<RawSearchResultView> {
        raw_views(self.results@)
    }

    /// The continuation that the next fetch carries; none for the first page.
    pub closed spec fn continuation(&self) -> Option<PageParamsView> {
        params_view(self.next)
    }

    /// The number of pages fetched so far.
    pub closed spec fn fetched(&self) -> nat {
        self.pages_fetched as nat
    }

    /// The largest number of pages this search fetches.
    pub closed spec fn page_cap(&self) -> nat {
        self.max_pages as nat
    }

    /// A session that has another page to fetch: below its cap, and, after the first page,
    /// holding the token that the last page reported.
    pub open spec fn wf(&self) -> bool {
        self.fetched() < self.page_cap() && (self.fetched() == 0 ==> self.continuation() is None
            && self.gathered().len() == 0) && (self.fetched() > 0 ==> self.continuation() is Some)
    }

    /// A search that fetches at most `max_pages` pages; `ConfigError` where that is zero.
    pub fn start(max_pages: usize) -> (r: Result<SearchSession, VideoSearchError>)
        ensures
            r is Err <==> max_pages == 0,
            r matches Err(e) ==> e is ConfigError,
            r matches Ok(s) ==> s.wf() && s.fetched() == 0 && s.page_cap() == max_pages,
    {
        if max_pages == 0 {
            return Err(VideoSearchError::ConfigError(String::from_str("max_pages must be at least 1")));
        }
        Ok(SearchSession { results: Vec::new(), next: None, pages_fetched: 0, max_pages })
    }

    /// The form fields of the next page request for `query`.
    pub fn next_form(&self, query: &str) -> (r: Vec<(String, String)>)
        ensures
            field_views(r@) == form_field_set(query@, self.continuation()),
    {
        match &self.next {
            Some(p) => form_fields(query, Some(p)),
            None => form_fields(query, None),
        }
    }

    /// Takes in the outcome of the page just fetched. A failed page ends the search with its
    /// error, and nothing gathered is returned. Otherwise its results are appended, and the
    /// search goes on while the page reported a continuation and the cap is not reached;
    /// where it ends, it returns all results, or `NoResults` if there is none.
    pub fn advance(self, page: Result<(Vec<RawSearchResult>, Option<PageParams>), VideoSearchError>) -> (r: SearchStep)
        requires
            self.wf(),
        ensures
            page matches Err(e) ==> r matches SearchStep::Finished(Err(e2)) && e2 == e,
            page matches Ok((rs, p)) ==> {
                let all = self.gathered() + raw_views(rs@);
                if continues(self.fetched(), self.page_cap(), p is Some) {
                    r matches SearchStep::Fetch(s) && s.wf() && s.gathered() == all
                        && s.fetched() == self.fetched() + 1 && s.page_cap() == self.page_cap()
                        && s.continuation() == params_view(p)
                } else if all.len() == 0 {
                    r matches SearchStep::Finished(Err(e)) && e is NoResults
                } else {
                    r matches SearchStep::Finished(Ok(v)) && raw_views(v@) == all
                }
            },
    {
        match page {
            Err(e) => SearchStep::Finished(Err(e)),
            Ok((rs, p)) => {
                let mut results = self.results;
                let mut rs = rs;
                let ghost before = results@;
                let ghost added = rs@;
                results.append(&mut rs);
                assert(raw_views(results@) =~= raw_views(before) + raw_views(added));
                let fetched = self.pages_fetched + 1;
                if p.is_some() && fetched < self.max_pages {
                    SearchStep::Fetch(
                        SearchSession { results, next: p, pages_fetched: fetched, max_pages: self.max_pages },
                    )
                } else if results.len() == 0 {
                    SearchStep::Finished(Err(VideoSearchError::NoResults))
                } else {
                    SearchStep::Finished(Ok(results))
                }
            },
        }
    }
}

/// The number of pages that a search capped at `max_pages`, having fetched `fetched`,
/// fetches in all, when the pages that follow report a continuation token as `tokens` says.
pub open spec fn pages_in_run(fetched: nat, max_pages: nat, tokens: Seq<bool>) -> nat
    decreases tokens.len(),
{
    if tokens.len() == 0 {
        fetched
    } else if continues(fetched, max_pages, tokens[0]) {
        pages_in_run(fetched + 1, max_pages, tokens.drop_first())
    } else {
        fetched + 1
    }
}

proof fn lemma_pages_in_run_from(fetched: nat, max_pages: nat, tokens: Seq<bool>)
    requires
        fetched < max_pages,
        tokens.len() + fetched >= max_pages,
    ensures
        fetched + 1 <= pages_in_run(fetched, max_pages, tokens) <= max_pages,
        pages_in_run(fetched, max_pages, tokens) < max_pages ==> !tokens[pages_in_run(
            fetched,
            max_pages,
            tokens,
        ) - fetched - 1],
    decreases tokens.len(),
{
    if continues(fetched, max_pages, tokens[0]) {
        lemma_pages_in_run_from(fetched + 1, max_pages, tokens.drop_first());
    }
}

/// A search capped at `max_pages` pages fetches at least one page and at most
/// `max_pages`, and fewer than `max_pages` only where the last page it fetched reported no
/// continuation token (`tokens[k]` tells whether page `k` reports one).
pub proof fn lemma_page_cap(max_pages: nat, tokens: Seq<bool>)
    requires
        max_pages >= 1,
        tokens.len() >= max_pages,
    ensures
        1 <= pages_in_run(0, max_pages, tokens) <= max_pages,
        pages_in_run(0, max_pages, tokens) < max_pages ==> !tokens[pages_in_run(
            0,
            max_pages,
            tokens,
        ) - 1],
{
    lemma_pages_in_run_from(0, max_pages, tokens);
}

} // verus!
