//! Collection of the readings of a list of days, one page at a time.
//!
//! The caller performs each request that `Fetcher::next_request` names and
//! hands the decoded page back to `Fetcher::absorb_page`; the fetcher keeps
//! the readings in the order of the days and of their pages, follows each
//! day's cursor until it is absent, and stops at a limit on the pages.
use vstd::prelude::*;
use vstd::string::*;

use crate::chart::DataPoint;
use crate::config::RequestParameters;
use crate::error::FetchError;
use crate::opt_view;

verus! {

/// The address of the first page of a day's readings of an inverter.
pub open spec fn first_page_url_of(inverter_id: Seq<char>, date: Seq<char>) -> Seq<char> {
    "https://api.givenergy.cloud/v1/inverter/"@ + inverter_id + "/data-points/"@ + date
        + "?page=1"@
}

/// The address of the first page of a day's readings of an inverter.
pub fn first_page_url(inverter_id: &str, date: &str) -> (r: String)
    ensures
        r@ == first_page_url_of(inverter_id@, date@),
{
    let mut url = "https://api.givenergy.cloud/v1/inverter/".to_owned();
    url.append(inverter_id);
    url.append("/data-points/");
    url.append(date);
    url.append("?page=1");
    url
}

/// One decoded response: readings, and the address of the next page if any.
#[derive(Debug)]
pub struct Page {
    pub data: Vec<DataPoint>,
    pub next: Option<String>,
}

/// The state of a collection, as values.
pub struct FetchModel {
    pub inverter_id: Seq<char>,
    pub dates: Seq<Seq<char>>,
    /// Index of the day being collected; all days are done at `dates.len()`.
    pub day: nat,
    /// The next page of the current day, once its first page is in.
    pub cursor: Option<Seq<char>>,
    pub points: Seq<DataPoint>,
    pub pages: nat,
    pub max_pages: nat,
}

/// The address to request next, or `None` once every day is collected.
pub open spec fn pending(m: FetchModel) -> Option<Seq<char>> {
    if m.day < m.dates.len() {
        match m.cursor {
            Some(u) => Some(u),
            None => Some(first_page_url_of(m.inverter_id, m.dates[m.day as int])),
        }
    } else {
        None
    }
}

/// The state after a page: its readings are appended; its cursor is
/// followed, or the next day begins where it has none.
pub open spec fn absorb(m: FetchModel, page: Page) -> FetchModel {
    FetchModel {
        points: m.points + page.data@,
        pages: m.pages + 1,
        day: if page.next is Some { m.day } else { m.day + 1 },
        cursor: opt_view(page.next),
        ..m
    }
}

/// The state after each of the pages in turn.
pub open spec fn absorb_all(m: FetchModel, pages: Seq<Page>) -> FetchModel
    decreases pages.len(),
{
    if pages.len() == 0 {
        m
    } else {
        absorb_all(absorb(m, pages[0]), pages.drop_first())
    }
}

/// The readings of the pages, page after page.
pub open spec fn page_points(pages: Seq<Page>) -> Seq<DataPoint>
    decreases pages.len(),
{
    if pages.len() == 0 {
        Seq::empty()
    } else {
        pages[0].data@ + page_points(pages.drop_first())
    }
}

/// How many of the pages end a day's chain (have no next page).
pub open spec fn chain_ends(pages: Seq<Page>) -> nat
    decreases pages.len(),
{
    if pages.len() == 0 {
        0
    } else {
        (if pages[0].next is None { 1nat } else { 0nat }) + chain_ends(pages.drop_first())
    }
}

/// The collected readings are those held before followed by those of every
/// page, in the order in which the pages came: nothing is reordered, across
/// pages of a day or across days.
pub proof fn lemma_points_follow_pages(m: FetchModel, pages: Seq<Page>)
    ensures
        absorb_all(m, pages).points == m.points + page_points(pages),
    decreases pages.len(),
{
    if pages.len() > 0 {
        lemma_points_follow_pages(absorb(m, pages[0]), pages.drop_first());
        assert(m.points + page_points(pages) =~= m.points + pages[0].data@ + page_points(
            pages.drop_first(),
        ));
    }
}

/// Each page counts once, and each page without a next page moves on by one
/// day.
pub proof fn lemma_progress(m: FetchModel, pages: Seq<Page>)
    ensures
        absorb_all(m, pages).day == m.day + chain_ends(pages),
        absorb_all(m, pages).pages == m.pages + pages.len(),
        absorb_all(m, pages).dates == m.dates,
        absorb_all(m, pages).inverter_id == m.inverter_id,
    decreases pages.len(),
{
    if pages.len() > 0 {
        lemma_progress(absorb(m, pages[0]), pages.drop_first());
    }
}

/// A prefix ends no more chains than the whole; dropping a chain-ending last
/// page ends one fewer.
proof fn lemma_chain_ends_prefix(pages: Seq<Page>, k: int)
    requires
        0 <= k <= pages.len(),
    ensures
        chain_ends(pages.take(k)) <= chain_ends(pages),
        k == pages.len() - 1 && pages.last().next is None ==> chain_ends(pages.take(k)) + 1
            == chain_ends(pages),
    decreases pages.len(),
{
    if pages.len() > 0 {
        if k == 0 {
            assert(pages.take(0).len() == 0);
            if k == pages.len() - 1 && pages.last().next is None {
                assert(pages.drop_first().len() == 0);
                assert(chain_ends(pages.drop_first()) == 0);
                assert(pages[0] == pages.last());
                assert(chain_ends(pages) == 1);
            }
        } else {
            lemma_chain_ends_prefix(pages.drop_first(), k - 1);
            assert(pages.take(k).drop_first() =~= pages.drop_first().take(k - 1));
            assert(pages.take(k)[0] == pages[0]);
            if k == pages.len() - 1 {
                assert(pages.drop_first().last() == pages.last());
                assert(chain_ends(pages.take(k)) == (if pages[0].next is None { 1nat } else { 0nat }) + chain_ends(pages.drop_first().take(k - 1)));
            }
        }
    }
}

/// Where the pages hold exactly one chain for each day still to collect,
/// the last page ending the last chain, the collection asks for exactly one
/// request per page: a request is pending before each page, and none after
/// the last.
pub proof fn lemma_one_request_per_page(m: FetchModel, pages: Seq<Page>)
    requires
        m.day <= m.dates.len(),
        chain_ends(pages) == m.dates.len() - m.day,
        pages.len() > 0 ==> pages.last().next is None,
    ensures
        pending(absorb_all(m, pages)) is None,
        forall|k: int| 0 <= k < pages.len() ==> (#[trigger] pending(absorb_all(m, pages.take(k)))) is Some,
{
    lemma_progress(m, pages);
    assert forall|k: int| 0 <= k < pages.len() implies (#[trigger] pending(
        absorb_all(m, pages.take(k)),
    )) is Some by {
        lemma_progress(m, pages.take(k));
        lemma_chain_ends_prefix(pages, k);
        lemma_chain_ends_prefix(pages, pages.len() - 1);
        lemma_chain_ends_prefix(pages.take(pages.len() - 1), k);
        assert(pages.take(pages.len() - 1).take(k) =~= pages.take(k));
    }
}

/// A collection in progress over a list of days.
pub struct Fetcher {
    inverter_id: String,
    dates: Vec<String>,
    day: usize,
    cursor: Option<String>,
    points: Vec<DataPoint>,
    pages: usize,
    max_pages: usize,
}

impl Fetcher {
    pub closed spec fn model(&self) -> FetchModel {
        FetchModel {
            inverter_id: self.inverter_id@,
            dates: self.dates@.map_values(|d: String| d@),
            day: self.day as nat,
            cursor: opt_view(self.cursor),
            points: self.points@,
            pages: self.pages as nat,
            max_pages: self.max_pages as nat,
        }
    }

    pub closed spec fn wf(&self) -> bool {
        &&& self.day <= self.dates@.len()
        &&& self.pages <= self.max_pages
    }

    /// A collection of the given days, in the given order, of at most
    /// `max_pages` pages in all.
    pub fn new(params: &RequestParameters, dates: Vec<String>, max_pages: usize) -> (r: Fetcher)
        ensures
            r.wf(),
            r.model() == (FetchModel {
                inverter_id: params.inverter_id@,
                dates: dates@.map_values(|d: String| d@),
                day: 0,
                cursor: None,
                points: Seq::empty(),
                pages: 0,
                max_pages: max_pages as nat,
            }),
    {
        Fetcher {
            inverter_id: params.inverter_id.clone(),
            dates,
            day: 0,
            cursor: None,
            points: Vec::new(),
            pages: 0,
            max_pages,
        }
    }

    /// The address to request next; `None` once every day is collected; the
    /// page limit where a request is due and the limit is reached.
    pub fn next_request(&self) -> (r: Result<Option<String>, FetchError>)
        requires
            self.wf(),
        ensures
            match pending(self.model()) {
                None => r matches Ok(None),
                Some(u) => if self.model().pages >= self.model().max_pages {
                    r matches Err(FetchError::TooManyPages { limit }) && limit
                        == self.model().max_pages
                } else {
                    r matches Ok(Some(s)) && s@ == u
                },
            },
    {
        if self.day >= self.dates.len() {
            return Ok(None);
        }
        if self.pages >= self.max_pages {
            return Err(FetchError::TooManyPages { limit: self.max_pages });
        }
        match &self.cursor {
            Some(u) => Ok(Some(u.clone())),
            None => Ok(Some(first_page_url(self.inverter_id.as_str(), self.dates[self.day].as_str()))),
        }
    }

    /// Takes in the page that answered the pending request.
    pub fn absorb_page(&mut self, page: Page)
        requires
            old(self).wf(),
            pending(old(self).model()) is Some,
            old(self).model().pages < old(self).model().max_pages,
        ensures
            final(self).wf(),
            final(self).model() == absorb(old(self).model(), page),
    {
        let ghost g = page;
        assert(old(self).model().dates.len() == old(self).dates@.len());
        let Page { mut data, next } = page;
        self.points.append(&mut data);
        self.pages = self.pages + 1;
        let n_dates = self.dates.len();
        if next.is_none() {
            assert(self.day < n_dates);
            self.day = self.day + 1;
        }
        self.cursor = next;
        assert(self.model().points =~= absorb(old(self).model(), g).points);
    }

    /// Whether every day is collected.
    pub fn is_finished(&self) -> (r: bool)
        requires
            self.wf(),
        ensures
            r == (pending(self.model()) is None),
    {
        self.day >= self.dates.len()
    }

    /// The readings collected so far.
    pub fn into_points(self) -> (r: Vec<DataPoint>)
        ensures
            r@ == self.model().points,
    {
        self.points
    }
}

} // verus!
