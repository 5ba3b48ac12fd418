use vstd::prelude::*;

use std::collections::HashMap;

use crate::decimal::{decimal_of, parse_u16, push_decimal};
use crate::post::{max_page_of, Post, ThreadDocument};
use crate::query::PostPageUrlParameter;

verus! {

broadcast use vstd::std_specs::hash::group_hash_axioms;

/// The cache after a fetch of `page` that produced `content`: an entry once
/// written is kept as it is.
pub open spec fn cache_fill(
    cache: Map<u16, Option<Post>>,
    page: u16,
    content: Option<Post>,
) -> Map<u16, Option<Post>> {
    if cache.contains_key(page) {
        cache
    } else {
        cache.insert(page, content)
    }
}

/// Address of one page of a thread.
pub open spec fn page_url(
    domain: Seq<char>,
    board_id: Seq<char>,
    id: Seq<char>,
    page: u16,
    floor: u16,
) -> Seq<char> {
    domain + "/C.php?bsn="@ + board_id + "&snA="@ + id + "&page="@ + decimal_of(page as nat)
        + "&tnum="@ + decimal_of(floor as nat)
}

/// A thread read page by page: where it stands, how many pages it has
/// (0 until known), and what each fetched page yielded.
pub struct PostPage {
    pub board_id: String,
    pub id: String,
    pub page: u16,
    pub max: u16,
    pub floor: u16,
    domain: String,
    cache: HashMap<u16, Option<Post>>,
}

/// A snapshot of a `PostPage`'s position, without its cache.
pub struct PostPageRef {
    pub board_id: String,
    pub id: String,
    pub page: u16,
    pub max: u16,
    pub floor: u16,
}

/// The state of a `PostPage` in plain values.
pub ghost struct PageState {
    pub board_id: Seq<char>,
    pub id: Seq<char>,
    pub page: u16,
    pub max: u16,
    pub floor: u16,
    pub domain: Seq<char>,
    /// Absent pages were never fetched; a page mapped to `None` was fetched
    /// and yielded nothing.
    pub cache: Map<u16, Option<Post>>,
}

impl View for PostPage {
    type V = PageState;

    closed spec fn view(&self) -> PageState {
        PageState {
            board_id: self.board_id@,
            id: self.id@,
            page: self.page,
            max: self.max,
            floor: self.floor,
            domain: self.domain@,
            cache: self.cache@,
        }
    }
}

impl PageState {
    /// Address of `page` for this thread.
    pub open spec fn url_of(self, page: u16) -> Seq<char> {
        page_url(self.domain, self.board_id, self.id, page, self.floor)
    }
}

/// A thread at page 1, with nothing known of its page count and nothing fetched.
pub open spec fn fresh_state(board_id: Seq<char>, id: Seq<char>, domain: Seq<char>) -> PageState {
    PageState {
        board_id,
        id,
        page: 1,
        max: 0,
        floor: 0,
        domain,
        cache: Map::empty(),
    }
}

impl PostPage {
    /// A thread on the forum's own site, at page 1, with nothing fetched.
    pub fn new(board_id: &str, id: &str) -> (r: PostPage)
        ensures
            r@ == fresh_state(board_id@, id@, default_domain()),
    {
        PostPage::with_domain(board_id, id, "https://forum.gamer.com.tw")
    }

    /// A thread on the site at `domain` (scheme and host, no trailing
    /// slash), at page 1, with nothing fetched.
    pub fn with_domain(board_id: &str, id: &str, domain: &str) -> (r: PostPage)
        ensures
            r@ == fresh_state(board_id@, id@, domain@),
    {
        PostPage {
            board_id: board_id.to_owned(),
            id: id.to_owned(),
            page: 1,
            max: 0,
            floor: 0,
            domain: domain.to_owned(),
            cache: HashMap::new(),
        }
    }

    /// The thread a URL parameter designates, anchored at its floor.
    pub fn from_parameter(param: PostPageUrlParameter) -> (r: PostPage)
        ensures
            r@ == (PageState {
                floor: param.floor,
                ..fresh_state(param.board_id@, param.id@, default_domain())
            }),
    {
        let mut page = PostPage::new(param.board_id.as_str(), param.id.as_str());
        page.floor(param.floor);
        page
    }

    /// Learns the page count from the first page: the number in the last
    /// link of its pagination control, 0 when there is none or it is not
    /// a number.
    pub fn init(&mut self, first_page: &ThreadDocument)
        ensures
            final(self)@ == (PageState { max: max_page_of(first_page.page_links@), ..old(self)@ }),
    {
        self.max = PostPage::max_page(first_page);
    }

    /// The page count that a page's pagination control shows.
    pub fn max_page(document: &ThreadDocument) -> (r: u16)
        ensures
            r == max_page_of(document.page_links@),
    {
        let n = document.page_links.len();
        if n == 0 {
            return 0;
        }
        match &document.page_links[n - 1] {
            Some(t) => match parse_u16(t.as_str()) {
                Some(v) => v,
                None => 0,
            },
            None => 0,
        }
    }

    /// Sets the floor that page addresses anchor to.
    pub fn floor(&mut self, floor: u16)
        ensures
            final(self)@ == (PageState { floor: floor, ..old(self)@ }),
    {
        self.floor = floor;
    }

    pub fn cache(&self) -> (r: &HashMap<u16, Option<Post>>)
        ensures
            r@ == self@.cache,
    {
        &self.cache
    }

    /// What fetching `page` yielded, or `None` when it was never fetched.
    pub fn get(&self, page: u16) -> (r: Option<&Option<Post>>)
        ensures
            r is Some <==> self@.cache.contains_key(page),
            r matches Some(v) ==> *v == self@.cache[page],
    {
        self.cache.get(&page)
    }

    /// Whether `page` still has to be fetched.
    pub fn needs_fetch(&self, page: u16) -> (r: bool)
        ensures
            r == !self@.cache.contains_key(page),
    {
        !self.cache.contains_key(&page)
    }

    /// Records what fetching `page` yielded. A page already recorded keeps
    /// its first entry.
    pub fn insert_cache(&mut self, page: u16, obj: Option<Post>)
        ensures
            final(self)@ == (PageState { cache: cache_fill(old(self)@.cache, page, obj), ..old(self)@ }),
    {
        if !self.cache.contains_key(&page) {
            self.cache.insert(page, obj);
        }
    }

    /// Address of `page` of this thread.
    pub fn url(&self, page: u16) -> (r: String)
        ensures
            r@ == self@.url_of(page),
    {
        let mut s = self.domain.clone();
        s.append("/C.php?bsn=");
        s.append(self.board_id.as_str());
        s.append("&snA=");
        s.append(self.id.as_str());
        s.append("&page=");
        push_decimal(&mut s, page);
        s.append("&tnum=");
        push_decimal(&mut s, self.floor);
        s
    }

    pub fn page(&self) -> (r: u16)
        ensures
            r == self@.page,
    {
        self.page
    }

    /// Moves to the next page. Callers check `max` first.
    pub fn increase_page(&mut self)
        requires
            old(self)@.page < u16::MAX,
        ensures
            final(self)@ == (PageState { page: (old(self)@.page + 1) as u16, ..old(self)@ }),
    {
        self.page = self.page + 1;
    }

    /// Moves to the previous page; never below the first.
    pub fn decrease_page(&mut self)
        requires
            old(self)@.page > 1,
        ensures
            final(self)@ == (PageState { page: (old(self)@.page - 1) as u16, ..old(self)@ }),
    {
        self.page = self.page - 1;
    }

    pub fn max(&self) -> (r: u16)
        ensures
            r == self@.max,
    {
        self.max
    }
}

pub open spec fn default_domain() -> Seq<char> {
    "https://forum.gamer.com.tw"@
}

impl PostPageRef {
    /// Snapshot of a thread's position. Both `page` and `max` record the
    /// current page.
    pub fn from_page(value: &PostPage) -> (r: PostPageRef)
        ensures
            r.board_id@ == value@.board_id,
            r.id@ == value@.id,
            r.page == value@.page,
            r.max == value@.page,
            r.floor == value@.floor,
    {
        PostPageRef {
            board_id: value.board_id.clone(),
            id: value.id.clone(),
            page: value.page,
            max: value.page,
            floor: value.floor,
        }
    }
}

/// Once a page is cached it stays as first recorded: a later fetch result for
/// it, or the filling of any other page, leaves its entry as it is, so it is
/// never fetched again and always reads back the same value.
pub proof fn lemma_cached_page_is_stable(
    cache: Map<u16, Option<Post>>,
    page: u16,
    first: Option<Post>,
    later: Option<Post>,
    other: u16,
    other_content: Option<Post>,
)
    ensures
        cache_fill(cache, page, first).contains_key(page),
        cache_fill(cache_fill(cache, page, first), page, later) == cache_fill(cache, page, first),
        cache.contains_key(page) ==> cache_fill(cache, page, first)[page] == cache[page],
        !cache.contains_key(page) ==> cache_fill(cache, page, first)[page] == first,
        cache.contains_key(page) ==> cache_fill(cache, other, other_content).contains_key(page)
            && cache_fill(cache, other, other_content)[page] == cache[page],
{
}

/// The address of a page depends only on the site, the board, the thread,
/// the anchor floor and the page number: never on the cache or the position.
pub proof fn lemma_url_deterministic(a: PageState, b: PageState, page: u16)
    requires
        a.domain == b.domain,
        a.board_id == b.board_id,
        a.id == b.id,
        a.floor == b.floor,
    ensures
        a.url_of(page) == b.url_of(page),
{
}

} // verus!
