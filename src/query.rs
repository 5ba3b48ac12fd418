use vstd::prelude::*;

use crate::decimal::{parse_u16, parse_u16_or_zero};

verus! {

/// Whether `url::Url::parse` accepts the text as a URL.
pub uninterp spec fn url_parses(s: Seq<char>) -> bool;

/// The decoded key/value pairs, in order, that `url::Url::query_pairs`
/// yields for the URL parsed from the text.
pub uninterp spec fn url_query_pairs(s: Seq<char>) -> Seq<(Seq<char>, Seq<char>)>;

pub open spec fn pairs_view(v: Seq<(String, String)>) -> Seq<(Seq<char>, Seq<char>)> {
    v.map_values(|p: (String, String)| (p.0@, p.1@))
}

/// Relies on `url::Url::parse` to accept or refuse the text, and on
/// `url::Url::query_pairs` for the decoded pairs of the query of an accepted URL.
#[verifier::external_body]
pub(crate) fn parse_query_pairs(s: &str) -> (r: Option<Vec<(String, String)>>)
    ensures
        r is Some <==> url_parses(s@),
        r matches Some(v) ==> pairs_view(v@) == url_query_pairs(s@),
{
    match url::Url::parse(s) {
        Ok(u) => Some(u.query_pairs().map(|(k, v)| (k.into_owned(), v.into_owned())).collect()),
        Err(_) => None,
    }
}

/// Value of the last pair whose key is `key`.
pub open spec fn last_value(pairs: Seq<(Seq<char>, Seq<char>)>, key: Seq<char>) -> Option<
    Seq<char>,
>
    decreases pairs.len(),
{
    if pairs.len() == 0 {
        None
    } else if pairs.last().0 == key {
        Some(pairs.last().1)
    } else {
        last_value(pairs.drop_last(), key)
    }
}

/// Value of the first pair whose key is `key`.
pub open spec fn first_value(pairs: Seq<(Seq<char>, Seq<char>)>, key: Seq<char>) -> Option<
    Seq<char>,
>
    decreases pairs.len(),
{
    if pairs.len() == 0 {
        None
    } else if pairs[0].0 == key {
        Some(pairs[0].1)
    } else {
        first_value(pairs.drop_first(), key)
    }
}

pub open spec fn value_or_empty(v: Option<Seq<char>>) -> Seq<char> {
    match v {
        Some(s) => s,
        None => Seq::empty(),
    }
}

pub open spec fn board_key() -> Seq<char> {
    "bsn"@
}

pub open spec fn thread_key() -> Seq<char> {
    "snA"@
}

pub open spec fn floor_key() -> Seq<char> {
    "tnum"@
}

/// Whether two texts hold the same characters.
pub fn text_is(a: &str, b: &str) -> (r: bool)
    ensures
        r == (a@ == b@),
{
    let n = a.unicode_len();
    if n != b.unicode_len() {
        return false;
    }
    let mut i: usize = 0;
    while i < n
        invariant
            n == a@.len(),
            n == b@.len(),
            i <= n,
            a@.subrange(0, i as int) == b@.subrange(0, i as int),
        decreases n - i,
    {
        if a.get_char(i) != b.get_char(i) {
            return false;
        }
        assert(a@.subrange(0, i + 1) =~= a@.subrange(0, i as int).push(a@[i as int]));
        assert(b@.subrange(0, i + 1) =~= b@.subrange(0, i as int).push(b@[i as int]));
        i = i + 1;
    }
    assert(a@ =~= a@.subrange(0, n as int));
    assert(b@ =~= b@.subrange(0, n as int));
    true
}

/// Index of the first pair whose key is `key`, if any.
pub fn find_first(pairs: &Vec<(String, String)>, key: &str) -> (r: Option<usize>)
    ensures
        match r {
            Some(i) => i < pairs@.len() && first_value(pairs_view(pairs@), key@) == Some(
                pairs@[i as int].1@,
            ),
            None => first_value(pairs_view(pairs@), key@) is None,
        },
{
    let ghost all = pairs_view(pairs@);
    assert(all.subrange(0, all.len() as int) =~= all);
    let mut i: usize = 0;
    while i < pairs.len()
        invariant
            i <= pairs@.len(),
            all == pairs_view(pairs@),
            first_value(all, key@) == first_value(all.subrange(i as int, all.len() as int), key@),
        decreases pairs@.len() - i,
    {
        let ghost rest = all.subrange(i as int, all.len() as int);
        assert(rest.drop_first() =~= all.subrange(i + 1, all.len() as int));
        assert(rest[0] == all[i as int]);
        if text_is(pairs[i].0.as_str(), key) {
            return Some(i);
        }
        i = i + 1;
    }
    assert(all.subrange(i as int, all.len() as int).len() == 0);
    None
}

/// The thread a URL designates: board id, thread id, and anchor floor
/// (0 when unset).
pub struct PostPageUrlParameter {
    pub board_id: String,
    pub id: String,
    pub floor: u16,
}

pub enum UrlError {
    /// The text is not a URL.
    InvalidUrl,
}

impl UrlError {
    /// A short description of the failure.
    pub fn message(&self) -> &'static str {
        "invalid url string"
    }
}

/// Board id taken from query pairs: the last `bsn` value, or empty.
pub open spec fn board_of(pairs: Seq<(Seq<char>, Seq<char>)>) -> Seq<char> {
    value_or_empty(last_value(pairs, board_key()))
}

/// Thread id taken from query pairs: the last `snA` value, or empty.
pub open spec fn thread_of(pairs: Seq<(Seq<char>, Seq<char>)>) -> Seq<char> {
    value_or_empty(last_value(pairs, thread_key()))
}

/// Anchor floor taken from query pairs: the last `tnum` value read as a
/// number, 0 when it is missing or not a number.
pub open spec fn anchor_floor_of(pairs: Seq<(Seq<char>, Seq<char>)>) -> u16 {
    match last_value(pairs, floor_key()) {
        Some(v) => parse_u16_or_zero(v),
        None => 0,
    }
}

impl PostPageUrlParameter {
    pub open spec fn matches_pairs(&self, pairs: Seq<(Seq<char>, Seq<char>)>) -> bool {
        &&& self.board_id@ == board_of(pairs)
        &&& self.id@ == thread_of(pairs)
        &&& self.floor == anchor_floor_of(pairs)
    }

    /// Reads the thread identity from a URL's query pairs. Missing ids are
    /// empty; a missing or malformed floor is 0.
    pub fn from_query_pairs(pairs: &Vec<(String, String)>) -> (r: PostPageUrlParameter)
        ensures
            r.matches_pairs(pairs_view(pairs@)),
    {
        let ghost all = pairs_view(pairs@);
        let mut board_id = String::new();
        let mut id = String::new();
        let mut floor: u16 = 0;
        let mut i: usize = 0;
        while i < pairs.len()
            invariant
                i <= pairs@.len(),
                all == pairs_view(pairs@),
                board_id@ == board_of(all.subrange(0, i as int)),
                id@ == thread_of(all.subrange(0, i as int)),
                floor == anchor_floor_of(all.subrange(0, i as int)),
            decreases pairs@.len() - i,
        {
            let ghost next = all.subrange(0, i + 1);
            assert(next.drop_last() =~= all.subrange(0, i as int));
            assert(next.last() == all[i as int]);
            let k = pairs[i].0.as_str();
            let v = &pairs[i].1;
            if text_is(k, "snA") {
                id = v.clone();
            }
            if text_is(k, "bsn") {
                board_id = v.clone();
            }
            if text_is(k, "tnum") {
                floor = match parse_u16(v.as_str()) {
                    Some(n) => n,
                    None => 0,
                };
            }
            i = i + 1;
        }
        assert(all.subrange(0, pairs@.len() as int) =~= all);
        PostPageUrlParameter { board_id, id, floor }
    }

    /// Reads the thread identity from a URL text; fails only when the text
    /// is not a URL.
    pub fn from_url(s: &str) -> (r: Result<PostPageUrlParameter, UrlError>)
        ensures
            r is Ok <==> url_parses(s@),
            r matches Ok(p) ==> p.matches_pairs(url_query_pairs(s@)),
    {
        match parse_query_pairs(s) {
            Some(pairs) => Ok(PostPageUrlParameter::from_query_pairs(&pairs)),
            None => Err(UrlError::InvalidUrl),
        }
    }

    pub fn board_id(&self) -> (r: &str)
        ensures
            r@ == self.board_id@,
    {
        self.board_id.as_str()
    }

    pub fn id(&self) -> (r: &str)
        ensures
            r@ == self.id@,
    {
        self.id.as_str()
    }

    pub fn floor(&self) -> (r: u16)
        ensures
            r == self.floor,
    {
        self.floor
    }
}

} // verus!
