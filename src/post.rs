use vstd::prelude::*;

use crate::decimal::{parse_u16, parse_u16_or_zero, parse_u16_spec};
use crate::query::{
    find_first, first_value, floor_key, pairs_view, parse_query_pairs, thread_key, url_parses,
    url_query_pairs,
};

verus! {

/// Author record of a reply, as the user extractor reads it.
pub struct User {
    pub id: String,
    pub name: String,
}

/// A rich-content child of a paragraph, as found in the markup.
pub struct RichChild {
    /// `Some` when the child holds a video embed; inside, the embed's
    /// declared source, if it declares one.
    pub video: Option<Option<String>>,
    /// Declared sources of the linked images in the child, in document order.
    pub images: Vec<String>,
    /// Visible text of the child, concatenated.
    pub text: String,
}

/// A paragraph-level wrapper of a reply body.
pub struct Paragraph {
    /// All text of the wrapper, concatenated.
    pub text: String,
    /// Its nested rich-content children, in document order.
    pub children: Vec<RichChild>,
}

/// One reply block of a thread page, as found in the markup.
pub struct ReplyBlock {
    /// Text of the block's title header, when it has one.
    pub title: Option<String>,
    /// Paragraph wrappers of the block's body, in document order.
    pub paragraphs: Vec<Paragraph>,
    /// Author, when the user extractor could read one.
    pub author: Option<User>,
    /// Value of the floor marker's numeric attribute, when present.
    pub floor_marker: Option<String>,
    /// First text of the edit-date node, when present.
    pub date: Option<String>,
}

/// A fetched thread page.
pub struct ThreadDocument {
    /// First text of each link of the pagination control, in order.
    pub page_links: Vec<Option<String>>,
    /// Reply blocks, in document order.
    pub blocks: Vec<ReplyBlock>,
}

/// What a rich-content child contributes, by priority: a video embed, then
/// linked images, then plain text.
pub enum Fragment {
    Video(Option<String>),
    Images(Vec<String>),
    Text(String),
}

/// A comment on a reply. Comments are not read from the markup yet.
pub struct PostComment {
    pub name: String,
    pub comment: String,
    pub id: String,
}

/// One extracted reply.
pub struct PostContent {
    pub desc: Vec<String>,
    pub user: User,
    pub floor: u16,
    pub date: String,
}

/// A thread page's extraction: thread id, title, replies, and the floor
/// that was asked for.
pub struct Post {
    pub id: String,
    pub title: String,
    pub posts: Vec<PostContent>,
    pub floor: u16,
}

pub enum PostError {
    /// The URL carries no thread id.
    MissingId,
    /// The URL carries no readable last floor.
    MissingLastFloor,
    /// The first reply block has no title.
    MissingTitle,
    /// The text is not a URL.
    InvalidUrl,
}

impl PostError {
    /// A short description of the failure.
    pub fn message(&self) -> &'static str {
        match self {
            PostError::MissingId => "can't get id",
            PostError::MissingLastFloor => "can't get last floor",
            PostError::MissingTitle => "post title invalid",
            PostError::InvalidUrl => "invalid url string",
        }
    }
}

/// An extracted reply, in plain values.
pub ghost struct ContentModel {
    pub desc: Seq<Seq<char>>,
    pub author: (Seq<char>, Seq<char>),
    pub floor: u16,
    pub date: Seq<char>,
}

pub open spec fn strings_view(v: Seq<String>) -> Seq<Seq<char>> {
    v.map_values(|s: String| s@)
}

impl User {
    pub open spec fn model(&self) -> (Seq<char>, Seq<char>) {
        (self.id@, self.name@)
    }
}

impl PostContent {
    pub open spec fn model(&self) -> ContentModel {
        ContentModel { desc: strings_view(self.desc@), author: self.user.model(), floor: self.floor, date: self.date@ }
    }
}

pub open spec fn contents_view(v: Seq<PostContent>) -> Seq<ContentModel> {
    v.map_values(|c: PostContent| c.model())
}

/// Classification of a child: a video embed wins over images, images over text.
pub open spec fn fragment_of(c: RichChild) -> Fragment {
    match c.video {
        Some(src) => Fragment::Video(src),
        None => if c.images@.len() > 0 {
            Fragment::Images(c.images)
        } else {
            Fragment::Text(c.text)
        },
    }
}

pub open spec fn fragment_tokens(f: Fragment) -> Seq<Seq<char>> {
    match f {
        Fragment::Video(Some(src)) => seq![src@],
        Fragment::Video(None) => Seq::empty(),
        Fragment::Images(srcs) => strings_view(srcs@),
        Fragment::Text(t) => seq![t@],
    }
}

pub open spec fn children_tokens(cs: Seq<RichChild>) -> Seq<Seq<char>>
    decreases cs.len(),
{
    if cs.len() == 0 {
        Seq::empty()
    } else {
        children_tokens(cs.drop_last()) + fragment_tokens(fragment_of(cs.last()))
    }
}

/// Tokens of one paragraph: its whole text when it has no rich-content
/// child, else the tokens of its children in order.
pub open spec fn paragraph_tokens(p: Paragraph) -> Seq<Seq<char>> {
    if p.children@.len() == 0 {
        seq![p.text@]
    } else {
        children_tokens(p.children@)
    }
}

/// Description of a reply body: the tokens of all its paragraphs, in order.
pub open spec fn description_of(ps: Seq<Paragraph>) -> Seq<Seq<char>>
    decreases ps.len(),
{
    if ps.len() == 0 {
        Seq::empty()
    } else {
        description_of(ps.drop_last()) + paragraph_tokens(ps.last())
    }
}

pub open spec fn floor_of(b: ReplyBlock) -> u16 {
    match b.floor_marker {
        Some(v) => parse_u16_or_zero(v@),
        None => 0,
    }
}

/// A block is kept when its author and its date can be read.
pub open spec fn is_complete(b: ReplyBlock) -> bool {
    b.author is Some && b.date is Some
}

pub open spec fn content_of(b: ReplyBlock) -> ContentModel {
    ContentModel {
        desc: description_of(b.paragraphs@),
        author: b.author->0.model(),
        floor: floor_of(b),
        date: b.date->0@,
    }
}

/// Replies extracted from a sequence of blocks: one per complete block, in order.
pub open spec fn contents_of(bs: Seq<ReplyBlock>) -> Seq<ContentModel>
    decreases bs.len(),
{
    if bs.len() == 0 {
        Seq::empty()
    } else if is_complete(bs.last()) {
        contents_of(bs.drop_last()).push(content_of(bs.last()))
    } else {
        contents_of(bs.drop_last())
    }
}

pub open spec fn max_page_of(links: Seq<Option<String>>) -> u16 {
    if links.len() == 0 {
        0
    } else {
        match links.last() {
            Some(t) => parse_u16_or_zero(t@),
            None => 0,
        }
    }
}

/// The title of a page: that of its first reply block.
pub open spec fn title_of(bs: Seq<ReplyBlock>) -> Option<Seq<char>> {
    if bs.len() == 0 {
        None
    } else {
        match bs[0].title {
            Some(t) => Some(t@),
            None => None,
        }
    }
}

/// Why a page with these URL query pairs yields no post, if it does not.
pub open spec fn post_error_of(pairs: Seq<(Seq<char>, Seq<char>)>, bs: Seq<ReplyBlock>) -> Option<
    PostError,
> {
    if first_value(pairs, thread_key()) is None {
        Some(PostError::MissingId)
    } else if first_value(pairs, floor_key()) is None || parse_u16_spec(
        first_value(pairs, floor_key())->0,
    ) is None {
        Some(PostError::MissingLastFloor)
    } else if title_of(bs) is None {
        Some(PostError::MissingTitle)
    } else {
        None
    }
}

impl Post {
    /// The post extracted from a page whose URL has these query pairs.
    pub open spec fn matches_page(
        &self,
        pairs: Seq<(Seq<char>, Seq<char>)>,
        bs: Seq<ReplyBlock>,
    ) -> bool {
        &&& Some(self.id@) == first_value(pairs, thread_key())
        &&& parse_u16_spec(first_value(pairs, floor_key())->0) == Some(self.floor)
        &&& title_of(bs) == Some(self.title@)
        &&& contents_view(self.posts@) == contents_of(bs)
    }
}

proof fn lemma_strings_view_add(a: Seq<String>, b: Seq<String>)
    ensures
        strings_view(a + b) == strings_view(a) + strings_view(b),
{
    assert(strings_view(a + b) =~= strings_view(a) + strings_view(b));
}

proof fn lemma_strings_view_push(a: Seq<String>, x: String)
    ensures
        strings_view(a.push(x)) == strings_view(a).push(x@),
{
    assert(strings_view(a.push(x)) =~= strings_view(a).push(x@));
}

fn clone_strings(v: &Vec<String>) -> (r: Vec<String>)
    ensures
        r@ == v@,
{
    let mut r: Vec<String> = Vec::new();
    let mut i: usize = 0;
    while i < v.len()
        invariant
            i <= v@.len(),
            r@ == v@.subrange(0, i as int),
        decreases v@.len() - i,
    {
        r.push(v[i].clone());
        assert(v@.subrange(0, i + 1) =~= v@.subrange(0, i as int).push(v@[i as int]));
        i = i + 1;
    }
    assert(v@.subrange(0, v@.len() as int) =~= v@);
    r
}

fn clone_user(u: &User) -> (r: User)
    ensures
        r == *u,
{
    User { id: u.id.clone(), name: u.name.clone() }
}

/// Classifies a rich-content child: a video embed wins over linked
/// images, and linked images over plain text.
pub fn classify(c: &RichChild) -> (r: Fragment)
    ensures
        r is Video <==> fragment_of(*c) is Video,
        r is Images <==> fragment_of(*c) is Images,
        fragment_tokens(r) == fragment_tokens(fragment_of(*c)),
{
    match &c.video {
        Some(Some(src)) => Fragment::Video(Some(src.clone())),
        Some(None) => Fragment::Video(None),
        None => {
            if c.images.len() > 0 {
                Fragment::Images(clone_strings(&c.images))
            } else {
                Fragment::Text(c.text.clone())
            }
        },
    }
}

fn push_fragment(out: &mut Vec<String>, f: Fragment)
    ensures
        strings_view(final(out)@) == strings_view(old(out)@) + fragment_tokens(f),
{
    let ghost f0 = f;
    match f {
        Fragment::Video(Some(src)) => {
            proof {
                lemma_strings_view_push(out@, src);
            }
            out.push(src);
            assert(seq![src@] =~= Seq::<Seq<char>>::empty().push(src@));
        },
        Fragment::Video(None) => {
            assert(strings_view(out@) + Seq::<Seq<char>>::empty() =~= strings_view(out@));
        },
        Fragment::Images(srcs) => {
            let mut srcs = srcs;
            proof {
                lemma_strings_view_add(out@, srcs@);
            }
            out.append(&mut srcs);
        },
        Fragment::Text(t) => {
            proof {
                lemma_strings_view_push(out@, t);
            }
            out.push(t);
            assert(seq![t@] =~= Seq::<Seq<char>>::empty().push(t@));
        },
    }
}

fn push_paragraph(out: &mut Vec<String>, p: &Paragraph)
    ensures
        strings_view(final(out)@) == strings_view(old(out)@) + paragraph_tokens(*p),
{
    if p.children.len() == 0 {
        proof {
            lemma_strings_view_push(out@, p.text);
        }
        out.push(p.text.clone());
        assert(strings_view(old(out)@) + seq![p.text@] =~= strings_view(old(out)@).push(p.text@));
        return;
    }
    let ghost start = strings_view(out@);
    let mut i: usize = 0;
    while i < p.children.len()
        invariant
            i <= p.children@.len(),
            strings_view(out@) == start + children_tokens(p.children@.subrange(0, i as int)),
        decreases p.children@.len() - i,
    {
        let f = classify(&p.children[i]);
        push_fragment(out, f);
        let ghost next = p.children@.subrange(0, i + 1);
        assert(next.drop_last() =~= p.children@.subrange(0, i as int));
        assert(next.last() == p.children@[i as int]);
        assert(start + children_tokens(next) =~= start + children_tokens(
            p.children@.subrange(0, i as int),
        ) + fragment_tokens(fragment_of(p.children@[i as int])));
        i = i + 1;
    }
    assert(p.children@.subrange(0, p.children@.len() as int) =~= p.children@);
}

/// Description tokens of a reply body: each paragraph's tokens, in order,
/// in one flat sequence.
pub fn description(paragraphs: &Vec<Paragraph>) -> (r: Vec<String>)
    ensures
        strings_view(r@) == description_of(paragraphs@),
{
    let mut out: Vec<String> = Vec::new();
    let mut i: usize = 0;
    assert(strings_view(out@) =~= Seq::<Seq<char>>::empty());
    while i < paragraphs.len()
        invariant
            i <= paragraphs@.len(),
            strings_view(out@) == description_of(paragraphs@.subrange(0, i as int)),
        decreases paragraphs@.len() - i,
    {
        push_paragraph(&mut out, &paragraphs[i]);
        let ghost next = paragraphs@.subrange(0, i + 1);
        assert(next.drop_last() =~= paragraphs@.subrange(0, i as int));
        assert(next.last() == paragraphs@[i as int]);
        i = i + 1;
    }
    assert(paragraphs@.subrange(0, paragraphs@.len() as int) =~= paragraphs@);
    out
}

impl PostContent {
    /// The floor of a reply block: its marker's value read as a number,
    /// 0 when the marker is missing or not a number.
    pub fn floor_of_block(b: &ReplyBlock) -> (r: u16)
        ensures
            r == floor_of(*b),
    {
        match &b.floor_marker {
            Some(v) => match parse_u16(v.as_str()) {
                Some(n) => n,
                None => 0,
            },
            None => 0,
        }
    }

    /// The reply a block yields, or `None` when its author or its date
    /// cannot be read.
    pub fn from_block(b: &ReplyBlock) -> (r: Option<PostContent>)
        ensures
            r is Some <==> is_complete(*b),
            r matches Some(c) ==> c.model() == content_of(*b),
    {
        match (&b.author, &b.date) {
            (Some(user), Some(date)) => {
                let desc = description(&b.paragraphs);
                Some(PostContent {
                    desc,
                    user: clone_user(user),
                    floor: PostContent::floor_of_block(b),
                    date: date.clone(),
                })
            },
            _ => None,
        }
    }
}

impl Post {
    /// Replies of a page: one for each complete block, in document order;
    /// incomplete blocks are left out.
    pub fn posts(document: &ThreadDocument) -> (r: Vec<PostContent>)
        ensures
            contents_view(r@) == contents_of(document.blocks@),
    {
        let bs = &document.blocks;
        let mut out: Vec<PostContent> = Vec::new();
        let mut i: usize = 0;
        assert(contents_view(out@) =~= Seq::<ContentModel>::empty());
        while i < bs.len()
            invariant
                i <= bs@.len(),
                bs == document.blocks,
                contents_view(out@) == contents_of(bs@.subrange(0, i as int)),
            decreases bs@.len() - i,
        {
            let ghost next = bs@.subrange(0, i + 1);
            assert(next.drop_last() =~= bs@.subrange(0, i as int));
            assert(next.last() == bs@[i as int]);
            match PostContent::from_block(&bs[i]) {
                Some(c) => {
                    let ghost before = out@;
                    out.push(c);
                    assert(contents_view(out@) =~= contents_view(before).push(c.model()));
                },
                None => {},
            }
            i = i + 1;
        }
        assert(bs@.subrange(0, bs@.len() as int) =~= bs@);
        out
    }

    /// Title of a page: the title header of its first reply block.
    pub fn title(document: &ThreadDocument) -> (r: Option<String>)
        ensures
            match r {
                Some(t) => title_of(document.blocks@) == Some(t@),
                None => title_of(document.blocks@) is None,
            },
    {
        if document.blocks.len() == 0 {
            return None;
        }
        match &document.blocks[0].title {
            Some(t) => Some(t.clone()),
            None => None,
        }
    }

    /// Extracts the post of a page from its URL's query pairs and its
    /// content. Fails, in this order, when the query has no thread id, no
    /// readable last floor, or the first block no title.
    pub fn from_query(pairs: &Vec<(String, String)>, document: &ThreadDocument) -> (r: Result<
        Post,
        PostError,
    >)
        ensures
            match r {
                Ok(p) => post_error_of(pairs_view(pairs@), document.blocks@) is None
                    && p.matches_page(pairs_view(pairs@), document.blocks@),
                Err(e) => post_error_of(pairs_view(pairs@), document.blocks@) == Some(e),
            },
    {
        let id = match find_first(pairs, "snA") {
            Some(i) => pairs[i].1.clone(),
            None => {
                return Err(PostError::MissingId);
            },
        };
        let floor = match find_first(pairs, "tnum") {
            Some(i) => match parse_u16(pairs[i].1.as_str()) {
                Some(n) => n,
                None => {
                    return Err(PostError::MissingLastFloor);
                },
            },
            None => {
                return Err(PostError::MissingLastFloor);
            },
        };
        let title = match Post::title(document) {
            Some(t) => t,
            None => {
                return Err(PostError::MissingTitle);
            },
        };
        let posts = Post::posts(document);
        Ok(Post { id, title, posts, floor })
    }

    /// Extracts the post of a page fetched from `url`. Fails when `url` is
    /// not a URL, and otherwise as `from_query` does on its query pairs.
    pub fn from_page(url: &str, document: &ThreadDocument) -> (r: Result<Post, PostError>)
        ensures
            !url_parses(url@) ==> r == Err::<Post, PostError>(PostError::InvalidUrl),
            url_parses(url@) ==> match r {
                Ok(p) => post_error_of(url_query_pairs(url@), document.blocks@) is None
                    && p.matches_page(url_query_pairs(url@), document.blocks@),
                Err(e) => post_error_of(url_query_pairs(url@), document.blocks@) == Some(e),
            },
    {
        match parse_query_pairs(url) {
            Some(pairs) => Post::from_query(&pairs, document),
            None => Err(PostError::InvalidUrl),
        }
    }
}

/// A wrapper without rich-content children yields exactly one token: its
/// whole text.
pub proof fn lemma_text_paragraph_single_token(p: Paragraph)
    requires
        p.children@.len() == 0,
    ensures
        description_of(seq![p]) == seq![p.text@],
{
    assert(seq![p].drop_last() =~= Seq::<Paragraph>::empty());
    assert(seq![p].last() == p);
    assert(description_of(Seq::<Paragraph>::empty()) == Seq::<Seq<char>>::empty());
    assert(Seq::<Seq<char>>::empty() + seq![p.text@] =~= seq![p.text@]);
}

/// A wrapper whose one rich-content child holds linked images and no video
/// yields one token per image, in source order, each that image's source.
pub proof fn lemma_linked_images_tokens(p: Paragraph)
    requires
        p.children@.len() == 1,
        p.children@[0].video is None,
        p.children@[0].images@.len() > 0,
    ensures
        description_of(seq![p]) == strings_view(p.children@[0].images@),
{
    let cs = p.children@;
    assert(cs.drop_last() =~= Seq::<RichChild>::empty());
    assert(seq![p].drop_last() =~= Seq::<Paragraph>::empty());
    assert(seq![p].last() == p);
    assert(cs.last() == cs[0]);
    assert(description_of(Seq::<Paragraph>::empty()) == Seq::<Seq<char>>::empty());
    assert(children_tokens(Seq::<RichChild>::empty()) == Seq::<Seq<char>>::empty());
    assert(Seq::<Seq<char>>::empty() + strings_view(cs[0].images@) =~= strings_view(
        cs[0].images@,
    ));
}

proof fn lemma_contents_of_append(a: Seq<ReplyBlock>, b: Seq<ReplyBlock>)
    ensures
        contents_of(a + b) == contents_of(a) + contents_of(b),
    decreases b.len(),
{
    if b.len() == 0 {
        assert(a + b =~= a);
        assert(contents_of(a) + contents_of(b) =~= contents_of(a));
    } else {
        assert((a + b).drop_last() =~= a + b.drop_last());
        assert((a + b).last() == b.last());
        lemma_contents_of_append(a, b.drop_last());
        if is_complete(b.last()) {
            assert(contents_of(a + b) =~= contents_of(a) + contents_of(b));
        } else {
            assert(contents_of(a + b) =~= contents_of(a) + contents_of(b));
        }
    }
}

/// A reply block whose author cannot be read is left out of the replies,
/// and the blocks around it are extracted as they would be without it.
pub proof fn lemma_block_without_author_dropped(
    before: Seq<ReplyBlock>,
    block: ReplyBlock,
    after: Seq<ReplyBlock>,
)
    requires
        block.author is None,
    ensures
        contents_of(before + seq![block] + after) == contents_of(before) + contents_of(after),
{
    lemma_contents_of_append(before + seq![block], after);
    lemma_contents_of_append(before, seq![block]);
    assert(seq![block].drop_last() =~= Seq::<ReplyBlock>::empty());
    assert(seq![block].last() == block);
    assert(contents_of(Seq::<ReplyBlock>::empty()) == Seq::<ContentModel>::empty());
    assert(contents_of(seq![block]) == Seq::<ContentModel>::empty());
    assert(contents_of(before) + contents_of(seq![block]) =~= contents_of(before));
}

/// Reading of a reply's comments.
pub trait CommentReadable {
    fn comment(&self) -> Vec<PostComment>;
}

impl CommentReadable for PostContent {
    /// Comments are not read from the markup: the list is always empty.
    fn comment(&self) -> (r: Vec<PostComment>)
        ensures
            r@.len() == 0,
    {
        Vec::new()
    }
}

} // verus!
