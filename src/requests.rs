//! Request bodies of the authorization, add and listing endpoints, and the
//! listing filter.
use vstd::prelude::*;
use crate::json::{JsonValue, JsonModel};
use crate::url::WebUrl;
use crate::wire::{Timestamp, flag_json, encode_flag};
use crate::protocol::opt_view;

verus! {

pub open spec fn opt_str_json(o: Option<Seq<char>>) -> JsonModel {
    match o {
        Some(s) => JsonModel::Str(s),
        None => JsonModel::Null,
    }
}

pub fn str_value(s: &str) -> (r: JsonValue)
    ensures
        r@ == JsonModel::Str(s@),
{
    JsonValue::Str(s.to_owned())
}

pub fn opt_str_value(o: &Option<String>) -> (r: JsonValue)
    ensures
        r@ == opt_str_json(opt_view(*o)),
{
    match o {
        Some(s) => JsonValue::Str(s.clone()),
        None => JsonValue::Null,
    }
}

/// An object entry named `name`.
pub fn entry(name: &str, v: JsonValue) -> (r: (String, JsonValue))
    ensures
        r.0@ == name@,
        r.1 == v,
{
    (name.to_owned(), v)
}

/// The body of the first authorization step.
pub struct PocketOAuthRequest {
    pub consumer_key: String,
    pub redirect_uri: String,
    pub state: Option<String>,
}

pub open spec fn oauth_request_json(r: PocketOAuthRequest) -> JsonModel {
    JsonModel::Object(seq![
        ("consumer_key"@, JsonModel::Str(r.consumer_key@)),
        ("redirect_uri"@, JsonModel::Str(r.redirect_uri@)),
        ("state"@, opt_str_json(opt_view(r.state))),
    ])
}

impl PocketOAuthRequest {
    pub fn to_json(&self) -> (r: JsonValue)
        ensures
            r@ == oauth_request_json(*self),
    {
        let mut es: Vec<(String, JsonValue)> = Vec::new();
        es.push(entry("consumer_key", str_value(self.consumer_key.as_str())));
        es.push(entry("redirect_uri", str_value(self.redirect_uri.as_str())));
        es.push(entry("state", opt_str_value(&self.state)));
        let r = JsonValue::Object(es);
        assert(r@->Object_0 =~= oauth_request_json(*self)->Object_0);
        r
    }
}

/// The body of the second authorization step.
pub struct PocketAuthorizeRequest {
    pub consumer_key: String,
    pub code: String,
}

pub open spec fn authorize_request_json(r: PocketAuthorizeRequest) -> JsonModel {
    JsonModel::Object(seq![
        ("consumer_key"@, JsonModel::Str(r.consumer_key@)),
        ("code"@, JsonModel::Str(r.code@)),
    ])
}

impl PocketAuthorizeRequest {
    pub fn to_json(&self) -> (r: JsonValue)
        ensures
            r@ == authorize_request_json(*self),
    {
        let mut es: Vec<(String, JsonValue)> = Vec::new();
        es.push(entry("consumer_key", str_value(self.consumer_key.as_str())));
        es.push(entry("code", str_value(self.code.as_str())));
        let r = JsonValue::Object(es);
        assert(r@->Object_0 =~= authorize_request_json(*self)->Object_0);
        r
    }
}

/// The body of a request to add a URL.
pub struct PocketAddRequest {
    pub consumer_key: String,
    pub access_token: String,
    pub url: WebUrl,
    pub title: Option<String>,
    pub tags: Option<String>,
    pub tweet_id: Option<String>,
}

pub open spec fn add_body(
    consumer_key: Seq<char>,
    access_token: Seq<char>,
    url: Seq<char>,
    title: Option<Seq<char>>,
    tags: Option<Seq<char>>,
    tweet_id: Option<Seq<char>>,
) -> JsonModel {
    JsonModel::Object(seq![
        ("consumer_key"@, JsonModel::Str(consumer_key)),
        ("access_token"@, JsonModel::Str(access_token)),
        ("url"@, JsonModel::Str(url)),
        ("title"@, opt_str_json(title)),
        ("tags"@, opt_str_json(tags)),
        ("tweet_id"@, opt_str_json(tweet_id)),
    ])
}

pub open spec fn add_request_json(r: PocketAddRequest) -> JsonModel {
    add_body(r.consumer_key@, r.access_token@, r.url@, opt_view(r.title), opt_view(r.tags), opt_view(r.tweet_id))
}

impl PocketAddRequest {
    pub fn to_json(&self) -> (r: JsonValue)
        ensures
            r@ == add_request_json(*self),
    {
        let mut es: Vec<(String, JsonValue)> = Vec::new();
        es.push(entry("consumer_key", str_value(self.consumer_key.as_str())));
        es.push(entry("access_token", str_value(self.access_token.as_str())));
        es.push(entry("url", str_value(self.url.as_str())));
        es.push(entry("title", opt_str_value(&self.title)));
        es.push(entry("tags", opt_str_value(&self.tags)));
        es.push(entry("tweet_id", opt_str_value(&self.tweet_id)));
        let r = JsonValue::Object(es);
        assert(r@->Object_0 =~= add_request_json(*self)->Object_0);
        r
    }
}

/// Level of detail of listed items.
#[derive(Clone, Copy, Debug, PartialEq, Eq, Structural)]
pub enum PocketGetDetail {
    Simple,
    Complete,
}

pub open spec fn detail_text(x: PocketGetDetail) -> Seq<char> {
    match x {
        PocketGetDetail::Simple => "simple"@,
        PocketGetDetail::Complete => "complete"@,
    }
}

impl PocketGetDetail {
    /// The word the service knows this option by.
    pub fn text(&self) -> (r: &'static str)
        ensures
            r@ == detail_text(*self),
    {
        match self {
            PocketGetDetail::Simple => "simple",
            PocketGetDetail::Complete => "complete",
        }
    }
}

/// Order of listed items.
#[derive(Clone, Copy, Debug, PartialEq, Eq, Structural)]
pub enum PocketGetSort {
    Newest,
    Oldest,
    Title,
    Site,
}

pub open spec fn sort_text(x: PocketGetSort) -> Seq<char> {
    match x {
        PocketGetSort::Newest => "newest"@,
        PocketGetSort::Oldest => "oldest"@,
        PocketGetSort::Title => "title"@,
        PocketGetSort::Site => "site"@,
    }
}

impl PocketGetSort {
    /// The word the service knows this option by.
    pub fn text(&self) -> (r: &'static str)
        ensures
            r@ == sort_text(*self),
    {
        match self {
            PocketGetSort::Newest => "newest",
            PocketGetSort::Oldest => "oldest",
            PocketGetSort::Title => "title",
            PocketGetSort::Site => "site",
        }
    }
}

/// Which items to list by their state.
#[derive(Clone, Copy, Debug, PartialEq, Eq, Structural)]
pub enum PocketGetState {
    Unread,
    Archive,
    All,
}

pub open spec fn state_text(x: PocketGetState) -> Seq<char> {
    match x {
        PocketGetState::Unread => "unread"@,
        PocketGetState::Archive => "archive"@,
        PocketGetState::All => "all"@,
    }
}

impl PocketGetState {
    /// The word the service knows this option by.
    pub fn text(&self) -> (r: &'static str)
        ensures
            r@ == state_text(*self),
    {
        match self {
            PocketGetState::Unread => "unread",
            PocketGetState::Archive => "archive",
            PocketGetState::All => "all",
        }
    }
}

/// Which items to list by their content.
#[derive(Clone, Copy, Debug, PartialEq, Eq, Structural)]
pub enum PocketGetType {
    Article,
    Video,
    Image,
}

pub open spec fn type_text(x: PocketGetType) -> Seq<char> {
    match x {
        PocketGetType::Article => "article"@,
        PocketGetType::Video => "video"@,
        PocketGetType::Image => "image"@,
    }
}

impl PocketGetType {
    /// The word the service knows this option by.
    pub fn text(&self) -> (r: &'static str)
        ensures
            r@ == type_text(*self),
    {
        match self {
            PocketGetType::Article => "article",
            PocketGetType::Video => "video",
            PocketGetType::Image => "image",
        }
    }
}

/// Which items to list by their tags.
#[derive(Clone, Debug, PartialEq, Eq)]
pub enum PocketGetTag {
    Untagged,
    Tagged(String),
}

/// The tag selector that means "items without tags".
pub const UNTAGGED: &'static str = "_untagged_";

pub open spec fn tag_text(t: PocketGetTag) -> Seq<char> {
    match t {
        PocketGetTag::Untagged => UNTAGGED@,
        PocketGetTag::Tagged(s) => s@,
    }
}

impl PocketGetTag {
    pub fn to_json(&self) -> (r: JsonValue)
        ensures
            r@ == JsonModel::Str(tag_text(*self)),
    {
        match self {
            PocketGetTag::Untagged => str_value(UNTAGGED),
            PocketGetTag::Tagged(s) => str_value(s.as_str()),
        }
    }
}

/// A query for the listing endpoint, accumulated option by option, with the
/// credentials of the session it belongs to.
#[derive(Clone, Debug)]
pub struct PocketGetRequest {
    pub consumer_key: String,
    pub access_token: String,
    pub search: Option<String>,
    pub domain: Option<String>,
    pub tag: Option<PocketGetTag>,
    pub state: Option<PocketGetState>,
    pub content_type: Option<PocketGetType>,
    pub detail_type: Option<PocketGetDetail>,
    pub favorite: Option<bool>,
    pub since: Option<Timestamp>,
    pub sort: Option<PocketGetSort>,
    pub count: Option<usize>,
    pub offset: Option<usize>,
}

pub open spec fn opt_json<T>(o: Option<T>, f: spec_fn(T) -> JsonModel) -> JsonModel {
    match o {
        Some(x) => f(x),
        None => JsonModel::Null,
    }
}

/// The body of a listing request: every option, `null` where unset.
pub open spec fn get_request_json(q: PocketGetRequest) -> JsonModel {
    JsonModel::Object(seq![
        ("consumer_key"@, JsonModel::Str(q.consumer_key@)),
        ("access_token"@, JsonModel::Str(q.access_token@)),
        ("search"@, opt_str_json(opt_view(q.search))),
        ("domain"@, opt_str_json(opt_view(q.domain))),
        ("tag"@, opt_json(q.tag, |t: PocketGetTag| JsonModel::Str(tag_text(t)))),
        ("state"@, opt_json(q.state, |x: PocketGetState| JsonModel::Str(state_text(x)))),
        ("content_type"@, opt_json(q.content_type, |x: PocketGetType| JsonModel::Str(type_text(x)))),
        ("detail_type"@, opt_json(q.detail_type, |x: PocketGetDetail| JsonModel::Str(detail_text(x)))),
        ("favorite"@, opt_json(q.favorite, |b: bool| flag_json(b))),
        ("since"@, opt_json(q.since, |t: Timestamp| JsonModel::I64(t.sec))),
        ("sort"@, opt_json(q.sort, |x: PocketGetSort| JsonModel::Str(sort_text(x)))),
        ("count"@, opt_json(q.count, |n: usize| JsonModel::U64(n as u64))),
        ("offset"@, opt_json(q.offset, |n: usize| JsonModel::U64(n as u64))),
    ])
}

/// A query with no option set.
pub open spec fn empty_query(consumer_key: Seq<char>, access_token: Seq<char>, q: PocketGetRequest) -> bool {
    &&& q.consumer_key@ == consumer_key
    &&& q.access_token@ == access_token
    &&& q.search is None
    &&& q.domain is None
    &&& q.tag is None
    &&& q.state is None
    &&& q.content_type is None
    &&& q.detail_type is None
    &&& q.favorite is None
    &&& q.since is None
    &&& q.sort is None
    &&& q.count is None
    &&& q.offset is None
}

impl PocketGetRequest {
    /// A query with no option set, for the session with these credentials.
    pub fn new(consumer_key: &str, access_token: &str) -> (r: PocketGetRequest)
        ensures
            empty_query(consumer_key@, access_token@, r),
    {
        PocketGetRequest {
            consumer_key: consumer_key.to_owned(),
            access_token: access_token.to_owned(),
            search: None,
            domain: None,
            tag: None,
            state: None,
            content_type: None,
            detail_type: None,
            favorite: None,
            since: None,
            sort: None,
            count: None,
            offset: None,
        }
    }

    pub fn to_json(&self) -> (r: JsonValue)
        ensures
            r@ == get_request_json(*self),
    {
        let mut es: Vec<(String, JsonValue)> = Vec::new();
        es.push(entry("consumer_key", str_value(self.consumer_key.as_str())));
        es.push(entry("access_token", str_value(self.access_token.as_str())));
        es.push(entry("search", opt_str_value(&self.search)));
        es.push(entry("domain", opt_str_value(&self.domain)));
        let tag = match &self.tag {
            Some(t) => t.to_json(),
            None => JsonValue::Null,
        };
        assert(tag@ == opt_json(self.tag, |t: PocketGetTag| JsonModel::Str(tag_text(t))));
        es.push(entry("tag", tag));
        let state = match self.state {
            Some(x) => str_value(x.text()),
            None => JsonValue::Null,
        };
        assert(state@ == opt_json(self.state, |x: PocketGetState| JsonModel::Str(state_text(x))));
        es.push(entry("state", state));
        let content_type = match self.content_type {
            Some(x) => str_value(x.text()),
            None => JsonValue::Null,
        };
        assert(content_type@ == opt_json(self.content_type, |x: PocketGetType| JsonModel::Str(type_text(x))));
        es.push(entry("content_type", content_type));
        let detail_type = match self.detail_type {
            Some(x) => str_value(x.text()),
            None => JsonValue::Null,
        };
        assert(detail_type@ == opt_json(self.detail_type, |x: PocketGetDetail| JsonModel::Str(detail_text(x))));
        es.push(entry("detail_type", detail_type));
        let favorite = match self.favorite {
            Some(b) => encode_flag(b),
            None => JsonValue::Null,
        };
        assert(favorite@ == opt_json(self.favorite, |b: bool| flag_json(b)));
        es.push(entry("favorite", favorite));
        let since = match self.since {
            Some(t) => JsonValue::I64(t.sec),
            None => JsonValue::Null,
        };
        assert(since@ == opt_json(self.since, |t: Timestamp| JsonModel::I64(t.sec)));
        es.push(entry("since", since));
        let sort = match self.sort {
            Some(x) => str_value(x.text()),
            None => JsonValue::Null,
        };
        assert(sort@ == opt_json(self.sort, |x: PocketGetSort| JsonModel::Str(sort_text(x))));
        es.push(entry("sort", sort));
        let count = match self.count {
            Some(n) => JsonValue::U64(n as u64),
            None => JsonValue::Null,
        };
        assert(count@ == opt_json(self.count, |n: usize| JsonModel::U64(n as u64)));
        es.push(entry("count", count));
        let offset = match self.offset {
            Some(n) => JsonValue::U64(n as u64),
            None => JsonValue::Null,
        };
        assert(offset@ == opt_json(self.offset, |n: usize| JsonModel::U64(n as u64)));
        es.push(entry("offset", offset));
        let r = JsonValue::Object(es);
        assert(r@->Object_0 =~= get_request_json(*self)->Object_0);
        r
    }

    pub fn search(&mut self, search: &str) -> (r: &mut PocketGetRequest)
        ensures
            *r == (PocketGetRequest { search: r.search, ..*old(self) }),
            r.search matches Some(s) && s@ == search@,
            *final(self) == *final(r),
    {
        self.search = Some(search.to_owned());
        self
    }

    pub fn domain(&mut self, domain: &str) -> (r: &mut PocketGetRequest)
        ensures
            *r == (PocketGetRequest { domain: r.domain, ..*old(self) }),
            r.domain matches Some(s) && s@ == domain@,
            *final(self) == *final(r),
    {
        self.domain = Some(domain.to_owned());
        self
    }

    pub fn tag(&mut self, tag: PocketGetTag) -> (r: &mut PocketGetRequest)
        ensures
            *r == (PocketGetRequest { tag: Some(tag), ..*old(self) }),
            *final(self) == *final(r),
    {
        self.tag = Some(tag);
        self
    }

    pub fn state(&mut self, state: PocketGetState) -> (r: &mut PocketGetRequest)
        ensures
            *r == (PocketGetRequest { state: Some(state), ..*old(self) }),
            *final(self) == *final(r),
    {
        self.state = Some(state);
        self
    }

    pub fn content_type(&mut self, content_type: PocketGetType) -> (r: &mut PocketGetRequest)
        ensures
            *r == (PocketGetRequest { content_type: Some(content_type), ..*old(self) }),
            *final(self) == *final(r),
    {
        self.content_type = Some(content_type);
        self
    }

    pub fn detail_type(&mut self, detail_type: PocketGetDetail) -> (r: &mut PocketGetRequest)
        ensures
            *r == (PocketGetRequest { detail_type: Some(detail_type), ..*old(self) }),
            *final(self) == *final(r),
    {
        self.detail_type = Some(detail_type);
        self
    }

    pub fn favorite(&mut self, favorite: bool) -> (r: &mut PocketGetRequest)
        ensures
            *r == (PocketGetRequest { favorite: Some(favorite), ..*old(self) }),
            *final(self) == *final(r),
    {
        self.favorite = Some(favorite);
        self
    }

    pub fn since(&mut self, since: Timestamp) -> (r: &mut PocketGetRequest)
        ensures
            *r == (PocketGetRequest { since: Some(since), ..*old(self) }),
            *final(self) == *final(r),
    {
        self.since = Some(since);
        self
    }

    pub fn sort(&mut self, sort: PocketGetSort) -> (r: &mut PocketGetRequest)
        ensures
            *r == (PocketGetRequest { sort: Some(sort), ..*old(self) }),
            *final(self) == *final(r),
    {
        self.sort = Some(sort);
        self
    }

    pub fn offset(&mut self, offset: usize) -> (r: &mut PocketGetRequest)
        ensures
            *r == (PocketGetRequest { offset: Some(offset), ..*old(self) }),
            *final(self) == *final(r),
    {
        self.offset = Some(offset);
        self
    }

    pub fn count(&mut self, count: usize) -> (r: &mut PocketGetRequest)
        ensures
            *r == (PocketGetRequest { count: Some(count), ..*old(self) }),
            *final(self) == *final(r),
    {
        self.count = Some(count);
        self
    }

    /// Only items with every detail.
    pub fn complete(&mut self) -> (r: &mut PocketGetRequest)
        ensures
            *r == (PocketGetRequest { detail_type: Some(PocketGetDetail::Complete), ..*old(self) }),
            *final(self) == *final(r),
    {
        self.detail_type(PocketGetDetail::Complete)
    }

    /// Items with their basic details only.
    pub fn simple(&mut self) -> (r: &mut PocketGetRequest)
        ensures
            *r == (PocketGetRequest { detail_type: Some(PocketGetDetail::Simple), ..*old(self) }),
            *final(self) == *final(r),
    {
        self.detail_type(PocketGetDetail::Simple)
    }

    /// Only archived items.
    pub fn archived(&mut self) -> (r: &mut PocketGetRequest)
        ensures
            *r == (PocketGetRequest { state: Some(PocketGetState::Archive), ..*old(self) }),
            *final(self) == *final(r),
    {
        self.state(PocketGetState::Archive)
    }

    /// Only unread items.
    pub fn unread(&mut self) -> (r: &mut PocketGetRequest)
        ensures
            *r == (PocketGetRequest { state: Some(PocketGetState::Unread), ..*old(self) }),
            *final(self) == *final(r),
    {
        self.state(PocketGetState::Unread)
    }

    /// Only articles.
    pub fn articles(&mut self) -> (r: &mut PocketGetRequest)
        ensures
            *r == (PocketGetRequest { content_type: Some(PocketGetType::Article), ..*old(self) }),
            *final(self) == *final(r),
    {
        self.content_type(PocketGetType::Article)
    }

    /// Only videos.
    pub fn videos(&mut self) -> (r: &mut PocketGetRequest)
        ensures
            *r == (PocketGetRequest { content_type: Some(PocketGetType::Video), ..*old(self) }),
            *final(self) == *final(r),
    {
        self.content_type(PocketGetType::Video)
    }

    /// Only images.
    pub fn images(&mut self) -> (r: &mut PocketGetRequest)
        ensures
            *r == (PocketGetRequest { content_type: Some(PocketGetType::Image), ..*old(self) }),
            *final(self) == *final(r),
    {
        self.content_type(PocketGetType::Image)
    }

    /// Newest items first.
    pub fn sort_by_newest(&mut self) -> (r: &mut PocketGetRequest)
        ensures
            *r == (PocketGetRequest { sort: Some(PocketGetSort::Newest), ..*old(self) }),
            *final(self) == *final(r),
    {
        self.sort(PocketGetSort::Newest)
    }

    /// Oldest items first.
    pub fn sort_by_oldest(&mut self) -> (r: &mut PocketGetRequest)
        ensures
            *r == (PocketGetRequest { sort: Some(PocketGetSort::Oldest), ..*old(self) }),
            *final(self) == *final(r),
    {
        self.sort(PocketGetSort::Oldest)
    }

    /// Items by title.
    pub fn sort_by_title(&mut self) -> (r: &mut PocketGetRequest)
        ensures
            *r == (PocketGetRequest { sort: Some(PocketGetSort::Title), ..*old(self) }),
            *final(self) == *final(r),
    {
        self.sort(PocketGetSort::Title)
    }

    /// Items by site.
    pub fn sort_by_site(&mut self) -> (r: &mut PocketGetRequest)
        ensures
            *r == (PocketGetRequest { sort: Some(PocketGetSort::Site), ..*old(self) }),
            *final(self) == *final(r),
    {
        self.sort(PocketGetSort::Site)
    }

    /// The page of `count` items from `offset` on.
    pub fn slice(&mut self, offset: usize, count: usize) -> (r: &mut PocketGetRequest)
        ensures
            *r == (PocketGetRequest { offset: Some(offset), count: Some(count), ..*old(self) }),
            *final(self) == *final(r),
    {
        self.offset(offset).count(count)
    }
}

} // verus!
