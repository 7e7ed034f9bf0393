//! The client: the session's credentials, the authorization flow, and the
//! request and answer of each endpoint.
use vstd::prelude::*;
use crate::json::JsonModel;
use crate::url::{WebUrl, parsed_url, url_with_query, pairs_view};
use crate::wire::DecodeError;
use crate::media::yields;
use crate::protocol::{ApiRequest, Reply, PocketError, PocketResult, reply_json, reply_failure};
use crate::requests::{
    PocketOAuthRequest, PocketAuthorizeRequest, PocketAddRequest, PocketGetRequest, get_request_json,
    empty_query,
};
use crate::responses::{
    PocketOAuthResponse, PocketAuthorizeResponse, PocketAddResponse, PocketGetResponse, PocketSendResponse,
    oauth_check, authorize_check, add_check, get_check, send_check, field_items_match, field_bools, read_bool,
};
use crate::requests::add_body;
use crate::items::{PocketAddedItem, PocketItem, added_item_fields};
use crate::actions::{Action, PocketAction, PocketSendRequest};
use crate::wire::field_value;
use crate::wire::field_str;

verus! {

/// The redirect target sent with the first authorization step; the user
/// finishes the flow by hand.
pub const REDIRECT_URI: &'static str = "rustapi:finishauth";
/// The page where the user grants access.
pub const AUTHORIZE_PAGE: &'static str = "https://getpocket.com/auth/authorize";
pub const OAUTH_REQUEST_ENDPOINT: &'static str = "https://getpocket.com/v3/oauth/request";
pub const OAUTH_AUTHORIZE_ENDPOINT: &'static str = "https://getpocket.com/v3/oauth/authorize";
pub const ADD_ENDPOINT: &'static str = "https://getpocket.com/v3/add";
pub const GET_ENDPOINT: &'static str = "https://getpocket.com/v3/get";
pub const SEND_ENDPOINT: &'static str = "https://getpocket.com/v3/send";

/// A client of the service for one application key.
pub struct Pocket {
    consumer_key: String,
    access_token: Option<String>,
    code: Option<String>,
}

/// The state of a session.
pub struct SessionModel {
    pub consumer_key: Seq<char>,
    pub access_token: Option<Seq<char>>,
    pub code: Option<Seq<char>>,
}

impl View for Pocket {
    type V = SessionModel;

    closed spec fn view(&self) -> SessionModel {
        SessionModel {
            consumer_key: self.consumer_key@,
            access_token: match self.access_token {
                Some(t) => Some(t@),
                None => None,
            },
            code: match self.code {
                Some(c) => Some(c@),
                None => None,
            },
        }
    }
}

/// A session never holds a token and a pending code at once.
pub open spec fn session_wf(s: SessionModel) -> bool {
    !(s.access_token is Some && s.code is Some)
}

/// The query of the authorization page for a pending `code`.
pub open spec fn auth_pairs(code: Seq<char>) -> Seq<(Seq<char>, Seq<char>)> {
    seq![("request_token"@, code), ("redirect_uri"@, REDIRECT_URI@)]
}

/// The session after the answer to the first authorization step.
pub open spec fn auth_url_next(s: SessionModel, reply: Reply) -> SessionModel {
    if s.access_token is None {
        match reply_json(reply) {
            Some(v) => if oauth_check(v) is Ok && parsed_url(AUTHORIZE_PAGE@) is Some {
                SessionModel { code: Some(field_str(v, "code")->Ok_0), ..s }
            } else {
                s
            },
            None => s,
        }
    } else {
        s
    }
}

/// The session after the answer to the second authorization step.
pub open spec fn authorize_next(s: SessionModel, reply: Reply) -> SessionModel {
    if s.code is Some {
        match reply_json(reply) {
            Some(v) => if authorize_check(v) is Ok {
                SessionModel { access_token: Some(field_str(v, "access_token")->Ok_0), code: None, ..s }
            } else {
                s
            },
            None => s,
        }
    } else {
        s
    }
}

/// The session of a new client for `consumer_key`.
pub open spec fn fresh_session(consumer_key: Seq<char>) -> SessionModel {
    SessionModel { consumer_key, access_token: None, code: None }
}

/// Completing authorization on a new client changes nothing (and fails, see
/// [`Pocket::authorize`]); after a first step that stored a code, a second
/// step that changes the session leaves it holding a token and no pending
/// code. Neither step breaks the session's invariant.
pub proof fn lemma_authorization_flow(consumer_key: Seq<char>, s: SessionModel, first: Reply, second: Reply)
    ensures
        authorize_next(fresh_session(consumer_key), second) == fresh_session(consumer_key),
        auth_url_next(fresh_session(consumer_key), first).code is Some ==> ({
            let s1 = auth_url_next(fresh_session(consumer_key), first);
            let s2 = authorize_next(s1, second);
            s2 != s1 ==> s2.access_token is Some && s2.code is None
        }),
        session_wf(s) ==> session_wf(auth_url_next(s, first)) && session_wf(authorize_next(s, second)),
{
}

impl Pocket {
    /// A client for `consumer_key`, authorized already where a token is given.
    pub fn new(consumer_key: &str, access_token: Option<&str>) -> (r: Pocket)
        ensures
            r@.consumer_key == consumer_key@,
            r@.access_token == match access_token {
                Some(t) => Some(t@),
                None => None::<Seq<char>>,
            },
            r@.code is None,
            session_wf(r@),
    {
        Pocket {
            consumer_key: consumer_key.to_owned(),
            access_token: match access_token {
                Some(t) => Some(t.to_owned()),
                None => None,
            },
            code: None,
        }
    }

    pub fn consumer_key(&self) -> (r: &str)
        ensures
            r@ == self@.consumer_key,
    {
        self.consumer_key.as_str()
    }

    pub fn access_token(&self) -> (r: Option<&str>)
        ensures
            match r {
                Some(t) => self@.access_token == Some(t@),
                None => self@.access_token is None,
            },
    {
        match &self.access_token {
            Some(t) => Some(t.as_str()),
            None => None,
        }
    }

    /// The code of a first authorization step not yet completed.
    pub fn pending_code(&self) -> (r: Option<&str>)
        ensures
            match r {
                Some(c) => self@.code == Some(c@),
                None => self@.code is None,
            },
    {
        match &self.code {
            Some(c) => Some(c.as_str()),
            None => None,
        }
    }

    /// The first authorization step: the application key and the fixed
    /// redirect target.
    pub fn oauth_request(&self) -> (r: PocketResult<ApiRequest>)
        ensures
            self@.access_token is Some ==> r == Err::<ApiRequest, PocketError>(PocketError::AlreadyAuthorized),
            self@.access_token is None ==> (r matches Ok(q) && q.endpoint == OAUTH_REQUEST_ENDPOINT && q.body@ == JsonModel::Object(seq![
                ("consumer_key"@, JsonModel::Str(self@.consumer_key)),
                ("redirect_uri"@, JsonModel::Str(REDIRECT_URI@)),
                ("state"@, JsonModel::Null),
            ])),
    {
        if self.access_token.is_some() {
            return Err(PocketError::AlreadyAuthorized);
        }
        let req = PocketOAuthRequest {
            consumer_key: self.consumer_key.clone(),
            redirect_uri: REDIRECT_URI.to_owned(),
            state: None,
        };
        Ok(ApiRequest { endpoint: OAUTH_REQUEST_ENDPOINT, body: req.to_json() })
    }

    /// Finishes the first authorization step with its reply: stores the
    /// pending code and returns the page where the user grants access.
    pub fn get_auth_url(&mut self, reply: Reply) -> (r: PocketResult<WebUrl>)
        ensures
            final(self)@ == auth_url_next(old(self)@, reply),
            old(self)@.access_token is Some ==> r == Err::<WebUrl, PocketError>(PocketError::AlreadyAuthorized),
            old(self)@.access_token is None ==> match reply_json(reply) {
                None => reply_failure(reply, r),
                Some(v) => match oauth_check(v) {
                    Err(e) => r == Err::<WebUrl, PocketError>(PocketError::Json(e)),
                    Ok(_) => match url_with_query(AUTHORIZE_PAGE@, auth_pairs(field_str(v, "code")->Ok_0)) {
                        Some(u) => r matches Ok(url) && url@ == u,
                        None => r matches Err(PocketError::Format(_)),
                    },
                },
            },
    {
        if self.access_token.is_some() {
            return Err(PocketError::AlreadyAuthorized);
        }
        let ghost g_reply = reply;
        let body = reply.json()?;
        let resp = match PocketOAuthResponse::decode(&body) {
            Ok(x) => x,
            Err(e) => return Err(PocketError::Json(e)),
        };
        let pairs = vec![
            ("request_token".to_owned(), resp.code.clone()),
            ("redirect_uri".to_owned(), REDIRECT_URI.to_owned()),
        ];
        assert(pairs_view(pairs@) =~= auth_pairs(resp.code@));
        match WebUrl::with_query(AUTHORIZE_PAGE, &pairs) {
            Some(url) => {
                self.code = Some(resp.code);
                Ok(url)
            },
            None => Err(PocketError::Format("authorization page URL".to_owned())),
        }
    }

    /// The second authorization step, for the pending code.
    pub fn authorize_request(&self) -> (r: PocketResult<ApiRequest>)
        ensures
            self@.code is None ==> r == Err::<ApiRequest, PocketError>(PocketError::MissingCode),
            self@.code matches Some(c) ==> (r matches Ok(q) && q.endpoint == OAUTH_AUTHORIZE_ENDPOINT && q.body@ == JsonModel::Object(seq![
                ("consumer_key"@, JsonModel::Str(self@.consumer_key)),
                ("code"@, JsonModel::Str(c)),
            ])),
    {
        match &self.code {
            None => Err(PocketError::MissingCode),
            Some(c) => {
                let req = PocketAuthorizeRequest { consumer_key: self.consumer_key.clone(), code: c.clone() };
                Ok(ApiRequest { endpoint: OAUTH_AUTHORIZE_ENDPOINT, body: req.to_json() })
            },
        }
    }

    /// Finishes the second authorization step with its reply: stores the
    /// session token, clears the pending code and returns the user's name.
    pub fn authorize(&mut self, reply: Reply) -> (r: PocketResult<String>)
        ensures
            final(self)@ == authorize_next(old(self)@, reply),
            old(self)@.code is None ==> r == Err::<String, PocketError>(PocketError::MissingCode),
            old(self)@.code is Some ==> match reply_json(reply) {
                None => reply_failure(reply, r),
                Some(v) => match authorize_check(v) {
                    Err(e) => r == Err::<String, PocketError>(PocketError::Json(e)),
                    Ok(_) => r matches Ok(name) && yields(field_str(v, "username"), name@),
                },
            },
    {
        if self.code.is_none() {
            return Err(PocketError::MissingCode);
        }
        let body = reply.json()?;
        let resp = match PocketAuthorizeResponse::decode(&body) {
            Ok(x) => x,
            Err(e) => return Err(PocketError::Json(e)),
        };
        self.access_token = Some(resp.access_token);
        self.code = None;
        Ok(resp.username)
    }

    fn token(&self) -> (r: PocketResult<&String>)
        ensures
            match r {
                Ok(t) => self@.access_token == Some(t@),
                Err(e) => self@.access_token is None && e == PocketError::MissingToken,
            },
    {
        match &self.access_token {
            Some(t) => Ok(t),
            None => Err(PocketError::MissingToken),
        }
    }

    /// A request to add `url`, with an optional title, tags and tweet id.
    pub fn add(&self, url: &WebUrl, title: Option<&str>, tags: Option<&str>, tweet_id: Option<&str>) -> (r: PocketResult<ApiRequest>)
        ensures
            self@.access_token is None ==> r == Err::<ApiRequest, PocketError>(PocketError::MissingToken),
            self@.access_token matches Some(t) ==> (r matches Ok(q) && q.endpoint == ADD_ENDPOINT
                && q.body@ == add_body(self@.consumer_key, t, url@, opt_str_view(title), opt_str_view(tags), opt_str_view(tweet_id))),
    {
        let token = self.token()?;
        let req = PocketAddRequest {
            consumer_key: self.consumer_key.clone(),
            access_token: token.clone(),
            url: url.clone(),
            title: owned(title),
            tags: owned(tags),
            tweet_id: owned(tweet_id),
        };
        assert(req.url@ == url@);
        Ok(ApiRequest { endpoint: ADD_ENDPOINT, body: req.to_json() })
    }

    /// A request to add `url` with nothing else.
    pub fn push(&self, url: &WebUrl) -> (r: PocketResult<ApiRequest>)
        ensures
            self@.access_token is None ==> r == Err::<ApiRequest, PocketError>(PocketError::MissingToken),
            self@.access_token matches Some(t) ==> (r matches Ok(q) && q.endpoint == ADD_ENDPOINT
                && q.body@ == add_body(self@.consumer_key, t, url@, None, None, None)),
    {
        self.add(url, None, None, None)
    }

    /// The item that the reply to an add request describes.
    pub fn add_reply(reply: Reply) -> (r: PocketResult<PocketAddedItem>)
        ensures
            match reply_json(reply) {
                None => reply_failure(reply, r),
                Some(v) => match add_check(v) {
                    Err(e) => r == Err::<PocketAddedItem, PocketError>(PocketError::Json(e)),
                    Ok(_) => r matches Ok(item) && (field_value(v, "item") matches Ok(Some(x)) && added_item_fields(x, item)),
                },
            },
    {
        let body = reply.json()?;
        match PocketAddResponse::decode(&body) {
            Ok(resp) => Ok(resp.item),
            Err(e) => Err(PocketError::Json(e)),
        }
    }

    /// A query of the saved items with no option set, for this session.
    pub fn filter(&self) -> (r: PocketResult<PocketGetRequest>)
        ensures
            self@.access_token is None ==> r == Err::<PocketGetRequest, PocketError>(PocketError::MissingToken),
            self@.access_token matches Some(t) ==> (r matches Ok(q) && empty_query(self@.consumer_key, t, q)),
    {
        let token = self.token()?;
        Ok(PocketGetRequest::new(self.consumer_key.as_str(), token.as_str()))
    }

    /// A request that submits `actions`, in order, as one batch.
    pub fn send_request(&self, actions: Vec<Action>) -> (r: PocketResult<ApiRequest>)
        ensures
            self@.access_token is None ==> r == Err::<ApiRequest, PocketError>(PocketError::MissingToken),
            self@.access_token matches Some(t) ==> (r matches Ok(q) && q.endpoint == SEND_ENDPOINT
                && q.body@ == JsonModel::Object(seq![
                    ("consumer_key"@, JsonModel::Str(self@.consumer_key)),
                    ("access_token"@, JsonModel::Str(t)),
                    ("actions"@, JsonModel::Array(actions@.map_values(|a: Action| a.json()))),
                ])),
    {
        let token = self.token()?;
        let req = PocketSendRequest { consumer_key: self.consumer_key.clone(), access_token: token.clone(), actions };
        Ok(ApiRequest { endpoint: SEND_ENDPOINT, body: req.to_json() })
    }

    /// The per-action results of a batch of `count` actions, in the order the
    /// actions were sent. A reply with another number of results is an error.
    pub fn send(count: usize, reply: Reply) -> (r: PocketResult<Vec<bool>>)
        ensures
            match reply_json(reply) {
                None => reply_failure(reply, r),
                Some(v) => match send_check(v) {
                    Err(e) => r == Err::<Vec<bool>, PocketError>(PocketError::Json(e)),
                    Ok(_) => field_bools(v, "action_results") matches Ok(bs) && if bs.len() == count {
                        r matches Ok(results) && results.len() == count
                            && forall|i: int| 0 <= i < count ==> read_bool(bs[i]) == Ok::<bool, DecodeError>(#[trigger] results@[i])
                    } else {
                        r == Err::<Vec<bool>, PocketError>(PocketError::Json(DecodeError::ResultCount))
                    },
                },
            },
    {
        let body = reply.json()?;
        match PocketSendResponse::decode(&body) {
            Ok(resp) => if resp.action_results.len() == count {
                Ok(resp.action_results)
            } else {
                Err(PocketError::Json(DecodeError::ResultCount))
            },
            Err(e) => Err(PocketError::Json(e)),
        }
    }
}

pub open spec fn opt_str_view(o: Option<&str>) -> Option<Seq<char>> {
    match o {
        Some(s) => Some(s@),
        None => None,
    }
}

fn owned(o: Option<&str>) -> (r: Option<String>)
    ensures
        match r {
            Some(s) => opt_str_view(o) == Some(s@),
            None => o is None,
        },
{
    match o {
        Some(s) => Some(s.to_owned()),
        None => None,
    }
}

impl PocketGetRequest {
    /// The listing request for this query.
    pub fn request(&self) -> (r: ApiRequest)
        ensures
            r.endpoint == GET_ENDPOINT,
            r.body@ == get_request_json(*self),
    {
        ApiRequest { endpoint: GET_ENDPOINT, body: self.to_json() }
    }

    /// The items that the reply to this query lists, in index order.
    pub fn get(self, reply: Reply) -> (r: PocketResult<Vec<PocketItem>>)
        ensures
            match reply_json(reply) {
                None => reply_failure(reply, r),
                Some(v) => match get_check(v) {
                    Err(e) => r == Err::<Vec<PocketItem>, PocketError>(PocketError::Json(e)),
                    Ok(_) => r matches Ok(items) && field_items_match(v, "list", items@),
                },
            },
    {
        let body = reply.json()?;
        match PocketGetResponse::decode(&body) {
            Ok(resp) => Ok(resp.list),
            Err(e) => Err(PocketError::Json(e)),
        }
    }
}

} // verus!
