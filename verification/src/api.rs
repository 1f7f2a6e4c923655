//! The requests the front end sends to the Oxfeed API, and how it reads
//! the status of the answers. Sending them is left to the caller.
use crate::json::{flag_text, json_flag, json_string, string_text};
use crate::text::{decimal, decimal_string, hex};
use hmac::Mac;
use jwt::SignWithKey;
use vstd::prelude::*;

verus! {

/// The method of a request.
#[derive(Clone, Copy, Debug, PartialEq, Eq, Structural)]
pub enum Method {
    Get,
    Post,
    Put,
    Patch,
    Delete,
}

/// What a request sends: nothing, or a JSON text.
#[derive(Debug)]
pub enum Body {
    Empty,
    Json(String),
}

/// A request to the API: its method, its path under the address of the API,
/// and its body.
#[derive(Debug)]
pub struct Request {
    pub method: Method,
    pub path: String,
    pub body: Body,
}

impl Body {
    /// The text sent: nothing, or the JSON text.
    pub fn to_string(&self) -> (text: String)
        ensures
            text@ == match body_text(*self) {
                Some(t) => t,
                None => Seq::empty(),
            },
    {
        match self {
            Body::Empty => String::new(),
            Body::Json(json) => json.clone(),
        }
    }
}

/// The page of a list to ask for, and how many things per page.
#[derive(Clone, Copy, Debug, PartialEq, Eq, Structural)]
pub struct Pagination {
    pub page: usize,
    pub limit: usize,
}

/// The API.
pub struct Api;

/// How the answer to a request is read, by its status.
#[derive(Clone, Copy, Debug, PartialEq, Eq, Structural)]
pub enum Outcome {
    /// A server error (5xx): the body is the text of the error.
    ServerError,
    /// 401: the user must log in.
    Unauthorized,
    /// 204: the answer is JSON `null`.
    NoContent,
    /// 403: the login was refused.
    Forbidden,
    /// Any other status: the body is the JSON of the result.
    Data,
}

/// How the answer of status `status` is read.
pub open spec fn outcome_of(status: u16) -> Outcome {
    if 500 <= status < 600 {
        Outcome::ServerError
    } else if status == 401 {
        Outcome::Unauthorized
    } else if status == 204 {
        Outcome::NoContent
    } else if status == 403 {
        Outcome::Forbidden
    } else {
        Outcome::Data
    }
}

/// How long the login cookie lasts, in seconds: a year when the user asked
/// to be remembered, the browser session otherwise.
pub open spec fn token_lifetime_of(remember_me: bool) -> Option<u64> {
    if remember_me {
        Some(31_536_000u64)
    } else {
        None
    }
}

/// What a request carries, seen as text: nothing, or a JSON text.
pub open spec fn body_text(body: Body) -> Option<Seq<char>> {
    match body {
        Body::Empty => None,
        Body::Json(text) => Some(text@),
    }
}

/// `request` has the method `method`, the path `path` and the body `body`.
pub open spec fn is_request(request: Request, method: Method, path: Seq<char>, body: Option<Seq<char>>) -> bool {
    request.method == method && request.path@ == path && body_text(request.body) == body
}

/// The query parameters of a pagination.
pub open spec fn query(page: usize, limit: usize) -> Seq<char> {
    "page="@ + decimal(page as nat) + "&limit="@ + decimal(limit as nat)
}

/// The hyphenated, lower-case text of the UUID `id`.
pub open spec fn uuid_text(id: u128) -> Seq<char> {
    let d = hex(id as nat, 32, false);
    d.subrange(0, 8) + "-"@ + d.subrange(8, 12) + "-"@ + d.subrange(12, 16) + "-"@ + d.subrange(
        16,
        20,
    ) + "-"@ + d.subrange(20, 32)
}

/// What `jwt`'s `sign_with_key` gives for the claims `email` and `password`
/// signed with HMAC-SHA256 under the key `secret`, when it gives a token.
pub uninterp spec fn credentials_token(secret: Seq<char>, email: Seq<char>, password: Seq<char>) -> Option<Seq<char>>;

/// `elephantry_extras::Pagination::to_query`. Claimed, as its source
/// writes it: `page=`, the page, `&limit=`, the limit, in decimal.
#[verifier::external_body]
fn pagination_query(page: usize, limit: usize) -> (text: String)
    ensures
        text@ == query(page, limit),
{
    elephantry_extras::Pagination { page, limit }.to_query()
}

/// `elephantry_extras::Pagination::new`. Claimed, as its source writes it:
/// the first page, twenty things per page.
#[verifier::external_body]
fn first_pagination() -> (pagination: (usize, usize))
    ensures
        pagination == (1usize, 20usize),
{
    let pagination = elephantry_extras::Pagination::new();
    (pagination.page, pagination.limit)
}

/// The `Display` of `uuid::Uuid::from_u128(id)`. Claimed: the 32
/// lower-case hexadecimal digits of `id`, most significant first, in
/// groups of 8, 4, 4, 4 and 12 joined by hyphens.
#[verifier::external_body]
fn uuid_string(id: u128) -> (text: String)
    ensures
        text@ == uuid_text(id),
{
    uuid::Uuid::from_u128(id).to_string()
}

/// `jwt`'s `sign_with_key`, on the claims `email` and `password`, with the
/// HMAC-SHA256 key `secret` (`hmac::Hmac::new_from_slice`). Claimed: the
/// token is the named result; nothing is said of when signing fails.
#[verifier::external_body]
fn sign_credentials(secret: &str, email: &str, password: &str) -> (token: Option<String>)
    ensures
        match token {
            Some(t) => credentials_token(secret@, email@, password@) == Some(t@),
            None => credentials_token(secret@, email@, password@) is None,
        },
{
    let key: hmac::Hmac<sha2::Sha256> = hmac::Hmac::new_from_slice(secret.as_bytes()).ok()?;
    let mut claims = std::collections::BTreeMap::new();
    claims.insert("email", email);
    claims.insert("password", password);
    claims.sign_with_key(&key).ok()
}

impl Pagination {
    /// The first page, with the default number of things per page.
    pub fn new() -> (pagination: Self)
        ensures
            pagination == (Pagination { page: 1, limit: 20 }),
    {
        let (page, limit) = first_pagination();
        Pagination { page, limit }
    }

    /// The query parameters of the pagination.
    pub fn to_query(&self) -> (text: String)
        ensures
            text@ == query(self.page, self.limit),
    {
        pagination_query(self.page, self.limit)
    }
}

/// `prefix` followed by `rest`.
fn joined(prefix: &str, rest: &str) -> (text: String)
    ensures
        text@ == prefix@ + rest@,
{
    let mut text = prefix.to_string();
    text.append(rest);
    text
}

/// A request with no body.
fn empty(method: Method, path: String) -> (request: Request)
    ensures
        is_request(request, method, path@, None),
{
    Request { method, path, body: Body::Empty }
}

/// A request sending the JSON text `json`.
fn with_json(method: Method, path: String, json: String) -> (request: Request)
    ensures
        is_request(request, method, path@, Some(json@)),
{
    Request { method, path, body: Body::Json(json) }
}

impl Api {
    /// How the answer of status `status` is read.
    pub fn outcome(status: u16) -> (outcome: Outcome)
        ensures
            outcome == outcome_of(status),
            (outcome == Outcome::ServerError) <==> (500 <= status < 600),
            (outcome == Outcome::Unauthorized) <==> (status == 401),
            (outcome == Outcome::NoContent) <==> (status == 204),
            (outcome == Outcome::Forbidden) <==> (status == 403),
            (outcome == Outcome::Data) <==> !(500 <= status < 600 || status == 401
                || status == 204 || status == 403),
    {
        if 500 <= status && status < 600 {
            Outcome::ServerError
        } else if status == 401 {
            Outcome::Unauthorized
        } else if status == 204 {
            Outcome::NoContent
        } else if status == 403 {
            Outcome::Forbidden
        } else {
            Outcome::Data
        }
    }

    /// How long the login cookie lasts, in seconds; `None` for the browser
    /// session.
    pub fn token_lifetime(remember_me: bool) -> (lifetime: Option<u64>)
        ensures
            lifetime == token_lifetime_of(remember_me),
    {
        if remember_me {
            Some(365 * 24 * 60 * 60)
        } else {
            None
        }
    }

    /// The path of the stream of server-sent events, for the token `token`.
    pub fn sse_path(token: &str) -> (path: String)
        ensures
            path@ == "/sse?token="@ + token@,
    {
        joined("/sse?token=", token)
    }

    /// The path of the RSS feed of the user `user`.
    pub fn rss_path(user: u128) -> (path: String)
        ensures
            path@ == "/rss/"@ + uuid_text(user),
    {
        joined("/rss/", uuid_string(user).as_str())
    }

    /// The numbers of things of each kind.
    pub fn counts() -> (request: Request)
        ensures
            is_request(request, Method::Get, "/counts"@, None),
    {
        empty(Method::Get, "/counts".to_string())
    }

    /// The account of the user logged in.
    pub fn auth() -> (request: Request)
        ensures
            is_request(request, Method::Get, "/auth"@, None),
    {
        empty(Method::Get, "/auth".to_string())
    }

    /// The login: the credentials signed with `secret` into a token, sent
    /// as a JSON string. No request when the signing fails.
    pub fn auth_login(secret: &str, email: &str, password: &str) -> (request: Option<Request>)
        ensures
            match credentials_token(secret@, email@, password@) {
                Some(token) => request matches Some(r) && is_request(
                    r,
                    Method::Post,
                    "/auth/login"@,
                    Some(json_string(token)),
                ),
                None => request is None,
            },
    {
        match sign_credentials(secret, email, password) {
            Some(token) => Some(
                with_json(Method::Post, "/auth/login".to_string(), string_text(token.as_str())),
            ),
            None => None,
        }
    }

    /// The logout.
    pub fn auth_logout() -> (request: Request)
        ensures
            is_request(request, Method::Post, "/auth/logout"@, None),
    {
        empty(Method::Post, "/auth/logout".to_string())
    }

    /// The items of the kind `kind` (all of them for `all`), page
    /// `pagination`.
    pub fn items_all(kind: &str, pagination: &Pagination) -> (request: Request)
        ensures
            is_request(
                request,
                Method::Get,
                "/items/"@ + (if kind@ == "all"@ {
                    Seq::empty()
                } else {
                    kind@
                }) + "?"@ + query(pagination.page, pagination.limit),
                None,
            ),
    {
        let mut url = if crate::text::same_text(kind, "all") {
            "/items/".to_string()
        } else {
            joined("/items/", kind)
        };
        url.append("?");
        url.append(pagination.to_query().as_str());

        empty(Method::Get, url)
    }

    /// The content of the item `id`.
    pub fn items_content(id: u128) -> (request: Request)
        ensures
            is_request(request, Method::Get, "/items/"@ + uuid_text(id) + "/content"@, None),
    {
        let mut url = joined("/items/", uuid_string(id).as_str());
        url.append("/content");

        empty(Method::Get, url)
    }

    /// Marks every item as read.
    pub fn items_read() -> (request: Request)
        ensures
            is_request(request, Method::Post, "/items/read"@, None),
    {
        empty(Method::Post, "/items/read".to_string())
    }

    /// Sets the flag `key` (`read`, `favorite`) of the item `id` to `value`.
    pub fn items_tag(id: u128, key: &str, value: bool) -> (request: Request)
        ensures
            is_request(
                request,
                Method::Patch,
                "/items/"@ + uuid_text(id),
                Some(json_flag(key@, value)),
            ),
    {
        let url = joined("/items/", uuid_string(id).as_str());

        with_json(Method::Patch, url, flag_text(key, value))
    }

    /// The items of the kind `what` that match `filter`, given as URL
    /// parameters, page `pagination`.
    pub fn items_search(what: &str, filter: &str, pagination: &Pagination) -> (request: Request)
        ensures
            is_request(
                request,
                Method::Get,
                "/search/"@ + what@ + "?"@ + filter@ + "&"@ + query(pagination.page, pagination.limit),
                None,
            ),
    {
        let mut url = joined("/search/", what);
        url.append("?");
        url.append(filter);
        url.append("&");
        url.append(pagination.to_query().as_str());

        empty(Method::Get, url)
    }

    /// Imports the OPML document `opml`, sent as a JSON string.
    pub fn opml_import(opml: String) -> (request: Request)
        ensures
            is_request(request, Method::Post, "/opml"@, Some(json_string(opml@))),
    {
        with_json(Method::Post, "/opml".to_string(), string_text(opml.as_str()))
    }

    /// The sources, page `pagination`.
    pub fn sources_all(pagination: &Pagination) -> (request: Request)
        ensures
            is_request(
                request,
                Method::Get,
                "/sources?"@ + query(pagination.page, pagination.limit),
                None,
            ),
    {
        let url = joined("/sources?", pagination.to_query().as_str());

        empty(Method::Get, url)
    }

    /// Creates the source whose JSON text is `source`.
    pub fn sources_create(source: String) -> (request: Request)
        ensures
            is_request(request, Method::Post, "/sources"@, Some(source@)),
    {
        with_json(Method::Post, "/sources".to_string(), source)
    }

    /// Replaces the source `id` by the one whose JSON text is `source`.
    pub fn sources_update(id: u128, source: String) -> (request: Request)
        ensures
            is_request(request, Method::Put, "/sources/"@ + uuid_text(id), Some(source@)),
    {
        with_json(Method::Put, joined("/sources/", uuid_string(id).as_str()), source)
    }

    /// Deletes the source `id`.
    pub fn sources_delete(id: u128) -> (request: Request)
        ensures
            is_request(request, Method::Delete, "/sources/"@ + uuid_text(id), None),
    {
        empty(Method::Delete, joined("/sources/", uuid_string(id).as_str()))
    }

    /// The sources that match `filter`, given as URL parameters.
    pub fn sources_search(filter: &str, pagination: &Pagination) -> (request: Request)
        ensures
            is_request(
                request,
                Method::Get,
                "/search/sources?"@ + filter@ + "&"@ + query(pagination.page, pagination.limit),
                None,
            ),
    {
        let mut url = joined("/search/sources?", filter);
        url.append("&");
        url.append(pagination.to_query().as_str());

        empty(Method::Get, url)
    }

    /// The tags, page `pagination`.
    pub fn tags_all(pagination: &Pagination) -> (request: Request)
        ensures
            is_request(
                request,
                Method::Get,
                "/tags?"@ + query(pagination.page, pagination.limit),
                None,
            ),
    {
        empty(Method::Get, joined("/tags?", pagination.to_query().as_str()))
    }

    /// The tags that match `filter`, given as URL parameters.
    pub fn tags_search(filter: &str, pagination: &Pagination) -> (request: Request)
        ensures
            is_request(
                request,
                Method::Get,
                "/search/tags?"@ + filter@ + "&"@ + query(pagination.page, pagination.limit),
                None,
            ),
    {
        let mut url = joined("/search/tags?", filter);
        url.append("&");
        url.append(pagination.to_query().as_str());

        empty(Method::Get, url)
    }

    /// Renames the tag `tag` to `name`, sent as a JSON string.
    pub fn tags_rename(tag: &str, name: &str) -> (request: Request)
        ensures
            is_request(request, Method::Post, "/tags/"@ + tag@, Some(json_string(name@))),
    {
        with_json(Method::Post, joined("/tags/", tag), string_text(name))
    }

    /// Creates the account whose JSON text is `user`.
    pub fn account_create(user: String) -> (request: Request)
        ensures
            is_request(request, Method::Post, "/account"@, Some(user@)),
    {
        with_json(Method::Post, "/account".to_string(), user)
    }

    /// Creates the user whose JSON text is `user`, the way the earlier
    /// front end registered users.
    pub fn user_create(user: String) -> (request: Request)
        ensures
            is_request(request, Method::Post, "/users"@, Some(user@)),
    {
        with_json(Method::Post, "/users".to_string(), user)
    }

    /// Deletes the account.
    pub fn account_delete() -> (request: Request)
        ensures
            is_request(request, Method::Delete, "/account"@, None),
    {
        empty(Method::Delete, "/account".to_string())
    }

    /// Replaces the account by the one whose JSON text is `account`.
    pub fn account_update(account: String) -> (request: Request)
        ensures
            is_request(request, Method::Put, "/account"@, Some(account@)),
    {
        with_json(Method::Put, "/account".to_string(), account)
    }

    /// The webhooks.
    pub fn webhooks_all() -> (request: Request)
        ensures
            is_request(request, Method::Get, "/webhooks"@, None),
    {
        empty(Method::Get, "/webhooks".to_string())
    }

    /// Creates the webhook whose JSON text is `webhook`.
    pub fn webhooks_create(webhook: String) -> (request: Request)
        ensures
            is_request(request, Method::Post, "/webhooks"@, Some(webhook@)),
    {
        with_json(Method::Post, "/webhooks".to_string(), webhook)
    }

    /// Replaces the webhook `id` by the one whose JSON text is `webhook`.
    pub fn webhooks_update(id: u128, webhook: String) -> (request: Request)
        ensures
            is_request(request, Method::Put, "/webhooks/"@ + uuid_text(id), Some(webhook@)),
    {
        with_json(Method::Put, joined("/webhooks/", uuid_string(id).as_str()), webhook)
    }

    /// Deletes the webhook `id`.
    pub fn webhooks_delete(id: u128) -> (request: Request)
        ensures
            is_request(request, Method::Delete, "/webhooks/"@ + uuid_text(id), None),
    {
        empty(Method::Delete, joined("/webhooks/", uuid_string(id).as_str()))
    }

    /// The filters.
    pub fn filters_all() -> (request: Request)
        ensures
            is_request(request, Method::Get, "/filters"@, None),
    {
        empty(Method::Get, "/filters".to_string())
    }

    /// Creates the filter whose JSON text is `filter`.
    pub fn filters_create(filter: String) -> (request: Request)
        ensures
            is_request(request, Method::Post, "/filters"@, Some(filter@)),
    {
        with_json(Method::Post, "/filters".to_string(), filter)
    }

    /// Replaces the filter `id` by the one whose JSON text is `filter`.
    pub fn filters_update(id: u128, filter: String) -> (request: Request)
        ensures
            is_request(request, Method::Put, "/filters/"@ + uuid_text(id), Some(filter@)),
    {
        with_json(Method::Put, joined("/filters/", uuid_string(id).as_str()), filter)
    }

    /// Deletes the filter `id`.
    pub fn filters_delete(id: u128) -> (request: Request)
        ensures
            is_request(request, Method::Delete, "/filters/"@ + uuid_text(id), None),
    {
        empty(Method::Delete, joined("/filters/", uuid_string(id).as_str()))
    }
}

} // verus!

verus! {

/// The text of a UUID is 36 characters long: 32 digits and 4 hyphens.
pub proof fn lemma_uuid_text_len(id: u128)
    ensures
        uuid_text(id).len() == 36,
{
    crate::text::lemma_hex_len(id as nat, 32, false);
    reveal_strlit("-");
}

/// Every status is read one way; the server errors are exactly 500 to 599.
pub proof fn lemma_server_errors(status: u16)
    ensures
        (outcome_of(status) == Outcome::ServerError) <==> (500 <= status < 600),
{
}

/// Each status is read by its own number: the answer is `null` exactly on
/// 204 No Content, the user is sent to log in exactly on 401, the login is
/// refused exactly on 403, and every other status outside the server errors
/// (a 200 OK or a 201 Created among them) carries the JSON of the result.
pub proof fn lemma_outcome_by_status(status: u16)
    ensures
        (outcome_of(status) == Outcome::NoContent) <==> (status == 204),
        (outcome_of(status) == Outcome::Unauthorized) <==> (status == 401),
        (outcome_of(status) == Outcome::Forbidden) <==> (status == 403),
        (outcome_of(status) == Outcome::ServerError) <==> (500 <= status < 600),
        (outcome_of(status) == Outcome::Data) <==> (status != 204 && status != 401
            && status != 403 && !(500 <= status < 600)),
{
}

} // verus!
