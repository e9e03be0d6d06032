use crate::browser::session::PageParams;
use crate::tracking::ledger::{lists_of, supplies_by_id, CostLists};
use crate::wbseller::error::WbSellerError;
use crate::wbseller::models::cost::{clone_costs, AcceptanceCostsResponse, Cost};
use crate::wbseller::models::supply::Supply;
use chrono::{DateTime, SecondsFormat};
use reqwest::header::{HeaderMap, HeaderValue};
use std::collections::HashMap;
use vstd::arithmetic::div_mod::{lemma_fundamental_div_mod, lemma_fundamental_div_mod_converse};
use vstd::prelude::*;

verus! {

broadcast use vstd::std_specs::hash::group_hash_axioms;

/// The value of one HTTP header.
#[verifier::external_type_specification]
#[verifier::external_body]
pub struct ExHeaderValue(HeaderValue);

/// A set of HTTP headers.
#[verifier::external_type_specification]
#[verifier::external_body]
#[verifier::reject_recursive_types(T)]
pub struct ExHeaderMap<T>(HeaderMap<T>);

/// The headers of a set: the text of each header by its name.
pub uninterp spec fn header_fields(headers: HeaderMap) -> Map<Seq<char>, Seq<char>>;

/// The text that a header value was made from.
pub uninterp spec fn value_text(value: HeaderValue) -> Seq<char>;

/// Whether a character may stand in the text of a header: the tab and
/// everything from the space on but the delete character.
pub open spec fn is_text_char(c: char) -> bool {
    c == '\t' || (c as u32 >= 32 && c as u32 != 127)
}

/// Whether a text can be the value of a header.
pub open spec fn is_header_text(text: Seq<char>) -> bool {
    forall|i: int| 0 <= i < text.len() ==> is_text_char(#[trigger] text[i])
}

/// Whether a character may stand in the name of a header of this client: a
/// small letter, a digit or a hyphen.
pub open spec fn is_name_char(c: char) -> bool {
    ('a' <= c <= 'z') || ('0' <= c <= '9') || c == '-'
}

/// Whether a text can be the name of a header of this client.
pub open spec fn is_header_name(name: Seq<char>) -> bool {
    &&& 0 < name.len() <= 32
    &&& forall|i: int| 0 <= i < name.len() ==> is_name_char(#[trigger] name[i])
}

/// No header at all.
pub open spec fn client_headers_none() -> Map<Seq<char>, Seq<char>> {
    Map::empty()
}

/// The most headers that a set of this client holds.
pub const MAX_HEADERS: usize = 64;

/// `reqwest::header::HeaderMap::new`: a set without headers.
#[verifier::external_body]
fn no_headers() -> (headers: HeaderMap)
    ensures
        header_fields(headers) == client_headers_none(),
{
    HeaderMap::new()
}

/// `reqwest::header::HeaderValue::from_str`: the value of a header with the
/// given text, if every character of the text may stand in one.
#[verifier::external_body]
fn header_value(text: &str) -> (value: Option<HeaderValue>)
    ensures
        value is Some <==> is_header_text(text@),
        value is Some ==> value_text(value->0) == text@,
{
    HeaderValue::from_str(text).ok()
}

/// `reqwest::header::HeaderMap::insert` with a name that is known when the
/// program is built: the header of that name has the given value afterwards
/// and the other headers are as they were. The name has to be one that the
/// map takes, and the set has to be far from the size at which the map gives
/// up.
#[verifier::external_body]
fn set_header(headers: &mut HeaderMap, name: &'static str, value: HeaderValue)
    requires
        is_header_name(name@),
        header_fields(*old(headers)).dom().finite(),
        header_fields(*old(headers)).dom().len() < MAX_HEADERS,
    ensures
        header_fields(*final(headers)) == header_fields(*old(headers)).insert(name@, value_text(value)),
{
    headers.insert(name, value);
}

/// Sets the header of the given name to the given text.
fn put(headers: &mut HeaderMap, name: &'static str, text: &str)
    requires
        is_header_name(name@),
        is_header_text(text@),
        header_fields(*old(headers)).dom().finite(),
        header_fields(*old(headers)).dom().len() < MAX_HEADERS,
    ensures
        header_fields(*final(headers)) == header_fields(*old(headers)).insert(name@, text@),
        header_fields(*final(headers)).dom().finite(),
        header_fields(*final(headers)).dom().len() <= header_fields(*old(headers)).dom().len() + 1,
{
    if let Some(value) = header_value(text) {
        set_header(headers, name, value);
    }
}

/// The place from which the portal is used.
pub const ORIGIN: &'static str = "https://seller.wildberries.ru";

/// The page from which the portal is used.
pub const REFERER: &'static str = "https://seller.wildberries.ru/";

/// The browser that the client says it is.
pub const USER_AGENT: &'static str =
    "Mozilla/5.0 (Windows NT 10.0; Win64; x64) AppleWebKit/537.36 (KHTML, like Gecko) Chrome/138.0.0.0 Safari/537.36";

/// The address at which an identity is derived.
pub const PORTAL_URL: &'static str = "https://seller.wildberries.ru/";

/// The script that reads the token from the page's storage.
pub const TOKEN_SCRIPT: &'static str = "localStorage.getItem('wb-eu-passport-v2.access-token')";

/// Whether no later cookie of the list has the name of the cookie at `i`.
pub open spec fn is_latest(cookies: Seq<(String, String)>, i: int) -> bool {
    forall|j: int| i < j < cookies.len() ==> (#[trigger] cookies[j]).0@ != cookies[i].0@
}

/// The cookies among the first `n` of a list that are the last of their name,
/// as name and value.
pub open spec fn kept_cookies(cookies: Seq<(String, String)>, n: int) -> Seq<(Seq<char>, Seq<char>)>
    decreases n,
{
    if n <= 0 {
        Seq::empty()
    } else if is_latest(cookies, n - 1) {
        kept_cookies(cookies, n - 1).push((cookies[n - 1].0@, cookies[n - 1].1@))
    } else {
        kept_cookies(cookies, n - 1)
    }
}

/// Name and value pairs as the text of a cookie header: `name=value`, with
/// `; ` between two pairs.
pub open spec fn joined(pairs: Seq<(Seq<char>, Seq<char>)>) -> Seq<char>
    decreases pairs.len(),
{
    if pairs.len() == 0 {
        Seq::empty()
    } else if pairs.len() == 1 {
        pairs[0].0 + seq!['='] + pairs[0].1
    } else {
        joined(pairs.drop_last()) + seq![';', ' '] + pairs.last().0 + seq!['='] + pairs.last().1
    }
}

/// The text of the cookie header for a list of cookies: every name once, with
/// the value of its last cookie.
pub open spec fn cookie_text(cookies: Seq<(String, String)>) -> Seq<char> {
    joined(kept_cookies(cookies, cookies.len() as int))
}

/// Whether every character of a text may stand in a header.
pub fn fits_header(text: &str) -> (ok: bool)
    ensures
        ok == is_header_text(text@),
{
    let n = text.unicode_len();
    let mut i: usize = 0;
    while i < n
        invariant
            n == text@.len(),
            i <= n,
            forall|j: int| 0 <= j < i ==> is_text_char(#[trigger] text@[j]),
        decreases n - i,
    {
        let c = text.get_char(i);
        let code = c as u32;
        if !(c == '\t' || (code >= 32 && code != 127)) {
            return false;
        }
        i += 1;
    }
    true
}

fn is_last_of_name(cookies: &Vec<(String, String)>, i: usize) -> (b: bool)
    requires
        i < cookies.len(),
    ensures
        b == is_latest(cookies@, i as int),
{
    let mut j: usize = i + 1;
    while j < cookies.len()
        invariant
            i < j <= cookies@.len(),
            forall|k: int| i < k < j ==> (#[trigger] cookies@[k]).0@ != cookies@[i as int].0@,
        decreases cookies@.len() - j,
    {
        if cookies[j].0 == cookies[i].0 {
            return false;
        }
        j += 1;
    }
    true
}

/// The text of the cookie header for a list of cookies.
pub fn cookie_header(cookies: &Vec<(String, String)>) -> (text: String)
    ensures
        text@ == cookie_text(cookies@),
{
    let mut text = String::new();
    let mut first = true;
    let mut i: usize = 0;
    while i < cookies.len()
        invariant
            i <= cookies@.len(),
            first == (kept_cookies(cookies@, i as int).len() == 0),
            text@ == joined(kept_cookies(cookies@, i as int)),
        decreases cookies@.len() - i,
    {
        if is_last_of_name(cookies, i) {
            let ghost before = kept_cookies(cookies@, i as int);
            let ghost after = kept_cookies(cookies@, i + 1);
            assert(after == before.push((cookies@[i as int].0@, cookies@[i as int].1@)));
            assert(after.drop_last() == before);
            if !first {
                text.append("; ");
                proof {
                    reveal_strlit("; ");
                    assert("; "@ =~= seq![';', ' ']);
                }
            }
            text.append(cookies[i].0.as_str());
            text.append("=");
            proof {
                reveal_strlit("=");
                assert("="@ =~= seq!['=']);
            }
            text.append(cookies[i].1.as_str());
            assert(text@ =~= joined(after));
            first = false;
        }
        i += 1;
    }
    text
}

/// The identity under which the remote API is called: the headers that every
/// request carries.
#[derive(Debug)]
pub struct Client {
    pub headers: HeaderMap,
}

/// The headers of a client with the given token and cookie text.
pub open spec fn client_headers(token: Seq<char>, cookie: Seq<char>) -> Map<Seq<char>, Seq<char>> {
    Map::<Seq<char>, Seq<char>>::empty().insert("origin"@, ORIGIN@).insert("referer"@, REFERER@).insert(
        "user-agent"@,
        USER_AGENT@,
    ).insert("authorizev3"@, token).insert("cookie"@, cookie)
}

/// What deriving an identity comes to, given the token that the page's
/// storage held, if it held a text, and the cookies of the browser.
pub open spec fn derived_headers(token: Option<String>, cookies: Seq<(String, String)>) -> Option<
    Map<Seq<char>, Seq<char>>,
> {
    match token {
        Some(token) => Some(client_headers(token@, cookie_text(cookies))),
        None => None,
    }
}

proof fn lemma_names_are_valid()
    ensures
        is_header_name("origin"@),
        is_header_name("referer"@),
        is_header_name("user-agent"@),
        is_header_name("authorizev3"@),
        is_header_name("cookie"@),
{
    reveal_strlit("origin");
    reveal_strlit("referer");
    reveal_strlit("user-agent");
    reveal_strlit("authorizev3");
    reveal_strlit("cookie");
}

impl Client {
    /// The client that calls the remote API with the given token and cookies.
    /// Of two cookies with one name the later counts.
    ///
    /// The token and the cookies have to be fit for a header: see
    /// `fits_header` and `cookie_header`.
    pub fn new(authorizev3: &str, cookies: &Vec<(String, String)>) -> (client: Client)
        requires
            is_header_text(authorizev3@),
            is_header_text(cookie_text(cookies@)),
        ensures
            header_fields(client.headers) == client_headers(authorizev3@, cookie_text(cookies@)),
    {
        let cookie = cookie_header(cookies);
        let mut headers = no_headers();
        proof {
            lemma_names_are_valid();
            lemma_fixed_texts_are_valid();
            assert(header_fields(headers).dom() =~= Set::empty());
        }
        put(&mut headers, "origin", ORIGIN);
        put(&mut headers, "referer", REFERER);
        put(&mut headers, "user-agent", USER_AGENT);
        put(&mut headers, "authorizev3", authorizev3);
        put(&mut headers, "cookie", cookie.as_str());
        Client { headers }
    }

    /// The client for what the browser handed out after the portal was
    /// opened: the token that the page's storage held, if it held a text, and
    /// the browser's cookies by name and value. Without a token there is no
    /// identity.
    pub fn from_browser_session(token: Option<String>, cookies: &Vec<(String, String)>) -> (r: Result<
        Client,
        WbSellerError,
    >)
        requires
            token is Some ==> is_header_text(token->0@) && is_header_text(cookie_text(cookies@)),
        ensures
            match r {
                Ok(client) => derived_headers(token, cookies@) == Some(header_fields(client.headers)),
                Err(WbSellerError::Custom(message)) => token is None && message@
                    == "parse authorizev3 value"@,
                Err(_) => false,
            },
    {
        match token {
            Some(token) => Ok(Client::new(token.as_str(), cookies)),
            None => Err(WbSellerError::Custom(String::from_str("parse authorizev3 value"))),
        }
    }
}

proof fn lemma_fixed_texts_are_valid()
    ensures
        is_header_text(ORIGIN@),
        is_header_text(REFERER@),
        is_header_text(USER_AGENT@),
{
    reveal_strlit("https://seller.wildberries.ru");
    reveal_strlit("https://seller.wildberries.ru/");
    reveal_strlit(
        "Mozilla/5.0 (Windows NT 10.0; Win64; x64) AppleWebKit/537.36 (KHTML, like Gecko) Chrome/138.0.0.0 Safari/537.36",
    );
}

/// The costs that the lookup for the supply at a place in the list brought: a
/// lookup that failed, or that was not made, counts as one that found nothing.
pub open spec fn answered_costs(answers: Seq<Option<AcceptanceCostsResponse>>, i: int) -> Seq<Cost> {
    if 0 <= i < answers.len() && answers[i] is Some {
        answers[i]->0.result.costs@
    } else {
        Seq::empty()
    }
}

/// The costs of a batch of lookups by the id of their supply. A supply without
/// an id has no entry; of two supplies with one id the later lookup stays.
pub open spec fn costs_by_id(
    supplies: Seq<Supply>,
    answers: Seq<Option<AcceptanceCostsResponse>>,
) -> Map<i64, Seq<Cost>>
    decreases supplies.len(),
{
    if supplies.len() == 0 {
        Map::empty()
    } else {
        match supplies.last().preorder_id {
            Some(id) => costs_by_id(supplies.drop_last(), answers).insert(
                id,
                answered_costs(answers, supplies.len() - 1),
            ),
            None => costs_by_id(supplies.drop_last(), answers),
        }
    }
}

/// A batch of lookups has an entry for exactly the supplies that the index of
/// the same list has: a failed lookup empties an entry and never drops it.
pub proof fn lemma_batch_covers_index(
    supplies: Seq<Supply>,
    answers: Seq<Option<AcceptanceCostsResponse>>,
)
    ensures
        costs_by_id(supplies, answers).dom() == supplies_by_id(supplies).dom(),
    decreases supplies.len(),
{
    if supplies.len() > 0 {
        lemma_batch_covers_index(supplies.drop_last(), answers);
    }
    assert(costs_by_id(supplies, answers).dom() =~= supplies_by_id(supplies).dom());
}

impl Client {
    /// Gathers the answers of the cost lookups of one poll, made one after the
    /// other in the order of the list: `answers[i]` is what the lookup for
    /// `supplies[i]` brought, `None` where it failed.
    pub fn acceptance_costs_from_supplies(
        supplies: &Vec<Supply>,
        answers: &Vec<Option<AcceptanceCostsResponse>>,
    ) -> (data: CostLists)
        ensures
            lists_of(data@) == costs_by_id(supplies@, answers@),
    {
        let mut data: CostLists = HashMap::new();
        let mut i: usize = 0;
        assert(lists_of(data@) =~= costs_by_id(supplies@.take(0), answers@));
        while i < supplies.len()
            invariant
                i <= supplies@.len(),
                lists_of(data@) == costs_by_id(supplies@.take(i as int), answers@),
            decreases supplies@.len() - i,
        {
            assert(supplies@.take(i + 1).drop_last() == supplies@.take(i as int));
            match supplies[i].preorder_id {
                Some(id) => {
                    let costs = if i < answers.len() {
                        match &answers[i] {
                            Some(answer) => clone_costs(&answer.result.costs),
                            None => Vec::new(),
                        }
                    } else {
                        Vec::new()
                    };
                    assert(costs@ =~= answered_costs(answers@, i as int));
                    let ghost before = data@;
                    data.insert(id, costs);
                    assert(lists_of(data@) =~= lists_of(before).insert(id, costs@));
                },
                None => {},
            }
            i += 1;
        }
        assert(supplies@.take(supplies@.len() as int) == supplies@);
        data
    }
}

/// The address of the list of supplies.
pub const LIST_SUPPLIES_URL: &'static str =
    "https://seller-supply.wildberries.ru/ns/sm-supply/supply-manager/api/v1/supply/listSupplies";

/// The address of the cost lookup.
pub const ACCEPTANCE_COSTS_URL: &'static str =
    "https://seller-supply.wildberries.ru/ns/sm-supply/supply-manager/api/v1/supply/getAcceptanceCosts";

/// The version of the protocol that the requests speak.
pub const JSONRPC: &'static str = "2.0";

/// The number that a list request carries.
pub const LIST_SUPPLIES_ID: &'static str = "json-rpc_33";

/// The number that a cost lookup carries.
pub const ACCEPTANCE_COSTS_ID: &'static str = "json-rpc_39";

/// The field by which the list is sorted.
pub const SORT_BY: &'static str = "createDate";

/// The direction in which the list is sorted.
pub const SORT_DIRECTION: &'static str = "desc";

/// The milliseconds of a day.
pub const DAY_MILLIS: i64 = 86_400_000;

/// The largest distance from the start of 1970, in milliseconds, that the
/// calendar can hold a moment at.
pub const CALENDAR_REACH: i64 = 200_000_000_000_000_000;

/// What a list request asks for.
#[derive(Clone, Copy, Debug, PartialEq, Eq)]
pub struct ListSuppliesParams {
    pub page_number: u32,
    pub page_size: u32,
    pub sort_by: &'static str,
    pub sort_direction: &'static str,
    pub status_id: i8,
    pub search_by_id: Option<i64>,
}

/// A request for the list of supplies: where it goes and what it carries.
#[derive(Clone, Copy, Debug, PartialEq, Eq)]
pub struct ListSuppliesRequest {
    pub url: &'static str,
    pub params: ListSuppliesParams,
    pub jsonrpc: &'static str,
    pub id: &'static str,
}

/// What a cost lookup asks for.
#[derive(Debug)]
pub struct AcceptanceCostsParams {
    pub date_from: String,
    pub date_to: String,
    pub preorder_id: i64,
    pub supply_id: Option<i64>,
}

/// A cost lookup: where it goes and what it carries.
#[derive(Debug)]
pub struct AcceptanceCostsRequest {
    pub url: &'static str,
    pub params: AcceptanceCostsParams,
    pub jsonrpc: &'static str,
    pub id: &'static str,
}

/// The moment that lies the given number of milliseconds after the start of
/// 1970 in UTC, written with date, time, milliseconds and a closing `Z`; none
/// where the calendar does not reach that far.
pub uninterp spec fn rfc3339_text(millis: i64) -> Option<Seq<char>>;

/// `chrono::DateTime::from_timestamp_millis`, then `to_rfc3339_opts` with
/// milliseconds and `Z` on the moment it made. The text depends on the number
/// alone, and there is one only for a number within the calendar's reach.
#[verifier::external_body]
fn rfc3339_millis(millis: i64) -> (text: Option<String>)
    ensures
        text is Some <==> rfc3339_text(millis) is Some,
        text is Some ==> text->0@ == rfc3339_text(millis)->0,
        text is Some ==> -CALENDAR_REACH <= millis <= CALENDAR_REACH,
{
    match DateTime::from_timestamp_millis(millis) {
        Some(moment) => Some(moment.to_rfc3339_opts(SecondsFormat::Millis, true)),
        None => None,
    }
}

/// The days that a window of the given length reaches beyond today: a window
/// of no days counts as one of one day.
pub open spec fn days_ahead(days: u8) -> int {
    if days == 0 {
        0
    } else {
        days - 1
    }
}

/// The start of the last day of a window of the given length that begins now.
pub open spec fn window_end(now_millis: i64, days: u8) -> int {
    ((now_millis + days_ahead(days) * DAY_MILLIS) / (DAY_MILLIS as int)) * DAY_MILLIS
}

/// The two ends of the window of a cost lookup as texts: now, and the start of
/// the last day; none where the calendar does not reach that far.
pub open spec fn window_of(now_millis: i64, days: u8) -> Option<(Seq<char>, Seq<char>)> {
    let end = window_end(now_millis, days);
    if rfc3339_text(now_millis) is Some && i64::MIN <= end <= i64::MAX && rfc3339_text(end as i64)
        is Some {
        Some((rfc3339_text(now_millis)->0, rfc3339_text(end as i64)->0))
    } else {
        None
    }
}

/// The start of the day of a moment.
fn day_start(millis: i64) -> (start: i64)
    requires
        -CALENDAR_REACH - 256 * DAY_MILLIS <= millis <= CALENDAR_REACH + 256 * DAY_MILLIS,
    ensures
        start == ((millis as int) / (DAY_MILLIS as int)) * DAY_MILLIS,
{
    let ghost day = DAY_MILLIS as int;
    let ghost whole = (millis as int) / day;
    let ghost rest = (millis as int) % day;
    proof {
        lemma_fundamental_div_mod(millis as int, day);
        assert(0 <= rest < day);
        assert(day * whole == whole * day) by (nonlinear_arith);
    }
    if millis >= 0 {
        let into_day: u64 = (millis as u64) % (DAY_MILLIS as u64);
        millis - (into_day as i64)
    } else {
        let before: u64 = (-(millis + 1)) as u64;
        let from_end: u64 = before % (DAY_MILLIS as u64);
        proof {
            assert(before as int == (-whole - 1) * day + (day - 1 - rest)) by (nonlinear_arith)
                requires
                    before as int == -(millis as int) - 1,
                    millis as int == whole * day + rest,
            ;
            lemma_fundamental_div_mod_converse(before as int, day, -whole - 1, day - 1 - rest);
        }
        millis - (DAY_MILLIS - 1 - (from_end as i64))
    }
}

/// A step of deriving an identity from the browser.
#[derive(Clone, Copy, Debug, PartialEq, Eq, Structural)]
pub enum DeriveStep {
    /// Open the portal on a new page.
    OpenPortal,
    /// Read the cookies of the browser.
    ReadCookies,
    /// Read the token from the storage of the page.
    ReadToken,
    /// Close the page.
    ClosePage,
    /// Nothing is left to do.
    Done,
}

/// The step that follows a step of deriving an identity, given whether it
/// succeeded. Without a page there is nothing to read and nothing to close.
/// Once the page is open it is closed before the end, whatever fails.
pub open spec fn derive_step_after(step: DeriveStep, succeeded: bool) -> DeriveStep {
    match step {
        DeriveStep::OpenPortal => if succeeded {
            DeriveStep::ReadCookies
        } else {
            DeriveStep::Done
        },
        DeriveStep::ReadCookies => if succeeded {
            DeriveStep::ReadToken
        } else {
            DeriveStep::ClosePage
        },
        DeriveStep::ReadToken => DeriveStep::ClosePage,
        DeriveStep::ClosePage => DeriveStep::Done,
        DeriveStep::Done => DeriveStep::Done,
    }
}

/// A page that was opened is closed on every way to the end: after the page
/// is open, the end is reached from the closing of the page and from nowhere
/// else.
pub proof fn lemma_opened_page_is_closed(step: DeriveStep, succeeded: bool)
    requires
        step == DeriveStep::ReadCookies || step == DeriveStep::ReadToken || step == DeriveStep::ClosePage,
    ensures
        derive_step_after(step, succeeded) == DeriveStep::Done <==> step == DeriveStep::ClosePage,
        step != DeriveStep::ClosePage ==> derive_step_after(step, succeeded) == DeriveStep::ClosePage
            || derive_step_after(step, succeeded) == DeriveStep::ReadToken,
{
}

impl DeriveStep {
    /// The first step: opening the portal.
    pub fn first() -> (step: DeriveStep)
        ensures
            step == DeriveStep::OpenPortal,
    {
        DeriveStep::OpenPortal
    }

    /// The step that follows this one, given whether it succeeded.
    pub fn next(self, succeeded: bool) -> (step: DeriveStep)
        ensures
            step == derive_step_after(self, succeeded),
    {
        match self {
            DeriveStep::OpenPortal => if succeeded {
                DeriveStep::ReadCookies
            } else {
                DeriveStep::Done
            },
            DeriveStep::ReadCookies => if succeeded {
                DeriveStep::ReadToken
            } else {
                DeriveStep::ClosePage
            },
            DeriveStep::ReadToken => DeriveStep::ClosePage,
            DeriveStep::ClosePage => DeriveStep::Done,
            DeriveStep::Done => DeriveStep::Done,
        }
    }
}

/// The parameters of the page on which an identity is derived: the
/// navigation may take two seconds, opening altogether three, the portal's
/// root element is waited for for five seconds, and the page rests for one
/// and a half.
pub fn credential_page_params() -> (params: PageParams<'static>)
    ensures
        params.proxy is None,
        params.user_agent is None,
        params.cookies@.len() == 0,
        params.wait_for_el_until is None,
        params.wait_for_navigation == Some(2000u64),
        params.wait_open_on_page == Some(3000u64),
        params.wait_for_el == Some(("#root", 5000u64)),
        params.duration == 1500,
{
    PageParams {
        proxy: None,
        wait_for_el: Some(("#root", 5000)),
        wait_for_el_until: None,
        user_agent: None,
        cookies: Vec::new(),
        wait_open_on_page: Some(3000),
        wait_for_navigation: Some(2000),
        duration: 1500,
    }
}

impl Client {
    /// The request for the first hundred supplies of a status, newest first.
    pub fn list_supplies(status_id: i8) -> (request: ListSuppliesRequest)
        ensures
            request == (ListSuppliesRequest {
                url: LIST_SUPPLIES_URL,
                params: ListSuppliesParams {
                    page_number: 1,
                    page_size: 100,
                    sort_by: SORT_BY,
                    sort_direction: SORT_DIRECTION,
                    status_id,
                    search_by_id: None,
                },
                jsonrpc: JSONRPC,
                id: LIST_SUPPLIES_ID,
            }),
    {
        ListSuppliesRequest {
            url: LIST_SUPPLIES_URL,
            params: ListSuppliesParams {
                page_number: 1,
                page_size: 100,
                sort_by: SORT_BY,
                sort_direction: SORT_DIRECTION,
                status_id,
                search_by_id: None,
            },
            jsonrpc: JSONRPC,
            id: LIST_SUPPLIES_ID,
        }
    }

    /// The request for the supplies that are not yet planned.
    pub fn not_planned_list_supplies() -> (request: ListSuppliesRequest)
        ensures
            request == (ListSuppliesRequest {
                url: LIST_SUPPLIES_URL,
                params: ListSuppliesParams {
                    page_number: 1,
                    page_size: 100,
                    sort_by: SORT_BY,
                    sort_direction: SORT_DIRECTION,
                    status_id: -1i8,
                    search_by_id: None,
                },
                jsonrpc: JSONRPC,
                id: LIST_SUPPLIES_ID,
            }),
    {
        Client::list_supplies(-1)
    }

    /// The two ends of the window of a cost lookup that is made now, as texts:
    /// now, and the start of the day that lies `days - 1` days ahead (today
    /// for a window of no days).
    pub fn acceptance_costs_window(now_millis: i64, days: u8) -> (window: Option<(String, String)>)
        ensures
            match window {
                Some((from, to)) => window_of(now_millis, days) == Some((from@, to@)),
                None => window_of(now_millis, days) is None,
            },
    {
        let from = match rfc3339_millis(now_millis) {
            Some(text) => text,
            None => {
                return None;
            },
        };
        let ahead: i64 = if days == 0 {
            0
        } else {
            (days - 1) as i64
        };
        let end = day_start(now_millis + ahead * DAY_MILLIS);
        match rfc3339_millis(end) {
            Some(to) => Some((from, to)),
            None => None,
        }
    }

    /// The cost lookup for one supply over a window of the given number of
    /// days that begins now; none where the calendar does not reach that far.
    pub fn get_acceptance_costs(preorder_id: i64, days: u8, now_millis: i64) -> (request: Option<
        AcceptanceCostsRequest,
    >)
        ensures
            match request {
                Some(request) => {
                    &&& window_of(now_millis, days) == Some(
                        (request.params.date_from@, request.params.date_to@),
                    )
                    &&& request.params.preorder_id == preorder_id
                    &&& request.params.supply_id is None
                    &&& request.url == ACCEPTANCE_COSTS_URL
                    &&& request.jsonrpc == JSONRPC
                    &&& request.id == ACCEPTANCE_COSTS_ID
                },
                None => window_of(now_millis, days) is None,
            },
    {
        match Client::acceptance_costs_window(now_millis, days) {
            Some((date_from, date_to)) => Some(
                AcceptanceCostsRequest {
                    url: ACCEPTANCE_COSTS_URL,
                    params: AcceptanceCostsParams { date_from, date_to, preorder_id, supply_id: None },
                    jsonrpc: JSONRPC,
                    id: ACCEPTANCE_COSTS_ID,
                },
            ),
            None => None,
        }
    }
}

} // verus!
