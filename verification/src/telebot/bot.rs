use std::time::Duration;
use vstd::prelude::*;

verus! {

/// The whole seconds of a span of time.
pub uninterp spec fn whole_seconds(span: Duration) -> u64;

/// `std::time::Duration::from_secs`: the span of that many whole seconds.
#[verifier::external_body]
fn seconds(secs: u64) -> (span: Duration)
    ensures
        whole_seconds(span) == secs,
{
    Duration::from_secs(secs)
}

/// The address of the messenger's API.
pub const BASE_URL: &'static str = "https://api.telegram.org";

/// The seconds that a message may take to send, unless told otherwise.
pub const DEFAULT_TIMEOUT_SECS: u64 = 5;

/// The markup of messages, unless told otherwise.
pub const DEFAULT_PARSE_MODE: &'static str = "HTML";

/// Builds a bot step by step.
#[derive(Debug)]
pub struct BotBuilder {
    token: String,
    timeout: Duration,
    chat_ids: Vec<String>,
    parse_mode: Option<String>,
}

/// A builder as a mathematical value.
pub struct BotPlan {
    pub token: Seq<char>,
    pub timeout: Duration,
    pub chat_ids: Seq<Seq<char>>,
    pub parse_mode: Option<Seq<char>>,
}

impl View for BotBuilder {
    type V = BotPlan;

    closed spec fn view(&self) -> BotPlan {
        BotPlan {
            token: self.token@,
            timeout: self.timeout,
            chat_ids: self.chat_ids@.map_values(|id: String| id@),
            parse_mode: match self.parse_mode {
                Some(mode) => Some(mode@),
                None => None,
            },
        }
    }
}

impl BotBuilder {
    /// A builder for a bot with the given token, which takes five seconds for
    /// a message at most, writes to nobody yet and marks its messages up as
    /// HTML.
    pub fn new(token: String) -> (builder: Self)
        ensures
            builder@.token == token@,
            whole_seconds(builder@.timeout) == DEFAULT_TIMEOUT_SECS,
            builder@.chat_ids == Seq::<Seq<char>>::empty(),
            builder@.parse_mode == Some(DEFAULT_PARSE_MODE@),
    {
        let builder = BotBuilder {
            token,
            timeout: seconds(DEFAULT_TIMEOUT_SECS),
            chat_ids: Vec::new(),
            parse_mode: Some(String::from_str(DEFAULT_PARSE_MODE)),
        };
        assert(builder@.chat_ids =~= Seq::<Seq<char>>::empty());
        builder
    }

    /// Changes the time that a message may take to send.
    pub fn timeout(self, duration: Duration) -> (builder: Self)
        ensures
            builder@ == (BotPlan { timeout: duration, ..self@ }),
    {
        let mut builder = self;
        builder.timeout = duration;
        builder
    }

    /// Changes the markup of the messages.
    pub fn parse_mode(self, mode: String) -> (builder: Self)
        ensures
            builder@ == (BotPlan { parse_mode: Some(mode@), ..self@ }),
    {
        let mut builder = self;
        builder.parse_mode = Some(mode);
        builder
    }

    /// Adds a chat to write to, after those that are there.
    pub fn add_chat_id(self, id: String) -> (builder: Self)
        ensures
            builder@ == (BotPlan { chat_ids: self@.chat_ids.push(id@), ..self@ }),
    {
        let mut builder = self;
        builder.chat_ids.push(id);
        assert(builder@.chat_ids =~= self@.chat_ids.push(id@));
        builder
    }

    /// Adds chats to write to, in their order, after those that are there.
    pub fn add_chat_ids(self, ids: Vec<String>) -> (builder: Self)
        ensures
            builder@ == (BotPlan {
                chat_ids: self@.chat_ids + ids@.map_values(|id: String| id@),
                ..self@
            }),
    {
        let mut builder = self;
        let mut ids = ids;
        let ghost added = ids@;
        builder.chat_ids.append(&mut ids);
        assert(builder@.chat_ids =~= self@.chat_ids + added.map_values(|id: String| id@));
        builder
    }

    /// The token of the bot.
    pub fn token(&self) -> (token: &String)
        ensures
            token@ == self@.token,
    {
        &self.token
    }

    /// The time that a message may take to send.
    pub fn timeout_duration(&self) -> (timeout: Duration)
        ensures
            timeout == self@.timeout,
    {
        self.timeout
    }

    /// The chats that the bot writes to.
    pub fn chat_ids(&self) -> (ids: &Vec<String>)
        ensures
            ids@.map_values(|id: String| id@) == self@.chat_ids,
    {
        &self.chat_ids
    }

    /// The markup of the messages, if any.
    pub fn parse_mode_text(&self) -> (mode: &Option<String>)
        ensures
            match *mode {
                Some(text) => self@.parse_mode == Some(text@),
                None => self@.parse_mode is None,
            },
    {
        &self.parse_mode
    }

    /// The address to which the bot sends its messages.
    pub fn send_message_url(&self) -> (url: String)
        ensures
            url@ == BASE_URL@ + "/bot"@ + self@.token + "/sendMessage"@,
    {
        let mut url = String::from_str(BASE_URL);
        url.append("/bot");
        url.append(self.token.as_str());
        url.append("/sendMessage");
        url
    }
}

} // verus!
