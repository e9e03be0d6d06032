use crate::browser::error::{error_of_failure, failure_of, BrowserError};
use chromiumoxide::error::CdpError;
use chromiumoxide::cdp::browser_protocol::network::CookieParam;
use vstd::prelude::*;

verus! {

/// A cookie as the browser protocol takes it.
#[verifier::external_type_specification]
#[verifier::external_body]
pub struct ExCookieParam(CookieParam);

/// What a lookup of the browser's own address brings.
#[derive(Debug)]
pub struct MyIP {
    pub ip: String,
    pub country: String,
    pub cc: String,
}

impl Clone for MyIP {
    fn clone(&self) -> (r: Self)
        ensures
            r == *self,
    {
        MyIP { ip: self.ip.clone(), country: self.country.clone(), cc: self.cc.clone() }
    }
}

/// The pause after a probe that did not find its element, in milliseconds.
pub const WAIT_SLEEP: u64 = 10;

/// The number of times that the exit of the browser process is asked for again
/// after the first time.
pub const EXIT_RETRIES: u8 = 4;

/// The arguments that every browser is started with: the seven texts
/// `--disable-default-apps`, `--no-first-run`, `--disable-sync`,
/// `--lang=en_US`, `--no-default-browser-check`, `--disable-smooth-scrolling`
/// and `--disable-features=TranslateUI`.
pub open spec fn default_args_text() -> Seq<Seq<char>> {
    seq![
        "--disable-default-apps"@,
        "--no-first-run"@,
        "--disable-sync"@,
        "--lang=en_US"@,
        "--no-default-browser-check"@,
        "--disable-smooth-scrolling"@,
        "--disable-features=TranslateUI"@,
    ]
}

/// The texts of a list of strings.
pub open spec fn texts(list: Seq<String>) -> Seq<Seq<char>> {
    list.map_values(|s: String| s@)
}

fn owned(text: &str) -> (s: String)
    ensures
        s@ == text@,
{
    String::from_str(text)
}

/// The arguments that every browser is started with.
pub fn default_args() -> (args: Vec<String>)
    ensures
        texts(args@) == default_args_text(),
{
    let mut args: Vec<String> = Vec::new();
    args.push(owned("--disable-default-apps"));
    args.push(owned("--no-first-run"));
    args.push(owned("--disable-sync"));
    args.push(owned("--lang=en_US"));
    args.push(owned("--no-default-browser-check"));
    args.push(owned("--disable-smooth-scrolling"));
    args.push(owned("--disable-features=TranslateUI"));
    assert(texts(args@) =~= default_args_text());
    args
}

/// A copy of a list of strings, text for text.
pub fn clone_strings(list: &Vec<String>) -> (r: Vec<String>)
    ensures
        r@ == list@,
{
    let mut out: Vec<String> = Vec::new();
    let mut i: usize = 0;
    while i < list.len()
        invariant
            i <= list@.len(),
            out@ == list@.take(i as int),
        decreases list@.len() - i,
    {
        out.push(list[i].clone());
        assert(list@.take(i + 1) == list@.take(i as int).push(list@[i as int]));
        i += 1;
    }
    assert(list@.take(list@.len() as int) == list@);
    out
}

fn clone_text(o: &Option<String>) -> (r: Option<String>)
    ensures
        r == *o,
{
    match o {
        Some(s) => Some(s.clone()),
        None => None,
    }
}

/// The pauses and the time limit of a session, in milliseconds.
#[derive(Clone, Copy, Debug, PartialEq, Eq, Structural)]
pub struct BrowserTimings {
    /// The pause after the launch, before the browser is used.
    pub launch_sleep: u64,
    /// The pause after the proxy was set.
    pub set_proxy_sleep: u64,
    /// The pause after any other command.
    pub action_sleep: u64,
    /// The time that a navigation may take.
    pub page_goto_timeout: u64,
}

/// The pauses and the time limit of a session when nothing is chosen.
pub open spec fn default_timings() -> BrowserTimings {
    BrowserTimings { launch_sleep: 280, set_proxy_sleep: 180, action_sleep: 80, page_goto_timeout: 1400 }
}

impl Default for BrowserTimings {
    fn default() -> (timings: Self)
        ensures
            timings == default_timings(),
    {
        BrowserTimings {
            launch_sleep: 280,
            set_proxy_sleep: 180,
            action_sleep: 80,
            page_goto_timeout: 1400,
        }
    }
}

/// How a page is brought to a state in which it can be used. Every part is
/// switched on by being there.
#[derive(Debug)]
pub struct PageParams<'a> {
    /// The proxy to set before the page is made.
    pub proxy: Option<&'a str>,
    /// A selector to wait for after the page has loaded, and for how long.
    pub wait_for_el: Option<(&'a str, u64)>,
    /// A selector to wait for, a selector that ends the wait early, and for
    /// how long.
    pub wait_for_el_until: Option<(&'a str, &'a str, u64)>,
    /// The user agent that the page gives.
    pub user_agent: Option<&'a str>,
    /// The cookies that the page starts with.
    pub cookies: Vec<CookieParam>,
    /// The time that opening the address may take as a whole.
    pub wait_open_on_page: Option<u64>,
    /// The time to wait for the navigation to complete.
    pub wait_for_navigation: Option<u64>,
    /// The pause after the page has loaded.
    pub duration: u64,
}

impl<'a> PageParams<'a> {
    /// Nothing is switched on and the pause is zero.
    pub open spec fn is_plain(self) -> bool {
        &&& self.proxy is None
        &&& self.wait_for_el is None
        &&& self.wait_for_el_until is None
        &&& self.user_agent is None
        &&& self.cookies@.len() == 0
        &&& self.wait_open_on_page is None
        &&& self.wait_for_navigation is None
        &&& self.duration == 0
    }
}

impl<'a> Default for PageParams<'a> {
    fn default() -> (params: Self)
        ensures
            params.is_plain(),
    {
        PageParams {
            proxy: None,
            wait_for_el: None,
            wait_for_el_until: None,
            user_agent: None,
            cookies: Vec::new(),
            wait_open_on_page: None,
            wait_for_navigation: None,
            duration: 0,
        }
    }
}

/// Whether the browser shows a window.
#[derive(Clone, Copy, Debug, PartialEq, Eq, Structural)]
pub enum HeadlessMode {
    /// With a window.
    False,
    /// Without a window, the old way.
    True,
    /// Without a window, the new way.
    New,
}

/// What a session is launched with.
#[derive(Debug)]
pub struct BrowserSessionConfig {
    pub executable: Option<String>,
    pub user_data_dir: Option<String>,
    pub args: Vec<String>,
    pub headless: HeadlessMode,
    pub sandbox: bool,
    pub extensions: Vec<String>,
    pub incognito: bool,
    pub port: u16,
    pub launch_timeout: u64,
    pub request_timeout: u64,
    pub cache_enabled: bool,
    pub timings: BrowserTimings,
}

impl BrowserSessionConfig {
    /// The configuration that a session has when nothing is chosen: the
    /// default arguments, a window, no sandbox, no extension of the caller, a
    /// port picked by the system, and the cache on.
    pub open spec fn is_default(self) -> bool {
        &&& self.executable is None
        &&& self.user_data_dir is None
        &&& texts(self.args@) == default_args_text()
        &&& self.headless == HeadlessMode::False
        &&& !self.sandbox
        &&& self.extensions@.len() == 0
        &&& !self.incognito
        &&& self.port == 0
        &&& self.launch_timeout == 1500
        &&& self.request_timeout == 2000
        &&& self.cache_enabled
        &&& self.timings == default_timings()
    }

    /// The two configurations say the same, text for text.
    pub open spec fn agrees_with(self, other: Self) -> bool {
        &&& self.executable == other.executable
        &&& self.user_data_dir == other.user_data_dir
        &&& self.args@ == other.args@
        &&& self.headless == other.headless
        &&& self.sandbox == other.sandbox
        &&& self.extensions@ == other.extensions@
        &&& self.incognito == other.incognito
        &&& self.port == other.port
        &&& self.launch_timeout == other.launch_timeout
        &&& self.request_timeout == other.request_timeout
        &&& self.cache_enabled == other.cache_enabled
        &&& self.timings == other.timings
    }

    /// What the browser process is started with.
    ///
    /// The browser's own default arguments and its fixed viewport are switched
    /// off. The companion extension, which carries out the commands of the
    /// session, is loaded first and the caller's extensions after it.
    pub fn to_config(&self, companion: &str) -> (plan: LaunchPlan)
        ensures
            plan.starts(*self, companion@),
    {
        let mut extensions: Vec<String> = Vec::new();
        extensions.push(owned(companion));
        let mut i: usize = 0;
        while i < self.extensions.len()
            invariant
                i <= self.extensions@.len(),
                extensions@.len() == i + 1,
                extensions@[0]@ == companion@,
                extensions@.skip(1) == self.extensions@.take(i as int),
            decreases self.extensions@.len() - i,
        {
            let ghost before = extensions@;
            extensions.push(self.extensions[i].clone());
            assert(extensions@.skip(1) =~= before.skip(1).push(self.extensions@[i as int]));
            assert(self.extensions@.take(i + 1) =~= self.extensions@.take(i as int).push(
                self.extensions@[i as int],
            ));
            i += 1;
        }
        assert(self.extensions@.take(self.extensions@.len() as int) == self.extensions@);
        LaunchPlan {
            disable_default_args: true,
            viewport_disabled: true,
            headless: self.headless,
            args: clone_strings(&self.args),
            extensions,
            port: self.port,
            launch_timeout: self.launch_timeout,
            request_timeout: self.request_timeout,
            incognito: self.incognito,
            no_sandbox: !self.sandbox,
            enable_cache: self.cache_enabled,
            user_data_dir: clone_text(&self.user_data_dir),
            executable: clone_text(&self.executable),
        }
    }
}

impl Clone for BrowserSessionConfig {
    fn clone(&self) -> (r: Self)
        ensures
            r.agrees_with(*self),
    {
        BrowserSessionConfig {
            executable: clone_text(&self.executable),
            user_data_dir: clone_text(&self.user_data_dir),
            args: clone_strings(&self.args),
            headless: self.headless,
            sandbox: self.sandbox,
            extensions: clone_strings(&self.extensions),
            incognito: self.incognito,
            port: self.port,
            launch_timeout: self.launch_timeout,
            request_timeout: self.request_timeout,
            cache_enabled: self.cache_enabled,
            timings: self.timings,
        }
    }
}

impl Default for BrowserSessionConfig {
    fn default() -> (config: Self)
        ensures
            config.is_default(),
    {
        BrowserSessionConfig {
            executable: None,
            user_data_dir: None,
            args: default_args(),
            headless: HeadlessMode::False,
            sandbox: false,
            extensions: Vec::new(),
            incognito: false,
            port: 0,
            launch_timeout: 1500,
            request_timeout: 2000,
            cache_enabled: true,
            timings: BrowserTimings::default(),
        }
    }
}

impl LaunchPlan {
    /// The plan starts the browser that the configuration describes, with the
    /// companion extension loaded before the extensions of the configuration.
    pub open spec fn starts(self, config: BrowserSessionConfig, companion: Seq<char>) -> bool {
        &&& self.disable_default_args
        &&& self.viewport_disabled
        &&& self.headless == config.headless
        &&& self.args@ == config.args@
        &&& self.extensions@.len() == config.extensions@.len() + 1
        &&& self.extensions@[0]@ == companion
        &&& self.extensions@.skip(1) == config.extensions@
        &&& self.port == config.port
        &&& self.launch_timeout == config.launch_timeout
        &&& self.request_timeout == config.request_timeout
        &&& self.incognito == config.incognito
        &&& self.no_sandbox == !config.sandbox
        &&& self.enable_cache == config.cache_enabled
        &&& self.user_data_dir == config.user_data_dir
        &&& self.executable == config.executable
    }
}

/// What the browser process is started with, switch by switch.
#[derive(Debug)]
pub struct LaunchPlan {
    /// The browser's own default arguments are left out.
    pub disable_default_args: bool,
    /// The browser's fixed viewport is switched off.
    pub viewport_disabled: bool,
    pub headless: HeadlessMode,
    pub args: Vec<String>,
    /// The extensions to load, the companion first.
    pub extensions: Vec<String>,
    pub port: u16,
    /// The time that the launch may take, in milliseconds.
    pub launch_timeout: u64,
    /// The time that a request to the browser may take, in milliseconds.
    pub request_timeout: u64,
    pub incognito: bool,
    pub no_sandbox: bool,
    pub enable_cache: bool,
    pub user_data_dir: Option<String>,
    pub executable: Option<String>,
}

/// One step on the way to a page that can be used.
#[derive(Clone, Copy, Debug, PartialEq, Eq)]
pub enum PageStep<'a> {
    /// Set the proxy of the browser.
    SetProxy { proxy: &'a str },
    /// Make an empty page.
    NewPage,
    /// Make the page give this user agent.
    SetUserAgent { user_agent: &'a str },
    /// Hand the cookies of the parameters to the page.
    SetCookies,
    /// Go to the address. The navigation itself may take `goto_timeout`
    /// milliseconds and, where `deadline` is there, the step as a whole that
    /// many.
    Navigate { url: &'a str, goto_timeout: u64, deadline: Option<u64> },
    /// Wait for the navigation to complete, for at most that many milliseconds.
    WaitForNavigation { within: u64 },
    /// Pause.
    Sleep { millis: u64 },
    /// Wait for an element, for at most that many milliseconds.
    WaitForElement { selector: &'a str, within: u64 },
    /// Wait for an element or for the one that ends the wait early, for at
    /// most that many milliseconds.
    WaitForElementUntil { selector: &'a str, until_selector: &'a str, within: u64 },
}

impl<'a> PageStep<'a> {
    /// Whether a failure of the step ends the whole with that failure. A
    /// navigation or a wait that fails or runs out of time is passed over: the
    /// waits that follow look at the page again.
    pub open spec fn must_succeed(self) -> bool {
        self is SetProxy || self is NewPage || self is SetUserAgent || self is SetCookies
    }

    /// Whether a failure of the step ends the whole with that failure.
    pub fn aborts_on_failure(&self) -> (b: bool)
        ensures
            b == self.must_succeed(),
    {
        match self {
            PageStep::SetProxy { .. } => true,
            PageStep::NewPage => true,
            PageStep::SetUserAgent { .. } => true,
            PageStep::SetCookies => true,
            _ => false,
        }
    }
}

/// The step, if it is switched on.
pub open spec fn when<A>(on: bool, step: A) -> Seq<A> {
    if on {
        seq![step]
    } else {
        Seq::empty()
    }
}

/// The wait for an element, if one is asked for.
pub open spec fn element_wait<'a>(wait: Option<(&'a str, u64)>) -> Seq<PageStep<'a>> {
    match wait {
        Some((selector, within)) => seq![PageStep::WaitForElement { selector, within }],
        None => Seq::empty(),
    }
}

/// The wait for an element or for the one that ends the wait early, if one is
/// asked for.
pub open spec fn element_wait_until<'a>(wait: Option<(&'a str, &'a str, u64)>) -> Seq<PageStep<'a>> {
    match wait {
        Some((selector, until_selector, within)) => seq![
            PageStep::WaitForElementUntil { selector, until_selector, within },
        ],
        None => Seq::empty(),
    }
}

/// The steps that bring a page to the state that the parameters ask for, in
/// order: the proxy, the page, the user agent, the cookies, the navigation,
/// the wait for its completion, the pause, and the two waits for elements.
/// The page, the navigation and the pause are always there.
pub open spec fn recipe_of<'a>(
    timings: BrowserTimings,
    url: &'a str,
    params: PageParams<'a>,
) -> Seq<PageStep<'a>> {
    when(params.proxy is Some, PageStep::SetProxy { proxy: params.proxy->0 }) + seq![
        PageStep::NewPage,
    ] + when(params.user_agent is Some, PageStep::SetUserAgent { user_agent: params.user_agent->0 })
        + when(params.cookies@.len() > 0, PageStep::SetCookies) + seq![
        PageStep::Navigate {
            url,
            goto_timeout: timings.page_goto_timeout,
            deadline: params.wait_open_on_page,
        },
    ] + when(
        params.wait_for_navigation is Some,
        PageStep::WaitForNavigation { within: params.wait_for_navigation->0 },
    ) + seq![PageStep::Sleep { millis: params.duration }] + element_wait(params.wait_for_el)
        + element_wait_until(params.wait_for_el_until)
}

/// A command to the companion extension: the address that carries it, and the
/// pause that lets the extension finish.
#[derive(Debug)]
pub struct Command {
    pub url: String,
    pub settle_millis: u64,
}

/// What a launch consists of: the session to be, what the process is started
/// with, and the pause before the browser is used.
#[derive(Debug)]
pub struct Launch {
    pub session: BrowserSession,
    pub plan: LaunchPlan,
    pub settle_millis: u64,
}

/// The decisions of one browser session.
#[derive(Clone, Copy, Debug, PartialEq, Eq, Structural)]
pub struct BrowserSession {
    pub timings: BrowserTimings,
}

impl BrowserSession {
    /// Plans the launch of a session with the given configuration and
    /// companion extension.
    pub fn launch(bsc: &BrowserSessionConfig, companion: &str) -> (launch: Launch)
        ensures
            launch.session.timings == bsc.timings,
            launch.settle_millis == bsc.timings.launch_sleep,
            launch.plan.starts(*bsc, companion@),
    {
        Launch {
            session: BrowserSession { timings: bsc.timings },
            plan: bsc.to_config(companion),
            settle_millis: bsc.timings.launch_sleep,
        }
    }

    /// Plans the launch of a session with the default configuration.
    pub fn launch_with_default_config(companion: &str) -> (launch: Launch)
        ensures
            launch.session.timings == default_timings(),
            launch.settle_millis == default_timings().launch_sleep,
            exists|config: BrowserSessionConfig|
                config.is_default() && #[trigger] launch.plan.starts(config, companion@),
    {
        let config = BrowserSessionConfig::default();
        BrowserSession::launch(&config, companion)
    }

    /// Changes the pauses and the time limit of the session.
    pub fn set_timings(&mut self, timings: BrowserTimings)
        ensures
            final(self).timings == timings,
    {
        self.timings = timings;
    }

    /// The steps that open an address on a new page: the page, then the
    /// navigation, which may fail or run out of time.
    pub fn open<'a>(&self, url: &'a str) -> (steps: Vec<PageStep<'a>>)
        ensures
            steps@ == seq![
                PageStep::NewPage,
                PageStep::Navigate { url, goto_timeout: self.timings.page_goto_timeout, deadline: None },
            ],
    {
        let mut steps: Vec<PageStep<'a>> = Vec::new();
        steps.push(PageStep::NewPage);
        steps.push(
            PageStep::Navigate { url, goto_timeout: self.timings.page_goto_timeout, deadline: None },
        );
        assert(steps@ =~= seq![
            PageStep::NewPage,
            PageStep::Navigate { url, goto_timeout: self.timings.page_goto_timeout, deadline: None },
        ]);
        steps
    }

    /// The steps that open an address on a new page and pause after it.
    pub fn open_with_duration<'a>(&self, url: &'a str, duration: u64) -> (steps: Vec<PageStep<'a>>)
        ensures
            steps@ == seq![
                PageStep::NewPage,
                PageStep::Navigate { url, goto_timeout: self.timings.page_goto_timeout, deadline: None },
                PageStep::Sleep { millis: duration },
            ],
    {
        let mut steps = self.open(url);
        steps.push(PageStep::Sleep { millis: duration });
        assert(steps@ =~= seq![
            PageStep::NewPage,
            PageStep::Navigate { url, goto_timeout: self.timings.page_goto_timeout, deadline: None },
            PageStep::Sleep { millis: duration },
        ]);
        steps
    }

    /// The steps that bring a page to the state that the parameters ask for.
    pub fn open_with_params<'a>(&self, url: &'a str, params: &PageParams<'a>) -> (steps: Vec<
        PageStep<'a>,
    >)
        ensures
            steps@ == recipe_of(self.timings, url, *params),
    {
        let mut steps: Vec<PageStep<'a>> = Vec::new();
        if let Some(proxy) = params.proxy {
            steps.push(PageStep::SetProxy { proxy });
        }
        steps.push(PageStep::NewPage);
        if let Some(user_agent) = params.user_agent {
            steps.push(PageStep::SetUserAgent { user_agent });
        }
        if params.cookies.len() > 0 {
            steps.push(PageStep::SetCookies);
        }
        steps.push(
            PageStep::Navigate {
                url,
                goto_timeout: self.timings.page_goto_timeout,
                deadline: params.wait_open_on_page,
            },
        );
        if let Some(within) = params.wait_for_navigation {
            steps.push(PageStep::WaitForNavigation { within });
        }
        steps.push(PageStep::Sleep { millis: params.duration });
        let ghost loaded = steps@;
        assert(loaded =~= when(params.proxy is Some, PageStep::SetProxy { proxy: params.proxy->0 })
            + seq![PageStep::NewPage] + when(
            params.user_agent is Some,
            PageStep::SetUserAgent { user_agent: params.user_agent->0 },
        ) + when(params.cookies@.len() > 0, PageStep::SetCookies) + seq![
            PageStep::Navigate {
                url,
                goto_timeout: self.timings.page_goto_timeout,
                deadline: params.wait_open_on_page,
            },
        ] + when(
            params.wait_for_navigation is Some,
            PageStep::WaitForNavigation { within: params.wait_for_navigation->0 },
        ) + seq![PageStep::Sleep { millis: params.duration }]);
        if let Some((selector, within)) = params.wait_for_el {
            steps.push(PageStep::WaitForElement { selector, within });
        }
        if let Some((selector, until_selector, within)) = params.wait_for_el_until {
            steps.push(PageStep::WaitForElementUntil { selector, until_selector, within });
        }
        assert(steps@ =~= recipe_of(self.timings, url, *params));
        steps
    }

    /// The command that sets the proxy: the proxy is written behind
    /// `chrome://set_proxy/` as it stands.
    pub fn set_proxy(&self, proxy: &str) -> (command: Command)
        ensures
            command.url@ == "chrome://set_proxy/"@ + proxy@,
            command.settle_millis == self.timings.set_proxy_sleep,
    {
        let mut url = owned("chrome://set_proxy/");
        url.append(proxy);
        Command { url, settle_millis: self.timings.set_proxy_sleep }
    }

    /// The command that takes the proxy away.
    pub fn reset_proxy(&self) -> (command: Command)
        ensures
            command.url@ == "chrome://reset_proxy"@,
            command.settle_millis == self.timings.action_sleep,
    {
        Command { url: owned("chrome://reset_proxy"), settle_millis: self.timings.action_sleep }
    }

    /// The command that closes the tabs that are not needed.
    pub fn close_tabs(&self) -> (command: Command)
        ensures
            command.url@ == "chrome://close_tabs"@,
            command.settle_millis == self.timings.action_sleep,
    {
        Command { url: owned("chrome://close_tabs"), settle_millis: self.timings.action_sleep }
    }

    /// The command that clears the browsing data.
    pub fn clear_data(&self) -> (command: Command)
        ensures
            command.url@ == "chrome://clear_data"@,
            command.settle_millis == self.timings.action_sleep,
    {
        Command { url: owned("chrome://clear_data"), settle_millis: self.timings.action_sleep }
    }

    /// What a lookup of the browser's own address comes to: the page's text
    /// has to be there and has to read as an address record.
    pub fn myip(parsed: Option<MyIP>) -> (r: Result<MyIP, BrowserError>)
        ensures
            r == match parsed {
                Some(ip) => Ok::<MyIP, BrowserError>(ip),
                None => Err::<MyIP, BrowserError>(BrowserError::Serialization),
            },
    {
        match parsed {
            Some(ip) => Ok(ip),
            None => Err(BrowserError::Serialization),
        }
    }

    /// The first step of closing the session.
    pub fn close(&self) -> (step: CloseStep)
        ensures
            step == CloseStep::Shutdown,
    {
        CloseStep::Shutdown
    }
}

/// What the navigation that carries a command comes to. The address of a
/// command is no page: that the transport fails on it is expected and means
/// that the command was taken. Any other failure is reported.
pub open spec fn command_outcome_of(outcome: Result<(), CdpError>) -> Result<(), BrowserError> {
    match outcome {
        Ok(_) => Ok(()),
        Err(error) => if error_of_failure(failure_of(error)) == BrowserError::NetworkIO {
            Ok(())
        } else {
            Err(error_of_failure(failure_of(error)))
        },
    }
}

/// What the navigation that carries a command comes to.
pub fn command_outcome(outcome: Result<(), CdpError>) -> (r: Result<(), BrowserError>)
    ensures
        r == command_outcome_of(outcome),
{
    match outcome {
        Ok(_) => Ok(()),
        Err(error) => {
            let error = BrowserError::from(error);
            match error {
                BrowserError::NetworkIO => Ok(()),
                _ => Err(error),
            }
        },
    }
}

/// A step of closing a session.
#[derive(Clone, Copy, Debug, PartialEq, Eq, Structural)]
pub enum CloseStep {
    /// Ask the browser to shut down.
    Shutdown,
    /// Kill the browser process.
    Kill,
    /// Wait for the process to exit.
    Wait,
    /// Ask whether the process has exited, after that many failed askings.
    TryWait { failures: u8 },
    /// Cancel the task that drains the browser's events.
    AbortPump,
    /// Nothing is left to do.
    Done,
}

/// The step that follows a step of closing, given whether it succeeded.
///
/// A shutdown that fails is followed by a kill. Then the exit of the process
/// is waited for; if that fails it is asked for, again after each failure and
/// at most five times in all. Last the event task is cancelled, whatever came
/// before.
pub open spec fn close_step_after(step: CloseStep, succeeded: bool) -> CloseStep {
    match step {
        CloseStep::Shutdown => if succeeded {
            CloseStep::Wait
        } else {
            CloseStep::Kill
        },
        CloseStep::Kill => CloseStep::Wait,
        CloseStep::Wait => if succeeded {
            CloseStep::AbortPump
        } else {
            CloseStep::TryWait { failures: 0 }
        },
        CloseStep::TryWait { failures } => if !succeeded && failures < EXIT_RETRIES {
            CloseStep::TryWait { failures: (failures + 1) as u8 }
        } else {
            CloseStep::AbortPump
        },
        CloseStep::AbortPump => CloseStep::Done,
        CloseStep::Done => CloseStep::Done,
    }
}

/// The number of steps that closing can still take from a step on.
pub open spec fn close_steps_left(step: CloseStep) -> nat {
    match step {
        CloseStep::Shutdown => 9,
        CloseStep::Kill => 8,
        CloseStep::Wait => 7,
        CloseStep::TryWait { failures } => if failures <= EXIT_RETRIES {
            (6 - failures) as nat
        } else {
            2
        },
        CloseStep::AbortPump => 1,
        CloseStep::Done => 0,
    }
}

/// Closing comes to an end whatever fails: every step but the last brings it
/// nearer, and the event task is cancelled just before the end and not
/// otherwise.
pub proof fn lemma_close_ends(step: CloseStep, succeeded: bool)
    ensures
        step != CloseStep::Done ==> close_steps_left(close_step_after(step, succeeded))
            < close_steps_left(step),
        close_step_after(step, succeeded) == CloseStep::Done <==> step == CloseStep::AbortPump || step
            == CloseStep::Done,
{
}

impl CloseStep {
    /// The step that follows this one, given whether it succeeded.
    pub fn next(self, succeeded: bool) -> (step: CloseStep)
        ensures
            step == close_step_after(self, succeeded),
    {
        match self {
            CloseStep::Shutdown => if succeeded {
                CloseStep::Wait
            } else {
                CloseStep::Kill
            },
            CloseStep::Kill => CloseStep::Wait,
            CloseStep::Wait => if succeeded {
                CloseStep::AbortPump
            } else {
                CloseStep::TryWait { failures: 0 }
            },
            CloseStep::TryWait { failures } => if !succeeded && failures < EXIT_RETRIES {
                CloseStep::TryWait { failures: failures + 1 }
            } else {
                CloseStep::AbortPump
            },
            CloseStep::AbortPump => CloseStep::Done,
            CloseStep::Done => CloseStep::Done,
        }
    }
}

/// What a wait for an element does next.
#[derive(Clone, Copy, Debug, PartialEq, Eq, Structural)]
pub enum WaitStep {
    /// Look for the element that is waited for.
    ProbeTarget,
    /// Pause, then look for the element that ends the wait early.
    PauseBeforeStop,
    /// Look for the element that ends the wait early.
    ProbeStop,
    /// Pause, then look for the element that is waited for.
    PauseBeforeTarget,
    /// The wait is over.
    Done,
}

/// The step that follows a step of a wait, given whether a probe found its
/// element and whether there is an element that ends the wait early.
///
/// Without such an element the target is looked for, with a pause after each
/// miss, until it is there. With one, the two are looked for in turn, a pause
/// before each, and the wait is over as soon as either is there.
pub open spec fn wait_step_after(step: WaitStep, found: bool, with_stop: bool) -> WaitStep {
    match step {
        WaitStep::ProbeTarget => if found {
            WaitStep::Done
        } else if with_stop {
            WaitStep::PauseBeforeStop
        } else {
            WaitStep::PauseBeforeTarget
        },
        WaitStep::PauseBeforeStop => WaitStep::ProbeStop,
        WaitStep::ProbeStop => if found {
            WaitStep::Done
        } else {
            WaitStep::PauseBeforeTarget
        },
        WaitStep::PauseBeforeTarget => WaitStep::ProbeTarget,
        WaitStep::Done => WaitStep::Done,
    }
}

impl WaitStep {
    /// The first step of a wait: a look for the target.
    pub fn first() -> (step: WaitStep)
        ensures
            step == WaitStep::ProbeTarget,
    {
        WaitStep::ProbeTarget
    }

    /// The pause that the step asks for, in milliseconds, if it asks for one.
    pub fn pause_millis(self) -> (millis: Option<u64>)
        ensures
            millis == if self == WaitStep::PauseBeforeStop || self == WaitStep::PauseBeforeTarget {
                Some(WAIT_SLEEP)
            } else {
                None
            },
    {
        match self {
            WaitStep::PauseBeforeStop => Some(WAIT_SLEEP),
            WaitStep::PauseBeforeTarget => Some(WAIT_SLEEP),
            _ => None,
        }
    }

    /// The step that follows this one. `found` says whether the probe of this
    /// step found its element (it is not read after a pause), `with_stop`
    /// whether there is an element that ends the wait early.
    pub fn next(self, found: bool, with_stop: bool) -> (step: WaitStep)
        ensures
            step == wait_step_after(self, found, with_stop),
    {
        match self {
            WaitStep::ProbeTarget => if found {
                WaitStep::Done
            } else if with_stop {
                WaitStep::PauseBeforeStop
            } else {
                WaitStep::PauseBeforeTarget
            },
            WaitStep::PauseBeforeStop => WaitStep::ProbeStop,
            WaitStep::ProbeStop => if found {
                WaitStep::Done
            } else {
                WaitStep::PauseBeforeTarget
            },
            WaitStep::PauseBeforeTarget => WaitStep::ProbeTarget,
            WaitStep::Done => WaitStep::Done,
        }
    }
}

/// What a wait with a time limit comes to: running out of time is a timeout,
/// and a wait that ended in time has succeeded, whether through its target or
/// through the element that ends it early.
pub fn timed_wait(ended_in_time: bool) -> (r: Result<(), BrowserError>)
    ensures
        r == if ended_in_time {
            Ok::<(), BrowserError>(())
        } else {
            Err::<(), BrowserError>(BrowserError::Timeout)
        },
{
    if ended_in_time {
        Ok(())
    } else {
        Err(BrowserError::Timeout)
    }
}

} // verus!
