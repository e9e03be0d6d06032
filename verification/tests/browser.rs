use chromiumoxide::cdp::browser_protocol::page::FrameId;
use chromiumoxide::cdp::js_protocol::runtime::ExceptionDetails;
use chromiumoxide::error::{BrowserStderr, CdpError};
use wb_supplies::browser::error::{BrowserError, CdpFailure};
use wb_supplies::browser::session::{
    command_outcome, default_args, timed_wait, BrowserSession, BrowserSessionConfig, BrowserTimings,
    CloseStep, HeadlessMode, MyIP, PageParams, PageStep, WaitStep, EXIT_RETRIES, WAIT_SLEEP,
};

fn io_error() -> std::io::Error {
    std::io::Error::new(std::io::ErrorKind::BrokenPipe, "pipe")
}

fn serde_error() -> serde_json::Error {
    serde_json::from_str::<serde_json::Value>("{").unwrap_err()
}

fn session() -> BrowserSession {
    BrowserSession { timings: BrowserTimings::default() }
}

#[test]
fn protocol_errors_are_told_by_kind() {
    assert_eq!(BrowserError::from(CdpError::Io(io_error())), BrowserError::NetworkIO);
    assert_eq!(BrowserError::from(CdpError::Serde(serde_error())), BrowserError::Serialization);
    assert_eq!(
        BrowserError::from(CdpError::Chrome(chromiumoxide::types::Error { code: 1, message: "m".to_string() })),
        BrowserError::ChromeInternal
    );
    assert_eq!(BrowserError::from(CdpError::NoResponse), BrowserError::Timeout);
    assert_eq!(
        BrowserError::from(CdpError::LaunchTimeout(BrowserStderr::new(Vec::new()))),
        BrowserError::BrowserLaunch
    );
    assert_eq!(
        BrowserError::from(CdpError::LaunchIo(io_error(), BrowserStderr::new(Vec::new()))),
        BrowserError::BrowserLaunch
    );
    assert_eq!(BrowserError::from(CdpError::Timeout), BrowserError::Timeout);
    assert_eq!(BrowserError::from(CdpError::FrameNotFound(FrameId::new("f"))), BrowserError::FrameNotFound);
    assert_eq!(BrowserError::from(CdpError::ChromeMessage("m".to_string())), BrowserError::ChromeInternal);
    assert_eq!(BrowserError::from(CdpError::ScrollingFailed("m".to_string())), BrowserError::ChromeInternal);
    assert_eq!(BrowserError::from(CdpError::NotFound), BrowserError::PageCreation);
    assert_eq!(
        BrowserError::from(CdpError::JavascriptException(Box::new(ExceptionDetails::new(1, "t", 2, 3)))),
        BrowserError::JavaScriptError
    );
    assert_eq!(BrowserError::from(CdpError::msg("text")), BrowserError::ChromeInternal);
}

#[test]
fn every_protocol_failure_has_its_kind() {
    let table = [
        (CdpFailure::Ws, BrowserError::WebSocket),
        (CdpFailure::Io, BrowserError::NetworkIO),
        (CdpFailure::Serde, BrowserError::Serialization),
        (CdpFailure::Chrome, BrowserError::ChromeInternal),
        (CdpFailure::NoResponse, BrowserError::Timeout),
        (CdpFailure::UnexpectedWsMessage, BrowserError::WebSocket),
        (CdpFailure::ChannelSendError, BrowserError::NetworkIO),
        (CdpFailure::LaunchExit, BrowserError::BrowserLaunch),
        (CdpFailure::LaunchTimeout, BrowserError::BrowserLaunch),
        (CdpFailure::LaunchIo, BrowserError::BrowserLaunch),
        (CdpFailure::Timeout, BrowserError::Timeout),
        (CdpFailure::FrameNotFound, BrowserError::FrameNotFound),
        (CdpFailure::ChromeMessage, BrowserError::ChromeInternal),
        (CdpFailure::DecodeError, BrowserError::Decoding),
        (CdpFailure::ScrollingFailed, BrowserError::ChromeInternal),
        (CdpFailure::NotFound, BrowserError::PageCreation),
        (CdpFailure::JavascriptException, BrowserError::JavaScriptError),
        (CdpFailure::Url, BrowserError::InvalidUrl),
    ];
    for (failure, error) in table {
        assert_eq!(BrowserError::from_failure(failure), error, "{failure:?}");
    }
}

#[test]
fn a_timer_that_ran_out_is_a_timeout() {
    let runtime = tokio::runtime::Builder::new_current_thread().enable_time().build().unwrap();
    let elapsed = runtime
        .block_on(async {
            tokio::time::timeout(std::time::Duration::from_millis(1), std::future::pending::<()>()).await
        })
        .unwrap_err();
    assert_eq!(BrowserError::from(elapsed), BrowserError::Timeout);
    assert_eq!(timed_wait(false), Err(BrowserError::Timeout));
    assert_eq!(timed_wait(true), Ok(()));
}

#[test]
fn errors_have_their_words() {
    assert_eq!(BrowserError::PageCreation.message(), "failed to create page");
    assert_eq!(BrowserError::WebSocket.message(), "websocket communication failed");
    assert_eq!(BrowserError::Timeout.message(), "connection timeout");
    assert_eq!(BrowserError::NetworkIO.message(), "network I/O error");
    assert_eq!(BrowserError::BrowserLaunch.message(), "browser launch failed");
    assert_eq!(BrowserError::FrameNotFound.message(), "frame not found");
    assert_eq!(BrowserError::Navigation.message(), "navigation failed");
    assert_eq!(BrowserError::Serialization.message(), "serialization error");
    assert_eq!(BrowserError::Decoding.message(), "decoding error");
    assert_eq!(BrowserError::ChromeInternal.message(), "chrome internal error");
    assert_eq!(BrowserError::JavaScriptError.message(), "javascript exception");
    assert_eq!(BrowserError::InvalidUrl.message(), "invalid URL");
    assert_eq!(BrowserError::BuildBrowserConfigError.message(), "invalid browser config");
    assert_eq!(BrowserError::Unknown.message(), "unknown error");
}

#[test]
fn a_command_passes_over_a_failing_transport_and_nothing_else() {
    assert_eq!(command_outcome(Ok(())), Ok(()));
    assert_eq!(command_outcome(Err(CdpError::Io(io_error()))), Ok(()));
    assert_eq!(command_outcome(Err(CdpError::Timeout)), Err(BrowserError::Timeout));
    assert_eq!(command_outcome(Err(CdpError::NotFound)), Err(BrowserError::PageCreation));
    assert_eq!(
        command_outcome(Err(CdpError::ChromeMessage("m".to_string()))),
        Err(BrowserError::ChromeInternal)
    );
}

#[test]
fn commands_are_addresses_with_a_pause() {
    let timings = BrowserTimings { launch_sleep: 1, set_proxy_sleep: 2, action_sleep: 3, page_goto_timeout: 4 };
    let session = BrowserSession { timings };
    let command = session.set_proxy("user:pass@10.0.0.1:8080");
    assert_eq!(command.url, "chrome://set_proxy/user:pass@10.0.0.1:8080");
    assert_eq!(command.settle_millis, 2);
    let command = session.set_proxy("");
    assert_eq!(command.url, "chrome://set_proxy/");
    let command = session.reset_proxy();
    assert_eq!((command.url.as_str(), command.settle_millis), ("chrome://reset_proxy", 3));
    let command = session.close_tabs();
    assert_eq!((command.url.as_str(), command.settle_millis), ("chrome://close_tabs", 3));
    let command = session.clear_data();
    assert_eq!((command.url.as_str(), command.settle_millis), ("chrome://clear_data", 3));
}

#[test]
fn timings_have_their_defaults_and_can_be_changed() {
    let timings = BrowserTimings::default();
    assert_eq!(timings.launch_sleep, 280);
    assert_eq!(timings.set_proxy_sleep, 180);
    assert_eq!(timings.action_sleep, 80);
    assert_eq!(timings.page_goto_timeout, 1400);
    let mut session = session();
    let other = BrowserTimings { launch_sleep: 1, set_proxy_sleep: 2, action_sleep: 3, page_goto_timeout: 4 };
    session.set_timings(other);
    assert_eq!(session.timings, other);
}

#[test]
fn the_default_configuration() {
    let config = BrowserSessionConfig::default();
    assert_eq!(config.executable, None);
    assert_eq!(config.user_data_dir, None);
    assert_eq!(
        config.args,
        vec![
            "--disable-default-apps",
            "--no-first-run",
            "--disable-sync",
            "--lang=en_US",
            "--no-default-browser-check",
            "--disable-smooth-scrolling",
            "--disable-features=TranslateUI",
        ]
    );
    assert_eq!(config.args, default_args());
    assert_eq!(config.headless, HeadlessMode::False);
    assert!(!config.sandbox);
    assert!(config.extensions.is_empty());
    assert!(!config.incognito);
    assert_eq!(config.port, 0);
    assert_eq!(config.launch_timeout, 1500);
    assert_eq!(config.request_timeout, 2000);
    assert!(config.cache_enabled);
    assert_eq!(config.timings, BrowserTimings::default());
    let copy = config.clone();
    assert_eq!(copy.args, config.args);
    assert_eq!(copy.port, 0);
}

#[test]
fn the_companion_extension_is_loaded_first() {
    let mut config = BrowserSessionConfig::default();
    config.extensions = vec!["/one".to_string(), "/two".to_string()];
    config.executable = Some("/usr/bin/chromium".to_string());
    config.user_data_dir = Some("/tmp/profile".to_string());
    config.headless = HeadlessMode::New;
    config.sandbox = true;
    config.incognito = true;
    config.cache_enabled = false;
    config.port = 8889;
    config.launch_timeout = 11;
    config.request_timeout = 12;
    config.args = vec!["--x".to_string()];
    let plan = config.to_config("/companion");
    assert_eq!(plan.extensions, vec!["/companion", "/one", "/two"]);
    assert!(plan.disable_default_args);
    assert!(plan.viewport_disabled);
    assert_eq!(plan.headless, HeadlessMode::New);
    assert_eq!(plan.args, vec!["--x"]);
    assert_eq!(plan.port, 8889);
    assert_eq!(plan.launch_timeout, 11);
    assert_eq!(plan.request_timeout, 12);
    assert!(plan.incognito);
    assert!(!plan.no_sandbox);
    assert!(!plan.enable_cache);
    assert_eq!(plan.user_data_dir.as_deref(), Some("/tmp/profile"));
    assert_eq!(plan.executable.as_deref(), Some("/usr/bin/chromium"));
}

#[test]
fn a_launch_takes_the_timings_of_the_configuration() {
    let mut config = BrowserSessionConfig::default();
    config.timings.launch_sleep = 999;
    let launch = BrowserSession::launch(&config, "/companion");
    assert_eq!(launch.session.timings, config.timings);
    assert_eq!(launch.settle_millis, 999);
    assert_eq!(launch.plan.extensions, vec!["/companion"]);
    assert!(launch.plan.no_sandbox);
    assert!(launch.plan.enable_cache);
    assert!(!launch.plan.incognito);

    let launch = BrowserSession::launch_with_default_config("/c");
    assert_eq!(launch.settle_millis, 280);
    assert_eq!(launch.plan.extensions, vec!["/c"]);
    assert_eq!(launch.plan.args.len(), 7);
    assert_eq!(launch.plan.headless, HeadlessMode::False);
}

#[test]
fn plain_parameters_give_page_navigation_and_pause() {
    let params = PageParams::default();
    let steps = session().open_with_params("https://example.org", &params);
    assert_eq!(
        steps,
        vec![
            PageStep::NewPage,
            PageStep::Navigate { url: "https://example.org", goto_timeout: 1400, deadline: None },
            PageStep::Sleep { millis: 0 },
        ]
    );
}

#[test]
fn every_parameter_switches_its_step_on() {
    let mut params = PageParams::default();
    params.proxy = Some("10.0.0.1:80");
    params.user_agent = Some("agent");
    params.cookies = vec![chromiumoxide::cdp::browser_protocol::network::CookieParam::new("n", "v")];
    params.wait_open_on_page = Some(3000);
    params.wait_for_navigation = Some(2000);
    params.duration = 1500;
    params.wait_for_el = Some(("#root", 5000));
    params.wait_for_el_until = Some(("#a", "#b", 7000));
    let steps = session().open_with_params("u", &params);
    assert_eq!(
        steps,
        vec![
            PageStep::SetProxy { proxy: "10.0.0.1:80" },
            PageStep::NewPage,
            PageStep::SetUserAgent { user_agent: "agent" },
            PageStep::SetCookies,
            PageStep::Navigate { url: "u", goto_timeout: 1400, deadline: Some(3000) },
            PageStep::WaitForNavigation { within: 2000 },
            PageStep::Sleep { millis: 1500 },
            PageStep::WaitForElement { selector: "#root", within: 5000 },
            PageStep::WaitForElementUntil { selector: "#a", until_selector: "#b", within: 7000 },
        ]
    );
}

#[test]
fn single_parameters_switch_single_steps_on() {
    let mut params = PageParams::default();
    params.wait_for_el_until = Some(("#a", "#b", 1));
    let steps = session().open_with_params("u", &params);
    assert_eq!(steps.len(), 4);
    assert_eq!(steps[3], PageStep::WaitForElementUntil { selector: "#a", until_selector: "#b", within: 1 });
    let mut params = PageParams::default();
    params.proxy = Some("p");
    let steps = session().open_with_params("u", &params);
    assert_eq!(steps[0], PageStep::SetProxy { proxy: "p" });
    assert_eq!(steps.len(), 4);
}

#[test]
fn only_the_steps_before_the_navigation_end_the_whole() {
    assert!(PageStep::SetProxy { proxy: "p" }.aborts_on_failure());
    assert!(PageStep::NewPage.aborts_on_failure());
    assert!(PageStep::SetUserAgent { user_agent: "a" }.aborts_on_failure());
    assert!(PageStep::SetCookies.aborts_on_failure());
    assert!(!PageStep::Navigate { url: "u", goto_timeout: 1, deadline: None }.aborts_on_failure());
    assert!(!PageStep::WaitForNavigation { within: 1 }.aborts_on_failure());
    assert!(!PageStep::Sleep { millis: 1 }.aborts_on_failure());
    assert!(!PageStep::WaitForElement { selector: "s", within: 1 }.aborts_on_failure());
    assert!(!PageStep::WaitForElementUntil { selector: "s", until_selector: "t", within: 1 }.aborts_on_failure());
}

#[test]
fn opening_an_address_is_a_page_and_a_navigation() {
    let session = session();
    assert_eq!(
        session.open("u"),
        vec![PageStep::NewPage, PageStep::Navigate { url: "u", goto_timeout: 1400, deadline: None }]
    );
    assert_eq!(
        session.open_with_duration("u", 25),
        vec![
            PageStep::NewPage,
            PageStep::Navigate { url: "u", goto_timeout: 1400, deadline: None },
            PageStep::Sleep { millis: 25 },
        ]
    );
}

#[test]
fn closing_goes_the_short_way_when_nothing_fails() {
    let mut step = session().close();
    let mut seen = vec![step];
    while step != CloseStep::Done {
        step = step.next(true);
        seen.push(step);
    }
    assert_eq!(seen, vec![CloseStep::Shutdown, CloseStep::Wait, CloseStep::AbortPump, CloseStep::Done]);
}

#[test]
fn closing_kills_and_asks_five_times_when_everything_fails() {
    let mut step = CloseStep::Shutdown;
    let mut seen = vec![step];
    while step != CloseStep::Done {
        step = step.next(false);
        seen.push(step);
    }
    assert_eq!(
        seen,
        vec![
            CloseStep::Shutdown,
            CloseStep::Kill,
            CloseStep::Wait,
            CloseStep::TryWait { failures: 0 },
            CloseStep::TryWait { failures: 1 },
            CloseStep::TryWait { failures: 2 },
            CloseStep::TryWait { failures: 3 },
            CloseStep::TryWait { failures: 4 },
            CloseStep::AbortPump,
            CloseStep::Done,
        ]
    );
    assert_eq!(EXIT_RETRIES, 4);
    assert_eq!(CloseStep::TryWait { failures: 2 }.next(true), CloseStep::AbortPump);
    assert_eq!(CloseStep::TryWait { failures: 200 }.next(false), CloseStep::AbortPump);
    assert_eq!(CloseStep::Kill.next(true), CloseStep::Wait);
    assert_eq!(CloseStep::Done.next(false), CloseStep::Done);
}

#[test]
fn a_wait_looks_pauses_and_looks_again() {
    assert_eq!(WAIT_SLEEP, 10);
    let step = WaitStep::first();
    assert_eq!(step, WaitStep::ProbeTarget);
    assert_eq!(step.pause_millis(), None);
    let step = step.next(false, false);
    assert_eq!(step, WaitStep::PauseBeforeTarget);
    assert_eq!(step.pause_millis(), Some(10));
    let step = step.next(false, false);
    assert_eq!(step, WaitStep::ProbeTarget);
    assert_eq!(step.next(true, false), WaitStep::Done);
    assert_eq!(WaitStep::Done.next(false, false), WaitStep::Done);
    assert_eq!(WaitStep::Done.pause_millis(), None);
}

#[test]
fn a_wait_with_a_stop_looks_for_both_in_turn() {
    let mut step = WaitStep::first();
    let mut seen = vec![step];
    for _ in 0..4 {
        step = step.next(false, true);
        seen.push(step);
    }
    assert_eq!(
        seen,
        vec![
            WaitStep::ProbeTarget,
            WaitStep::PauseBeforeStop,
            WaitStep::ProbeStop,
            WaitStep::PauseBeforeTarget,
            WaitStep::ProbeTarget,
        ]
    );
    assert_eq!(WaitStep::PauseBeforeStop.pause_millis(), Some(10));
    assert_eq!(WaitStep::ProbeStop.next(true, true), WaitStep::Done);
    assert_eq!(WaitStep::ProbeTarget.next(true, true), WaitStep::Done);
}

#[test]
fn an_address_lookup_needs_a_record() {
    assert_eq!(BrowserSession::myip(None).unwrap_err(), BrowserError::Serialization);
    let ip = MyIP { ip: "1.2.3.4".to_string(), country: "X".to_string(), cc: "XX".to_string() };
    let found = BrowserSession::myip(Some(ip.clone())).unwrap();
    assert_eq!(found.ip, "1.2.3.4");
    assert_eq!(found.cc, "XX");
}
