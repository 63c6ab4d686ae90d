use secludia::flow::{describe_window, start_flow};
use secludia::observer::{on_window_event, WindowEventKind};
use secludia::outcome::{FlowError, OAuthFlowResult};
use secludia::request::OAuthFlowRequest;
use secludia::slot::ResultSlot;
use secludia::waiter::{poll, FlowConfig, WaitStep, DEFAULT_FLOW_TIMEOUT, DEFAULT_POLL_INTERVAL};
use secludia::watcher::{classify, oauth_redirect_prefix, on_page_load, PageLoadKind};

const AUTHORIZE: &str = "https://idp.example.com/authorize?client_id=abc";
const CALLBACK: &str = "http://localhost/oauth/callback?code=XYZ&state=1";

fn success(url: &str) -> OAuthFlowResult {
    OAuthFlowResult::Success(url.to_string())
}

#[test]
fn redirect_resolves_to_success_with_the_exact_url() {
    let start = start_flow(AUTHORIZE).expect("the address is admissible");
    let mut slot = start.slot;
    let config = FlowConfig::default();

    assert_eq!(poll(&mut slot, 0, &config), WaitStep::Sleep { millis: 100 });
    assert!(!on_page_load(&mut slot, PageLoadKind::Started, AUTHORIZE));
    assert!(!on_page_load(&mut slot, PageLoadKind::Finished, AUTHORIZE));
    assert_eq!(slot.get(), None);

    assert!(on_page_load(&mut slot, PageLoadKind::Started, CALLBACK));
    assert_eq!(slot.get(), Some(success(CALLBACK)));

    let step = poll(&mut slot, 1_500, &config);
    assert_eq!(step, WaitStep::Finished { result: success(CALLBACK), destroy_window: false });
    match step {
        WaitStep::Finished { result, .. } => assert_eq!(result.into_reply(), Ok(CALLBACK.to_string())),
        WaitStep::Sleep { .. } => panic!("the flow is resolved"),
    }
}

#[test]
fn insecure_address_fails_before_anything_is_created() {
    let outcome = start_flow("http://evil.com/authorize");
    match outcome {
        Ok(_) => panic!("an http address to a foreign host must be refused"),
        Err(error) => {
            assert_eq!(error, FlowError::InsecureScheme);
            assert_eq!(error.message(), "OAuth URL must use HTTPS");
            assert_eq!(error.into_reply(), Err("OAuth URL must use HTTPS".to_string()));
        }
    }
}

#[test]
fn closing_the_window_cancels() {
    let mut slot = start_flow(AUTHORIZE).expect("the address is admissible").slot;
    let config = FlowConfig::default();

    assert_eq!(poll(&mut slot, 1_900, &config), WaitStep::Sleep { millis: 100 });
    on_window_event(&mut slot, WindowEventKind::Other);
    assert_eq!(slot.get(), None);
    on_window_event(&mut slot, WindowEventKind::CloseRequested);
    assert_eq!(slot.get(), Some(OAuthFlowResult::Cancelled));
    on_window_event(&mut slot, WindowEventKind::Destroyed);

    let step = poll(&mut slot, 2_000, &config);
    assert_eq!(step, WaitStep::Finished { result: OAuthFlowResult::Cancelled, destroy_window: false });
    assert_eq!(OAuthFlowResult::Cancelled.into_reply(), Err("OAUTH_CANCELLED".to_string()));
}

#[test]
fn destroyed_without_close_request_cancels_too() {
    let mut slot = ResultSlot::new();
    on_window_event(&mut slot, WindowEventKind::Destroyed);
    assert_eq!(slot.get(), Some(OAuthFlowResult::Cancelled));
}

#[test]
fn silence_until_the_deadline_times_out() {
    let mut slot = start_flow(AUTHORIZE).expect("the address is admissible").slot;
    let config = FlowConfig::default();

    let mut elapsed = 0;
    while elapsed <= 300_000 {
        assert_eq!(poll(&mut slot, elapsed, &config), WaitStep::Sleep { millis: 100 });
        assert!(!slot.is_resolved());
        elapsed += 100;
    }
    assert_eq!(elapsed, 300_100);
    let step = poll(&mut slot, elapsed, &config);
    assert_eq!(step, WaitStep::Finished { result: OAuthFlowResult::TimedOut, destroy_window: true });
    assert_eq!(slot.get(), Some(OAuthFlowResult::TimedOut));
    assert_eq!(OAuthFlowResult::TimedOut.into_reply(), Err("OAUTH_TIMEOUT".to_string()));
}

#[test]
fn the_deadline_itself_is_still_in_time() {
    let config = FlowConfig::default();
    let mut slot = ResultSlot::new();
    assert_eq!(poll(&mut slot, 300_000, &config), WaitStep::Sleep { millis: 100 });
    assert_eq!(
        poll(&mut slot, 300_001, &config),
        WaitStep::Finished { result: OAuthFlowResult::TimedOut, destroy_window: true }
    );
}

#[test]
fn redirect_then_late_close_stays_success() {
    let mut slot = ResultSlot::new();
    assert!(on_page_load(&mut slot, PageLoadKind::Started, CALLBACK));
    on_window_event(&mut slot, WindowEventKind::CloseRequested);
    on_window_event(&mut slot, WindowEventKind::Destroyed);
    assert_eq!(slot.get(), Some(success(CALLBACK)));
    let step = poll(&mut slot, 999_999, &FlowConfig::default());
    assert_eq!(step, WaitStep::Finished { result: success(CALLBACK), destroy_window: false });
    assert_eq!(slot.get(), Some(success(CALLBACK)));
}

#[test]
fn close_then_late_redirect_stays_cancelled() {
    let mut slot = ResultSlot::new();
    on_window_event(&mut slot, WindowEventKind::CloseRequested);
    assert!(!on_page_load(&mut slot, PageLoadKind::Started, CALLBACK));
    assert_eq!(slot.get(), Some(OAuthFlowResult::Cancelled));
    let step = poll(&mut slot, 999_999, &FlowConfig::default());
    assert_eq!(step, WaitStep::Finished { result: OAuthFlowResult::Cancelled, destroy_window: false });
}

#[test]
fn timeout_then_late_events_stays_timed_out() {
    let mut slot = ResultSlot::new();
    let config = FlowConfig { poll_interval: 10, flow_timeout: 50 };
    assert_eq!(poll(&mut slot, 50, &config), WaitStep::Sleep { millis: 10 });
    assert_eq!(
        poll(&mut slot, 51, &config),
        WaitStep::Finished { result: OAuthFlowResult::TimedOut, destroy_window: true }
    );
    assert!(!on_page_load(&mut slot, PageLoadKind::Started, CALLBACK));
    on_window_event(&mut slot, WindowEventKind::Destroyed);
    assert_eq!(slot.get(), Some(OAuthFlowResult::TimedOut));
}

#[test]
fn second_redirect_does_not_replace_the_first() {
    let mut slot = ResultSlot::new();
    assert!(on_page_load(&mut slot, PageLoadKind::Started, CALLBACK));
    assert!(!on_page_load(&mut slot, PageLoadKind::Started, "http://localhost/oauth/callback?code=OTHER"));
    assert_eq!(slot.get(), Some(success(CALLBACK)));
}

#[test]
fn reading_the_result_again_gives_the_same_value() {
    let mut slot = ResultSlot::new();
    let config = FlowConfig::default();
    on_page_load(&mut slot, PageLoadKind::Started, CALLBACK);
    let first = poll(&mut slot, 10, &config);
    let second = poll(&mut slot, 20, &config);
    let third = poll(&mut slot, 400_000, &config);
    assert_eq!(first, second);
    assert_eq!(second, third);
    assert_eq!(slot.get(), slot.get());
    assert_eq!(slot.get(), Some(success(CALLBACK)));
}

#[test]
fn resolve_reports_who_won() {
    let mut slot = ResultSlot::new();
    assert!(!slot.is_resolved());
    assert!(slot.resolve(OAuthFlowResult::Cancelled));
    assert!(slot.is_resolved());
    assert!(!slot.resolve(OAuthFlowResult::TimedOut));
    assert!(!slot.resolve(success(CALLBACK)));
    assert_eq!(slot.get(), Some(OAuthFlowResult::Cancelled));
}

#[test]
fn the_prefix_is_matched_exactly() {
    assert_eq!(oauth_redirect_prefix(), "http://localhost/oauth/callback");
    assert!(classify(PageLoadKind::Started, "http://localhost/oauth/callback"));
    assert!(classify(PageLoadKind::Started, "http://localhost/oauth/callback?code=XYZ&state=1"));
    assert!(classify(PageLoadKind::Started, "http://localhost/oauth/callback/extra#frag"));
    assert!(classify(PageLoadKind::Started, "http://localhost/oauth/callbacks"));
    assert!(!classify(PageLoadKind::Started, "http://localhost/oauth/callbac"));
    assert!(!classify(PageLoadKind::Started, "HTTP://localhost/oauth/callback"));
    assert!(!classify(PageLoadKind::Started, "http://LOCALHOST/oauth/callback"));
    assert!(!classify(PageLoadKind::Started, "http://localhost/OAuth/Callback"));
    assert!(!classify(PageLoadKind::Started, "https://localhost/oauth/callback"));
    assert!(!classify(PageLoadKind::Started, "http://localhost:80/oauth/callback"));
    assert!(!classify(PageLoadKind::Started, " http://localhost/oauth/callback"));
    assert!(!classify(PageLoadKind::Started, ""));
    assert!(!classify(PageLoadKind::Finished, "http://localhost/oauth/callback?code=XYZ"));
}

#[test]
fn only_started_navigations_are_examined() {
    let mut slot = ResultSlot::new();
    assert!(!on_page_load(&mut slot, PageLoadKind::Finished, CALLBACK));
    assert_eq!(slot.get(), None);
}

#[test]
fn the_callback_url_is_passed_through_verbatim() {
    let odd = "http://localhost/oauth/callback?code=a%20b&state=\u{e9}\u{1f600}&&=#%zz";
    let mut slot = ResultSlot::new();
    assert!(on_page_load(&mut slot, PageLoadKind::Started, odd));
    assert_eq!(slot.get(), Some(success(odd)));
}

#[test]
fn defaults_are_a_tenth_of_a_second_and_five_minutes() {
    let config = FlowConfig::default();
    assert_eq!(config.poll_interval, 100);
    assert_eq!(config.flow_timeout, 300_000);
    assert_eq!(DEFAULT_POLL_INTERVAL, 100);
    assert_eq!(DEFAULT_FLOW_TIMEOUT, 300_000);
}

#[test]
fn configured_interval_and_timeout_are_used() {
    let config = FlowConfig { poll_interval: 0, flow_timeout: 0 };
    let mut slot = ResultSlot::new();
    assert_eq!(poll(&mut slot, 0, &config), WaitStep::Sleep { millis: 0 });
    assert_eq!(
        poll(&mut slot, 1, &config),
        WaitStep::Finished { result: OAuthFlowResult::TimedOut, destroy_window: true }
    );

    let patient = FlowConfig { poll_interval: 250, flow_timeout: u64::MAX };
    let mut slot = ResultSlot::new();
    assert_eq!(poll(&mut slot, u64::MAX, &patient), WaitStep::Sleep { millis: 250 });
}

#[test]
fn the_sign_in_window_is_described_in_full() {
    let start = start_flow(AUTHORIZE).expect("the address is admissible");
    assert_eq!(start.window.label, "oauth");
    assert_eq!(start.window.url, AUTHORIZE);
    assert_eq!(start.window.title, "Sign in");
    assert_eq!(start.window.width, 500);
    assert_eq!(start.window.height, 700);
    assert!(start.window.centered);
    assert!(start.window.resizable);
    assert_eq!(start.slot.get(), None);

    let request = OAuthFlowRequest::new(AUTHORIZE).expect("the address is admissible");
    assert_eq!(request.authorization_url(), AUTHORIZE);
    assert_eq!(describe_window(&request), start.window);
}

#[test]
fn replies_are_distinct_strings() {
    assert_eq!(success(CALLBACK).into_reply(), Ok(CALLBACK.to_string()));
    assert_eq!(OAuthFlowResult::Cancelled.into_reply(), Err("OAUTH_CANCELLED".to_string()));
    assert_eq!(OAuthFlowResult::TimedOut.into_reply(), Err("OAUTH_TIMEOUT".to_string()));
    assert_eq!(
        FlowError::WindowCreationFailed("no display".to_string()).message(),
        "Failed to create OAuth window: no display"
    );
    assert_eq!(
        FlowError::InvalidUrl("empty host".to_string()).into_reply(),
        Err("Invalid URL: empty host".to_string())
    );
}

#[test]
fn a_clone_is_equal_to_what_was_cloned() {
    let outcome = success(CALLBACK);
    assert_eq!(outcome.clone(), outcome);
    assert_eq!(OAuthFlowResult::Cancelled.clone(), OAuthFlowResult::Cancelled);
    assert_eq!(OAuthFlowResult::TimedOut.clone(), OAuthFlowResult::TimedOut);
}
