use floatingball::api::Subscription;
use floatingball::ball::{BallEvent, BallStatus};
use floatingball::config::{AppConfig, ConfigStore};
use floatingball::geometry::{Point, Size};
use floatingball::state::{
    refresh_now, resize_ball, save_settings, scroll_subscriptions, select_after_refresh,
    toggle_settings, update, Command, Message, State, Timers, DEFAULT_BALL_SIZE, MAX_BALL_SIZE,
    MIN_BALL_SIZE, SETTINGS_HEIGHT, SETTINGS_WIDTH,
};
use floatingball::RATIO_SCALE;

fn sub(name: &str, total: i64, remaining: i64) -> Subscription {
    Subscription { name: name.to_string(), total_quota: total, remaining_quota: remaining }
}

fn configured_state() -> State {
    let mut config = AppConfig::default();
    config.bearer_token = "token".to_string();
    config.cookie = "cookie".to_string();
    State::new(ConfigStore { path: "config.toml".to_string() }, config)
}

fn with_plans(plans: Vec<Subscription>, selected: Option<usize>) -> State {
    let mut state = configured_state();
    state.subscriptions = plans;
    state.selected_index = selected;
    state.sync_ball_display();
    state
}

fn abc() -> Vec<Subscription> {
    vec![sub("A", 1000, 100), sub("B", 1000, 200), sub("C", 1000, 300)]
}

#[test]
fn new_state_shows_no_plans_yet() {
    let state = configured_state();
    assert_eq!(state.ball.display.title, "无订阅");
    assert_eq!(state.ball.display.value, "0.00");
    assert_eq!(state.ball_size, DEFAULT_BALL_SIZE);
    assert_eq!(state.refresh_seconds_input, "60");
    let bare = State::new(ConfigStore { path: String::new() }, AppConfig::default());
    assert_eq!(bare.ball.display.title, "未配置");
    assert_eq!(bare.ball.display.value, "点右上设置");
}

#[test]
fn selection_survives_reordering_by_name() {
    let mut state = with_plans(abc(), Some(1));
    let reordered = vec![sub("C", 1000, 300), sub("B", 1000, 250), sub("A", 1000, 100)];
    let cmd = update(&mut state, Message::Fetched(Ok(reordered)));
    assert_eq!(cmd, Command::Nothing);
    assert_eq!(state.selected_index, Some(1));
    assert_eq!(state.ball.display.title, "B");
    assert_eq!(state.ball.display.value, "2.50");
    assert_eq!(state.ball.display.ratio, 2_500);
}

#[test]
fn selection_moves_with_its_name() {
    let mut state = with_plans(abc(), Some(0));
    let reordered = vec![sub("C", 1000, 300), sub("B", 1000, 250), sub("A", 1000, 100)];
    update(&mut state, Message::Fetched(Ok(reordered)));
    assert_eq!(state.selected_index, Some(2));
    assert_eq!(state.ball.display.title, "A");
}

#[test]
fn lost_name_falls_back_to_default_choice() {
    let mut state = with_plans(abc(), Some(0));
    let fresh = vec![sub("X", 1000, 500), sub("Y", 0, 0), sub("Z", 2000, 2000)];
    update(&mut state, Message::Fetched(Ok(fresh)));
    assert_eq!(state.selected_index, Some(2));
    assert_eq!(
        select_after_refresh(Some("Q".to_string()), &vec![sub("X", 10, 5)], "X"),
        Some(0)
    );
    assert_eq!(select_after_refresh(None, &vec![], "X"), None);
}

#[test]
fn resize_clamps_to_the_largest_size() {
    let mut state = configured_state();
    update(&mut state, Message::Ball(BallEvent::StartResize(Point { x: 0, y: 0 })));
    // 120 px asked to grow by 380 px: 500 px.
    let cmd = resize_ball(&mut state, Point { x: 380_000, y: 380_000 });
    assert_eq!(state.ball_size, MAX_BALL_SIZE);
    assert_eq!(MAX_BALL_SIZE, 220_000);
    assert_eq!(cmd, Command::ResizeWindow(Size { width: 220_000, height: 220_000 }));
}

#[test]
fn resize_clamps_to_the_smallest_size() {
    let mut state = configured_state();
    update(&mut state, Message::Ball(BallEvent::StartResize(Point { x: 0, y: 0 })));
    // 120 px asked to shrink to 10 px.
    let cmd = update(&mut state, Message::Ball(BallEvent::ResizeMove(Point { x: -110_000, y: -110_000 })));
    assert_eq!(state.ball_size, MIN_BALL_SIZE);
    assert_eq!(MIN_BALL_SIZE, 80_000);
    assert_eq!(cmd, Command::ResizeWindow(Size { width: 80_000, height: 80_000 }));
}

#[test]
fn resize_follows_half_the_cursor_moves() {
    let mut state = configured_state();
    update(&mut state, Message::Ball(BallEvent::StartResize(Point { x: 10, y: 10 })));
    let cmd = resize_ball(&mut state, Point { x: 20_010, y: 10 });
    assert_eq!(state.ball_size, 130_000);
    assert_eq!(cmd, Command::ResizeWindow(Size { width: 130_000, height: 130_000 }));
    // Less than half a pixel: nothing.
    let cmd = resize_ball(&mut state, Point { x: 20_800, y: 10 });
    assert_eq!(cmd, Command::Nothing);
    assert_eq!(state.ball_size, 130_000);
    update(&mut state, Message::Ball(BallEvent::EndResize));
    assert_eq!(resize_ball(&mut state, Point { x: 0, y: 0 }), Command::Nothing);
    assert_eq!(state.ball_size, 130_000);
}

#[test]
fn scroll_with_one_plan_keeps_it() {
    let mut state = with_plans(vec![sub("A", 10, 5)], Some(0));
    for steps in [1, -1, 5, -7, i32::MAX, i32::MIN] {
        scroll_subscriptions(&mut state, steps);
        assert_eq!(state.selected_index, Some(0));
    }
}

#[test]
fn scroll_up_from_first_wraps_to_last() {
    let mut state = with_plans(abc(), Some(0));
    let cmd = update(&mut state, Message::Ball(BallEvent::Scroll(-1)));
    assert_eq!(cmd, Command::Nothing);
    assert_eq!(state.selected_index, Some(2));
    assert_eq!(state.ball.display.title, "C");
    scroll_subscriptions(&mut state, 1);
    assert_eq!(state.selected_index, Some(0));
    scroll_subscriptions(&mut state, 0);
    assert_eq!(state.selected_index, Some(0));
}

#[test]
fn scroll_without_plans_does_nothing() {
    let mut state = configured_state();
    scroll_subscriptions(&mut state, 1);
    assert_eq!(state.selected_index, None);
}

#[test]
fn fetch_error_keeps_what_is_shown() {
    let mut state = with_plans(vec![sub("A", 1000, 420)], Some(0));
    assert_eq!(state.ball.display.title, "A");
    assert_eq!(state.ball.display.value, "4.20");
    let cmd = update(&mut state, Message::Tick);
    assert_eq!(cmd, Command::Fetch);
    assert!(state.fetching);
    assert_eq!(state.ball.display.status, BallStatus::Fetching);
    assert_eq!(state.ball.display.value, "...");
    update(&mut state, Message::Fetched(Err("network timeout".to_string())));
    assert_eq!(state.ball.display.status, BallStatus::Error);
    assert_eq!(state.ball.display.title, "A");
    assert_eq!(state.ball.display.value, "4.20");
    assert_eq!(state.last_error, Some("network timeout".to_string()));
    assert_eq!(state.subscriptions.len(), 1);
    assert!(!state.fetching);
}

#[test]
fn successful_fetch_clears_the_error() {
    let mut state = with_plans(vec![sub("A", 1000, 420)], Some(0));
    update(&mut state, Message::Fetched(Err("boom".to_string())));
    update(&mut state, Message::Fetched(Ok(vec![sub("A", 1000, 1000)])));
    assert_eq!(state.last_error, None);
    assert_eq!(state.ball.display.status, BallStatus::Idle);
    assert_eq!(state.ball.display.ratio, RATIO_SCALE);
}

#[test]
fn only_one_fetch_at_a_time() {
    let mut state = configured_state();
    assert_eq!(refresh_now(&mut state), Command::Fetch);
    assert_eq!(refresh_now(&mut state), Command::Nothing);
    let mut bare = State::new(ConfigStore { path: String::new() }, AppConfig::default());
    assert_eq!(refresh_now(&mut bare), Command::Nothing);
    assert!(!bare.fetching);
}

#[test]
fn settings_toggle_resizes_the_window() {
    let mut state = configured_state();
    state.resize_drag = None;
    let cmd = toggle_settings(&mut state);
    assert!(state.show_settings);
    assert_eq!(cmd, Command::ResizeWindow(Size { width: SETTINGS_WIDTH, height: SETTINGS_HEIGHT }));
    assert_eq!(state.subscription(), None);
    let cmd = update(&mut state, Message::ToggleSettings);
    assert!(!state.show_settings);
    assert_eq!(cmd, Command::ResizeWindow(Size { width: DEFAULT_BALL_SIZE, height: DEFAULT_BALL_SIZE }));
    assert_eq!(state.subscription(), Some(Timers { refresh_seconds: 60, animate_ms: 33 }));
}

#[test]
fn saving_takes_the_typed_settings() {
    let mut state = configured_state();
    update(&mut state, Message::TokenChanged("  new-token ".to_string()));
    update(&mut state, Message::CookieChanged(" c=1 ".to_string()));
    update(&mut state, Message::UserAgentChanged("   ".to_string()));
    update(&mut state, Message::RefreshSecondsChanged(" 2 ".to_string()));
    update(&mut state, Message::PreferredNameChanged("  ".to_string()));
    let cmd = update(&mut state, Message::SavePressed);
    assert_eq!(cmd, Command::Save);
    assert_eq!(state.config.bearer_token, "new-token");
    assert_eq!(state.config.cookie, "c=1");
    assert!(state.config.user_agent.starts_with("Mozilla/5.0"));
    assert_eq!(state.config.refresh_seconds, 5);
    assert_eq!(state.config.preferred_subscription_name, "小股东套餐");
    state.refresh_seconds_input = "abc".to_string();
    state.preferred_name_input = " Pro ".to_string();
    save_settings(&mut state);
    assert_eq!(state.config.refresh_seconds, 5);
    assert_eq!(state.config.preferred_subscription_name, "Pro");
    update(&mut state, Message::Saved(Err("disk full".to_string())));
    assert_eq!(state.ball.display.status, BallStatus::Error);
    update(&mut state, Message::Saved(Ok(())));
    assert_eq!(state.last_error, None);
}

#[test]
fn animation_moves_only_the_phase() {
    let mut state = with_plans(abc(), Some(0));
    state.ball.take_overlay_dirty();
    let cmd = update(&mut state, Message::Animate(1_000));
    assert_eq!(cmd, Command::Nothing);
    assert_eq!(state.ball.wave_phase, 2_200_000);
    assert!(!state.ball.take_overlay_dirty());
}

#[test]
fn drag_requests_pass_through() {
    let mut state = configured_state();
    assert_eq!(update(&mut state, Message::Ball(BallEvent::StartDrag)), Command::DragWindow);
    assert_eq!(update(&mut state, Message::DragWindow), Command::DragWindow);
    assert_eq!(update(&mut state, Message::Ball(BallEvent::RefreshNow)), Command::Fetch);
}

#[test]
fn display_sync_after_ratio_only_change_keeps_overlay_clean() {
    let mut state = with_plans(vec![sub("A", 1000, 500)], Some(0));
    state.ball.take_overlay_dirty();
    state.subscriptions[0].total_quota = 2000;
    state.sync_ball_display();
    assert_eq!(state.ball.display.ratio, 2_500);
    assert!(!state.ball.take_overlay_dirty());
    state.subscriptions[0].remaining_quota = 600;
    state.sync_ball_display();
    assert!(state.ball.take_overlay_dirty());
}

#[test]
fn duplicate_names_reselect_the_first() {
    let list = vec![sub("A", 10, 1), sub("B", 10, 2), sub("B", 10, 3)];
    assert_eq!(select_after_refresh(Some("B".to_string()), &list, "A"), Some(1));
}
