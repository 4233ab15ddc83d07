use vstd::prelude::*;

use crate::api::{
    default_subscription_index, is_default_choice, ratio_spec, remaining_ratio, Subscription,
};
use crate::ball::{overlay_changed, BallDisplay, BallEvent, BallStatus, FloatingBall};
use crate::config::{
    configured, default_user_agent, default_user_agent_seq, is_configured,
    try_parse_refresh_seconds, AppConfig, ConfigStore,
};
use crate::geometry::{clamp_int, floor_div, Point, Size};
use crate::text::{
    decimal_seq, decimal_text, hundredths_seq, hundredths_text, is_blank, is_u64_text, trim,
    trim_seq, u64_text_value,
};
use crate::wave::{phase_at, wave_phase_at};

verus! {

/// The gauge's side when the application starts, in thousandths of a pixel.
pub const DEFAULT_BALL_SIZE: i32 = 120_000;

/// The smallest side that a resize gives.
pub const MIN_BALL_SIZE: i32 = 80_000;

/// The largest side that a resize gives.
pub const MAX_BALL_SIZE: i32 = 220_000;

/// The settings panel's size.
pub const SETTINGS_WIDTH: i32 = 420_000;

pub const SETTINGS_HEIGHT: i32 = 440_000;

/// Resizes by less than half a pixel are not passed on.
pub const RESIZE_STEP: i32 = 500;

/// The shortest refresh interval, in seconds.
pub const MIN_REFRESH_SECONDS: u64 = 5;

/// The animation tick, in milliseconds (about 30 a second).
pub const WAVE_TICK_MS: u64 = 33;

/// A resize drag under way: where the cursor and the size were when it began.
#[derive(Clone, Copy, Debug, PartialEq, Eq, Structural)]
pub struct ResizeDrag {
    pub start_cursor: Point,
    pub start_size: i32,
}

/// What the application receives.
#[derive(Debug)]
pub enum Message {
    Ball(BallEvent),
    /// The refresh timer fired, or the user asked for a refresh.
    Tick,
    /// The animation timer fired; milliseconds since the animation began.
    Animate(u64),
    ToggleSettings,
    DragWindow,
    TokenChanged(String),
    CookieChanged(String),
    UserAgentChanged(String),
    RefreshSecondsChanged(String),
    PreferredNameChanged(String),
    SavePressed,
    Saved(Result<(), String>),
    Fetched(Result<Vec<Subscription>, String>),
}

/// What the application must do outside after a message.
#[derive(Clone, Copy, Debug, PartialEq, Eq, Structural)]
pub enum Command {
    Nothing,
    /// Start moving the window with the pointer.
    DragWindow,
    /// Resize the window.
    ResizeWindow(Size),
    /// Fetch the subscriptions with the state's configuration; answer with `Fetched`.
    Fetch,
    /// Save the state's configuration; answer with `Saved`.
    Save,
}

/// The timers that run while the gauge is shown.
#[derive(Clone, Copy, Debug, PartialEq, Eq, Structural)]
pub struct Timers {
    pub refresh_seconds: u64,
    pub animate_ms: u64,
}

/// The application's state.
#[derive(Debug)]
pub struct State {
    pub store: ConfigStore,
    pub config: AppConfig,
    pub token_input: String,
    pub cookie_input: String,
    pub user_agent_input: String,
    pub refresh_seconds_input: String,
    pub preferred_name_input: String,
    pub show_settings: bool,
    pub fetching: bool,
    pub last_error: Option<String>,
    pub subscriptions: Vec<Subscription>,
    pub selected_index: Option<usize>,
    pub ball_size: i32,
    pub resize_drag: Option<ResizeDrag>,
    pub ball: FloatingBall,
}

/// The plan on display: the selected one, else the first.
pub open spec fn shown(s: State) -> Option<Subscription> {
    let subs = s.subscriptions@;
    if s.selected_index is Some && s.selected_index->0 < subs.len() {
        Some(subs[s.selected_index->0 as int])
    } else if subs.len() > 0 {
        Some(subs[0])
    } else {
        None
    }
}

pub open spec fn title_spec(s: State) -> Seq<char> {
    if !configured(s.config) {
        "未配置"@
    } else {
        match shown(s) {
            Some(sub) => sub.name@,
            None => "无订阅"@,
        }
    }
}

pub open spec fn value_spec(s: State) -> Seq<char> {
    if s.fetching {
        "..."@
    } else if !configured(s.config) {
        "点右上设置"@
    } else {
        match shown(s) {
            Some(sub) => hundredths_seq(sub.remaining_quota as int),
            None => "0.00"@,
        }
    }
}

pub open spec fn shown_ratio(s: State) -> int {
    if !configured(s.config) {
        0
    } else {
        match shown(s) {
            Some(sub) => ratio_spec(sub.total_quota as int, sub.remaining_quota as int),
            None => 0,
        }
    }
}

pub open spec fn status_spec(s: State) -> BallStatus {
    if s.fetching {
        BallStatus::Fetching
    } else if s.last_error is Some {
        BallStatus::Error
    } else {
        BallStatus::Idle
    }
}

/// `d` is what the gauge shows for `s`.
pub open spec fn shows(d: BallDisplay, s: State) -> bool {
    &&& d.title@ == title_spec(s)
    &&& d.value@ == value_spec(s)
    &&& d.ratio == shown_ratio(s)
    &&& d.status == status_spec(s)
}

/// `post` is `pre` with the gauge brought up to date.
pub open spec fn synced(pre: State, post: State) -> bool {
    &&& post == State { ball: post.ball, ..pre }
    &&& shows(post.ball.display, pre)
    &&& post.ball.overlay_dirty == (pre.ball.overlay_dirty || overlay_changed(
        pre.ball.display,
        post.ball.display,
    ))
    &&& post.ball.wave_phase == pre.ball.wave_phase
}

/// The name of the plan selected in `s`, if the selection points at one.
pub open spec fn selected_name(s: State) -> Option<Seq<char>> {
    if s.selected_index is Some && s.selected_index->0 < s.subscriptions@.len() {
        Some(s.subscriptions@[s.selected_index->0 as int].name@)
    } else {
        None
    }
}

/// `r` is the selection in the refreshed `list`: the first plan of the previous name when
/// there is one, else the default choice.
pub open spec fn reselected(
    previous: Option<Seq<char>>,
    list: Seq<Subscription>,
    preferred: Seq<char>,
    r: Option<usize>,
) -> bool {
    if previous is Some && exists|i: int|
        0 <= i < list.len() && (#[trigger] list[i]).name@ == previous->0 {
        match r {
            Some(k) => {
                &&& k < list.len()
                &&& list[k as int].name@ == previous->0
                &&& forall|j: int| 0 <= j < k ==> (#[trigger] list[j]).name@ != previous->0
            },
            None => false,
        }
    } else {
        is_default_choice(list, preferred, r)
    }
}

/// A refresh: ignored (but for the gauge) while one is under way or when credentials are
/// missing; else the state turns to fetching and asks for a fetch.
pub open spec fn refresh_spec(pre: State, post: State, cmd: Command) -> bool {
    if pre.fetching || !configured(pre.config) {
        synced(pre, post) && cmd == Command::Nothing
    } else {
        synced(State { fetching: true, ..pre }, post) && cmd == Command::Fetch
    }
}

/// Opening or closing the settings: any resize drag ends and the window takes the size of
/// the panel or of the gauge.
pub open spec fn toggle_spec(pre: State, post: State, cmd: Command) -> bool {
    &&& synced(State { show_settings: !pre.show_settings, resize_drag: None, ..pre }, post)
    &&& cmd == Command::ResizeWindow(
        if !pre.show_settings {
            Size { width: SETTINGS_WIDTH, height: SETTINGS_HEIGHT }
        } else {
            Size { width: pre.ball_size, height: pre.ball_size }
        },
    )
}

/// `c` is `old` with the settings that the user typed in `s`: credentials trimmed, a blank
/// user agent replaced by a browser's, an interval taken when it is a number (at least
/// `MIN_REFRESH_SECONDS`), a preferred name taken unless blank.
pub open spec fn saved_config(s: State, c: AppConfig) -> bool {
    let old = s.config;
    &&& c.api_base == old.api_base
    &&& c.bearer_token@ == trim_seq(s.token_input@)
    &&& c.cookie@ == trim_seq(s.cookie_input@)
    &&& c.user_agent@ == if is_blank(s.user_agent_input@) {
        default_user_agent_seq()
    } else {
        trim_seq(s.user_agent_input@)
    }
    &&& c.refresh_seconds == if is_u64_text(trim_seq(s.refresh_seconds_input@)) {
        let v = u64_text_value(trim_seq(s.refresh_seconds_input@));
        if v < MIN_REFRESH_SECONDS {
            MIN_REFRESH_SECONDS as int
        } else {
            v
        }
    } else {
        old.refresh_seconds as int
    }
    &&& c.preferred_subscription_name@ == if is_blank(s.preferred_name_input@) {
        old.preferred_subscription_name@
    } else {
        trim_seq(s.preferred_name_input@)
    }
}

/// Saving the settings: the configuration takes what was typed, and is to be saved.
pub open spec fn save_spec(pre: State, post: State, cmd: Command) -> bool {
    &&& saved_config(pre, post.config)
    &&& synced(State { config: post.config, ..pre }, post)
    &&& cmd == Command::Save
}

/// Where a scroll of `steps` from `current` lands among `len` plans, wrapping around.
pub open spec fn scroll_target(current: int, steps: int, len: int) -> int {
    (current + steps) % len
}

/// A wheel turn: nothing for a zero step or no plans; else the selection moves by `steps`,
/// wrapping around, from the selected plan (the first when none is).
pub open spec fn scroll_spec(pre: State, post: State, steps: i32) -> bool {
    if steps == 0 || pre.subscriptions@.len() == 0 {
        post == pre
    } else {
        let current = match pre.selected_index {
            Some(i) => i as int,
            None => 0,
        };
        let next = scroll_target(current, steps as int, pre.subscriptions@.len() as int);
        synced(State { selected_index: Some(next as usize), ..pre }, post)
    }
}

/// The size that a resize drag asks for with the cursor at `cursor`: the start size plus
/// half the sum of the cursor's moves, held to `[MIN_BALL_SIZE, MAX_BALL_SIZE]`.
pub open spec fn resize_target(drag: ResizeDrag, cursor: Point) -> int {
    let dx = cursor.x - drag.start_cursor.x;
    let dy = cursor.y - drag.start_cursor.y;
    clamp_int(drag.start_size + (dx + dy) / 2, MIN_BALL_SIZE as int, MAX_BALL_SIZE as int)
}

/// A resize move: only during a drag with the settings closed, and only when the size
/// changes by half a pixel or more.
pub open spec fn resize_spec(pre: State, post: State, cursor: Point, cmd: Command) -> bool {
    match pre.resize_drag {
        Some(drag) => {
            let target = resize_target(drag, cursor);
            if pre.show_settings || -RESIZE_STEP < target - pre.ball_size < RESIZE_STEP {
                post == pre && cmd == Command::Nothing
            } else {
                &&& synced(State { ball_size: target as i32, ..pre }, post)
                &&& cmd == Command::ResizeWindow(
                    Size { width: target as i32, height: target as i32 },
                )
            }
        },
        None => post == pre && cmd == Command::Nothing,
    }
}

/// A fetch result: the fetch is over; a list replaces the plans, keeps the selection by name
/// (see `reselected`) and clears the error; an error is kept and the plans stay.
pub open spec fn fetched_spec(
    pre: State,
    result: Result<Vec<Subscription>, String>,
    post: State,
) -> bool {
    match result {
        Ok(list) => {
            &&& reselected(
                selected_name(pre),
                list@,
                pre.config.preferred_subscription_name@,
                post.selected_index,
            )
            &&& synced(
                State {
                    fetching: false,
                    subscriptions: list,
                    selected_index: post.selected_index,
                    last_error: None,
                    ..pre
                },
                post,
            )
        },
        Err(e) => synced(State { fetching: false, last_error: Some(e), ..pre }, post),
    }
}

/// How the state answers each message.
pub open spec fn update_spec(pre: State, message: Message, post: State, cmd: Command) -> bool {
    match message {
        Message::Ball(event) => match event {
            BallEvent::StartDrag => post == pre && cmd == Command::DragWindow,
            BallEvent::ToggleSettings => toggle_spec(pre, post, cmd),
            BallEvent::RefreshNow => refresh_spec(pre, post, cmd),
            BallEvent::Scroll(steps) => scroll_spec(pre, post, steps) && cmd == Command::Nothing,
            BallEvent::StartResize(p) => {
                &&& post == State {
                    resize_drag: Some(ResizeDrag { start_cursor: p, start_size: pre.ball_size }),
                    ..pre
                }
                &&& cmd == Command::Nothing
            },
            BallEvent::ResizeMove(p) => resize_spec(pre, post, p, cmd),
            BallEvent::EndResize => post == State { resize_drag: None, ..pre } && cmd
                == Command::Nothing,
        },
        Message::Tick => refresh_spec(pre, post, cmd),
        Message::Animate(ms) => {
            &&& post == State { ball: post.ball, ..pre }
            &&& post.ball.wave_phase == phase_at(ms as int)
            &&& post.ball.display == pre.ball.display
            &&& post.ball.overlay_dirty == pre.ball.overlay_dirty
            &&& cmd == Command::Nothing
        },
        Message::ToggleSettings => toggle_spec(pre, post, cmd),
        Message::DragWindow => post == pre && cmd == Command::DragWindow,
        Message::TokenChanged(v) => post == State { token_input: v, ..pre } && cmd
            == Command::Nothing,
        Message::CookieChanged(v) => post == State { cookie_input: v, ..pre } && cmd
            == Command::Nothing,
        Message::UserAgentChanged(v) => post == State { user_agent_input: v, ..pre } && cmd
            == Command::Nothing,
        Message::RefreshSecondsChanged(v) => post == State { refresh_seconds_input: v, ..pre }
            && cmd == Command::Nothing,
        Message::PreferredNameChanged(v) => post == State { preferred_name_input: v, ..pre }
            && cmd == Command::Nothing,
        Message::SavePressed => save_spec(pre, post, cmd),
        Message::Saved(result) => {
            &&& synced(
                State {
                    last_error: match result {
                        Ok(_) => None,
                        Err(e) => Some(e),
                    },
                    ..pre
                },
                post,
            )
            &&& cmd == Command::Nothing
        },
        Message::Fetched(result) => fetched_spec(pre, result, post) && cmd == Command::Nothing,
    }
}

impl State {
    /// The state at start: the inputs show `config`, nothing is fetched yet.
    pub fn new(store: ConfigStore, config: AppConfig) -> (r: State)
        ensures
            r.store == store,
            r.config == config,
            r.token_input == config.bearer_token,
            r.cookie_input == config.cookie,
            r.user_agent_input == config.user_agent,
            r.refresh_seconds_input@ == decimal_seq(config.refresh_seconds as nat),
            r.preferred_name_input == config.preferred_subscription_name,
            !r.show_settings,
            !r.fetching,
            r.last_error is None,
            r.subscriptions@.len() == 0,
            r.selected_index is None,
            r.ball_size == DEFAULT_BALL_SIZE,
            r.resize_drag is None,
            shows(r.ball.display, r),
            r.ball.wave_phase == 0,
    {
        let mut state = State {
            token_input: config.bearer_token.clone(),
            cookie_input: config.cookie.clone(),
            user_agent_input: config.user_agent.clone(),
            refresh_seconds_input: decimal_text(config.refresh_seconds),
            preferred_name_input: config.preferred_subscription_name.clone(),
            store,
            config,
            show_settings: false,
            fetching: false,
            last_error: None,
            subscriptions: Vec::new(),
            selected_index: None,
            ball_size: DEFAULT_BALL_SIZE,
            resize_drag: None,
            ball: FloatingBall::new(BallDisplay::default()),
        };
        state.sync_ball_display();
        state
    }

    /// Brings the gauge up to date with the state.
    pub fn sync_ball_display(&mut self)
        ensures
            synced(*old(self), *final(self)),
    {
        let n = self.subscriptions.len();
        let selected: Option<usize> = match self.selected_index {
            Some(i) => if i < n {
                Some(i)
            } else if n > 0 {
                Some(0)
            } else {
                None
            },
            None => if n > 0 {
                Some(0)
            } else {
                None
            },
        };
        let configured = is_configured(&self.config);
        let (title, mut value, ratio) = if !configured {
            (String::from_str("未配置"), String::from_str("点右上设置"), 0u32)
        } else {
            match selected {
                Some(k) => {
                    let sub = &self.subscriptions[k];
                    (sub.name.clone(), hundredths_text(sub.remaining_quota), remaining_ratio(sub))
                },
                None => (String::from_str("无订阅"), String::from_str("0.00"), 0u32),
            }
        };
        if self.fetching {
            value = String::from_str("...");
        }
        let status = if self.fetching {
            BallStatus::Fetching
        } else if self.last_error.is_some() {
            BallStatus::Error
        } else {
            BallStatus::Idle
        };
        self.ball.set_display(BallDisplay { title, value, ratio, status });
    }

    /// The timers to run: none while the settings are open.
    pub fn subscription(&self) -> (r: Option<Timers>)
        ensures
            self.show_settings ==> r is None,
            !self.show_settings ==> r == Some(
                Timers {
                    refresh_seconds: if self.config.refresh_seconds < MIN_REFRESH_SECONDS {
                        MIN_REFRESH_SECONDS
                    } else {
                        self.config.refresh_seconds
                    },
                    animate_ms: WAVE_TICK_MS,
                },
            ),
    {
        if self.show_settings {
            return None;
        }
        let refresh_seconds = if self.config.refresh_seconds < MIN_REFRESH_SECONDS {
            MIN_REFRESH_SECONDS
        } else {
            self.config.refresh_seconds
        };
        Some(Timers { refresh_seconds, animate_ms: WAVE_TICK_MS })
    }
}

/// Asks for a fetch unless one is under way or credentials are missing (see `refresh_spec`).
pub fn refresh_now(state: &mut State) -> (r: Command)
    ensures
        refresh_spec(*old(state), *final(state), r),
{
    if state.fetching || !is_configured(&state.config) {
        state.sync_ball_display();
        return Command::Nothing;
    }
    state.fetching = true;
    state.sync_ball_display();
    Command::Fetch
}

/// Opens or closes the settings panel (see `toggle_spec`).
pub fn toggle_settings(state: &mut State) -> (r: Command)
    ensures
        toggle_spec(*old(state), *final(state), r),
{
    state.show_settings = !state.show_settings;
    state.resize_drag = None;
    let new_size = if state.show_settings {
        Size { width: SETTINGS_WIDTH, height: SETTINGS_HEIGHT }
    } else {
        Size { width: state.ball_size, height: state.ball_size }
    };
    state.sync_ball_display();
    Command::ResizeWindow(new_size)
}

/// Takes what the user typed into the configuration and asks to save it (see `save_spec`).
pub fn save_settings(state: &mut State) -> (r: Command)
    ensures
        save_spec(*old(state), *final(state), r),
{
    let token = String::from_str(trim(state.token_input.as_str()));
    let cookie = String::from_str(trim(state.cookie_input.as_str()));
    let ua = trim(state.user_agent_input.as_str());
    let user_agent = if ua.unicode_len() == 0 {
        default_user_agent()
    } else {
        String::from_str(ua)
    };
    let parsed = try_parse_refresh_seconds(state.refresh_seconds_input.as_str());
    let preferred = trim(state.preferred_name_input.as_str());
    let preferred_blank = preferred.unicode_len() == 0;
    let preferred = String::from_str(preferred);
    state.config.bearer_token = token;
    state.config.cookie = cookie;
    state.config.user_agent = user_agent;
    match parsed {
        Some(seconds) => {
            state.config.refresh_seconds = if seconds < MIN_REFRESH_SECONDS {
                MIN_REFRESH_SECONDS
            } else {
                seconds
            };
        },
        None => {},
    }
    if !preferred_blank {
        state.config.preferred_subscription_name = preferred;
    }
    state.sync_ball_display();
    Command::Save
}

/// Moves the selection by `steps`, wrapping around (see `scroll_spec`).
pub fn scroll_subscriptions(state: &mut State, steps: i32)
    ensures
        scroll_spec(*old(state), *final(state), steps),
{
    let len = state.subscriptions.len();
    if steps == 0 || len == 0 {
        return;
    }
    let current: usize = match state.selected_index {
        Some(i) => i,
        None => 0,
    };
    let sum = current as i128 + steps as i128;
    let next = match sum.checked_rem_euclid(len as i128) {
        Some(v) => v,
        None => 0,
    };
    assert(0 <= next < len);
    state.selected_index = Some(next as usize);
    state.sync_ball_display();
}

/// Follows a resize drag to `cursor` (see `resize_spec`).
pub fn resize_ball(state: &mut State, cursor: Point) -> (r: Command)
    ensures
        resize_spec(*old(state), *final(state), cursor, r),
{
    let drag = match state.resize_drag {
        Some(drag) => drag,
        None => {
            return Command::Nothing;
        },
    };
    if state.show_settings {
        return Command::Nothing;
    }
    let dx = cursor.x as i128 - drag.start_cursor.x as i128;
    let dy = cursor.y as i128 - drag.start_cursor.y as i128;
    let wanted = drag.start_size as i128 + floor_div(dx + dy, 2);
    let new_size: i32 = if wanted < MIN_BALL_SIZE as i128 {
        MIN_BALL_SIZE
    } else if wanted > MAX_BALL_SIZE as i128 {
        MAX_BALL_SIZE
    } else {
        wanted as i32
    };
    let change = new_size as i64 - state.ball_size as i64;
    if -(RESIZE_STEP as i64) < change && change < RESIZE_STEP as i64 {
        return Command::Nothing;
    }
    state.ball_size = new_size;
    state.sync_ball_display();
    Command::ResizeWindow(Size { width: new_size, height: new_size })
}

/// The selection in a refreshed `list` (see `reselected`).
pub fn select_after_refresh(
    previous: Option<String>,
    list: &Vec<Subscription>,
    preferred: &str,
) -> (r: Option<usize>)
    ensures
        reselected(
            match previous {
                Some(p) => Some(p@),
                None => None,
            },
            list@,
            preferred@,
            r,
        ),
{
    match &previous {
        Some(name) => {
            let n = list.len();
            let mut i: usize = 0;
            while i < n
                invariant
                    i <= n,
                    n == list@.len(),
                    previous == Some(*name),
                    forall|j: int| 0 <= j < i ==> (#[trigger] list@[j]).name@ != name@,
                decreases n - i,
            {
                if list[i].name == *name {
                    assert(list@[i as int].name@ == name@);
                    return Some(i);
                }
                i = i + 1;
            }
        },
        None => {},
    }
    default_subscription_index(list.as_slice(), preferred)
}

/// Answers a message (see `update_spec`).
pub fn update(state: &mut State, message: Message) -> (r: Command)
    ensures
        update_spec(*old(state), message, *final(state), r),
{
    match message {
        Message::Ball(event) => match event {
            BallEvent::StartDrag => Command::DragWindow,
            BallEvent::ToggleSettings => toggle_settings(state),
            BallEvent::RefreshNow => refresh_now(state),
            BallEvent::Scroll(steps) => {
                scroll_subscriptions(state, steps);
                Command::Nothing
            },
            BallEvent::StartResize(start_cursor) => {
                state.resize_drag = Some(ResizeDrag { start_cursor, start_size: state.ball_size });
                Command::Nothing
            },
            BallEvent::ResizeMove(cursor) => resize_ball(state, cursor),
            BallEvent::EndResize => {
                state.resize_drag = None;
                Command::Nothing
            },
        },
        Message::Tick => refresh_now(state),
        Message::Animate(ms) => {
            state.ball.set_wave_phase(wave_phase_at(ms));
            Command::Nothing
        },
        Message::ToggleSettings => toggle_settings(state),
        Message::DragWindow => Command::DragWindow,
        Message::TokenChanged(value) => {
            state.token_input = value;
            Command::Nothing
        },
        Message::CookieChanged(value) => {
            state.cookie_input = value;
            Command::Nothing
        },
        Message::UserAgentChanged(value) => {
            state.user_agent_input = value;
            Command::Nothing
        },
        Message::RefreshSecondsChanged(value) => {
            state.refresh_seconds_input = value;
            Command::Nothing
        },
        Message::PreferredNameChanged(value) => {
            state.preferred_name_input = value;
            Command::Nothing
        },
        Message::SavePressed => save_settings(state),
        Message::Saved(result) => {
            match result {
                Ok(_) => {
                    state.last_error = None;
                },
                Err(err) => {
                    state.last_error = Some(err);
                },
            }
            state.sync_ball_display();
            Command::Nothing
        },
        Message::Fetched(result) => {
            state.fetching = false;
            match result {
                Ok(subscriptions) => {
                    let previous = match state.selected_index {
                        Some(i) => if i < state.subscriptions.len() {
                            Some(state.subscriptions[i].name.clone())
                        } else {
                            None
                        },
                        None => None,
                    };
                    let selected = select_after_refresh(
                        previous,
                        &subscriptions,
                        state.config.preferred_subscription_name.as_str(),
                    );
                    state.subscriptions = subscriptions;
                    state.selected_index = selected;
                    state.last_error = None;
                },
                Err(err) => {
                    state.last_error = Some(err);
                },
            }
            state.sync_ball_display();
            Command::Nothing
        },
    }
}

/// After a refresh, the selection follows the selected plan's name, not its index: when the
/// new list holds that name first at `k`, plan `k` is selected.
pub proof fn selection_follows_name(
    pre: State,
    list: Vec<Subscription>,
    post: State,
    cmd: Command,
    k: int,
)
    requires
        update_spec(pre, Message::Fetched(Ok(list)), post, cmd),
        selected_name(pre) is Some,
        0 <= k < list@.len(),
        list@[k].name@ == selected_name(pre)->0,
        forall|j: int| 0 <= j < k ==> list@[j].name@ != selected_name(pre)->0,
    ensures
        post.selected_index == Some(k as usize),
        post.subscriptions == list,
{
    let n = selected_name(pre)->0;
    assert(list@[k].name@ == n);
    match post.selected_index {
        Some(i) => {
            if (i as int) < k {
                assert(list@[i as int].name@ != n);
            } else if (i as int) > k {
                assert(list@[k].name@ == n);
            }
        },
        None => {},
    }
}

/// With a single plan, a wheel turn of any nonzero step keeps the selection on it.
pub proof fn scroll_single_plan(pre: State, post: State, steps: i32)
    requires
        scroll_spec(pre, post, steps),
        pre.subscriptions@.len() == 1,
        pre.selected_index is None || pre.selected_index == Some(0usize),
        steps != 0,
    ensures
        post.selected_index == Some(0usize),
{
    let current: int = match pre.selected_index {
        Some(i) => i as int,
        None => 0,
    };
    assert(scroll_target(current, steps as int, 1) == 0);
}

/// A change of the ratio alone does not mark the overlay for redrawing: when the gauge showed
/// `pre` up to the ratio and the overlay was clean, it stays clean after the sync.
pub proof fn ratio_change_keeps_overlay(pre: State, post: State)
    requires
        synced(pre, post),
        !pre.ball.overlay_dirty,
        pre.ball.display.title@ == title_spec(pre),
        pre.ball.display.value@ == value_spec(pre),
        pre.ball.display.status == status_spec(pre),
    ensures
        !post.ball.overlay_dirty,
{
}

/// A change of the value text marks the overlay for redrawing.
pub proof fn value_change_marks_overlay(pre: State, post: State)
    requires
        synced(pre, post),
        pre.ball.display.value@ != value_spec(pre),
    ensures
        post.ball.overlay_dirty,
{
}

/// A failed fetch keeps the plans and the selection, stores the error and shows the error
/// status; title and value are those of the plan already shown.
pub proof fn fetch_error_keeps_plans(pre: State, e: String, post: State, cmd: Command)
    requires
        update_spec(pre, Message::Fetched(Err(e)), post, cmd),
    ensures
        post.subscriptions == pre.subscriptions,
        post.selected_index == pre.selected_index,
        post.last_error == Some(e),
        post.ball.display.status == BallStatus::Error,
        post.ball.display.title@ == title_spec(pre),
        !post.fetching,
        post.ball.display.value@ == value_spec(State { fetching: false, ..pre }),
        cmd == Command::Nothing,
{
}

} // verus!
