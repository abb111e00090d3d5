//! The application around the games: which screen is up, and what the escape
//! key and the menu do.
//!
//! The shell never reads a key or paints a pixel. Whoever runs the window
//! reports what happened as an [`Event`] and carries out the [`Action`] that
//! comes back.

use crate::grid::Position;
use crate::input::HeldKeys;
use crate::snake::{SnakeGame, SnakeState};
use crate::stubs::{BreakoutGame, PongGame};
use vstd::prelude::*;

verus! {

/// How long the loading screen stays up, in milliseconds.
pub const LOADING_MS: u64 = 2000;

/// The screen that is up.
#[derive(Clone, Copy, Debug, PartialEq, Eq, Structural)]
pub enum AppState {
    /// The loading screen, with the time at which it came up.
    Loading(u64),
    MainMenu,
    Snake,
    Pong,
    Breakout,
}

/// Which buttons of the menu were clicked in a frame.
#[derive(Clone, Copy, Debug, PartialEq, Eq, Structural)]
pub struct MenuClicks {
    pub snake: bool,
    pub pong: bool,
    pub breakout: bool,
}

/// What the window reports to the shell.
#[derive(Clone, Copy, Debug, PartialEq, Eq, Structural)]
pub enum Event {
    /// The escape key went down.
    Escape,
    /// The screen that is up runs its frame at time `now`, with `keys` held.
    Frame { now: u64, keys: HeldKeys },
    /// The menu was shown and these buttons were clicked.
    Menu(MenuClicks),
}

/// What the shell asks the window to do.
#[derive(Clone, Copy, Debug, PartialEq, Eq, Structural)]
pub enum Action {
    Nothing,
    /// Switch full screen on or off, and the window's decorations with it.
    Viewport { fullscreen: bool, decorations: bool },
}

/// The shell as the rules see it.
pub struct AppModel {
    pub state: AppState,
    pub is_fullscreen: bool,
    pub snake: SnakeState,
}

/// The time that has passed at `now` since `since`; none if `now` lies before it.
pub open spec fn time_since(since: u64, now: u64) -> int {
    if now >= since {
        now - since
    } else {
        0
    }
}

/// How far the loading screen has got at `now`, in percent: one for every full
/// fiftieth of a second up to a hundred.
pub open spec fn percent_loaded(since: u64, now: u64) -> int {
    if time_since(since, now) / 20 < 100 {
        time_since(since, now) / 20
    } else {
        100
    }
}

impl MenuClicks {
    /// The screen that the menu leads to. Of several buttons clicked in one
    /// frame the one further down the menu decides; with none clicked the menu
    /// stays up.
    pub open spec fn destination(self) -> AppState {
        if self.breakout {
            AppState::Breakout
        } else if self.pong {
            AppState::Pong
        } else if self.snake {
            AppState::Snake
        } else {
            AppState::MainMenu
        }
    }
}

impl AppModel {
    /// What holds of every shell: its snake game is a valid one.
    pub open spec fn wf(self) -> bool {
        self.snake.wf()
    }

    /// The shell after the escape key: on the menu it toggles full screen, on
    /// any other screen it leads back to the menu.
    pub open spec fn escaped(self) -> AppModel {
        if self.state == AppState::MainMenu {
            AppModel { is_fullscreen: !self.is_fullscreen, ..self }
        } else {
            AppModel { state: AppState::MainMenu, ..self }
        }
    }

    /// The shell after the frame of the screen that is up. The loading screen
    /// gives way to the menu once it has been up for more than [`LOADING_MS`];
    /// the snake game runs its frame; nothing else moves.
    pub open spec fn framed(self, now: u64, keys: HeldKeys, fresh_food: Position) -> AppModel {
        match self.state {
            AppState::Loading(since) => if time_since(since, now) > LOADING_MS {
                AppModel { state: AppState::MainMenu, ..self }
            } else {
                self
            },
            AppState::Snake => AppModel { snake: self.snake.frame(keys, now, fresh_food), ..self },
            _ => self,
        }
    }

    /// The shell after clicks on the menu. They count only while the menu is
    /// up. A click on the snake button resets the snake game, whatever else was
    /// clicked; the screen changes to where the clicks lead.
    pub open spec fn selected(self, clicks: MenuClicks, fresh_food: Position) -> AppModel {
        if self.state == AppState::MainMenu {
            AppModel {
                state: clicks.destination(),
                snake: if clicks.snake {
                    self.snake.restarted(fresh_food)
                } else {
                    self.snake
                },
                ..self
            }
        } else {
            self
        }
    }

    /// The shell after `event`, where `fresh_food` is the food that the snake
    /// game places if the event makes it place any.
    pub open spec fn react(self, event: Event, fresh_food: Position) -> AppModel {
        match event {
            Event::Escape => self.escaped(),
            Event::Frame { now, keys } => self.framed(now, keys, fresh_food),
            Event::Menu(clicks) => self.selected(clicks, fresh_food),
        }
    }

    /// What the window is asked to do after `event`: only the escape key on the
    /// menu asks for anything, namely the new full-screen setting, with
    /// decorations exactly when the window is not full screen.
    pub open spec fn request(self, event: Event) -> Action {
        if event == Event::Escape && self.state == AppState::MainMenu {
            Action::Viewport { fullscreen: !self.is_fullscreen, decorations: self.is_fullscreen }
        } else {
            Action::Nothing
        }
    }
}

/// The application: the screen that is up, the full-screen setting, and the
/// three games.
pub struct RetroApp {
    state: AppState,
    is_fullscreen: bool,
    snake: SnakeGame,
    pong: PongGame,
    breakout: BreakoutGame,
}

impl View for RetroApp {
    type V = AppModel;

    closed spec fn view(&self) -> AppModel {
        AppModel { state: self.state, is_fullscreen: self.is_fullscreen, snake: self.snake@ }
    }
}

impl Default for RetroApp {
    /// The application as it starts when time is counted from its start.
    fn default() -> (app: RetroApp)
        ensures
            app@.state == AppState::Loading(0),
            app@.is_fullscreen,
            app@.snake == SnakeState::start(app@.snake.food, crate::clock::Clock::started(0)),
            app@.wf(),
    {
        RetroApp::new(0)
    }
}

impl RetroApp {
    /// The application as it starts at time `now`: the loading screen up, full
    /// screen on, and a new game of snake.
    pub fn new(now: u64) -> (app: RetroApp)
        ensures
            app@.state == AppState::Loading(now),
            app@.is_fullscreen,
            app@.snake == SnakeState::start(app@.snake.food, crate::clock::Clock::started(now)),
            app@.wf(),
    {
        RetroApp {
            state: AppState::Loading(now),
            is_fullscreen: true,
            snake: SnakeGame::new(now),
            pong: PongGame::new(),
            breakout: BreakoutGame::new(),
        }
    }

    /// Takes in one event and says what the window has to do about it.
    pub fn update(&mut self, event: Event) -> (action: Action)
        requires
            old(self)@.wf(),
        ensures
            final(self)@ == old(self)@.react(event, final(self)@.snake.food),
            action == old(self)@.request(event),
            final(self)@.wf(),
    {
        match event {
            Event::Escape => self.escape(),
            Event::Frame { now, keys } => {
                self.frame(now, keys);
                Action::Nothing
            },
            Event::Menu(clicks) => {
                self.select(clicks);
                Action::Nothing
            },
        }
    }

    /// The escape key: on the menu it toggles full screen and asks the window
    /// to follow; on any other screen it leads back to the menu.
    pub fn escape(&mut self) -> (action: Action)
        ensures
            final(self)@ == old(self)@.escaped(),
            action == old(self)@.request(Event::Escape),
    {
        match self.state {
            AppState::MainMenu => {
                self.is_fullscreen = !self.is_fullscreen;
                Action::Viewport {
                    fullscreen: self.is_fullscreen,
                    decorations: !self.is_fullscreen,
                }
            },
            _ => {
                self.state = AppState::MainMenu;
                Action::Nothing
            },
        }
    }

    /// The frame of the screen that is up, at time `now` with `keys` held.
    pub fn frame(&mut self, now: u64, keys: HeldKeys)
        requires
            old(self)@.wf(),
        ensures
            final(self)@ == old(self)@.framed(now, keys, final(self)@.snake.food),
            final(self)@.wf(),
    {
        match self.state {
            AppState::Loading(since) => {
                if now >= since && now - since > LOADING_MS {
                    self.state = AppState::MainMenu;
                }
            },
            AppState::MainMenu => {},
            AppState::Snake => {
                self.snake.update(keys, now);
            },
            AppState::Pong => {
                self.pong.update();
            },
            AppState::Breakout => {
                self.breakout.update();
            },
        }
    }

    /// Clicks on the menu's buttons. Each game whose button was clicked is reset
    /// and its screen comes up; off the menu, clicks do nothing.
    pub fn select(&mut self, clicks: MenuClicks)
        requires
            old(self)@.wf(),
        ensures
            final(self)@ == old(self)@.selected(clicks, final(self)@.snake.food),
            final(self)@.wf(),
    {
        if self.state == AppState::MainMenu {
            if clicks.snake {
                self.snake.reset();
                self.state = AppState::Snake;
            }
            if clicks.pong {
                self.pong.reset();
                self.state = AppState::Pong;
            }
            if clicks.breakout {
                self.breakout.reset();
                self.state = AppState::Breakout;
            }
        }
    }

    /// The screen that is up.
    pub fn state(&self) -> (s: AppState)
        ensures
            s == self@.state,
    {
        self.state
    }

    /// Whether the window is meant to be full screen.
    pub fn is_fullscreen(&self) -> (b: bool)
        ensures
            b == self@.is_fullscreen,
    {
        self.is_fullscreen
    }

    /// The snake game.
    pub fn snake(&self) -> (g: &SnakeGame)
        ensures
            g@ == self@.snake,
    {
        &self.snake
    }

    /// The pong game.
    pub fn pong(&self) -> (g: &PongGame)
        ensures
            *g == PongGame,
    {
        &self.pong
    }

    /// The breakout game.
    pub fn breakout(&self) -> (g: &BreakoutGame)
        ensures
            *g == BreakoutGame,
    {
        &self.breakout
    }
}

/// How far the loading screen that came up at `since` has got at `now`, in
/// percent.
pub fn loading_percent(since: u64, now: u64) -> (p: u32)
    ensures
        p == percent_loaded(since, now),
        p <= 100,
        p == 100 <==> time_since(since, now) >= LOADING_MS,
{
    if now < since {
        return 0;
    }
    let steps: u64 = (now - since) / 20;
    if steps < 100 {
        steps as u32
    } else {
        100
    }
}

/// The snake screen never comes up with an old game on it: whenever an event
/// leads from another screen to the snake screen, the game is at its start.
pub proof fn lemma_snake_is_entered_fresh(app: AppModel, event: Event, fresh_food: Position)
    requires
        app.state != AppState::Snake,
        app.react(event, fresh_food).state == AppState::Snake,
    ensures
        app.react(event, fresh_food).snake == SnakeState::start(fresh_food, app.snake.clock),
        !app.react(event, fresh_food).snake.game_over,
{
}

/// Escape pressed twice on the menu brings the window back to where it was,
/// and pressed on any other screen it brings up the menu.
pub proof fn lemma_escape(app: AppModel)
    ensures
        app.escaped().state == AppState::MainMenu,
        app.state == AppState::MainMenu ==> app.escaped().escaped() == app,
        app.state != AppState::MainMenu ==> app.request(Event::Escape) == Action::Nothing,
        app.request(Event::Escape) matches Action::Viewport { fullscreen, decorations }
            ==> decorations == !fullscreen && fullscreen == app.escaped().is_fullscreen,
{
}

/// No event makes an invalid shell of a valid one.
pub proof fn lemma_react_keeps_wf(app: AppModel, event: Event, fresh_food: Position)
    requires
        app.wf(),
        fresh_food.in_food_region(),
    ensures
        app.react(event, fresh_food).wf(),
{
    match event {
        Event::Frame { now, keys } => {
            if app.state == AppState::Snake && !app.snake.game_over && app.snake.clock.due(now) {
                crate::snake::lemma_step_keeps_wf(
                    SnakeState { clock: app.snake.clock.committed(now), ..app.snake },
                    keys.chosen(app.snake.direction),
                    fresh_food,
                );
            }
        },
        _ => {},
    }
}

} // verus!
