use crate::language::LanguageManager;
use vstd::prelude::*;

verus! {

/// Which menu screen is active. Orthogonally to this, the in-game flag of
/// `GameCore` suppresses both screens while gameplay runs.
#[derive(Debug, Clone, PartialEq, Eq, Structural)]
pub enum MenuState {
    Main,
    Options,
}

/// The menu's fixed key set, one edge-triggered press flag per frame: a key
/// contributes at most one logical event per frame regardless of how long it
/// is held.
#[derive(Debug, Clone, Copy, PartialEq, Eq, Structural)]
pub struct FrameInput {
    pub up: bool,
    pub down: bool,
    pub enter: bool,
    pub escape: bool,
    pub backspace: bool,
    pub f1: bool,
    pub f2: bool,
}

impl FrameInput {
    /// A frame on which no key was pressed.
    pub fn none() -> (input: FrameInput)
        ensures
            input == (FrameInput {
                up: false,
                down: false,
                enter: false,
                escape: false,
                backspace: false,
                f1: false,
                f2: false,
            }),
    {
        FrameInput {
            up: false,
            down: false,
            enter: false,
            escape: false,
            backspace: false,
            f1: false,
            f2: false,
        }
    }
}

/// Ghost snapshot of the observable menu state: active language code, active
/// screen, selection cursor, in-game flag, animation accumulator (ms).
pub struct MenuModel {
    pub lang: Seq<char>,
    pub screen: MenuState,
    pub index: int,
    pub in_game: bool,
    pub anim_ms: int,
}

/// Number of items on a screen: the main screen lists start/options/quit,
/// the options screen lists volume/graphics/controls/back.
pub open spec fn spec_menu_len(screen: MenuState) -> int {
    match screen {
        MenuState::Main => 3,
        MenuState::Options => 4,
    }
}

/// The selection cursor always stays within the active item list.
pub open spec fn model_valid(m: MenuModel) -> bool {
    0 <= m.index < spec_menu_len(m.screen)
}

/// Advance the animation accumulator by the frame's delta, saturating at the
/// accumulator's capacity.
pub open spec fn spec_advance_time(m: MenuModel, dt_ms: int) -> MenuModel {
    MenuModel {
        anim_ms: if m.anim_ms + dt_ms <= u64::MAX { m.anim_ms + dt_ms } else { u64::MAX as int },
        ..m
    }
}

/// Language keys: the first selects English, otherwise the second selects
/// Turkish; both codes are always known to the store.
pub open spec fn spec_lang_step(m: MenuModel, input: FrameInput) -> MenuModel {
    if input.f1 {
        MenuModel { lang: "en"@, ..m }
    } else if input.f2 {
        MenuModel { lang: "tr"@, ..m }
    } else {
        m
    }
}

/// While in game, the return key leaves gameplay: back to the main screen,
/// cursor at the top, animation accumulator reset so the fade-in replays.
pub open spec fn spec_escape_step(m: MenuModel, input: FrameInput) -> MenuModel {
    if input.escape {
        MenuModel { in_game: false, screen: MenuState::Main, index: 0, anim_ms: 0, ..m }
    } else {
        m
    }
}

/// Move the cursor up one item, wrapping to the bottom from the top.
pub open spec fn spec_move_up(m: MenuModel) -> MenuModel {
    MenuModel {
        index: if m.index > 0 {
            m.index - 1
        } else {
            spec_menu_len(m.screen) - 1
        },
        ..m
    }
}

/// Move the cursor down one item, wrapping to the top from the bottom.
pub open spec fn spec_move_down(m: MenuModel) -> MenuModel {
    MenuModel {
        index: if m.index < spec_menu_len(m.screen) - 1 {
            m.index + 1
        } else {
            0
        },
        ..m
    }
}

/// Activate the selected item. On the main screen: start the game (with the
/// fade-in replayed), open the options screen, or (for quit, handled by the
/// caller through `spec_enter_quits`) leave the state unchanged. On the
/// options screen only the back item transitions; the settings items are
/// inert placeholders.
pub open spec fn spec_enter_step(m: MenuModel) -> MenuModel {
    match m.screen {
        MenuState::Main => {
            if m.index == 0 {
                MenuModel { in_game: true, anim_ms: 0, ..m }
            } else if m.index == 1 {
                MenuModel { screen: MenuState::Options, index: 0, ..m }
            } else {
                m
            }
        },
        MenuState::Options => {
            if m.index == 3 {
                MenuModel { screen: MenuState::Main, index: 0, ..m }
            } else {
                m
            }
        },
    }
}

/// Activating the quit item of the main screen requests termination.
pub open spec fn spec_enter_quits(m: MenuModel) -> bool {
    m.screen == MenuState::Main && m.index == 2
}

/// The dedicated back key returns from the options screen to the main screen.
pub open spec fn spec_back_step(m: MenuModel) -> MenuModel {
    if m.screen == MenuState::Options {
        MenuModel { screen: MenuState::Main, index: 0, ..m }
    } else {
        m
    }
}

/// One whole frame: advance time, apply the language keys, then either (in
/// game) handle only the return key, or apply cursor movement, activation and
/// the back key in that order. Returns the new model and whether quit was
/// requested. Unrecognized situations leave the state unchanged: the step is
/// total over its inputs.
pub open spec fn spec_step(m: MenuModel, input: FrameInput, dt_ms: int) -> (MenuModel, bool) {
    let m0 = spec_advance_time(m, dt_ms);
    let m1 = spec_lang_step(m0, input);
    if m1.in_game {
        (spec_escape_step(m1, input), false)
    } else {
        let m2 = if input.up {
            spec_move_up(m1)
        } else {
            m1
        };
        let m3 = if input.down {
            spec_move_down(m2)
        } else {
            m2
        };
        let quit = input.enter && spec_enter_quits(m3);
        let m4 = if input.enter {
            spec_enter_step(m3)
        } else {
            m3
        };
        let m5 = if input.backspace {
            spec_back_step(m4)
        } else {
            m4
        };
        (m5, quit)
    }
}

/// The whole menu overlay: localization store, screen and cursor state,
/// in-game gate, animation accumulator, and the item lists derived from the
/// active language.
pub struct GameCore {
    pub language_manager: LanguageManager,
    pub current_state: MenuState,
    pub selected_index: usize,
    pub animation_ms: u64,
    pub game_started: bool,
    pub main_menu_items: Vec<String>,
    pub options_menu_items: Vec<String>,
}

impl GameCore {
    /// The observable state this value stands for.
    pub open spec fn model(&self) -> MenuModel {
        MenuModel {
            lang: self.language_manager.spec_active(),
            screen: self.current_state,
            index: self.selected_index as int,
            in_game: self.game_started,
            anim_ms: self.animation_ms as int,
        }
    }

    /// Both item lists are exactly the active language's texts, in menu order.
    pub open spec fn items_in_sync(&self) -> bool {
        &&& self.main_menu_items@.len() == 3
        &&& self.main_menu_items@[0]@ == self.language_manager.spec_get_text("start_game"@)
        &&& self.main_menu_items@[1]@ == self.language_manager.spec_get_text("options"@)
        &&& self.main_menu_items@[2]@ == self.language_manager.spec_get_text("quit"@)
        &&& self.options_menu_items@.len() == 4
        &&& self.options_menu_items@[0]@ == self.language_manager.spec_get_text("volume"@)
        &&& self.options_menu_items@[1]@ == self.language_manager.spec_get_text("graphics"@)
        &&& self.options_menu_items@[2]@ == self.language_manager.spec_get_text("controls"@)
        &&& self.options_menu_items@[3]@ == self.language_manager.spec_get_text("back"@)
    }

    /// Invariant: a well-formed store, item lists in sync with it, and the
    /// cursor within the active list.
    pub open spec fn wf(&self) -> bool {
        &&& self.language_manager.wf()
        &&& self.items_in_sync()
        &&& model_valid(self.model())
    }

    /// Start at the main screen with English active, the cursor on the first
    /// item, gameplay off and the fade-in at its beginning.
    pub fn new() -> (s: GameCore)
        ensures
            s.wf(),
            s.model() == (MenuModel {
                lang: "en"@,
                screen: MenuState::Main,
                index: 0,
                in_game: false,
                anim_ms: 0,
            }),
    {
        let language_manager = LanguageManager::new();
        let mut s = GameCore {
            language_manager,
            current_state: MenuState::Main,
            selected_index: 0,
            animation_ms: 0,
            game_started: false,
            main_menu_items: Vec::new(),
            options_menu_items: Vec::new(),
        };
        s.update_menu_items();
        s
    }

    /// Rebuild both item lists from the active language. Runs on every frame
    /// where a language key was pressed, whether or not the code changed.
    pub fn update_menu_items(&mut self)
        ensures
            final (self).items_in_sync(),
            final (self).language_manager == old(self).language_manager,
            final (self).current_state == old(self).current_state,
            final (self).selected_index == old(self).selected_index,
            final (self).animation_ms == old(self).animation_ms,
            final (self).game_started == old(self).game_started,
    {
        let mut main_items: Vec<String> = Vec::new();
        main_items.push(self.language_manager.get_text("start_game").to_owned());
        main_items.push(self.language_manager.get_text("options").to_owned());
        main_items.push(self.language_manager.get_text("quit").to_owned());
        let mut options_items: Vec<String> = Vec::new();
        options_items.push(self.language_manager.get_text("volume").to_owned());
        options_items.push(self.language_manager.get_text("graphics").to_owned());
        options_items.push(self.language_manager.get_text("controls").to_owned());
        options_items.push(self.language_manager.get_text("back").to_owned());
        self.main_menu_items = main_items;
        self.options_menu_items = options_items;
    }

    /// The item list of the active screen.
    pub fn get_current_menu_items(&self) -> (items: &Vec<String>)
        ensures
            self.current_state == MenuState::Main ==> *items == self.main_menu_items,
            self.current_state == MenuState::Options ==> *items == self.options_menu_items,
    {
        match self.current_state {
            MenuState::Main => &self.main_menu_items,
            MenuState::Options => &self.options_menu_items,
        }
    }

    /// One frame of the menu: advance the fade accumulator by the frame's
    /// delta, apply the frame's edge-triggered key presses, and report
    /// whether quit was requested. The new state is exactly `spec_step` of
    /// the old.
    pub fn update(&mut self, input: FrameInput, dt_ms: u64) -> (quit: bool)
        requires
            old(self).wf(),
        ensures
            final (self).wf(),
            (final (self).model(), quit) == spec_step(old(self).model(), input, dt_ms as int),
    {
        if dt_ms <= u64::MAX - self.animation_ms {
            self.animation_ms = self.animation_ms + dt_ms;
        } else {
            self.animation_ms = u64::MAX;
        }
        if input.f1 {
            self.language_manager.set_language("en");
            self.update_menu_items();
        } else if input.f2 {
            self.language_manager.set_language("tr");
            self.update_menu_items();
        }
        if self.game_started {
            if input.escape {
                self.game_started = false;
                self.current_state = MenuState::Main;
                self.selected_index = 0;
                self.animation_ms = 0;
            }
            return false;
        }
        let menu_len = self.get_current_menu_items().len();
        if input.up {
            if self.selected_index > 0 {
                self.selected_index -= 1;
            } else {
                self.selected_index = menu_len - 1;
            }
        }
        if input.down {
            if self.selected_index < menu_len - 1 {
                self.selected_index += 1;
            } else {
                self.selected_index = 0;
            }
        }
        let mut quit = false;
        if input.enter {
            match self.current_state {
                MenuState::Main => {
                    if self.selected_index == 0 {
                        self.game_started = true;
                        self.animation_ms = 0;
                    } else if self.selected_index == 1 {
                        self.current_state = MenuState::Options;
                        self.selected_index = 0;
                    } else if self.selected_index == 2 {
                        quit = true;
                    }
                },
                MenuState::Options => {
                    if self.selected_index == 3 {
                        self.current_state = MenuState::Main;
                        self.selected_index = 0;
                    }
                },
            }
        }
        if input.backspace {
            if self.current_state == MenuState::Options {
                self.current_state = MenuState::Main;
                self.selected_index = 0;
            }
        }
        quit
    }
}

/// Law: a frame step keeps the cursor within the active item list, whatever
/// combination of keys was pressed.
pub proof fn lemma_step_preserves_valid(m: MenuModel, input: FrameInput, dt_ms: int)
    requires
        model_valid(m),
    ensures
        model_valid(spec_step(m, input, dt_ms).0),
{
}

/// Law: on the three-item main screen the cursor wraps around — moving down
/// from the last item yields the first, and moving up from the first yields
/// the last.
pub proof fn lemma_main_wraparound(m: MenuModel)
    requires
        m.screen == MenuState::Main,
    ensures
        m.index == 2 ==> spec_move_down(m).index == 0,
        m.index == 0 ==> spec_move_up(m).index == 2,
{
}

/// Law: every screen transition resets the cursor to the top, whichever key
/// caused it and wherever the cursor stood before.
pub proof fn lemma_transition_resets_cursor(m: MenuModel, input: FrameInput)
    ensures
        spec_enter_step(m).screen != m.screen ==> spec_enter_step(m).index == 0,
        spec_back_step(m).screen != m.screen ==> spec_back_step(m).index == 0,
        m.in_game && input.escape ==> spec_escape_step(m, input).screen == MenuState::Main
            && spec_escape_step(m, input).index == 0,
{
}

} // verus!
