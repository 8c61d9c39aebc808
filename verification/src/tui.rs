//! The interactive interface's state machine: menus, the command terminal
//! of each tool and what every key and command does to the state. Drawing
//! the screen and reading keys happen outside the library.
use vstd::prelude::*;
use vstd::arithmetic::div_mod::{lemma_add_mod_noop, lemma_small_mod, lemma_mod_twice};
use crate::character::Character;
use crate::combat::{CombatTracker, Combatant};
use crate::character::AbilityScore;
use crate::text::{trim, trimmed, lowercase, to_lowercase, str_eq, str_chars, string_from_range, decimal,
    push_decimal, signed_decimal, push_signed_decimal, eq_ignore_ascii_case, str_eq_ignore_ascii_case,
    parse_usize_spec, parse_usize};
use crate::words::{words, views, join_with, split_words, join_from, push_line, push_all, pad, padded};
use crate::character::text_or;
use crate::dice::{random_byte, roll_from, dice_fits, roll_dice_with_crits, dice_expression_fits,
    dice_request, dice_modifier, total_of, crit_text, lemma_d20};
use crate::races_classes::{race_names, class_names, get_random_race, get_random_class};
use crate::tui_combat::combat_effect;

verus! {

/// A key press as the interface reads it.
#[derive(Debug, Clone, Copy, PartialEq, Eq, Structural)]
pub enum Key {
    Up,
    Down,
    Enter,
    Esc,
    Backspace,
    PageUp,
    PageDown,
    Char(char),
    Other,
}

/// The screen the interface shows: a menu, or the command terminal of a tool.
#[derive(Debug, Clone, Copy, PartialEq, Eq, Structural)]
pub enum AppMode {
    MainMenu,
    CharactersMenu,
    ToolsMenu,
    CharacterCreation,
    CharacterCreationTUI,
    CharacterDisplay,
    CharacterDisplayTUI,
    CharacterDeletion,
    CharacterDeletionTUI,
    InitiativeTracker,
    InitiativeTrackerTUI,
    NpcGenerator,
    NpcGeneratorTUI,
    EncounterRandomizer,
    EncounterRandomizerTUI,
    Dice,
    DiceTUI,
    CombatTracker,
    CombatTrackerTUI,
    Search,
    SearchTUI,
    Exit,
}

/// Work that a command leaves for the program around the library: network
/// searches, saving files, and encounter generation (which computes with
/// fractional challenge ratings).
#[derive(Debug)]
pub enum PendingAction {
    /// Search the rules wiki for `query` and hand the outcome back.
    Search { query: String, in_combat: bool },
    /// Write every character sheet to disk.
    SaveCharacters,
    /// Generate an encounter of `creatures` creatures for the challenge
    /// rating written as `challenge`.
    GenerateEncounter { challenge: String, creatures: usize },
    /// Announce the challenge rating written as `challenge`.
    SetChallengeRating { challenge: String },
}

/// The whole interface state.
#[derive(Debug)]
pub struct App {
    pub mode: AppMode,
    pub selected_index: usize,
    pub characters: Vec<Character>,
    pub should_quit: bool,
    pub message: Option<String>,
    pub input_buffer: String,
    pub output_history: Vec<String>,
    pub command_history: Vec<String>,
    pub history_index: Option<usize>,
    pub scroll_offset: usize,
    pub combat_tracker: Option<CombatTracker>,
    pub current_state: String,
    pub waiting_for: Option<String>,
    pub dice_results: Vec<String>,
    pub pending: Option<PendingAction>,
}

/// What the interface shows and holds, apart from the command line being
/// typed and the history of commands.
pub struct Screen {
    pub mode: AppMode,
    pub selected_index: usize,
    pub characters: Seq<Character>,
    pub should_quit: bool,
    pub message: Option<Seq<char>>,
    pub output: Seq<Seq<char>>,
    pub scroll_offset: usize,
    pub fight: Option<Fight>,
    pub current_state: Seq<char>,
    pub waiting_for: Option<Seq<char>>,
    pub dice_results: Seq<Seq<char>>,
    pub pending: Option<PendingAction>,
}

/// A fight as the state holds it: combatants in order, whose turn it is,
/// and the round.
pub struct Fight {
    pub combatants: Seq<Combatant>,
    pub current_turn: usize,
    pub round_number: i32,
}

/// The fight held by an optional tracker.
pub open spec fn fight_of(t: Option<CombatTracker>) -> Option<Fight> {
    match t {
        Some(t) => Some(
            Fight { combatants: t.combatants@, current_turn: t.current_turn, round_number: t.round_number },
        ),
        None => None,
    }
}

/// The text of an optional string.
pub open spec fn opt_view(o: Option<String>) -> Option<Seq<char>> {
    match o {
        Some(s) => Some(s@),
        None => None,
    }
}

/// The modes that show a command terminal rather than a menu.
pub open spec fn is_terminal(m: AppMode) -> bool {
    ||| m == AppMode::CombatTrackerTUI
    ||| m == AppMode::SearchTUI
    ||| m == AppMode::CharacterCreationTUI
    ||| m == AppMode::CharacterDisplayTUI
    ||| m == AppMode::CharacterDeletionTUI
    ||| m == AppMode::InitiativeTrackerTUI
    ||| m == AppMode::NpcGeneratorTUI
    ||| m == AppMode::EncounterRandomizerTUI
    ||| m == AppMode::DiceTUI
}

/// The entries of a menu screen (none for other screens).
pub open spec fn menu_items(m: AppMode) -> Seq<Seq<char>> {
    match m {
        AppMode::MainMenu => seq!["Characters"@, "Tools"@, "Exit"@],
        AppMode::CharactersMenu => seq![
            "Creation"@,
            "Display single character"@,
            "Display all characters"@,
            "Character deletion"@,
            "Back to main menu"@,
        ],
        AppMode::ToolsMenu => seq![
            "Initiative tracker"@,
            "NPC randomizer"@,
            "Dice"@,
            "Combat tracker"@,
            "Search D&D 5e API"@,
            "Back to main menu"@,
        ],
        _ => seq![],
    }
}

/// The first word of a command in lower case (empty for a blank command).
pub open spec fn command_word(cmd: Seq<char>) -> Seq<char> {
    if words(cmd).len() == 0 {
        seq![]
    } else {
        lowercase(words(cmd)[0])
    }
}

/// The words of a command after the first `k`, joined with spaces.
pub open spec fn words_after(cmd: Seq<char>, k: int) -> Seq<char> {
    join_with(words(cmd).skip(k), seq![' '])
}

/// The answer to a command a tool does not know.
pub open spec fn unknown_line(w: Seq<char>) -> Seq<char> {
    "Unknown command '"@ + w + "'. Type 'help' for commands."@
}

/// Where the output view scrolls after `added` lines were appended, leaving
/// `new_len` lines: to the last ten lines once there are more than ten.
pub open spec fn scrolled(old_scroll: usize, added: nat, new_len: nat) -> usize {
    if added > 0 && new_len > 10 {
        (new_len - 10) as usize
    } else {
        old_scroll
    }
}

/// `s` with `lines` appended to the output and the view scrolled.
pub open spec fn print(s: Screen, lines: Seq<Seq<char>>) -> Screen {
    Screen {
        output: s.output + lines,
        scroll_offset: scrolled(s.scroll_offset, lines.len(), s.output.len() + lines.len()),
        ..s
    }
}

/// `s` with the terminal emptied: no output, no fight, state `Ready`,
/// nothing awaited and no dice results.
pub open spec fn cleared(s: Screen) -> Screen {
    Screen {
        output: seq![],
        scroll_offset: 0,
        fight: None,
        current_state: "Ready"@,
        waiting_for: None,
        dice_results: seq![],
        ..s
    }
}

/// `s` after closing a tool's terminal for the menu `m`, first entry
/// selected.
pub open spec fn left(s: Screen, m: AppMode) -> Screen {
    Screen { mode: m, selected_index: 0, ..cleared(s) }
}

/// The menu that `Esc` returns to from a screen, and whether the terminal is
/// emptied on the way; `None` where `Esc` does nothing.
pub open spec fn back_target(m: AppMode) -> Option<(AppMode, bool)> {
    match m {
        AppMode::CharactersMenu | AppMode::ToolsMenu => Some((AppMode::MainMenu, false)),
        AppMode::CharacterCreation | AppMode::CharacterDisplay | AppMode::CharacterDeletion
        | AppMode::CharacterCreationTUI | AppMode::CharacterDisplayTUI
        | AppMode::CharacterDeletionTUI => Some((AppMode::CharactersMenu, true)),
        AppMode::InitiativeTracker | AppMode::NpcGenerator | AppMode::EncounterRandomizer
        | AppMode::Dice | AppMode::CombatTracker | AppMode::Search | AppMode::InitiativeTrackerTUI
        | AppMode::NpcGeneratorTUI | AppMode::EncounterRandomizerTUI | AppMode::DiceTUI
        | AppMode::CombatTrackerTUI | AppMode::SearchTUI => Some((AppMode::ToolsMenu, true)),
        _ => None,
    }
}

/// Whether `Esc` on this screen empties the terminal.
pub open spec fn clears_on_back(m: AppMode) -> bool {
    back_target(m) matches Some((_, true))
}

/// The screen after `Enter` on a menu entry: the screen it opens (a submenu
/// opens on its first entry, a tool keeps the selection), or no change.
pub open spec fn chosen(s: Screen) -> Screen {
    let i = s.selected_index;
    match s.mode {
        AppMode::MainMenu => if i == 0 {
            Screen { mode: AppMode::CharactersMenu, selected_index: 0, ..s }
        } else if i == 1 {
            Screen { mode: AppMode::ToolsMenu, selected_index: 0, ..s }
        } else if i == 2 {
            Screen { mode: AppMode::Exit, ..s }
        } else {
            s
        },
        AppMode::CharactersMenu => if i == 0 {
            Screen { mode: AppMode::CharacterCreationTUI, ..s }
        } else if i == 1 || i == 2 {
            Screen { mode: AppMode::CharacterDisplayTUI, ..s }
        } else if i == 3 {
            Screen { mode: AppMode::CharacterDeletionTUI, ..s }
        } else if i == 4 {
            Screen { mode: AppMode::MainMenu, selected_index: 0, ..s }
        } else {
            s
        },
        AppMode::ToolsMenu => if i == 0 {
            Screen { mode: AppMode::InitiativeTrackerTUI, ..s }
        } else if i == 1 {
            Screen { mode: AppMode::NpcGeneratorTUI, ..s }
        } else if i == 2 {
            Screen { mode: AppMode::DiceTUI, ..s }
        } else if i == 3 {
            Screen { mode: AppMode::CombatTrackerTUI, ..s }
        } else if i == 4 {
            Screen { mode: AppMode::SearchTUI, ..s }
        } else if i == 5 {
            Screen { mode: AppMode::MainMenu, selected_index: 0, ..s }
        } else {
            s
        },
        _ => s,
    }
}

impl App {
    /// The history position points into the history.
    pub open spec fn wf(self) -> bool {
        self.history_index matches Some(i) ==> i < self.command_history@.len()
    }

    /// Everything but the command line and its history.
    pub open spec fn screen(self) -> Screen {
        Screen {
            mode: self.mode,
            selected_index: self.selected_index,
            characters: self.characters@,
            should_quit: self.should_quit,
            message: opt_view(self.message),
            output: views(self.output_history@),
            scroll_offset: self.scroll_offset,
            fight: fight_of(self.combat_tracker),
            current_state: self.current_state@,
            waiting_for: opt_view(self.waiting_for),
            dice_results: views(self.dice_results@),
            pending: self.pending,
        }
    }

    /// The command line and its history are as in `other`.
    pub open spec fn same_input(self, other: App) -> bool {
        &&& self.input_buffer@ == other.input_buffer@
        &&& self.command_history == other.command_history
        &&& self.history_index == other.history_index
    }

    /// The state at start-up: the main menu with the given characters.
    pub fn new(characters: Vec<Character>) -> (res: Self)
        ensures
            res.screen() == (Screen {
                mode: AppMode::MainMenu,
                selected_index: 0,
                characters: characters@,
                should_quit: false,
                message: None,
                output: seq![],
                scroll_offset: 0,
                fight: None,
                current_state: "Ready"@,
                waiting_for: None,
                dice_results: seq![],
                pending: None,
            }),
            res.input_buffer@.len() == 0,
            res.command_history@.len() == 0,
            res.history_index is None,
            res.wf(),
    {
        let a = App {
            mode: AppMode::MainMenu,
            selected_index: 0,
            characters,
            should_quit: false,
            message: None,
            input_buffer: String::new(),
            output_history: Vec::new(),
            command_history: Vec::new(),
            history_index: None,
            scroll_offset: 0,
            combat_tracker: None,
            current_state: String::from_str("Ready"),
            waiting_for: None,
            dice_results: Vec::new(),
            pending: None,
        };
        assert(views(a.output_history@) =~= Seq::<Seq<char>>::empty());
        assert(views(a.dice_results@) =~= Seq::<Seq<char>>::empty());
        a
    }

    /// The entries of the current menu (none outside the menus).
    pub fn get_menu_items(&self) -> (res: Vec<&'static str>)
        ensures
            res@.map_values(|s: &str| s@) == menu_items(self.mode),
    {
        let mut v: Vec<&'static str> = Vec::new();
        match self.mode {
            AppMode::MainMenu => {
                v.push("Characters");
                v.push("Tools");
                v.push("Exit");
            },
            AppMode::CharactersMenu => {
                v.push("Creation");
                v.push("Display single character");
                v.push("Display all characters");
                v.push("Character deletion");
                v.push("Back to main menu");
            },
            AppMode::ToolsMenu => {
                v.push("Initiative tracker");
                v.push("NPC randomizer");
                v.push("Dice");
                v.push("Combat tracker");
                v.push("Search D&D 5e API");
                v.push("Back to main menu");
            },
            _ => {},
        }
        assert(v@.map_values(|s: &str| s@) =~= menu_items(self.mode));
        v
    }

    fn menu_len(&self) -> (res: usize)
        ensures
            res == menu_items(self.mode).len(),
    {
        match self.mode {
            AppMode::MainMenu => 3,
            AppMode::CharactersMenu => 5,
            AppMode::ToolsMenu => 6,
            _ => 0,
        }
    }

    /// Appends a line to the output and scrolls to the last ten lines.
    pub fn add_output(&mut self, text: String)
        ensures
            final(self).screen() == print(old(self).screen(), seq![text@]),
            final(self).same_input(*old(self)),
    {
        let ghost before = self.screen();
        self.output_history.push(text);
        assert(views(self.output_history@) =~= before.output + seq![text@]);
        if self.output_history.len() > 10 {
            self.scroll_offset = self.output_history.len() - 10;
        }
    }

    /// Appends lines to the output, in order.
    pub fn emit(&mut self, lines: Vec<String>)
        ensures
            final(self).screen() == print(old(self).screen(), views(lines@)),
            final(self).same_input(*old(self)),
    {
        let ghost start = self.screen();
        let ghost start_app = *self;
        let mut i: usize = 0;
        assert(print(start, views(lines@).take(0)) == start) by {
            assert(start.output + views(lines@).take(0) =~= start.output);
        }
        while i < lines.len()
            invariant
                i <= lines@.len(),
                self.screen() == print(start, views(lines@).take(i as int)),
                self.same_input(start_app),
            decreases lines@.len() - i,
        {
            self.add_output(lines[i].clone());
            assert(views(lines@).take(i + 1) =~= views(lines@).take(i as int).push(lines@[i as int]@));
            assert(start.output + views(lines@).take(i + 1) =~= (start.output + views(lines@).take(
                i as int,
            )) + seq![lines@[i as int]@]);
            i = i + 1;
        }
        assert(views(lines@).take(lines@.len() as int) =~= views(lines@));
    }

    /// Empties the terminal of the current tool.
    fn clear_terminal_state(&mut self)
        ensures
            final(self).screen() == cleared(old(self).screen()),
            final(self).input_buffer@.len() == 0,
            final(self).command_history == old(self).command_history,
            final(self).history_index == old(self).history_index,
    {
        self.input_buffer = String::new();
        self.output_history = Vec::new();
        self.scroll_offset = 0;
        self.combat_tracker = None;
        self.current_state = String::from_str("Ready");
        self.waiting_for = None;
        self.dice_results = Vec::new();
        assert(views(self.output_history@) =~= Seq::<Seq<char>>::empty());
        assert(views(self.dice_results@) =~= Seq::<Seq<char>>::empty());
    }

    /// Leaves a terminal for the menu `m`.
    fn leave_to(&mut self, m: AppMode)
        ensures
            final(self).screen() == left(old(self).screen(), m),
            final(self).input_buffer@.len() == 0,
            final(self).command_history == old(self).command_history,
            final(self).history_index == old(self).history_index,
    {
        self.mode = m;
        self.selected_index = 0;
        self.clear_terminal_state();
    }

    /// Moves the selection up, wrapping from the first entry to the last.
    pub fn previous_item(&mut self)
        ensures
            final(self).screen() == (Screen {
                selected_index: previous_index(old(self).selected_index, menu_items(old(self).mode).len()),
                ..old(self).screen()
            }),
            final(self).same_input(*old(self)),
    {
        let n = self.menu_len();
        if n > 0 {
            let i = self.selected_index;
            proof {
                lemma_add_mod_noop(i as int, (n - 1) as int, n as int);
                lemma_small_mod((n - 1) as nat, n as nat);
            }
            self.selected_index = (i % n + n - 1) % n;
        }
    }

    /// Moves the selection down, wrapping from the last entry to the first.
    pub fn next_item(&mut self)
        ensures
            final(self).screen() == (Screen {
                selected_index: next_index(old(self).selected_index, menu_items(old(self).mode).len()),
                ..old(self).screen()
            }),
            final(self).same_input(*old(self)),
    {
        let n = self.menu_len();
        if n > 0 {
            let i = self.selected_index;
            proof {
                lemma_add_mod_noop(i as int, 1, n as int);
                lemma_mod_twice(i as int, n as int);
                lemma_add_mod_noop((i % n) as int, 1, n as int);
            }
            self.selected_index = (i % n + 1) % n;
        }
    }

    /// Opens what the selected menu entry names.
    fn select_current(&mut self)
        ensures
            final(self).screen() == chosen(old(self).screen()),
            final(self).same_input(*old(self)),
    {
        let i = self.selected_index;
        match self.mode {
            AppMode::MainMenu => {
                if i == 0 {
                    self.mode = AppMode::CharactersMenu;
                    self.selected_index = 0;
                } else if i == 1 {
                    self.mode = AppMode::ToolsMenu;
                    self.selected_index = 0;
                } else if i == 2 {
                    self.mode = AppMode::Exit;
                }
            },
            AppMode::CharactersMenu => {
                if i == 0 {
                    self.mode = AppMode::CharacterCreationTUI;
                } else if i == 1 || i == 2 {
                    self.mode = AppMode::CharacterDisplayTUI;
                } else if i == 3 {
                    self.mode = AppMode::CharacterDeletionTUI;
                } else if i == 4 {
                    self.mode = AppMode::MainMenu;
                    self.selected_index = 0;
                }
            },
            AppMode::ToolsMenu => {
                if i == 0 {
                    self.mode = AppMode::InitiativeTrackerTUI;
                } else if i == 1 {
                    self.mode = AppMode::NpcGeneratorTUI;
                } else if i == 2 {
                    self.mode = AppMode::DiceTUI;
                } else if i == 3 {
                    self.mode = AppMode::CombatTrackerTUI;
                } else if i == 4 {
                    self.mode = AppMode::SearchTUI;
                } else if i == 5 {
                    self.mode = AppMode::MainMenu;
                    self.selected_index = 0;
                }
            },
            _ => {},
        }
    }

    /// Returns from a submenu to the main menu, or from a tool to its menu
    /// (emptying the tool's terminal).
    fn go_back(&mut self)
        ensures
            final(self).screen() == went_back(old(self).screen()),
            final(self).command_history == old(self).command_history,
            final(self).history_index == old(self).history_index,
            clears_on_back(old(self).mode) ==> final(self).input_buffer@.len() == 0,
            !clears_on_back(old(self).mode) ==> final(self).input_buffer@ == old(self).input_buffer@,
    {
        match self.mode {
            AppMode::CharactersMenu | AppMode::ToolsMenu => {
                self.mode = AppMode::MainMenu;
                self.selected_index = 0;
            },
            AppMode::CharacterCreation | AppMode::CharacterDisplay | AppMode::CharacterDeletion
            | AppMode::CharacterCreationTUI | AppMode::CharacterDisplayTUI
            | AppMode::CharacterDeletionTUI => {
                self.leave_to(AppMode::CharactersMenu);
            },
            AppMode::InitiativeTracker | AppMode::NpcGenerator | AppMode::EncounterRandomizer
            | AppMode::Dice | AppMode::CombatTracker | AppMode::Search
            | AppMode::InitiativeTrackerTUI | AppMode::NpcGeneratorTUI
            | AppMode::EncounterRandomizerTUI | AppMode::DiceTUI | AppMode::CombatTrackerTUI
            | AppMode::SearchTUI => {
                self.leave_to(AppMode::ToolsMenu);
            },
            _ => {},
        }
    }

    /// Handles a key: menu navigation on a menu screen, editing and running
    /// commands in a tool's terminal.
    pub fn handle_key(&mut self, key: Key)
        requires
            old(self).wf(),
        ensures
            final(self).wf(),
            is_terminal(old(self).mode) ==> terminal_key(*old(self), key, *final(self)),
            !is_terminal(old(self).mode) ==> final(self).screen() == menu_key(old(self).screen(), key),
            !is_terminal(old(self).mode) ==> final(self).command_history == old(self).command_history
                && final(self).history_index == old(self).history_index,
            !is_terminal(old(self).mode) && !(key == Key::Esc && clears_on_back(old(self).mode))
                ==> final(self).input_buffer@ == old(self).input_buffer@,
            !is_terminal(old(self).mode) && key == Key::Esc && clears_on_back(old(self).mode)
                ==> final(self).input_buffer@.len() == 0,
    {
        match self.mode {
            AppMode::CombatTrackerTUI | AppMode::SearchTUI | AppMode::CharacterCreationTUI
            | AppMode::CharacterDisplayTUI | AppMode::CharacterDeletionTUI
            | AppMode::InitiativeTrackerTUI | AppMode::NpcGeneratorTUI
            | AppMode::EncounterRandomizerTUI | AppMode::DiceTUI => {
                self.handle_terminal_key(key);
            },
            _ => {
                match key {
                    Key::Up => self.previous_item(),
                    Key::Down => self.next_item(),
                    Key::Enter => self.select_current(),
                    Key::Esc => self.go_back(),
                    Key::Char(c) => {
                        if c == 'q' || c == 'Q' {
                            self.should_quit = true;
                        }
                    },
                    _ => {},
                }
            },
        }
    }

    /// A key in a tool's terminal: `Enter` runs the typed command, the arrow
    /// keys walk the command history, page keys scroll, `Esc` leaves.
    fn handle_terminal_key(&mut self, key: Key)
        requires
            old(self).wf(),
            is_terminal(old(self).mode),
        ensures
            final(self).wf(),
            terminal_key(*old(self), key, *final(self)),
    {
        match key {
            Key::Enter => {
                let command = trimmed(self.input_buffer.as_str());
                if !command.as_str().is_empty() {
                    let ghost h = self.command_history@;
                    self.command_history.push(command.clone());
                    assert(self.command_history@.drop_last() =~= h);
                    self.history_index = None;
                    self.process_terminal_command(command);
                    self.input_buffer = String::new();
                }
            },
            Key::Backspace => {
                let v = str_chars(self.input_buffer.as_str());
                if v.len() > 0 {
                    self.input_buffer = string_from_range(&v, 0, v.len() - 1);
                    assert(self.input_buffer@ =~= v@.drop_last());
                }
            },
            Key::Up => {
                let n = self.command_history.len();
                if n > 0 {
                    match self.history_index {
                        Some(index) => {
                            if index > 0 {
                                self.history_index = Some(index - 1);
                            }
                        },
                        None => {
                            self.history_index = Some(n - 1);
                        },
                    }
                    match self.history_index {
                        Some(index) => {
                            self.input_buffer = self.command_history[index].clone();
                        },
                        None => {},
                    }
                }
            },
            Key::Down => {
                match self.history_index {
                    Some(index) => {
                        if index < self.command_history.len() - 1 {
                            self.history_index = Some(index + 1);
                            self.input_buffer = self.command_history[index + 1].clone();
                        } else {
                            self.history_index = None;
                            self.input_buffer = String::new();
                        }
                    },
                    None => {},
                }
            },
            Key::PageUp => {
                if self.scroll_offset > 0 {
                    self.scroll_offset = self.scroll_offset.saturating_sub(5);
                }
            },
            Key::PageDown => {
                let n = self.output_history.len();
                if n > 10 && self.scroll_offset < n - 10 {
                    self.scroll_offset = self.scroll_offset + 5;
                }
            },
            Key::Esc => {
                self.go_back();
            },
            Key::Char(c) => {
                crate::text::push_char(&mut self.input_buffer, c);
            },
            Key::Other => {},
        }
    }

    /// Runs a command in the terminal of the current tool.
    fn process_terminal_command(&mut self, command: String)
        ensures
            command_effect(old(self).screen(), command@, final(self).screen()),
            final(self).command_history == old(self).command_history,
            final(self).history_index == old(self).history_index,
    {
        match self.mode {
            AppMode::CombatTrackerTUI => self.process_combat_command(command),
            AppMode::SearchTUI => self.process_search_command(command),
            AppMode::CharacterCreationTUI => self.process_character_creation_command(command),
            AppMode::CharacterDisplayTUI => self.process_character_display_command(command),
            AppMode::CharacterDeletionTUI => self.process_character_deletion_command(command),
            AppMode::InitiativeTrackerTUI => self.process_initiative_command(command),
            AppMode::NpcGeneratorTUI => self.process_npc_generator_command(command),
            AppMode::EncounterRandomizerTUI => self.process_encounter_randomizer_command(command),
            AppMode::DiceTUI => self.process_dice_command(command),
            _ => {},
        }
    }

    fn process_character_creation_command(&mut self, command: String)
        ensures
            creation_effect(old(self).screen(), command@, final(self).screen()),
            final(self).command_history == old(self).command_history,
            final(self).history_index == old(self).history_index,
    {
        let (_parts, w) = parse_command(command.as_str());
        if str_eq(w.as_str(), "help") || str_eq(w.as_str(), "h") {
            self.emit(creation_help_lines());
        } else if str_eq(w.as_str(), "create") {
            self.emit(creation_intro_lines());
        } else if str_eq(w.as_str(), "back") || str_eq(w.as_str(), "exit") {
            self.leave_to(AppMode::CharactersMenu);
        } else {
            self.add_output(unknown_command(&w));
        }
    }

    fn process_character_display_command(&mut self, command: String)
        ensures
            display_effect(old(self).screen(), command@, final(self).screen()),
            final(self).command_history == old(self).command_history,
            final(self).history_index == old(self).history_index,
    {
        let (parts, w) = parse_command(command.as_str());
        if str_eq(w.as_str(), "help") || str_eq(w.as_str(), "h") {
            self.emit(display_help_lines());
        } else if str_eq(w.as_str(), "list") {
            let mut lines: Vec<String> = Vec::new();
            push_line(&mut lines, String::from_str("📋 Available Characters:"));
            push_all(&mut lines, roster_lines(&self.characters));
            self.emit(lines);
        } else if str_eq(w.as_str(), "show") {
            if parts.len() >= 2 {
                let name = join_from(&parts, 1, " ");
                proof {
                    lemma_space();
                }
                assert(name@ == words_after(command@, 1));
                self.show_character_named(name);
            } else {
                self.add_output(String::from_str("Usage: show <character_name>"));
            }
        } else if str_eq(w.as_str(), "back") || str_eq(w.as_str(), "exit") {
            self.leave_to(AppMode::CharactersMenu);
        } else {
            self.add_output(unknown_command(&w));
        }
    }

    /// Shows the details of the first character named `name`.
    fn show_character_named(&mut self, name: String)
        ensures
            match find_named(old(self).characters@, name@) {
                Some(i) => final(self).screen() == print(
                    old(self).screen(),
                    details(old(self).characters@[i]),
                ),
                None => final(self).screen() == print(old(self).screen(), seq![character_not_found(name@)]),
            },
            final(self).command_history == old(self).command_history,
            final(self).history_index == old(self).history_index,
    {
        match find_character(&self.characters, name.as_str()) {
            Some(i) => {
                let lines = details_lines(&self.characters[i]);
                self.emit(lines);
            },
            None => {
                self.add_output(character_missing(name.as_str()));
            },
        }
    }

    /// Deletes the first character named `name` and asks for the rest to be
    /// saved.
    fn delete_character_named(&mut self, name: String)
        ensures
            match find_named(old(self).characters@, name@) {
                Some(i) => final(self).screen() == print(
                    Screen {
                        characters: old(self).characters@.remove(i),
                        pending: Some(PendingAction::SaveCharacters),
                        ..old(self).screen()
                    },
                    seq!["🗑️  Deleted character '"@ + old(self).characters@[i].name@ + "'"@],
                ),
                None => final(self).screen() == print(old(self).screen(), seq![character_not_found(name@)]),
            },
            final(self).command_history == old(self).command_history,
            final(self).history_index == old(self).history_index,
    {
        match find_character(&self.characters, name.as_str()) {
            Some(i) => {
                let ghost before = self.screen();
                let removed = self.characters.remove(i);
                self.pending = Some(PendingAction::SaveCharacters);
                let ghost mid = self.screen();
                assert(mid == (Screen {
                    characters: before.characters.remove(i as int),
                    pending: Some(PendingAction::SaveCharacters),
                    ..before
                }));
                let mut line = String::from_str("🗑️  Deleted character '");
                line.append(removed.name.as_str());
                line.append("'");
                self.add_output(line);
            },
            None => {
                self.add_output(character_missing(name.as_str()));
            },
        }
    }

    fn process_character_deletion_command(&mut self, command: String)
        ensures
            deletion_effect(old(self).screen(), command@, final(self).screen()),
            final(self).command_history == old(self).command_history,
            final(self).history_index == old(self).history_index,
    {
        let (parts, w) = parse_command(command.as_str());
        if str_eq(w.as_str(), "help") || str_eq(w.as_str(), "h") {
            self.emit(deletion_help_lines());
        } else if str_eq(w.as_str(), "list") {
            let mut lines: Vec<String> = Vec::new();
            push_line(&mut lines, String::from_str("📋 Characters available for deletion:"));
            push_all(&mut lines, name_list_lines(&self.characters));
            self.emit(lines);
        } else if str_eq(w.as_str(), "delete") {
            if parts.len() >= 2 {
                let name = join_from(&parts, 1, " ");
                proof {
                    lemma_space();
                }
                assert(name@ == words_after(command@, 1));
                self.delete_character_named(name);
            } else {
                self.add_output(String::from_str("Usage: delete <character_name>"));
            }
        } else if str_eq(w.as_str(), "back") || str_eq(w.as_str(), "exit") {
            self.leave_to(AppMode::CharactersMenu);
        } else {
            self.add_output(unknown_command(&w));
        }
    }

    fn process_initiative_command(&mut self, command: String)
        ensures
            initiative_effect(old(self).screen(), command@, final(self).screen()),
            final(self).command_history == old(self).command_history,
            final(self).history_index == old(self).history_index,
    {
        let (parts, w) = parse_command(command.as_str());
        if str_eq(w.as_str(), "help") || str_eq(w.as_str(), "h") {
            self.emit(initiative_help_lines());
        } else if str_eq(w.as_str(), "roll") {
            if parts.len() >= 2 {
                let name = join_from(&parts, 1, " ");
                proof {
                    lemma_space();
                }
                assert(name@ == words_after(command@, 1));
                let (r, crit) = roll_d20();
                let mut line = String::from_str("🎲 ");
                line.append(name.as_str());
                line.append(" rolled initiative: ");
                push_decimal(&mut line, r as u64);
                line.append(" (d20: ");
                push_decimal(&mut line, r as u64);
                line.append(")");
                let mut lines: Vec<String> = Vec::new();
                push_line(&mut lines, line);
                push_all(&mut lines, crit);
                let ghost a = self.screen();
                self.emit(lines);
                assert(initiative_shown(a, name@, r, self.screen()));
            } else {
                self.add_output(String::from_str("Usage: roll <name>"));
            }
        } else if str_eq(w.as_str(), "list") {
            self.add_output(String::from_str("📋 Initiative Order: (Feature coming soon)"));
        } else if str_eq(w.as_str(), "clear") {
            self.add_output(String::from_str("🧹 Cleared all initiative rolls"));
        } else if str_eq(w.as_str(), "back") || str_eq(w.as_str(), "exit") {
            self.leave_to(AppMode::ToolsMenu);
        } else {
            self.add_output(unknown_command(&w));
        }
    }

    fn process_npc_generator_command(&mut self, command: String)
        ensures
            npc_effect(old(self).screen(), command@, final(self).screen()),
            final(self).command_history == old(self).command_history,
            final(self).history_index == old(self).history_index,
    {
        let (parts, w) = parse_command(command.as_str());
        if str_eq(w.as_str(), "help") || str_eq(w.as_str(), "h") {
            self.emit(npc_help_lines());
        } else if str_eq(w.as_str(), "random") {
            let race = get_random_race();
            let class = get_random_class();
            let (ac, hp, speed) = roll_npc_stats();
            let mut lines: Vec<String> = Vec::new();
            push_line(&mut lines, String::from_str("🎲 Generating random NPC..."));
            push_all(
                &mut lines,
                npc_card_lines("║            Generated NPC              ║", race.as_str(), class.as_str(), ac, hp, speed),
            );
            let ghost a = self.screen();
            self.emit(lines);
            assert(npc_shown(
                a,
                "🎲 Generating random NPC..."@,
                "║            Generated NPC              ║"@,
                race@,
                class@,
                ac,
                hp,
                speed,
                self.screen(),
            ));
        } else if str_eq(w.as_str(), "custom") {
            if parts.len() >= 3 {
                let race = &parts[1];
                let class = &parts[2];
                let (ac, hp, speed) = roll_npc_stats();
                let mut intro = String::from_str("🎲 Generating ");
                intro.append(race.as_str());
                intro.append(" ");
                intro.append(class.as_str());
                intro.append("...");
                let ghost intro_text = intro@;
                let mut lines: Vec<String> = Vec::new();
                push_line(&mut lines, intro);
                push_all(
                    &mut lines,
                    npc_card_lines("║          Generated Custom NPC         ║", race.as_str(), class.as_str(), ac, hp, speed),
                );
                let ghost a = self.screen();
                self.emit(lines);
                assert(views(parts@)[1] == race@ && views(parts@)[2] == class@);
                assert(npc_shown(
                    a,
                    intro_text,
                    "║          Generated Custom NPC         ║"@,
                    race@,
                    class@,
                    ac,
                    hp,
                    speed,
                    self.screen(),
                ));
            } else {
                self.emit(npc_custom_usage_lines());
            }
        } else if str_eq(w.as_str(), "races") {
            self.emit(npc_races_lines());
        } else if str_eq(w.as_str(), "classes") {
            self.emit(npc_classes_lines());
        } else if str_eq(w.as_str(), "back") || str_eq(w.as_str(), "exit") {
            self.leave_to(AppMode::ToolsMenu);
        } else {
            self.add_output(unknown_command(&w));
        }
    }

    fn process_encounter_randomizer_command(&mut self, command: String)
        ensures
            encounter_effect(old(self).screen(), command@, final(self).screen()),
            final(self).command_history == old(self).command_history,
            final(self).history_index == old(self).history_index,
    {
        let (parts, w) = parse_command(command.as_str());
        if str_eq(w.as_str(), "help") || str_eq(w.as_str(), "h") {
            self.emit(encounter_help_lines());
        } else if str_eq(w.as_str(), "generate") || str_eq(w.as_str(), "gen") {
            if parts.len() >= 2 {
                let creatures: usize = if parts.len() >= 3 {
                    match parse_usize(parts[2].as_str()) {
                        Some(n) => if n < 1 {
                            1
                        } else if n > 8 {
                            8
                        } else {
                            n
                        },
                        None => 1,
                    }
                } else {
                    1
                };
                assert(views(parts@)[1] == parts@[1]@);
                if parts.len() >= 3 {
                    assert(views(parts@)[2] == parts@[2]@);
                }
                self.pending = Some(PendingAction::GenerateEncounter { challenge: parts[1].clone(), creatures });
            } else {
                self.emit(encounter_generate_usage_lines());
            }
        } else if str_eq(w.as_str(), "cr") {
            if parts.len() >= 2 {
                assert(views(parts@)[1] == parts@[1]@);
                self.pending = Some(PendingAction::SetChallengeRating { challenge: parts[1].clone() });
            } else {
                self.emit(encounter_cr_usage_lines());
            }
        } else if str_eq(w.as_str(), "examples") || str_eq(w.as_str(), "ex") {
            self.emit(encounter_examples_lines());
        } else if str_eq(w.as_str(), "back") || str_eq(w.as_str(), "exit") {
            self.leave_to(AppMode::ToolsMenu);
        } else {
            self.add_output(unknown_command(&w));
        }
    }

    fn process_dice_command(&mut self, command: String)
        ensures
            dice_effect(old(self).screen(), command@, final(self).screen()),
            final(self).command_history == old(self).command_history,
            final(self).history_index == old(self).history_index,
    {
        let (parts, w) = parse_command(command.as_str());
        if str_eq(w.as_str(), "help") || str_eq(w.as_str(), "h") {
            self.emit(dice_help_lines());
        } else if str_eq(w.as_str(), "roll") {
            if parts.len() >= 2 {
                let expr = join_from(&parts, 1, "");
                proof {
                    reveal_strlit("");
                    assert(""@ =~= Seq::<char>::empty());
                }
                let lines = roll_display(expr.as_str());
                self.emit(lines);
            } else {
                self.emit(dice_roll_usage_lines());
            }
        } else if str_eq(w.as_str(), "advantage") {
            let mut lines: Vec<String> = Vec::new();
            push_line(&mut lines, String::from_str("🎲 Rolling with advantage (2d20, keep higher):"));
            let shown = roll_display("2d20");
            let ghost middle = views(shown@);
            push_all(&mut lines, shown);
            push_line(&mut lines, String::from_str("📈 Use the HIGHER roll for advantage!"));
            self.emit(lines);
            assert(dice_outcome("2d20"@, middle));
        } else if str_eq(w.as_str(), "disadvantage") {
            let mut lines: Vec<String> = Vec::new();
            push_line(&mut lines, String::from_str("🎲 Rolling with disadvantage (2d20, keep lower):"));
            let shown = roll_display("2d20");
            let ghost middle = views(shown@);
            push_all(&mut lines, shown);
            push_line(&mut lines, String::from_str("📉 Use the LOWER roll for disadvantage!"));
            self.emit(lines);
            assert(dice_outcome("2d20"@, middle));
        } else if str_eq(w.as_str(), "stats") {
            let ghost a = self.screen();
            let (lines, q) = ability_rolls();
            self.emit(lines);
            assert(stats_shown(a, q@, self.screen()));
        } else if str_eq(w.as_str(), "back") || str_eq(w.as_str(), "exit") {
            self.leave_to(AppMode::ToolsMenu);
        } else {
            let lines = roll_display(command.as_str());
            self.emit(lines);
        }
    }

    fn process_search_command(&mut self, command: String)
        ensures
            search_effect(old(self).screen(), command@, final(self).screen()),
            final(self).command_history == old(self).command_history,
            final(self).history_index == old(self).history_index,
    {
        let (parts, w) = parse_command(command.as_str());
        if parts.len() == 0 {
            return;
        }
        if str_eq(w.as_str(), "help") || str_eq(w.as_str(), "h") {
            self.emit(search_help_lines());
        } else if str_eq(w.as_str(), "search") {
            if parts.len() >= 2 {
                let query = join_from(&parts, 1, " ");
                proof {
                    lemma_space();
                }
                assert(query@ == words_after(command@, 1));
                self.start_search(query, false);
            } else {
                self.add_output(String::from_str("Usage: search <query> or search <category> <query>"));
            }
        } else if str_eq(w.as_str(), "categories") {
            self.emit(search_categories_lines());
        } else if str_eq(w.as_str(), "back") || str_eq(w.as_str(), "exit") || str_eq(w.as_str(), "quit") {
            self.add_output(String::from_str("Returning to tools menu..."));
            self.mode = AppMode::ToolsMenu;
            self.selected_index = 0;
            self.input_buffer = String::new();
            self.output_history = Vec::new();
            self.scroll_offset = 0;
            assert(views(self.output_history@) =~= Seq::<Seq<char>>::empty());
        } else {
            self.start_search(command, false);
        }
    }

    /// Shows that a search for `query` began and leaves it as pending work.
    pub(crate) fn start_search(&mut self, query: String, in_combat: bool)
        ensures
            searching(old(self).screen(), query@, in_combat, final(self).screen()),
            final(self).input_buffer@ == old(self).input_buffer@,
            final(self).command_history == old(self).command_history,
            final(self).history_index == old(self).history_index,
    {
        let mut line = String::from_str("🔍 Searching for '");
        line.append(query.as_str());
        line.append("'...");
        self.add_output(line);
        self.pending = Some(PendingAction::Search { query, in_combat });
    }
}

/// `" "` is the one-space text.
pub(crate) proof fn lemma_space()
    ensures
        " "@ == seq![' '],
{
    reveal_strlit(" ");
    assert(" "@ =~= seq![' ']);
}

/// The words of a command and its first word in lower case.
pub(crate) fn parse_command(command: &str) -> (res: (Vec<String>, String))
    ensures
        views(res.0@) == words(command@),
        res.1@ == command_word(command@),
{
    let parts = split_words(command);
    let w = if parts.len() == 0 {
        String::new()
    } else {
        to_lowercase(parts[0].as_str())
    };
    assert(views(parts@).len() == parts@.len());
    if parts.len() > 0 {
        assert(views(parts@)[0] == parts@[0]@);
    }
    (parts, w)
}

fn unknown_command(w: &String) -> (res: String)
    ensures
        res@ == unknown_line(w@),
{
    let mut s = String::from_str("Unknown command '");
    s.append(w.as_str());
    s.append("'. Type 'help' for commands.");
    s
}

fn character_missing(name: &str) -> (res: String)
    ensures
        res@ == character_not_found(name@),
{
    let mut s = String::from_str("❌ Character '");
    s.append(name);
    s.append("' not found");
    s
}

/// A match found in a prefix is the first match of the whole list.
proof fn lemma_find_prefix(s: Seq<Character>, n: Seq<char>, k: int)
    requires
        0 <= k <= s.len(),
        find_named(s.take(k), n) is Some,
    ensures
        find_named(s, n) == find_named(s.take(k), n),
    decreases s.len() - k,
{
    if k == s.len() {
        assert(s.take(k) =~= s);
    } else {
        assert(s.take(k + 1).drop_last() =~= s.take(k));
        lemma_find_prefix(s, n, k + 1);
    }
}

/// A match lies inside the list.
proof fn lemma_find_bound(s: Seq<Character>, n: Seq<char>)
    ensures
        find_named(s, n) matches Some(i) ==> 0 <= i < s.len(),
    decreases s.len(),
{
    if s.len() > 0 {
        lemma_find_bound(s.drop_last(), n);
    }
}

/// The position of the first character named `name` (ignoring ASCII case).
fn find_character(chars: &Vec<Character>, name: &str) -> (res: Option<usize>)
    ensures
        match find_named(chars@, name@) {
            Some(i) => res == Some(i as usize),
            None => res is None,
        },
        res matches Some(i) ==> i < chars@.len() && find_named(chars@, name@) == Some(i as int),
{
    proof {
        lemma_find_bound(chars@, name@);
    }
    let mut i: usize = 0;
    assert(chars@.take(0) =~= Seq::<Character>::empty());
    while i < chars.len()
        invariant
            i <= chars@.len(),
            find_named(chars@.take(i as int), name@) is None,
        decreases chars@.len() - i,
    {
        assert(chars@.take(i + 1).drop_last() =~= chars@.take(i as int));
        assert(chars@.take(i + 1).last() == chars@[i as int]);
        if str_eq_ignore_ascii_case(chars[i].name.as_str(), name) {
            proof {
                lemma_find_prefix(chars@, name@, i + 1);
            }
            return Some(i);
        }
        i = i + 1;
    }
    assert(chars@.take(chars@.len() as int) =~= chars@);
    None
}

fn roster_lines(chars: &Vec<Character>) -> (res: Vec<String>)
    ensures
        views(res@) == roster(chars@),
{
    let mut out: Vec<String> = Vec::new();
    if chars.len() == 0 {
        push_line(&mut out, String::from_str("  No characters found."));
        return out;
    }
    let mut i: usize = 0;
    while i < chars.len()
        invariant
            i <= chars@.len(),
            views(out@) == Seq::new(i as nat, |k: int| roster_line(k, chars@[k])),
        decreases chars@.len() - i,
    {
        let c = &chars[i];
        let mut s = String::from_str("  ");
        push_decimal(&mut s, (i + 1) as u64);
        s.append(". ");
        s.append(c.name.as_str());
        s.append(" (Level ");
        let level: u8 = match c.level {
            Some(l) => l,
            None => 1,
        };
        push_decimal(&mut s, level as u64);
        s.append(", ");
        match &c.class {
            Some(cl) => s.append(cl.as_str()),
            None => s.append("Unknown"),
        }
        s.append(")");
        push_line(&mut out, s);
        assert(views(out@) =~= Seq::new((i + 1) as nat, |k: int| roster_line(k, chars@[k])));
        i = i + 1;
    }
    out
}

fn name_list_lines(chars: &Vec<Character>) -> (res: Vec<String>)
    ensures
        views(res@) == name_list(chars@),
{
    let mut out: Vec<String> = Vec::new();
    if chars.len() == 0 {
        push_line(&mut out, String::from_str("  No characters found."));
        return out;
    }
    let mut i: usize = 0;
    while i < chars.len()
        invariant
            i <= chars@.len(),
            views(out@) == Seq::new(i as nat, |k: int| "  "@ + decimal((k + 1) as nat) + ". "@ + chars@[k].name@),
        decreases chars@.len() - i,
    {
        let mut s = String::from_str("  ");
        push_decimal(&mut s, (i + 1) as u64);
        s.append(". ");
        s.append(chars[i].name.as_str());
        push_line(&mut out, s);
        assert(views(out@) =~= Seq::new(
            (i + 1) as nat,
            |k: int| "  "@ + decimal((k + 1) as nat) + ". "@ + chars@[k].name@,
        ));
        i = i + 1;
    }
    out
}

fn push_num_line(v: &mut Vec<String>, label: &str, o: Option<u8>)
    ensures
        views(final(v)@) == views(old(v)@) + num_line(label@, o),
{
    match o {
        Some(x) => {
            let mut s = String::from_str(label);
            push_decimal(&mut s, x as u64);
            push_line(v, s);
        },
        None => {
            assert(views(v@) + Seq::<Seq<char>>::empty() =~= views(v@));
        },
    }
}

fn push_text_line(v: &mut Vec<String>, label: &str, o: &Option<String>)
    ensures
        views(final(v)@) == views(old(v)@) + text_line(label@, *o),
{
    match o {
        Some(t) => {
            let mut s = String::from_str(label);
            s.append(t.as_str());
            push_line(v, s);
        },
        None => {
            assert(views(v@) + Seq::<Seq<char>>::empty() =~= views(v@));
        },
    }
}

fn push_score_line(v: &mut Vec<String>, label: &str, o: Option<u8>, m: i8)
    ensures
        views(final(v)@) == views(old(v)@) + score_line(label@, o, m as int),
{
    match o {
        Some(x) => {
            let mut s = String::from_str(label);
            push_decimal(&mut s, x as u64);
            s.append(" (");
            push_signed_decimal(&mut s, m as i64);
            s.append(")");
            push_line(v, s);
        },
        None => {
            assert(views(v@) + Seq::<Seq<char>>::empty() =~= views(v@));
        },
    }
}

fn details_lines(c: &Character) -> (res: Vec<String>)
    ensures
        views(res@) == details(*c),
{
    reveal(details);
    let mut v: Vec<String> = Vec::new();
    let mut first = String::from_str("📋 Character Details: ");
    first.append(c.name.as_str());
    push_line(&mut v, first);
    push_line(&mut v, String::from_str(""));
    assert(views(v@) =~= seq!["📋 Character Details: "@ + c.name@, ""@]);
    push_num_line(&mut v, "Level: ", c.level);
    push_text_line(&mut v, "Class: ", &c.class);
    push_text_line(&mut v, "Race: ", &c.race);
    let ghost before = views(v@);
    push_line(&mut v, String::from_str(""));
    push_line(&mut v, String::from_str("Ability Scores:"));
    assert(views(v@) =~= before + seq![""@, "Ability Scores:"@]);
    push_score_line(&mut v, "  Strength: ", c.stre, c.get_strength_modifier());
    push_score_line(&mut v, "  Dexterity: ", c.dext, c.get_dexterity_modifier());
    push_score_line(&mut v, "  Constitution: ", c.cons, c.get_constitution_modifier());
    push_score_line(&mut v, "  Intelligence: ", c.intl, c.get_intelligence_modifier());
    push_score_line(&mut v, "  Wisdom: ", c.wisd, c.get_wisdom_modifier());
    push_score_line(&mut v, "  Charisma: ", c.chas, c.get_charisma_modifier());
    push_line(&mut v, String::from_str(""));
    let ghost before_hp = views(v@);
    match (c.hp, c.ac) {
        (Some(hp), Some(ac)) => {
            let mut s = String::from_str("HP: ");
            push_decimal(&mut s, hp as u64);
            s.append(", AC: ");
            push_decimal(&mut s, ac as u64);
            push_line(&mut v, s);
        },
        _ => {
            assert(views(v@) + Seq::<Seq<char>>::empty() =~= views(v@));
        },
    }
    let ghost before_speed = views(v@);
    match c.speed {
        Some(sp) => {
            let mut s = String::from_str("Speed: ");
            push_decimal(&mut s, sp as u64);
            s.append(" ft");
            push_line(&mut v, s);
        },
        None => {
            assert(views(v@) + Seq::<Seq<char>>::empty() =~= views(v@));
        },
    }
    v
}

/// Rolls a d20: the value shown and the critical-result line, if any.
pub(crate) fn roll_d20() -> (res: (u8, Vec<String>))
    ensures
        1 <= res.0 <= 20,
        views(res.1@) == d20_crit(res.0),
{
    proof {
        lemma_d20();
    }
    match roll_dice_with_crits("1d20") {
        Ok((rolls, _total, crit)) => {
            let r = rolls[0];
            let mut v: Vec<String> = Vec::new();
            match crit {
                Some(m) => push_line(&mut v, m),
                None => {},
            }
            assert(views(v@) =~= d20_crit(r));
            (r, v)
        },
        Err(_) => {
            assert(false);
            (1, Vec::new())
        },
    }
}

/// The armour class, hit points and speed that three drawn bytes give:
/// armour class `a % 11 + 10`, hit points `h % 41 + 10` and speed
/// `(s % 7 + 2) * 10`.
pub open spec fn stats_from_draws(a: u8, h: u8, s: u8) -> (u8, u8, u8) {
    ((a % 11 + 10) as u8, (h % 41 + 10) as u8, ((s % 7 + 2) * 10) as u8)
}

/// Statistics that some three drawn bytes give (see `stats_from_draws`).
pub open spec fn npc_stats_drawn(ac: u8, hp: u8, speed: u8) -> bool {
    exists|a: u8, h: u8, s: u8| #[trigger] stats_from_draws(a, h, s) == (ac, hp, speed)
}

/// An NPC's armour class, hit points and speed from three drawn bytes (see
/// `stats_from_draws`).
pub fn npc_stats_from(a: u8, h: u8, s: u8) -> (res: (u8, u8, u8))
    ensures
        res == stats_from_draws(a, h, s),
        npc_stats(res.0, res.1, res.2),
{
    (a % 11 + 10, h % 41 + 10, (s % 7 + 2) * 10)
}

/// Rolls an NPC's armour class, hit points and speed: three random bytes
/// taken by `npc_stats_from`.
pub(crate) fn roll_npc_stats() -> (res: (u8, u8, u8))
    ensures
        npc_stats_drawn(res.0, res.1, res.2),
        npc_stats(res.0, res.1, res.2),
{
    let a = random_byte();
    let h = random_byte();
    let s = random_byte();
    let res = npc_stats_from(a, h, s);
    assert(stats_from_draws(a, h, s) == (res.0, res.1, res.2));
    res
}

pub(crate) fn boxed(left: &str, middle: &str, w: usize, right: &str) -> (res: String)
    ensures
        res@ == left@ + pad(middle@, w as nat) + right@,
{
    let mut s = String::from_str(left);
    let p = padded(middle, w);
    s.append(p.as_str());
    s.append(right);
    s
}

fn npc_card_lines(title: &str, race: &str, class: &str, ac: u8, hp: u8, speed: u8) -> (res: Vec<String>)
    ensures
        views(res@) == npc_card(title@, race@, class@, ac, hp, speed),
{
    let mut v: Vec<String> = Vec::new();
    v.push(String::from_str(""));
    v.push(String::from_str("╔═══════════════════════════════════════╗"));
    v.push(String::from_str(title));
    v.push(String::from_str("╠═══════════════════════════════════════╣"));
    v.push(boxed("║ Race: ", race, 31, " ║"));
    v.push(boxed("║ Class: ", class, 30, " ║"));
    let ac_text = crate::text::decimal_string(ac as u64);
    v.push(boxed("║ AC: ", ac_text.as_str(), 33, " ║"));
    let hp_text = crate::text::decimal_string(hp as u64);
    v.push(boxed("║ HP: ", hp_text.as_str(), 33, " ║"));
    let mut speed_line = String::from_str("║ Speed: ");
    push_decimal(&mut speed_line, speed as u64);
    speed_line.append(" feet");
    let gap = padded("", 21);
    speed_line.append(gap.as_str());
    speed_line.append(" ║");
    v.push(speed_line);
    v.push(String::from_str("╚═══════════════════════════════════════╝"));
    proof {
        reveal_strlit("");
        assert(""@ =~= Seq::<char>::empty());
    }
    assert(views(v@) =~= npc_card(title@, race@, class@, ac, hp, speed));
    v
}

/// The rolls as `Debug` shows a list.
pub(crate) fn list_text_of(rolls: &Vec<u8>) -> (res: String)
    ensures
        res@ == list_text(rolls@),
{
    let ghost ds = rolls@.map_values(|r: u8| decimal(r as nat));
    let mut inner = String::new();
    let mut i: usize = 0;
    while i < rolls.len()
        invariant
            i <= rolls@.len(),
            ds == rolls@.map_values(|r: u8| decimal(r as nat)),
            inner@ == join_with(ds.take(i as int), ", "@),
        decreases rolls@.len() - i,
    {
        assert(ds.take(i + 1).drop_last() =~= ds.take(i as int));
        if i > 0 {
            inner.append(", ");
        }
        push_decimal(&mut inner, rolls[i] as u64);
        if i == 0 {
            assert(ds.take(1).len() == 1);
        }
        i = i + 1;
    }
    assert(ds.take(rolls@.len() as int) =~= ds);
    let mut s = String::from_str("[");
    s.append(inner.as_str());
    s.append("]");
    s
}

fn roll_box_lines(expr: &str, rolls: &Vec<u8>, total: u32, crit: Option<String>) -> (res: Vec<String>)
    ensures
        views(res@) == roll_box(expr@, rolls@, total as int, opt_view(crit)),
{
    let mut v: Vec<String> = Vec::new();
    v.push(String::from_str(""));
    v.push(String::from_str("┌─────────────────────────────────┐"));
    v.push(String::from_str("│         🎲 DICE ROLL! 🎲         │"));
    v.push(String::from_str("├─────────────────────────────────┤"));
    v.push(boxed("│ Expression: ", expr, 19, " │"));
    let listed = list_text_of(rolls);
    v.push(boxed("│ Individual Rolls: ", listed.as_str(), 13, " │"));
    let total_text = crate::text::decimal_string(total as u64);
    v.push(boxed("│ TOTAL: ", total_text.as_str(), 23, " │"));
    let ghost head = views(v@);
    assert(head =~= seq![
        ""@,
        "┌─────────────────────────────────┐"@,
        "│         🎲 DICE ROLL! 🎲         │"@,
        "├─────────────────────────────────┤"@,
        "│ Expression: "@ + pad(expr@, 19) + " │"@,
        "│ Individual Rolls: "@ + pad(list_text(rolls@), 13) + " │"@,
        "│ TOTAL: "@ + pad(decimal(total as nat), 23) + " │"@,
    ]);
    match crit {
        Some(m) => {
            push_line(&mut v, String::from_str("├─────────────────────────────────┤"));
            push_line(&mut v, boxed("│ ", m.as_str(), 31, " │"));
            assert(views(v@) =~= head + seq!["├─────────────────────────────────┤"@, "│ "@ + pad(m@, 31) + " │"@]);
        },
        None => {
            assert(views(v@) =~= head + Seq::<Seq<char>>::empty());
        },
    }
    let ghost mid = views(v@);
    push_line(&mut v, String::from_str("└─────────────────────────────────┘"));
    push_line(&mut v, String::from_str(""));
    assert(views(v@) =~= mid + seq!["└─────────────────────────────────┘"@, ""@]);
    v
}

/// Rolls a dice expression and gives the lines that show the outcome.
fn roll_display(expr: &str) -> (res: Vec<String>)
    ensures
        dice_outcome(expr@, views(res@)),
{
    let mut v: Vec<String> = Vec::new();
    if !dice_fits(expr) {
        v.push(String::from_str("❌ Error rolling dice: Dice expression out of range"));
        v.push(String::from_str("💡 Try format like: 1d20, 2d6+3, 4d8"));
        assert(views(v@) =~= seq![
            "❌ Error rolling dice: Dice expression out of range"@,
            "💡 Try format like: 1d20, 2d6+3, 4d8"@,
        ]);
        return v;
    }
    match roll_dice_with_crits(expr) {
        Ok((rolls, total, crit)) => {
            let ghost crit_view = opt_view(crit);
            let lines = roll_box_lines(expr, &rolls, total, crit);
            proof {
                match dice_request(expr@) {
                    Ok((n, sd)) => {
                        assert(crit_view == crit_text(expr@, rolls@));
                        assert(roll_shown(expr@, n, sd, rolls@, views(lines@)));
                    },
                    Err(_) => {},
                }
            }
            lines
        },
        Err(e) => {
            let mut first = String::from_str("❌ Error rolling dice: ");
            first.append(e.as_str());
            v.push(first);
            v.push(String::from_str("💡 Try format like: 1d20, 2d6+3, 4d8"));
            assert(views(v@) =~= seq!["❌ Error rolling dice: "@ + e@, "💡 Try format like: 1d20, 2d6+3, 4d8"@]);
            v
        },
    }
}

/// Four values sorted highest first.
fn sort4_desc(a: u8, b: u8, c: u8, d: u8) -> (res: (u8, u8, u8, u8))
    requires
        1 <= a <= 6,
        1 <= b <= 6,
        1 <= c <= 6,
        1 <= d <= 6,
    ensures
        sorted_d6(res),
{
    let (mut w, mut x, mut y, mut z) = (a, b, c, d);
    if w < x {
        let t = w;
        w = x;
        x = t;
    }
    if y < z {
        let t = y;
        y = z;
        z = t;
    }
    if w < y {
        let t = w;
        w = y;
        y = t;
    }
    if x < z {
        let t = x;
        x = z;
        z = t;
    }
    if x < y {
        let t = x;
        x = y;
        y = t;
    }
    (w, x, y, z)
}

/// Rolls the six ability scores as 4d6 each, keeping the highest three: the
/// lines to show and the sorted dice of each score.
fn ability_rolls() -> (res: (Vec<String>, Ghost<Seq<(u8, u8, u8, u8)>>))
    ensures
        res.1@.len() == 6,
        forall|i: int| 0 <= i < 6 ==> sorted_d6(#[trigger] res.1@[i]),
        views(res.0@) == seq!["🎲 Rolling ability scores (4d6, drop lowest):"@, ""@] + Seq::new(
            6,
            |i: int| ability_roll_line(ability_names()[i], res.1@[i]),
        ),
{
    let names: [&str; 6] = ["Strength", "Dexterity", "Constitution", "Intelligence", "Wisdom", "Charisma"];
    let mut v: Vec<String> = Vec::new();
    v.push(String::from_str("🎲 Rolling ability scores (4d6, drop lowest):"));
    v.push(String::from_str(""));
    let ghost mut q: Seq<(u8, u8, u8, u8)> = seq![];
    let mut k: usize = 0;
    assert(names@.map_values(|s: &str| s@) =~= ability_names());
    while k < 6
        invariant
            k <= 6,
            names@.map_values(|s: &str| s@) == ability_names(),
            q.len() == k,
            forall|i: int| 0 <= i < k ==> sorted_d6(#[trigger] q[i]),
            views(v@) == seq!["🎲 Rolling ability scores (4d6, drop lowest):"@, ""@] + Seq::new(
                k as nat,
                |i: int| ability_roll_line(ability_names()[i], q[i]),
            ),
        decreases 6 - k,
    {
        let r1 = roll_from(random_byte(), 6);
        let r2 = roll_from(random_byte(), 6);
        let r3 = roll_from(random_byte(), 6);
        let r4 = roll_from(random_byte(), 6);
        let d = sort4_desc(r1, r2, r3, r4);
        let total: u8 = d.0 + d.1 + d.2;
        let mut s = String::from_str("  ");
        s.append(names[k]);
        s.append(": ");
        push_decimal(&mut s, total as u64);
        s.append(" (rolled: [");
        push_decimal(&mut s, d.0 as u64);
        s.append(", ");
        push_decimal(&mut s, d.1 as u64);
        s.append(", ");
        push_decimal(&mut s, d.2 as u64);
        s.append(", ");
        push_decimal(&mut s, d.3 as u64);
        s.append("], dropped: ");
        push_decimal(&mut s, d.3 as u64);
        s.append(")");
        assert(names@[k as int]@ == ability_names()[k as int]);
        let ghost before = views(v@);
        push_line(&mut v, s);
        proof {
            q = q.push(d);
        }
        assert(views(v@) =~= seq!["🎲 Rolling ability scores (4d6, drop lowest):"@, ""@] + Seq::new(
            (k + 1) as nat,
            |i: int| ability_roll_line(ability_names()[i], q[i]),
        ));
        k = k + 1;
    }
    (v, Ghost(q))
}

/// The selection after `Up` in a menu of `n` entries: the entry before,
/// the last one after the first.
pub open spec fn previous_index(i: usize, n: nat) -> usize {
    if n > 0 {
        ((i + n - 1) % (n as int)) as usize
    } else {
        i
    }
}

/// The selection after `Down` in a menu of `n` entries: the entry after,
/// the first one after the last.
pub open spec fn next_index(i: usize, n: nat) -> usize {
    if n > 0 {
        ((i + 1) % (n as int)) as usize
    } else {
        i
    }
}

/// Law: the selection steps that moving to the next and to the previous
/// menu entry take (`next_item` and `previous_item` set the selection to
/// these and change nothing else) undo each other: in a menu of `n` entries
/// the next entry after `i` is `(i + 1) % n`, stepping back from it returns
/// to `i`, and both stay below `n`; in a screen without entries neither
/// moves the selection. (A menu's length fits in `usize`.)
pub proof fn law_next_then_previous_index(i: usize, n: nat)
    requires
        n <= usize::MAX,
    ensures
        n == 0 ==> next_index(i, n) == i && previous_index(i, n) == i,
        i < n ==> {
            &&& next_index(i, n) == (i + 1) % (n as int)
            &&& next_index(i, n) < n
            &&& previous_index(i, n) < n
            &&& previous_index(next_index(i, n), n) == i
            &&& next_index(previous_index(i, n), n) == i
        },
{
    if i < n {
        let ni = i as int;
        let nn = n as int;
        if ni + 1 < nn {
            lemma_small_mod((ni + 1) as nat, n);
            vstd::arithmetic::div_mod::lemma_mod_add_multiples_vanish(ni, nn);
            lemma_small_mod(ni as nat, n);
        } else {
            vstd::arithmetic::div_mod::lemma_mod_self_0(nn);
            lemma_small_mod((nn - 1) as nat, n);
        }
        if ni > 0 {
            vstd::arithmetic::div_mod::lemma_mod_add_multiples_vanish(ni - 1, nn);
            lemma_small_mod((ni - 1) as nat, n);
            lemma_small_mod(ni as nat, n);
        } else {
            lemma_small_mod((nn - 1) as nat, n);
            vstd::arithmetic::div_mod::lemma_mod_self_0(nn);
        }
    }
}

/// Law: on a menu, `Down` then `Up` (or `Up` then `Down`) returns to the
/// entry that was selected, and each key keeps the selection within the
/// menu and changes nothing else; on a screen without entries both keys
/// change nothing.
pub proof fn law_down_then_up_returns(s: Screen)
    ensures
        menu_items(s.mode).len() == 0 ==> menu_key(s, Key::Down) == s && menu_key(s, Key::Up) == s,
        s.selected_index < menu_items(s.mode).len() ==> {
            &&& menu_key(s, Key::Down).selected_index < menu_items(s.mode).len()
            &&& menu_key(s, Key::Up).selected_index < menu_items(s.mode).len()
            &&& menu_key(s, Key::Down) == Screen { selected_index: menu_key(s, Key::Down).selected_index, ..s }
            &&& menu_key(s, Key::Up) == Screen { selected_index: menu_key(s, Key::Up).selected_index, ..s }
            &&& menu_key(menu_key(s, Key::Down), Key::Up) == s
            &&& menu_key(menu_key(s, Key::Up), Key::Down) == s
        },
{
    let n = menu_items(s.mode).len();
    let i = s.selected_index;
    if i < n {
        let ni = i as int;
        let nn = n as int;
        if ni + 1 < nn {
            lemma_small_mod((ni + 1) as nat, n);
            vstd::arithmetic::div_mod::lemma_mod_add_multiples_vanish(ni, nn);
            lemma_small_mod(ni as nat, n);
        } else {
            vstd::arithmetic::div_mod::lemma_mod_self_0(nn);
            lemma_small_mod((nn - 1) as nat, n);
        }
        if ni > 0 {
            vstd::arithmetic::div_mod::lemma_mod_add_multiples_vanish(ni - 1, nn);
            lemma_small_mod((ni - 1) as nat, n);
            lemma_small_mod(ni as nat, n);
        } else {
            lemma_small_mod((nn - 1) as nat, n);
            vstd::arithmetic::div_mod::lemma_mod_self_0(nn);
        }
    }
}

/// The screen after `Esc`.
pub open spec fn went_back(s: Screen) -> Screen {
    match back_target(s.mode) {
        Some((m, true)) => left(s, m),
        Some((m, false)) => Screen { mode: m, selected_index: 0, ..s },
        None => s,
    }
}

/// The screen after a key on a menu screen.
pub open spec fn menu_key(s: Screen, key: Key) -> Screen {
    match key {
        Key::Up => Screen { selected_index: previous_index(s.selected_index, menu_items(s.mode).len()), ..s },
        Key::Down => Screen { selected_index: next_index(s.selected_index, menu_items(s.mode).len()), ..s },
        Key::Enter => chosen(s),
        Key::Esc => went_back(s),
        Key::Char(c) => if c == 'q' || c == 'Q' {
            Screen { should_quit: true, ..s }
        } else {
            s
        },
        _ => s,
    }
}

/// What a key does in a tool's terminal, from state `a` to state `b`.
pub open spec fn terminal_key(a: App, key: Key, b: App) -> bool {
    let hist = a.command_history@;
    match key {
        Key::Enter => if trim(a.input_buffer@).len() == 0 {
            b.screen() == a.screen() && b.same_input(a)
        } else {
            &&& command_effect(a.screen(), trim(a.input_buffer@), b.screen())
            &&& b.command_history@.len() == hist.len() + 1
            &&& b.command_history@.drop_last() == hist
            &&& b.command_history@.last()@ == trim(a.input_buffer@)
            &&& b.history_index is None
            &&& b.input_buffer@.len() == 0
        },
        Key::Backspace => {
            &&& b.screen() == a.screen()
            &&& b.command_history == a.command_history
            &&& b.history_index == a.history_index
            &&& b.input_buffer@ == if a.input_buffer@.len() > 0 {
                a.input_buffer@.drop_last()
            } else {
                a.input_buffer@
            }
        },
        Key::Up => {
            &&& b.screen() == a.screen()
            &&& b.command_history == a.command_history
            &&& if hist.len() == 0 {
                b.same_input(a)
            } else {
                let j: int = match a.history_index {
                    Some(i) => if i > 0 { i - 1 } else { i as int },
                    None => hist.len() - 1,
                };
                b.history_index == Some(j as usize) && b.input_buffer == hist[j]
            }
        },
        Key::Down => {
            &&& b.screen() == a.screen()
            &&& b.command_history == a.command_history
            &&& match a.history_index {
                None => b.same_input(a),
                Some(i) => if i + 1 < hist.len() {
                    b.history_index == Some((i + 1) as usize) && b.input_buffer == hist[i + 1]
                } else {
                    b.history_index is None && b.input_buffer@.len() == 0
                },
            }
        },
        Key::PageUp => {
            &&& b.same_input(a)
            &&& b.screen() == (Screen {
                scroll_offset: if a.scroll_offset >= 5 { (a.scroll_offset - 5) as usize } else { 0 },
                ..a.screen()
            })
        },
        Key::PageDown => {
            &&& b.same_input(a)
            &&& b.screen() == (Screen {
                scroll_offset: if a.scroll_offset + 10 < a.output_history@.len() {
                    (a.scroll_offset + 5) as usize
                } else {
                    a.scroll_offset
                },
                ..a.screen()
            })
        },
        Key::Esc => {
            &&& b.screen() == went_back(a.screen())
            &&& b.input_buffer@.len() == 0
            &&& b.command_history == a.command_history
            &&& b.history_index == a.history_index
        },
        Key::Char(c) => {
            &&& b.screen() == a.screen()
            &&& b.input_buffer@ == a.input_buffer@.push(c)
            &&& b.command_history == a.command_history
            &&& b.history_index == a.history_index
        },
        Key::Other => b.screen() == a.screen() && b.same_input(a),
    }
}

/// What a command typed in the terminal of the current tool does.
pub open spec fn command_effect(a: Screen, cmd: Seq<char>, b: Screen) -> bool {
    match a.mode {
        AppMode::CombatTrackerTUI => combat_effect(a, cmd, b),
        AppMode::SearchTUI => search_effect(a, cmd, b),
        AppMode::CharacterCreationTUI => creation_effect(a, cmd, b),
        AppMode::CharacterDisplayTUI => display_effect(a, cmd, b),
        AppMode::CharacterDeletionTUI => deletion_effect(a, cmd, b),
        AppMode::InitiativeTrackerTUI => initiative_effect(a, cmd, b),
        AppMode::NpcGeneratorTUI => npc_effect(a, cmd, b),
        AppMode::EncounterRandomizerTUI => encounter_effect(a, cmd, b),
        AppMode::DiceTUI => dice_effect(a, cmd, b),
        _ => b == a,
    }
}

/// The position of the first character whose name equals `n` ignoring ASCII
/// case.
pub open spec fn find_named(s: Seq<Character>, n: Seq<char>) -> Option<int>
    decreases s.len(),
{
    if s.len() == 0 {
        None
    } else {
        match find_named(s.drop_last(), n) {
            Some(i) => Some(i),
            None => if eq_ignore_ascii_case(s.last().name@, n) {
                Some(s.len() - 1)
            } else {
                None
            },
        }
    }
}

/// A line `label value` for a present number, nothing for a missing one.
pub open spec fn num_line(label: Seq<char>, o: Option<u8>) -> Seq<Seq<char>> {
    match o {
        Some(v) => seq![label + decimal(v as nat)],
        None => seq![],
    }
}

/// A line `label text` for a present text, nothing for a missing one.
pub open spec fn text_line(label: Seq<char>, o: Option<String>) -> Seq<Seq<char>> {
    match o {
        Some(t) => seq![label + t@],
        None => seq![],
    }
}

/// A line `label score (modifier)` for a present ability score.
pub open spec fn score_line(label: Seq<char>, o: Option<u8>, m: int) -> Seq<Seq<char>> {
    match o {
        Some(v) => seq![label + decimal(v as nat) + " ("@ + signed_decimal(m) + ")"@],
        None => seq![],
    }
}

/// The detailed view of a character: name, level, class and race, the
/// ability scores present with their modifiers, hit points with armour class
/// when both are known, and speed.
#[verifier::opaque]
pub open spec fn details(c: Character) -> Seq<Seq<char>> {
    seq!["📋 Character Details: "@ + c.name@, ""@]
        + num_line("Level: "@, c.level)
        + text_line("Class: "@, c.class)
        + text_line("Race: "@, c.race)
        + seq![""@, "Ability Scores:"@]
        + score_line("  Strength: "@, c.stre, c.modifier_for(AbilityScore::Strength))
        + score_line("  Dexterity: "@, c.dext, c.modifier_for(AbilityScore::Dexterity))
        + score_line("  Constitution: "@, c.cons, c.modifier_for(AbilityScore::Constitution))
        + score_line("  Intelligence: "@, c.intl, c.modifier_for(AbilityScore::Intelligence))
        + score_line("  Wisdom: "@, c.wisd, c.modifier_for(AbilityScore::Wisdom))
        + score_line("  Charisma: "@, c.chas, c.modifier_for(AbilityScore::Charisma))
        + seq![""@]
        + (if c.hp is Some && c.ac is Some {
            seq!["HP: "@ + decimal(c.hp->0 as nat) + ", AC: "@ + decimal(c.ac->0 as nat)]
        } else {
            seq![]
        })
        + match c.speed {
            Some(v) => seq!["Speed: "@ + decimal(v as nat) + " ft"@],
            None => seq![],
        }
}

/// A character's line in the roster: number, name, level (1 when unknown)
/// and class (`Unknown` when missing).
pub open spec fn roster_line(i: int, c: Character) -> Seq<char> {
    "  "@ + decimal((i + 1) as nat) + ". "@ + c.name@ + " (Level "@ + decimal(
        match c.level {
            Some(l) => l as nat,
            None => 1,
        },
    ) + ", "@ + text_or(c.class, "Unknown"@) + ")"@
}

/// The roster of characters, or a note that there are none.
pub open spec fn roster(s: Seq<Character>) -> Seq<Seq<char>> {
    if s.len() == 0 {
        seq!["  No characters found."@]
    } else {
        Seq::new(s.len(), |i: int| roster_line(i, s[i]))
    }
}

/// The numbered names of the characters, or a note that there are none.
pub open spec fn name_list(s: Seq<Character>) -> Seq<Seq<char>> {
    if s.len() == 0 {
        seq!["  No characters found."@]
    } else {
        Seq::new(s.len(), |i: int| "  "@ + decimal((i + 1) as nat) + ". "@ + s[i].name@)
    }
}

/// The answer when no character has the name `n`.
pub open spec fn character_not_found(n: Seq<char>) -> Seq<char> {
    "❌ Character '"@ + n + "' not found"@
}

/// What a command does in the character creation terminal.
pub open spec fn creation_effect(a: Screen, cmd: Seq<char>, b: Screen) -> bool {
    let w = command_word(cmd);
    if w == "help"@ || w == "h"@ {
        b == print(a, creation_help())
    } else if w == "create"@ {
        b == print(a, creation_intro())
    } else if w == "back"@ || w == "exit"@ {
        b == left(a, AppMode::CharactersMenu)
    } else {
        b == print(a, seq![unknown_line(w)])
    }
}

/// What a command does in the character display terminal.
pub open spec fn display_effect(a: Screen, cmd: Seq<char>, b: Screen) -> bool {
    let w = command_word(cmd);
    if w == "help"@ || w == "h"@ {
        b == print(a, display_help())
    } else if w == "list"@ {
        b == print(a, seq!["📋 Available Characters:"@] + roster(a.characters))
    } else if w == "show"@ {
        if words(cmd).len() >= 2 {
            let n = words_after(cmd, 1);
            match find_named(a.characters, n) {
                Some(i) => b == print(a, details(a.characters[i])),
                None => b == print(a, seq![character_not_found(n)]),
            }
        } else {
            b == print(a, seq!["Usage: show <character_name>"@])
        }
    } else if w == "back"@ || w == "exit"@ {
        b == left(a, AppMode::CharactersMenu)
    } else {
        b == print(a, seq![unknown_line(w)])
    }
}

/// What a command does in the character deletion terminal. Deleting asks
/// for the remaining characters to be saved.
pub open spec fn deletion_effect(a: Screen, cmd: Seq<char>, b: Screen) -> bool {
    let w = command_word(cmd);
    if w == "help"@ || w == "h"@ {
        b == print(a, deletion_help())
    } else if w == "list"@ {
        b == print(a, seq!["📋 Characters available for deletion:"@] + name_list(a.characters))
    } else if w == "delete"@ {
        if words(cmd).len() >= 2 {
            let n = words_after(cmd, 1);
            match find_named(a.characters, n) {
                Some(i) => b == print(
                    Screen {
                        characters: a.characters.remove(i),
                        pending: Some(PendingAction::SaveCharacters),
                        ..a
                    },
                    seq!["🗑️  Deleted character '"@ + a.characters[i].name@ + "'"@],
                ),
                None => b == print(a, seq![character_not_found(n)]),
            }
        } else {
            b == print(a, seq!["Usage: delete <character_name>"@])
        }
    } else if w == "back"@ || w == "exit"@ {
        b == left(a, AppMode::CharactersMenu)
    } else {
        b == print(a, seq![unknown_line(w)])
    }
}

/// The critical-result line for a d20 showing `r`, if any.
pub open spec fn d20_crit(r: u8) -> Seq<Seq<char>> {
    if r == 1 {
        seq!["🎲💀 CRITICAL FAILURE! 💀🎲"@]
    } else if r == 20 {
        seq!["🎲⭐ CRITICAL SUCCESS! ⭐🎲"@]
    } else {
        seq![]
    }
}

/// `b` shows `name`'s initiative roll `r` on a d20.
pub open spec fn initiative_shown(a: Screen, name: Seq<char>, r: u8, b: Screen) -> bool {
    &&& 1 <= r <= 20
    &&& b == print(
        a,
        seq!["🎲 "@ + name + " rolled initiative: "@ + decimal(r as nat) + " (d20: "@ + decimal(r as nat) + ")"@]
            + d20_crit(r),
    )
}

/// What a command does in the initiative terminal; `roll` rolls a d20.
pub open spec fn initiative_effect(a: Screen, cmd: Seq<char>, b: Screen) -> bool {
    let w = command_word(cmd);
    if w == "help"@ || w == "h"@ {
        b == print(a, initiative_help())
    } else if w == "roll"@ {
        if words(cmd).len() >= 2 {
            exists|r: u8| #[trigger] initiative_shown(a, words_after(cmd, 1), r, b)
        } else {
            b == print(a, seq!["Usage: roll <name>"@])
        }
    } else if w == "list"@ {
        b == print(a, seq!["📋 Initiative Order: (Feature coming soon)"@])
    } else if w == "clear"@ {
        b == print(a, seq!["🧹 Cleared all initiative rolls"@])
    } else if w == "back"@ || w == "exit"@ {
        b == left(a, AppMode::ToolsMenu)
    } else {
        b == print(a, seq![unknown_line(w)])
    }
}

/// Armour class, hit points and speed in the ranges NPCs are generated in:
/// AC 10 to 20, HP 10 to 50, speed 20 to 80 feet in steps of 10.
pub open spec fn npc_stats(ac: u8, hp: u8, speed: u8) -> bool {
    &&& 10 <= ac <= 20
    &&& 10 <= hp <= 50
    &&& 20 <= speed <= 80
    &&& speed % 10 == 0
}

/// The framed card of a generated NPC under the given title line.
pub open spec fn npc_card(title: Seq<char>, race: Seq<char>, class: Seq<char>, ac: u8, hp: u8, speed: u8) -> Seq<Seq<char>> {
    seq![
        ""@,
        "╔═══════════════════════════════════════╗"@,
        title,
        "╠═══════════════════════════════════════╣"@,
        "║ Race: "@ + pad(race, 31) + " ║"@,
        "║ Class: "@ + pad(class, 30) + " ║"@,
        "║ AC: "@ + pad(decimal(ac as nat), 33) + " ║"@,
        "║ HP: "@ + pad(decimal(hp as nat), 33) + " ║"@,
        "║ Speed: "@ + decimal(speed as nat) + " feet"@ + pad(seq![], 21) + " ║"@,
        "╚═══════════════════════════════════════╝"@,
    ]
}

/// `b` shows the line `intro` and the card of a generated NPC.
pub open spec fn npc_shown(
    a: Screen,
    intro: Seq<char>,
    title: Seq<char>,
    race: Seq<char>,
    class: Seq<char>,
    ac: u8,
    hp: u8,
    speed: u8,
    b: Screen,
) -> bool {
    &&& npc_stats_drawn(ac, hp, speed)
    &&& b == print(a, seq![intro] + npc_card(title, race, class, ac, hp, speed))
}

/// What a command does in the NPC generator terminal; `random` and `custom`
/// roll the statistics (and `random` the race and class).
pub open spec fn npc_effect(a: Screen, cmd: Seq<char>, b: Screen) -> bool {
    let w = command_word(cmd);
    if w == "help"@ || w == "h"@ {
        b == print(a, npc_help())
    } else if w == "random"@ {
        exists|race: Seq<char>, class: Seq<char>, ac: u8, hp: u8, speed: u8|
            race_names().contains(race) && class_names().contains(class) && #[trigger] npc_shown(
                a,
                "🎲 Generating random NPC..."@,
                "║            Generated NPC              ║"@,
                race,
                class,
                ac,
                hp,
                speed,
                b,
            )
    } else if w == "custom"@ {
        if words(cmd).len() >= 3 {
            let race = words(cmd)[1];
            let class = words(cmd)[2];
            exists|ac: u8, hp: u8, speed: u8|
                #[trigger] npc_shown(
                    a,
                    "🎲 Generating "@ + race + " "@ + class + "..."@,
                    "║          Generated Custom NPC         ║"@,
                    race,
                    class,
                    ac,
                    hp,
                    speed,
                    b,
                )
        } else {
            b == print(a, npc_custom_usage())
        }
    } else if w == "races"@ {
        b == print(a, npc_races())
    } else if w == "classes"@ {
        b == print(a, npc_classes())
    } else if w == "back"@ || w == "exit"@ {
        b == left(a, AppMode::ToolsMenu)
    } else {
        b == print(a, seq![unknown_line(w)])
    }
}

/// How many creatures `generate` asks for: the third word read as a count
/// and kept between 1 and 8, or 1.
pub open spec fn creature_count(cmd: Seq<char>) -> usize {
    if words(cmd).len() >= 3 {
        match parse_usize_spec(words(cmd)[2]) {
            Some(n) => if n < 1 {
                1
            } else if n > 8 {
                8
            } else {
                n
            },
            None => 1,
        }
    } else {
        1
    }
}

/// What a command does in the encounter terminal. Generating an encounter,
/// and setting a challenge rating, are left as pending work.
pub open spec fn encounter_effect(a: Screen, cmd: Seq<char>, b: Screen) -> bool {
    let w = command_word(cmd);
    if w == "help"@ || w == "h"@ {
        b == print(a, encounter_help())
    } else if w == "generate"@ || w == "gen"@ {
        if words(cmd).len() >= 2 {
            &&& b == Screen { pending: b.pending, ..a }
            &&& b.pending matches Some(PendingAction::GenerateEncounter { challenge, creatures })
            &&& challenge@ == words(cmd)[1]
            &&& creatures == creature_count(cmd)
        } else {
            b == print(a, encounter_generate_usage())
        }
    } else if w == "cr"@ {
        if words(cmd).len() >= 2 {
            &&& b == Screen { pending: b.pending, ..a }
            &&& b.pending matches Some(PendingAction::SetChallengeRating { challenge })
            &&& challenge@ == words(cmd)[1]
        } else {
            b == print(a, encounter_cr_usage())
        }
    } else if w == "examples"@ || w == "ex"@ {
        b == print(a, encounter_examples())
    } else if w == "back"@ || w == "exit"@ {
        b == left(a, AppMode::ToolsMenu)
    } else {
        b == print(a, seq![unknown_line(w)])
    }
}

/// The rolls as `Debug` shows a list: `[3, 5]`.
pub open spec fn list_text(rolls: Seq<u8>) -> Seq<char> {
    "["@ + join_with(rolls.map_values(|r: u8| decimal(r as nat)), ", "@) + "]"@
}

/// The framed display of a roll of `expr`.
pub open spec fn roll_box(expr: Seq<char>, rolls: Seq<u8>, total: int, crit: Option<Seq<char>>) -> Seq<Seq<char>> {
    seq![
        ""@,
        "┌─────────────────────────────────┐"@,
        "│         🎲 DICE ROLL! 🎲         │"@,
        "├─────────────────────────────────┤"@,
        "│ Expression: "@ + pad(expr, 19) + " │"@,
        "│ Individual Rolls: "@ + pad(list_text(rolls), 13) + " │"@,
        "│ TOTAL: "@ + pad(decimal(total as nat), 23) + " │"@,
    ] + match crit {
        Some(m) => seq!["├─────────────────────────────────┤"@, "│ "@ + pad(m, 31) + " │"@],
        None => seq![],
    } + seq!["└─────────────────────────────────┘"@, ""@]
}

/// `lines` show `rolls` as a roll of `expr`: `n` dice of `sd` sides.
pub open spec fn roll_shown(expr: Seq<char>, n: u8, sd: u8, rolls: Seq<u8>, lines: Seq<Seq<char>>) -> bool {
    &&& rolls.len() == n
    &&& forall|i: int| 0 <= i < rolls.len() ==> 1 <= #[trigger] rolls[i] <= sd
    &&& lines == roll_box(expr, rolls, total_of(rolls, dice_modifier(expr)), crit_text(expr, rolls))
}

/// The lines that rolling `expr` may show: the framed roll for a valid
/// expression (any dice values in range), else the error and a hint. An
/// expression whose total could overflow is refused as out of range.
pub open spec fn dice_outcome(expr: Seq<char>, lines: Seq<Seq<char>>) -> bool {
    if !dice_expression_fits(expr) {
        lines == seq![
            "❌ Error rolling dice: Dice expression out of range"@,
            "💡 Try format like: 1d20, 2d6+3, 4d8"@,
        ]
    } else {
        match dice_request(expr) {
            Err(m) => lines == seq!["❌ Error rolling dice: "@ + m, "💡 Try format like: 1d20, 2d6+3, 4d8"@],
            Ok((n, sd)) => exists|rolls: Seq<u8>| #[trigger] roll_shown(expr, n, sd, rolls, lines),
        }
    }
}

/// The line for one ability score rolled as 4d6 keeping the three highest:
/// the dice are shown highest first and the lowest is dropped.
pub open spec fn ability_roll_line(name: Seq<char>, d: (u8, u8, u8, u8)) -> Seq<char> {
    "  "@ + name + ": "@ + decimal((d.0 + d.1 + d.2) as nat) + " (rolled: ["@ + decimal(d.0 as nat) + ", "@
        + decimal(d.1 as nat) + ", "@ + decimal(d.2 as nat) + ", "@ + decimal(d.3 as nat) + "], dropped: "@
        + decimal(d.3 as nat) + ")"@
}

/// Four d6 values, highest first.
pub open spec fn sorted_d6(d: (u8, u8, u8, u8)) -> bool {
    6 >= d.0 >= d.1 >= d.2 >= d.3 >= 1
}

/// The six abilities in the order `stats` rolls them.
pub open spec fn ability_names() -> Seq<Seq<char>> {
    seq!["Strength"@, "Dexterity"@, "Constitution"@, "Intelligence"@, "Wisdom"@, "Charisma"@]
}

/// `b` shows six ability scores rolled as the dice `q`.
pub open spec fn stats_shown(a: Screen, q: Seq<(u8, u8, u8, u8)>, b: Screen) -> bool {
    &&& q.len() == 6
    &&& forall|i: int| 0 <= i < 6 ==> sorted_d6(#[trigger] q[i])
    &&& b == print(
        a,
        seq!["🎲 Rolling ability scores (4d6, drop lowest):"@, ""@] + Seq::new(
            6,
            |i: int| ability_roll_line(ability_names()[i], q[i]),
        ),
    )
}

/// What a command does in the dice terminal. Anything that is not a known
/// command is rolled as a dice expression.
pub open spec fn dice_effect(a: Screen, cmd: Seq<char>, b: Screen) -> bool {
    let w = command_word(cmd);
    if w == "help"@ || w == "h"@ {
        b == print(a, dice_help())
    } else if w == "roll"@ {
        if words(cmd).len() >= 2 {
            exists|lines: Seq<Seq<char>>|
                #[trigger] dice_outcome(join_with(words(cmd).skip(1), seq![]), lines) && b == print(a, lines)
        } else {
            b == print(a, dice_roll_usage())
        }
    } else if w == "advantage"@ {
        exists|lines: Seq<Seq<char>>|
            #[trigger] dice_outcome("2d20"@, lines) && b == print(
                a,
                seq!["🎲 Rolling with advantage (2d20, keep higher):"@] + lines + seq![
                    "📈 Use the HIGHER roll for advantage!"@,
                ],
            )
    } else if w == "disadvantage"@ {
        exists|lines: Seq<Seq<char>>|
            #[trigger] dice_outcome("2d20"@, lines) && b == print(
                a,
                seq!["🎲 Rolling with disadvantage (2d20, keep lower):"@] + lines + seq![
                    "📉 Use the LOWER roll for disadvantage!"@,
                ],
            )
    } else if w == "stats"@ {
        exists|q: Seq<(u8, u8, u8, u8)>| #[trigger] stats_shown(a, q, b)
    } else if w == "back"@ || w == "exit"@ {
        b == left(a, AppMode::ToolsMenu)
    } else {
        exists|lines: Seq<Seq<char>>| #[trigger] dice_outcome(cmd, lines) && b == print(a, lines)
    }
}

/// A search for `q` was started: the searching line is shown and the search
/// is left as pending work.
pub open spec fn searching(a: Screen, q: Seq<char>, in_combat: bool, b: Screen) -> bool {
    &&& b == Screen { pending: b.pending, ..print(a, seq!["🔍 Searching for '"@ + q + "'..."@]) }
    &&& b.pending matches Some(PendingAction::Search { query, in_combat: c })
    &&& query@ == q
    &&& c == in_combat
}

/// What a command does in the search terminal. Anything that is not a known
/// command is searched for as it stands.
pub open spec fn search_effect(a: Screen, cmd: Seq<char>, b: Screen) -> bool {
    let w = command_word(cmd);
    if words(cmd).len() == 0 {
        b == a
    } else if w == "help"@ || w == "h"@ {
        b == print(a, search_help())
    } else if w == "search"@ {
        if words(cmd).len() >= 2 {
            searching(a, words_after(cmd, 1), false, b)
        } else {
            b == print(a, seq!["Usage: search <query> or search <category> <query>"@])
        }
    } else if w == "categories"@ {
        b == print(a, search_categories())
    } else if w == "back"@ || w == "exit"@ || w == "quit"@ {
        b == (Screen { mode: AppMode::ToolsMenu, selected_index: 0, output: seq![], scroll_offset: 0, ..a })
    } else {
        searching(a, cmd, false, b)
    }
}

/// The character creation terminal's help.
pub open spec fn creation_help() -> Seq<Seq<char>> {
    seq![
        "Character Creation Commands:"@,
        "  create - Start character creation wizard"@,
        "  back - Return to characters menu"@,
    ]
}

fn creation_help_lines() -> (res: Vec<String>)
    ensures
        views(res@) == creation_help(),
{
    let mut v: Vec<String> = Vec::new();
    v.push(String::from_str("Character Creation Commands:"));
    v.push(String::from_str("  create - Start character creation wizard"));
    v.push(String::from_str("  back - Return to characters menu"));
    assert(views(v@) =~= creation_help());
    v
}

/// The answer to `create`.
pub open spec fn creation_intro() -> Seq<Seq<char>> {
    seq![
        "🎭 Starting character creation wizard..."@,
        "This will guide you through creating a new character."@,
        "Feature coming soon - interactive character creation!"@,
    ]
}

fn creation_intro_lines() -> (res: Vec<String>)
    ensures
        views(res@) == creation_intro(),
{
    let mut v: Vec<String> = Vec::new();
    v.push(String::from_str("🎭 Starting character creation wizard..."));
    v.push(String::from_str("This will guide you through creating a new character."));
    v.push(String::from_str("Feature coming soon - interactive character creation!"));
    assert(views(v@) =~= creation_intro());
    v
}

/// The character display terminal's help.
pub open spec fn display_help() -> Seq<Seq<char>> {
    seq![
        "Character Display Commands:"@,
        "  list - List all characters"@,
        "  show <name> - Show specific character details"@,
        "  back - Return to characters menu"@,
    ]
}

fn display_help_lines() -> (res: Vec<String>)
    ensures
        views(res@) == display_help(),
{
    let mut v: Vec<String> = Vec::new();
    v.push(String::from_str("Character Display Commands:"));
    v.push(String::from_str("  list - List all characters"));
    v.push(String::from_str("  show <name> - Show specific character details"));
    v.push(String::from_str("  back - Return to characters menu"));
    assert(views(v@) =~= display_help());
    v
}

/// The character deletion terminal's help.
pub open spec fn deletion_help() -> Seq<Seq<char>> {
    seq![
        "Character Deletion Commands:"@,
        "  list - List all characters"@,
        "  delete <name> - Delete specific character"@,
        "  back - Return to characters menu"@,
    ]
}

fn deletion_help_lines() -> (res: Vec<String>)
    ensures
        views(res@) == deletion_help(),
{
    let mut v: Vec<String> = Vec::new();
    v.push(String::from_str("Character Deletion Commands:"));
    v.push(String::from_str("  list - List all characters"));
    v.push(String::from_str("  delete <name> - Delete specific character"));
    v.push(String::from_str("  back - Return to characters menu"));
    assert(views(v@) =~= deletion_help());
    v
}

/// The initiative terminal's help.
pub open spec fn initiative_help() -> Seq<Seq<char>> {
    seq![
        "Initiative Tracker Commands:"@,
        "  roll <name> - Roll initiative for character/monster"@,
        "  list - Show current initiative order"@,
        "  clear - Clear all initiative rolls"@,
        "  back - Return to tools menu"@,
    ]
}

fn initiative_help_lines() -> (res: Vec<String>)
    ensures
        views(res@) == initiative_help(),
{
    let mut v: Vec<String> = Vec::new();
    v.push(String::from_str("Initiative Tracker Commands:"));
    v.push(String::from_str("  roll <name> - Roll initiative for character/monster"));
    v.push(String::from_str("  list - Show current initiative order"));
    v.push(String::from_str("  clear - Clear all initiative rolls"));
    v.push(String::from_str("  back - Return to tools menu"));
    assert(views(v@) =~= initiative_help());
    v
}

/// The NPC generator terminal's help.
pub open spec fn npc_help() -> Seq<Seq<char>> {
    seq![
        "NPC Generator Commands:"@,
        "  random - Generate completely random NPC"@,
        "  custom <race> <class> - Generate NPC with specific race/class"@,
        "  races - List available races"@,
        "  classes - List available classes"@,
        "  back - Return to tools menu"@,
    ]
}

fn npc_help_lines() -> (res: Vec<String>)
    ensures
        views(res@) == npc_help(),
{
    let mut v: Vec<String> = Vec::new();
    v.push(String::from_str("NPC Generator Commands:"));
    v.push(String::from_str("  random - Generate completely random NPC"));
    v.push(String::from_str("  custom <race> <class> - Generate NPC with specific race/class"));
    v.push(String::from_str("  races - List available races"));
    v.push(String::from_str("  classes - List available classes"));
    v.push(String::from_str("  back - Return to tools menu"));
    assert(views(v@) =~= npc_help());
    v
}

/// How to use `custom`.
pub open spec fn npc_custom_usage() -> Seq<Seq<char>> {
    seq![
        "Usage: custom <race> <class>"@,
        "Example: custom elf wizard"@,
    ]
}

fn npc_custom_usage_lines() -> (res: Vec<String>)
    ensures
        views(res@) == npc_custom_usage(),
{
    let mut v: Vec<String> = Vec::new();
    v.push(String::from_str("Usage: custom <race> <class>"));
    v.push(String::from_str("Example: custom elf wizard"));
    assert(views(v@) =~= npc_custom_usage());
    v
}

/// The answer to `races`.
pub open spec fn npc_races() -> Seq<Seq<char>> {
    seq![
        "Available Races:"@,
        "human, elf, dwarf, halfling, dragonborn, gnome, half-elf, half-orc, tiefling"@,
    ]
}

fn npc_races_lines() -> (res: Vec<String>)
    ensures
        views(res@) == npc_races(),
{
    let mut v: Vec<String> = Vec::new();
    v.push(String::from_str("Available Races:"));
    v.push(String::from_str("human, elf, dwarf, halfling, dragonborn, gnome, half-elf, half-orc, tiefling"));
    assert(views(v@) =~= npc_races());
    v
}

/// The answer to `classes`.
pub open spec fn npc_classes() -> Seq<Seq<char>> {
    seq![
        "Available Classes:"@,
        "fighter, wizard, cleric, rogue, ranger, paladin, barbarian, bard, druid, monk, sorcerer, warlock"@,
    ]
}

fn npc_classes_lines() -> (res: Vec<String>)
    ensures
        views(res@) == npc_classes(),
{
    let mut v: Vec<String> = Vec::new();
    v.push(String::from_str("Available Classes:"));
    v.push(String::from_str("fighter, wizard, cleric, rogue, ranger, paladin, barbarian, bard, druid, monk, sorcerer, warlock"));
    assert(views(v@) =~= npc_classes());
    v
}

/// The encounter terminal's help.
pub open spec fn encounter_help() -> Seq<Seq<char>> {
    seq![
        "⚔️  Encounter Randomizer Commands:"@,
        "  generate <CR> - Generate encounter for Challenge Rating (e.g., generate 5)"@,
        "  generate <CR> <count> - Generate encounter with specific creature count"@,
        "  cr <CR> - Set Challenge Rating for next generation"@,
        "  examples - Show CR examples and guidelines"@,
        "  back - Return to tools menu"@,
    ]
}

fn encounter_help_lines() -> (res: Vec<String>)
    ensures
        views(res@) == encounter_help(),
{
    let mut v: Vec<String> = Vec::new();
    v.push(String::from_str("⚔️  Encounter Randomizer Commands:"));
    v.push(String::from_str("  generate <CR> - Generate encounter for Challenge Rating (e.g., generate 5)"));
    v.push(String::from_str("  generate <CR> <count> - Generate encounter with specific creature count"));
    v.push(String::from_str("  cr <CR> - Set Challenge Rating for next generation"));
    v.push(String::from_str("  examples - Show CR examples and guidelines"));
    v.push(String::from_str("  back - Return to tools menu"));
    assert(views(v@) =~= encounter_help());
    v
}

/// How to use `generate`.
pub open spec fn encounter_generate_usage() -> Seq<Seq<char>> {
    seq![
        "Usage: generate <CR> [creature_count]"@,
        "Examples: generate 1, generate 5 3, generate 0.25 2"@,
    ]
}

fn encounter_generate_usage_lines() -> (res: Vec<String>)
    ensures
        views(res@) == encounter_generate_usage(),
{
    let mut v: Vec<String> = Vec::new();
    v.push(String::from_str("Usage: generate <CR> [creature_count]"));
    v.push(String::from_str("Examples: generate 1, generate 5 3, generate 0.25 2"));
    assert(views(v@) =~= encounter_generate_usage());
    v
}

/// How to use `cr`.
pub open spec fn encounter_cr_usage() -> Seq<Seq<char>> {
    seq![
        "Usage: cr <CR>"@,
        "Examples: cr 1, cr 5, cr 0.25"@,
    ]
}

fn encounter_cr_usage_lines() -> (res: Vec<String>)
    ensures
        views(res@) == encounter_cr_usage(),
{
    let mut v: Vec<String> = Vec::new();
    v.push(String::from_str("Usage: cr <CR>"));
    v.push(String::from_str("Examples: cr 1, cr 5, cr 0.25"));
    assert(views(v@) =~= encounter_cr_usage());
    v
}

/// The answer to `examples`.
pub open spec fn encounter_examples() -> Seq<Seq<char>> {
    seq![
        "⚔️  Challenge Rating Examples:"@,
        ""@,
        "  CR 0 (1/8, 1/4) - Weak creatures (rats, commoners)"@,
        "  CR 1-2 - Low-level threats (goblins, wolves)"@,
        "  CR 3-5 - Mid-level encounters (orcs, bugbears)"@,
        "  CR 6-10 - Challenging foes (trolls, giants)"@,
        "  CR 11-15 - Dangerous enemies (dragons, demons)"@,
        "  CR 16+ - Epic threats (ancient dragons, gods)"@,
        ""@,
        "Use fractional CR: 0.125 (1/8), 0.25 (1/4), 0.5 (1/2)"@,
    ]
}

fn encounter_examples_lines() -> (res: Vec<String>)
    ensures
        views(res@) == encounter_examples(),
{
    let mut v: Vec<String> = Vec::new();
    v.push(String::from_str("⚔️  Challenge Rating Examples:"));
    v.push(String::from_str(""));
    v.push(String::from_str("  CR 0 (1/8, 1/4) - Weak creatures (rats, commoners)"));
    v.push(String::from_str("  CR 1-2 - Low-level threats (goblins, wolves)"));
    v.push(String::from_str("  CR 3-5 - Mid-level encounters (orcs, bugbears)"));
    v.push(String::from_str("  CR 6-10 - Challenging foes (trolls, giants)"));
    v.push(String::from_str("  CR 11-15 - Dangerous enemies (dragons, demons)"));
    v.push(String::from_str("  CR 16+ - Epic threats (ancient dragons, gods)"));
    v.push(String::from_str(""));
    v.push(String::from_str("Use fractional CR: 0.125 (1/8), 0.25 (1/4), 0.5 (1/2)"));
    assert(views(v@) =~= encounter_examples());
    v
}

/// The dice terminal's help.
pub open spec fn dice_help() -> Seq<Seq<char>> {
    seq![
        "🎲 Dice Roller Commands:"@,
        "  roll <dice> - Roll dice (e.g., 1d20, 2d6+3, 4d8)"@,
        "  advantage - Roll with advantage (2d20, keep higher)"@,
        "  disadvantage - Roll with disadvantage (2d20, keep lower)"@,
        "  stats - Roll 4d6 drop lowest for ability scores"@,
        "  back - Return to tools menu"@,
    ]
}

fn dice_help_lines() -> (res: Vec<String>)
    ensures
        views(res@) == dice_help(),
{
    let mut v: Vec<String> = Vec::new();
    v.push(String::from_str("🎲 Dice Roller Commands:"));
    v.push(String::from_str("  roll <dice> - Roll dice (e.g., 1d20, 2d6+3, 4d8)"));
    v.push(String::from_str("  advantage - Roll with advantage (2d20, keep higher)"));
    v.push(String::from_str("  disadvantage - Roll with disadvantage (2d20, keep lower)"));
    v.push(String::from_str("  stats - Roll 4d6 drop lowest for ability scores"));
    v.push(String::from_str("  back - Return to tools menu"));
    assert(views(v@) =~= dice_help());
    v
}

/// How to use `roll`.
pub open spec fn dice_roll_usage() -> Seq<Seq<char>> {
    seq![
        "Usage: roll <dice_expression>"@,
        "Examples: roll 1d20, roll 2d6+3, roll 4d8"@,
    ]
}

fn dice_roll_usage_lines() -> (res: Vec<String>)
    ensures
        views(res@) == dice_roll_usage(),
{
    let mut v: Vec<String> = Vec::new();
    v.push(String::from_str("Usage: roll <dice_expression>"));
    v.push(String::from_str("Examples: roll 1d20, roll 2d6+3, roll 4d8"));
    assert(views(v@) =~= dice_roll_usage());
    v
}

/// The search terminal's help.
pub open spec fn search_help() -> Seq<Seq<char>> {
    seq![
        "Search Commands:"@,
        "  search <query> - Search all categories"@,
        "  search <category> <query> - Search specific category"@,
        "  categories - List available categories"@,
        "  back - Return to tools menu"@,
        ""@,
        "Categories: spells, classes, equipment, monsters, races"@,
        "Example: search fireball"@,
        "Example: search spell magic missile"@,
    ]
}

fn search_help_lines() -> (res: Vec<String>)
    ensures
        views(res@) == search_help(),
{
    let mut v: Vec<String> = Vec::new();
    v.push(String::from_str("Search Commands:"));
    v.push(String::from_str("  search <query> - Search all categories"));
    v.push(String::from_str("  search <category> <query> - Search specific category"));
    v.push(String::from_str("  categories - List available categories"));
    v.push(String::from_str("  back - Return to tools menu"));
    v.push(String::from_str(""));
    v.push(String::from_str("Categories: spells, classes, equipment, monsters, races"));
    v.push(String::from_str("Example: search fireball"));
    v.push(String::from_str("Example: search spell magic missile"));
    assert(views(v@) =~= search_help());
    v
}

/// The answer to `categories`.
pub open spec fn search_categories() -> Seq<Seq<char>> {
    seq![
        "Available Categories:"@,
        "  • spells - Magic spells"@,
        "  • classes - Character classes"@,
        "  • equipment (or items/gear) - Weapons, armor, and gear"@,
        "  • monsters (or creatures) - Monsters and NPCs"@,
        "  • races - Character races"@,
    ]
}

fn search_categories_lines() -> (res: Vec<String>)
    ensures
        views(res@) == search_categories(),
{
    let mut v: Vec<String> = Vec::new();
    v.push(String::from_str("Available Categories:"));
    v.push(String::from_str("  • spells - Magic spells"));
    v.push(String::from_str("  • classes - Character classes"));
    v.push(String::from_str("  • equipment (or items/gear) - Weapons, armor, and gear"));
    v.push(String::from_str("  • monsters (or creatures) - Monsters and NPCs"));
    v.push(String::from_str("  • races - Character races"));
    assert(views(v@) =~= search_categories());
    v
}

} // verus!
