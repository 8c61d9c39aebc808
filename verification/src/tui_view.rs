//! What the full-screen interface draws: the title and help of each
//! screen, the menu, the visible part of a terminal's output, and the
//! greeting a tool's terminal shows when it opens.
use vstd::prelude::*;
use crate::tui::{App, AppMode, Screen, print, is_terminal, menu_items, opt_view};
use crate::words::{views, push_line};

verus! {
/// The title shown above a screen.
pub open spec fn title_of(m: AppMode) -> Seq<char> {
    match m {
        AppMode::MainMenu => "🎲 D&D Tools - Main Menu 🎲"@,
        AppMode::CharactersMenu => "👥 Characters Menu 👥"@,
        AppMode::ToolsMenu => "🛠️  Tools Menu 🛠️"@,
        AppMode::CharacterCreation => "✨ Character Creation ✨"@,
        AppMode::CharacterCreationTUI => "✨ Character Creation (Interactive) ✨"@,
        AppMode::CharacterDisplay => "📋 Character Display 📋"@,
        AppMode::CharacterDisplayTUI => "📋 Character Display (Interactive) 📋"@,
        AppMode::CharacterDeletion => "🗑️  Character Deletion 🗑️"@,
        AppMode::CharacterDeletionTUI => "🗑️  Character Deletion (Interactive) 🗑️"@,
        AppMode::InitiativeTracker => "⚡ Initiative Tracker ⚡"@,
        AppMode::InitiativeTrackerTUI => "⚡ Initiative Tracker (Interactive) ⚡"@,
        AppMode::NpcGenerator => "🎭 NPC Generator 🎭"@,
        AppMode::NpcGeneratorTUI => "🎭 NPC Generator (Interactive) 🎭"@,
        AppMode::EncounterRandomizer => "⚔️  Encounter Randomizer ⚔️"@,
        AppMode::EncounterRandomizerTUI => "⚔️  Encounter Randomizer (Interactive) ⚔️"@,
        AppMode::Dice => "🎲 Dice Roller 🎲"@,
        AppMode::DiceTUI => "🎲 Dice Roller (Interactive) 🎲"@,
        AppMode::CombatTracker => "⚔️  Combat Tracker ⚔️"@,
        AppMode::CombatTrackerTUI => "⚔️  Combat Tracker (Interactive) ⚔️"@,
        AppMode::Search => "🔍 D&D 5e Search 🔍"@,
        AppMode::SearchTUI => "🔍 D&D 5e Search (Interactive) 🔍"@,
        AppMode::Exit => "👋 Goodbye! 👋"@,
    }
}

/// The title shown above a screen (see `title_of`).
pub fn mode_title(m: AppMode) -> (res: &'static str)
    ensures
        res@ == title_of(m),
{
    match m {
        AppMode::MainMenu => "🎲 D&D Tools - Main Menu 🎲",
        AppMode::CharactersMenu => "👥 Characters Menu 👥",
        AppMode::ToolsMenu => "🛠️  Tools Menu 🛠️",
        AppMode::CharacterCreation => "✨ Character Creation ✨",
        AppMode::CharacterCreationTUI => "✨ Character Creation (Interactive) ✨",
        AppMode::CharacterDisplay => "📋 Character Display 📋",
        AppMode::CharacterDisplayTUI => "📋 Character Display (Interactive) 📋",
        AppMode::CharacterDeletion => "🗑️  Character Deletion 🗑️",
        AppMode::CharacterDeletionTUI => "🗑️  Character Deletion (Interactive) 🗑️",
        AppMode::InitiativeTracker => "⚡ Initiative Tracker ⚡",
        AppMode::InitiativeTrackerTUI => "⚡ Initiative Tracker (Interactive) ⚡",
        AppMode::NpcGenerator => "🎭 NPC Generator 🎭",
        AppMode::NpcGeneratorTUI => "🎭 NPC Generator (Interactive) 🎭",
        AppMode::EncounterRandomizer => "⚔️  Encounter Randomizer ⚔️",
        AppMode::EncounterRandomizerTUI => "⚔️  Encounter Randomizer (Interactive) ⚔️",
        AppMode::Dice => "🎲 Dice Roller 🎲",
        AppMode::DiceTUI => "🎲 Dice Roller (Interactive) 🎲",
        AppMode::CombatTracker => "⚔️  Combat Tracker ⚔️",
        AppMode::CombatTrackerTUI => "⚔️  Combat Tracker (Interactive) ⚔️",
        AppMode::Search => "🔍 D&D 5e Search 🔍",
        AppMode::SearchTUI => "🔍 D&D 5e Search (Interactive) 🔍",
        AppMode::Exit => "👋 Goodbye! 👋",
    }
}

/// The help line under a screen: menu keys for the menus, terminal keys for
/// the terminals, else a prompt to continue.
pub open spec fn help_of(m: AppMode) -> Seq<char> {
    if m == AppMode::MainMenu || m == AppMode::CharactersMenu || m == AppMode::ToolsMenu {
        "↑↓ Navigate • Enter Select • Esc Back • Ctrl+Q Quit"@
    } else if is_terminal(m) {
        "Type commands • Enter Execute • ↑↓ History • PgUp/PgDn Scroll • Esc Back • Ctrl+Q Quit"@
    } else {
        "Press any key to continue..."@
    }
}

/// The help line under a screen (see `help_of`).
pub fn mode_help(m: AppMode) -> (res: &'static str)
    ensures
        res@ == help_of(m),
{
    match m {
        AppMode::MainMenu | AppMode::CharactersMenu | AppMode::ToolsMenu => "↑↓ Navigate • Enter Select • Esc Back • Ctrl+Q Quit",
        AppMode::CombatTrackerTUI | AppMode::SearchTUI | AppMode::CharacterCreationTUI | AppMode::CharacterDisplayTUI
        | AppMode::CharacterDeletionTUI | AppMode::InitiativeTrackerTUI | AppMode::NpcGeneratorTUI
        | AppMode::EncounterRandomizerTUI | AppMode::DiceTUI => "Type commands • Enter Execute • ↑↓ History • PgUp/PgDn Scroll • Esc Back • Ctrl+Q Quit",
        _ => "Press any key to continue...",
    }
}

/// The lines a tool's terminal greets with, and the state it then shows;
/// nothing for the other screens.
pub open spec fn greeting(m: AppMode) -> Option<(Seq<Seq<char>>, Seq<char>)> {
    match m {
        AppMode::CharacterCreationTUI => Some((seq!["🎭 Character Creation - Interactive Mode 🎭"@, "Type 'help' for available commands or 'create' to start"@], "Character Creation Ready"@)),
        AppMode::CharacterDisplayTUI => Some((seq!["📋 Character Display - Interactive Mode 📋"@, "Type 'help' for commands or 'list' to see all characters"@], "Character Display Ready"@)),
        AppMode::CharacterDeletionTUI => Some((seq!["🗑️  Character Deletion - Interactive Mode 🗑️"@, "Type 'help' for commands or 'list' to see characters"@], "Character Deletion Ready"@)),
        AppMode::InitiativeTrackerTUI => Some((seq!["⚡ Initiative Tracker - Interactive Mode ⚡"@, "Type 'help' for commands or 'roll <name>' to roll initiative"@], "Initiative Tracker Ready"@)),
        AppMode::NpcGeneratorTUI => Some((seq!["🎭 NPC Generator - Interactive Mode 🎭"@, "Type 'help' for commands or 'random' to generate an NPC"@], "NPC Generator Ready"@)),
        AppMode::EncounterRandomizerTUI => Some((seq!["⚔️  Encounter Randomizer - Interactive Mode ⚔️"@, "Type 'help' for commands or 'generate <CR>' to create an encounter"@, "Example: 'generate 5' for CR 5 encounter"@], "Encounter Randomizer Ready"@)),
        AppMode::DiceTUI => Some((seq!["🎲 Dice Roller - Interactive Mode 🎲"@, "Type 'help' for commands or 'roll 1d20' to start rolling"@], "Dice Roller Ready"@)),
        AppMode::CombatTrackerTUI => Some((seq!["⚔️ Combat Tracker - Interactive Mode ⚔️"@, "Type 'init' to initialize combat or 'help' for commands"@], "Combat Tracker Ready"@)),
        AppMode::SearchTUI => Some((seq!["🔍 D&D 5e Search - Interactive Mode 🔍"@, "Type 'search <query>' to search or 'help' for commands"@], "Search Ready"@)),
        _ => None,
    }
}

/// What the interface does after each key once the screen is known: a
/// tool's terminal that has printed nothing yet (for the combat tracker: that
/// holds no fight yet) greets; the interface keeps running unless the screen
/// is the exit or quitting was asked for.
pub open spec fn after_key(a: Screen, b: Screen, running: bool) -> bool {
    &&& running == !(a.mode == AppMode::Exit || (b.should_quit))
    &&& if a.mode == AppMode::Exit {
        b == a
    } else {
        match greeting(a.mode) {
            Some((ls, st)) => {
                let fresh = if a.mode == AppMode::CombatTrackerTUI { a.fight is None } else { a.output.len() == 0 };
                b == if fresh { Screen { current_state: st, ..print(a, ls) } } else { a }
            },
            None => b == a,
        }
    }
}

fn greeting_lines(m: AppMode) -> (res: Option<(Vec<String>, &'static str)>)
    ensures
        match greeting(m) {
            Some((ls, st)) => res matches Some((v, s)) && views(v@) == ls && s@ == st,
            None => res is None,
        },
{
    match m {
        AppMode::CharacterCreationTUI => {
            let mut v: Vec<String> = Vec::new();
            v.push(String::from_str("🎭 Character Creation - Interactive Mode 🎭")); v.push(String::from_str("Type 'help' for available commands or 'create' to start"));
            assert(views(v@) =~= seq!["🎭 Character Creation - Interactive Mode 🎭"@, "Type 'help' for available commands or 'create' to start"@]);
            Some((v, "Character Creation Ready"))
        },
        AppMode::CharacterDisplayTUI => {
            let mut v: Vec<String> = Vec::new();
            v.push(String::from_str("📋 Character Display - Interactive Mode 📋")); v.push(String::from_str("Type 'help' for commands or 'list' to see all characters"));
            assert(views(v@) =~= seq!["📋 Character Display - Interactive Mode 📋"@, "Type 'help' for commands or 'list' to see all characters"@]);
            Some((v, "Character Display Ready"))
        },
        AppMode::CharacterDeletionTUI => {
            let mut v: Vec<String> = Vec::new();
            v.push(String::from_str("🗑️  Character Deletion - Interactive Mode 🗑️")); v.push(String::from_str("Type 'help' for commands or 'list' to see characters"));
            assert(views(v@) =~= seq!["🗑️  Character Deletion - Interactive Mode 🗑️"@, "Type 'help' for commands or 'list' to see characters"@]);
            Some((v, "Character Deletion Ready"))
        },
        AppMode::InitiativeTrackerTUI => {
            let mut v: Vec<String> = Vec::new();
            v.push(String::from_str("⚡ Initiative Tracker - Interactive Mode ⚡")); v.push(String::from_str("Type 'help' for commands or 'roll <name>' to roll initiative"));
            assert(views(v@) =~= seq!["⚡ Initiative Tracker - Interactive Mode ⚡"@, "Type 'help' for commands or 'roll <name>' to roll initiative"@]);
            Some((v, "Initiative Tracker Ready"))
        },
        AppMode::NpcGeneratorTUI => {
            let mut v: Vec<String> = Vec::new();
            v.push(String::from_str("🎭 NPC Generator - Interactive Mode 🎭")); v.push(String::from_str("Type 'help' for commands or 'random' to generate an NPC"));
            assert(views(v@) =~= seq!["🎭 NPC Generator - Interactive Mode 🎭"@, "Type 'help' for commands or 'random' to generate an NPC"@]);
            Some((v, "NPC Generator Ready"))
        },
        AppMode::EncounterRandomizerTUI => {
            let mut v: Vec<String> = Vec::new();
            v.push(String::from_str("⚔️  Encounter Randomizer - Interactive Mode ⚔️")); v.push(String::from_str("Type 'help' for commands or 'generate <CR>' to create an encounter")); v.push(String::from_str("Example: 'generate 5' for CR 5 encounter"));
            assert(views(v@) =~= seq!["⚔️  Encounter Randomizer - Interactive Mode ⚔️"@, "Type 'help' for commands or 'generate <CR>' to create an encounter"@, "Example: 'generate 5' for CR 5 encounter"@]);
            Some((v, "Encounter Randomizer Ready"))
        },
        AppMode::DiceTUI => {
            let mut v: Vec<String> = Vec::new();
            v.push(String::from_str("🎲 Dice Roller - Interactive Mode 🎲")); v.push(String::from_str("Type 'help' for commands or 'roll 1d20' to start rolling"));
            assert(views(v@) =~= seq!["🎲 Dice Roller - Interactive Mode 🎲"@, "Type 'help' for commands or 'roll 1d20' to start rolling"@]);
            Some((v, "Dice Roller Ready"))
        },
        AppMode::CombatTrackerTUI => {
            let mut v: Vec<String> = Vec::new();
            v.push(String::from_str("⚔️ Combat Tracker - Interactive Mode ⚔️")); v.push(String::from_str("Type 'init' to initialize combat or 'help' for commands"));
            assert(views(v@) =~= seq!["⚔️ Combat Tracker - Interactive Mode ⚔️"@, "Type 'init' to initialize combat or 'help' for commands"@]);
            Some((v, "Combat Tracker Ready"))
        },
        AppMode::SearchTUI => {
            let mut v: Vec<String> = Vec::new();
            v.push(String::from_str("🔍 D&D 5e Search - Interactive Mode 🔍")); v.push(String::from_str("Type 'search <query>' to search or 'help' for commands"));
            assert(views(v@) =~= seq!["🔍 D&D 5e Search - Interactive Mode 🔍"@, "Type 'search <query>' to search or 'help' for commands"@]);
            Some((v, "Search Ready"))
        },
        _ => None,
    }
}

impl App {
    /// Runs what follows each key (see `after_key`): tells whether the
    /// interface keeps running.
    pub fn after_key(&mut self) -> (running: bool)
        ensures
            after_key(old(self).screen(), final(self).screen(), running),
            final(self).same_input(*old(self)),
    {
        if self.mode == AppMode::Exit {
            return false;
        }
        match greeting_lines(self.mode) {
            Some((lines, state)) => {
                let fresh = if self.mode == AppMode::CombatTrackerTUI {
                    self.combat_tracker.is_none()
                } else {
                    self.output_history.len() == 0
                };
                if fresh {
                    self.emit(lines);
                    self.current_state = String::from_str(state);
                }
            },
            None => {},
        }
        !self.should_quit
    }
}

/// The output area of a terminal that has printed nothing yet: the tool's
/// name, its state and how to begin.
pub open spec fn placeholder(m: AppMode, state: Seq<char>) -> Seq<Seq<char>> {
    match m {
        AppMode::CombatTrackerTUI => seq!["⚔️ Combat Tracker - Interactive Mode ⚔️"@, ""@, "State: "@ + state, ""@, "Type 'help' for available commands"@, "Type 'init' to initialize combat"@, ""@],
        AppMode::SearchTUI => seq!["🔍 D&D 5e Search - Interactive Mode 🔍"@, ""@, "State: "@ + state, ""@, "Type 'help' for available commands"@, "Type 'search <query>' to search"@, "Example: search fireball"@, ""@],
        AppMode::CharacterCreationTUI => seq!["🎭 Character Creation - Interactive Mode 🎭"@, ""@, "State: "@ + state, ""@, "Type 'help' for available commands"@, "Type 'create' to start character creation"@, ""@],
        AppMode::CharacterDisplayTUI => seq!["📋 Character Display - Interactive Mode 📋"@, ""@, "State: "@ + state, ""@, "Type 'help' for available commands"@, "Type 'list' to see all characters"@, ""@],
        AppMode::CharacterDeletionTUI => seq!["🗑️  Character Deletion - Interactive Mode 🗑️"@, ""@, "State: "@ + state, ""@, "Type 'help' for available commands"@, "Type 'list' to see characters to delete"@, "⚠️  Warning: Deletions are permanent!"@, ""@],
        AppMode::InitiativeTrackerTUI => seq!["⚡ Initiative Tracker - Interactive Mode ⚡"@, ""@, "State: "@ + state, ""@, "Type 'help' for available commands"@, "Type 'roll <name>' to roll initiative"@, ""@],
        AppMode::NpcGeneratorTUI => seq!["🎭 NPC Generator - Interactive Mode 🎭"@, ""@, "State: "@ + state, ""@, "Type 'help' for available commands"@, "Type 'random' to generate a random NPC"@, "Type 'custom <race> <class>' for custom NPC"@, ""@],
        AppMode::EncounterRandomizerTUI => seq!["⚔️  Encounter Randomizer - Interactive Mode ⚔️"@, ""@, "State: "@ + state, ""@, "Type 'help' for available commands"@, "Type 'generate <CR>' to create encounter (e.g., generate 5)"@, "Type 'generate <CR> <count>' for multiple creatures"@, "Type 'examples' for CR guidelines"@, ""@],
        AppMode::DiceTUI => seq!["🎲 Dice Roller - Interactive Mode 🎲"@, ""@, "State: "@ + state, ""@, "Type 'help' for available commands"@, "Type 'roll 1d20' to roll dice"@, "Examples: roll 2d6+3, roll 4d8, advantage, disadvantage"@, ""@],
        _ => seq!["State: "@ + state],
    }
}

fn placeholder_lines(m: AppMode, state: &str) -> (res: Vec<String>)
    ensures
        views(res@) == placeholder(m, state@),
{
    let mut st = String::from_str("State: ");
    st.append(state);
    let mut v: Vec<String> = Vec::new();
    match m {
        AppMode::CombatTrackerTUI => {
            v.push(String::from_str("⚔️ Combat Tracker - Interactive Mode ⚔️")); v.push(String::from_str("")); v.push(st); v.push(String::from_str("")); v.push(String::from_str("Type 'help' for available commands")); v.push(String::from_str("Type 'init' to initialize combat")); v.push(String::from_str(""));
        },
        AppMode::SearchTUI => {
            v.push(String::from_str("🔍 D&D 5e Search - Interactive Mode 🔍")); v.push(String::from_str("")); v.push(st); v.push(String::from_str("")); v.push(String::from_str("Type 'help' for available commands")); v.push(String::from_str("Type 'search <query>' to search")); v.push(String::from_str("Example: search fireball")); v.push(String::from_str(""));
        },
        AppMode::CharacterCreationTUI => {
            v.push(String::from_str("🎭 Character Creation - Interactive Mode 🎭")); v.push(String::from_str("")); v.push(st); v.push(String::from_str("")); v.push(String::from_str("Type 'help' for available commands")); v.push(String::from_str("Type 'create' to start character creation")); v.push(String::from_str(""));
        },
        AppMode::CharacterDisplayTUI => {
            v.push(String::from_str("📋 Character Display - Interactive Mode 📋")); v.push(String::from_str("")); v.push(st); v.push(String::from_str("")); v.push(String::from_str("Type 'help' for available commands")); v.push(String::from_str("Type 'list' to see all characters")); v.push(String::from_str(""));
        },
        AppMode::CharacterDeletionTUI => {
            v.push(String::from_str("🗑️  Character Deletion - Interactive Mode 🗑️")); v.push(String::from_str("")); v.push(st); v.push(String::from_str("")); v.push(String::from_str("Type 'help' for available commands")); v.push(String::from_str("Type 'list' to see characters to delete")); v.push(String::from_str("⚠️  Warning: Deletions are permanent!")); v.push(String::from_str(""));
        },
        AppMode::InitiativeTrackerTUI => {
            v.push(String::from_str("⚡ Initiative Tracker - Interactive Mode ⚡")); v.push(String::from_str("")); v.push(st); v.push(String::from_str("")); v.push(String::from_str("Type 'help' for available commands")); v.push(String::from_str("Type 'roll <name>' to roll initiative")); v.push(String::from_str(""));
        },
        AppMode::NpcGeneratorTUI => {
            v.push(String::from_str("🎭 NPC Generator - Interactive Mode 🎭")); v.push(String::from_str("")); v.push(st); v.push(String::from_str("")); v.push(String::from_str("Type 'help' for available commands")); v.push(String::from_str("Type 'random' to generate a random NPC")); v.push(String::from_str("Type 'custom <race> <class>' for custom NPC")); v.push(String::from_str(""));
        },
        AppMode::EncounterRandomizerTUI => {
            v.push(String::from_str("⚔️  Encounter Randomizer - Interactive Mode ⚔️")); v.push(String::from_str("")); v.push(st); v.push(String::from_str("")); v.push(String::from_str("Type 'help' for available commands")); v.push(String::from_str("Type 'generate <CR>' to create encounter (e.g., generate 5)")); v.push(String::from_str("Type 'generate <CR> <count>' for multiple creatures")); v.push(String::from_str("Type 'examples' for CR guidelines")); v.push(String::from_str(""));
        },
        AppMode::DiceTUI => {
            v.push(String::from_str("🎲 Dice Roller - Interactive Mode 🎲")); v.push(String::from_str("")); v.push(st); v.push(String::from_str("")); v.push(String::from_str("Type 'help' for available commands")); v.push(String::from_str("Type 'roll 1d20' to roll dice")); v.push(String::from_str("Examples: roll 2d6+3, roll 4d8, advantage, disadvantage")); v.push(String::from_str(""));
        },
        _ => {
            v.push(st);
        },
    }
    assert(views(v@) =~= placeholder(m, state@));
    v
}

/// The output area of a terminal of `height` rows: the placeholder while
/// nothing was printed; else the state (and what is awaited) over a blank
/// line, then the output from the scroll position on, as many lines as fit
/// under those two (all of it when the position is past the end).
pub open spec fn output_view(s: Screen, height: u16) -> Seq<Seq<char>> {
    if s.output.len() == 0 {
        placeholder(s.mode, s.current_state)
    } else {
        let head = seq![
            "State: "@ + s.current_state + " "@ + match s.waiting_for {
                Some(w) => "(Waiting: "@ + w + ")"@,
                None => seq![],
            },
            seq![],
        ];
        let room = if height >= 4 { height - 4 } else { 0 };
        let start = s.scroll_offset as int;
        let end = if s.output.len() < start + room { s.output.len() as int } else { start + room };
        head + if start < s.output.len() { s.output.subrange(start, end) } else { s.output }
    }
}

/// The lines of the menu, the selected one marked.
pub open spec fn menu_view(items: Seq<Seq<char>>, selected: int) -> Seq<Seq<char>> {
    Seq::new(items.len(), |i: int| (if i == selected { "► "@ } else { "  "@ }) + items[i])
}

impl App {
    /// The output area of a terminal of `height` rows (see `output_view`).
    pub fn output_lines(&self, height: u16) -> (res: Vec<String>)
        ensures
            views(res@) == output_view(self.screen(), height),
    {
        if self.output_history.len() == 0 {
            return placeholder_lines(self.mode, self.current_state.as_str());
        }
        let mut head = String::from_str("State: ");
        head.append(self.current_state.as_str());
        head.append(" ");
        match &self.waiting_for {
            Some(w) => {
                head.append("(Waiting: ");
                head.append(w.as_str());
                head.append(")");
            },
            None => {},
        }
        let ghost hv = head@;
        assert(hv == "State: "@ + self.current_state@ + " "@ + match opt_view(self.waiting_for) {
            Some(w) => "(Waiting: "@ + w + ")"@,
            None => Seq::<char>::empty(),
        });
        let mut v: Vec<String> = Vec::new();
        v.push(head);
        v.push(String::new());
        let ghost h = views(v@);
        assert(h =~= seq![hv, Seq::<char>::empty()]);
        let room: usize = if height >= 4 { (height - 4) as usize } else { 0 };
        let n = self.output_history.len();
        let start = self.scroll_offset;
        let (lo, hi) = if start < n {
            (start, if n - start < room { n } else { start + room })
        } else {
            (0, n)
        };
        let ghost out = views(self.output_history@);
        let mut i = lo;
        while i < hi
            invariant
                lo <= i <= hi <= n == self.output_history@.len(),
                out == views(self.output_history@),
                views(v@) == h + out.subrange(lo as int, i as int),
            decreases hi - i,
        {
            let ghost before = views(v@);
            v.push(self.output_history[i].clone());
            assert(views(v@) =~= before.push(out[i as int]));
            assert(out.subrange(lo as int, i + 1) =~= out.subrange(lo as int, i as int).push(out[i as int]));
            i = i + 1;
        }
        proof {
            reveal_strlit(" ");
            reveal_strlit("");
            assert(out.subrange(0, n as int) =~= out);
        }
        assert(views(v@) =~= output_view(self.screen(), height));
        v
    }

    /// The lines of the menu of the current screen, the selected one marked
    /// with `►`.
    pub fn menu_lines(&self) -> (res: Vec<String>)
        ensures
            views(res@) == menu_view(menu_items(self.mode), self.selected_index as int),
    {
        let items = self.get_menu_items();
        let ghost iv = items@.map_values(|s: &str| s@);
        let mut v: Vec<String> = Vec::new();
        let mut i: usize = 0;
        while i < items.len()
            invariant
                i <= items@.len(),
                iv == items@.map_values(|s: &str| s@),
                views(v@) == menu_view(iv, self.selected_index as int).take(i as int),
            decreases items@.len() - i,
        {
            let mut l = String::from_str(if i == self.selected_index { "► " } else { "  " });
            l.append(items[i]);
            let ghost before = views(v@);
            v.push(l);
            assert(menu_view(iv, self.selected_index as int).take(i + 1) =~= before.push(
                menu_view(iv, self.selected_index as int)[i as int],
            ));
            i = i + 1;
        }
        assert(menu_view(iv, self.selected_index as int).take(i as int) =~= menu_view(iv, self.selected_index as int));
        v
    }
}

} // verus!
