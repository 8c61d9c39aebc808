pub mod text;
pub mod words;
pub mod character;
pub mod stat_map;
pub mod order;
pub mod combat;
pub mod combat_view;
pub mod dice;
pub mod initiative;
pub mod error_handling;
pub mod races_classes;
pub mod events;
pub mod tui;
pub mod tui_combat;
pub mod search;
pub mod tui_search;
pub mod cli;
pub mod cli_combat;
pub mod completion;
pub mod search_view;
pub mod tui_view;
pub mod search_flow;
pub mod encounter;
pub mod cli_search;
