//! Velo's editing core: positions and ranges, the rope-backed text buffer,
//! the editor state with its buffer list, the command set with undo, the
//! major/minor mode registry, configuration defaults, the plugin registry,
//! and the key-handling decisions of the terminal and application front ends.

pub mod position;
pub mod errors;
pub mod paths;
pub mod events;
pub mod text;
pub mod rope;
pub mod syntax;
pub mod strs;
pub mod mode;
pub mod buffer;
pub mod config;
pub mod plugin;
pub mod state;
pub mod command;
pub mod render_state;
pub mod input;
pub mod tui_keys;

pub use position::{Position, Range, Selection};
pub use errors::VeloError;
pub use events::EditorEvent;
pub use buffer::Buffer;
pub use command::{Command, DeleteChar, InsertChar, InstallPlugin, MoveCursor, OpenFile, SaveFile};
pub use config::VeloConfig;
pub use mode::{IndentStyle, KeybindingMap, MajorMode, MajorModeRegistry, MinorMode, PlainTextMode};
pub use plugin::{Plugin, PluginLifecycle, PluginManager, PluginRegistry, PLUGIN_DIR};
pub use render_state::RenderState;
pub use state::EditorState;
