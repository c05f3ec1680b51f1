//! Progress tracking for recurring tasks: calendar arithmetic, fill ratios,
//! the task record and its flat form, the application state with its sync
//! state machine, and the reversible token obfuscation.

pub mod calendar;
pub mod task;
pub mod progress;
pub mod creation;
pub mod encoding;
pub mod sync_mode;
pub mod state;
pub mod sync;

pub use calendar::{calculate_completion_date, default_effective_dow, generate_date_range, Date, Weekday};
pub use encoding::{decode, encode};
pub use progress::{fill_ratio_parallel_universe, fill_ratio_user_universe, FillRatio};
pub use state::{AppState, SerializableState};
pub use sync_mode::SyncMode;
pub use task::{MyTask, SerializableTask};
