//! Native-shell logic of a desktop countdown timer: the persisted geometry of
//! the main window, its JSON file form, the choice of a local port, the
//! lifecycle of the auxiliary windows and the order of steps on shutdown.

pub mod window_state;
pub mod port;
pub mod aux_window;
pub mod shutdown;
pub mod state_file;

pub use aux_window::{AuxWindow, WindowAction, WindowConfig, WindowPhase, timeup_window_config};
pub use port::{BuildMode, PortError, find_available_port};
pub use shutdown::{ShutdownStep, on_close_requested};
pub use state_file::{
    JsonScalar, StoreError, decode_window_state, encode_window_state, restore_from_file,
    state_entries, state_from_entries,
};
pub use window_state::{RestorePlan, SizePolicy, WindowState, restore_plan};
