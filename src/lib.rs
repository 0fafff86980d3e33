pub mod app;
pub mod diagram;
pub mod label;
pub mod movement;
pub mod point;

pub use app::{App, AppMessage, Intent, Key, KeyEvent};
pub use diagram::{Cell, CellBuffer, Color, Diagram, GRID_HEIGHT, GRID_WIDTH};
pub use point::{Direction, Hook, HookFamily, ProtoFamily, CATALOG_LEN};
