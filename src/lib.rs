//! A paginated-content server core: a navigation state machine over an
//! immutable magazine, and the per-connection session decisions around it.

pub mod palette;
pub mod screen;
pub mod telnet;
pub mod text;
pub mod zine;
pub mod zine_handler;

pub use palette::{color_from_lowercase, color_from_name, NamedColor};
pub use telnet::{decode_line, ReadEvent, SessionAction, TelnetHandler, TelnetSession};
pub use text::{format_decimal, page_number_from_file_name, parse_u32, parse_usize};
pub use zine::{sort_pages, Magazine, Page, Section};
pub use zine_handler::{is_quit, quit_response, transition, ZineHandler, ZineState};
