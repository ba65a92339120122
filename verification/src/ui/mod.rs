//! Terminal interface logic: themes, pane layout, borders and text shaping.
pub mod color;
pub mod theme;
pub mod panes;
pub mod view;
pub mod markdown;
pub mod shadow;
pub mod neon;
pub mod chat_panel;
