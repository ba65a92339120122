pub mod mascot;
pub mod text;
pub mod browser;
pub mod tabs;
pub mod search;
pub mod config;
pub mod app;
pub mod ui;
pub mod storage;
pub mod chat;
pub mod json;
pub mod fetch;
pub mod engines;
pub mod assistant;
pub mod fixtures;
pub mod scrape;
pub mod ai;
pub mod memory;
pub mod rag;
