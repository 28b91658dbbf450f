//! Headlines: the state machine and view model of a small news reader.
//!
//! The crate holds everything the reader decides: which settings it starts
//! from, when the one background fetch is asked for and when it counts as
//! started, how arriving articles are appended, which screen a frame shows,
//! and what each article card looks like. Drawing, storage and networking are left to the embedding program,
//! which feeds plain values in and acts on the plain values it gets back.

pub mod article;
pub mod cards;
pub mod config;
pub mod frame;
pub mod headlines;
pub mod model;
pub mod session;

pub use crate::article::{FetchedArticle, NewsCardData};
pub use crate::cards::{Color, NewsCard};
pub use crate::config::HeadlinesConfig;
pub use crate::frame::{ConfigInput, FramePlan, Screen, TopPanelInput};
pub use crate::headlines::Headlines;
