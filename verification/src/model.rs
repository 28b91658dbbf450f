//! The reader as a mathematical state machine: its state, and what each
//! per-frame operation makes of it.

use crate::article::ArticleRecord;
use crate::config::ConfigView;
use crate::frame::{ConfigInputView, FramePlan, Screen, TopPanelInput};
use vstd::prelude::*;

verus! {

/// Mathematical value of the application state.
#[verifier::ext_equal]
pub struct HeadlinesView {
    /// The article list, oldest arrival first.
    pub articles: Seq<ArticleRecord>,
    pub config: ConfigView,
    /// Whether the API key has been committed in the key-entry dialog.
    pub api_key_initialized: bool,
    /// Whether the post-render hook has asked for the fetch.
    pub fetch_requested: bool,
    /// Whether the background fetch has been started: the request was
    /// answered and the worker is running.
    pub data_is_set: bool,
}

/// The icon on the theme button: the sun while the dark theme is on, the
/// moon while the light theme is on.
pub open spec fn theme_icon(dark_mode: bool) -> Seq<char> {
    if dark_mode {
        seq!['🌞']
    } else {
        seq!['🌙']
    }
}

impl HeadlinesView {
    /// The state at startup: no articles, nothing committed, nothing asked
    /// for, nothing fetched.
    pub open spec fn initial(config: ConfigView) -> HeadlinesView {
        HeadlinesView {
            articles: Seq::empty(),
            config,
            api_key_initialized: false,
            fetch_requested: false,
            data_is_set: false,
        }
    }

    /// Whether the state holds articles only if a fetch has been started,
    /// and says that a fetch has been started only if one was asked for.
    pub open spec fn consistent(self) -> bool {
        &&& self.articles.len() > 0 ==> self.data_is_set
        &&& self.data_is_set ==> self.fetch_requested
    }

    /// Whether the post-render hook asks for the fetch: none has been asked
    /// for or started, and there is an API key.
    pub open spec fn should_fetch(self) -> bool {
        !self.fetch_requested && !self.data_is_set && self.config.api_key.len() > 0
    }

    /// The API key that the post-render hook hands out for the fetch, if it
    /// asks for one.
    pub open spec fn fetch_request(self) -> Option<Seq<char>> {
        if self.should_fetch() {
            Some(self.config.api_key)
        } else {
            None
        }
    }

    /// The state after the post-render hook: where it asks for the fetch it
    /// notes that it did, and nothing else changes. That a fetch has been
    /// started is not recorded here.
    pub open spec fn post_rendering(self) -> HeadlinesView {
        if self.should_fetch() {
            HeadlinesView { fetch_requested: true, ..self }
        } else {
            self
        }
    }

    /// The state after the program reported that the worker was spawned:
    /// where a fetch was asked for, it now counts as started.
    pub open spec fn fetch_started(self) -> HeadlinesView {
        if self.fetch_requested {
            HeadlinesView { data_is_set: true, ..self }
        } else {
            self
        }
    }

    /// The state after draining `arrived` from the channel. Articles are
    /// taken in only while a fetch has been started.
    pub open spec fn preload_articles(self, arrived: Seq<ArticleRecord>) -> HeadlinesView {
        if self.data_is_set {
            HeadlinesView { articles: self.articles + arrived, ..self }
        } else {
            self
        }
    }

    /// The screen that the state calls for.
    pub open spec fn screen(self) -> Screen {
        if self.api_key_initialized {
            Screen::Main
        } else {
            Screen::KeyEntry
        }
    }

    /// The plan of a frame that starts in this state: visuals by the theme,
    /// the screen by whether a key was committed. Fonts are set up and a
    /// repaint is asked for in every frame, since articles may arrive at any
    /// time without an input event to announce them.
    pub open spec fn plan(self) -> FramePlan {
        FramePlan {
            dark_visuals: self.config.dark_mode,
            screen: self.screen(),
            configure_fonts: true,
            repaint: true,
        }
    }

    /// The state after the per-frame update with the given arrivals.
    pub open spec fn update(self, arrived: Seq<ArticleRecord>) -> HeadlinesView {
        self.preload_articles(arrived)
    }

    /// The state after the key-entry dialog reported `input`.
    pub open spec fn render_config(self, input: ConfigInputView) -> HeadlinesView {
        HeadlinesView {
            config: ConfigView { api_key: input.api_key, ..self.config },
            api_key_initialized: self.api_key_initialized || input.commits(),
            ..self
        }
    }

    /// The settings that the key-entry dialog asks to be persisted after
    /// `input`, if any.
    pub open spec fn persist_request(self, input: ConfigInputView) -> Option<ConfigView> {
        if input.commits() {
            Some(self.render_config(input).config)
        } else {
            None
        }
    }

    /// The state after the top bar reported `input`.
    pub open spec fn render_top_panel(self, input: TopPanelInput) -> HeadlinesView {
        if input.theme_clicked {
            HeadlinesView {
                config: ConfigView { dark_mode: !self.config.dark_mode, ..self.config },
                ..self
            }
        } else {
            self
        }
    }
}

} // verus!
