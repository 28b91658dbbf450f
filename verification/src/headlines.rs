//! The application state and its per-frame operations.

use crate::article::NewsCardData;
use crate::cards::{render_card, render_cards, NewsCard};
use crate::config::{ConfigView, HeadlinesConfig};
use crate::frame::{ConfigInput, FramePlan, Screen, TopPanelInput};
use crate::model::{theme_icon, HeadlinesView};
use vstd::prelude::*;

verus! {

/// The state of the reader, owned by the program's frame loop.
///
/// The fields are private: a session starts with [`Headlines::new`] and
/// moves on through the per-frame operations only, so every state that a
/// program can hold was reached by them.
#[derive(Debug)]
pub struct Headlines {
    articles: Vec<NewsCardData>,
    config: HeadlinesConfig,
    api_key_initialized: bool,
    fetch_requested: bool,
    data_is_set: bool,
}

impl View for Headlines {
    type V = HeadlinesView;

    closed spec fn view(&self) -> HeadlinesView {
        HeadlinesView {
            articles: self.articles.deep_view(),
            config: self.config@,
            api_key_initialized: self.api_key_initialized,
            fetch_requested: self.fetch_requested,
            data_is_set: self.data_is_set,
        }
    }
}

impl Headlines {
    /// Articles are listed only once a fetch has been started, and a fetch
    /// counts as started only once it was asked for.
    #[verifier::type_invariant]
    spec fn fetched_before_listed(&self) -> bool {
        self@.consistent()
    }

    /// Starts a session from the settings that were loaded, or from the
    /// first-run settings where loading gave none.
    pub fn new(loaded: Option<HeadlinesConfig>) -> (headlines: Headlines)
        ensures
            headlines@ == HeadlinesView::initial(ConfigView::or_initial(loaded.deep_view())),
    {
        let config = match loaded {
            Some(config) => config,
            None => HeadlinesConfig::default(),
        };
        Headlines {
            articles: Vec::new(),
            config,
            api_key_initialized: false,
            fetch_requested: false,
            data_is_set: false,
        }
    }

    /// The post-render hook. Returns the API key to fetch with when the one
    /// fetch of the session is to be attempted now, and notes that it was
    /// asked for. Whether the fetch was started is for the caller to report
    /// with [`Headlines::fetch_started`]: until then the state says that
    /// none was.
    pub fn post_rendering(&mut self) -> (request: Option<String>)
        ensures
            final(self)@ == old(self)@.post_rendering(),
            request.deep_view() == old(self)@.fetch_request(),
    {
        proof {
            use_type_invariant(&*self);
        }
        if !self.fetch_requested && !self.data_is_set && !self.config.api_key.as_str().is_empty() {
            self.fetch_requested = true;
            Some(self.config.api_key.clone())
        } else {
            None
        }
    }

    /// Records that the fetch asked for by the post-render hook was started:
    /// the request was answered and the worker spawned. Without a request
    /// nothing is recorded.
    pub fn fetch_started(&mut self)
        ensures
            final(self)@ == old(self)@.fetch_started(),
    {
        proof {
            use_type_invariant(&*self);
        }
        if self.fetch_requested {
            self.data_is_set = true;
        }
    }

    /// Appends what was drained from the channel to the article list, in
    /// arrival order. Without a started fetch nothing is taken in.
    pub fn preload_articles(&mut self, arrived: Vec<NewsCardData>)
        ensures
            final(self)@ == old(self)@.preload_articles(arrived.deep_view()),
    {
        proof {
            use_type_invariant(&*self);
        }
        if self.data_is_set {
            let mut arrived = arrived;
            // The list is taken out while it grows and put back whole.
            let mut list: Vec<NewsCardData> = Vec::new();
            core::mem::swap(&mut self.articles, &mut list);
            list.append(&mut arrived);
            self.articles = list;
        }
    }

    /// The per-frame update: takes in the arrivals and says what the frame
    /// is to show.
    pub fn update(&mut self, arrived: Vec<NewsCardData>) -> (plan: FramePlan)
        ensures
            final(self)@ == old(self)@.update(arrived.deep_view()),
            plan == old(self)@.plan(),
    {
        let dark_visuals = self.config.dark_mode;
        self.preload_articles(arrived);
        let screen = if self.api_key_initialized {
            Screen::Main
        } else {
            Screen::KeyEntry
        };
        FramePlan { dark_visuals, screen, configure_fonts: true, repaint: true }
    }

    /// The key-entry dialog: takes over the text field's content and, when
    /// the input commits it, marks the key as set and returns the settings
    /// to persist.
    pub fn render_config(&mut self, input: ConfigInput) -> (persist: Option<HeadlinesConfig>)
        ensures
            final(self)@ == old(self)@.render_config(input@),
            persist.deep_view() == old(self)@.persist_request(input@),
    {
        proof {
            use_type_invariant(&*self);
        }
        self.config.api_key = input.api_key;
        if input.lost_focus && input.enter_pressed {
            self.api_key_initialized = true;
            Some(self.config.clone())
        } else {
            None
        }
    }

    /// The icon to put on the theme button in this frame.
    pub fn theme_icon(&self) -> (icon: &'static str)
        ensures
            icon@ == theme_icon(self@.config.dark_mode),
    {
        if self.config.dark_mode {
            proof {
                reveal_strlit("🌞");
            }
            "🌞"
        } else {
            proof {
                reveal_strlit("🌙");
            }
            "🌙"
        }
    }

    /// The top bar: flips the theme when its button was clicked, and says
    /// whether the window is to close. The refresh button does nothing.
    pub fn render_top_panel(&mut self, input: TopPanelInput) -> (close: bool)
        ensures
            final(self)@ == old(self)@.render_top_panel(input),
            close == input.close_clicked,
    {
        proof {
            use_type_invariant(&*self);
        }
        if input.theme_clicked {
            self.config.dark_mode = !self.config.dark_mode;
        }
        input.close_clicked
    }

    /// The article cards of this frame: one per article, in list order,
    /// coloured by the current theme.
    pub fn render_news_cards(&self) -> (cards: Vec<NewsCard>)
        ensures
            cards.deep_view() == render_cards(self@.articles, self@.config.dark_mode),
            cards.len() == self@.articles.len(),
            forall|i: int|
                0 <= i < cards.len() ==> (#[trigger] cards[i])@ == render_card(
                    self@.articles[i],
                    self@.config.dark_mode,
                ),
    {
        let mut cards: Vec<NewsCard> = Vec::new();
        let mut i: usize = 0;
        while i < self.articles.len()
            invariant
                i <= self.articles.len(),
                cards.len() == i,
                forall|j: int|
                    0 <= j < i ==> (#[trigger] cards[j])@ == render_card(
                        self.articles[j]@,
                        self.config.dark_mode,
                    ),
            decreases self.articles.len() - i,
        {
            cards.push(NewsCard::render(&self.articles[i], self.config.dark_mode));
            i += 1;
        }
        cards
    }

    /// The article list, oldest arrival first.
    pub fn articles(&self) -> (list: &Vec<NewsCardData>)
        ensures
            list.deep_view() == self@.articles,
            list.len() == self@.articles.len(),
            forall|i: int| 0 <= i < list.len() ==> (#[trigger] list[i])@ == self@.articles[i],
            self@.consistent(),
    {
        proof {
            use_type_invariant(self);
        }
        &self.articles
    }

    /// The current settings.
    pub fn config(&self) -> (config: &HeadlinesConfig)
        ensures
            config@ == self@.config,
    {
        &self.config
    }

    /// Whether the API key has been committed in the key-entry dialog.
    pub fn api_key_initialized(&self) -> (committed: bool)
        ensures
            committed == self@.api_key_initialized,
    {
        self.api_key_initialized
    }

    /// Whether the post-render hook has asked for the fetch.
    pub fn fetch_requested(&self) -> (requested: bool)
        ensures
            requested == self@.fetch_requested,
    {
        self.fetch_requested
    }

    /// Whether the background fetch has been started. While it has not,
    /// the article list is empty; once it has, it had been asked for.
    pub fn data_is_set(&self) -> (started: bool)
        ensures
            started == self@.data_is_set,
            self@.consistent(),
    {
        proof {
            use_type_invariant(self);
        }
        self.data_is_set
    }
}

} // verus!
