//! User settings: the theme flag and the news API key.

use vstd::prelude::*;

verus! {

/// Mathematical value of a [`HeadlinesConfig`].
#[verifier::ext_equal]
pub struct ConfigView {
    pub dark_mode: bool,
    pub api_key: Seq<char>,
}

impl ConfigView {
    /// The settings of a first run: light theme, no API key.
    pub open spec fn initial() -> ConfigView {
        ConfigView { dark_mode: false, api_key: Seq::empty() }
    }

    /// The settings that stand in for `loaded`: the loaded record when there
    /// is one, the first-run settings otherwise.
    pub open spec fn or_initial(loaded: Option<ConfigView>) -> ConfigView {
        match loaded {
            Some(c) => c,
            None => ConfigView::initial(),
        }
    }
}

/// Persisted user configuration.
#[derive(Debug)]
pub struct HeadlinesConfig {
    pub dark_mode: bool,
    pub api_key: String,
}

impl View for HeadlinesConfig {
    type V = ConfigView;

    open spec fn view(&self) -> ConfigView {
        ConfigView { dark_mode: self.dark_mode, api_key: self.api_key@ }
    }
}

impl DeepView for HeadlinesConfig {
    type V = ConfigView;

    open spec fn deep_view(&self) -> ConfigView {
        self@
    }
}

impl Default for HeadlinesConfig {
    fn default() -> (config: Self)
        ensures
            config@ == ConfigView::initial(),
    {
        HeadlinesConfig { dark_mode: false, api_key: String::new() }
    }
}

impl Clone for HeadlinesConfig {
    fn clone(&self) -> (copy: Self)
        ensures
            copy@ == self@,
    {
        HeadlinesConfig { dark_mode: self.dark_mode, api_key: self.api_key.clone() }
    }
}

} // verus!
