//! Article cards as they are drawn: texts and colours, chosen by theme.

use crate::article::{ArticleRecord, NewsCardData};
use vstd::prelude::*;

verus! {

/// The colours the reader paints with.
#[derive(Clone, Copy, PartialEq, Eq, Debug, Structural)]
pub enum Color {
    White,
    Cyan,
    Black,
    Red,
}

impl Color {
    /// Red, green and blue channel of the colour, each from 0 to 255.
    pub open spec fn channels(self) -> (u8, u8, u8) {
        match self {
            Color::White => (255u8, 255u8, 255u8),
            Color::Cyan => (0u8, 255u8, 255u8),
            Color::Black => (0u8, 0u8, 0u8),
            Color::Red => (255u8, 0u8, 0u8),
        }
    }

    /// Red, green and blue channel of the colour, for the toolkit that draws.
    pub fn rgb(self) -> (rgb: (u8, u8, u8))
        ensures
            rgb == self.channels(),
    {
        match self {
            Color::White => (255, 255, 255),
            Color::Cyan => (0, 255, 255),
            Color::Black => (0, 0, 0),
            Color::Red => (255, 0, 0),
        }
    }
}

/// Colour of a card's title: white on the dark theme, black on the light one.
pub open spec fn title_color(dark_mode: bool) -> Color {
    if dark_mode {
        Color::White
    } else {
        Color::Black
    }
}

/// Colour of a card's hyperlink: cyan on the dark theme, red on the light one.
pub open spec fn link_color(dark_mode: bool) -> Color {
    if dark_mode {
        Color::Cyan
    } else {
        Color::Red
    }
}

/// The marker that precedes every card title.
pub open spec fn title_prefix() -> Seq<char> {
    seq!['▶', ' ']
}

/// Mathematical value of a [`NewsCard`].
#[verifier::ext_equal]
pub struct NewsCardView {
    pub title: Seq<char>,
    pub title_color: Color,
    pub desc: Seq<char>,
    pub link_color: Color,
    pub url: Seq<char>,
}

/// The card drawn for one article under the given theme.
pub open spec fn render_card(article: ArticleRecord, dark_mode: bool) -> NewsCardView {
    NewsCardView {
        title: title_prefix() + article.title,
        title_color: title_color(dark_mode),
        desc: article.desc,
        link_color: link_color(dark_mode),
        url: article.url,
    }
}

/// The cards drawn for an article list under the given theme: one per
/// article, in list order.
pub open spec fn render_cards(articles: Seq<ArticleRecord>, dark_mode: bool) -> Seq<NewsCardView> {
    articles.map_values(|a: ArticleRecord| render_card(a, dark_mode))
}

/// One article card, ready to be drawn.
#[derive(Debug)]
pub struct NewsCard {
    /// The title line, marker included.
    pub title: String,
    pub title_color: Color,
    pub desc: String,
    /// Colour of the outbound hyperlink.
    pub link_color: Color,
    /// Target of the outbound hyperlink.
    pub url: String,
}

impl View for NewsCard {
    type V = NewsCardView;

    open spec fn view(&self) -> NewsCardView {
        NewsCardView {
            title: self.title@,
            title_color: self.title_color,
            desc: self.desc@,
            link_color: self.link_color,
            url: self.url@,
        }
    }
}

impl DeepView for NewsCard {
    type V = NewsCardView;

    open spec fn deep_view(&self) -> NewsCardView {
        self@
    }
}

impl NewsCard {
    /// Lays out the card of one article under the given theme.
    pub fn render(article: &NewsCardData, dark_mode: bool) -> (card: NewsCard)
        ensures
            card@ == render_card(article@, dark_mode),
    {
        proof {
            reveal_strlit("▶ ");
        }
        let mut title = String::from_str("▶ ");
        title.append(article.title.as_str());
        NewsCard {
            title,
            title_color: if dark_mode { Color::White } else { Color::Black },
            desc: article.desc.clone(),
            link_color: if dark_mode { Color::Cyan } else { Color::Red },
            url: article.url.clone(),
        }
    }
}

} // verus!
