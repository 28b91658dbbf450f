//! Article records: what the news service hands over, and the display data
//! the reader keeps for each of them.

use vstd::prelude::*;

verus! {

/// Mathematical value of a [`NewsCardData`]: one news item's display data.
#[verifier::ext_equal]
pub struct ArticleRecord {
    pub title: Seq<char>,
    pub desc: Seq<char>,
    pub url: Seq<char>,
}

/// Mathematical value of a [`FetchedArticle`].
#[verifier::ext_equal]
pub struct FetchedRecord {
    pub title: Seq<char>,
    pub description: Option<Seq<char>>,
    pub url: Seq<char>,
}

/// The text shown in place of a description that the news service left out.
pub open spec fn placeholder() -> Seq<char> {
    seq!['.', '.', '.']
}

impl FetchedRecord {
    /// The display data of a fetched article: title and URL as delivered,
    /// the description as delivered or, where there is none, the placeholder.
    pub open spec fn card(self) -> ArticleRecord {
        ArticleRecord {
            title: self.title,
            desc: match self.description {
                Some(d) => d,
                None => placeholder(),
            },
            url: self.url,
        }
    }
}

/// The display data of a whole response, article by article, in the order
/// of the response.
pub open spec fn cards_of(fetched: Seq<FetchedRecord>) -> Seq<ArticleRecord> {
    fetched.map_values(|a: FetchedRecord| a.card())
}

/// One article as the news service delivers it.
#[derive(Debug)]
pub struct FetchedArticle {
    pub title: String,
    pub description: Option<String>,
    pub url: String,
}

impl View for FetchedArticle {
    type V = FetchedRecord;

    open spec fn view(&self) -> FetchedRecord {
        FetchedRecord {
            title: self.title@,
            description: match self.description {
                Some(d) => Some(d@),
                None => None,
            },
            url: self.url@,
        }
    }
}

impl DeepView for FetchedArticle {
    type V = FetchedRecord;

    open spec fn deep_view(&self) -> FetchedRecord {
        self@
    }
}

/// Display data of one news item, as held in the article list.
#[derive(Debug)]
pub struct NewsCardData {
    pub title: String,
    pub desc: String,
    pub url: String,
}

impl View for NewsCardData {
    type V = ArticleRecord;

    open spec fn view(&self) -> ArticleRecord {
        ArticleRecord { title: self.title@, desc: self.desc@, url: self.url@ }
    }
}

impl DeepView for NewsCardData {
    type V = ArticleRecord;

    open spec fn deep_view(&self) -> ArticleRecord {
        self@
    }
}

impl Clone for NewsCardData {
    fn clone(&self) -> (copy: Self)
        ensures
            copy@ == self@,
    {
        NewsCardData {
            title: self.title.clone(),
            desc: self.desc.clone(),
            url: self.url.clone(),
        }
    }
}

impl NewsCardData {
    /// Builds the display data of one fetched article. A missing description
    /// becomes `"..."`.
    pub fn from_fetched(article: &FetchedArticle) -> (card: NewsCardData)
        ensures
            card@ == article@.card(),
    {
        let desc = match &article.description {
            Some(d) => d.clone(),
            None => {
                proof {
                    reveal_strlit("...");
                }
                "...".to_owned()
            },
        };
        NewsCardData { title: article.title.clone(), desc, url: article.url.clone() }
    }

    /// Builds the display data of a whole response: one card per article, in
    /// the order of the response, none dropped and none repeated.
    pub fn from_response(articles: &Vec<FetchedArticle>) -> (cards: Vec<NewsCardData>)
        ensures
            cards.deep_view() == cards_of(articles.deep_view()),
            cards.len() == articles.len(),
            forall|i: int| 0 <= i < cards.len() ==> (#[trigger] cards[i])@ == articles[i]@.card(),
    {
        let mut cards: Vec<NewsCardData> = Vec::new();
        let mut i: usize = 0;
        while i < articles.len()
            invariant
                i <= articles.len(),
                cards.len() == i,
                forall|j: int| 0 <= j < i ==> (#[trigger] cards[j])@ == articles[j]@.card(),
            decreases articles.len() - i,
        {
            cards.push(NewsCardData::from_fetched(&articles[i]));
            i += 1;
        }
        cards
    }
}

} // verus!
