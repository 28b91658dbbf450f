//! Whole sessions: what holds of the reader over any succession of frames.
//!
//! A session is the startup state followed by events, each of them one call
//! of a per-frame operation. The lemmas here speak of every such succession,
//! in whatever order the embedding program makes the calls.

use crate::article::{cards_of, ArticleRecord, FetchedRecord};
use crate::cards::{link_color, render_card, render_cards, title_color};
use crate::config::ConfigView;
use crate::frame::{ConfigInputView, Screen, TopPanelInput};
use crate::model::HeadlinesView;
use vstd::prelude::*;

verus! {

/// One call of a per-frame operation, with what it was given.
pub enum Event {
    /// The post-render hook ran.
    PostRendering,
    /// The program reported that the worker was spawned.
    FetchStarted,
    /// The per-frame update ran, with the articles that had arrived.
    Update(Seq<ArticleRecord>),
    /// The key-entry dialog was shown and reported its input.
    Config(ConfigInputView),
    /// The top bar was shown and reported its input.
    TopPanel(TopPanelInput),
}

/// The state after one event.
pub open spec fn step(state: HeadlinesView, event: Event) -> HeadlinesView {
    match event {
        Event::PostRendering => state.post_rendering(),
        Event::FetchStarted => state.fetch_started(),
        Event::Update(arrived) => state.update(arrived),
        Event::Config(input) => state.render_config(input),
        Event::TopPanel(input) => state.render_top_panel(input),
    }
}

/// The state after a succession of events, the first of them first.
pub open spec fn run(state: HeadlinesView, events: Seq<Event>) -> HeadlinesView
    decreases events.len(),
{
    if events.len() == 0 {
        state
    } else {
        step(run(state, events.drop_last()), events.last())
    }
}

/// The API keys handed out for a fetch along a succession of events.
pub open spec fn fetches(state: HeadlinesView, events: Seq<Event>) -> Seq<Seq<char>>
    decreases events.len(),
{
    if events.len() == 0 {
        Seq::empty()
    } else {
        let earlier = fetches(state, events.drop_last());
        match (events.last(), run(state, events.drop_last()).fetch_request()) {
            (Event::PostRendering, Some(key)) => earlier.push(key),
            _ => earlier,
        }
    }
}

/// The settings handed out for persisting along a succession of events.
pub open spec fn persisted(state: HeadlinesView, events: Seq<Event>) -> Seq<ConfigView>
    decreases events.len(),
{
    if events.len() == 0 {
        Seq::empty()
    } else {
        let earlier = persisted(state, events.drop_last());
        match events.last() {
            Event::Config(input) => match run(state, events.drop_last()).persist_request(input) {
                Some(config) => earlier.push(config),
                None => earlier,
            },
            _ => earlier,
        }
    }
}

/// Everything handed to the per-frame update along a succession of events,
/// batch after batch.
pub open spec fn arrivals(events: Seq<Event>) -> Seq<ArticleRecord>
    decreases events.len(),
{
    if events.len() == 0 {
        Seq::empty()
    } else {
        match events.last() {
            Event::Update(arrived) => arrivals(events.drop_last()) + arrived,
            _ => arrivals(events.drop_last()),
        }
    }
}

/// Whether the event commits an API key.
pub open spec fn commits_key(event: Event) -> bool {
    event matches Event::Config(input) && input.commits()
}

/// Whether the event leaves text in the key field.
pub open spec fn types_key(event: Event) -> bool {
    event matches Event::Config(input) && input.api_key.len() > 0
}

/// Whether the event touches the settings: the key-entry dialog was shown,
/// or the theme button was clicked.
pub open spec fn touches_settings(event: Event) -> bool {
    match event {
        Event::Config(_) => true,
        Event::TopPanel(input) => input.theme_clicked,
        _ => false,
    }
}

/// Whether no event of the succession reports a started fetch.
pub open spec fn no_start_reported(events: Seq<Event>) -> bool {
    forall|i: int| 0 <= i < events.len() ==> !((#[trigger] events[i]) is FetchStarted)
}

/// Whether no event of the succession commits an API key.
pub open spec fn no_commit(events: Seq<Event>) -> bool {
    forall|i: int| 0 <= i < events.len() ==> !commits_key(#[trigger] events[i])
}

/// Whether no event of the succession leaves text in the key field.
pub open spec fn no_key_typed(events: Seq<Event>) -> bool {
    forall|i: int| 0 <= i < events.len() ==> !types_key(#[trigger] events[i])
}

/// Whether no event of the succession touches the settings.
pub open spec fn no_settings_input(events: Seq<Event>) -> bool {
    forall|i: int| 0 <= i < events.len() ==> !touches_settings(#[trigger] events[i])
}

/// Once the key is committed it stays committed, once the fetch is asked
/// for it stays asked for, and once it is started it stays started: none of
/// the three flags ever goes back to false.
pub proof fn lemma_flags_never_revert(state: HeadlinesView, events: Seq<Event>)
    ensures
        state.api_key_initialized ==> run(state, events).api_key_initialized,
        state.fetch_requested ==> run(state, events).fetch_requested,
        state.data_is_set ==> run(state, events).data_is_set,
    decreases events.len(),
{
    if events.len() > 0 {
        lemma_flags_never_revert(state, events.drop_last());
    }
}

/// The article list is append-only: whatever happens, the list at the start
/// remains the beginning of the list at the end, entry for entry.
pub proof fn lemma_articles_append_only(state: HeadlinesView, events: Seq<Event>)
    ensures
        state.articles.is_prefix_of(run(state, events).articles),
    decreases events.len(),
{
    if events.len() > 0 {
        lemma_articles_append_only(state, events.drop_last());
    }
}

/// The fetch is asked for at most once in a session, however often the
/// post-render hook runs and whether or not a start is ever reported; it is
/// asked for with a non-empty key, and never once one was asked for or
/// started before; and the state says that a fetch was asked for exactly
/// when one was, now or before.
pub proof fn lemma_fetch_at_most_once(state: HeadlinesView, events: Seq<Event>)
    ensures
        fetches(state, events).len() <= 1,
        state.fetch_requested || state.data_is_set ==> fetches(state, events).len() == 0,
        run(state, events).fetch_requested <==> state.fetch_requested || fetches(
            state,
            events,
        ).len() == 1,
        forall|i: int|
            0 <= i < fetches(state, events).len() ==> (#[trigger] fetches(state, events)[i]).len()
                > 0,
    decreases events.len(),
{
    if events.len() > 0 {
        lemma_fetch_at_most_once(state, events.drop_last());
        lemma_flags_never_revert(state, events.drop_last());
    }
}

/// The state says that a fetch was started only on the program's report,
/// and only after the fetch was asked for: without such a report the flag
/// stays as it was, and with it false no article is taken in.
pub proof fn lemma_started_only_when_reported(state: HeadlinesView, events: Seq<Event>)
    ensures
        run(state, events).data_is_set ==> state.data_is_set || run(state, events).fetch_requested,
        no_start_reported(events) ==> run(state, events).data_is_set == state.data_is_set,
        no_start_reported(events) && !state.data_is_set ==> run(state, events).articles
            == state.articles,
    decreases events.len(),
{
    if events.len() > 0 {
        lemma_started_only_when_reported(state, events.drop_last());
    }
}

/// A fetch that was asked for and then failed leaves no partial data: after
/// the post-render hook, and until a start is reported, the state says that
/// no fetch was started, and the article list, the settings and the commit
/// flag are what they were. Only the note that the fetch was asked for is
/// new, and nothing is handed out for persisting.
pub proof fn lemma_request_leaves_no_partial_data(state: HeadlinesView)
    ensures
        state.post_rendering().data_is_set == state.data_is_set,
        state.post_rendering().articles == state.articles,
        state.post_rendering().config == state.config,
        state.post_rendering().api_key_initialized == state.api_key_initialized,
        state.post_rendering().fetch_requested == (state.fetch_requested || state.should_fetch()),
        persisted(state, seq![Event::PostRendering]).len() == 0,
{
    let events = seq![Event::PostRendering];
    assert(events.drop_last().len() == 0);
    assert(persisted(state, events.drop_last()).len() == 0);
}

/// A reported start counts exactly where a fetch was asked for: after the
/// request it marks the fetch as started, without one it changes nothing.
pub proof fn lemma_start_follows_request(state: HeadlinesView)
    ensures
        state.should_fetch() ==> state.post_rendering().fetch_started().data_is_set,
        !state.fetch_requested ==> state.fetch_started() == state,
        state.fetch_started().articles == state.articles,
        state.fetch_started().config == state.config,
{
}

/// Where there is a key and no fetch yet, the first run of the post-render
/// hook asks for the fetch with that key, and nothing that follows asks for
/// another: the session sees exactly one request.
pub proof fn lemma_fetch_exactly_once(state: HeadlinesView, events: Seq<Event>)
    requires
        state.should_fetch(),
    ensures
        fetches(state, seq![Event::PostRendering] + events) == seq![state.config.api_key],
    decreases events.len(),
{
    let first = seq![Event::PostRendering];
    if events.len() == 0 {
        assert(first + events =~= first);
        assert(first.drop_last() =~= Seq::<Event>::empty());
        assert(fetches(state, first.drop_last()) =~= Seq::<Seq<char>>::empty());
        assert(fetches(state, first) =~= seq![state.config.api_key]);
    } else {
        let earlier = first + events.drop_last();
        assert((first + events).drop_last() =~= earlier);
        assert((first + events).last() == events.last());
        lemma_fetch_exactly_once(state, events.drop_last());
        lemma_fetch_at_most_once(state, earlier);
    }
}

/// Once the fetch is started, every article handed to the per-frame update
/// ends up in the list exactly once and in arrival order, however the
/// arrivals are spread over the frames and whatever else happens between.
pub proof fn lemma_arrivals_delivered(state: HeadlinesView, events: Seq<Event>)
    requires
        state.data_is_set,
    ensures
        run(state, events).articles == state.articles + arrivals(events),
    decreases events.len(),
{
    if events.len() > 0 {
        lemma_arrivals_delivered(state, events.drop_last());
        lemma_flags_never_revert(state, events.drop_last());
    }
}

/// A response of N articles shows as N cards in the order of the response:
/// started from an empty list, once the records of the response have all
/// arrived the list holds them one for one, and so do the cards drawn.
pub proof fn lemma_response_shown_in_order(
    state: HeadlinesView,
    fetched: Seq<FetchedRecord>,
    events: Seq<Event>,
)
    requires
        state.data_is_set,
        state.articles.len() == 0,
        arrivals(events) == cards_of(fetched),
    ensures
        run(state, events).articles == cards_of(fetched),
        run(state, events).articles.len() == fetched.len(),
        forall|i: int|
            0 <= i < fetched.len() ==> (#[trigger] run(state, events).articles[i])
                == fetched[i].card(),
        render_cards(run(state, events).articles, run(state, events).config.dark_mode)
            == render_cards(cards_of(fetched), run(state, events).config.dark_mode),
        forall|i: int|
            0 <= i < fetched.len() ==> (#[trigger] render_cards(
                run(state, events).articles,
                run(state, events).config.dark_mode,
            )[i]) == render_card(fetched[i].card(), run(state, events).config.dark_mode),
{
    lemma_arrivals_delivered(state, events);
}

/// A click on the theme button flips the theme, and with it the colours of
/// every card and the visuals of the next frame; the article list and the
/// API key stay as they were, and nothing is handed out for persisting.
pub proof fn lemma_theme_toggle(state: HeadlinesView, input: TopPanelInput)
    requires
        input.theme_clicked,
    ensures
        ({
            let after = state.render_top_panel(input);
            &&& after.config.dark_mode == !state.config.dark_mode
            &&& after.plan().dark_visuals == !state.plan().dark_visuals
            &&& render_cards(after.articles, after.config.dark_mode) == render_cards(
                state.articles,
                !state.config.dark_mode,
            )
            &&& title_color(after.config.dark_mode) != title_color(state.config.dark_mode)
            &&& link_color(after.config.dark_mode) != link_color(state.config.dark_mode)
            &&& after.config.api_key == state.config.api_key
            &&& after.articles == state.articles
        }),
        persisted(state, seq![Event::TopPanel(input)]).len() == 0,
{
    let events = seq![Event::TopPanel(input)];
    assert(events.drop_last().len() == 0);
    assert(persisted(state, events.drop_last()).len() == 0);
}

/// The settings change through the key-entry dialog and the theme button
/// only: the post-render hook, the per-frame update and the other buttons
/// leave them as they are.
pub proof fn lemma_settings_change_by_input_only(state: HeadlinesView, events: Seq<Event>)
    requires
        no_settings_input(events),
    ensures
        run(state, events).config == state.config,
    decreases events.len(),
{
    if events.len() > 0 {
        lemma_settings_change_by_input_only(state, events.drop_last());
    }
}

/// Settings are handed out for persisting only when a key is committed: a
/// session in which no key-entry input commits persists nothing, theme
/// changes included.
pub proof fn lemma_persist_only_on_commit(state: HeadlinesView, events: Seq<Event>)
    requires
        no_commit(events),
    ensures
        persisted(state, events).len() == 0,
    decreases events.len(),
{
    if events.len() > 0 {
        lemma_persist_only_on_commit(state, events.drop_last());
    }
}

/// Committing a key opens the main screen for good and hands out for
/// persisting exactly the settings then in force: the committed key with the
/// current theme.
pub proof fn lemma_commit_opens_main(
    state: HeadlinesView,
    input: ConfigInputView,
    events: Seq<Event>,
)
    requires
        input.commits(),
    ensures
        state.persist_request(input) == Some(
            ConfigView { dark_mode: state.config.dark_mode, api_key: input.api_key },
        ),
        state.render_config(input).api_key_initialized,
        state.render_config(input).plan().screen == Screen::Main,
        run(state.render_config(input), events).plan().screen == Screen::Main,
{
    lemma_flags_never_revert(state.render_config(input), events);
}

/// Articles are in the list only if a fetch has been started, and a fetch
/// counts as started only if it was asked for: every event keeps it so.
pub proof fn lemma_consistent(state: HeadlinesView, events: Seq<Event>)
    requires
        state.consistent(),
    ensures
        run(state, events).consistent(),
    decreases events.len(),
{
    if events.len() > 0 {
        lemma_consistent(state, events.drop_last());
    }
}

/// From startup on, whatever the settings and whatever happens, articles
/// are in the list only if a fetch has been started, and a fetch counts as
/// started only if it was asked for.
pub proof fn lemma_session_consistent(config: ConfigView, events: Seq<Event>)
    ensures
        HeadlinesView::initial(config).consistent(),
        run(HeadlinesView::initial(config), events).consistent(),
{
    lemma_consistent(HeadlinesView::initial(config), events);
}

/// With no API key, and while none is typed, no fetch is asked for or
/// started, whatever is reported, and no article is listed; while none is
/// committed either, the key-entry dialog stays up.
pub proof fn lemma_no_key_no_fetch(config: ConfigView, events: Seq<Event>)
    requires
        config.api_key.len() == 0,
        no_key_typed(events),
    ensures
        fetches(HeadlinesView::initial(config), events).len() == 0,
        !run(HeadlinesView::initial(config), events).fetch_requested,
        !run(HeadlinesView::initial(config), events).data_is_set,
        run(HeadlinesView::initial(config), events).config.api_key.len() == 0,
        run(HeadlinesView::initial(config), events).articles.len() == 0,
        no_commit(events) ==> run(HeadlinesView::initial(config), events).plan().screen
            == Screen::KeyEntry,
    decreases events.len(),
{
    if events.len() > 0 {
        lemma_no_key_no_fetch(config, events.drop_last());
    }
}

} // verus!
