//! The request for recommendations that follows a completed set of judgments.
use vstd::prelude::*;

use crate::fetch::{ErrorKind, FetchState};
use crate::photos::{copy_preferences, UserPreference};
use vstd::string::StringExecFns;

verus! {

/// One destination that the service recommends, with its score as the number's
/// decimal text.
#[derive(Clone, Debug)]
pub struct Recommendation {
    pub destination: String,
    pub score: String,
}

/// The recommendation query, with its variables: the judgments to score.
pub struct RecommendedDestinations {
    pub user_preferences: Vec<UserPreference>,
}

/// What the recommendations are made from: a snapshot of the judgments.
pub struct RecommendationsProperties {
    pub user_preferences: Vec<UserPreference>,
}

/// The events the recommendation fetch reacts to.
pub enum Msg {
    /// The fetch completed with a body. `Some` holds the recommendations of a
    /// body that decoded and carried data, in the order received; `None` stands
    /// for a body that did not.
    RecommendationsFetched(Option<Vec<Recommendation>>),
    /// The fetch failed in transport.
    RecommendationsFetchFailed,
}

/// What the recommendations show.
pub enum Listing {
    /// The request is in flight.
    Loading,
    /// One line per recommendation, in the order received.
    List(Vec<String>),
    /// The request failed, for this reason.
    Failed(ErrorKind),
}

/// The mathematical state of the recommendation fetch.
pub struct RecommendationsView {
    pub preferences: Seq<UserPreference>,
    pub state: FetchState<Seq<Recommendation>>,
}

/// The view of a fetch state over a vector of recommendations.
pub open spec fn state_view(state: FetchState<Vec<Recommendation>>) -> FetchState<
    Seq<Recommendation>,
> {
    match state {
        FetchState::Idle => FetchState::Idle,
        FetchState::Loading => FetchState::Loading,
        FetchState::Success(v) => FetchState::Success(v@),
        FetchState::Failed(e) => FetchState::Failed(e),
    }
}

/// The line that shows a recommendation: its destination, a colon, its score.
pub open spec fn label(r: Recommendation) -> Seq<char> {
    r.destination@ + ":"@ + r.score@
}

impl RecommendationsView {
    /// The state after a completion: taken only while loading, and never touching
    /// the judgments.
    pub open spec fn completed(self, state: FetchState<Seq<Recommendation>>) -> RecommendationsView {
        if self.state is Loading {
            RecommendationsView { preferences: self.preferences, state }
        } else {
            self
        }
    }

    /// The state after one message.
    pub open spec fn step(self, msg: Msg) -> RecommendationsView {
        match msg {
            Msg::RecommendationsFetched(Some(v)) => self.completed(FetchState::Success(v@)),
            Msg::RecommendationsFetched(None) => self.completed(
                FetchState::Failed(ErrorKind::DecodeError),
            ),
            Msg::RecommendationsFetchFailed => self.completed(
                FetchState::Failed(ErrorKind::TransportError),
            ),
        }
    }
}

/// The recommendation fetch for one set of judgments.
pub struct Recommendations {
    user_preferences: Vec<UserPreference>,
    state: FetchState<Vec<Recommendation>>,
}

impl View for Recommendations {
    type V = RecommendationsView;

    closed spec fn view(&self) -> RecommendationsView {
        RecommendationsView { preferences: self.user_preferences@, state: state_view(self.state) }
    }
}

/// The line that shows a recommendation.
pub fn render_recommendation(recommendation: &Recommendation) -> (r: String)
    ensures
        r@ == label(*recommendation),
{
    recommendation.destination.clone().concat(":").concat(recommendation.score.as_str())
}

impl Recommendations {
    /// A fetch for these judgments that has not started.
    pub fn create(props: RecommendationsProperties) -> (r: Recommendations)
        ensures
            r@.preferences == props.user_preferences@,
            r@.state is Idle,
    {
        Recommendations { user_preferences: props.user_preferences, state: FetchState::Idle }
    }

    /// Starts the fetch: from `Idle`, with at least one judgment, the state is
    /// `Loading` and the query to send carries a copy of every judgment. Otherwise
    /// nothing changes and `None` says that no request is to be sent, so that at
    /// most one request is ever in flight.
    pub fn fetch_recommendations(&mut self) -> (r: Option<RecommendedDestinations>)
        ensures
            final(self)@.preferences == old(self)@.preferences,
            r is Some <==> (old(self)@.state is Idle && old(self)@.preferences.len() > 0),
            r is Some ==> final(self)@.state is Loading && r->0.user_preferences@
                == old(self)@.preferences,
            r is None ==> final(self)@ == old(self)@,
    {
        if self.state.is_idle() && self.user_preferences.len() > 0 {
            self.state = FetchState::Loading;
            Some(RecommendedDestinations { user_preferences: copy_preferences(&self.user_preferences) })
        } else {
            None
        }
    }

    /// Takes a completion while loading; a completion in any other state is
    /// discarded. A body that did not decode is a `DecodeError`, never a fault.
    /// Returns whether the state changed.
    pub fn update(&mut self, msg: Msg) -> (r: bool)
        ensures
            final(self)@ == old(self)@.step(msg),
            final(self)@.preferences == old(self)@.preferences,
            r == (old(self)@.state is Loading),
    {
        if self.state.is_loading() {
            self.state = match msg {
                Msg::RecommendationsFetched(Some(v)) => FetchState::Success(v),
                Msg::RecommendationsFetched(None) => FetchState::Failed(ErrorKind::DecodeError),
                Msg::RecommendationsFetchFailed => FetchState::Failed(ErrorKind::TransportError),
            };
            true
        } else {
            false
        }
    }

    /// The judgments the recommendations are made from.
    pub fn user_preferences(&self) -> (r: &Vec<UserPreference>)
        ensures
            r@ == self@.preferences,
    {
        &self.user_preferences
    }

    /// What to show: a loading indicator while the request is in flight, the
    /// failure once it failed, and otherwise one line per recommendation received
    /// (none before the request is sent).
    pub fn listing(&self) -> (r: Listing)
        ensures
            self@.state is Loading <==> r is Loading,
            self@.state is Failed <==> r is Failed,
            self@.state is Failed ==> r->Failed_0 == self@.state->Failed_0,
            self@.state is Idle ==> r is List && r->List_0@.len() == 0,
            self@.state is Success ==> r is List && r->List_0@.len()
                == self@.state->Success_0.len() && forall|i: int|
                0 <= i < r->List_0@.len() ==> #[trigger] r->List_0@[i]@ == label(
                    self@.state->Success_0[i],
                ),
    {
        match &self.state {
            FetchState::Idle => Listing::List(Vec::new()),
            FetchState::Loading => Listing::Loading,
            FetchState::Failed(e) => Listing::Failed(*e),
            FetchState::Success(v) => {
                let mut lines: Vec<String> = Vec::with_capacity(v.len());
                let mut i: usize = 0;
                while i < v.len()
                    invariant
                        i <= v.len(),
                        lines@.len() == i,
                        forall|j: int| 0 <= j < i ==> #[trigger] lines@[j]@ == label(v@[j]),
                    decreases v.len() - i,
                {
                    lines.push(render_recommendation(&v[i]));
                    i = i + 1;
                }
                Listing::List(lines)
            },
        }
    }
}

/// A reply that does not decode leaves the fetch failed with a `DecodeError`
/// and the judgments as they were.
pub proof fn lemma_malformed_reply(v: RecommendationsView)
    requires
        v.state is Loading,
    ensures
        v.step(Msg::RecommendationsFetched(None)).state == FetchState::<Seq<Recommendation>>::Failed(
            ErrorKind::DecodeError,
        ),
        v.step(Msg::RecommendationsFetched(None)).preferences == v.preferences,
{
}

} // verus!
