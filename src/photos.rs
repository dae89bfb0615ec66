//! The photo feed and the preference collector that walks it.
use vstd::prelude::*;

use crate::fetch::{ErrorKind, FetchState};
use vstd::string::StringExecFns;

verus! {

/// One judgment: whether the user liked the photo with this marker.
#[derive(Clone, Debug)]
pub struct UserPreference {
    pub marker: String,
    pub like: bool,
}

/// One photo of the feed: its unique marker and the file that shows it.
#[derive(Clone, Debug)]
pub struct Photo {
    pub marker: String,
    pub file: String,
}

/// The item query, with its variables: how many photos to ask for per category.
pub struct PoiPhotos {
    pub count_per_category: u64,
}

/// The number of photos per category that the feed asks for.
pub const COUNT_PER_CATEGORY: u64 = 3;

/// The events the collector reacts to.
pub enum Msg {
    Like,
    Dislike,
    /// The item fetch completed with a body. `Some` holds the photos of a body
    /// that decoded and carried data; `None` stands for a body that did not.
    PhotosFetched(Option<Vec<Photo>>),
    /// The item fetch failed in transport.
    PhotosFetchFailed,
}

/// What an update asks of its caller.
pub struct Outcome {
    /// Whether the state changed, so that the view must be drawn again.
    pub render: bool,
    /// The judgments to send to the recommendation service, present exactly when
    /// this update made the collector exhausted with at least one judgment.
    pub recommend: Option<Vec<UserPreference>>,
}

/// What the collector shows.
pub enum Screen {
    /// The item fetch has not completed yet.
    Loading,
    /// The photo at this path is presented for judgment.
    Photo(String),
    /// Every photo is judged: the recommendations take the screen.
    Recommendations,
    /// No photo is available: a placeholder image is shown.
    Placeholder,
}

/// The mathematical state of the collector.
pub struct PhotosView {
    pub feed: FetchState<Seq<Photo>>,
    pub index: nat,
    pub preferences: Seq<UserPreference>,
}

/// The photos a feed holds: those of a successful fetch, none otherwise.
pub open spec fn items_of(feed: FetchState<Seq<Photo>>) -> Seq<Photo> {
    match feed {
        FetchState::Success(items) => items,
        _ => Seq::empty(),
    }
}

/// The judgment recorded for `item`.
pub open spec fn judgment_of(item: Photo, like: bool) -> UserPreference {
    UserPreference { marker: item.marker, like }
}

impl PhotosView {
    pub open spec fn items(self) -> Seq<Photo> {
        items_of(self.feed)
    }

    /// The item fetch has completed, one way or the other.
    pub open spec fn settled(self) -> bool {
        self.feed is Success || self.feed is Failed
    }

    /// Presenting the photo at `index`.
    pub open spec fn presenting(self) -> bool {
        self.settled() && self.index < self.items().len()
    }

    /// Every photo of a settled feed has its judgment.
    pub open spec fn exhausted(self) -> bool {
        self.settled() && self.index == self.items().len()
    }

    /// Exhausted with at least one judgment: the state in which recommendations
    /// are asked for.
    pub open spec fn complete(self) -> bool {
        self.exhausted() && self.preferences.len() > 0
    }

    /// One judgment per presented photo, in the order of presentation.
    pub open spec fn wf(self) -> bool {
        &&& self.index <= self.items().len()
        &&& self.preferences.len() == self.index
        &&& forall|i: int|
            0 <= i < self.index ==> #[trigger] self.preferences[i] == judgment_of(
                self.items()[i],
                self.preferences[i].like,
            )
    }

    /// The state after a judgment: recorded for the presented photo, or nothing
    /// at all when no photo is presented.
    pub open spec fn judged(self, like: bool) -> PhotosView {
        if self.index < self.items().len() {
            PhotosView {
                feed: self.feed,
                index: self.index + 1,
                preferences: self.preferences.push(
                    judgment_of(self.items()[self.index as int], like),
                ),
            }
        } else {
            self
        }
    }

    /// The state after the item fetch completes: taken only while it is loading.
    pub open spec fn received(self, feed: FetchState<Seq<Photo>>) -> PhotosView {
        if self.feed is Loading {
            PhotosView { feed, index: 0, preferences: Seq::empty() }
        } else {
            self
        }
    }

    /// The state after one message.
    pub open spec fn step(self, msg: Msg) -> PhotosView {
        match msg {
            Msg::Like => self.judged(true),
            Msg::Dislike => self.judged(false),
            Msg::PhotosFetched(Some(items)) => self.received(FetchState::Success(items@)),
            Msg::PhotosFetched(None) => self.received(FetchState::Failed(ErrorKind::DecodeError)),
            Msg::PhotosFetchFailed => self.received(FetchState::Failed(ErrorKind::TransportError)),
        }
    }

    /// Whether the message starts the recommendation fetch: it makes the
    /// collector complete.
    pub open spec fn triggers(self, msg: Msg) -> bool {
        !self.complete() && self.step(msg).complete()
    }

    /// The state after a sequence of messages.
    pub open spec fn run(self, msgs: Seq<Msg>) -> PhotosView
        decreases msgs.len(),
    {
        if msgs.len() == 0 {
            self
        } else {
            self.step(msgs[0]).run(msgs.drop_first())
        }
    }

    /// How many messages of the sequence start the recommendation fetch.
    pub open spec fn trigger_count(self, msgs: Seq<Msg>) -> nat
        decreases msgs.len(),
    {
        if msgs.len() == 0 {
            0
        } else {
            (if self.triggers(msgs[0]) { 1nat } else { 0nat }) + self.step(msgs[0]).trigger_count(
                msgs.drop_first(),
            )
        }
    }

    /// The state after a judgment for each entry of `likes`, in order.
    pub open spec fn judge_all(self, likes: Seq<bool>) -> PhotosView
        decreases likes.len(),
    {
        if likes.len() == 0 {
            self
        } else {
            self.judged(likes[0]).judge_all(likes.drop_first())
        }
    }
}

/// The view of a fetch state over a vector of photos.
pub open spec fn feed_view(feed: FetchState<Vec<Photo>>) -> FetchState<Seq<Photo>> {
    match feed {
        FetchState::Idle => FetchState::Idle,
        FetchState::Loading => FetchState::Loading,
        FetchState::Success(items) => FetchState::Success(items@),
        FetchState::Failed(e) => FetchState::Failed(e),
    }
}

/// The path under which a photo file is served.
pub open spec fn photo_path(file: Seq<char>) -> Seq<char> {
    "/photos/"@ + file
}

/// The item feed and the preference collector of one session.
pub struct Photos {
    feed: FetchState<Vec<Photo>>,
    active_image_index: usize,
    user_preferences: Vec<UserPreference>,
}

impl View for Photos {
    type V = PhotosView;

    closed spec fn view(&self) -> PhotosView {
        PhotosView {
            feed: feed_view(self.feed),
            index: self.active_image_index as nat,
            preferences: self.user_preferences@,
        }
    }
}

/// Copies a sequence of judgments value for value.
pub fn copy_preferences(prefs: &Vec<UserPreference>) -> (r: Vec<UserPreference>)
    ensures
        r@ == prefs@,
{
    let mut r: Vec<UserPreference> = Vec::with_capacity(prefs.len());
    let mut i: usize = 0;
    while i < prefs.len()
        invariant
            i <= prefs.len(),
            r@ == prefs@.subrange(0, i as int),
        decreases prefs.len() - i,
    {
        let p = &prefs[i];
        r.push(UserPreference { marker: p.marker.clone(), like: p.like });
        i = i + 1;
        proof {
            assert(r@ =~= prefs@.subrange(0, i as int));
        }
    }
    proof {
        assert(r@ =~= prefs@);
    }
    r
}

impl Photos {
    /// A collector whose item fetch has not started.
    pub fn create() -> (r: Photos)
        ensures
            r@.feed is Idle,
            r@.index == 0,
            r@.preferences.len() == 0,
            r@.wf(),
    {
        Photos { feed: FetchState::Idle, active_image_index: 0, user_preferences: Vec::new() }
    }

    /// Starts the item fetch: from `Idle` the feed is `Loading` and the query to
    /// send is returned; in any other state nothing changes and `None` says that no
    /// request is to be sent.
    pub fn fetch_photos(&mut self) -> (r: Option<PoiPhotos>)
        requires
            old(self)@.wf(),
        ensures
            final(self)@.wf(),
            old(self)@.feed is Idle ==> final(self)@ == (PhotosView {
                feed: FetchState::Loading,
                ..old(self)@
            }) && r == Some(PoiPhotos { count_per_category: COUNT_PER_CATEGORY }),
            !(old(self)@.feed is Idle) ==> final(self)@ == old(self)@ && r is None,
    {
        if self.feed.is_idle() {
            self.feed = FetchState::Loading;
            Some(PoiPhotos { count_per_category: COUNT_PER_CATEGORY })
        } else {
            None
        }
    }

    /// The marker of the presented photo, if a photo is presented.
    fn current_marker(&self) -> (r: Option<String>)
        ensures
            r is Some <==> self@.index < self@.items().len(),
            r is Some ==> r->0 == self@.items()[self@.index as int].marker,
            self@.items().len() <= usize::MAX,
    {
        match &self.feed {
            FetchState::Success(items) => {
                if self.active_image_index < items.len() {
                    Some(items[self.active_image_index].marker.clone())
                } else {
                    None
                }
            },
            _ => None,
        }
    }

    /// Records a judgment for the presented photo and moves to the next one. When
    /// no photo is presented (the feed is exhausted, empty or not loaded) nothing
    /// changes. Returns whether a judgment was recorded.
    pub fn handle_user_reaction(&mut self, like: bool) -> (r: bool)
        requires
            old(self)@.wf(),
        ensures
            final(self)@.wf(),
            final(self)@ == old(self)@.judged(like),
            r == (old(self)@.index < old(self)@.items().len()),
    {
        match self.current_marker() {
            Some(marker) => {
                self.active_image_index = self.active_image_index + 1;
                self.user_preferences.push(UserPreference { marker, like });
                proof {
                    let v = old(self)@;
                    let w = self@;
                    assert(w.preferences =~= v.preferences.push(
                        judgment_of(v.items()[v.index as int], like),
                    ));
                    assert forall|i: int| 0 <= i < w.index implies #[trigger] w.preferences[i]
                        == judgment_of(w.items()[i], w.preferences[i].like) by {
                        if i < v.index {
                            assert(w.preferences[i] == v.preferences[i]);
                        }
                    }
                }
                true
            },
            None => false,
        }
    }

    /// Reacts to one message, as `PhotosView::step` says, and hands out the
    /// judgments exactly when the message makes the collector complete.
    pub fn update(&mut self, msg: Msg) -> (r: Outcome)
        requires
            old(self)@.wf(),
        ensures
            final(self)@.wf(),
            final(self)@ == old(self)@.step(msg),
            r.render == (final(self)@ != old(self)@),
            r.recommend is Some <==> old(self)@.triggers(msg),
            r.recommend is Some ==> r.recommend->0@ == final(self)@.preferences,
    {
        let ghost before = self@;
        let render = match msg {
            Msg::Like => self.handle_user_reaction(true),
            Msg::Dislike => self.handle_user_reaction(false),
            Msg::PhotosFetched(Some(items)) => self.receive(FetchState::Success(items)),
            Msg::PhotosFetched(None) => self.receive(FetchState::Failed(ErrorKind::DecodeError)),
            Msg::PhotosFetchFailed => self.receive(
                FetchState::Failed(ErrorKind::TransportError),
            ),
        };
        proof {
            if !render {
                assert(self@ == before);
            } else {
                assert(self@ != before) by {
                    if before.index < before.items().len() && (msg is Like || msg is Dislike) {
                        assert(self@.index != before.index);
                    } else {
                        assert(self@.feed != before.feed);
                    }
                }
            }
        }
        let recommend = if render && self.is_complete() {
            Some(copy_preferences(&self.user_preferences))
        } else {
            None
        };
        Outcome { render, recommend }
    }

    /// Takes the completed item fetch while it is loading; otherwise the result
    /// is discarded. Returns whether it was taken.
    fn receive(&mut self, feed: FetchState<Vec<Photo>>) -> (r: bool)
        requires
            old(self)@.wf(),
            !(feed is Idle || feed is Loading),
        ensures
            final(self)@.wf(),
            final(self)@ == old(self)@.received(feed_view(feed)),
            r == (old(self)@.feed is Loading),
    {
        if self.feed.is_loading() {
            self.feed = feed;
            self.active_image_index = 0;
            self.user_preferences = Vec::new();
            proof {
                assert(self@.preferences =~= Seq::<UserPreference>::empty());
            }
            true
        } else {
            false
        }
    }

    /// Whether every photo of a settled feed has its judgment and there is at
    /// least one.
    pub fn is_complete(&self) -> (r: bool)
        requires
            self@.wf(),
        ensures
            r == self@.complete(),
    {
        self.is_exhausted() && self.user_preferences.len() > 0
    }

    /// Whether every photo of a settled feed has its judgment.
    pub fn is_exhausted(&self) -> (r: bool)
        ensures
            r == self@.exhausted(),
    {
        match &self.feed {
            FetchState::Success(items) => self.active_image_index == items.len(),
            FetchState::Failed(_) => self.active_image_index == 0,
            _ => false,
        }
    }

    /// The presented photo, or `None` when there is none.
    pub fn current_item(&self) -> (r: Option<&Photo>)
        ensures
            r is Some <==> self@.presenting(),
            r is Some ==> *r->0 == self@.items()[self@.index as int],
    {
        match &self.feed {
            FetchState::Success(items) => {
                if self.active_image_index < items.len() {
                    Some(&items[self.active_image_index])
                } else {
                    None
                }
            },
            _ => None,
        }
    }

    /// The judgments recorded so far, in the order of presentation.
    pub fn user_preferences(&self) -> (r: &Vec<UserPreference>)
        ensures
            r@ == self@.preferences,
    {
        &self.user_preferences
    }

    /// The position of the presented photo, or the number of photos once exhausted.
    pub fn active_image_index(&self) -> (r: usize)
        ensures
            r == self@.index,
    {
        self.active_image_index
    }

    /// What to show: a loading indicator until the item fetch completes, the
    /// presented photo, the recommendations once every photo of a non-empty feed
    /// is judged, and a placeholder when no photo is available.
    pub fn screen(&self) -> (r: Screen)
        requires
            self@.wf(),
        ensures
            !self@.settled() <==> r is Loading,
            self@.presenting() <==> r is Photo,
            self@.presenting() ==> r->Photo_0@ == photo_path(
                self@.items()[self@.index as int].file@,
            ),
            self@.complete() <==> r is Recommendations,
            (self@.exhausted() && self@.preferences.len() == 0) <==> r is Placeholder,
    {
        if !self.feed.is_loading() && !self.feed.is_idle() {
            match self.current_item() {
                Some(photo) => {
                    let path = String::from_str("/photos/").concat(photo.file.as_str());
                    Screen::Photo(path)
                },
                None => {
                    if self.is_complete() {
                        Screen::Recommendations
                    } else {
                        Screen::Placeholder
                    }
                },
            }
        } else {
            Screen::Loading
        }
    }
}

/// A judgment when no photo is presented leaves the judgments and the position
/// as they are.
pub proof fn lemma_judge_when_exhausted_is_noop(v: PhotosView, like: bool)
    requires
        v.wf(),
        v.index == v.items().len(),
    ensures
        v.judged(like) == v,
{
}

/// Judgments keep the state well formed.
pub proof fn lemma_judged_wf(v: PhotosView, like: bool)
    requires
        v.wf(),
    ensures
        v.judged(like).wf(),
{
    let w = v.judged(like);
    if v.index < v.items().len() {
        assert forall|i: int| 0 <= i < w.index implies #[trigger] w.preferences[i] == judgment_of(
            w.items()[i],
            w.preferences[i].like,
        ) by {
            if i < v.index {
                assert(w.preferences[i] == v.preferences[i]);
            }
        }
    }
}

/// After `k` judgments on a freshly loaded feed of at least `k` photos, there are
/// `k` judgments, the position is `k`, and judgment `i` is the `i`-th answer given
/// for the `i`-th photo.
pub proof fn lemma_judgment_count(v: PhotosView, likes: Seq<bool>)
    requires
        v.wf(),
        v.settled(),
        v.index == 0,
        likes.len() <= v.items().len(),
    ensures
        v.judge_all(likes).index == likes.len(),
        v.judge_all(likes).preferences.len() == likes.len(),
        forall|i: int|
            0 <= i < likes.len() ==> #[trigger] v.judge_all(likes).preferences[i] == judgment_of(
                v.items()[i],
                likes[i],
            ),
{
    lemma_judge_all_from(v, likes);
    assert forall|i: int| 0 <= i < likes.len() implies #[trigger] v.judge_all(likes).preferences[i]
        == judgment_of(v.items()[i], likes[i]) by {
        assert(v.judge_all(likes).preferences[v.index + i] == judgment_of(
            v.items()[v.index + i],
            likes[i],
        ));
    }
}

/// Judgments from any position: each advances the position by one and records
/// its answer for the photo at that position.
proof fn lemma_judge_all_from(v: PhotosView, likes: Seq<bool>)
    requires
        v.wf(),
        v.index + likes.len() <= v.items().len(),
    ensures
        v.judge_all(likes).wf(),
        v.judge_all(likes).feed == v.feed,
        v.judge_all(likes).index == v.index + likes.len(),
        v.judge_all(likes).preferences.len() == v.index + likes.len(),
        v.judge_all(likes).preferences.subrange(0, v.index as int) == v.preferences,
        forall|i: int|
            0 <= i < likes.len() ==> #[trigger] v.judge_all(likes).preferences[v.index + i]
                == judgment_of(v.items()[v.index + i], likes[i]),
    decreases likes.len(),
{
    if likes.len() > 0 {
        let w = v.judged(likes[0]);
        let rest = likes.drop_first();
        lemma_judged_wf(v, likes[0]);
        lemma_judge_all_from(w, rest);
        let r = v.judge_all(likes);
        assert(r == w.judge_all(rest));
        assert(r.preferences.subrange(0, v.index as int) =~= v.preferences) by {
            assert(r.preferences.subrange(0, w.index as int) == w.preferences);
            assert forall|i: int| 0 <= i < v.index implies r.preferences[i] == v.preferences[i] by {
                assert(r.preferences.subrange(0, w.index as int)[i] == w.preferences[i]);
            }
        }
        assert forall|i: int| 0 <= i < likes.len() implies #[trigger] r.preferences[v.index + i]
            == judgment_of(v.items()[v.index + i], likes[i]) by {
            if i == 0 {
                assert(r.preferences.subrange(0, w.index as int)[v.index as int]
                    == w.preferences[v.index as int]);
            } else {
                assert(rest[i - 1] == likes[i]);
                assert(r.preferences[w.index + (i - 1)] == judgment_of(
                    w.items()[w.index + (i - 1)],
                    rest[i - 1],
                ));
            }
        }
    } else {
        assert(v.preferences.subrange(0, v.index as int) =~= v.preferences);
    }
}

/// A message keeps the state well formed.
pub proof fn lemma_step_wf(v: PhotosView, msg: Msg)
    requires
        v.wf(),
    ensures
        v.step(msg).wf(),
{
    match msg {
        Msg::Like => lemma_judged_wf(v, true),
        Msg::Dislike => lemma_judged_wf(v, false),
        _ => {},
    }
}

/// Once complete, the collector stays as it is, whatever message comes.
pub proof fn lemma_complete_is_final(v: PhotosView, msg: Msg)
    requires
        v.wf(),
        v.complete(),
    ensures
        v.step(msg) == v,
{
}

/// Over any sequence of messages the recommendation fetch starts at most once:
/// exactly once when the sequence takes a collector that was not complete to
/// complete, never otherwise.
pub proof fn lemma_triggered_once(v: PhotosView, msgs: Seq<Msg>)
    requires
        v.wf(),
    ensures
        v.run(msgs).wf(),
        v.complete() ==> v.run(msgs) == v,
        v.trigger_count(msgs) == (if !v.complete() && v.run(msgs).complete() {
            1nat
        } else {
            0nat
        }),
    decreases msgs.len(),
{
    if msgs.len() > 0 {
        let w = v.step(msgs[0]);
        lemma_step_wf(v, msgs[0]);
        lemma_triggered_once(w, msgs.drop_first());
        if v.complete() {
            lemma_complete_is_final(v, msgs[0]);
        }
    }
}

/// A feed that came back empty, or failed, leaves the collector exhausted with no
/// judgment for good: no message changes it and none starts the recommendation
/// fetch.
pub proof fn lemma_empty_feed(v: PhotosView, msgs: Seq<Msg>)
    requires
        v.wf(),
        v.settled(),
        v.items().len() == 0,
    ensures
        v.exhausted(),
        v.preferences.len() == 0,
        v.run(msgs) == v,
        v.trigger_count(msgs) == 0,
    decreases msgs.len(),
{
    if msgs.len() > 0 {
        assert(v.step(msgs[0]) == v);
        lemma_empty_feed(v, msgs.drop_first());
    }
}

/// The markers of a sequence of photos are pairwise different.
pub open spec fn distinct_markers(items: Seq<Photo>) -> bool {
    forall|i: int, j: int|
        0 <= i < items.len() && 0 <= j < items.len() && i != j ==> #[trigger] items[i].marker@
            != #[trigger] items[j].marker@
}

/// Judgments never repeat a marker when the feed's markers are unique: each
/// photo is judged at most once.
pub proof fn lemma_no_duplicate_markers(v: PhotosView)
    requires
        v.wf(),
        distinct_markers(v.items()),
    ensures
        forall|i: int, j: int|
            0 <= i < v.preferences.len() && 0 <= j < v.preferences.len() && i != j
                ==> #[trigger] v.preferences[i].marker@ != #[trigger] v.preferences[j].marker@,
{
    assert forall|i: int, j: int|
        0 <= i < v.preferences.len() && 0 <= j < v.preferences.len() && i != j implies
        #[trigger] v.preferences[i].marker@ != #[trigger] v.preferences[j].marker@ by {
        assert(v.preferences[i] == judgment_of(v.items()[i], v.preferences[i].like));
        assert(v.preferences[j] == judgment_of(v.items()[j], v.preferences[j].like));
        assert(v.items()[i].marker@ != v.items()[j].marker@);
    }
}

} // verus!
