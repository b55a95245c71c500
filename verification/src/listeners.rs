//! The identities of the listeners in the LiveKit room, kept in sorted
//! order without repeats, and the room events that change them.
use vstd::prelude::*;
use crate::text::{chars_of, string_views};
use crate::live::{CONNECTION_CONNECTED, CONNECTION_RECONNECTING, CONNECTION_DISCONNECTED};

verus! {

/// `a` comes before `b` in dictionary order of their characters (the order
/// of `String`'s `Ord`).
pub open spec fn lex_lt(a: Seq<char>, b: Seq<char>) -> bool
    decreases a.len(),
{
    if a.len() == 0 {
        b.len() > 0
    } else if b.len() == 0 {
        false
    } else if a[0] != b[0] {
        a[0] < b[0]
    } else {
        lex_lt(a.drop_first(), b.drop_first())
    }
}

/// No sequence comes before itself, and of two sequences one comes first.
pub proof fn lemma_lex_total(a: Seq<char>, b: Seq<char>)
    ensures
        !lex_lt(a, a),
        a != b ==> lex_lt(a, b) || lex_lt(b, a),
        lex_lt(a, b) ==> !lex_lt(b, a),
    decreases a.len(),
{
    if a.len() > 0 && b.len() > 0 {
        lemma_lex_total(a.drop_first(), b.drop_first());
        lemma_lex_total(a.drop_first(), a.drop_first());
        if a[0] == b[0] && a.drop_first() == b.drop_first() {
            assert(a =~= seq![a[0]] + a.drop_first());
            assert(b =~= seq![b[0]] + b.drop_first());
        }
    } else if a.len() > 0 {
        lemma_lex_total(a.drop_first(), a.drop_first());
    } else if b.len() == 0 {
        assert(a =~= b);
    }
}

/// Dictionary order is transitive.
pub proof fn lemma_lex_transitive(a: Seq<char>, b: Seq<char>, c: Seq<char>)
    requires
        lex_lt(a, b),
        lex_lt(b, c),
    ensures
        lex_lt(a, c),
    decreases a.len(),
{
    if a.len() > 0 && b.len() > 0 && c.len() > 0 && a[0] == b[0] && b[0] == c[0] {
        lemma_lex_transitive(a.drop_first(), b.drop_first(), c.drop_first());
    }
}

/// Whether `a` comes before, equals or comes after `b`: -1, 0 or 1.
pub fn compare_chars(a: &Vec<char>, b: &Vec<char>) -> (r: i8)
    ensures
        r == 0 <==> a@ == b@,
        r < 0 <==> lex_lt(a@, b@),
        r > 0 <==> lex_lt(b@, a@),
{
    let mut i: usize = 0;
    assert(a@.skip(0) =~= a@);
    assert(b@.skip(0) =~= b@);
    while i < a.len() && i < b.len() && a[i] == b[i]
        invariant
            i <= a@.len(),
            i <= b@.len(),
            a@.take(i as int) =~= b@.take(i as int),
            lex_lt(a@, b@) == lex_lt(a@.skip(i as int), b@.skip(i as int)),
            lex_lt(b@, a@) == lex_lt(b@.skip(i as int), a@.skip(i as int)),
        decreases a@.len() - i,
    {
        assert(a@.skip(i as int).drop_first() =~= a@.skip(i + 1));
        assert(b@.skip(i as int).drop_first() =~= b@.skip(i + 1));
        assert(a@.take(i + 1) =~= a@.take(i as int).push(a@[i as int]));
        assert(b@.take(i + 1) =~= b@.take(i as int).push(b@[i as int]));
        i = i + 1;
    }
    proof {
        lemma_lex_total(a@, b@);
    }
    if i == a.len() && i == b.len() {
        assert(a@ =~= a@.take(i as int));
        assert(b@ =~= b@.take(i as int));
        0
    } else if i == a.len() {
        assert(a@ != b@);
        -1
    } else if i == b.len() {
        assert(a@ != b@);
        1
    } else if a[i] < b[i] {
        assert(a@ != b@ && a@[i as int] != b@[i as int]);
        -1
    } else {
        assert(a@ != b@ && a@[i as int] != b@[i as int]);
        1
    }
}

/// Strictly increasing in dictionary order, hence without repeats.
pub open spec fn sorted_unique(s: Seq<Seq<char>>) -> bool {
    forall|i: int, j: int| 0 <= i < j < s.len() ==> lex_lt(#[trigger] s[i], #[trigger] s[j])
}

/// The listener identities in the room.
pub struct Listeners {
    ids: Vec<String>,
}

impl Listeners {
    /// The identities, in order.
    pub closed spec fn items(&self) -> Seq<Seq<char>> {
        string_views(self.ids@)
    }

    /// The identities as a set.
    pub open spec fn view(&self) -> Set<Seq<char>> {
        self.items().to_set()
    }

    /// Kept sorted, without repeats or empty identities.
    pub closed spec fn wf(&self) -> bool {
        &&& sorted_unique(self.items())
        &&& forall|i: int| 0 <= i < self.items().len() ==> #[trigger] self.items()[i].len() > 0
    }

    /// No listeners.
    pub fn new() -> (r: Listeners)
        ensures
            r.wf(),
            r.view() == Set::<Seq<char>>::empty(),
    {
        let r = Listeners { ids: Vec::new() };
        assert(r.items() =~= Seq::<Seq<char>>::empty());
        assert(r.view() =~= Set::<Seq<char>>::empty());
        r
    }

    /// How many listeners there are.
    pub fn len(&self) -> (r: usize)
        requires
            self.wf(),
        ensures
            r == self.view().len(),
    {
        proof {
            self.lemma_len();
        }
        self.ids.len()
    }

    proof fn lemma_len(&self)
        requires
            self.wf(),
        ensures
            self.view().len() == self.ids@.len(),
    {
        let s = self.items();
        assert forall|i: int, j: int| 0 <= i < s.len() && 0 <= j < s.len() && i != j implies s[i] != s[j] by {
            if i < j {
                lemma_lex_total(s[i], s[j]);
            } else {
                lemma_lex_total(s[j], s[i]);
            }
        }
        assert(s.no_duplicates());
        s.unique_seq_to_set();
    }

    /// Where `id` is or would go: the first position whose identity does
    /// not come before it.
    fn locate(&self, id: &Vec<char>) -> (r: (usize, bool))
        requires
            self.wf(),
        ensures
            r.0 <= self.items().len(),
            forall|k: int| 0 <= k < r.0 ==> lex_lt(#[trigger] self.items()[k], id@),
            r.1 <==> (r.0 < self.items().len() && self.items()[r.0 as int] == id@),
            !r.1 && r.0 < self.items().len() ==> lex_lt(id@, self.items()[r.0 as int]),
    {
        let mut i: usize = 0;
        while i < self.ids.len()
            invariant
                self.wf(),
                i <= self.ids@.len(),
                self.items().len() == self.ids@.len(),
                forall|k: int| 0 <= k < i ==> lex_lt(#[trigger] self.items()[k], id@),
            decreases self.ids@.len() - i,
        {
            let cur = chars_of(self.ids[i].as_str());
            assert(cur@ == self.items()[i as int]);
            let c = compare_chars(&cur, id);
            if c == 0 {
                return (i, true);
            }
            if c > 0 {
                return (i, false);
            }
            i = i + 1;
        }
        (i, false)
    }

    /// Whether `id` is a listener.
    pub fn contains(&self, id: &str) -> (r: bool)
        requires
            self.wf(),
        ensures
            r == self.view().contains(id@),
    {
        let v = chars_of(id);
        let (pos, found) = self.locate(&v);
        proof {
            if !found {
                assert forall|k: int| 0 <= k < self.items().len() implies self.items()[k] != id@ by {
                    if k < pos {
                        lemma_lex_total(self.items()[k], id@);
                    } else {
                        if k > pos {
                            lemma_lex_transitive(id@, self.items()[pos as int], self.items()[k]);
                        }
                        lemma_lex_total(id@, self.items()[k]);
                    }
                }
            }
        }
        found
    }

    /// Adds `id` unless it is empty or already there.
    pub fn add(&mut self, id: String)
        requires
            old(self).wf(),
        ensures
            final(self).wf(),
            final(self).view() == (if id@.len() == 0 { old(self).view() } else { old(self).view().insert(id@) }),
    {
        let v = chars_of(id.as_str());
        if v.len() == 0 {
            return;
        }
        let (pos, found) = self.locate(&v);
        if found {
            proof {
                assert(old(self).view().contains(id@));
                assert(old(self).view().insert(id@) =~= old(self).view());
            }
            return;
        }
        let ghost old_items = self.items();
        self.ids.insert(pos, id);
        proof {
            let s = self.items();
            assert(s =~= old_items.insert(pos as int, v@));
            assert forall|i: int, j: int| 0 <= i < j < s.len() implies lex_lt(#[trigger] s[i], #[trigger] s[j]) by {
                if j < pos {
                } else if j == pos {
                } else if i < pos {
                    if pos < old_items.len() {
                        assert(lex_lt(old_items[i], v@));
                        assert(lex_lt(v@, old_items[pos as int]));
                        lemma_lex_transitive(old_items[i], v@, old_items[pos as int]);
                        if j - 1 > pos {
                            lemma_lex_transitive(old_items[i], old_items[pos as int], old_items[j - 1]);
                        }
                    }
                } else if i == pos {
                    if j - 1 > pos {
                        lemma_lex_transitive(v@, old_items[pos as int], old_items[j - 1]);
                    }
                } else {
                }
            }
            assert(self.view() =~= old(self).view().insert(id@)) by {
                assert forall|x: Seq<char>| self.view().contains(x) <==> old(self).view().insert(id@).contains(x) by {
                    if self.view().contains(x) {
                        let k = choose|k: int| 0 <= k < s.len() && s[k] == x;
                        if k < pos {
                            assert(old_items[k] == x);
                        } else if k > pos {
                            assert(old_items[k - 1] == x);
                        }
                    }
                    if old(self).view().contains(x) {
                        let k = choose|k: int| 0 <= k < old_items.len() && old_items[k] == x;
                        if k < pos {
                            assert(s[k] == x);
                        } else {
                            assert(s[k + 1] == x);
                        }
                    }
                    if x == id@ {
                        assert(s[pos as int] == x);
                    }
                }
            }
        }
    }

    /// Removes `id` if it is there.
    pub fn remove(&mut self, id: &str)
        requires
            old(self).wf(),
        ensures
            final(self).wf(),
            final(self).view() == old(self).view().remove(id@),
    {
        let v = chars_of(id);
        let (pos, found) = self.locate(&v);
        let ghost old_items = self.items();
        if !found {
            proof {
                assert forall|k: int| 0 <= k < old_items.len() implies old_items[k] != id@ by {
                    if k < pos {
                        lemma_lex_total(old_items[k], id@);
                    } else {
                        if k > pos {
                            lemma_lex_transitive(id@, old_items[pos as int], old_items[k]);
                        }
                        lemma_lex_total(id@, old_items[k]);
                    }
                }
                assert(old(self).view().remove(id@) =~= old(self).view());
            }
            return;
        }
        self.ids.remove(pos);
        proof {
            let s = self.items();
            assert(s =~= old_items.remove(pos as int));
            assert forall|i: int, j: int| 0 <= i < j < s.len() implies lex_lt(#[trigger] s[i], #[trigger] s[j]) by {
                let oi = if i < pos { i } else { i + 1 };
                let oj = if j < pos { j } else { j + 1 };
                assert(s[i] == old_items[oi]);
                assert(s[j] == old_items[oj]);
            }
            assert(self.view() =~= old(self).view().remove(id@)) by {
                assert forall|x: Seq<char>| self.view().contains(x) <==> old(self).view().remove(id@).contains(x) by {
                    if self.view().contains(x) {
                        let k = choose|k: int| 0 <= k < s.len() && s[k] == x;
                        let ok = if k < pos { k } else { k + 1 };
                        assert(old_items[ok] == x);
                        lemma_lex_total(old_items[ok], old_items[pos as int]);
                        if ok < pos {
                            assert(lex_lt(old_items[ok], old_items[pos as int]));
                        } else {
                            assert(lex_lt(old_items[pos as int], old_items[ok]));
                        }
                    }
                    if old(self).view().remove(id@).contains(x) {
                        let k = choose|k: int| 0 <= k < old_items.len() && old_items[k] == x;
                        if k < pos {
                            assert(s[k] == x);
                        } else {
                            assert(k != pos);
                            assert(s[k - 1] == x);
                        }
                    }
                }
            }
        }
    }

    /// Replaces the listeners by the non-empty identities in `ids`.
    pub fn sync(&mut self, ids: Vec<String>)
        ensures
            final(self).wf(),
            final(self).view() == string_views(ids@).to_set().filter(|x: Seq<char>| x.len() > 0),
    {
        let mut fresh = Listeners::new();
        let mut i: usize = 0;
        while i < ids.len()
            invariant
                fresh.wf(),
                i <= ids@.len(),
                fresh.view() == string_views(ids@.take(i as int)).to_set().filter(|x: Seq<char>| x.len() > 0),
            decreases ids@.len() - i,
        {
            let id = ids[i].clone();
            let ghost before = fresh.view();
            fresh.add(id);
            proof {
                let t = string_views(ids@.take(i + 1));
                let p = string_views(ids@.take(i as int));
                assert(t =~= p.push(ids@[i as int]@));
                assert(fresh.view() =~= t.to_set().filter(|x: Seq<char>| x.len() > 0)) by {
                    assert forall|x: Seq<char>| fresh.view().contains(x) <==> t.to_set().filter(|x: Seq<char>| x.len() > 0).contains(x) by {
                        if t.contains(x) && x != ids@[i as int]@ {
                            let k = choose|k: int| 0 <= k < t.len() && t[k] == x;
                            assert(p[k] == x);
                        }
                        if p.contains(x) {
                            let k = choose|k: int| 0 <= k < p.len() && p[k] == x;
                            assert(t[k] == x);
                        }
                        assert(t[i as int] == ids@[i as int]@);
                    }
                }
            }
            i = i + 1;
        }
        assert(ids@.take(ids@.len() as int) =~= ids@);
        *self = fresh;
    }

    /// The identities, sorted, for the status report.
    pub fn snapshot(&self) -> (r: Vec<String>)
        requires
            self.wf(),
        ensures
            sorted_unique(string_views(r@)),
            string_views(r@).to_set() == self.view(),
    {
        let mut out: Vec<String> = Vec::new();
        let mut i: usize = 0;
        while i < self.ids.len()
            invariant
                i <= self.ids@.len(),
                string_views(out@) =~= self.items().take(i as int),
            decreases self.ids@.len() - i,
        {
            let ghost before = out@;
            let c = self.ids[i].clone();
            out.push(c);
            proof {
                assert(out@ =~= before.push(c));
                assert(string_views(out@) =~= string_views(before).push(c@));
                assert(self.items().take(i + 1) =~= self.items().take(i as int).push(self.items()[i as int]));
            }
            i = i + 1;
        }
        assert(self.items().take(self.ids@.len() as int) =~= self.items());
        out
    }
}

/// The link states LiveKit reports.
#[derive(Debug, Clone, Copy, PartialEq, Eq)]
pub enum LinkState {
    Disconnected,
    Connected,
    Reconnecting,
}

/// The room events the sender acts on, with the identities they name.
pub enum RoomEvent {
    ParticipantConnected(String),
    ParticipantActive(String),
    ParticipantDisconnected(String),
    Connected(Vec<String>),
    Disconnected,
    Reconnecting,
    Reconnected,
    ConnectionStateChanged(LinkState),
    TokenRefreshed,
    Other,
}

/// What a room event does besides changing the listeners.
#[derive(Debug, Clone, Copy, PartialEq, Eq)]
pub struct RoomEffect {
    /// The connection-state code to show from now on, if it changes.
    pub connection: Option<usize>,
    /// Record "disconnected" as the last error.
    pub disconnected_error: bool,
    /// The session is over: reconnect.
    pub end_session: bool,
}

/// Applies a room event to the listeners and says what else follows.
pub fn handle_room_event(listeners: &mut Listeners, event: RoomEvent) -> (r: RoomEffect)
    requires
        old(listeners).wf(),
    ensures
        final(listeners).wf(),
        match event {
            RoomEvent::ParticipantConnected(id) | RoomEvent::ParticipantActive(id) => final(listeners).view() == (if id@.len() == 0 { old(listeners).view() } else { old(listeners).view().insert(id@) })
                && r == (RoomEffect { connection: None, disconnected_error: false, end_session: false }),
            RoomEvent::ParticipantDisconnected(id) => final(listeners).view() == old(listeners).view().remove(id@)
                && r == (RoomEffect { connection: None, disconnected_error: false, end_session: false }),
            RoomEvent::Connected(ids) => final(listeners).view() == string_views(ids@).to_set().filter(|x: Seq<char>| x.len() > 0)
                && r == (RoomEffect { connection: Some(CONNECTION_CONNECTED), disconnected_error: false, end_session: false }),
            RoomEvent::Disconnected => final(listeners).view() == Set::<Seq<char>>::empty()
                && r == (RoomEffect { connection: Some(CONNECTION_DISCONNECTED), disconnected_error: true, end_session: true }),
            RoomEvent::Reconnecting => final(listeners).view() == old(listeners).view()
                && r == (RoomEffect { connection: Some(CONNECTION_RECONNECTING), disconnected_error: false, end_session: false }),
            RoomEvent::Reconnected => final(listeners).view() == old(listeners).view()
                && r == (RoomEffect { connection: Some(CONNECTION_CONNECTED), disconnected_error: false, end_session: false }),
            RoomEvent::ConnectionStateChanged(s) => match s {
                LinkState::Disconnected => final(listeners).view() == Set::<Seq<char>>::empty()
                    && r == (RoomEffect { connection: Some(CONNECTION_DISCONNECTED), disconnected_error: false, end_session: true }),
                LinkState::Connected => final(listeners).view() == old(listeners).view()
                    && r == (RoomEffect { connection: Some(CONNECTION_CONNECTED), disconnected_error: false, end_session: false }),
                LinkState::Reconnecting => final(listeners).view() == old(listeners).view()
                    && r == (RoomEffect { connection: Some(CONNECTION_RECONNECTING), disconnected_error: false, end_session: false }),
            },
            RoomEvent::TokenRefreshed | RoomEvent::Other => final(listeners).view() == old(listeners).view()
                && r == (RoomEffect { connection: None, disconnected_error: false, end_session: false }),
        },
{
    match event {
        RoomEvent::ParticipantConnected(id) | RoomEvent::ParticipantActive(id) => {
            listeners.add(id);
            RoomEffect { connection: None, disconnected_error: false, end_session: false }
        },
        RoomEvent::ParticipantDisconnected(id) => {
            listeners.remove(id.as_str());
            RoomEffect { connection: None, disconnected_error: false, end_session: false }
        },
        RoomEvent::Connected(ids) => {
            listeners.sync(ids);
            RoomEffect { connection: Some(CONNECTION_CONNECTED), disconnected_error: false, end_session: false }
        },
        RoomEvent::Disconnected => {
            listeners.sync(Vec::new());
            proof {
                assert(string_views(Seq::<String>::empty()).to_set().filter(|x: Seq<char>| x.len() > 0) =~= Set::<Seq<char>>::empty());
            }
            RoomEffect { connection: Some(CONNECTION_DISCONNECTED), disconnected_error: true, end_session: true }
        },
        RoomEvent::Reconnecting => RoomEffect { connection: Some(CONNECTION_RECONNECTING), disconnected_error: false, end_session: false },
        RoomEvent::Reconnected => RoomEffect { connection: Some(CONNECTION_CONNECTED), disconnected_error: false, end_session: false },
        RoomEvent::ConnectionStateChanged(s) => match s {
            LinkState::Disconnected => {
                listeners.sync(Vec::new());
                proof {
                    assert(string_views(Seq::<String>::empty()).to_set().filter(|x: Seq<char>| x.len() > 0) =~= Set::<Seq<char>>::empty());
                }
                RoomEffect { connection: Some(CONNECTION_DISCONNECTED), disconnected_error: false, end_session: true }
            },
            LinkState::Connected => RoomEffect { connection: Some(CONNECTION_CONNECTED), disconnected_error: false, end_session: false },
            LinkState::Reconnecting => RoomEffect { connection: Some(CONNECTION_RECONNECTING), disconnected_error: false, end_session: false },
        },
        RoomEvent::TokenRefreshed | RoomEvent::Other => RoomEffect { connection: None, disconnected_error: false, end_session: false },
    }
}

} // verus!
