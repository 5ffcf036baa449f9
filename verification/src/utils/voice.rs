//! The voice registry: who is in which voice channel, and under which relay
//! identifier their audio travels.

use vstd::prelude::*;

use crate::types::data::{VoiceParticipant, VoiceParticipantView};
use crate::types::views;
use crate::utils::assoc::{
    assoc, lemma_assoc_at, lemma_assoc_empty, lemma_assoc_push, lemma_assoc_remove,
    lemma_assoc_update,
};

verus! {

/// One participant of a channel.
pub struct VoiceUser {
    user_id: String,
    voice_id: u16,
}

/// One channel with its participants.
pub struct VoiceChannel {
    channel_id: String,
    users: Vec<VoiceUser>,
}

/// channel_id -> (user_id -> voice_id)
pub struct Voice {
    connections: Vec<VoiceChannel>,
}

/// The registry as a map: channel, then user, then relay identifier.
pub type VoiceMap = Map<Seq<char>, Map<Seq<char>, u16>>;

/// Whether `user` is a participant of `channel`.
pub open spec fn in_channel(m: VoiceMap, channel: Seq<char>, user: Seq<char>) -> bool {
    m.contains_key(channel) && m[channel].contains_key(user)
}

/// The participants of `channel`: none where the registry has no such
/// channel.
pub open spec fn participants(m: VoiceMap, channel: Seq<char>) -> Map<Seq<char>, u16> {
    if m.contains_key(channel) {
        m[channel]
    } else {
        Map::empty()
    }
}

/// The registry after `user` entered `channel` under `voice_id`: an earlier
/// entry of the user in that channel is replaced.
pub open spec fn spec_set(m: VoiceMap, user: Seq<char>, channel: Seq<char>, voice_id: u16) -> VoiceMap {
    m.insert(channel, participants(m, channel).insert(user, voice_id))
}

/// The registry after `user` left `channel`: unchanged where the user was
/// not in it; a channel that loses its last participant goes with them.
pub open spec fn spec_remove(m: VoiceMap, channel: Seq<char>, user: Seq<char>) -> VoiceMap {
    if in_channel(m, channel, user) {
        let rest = m[channel].remove(user);
        if rest == Map::<Seq<char>, u16>::empty() {
            m.remove(channel)
        } else {
            m.insert(channel, rest)
        }
    } else {
        m
    }
}

/// No channel of the registry is without participants.
pub open spec fn no_empty_channel(m: VoiceMap) -> bool {
    forall|c: Seq<char>| #[trigger] m.contains_key(c) ==> m[c] != Map::<Seq<char>, u16>::empty()
}

/// `user` is a participant of at most one channel.
pub open spec fn in_at_most_one_channel(m: VoiceMap, user: Seq<char>) -> bool {
    forall|c1: Seq<char>, c2: Seq<char>|
        in_channel(m, c1, user) && in_channel(m, c2, user) ==> c1 == c2
}

/// Whether `list` names every participant of every channel of the
/// registry, each once, with their relay identifier.
pub open spec fn is_snapshot(list: Seq<VoiceParticipantView>, m: VoiceMap) -> bool {
    &&& forall|i: int|
        0 <= i < list.len() ==> in_channel(m, (#[trigger] list[i]).channel_id, list[i].user_id)
            && m[list[i].channel_id][list[i].user_id] == list[i].voice_id
    &&& forall|c: Seq<char>, u: Seq<char>| #[trigger]
        in_channel(m, c, u) ==> exists|i: int|
            0 <= i < list.len() && (#[trigger] list[i]).channel_id == c && list[i].user_id == u
    &&& forall|i: int, j: int|
        0 <= i < j < list.len() ==> !((#[trigger] list[i]).channel_id == (#[trigger] list[j]).channel_id
            && list[i].user_id == list[j].user_id)
}

/// Whether `after` is `before` without `user`: the user is in no channel
/// any more, and every other participant is where they were, under the
/// relay identifier they had.
pub open spec fn user_left(before: VoiceMap, after: VoiceMap, user: Seq<char>) -> bool {
    &&& forall|c: Seq<char>| !(#[trigger] in_channel(after, c, user))
    &&& forall|c: Seq<char>, u: Seq<char>|
        u != user ==> (#[trigger] in_channel(after, c, u) <==> in_channel(before, c, u))
    &&& forall|c: Seq<char>, u: Seq<char>|
        u != user && #[trigger] in_channel(before, c, u) ==> after[c][u] == before[c][u]
}

/// Whether `list` names every channel that `user` was in, each once, with
/// the relay identifier that the user had there.
pub open spec fn is_trail(list: Seq<VoiceParticipantView>, m: VoiceMap, user: Seq<char>) -> bool {
    &&& forall|i: int|
        0 <= i < list.len() ==> (#[trigger] list[i]).user_id == user && in_channel(
            m,
            list[i].channel_id,
            user,
        ) && m[list[i].channel_id][user] == list[i].voice_id
    &&& forall|c: Seq<char>| #[trigger]
        in_channel(m, c, user) ==> exists|i: int|
            0 <= i < list.len() && (#[trigger] list[i]).channel_id == c
    &&& forall|i: int, j: int|
        0 <= i < j < list.len() ==> (#[trigger] list[i]).channel_id != (#[trigger] list[j]).channel_id
}

/// Who is where after `user` left `channel`: everyone but that user in
/// that channel, under the relay identifier they had.
pub proof fn lemma_remove_effect(m: VoiceMap, channel: Seq<char>, user: Seq<char>)
    ensures
        forall|c: Seq<char>, u: Seq<char>| #[trigger]
            in_channel(spec_remove(m, channel, user), c, u) <==> in_channel(m, c, u) && !(c == channel
                && u == user),
        forall|c: Seq<char>, u: Seq<char>| #[trigger]
            in_channel(spec_remove(m, channel, user), c, u) ==> spec_remove(m, channel, user)[c][u]
                == m[c][u],
{
    let after = spec_remove(m, channel, user);
    if in_channel(m, channel, user) {
        let rest = m[channel].remove(user);
        assert forall|c: Seq<char>, u: Seq<char>| #[trigger]
            in_channel(after, c, u) <==> in_channel(m, c, u) && !(c == channel && u == user) by {
            if rest == Map::<Seq<char>, u16>::empty() {
                if c == channel && u != user && m[channel].contains_key(u) {
                    assert(rest.contains_key(u));
                }
            }
        }
    }
}

/// What a user asks of the voice registry.
pub enum VoiceOp {
    /// Enter `channel`; the registry draws `voice_id`.
    Join { channel: Seq<char>, voice_id: u16 },
    /// Leave `channel`.
    Leave { channel: Seq<char> },
}

/// The registry after one request of `user`.
pub open spec fn apply_op(m: VoiceMap, user: Seq<char>, op: VoiceOp) -> VoiceMap {
    match op {
        VoiceOp::Join { channel, voice_id } => spec_set(m, user, channel, voice_id),
        VoiceOp::Leave { channel } => spec_remove(m, channel, user),
    }
}

/// The registry after a series of requests of `user`, first to last.
pub open spec fn apply_ops(m: VoiceMap, user: Seq<char>, ops: Seq<VoiceOp>) -> VoiceMap
    decreases ops.len(),
{
    if ops.len() == 0 {
        m
    } else {
        apply_op(apply_ops(m, user, ops.drop_last()), user, ops.last())
    }
}

/// Whether `user` joins a channel only while in no other one: before every
/// `Join` of the series the user is in no channel but, possibly, the one
/// joined.
pub open spec fn joins_one_at_a_time(m: VoiceMap, user: Seq<char>, ops: Seq<VoiceOp>) -> bool
    decreases ops.len(),
{
    if ops.len() == 0 {
        true
    } else {
        &&& joins_one_at_a_time(m, user, ops.drop_last())
        &&& match ops.last() {
            VoiceOp::Join { channel, .. } => forall|c: Seq<char>|
                in_channel(apply_ops(m, user, ops.drop_last()), c, user) ==> c == channel,
            VoiceOp::Leave { .. } => true,
        }
    }
}

/// Entering a channel leaves no channel empty.
pub proof fn lemma_set_no_empty_channel(m: VoiceMap, user: Seq<char>, channel: Seq<char>, voice_id: u16)
    requires
        no_empty_channel(m),
    ensures
        no_empty_channel(spec_set(m, user, channel, voice_id)),
        in_channel(spec_set(m, user, channel, voice_id), channel, user),
        spec_set(m, user, channel, voice_id)[channel][user] == voice_id,
{
    let after = spec_set(m, user, channel, voice_id);
    assert forall|c: Seq<char>| #[trigger] after.contains_key(c) implies after[c] != Map::<
        Seq<char>,
        u16,
    >::empty() by {
        if c == channel {
            assert(after[c].contains_key(user));
        } else {
            assert(m.contains_key(c));
        }
    }
}

/// Leaving a channel leaves no channel empty: the channel that lost its
/// last participant is no longer in the registry, so that its participants
/// read as none rather than as an entry without members.
pub proof fn lemma_remove_no_empty_channel(m: VoiceMap, channel: Seq<char>, user: Seq<char>)
    requires
        no_empty_channel(m),
    ensures
        no_empty_channel(spec_remove(m, channel, user)),
        !in_channel(spec_remove(m, channel, user), channel, user),
        in_channel(m, channel, user) && m[channel].remove(user) == Map::<Seq<char>, u16>::empty()
            ==> !spec_remove(m, channel, user).contains_key(channel) && participants(
            spec_remove(m, channel, user),
            channel,
        ) == Map::<Seq<char>, u16>::empty(),
        forall|c: Seq<char>, u: Seq<char>|
            in_channel(spec_remove(m, channel, user), c, u) ==> in_channel(m, c, u),
{
    let after = spec_remove(m, channel, user);
    assert forall|c: Seq<char>| #[trigger] after.contains_key(c) implies after[c] != Map::<
        Seq<char>,
        u16,
    >::empty() by {
        assert(m.contains_key(c));
    }
}

/// Whatever a user asks for, in whatever order, no channel of the registry
/// is ever left without participants.
pub proof fn law_no_empty_channel(m: VoiceMap, user: Seq<char>, ops: Seq<VoiceOp>)
    requires
        no_empty_channel(m),
    ensures
        no_empty_channel(apply_ops(m, user, ops)),
    decreases ops.len(),
{
    if ops.len() > 0 {
        law_no_empty_channel(m, user, ops.drop_last());
        let before = apply_ops(m, user, ops.drop_last());
        match ops.last() {
            VoiceOp::Join { channel, voice_id } => {
                lemma_set_no_empty_channel(before, user, channel, voice_id);
            },
            VoiceOp::Leave { channel } => {
                lemma_remove_no_empty_channel(before, channel, user);
            },
        }
    }
}

/// A user who joins a channel only while in no other one is in at most one
/// channel after every request.  (The registry itself does not refuse a
/// second channel: a user who joins one while in another is then in both.)
pub proof fn law_at_most_one_channel(m: VoiceMap, user: Seq<char>, ops: Seq<VoiceOp>)
    requires
        in_at_most_one_channel(m, user),
        joins_one_at_a_time(m, user, ops),
    ensures
        in_at_most_one_channel(apply_ops(m, user, ops), user),
    decreases ops.len(),
{
    if ops.len() > 0 {
        law_at_most_one_channel(m, user, ops.drop_last());
        let before = apply_ops(m, user, ops.drop_last());
        let after = apply_ops(m, user, ops);
        match ops.last() {
            VoiceOp::Join { channel, voice_id } => {
                assert forall|c1: Seq<char>, c2: Seq<char>|
                    in_channel(after, c1, user) && in_channel(after, c2, user) implies c1 == c2 by {
                    if c1 != channel {
                        assert(in_channel(before, c1, user));
                    }
                    if c2 != channel {
                        assert(in_channel(before, c2, user));
                    }
                }
            },
            VoiceOp::Leave { channel } => {
                assert forall|c1: Seq<char>, c2: Seq<char>|
                    in_channel(after, c1, user) && in_channel(after, c2, user) implies c1 == c2 by {
                    assert(in_channel(before, c1, user));
                    assert(in_channel(before, c2, user));
                }
            },
        }
    }
}

/// The participants of one channel, in the order in which they joined.
pub closed spec fn user_keys(users: Seq<VoiceUser>) -> Seq<Seq<char>> {
    Seq::new(users.len(), |i: int| users[i].user_id@)
}

/// Their relay identifiers, in the same order.
pub closed spec fn user_vals(users: Seq<VoiceUser>) -> Seq<u16> {
    Seq::new(users.len(), |i: int| users[i].voice_id)
}

/// One channel as a map from participant to relay identifier.
pub closed spec fn users_map(users: Seq<VoiceUser>) -> Map<Seq<char>, u16> {
    assoc(user_keys(users), user_vals(users))
}

/// The channels, in the order in which they came to have participants.
pub closed spec fn channel_keys(conns: Seq<VoiceChannel>) -> Seq<Seq<char>> {
    Seq::new(conns.len(), |i: int| conns[i].channel_id@)
}

/// Their participants, in the same order.
pub closed spec fn channel_vals(conns: Seq<VoiceChannel>) -> Seq<Map<Seq<char>, u16>> {
    Seq::new(conns.len(), |i: int| users_map(conns[i].users@))
}

/// `rand::random::<u16>()`: sixteen bits from the thread-local generator of
/// the `rand` crate.  Nothing is claimed of the number drawn.  The generator
/// panics if the operating system cannot seed it.
#[verifier::external_body]
fn random_voice_id() -> (r: u16) {
    rand::random::<u16>()
}

/// The participant at position `b` of the channel at position `a`.
pub closed spec fn entry_at(conns: Seq<VoiceChannel>, a: int, b: int) -> VoiceParticipantView {
    VoiceParticipantView {
        channel_id: conns[a].channel_id@,
        user_id: conns[a].users@[b].user_id@,
        voice_id: conns[a].users@[b].voice_id,
    }
}

/// Whether position (`a`, `b`) is a participant that comes before
/// position (`i`, `j`).
pub closed spec fn listed(conns: Seq<VoiceChannel>, a: int, b: int, i: int, j: int) -> bool {
    &&& 0 <= a < conns.len()
    &&& 0 <= b < conns[a].users@.len()
    &&& (a < i || (a == i && b < j))
}

impl View for Voice {
    type V = VoiceMap;

    closed spec fn view(&self) -> VoiceMap {
        assoc(channel_keys(self.connections@), channel_vals(self.connections@))
    }
}

impl Voice {
    /// No channel occurs twice, no user occurs twice in a channel, and no
    /// channel is empty.
    pub closed spec fn wf(&self) -> bool {
        &&& channel_keys(self.connections@).no_duplicates()
        &&& forall|i: int|
            0 <= i < self.connections.len() ==> {
                &&& (#[trigger] self.connections[i]).users.len() > 0
                &&& user_keys(self.connections[i].users@).no_duplicates()
            }
    }

    /// A well-formed registry has no channel without participants.
    pub proof fn lemma_no_empty_channel(&self)
        requires
            self.wf(),
        ensures
            no_empty_channel(self@),
    {
        let keys = channel_keys(self.connections@);
        let vals = channel_vals(self.connections@);
        assert forall|c: Seq<char>| #[trigger] self@.contains_key(c) implies self@[c] != Map::<
            Seq<char>,
            u16,
        >::empty() by {
            let i = keys.index_of(c);
            assert(0 <= i < keys.len() && keys[i] == c);
            lemma_assoc_at(keys, vals, i);
            let users = self.connections[i].users@;
            lemma_assoc_empty(user_keys(users), user_vals(users));
        }
    }

    /// A registry with nobody in it.
    pub fn new() -> (r: Self)
        ensures
            r.wf(),
            r@ == VoiceMap::empty(),
    {
        let r = Voice { connections: Vec::new() };
        proof {
            lemma_assoc_empty(channel_keys(r.connections@), channel_vals(r.connections@));
        }
        r
    }

    /// Position of `channel_id` among the channels.
    fn channel_index(&self, channel_id: &str) -> (r: Option<usize>)
        requires
            self.wf(),
        ensures
            match r {
                Some(i) => i < self.connections.len() && self.connections[i as int].channel_id@
                    == channel_id@ && self@.contains_key(channel_id@) && self@[channel_id@]
                    == users_map(self.connections[i as int].users@),
                None => !self@.contains_key(channel_id@),
            },
    {
        let ghost keys = channel_keys(self.connections@);
        let ghost vals = channel_vals(self.connections@);
        let mut i: usize = 0;
        while i < self.connections.len()
            invariant
                i <= self.connections.len(),
                self.wf(),
                keys == channel_keys(self.connections@),
                vals == channel_vals(self.connections@),
                forall|j: int| 0 <= j < i ==> keys[j] != channel_id@,
            decreases self.connections.len() - i,
        {
            if *self.connections[i].channel_id.as_str() == *channel_id {
                proof {
                    lemma_assoc_at(keys, vals, i as int);
                }
                return Some(i);
            }
            i = i + 1;
        }
        None
    }

    /// Position of `user_id` among the participants of one channel.
    fn user_index(users: &Vec<VoiceUser>, user_id: &str) -> (r: Option<usize>)
        requires
            user_keys(users@).no_duplicates(),
        ensures
            match r {
                Some(i) => i < users.len() && users[i as int].user_id@ == user_id@ && users_map(
                    users@,
                ).contains_key(user_id@) && users_map(users@)[user_id@] == users[i as int].voice_id,
                None => !users_map(users@).contains_key(user_id@),
            },
    {
        let ghost keys = user_keys(users@);
        let ghost vals = user_vals(users@);
        let mut i: usize = 0;
        while i < users.len()
            invariant
                i <= users.len(),
                keys.no_duplicates(),
                keys == user_keys(users@),
                vals == user_vals(users@),
                forall|j: int| 0 <= j < i ==> keys[j] != user_id@,
            decreases users.len() - i,
        {
            if *users[i].user_id.as_str() == *user_id {
                proof {
                    lemma_assoc_at(keys, vals, i as int);
                }
                return Some(i);
            }
            i = i + 1;
        }
        None
    }

    /// Check if a user exists in a channel.
    pub fn check(&self, channel_id: &str, user_id: &str) -> (r: Option<u16>)
        requires
            self.wf(),
        ensures
            r == if in_channel(self@, channel_id@, user_id@) {
                Some(self@[channel_id@][user_id@])
            } else {
                None
            },
    {
        match self.channel_index(channel_id) {
            None => None,
            Some(i) => match Self::user_index(&self.connections[i].users, user_id) {
                None => None,
                Some(j) => Some(self.connections[i].users[j].voice_id),
            },
        }
    }

    /// Insert or update a user's voice_id in a channel, under a relay
    /// identifier drawn at random, which is returned.
    pub fn set(&mut self, user_id: String, channel_id: String) -> (voice_id: u16)
        requires
            old(self).wf(),
        ensures
            final(self).wf(),
            final(self)@ == spec_set(old(self)@, user_id@, channel_id@, voice_id),
    {
        let voice_id = random_voice_id();
        self.set_with(user_id, channel_id, voice_id);
        voice_id
    }

    /// Insert or update a user's voice_id in a channel, under the given
    /// relay identifier.
    pub fn set_with(&mut self, user_id: String, channel_id: String, voice_id: u16)
        requires
            old(self).wf(),
        ensures
            final(self).wf(),
            final(self)@ == spec_set(old(self)@, user_id@, channel_id@, voice_id),
    {
        let ghost keys = channel_keys(self.connections@);
        let ghost vals = channel_vals(self.connections@);
        match self.channel_index(channel_id.as_str()) {
            Some(i) => {
                let mut channel = self.connections.remove(i);
                let ghost ukeys = user_keys(channel.users@);
                let ghost uvals = user_vals(channel.users@);
                match Self::user_index(&channel.users, user_id.as_str()) {
                    Some(j) => {
                        channel.users.set(j, VoiceUser { user_id, voice_id });
                        proof {
                            lemma_assoc_update(ukeys, uvals, j as int, voice_id);
                            assert(user_keys(channel.users@) =~= ukeys);
                            assert(user_vals(channel.users@) =~= uvals.update(j as int, voice_id));
                        }
                    },
                    None => {
                        channel.users.push(VoiceUser { user_id, voice_id });
                        proof {
                            lemma_assoc_push(ukeys, uvals, user_id@, voice_id);
                            assert(user_keys(channel.users@) =~= ukeys.push(user_id@));
                            assert(user_vals(channel.users@) =~= uvals.push(voice_id));
                        }
                    },
                }
                let ghost new_users = users_map(channel.users@);
                self.connections.insert(i, channel);
                proof {
                    lemma_assoc_update(keys, vals, i as int, new_users);
                    assert(channel_keys(self.connections@) =~= keys);
                    assert(channel_vals(self.connections@) =~= vals.update(i as int, new_users));
                }
            },
            None => {
                let mut users: Vec<VoiceUser> = Vec::new();
                users.push(VoiceUser { user_id, voice_id });
                proof {
                    let e = Seq::<VoiceUser>::empty();
                    assert(user_keys(e) =~= Seq::<Seq<char>>::empty());
                    assert(user_vals(e) =~= Seq::<u16>::empty());
                    lemma_assoc_empty(user_keys(e), user_vals(e));
                    lemma_assoc_push(user_keys(e), user_vals(e), user_id@, voice_id);
                    assert(user_keys(users@) =~= user_keys(e).push(user_id@));
                    assert(user_vals(users@) =~= user_vals(e).push(voice_id));
                }
                let ghost new_users = users_map(users@);
                self.connections.push(VoiceChannel { channel_id, users });
                proof {
                    lemma_assoc_push(keys, vals, channel_id@, new_users);
                    assert(channel_keys(self.connections@) =~= keys.push(channel_id@));
                    assert(channel_vals(self.connections@) =~= vals.push(new_users));
                }
            },
        }
    }

    /// Remove a user from a channel.  Returns their voice_id if they
    /// existed.
    pub fn remove(&mut self, channel_id: &str, user_id: &str) -> (r: Option<u16>)
        requires
            old(self).wf(),
        ensures
            final(self).wf(),
            final(self)@ == spec_remove(old(self)@, channel_id@, user_id@),
            r == if in_channel(old(self)@, channel_id@, user_id@) {
                Some(old(self)@[channel_id@][user_id@])
            } else {
                None
            },
    {
        let ghost keys = channel_keys(self.connections@);
        let ghost vals = channel_vals(self.connections@);
        let i = match self.channel_index(channel_id) {
            Some(i) => i,
            None => {
                return None;
            },
        };
        let j = match Self::user_index(&self.connections[i].users, user_id) {
            Some(j) => j,
            None => {
                return None;
            },
        };
        let mut channel = self.connections.remove(i);
        let ghost ukeys = user_keys(channel.users@);
        let ghost uvals = user_vals(channel.users@);
        let gone = channel.users.remove(j);
        proof {
            lemma_assoc_at(ukeys, uvals, j as int);
            lemma_assoc_remove(ukeys, uvals, j as int);
            assert(user_keys(channel.users@) =~= ukeys.remove(j as int));
            assert(user_vals(channel.users@) =~= uvals.remove(j as int));
            lemma_assoc_empty(user_keys(channel.users@), user_vals(channel.users@));
            lemma_assoc_remove(keys, vals, i as int);
            assert(channel_keys(self.connections@) =~= keys.remove(i as int));
            assert(channel_vals(self.connections@) =~= vals.remove(i as int));
        }
        // Clean up empty channels
        if channel.users.len() > 0 {
            let ghost rest = users_map(channel.users@);
            self.connections.insert(i, channel);
            proof {
                lemma_assoc_update(keys, vals, i as int, rest);
                assert(channel_keys(self.connections@) =~= keys);
                assert(channel_vals(self.connections@) =~= vals.update(i as int, rest));
            }
        }
        Some(gone.voice_id)
    }

    /// Get all users in a channel: none exactly if the registry has no
    /// such channel.
    pub fn get(&self, channel_id: &str) -> (r: Vec<&String>)
        requires
            self.wf(),
        ensures
            views(r@).no_duplicates(),
            views(r@).to_set() == participants(self@, channel_id@).dom(),
            r@.len() == 0 <==> !self@.contains_key(channel_id@),
    {
        let mut r: Vec<&String> = Vec::new();
        match self.channel_index(channel_id) {
            None => {
                assert(views(r@).to_set() =~= Set::<Seq<char>>::empty());
            },
            Some(i) => {
                let users = &self.connections[i].users;
                let mut j: usize = 0;
                while j < users.len()
                    invariant
                        j <= users.len(),
                        r.len() == j,
                        forall|k: int| 0 <= k < j ==> (#[trigger] r@[k])@ == users@[k].user_id@,
                    decreases users.len() - j,
                {
                    r.push(&users[j].user_id);
                    j = j + 1;
                }
                proof {
                    let ukeys = user_keys(users@);
                    assert(views(r@) =~= ukeys);
                    assert(users_map(users@).dom() =~= ukeys.to_set());
                }
            },
        }
        r
    }

    /// The channel that a user is in, with their voice_id.  Where the
    /// user is in several channels, one of them.
    pub fn find_user(&self, user_id: &str) -> (r: Option<(&String, u16)>)
        requires
            self.wf(),
        ensures
            match r {
                Some((channel_id, voice_id)) => in_channel(self@, channel_id@, user_id@)
                    && self@[channel_id@][user_id@] == voice_id,
                None => forall|c: Seq<char>| !in_channel(self@, c, user_id@),
            },
    {
        let ghost keys = channel_keys(self.connections@);
        let ghost vals = channel_vals(self.connections@);
        let mut i: usize = 0;
        while i < self.connections.len()
            invariant
                i <= self.connections.len(),
                self.wf(),
                keys == channel_keys(self.connections@),
                vals == channel_vals(self.connections@),
                forall|k: int| 0 <= k < i ==> !vals[k].contains_key(user_id@),
            decreases self.connections.len() - i,
        {
            proof {
                lemma_assoc_at(keys, vals, i as int);
            }
            match Self::user_index(&self.connections[i].users, user_id) {
                Some(j) => {
                    return Some((&self.connections[i].channel_id, self.connections[i].users[j].voice_id));
                },
                None => {},
            }
            i = i + 1;
        }
        proof {
            assert forall|c: Seq<char>| !in_channel(self@, c, user_id@) by {
                if self@.contains_key(c) {
                    let k = keys.index_of(c);
                    assert(0 <= k < keys.len() && keys[k] == c);
                    lemma_assoc_at(keys, vals, k);
                }
            }
        }
        None
    }
    /// Everyone who is in a voice channel, with their channel and relay
    /// identifier.
    pub fn list(&self) -> (r: Vec<VoiceParticipant>)
        requires
            self.wf(),
        ensures
            is_snapshot(views(r@), self@),
    {
        let mut r: Vec<VoiceParticipant> = Vec::new();
        let ghost conns = self.connections@;
        let ghost mut origin: Seq<(int, int)> = Seq::empty();
        let mut i: usize = 0;
        while i < self.connections.len()
            invariant
                i <= self.connections.len(),
                conns == self.connections@,
                r.len() == origin.len(),
                forall|k: int|
                    0 <= k < origin.len() ==> listed(conns, (#[trigger] origin[k]).0, origin[k].1, i as int, 0)
                        && r@[k]@ == entry_at(conns, origin[k].0, origin[k].1),
                forall|a: int, b: int| #[trigger]
                    listed(conns, a, b, i as int, 0) ==> origin.contains((a, b)),
                origin.no_duplicates(),
            decreases self.connections.len() - i,
        {
            let channel = &self.connections[i];
            let mut j: usize = 0;
            while j < channel.users.len()
                invariant
                    i < self.connections.len(),
                    j <= channel.users.len(),
                    conns == self.connections@,
                    *channel == conns[i as int],
                    r.len() == origin.len(),
                    forall|k: int|
                        0 <= k < origin.len() ==> listed(
                            conns,
                            (#[trigger] origin[k]).0,
                            origin[k].1,
                            i as int,
                            j as int,
                        ) && r@[k]@ == entry_at(conns, origin[k].0, origin[k].1),
                    forall|a: int, b: int| #[trigger]
                        listed(conns, a, b, i as int, j as int) ==> origin.contains((a, b)),
                    origin.no_duplicates(),
                decreases channel.users.len() - j,
            {
                r.push(
                    VoiceParticipant {
                        channel_id: channel.channel_id.clone(),
                        user_id: channel.users[j].user_id.clone(),
                        voice_id: channel.users[j].voice_id,
                    },
                );
                proof {
                    let seen = origin;
                    let here = (i as int, j as int);
                    assert(!seen.contains(here)) by {
                        if seen.contains(here) {
                            let k = choose|k: int| 0 <= k < seen.len() && seen[k] == here;
                            assert(listed(conns, seen[k].0, seen[k].1, i as int, j as int));
                        }
                    }
                    origin = seen.push(here);
                    assert forall|a: int, b: int| #[trigger]
                        listed(conns, a, b, i as int, j as int + 1) implies origin.contains((a, b)) by {
                        if a == i && b == j {
                            assert(origin[seen.len() as int] == here);
                        } else {
                            assert(listed(conns, a, b, i as int, j as int));
                            let k = choose|k: int| 0 <= k < seen.len() && seen[k] == (a, b);
                            assert(origin[k] == (a, b));
                        }
                    }
                    assert forall|k: int| 0 <= k < origin.len() implies listed(
                        conns,
                        (#[trigger] origin[k]).0,
                        origin[k].1,
                        i as int,
                        j as int + 1,
                    ) && r@[k]@ == entry_at(conns, origin[k].0, origin[k].1) by {
                        if k < seen.len() {
                            assert(origin[k] == seen[k]);
                            assert(listed(conns, seen[k].0, seen[k].1, i as int, j as int));
                        }
                    }
                }
                j = j + 1;
            }
            proof {
                assert forall|a: int, b: int| #[trigger]
                    listed(conns, a, b, i as int + 1, 0) implies origin.contains((a, b)) by {
                    assert(listed(conns, a, b, i as int, j as int));
                }
                assert forall|k: int| 0 <= k < origin.len() implies listed(
                    conns,
                    (#[trigger] origin[k]).0,
                    origin[k].1,
                    i as int + 1,
                    0,
                ) by {
                    assert(listed(conns, origin[k].0, origin[k].1, i as int, j as int));
                }
            }
            i = i + 1;
        }
        proof {
            let list = views(r@);
            let keys = channel_keys(conns);
            let vals = channel_vals(conns);
            let n = conns.len() as int;
            assert forall|k: int| 0 <= k < list.len() implies in_channel(
                self@,
                (#[trigger] list[k]).channel_id,
                list[k].user_id,
            ) && self@[list[k].channel_id][list[k].user_id] == list[k].voice_id by {
                let (a, b) = origin[k];
                assert(listed(conns, a, b, n, 0));
                assert(list[k] == entry_at(conns, a, b));
                lemma_assoc_at(keys, vals, a);
                lemma_assoc_at(user_keys(conns[a].users@), user_vals(conns[a].users@), b);
            }
            assert forall|c: Seq<char>, u: Seq<char>| #[trigger] in_channel(self@, c, u) implies exists|
                k: int,
            |
                0 <= k < list.len() && (#[trigger] list[k]).channel_id == c && list[k].user_id == u by {
                let a = keys.index_of(c);
                assert(0 <= a < keys.len() && keys[a] == c);
                lemma_assoc_at(keys, vals, a);
                let ukeys = user_keys(conns[a].users@);
                let b = ukeys.index_of(u);
                assert(0 <= b < ukeys.len() && ukeys[b] == u);
                assert(listed(conns, a, b, n, 0));
                let k = choose|k: int| 0 <= k < origin.len() && origin[k] == (a, b);
                assert(list[k] == entry_at(conns, a, b));
            }
            assert forall|k1: int, k2: int| 0 <= k1 < k2 < list.len() implies !((
            #[trigger] list[k1]).channel_id == (#[trigger] list[k2]).channel_id && list[k1].user_id
                == list[k2].user_id) by {
                let (a1, b1) = origin[k1];
                let (a2, b2) = origin[k2];
                assert(listed(conns, a1, b1, n, 0));
                assert(listed(conns, a2, b2, n, 0));
                assert(list[k1] == entry_at(conns, a1, b1));
                assert(list[k2] == entry_at(conns, a2, b2));
                if a1 == a2 {
                    assert(b1 != b2);
                    let ukeys = user_keys(conns[a1].users@);
                    assert(ukeys[b1] != ukeys[b2]);
                } else {
                    assert(keys[a1] != keys[a2]);
                }
            }
        }
        r
    }
    /// The names of the channels that have participants.
    pub fn channels(&self) -> (r: Vec<String>)
        requires
            self.wf(),
        ensures
            views(r@).no_duplicates(),
            views(r@).to_set() == self@.dom(),
    {
        let mut r: Vec<String> = Vec::new();
        let mut i: usize = 0;
        while i < self.connections.len()
            invariant
                i <= self.connections.len(),
                r.len() == i,
                forall|k: int| 0 <= k < i ==> (#[trigger] r@[k])@ == self.connections@[k].channel_id@,
            decreases self.connections.len() - i,
        {
            r.push(self.connections[i].channel_id.clone());
            i = i + 1;
        }
        proof {
            let keys = channel_keys(self.connections@);
            assert(views(r@) =~= keys);
            assert(self@.dom() =~= keys.to_set());
        }
        r
    }

    /// Takes a user out of every channel.  Returns where they were, with
    /// their relay identifiers.
    pub fn remove_user(&mut self, user_id: &str) -> (r: Vec<VoiceParticipant>)
        requires
            old(self).wf(),
        ensures
            final(self).wf(),
            user_left(old(self)@, final(self)@, user_id@),
            is_trail(views(r@), old(self)@, user_id@),
    {
        let channels = self.channels();
        let ghost start = self@;
        let ghost names = views(channels@);
        let mut r: Vec<VoiceParticipant> = Vec::new();
        let ghost mut origin: Seq<int> = Seq::empty();
        let mut k: usize = 0;
        while k < channels.len()
            invariant
                k <= channels.len(),
                self.wf(),
                start == old(self)@,
                names == views(channels@),
                names.no_duplicates(),
                names.to_set() == start.dom(),
                forall|c: Seq<char>, u: Seq<char>|
                    u != user_id@ ==> (#[trigger] in_channel(self@, c, u) <==> in_channel(start, c, u)),
                forall|c: Seq<char>, u: Seq<char>| #[trigger]
                    in_channel(self@, c, u) ==> in_channel(start, c, u) && self@[c][u] == start[c][u],
                forall|j: int| 0 <= j < k ==> !in_channel(self@, #[trigger] names[j], user_id@),
                forall|j: int|
                    k <= j < names.len() && in_channel(start, #[trigger] names[j], user_id@)
                        ==> in_channel(self@, names[j], user_id@),
                r.len() == origin.len(),
                forall|i: int|
                    0 <= i < origin.len() ==> 0 <= (#[trigger] origin[i]) < k && r@[i]@
                        == (VoiceParticipantView {
                        channel_id: names[origin[i]],
                        user_id: user_id@,
                        voice_id: start[names[origin[i]]][user_id@],
                    }) && in_channel(start, names[origin[i]], user_id@),
                forall|i: int, j: int| 0 <= i < j < origin.len() ==> origin[i] < origin[j],
                forall|j: int|
                    0 <= j < k && in_channel(start, #[trigger] names[j], user_id@)
                        ==> origin.contains(j),
            decreases channels.len() - k,
        {
            let ghost before = self@;
            let ghost seen = origin;
            assert(names[k as int] == channels@[k as int]@);
            proof {
                lemma_remove_effect(before, names[k as int], user_id@);
            }
            match self.remove(channels[k].as_str(), user_id) {
                Some(voice_id) => {
                    r.push(
                        VoiceParticipant {
                            channel_id: channels[k].clone(),
                            user_id: user_id.to_owned(),
                            voice_id,
                        },
                    );
                    proof {
                        origin = seen.push(k as int);
                        assert forall|j: int|
                            0 <= j < k + 1 && in_channel(
                                start,
                                #[trigger] names[j],
                                user_id@,
                            ) implies origin.contains(j) by {
                            if j < k {
                                let i = choose|i: int| 0 <= i < seen.len() && seen[i] == j;
                                assert(origin[i] == j);
                            } else {
                                assert(origin[seen.len() as int] == j);
                            }
                        }
                    }
                },
                None => {
                    proof {
                        assert forall|j: int|
                            0 <= j < k + 1 && in_channel(
                                start,
                                #[trigger] names[j],
                                user_id@,
                            ) implies origin.contains(j) by {
                            assert(j < k);
                        }
                    }
                },
            }
            proof {
                assert forall|j: int| 0 <= j < k + 1 implies !in_channel(
                    self@,
                    #[trigger] names[j],
                    user_id@,
                ) by {
                    if j < k {
                        assert(!in_channel(before, names[j], user_id@));
                    }
                }
                assert forall|j: int|
                    k + 1 <= j < names.len() && in_channel(
                        start,
                        #[trigger] names[j],
                        user_id@,
                    ) implies in_channel(self@, names[j], user_id@) by {
                    assert(in_channel(before, names[j], user_id@));
                    assert(names[j] != names[k as int]);
                }
            }
            k = k + 1;
        }
        proof {
            let list = views(r@);
            assert forall|c: Seq<char>| !(#[trigger] in_channel(self@, c, user_id@)) by {
                if in_channel(self@, c, user_id@) {
                    assert(in_channel(start, c, user_id@));
                    assert(names.to_set().contains(c));
                    let j = choose|j: int| 0 <= j < names.len() && names[j] == c;
                    assert(!in_channel(self@, names[j], user_id@));
                }
            }
            assert forall|c: Seq<char>, u: Seq<char>|
                u != user_id@ && #[trigger] in_channel(start, c, u) implies self@[c][u]
                == start[c][u] by {
                assert(in_channel(self@, c, u));
            }
            assert forall|c: Seq<char>, u: Seq<char>| u != user_id@ implies (#[trigger] in_channel(
                self@,
                c,
                u,
            ) <==> in_channel(start, c, u)) by {}
            assert forall|c: Seq<char>| #[trigger] in_channel(start, c, user_id@) implies exists|
                i: int,
            |
                0 <= i < list.len() && (#[trigger] list[i]).channel_id == c by {
                assert(names.to_set().contains(c));
                let j = choose|j: int| 0 <= j < names.len() && names[j] == c;
                assert(in_channel(start, names[j], user_id@));
                let i = choose|i: int| 0 <= i < origin.len() && origin[i] == j;
                assert(list[i].channel_id == c);
            }
            assert forall|i: int, j: int| 0 <= i < j < list.len() implies (
            #[trigger] list[i]).channel_id != (#[trigger] list[j]).channel_id by {
                assert(origin[i] < origin[j]);
                assert(list[i].channel_id == names[origin[i]]);
                assert(list[j].channel_id == names[origin[j]]);
            }
            assert forall|i: int| 0 <= i < list.len() implies (#[trigger] list[i]).user_id
                == user_id@ && in_channel(start, list[i].channel_id, user_id@)
                && start[list[i].channel_id][user_id@] == list[i].voice_id by {
                assert(list[i] == r@[i]@);
                assert(0 <= origin[i] < k);
            }
        }
        r
    }
}

} // verus!
