//! The tracks of a context, under keys that stay valid while other tracks
//! come and go.
use crate::animation::track::Track;
use crate::text::same;
use slotmap::{DefaultKey, Key, KeyData, SlotMap};
use vstd::prelude::*;

verus! {

/// The bit of a key's number that is set in every key that a slot map
/// hands out: the lowest bit of the generation, which sits in the upper
/// half of the number.
pub const LIVE_BIT: u64 = 0x1_0000_0000;

/// The number of the key that names no track: the generation 1 and the
/// highest slot.
pub const NULL_KEY: u64 = 0x1_ffff_ffff;

/// The most tracks that a holder takes.
pub const MAX_TRACKS: usize = 0xffff_fffd;

/// The key of a track in its holder: a slot and the generation of the
/// slot, as one number.
#[derive(Copy, Clone, PartialEq, Eq, Structural, Hash, Debug)]
pub struct TrackKey {
    raw: u64,
}

impl View for TrackKey {
    type V = u64;

    /// The number of the key.
    closed spec fn view(&self) -> u64 {
        self.raw
    }
}

impl TrackKey {
    #[verifier::type_invariant]
    spec fn live_bit_set(self) -> bool {
        self.raw & LIVE_BIT != 0
    }

    /// The key with the number `raw`, its generation made odd as every
    /// generation of a key is.
    pub fn from_ffi(raw: u64) -> (r: TrackKey)
        ensures
            r@ == raw | LIVE_BIT,
    {
        assert((raw | LIVE_BIT) & LIVE_BIT != 0) by (bit_vector);
        TrackKey { raw: raw | LIVE_BIT }
    }

    /// The number of the key.
    pub fn as_ffi(&self) -> (r: u64)
        ensures
            r == self@,
    {
        self.raw
    }

    /// The key that names no track.
    pub fn null() -> (r: TrackKey)
        ensures
            r@ == NULL_KEY,
    {
        assert(NULL_KEY & LIVE_BIT != 0) by (bit_vector);
        TrackKey { raw: NULL_KEY }
    }
}

/// The slot map that holds the tracks.
#[verifier::external_body]
pub struct TrackSlots {
    inner: SlotMap<DefaultKey, Track>,
}

/// What a slot map of tracks holds: the track under the number of each
/// live key.
pub uninterp spec fn slots(s: TrackSlots) -> Map<u64, Track>;

/// The numbers of the live keys of a slot map of tracks, in the order in
/// which the map walks its slots.
pub uninterp spec fn slot_order(s: TrackSlots) -> Seq<u64>;

/// `SlotMap::new`: a slot map that holds nothing.
#[verifier::external_body]
fn slots_new() -> (r: TrackSlots)
    ensures
        slots(r) == (Map::<u64, Track>::empty()),
        slot_order(r) == (Seq::<u64>::empty()),
{
    TrackSlots { inner: SlotMap::new() }
}

/// `SlotMap::len`: how many tracks the map holds.
#[verifier::external_body]
fn slots_len(s: &TrackSlots) -> (r: usize)
    ensures
        r == slots(*s).dom().len(),
{
    s.inner.len()
}

/// `SlotMap::insert`: puts `track` under a key that was not live, which is
/// returned; every other key keeps its track. The map must hold fewer
/// than `u32::MAX - 1` tracks.
#[verifier::external_body]
fn slots_insert(s: &mut TrackSlots, track: Track) -> (r: u64)
    requires
        slots(*old(s)).dom().len() <= MAX_TRACKS,
    ensures
        r & LIVE_BIT != 0,
        r != NULL_KEY,
        !slots(*old(s)).contains_key(r),
        slots(*final(s)) == slots(*old(s)).insert(r, track),
{
    s.inner.insert(track).data().as_ffi()
}

/// `SlotMap::remove`: takes the track under `key` out of the map and
/// returns it, where `key` is live; every other key keeps its track.
#[verifier::external_body]
fn slots_remove(s: &mut TrackSlots, key: u64) -> (r: Option<Track>)
    requires
        key & LIVE_BIT != 0,
    ensures
        r == (if slots(*old(s)).contains_key(key) {
            Some(slots(*old(s))[key])
        } else {
            None
        }),
        slots(*final(s)) == slots(*old(s)).remove(key),
{
    s.inner.remove(KeyData::from_ffi(key).into())
}

/// `SlotMap::get`: the track under `key`, where `key` is live.
#[verifier::external_body]
fn slots_get(s: &TrackSlots, key: u64) -> (r: Option<&Track>)
    requires
        key & LIVE_BIT != 0,
    ensures
        r == (if slots(*s).contains_key(key) {
            Some(&slots(*s)[key])
        } else {
            None
        }),
{
    s.inner.get(KeyData::from_ffi(key).into())
}

/// `SlotMap::get_mut`: the track under `key`, where `key` is live, to be
/// changed in place; every other key keeps its track, and where `key` is
/// not live the map stays as it is.
#[verifier::external_body]
fn slots_get_mut(s: &mut TrackSlots, key: u64) -> (r: Option<&mut Track>)
    requires
        key & LIVE_BIT != 0,
    ensures
        match r {
            Some(track) => {
                &&& slots(*old(s)).contains_key(key)
                &&& *track == slots(*old(s))[key]
                &&& slots(*final(s)) == slots(*old(s)).insert(key, *final(track))
                &&& slot_order(*final(s)) == slot_order(*old(s))
            },
            None => !slots(*old(s)).contains_key(key) && *final(s) == *old(s),
        },
{
    s.inner.get_mut(KeyData::from_ffi(key).into())
}

/// `SlotMap::keys`: the numbers of the live keys, each once, in the order
/// in which the map walks its slots.
#[verifier::external_body]
fn slots_keys(s: &TrackSlots) -> (r: Vec<u64>)
    ensures
        r@ == slot_order(*s),
        r@.no_duplicates(),
        forall|key: u64| r@.contains(key) <==> slots(*s).contains_key(key),
        forall|i: int| 0 <= i < r@.len() ==> (#[trigger] r@[i]) & LIVE_BIT != 0,
{
    s.inner.keys().map(|k| k.data().as_ffi()).collect()
}

/// The tracks of a context.
pub struct TracksHolder {
    tracks: TrackSlots,
}

impl View for TracksHolder {
    type V = Map<u64, Track>;

    /// The track under the number of each live key.
    closed spec fn view(&self) -> Map<u64, Track> {
        slots(self.tracks)
    }
}

impl TracksHolder {
    /// The numbers of the live keys, in the order in which the holder
    /// walks its tracks.
    pub closed spec fn order(&self) -> Seq<u64> {
        slot_order(self.tracks)
    }

    /// Whether the holder holds a track with the name `name`.
    pub open spec fn has_name(&self, name: Seq<char>) -> bool {
        exists|key: u64| #[trigger] self@.contains_key(key) && self@[key].name@ == name
    }

    /// A holder without tracks.
    pub fn new() -> (r: TracksHolder)
        ensures
            r@ == Map::<u64, Track>::empty(),
            r.order() == Seq::<u64>::empty(),
    {
        Self { tracks: slots_new() }
    }

    /// How many tracks the holder holds.
    pub fn len(&self) -> (r: usize)
        ensures
            r == self@.dom().len(),
    {
        slots_len(&self.tracks)
    }

    /// Whether the holder takes one more track with the name of `track`:
    /// it holds none of that name, and is not full.
    pub fn can_add(&self, name: &str) -> (r: bool)
        ensures
            r == (!self.has_name(name@) && self@.dom().len() <= MAX_TRACKS),
    {
        if slots_len(&self.tracks) > MAX_TRACKS {
            return false;
        }
        self.find(name).is_none()
    }

    /// Puts `track` into the holder and returns its key, which was not
    /// live before; every other key keeps its track. A second track of
    /// one name is a usage error, and so is a track more than the holder
    /// takes.
    pub fn add_track(&mut self, track: Track) -> (key: TrackKey)
        requires
            !old(self).has_name(track.name@),
            old(self)@.dom().len() <= MAX_TRACKS,
        ensures
            !old(self)@.contains_key(key@),
            key@ != NULL_KEY,
            final(self)@ == old(self)@.insert(key@, track),
    {
        let raw = slots_insert(&mut self.tracks, track);
        TrackKey { raw }
    }

    /// Takes the track under `key` out of the holder and returns it,
    /// where `key` is live. From then on `key` names no track; every
    /// other key keeps its track.
    pub fn remove_track(&mut self, key: TrackKey) -> (r: Option<Track>)
        ensures
            r == (if old(self)@.contains_key(key@) {
                Some(old(self)@[key@])
            } else {
                None
            }),
            final(self)@ == old(self)@.remove(key@),
            !final(self)@.contains_key(key@),
            forall|other: u64|
                other != key@ ==> final(self)@.contains_key(other) == old(self)@.contains_key(
                    other,
                ) && (old(self)@.contains_key(other) ==> #[trigger] final(self)@[other] == old(
                    self,
                )@[other]),
    {
        proof {
            use_type_invariant(&key);
        }
        slots_remove(&mut self.tracks, key.raw)
    }

    /// The track under `index`, where `index` is live.
    pub fn get_track(&self, index: TrackKey) -> (r: Option<&Track>)
        ensures
            r == (if self@.contains_key(index@) {
                Some(&self@[index@])
            } else {
                None
            }),
    {
        proof {
            use_type_invariant(&index);
        }
        slots_get(&self.tracks, index.raw)
    }

    /// The track under `index`, where `index` is live, to be changed in
    /// place; every other key keeps its track.
    pub fn get_track_mut(&mut self, index: TrackKey) -> (r: Option<&mut Track>)
        ensures
            match r {
                Some(track) => {
                    &&& old(self)@.contains_key(index@)
                    &&& *track == old(self)@[index@]
                    &&& final(self)@ == old(self)@.insert(index@, *final(track))
                    &&& final(self).order() == old(self).order()
                },
                None => !old(self)@.contains_key(index@) && *final(self) == *old(self),
            },
    {
        proof {
            use_type_invariant(&index);
        }
        slots_get_mut(&mut self.tracks, index.raw)
    }

    /// The first key, in the order in which the holder walks its tracks,
    /// whose track has the name `name`.
    pub open spec fn first_named(&self, name: Seq<char>, key: u64) -> bool {
        exists|i: int|
            {
                &&& 0 <= i < self.order().len()
                &&& #[trigger] self.order()[i] == key
                &&& self@[key].name@ == name
                &&& forall|j: int| 0 <= j < i ==> self@[#[trigger] self.order()[j]].name@ != name
            }
    }

    fn find(&self, name: &str) -> (r: Option<TrackKey>)
        ensures
            match r {
                Some(key) => self@.contains_key(key@) && self.first_named(name@, key@),
                None => !self.has_name(name@),
            },
    {
        let keys = slots_keys(&self.tracks);
        let mut i: usize = 0;
        while i < keys.len()
            invariant
                i <= keys@.len(),
                keys@ == slot_order(self.tracks),
                forall|key: u64| keys@.contains(key) <==> slots(self.tracks).contains_key(key),
                forall|j: int| 0 <= j < keys@.len() ==> (#[trigger] keys@[j]) & LIVE_BIT != 0,
                forall|j: int| 0 <= j < i ==> self@[#[trigger] keys@[j]].name@ != name@,
            decreases keys@.len() - i,
        {
            let raw = keys[i];
            assert(keys@.contains(raw));
            match slots_get(&self.tracks, raw) {
                Some(track) => {
                    if same(track.name.as_str(), name) {
                        assert(self.order()[i as int] == raw);
                        return Some(TrackKey { raw });
                    }
                },
                None => {},
            }
            i = i + 1;
        }
        assert forall|key: u64| #[trigger] self@.contains_key(key) implies self@[key].name@
            != name@ by {
            assert(keys@.contains(key));
            let j = choose|j: int| 0 <= j < keys@.len() && keys@[j] == key;
            assert(self@[keys@[j]].name@ != name@);
        }
        None
    }

    /// The key of the track with the name `name`: the first such key in
    /// the order in which the holder walks its tracks, and nothing where
    /// no track has the name.
    pub fn get_track_key(&mut self, name: &str) -> (r: Option<TrackKey>)
        ensures
            *final(self) == *old(self),
            match r {
                Some(key) => old(self)@.contains_key(key@) && old(self).first_named(name@, key@),
                None => !old(self).has_name(name@),
            },
    {
        self.find(name)
    }

    /// The track with the name `name`: the first such track in the order
    /// in which the holder walks its tracks.
    pub fn get_track_by_name(&self, name: &str) -> (r: Option<&Track>)
        ensures
            match r {
                Some(track) => exists|key: u64|
                    #[trigger] self.first_named(name@, key) && self@.contains_key(key) && *track
                        == self@[key],
                None => !self.has_name(name@),
            },
    {
        match self.find(name) {
            Some(key) => {
                proof {
                    use_type_invariant(&key);
                }
                let r = slots_get(&self.tracks, key.raw);
                assert(self.first_named(name@, key@));
                r
            },
            None => None,
        }
    }
}

impl Default for TracksHolder {
    fn default() -> (r: TracksHolder)
        ensures
            r@ == Map::<u64, Track>::empty(),
    {
        TracksHolder::new()
    }
}

} // verus!
