//! Revision frames.
//!
//! The backend answers a poll with one frame, tagged with the revision id
//! (`rid`) of the state it describes. A full frame holds the whole state; a
//! partial frame holds only the fields that changed since the revision the
//! poll named.

use crate::keyed::KeyedMap;
use crate::proto::torrents::{TorrentInfo, TorrentInfoPartial, TorrentInfoPartialView, TorrentInfoView};
use crate::proto::transfer::{ServerStateFull, ServerStatePartial};
use vstd::prelude::*;

verus! {

/// A complete snapshot of the backend's state.
#[derive(Clone, Debug)]
pub struct SyncMainDataFull {
    pub full_update: bool,
    pub rid: u64,
    pub torrents: KeyedMap<TorrentInfo>,
    pub server_state: ServerStateFull,
}

/// The mathematical value of a [`SyncMainDataFull`].
pub struct SyncMainDataFullView {
    pub full_update: bool,
    pub rid: u64,
    pub torrents: Map<Seq<char>, TorrentInfoView>,
    pub server_state: ServerStateFull,
}

impl View for SyncMainDataFull {
    type V = SyncMainDataFullView;

    open spec fn view(&self) -> SyncMainDataFullView {
        SyncMainDataFullView {
            full_update: self.full_update,
            rid: self.rid,
            torrents: self.torrents@,
            server_state: self.server_state,
        }
    }
}

/// A sparse delta of the backend's state. An absent map or an absent
/// statistics record means that nothing in it changed.
#[derive(Clone, Debug)]
pub struct SyncMainDataPartial {
    pub rid: u64,
    pub torrents: Option<KeyedMap<TorrentInfoPartial>>,
    pub server_state: Option<ServerStatePartial>,
}

/// The mathematical value of a [`SyncMainDataPartial`].
pub struct SyncMainDataPartialView {
    pub rid: u64,
    pub torrents: Option<Map<Seq<char>, TorrentInfoPartialView>>,
    pub server_state: Option<ServerStatePartial>,
}

impl View for SyncMainDataPartial {
    type V = SyncMainDataPartialView;

    open spec fn view(&self) -> SyncMainDataPartialView {
        SyncMainDataPartialView {
            rid: self.rid,
            torrents: match self.torrents {
                Some(m) => Some(m@),
                None => None,
            },
            server_state: self.server_state,
        }
    }
}

/// The records of a snapshot after a sparse map of deltas is merged in. A
/// record that the deltas name is changed field by field; a delta for a
/// hash that the snapshot lacks is dropped, so the result has exactly the
/// keys of `current`.
pub open spec fn merged_infos(
    current: Map<Seq<char>, TorrentInfoView>,
    delta: Map<Seq<char>, TorrentInfoPartialView>,
) -> Map<Seq<char>, TorrentInfoView> {
    Map::new(
        |h: Seq<char>| current.contains_key(h),
        |h: Seq<char>|
            if delta.contains_key(h) {
                current[h].merged(delta[h])
            } else {
                current[h]
            },
    )
}

impl SyncMainDataFullView {
    /// Whether `partial` is in order after this snapshot: its revision id
    /// rises above the snapshot's.
    pub open spec fn accepts(self, partial: SyncMainDataPartialView) -> bool {
        partial.rid > self.rid
    }

    /// The snapshot after `partial` arrives. A delta that is not in order is
    /// stale or a duplicate and changes nothing. A delta in order brings the
    /// snapshot to its revision: the revision id is taken over, and the
    /// records and the global statistics are merged field by field.
    pub open spec fn patched(self, partial: SyncMainDataPartialView) -> SyncMainDataFullView {
        if !self.accepts(partial) {
            self
        } else {
            SyncMainDataFullView {
                full_update: self.full_update,
                rid: partial.rid,
                torrents: match partial.torrents {
                    Some(delta) => merged_infos(self.torrents, delta),
                    None => self.torrents,
                },
                server_state: match partial.server_state {
                    Some(delta) => self.server_state.merged(delta),
                    None => self.server_state,
                },
            }
        }
    }
}

impl SyncMainDataFull {
    /// Brings the snapshot to the revision of `partial`, where that
    /// revision rises above the snapshot's: every field that the delta
    /// names, of a record that the snapshot holds or of the statistics, is
    /// overwritten, and everything else is kept. A delta for a hash that
    /// the snapshot lacks is dropped. A delta whose revision does not rise
    /// above the snapshot's is rejected: the snapshot stays as it is.
    pub fn apply_partial(&mut self, partial: SyncMainDataPartial)
        ensures
            final(self)@ == old(self)@.patched(partial@),
            final(self).torrents.keys() == old(self).torrents.keys(),
    {
        let SyncMainDataPartial { rid, torrents, server_state } = partial;
        if rid <= self.rid {
            return;
        }
        self.rid = rid;
        if let Some(delta) = torrents {
            let mut delta = delta;
            let ghost all = delta@;
            let ghost start = self.torrents@;
            while !delta.is_empty()
                invariant
                    self.full_update == old(self).full_update,
                    self.rid == rid,
                    self.server_state == old(self).server_state,
                    self.torrents.keys() == old(self).torrents.keys(),
                    forall|h: Seq<char>| #[trigger]
                        delta@.contains_key(h) ==> all.contains_key(h) && all[h] == delta@[h],
                    self.torrents@ == merged_infos(start, all.remove_keys(delta@.dom())),
                decreases delta.keys().len(),
            {
                let ghost done = all.remove_keys(delta@.dom());
                match delta.pop() {
                    Some((hash, change)) => {
                        let ghost next = all.remove_keys(delta@.dom());
                        proof {
                            assert(next =~= done.insert(hash@, change@));
                        }
                        match self.torrents.index_of(&hash) {
                            Some(at) => {
                                let mut info = self.torrents.replace_at(at, TorrentInfo::default());
                                info.apply_partial(change);
                                let _ = self.torrents.replace_at(at, info);
                                proof {
                                    assert(self.torrents@ =~= merged_infos(start, next));
                                }
                            },
                            None => {
                                proof {
                                    assert(merged_infos(start, next) =~= merged_infos(start, done));
                                }
                            },
                        }
                    },
                    None => {},
                }
            }
            proof {
                assert(all.remove_keys(delta@.dom()) =~= all);
            }
        }
        if let Some(delta) = server_state {
            self.server_state.apply_partial(delta);
        }
    }
}

/// A delta whose revision id does not rise above the snapshot's changes
/// neither the revision id nor a record nor the statistics.
pub proof fn law_snapshot_ignores_stale_delta(
    snapshot: SyncMainDataFullView,
    partial: SyncMainDataPartialView,
)
    requires
        partial.rid <= snapshot.rid,
    ensures
        snapshot.patched(partial) == snapshot,
{
}

/// A delta in order neither adds nor removes a record of the snapshot, and
/// changes each record it names by the field-wise merge.
pub proof fn law_snapshot_merges_fieldwise(
    snapshot: SyncMainDataFullView,
    partial: SyncMainDataPartialView,
    h: Seq<char>,
)
    requires
        partial.rid > snapshot.rid,
    ensures
        snapshot.patched(partial).rid == partial.rid,
        snapshot.patched(partial).torrents.dom() == snapshot.torrents.dom(),
        snapshot.torrents.contains_key(h) ==> snapshot.patched(partial).torrents[h] == (
        match partial.torrents {
            Some(delta) if delta.contains_key(h) => snapshot.torrents[h].merged(delta[h]),
            _ => snapshot.torrents[h],
        }),
{
    assert(snapshot.patched(partial).torrents.dom() =~= snapshot.torrents.dom());
}

impl Default for SyncMainDataFull {
    fn default() -> (r: SyncMainDataFull)
        ensures
            r@ == (SyncMainDataFullView {
                full_update: false,
                rid: 0,
                torrents: Map::empty(),
                server_state: ServerStateFull::default_value(),
            }),
    {
        SyncMainDataFull {
            full_update: false,
            rid: 0,
            torrents: KeyedMap::new(),
            server_state: ServerStateFull::default(),
        }
    }
}

impl Default for SyncMainDataPartial {
    fn default() -> (r: SyncMainDataPartial)
        ensures
            r@ == (SyncMainDataPartialView { rid: 0, torrents: None, server_state: None }),
    {
        SyncMainDataPartial { rid: 0, torrents: None, server_state: None }
    }
}

/// One revision frame.
#[derive(Clone, Debug)]
pub enum MainData {
    Full(SyncMainDataFull),
    Partial(SyncMainDataPartial),
}

/// The mathematical value of a [`MainData`].
pub enum MainDataView {
    Full(SyncMainDataFullView),
    Partial(SyncMainDataPartialView),
}

impl View for MainData {
    type V = MainDataView;

    open spec fn view(&self) -> MainDataView {
        match self {
            MainData::Full(full) => MainDataView::Full(full@),
            MainData::Partial(partial) => MainDataView::Partial(partial@),
        }
    }
}

impl MainDataView {
    /// The revision id the frame is tagged with.
    pub open spec fn rid(self) -> u64 {
        match self {
            MainDataView::Full(full) => full.rid,
            MainDataView::Partial(partial) => partial.rid,
        }
    }
}

impl MainData {
    /// The revision id the frame is tagged with.
    pub fn rid(&self) -> (r: u64)
        ensures
            r == self@.rid(),
    {
        match self {
            Self::Full(fd) => fd.rid,
            Self::Partial(pd) => pd.rid,
        }
    }

    /// Whether the frame is a full snapshot.
    pub fn is_full(&self) -> (b: bool)
        ensures
            b == (self@ is Full),
    {
        match self {
            Self::Full(_) => true,
            Self::Partial(_) => false,
        }
    }
}

impl Default for MainData {
    fn default() -> (r: MainData)
        ensures
            r@ == MainDataView::Partial(
                SyncMainDataPartialView { rid: 0, torrents: None, server_state: None },
            ),
    {
        MainData::Partial(SyncMainDataPartial::default())
    }
}

} // verus!
