//! The observable state on the receiving side.
//!
//! A [`SyncState`] is what an observer sees: one [`Torrent`] per content hash
//! and one [`ServerState`]. A full frame replaces it; a partial frame changes
//! the fields it names and nothing else.

use crate::keyed::KeyedMap;
use crate::proto::{overlaid, overlay};
use crate::proto::sync::{
    SyncMainDataFull, SyncMainDataFullView, SyncMainDataPartial, SyncMainDataPartialView,
};
use crate::proto::torrents::{
    TorrentInfo, TorrentInfoPartial, TorrentInfoPartialView, TorrentInfoView, TorrentStatus,
};
use crate::proto::transfer::{ConnectionStatus, ServerStateFull, ServerStatePartial};
use crate::scalar::Scalar;
use vstd::prelude::*;

verus! {

/// The observable record of one torrent.
#[derive(Clone, Debug)]
pub struct Torrent {
    /// The content hash, the key under which the record is stored.
    pub infohash_v1: String,
    pub name: String,
    /// Fraction of the data that is complete.
    pub progress: Scalar,
    /// Bytes downloaded.
    pub downloaded: Scalar,
    /// Bytes uploaded.
    pub uploaded: Scalar,
    /// Download speed (bytes/s).
    pub dlspeed: Scalar,
    /// Upload speed (bytes/s).
    pub upspeed: Scalar,
    /// Seeds connected to.
    pub num_seeds: Scalar,
    /// Leechers connected to.
    pub num_leechs: Scalar,
    /// Bytes selected for download.
    pub size: Scalar,
    /// Bytes of all files of the torrent.
    pub total_size: Scalar,
    /// Share of the pieces that are available.
    pub availability: Scalar,
    /// Estimated seconds until completion.
    pub eta: Scalar,
    /// The state the torrent is in.
    pub state: TorrentStatus,
}

/// The mathematical value of a [`Torrent`]: each string by its characters.
pub struct TorrentView {
    pub infohash_v1: Seq<char>,
    pub name: Seq<char>,
    pub progress: Scalar,
    pub downloaded: Scalar,
    pub uploaded: Scalar,
    pub dlspeed: Scalar,
    pub upspeed: Scalar,
    pub num_seeds: Scalar,
    pub num_leechs: Scalar,
    pub size: Scalar,
    pub total_size: Scalar,
    pub availability: Scalar,
    pub eta: Scalar,
    pub state: TorrentStatus,
}

impl View for Torrent {
    type V = TorrentView;

    open spec fn view(&self) -> TorrentView {
        TorrentView {
            infohash_v1: self.infohash_v1@,
            name: self.name@,
            progress: self.progress,
            downloaded: self.downloaded,
            uploaded: self.uploaded,
            dlspeed: self.dlspeed,
            upspeed: self.upspeed,
            num_seeds: self.num_seeds,
            num_leechs: self.num_leechs,
            size: self.size,
            total_size: self.total_size,
            availability: self.availability,
            eta: self.eta,
            state: self.state,
        }
    }
}

impl TorrentView {
    /// The observable part of a full record.
    pub open spec fn of(info: TorrentInfoView) -> TorrentView {
        TorrentView {
            infohash_v1: info.infohash_v1,
            name: info.name,
            progress: info.progress,
            downloaded: info.downloaded,
            uploaded: info.uploaded,
            dlspeed: info.dlspeed,
            upspeed: info.upspeed,
            num_seeds: info.num_seeds,
            num_leechs: info.num_leechs,
            size: info.size,
            total_size: info.total_size,
            availability: info.availability,
            eta: info.eta,
            state: info.state,
        }
    }

    /// The record after `partial` is merged in: every field that the delta
    /// names is overwritten, every other field is kept. The hash never
    /// changes.
    pub open spec fn merged(self, partial: TorrentInfoPartialView) -> TorrentView {
        TorrentView {
            infohash_v1: self.infohash_v1,
            name: overlay(self.name, partial.name),
            progress: overlay(self.progress, partial.progress),
            downloaded: overlay(self.downloaded, partial.downloaded),
            uploaded: overlay(self.uploaded, partial.uploaded),
            dlspeed: overlay(self.dlspeed, partial.dlspeed),
            upspeed: overlay(self.upspeed, partial.upspeed),
            num_seeds: overlay(self.num_seeds, partial.num_seeds),
            num_leechs: overlay(self.num_leechs, partial.num_leechs),
            size: overlay(self.size, partial.size),
            total_size: overlay(self.total_size, partial.total_size),
            availability: overlay(self.availability, partial.availability),
            eta: overlay(self.eta, partial.eta),
            state: overlay(self.state, partial.state),
        }
    }

    /// The record that stands for a torrent of which nothing is known.
    pub open spec fn blank() -> TorrentView {
        TorrentView {
            infohash_v1: Seq::empty(),
            name: Seq::empty(),
            progress: Scalar { bits: 0 },
            downloaded: Scalar { bits: 0 },
            uploaded: Scalar { bits: 0 },
            dlspeed: Scalar { bits: 0 },
            upspeed: Scalar { bits: 0 },
            num_seeds: Scalar { bits: 0 },
            num_leechs: Scalar { bits: 0 },
            size: Scalar { bits: 0 },
            total_size: Scalar { bits: 0 },
            availability: Scalar { bits: 0 },
            eta: Scalar { bits: 0 },
            state: TorrentStatus::Unknown,
        }
    }
}

impl Torrent {
    /// The observable record of a full record, taken by reference.
    pub fn from_info(value: &TorrentInfo) -> (t: Torrent)
        ensures
            t@ == TorrentView::of(value@),
    {
        Torrent {
            infohash_v1: value.infohash_v1.clone(),
            name: value.name.clone(),
            progress: value.progress,
            downloaded: value.downloaded,
            uploaded: value.uploaded,
            dlspeed: value.dlspeed,
            upspeed: value.upspeed,
            num_seeds: value.num_seeds,
            num_leechs: value.num_leechs,
            size: value.size,
            total_size: value.total_size,
            availability: value.availability,
            eta: value.eta,
            state: value.state,
        }
    }

    /// Overwrites every field that `partial` names and leaves the others.
    pub fn apply_partial(&mut self, partial: TorrentInfoPartial)
        ensures
            final(self)@ == old(self)@.merged(partial@),
    {
        if let Some(new_value) = partial.name {
            self.name = new_value;
        }
        self.progress = overlaid(self.progress, partial.progress);
        self.downloaded = overlaid(self.downloaded, partial.downloaded);
        self.uploaded = overlaid(self.uploaded, partial.uploaded);
        self.dlspeed = overlaid(self.dlspeed, partial.dlspeed);
        self.upspeed = overlaid(self.upspeed, partial.upspeed);
        self.num_seeds = overlaid(self.num_seeds, partial.num_seeds);
        self.num_leechs = overlaid(self.num_leechs, partial.num_leechs);
        self.size = overlaid(self.size, partial.size);
        self.total_size = overlaid(self.total_size, partial.total_size);
        self.availability = overlaid(self.availability, partial.availability);
        self.eta = overlaid(self.eta, partial.eta);
        self.state = overlaid(self.state, partial.state);
    }
}

impl From<TorrentInfo> for Torrent {
    fn from(value: TorrentInfo) -> (t: Torrent)
        ensures
            t@ == TorrentView::of(value@),
    {
        Torrent {
            infohash_v1: value.infohash_v1,
            name: value.name,
            progress: value.progress,
            downloaded: value.downloaded,
            uploaded: value.uploaded,
            dlspeed: value.dlspeed,
            upspeed: value.upspeed,
            num_seeds: value.num_seeds,
            num_leechs: value.num_leechs,
            size: value.size,
            total_size: value.total_size,
            availability: value.availability,
            eta: value.eta,
            state: value.state,
        }
    }
}

impl vstd::std_specs::convert::FromSpecImpl<TorrentInfo> for Torrent {
    open spec fn obeys_from_spec() -> bool {
        true
    }

    open spec fn from_spec(value: TorrentInfo) -> Torrent {
        Torrent {
            infohash_v1: value.infohash_v1,
            name: value.name,
            progress: value.progress,
            downloaded: value.downloaded,
            uploaded: value.uploaded,
            dlspeed: value.dlspeed,
            upspeed: value.upspeed,
            num_seeds: value.num_seeds,
            num_leechs: value.num_leechs,
            size: value.size,
            total_size: value.total_size,
            availability: value.availability,
            eta: value.eta,
            state: value.state,
        }
    }
}

impl PartialEq for Torrent {
    /// Two records are equal where they agree in every field, each string
    /// compared by its characters.
    fn eq(&self, other: &Torrent) -> (b: bool) {
        let strings = self.infohash_v1 == other.infohash_v1 && self.name == other.name;
        let transfer = self.progress == other.progress && self.downloaded == other.downloaded
            && self.uploaded == other.uploaded && self.dlspeed == other.dlspeed && self.upspeed
            == other.upspeed;
        let swarm = self.num_seeds == other.num_seeds && self.num_leechs == other.num_leechs
            && self.availability == other.availability;
        let rest = self.size == other.size && self.total_size == other.total_size && self.eta
            == other.eta && self.state == other.state;
        strings && transfer && swarm && rest
    }
}

impl vstd::std_specs::cmp::PartialEqSpecImpl for Torrent {
    open spec fn obeys_eq_spec() -> bool {
        true
    }

    open spec fn eq_spec(&self, other: &Torrent) -> bool {
        self@ == other@
    }
}

impl Default for Torrent {
    fn default() -> (t: Torrent)
        ensures
            t@ == TorrentView::blank(),
    {
        Torrent {
            infohash_v1: String::new(),
            name: String::new(),
            progress: Scalar::zero(),
            downloaded: Scalar::zero(),
            uploaded: Scalar::zero(),
            dlspeed: Scalar::zero(),
            upspeed: Scalar::zero(),
            num_seeds: Scalar::zero(),
            num_leechs: Scalar::zero(),
            size: Scalar::zero(),
            total_size: Scalar::zero(),
            availability: Scalar::zero(),
            eta: Scalar::zero(),
            state: TorrentStatus::Unknown,
        }
    }
}

/// The observable global statistics.
#[derive(Clone, Copy, Debug, PartialEq, Eq, Structural)]
pub struct ServerState {
    /// Global download rate (bytes/s).
    pub dl_info_speed: Scalar,
    /// Data downloaded this session (bytes).
    pub dl_info_data: Scalar,
    /// Global upload rate (bytes/s).
    pub up_info_speed: Scalar,
    /// Data uploaded this session (bytes).
    pub up_info_data: Scalar,
    /// Download rate limit (bytes/s).
    pub dl_rate_limit: Scalar,
    /// Upload rate limit (bytes/s).
    pub up_rate_limit: Scalar,
    /// DHT nodes connected to.
    pub dht_nodes: Scalar,
    /// Connection status.
    pub connection_status: ConnectionStatus,
}

impl ServerState {
    /// The observable statistics of a full record.
    pub open spec fn of(full: ServerStateFull) -> ServerState {
        ServerState {
            dl_info_speed: full.dl_info_speed,
            dl_info_data: full.dl_info_data,
            up_info_speed: full.up_info_speed,
            up_info_data: full.up_info_data,
            dl_rate_limit: full.dl_rate_limit,
            up_rate_limit: full.up_rate_limit,
            dht_nodes: full.dht_nodes,
            connection_status: full.connection_status,
        }
    }

    /// The statistics after `partial` is merged in, field by field.
    pub open spec fn merged(self, partial: ServerStatePartial) -> ServerState {
        ServerState {
            dl_info_speed: overlay(self.dl_info_speed, partial.dl_info_speed),
            dl_info_data: overlay(self.dl_info_data, partial.dl_info_data),
            up_info_speed: overlay(self.up_info_speed, partial.up_info_speed),
            up_info_data: overlay(self.up_info_data, partial.up_info_data),
            dl_rate_limit: overlay(self.dl_rate_limit, partial.dl_rate_limit),
            up_rate_limit: overlay(self.up_rate_limit, partial.up_rate_limit),
            dht_nodes: overlay(self.dht_nodes, partial.dht_nodes),
            connection_status: overlay(self.connection_status, partial.connection_status),
        }
    }

    /// Overwrites every field that `partial` names and leaves the others.
    pub fn apply_partial(&mut self, partial: ServerStatePartial)
        ensures
            *final(self) == old(self).merged(partial),
    {
        if let Some(cs) = partial.connection_status {
            self.connection_status = cs;
        }
        if let Some(v) = partial.dl_info_speed {
            self.dl_info_speed = v;
        }
        if let Some(v) = partial.up_info_speed {
            self.up_info_speed = v;
        }
        if let Some(v) = partial.dl_info_data {
            self.dl_info_data = v;
        }
        if let Some(v) = partial.up_info_data {
            self.up_info_data = v;
        }
        if let Some(v) = partial.dl_rate_limit {
            self.dl_rate_limit = v;
        }
        if let Some(v) = partial.up_rate_limit {
            self.up_rate_limit = v;
        }
        if let Some(v) = partial.dht_nodes {
            self.dht_nodes = v;
        }
    }
}

impl From<ServerStateFull> for ServerState {
    fn from(value: ServerStateFull) -> (s: ServerState) {
        ServerState {
            dl_info_speed: value.dl_info_speed,
            dl_info_data: value.dl_info_data,
            up_info_speed: value.up_info_speed,
            up_info_data: value.up_info_data,
            dl_rate_limit: value.dl_rate_limit,
            up_rate_limit: value.up_rate_limit,
            dht_nodes: value.dht_nodes,
            connection_status: value.connection_status,
        }
    }
}

impl vstd::std_specs::convert::FromSpecImpl<ServerStateFull> for ServerState {
    open spec fn obeys_from_spec() -> bool {
        true
    }

    open spec fn from_spec(value: ServerStateFull) -> ServerState {
        ServerState::of(value)
    }
}

impl Default for ServerState {
    fn default() -> (s: ServerState)
        ensures
            s == ServerState::of(ServerStateFull::default_value()),
    {
        ServerState {
            dl_info_speed: Scalar::zero(),
            dl_info_data: Scalar::zero(),
            up_info_speed: Scalar::zero(),
            up_info_data: Scalar::zero(),
            dl_rate_limit: Scalar::zero(),
            up_rate_limit: Scalar::zero(),
            dht_nodes: Scalar::zero(),
            connection_status: ConnectionStatus::Disconnected,
        }
    }
}

/// The aggregate an observer sees: the torrents by content hash, and the
/// global statistics.
#[derive(Clone, Debug)]
pub struct SyncState {
    pub torrents: KeyedMap<Torrent>,
    pub server_state: ServerState,
}

/// The mathematical value of a [`SyncState`].
pub struct SyncStateView {
    pub torrents: Map<Seq<char>, TorrentView>,
    pub server_state: ServerState,
}

impl View for SyncState {
    type V = SyncStateView;

    open spec fn view(&self) -> SyncStateView {
        SyncStateView { torrents: self.torrents@, server_state: self.server_state }
    }
}

/// The torrent map after a sparse map of deltas is merged in. A delta for a
/// hash that the map lacks is dropped: the result has exactly the keys of
/// `current`.
pub open spec fn merged_torrents(
    current: Map<Seq<char>, TorrentView>,
    delta: Map<Seq<char>, TorrentInfoPartialView>,
) -> Map<Seq<char>, TorrentView> {
    Map::new(
        |h: Seq<char>| current.contains_key(h),
        |h: Seq<char>|
            if delta.contains_key(h) {
                current[h].merged(delta[h])
            } else {
                current[h]
            },
    )
}

/// The torrent map that a snapshot stands for: the observable part of each of
/// its records, under the same hash.
pub open spec fn snapshot_torrents(full: Map<Seq<char>, TorrentInfoView>) -> Map<
    Seq<char>,
    TorrentView,
> {
    Map::new(|h: Seq<char>| full.contains_key(h), |h: Seq<char>| TorrentView::of(full[h]))
}

impl SyncStateView {
    /// The state before any frame: no torrent, statistics at their defaults.
    pub open spec fn empty() -> SyncStateView {
        SyncStateView {
            torrents: Map::empty(),
            server_state: ServerState::of(ServerStateFull::default_value()),
        }
    }

    /// The state that a full frame stands for.
    pub open spec fn snapshot(full: SyncMainDataFullView) -> SyncStateView {
        SyncStateView {
            torrents: snapshot_torrents(full.torrents),
            server_state: ServerState::of(full.server_state),
        }
    }

    /// The state after a partial frame is merged in.
    pub open spec fn merged(self, partial: SyncMainDataPartialView) -> SyncStateView {
        SyncStateView {
            torrents: match partial.torrents {
                Some(delta) => merged_torrents(self.torrents, delta),
                None => self.torrents,
            },
            server_state: match partial.server_state {
                Some(delta) => self.server_state.merged(delta),
                None => self.server_state,
            },
        }
    }
}

impl SyncState {
    /// The state that the full frame `value` stands for. The torrents keep
    /// the order they have in the frame.
    pub fn from_full(value: &SyncMainDataFull) -> (s: SyncState)
        ensures
            s@ == SyncStateView::snapshot(value@),
            s.torrents.keys() == value.torrents.keys(),
    {
        let n = value.torrents.len();
        let mut torrents: KeyedMap<Torrent> = KeyedMap::new();
        let mut i: usize = 0;
        while i < n
            invariant
                n == value.torrents.keys().len(),
                value.torrents.keys_match_view(),
                i <= n,
                torrents.keys_match_view(),
                torrents.keys() == value.torrents.keys().subrange(0, i as int),
                forall|h: Seq<char>| #[trigger]
                    torrents@.contains_key(h) ==> value.torrents@.contains_key(h) && torrents@[h]
                        == TorrentView::of(value.torrents@[h]),
            decreases n - i,
        {
            let key = value.torrents.key_at(i).clone();
            let torrent = Torrent::from_info(value.torrents.value_at(i));
            proof {
                if torrents@.contains_key(key@) {
                    let j = choose|j: int|
                        0 <= j < torrents.keys().len() && torrents.keys()[j] == key@;
                    assert(value.torrents.keys()[j] == value.torrents.keys()[i as int]);
                }
            }
            torrents.insert(key, torrent);
            proof {
                assert(torrents.keys() =~= value.torrents.keys().subrange(0, i + 1));
            }
            i += 1;
        }
        proof {
            assert(torrents.keys() =~= value.torrents.keys());
            assert(torrents@ =~= snapshot_torrents(value.torrents@));
        }
        SyncState { torrents, server_state: ServerState::from(value.server_state) }
    }

    /// Merges a partial frame into the state. A delta for a hash that the
    /// state does not hold is dropped without a trace; no record is created
    /// and none is removed.
    pub fn apply_partial(&mut self, partial: SyncMainDataPartial)
        ensures
            final(self)@ == old(self)@.merged(partial@),
            final(self).torrents.keys() == old(self).torrents.keys(),
    {
        let SyncMainDataPartial { rid: _, torrents, server_state } = partial;
        if let Some(delta) = torrents {
            let mut delta = delta;
            let ghost all = delta@;
            let ghost start = self.torrents@;
            while !delta.is_empty()
                invariant
                    self.server_state == old(self).server_state,
                    self.torrents.keys() == old(self).torrents.keys(),
                    forall|h: Seq<char>| #[trigger]
                        delta@.contains_key(h) ==> all.contains_key(h) && all[h] == delta@[h],
                    self.torrents@ == merged_torrents(start, all.remove_keys(delta@.dom())),
                decreases delta.keys().len(),
            {
                let ghost rest = delta@;
                let ghost done = all.remove_keys(rest.dom());
                match delta.pop() {
                    Some((hash, change)) => {
                        let ghost next = all.remove_keys(delta@.dom());
                        proof {
                            assert(next =~= done.insert(hash@, change@));
                        }
                        match self.torrents.index_of(&hash) {
                            Some(at) => {
                                let mut torrent = self.torrents.replace_at(at, Torrent::default());
                                torrent.apply_partial(change);
                                let _ = self.torrents.replace_at(at, torrent);
                                proof {
                                    assert(self.torrents@ =~= merged_torrents(start, next));
                                }
                            },
                            None => {
                                proof {
                                    assert(merged_torrents(start, next) =~= merged_torrents(
                                        start,
                                        done,
                                    ));
                                }
                            },
                        }
                    },
                    None => {},
                }
            }
            proof {
                assert(all.remove_keys(delta@.dom()) =~= all);
            }
        }
        if let Some(delta) = server_state {
            self.server_state.apply_partial(delta);
        }
    }
}

impl PartialEq for SyncState {
    /// Two states are equal where they hold the same records under the same
    /// hashes, in whatever order, and the same statistics.
    fn eq(&self, other: &SyncState) -> (b: bool) {
        if self.server_state != other.server_state {
            return false;
        }
        let n = self.torrents.len();
        if other.torrents.len() != n {
            return false;
        }
        let mut i: usize = 0;
        while i < n
            invariant
                n == self.torrents.keys().len(),
                self.torrents.keys_match_view(),
                other.torrents.keys_match_view(),
                self.torrents@.len() == other.torrents@.len(),
                self.server_state == other.server_state,
                i <= n,
                forall|j: int|
                    0 <= j < i ==> other.torrents@.contains_key(#[trigger] self.torrents.keys()[j])
                        && other.torrents@[self.torrents.keys()[j]]
                        == self.torrents@[self.torrents.keys()[j]],
            decreases n - i,
        {
            let key = self.torrents.key_at(i);
            match other.torrents.get(key) {
                None => {
                    return false;
                },
                Some(theirs) => {
                    if *self.torrents.value_at(i) != *theirs {
                        return false;
                    }
                },
            }
            i += 1;
        }
        proof {
            assert forall|h: Seq<char>| self.torrents@.contains_key(h) implies other.torrents@.contains_key(h) && other.torrents@[h] == self.torrents@[h] by {
                let j = choose|j: int|
                    0 <= j < self.torrents.keys().len() && self.torrents.keys()[j] == h;
                assert(other.torrents@.contains_key(self.torrents.keys()[j]));
            }
            assert(self.torrents@.dom().subset_of(other.torrents@.dom()));
            vstd::set_lib::lemma_subset_equality(self.torrents@.dom(), other.torrents@.dom());
            assert(self.torrents@ =~= other.torrents@);
        }
        true
    }
}

impl vstd::std_specs::cmp::PartialEqSpecImpl for SyncState {
    open spec fn obeys_eq_spec() -> bool {
        true
    }

    open spec fn eq_spec(&self, other: &SyncState) -> bool {
        self@ == other@
    }
}

impl Default for SyncState {
    fn default() -> (s: SyncState)
        ensures
            s@ == SyncStateView::empty(),
    {
        SyncState { torrents: KeyedMap::new(), server_state: ServerState::default() }
    }
}

impl From<SyncMainDataFull> for SyncState {
    fn from(value: SyncMainDataFull) -> (s: SyncState)
        ensures
            s@ == SyncStateView::snapshot(value@),
    {
        SyncState::from_full(&value)
    }
}

impl vstd::std_specs::convert::FromSpecImpl<SyncMainDataFull> for SyncState {
    /// The conversion is specified over views, by the `ensures` of `from`:
    /// the view of a state does not fix the order of its records, so no
    /// function of the frame alone names the resulting value.
    open spec fn obeys_from_spec() -> bool {
        false
    }

    open spec fn from_spec(value: SyncMainDataFull) -> SyncState {
        arbitrary()
    }
}

} // verus!
