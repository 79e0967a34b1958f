//! The reconciler: one observable state out of a stream of frames.
//!
//! Frames arrive in the order the transport delivers them. Within one
//! session their revision ids rise strictly; a frame that does not rise
//! above the last one applied is stale or a duplicate, and is dropped. A full
//! frame replaces the state; a partial frame is merged into it.

use crate::proto::sync::{MainData, MainDataView, SyncMainDataFullView, SyncMainDataPartialView};
use crate::syncstate::{SyncState, SyncStateView};
use vstd::prelude::*;

verus! {

/// Why a frame was dropped.
#[derive(Clone, Copy, Debug, PartialEq, Eq, Structural)]
pub enum SyncError {
    /// The frame's revision id `got` does not rise above `last`, the id of
    /// the frame applied before it.
    StaleRevision { last: u64, got: u64 },
    /// What arrived could not be decoded into a frame.
    Unparseable,
}

impl SyncError {
    pub open spec fn message(self) -> Seq<char> {
        match self {
            SyncError::StaleRevision { .. } => "stale revision"@,
            SyncError::Unparseable => "unparseable frame"@,
        }
    }

    /// A short description of the error.
    pub fn to_string(&self) -> (s: String)
        ensures
            s@ == self.message(),
    {
        match self {
            SyncError::StaleRevision { .. } => "stale revision".to_owned(),
            SyncError::Unparseable => "unparseable frame".to_owned(),
        }
    }
}

/// The owner of the observable state on the receiving side.
#[derive(Clone, Debug)]
pub struct Reconciler {
    state: SyncState,
    last_rid: Option<u64>,
}

/// The mathematical value of a [`Reconciler`]: the state it shows, and the
/// revision id of the last frame applied in the running session, if any.
pub struct ReconcilerView {
    pub state: SyncStateView,
    pub last_rid: Option<u64>,
}

impl View for Reconciler {
    type V = ReconcilerView;

    closed spec fn view(&self) -> ReconcilerView {
        ReconcilerView { state: self.state@, last_rid: self.last_rid }
    }
}

impl ReconcilerView {
    /// Before any frame: the empty state, no revision seen.
    pub open spec fn initial() -> ReconcilerView {
        ReconcilerView { state: SyncStateView::empty(), last_rid: None }
    }

    /// Whether a frame tagged `rid` is in order: the first frame of a
    /// session always is, a later one only if it rises above the last.
    pub open spec fn accepts(self, rid: u64) -> bool {
        match self.last_rid {
            None => true,
            Some(last) => rid > last,
        }
    }

    /// The reconciler after `frame` arrives. A frame out of order changes
    /// nothing. A full frame in order replaces the state by its snapshot; a
    /// partial frame in order is merged into the state.
    pub open spec fn applied(self, frame: MainDataView) -> ReconcilerView {
        if !self.accepts(frame.rid()) {
            self
        } else {
            ReconcilerView {
                state: match frame {
                    MainDataView::Full(full) => SyncStateView::snapshot(full),
                    MainDataView::Partial(partial) => self.state.merged(partial),
                },
                last_rid: Some(frame.rid()),
            }
        }
    }

    /// The reconciler after something arrived from the transport: a frame,
    /// or bytes that no frame could be decoded from, which change nothing.
    pub open spec fn received(self, arrival: Option<MainDataView>) -> ReconcilerView {
        match arrival {
            Some(frame) => self.applied(frame),
            None => self,
        }
    }

    /// The reconciler at the start of a new session: the state stays on
    /// show, and no revision counts as seen.
    pub open spec fn restarted(self) -> ReconcilerView {
        ReconcilerView { state: self.state, last_rid: None }
    }
}

impl Reconciler {
    /// A reconciler that has seen no frame.
    pub fn new() -> (r: Reconciler)
        ensures
            r@ == ReconcilerView::initial(),
    {
        Reconciler { state: SyncState::default(), last_rid: None }
    }

    /// The state on show.
    pub fn state(&self) -> (s: &SyncState)
        ensures
            s@ == self@.state,
    {
        &self.state
    }

    /// The revision id of the last frame applied in the running session.
    pub fn last_rid(&self) -> (r: Option<u64>)
        ensures
            r == self@.last_rid,
    {
        self.last_rid
    }

    /// Applies one frame. Returns `Ok` exactly when the frame is in order,
    /// and then the state reflects it; a frame out of order is reported and
    /// leaves everything as it was.
    pub fn apply(&mut self, frame: MainData) -> (r: Result<(), SyncError>)
        ensures
            final(self)@ == old(self)@.applied(frame@),
            r is Ok <==> old(self)@.accepts(frame@.rid()),
            r matches Err(e) ==> old(self)@.last_rid matches Some(last) && e == (
            SyncError::StaleRevision { last, got: frame@.rid() }),
    {
        let rid = frame.rid();
        if let Some(last) = self.last_rid {
            if rid <= last {
                return Err(SyncError::StaleRevision { last, got: rid });
            }
        }
        match frame {
            MainData::Full(full) => {
                self.state = SyncState::from(full);
            },
            MainData::Partial(partial) => {
                self.state.apply_partial(partial);
            },
        }
        self.last_rid = Some(rid);
        Ok(())
    }

    /// Takes what the transport delivered, in the order of arrival:
    /// `Some` frame, or `None` where the bytes that arrived could not be
    /// decoded. Returns `Ok` exactly when a frame arrived and was in order.
    pub fn receive(&mut self, arrival: Option<MainData>) -> (r: Result<(), SyncError>)
        ensures
            final(self)@ == old(self)@.received(
                match arrival {
                    Some(frame) => Some(frame@),
                    None => None,
                },
            ),
            r is Ok <==> (arrival matches Some(frame) && old(self)@.accepts(frame@.rid())),
            r matches Err(e) ==> match arrival {
                None => e == SyncError::Unparseable,
                Some(frame) => old(self)@.last_rid matches Some(last) && e == (
                SyncError::StaleRevision { last, got: frame@.rid() }),
            },
    {
        match arrival {
            Some(frame) => self.apply(frame),
            None => Err(SyncError::Unparseable),
        }
    }

    /// Starts a new session: the next frame is accepted whatever its
    /// revision id. The state stays on show until that frame replaces or
    /// changes it.
    pub fn begin_session(&mut self)
        ensures
            final(self)@ == old(self)@.restarted(),
    {
        self.last_rid = None;
    }
}

/// Applying a full frame a second time changes nothing: what an observer
/// sees after the repetition is what it saw after the first application.
/// That holds within a session, where the repetition is dropped as a
/// duplicate, and across the start of a new session, where the frame that
/// took effect once takes effect again and yields the same state.
pub proof fn law_full_frame_idempotent(r: ReconcilerView, full: SyncMainDataFullView)
    ensures
        r.applied(MainDataView::Full(full)).applied(MainDataView::Full(full)) == r.applied(
            MainDataView::Full(full),
        ),
        r.accepts(full.rid) ==> r.applied(MainDataView::Full(full)).restarted().applied(
            MainDataView::Full(full),
        ).state == r.applied(MainDataView::Full(full)).state,
{
}

/// A frame whose revision id does not rise above the last one applied is
/// ignored: the reconciler is exactly as before.
pub proof fn law_stale_frame_ignored(r: ReconcilerView, frame: MainDataView)
    requires
        r.last_rid matches Some(last) && frame.rid() <= last,
    ensures
        r.applied(frame) == r,
{
}

/// The revision ids of frames that take effect one after the other rise
/// strictly.
pub proof fn law_applied_rids_rise(r: ReconcilerView, first: MainDataView, second: MainDataView)
    requires
        r.accepts(first.rid()),
        r.applied(first).accepts(second.rid()),
    ensures
        second.rid() > first.rid(),
        r.applied(first).applied(second).last_rid == Some(second.rid()),
{
}

/// A partial frame neither creates nor removes a record: the state holds the
/// same hashes after it as before, so a delta for an unknown hash leaves the
/// size of the map as it was. Nor does it change the hash that a record
/// carries.
pub proof fn law_partial_keeps_hashes(r: ReconcilerView, partial: SyncMainDataPartialView)
    ensures
        r.applied(MainDataView::Partial(partial)).state.torrents.dom() == r.state.torrents.dom(),
        forall|h: Seq<char>|
            !r.state.torrents.contains_key(h) ==> !r.applied(
                MainDataView::Partial(partial),
            ).state.torrents.contains_key(h),
        forall|h: Seq<char>|
            r.state.torrents.contains_key(h) ==> r.applied(
                MainDataView::Partial(partial),
            ).state.torrents[h].infohash_v1 == r.state.torrents[h].infohash_v1,
{
    let after = r.applied(MainDataView::Partial(partial)).state.torrents;
    assert(after.dom() =~= r.state.torrents.dom());
}

/// A partial frame in order changes a record it names by the field-wise
/// merge, and leaves every record it does not name untouched.
pub proof fn law_partial_merges_fieldwise(
    r: ReconcilerView,
    partial: SyncMainDataPartialView,
    h: Seq<char>,
)
    requires
        r.accepts(partial.rid),
        r.state.torrents.contains_key(h),
    ensures
        r.applied(MainDataView::Partial(partial)).state.torrents[h] == (match partial.torrents {
            Some(delta) if delta.contains_key(h) => r.state.torrents[h].merged(delta[h]),
            _ => r.state.torrents[h],
        }),
{
}

/// A full frame in order resets the state fully: whatever earlier frames
/// left behind, the state is the frame's snapshot, and a record that the
/// snapshot lacks is gone.
pub proof fn law_full_frame_resets(r: ReconcilerView, full: SyncMainDataFullView)
    requires
        r.accepts(full.rid),
    ensures
        r.applied(MainDataView::Full(full)).state == SyncStateView::snapshot(full),
        forall|h: Seq<char>|
            !full.torrents.contains_key(h) ==> !r.applied(
                MainDataView::Full(full),
            ).state.torrents.contains_key(h),
{
}

} // verus!
