//! Per-record reconciliation, written as a state machine: the caller performs
//! each fetch that an action asks for and hands the result back as an event.

use vstd::prelude::*;
use crate::record::{
    differs, fully_updated, has_changes, update_user_data, update_user_status_only, with_status,
    ChannelData, User, Video,
};
use crate::status::{classify_error, code_of, lower_of, status_of_error_text, StatusCode};

verus! {

/// What the caller hands back to the reconciler.
pub enum Event {
    /// A record is taken up.
    Begin,
    /// The metadata fetch succeeded.
    ChannelFetched(ChannelData),
    /// The metadata fetch failed with this error text.
    ChannelFailed(String),
    /// The video listing was collected.
    VideosFetched(Vec<Video>),
    /// The video listing failed with this error text.
    VideosFailed(String),
}

/// What the reconciler asks the caller to do next.
#[derive(PartialEq, Eq, Debug)]
pub enum Action {
    /// The record has no channel identifier; nothing is fetched.
    Skip,
    /// Fetch the metadata of this channel.
    FetchChannel(String),
    /// Collect the video listing of this channel.
    FetchVideos(String),
    /// The record is done.
    Done,
}

/// The record after the metadata fetch ended as `fetched` (the error as text).
pub open spec fn user_after_fetch(u: User, fetched: Result<ChannelData, String>) -> User {
    match fetched {
        Ok(d) => if d.status_code == StatusCode::Active {
            if differs(u, d) {
                fully_updated(u, d)
            } else {
                with_status(u, 4)
            }
        } else {
            with_status(u, code_of(d.status_code))
        },
        Err(e) => match status_of_error_text(lower_of(e@)) {
            Some(s) => with_status(u, code_of(s)),
            None => u,
        },
    }
}

/// Whether the metadata step changed the record.
pub open spec fn fetch_counts(u: User, fetched: Result<ChannelData, String>) -> bool {
    match fetched {
        Ok(d) => if d.status_code == StatusCode::Active {
            differs(u, d) || u.status_code != 4
        } else {
            u.status_code != code_of(d.status_code)
        },
        Err(e) => match status_of_error_text(lower_of(e@)) {
            Some(s) => u.status_code != code_of(s),
            None => false,
        },
    }
}

/// Whether the video listing is refreshed after the metadata step: the channel
/// is active and the updated record counts at least one video.
pub open spec fn wants_videos(u: User, fetched: Result<ChannelData, String>) -> bool {
    match fetched {
        Ok(d) => d.status_code == StatusCode::Active && u.channel_id is Some && match user_after_fetch(
            u,
            fetched,
        ).videos {
            Some(n) => n >= 1,
            None => false,
        },
        Err(_) => false,
    }
}

/// The record, the number of updates counted and the next action after one
/// step on `event`.
pub open spec fn step_result(u: User, event: Event) -> (User, int, Action) {
    match event {
        Event::Begin => (
            u,
            0,
            match u.channel_id {
                Some(id) => Action::FetchChannel(id),
                None => Action::Skip,
            },
        ),
        Event::ChannelFetched(d) => {
            let f = Ok::<ChannelData, String>(d);
            (
                user_after_fetch(u, f),
                if fetch_counts(u, f) {
                    1
                } else {
                    0
                },
                if wants_videos(u, f) {
                    Action::FetchVideos(u.channel_id->0)
                } else {
                    Action::Done
                },
            )
        },
        Event::ChannelFailed(e) => {
            let f = Err::<ChannelData, String>(e);
            (
                user_after_fetch(u, f),
                if fetch_counts(u, f) {
                    1
                } else {
                    0
                },
                Action::Done,
            )
        },
        Event::VideosFetched(v) => (User { video_list: Some(v), ..u }, 1, Action::Done),
        Event::VideosFailed(_) => (u, 0, Action::Done),
    }
}

/// Counts the records of one batch run and the updates made to them.
pub struct Reconciler {
    pub updated: u64,
    pub total: u64,
}

impl Reconciler {
    /// A reconciler for a batch of `total` records.
    pub fn new(total: u64) -> (r: Reconciler)
        ensures
            r.updated == 0,
            r.total == total,
    {
        Reconciler { updated: 0, total }
    }

    /// Applies a successful or failed metadata fetch to the record; returns
    /// whether the record changed and whether its videos are to be refreshed.
    pub fn apply_fetch(user: &mut User, fetched: Result<ChannelData, String>) -> (r: (bool, bool))
        ensures
            *final(user) == user_after_fetch(*old(user), fetched),
            r.0 == fetch_counts(*old(user), fetched),
            r.1 == wants_videos(*old(user), fetched),
    {
        match fetched {
            Ok(data) => {
                if data.status_code == StatusCode::Active {
                    let changed = if has_changes(user, &data) {
                        update_user_data(user, &data);
                        true
                    } else {
                        update_user_status_only(user, data.status_code)
                    };
                    let refresh = match user.channel_id {
                        Some(_) => match user.videos {
                            Some(n) => n >= 1,
                            None => false,
                        },
                        None => false,
                    };
                    (changed, refresh)
                } else {
                    (update_user_status_only(user, data.status_code), false)
                }
            },
            Err(e) => match classify_error(e.as_str()) {
                Some(s) => (update_user_status_only(user, s), false),
                None => (false, false),
            },
        }
    }

    /// One step of the reconciliation of `user`.
    pub fn step(&mut self, user: &mut User, event: Event) -> (r: Action)
        requires
            old(self).updated < u64::MAX,
        ensures
            final(self).total == old(self).total,
            (*final(user), final(self).updated - old(self).updated, r) == step_result(
                *old(user),
                event,
            ),
    {
        match event {
            Event::Begin => match &user.channel_id {
                Some(id) => Action::FetchChannel(id.clone()),
                None => Action::Skip,
            },
            Event::ChannelFetched(d) => {
                let (changed, refresh) = Reconciler::apply_fetch(user, Ok(d));
                if changed {
                    self.updated = self.updated + 1;
                }
                if refresh {
                    match &user.channel_id {
                        Some(id) => Action::FetchVideos(id.clone()),
                        None => Action::Done,
                    }
                } else {
                    Action::Done
                }
            },
            Event::ChannelFailed(e) => {
                let (changed, _) = Reconciler::apply_fetch(user, Err(e));
                if changed {
                    self.updated = self.updated + 1;
                }
                Action::Done
            },
            Event::VideosFetched(v) => {
                user.video_list = Some(v);
                self.updated = self.updated + 1;
                Action::Done
            },
            Event::VideosFailed(_) => Action::Done,
        }
    }
}

/// A record without a channel identifier is skipped: the first step leaves
/// it exactly as it was, asks for no fetch and counts no update.
pub proof fn lemma_no_channel_untouched(u: User)
    requires
        u.channel_id is None,
    ensures
        step_result(u, Event::Begin) == (u, 0int, Action::Skip),
{
}

/// After a successful fetch the stored status is one of the four defined
/// codes, the snapshot's own; a failure whose text names no lifecycle state
/// leaves the record as it was and counts nothing.
pub proof fn lemma_status_after_fetch(u: User, fetched: Result<ChannelData, String>)
    ensures
        fetched is Ok ==> user_after_fetch(u, fetched).status_code == code_of(
            fetched->Ok_0.status_code,
        ),
        fetched is Ok ==> 1 <= user_after_fetch(u, fetched).status_code <= 4,
        fetched is Err && status_of_error_text(lower_of(fetched->Err_0@)) is None ==> (
        user_after_fetch(u, fetched) == u && !fetch_counts(u, fetched)),
{
}

} // verus!
