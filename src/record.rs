//! The stored channel record, the video entries attached to it, and the
//! snapshot of channel metadata that a fetch produces.

use vstd::prelude::*;
use crate::status::{code_of, status_of_flags, StatusCode};

verus! {

/// One video of a channel's upload list.
#[derive(Clone, Debug)]
pub struct Video {
    pub video_id: String,
    pub title: String,
    pub description: String,
    /// Creation time, in seconds since the Unix epoch.
    pub created_at: i64,
    pub views: i64,
    pub likes: i64,
    pub comments: i64,
}

/// A stored channel record.
#[derive(Clone, Debug)]
pub struct User {
    pub avatar_url: Option<String>,
    pub channel_id: Option<String>,
    pub confirmed: i32,
    pub country: Option<String>,
    /// The record's creation time as the bit pattern of a 64-bit float; it is
    /// carried through unchanged.
    pub created_at_bits: Option<u64>,
    pub description: Option<String>,
    pub display_name: Option<String>,
    pub fallback_date: Option<String>,
    pub handle: Option<String>,
    pub notes: Option<String>,
    pub owner: Option<String>,
    /// 1 suspended, 2 deleted, 3 hidden, 4 active; any other value is unknown.
    pub status_code: i32,
    pub subscribers: Option<i64>,
    pub unconfirmed_reason: Option<String>,
    pub user_id: String,
    pub username: String,
    /// 1 when the channel is verified, 0 when it is not.
    pub verified: Option<i32>,
    pub videos: Option<i32>,
    pub views: Option<i64>,
    pub video_list: Option<Vec<Video>>,
}

/// Channel metadata as the metadata source reports it, flags included.
#[derive(Clone, Debug)]
pub struct RawChannel {
    pub display_name: String,
    pub description: String,
    pub subscribers: Option<i64>,
    pub videos: i32,
    pub views: i64,
    pub country: Option<String>,
    pub profile_picture: Option<String>,
    pub handle: Option<String>,
    pub verified: bool,
    pub terminated: bool,
    pub deleted: bool,
    pub hidden: bool,
}

/// A snapshot of a channel's metadata, with its classified status.
#[derive(Clone, Debug)]
pub struct ChannelData {
    pub display_name: String,
    pub description: String,
    pub subscribers: Option<i64>,
    pub videos: i32,
    pub views: i64,
    pub country: Option<String>,
    pub avatar_url: Option<String>,
    pub handle: Option<String>,
    pub verified: bool,
    pub status_code: StatusCode,
}

/// The nine fields that a full update writes, as mathematical values.
pub struct TrackedFields {
    pub display_name: Option<Seq<char>>,
    pub description: Option<Seq<char>>,
    pub subscribers: Option<i64>,
    pub videos: Option<i32>,
    pub views: Option<i64>,
    pub country: Option<Seq<char>>,
    pub avatar_url: Option<Seq<char>>,
    pub handle: Option<Seq<char>>,
    pub verified: Option<i32>,
}

pub open spec fn opt_view(o: Option<String>) -> Option<Seq<char>> {
    match o {
        Some(s) => Some(s@),
        None => None,
    }
}

/// The integer under which the verified flag is stored.
pub open spec fn verified_code(v: bool) -> i32 {
    if v {
        1
    } else {
        0
    }
}

pub open spec fn tracked_of_user(u: User) -> TrackedFields {
    TrackedFields {
        display_name: opt_view(u.display_name),
        description: opt_view(u.description),
        subscribers: u.subscribers,
        videos: u.videos,
        views: u.views,
        country: opt_view(u.country),
        avatar_url: opt_view(u.avatar_url),
        handle: opt_view(u.handle),
        verified: u.verified,
    }
}

pub open spec fn tracked_of_data(d: ChannelData) -> TrackedFields {
    TrackedFields {
        display_name: Some(d.display_name@),
        description: Some(d.description@),
        subscribers: d.subscribers,
        videos: Some(d.videos),
        views: Some(d.views),
        country: opt_view(d.country),
        avatar_url: opt_view(d.avatar_url),
        handle: opt_view(d.handle),
        verified: Some(verified_code(d.verified)),
    }
}

/// A record differs from a snapshot when any tracked field differs.
pub open spec fn differs(u: User, d: ChannelData) -> bool {
    tracked_of_user(u) != tracked_of_data(d)
}

/// The record after a full update from `d`: the nine tracked fields and the
/// status are taken from the snapshot, everything else is kept.
pub open spec fn fully_updated(u: User, d: ChannelData) -> User {
    User {
        display_name: Some(d.display_name),
        description: Some(d.description),
        subscribers: d.subscribers,
        videos: Some(d.videos),
        views: Some(d.views),
        country: d.country,
        avatar_url: d.avatar_url,
        handle: d.handle,
        verified: Some(verified_code(d.verified)),
        status_code: code_of(d.status_code),
        ..u
    }
}

/// The record with only its status replaced.
pub open spec fn with_status(u: User, code: i32) -> User {
    User { status_code: code, ..u }
}

pub(crate) fn clone_opt(o: &Option<String>) -> (r: Option<String>)
    ensures
        r == *o,
{
    match o {
        Some(s) => Some(s.clone()),
        None => None,
    }
}

fn opt_eq(a: &Option<String>, b: &Option<String>) -> (r: bool)
    ensures
        r == (opt_view(*a) == opt_view(*b)),
{
    match (a, b) {
        (Some(x), Some(y)) => <String as PartialEq>::eq(x, y),
        (None, None) => true,
        _ => false,
    }
}

fn opt_eq_some(a: &Option<String>, b: &String) -> (r: bool)
    ensures
        r == (opt_view(*a) == Some(b@)),
{
    match a {
        Some(x) => <String as PartialEq>::eq(x, b),
        None => false,
    }
}

fn opt_i64_eq(a: Option<i64>, b: Option<i64>) -> (r: bool)
    ensures
        r == (a == b),
{
    match (a, b) {
        (Some(x), Some(y)) => x == y,
        (None, None) => true,
        _ => false,
    }
}

fn opt_i32_is(a: Option<i32>, b: i32) -> (r: bool)
    ensures
        r == (a == Some(b)),
{
    match a {
        Some(x) => x == b,
        None => false,
    }
}

fn opt_i64_is(a: Option<i64>, b: i64) -> (r: bool)
    ensures
        r == (a == Some(b)),
{
    match a {
        Some(x) => x == b,
        None => false,
    }
}

impl ChannelData {
    /// Snapshot of a fetched channel; its status is classified from the flags.
    pub fn from_raw(raw: RawChannel) -> (r: ChannelData)
        ensures
            r == (ChannelData {
                display_name: raw.display_name,
                description: raw.description,
                subscribers: raw.subscribers,
                videos: raw.videos,
                views: raw.views,
                country: raw.country,
                avatar_url: raw.profile_picture,
                handle: raw.handle,
                verified: raw.verified,
                status_code: status_of_flags(raw.terminated, raw.deleted, raw.hidden),
            }),
    {
        let status_code = StatusCode::from_flags(raw.terminated, raw.deleted, raw.hidden);
        ChannelData {
            display_name: raw.display_name,
            description: raw.description,
            subscribers: raw.subscribers,
            videos: raw.videos,
            views: raw.views,
            country: raw.country,
            avatar_url: raw.profile_picture,
            handle: raw.handle,
            verified: raw.verified,
            status_code,
        }
    }
}

/// The stored integer for a verified flag.
pub fn verified_int(v: bool) -> (r: i32)
    ensures
        r == verified_code(v),
{
    if v {
        1
    } else {
        0
    }
}

/// Whether any of the nine tracked fields of the record differs from the
/// snapshot; absence against presence counts as a difference.
pub fn has_changes(existing: &User, new_data: &ChannelData) -> (r: bool)
    ensures
        r == differs(*existing, *new_data),
{
    let v = verified_int(new_data.verified);
    !opt_eq_some(&existing.display_name, &new_data.display_name)
        || !opt_eq_some(&existing.description, &new_data.description)
        || !opt_i64_eq(existing.subscribers, new_data.subscribers)
        || !opt_i32_is(existing.videos, new_data.videos)
        || !opt_i64_is(existing.views, new_data.views)
        || !opt_eq(&existing.country, &new_data.country)
        || !opt_eq(&existing.avatar_url, &new_data.avatar_url)
        || !opt_eq(&existing.handle, &new_data.handle)
        || !opt_i32_is(existing.verified, v)
}

/// Overwrites the nine tracked fields and the status with the snapshot's.
pub fn update_user_data(user: &mut User, data: &ChannelData)
    ensures
        *final(user) == fully_updated(*old(user), *data),
{
    user.display_name = Some(data.display_name.clone());
    user.description = Some(data.description.clone());
    user.subscribers = data.subscribers;
    user.videos = Some(data.videos);
    user.views = Some(data.views);
    user.country = clone_opt(&data.country);
    user.avatar_url = clone_opt(&data.avatar_url);
    user.handle = clone_opt(&data.handle);
    user.verified = Some(verified_int(data.verified));
    user.status_code = data.status_code.code();
}

/// Sets the status when it differs from the stored one; returns whether the
/// record changed.
pub fn update_user_status_only(user: &mut User, status: StatusCode) -> (r: bool)
    ensures
        r == (old(user).status_code != code_of(status)),
        *final(user) == with_status(*old(user), code_of(status)),
{
    let code = status.code();
    if user.status_code == code {
        return false;
    }
    user.status_code = code;
    true
}

/// A record shows no change against a snapshot exactly when the nine tracked
/// fields, the verified flag compared as an integer, are pairwise equal; a
/// record that matched the snapshot shows a change as soon as any one of those
/// fields is given another value. After a full update nothing differs.
pub proof fn lemma_change_detection(u: User, u2: User, d: ChannelData)
    ensures
        !differs(u, d) <==> (opt_view(u.display_name) == Some(d.display_name@) && opt_view(
            u.description,
        ) == Some(d.description@) && u.subscribers == d.subscribers && u.videos == Some(d.videos)
            && u.views == Some(d.views) && opt_view(u.country) == opt_view(d.country) && opt_view(
            u.avatar_url,
        ) == opt_view(d.avatar_url) && opt_view(u.handle) == opt_view(d.handle) && u.verified
            == Some(verified_code(d.verified))),
        !differs(u, d) && tracked_of_user(u2) != tracked_of_user(u) ==> differs(u2, d),
        !differs(fully_updated(u, d), d),
{
}

/// A status-only update is idempotent: a second update with the same status
/// reports no change and leaves the record as the first one left it, and the
/// first reports a change exactly when the stored status was stale.
pub proof fn lemma_status_update_idempotent(u: User, s: StatusCode)
    ensures
        with_status(u, code_of(s)).status_code == code_of(s),
        with_status(with_status(u, code_of(s)), code_of(s)) == with_status(u, code_of(s)),
        u.status_code == code_of(s) ==> with_status(u, code_of(s)) == u,
        u.status_code != code_of(s) ==> with_status(u, code_of(s)) != u,
{
}

} // verus!
