//! Decisions of the external submission path: which thumbnail a submitted
//! video gets, and whether the control plane may edit the configuration.

use vstd::prelude::*;
use crate::config::Config;

verus! {

/// One thumbnail the platform offers for a video.
pub struct Thumbnail {
    pub url: String,
    pub width: u32,
    pub height: u32,
}

/// Thumbnail order: by width, then by height.
pub open spec fn thumb_le(a: Thumbnail, b: Thumbnail) -> bool {
    a.width < b.width || (a.width == b.width && a.height <= b.height)
}

/// The index of the best thumbnail: no other is larger, and of equally
/// large ones the last listed wins. None exactly on an empty list.
pub fn best_thumbnail(thumbs: &Vec<Thumbnail>) -> (r: Option<usize>)
    ensures
        (match r {
            Some(i) => i < thumbs@.len() && (forall|j: int|
                0 <= j < thumbs@.len() ==> thumb_le(#[trigger] thumbs@[j], thumbs@[i as int]))
                && (forall|j: int|
                i < j < thumbs@.len() ==> !thumb_le(thumbs@[i as int], #[trigger] thumbs@[j])),
            None => thumbs@.len() == 0,
        }),
{
    if thumbs.len() == 0 {
        return None;
    }
    let mut best: usize = 0;
    let mut j: usize = 1;
    while j < thumbs.len()
        invariant
            thumbs@.len() > 0,
            best < j <= thumbs@.len(),
            forall|k: int| 0 <= k < j ==> thumb_le(#[trigger] thumbs@[k], thumbs@[best as int]),
            forall|k: int|
                best < k < j ==> !thumb_le(thumbs@[best as int], #[trigger] thumbs@[k]),
        decreases thumbs@.len() - j,
    {
        let cur = &thumbs[j];
        let b = &thumbs[best];
        let cur_wins = b.width < cur.width || (b.width == cur.width && b.height <= cur.height);
        if cur_wins {
            best = j;
        }
        j = j + 1;
    }
    Some(best)
}

/// Whether the control plane may replace the configuration text: allowed
/// unless a webserver section is present and forbids it.
pub open spec fn spec_config_edit_allowed(cfg: Config) -> bool {
    match cfg.webserver {
        Some(w) => w.allow_config_edit,
        None => true,
    }
}

pub fn config_edit_allowed(cfg: &Config) -> (r: bool)
    ensures
        r == spec_config_edit_allowed(*cfg),
{
    match &cfg.webserver {
        Some(w) => w.allow_config_edit,
        None => true,
    }
}

} // verus!
