//! The sticker-send demo: send one sticker from a fixed local image to the
//! configured user, in one flavor with an associated emoji and in one
//! without.

use vstd::prelude::*;

use crate::stickers::second_upload_path;

verus! {

/// The one remote call of the sticker-send demo.
pub struct SendStickerPlan {
    /// The local image the sticker is sent from.
    pub path: String,
    /// The emoji associated with the sticker, where the demo sets one.
    pub emoji: Option<String>,
}

/// The emoji the demo associates with the sent sticker.
pub open spec fn associated_emoji() -> Seq<char> {
    "🦀"@
}

/// Plans the sticker send: always the fixed local image, and the associated
/// emoji exactly when asked for.
pub fn send_sticker_plan(with_emoji: bool) -> (r: SendStickerPlan)
    ensures
        r.path@ == second_upload_path(),
        with_emoji ==> (r.emoji matches Some(e) && e@ == associated_emoji()),
        !with_emoji ==> r.emoji is None,
{
    let emoji = if with_emoji {
        Some(String::from_str("🦀"))
    } else {
        None
    };
    SendStickerPlan { path: String::from_str("data/teloxide-logo.webp"), emoji }
}

} // verus!
