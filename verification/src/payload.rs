//! The notification payload value object.

use vstd::prelude::*;

verus! {

/// A push-notification payload: the four string fields the envelope carries.
pub struct FcmPayloadData {
    pub title: String,
    pub message: String,
    pub image: String,
    pub click_action: String,
}

impl FcmPayloadData {
    /// Builds a payload from its four fields.
    pub fn new(title: String, message: String, image: String, click_action: String) -> (r:
        FcmPayloadData)
        ensures
            r.title@ == title@,
            r.message@ == message@,
            r.image@ == image@,
            r.click_action@ == click_action@,
    {
        FcmPayloadData { title, message, image, click_action }
    }
}

} // verus!
