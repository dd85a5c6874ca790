//! The combination record: one pair of tokens and the picture that
//! combines them.

use vstd::prelude::*;

verus! {

/// One combination, as the published document lists it.
///
/// `base_emoji` is the token under which the document groups the
/// combination; a lookup does not read it.
#[derive(Debug, Clone, PartialEq, Eq)]
pub struct CombinationRecord {
    pub base_emoji: String,
    pub left_emoji: String,
    pub right_emoji: String,
    pub image_url: String,
}

/// The mathematical model of a [`CombinationRecord`].
pub struct RecordView {
    pub base: Seq<char>,
    pub left: Seq<char>,
    pub right: Seq<char>,
    pub url: Seq<char>,
}

impl View for CombinationRecord {
    type V = RecordView;

    open spec fn view(&self) -> RecordView {
        RecordView {
            base: self.base_emoji@,
            left: self.left_emoji@,
            right: self.right_emoji@,
            url: self.image_url@,
        }
    }
}

impl DeepView for CombinationRecord {
    type V = RecordView;

    open spec fn deep_view(&self) -> RecordView {
        self@
    }
}

impl CombinationRecord {
    /// A record of the four texts given.
    pub fn new(base_emoji: &str, left_emoji: &str, right_emoji: &str, image_url: &str) -> (r:
        CombinationRecord)
        ensures
            r@ == (RecordView {
                base: base_emoji@,
                left: left_emoji@,
                right: right_emoji@,
                url: image_url@,
            }),
    {
        CombinationRecord {
            base_emoji: base_emoji.to_owned(),
            left_emoji: left_emoji.to_owned(),
            right_emoji: right_emoji.to_owned(),
            image_url: image_url.to_owned(),
        }
    }
}

} // verus!
