use vstd::prelude::*;

use crate::media::{raw_text, raw_video, strings_view};

verus! {

/// Direction of a pad.
#[derive(Debug, Clone, Copy, PartialEq, Eq, Structural)]
pub enum PadDirection {
    Src,
    Sink,
}

/// When pads of a template exist.
#[derive(Debug, Clone, Copy, PartialEq, Eq, Structural)]
pub enum PadPresence {
    /// The pad always exists.
    Always,
    /// Pads are created when an application requests them.
    Request,
}

/// Caps accepted on raw video pads: a list of pixel formats, width and height
/// ranges and a frame-rate range given as (numerator, denominator) bounds.
pub struct VideoCapsTemplate {
    pub formats: Vec<String>,
    pub width_min: i32,
    pub width_max: i32,
    pub height_min: i32,
    pub height_max: i32,
    pub framerate_min: (i32, i32),
    pub framerate_max: (i32, i32),
}

/// Caps accepted on raw text pads: a list of text formats.
pub struct TextCapsTemplate {
    pub formats: Vec<String>,
}

/// The caps of a pad template.
pub enum CapsTemplate {
    RawVideo(VideoCapsTemplate),
    RawText(TextCapsTemplate),
}

/// A pad template of an element: name template, direction, presence, caps,
/// and whether pads are made with the element's own pad type.
pub struct PadTemplateSpec {
    pub name_template: String,
    pub direction: PadDirection,
    pub presence: PadPresence,
    pub caps: CapsTemplate,
    pub custom_pad_type: bool,
}

/// The metadata an element is registered with.
pub struct ElementMetadataSpec {
    pub long_name: String,
    pub classification: String,
    pub description: String,
    pub author: String,
}

/// The name and rank an element is registered under (rank 0 is GStreamer's
/// `Rank::NONE`: never chosen by autoplugging).
pub struct ElementRegistration {
    pub name: String,
    pub rank: i32,
}

/// Raw video caps of the aggregators: I420, RGB, RGBA, BGR or BGRA, any width
/// and height from 0 to `i32::MAX`, frame rates from 0/1 to `i32::MAX`/1.
pub open spec fn is_raw_video_caps(c: CapsTemplate) -> bool {
    &&& c matches CapsTemplate::RawVideo(v)
    &&& strings_view(v.formats@) == seq!["I420"@, "RGB"@, "RGBA"@, "BGR"@, "BGRA"@]
    &&& v.width_min == 0 && v.width_max == i32::MAX
    &&& v.height_min == 0 && v.height_max == i32::MAX
    &&& v.framerate_min == (0i32, 1i32) && v.framerate_max == (i32::MAX, 1i32)
}

/// Raw text caps of the dynamic aggregator: UTF-8 text.
pub open spec fn is_utf8_text_caps(c: CapsTemplate) -> bool {
    &&& c matches CapsTemplate::RawText(t)
    &&& strings_view(t.formats@) == seq!["utf8"@]
}

/// The media type of caps.
pub open spec fn media_type_of(c: CapsTemplate) -> Seq<char> {
    match c {
        CapsTemplate::RawVideo(_) => raw_video(),
        CapsTemplate::RawText(_) => raw_text(),
    }
}

/// A template with this name, direction, presence and pad type.
pub open spec fn template_has(
    t: PadTemplateSpec,
    name: Seq<char>,
    direction: PadDirection,
    presence: PadPresence,
    custom_pad_type: bool,
) -> bool {
    &&& t.name_template@ == name
    &&& t.direction == direction
    &&& t.presence == presence
    &&& t.custom_pad_type == custom_pad_type
}

/// The raw video caps that the aggregators' video pads accept.
pub fn raw_video_caps() -> (c: CapsTemplate)
    ensures
        is_raw_video_caps(c),
        c matches CapsTemplate::RawVideo(v) && v.formats@.len() == 5 && v.formats@[0]@ == "I420"@
            && v.formats@[1]@ == "RGB"@ && v.formats@[2]@ == "RGBA"@ && v.formats@[3]@
            == "BGR"@ && v.formats@[4]@ == "BGRA"@ && v.width_min == 0 && v.width_max
            == i32::MAX && v.height_min == 0 && v.height_max == i32::MAX && v.framerate_min == (
            0i32,
            1i32,
        ) && v.framerate_max == (i32::MAX, 1i32),
{
    let formats = vec![
        "I420".to_owned(),
        "RGB".to_owned(),
        "RGBA".to_owned(),
        "BGR".to_owned(),
        "BGRA".to_owned(),
    ];
    assert(strings_view(formats@) =~= seq!["I420"@, "RGB"@, "RGBA"@, "BGR"@, "BGRA"@]);
    CapsTemplate::RawVideo(
        VideoCapsTemplate {
            formats,
            width_min: 0,
            width_max: i32::MAX,
            height_min: 0,
            height_max: i32::MAX,
            framerate_min: (0, 1),
            framerate_max: (i32::MAX, 1),
        },
    )
}

/// The raw text caps that the dynamic aggregator's text pads accept.
pub fn utf8_text_caps() -> (c: CapsTemplate)
    ensures
        is_utf8_text_caps(c),
        c matches CapsTemplate::RawText(t) && t.formats@.len() == 1 && t.formats@[0]@ == "utf8"@,
{
    let formats = vec!["utf8".to_owned()];
    assert(strings_view(formats@) =~= seq!["utf8"@]);
    CapsTemplate::RawText(TextCapsTemplate { formats })
}

impl CapsTemplate {
    /// The media type (name of the caps structure) of these caps.
    pub fn media_type(&self) -> (r: String)
        ensures
            r@ == media_type_of(*self),
    {
        match self {
            CapsTemplate::RawVideo(_) => "video/x-raw".to_owned(),
            CapsTemplate::RawText(_) => "text/x-raw".to_owned(),
        }
    }
}

} // verus!
