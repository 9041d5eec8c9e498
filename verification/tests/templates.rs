use rstutorial::templates::{CapsTemplate, PadDirection, PadPresence, PadTemplateSpec};
use rstutorial::{dynamic_agg, simple_agg};

fn video_formats() -> Vec<String> {
    ["I420", "RGB", "RGBA", "BGR", "BGRA"].iter().map(|s| s.to_string()).collect()
}

fn assert_raw_video(t: &PadTemplateSpec) {
    assert_eq!(t.caps.media_type(), "video/x-raw");
    match &t.caps {
        CapsTemplate::RawVideo(v) => {
            assert_eq!(v.formats, video_formats());
            assert_eq!((v.width_min, v.width_max), (0, i32::MAX));
            assert_eq!((v.height_min, v.height_max), (0, i32::MAX));
            assert_eq!(v.framerate_min, (0, 1));
            assert_eq!(v.framerate_max, (i32::MAX, 1));
        }
        CapsTemplate::RawText(_) => panic!("expected raw video caps"),
    }
}

#[test]
fn simple_agg_templates() {
    let t = simple_agg::pad_templates();
    assert_eq!(t.len(), 2);
    assert_eq!(t[0].name_template, "src");
    assert_eq!(t[0].direction, PadDirection::Src);
    assert_eq!(t[0].presence, PadPresence::Always);
    assert!(!t[0].custom_pad_type);
    assert_raw_video(&t[0]);
    assert_eq!(t[1].name_template, "sink");
    assert_eq!(t[1].direction, PadDirection::Sink);
    assert_eq!(t[1].presence, PadPresence::Request);
    assert!(t[1].custom_pad_type);
    assert_raw_video(&t[1]);
}

#[test]
fn dynamic_agg_templates() {
    let t = dynamic_agg::pad_templates();
    assert_eq!(t.len(), 3);
    assert_eq!(t[0].name_template, "sink");
    assert_eq!(t[0].direction, PadDirection::Sink);
    assert_eq!(t[0].presence, PadPresence::Request);
    assert!(t[0].custom_pad_type);
    assert_raw_video(&t[0]);
    assert_eq!(t[1].name_template, "comm_%u");
    assert_eq!(t[1].direction, PadDirection::Sink);
    assert_eq!(t[1].presence, PadPresence::Request);
    assert!(t[1].custom_pad_type);
    assert_eq!(t[1].caps.media_type(), "text/x-raw");
    match &t[1].caps {
        CapsTemplate::RawText(c) => assert_eq!(c.formats, vec!["utf8".to_string()]),
        CapsTemplate::RawVideo(_) => panic!("expected raw text caps"),
    }
    assert_eq!(t[2].name_template, "src");
    assert_eq!(t[2].direction, PadDirection::Src);
    assert_eq!(t[2].presence, PadPresence::Always);
    assert!(!t[2].custom_pad_type);
    assert_raw_video(&t[2]);
}

#[test]
fn text_template_pad_names_are_text_pads() {
    for n in [0u32, 1, 9, 10, 4294967295] {
        let name = format!("comm_{}", n);
        assert_eq!(dynamic_agg::plan_pad(&name, false), dynamic_agg::PadPlan::DrainText);
    }
}

#[test]
fn metadata_and_registration() {
    let m = simple_agg::metadata();
    assert_eq!(m.long_name, "Simple aggregator");
    assert_eq!(m.classification, "Aggregator");
    assert_eq!(m.description, "Simple video aggregator");
    assert_eq!(m.author, "Genius Sports");
    let m = dynamic_agg::metadata();
    assert_eq!(m.long_name, "Dynamic Aggregator");
    assert_eq!(m.classification, "Aggregator");
    assert_eq!(m.description, "Aggregates video and text inputs");
    assert_eq!(m.author, "Genius Sports");
    let r = simple_agg::registration();
    assert_eq!((r.name.as_str(), r.rank), ("simple_agg", 0));
    let r = dynamic_agg::registration();
    assert_eq!((r.name.as_str(), r.rank), ("dynamic_agg", 0));
}
