use vstd::prelude::*;

use crate::FlowError;
use crate::templates::{
    is_raw_video_caps, raw_video_caps, template_has, ElementMetadataSpec, ElementRegistration,
    PadDirection, PadPresence, PadTemplateSpec,
};

verus! {

/// What the simple aggregator remembers: the video description parsed from
/// the latest caps that held one.
pub struct SimpleAggState<Info> {
    video_info: Option<Info>,
}

/// The abstract contents of a [`SimpleAggState`].
pub struct SimpleAggModel<Info> {
    pub video_info: Option<Info>,
}

impl<Info> SimpleAggModel<Info> {
    pub open spec fn initial() -> Self {
        SimpleAggModel { video_info: None }
    }

    /// The state after a caps event from which `parsed` was read as video
    /// description (nothing, where the caps hold none).
    pub open spec fn after_caps(self, parsed: Option<Info>) -> Self {
        match parsed {
            Some(info) => SimpleAggModel { video_info: Some(info) },
            None => self,
        }
    }

    /// What a request for source caps is answered.
    pub open spec fn src_caps(self) -> Result<Info, FlowError> {
        match self.video_info {
            Some(info) => Ok(info),
            None => Err(FlowError::NotNegotiated),
        }
    }
}

impl<Info> View for SimpleAggState<Info> {
    type V = SimpleAggModel<Info>;

    closed spec fn view(&self) -> SimpleAggModel<Info> {
        SimpleAggModel { video_info: self.video_info }
    }
}

impl<Info> SimpleAggState<Info> {
    /// A state with nothing negotiated.
    pub fn new() -> (s: Self)
        ensures
            s@ == SimpleAggModel::<Info>::initial(),
    {
        SimpleAggState { video_info: None }
    }

    /// Stores `info` as the video description; this never fails.
    pub fn set_video_info(&mut self, info: Info) -> (r: Result<(), ()>)
        ensures
            r is Ok,
            final(self)@.video_info == Some(info),
    {
        self.video_info = Some(info);
        Ok(())
    }

    /// Handles a caps event on a sink pad: where a video description could be
    /// parsed from the caps, it is stored and the caps are handed back to be
    /// fixated on the source pad; otherwise nothing changes.
    pub fn on_caps_event<Caps>(&mut self, caps: Caps, parsed: Option<Info>) -> (fixate: Option<
        Caps,
    >)
        ensures
            final(self)@ == old(self)@.after_caps(parsed),
            parsed is Some ==> final(self)@.video_info == parsed,
            parsed is None ==> final(self)@.video_info == old(self)@.video_info,
            fixate == (if parsed is Some {
                Some(caps)
            } else {
                None
            }),
    {
        match parsed {
            Some(info) => {
                let _ = self.set_video_info(info);
                Some(caps)
            },
            None => None,
        }
    }

    /// Answers a request for source caps: the stored video description, or
    /// `NotNegotiated` while there is none.
    pub fn update_src_caps(&self) -> (r: Result<&Info, FlowError>)
        ensures
            r is Ok <==> self@.src_caps() is Ok,
            r matches Ok(info) ==> self@.src_caps() == Ok::<Info, FlowError>(*info),
            r matches Err(e) ==> self@.src_caps() == Err::<Info, FlowError>(e),
            r is Ok <==> self@.video_info is Some,
            r matches Ok(info) ==> self@.video_info == Some(*info),
            r matches Err(e) ==> e == FlowError::NotNegotiated,
    {
        match &self.video_info {
            Some(info) => Ok(info),
            None => Err(FlowError::NotNegotiated),
        }
    }

    /// The stored video description.
    pub fn video_info(&self) -> (r: Option<&Info>)
        ensures
            match r {
                Some(info) => self@.video_info == Some(*info),
                None => self@.video_info is None,
            },
    {
        match &self.video_info {
            Some(info) => Some(info),
            None => None,
        }
    }
}

/// What `aggregate` does after popping from one sink pad.
pub enum SimpleStep<Buf> {
    /// The pad had no buffer: go on with the next pad (after the last pad,
    /// the call returns successfully without output).
    NextPad,
    /// Finish (push downstream) this buffer and end the call.
    Finish(Buf),
    /// End the call with this error.
    Fail(FlowError),
}

/// The step for what was popped: a buffer with its presentation timestamp
/// (nanoseconds), where it has one.
pub open spec fn simple_step<Buf>(popped: Option<(Buf, Option<u64>)>) -> SimpleStep<Buf> {
    match popped {
        None => SimpleStep::NextPad,
        Some((b, pts)) => match pts {
            Some(_) => SimpleStep::Finish(b),
            None => SimpleStep::Fail(FlowError::Error),
        },
    }
}

/// Decides what `aggregate` does with what was popped from a sink pad: a
/// buffer without presentation timestamp is an error, one with a timestamp is
/// finished, nothing moves on to the next pad.
pub fn aggregate_step<Buf>(popped: Option<(Buf, Option<u64>)>) -> (s: SimpleStep<Buf>)
    ensures
        s == simple_step(popped),
        // Nothing popped: go on with the next pad.
        popped is None ==> s is NextPad,
        // A buffer with any timestamp at all is finished.
        popped matches Some((b, Some(_))) ==> s == SimpleStep::Finish(b),
        // Only a buffer without timestamp fails the call.
        popped matches Some((_, None)) ==> s == SimpleStep::<Buf>::Fail(FlowError::Error),
{
    match popped {
        None => SimpleStep::NextPad,
        Some((b, pts)) => match pts {
            Some(_) => SimpleStep::Finish(b),
            None => SimpleStep::Fail(FlowError::Error),
        },
    }
}

/// The end of an `aggregate` call that popped `pops` from the sink pads in
/// order, stopping at the first step that is not `NextPad`.
pub open spec fn simple_run<Buf>(pops: Seq<Option<(Buf, Option<u64>)>>) -> SimpleStep<Buf>
    decreases pops.len(),
{
    if pops.len() == 0 {
        SimpleStep::NextPad
    } else {
        match simple_step(pops[0]) {
            SimpleStep::NextPad => simple_run(pops.drop_first()),
            s => s,
        }
    }
}

/// The first pad that yields a buffer decides the call: that buffer is
/// finished when it has a presentation timestamp, and the call fails with
/// `Error` when it has none.
pub proof fn lemma_first_buffer_decides<Buf>(pops: Seq<Option<(Buf, Option<u64>)>>, k: int)
    requires
        0 <= k < pops.len(),
        pops[k] is Some,
        forall|i: int| 0 <= i < k ==> #[trigger] pops[i] is None,
    ensures
        simple_run(pops) == simple_step(pops[k]),
        simple_run(pops) !is NextPad,
    decreases k,
{
    if k > 0 {
        let rest = pops.drop_first();
        assert forall|i: int| 0 <= i < k - 1 implies #[trigger] rest[i] is None by {
            assert(rest[i] == pops[i + 1]);
        }
        assert(pops[0] is None);
        lemma_first_buffer_decides(rest, k - 1);
        assert(rest[k - 1] == pops[k]);
    }
}

/// A call in which no pad yields a buffer ends without output and without error.
pub proof fn lemma_no_buffer_no_output<Buf>(pops: Seq<Option<(Buf, Option<u64>)>>)
    requires
        forall|i: int| 0 <= i < pops.len() ==> #[trigger] pops[i] is None,
    ensures
        simple_run(pops) is NextPad,
    decreases pops.len(),
{
    if pops.len() > 0 {
        let rest = pops.drop_first();
        assert forall|i: int| 0 <= i < rest.len() implies #[trigger] rest[i] is None by {
            assert(rest[i] == pops[i + 1]);
        }
        assert(pops[0] is None);
        lemma_no_buffer_no_output(rest);
    }
}

/// Source caps follow the latest caps that held a video description; caps
/// without one leave the answer unchanged.
pub proof fn lemma_caps_then_src_caps<Info>(m: SimpleAggModel<Info>, parsed: Option<Info>)
    ensures
        parsed matches Some(info) ==> m.after_caps(parsed).src_caps() == Ok::<Info, FlowError>(
            info,
        ),
        parsed is None ==> m.after_caps(parsed) == m,
{
}

/// The simple aggregator's metadata.
pub fn metadata() -> (m: ElementMetadataSpec)
    ensures
        m.long_name@ == "Simple aggregator"@,
        m.classification@ == "Aggregator"@,
        m.description@ == "Simple video aggregator"@,
        m.author@ == "Genius Sports"@,
{
    ElementMetadataSpec {
        long_name: "Simple aggregator".to_owned(),
        classification: "Aggregator".to_owned(),
        description: "Simple video aggregator".to_owned(),
        author: "Genius Sports".to_owned(),
    }
}

/// The simple aggregator's pad templates: an always-present source pad and
/// request sink pads named `sink` of the element's pad type, both for raw video.
pub fn pad_templates() -> (t: Vec<PadTemplateSpec>)
    ensures
        t@.len() == 2,
        template_has(t@[0], "src"@, PadDirection::Src, PadPresence::Always, false),
        is_raw_video_caps(t@[0].caps),
        template_has(t@[1], "sink"@, PadDirection::Sink, PadPresence::Request, true),
        is_raw_video_caps(t@[1].caps),
{
    let src = PadTemplateSpec {
        name_template: "src".to_owned(),
        direction: PadDirection::Src,
        presence: PadPresence::Always,
        caps: raw_video_caps(),
        custom_pad_type: false,
    };
    let sink = PadTemplateSpec {
        name_template: "sink".to_owned(),
        direction: PadDirection::Sink,
        presence: PadPresence::Request,
        caps: raw_video_caps(),
        custom_pad_type: true,
    };
    vec![src, sink]
}

/// The name and rank the simple aggregator is registered under.
pub fn registration() -> (r: ElementRegistration)
    ensures
        r.name@ == "simple_agg"@,
        r.rank == 0,
{
    ElementRegistration { name: "simple_agg".to_owned(), rank: 0 }
}

/// Whatever its timestamp value, a buffer that has one is finished; only a
/// buffer without timestamp fails the call, and an empty pad moves on.
pub proof fn lemma_timestamped_buffer_is_finished<Buf>(b: Buf, pts: u64)
    ensures
        simple_step(Some((b, Some(pts)))) == SimpleStep::Finish(b),
        simple_step(Some((b, None::<u64>))) == SimpleStep::<Buf>::Fail(FlowError::Error),
        simple_step(None::<(Buf, Option<u64>)>) is NextPad,
{
}

} // verus!
