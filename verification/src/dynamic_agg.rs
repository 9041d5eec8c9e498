use vstd::prelude::*;
use vstd::utf8::*;
use std::collections::VecDeque;

use crate::media::{opt_bytes_view, opt_string_view, raw_text, raw_video, strings_view, texts_view};
use crate::names::{has_prefix, same_text, starts_with};
use crate::text::decode_utf8_text;
use crate::FlowError;
use crate::templates::{
    is_raw_video_caps, is_utf8_text_caps, raw_video_caps, template_has, utf8_text_caps,
    ElementMetadataSpec, ElementRegistration, PadDirection, PadPresence, PadTemplateSpec,
};

verus! {

/// What the dynamic aggregator remembers between calls: the negotiated video
/// description, the last text caps, every text buffer received and the list of
/// text formats and text pad names seen.
///
/// `Info` is the video description parsed from caps, `Caps` a caps value and
/// `Buf` a media buffer; the element decides nothing from their contents.
pub struct DynamicAggState<Info, Caps, Buf> {
    video_info: Option<Info>,
    text_caps: Option<Caps>,
    text_accumulator: VecDeque<Buf>,
    text_formats: Vec<String>,
}

/// The abstract contents of a [`DynamicAggState`].
pub struct DynamicAggModel<Info, Caps, Buf> {
    pub video_info: Option<Info>,
    pub text_caps: Option<Caps>,
    pub text_accumulator: Seq<Buf>,
    pub text_formats: Seq<Seq<char>>,
}

/// The text carried by a mapped text buffer: its bytes decoded as UTF-8, or
/// nothing when the buffer could not be mapped or is not valid UTF-8.
pub open spec fn text_of(mapped: Option<Seq<u8>>) -> Option<Seq<char>> {
    match mapped {
        Some(b) => if valid_utf8(b) {
            Some(decode_utf8(b))
        } else {
            None
        },
        None => None,
    }
}

/// The caps that a caps event asks to fixate on the source pad: raw video caps
/// from which a video description could be parsed.
pub open spec fn caps_fixation<Info, Caps>(
    structure_name: Seq<char>,
    caps: Caps,
    parsed: Option<Info>,
) -> Option<Caps> {
    if structure_name == raw_video() && parsed is Some {
        Some(caps)
    } else {
        None
    }
}

impl<Info, Caps, Buf> DynamicAggModel<Info, Caps, Buf> {
    pub open spec fn initial() -> Self {
        DynamicAggModel {
            video_info: None,
            text_caps: None,
            text_accumulator: Seq::empty(),
            text_formats: Seq::empty(),
        }
    }

    /// The state after a caps event whose first structure is named
    /// `structure_name`; `parsed` is the video description read from the caps
    /// and `format` the string `format` field of that structure, where present.
    pub open spec fn after_caps(
        self,
        structure_name: Seq<char>,
        caps: Caps,
        parsed: Option<Info>,
        format: Option<Seq<char>>,
    ) -> Self {
        if structure_name == raw_video() {
            match parsed {
                Some(info) => DynamicAggModel { video_info: Some(info), ..self },
                None => self,
            }
        } else if structure_name == raw_text() {
            DynamicAggModel {
                text_caps: Some(caps),
                text_formats: match format {
                    Some(f) => self.text_formats.push(f),
                    None => self.text_formats,
                },
                ..self
            }
        } else {
            self
        }
    }

    /// The state after a text buffer from pad `pad_name` was processed;
    /// `mapped` is the buffer's readable memory, where it could be mapped.
    pub open spec fn after_text_buffer(
        self,
        buffer: Buf,
        mapped: Option<Seq<u8>>,
        pad_name: Seq<char>,
    ) -> Self {
        DynamicAggModel {
            text_accumulator: self.text_accumulator.push(buffer),
            text_formats: if text_of(mapped) is Some {
                self.text_formats.push(pad_name)
            } else {
                self.text_formats
            },
            ..self
        }
    }

    /// What a request for source caps is answered.
    pub open spec fn src_caps(self) -> Result<Info, FlowError> {
        match self.video_info {
            Some(info) => Ok(info),
            None => Err(FlowError::NotNegotiated),
        }
    }
}

/// The result of processing one text buffer.
pub open spec fn text_buffer_result(mapped: Option<Seq<u8>>) -> Result<(), FlowError> {
    if text_of(mapped) is Some {
        Ok(())
    } else {
        Err(FlowError::Error)
    }
}

impl<Info, Caps, Buf> View for DynamicAggState<Info, Caps, Buf> {
    type V = DynamicAggModel<Info, Caps, Buf>;

    closed spec fn view(&self) -> DynamicAggModel<Info, Caps, Buf> {
        DynamicAggModel {
            video_info: self.video_info,
            text_caps: self.text_caps,
            text_accumulator: self.text_accumulator@,
            text_formats: strings_view(self.text_formats@),
        }
    }
}

impl<Info, Caps, Buf> DynamicAggState<Info, Caps, Buf> {
    /// A state with nothing negotiated and nothing received.
    pub fn new() -> (s: Self)
        ensures
            s@ == DynamicAggModel::<Info, Caps, Buf>::initial(),
    {
        let s = DynamicAggState {
            video_info: None,
            text_caps: None,
            text_accumulator: VecDeque::new(),
            text_formats: Vec::new(),
        };
        assert(s@.text_formats =~= Seq::<Seq<char>>::empty());
        s
    }

    /// Handles a caps event on a sink pad. Raw video caps from which a video
    /// description was parsed replace the stored description and are handed
    /// back to be fixated on the source pad; raw text caps are stored, and
    /// their `format` field, where present, is appended to the text formats.
    /// Other caps change nothing.
    pub fn on_caps_event(
        &mut self,
        structure_name: &str,
        caps: Caps,
        parsed: Option<Info>,
        format: Option<String>,
    ) -> (fixate: Option<Caps>)
        ensures
            final(self)@ == old(self)@.after_caps(
                structure_name@,
                caps,
                parsed,
                opt_string_view(format),
            ),
            fixate == caps_fixation(structure_name@, caps, parsed),
            // Raw video caps with a parsed description: stored, and handed back.
            structure_name@ == "video/x-raw"@ && parsed is Some ==> {
                &&& final(self)@.video_info == parsed
                &&& fixate == Some(caps)
                &&& final(self)@.text_caps == old(self)@.text_caps
                &&& final(self)@.text_formats == old(self)@.text_formats
                &&& final(self)@.text_accumulator == old(self)@.text_accumulator
            },
            // Only such caps are handed back.
            !(structure_name@ == "video/x-raw"@ && parsed is Some) ==> fixate is None,
            // Raw text caps: stored, and every format field is appended.
            structure_name@ == "text/x-raw"@ ==> {
                &&& final(self)@.text_caps == Some(caps)
                &&& final(self)@.video_info == old(self)@.video_info
                &&& final(self)@.text_accumulator == old(self)@.text_accumulator
                &&& final(self)@.text_formats == match format {
                    Some(f) => old(self)@.text_formats.push(f@),
                    None => old(self)@.text_formats,
                }
            },
            // Any other caps, or video caps without a description: no change.
            structure_name@ != "text/x-raw"@ && !(structure_name@ == "video/x-raw"@
                && parsed is Some) ==> final(self)@ == old(self)@,
    {
        proof {
            reveal_strlit("video/x-raw");
            reveal_strlit("text/x-raw");
            assert("video/x-raw"@[0] != "text/x-raw"@[0]);
        }
        if same_text(structure_name, "video/x-raw") {
            match parsed {
                Some(info) => {
                    self.video_info = Some(info);
                    Some(caps)
                },
                None => None,
            }
        } else if same_text(structure_name, "text/x-raw") {
            self.text_caps = Some(caps);
            match format {
                Some(f) => {
                    let ghost before = self.text_formats@;
                    self.text_formats.push(f);
                    assert(strings_view(self.text_formats@) =~= strings_view(before).push(f@));
                },
                None => {},
            }
            None
        } else {
            None
        }
    }

    /// Answers a request for source caps: the stored video description, or
    /// `NotNegotiated` while there is none.
    pub fn update_src_caps(&self) -> (r: Result<&Info, FlowError>)
        ensures
            r is Ok <==> self@.src_caps() is Ok,
            r matches Ok(info) ==> self@.src_caps() == Ok::<Info, FlowError>(*info),
            r matches Err(e) ==> self@.src_caps() == Err::<Info, FlowError>(e),
            r is Ok <==> self@.video_info is Some,
            r matches Ok(info) ==> self@.video_info == Some(*info),
            r matches Err(e) ==> e == FlowError::NotNegotiated,
    {
        match &self.video_info {
            Some(info) => Ok(info),
            None => Err(FlowError::NotNegotiated),
        }
    }

    /// Processes one text buffer popped from pad `pad_name`. The buffer is
    /// always kept in the accumulator. Where its memory could be mapped
    /// (`mapped`) and holds valid UTF-8, the pad name is appended to the text
    /// formats and (pad name, text) to `texts`; otherwise the result is
    /// `Err(FlowError::Error)` and neither list changes.
    pub fn process_text_buffer(
        &mut self,
        buffer: Buf,
        mapped: Option<Vec<u8>>,
        pad_name: &str,
        texts: &mut Vec<(String, String)>,
    ) -> (r: Result<(), FlowError>)
        ensures
            final(self)@ == old(self)@.after_text_buffer(buffer, opt_bytes_view(mapped), pad_name@),
            r == text_buffer_result(opt_bytes_view(mapped)),
            texts_view(final(texts)@) == match text_of(opt_bytes_view(mapped)) {
                Some(t) => texts_view(old(texts)@).push((pad_name@, t)),
                None => texts_view(old(texts)@),
            },
            // The buffer is always kept; nothing else of the state changes.
            final(self)@.text_accumulator == old(self)@.text_accumulator.push(buffer),
            final(self)@.video_info == old(self)@.video_info,
            final(self)@.text_caps == old(self)@.text_caps,
            // Valid UTF-8 of any length is decoded and recorded.
            mapped matches Some(b) ==> (valid_utf8(b@) ==> {
                &&& r is Ok
                &&& final(self)@.text_formats == old(self)@.text_formats.push(pad_name@)
                &&& texts_view(final(texts)@) == texts_view(old(texts)@).push(
                    (pad_name@, decode_utf8(b@)),
                )
            }),
            // Unmappable memory or invalid UTF-8 is an error that records nothing.
            match mapped {
                Some(b) => !valid_utf8(b@),
                None => true,
            } ==> {
                &&& r == Err::<(), FlowError>(FlowError::Error)
                &&& final(self)@.text_formats == old(self)@.text_formats
                &&& texts_view(final(texts)@) == texts_view(old(texts)@)
            },
    {
        self.text_accumulator.push_back(buffer);
        let bytes = match mapped {
            Some(b) => b,
            None => {
                return Err(FlowError::Error);
            },
        };
        let text = match decode_utf8_text(bytes) {
            Some(t) => t,
            None => {
                return Err(FlowError::Error);
            },
        };
        let ghost formats_before = self.text_formats@;
        let ghost texts_before = texts@;
        self.text_formats.push(pad_name.to_owned());
        texts.push((pad_name.to_owned(), text));
        assert(strings_view(self.text_formats@) =~= strings_view(formats_before).push(pad_name@));
        assert(texts_view(texts@) =~= texts_view(texts_before).push((pad_name@, text@)));
        Ok(())
    }

    /// The stored video description.
    pub fn video_info(&self) -> (r: Option<&Info>)
        ensures
            match r {
                Some(info) => self@.video_info == Some(*info),
                None => self@.video_info is None,
            },
    {
        match &self.video_info {
            Some(info) => Some(info),
            None => None,
        }
    }

    /// The stored text caps.
    pub fn text_caps(&self) -> (r: Option<&Caps>)
        ensures
            match r {
                Some(c) => self@.text_caps == Some(*c),
                None => self@.text_caps is None,
            },
    {
        match &self.text_caps {
            Some(c) => Some(c),
            None => None,
        }
    }

    /// The number of text buffers received.
    pub fn accumulated_len(&self) -> (n: usize)
        ensures
            n == self@.text_accumulator.len(),
    {
        self.text_accumulator.len()
    }

    /// The text formats and text pad names recorded, in order.
    pub fn text_formats(&self) -> (r: &Vec<String>)
        ensures
            strings_view(r@) == self@.text_formats,
    {
        &self.text_formats
    }
}

/// The kind of caps a caps event carries, by the name of its first structure.
#[derive(Debug, Clone, Copy, PartialEq, Eq, Structural)]
pub enum CapsKind {
    RawVideo,
    RawText,
    Other,
}

/// The kind of caps whose first structure is named `structure_name`.
pub open spec fn caps_kind_of(structure_name: Seq<char>) -> CapsKind {
    if structure_name == raw_video() {
        CapsKind::RawVideo
    } else if structure_name == raw_text() {
        CapsKind::RawText
    } else {
        CapsKind::Other
    }
}

/// Classifies caps by the name of their first structure; only raw video caps
/// are parsed into a video description, only raw text caps are read for their
/// `format` field.
pub fn caps_kind(structure_name: &str) -> (k: CapsKind)
    ensures
        k == caps_kind_of(structure_name@),
        (k == CapsKind::RawVideo) <==> structure_name@ == "video/x-raw"@,
        (k == CapsKind::RawText) <==> structure_name@ == "text/x-raw"@,
{
    proof {
        reveal_strlit("video/x-raw");
        reveal_strlit("text/x-raw");
        assert("video/x-raw"@[0] != "text/x-raw"@[0]);
    }
    if same_text(structure_name, "video/x-raw") {
        CapsKind::RawVideo
    } else if same_text(structure_name, "text/x-raw") {
        CapsKind::RawText
    } else {
        CapsKind::Other
    }
}

/// How `aggregate` treats a sink pad.
#[derive(Debug, Clone, Copy, PartialEq, Eq, Structural)]
pub enum PadPlan {
    /// The pad is at end of stream: nothing is taken from it.
    SkipAtEos,
    /// The video pad: one buffer is taken from it.
    TakeVideo,
    /// A text pad: every queued buffer is taken and processed as text.
    DrainText,
    /// A pad of no known kind: nothing is taken from it.
    Unknown,
    /// A text buffer of this call failed: the call ends, and nothing more is
    /// taken from this pad or any later one.
    Stop,
}

/// The plan for a sink pad named `pad_name`: pads at end of stream are
/// skipped, the pad named `sink` carries video, pads whose name starts with
/// `comm_` carry text.
pub open spec fn pad_plan(pad_name: Seq<char>, eos: bool) -> PadPlan {
    if eos {
        PadPlan::SkipAtEos
    } else if pad_name == "sink"@ {
        PadPlan::TakeVideo
    } else if starts_with(pad_name, "comm_"@) {
        PadPlan::DrainText
    } else {
        PadPlan::Unknown
    }
}

/// Decides how `aggregate` treats the sink pad named `pad_name`.
pub fn plan_pad(pad_name: &str, eos: bool) -> (p: PadPlan)
    ensures
        p == pad_plan(pad_name@, eos),
        eos ==> p == PadPlan::SkipAtEos,
        !eos && pad_name@ == "sink"@ ==> p == PadPlan::TakeVideo,
        !eos && pad_name@ != "sink"@ && "comm_"@.is_prefix_of(pad_name@) ==> p
            == PadPlan::DrainText,
        !eos && pad_name@ != "sink"@ && !"comm_"@.is_prefix_of(pad_name@) ==> p
            == PadPlan::Unknown,
{
    if eos {
        PadPlan::SkipAtEos
    } else if same_text(pad_name, "sink") {
        PadPlan::TakeVideo
    } else if has_prefix(pad_name, "comm_") {
        PadPlan::DrainText
    } else {
        PadPlan::Unknown
    }
}

/// What one `aggregate` call ends with.
pub enum AggregateOutcome<Buf> {
    /// Finish (push downstream) this video buffer.
    FinishVideo(Buf),
    /// No video buffer arrived: push a gap event on the source pad.
    PushGap,
    /// A text buffer could not be processed: end the call with this error,
    /// finishing no buffer and pushing no gap.
    Fail(FlowError),
}

/// The outcome of a cycle that holds `video_buffer` and met `failure` (the
/// first text-processing error, if any).
pub open spec fn cycle_outcome<Buf>(
    video_buffer: Option<Buf>,
    failure: Option<FlowError>,
) -> AggregateOutcome<Buf> {
    match failure {
        Some(e) => AggregateOutcome::Fail(e),
        None => match video_buffer {
            Some(b) => AggregateOutcome::FinishVideo(b),
            None => AggregateOutcome::PushGap,
        },
    }
}

/// The failure recorded after a text buffer whose processing gave `r`: the
/// first error met stays.
pub open spec fn after_text_result(failure: Option<FlowError>, r: Result<(), FlowError>) -> Option<
    FlowError,
> {
    match failure {
        Some(e) => Some(e),
        None => match r {
            Ok(()) => None,
            Err(e) => Some(e),
        },
    }
}

/// The work of one `aggregate` call: the video buffer taken so far, the texts
/// decoded so far and the first text-processing error.
pub struct AggregateCycle<Buf> {
    video_buffer: Option<Buf>,
    texts: Vec<(String, String)>,
    failure: Option<FlowError>,
}

/// The abstract contents of an [`AggregateCycle`].
pub struct AggregateCycleModel<Buf> {
    pub video_buffer: Option<Buf>,
    pub texts: Seq<(Seq<char>, Seq<char>)>,
    pub failure: Option<FlowError>,
}

/// The video buffer held after a buffer (or none) was popped from the video pad.
pub open spec fn after_video_pop<Buf>(held: Option<Buf>, popped: Option<Buf>) -> Option<Buf> {
    match popped {
        Some(b) => Some(b),
        None => held,
    }
}

/// How a cycle in state `c` treats the next sink pad: `Stop` once a text
/// buffer has failed, otherwise as [`pad_plan`] says.
pub open spec fn cycle_plan<Buf>(c: AggregateCycleModel<Buf>, pad_name: Seq<char>, eos: bool) -> PadPlan {
    if c.failure is Some {
        PadPlan::Stop
    } else {
        pad_plan(pad_name, eos)
    }
}

/// Whether a cycle in state `c` may pop another buffer from a text pad.
pub open spec fn may_drain<Buf>(c: AggregateCycleModel<Buf>) -> bool {
    c.failure is None
}

impl<Buf> View for AggregateCycle<Buf> {
    type V = AggregateCycleModel<Buf>;

    closed spec fn view(&self) -> AggregateCycleModel<Buf> {
        AggregateCycleModel {
            video_buffer: self.video_buffer,
            texts: texts_view(self.texts@),
            failure: self.failure,
        }
    }
}

impl<Buf> AggregateCycle<Buf> {
    /// A cycle with no video buffer, no text and no failure.
    pub fn new() -> (c: Self)
        ensures
            c@.video_buffer is None,
            c@.texts == Seq::<(Seq<char>, Seq<char>)>::empty(),
            c@.failure is None,
    {
        let c = AggregateCycle { video_buffer: None, texts: Vec::new(), failure: None };
        assert(c@.texts =~= Seq::<(Seq<char>, Seq<char>)>::empty());
        c
    }

    /// Records what was popped from the video pad: a buffer replaces the one
    /// held, nothing keeps it.
    pub fn take_video(&mut self, popped: Option<Buf>)
        ensures
            final(self)@.video_buffer == after_video_pop(old(self)@.video_buffer, popped),
            final(self)@.texts == old(self)@.texts,
            final(self)@.failure == old(self)@.failure,
            popped is Some ==> final(self)@.video_buffer == popped,
            popped is None ==> final(self)@.video_buffer == old(self)@.video_buffer,
    {
        match popped {
            Some(b) => {
                self.video_buffer = Some(b);
            },
            None => {},
        }
    }

    /// How this cycle treats the next sink pad, named `pad_name`: once a text
    /// buffer has failed the cycle stops; otherwise as [`plan_pad`] decides.
    pub fn plan(&self, pad_name: &str, eos: bool) -> (p: PadPlan)
        ensures
            p == cycle_plan(self@, pad_name@, eos),
            // Without a failure every pad is planned by its name and end of
            // stream alone, whatever video buffer or texts the cycle holds.
            self@.failure is None ==> p == pad_plan(pad_name@, eos),
            self@.failure is Some ==> p == PadPlan::Stop,
    {
        if self.failure.is_some() {
            PadPlan::Stop
        } else {
            plan_pad(pad_name, eos)
        }
    }

    /// Whether another buffer may be popped from the text pad being drained:
    /// only while no text buffer of this cycle has failed.
    pub fn keep_draining(&self) -> (r: bool)
        ensures
            r == may_drain(self@),
            r == (self@.failure is None),
    {
        self.failure.is_none()
    }

    /// Processes a buffer popped from text pad `pad_name` into `state`, as
    /// [`DynamicAggState::process_text_buffer`] does, collecting the decoded
    /// text in this cycle. An error is returned and also recorded: from then
    /// on [`AggregateCycle::plan`] answers `Stop`, [`AggregateCycle::keep_draining`]
    /// answers `false` and the cycle ends with the error.
    pub fn process_text<Info, Caps>(
        &mut self,
        state: &mut DynamicAggState<Info, Caps, Buf>,
        buffer: Buf,
        mapped: Option<Vec<u8>>,
        pad_name: &str,
    ) -> (r: Result<(), FlowError>)
        ensures
            final(state)@ == old(state)@.after_text_buffer(buffer, opt_bytes_view(mapped), pad_name@),
            r == text_buffer_result(opt_bytes_view(mapped)),
            final(self)@.video_buffer == old(self)@.video_buffer,
            final(self)@.texts == match text_of(opt_bytes_view(mapped)) {
                Some(t) => old(self)@.texts.push((pad_name@, t)),
                None => old(self)@.texts,
            },
            final(self)@.failure == after_text_result(old(self)@.failure, r),
            old(self)@.failure is None && r is Ok ==> final(self)@.failure is None,
            r matches Err(e) ==> (old(self)@.failure is None ==> final(self)@.failure == Some(e)),
            old(self)@.failure is Some ==> final(self)@.failure == old(self)@.failure,
            mapped matches Some(b) ==> (valid_utf8(b@) ==> r is Ok),
            match mapped {
                Some(b) => !valid_utf8(b@),
                None => true,
            } ==> r == Err::<(), FlowError>(FlowError::Error),
    {
        let r = state.process_text_buffer(buffer, mapped, pad_name, &mut self.texts);
        if self.failure.is_none() {
            match r {
                Ok(()) => {},
                Err(e) => {
                    self.failure = Some(e);
                },
            }
        }
        r
    }

    /// The texts decoded in this cycle, as (pad name, text).
    pub fn texts(&self) -> (r: &Vec<(String, String)>)
        ensures
            texts_view(r@) == self@.texts,
    {
        &self.texts
    }

    /// Ends the cycle: fail with the recorded text-processing error; else
    /// finish the video buffer taken, or push a gap when none was.
    pub fn conclude(self) -> (o: AggregateOutcome<Buf>)
        ensures
            o == cycle_outcome(self@.video_buffer, self@.failure),
            self@.failure matches Some(e) ==> o == AggregateOutcome::<Buf>::Fail(e),
            self@.video_buffer matches Some(b) ==> (self@.failure is None ==> o
                == AggregateOutcome::FinishVideo(b)),
            self@.failure is None && self@.video_buffer is None ==> o
                == AggregateOutcome::<Buf>::PushGap,
    {
        match self.failure {
            Some(e) => AggregateOutcome::Fail(e),
            None => match self.video_buffer {
                Some(b) => AggregateOutcome::FinishVideo(b),
                None => AggregateOutcome::PushGap,
            },
        }
    }
}

/// One input that reaches the dynamic aggregator's state: a caps event on a
/// sink pad, or a text buffer popped from a text pad.
pub enum SinkInput<Info, Caps, Buf> {
    CapsEvent {
        structure_name: Seq<char>,
        caps: Caps,
        parsed: Option<Info>,
        format: Option<Seq<char>>,
    },
    TextBuffer { buffer: Buf, mapped: Option<Seq<u8>>, pad_name: Seq<char> },
}

impl<Info, Caps, Buf> DynamicAggModel<Info, Caps, Buf> {
    /// The state after one input.
    pub open spec fn apply(self, input: SinkInput<Info, Caps, Buf>) -> Self {
        match input {
            SinkInput::CapsEvent { structure_name, caps, parsed, format } => self.after_caps(
                structure_name,
                caps,
                parsed,
                format,
            ),
            SinkInput::TextBuffer { buffer, mapped, pad_name } => self.after_text_buffer(
                buffer,
                mapped,
                pad_name,
            ),
        }
    }
}

/// The state after `inputs`, in order, starting from `m`.
pub open spec fn replay<Info, Caps, Buf>(
    m: DynamicAggModel<Info, Caps, Buf>,
    inputs: Seq<SinkInput<Info, Caps, Buf>>,
) -> DynamicAggModel<Info, Caps, Buf>
    decreases inputs.len(),
{
    if inputs.len() == 0 {
        m
    } else {
        replay(m, inputs.drop_last()).apply(inputs.last())
    }
}

/// The video description of the latest raw video caps event among `inputs`
/// from which one could be parsed.
pub open spec fn latest_video_info<Info, Caps, Buf>(inputs: Seq<SinkInput<Info, Caps, Buf>>) -> Option<Info>
    decreases inputs.len(),
{
    if inputs.len() == 0 {
        None
    } else {
        match inputs.last() {
            SinkInput::CapsEvent { structure_name, parsed: Some(info), .. } if structure_name
                == raw_video() => Some(info),
            _ => latest_video_info(inputs.drop_last()),
        }
    }
}

/// The text buffers among `inputs`, in order.
pub open spec fn text_buffers<Info, Caps, Buf>(inputs: Seq<SinkInput<Info, Caps, Buf>>) -> Seq<Buf>
    decreases inputs.len(),
{
    if inputs.len() == 0 {
        Seq::empty()
    } else {
        match inputs.last() {
            SinkInput::TextBuffer { buffer, .. } => text_buffers(inputs.drop_last()).push(buffer),
            _ => text_buffers(inputs.drop_last()),
        }
    }
}

/// Source caps follow the latest accepted video caps: once raw video caps
/// with a parsable video description have arrived, a request for source caps
/// is answered with that description, whatever came before.
pub proof fn lemma_video_caps_then_src_caps<Info, Caps, Buf>(
    m: DynamicAggModel<Info, Caps, Buf>,
    caps: Caps,
    info: Info,
    format: Option<Seq<char>>,
)
    ensures
        m.after_caps(raw_video(), caps, Some(info), format).src_caps() == Ok::<Info, FlowError>(info),
{
}

/// Text caps and text buffers never change what source caps are answered, nor
/// do caps from which no video description could be parsed.
pub proof fn lemma_text_traffic_keeps_negotiation<Info, Caps, Buf>(
    m: DynamicAggModel<Info, Caps, Buf>,
    input: SinkInput<Info, Caps, Buf>,
)
    requires
        !(input matches SinkInput::CapsEvent { structure_name, parsed: Some(_), .. }
            && structure_name == raw_video()),
    ensures
        m.apply(input).src_caps() == m.src_caps(),
        m.apply(input).video_info == m.video_info,
{
}

/// From the initial state, after any inputs: source caps are the latest
/// accepted video description (`NotNegotiated` while there is none), and the
/// accumulator holds every text buffer received, in order, whether or not it
/// could be decoded.
pub proof fn lemma_replay_from_initial<Info, Caps, Buf>(inputs: Seq<SinkInput<Info, Caps, Buf>>)
    ensures
        replay(DynamicAggModel::initial(), inputs).video_info == latest_video_info(inputs),
        replay(DynamicAggModel::initial(), inputs).src_caps() == match latest_video_info(inputs) {
            Some(info) => Ok::<Info, FlowError>(info),
            None => Err(FlowError::NotNegotiated),
        },
        replay(DynamicAggModel::initial(), inputs).text_accumulator == text_buffers(inputs),
    decreases inputs.len(),
{
    if inputs.len() > 0 {
        lemma_replay_from_initial(inputs.drop_last());
    }
}

/// Every buffer handed in for text processing is kept, also when it cannot be
/// mapped or decoded; only decodable buffers are recorded as text.
pub proof fn lemma_text_buffer_always_kept<Info, Caps, Buf>(
    m: DynamicAggModel<Info, Caps, Buf>,
    buffer: Buf,
    mapped: Option<Seq<u8>>,
    pad_name: Seq<char>,
)
    ensures
        m.after_text_buffer(buffer, mapped, pad_name).text_accumulator == m.text_accumulator.push(
            buffer,
        ),
        (text_buffer_result(mapped) is Ok) <==> m.after_text_buffer(
            buffer,
            mapped,
            pad_name,
        ).text_formats.len() == m.text_formats.len() + 1,
{
}

/// Pads made from the text template `comm_%u` are drained as text pads while
/// they are not at end of stream, whatever the number put in place of `%u`.
pub proof fn lemma_requested_text_pads_are_text(suffix: Seq<char>)
    ensures
        pad_plan("comm_"@ + suffix, false) == PadPlan::DrainText,
{
    reveal_strlit("comm_");
    reveal_strlit("sink");
    let name = "comm_"@ + suffix;
    assert(name[0] == 'c');
    assert(name != "sink"@);
    assert(name.subrange(0, 5) =~= "comm_"@);
}

/// The video buffer held by a cycle that started empty and recorded `pops`
/// from the video pad.
pub open spec fn held_after_pops<Buf>(pops: Seq<Option<Buf>>) -> Option<Buf>
    decreases pops.len(),
{
    if pops.len() == 0 {
        None
    } else {
        after_video_pop(held_after_pops(pops.drop_last()), pops.last())
    }
}

/// The latest buffer among `pops`.
pub open spec fn latest_popped<Buf>(pops: Seq<Option<Buf>>) -> Option<Buf>
    decreases pops.len(),
{
    if pops.len() == 0 {
        None
    } else if pops.last() is Some {
        pops.last()
    } else {
        latest_popped(pops.drop_last())
    }
}

/// A cycle that started empty, recorded `pops` from the video pad and met no
/// text-processing error ends by finishing the latest buffer popped, or by
/// pushing a gap when every pop came back empty.
pub proof fn lemma_cycle_finishes_latest_video<Buf>(pops: Seq<Option<Buf>>)
    ensures
        cycle_outcome(held_after_pops(pops), None) == match latest_popped(pops) {
            Some(b) => AggregateOutcome::FinishVideo(b),
            None => AggregateOutcome::<Buf>::PushGap,
        },
        (cycle_outcome(held_after_pops(pops), None) is PushGap) <==> (forall|i: int|
            0 <= i < pops.len() ==> #[trigger] pops[i] is None),
    decreases pops.len(),
{
    if pops.len() > 0 {
        let rest = pops.drop_last();
        lemma_cycle_finishes_latest_video(rest);
        if pops.last() is Some {
            assert(pops[pops.len() - 1] is Some);
        } else {
            assert((forall|i: int| 0 <= i < rest.len() ==> #[trigger] rest[i] is None) ==> (forall|
                i: int,
            |
                0 <= i < pops.len() ==> #[trigger] pops[i] is None)) by {
                if forall|i: int| 0 <= i < rest.len() ==> #[trigger] rest[i] is None {
                    assert forall|i: int| 0 <= i < pops.len() implies #[trigger] pops[i] is None by {
                        if i < rest.len() {
                            assert(rest[i] == pops[i]);
                        }
                    }
                }
            }
            assert((forall|i: int| 0 <= i < pops.len() ==> #[trigger] pops[i] is None) ==> (forall|
                i: int,
            |
                0 <= i < rest.len() ==> #[trigger] rest[i] is None)) by {
                if forall|i: int| 0 <= i < pops.len() ==> #[trigger] pops[i] is None {
                    assert forall|i: int| 0 <= i < rest.len() implies #[trigger] rest[i] is None by {
                        assert(rest[i] == pops[i]);
                    }
                }
            }
        }
    }
}

/// A text buffer that cannot be mapped or decoded ends the cycle with `Error`:
/// whatever video buffer was taken, none is finished and no gap is pushed.
pub proof fn lemma_failed_text_ends_cycle<Buf>(
    video_buffer: Option<Buf>,
    failure: Option<FlowError>,
    mapped: Option<Seq<u8>>,
)
    requires
        failure is None,
        text_of(mapped) is None,
    ensures
        cycle_outcome(video_buffer, after_text_result(failure, text_buffer_result(mapped)))
            == AggregateOutcome::<Buf>::Fail(FlowError::Error),
{
}

/// Once a cycle has failed, nothing later changes its end.
pub proof fn lemma_failure_is_final<Buf>(
    video_buffer: Option<Buf>,
    popped: Option<Buf>,
    e: FlowError,
    r: Result<(), FlowError>,
)
    ensures
        cycle_outcome(after_video_pop(video_buffer, popped), after_text_result(Some(e), r))
            == AggregateOutcome::<Buf>::Fail(e),
{
}

/// After a failed text buffer the cycle takes nothing more: every later pad is
/// planned `Stop`, draining stops, and the cycle ends with the failure.
pub proof fn lemma_failed_cycle_stops<Buf>(c: AggregateCycleModel<Buf>, pad_name: Seq<char>, eos: bool)
    requires
        c.failure is Some,
    ensures
        cycle_plan(c, pad_name, eos) == PadPlan::Stop,
        !may_drain(c),
        cycle_outcome(c.video_buffer, c.failure) == AggregateOutcome::<Buf>::Fail(c.failure->0),
{
}

/// A cycle keeps draining text pads exactly while none of its text buffers
/// failed, however many texts it has already collected.
pub proof fn lemma_healthy_cycle_drains<Buf>(c: AggregateCycleModel<Buf>)
    ensures
        c.failure is None ==> may_drain(c),
        c.failure is Some ==> !may_drain(c),
{
}

/// Mapped bytes of any length are accepted exactly when they are valid UTF-8,
/// and then their decoding is the text; unmapped memory is an error.
pub proof fn lemma_valid_utf8_is_accepted(b: Seq<u8>)
    ensures
        valid_utf8(b) ==> text_buffer_result(Some(b)) == Ok::<(), FlowError>(()),
        valid_utf8(b) ==> text_of(Some(b)) == Some(decode_utf8(b)),
        !valid_utf8(b) ==> text_buffer_result(Some(b)) == Err::<(), FlowError>(FlowError::Error),
        text_buffer_result(None) == Err::<(), FlowError>(FlowError::Error),
{
}

/// Every raw text caps event stores its caps and appends its format field,
/// whatever text caps and formats were there before; video state is kept.
pub proof fn lemma_text_caps_append_format<Info, Caps, Buf>(
    m: DynamicAggModel<Info, Caps, Buf>,
    caps: Caps,
    parsed: Option<Info>,
    format: Seq<char>,
)
    ensures
        m.after_caps("text/x-raw"@, caps, parsed, Some(format)).text_formats == m.text_formats.push(
            format,
        ),
        m.after_caps("text/x-raw"@, caps, parsed, Some(format)).text_caps == Some(caps),
        m.after_caps("text/x-raw"@, caps, parsed, None).text_formats == m.text_formats,
        m.after_caps("text/x-raw"@, caps, parsed, Some(format)).video_info == m.video_info,
{
    reveal_strlit("video/x-raw");
    reveal_strlit("text/x-raw");
    assert("video/x-raw"@[0] != "text/x-raw"@[0]);
}

/// A cycle without failure plans every pad by its name and end of stream
/// alone, whatever video buffer or texts it holds: text pads are drained also
/// after the video buffer was taken.
pub proof fn lemma_healthy_cycle_plans_by_name<Buf>(
    c: AggregateCycleModel<Buf>,
    pad_name: Seq<char>,
    eos: bool,
)
    requires
        c.failure is None,
    ensures
        cycle_plan(c, pad_name, eos) == pad_plan(pad_name, eos),
        !eos && "comm_"@.is_prefix_of(pad_name) ==> cycle_plan(c, pad_name, eos)
            == PadPlan::DrainText,
        !eos && pad_name == "sink"@ ==> cycle_plan(c, pad_name, eos) == PadPlan::TakeVideo,
        eos ==> cycle_plan(c, pad_name, eos) == PadPlan::SkipAtEos,
{
    reveal_strlit("sink");
    reveal_strlit("comm_");
    if "comm_"@.is_prefix_of(pad_name) {
        assert("comm_"@[0] == pad_name.subrange(0, 5)[0]);
        assert(pad_name[0] == 'c');
        assert(pad_name != "sink"@);
    }
}

/// The dynamic aggregator's metadata.
pub fn metadata() -> (m: ElementMetadataSpec)
    ensures
        m.long_name@ == "Dynamic Aggregator"@,
        m.classification@ == "Aggregator"@,
        m.description@ == "Aggregates video and text inputs"@,
        m.author@ == "Genius Sports"@,
{
    ElementMetadataSpec {
        long_name: "Dynamic Aggregator".to_owned(),
        classification: "Aggregator".to_owned(),
        description: "Aggregates video and text inputs".to_owned(),
        author: "Genius Sports".to_owned(),
    }
}

/// The dynamic aggregator's pad templates: request video sink pads named
/// `sink`, request text sink pads named `comm_%u` (both of the element's pad
/// type) and an always-present raw video source pad.
pub fn pad_templates() -> (t: Vec<PadTemplateSpec>)
    ensures
        t@.len() == 3,
        template_has(t@[0], "sink"@, PadDirection::Sink, PadPresence::Request, true),
        is_raw_video_caps(t@[0].caps),
        template_has(t@[1], "comm_%u"@, PadDirection::Sink, PadPresence::Request, true),
        is_utf8_text_caps(t@[1].caps),
        template_has(t@[2], "src"@, PadDirection::Src, PadPresence::Always, false),
        is_raw_video_caps(t@[2].caps),
{
    let video_sink = PadTemplateSpec {
        name_template: "sink".to_owned(),
        direction: PadDirection::Sink,
        presence: PadPresence::Request,
        caps: raw_video_caps(),
        custom_pad_type: true,
    };
    let text_sink = PadTemplateSpec {
        name_template: "comm_%u".to_owned(),
        direction: PadDirection::Sink,
        presence: PadPresence::Request,
        caps: utf8_text_caps(),
        custom_pad_type: true,
    };
    let src = PadTemplateSpec {
        name_template: "src".to_owned(),
        direction: PadDirection::Src,
        presence: PadPresence::Always,
        caps: raw_video_caps(),
        custom_pad_type: false,
    };
    vec![video_sink, text_sink, src]
}

/// The name and rank the dynamic aggregator is registered under.
pub fn registration() -> (r: ElementRegistration)
    ensures
        r.name@ == "dynamic_agg"@,
        r.rank == 0,
{
    ElementRegistration { name: "dynamic_agg".to_owned(), rank: 0 }
}

} // verus!
