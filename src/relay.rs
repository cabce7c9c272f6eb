use crate::json::{json_quoted, push_json_string};
use vstd::prelude::*;

verus! {

/// Number of records the relay queue between producer and sink holds.
pub const RELAY_CAPACITY: usize = 32;

/// The delta carried by a content-block event of the upstream stream.
pub enum ContentDelta {
    Text(String),
    /// A delta of another kind (tool use, reasoning, ...): it has no text.
    NonText,
}

/// One unit produced by the upstream generation stream.
pub enum StreamOutput {
    /// An incremental content block, with its delta if the event carries one.
    ContentBlockDelta(Option<ContentDelta>),
    /// Any other stream event (message start/stop, metadata, ...).
    Other,
}

/// What one poll of the upstream stream gave.
pub enum UpstreamEvent {
    Token(StreamOutput),
    /// The upstream signalled the end of the stream.
    End,
    /// Reading the upstream failed.
    ReadError,
}

/// Why the relay stopped with a failure.
#[derive(PartialEq, Eq, Structural, Clone, Copy, Debug)]
pub enum RelayError {
    /// The upstream stream could not be opened.
    StreamOpen,
    /// A content delta held no text.
    DeltaNotText,
    /// Reading the upstream stream failed.
    UpstreamRead,
    /// The sink no longer accepts records.
    ReceiverDropped,
    /// The downstream transport refused a record.
    SinkRejected,
    /// One of the two relay tasks could not be joined.
    TaskJoin,
}

impl RelayError {
    pub fn message(&self) -> (r: String)
        ensures
            r@ == self.message_spec(),
    {
        match self {
            RelayError::StreamOpen => String::from_str("Error in Bedrock response"),
            RelayError::DeltaNotText => String::from_str("Failed to get text from delta"),
            RelayError::UpstreamRead => String::from_str("Error receiving stream"),
            RelayError::ReceiverDropped => String::from_str(
                "Receiver dropped error. Bedrock proccessing stopped.",
            ),
            RelayError::SinkRejected => String::from_str("Failed to post to connection"),
            RelayError::TaskJoin => String::from_str("Task join error"),
        }
    }

    pub open spec fn message_spec(&self) -> Seq<char> {
        match self {
            RelayError::StreamOpen => "Error in Bedrock response"@,
            RelayError::DeltaNotText => "Failed to get text from delta"@,
            RelayError::UpstreamRead => "Error receiving stream"@,
            RelayError::ReceiverDropped => "Receiver dropped error. Bedrock proccessing stopped."@,
            RelayError::SinkRejected => "Failed to post to connection"@,
            RelayError::TaskJoin => "Task join error"@,
        }
    }
}

/// The record forwarded downstream for each upstream unit: `{type, message}`.
pub struct BedrockResponse {
    pub response_type: String,
    pub message: Option<String>,
}

pub struct ResponseView {
    pub response_type: Seq<char>,
    pub message: Option<Seq<char>>,
}

impl View for BedrockResponse {
    type V = ResponseView;

    open spec fn view(&self) -> ResponseView {
        ResponseView {
            response_type: self.response_type@,
            message: match self.message {
                Some(m) => Some(m@),
                None => None,
            },
        }
    }
}

/// The record for one upstream unit, or `None` when a content delta has no text.
pub open spec fn response_of(o: StreamOutput) -> Option<ResponseView> {
    match o {
        StreamOutput::ContentBlockDelta(Some(ContentDelta::Text(t))) => Some(
            ResponseView { response_type: "text"@, message: Some(t@) },
        ),
        StreamOutput::ContentBlockDelta(Some(ContentDelta::NonText)) => None,
        StreamOutput::ContentBlockDelta(None) => Some(
            ResponseView { response_type: "message"@, message: Some(Seq::empty()) },
        ),
        StreamOutput::Other => Some(ResponseView { response_type: "other"@, message: None }),
    }
}

/// The JSON text of a record: `{"type":...,"message":...}`, compact, with
/// `null` for a missing message.
pub open spec fn response_json(r: ResponseView) -> Seq<char> {
    "{\"type\":"@ + json_quoted(r.response_type) + ",\"message\":"@ + match r.message {
        Some(m) => json_quoted(m),
        None => "null"@,
    } + "}"@
}

/// Maps one upstream unit to the record that is forwarded for it.
pub fn get_response(output: StreamOutput) -> (r: Result<BedrockResponse, RelayError>)
    ensures
        match response_of(output) {
            Some(v) => r matches Ok(resp) && resp@ == v,
            None => r == Err::<BedrockResponse, RelayError>(RelayError::DeltaNotText),
        },
{
    match output {
        StreamOutput::ContentBlockDelta(Some(ContentDelta::Text(t))) => Ok(
            BedrockResponse { response_type: String::from_str("text"), message: Some(t) },
        ),
        StreamOutput::ContentBlockDelta(Some(ContentDelta::NonText)) => Err(
            RelayError::DeltaNotText,
        ),
        StreamOutput::ContentBlockDelta(None) => Ok(
            BedrockResponse { response_type: String::from_str("message"), message: Some(String::new()) },
        ),
        StreamOutput::Other => Ok(
            BedrockResponse { response_type: String::from_str("other"), message: None },
        ),
    }
}

impl BedrockResponse {
    /// The record as compact JSON.
    pub fn to_json(&self) -> (r: String)
        ensures
            r@ == response_json(self@),
    {
        let mut out = String::from_str("{\"type\":");
        push_json_string(&mut out, self.response_type.as_str());
        out.append(",\"message\":");
        match &self.message {
            Some(m) => push_json_string(&mut out, m.as_str()),
            None => out.append("null"),
        }
        out.append("}");
        out
    }
}

/// Where the producer side of the relay stands.
#[derive(PartialEq, Eq, Structural, Clone, Copy, Debug)]
pub enum RelayPhase {
    Streaming,
    Completed,
    Failed,
}

/// What the producer does after one upstream poll.
pub enum RelayStep {
    /// Hand this record to the sink.
    Forward(BedrockResponse),
    /// The upstream ended: close the sink side.
    Close,
    /// Stop the relay with this error.
    Abort(RelayError),
}

pub enum StepView {
    Forward(ResponseView),
    Close,
    Abort(RelayError),
}

impl View for RelayStep {
    type V = StepView;

    open spec fn view(&self) -> StepView {
        match self {
            RelayStep::Forward(r) => StepView::Forward(r@),
            RelayStep::Close => StepView::Close,
            RelayStep::Abort(e) => StepView::Abort(*e),
        }
    }
}

/// The producer's state: its phase, the upstream units taken so far, and the
/// records forwarded for them.
pub struct RelayState {
    pub phase: RelayPhase,
    pub received: Seq<StreamOutput>,
    pub forwarded: Seq<ResponseView>,
}

pub open spec fn relay_initial() -> RelayState {
    RelayState { phase: RelayPhase::Streaming, received: Seq::empty(), forwarded: Seq::empty() }
}

/// One producer transition.
pub open spec fn relay_next(s: RelayState, ev: UpstreamEvent) -> (RelayState, StepView) {
    match ev {
        UpstreamEvent::Token(o) => match response_of(o) {
            Some(v) => (
                RelayState {
                    phase: s.phase,
                    received: s.received.push(o),
                    forwarded: s.forwarded.push(v),
                },
                StepView::Forward(v),
            ),
            None => (
                RelayState { phase: RelayPhase::Failed, ..s },
                StepView::Abort(RelayError::DeltaNotText),
            ),
        },
        UpstreamEvent::End => (RelayState { phase: RelayPhase::Completed, ..s }, StepView::Close),
        UpstreamEvent::ReadError => (
            RelayState { phase: RelayPhase::Failed, ..s },
            StepView::Abort(RelayError::UpstreamRead),
        ),
    }
}

/// The producer run over a sequence of upstream polls: the final state and
/// the steps taken; polls after the relay stopped are not taken.
pub open spec fn relay_run(evs: Seq<UpstreamEvent>) -> (RelayState, Seq<StepView>)
    decreases evs.len(),
{
    if evs.len() == 0 {
        (relay_initial(), Seq::empty())
    } else {
        let (s, steps) = relay_run(evs.drop_last());
        if s.phase == RelayPhase::Streaming {
            let (s2, st) = relay_next(s, evs.last());
            (s2, steps.push(st))
        } else {
            (s, steps)
        }
    }
}

/// The producer half of the relay: it takes the upstream polls one at a time
/// and decides what goes downstream.
pub struct TokenRelay {
    phase: RelayPhase,
    received: Ghost<Seq<StreamOutput>>,
    forwarded: Ghost<Seq<ResponseView>>,
}

impl View for TokenRelay {
    type V = RelayState;

    closed spec fn view(&self) -> RelayState {
        RelayState { phase: self.phase, received: self.received@, forwarded: self.forwarded@ }
    }
}

impl TokenRelay {
    pub fn new() -> (r: TokenRelay)
        ensures
            r@ == relay_initial(),
    {
        TokenRelay { phase: RelayPhase::Streaming, received: Ghost(Seq::empty()), forwarded: Ghost(Seq::empty()) }
    }

    pub fn phase(&self) -> (r: RelayPhase)
        ensures
            r == self@.phase,
    {
        self.phase
    }

    /// Takes one upstream poll while the relay is streaming.
    pub fn on_upstream(&mut self, ev: UpstreamEvent) -> (r: RelayStep)
        requires
            old(self)@.phase == RelayPhase::Streaming,
        ensures
            (final(self)@, r@) == relay_next(old(self)@, ev),
    {
        match ev {
            UpstreamEvent::Token(o) => {
                let ghost go = o;
                match get_response(o) {
                    Ok(resp) => {
                        self.received = Ghost(self.received@.push(go));
                        self.forwarded = Ghost(self.forwarded@.push(resp@));
                        RelayStep::Forward(resp)
                    },
                    Err(e) => {
                        self.phase = RelayPhase::Failed;
                        RelayStep::Abort(e)
                    },
                }
            },
            UpstreamEvent::End => {
                self.phase = RelayPhase::Completed;
                RelayStep::Close
            },
            UpstreamEvent::ReadError => {
                self.phase = RelayPhase::Failed;
                RelayStep::Abort(RelayError::UpstreamRead)
            },
        }
    }

    /// The sink refused a forwarded record: the producer stops at once.
    pub fn on_send_rejected(&mut self) -> (r: RelayError)
        ensures
            r == RelayError::ReceiverDropped,
            final(self)@ == (RelayState { phase: RelayPhase::Failed, ..old(self)@ }),
    {
        self.phase = RelayPhase::Failed;
        RelayError::ReceiverDropped
    }
}

/// What the sink does with one message taken from the relay queue.
pub enum SinkStep {
    /// Post this JSON text downstream.
    Post(String),
    /// The queue was closed: the sink is done.
    Done,
}

/// The sink's state: whether its input was closed, and the texts posted.
pub struct SinkState {
    pub closed: bool,
    pub posted: Seq<Seq<char>>,
}

pub open spec fn sink_next(s: SinkState, msg: Option<ResponseView>) -> SinkState {
    match msg {
        Some(r) => SinkState { closed: s.closed, posted: s.posted.push(response_json(r)) },
        None => SinkState { closed: true, posted: s.posted },
    }
}

/// The sink run over the messages it takes from the queue (`None`: closed).
pub open spec fn sink_run(msgs: Seq<Option<ResponseView>>) -> SinkState
    decreases msgs.len(),
{
    if msgs.len() == 0 {
        SinkState { closed: false, posted: Seq::empty() }
    } else {
        let s = sink_run(msgs.drop_last());
        if s.closed {
            s
        } else {
            sink_next(s, msgs.last())
        }
    }
}

/// The consumer half of the relay: it writes each queued record downstream.
pub struct RelaySink {
    closed: bool,
    posted: Ghost<Seq<Seq<char>>>,
}

impl View for RelaySink {
    type V = SinkState;

    closed spec fn view(&self) -> SinkState {
        SinkState { closed: self.closed, posted: self.posted@ }
    }
}

impl RelaySink {
    pub fn new() -> (r: RelaySink)
        ensures
            r@ == (SinkState { closed: false, posted: Seq::empty() }),
    {
        RelaySink { closed: false, posted: Ghost(Seq::empty()) }
    }

    /// Takes one message from the queue while the queue is open.
    pub fn on_message(&mut self, msg: Option<BedrockResponse>) -> (r: SinkStep)
        requires
            !old(self)@.closed,
        ensures
            final(self)@ == sink_next(
                old(self)@,
                match msg {
                    Some(m) => Some(m@),
                    None => None,
                },
            ),
            match msg {
                Some(m) => r matches SinkStep::Post(t) && t@ == response_json(m@),
                None => r is Done,
            },
    {
        match msg {
            Some(m) => {
                let t = m.to_json();
                self.posted = Ghost(self.posted@.push(t@));
                SinkStep::Post(t)
            },
            None => {
                self.closed = true;
                SinkStep::Done
            },
        }
    }
}

/// The result of the whole relay once both tasks are joined: `None` stands
/// for a task that could not be joined. A join failure wins, then the
/// producer's error, then the sink's.
pub fn pipeline_outcome(
    producer: Option<Result<(), RelayError>>,
    sink: Option<Result<(), RelayError>>,
) -> (r: Result<(), RelayError>)
    ensures
        producer is None || sink is None ==> r == Err::<(), RelayError>(RelayError::TaskJoin),
        sink is Some ==> (producer matches Some(Err(e)) ==> r == Err::<(), RelayError>(e)),
        producer == Some(Ok::<(), RelayError>(())) ==> match sink {
            Some(s) => r == s,
            None => r == Err::<(), RelayError>(RelayError::TaskJoin),
        },
{
    match (producer, sink) {
        (Some(p), Some(s)) => match p {
            Err(e) => Err(e),
            Ok(()) => s,
        },
        _ => Err(RelayError::TaskJoin),
    }
}

/// The upstream units among a sequence of polls.
pub open spec fn tokens_of(evs: Seq<UpstreamEvent>) -> Seq<StreamOutput>
    decreases evs.len(),
{
    if evs.len() == 0 {
        Seq::empty()
    } else {
        let t = tokens_of(evs.drop_last());
        match evs.last() {
            UpstreamEvent::Token(o) => t.push(o),
            _ => t,
        }
    }
}

/// The records among a sequence of producer steps, in order.
pub open spec fn forwarded_of(steps: Seq<StepView>) -> Seq<ResponseView>
    decreases steps.len(),
{
    if steps.len() == 0 {
        Seq::empty()
    } else {
        let f = forwarded_of(steps.drop_last());
        match steps.last() {
            StepView::Forward(r) => f.push(r),
            _ => f,
        }
    }
}

/// What the sink takes from the relay queue while it is open. The queue is
/// first-in first-out, so these are the forwarded records, in order.
pub open spec fn queued(rs: Seq<ResponseView>) -> Seq<Option<ResponseView>> {
    rs.map_values(|r: ResponseView| Some(r))
}

/// The producer's state after a run, in terms of the polls it was given.
pub open spec fn run_shape(evs: Seq<UpstreamEvent>) -> bool {
    let (s, steps) = relay_run(evs);
    let toks = tokens_of(evs);
    &&& forwarded_of(steps) == s.forwarded
    &&& s.forwarded.len() == s.received.len()
    &&& s.received.len() <= toks.len()
    &&& s.phase == RelayPhase::Streaming ==> s.received.len() == toks.len()
    &&& forall|i: int|
        0 <= i < s.received.len() ==> #[trigger] s.received[i] == toks[i] && response_of(
            s.received[i],
        ) == Some(s.forwarded[i])
}

proof fn lemma_run_shape(evs: Seq<UpstreamEvent>)
    ensures
        run_shape(evs),
    decreases evs.len(),
{
    if evs.len() > 0 {
        let pre = evs.drop_last();
        lemma_run_shape(pre);
        let (s0, steps0) = relay_run(pre);
        let toks0 = tokens_of(pre);
        let toks = tokens_of(evs);
        let (s, steps) = relay_run(evs);
        match evs.last() {
            UpstreamEvent::Token(o) => {
                assert(toks == toks0.push(o));
            },
            _ => {
                assert(toks == toks0);
            },
        }
        assert forall|i: int| 0 <= i < toks0.len() implies toks[i] == toks0[i] by {}
        if s0.phase == RelayPhase::Streaming {
            let (s1, st) = relay_next(s0, evs.last());
            assert(steps0.push(st).drop_last() =~= steps0);
            assert(s == s1 && steps == steps0.push(st));
            match evs.last() {
                UpstreamEvent::Token(o) => {
                    if response_of(o) is Some {
                        assert(s1.received == s0.received.push(o));
                        assert(s1.forwarded == s0.forwarded.push(response_of(o)->0));
                        assert forall|i: int| 0 <= i < s1.received.len() implies #[trigger] s1.received[i]
                            == toks[i] && response_of(s1.received[i]) == Some(s1.forwarded[i]) by {
                            if i < s0.received.len() {
                                assert(s1.received[i] == s0.received[i]);
                                assert(s1.forwarded[i] == s0.forwarded[i]);
                            }
                        }
                    }
                },
                _ => {},
            }
        } else {
            assert(s == s0 && steps == steps0);
        }
    }
}

proof fn lemma_sink_posts(rs: Seq<ResponseView>)
    ensures
        sink_run(queued(rs)) == (SinkState {
            closed: false,
            posted: rs.map_values(|r: ResponseView| response_json(r)),
        }),
    decreases rs.len(),
{
    if rs.len() > 0 {
        lemma_sink_posts(rs.drop_last());
        assert(queued(rs).drop_last() =~= queued(rs.drop_last()));
        assert(rs.map_values(|r: ResponseView| response_json(r)) =~= rs.drop_last().map_values(
            |r: ResponseView| response_json(r),
        ).push(response_json(rs.last())));
    } else {
        assert(queued(rs) =~= Seq::empty());
        assert(rs.map_values(|r: ResponseView| response_json(r)) =~= Seq::empty());
    }
}

/// Order: whatever the upstream polls, the texts posted downstream are those
/// of the upstream units, one for each, in the order the units were produced.
pub proof fn lemma_relay_keeps_order(evs: Seq<UpstreamEvent>)
    ensures
        ({
            let (s, steps) = relay_run(evs);
            let toks = tokens_of(evs);
            let down = sink_run(queued(forwarded_of(steps))).posted;
            &&& down.len() <= toks.len()
            &&& forall|i: int|
                0 <= i < down.len() ==> response_of(#[trigger] toks[i]) is Some && down[i]
                    == response_json(response_of(toks[i])->0)
        }),
{
    lemma_run_shape(evs);
    let (s, steps) = relay_run(evs);
    lemma_sink_posts(forwarded_of(steps));
    assert(run_shape(evs));
    let toks = tokens_of(evs);
    let down = sink_run(queued(forwarded_of(steps))).posted;
    assert forall|i: int| 0 <= i < down.len() implies response_of(#[trigger] toks[i]) is Some && down[i]
        == response_json(response_of(toks[i])->0) by {
        assert(s.received[i] == toks[i]);
        assert(response_of(s.received[i]) == Some(s.forwarded[i]));
    }
}

proof fn lemma_run_tokens(toks: Seq<StreamOutput>)
    requires
        forall|i: int| 0 <= i < toks.len() ==> response_of(toks[i]) is Some,
    ensures
        ({
            let (s, steps) = relay_run(toks.map_values(|o: StreamOutput| UpstreamEvent::Token(o)));
            &&& s.phase == RelayPhase::Streaming
            &&& s.forwarded.len() == toks.len()
            &&& forall|i: int| 0 <= i < toks.len() ==> s.forwarded[i] == response_of(toks[i])->0
            &&& steps.len() == toks.len()
            &&& forall|i: int|
                0 <= i < toks.len() ==> steps[i] == StepView::Forward(response_of(toks[i])->0)
        }),
    decreases toks.len(),
{
    let evs = toks.map_values(|o: StreamOutput| UpstreamEvent::Token(o));
    if toks.len() > 0 {
        let pre = toks.drop_last();
        assert(evs.drop_last() =~= pre.map_values(|o: StreamOutput| UpstreamEvent::Token(o)));
        lemma_run_tokens(pre);
        assert(response_of(toks[toks.len() - 1]) is Some);
    } else {
        assert(evs =~= Seq::empty());
    }
}

/// Completion: when the upstream yields `n` units and then ends, the producer
/// forwards exactly `n` records and closes, and the sink posts exactly `n`
/// texts and then sees the queue closed.
pub proof fn lemma_relay_delivers_all(toks: Seq<StreamOutput>)
    requires
        forall|i: int| 0 <= i < toks.len() ==> response_of(toks[i]) is Some,
    ensures
        ({
            let evs = toks.map_values(|o: StreamOutput| UpstreamEvent::Token(o)).push(
                UpstreamEvent::End,
            );
            let (s, steps) = relay_run(evs);
            let sink = sink_run(queued(forwarded_of(steps)).push(None));
            &&& s.phase == RelayPhase::Completed
            &&& steps.len() == toks.len() + 1
            &&& steps.last() == StepView::Close
            &&& forall|i: int|
                0 <= i < toks.len() ==> steps[i] == StepView::Forward(response_of(toks[i])->0)
            &&& sink.closed
            &&& sink.posted.len() == toks.len()
            &&& forall|i: int|
                0 <= i < toks.len() ==> sink.posted[i] == response_json(response_of(toks[i])->0)
        }),
{
    let evs0 = toks.map_values(|o: StreamOutput| UpstreamEvent::Token(o));
    let evs = evs0.push(UpstreamEvent::End);
    assert(evs.drop_last() =~= evs0);
    lemma_run_tokens(toks);
    lemma_run_shape(evs);
    let (s, steps) = relay_run(evs);
    let f = forwarded_of(steps);
    lemma_sink_posts(f);
    assert(queued(f).push(None).drop_last() =~= queued(f));
}

} // verus!
