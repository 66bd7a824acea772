//! The protocol engine: a state machine over the server-to-client byte
//! stream.
//!
//! Each [`State`] names the next server field the engine waits for and how
//! many bytes it occupies ([`needs`]). Feeding those bytes to [`step`] yields
//! the bytes to write back to the server, the PCM bytes for the audio sink,
//! the diagnostic events to report, and either the next state or a final
//! [`Outcome`]. End of stream is reported through [`eof_outcome`]: it is a
//! clean shutdown exactly when the engine is waiting for a message-type byte,
//! and an I/O failure anywhere else.
//!
//! The whole behaviour is pinned by the spec-level model: [`step_model`]
//! gives the meaning of one transition and [`session_model`] folds it over an
//! entire input sequence. [`run_session`] is the verified driver of the same
//! machine over an in-memory input.

use vstd::prelude::*;
use crate::messages::client_version_message;
use crate::messages::client_version_spec;
use crate::messages::enable_capture_message;
use crate::messages::enable_capture_spec;
use crate::messages::sample_format_message;
use crate::messages::sample_format_spec;
use crate::messages::set_encodings_message;
use crate::messages::set_encodings_spec;
use crate::wire::be16;
use crate::wire::be32;
use crate::wire::read_be16;
use crate::wire::read_be32;

verus! {

/// What the engine waits for next on the server-to-client stream.
#[derive(Clone, Copy, Debug, PartialEq, Eq)]
pub enum State {
    /// The 12-byte server protocol version.
    AwaitVersion,
    /// The 1-byte count of offered security types.
    AwaitSecurityCount,
    /// The list of offered security types, one byte each.
    AwaitSecurityTypes { count: u8 },
    /// The 4-byte big-endian security result.
    AwaitSecurityResult,
    /// The 4-byte big-endian length of the failure reason.
    AwaitReasonLength,
    /// The failure reason bytes.
    AwaitReason { length: u32 },
    /// The fixed ServerInit head: width, height, pixel format, name length.
    AwaitServerInit,
    /// The desktop name bytes.
    AwaitDesktopName { length: u32 },
    /// The 1-byte type tag of the next server message.
    AwaitMessageType,
    /// The framebuffer-update head: padding and rectangle count.
    AwaitUpdateHeader,
    /// The fixed 12-byte headers of that many rectangles.
    AwaitRectangles { count: u16 },
    /// The QEMU audio head: submessage type and operation code.
    AwaitAudioHeader,
    /// The 4-byte big-endian length of an audio data chunk.
    AwaitAudioLength,
    /// The audio data bytes themselves.
    AwaitAudioData { length: u32 },
}

/// A fatal protocol failure.
#[derive(Clone, Debug, PartialEq, Eq)]
pub enum ProtoError {
    /// The server did not offer security type 1 ("None").
    SecurityUnavailable,
    /// The server refused the security handshake; the failure reason bytes
    /// are carried verbatim.
    AuthenticationFailed(Vec<u8>),
    /// A server message carried a type tag other than 0 or 255.
    UnknownMessageType(u8),
    /// A QEMU audio message carried an operation code other than 0, 1 or 2.
    UnknownAudioOperation(u16),
    /// The stream ended or broke in the middle of a protocol field.
    IoFailure,
}

/// How a session ends.
#[derive(Clone, Debug, PartialEq, Eq)]
pub enum Outcome {
    /// The server closed the stream at a message boundary: a graceful end.
    Closed,
    /// A fatal protocol failure.
    Failed(ProtoError),
}

/// What the engine does after one step: wait in a next state, or finish.
#[derive(Clone, Debug, PartialEq, Eq)]
pub enum Flow {
    Continue(State),
    Done(Outcome),
}

/// One entry of the diagnostic event stream.
#[derive(Clone, Debug, PartialEq, Eq)]
pub enum DiagEvent {
    /// The raw 12 bytes of the server protocol version.
    ServerVersion(Vec<u8>),
    /// The raw list of offered security types.
    SecurityTypes(Vec<u8>),
    /// The security type the client selected.
    SecuritySelected(u8),
    /// The server reported a successful security handshake.
    SecurityOk,
    /// The advertised framebuffer width and height.
    FramebufferSize(u16, u16),
    /// The raw desktop name bytes.
    DesktopName(Vec<u8>),
    /// The server started the audio stream.
    AudioStarted,
    /// The server stopped the audio stream.
    AudioStopped,
}

/// The spec-level image of [`ProtoError`].
pub enum ErrorModel {
    SecurityUnavailable,
    AuthenticationFailed(Seq<u8>),
    UnknownMessageType(u8),
    UnknownAudioOperation(u16),
    IoFailure,
}

/// The spec-level image of [`Outcome`].
pub enum OutcomeModel {
    Closed,
    Failed(ErrorModel),
}

/// The spec-level image of [`Flow`].
pub enum FlowModel {
    Continue(State),
    Done(OutcomeModel),
}

/// The spec-level image of [`DiagEvent`].
pub enum EventModel {
    ServerVersion(Seq<u8>),
    SecurityTypes(Seq<u8>),
    SecuritySelected(u8),
    SecurityOk,
    FramebufferSize(u16, u16),
    DesktopName(Seq<u8>),
    AudioStarted,
    AudioStopped,
}

impl View for ProtoError {
    type V = ErrorModel;

    open spec fn view(&self) -> ErrorModel {
        match self {
            ProtoError::SecurityUnavailable => ErrorModel::SecurityUnavailable,
            ProtoError::AuthenticationFailed(reason) => ErrorModel::AuthenticationFailed(reason@),
            ProtoError::UnknownMessageType(tag) => ErrorModel::UnknownMessageType(*tag),
            ProtoError::UnknownAudioOperation(op) => ErrorModel::UnknownAudioOperation(*op),
            ProtoError::IoFailure => ErrorModel::IoFailure,
        }
    }
}

impl View for Outcome {
    type V = OutcomeModel;

    open spec fn view(&self) -> OutcomeModel {
        match self {
            Outcome::Closed => OutcomeModel::Closed,
            Outcome::Failed(e) => OutcomeModel::Failed(e@),
        }
    }
}

impl View for Flow {
    type V = FlowModel;

    open spec fn view(&self) -> FlowModel {
        match self {
            Flow::Continue(s) => FlowModel::Continue(*s),
            Flow::Done(o) => FlowModel::Done(o@),
        }
    }
}

impl View for DiagEvent {
    type V = EventModel;

    open spec fn view(&self) -> EventModel {
        match self {
            DiagEvent::ServerVersion(v) => EventModel::ServerVersion(v@),
            DiagEvent::SecurityTypes(v) => EventModel::SecurityTypes(v@),
            DiagEvent::SecuritySelected(t) => EventModel::SecuritySelected(*t),
            DiagEvent::SecurityOk => EventModel::SecurityOk,
            DiagEvent::FramebufferSize(w, h) => EventModel::FramebufferSize(*w, *h),
            DiagEvent::DesktopName(v) => EventModel::DesktopName(v@),
            DiagEvent::AudioStarted => EventModel::AudioStarted,
            DiagEvent::AudioStopped => EventModel::AudioStopped,
        }
    }
}

/// The spec-level image of a sequence of diagnostic events.
pub open spec fn events_view(events: Seq<DiagEvent>) -> Seq<EventModel> {
    events.map_values(|e: DiagEvent| e@)
}

/// Everything one step of the engine produces.
pub struct StepOutput {
    /// Bytes to write to the server, in order.
    pub writes: Vec<u8>,
    /// PCM bytes to write to the audio sink and flush.
    pub audio: Vec<u8>,
    /// Diagnostic events to report, in order.
    pub events: Vec<DiagEvent>,
    /// The next state, or the final outcome.
    pub next: Flow,
}

/// The spec-level image of [`StepOutput`].
#[verifier::ext_equal]
pub struct StepModel {
    pub writes: Seq<u8>,
    pub audio: Seq<u8>,
    pub events: Seq<EventModel>,
    pub next: FlowModel,
}

impl View for StepOutput {
    type V = StepModel;

    open spec fn view(&self) -> StepModel {
        StepModel {
            writes: self.writes@,
            audio: self.audio@,
            events: events_view(self.events@),
            next: self.next@,
        }
    }
}

/// How many bytes of server input the engine waits for in a state.
pub open spec fn needs(s: State) -> int {
    match s {
        State::AwaitVersion => 12,
        State::AwaitSecurityCount => 1,
        State::AwaitSecurityTypes { count } => count as int,
        State::AwaitSecurityResult => 4,
        State::AwaitReasonLength => 4,
        State::AwaitReason { length } => length as int,
        State::AwaitServerInit => 24,
        State::AwaitDesktopName { length } => length as int,
        State::AwaitMessageType => 1,
        State::AwaitUpdateHeader => 3,
        State::AwaitRectangles { count } => count as int * 12,
        State::AwaitAudioHeader => 3,
        State::AwaitAudioLength => 4,
        State::AwaitAudioData { length } => length as int,
    }
}

/// The state a session starts in.
pub open spec fn init_state() -> State {
    State::AwaitVersion
}

/// How an end of stream is interpreted: graceful at a message boundary,
/// an I/O failure inside any protocol field.
pub open spec fn eof_model(s: State) -> OutcomeModel {
    if s is AwaitMessageType {
        OutcomeModel::Closed
    } else {
        OutcomeModel::Failed(ErrorModel::IoFailure)
    }
}

/// The meaning of one engine step: given the state and exactly the bytes it
/// waits for, the bytes written back, the audio output, the diagnostic
/// events, and what comes next.
pub open spec fn step_model(s: State, data: Seq<u8>) -> StepModel
    recommends
        data.len() == needs(s),
{
    match s {
        State::AwaitVersion => StepModel {
            writes: client_version_spec(),
            audio: Seq::empty(),
            events: seq![EventModel::ServerVersion(data)],
            next: FlowModel::Continue(State::AwaitSecurityCount),
        },
        State::AwaitSecurityCount => StepModel {
            writes: Seq::empty(),
            audio: Seq::empty(),
            events: Seq::empty(),
            next: FlowModel::Continue(State::AwaitSecurityTypes { count: data[0] }),
        },
        State::AwaitSecurityTypes { .. } => if data.contains(1u8) {
            StepModel {
                writes: seq![1u8],
                audio: Seq::empty(),
                events: seq![EventModel::SecurityTypes(data), EventModel::SecuritySelected(1)],
                next: FlowModel::Continue(State::AwaitSecurityResult),
            }
        } else {
            StepModel {
                writes: Seq::empty(),
                audio: Seq::empty(),
                events: seq![EventModel::SecurityTypes(data)],
                next: FlowModel::Done(OutcomeModel::Failed(ErrorModel::SecurityUnavailable)),
            }
        },
        State::AwaitSecurityResult => if data[0] == 0 && data[1] == 0 && data[2] == 0 && data[3]
            == 0 {
            StepModel {
                writes: seq![1u8],
                audio: Seq::empty(),
                events: seq![EventModel::SecurityOk],
                next: FlowModel::Continue(State::AwaitServerInit),
            }
        } else {
            StepModel {
                writes: Seq::empty(),
                audio: Seq::empty(),
                events: Seq::empty(),
                next: FlowModel::Continue(State::AwaitReasonLength),
            }
        },
        State::AwaitReasonLength => StepModel {
            writes: Seq::empty(),
            audio: Seq::empty(),
            events: Seq::empty(),
            next: FlowModel::Continue(
                State::AwaitReason { length: be32(data[0], data[1], data[2], data[3]) },
            ),
        },
        State::AwaitReason { .. } => StepModel {
            writes: Seq::empty(),
            audio: Seq::empty(),
            events: Seq::empty(),
            next: FlowModel::Done(OutcomeModel::Failed(ErrorModel::AuthenticationFailed(data))),
        },
        State::AwaitServerInit => StepModel {
            writes: Seq::empty(),
            audio: Seq::empty(),
            events: seq![
                EventModel::FramebufferSize(be16(data[0], data[1]), be16(data[2], data[3])),
            ],
            next: FlowModel::Continue(
                State::AwaitDesktopName { length: be32(data[20], data[21], data[22], data[23]) },
            ),
        },
        State::AwaitDesktopName { .. } => StepModel {
            writes: set_encodings_spec() + sample_format_spec(3, 2, 48000) + enable_capture_spec(),
            audio: Seq::empty(),
            events: seq![EventModel::DesktopName(data)],
            next: FlowModel::Continue(State::AwaitMessageType),
        },
        State::AwaitMessageType => if data[0] == 0 {
            StepModel {
                writes: Seq::empty(),
                audio: Seq::empty(),
                events: Seq::empty(),
                next: FlowModel::Continue(State::AwaitUpdateHeader),
            }
        } else if data[0] == 255 {
            StepModel {
                writes: Seq::empty(),
                audio: Seq::empty(),
                events: Seq::empty(),
                next: FlowModel::Continue(State::AwaitAudioHeader),
            }
        } else {
            StepModel {
                writes: Seq::empty(),
                audio: Seq::empty(),
                events: Seq::empty(),
                next: FlowModel::Done(
                    OutcomeModel::Failed(ErrorModel::UnknownMessageType(data[0])),
                ),
            }
        },
        State::AwaitUpdateHeader => StepModel {
            writes: Seq::empty(),
            audio: Seq::empty(),
            events: Seq::empty(),
            next: FlowModel::Continue(State::AwaitRectangles { count: be16(data[1], data[2]) }),
        },
        State::AwaitRectangles { .. } => StepModel {
            writes: Seq::empty(),
            audio: Seq::empty(),
            events: Seq::empty(),
            next: FlowModel::Continue(State::AwaitMessageType),
        },
        State::AwaitAudioHeader => if be16(data[1], data[2]) == 0 {
            StepModel {
                writes: Seq::empty(),
                audio: Seq::empty(),
                events: seq![EventModel::AudioStopped],
                next: FlowModel::Continue(State::AwaitMessageType),
            }
        } else if be16(data[1], data[2]) == 1 {
            StepModel {
                writes: Seq::empty(),
                audio: Seq::empty(),
                events: seq![EventModel::AudioStarted],
                next: FlowModel::Continue(State::AwaitMessageType),
            }
        } else if be16(data[1], data[2]) == 2 {
            StepModel {
                writes: Seq::empty(),
                audio: Seq::empty(),
                events: Seq::empty(),
                next: FlowModel::Continue(State::AwaitAudioLength),
            }
        } else {
            StepModel {
                writes: Seq::empty(),
                audio: Seq::empty(),
                events: Seq::empty(),
                next: FlowModel::Done(
                    OutcomeModel::Failed(
                        ErrorModel::UnknownAudioOperation(be16(data[1], data[2])),
                    ),
                ),
            }
        },
        State::AwaitAudioLength => StepModel {
            writes: Seq::empty(),
            audio: Seq::empty(),
            events: Seq::empty(),
            next: FlowModel::Continue(
                State::AwaitAudioData { length: be32(data[0], data[1], data[2], data[3]) },
            ),
        },
        State::AwaitAudioData { .. } => StepModel {
            writes: Seq::empty(),
            audio: data,
            events: Seq::empty(),
            next: FlowModel::Continue(State::AwaitMessageType),
        },
    }
}

/// Orders the states so that the zero-byte transitions, which all lead to
/// waiting for a message type, still shrink a measure.
pub open spec fn rank(s: State) -> int {
    if s is AwaitMessageType {
        0
    } else {
        1
    }
}

/// Everything a whole session over a given server input produces.
#[verifier::ext_equal]
pub struct SessionModel {
    /// Every byte the client writes, in order.
    pub writes: Seq<u8>,
    /// Every PCM byte handed to the audio sink, in order.
    pub audio: Seq<u8>,
    /// Every diagnostic event, in order.
    pub events: Seq<EventModel>,
    /// How many input bytes the engine consumed.
    pub consumed: int,
    /// How the session ended.
    pub outcome: OutcomeModel,
}

/// The meaning of a whole session: fold [`step_model`] over the input from a
/// given state until the engine finishes or the input runs out.
pub open spec fn session_model(s: State, input: Seq<u8>) -> SessionModel
    decreases input.len(), rank(s),
{
    let n = needs(s);
    if input.len() < n {
        SessionModel {
            writes: Seq::empty(),
            audio: Seq::empty(),
            events: Seq::empty(),
            consumed: input.len() as int,
            outcome: eof_model(s),
        }
    } else {
        let m = step_model(s, input.take(n));
        match m.next {
            FlowModel::Done(o) => SessionModel {
                writes: m.writes,
                audio: m.audio,
                events: m.events,
                consumed: n,
                outcome: o,
            },
            FlowModel::Continue(s2) => {
                let rest = session_model(s2, input.skip(n));
                SessionModel {
                    writes: m.writes + rest.writes,
                    audio: m.audio + rest.audio,
                    events: m.events + rest.events,
                    consumed: n + rest.consumed,
                    outcome: rest.outcome,
                }
            },
        }
    }
}

impl State {
    /// How many bytes the caller must read before the next [`step`].
    pub fn needed(&self) -> (n: usize)
        ensures
            n as int == needs(*self),
    {
        match self {
            State::AwaitVersion => 12,
            State::AwaitSecurityCount => 1,
            State::AwaitSecurityTypes { count } => *count as usize,
            State::AwaitSecurityResult => 4,
            State::AwaitReasonLength => 4,
            State::AwaitReason { length } => *length as usize,
            State::AwaitServerInit => 24,
            State::AwaitDesktopName { length } => *length as usize,
            State::AwaitMessageType => 1,
            State::AwaitUpdateHeader => 3,
            State::AwaitRectangles { count } => (*count as usize) * 12,
            State::AwaitAudioHeader => 3,
            State::AwaitAudioLength => 4,
            State::AwaitAudioData { length } => *length as usize,
        }
    }
}

/// The state a session starts in.
pub fn initial_state() -> (s: State)
    ensures
        s == init_state(),
{
    State::AwaitVersion
}

/// How the session ends when the stream is closed before the bytes the
/// current state waits for could be read.
pub fn eof_outcome(s: &State) -> (o: Outcome)
    ensures
        o@ == eof_model(*s),
{
    match s {
        State::AwaitMessageType => Outcome::Closed,
        _ => Outcome::Failed(ProtoError::IoFailure),
    }
}

/// Whether the offered security-type list contains type 1 ("None").
fn contains_type_one(data: &Vec<u8>) -> (r: bool)
    ensures
        r == data@.contains(1u8),
{
    let mut i: usize = 0;
    while i < data.len()
        invariant
            i <= data@.len(),
            forall|k: int| 0 <= k < i ==> data@[k] != 1u8,
        decreases data@.len() - i,
    {
        if data[i] == 1 {
            proof {
                assert(data@[i as int] == 1u8);
            }
            return true;
        }
        i = i + 1;
    }
    false
}

/// One transition of the engine: takes the current state and exactly the
/// bytes that state waits for, and returns the writes, audio output,
/// diagnostic events and what comes next, exactly as [`step_model`] says.
pub fn step(s: State, data: Vec<u8>) -> (out: StepOutput)
    requires
        data@.len() == needs(s),
    ensures
        out@ == step_model(s, data@),
{
    let ghost dv: Seq<u8> = data@;
    match s {
        State::AwaitVersion => {
            let writes = client_version_message();
            let mut events: Vec<DiagEvent> = Vec::new();
            events.push(DiagEvent::ServerVersion(data));
            let out = StepOutput {
                writes,
                audio: Vec::new(),
                events,
                next: Flow::Continue(State::AwaitSecurityCount),
            };
            proof {
                assert(out@ =~= step_model(s, dv));
            }
            out
        },
        State::AwaitSecurityCount => {
            let count = data[0];
            let out = StepOutput {
                writes: Vec::new(),
                audio: Vec::new(),
                events: Vec::new(),
                next: Flow::Continue(State::AwaitSecurityTypes { count }),
            };
            proof {
                assert(out@ =~= step_model(s, dv));
            }
            out
        },
        State::AwaitSecurityTypes { .. } => {
            if contains_type_one(&data) {
                let mut writes: Vec<u8> = Vec::new();
                writes.push(1);
                let mut events: Vec<DiagEvent> = Vec::new();
                events.push(DiagEvent::SecurityTypes(data));
                events.push(DiagEvent::SecuritySelected(1));
                let out = StepOutput {
                    writes,
                    audio: Vec::new(),
                    events,
                    next: Flow::Continue(State::AwaitSecurityResult),
                };
                proof {
                    assert(out@ =~= step_model(s, dv));
                }
                out
            } else {
                let mut events: Vec<DiagEvent> = Vec::new();
                events.push(DiagEvent::SecurityTypes(data));
                let out = StepOutput {
                    writes: Vec::new(),
                    audio: Vec::new(),
                    events,
                    next: Flow::Done(Outcome::Failed(ProtoError::SecurityUnavailable)),
                };
                proof {
                    assert(out@ =~= step_model(s, dv));
                }
                out
            }
        },
        State::AwaitSecurityResult => {
            if data[0] == 0 && data[1] == 0 && data[2] == 0 && data[3] == 0 {
                let mut writes: Vec<u8> = Vec::new();
                writes.push(1);
                let mut events: Vec<DiagEvent> = Vec::new();
                events.push(DiagEvent::SecurityOk);
                let out = StepOutput {
                    writes,
                    audio: Vec::new(),
                    events,
                    next: Flow::Continue(State::AwaitServerInit),
                };
                proof {
                    assert(out@ =~= step_model(s, dv));
                }
                out
            } else {
                let out = StepOutput {
                    writes: Vec::new(),
                    audio: Vec::new(),
                    events: Vec::new(),
                    next: Flow::Continue(State::AwaitReasonLength),
                };
                proof {
                    assert(out@ =~= step_model(s, dv));
                }
                out
            }
        },
        State::AwaitReasonLength => {
            let length = read_be32(data[0], data[1], data[2], data[3]);
            let out = StepOutput {
                writes: Vec::new(),
                audio: Vec::new(),
                events: Vec::new(),
                next: Flow::Continue(State::AwaitReason { length }),
            };
            proof {
                assert(out@ =~= step_model(s, dv));
            }
            out
        },
        State::AwaitReason { .. } => {
            let out = StepOutput {
                writes: Vec::new(),
                audio: Vec::new(),
                events: Vec::new(),
                next: Flow::Done(Outcome::Failed(ProtoError::AuthenticationFailed(data))),
            };
            proof {
                assert(out@ =~= step_model(s, dv));
            }
            out
        },
        State::AwaitServerInit => {
            let width = read_be16(data[0], data[1]);
            let height = read_be16(data[2], data[3]);
            let length = read_be32(data[20], data[21], data[22], data[23]);
            let mut events: Vec<DiagEvent> = Vec::new();
            events.push(DiagEvent::FramebufferSize(width, height));
            let out = StepOutput {
                writes: Vec::new(),
                audio: Vec::new(),
                events,
                next: Flow::Continue(State::AwaitDesktopName { length }),
            };
            proof {
                assert(out@ =~= step_model(s, dv));
            }
            out
        },
        State::AwaitDesktopName { .. } => {
            let mut writes = set_encodings_message();
            let mut format_msg = sample_format_message(3, 2, 48000);
            writes.append(&mut format_msg);
            let mut capture_msg = enable_capture_message();
            writes.append(&mut capture_msg);
            let mut events: Vec<DiagEvent> = Vec::new();
            events.push(DiagEvent::DesktopName(data));
            let out = StepOutput {
                writes,
                audio: Vec::new(),
                events,
                next: Flow::Continue(State::AwaitMessageType),
            };
            proof {
                assert(out@ =~= step_model(s, dv));
            }
            out
        },
        State::AwaitMessageType => {
            let tag = data[0];
            let next = if tag == 0 {
                Flow::Continue(State::AwaitUpdateHeader)
            } else if tag == 255 {
                Flow::Continue(State::AwaitAudioHeader)
            } else {
                Flow::Done(Outcome::Failed(ProtoError::UnknownMessageType(tag)))
            };
            let out = StepOutput { writes: Vec::new(), audio: Vec::new(), events: Vec::new(), next };
            proof {
                assert(out@ =~= step_model(s, dv));
            }
            out
        },
        State::AwaitUpdateHeader => {
            let count = read_be16(data[1], data[2]);
            let out = StepOutput {
                writes: Vec::new(),
                audio: Vec::new(),
                events: Vec::new(),
                next: Flow::Continue(State::AwaitRectangles { count }),
            };
            proof {
                assert(out@ =~= step_model(s, dv));
            }
            out
        },
        State::AwaitRectangles { .. } => {
            let out = StepOutput {
                writes: Vec::new(),
                audio: Vec::new(),
                events: Vec::new(),
                next: Flow::Continue(State::AwaitMessageType),
            };
            proof {
                assert(out@ =~= step_model(s, dv));
            }
            out
        },
        State::AwaitAudioHeader => {
            let op = read_be16(data[1], data[2]);
            let mut events: Vec<DiagEvent> = Vec::new();
            let next = if op == 0 {
                events.push(DiagEvent::AudioStopped);
                Flow::Continue(State::AwaitMessageType)
            } else if op == 1 {
                events.push(DiagEvent::AudioStarted);
                Flow::Continue(State::AwaitMessageType)
            } else if op == 2 {
                Flow::Continue(State::AwaitAudioLength)
            } else {
                Flow::Done(Outcome::Failed(ProtoError::UnknownAudioOperation(op)))
            };
            let out = StepOutput { writes: Vec::new(), audio: Vec::new(), events, next };
            proof {
                assert(out@ =~= step_model(s, dv));
            }
            out
        },
        State::AwaitAudioLength => {
            let length = read_be32(data[0], data[1], data[2], data[3]);
            let out = StepOutput {
                writes: Vec::new(),
                audio: Vec::new(),
                events: Vec::new(),
                next: Flow::Continue(State::AwaitAudioData { length }),
            };
            proof {
                assert(out@ =~= step_model(s, dv));
            }
            out
        },
        State::AwaitAudioData { .. } => {
            let out = StepOutput {
                writes: Vec::new(),
                audio: data,
                events: Vec::new(),
                next: Flow::Continue(State::AwaitMessageType),
            };
            proof {
                assert(out@ =~= step_model(s, dv));
            }
            out
        },
    }
}

/// Everything a whole session produced, see [`run_session`].
pub struct SessionResult {
    /// Every byte the client wrote, in order.
    pub writes: Vec<u8>,
    /// Every PCM byte handed to the audio sink, in order.
    pub audio: Vec<u8>,
    /// Every diagnostic event, in order.
    pub events: Vec<DiagEvent>,
    /// How many input bytes the engine consumed.
    pub consumed: usize,
    /// How the session ended.
    pub outcome: Outcome,
}

impl View for SessionResult {
    type V = SessionModel;

    open spec fn view(&self) -> SessionModel {
        SessionModel {
            writes: self.writes@,
            audio: self.audio@,
            events: events_view(self.events@),
            consumed: self.consumed as int,
            outcome: self.outcome@,
        }
    }
}

/// Copies `n` bytes of `input` starting at `pos`.
fn copy_range(input: &Vec<u8>, pos: usize, n: usize) -> (r: Vec<u8>)
    requires
        pos + n <= input@.len(),
    ensures
        r@ == input@.subrange(pos as int, pos as int + n as int),
{
    let total = input.len();
    let mut r: Vec<u8> = Vec::new();
    let mut i: usize = 0;
    while i < n
        invariant
            pos + n <= input@.len(),
            total == input@.len(),
            i <= n,
            r@ == input@.subrange(pos as int, pos as int + i as int),
        decreases n - i,
    {
        r.push(input[pos + i]);
        i = i + 1;
        proof {
            assert(r@ =~= input@.subrange(pos as int, pos as int + i as int));
        }
    }
    r
}

/// Runs a whole session of the engine over an in-memory server input, as if
/// the server had sent exactly these bytes and then closed the stream. The
/// result is exactly what [`session_model`] says for that input.
pub fn run_session(input: &Vec<u8>) -> (r: SessionResult)
    ensures
        r@ == session_model(init_state(), input@),
{
    let mut writes: Vec<u8> = Vec::new();
    let mut audio: Vec<u8> = Vec::new();
    let mut events: Vec<DiagEvent> = Vec::new();
    let mut pos: usize = 0;
    let mut state: State = State::AwaitVersion;
    proof {
        let whole = session_model(init_state(), input@);
        assert(input@.skip(0) =~= input@);
        assert(Seq::<u8>::empty() + whole.writes =~= whole.writes);
        assert(Seq::<u8>::empty() + whole.audio =~= whole.audio);
        assert(events_view(Seq::<DiagEvent>::empty()) + whole.events =~= whole.events);
    }
    loop
        invariant
            pos <= input@.len(),
            ({
                let whole = session_model(init_state(), input@);
                let rest = session_model(state, input@.skip(pos as int));
                &&& whole.writes == writes@ + rest.writes
                &&& whole.audio == audio@ + rest.audio
                &&& whole.events == events_view(events@) + rest.events
                &&& whole.consumed == pos + rest.consumed
                &&& whole.outcome == rest.outcome
            }),
        decreases input@.len() - pos, rank(state),
    {
        let n = state.needed();
        let ghost rem = input@.skip(pos as int);
        if input.len() - pos < n {
            let outcome = eof_outcome(&state);
            proof {
                let whole = session_model(init_state(), input@);
                let rest = session_model(state, rem);
                assert(rem.len() < needs(state));
                assert(whole.writes =~= writes@);
                assert(whole.audio =~= audio@);
                assert(whole.events =~= events_view(events@));
            }
            return SessionResult { writes, audio, events, consumed: input.len(), outcome };
        }
        let chunk = copy_range(input, pos, n);
        proof {
            assert(chunk@ =~= rem.take(needs(state)));
        }
        let ghost prev_state = state;
        let ghost prev_events = events@;
        let mut out = step(state, chunk);
        let ghost m = out@;
        writes.append(&mut out.writes);
        audio.append(&mut out.audio);
        events.append(&mut out.events);
        proof {
            assert(m == step_model(prev_state, rem.take(needs(prev_state))));
            assert(events_view(events@) =~= events_view(prev_events) + m.events);
        }
        match out.next {
            Flow::Continue(next_state) => {
                proof {
                    let whole = session_model(init_state(), input@);
                    let rest = session_model(prev_state, rem);
                    let rest2 = session_model(next_state, rem.skip(needs(prev_state)));
                    assert(rem.skip(needs(prev_state)) =~= input@.skip(pos as int + n as int));
                    assert(whole.writes =~= writes@ + rest2.writes);
                    assert(whole.audio =~= audio@ + rest2.audio);
                    assert(whole.events =~= events_view(events@) + rest2.events);
                }
                state = next_state;
                pos = pos + n;
            },
            Flow::Done(outcome) => {
                proof {
                    let whole = session_model(init_state(), input@);
                    let rest = session_model(prev_state, rem);
                    assert(whole.writes == writes@);
                    assert(whole.audio == audio@);
                    assert(whole.events == events_view(events@));
                }
                return SessionResult { writes, audio, events, consumed: pos + n, outcome };
            },
        }
    }
}

} // verus!
