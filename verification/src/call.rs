//! One call of the `IsTerminal` entry, as a machine that alternates between
//! decisions (made here) and work on the host and the operating system (done
//! by the caller). Each `step` takes the current phase and what the last piece
//! of outside work came back with, and yields the next phase and the next piece
//! of work. A call starts in `CallPhase::Start` with a `CallEvent::Begin` and
//! ends when the phase is `CallPhase::Finished`.

use vstd::prelude::*;
use vstd::string::*;
use crate::err::{IS_TERMINAL_BUILD_VALUE, IS_TERMINAL_INVALID_STREAM};
use crate::status::AddonStatus;
use crate::stream::{parse_stream_kind, spec_parse_stream_kind, spec_stream_fd, stream_fd};

verus! {

/// Where a call of the entry stands.
#[derive(Debug, Clone, Copy, PartialEq, Eq, Structural)]
pub enum CallPhase {
    /// Nothing has been looked at yet.
    Start,
    /// Waiting for the host value builder to be made from the host handle.
    AwaitBuilder,
    /// Waiting for the single argument to be borrowed and read as text.
    AwaitArgument,
    /// Waiting for the terminal probe of the chosen stream's descriptor.
    AwaitProbe,
    /// Waiting for the Bool result to be built on the host.
    AwaitBool,
    /// The call is over with this status.
    Finished(AddonStatus),
}

/// What borrowing the single argument and reading it as text came back with.
#[derive(Debug, Clone)]
pub enum ArgumentRead {
    /// The argument could not be borrowed.
    Missing,
    /// The argument was borrowed but is not a string.
    NotText,
    /// The argument is this string.
    Text(String),
}

/// What a piece of outside work came back with.
#[derive(Debug)]
pub enum CallEvent {
    /// The call was entered with `args_len` arguments; `host_is_null` tells
    /// whether the host handle is a null pointer.
    Begin { args_len: u32, host_is_null: bool },
    /// Whether the host value builder could be made.
    BuilderMade { made: bool },
    /// The outcome of reading the argument.
    Argument(ArgumentRead),
    /// The return value of the terminal probe (`isatty`) on the descriptor.
    Probed { isatty_result: i32 },
    /// Whether the Bool result could be built (the host returned a non-null value).
    BoolBuilt { built: bool },
}

/// The next piece of work for the caller.
#[derive(Debug)]
pub enum CallAction {
    /// Make the host value builder from the host handle.
    MakeBuilder,
    /// Borrow argument 0 and read it as text.
    ReadArgument,
    /// Ask the operating system whether descriptor `fd` is a terminal.
    Probe { fd: i32 },
    /// Build a Bool holding `value` on the host.
    BuildBool { value: bool },
    /// Build an error value with this code and message on the host, and hand
    /// it to the caller's error slot when there is one.
    ReportError { code: u32, message: String },
    /// Hand the built Bool to the caller's value slot when there is one.
    StoreValue,
    /// Nothing more to do.
    Stop,
}

/// The message of the invalid-stream error for an argument `name`.
pub open spec fn invalid_stream_message(name: Seq<char>) -> Seq<char> {
    "IsTerminalInvalidStream: expected stdin|stdout|stderr, got "@ + name
}

/// The message of the error raised when the Bool cannot be built.
pub open spec fn build_value_message() -> Seq<char> {
    "IsTerminalBuildValue: failed to allocate Bool return value"@
}

/// Whether `event` is the kind of outcome that `phase` waits for.
pub open spec fn answers(phase: CallPhase, event: CallEvent) -> bool {
    match (phase, event) {
        (CallPhase::Start, CallEvent::Begin { .. }) => true,
        (CallPhase::AwaitBuilder, CallEvent::BuilderMade { .. }) => true,
        (CallPhase::AwaitArgument, CallEvent::Argument(_)) => true,
        (CallPhase::AwaitProbe, CallEvent::Probed { .. }) => true,
        (CallPhase::AwaitBool, CallEvent::BoolBuilt { .. }) => true,
        _ => false,
    }
}

/// How many steps a phase is at most away from the end of the call.
pub open spec fn steps_left(phase: CallPhase) -> nat {
    match phase {
        CallPhase::Start => 5,
        CallPhase::AwaitBuilder => 4,
        CallPhase::AwaitArgument => 3,
        CallPhase::AwaitProbe => 2,
        CallPhase::AwaitBool => 1,
        CallPhase::Finished(_) => 0,
    }
}

/// The phase that follows `phase` once `event` has come back.
pub open spec fn next_phase(phase: CallPhase, event: CallEvent) -> CallPhase {
    match event {
        CallEvent::Begin { args_len, host_is_null } => if args_len != 1 {
            CallPhase::Finished(AddonStatus::ArityMismatch)
        } else if host_is_null {
            CallPhase::Finished(AddonStatus::InvalidState)
        } else {
            CallPhase::AwaitBuilder
        },
        CallEvent::BuilderMade { made } => if made {
            CallPhase::AwaitArgument
        } else {
            CallPhase::Finished(AddonStatus::InvalidState)
        },
        CallEvent::Argument(arg) => match arg {
            ArgumentRead::Missing => CallPhase::Finished(AddonStatus::NullPointer),
            ArgumentRead::NotText => CallPhase::Finished(AddonStatus::UnsupportedValue),
            ArgumentRead::Text(name) => match spec_parse_stream_kind(name@) {
                Some(_) => CallPhase::AwaitProbe,
                None => CallPhase::Finished(AddonStatus::Error),
            },
        },
        CallEvent::Probed { .. } => CallPhase::AwaitBool,
        CallEvent::BoolBuilt { built } => if built {
            CallPhase::Finished(AddonStatus::Success)
        } else {
            CallPhase::Finished(AddonStatus::Error)
        },
    }
}

/// Whether `action` is the work that follows `event`.
pub open spec fn expected_action(event: CallEvent, action: CallAction) -> bool {
    match event {
        CallEvent::Begin { args_len, host_is_null } => if args_len != 1 || host_is_null {
            action is Stop
        } else {
            action is MakeBuilder
        },
        CallEvent::BuilderMade { made } => if made {
            action is ReadArgument
        } else {
            action is Stop
        },
        CallEvent::Argument(arg) => match arg {
            ArgumentRead::Missing => action is Stop,
            ArgumentRead::NotText => action is Stop,
            ArgumentRead::Text(name) => match spec_parse_stream_kind(name@) {
                Some(stream) => action == CallAction::Probe { fd: spec_stream_fd(stream) as i32 },
                None => match action {
                    CallAction::ReportError { code, message } => code == IS_TERMINAL_INVALID_STREAM
                        && message@ == invalid_stream_message(name@),
                    _ => false,
                },
            },
        },
        CallEvent::Probed { isatty_result } => action == CallAction::BuildBool {
            value: isatty_result == 1,
        },
        CallEvent::BoolBuilt { built } => if built {
            action is StoreValue
        } else {
            match action {
                CallAction::ReportError { code, message } => code == IS_TERMINAL_BUILD_VALUE
                    && message@ == build_value_message(),
                _ => false,
            }
        },
    }
}

/// Decides what follows `event` in `phase`: the next phase and the next piece
/// of work. Every step brings the call closer to its end.
pub fn step(phase: &CallPhase, event: CallEvent) -> (res: (CallPhase, CallAction))
    requires
        answers(*phase, event),
    ensures
        res.0 == next_phase(*phase, event),
        expected_action(event, res.1),
        steps_left(res.0) < steps_left(*phase),
        (argument_text(event) == Some(seq!['s', 't', 'd', 'i', 'n'])) ==> (res.1 is Probe
            && res.1->fd == 0),
        (argument_text(event) == Some(seq!['s', 't', 'd', 'o', 'u', 't'])) ==> (res.1 is Probe
            && res.1->fd == 1),
        (argument_text(event) == Some(seq!['s', 't', 'd', 'e', 'r', 'r'])) ==> (res.1 is Probe
            && res.1->fd == 2),
{
    match event {
        CallEvent::Begin { args_len, host_is_null } => {
            if args_len != 1 {
                (CallPhase::Finished(AddonStatus::ArityMismatch), CallAction::Stop)
            } else if host_is_null {
                (CallPhase::Finished(AddonStatus::InvalidState), CallAction::Stop)
            } else {
                (CallPhase::AwaitBuilder, CallAction::MakeBuilder)
            }
        },
        CallEvent::BuilderMade { made } => {
            if made {
                (CallPhase::AwaitArgument, CallAction::ReadArgument)
            } else {
                (CallPhase::Finished(AddonStatus::InvalidState), CallAction::Stop)
            }
        },
        CallEvent::Argument(arg) => match arg {
            ArgumentRead::Missing => (
                CallPhase::Finished(AddonStatus::NullPointer),
                CallAction::Stop,
            ),
            ArgumentRead::NotText => (
                CallPhase::Finished(AddonStatus::UnsupportedValue),
                CallAction::Stop,
            ),
            ArgumentRead::Text(name) => match parse_stream_kind(name.as_str()) {
                Some(stream) => (CallPhase::AwaitProbe, CallAction::Probe { fd: stream_fd(stream) }),
                None => {
                    let mut message = String::from_str(
                        "IsTerminalInvalidStream: expected stdin|stdout|stderr, got ",
                    );
                    message.append(name.as_str());
                    (
                        CallPhase::Finished(AddonStatus::Error),
                        CallAction::ReportError { code: IS_TERMINAL_INVALID_STREAM, message },
                    )
                },
            },
        },
        CallEvent::Probed { isatty_result } => (
            CallPhase::AwaitBool,
            CallAction::BuildBool { value: isatty_result == 1 },
        ),
        CallEvent::BoolBuilt { built } => {
            if built {
                (CallPhase::Finished(AddonStatus::Success), CallAction::StoreValue)
            } else {
                let message = String::from_str(
                    "IsTerminalBuildValue: failed to allocate Bool return value",
                );
                (
                    CallPhase::Finished(AddonStatus::Error),
                    CallAction::ReportError { code: IS_TERMINAL_BUILD_VALUE, message },
                )
            }
        },
    }
}


/// The phase a call reaches from `phase` when `events` come back in turn; the
/// call stops moving once it is finished.
pub open spec fn run(phase: CallPhase, events: Seq<CallEvent>) -> CallPhase
    decreases events.len(),
{
    if events.len() == 0 || phase is Finished {
        phase
    } else {
        run(next_phase(phase, events[0]), events.drop_first())
    }
}

/// Whether each event in `events` is what the phase it meets waits for, until
/// the call is finished.
pub open spec fn well_answered(phase: CallPhase, events: Seq<CallEvent>) -> bool
    decreases events.len(),
{
    if events.len() == 0 || phase is Finished {
        true
    } else {
        answers(phase, events[0]) && well_answered(next_phase(phase, events[0]), events.drop_first())
    }
}

/// The outcomes of the outside work of one call, in the order the work is asked for.
pub open spec fn call_events(
    args_len: u32,
    host_is_null: bool,
    builder_made: bool,
    argument: ArgumentRead,
    isatty_result: i32,
    bool_built: bool,
) -> Seq<CallEvent> {
    seq![
        CallEvent::Begin { args_len, host_is_null },
        CallEvent::BuilderMade { made: builder_made },
        CallEvent::Argument(argument),
        CallEvent::Probed { isatty_result },
        CallEvent::BoolBuilt { built: bool_built },
    ]
}

/// The status of a call, given the outcomes of its outside work: the arity is
/// checked first, then the host handle, the builder, the argument and the stream
/// name; a call with a valid stream succeeds exactly when its Bool is built.
pub open spec fn call_status(
    args_len: u32,
    host_is_null: bool,
    builder_made: bool,
    argument: ArgumentRead,
    bool_built: bool,
) -> AddonStatus {
    if args_len != 1 {
        AddonStatus::ArityMismatch
    } else if host_is_null || !builder_made {
        AddonStatus::InvalidState
    } else {
        match argument {
            ArgumentRead::Missing => AddonStatus::NullPointer,
            ArgumentRead::NotText => AddonStatus::UnsupportedValue,
            ArgumentRead::Text(name) => if spec_parse_stream_kind(name@) is None {
                AddonStatus::Error
            } else if bool_built {
                AddonStatus::Success
            } else {
                AddonStatus::Error
            },
        }
    }
}

/// Every call ends with the status of `call_status`: driven from the start by
/// the outcomes of its outside work, each outcome answers the phase it meets and
/// the call finishes with that status. What the terminal probe answers never
/// changes the status.
pub proof fn lemma_call_outcome(
    args_len: u32,
    host_is_null: bool,
    builder_made: bool,
    argument: ArgumentRead,
    isatty_result: i32,
    bool_built: bool,
)
    ensures
        well_answered(
            CallPhase::Start,
            call_events(args_len, host_is_null, builder_made, argument, isatty_result, bool_built),
        ),
        run(
            CallPhase::Start,
            call_events(args_len, host_is_null, builder_made, argument, isatty_result, bool_built),
        ) == CallPhase::Finished(call_status(args_len, host_is_null, builder_made, argument, bool_built)),
{
    let e = call_events(args_len, host_is_null, builder_made, argument, isatty_result, bool_built);
    let e1 = e.drop_first();
    let e2 = e1.drop_first();
    let e3 = e2.drop_first();
    let e4 = e3.drop_first();
    assert(e1[0] == e[1] && e2[0] == e[2] && e3[0] == e[3] && e4[0] == e[4]);
    assert(e4.drop_first().len() == 0);
    reveal_with_fuel(run, 6);
    reveal_with_fuel(well_answered, 6);
}

/// An error reported by a call always carries one of the two frozen error codes.
pub proof fn lemma_reported_codes(event: CallEvent, action: CallAction)
    requires
        expected_action(event, action),
        action is ReportError,
    ensures
        action->code == IS_TERMINAL_INVALID_STREAM || action->code == IS_TERMINAL_BUILD_VALUE,
{
}


/// The text of the argument an event carries, if it carries one.
pub open spec fn argument_text(event: CallEvent) -> Option<Seq<char>> {
    match event {
        CallEvent::Argument(ArgumentRead::Text(name)) => Some(name@),
        _ => None,
    }
}

/// The probe asked for after the argument is read is the descriptor of the
/// stream the argument names: `stdin` is probed on fd 0 (`STDIN_FILENO`),
/// `stdout` on fd 1, `stderr` on fd 2, and no other text leads to a probe.
pub proof fn lemma_probe_targets_named_stream(name: String, action: CallAction)
    requires
        expected_action(CallEvent::Argument(ArgumentRead::Text(name)), action),
    ensures
        (name@ == seq!['s', 't', 'd', 'i', 'n']) ==> (action is Probe && action->fd == 0),
        (name@ == seq!['s', 't', 'd', 'o', 'u', 't']) ==> (action is Probe && action->fd == 1),
        (name@ == seq!['s', 't', 'd', 'e', 'r', 'r']) ==> (action is Probe && action->fd == 2),
        (action is Probe) ==> (name@ == seq!['s', 't', 'd', 'i', 'n'] || name@ == seq![
            's', 't', 'd', 'o', 'u', 't'] || name@ == seq!['s', 't', 'd', 'e', 'r', 'r']),
{
}

/// Over a whole call: a call with one argument, a usable host handle and a
/// builder first asks for the builder, then for the argument, and then, when the
/// argument is the text `stdin`, asks to probe exactly fd 0; likewise fd 1 for
/// `stdout` and fd 2 for `stderr`.
pub proof fn lemma_call_probes_named_stream(
    name: String,
    begin_action: CallAction,
    builder_action: CallAction,
    argument_action: CallAction,
)
    requires
        expected_action(CallEvent::Begin { args_len: 1, host_is_null: false }, begin_action),
        expected_action(CallEvent::BuilderMade { made: true }, builder_action),
        expected_action(CallEvent::Argument(ArgumentRead::Text(name)), argument_action),
    ensures
        (begin_action is MakeBuilder),
        (builder_action is ReadArgument),
        (name@ == seq!['s', 't', 'd', 'i', 'n']) ==> (argument_action is Probe
            && argument_action->fd == 0),
        (name@ == seq!['s', 't', 'd', 'o', 'u', 't']) ==> (argument_action is Probe
            && argument_action->fd == 1),
        (name@ == seq!['s', 't', 'd', 'e', 'r', 'r']) ==> (argument_action is Probe
            && argument_action->fd == 2),
{
    lemma_probe_targets_named_stream(name, argument_action);
}

/// The Bool asked for is true exactly when the probe answered 1.
pub proof fn lemma_bool_follows_probe(isatty_result: i32, action: CallAction)
    requires
        expected_action(CallEvent::Probed { isatty_result }, action),
    ensures
        (action is BuildBool),
        (action->value <==> isatty_result == 1),
{
}

/// A text that names no stream is reported with code 2101 and a message that
/// ends with that text; any text naming a stream is not reported.
pub proof fn lemma_invalid_stream_report(name: String, action: CallAction)
    requires
        expected_action(CallEvent::Argument(ArgumentRead::Text(name)), action),
    ensures
        (action is ReportError) <==> (name@ != seq!['s', 't', 'd', 'i', 'n'] && name@ != seq![
            's', 't', 'd', 'o', 'u', 't'] && name@ != seq!['s', 't', 'd', 'e', 'r', 'r']),
        (action is ReportError) ==> (action->code == 2101),
        (action is ReportError) ==> (action->message@
            == "IsTerminalInvalidStream: expected stdin|stdout|stderr, got "@ + name@),
{
}

/// A Bool that could not be built is reported with code 2102 and a fixed
/// message; a built Bool is handed over as the value.
pub proof fn lemma_build_value_report(built: bool, action: CallAction)
    requires
        expected_action(CallEvent::BoolBuilt { built }, action),
    ensures
        built ==> (action is StoreValue),
        !built ==> (action is ReportError && action->code == 2102),
        !built ==> (action->message@
            == "IsTerminalBuildValue: failed to allocate Bool return value"@),
{
}

/// The first checks of a call: it is turned away with nothing more asked
/// exactly when it has not exactly one argument or its host handle is null;
/// otherwise the builder is asked for.
pub proof fn lemma_begin_checks(args_len: u32, host_is_null: bool, action: CallAction)
    requires
        expected_action(CallEvent::Begin { args_len, host_is_null }, action),
    ensures
        (action is Stop) <==> (args_len != 1 || host_is_null),
        !(action is Stop) ==> (action is MakeBuilder),
        (next_phase(CallPhase::Start, CallEvent::Begin { args_len, host_is_null }) is Finished)
            <==> (args_len != 1 || host_is_null),
{
}

} // verus!
