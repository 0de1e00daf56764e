//! What the scheduler does over whole poll rounds: every round, whatever
//! the device answers, ends with the pause and leads into the next one.

use vstd::prelude::*;
use crate::cycle::{runtime_step, voltage_step, AfterVoltageView, Outcome};
use crate::error::Failure;
use crate::metric::{Metric, RawValue};
use crate::policy::{alert_for, error_text};
use crate::scheduler::{pause, query, transition, ActionView, EventView, Phase};

verus! {

/// What the device would answer to the two queries of one round.
pub struct Answers {
    pub voltage: Result<RawValue, Failure>,
    /// Only looked at in a round that gets as far as the runtime query.
    pub runtime: Result<RawValue, Failure>,
}

/// The phase reached and the actions asked for when the scheduler, in
/// `phase`, is fed `events` one after the other; `None` if one of them does
/// not fit the phase it meets.
pub open spec fn run(phase: Phase, events: Seq<EventView>) -> Option<(Phase, Seq<ActionView>)>
    decreases events.len(),
{
    if events.len() == 0 {
        Some((phase, Seq::empty()))
    } else {
        match run(phase, events.drop_last()) {
            Some((reached, actions)) => match transition(reached, events.last()) {
                Some((next, action)) => Some((next, actions.push(action))),
                None => None,
            },
            None => None,
        }
    }
}

/// The outcome of a round with the given answers.
pub open spec fn round_outcome(answers: Answers) -> Outcome {
    match voltage_step(answers.voltage) {
        AfterVoltageView::QueryRuntime(volts) => runtime_step(volts, answers.runtime),
        AfterVoltageView::Finished(outcome) => outcome,
    }
}

/// The events that a caller who carries out every action reports in a
/// round with the given answers.
pub open spec fn round_events(answers: Answers) -> Seq<EventView> {
    let voltage = seq![EventView::Response(answers.voltage)];
    let runtime = if voltage_step(answers.voltage) is QueryRuntime {
        seq![EventView::Response(answers.runtime)]
    } else {
        Seq::empty()
    };
    let shown = if alert_for(round_outcome(answers)) is Some {
        seq![EventView::Notified]
    } else {
        Seq::empty()
    };
    voltage + runtime + shown + seq![EventView::Woke]
}

/// The actions that a round with the given answers asks for, from the
/// moment its voltage query is under way up to and including the voltage
/// query of the next round.
pub open spec fn round_actions(answers: Answers) -> Seq<ActionView> {
    let runtime = if voltage_step(answers.voltage) is QueryRuntime {
        seq![query(Metric::BatteryRuntime)]
    } else {
        Seq::empty()
    };
    let alert = match alert_for(round_outcome(answers)) {
        Some(text) => seq![ActionView::Notify(text)],
        None => Seq::empty(),
    };
    runtime + alert + seq![pause(), query(Metric::InputVoltage)]
}

/// The events of a series of rounds, one round after the other.
pub open spec fn series_events(series: Seq<Answers>) -> Seq<EventView>
    decreases series.len(),
{
    if series.len() == 0 {
        Seq::empty()
    } else {
        series_events(series.drop_last()) + round_events(series.last())
    }
}

/// The actions of a series of rounds, one round after the other.
pub open spec fn series_actions(series: Seq<Answers>) -> Seq<ActionView>
    decreases series.len(),
{
    if series.len() == 0 {
        Seq::empty()
    } else {
        series_actions(series.drop_last()) + round_actions(series.last())
    }
}

/// `round` written `count` times in a row.
pub open spec fn repeated(round: Seq<ActionView>, count: nat) -> Seq<ActionView>
    decreases count,
{
    if count == 0 {
        Seq::empty()
    } else {
        repeated(round, (count - 1) as nat) + round
    }
}

/// What every round with an unreachable endpoint asks for: the alert with
/// the cause of the failure, the pause, and the next voltage query.
pub open spec fn alarm_round(failure: Failure) -> Seq<ActionView> {
    seq![ActionView::Notify(error_text(failure.cause)), pause(), query(Metric::InputVoltage)]
}

/// Feeding one event is one transition.
proof fn lemma_run_single(phase: Phase, event: EventView)
    ensures
        run(phase, seq![event]) == match transition(phase, event) {
            Some((next, action)) => Some((next, seq![action])),
            None => None,
        },
{
    let events = seq![event];
    assert(events.drop_last() =~= Seq::<EventView>::empty());
    assert(run(phase, events.drop_last()) == Some((phase, Seq::<ActionView>::empty())));
    assert(events.last() == event);
    match transition(phase, event) {
        Some((next, action)) => {
            assert(Seq::<ActionView>::empty().push(action) =~= seq![action]);
        },
        None => {},
    }
}

/// Feeding two runs of events in a row is feeding the second from where
/// the first ended.
proof fn lemma_run_append(
    phase: Phase,
    first: Seq<EventView>,
    reached: Phase,
    done: Seq<ActionView>,
    second: Seq<EventView>,
    last: Phase,
    more: Seq<ActionView>,
)
    requires
        run(phase, first) == Some((reached, done)),
        run(reached, second) == Some((last, more)),
    ensures
        run(phase, first + second) == Some((last, done + more)),
    decreases second.len(),
{
    if second.len() == 0 {
        assert(first + second =~= first);
        assert(done + more =~= done);
    } else {
        let init = second.drop_last();
        match run(reached, init) {
            Some((mid, actions)) => {
                lemma_run_append(phase, first, reached, done, init, mid, actions);
                assert((first + second).drop_last() =~= first + init);
                assert((first + second).last() == second.last());
                match transition(mid, second.last()) {
                    Some((next, action)) => {
                        assert(done + actions.push(action) =~= (done + actions).push(action));
                    },
                    None => {},
                }
            },
            None => {},
        }
    }
}

/// Whatever the device answers, a round that starts with the voltage query
/// under way asks for exactly the actions of that round, and ends with the
/// voltage query of the next round under way: no answer stops the scheduler.
pub proof fn lemma_round_restarts(answers: Answers)
    ensures
        run(Phase::AwaitingVoltage, round_events(answers)) == Some(
            (Phase::AwaitingVoltage, round_actions(answers)),
        ),
{
    let start = Phase::AwaitingVoltage;
    let voltage = seq![EventView::Response(answers.voltage)];
    let runtime = seq![EventView::Response(answers.runtime)];
    let shown = seq![EventView::Notified];
    let woke = seq![EventView::Woke];
    let ask_runtime = seq![query(Metric::BatteryRuntime)];
    let ask_voltage = seq![query(Metric::InputVoltage)];
    let rest = seq![pause()];
    lemma_run_single(start, EventView::Response(answers.voltage));
    lemma_run_single(Phase::Notifying, EventView::Notified);
    lemma_run_single(Phase::Sleeping, EventView::Woke);
    match voltage_step(answers.voltage) {
        AfterVoltageView::QueryRuntime(volts) => {
            let waiting = Phase::AwaitingRuntime(volts);
            lemma_run_single(waiting, EventView::Response(answers.runtime));
            match alert_for(round_outcome(answers)) {
                Some(text) => {
                    let alert = seq![ActionView::Notify(text)];
                    lemma_run_append(start, voltage, waiting, ask_runtime, runtime, Phase::Notifying, alert);
                    lemma_run_append(
                        start,
                        voltage + runtime,
                        Phase::Notifying,
                        ask_runtime + alert,
                        shown,
                        Phase::Sleeping,
                        rest,
                    );
                    lemma_run_append(
                        start,
                        voltage + runtime + shown,
                        Phase::Sleeping,
                        ask_runtime + alert + rest,
                        woke,
                        start,
                        ask_voltage,
                    );
                    assert(voltage + runtime + shown + woke =~= round_events(answers));
                    assert(ask_runtime + alert + rest + ask_voltage =~= round_actions(answers));
                },
                None => {
                    lemma_run_append(start, voltage, waiting, ask_runtime, runtime, Phase::Sleeping, rest);
                    lemma_run_append(
                        start,
                        voltage + runtime,
                        Phase::Sleeping,
                        ask_runtime + rest,
                        woke,
                        start,
                        ask_voltage,
                    );
                    assert(voltage + runtime + woke =~= round_events(answers));
                    assert(ask_runtime + rest + ask_voltage =~= round_actions(answers));
                },
            }
        },
        AfterVoltageView::Finished(outcome) => {
            match alert_for(outcome) {
                Some(text) => {
                    let alert = seq![ActionView::Notify(text)];
                    lemma_run_append(start, voltage, Phase::Notifying, alert, shown, Phase::Sleeping, rest);
                    lemma_run_append(
                        start,
                        voltage + shown,
                        Phase::Sleeping,
                        alert + rest,
                        woke,
                        start,
                        ask_voltage,
                    );
                    assert(voltage + shown + woke =~= round_events(answers));
                    assert(alert + rest + ask_voltage =~= round_actions(answers));
                },
                None => {
                    lemma_run_append(start, voltage, Phase::Sleeping, rest, woke, start, ask_voltage);
                    assert(voltage + woke =~= round_events(answers));
                    assert(rest + ask_voltage =~= round_actions(answers));
                },
            }
        },
    }
}

/// The scheduler never stops and never remembers: over any series of
/// rounds it asks for the actions of each round in turn, each decided by
/// that round's answers alone, and it is ready for the next round after
/// the last.
pub proof fn lemma_series_never_stops(series: Seq<Answers>)
    ensures
        run(Phase::AwaitingVoltage, series_events(series)) == Some(
            (Phase::AwaitingVoltage, series_actions(series)),
        ),
    decreases series.len(),
{
    if series.len() > 0 {
        lemma_series_never_stops(series.drop_last());
        lemma_round_restarts(series.last());
        lemma_run_append(
            Phase::AwaitingVoltage,
            series_events(series.drop_last()),
            Phase::AwaitingVoltage,
            series_actions(series.drop_last()),
            round_events(series.last()),
            Phase::AwaitingVoltage,
            round_actions(series.last()),
        );
    }
}

/// A round whose voltage query could not be carried out asks for the alert
/// with the cause of the failure, then for the pause, then for the next
/// voltage query, and for nothing else.
pub proof fn lemma_failed_voltage_round(answers: Answers, failure: Failure)
    requires
        answers.voltage == Err::<RawValue, Failure>(failure),
    ensures
        round_outcome(answers) == Outcome::QueryFailed(failure),
        round_events(answers) == seq![EventView::Response(answers.voltage), EventView::Notified, EventView::Woke],
        round_actions(answers) == alarm_round(failure),
{
    assert(round_events(answers) =~= seq![
        EventView::Response(answers.voltage),
        EventView::Notified,
        EventView::Woke,
    ]);
    assert(round_actions(answers) =~= alarm_round(failure));
}

/// The actions of a series of rounds that all fail at the voltage query for
/// the same cause.
proof fn lemma_series_of_failures(series: Seq<Answers>, failure: Failure)
    requires
        forall|i: int| 0 <= i < series.len() ==> (#[trigger] series[i]).voltage == Err::<RawValue, Failure>(failure),
    ensures
        series_actions(series) == repeated(alarm_round(failure), series.len()),
    decreases series.len(),
{
    if series.len() > 0 {
        let init = series.drop_last();
        assert forall|i: int| 0 <= i < init.len() implies (#[trigger] init[i]).voltage == Err::<RawValue, Failure>(
            failure,
        ) by {
            assert(init[i] == series[i]);
        }
        lemma_series_of_failures(init, failure);
        lemma_failed_voltage_round(series.last(), failure);
    }
}

/// With an endpoint that fails every voltage query for the same cause, the
/// scheduler goes on for any number of rounds, and every round asks for
/// the same alert, the same pause and the next voltage query.
pub proof fn lemma_unreachable_endpoint(series: Seq<Answers>, failure: Failure)
    requires
        forall|i: int| 0 <= i < series.len() ==> (#[trigger] series[i]).voltage == Err::<RawValue, Failure>(failure),
    ensures
        run(Phase::AwaitingVoltage, series_events(series)) == Some(
            (Phase::AwaitingVoltage, repeated(alarm_round(failure), series.len())),
        ),
{
    lemma_series_never_stops(series);
    lemma_series_of_failures(series, failure);
}

} // verus!
