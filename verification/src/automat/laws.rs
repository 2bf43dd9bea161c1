//! What holds of the automaton whatever it is given.

use crate::automat::model::{types_to_meet, AutomatView, Input, StateView, Transition};
use crate::automat::{AutomatCommand, AutomatSignal, Notification, WorkingState};
use crate::handler::commands::HandlerCommand;
use crate::sender::FamiliarityLists;
use crate::types::{every_thread, no_server_type, ServerType, ThreadSource};
use vstd::prelude::*;

verus! {

/// `commands` as inputs, in the same order.
pub open spec fn as_commands(commands: Seq<AutomatCommand>) -> Seq<Input> {
    commands.map_values(|command: AutomatCommand| Input::Command(command))
}

/// One "connected to all" report per element of `server_types`, in the
/// same order.
pub open spec fn as_reports(server_types: Seq<ServerType>) -> Seq<Input> {
    server_types.map_values(
        |server_type: ServerType| Input::Signal(AutomatSignal::ConnectedToServers(server_type)),
    )
}

/// No command of `queue` asks for a map.
pub open spec fn asks_for_no_map(queue: Seq<AutomatCommand>) -> bool {
    forall|i: int| 0 <= i < queue.len() ==> !(#[trigger] queue[i] is GenerateMap)
}

/// A command carried out leaves a well-formed automaton well formed.
pub proof fn lemma_apply_keeps_well_formed(automat: AutomatView, command: AutomatCommand)
    requires
        automat.wf(),
    ensures
        automat.apply(command).next.wf(),
    decreases automat.queue.len(), 1nat,
{
    if command is CloseMap && automat.state == StateView::Working(WorkingState::Nope) {
        lemma_next_command_keeps_well_formed(automat);
    }
}

/// The next command taken leaves a well-formed automaton well formed.
pub proof fn lemma_next_command_keeps_well_formed(automat: AutomatView)
    requires
        automat.wf(),
    ensures
        automat.next_command().next.wf(),
    decreases automat.queue.len(), 0nat,
{
    if automat.queue.len() > 0 {
        lemma_apply_keeps_well_formed(
            AutomatView { queue: automat.queue.drop_first(), ..automat },
            automat.queue[0],
        );
    }
}

/// A new automaton is well formed.
pub proof fn lemma_initial_is_well_formed()
    ensures
        AutomatView::initial().wf(),
{
}

/// Whatever a well-formed automaton is given, it stays well formed: while
/// it meets its peers at least one server type is still to be met, and
/// while a map is generated or closed at least one thread has not
/// reported.
pub proof fn lemma_step_keeps_well_formed(automat: AutomatView, input: Input)
    requires
        automat.wf(),
    ensures
        automat.step(input).next.wf(),
{
    match input {
        Input::Command(command) => {
            if !automat.is_processing_command() {
                lemma_apply_keeps_well_formed(automat, command);
            }
        },
        Input::Signal(AutomatSignal::ThreadIsReady(thread)) => {
            let reported = AutomatView { ready: automat.ready.insert(thread), ..automat };
            if every_thread(reported.ready) {
                if automat.state == StateView::Working(WorkingState::MapGeneration) {
                    lemma_next_command_keeps_well_formed(
                        AutomatView {
                            state: StateView::Working(WorkingState::MapIsReady),
                            ..reported
                        },
                    );
                } else if automat.state == StateView::Working(WorkingState::MapClosing) {
                    lemma_next_command_keeps_well_formed(
                        AutomatView { state: StateView::Working(WorkingState::Nope), ..reported },
                    );
                }
            }
        },
        Input::Signal(_) => {},
    }
}

/// A finished automaton stays finished, whatever it is given.
pub proof fn lemma_finished_is_final(automat: AutomatView, input: Input)
    requires
        automat.state == StateView::Finished,
    ensures
        automat.step(input).next.state == StateView::Finished,
        automat.step(input).notifications == Seq::<Notification>::empty(),
        automat.step(input).phases == Seq::<StateView>::empty(),
{
}

/// Commands handed in while the automaton is busy change nothing but the
/// queue, send nothing, and wait behind the older ones in the order in
/// which they came.
pub proof fn lemma_busy_submissions_keep_arrival_order(
    automat: AutomatView,
    commands: Seq<AutomatCommand>,
)
    requires
        automat.is_processing_command(),
    ensures
        automat.run(as_commands(commands)) == Transition::stay(
            AutomatView { queue: automat.queue + commands, ..automat },
        ),
    decreases commands.len(),
{
    if commands.len() > 0 {
        assert(as_commands(commands).drop_first() =~= as_commands(commands.drop_first()));
        lemma_busy_submissions_keep_arrival_order(
            automat.enqueue(commands[0]),
            commands.drop_first(),
        );
    }
}

/// A command that finds a map in place is carried out as a `CloseMap`
/// with the command itself at the head of the queue: the map is closed
/// first, and the command is the next one taken.
pub proof fn lemma_implicit_close_map_goes_first(automat: AutomatView, command: AutomatCommand)
    requires
        automat.state.has_map(),
        !(command is CloseMap),
    ensures
        automat.apply(command) == automat.requeue(command).apply(AutomatCommand::CloseMap),
        automat.apply(command).next.queue == seq![command] + automat.queue,
        automat.apply(command).next.state == StateView::Working(WorkingState::MapClosing),
{
}

/// A `Shutdown` that is carried out is not overtaken by anything that
/// waits. Without a map the node finishes at once and what waits is left
/// where it is. With a map the command goes to the head of the queue
/// while the map is closed, and when the last thread reports the map
/// closed the node finishes before any other command is looked at.
pub proof fn lemma_shutdown_wins_over_queued_commands(
    automat: AutomatView,
    restart: bool,
    closing: AutomatView,
    last: ThreadSource,
)
    requires
        automat.applicable(AutomatCommand::Shutdown(restart)),
        automat.state != StateView::Finished,
        automat.state != StateView::Shutdown,
        // `closing`: what the command left behind, with all threads but
        // `last` ready.
        closing.state == automat.apply(AutomatCommand::Shutdown(restart)).next.state,
        closing.queue == automat.apply(AutomatCommand::Shutdown(restart)).next.queue,
        every_thread(closing.ready.insert(last)),
    ensures
        ({
            let begun = automat.apply(AutomatCommand::Shutdown(restart));
            let ended = closing.thread_is_ready(last);
            if automat.state.has_map() {
                &&& begun.next.state == StateView::Working(WorkingState::MapClosing)
                &&& begun.next.queue == seq![AutomatCommand::Shutdown(restart)] + automat.queue
                &&& ended.next.state == StateView::Finished
                &&& ended.next.queue == automat.queue
            } else {
                &&& begun.next.state == StateView::Finished
                &&& begun.next.queue == automat.queue
            }
        }),
{
    if automat.state.has_map() {
        let waiting = seq![AutomatCommand::Shutdown(restart)] + automat.queue;
        assert(waiting.drop_first() =~= automat.queue);
    }
}

/// Where nobody is to be met the node starts to work within the same
/// call and says so once; reports that come later change nothing.
pub proof fn lemma_nobody_to_meet(
    automat: AutomatView,
    lists: Box<FamiliarityLists>,
    later: ServerType,
)
    requires
        automat.state != StateView::Finished,
        lists.storages@.len() == 0,
        lists.handlers@.len() == 0,
    ensures
        automat.familiarize(lists).next.state == StateView::Working(WorkingState::Nope),
        automat.familiarize(lists).notifications == seq![
            Notification::Handler(HandlerCommand::FamiliarityFinished),
        ],
        automat.familiarize(lists).next.connected_to_servers(later) == Transition::stay(
            automat.familiarize(lists).next,
        ),
{
}

/// One report while the node meets its peers: the type leaves the set of
/// those still to be met, and the node starts to work exactly when the
/// set is then empty. A report for a type that is not awaited changes
/// nothing.
pub proof fn lemma_report_shrinks_pending(
    automat: AutomatView,
    pending: Set<ServerType>,
    server_type: ServerType,
)
    requires
        automat.state == StateView::Familiarity(pending),
        !no_server_type(pending),
    ensures
        ({
            let reported = automat.connected_to_servers(server_type);
            &&& no_server_type(pending.remove(server_type)) ==> reported.next.state
                == StateView::Working(WorkingState::Nope) && reported.notifications == seq![
                Notification::Handler(HandlerCommand::FamiliarityFinished),
            ]
            &&& !no_server_type(pending.remove(server_type)) ==> reported.next.state
                == StateView::Familiarity(pending.remove(server_type))
                && reported.notifications == Seq::<Notification>::empty()
            &&& !pending.contains(server_type) ==> reported == Transition::stay(automat)
            &&& reported.next.ready == automat.ready
            &&& reported.next.queue == automat.queue
        }),
{
}

/// A node that meets its peers starts to work if and only if every
/// awaited server type has reported, in whatever order the reports come
/// and however often they are repeated; it then says so exactly once.
pub proof fn lemma_familiarity_ends_when_all_have_reported(
    automat: AutomatView,
    pending: Set<ServerType>,
    reports: Seq<ServerType>,
)
    requires
        automat.state == StateView::Familiarity(pending),
        !no_server_type(pending),
    ensures
        ({
            let end = automat.run(as_reports(reports));
            let all_reported = forall|t: ServerType| pending.contains(t) ==> reports.contains(t);
            &&& end.next.state == StateView::Working(WorkingState::Nope) <==> all_reported
            &&& all_reported ==> end.notifications == seq![
                Notification::Handler(HandlerCommand::FamiliarityFinished),
            ]
            &&& !all_reported ==> end.notifications == Seq::<Notification>::empty()
            &&& !all_reported ==> end.next.state == StateView::Familiarity(
                pending.difference(reports.to_set()),
            )
            &&& end.next.ready == automat.ready
            &&& end.next.queue == automat.queue
        }),
    decreases reports.len(),
{
    broadcast use vstd::seq_lib::group_seq_properties;

    if reports.len() > 0 {
        let first = automat.connected_to_servers(reports[0]);
        let rest = reports.drop_first();
        assert(as_reports(reports).drop_first() =~= as_reports(rest));
        lemma_report_shrinks_pending(automat, pending, reports[0]);
        // A type has reported if it is the first to do so or reports later.
        assert(forall|t: ServerType|
            reports.contains(t) <==> (t == reports[0] || rest.contains(t)));
        let left = pending.remove(reports[0]);
        if no_server_type(left) {
            lemma_working_node_ignores_reports(first.next, rest);
        } else {
            lemma_familiarity_ends_when_all_have_reported(first.next, left, rest);
        }
    }
}

/// A node that is given two lists that both name someone waits for
/// both server types. It starts to work if and only if both have
/// reported that all their peers are connected, whichever comes first
/// and however often either is repeated, and says so exactly once.
pub proof fn lemma_two_lists_need_two_reports(
    automat: AutomatView,
    lists: Box<FamiliarityLists>,
    reports: Seq<ServerType>,
)
    requires
        automat.state != StateView::Finished,
        lists.storages@.len() > 0,
        lists.handlers@.len() > 0,
    ensures
        ({
            let begun = automat.familiarize(lists);
            let end = begun.next.run(as_reports(reports));
            let both = reports.contains(ServerType::Storage) && reports.contains(
                ServerType::Handler,
            );
            &&& begun.next.state == StateView::Familiarity(Set::<ServerType>::full())
            &&& begun.notifications == seq![Notification::Handler(HandlerCommand::Familiarize(lists))]
            &&& end.next.state == StateView::Working(WorkingState::Nope) <==> both
            &&& both ==> end.notifications == seq![
                Notification::Handler(HandlerCommand::FamiliarityFinished),
            ]
            &&& !both ==> end.notifications == Seq::<Notification>::empty()
        }),
{
    lemma_familiarity_ends_when_all_have_reported(
        automat.familiarize(lists).next,
        types_to_meet(*lists),
        reports,
    );
}

/// A working node takes reports of connected peers without any change.
pub proof fn lemma_working_node_ignores_reports(automat: AutomatView, reports: Seq<ServerType>)
    requires
        automat.state is Working,
    ensures
        automat.run(as_reports(reports)) == Transition::stay(automat),
    decreases reports.len(),
{
    if reports.len() > 0 {
        assert(as_reports(reports).drop_first() =~= as_reports(reports.drop_first()));
        lemma_working_node_ignores_reports(automat, reports.drop_first());
    }
}

/// Two reports lead to the same automaton and the same messages in either
/// order.
pub proof fn lemma_reports_commute(automat: AutomatView, first: ServerType, second: ServerType)
    ensures
        ({
            let one = automat.run(as_reports(seq![first, second]));
            let other = automat.run(as_reports(seq![second, first]));
            &&& one.next == other.next
            &&& one.notifications == other.notifications
        }),
{
    lemma_two_reports(automat, first, second);
    lemma_two_reports(automat, second, first);
}

proof fn lemma_two_reports(automat: AutomatView, first: ServerType, second: ServerType)
    ensures
        ({
            let both = automat.run(as_reports(seq![first, second]));
            let a = automat.connected_to_servers(first);
            let ab = a.next.connected_to_servers(second);
            &&& both.next == ab.next
            &&& both.notifications == a.notifications + ab.notifications
        }),
{
    reveal_with_fuel(AutomatView::run, 3);
}

/// While a map is generated or closed, a report of readiness ends the
/// work only if it makes the set of threads that have reported complete;
/// a thread that reports again changes nothing.
pub proof fn lemma_repeated_report_completes_nothing(automat: AutomatView, thread: ThreadSource)
    requires
        automat.state.in_flight(),
        !every_thread(automat.ready.insert(thread)),
    ensures
        ({
            let once = automat.thread_is_ready(thread);
            let twice = once.next.thread_is_ready(thread);
            &&& once.next.state == automat.state
            &&& once.notifications == Seq::<Notification>::empty()
            &&& once.phases == Seq::<StateView>::empty()
            &&& twice == Transition::stay(once.next)
        }),
{
}

/// The work in flight ends with a report only if every thread has then
/// reported.
pub proof fn lemma_work_ends_only_when_all_are_ready(automat: AutomatView, thread: ThreadSource)
    requires
        automat.state.in_flight(),
        automat.thread_is_ready(thread).next.state != automat.state,
    ensures
        every_thread(automat.ready.insert(thread)),
{
}

/// The next command taken from a queue that asks for no map, by a node
/// with a map in place: the map is closed, and what has not been carried
/// out still asks for no map.
proof fn lemma_next_command_with_map(automat: AutomatView)
    requires
        automat.state.has_map(),
        automat.queue.len() > 0,
        asks_for_no_map(automat.queue),
    ensures
        ({
            let taken = automat.next_command();
            &&& taken.next.state == StateView::Working(WorkingState::MapClosing)
            &&& taken.phases == seq![StateView::Working(WorkingState::MapClosing)]
            &&& taken.next.ready == Set::<ThreadSource>::empty()
            &&& asks_for_no_map(taken.next.queue)
            &&& (exists|i: int| 0 <= i < automat.queue.len() && automat.queue[i] is Shutdown)
                ==> (exists|i: int|
                0 <= i < taken.next.queue.len() && taken.next.queue[i] is Shutdown)
        }),
{
    let rest = automat.queue.drop_first();
    assert(asks_for_no_map(rest));
    if automat.queue[0] is Shutdown {
        // The command is back where it was taken from.
        assert(automat.next_command().next.queue =~= automat.queue);
    } else if exists|i: int| 0 <= i < automat.queue.len() && automat.queue[i] is Shutdown {
        let i = choose|i: int| 0 <= i < automat.queue.len() && automat.queue[i] is Shutdown;
        assert(rest[i - 1] is Shutdown);
    }
}

/// The next command taken by an idle node from a queue that asks for no
/// map and holds a `Shutdown`: the node finishes.
proof fn lemma_next_command_when_idle(automat: AutomatView)
    requires
        automat.state == StateView::Working(WorkingState::Nope),
        asks_for_no_map(automat.queue),
        exists|i: int| 0 <= i < automat.queue.len() && automat.queue[i] is Shutdown,
    ensures
        automat.next_command().next.state == StateView::Finished,
        automat.next_command().phases == seq![StateView::Finished],
    decreases automat.queue.len(),
{
    if automat.queue[0] is CloseMap {
        let rest = AutomatView { queue: automat.queue.drop_first(), ..automat };
        let i = choose|i: int| 0 <= i < automat.queue.len() && automat.queue[i] is Shutdown;
        assert(rest.queue[i - 1] is Shutdown);
        assert(asks_for_no_map(rest.queue));
        lemma_next_command_when_idle(rest);
    }
}

/// One report of readiness, as an input.
pub open spec fn ready(thread: ThreadSource) -> Input {
    Input::Signal(AutomatSignal::ThreadIsReady(thread))
}

/// A run is its first step followed by the run of the rest.
proof fn lemma_run_unfolds(automat: AutomatView, first: Input, rest: Seq<Input>)
    ensures
        automat.run(seq![first] + rest) == automat.step(first).next.run(rest).after(
            automat.step(first).notifications,
            automat.step(first).phases,
        ),
{
    assert((seq![first] + rest).drop_first() =~= rest);
}

/// A `Shutdown` handed in while a map is generated waits, and generation
/// is not cut short. When the last thread reports the map generated, the
/// map is ready and is closed at once; when the last thread reports the
/// map closed, the node is idle and finishes at once. So the states
/// entered from the command on are exactly: map ready, map closing, idle,
/// finished. This holds whenever no command that waits ahead asks for
/// another map.
pub proof fn lemma_shutdown_waits_for_generation(
    automat: AutomatView,
    restart: bool,
    generated_first: ThreadSource,
    generated_last: ThreadSource,
    closed_first: ThreadSource,
    closed_last: ThreadSource,
)
    requires
        automat.state == StateView::Working(WorkingState::MapGeneration),
        asks_for_no_map(automat.queue),
        // Generation ends with the second report and not before.
        !every_thread(automat.ready.insert(generated_first)),
        every_thread(automat.ready.insert(generated_first).insert(generated_last)),
        // So does closing, which starts with no thread ready.
        closed_first != closed_last,
    ensures
        ({
            let run = automat.run(
                seq![
                    Input::Command(AutomatCommand::Shutdown(restart)),
                    ready(generated_first),
                    ready(generated_last),
                    ready(closed_first),
                    ready(closed_last),
                ],
            );
            let waiting = automat.run(
                seq![Input::Command(AutomatCommand::Shutdown(restart)), ready(generated_first)],
            );
            &&& waiting.next.state == StateView::Working(WorkingState::MapGeneration)
            &&& waiting.phases == Seq::<StateView>::empty()
            &&& waiting.notifications == Seq::<Notification>::empty()
            &&& run.phases == seq![
                StateView::Working(WorkingState::MapIsReady),
                StateView::Working(WorkingState::MapClosing),
                StateView::Working(WorkingState::Nope),
                StateView::Finished,
            ]
            &&& run.next.state == StateView::Finished
        }),
{
    let i0 = Input::Command(AutomatCommand::Shutdown(restart));
    let i1 = ready(generated_first);
    let i2 = ready(generated_last);
    let i3 = ready(closed_first);
    let i4 = ready(closed_last);

    // The states the automaton is in between the inputs.
    let a1 = automat.step(i0).next;
    let a2 = a1.step(i1).next;
    let a3 = a2.step(i2).next;
    let a4 = a3.step(i3).next;

    // The command waits behind the others.
    assert(a1.queue[automat.queue.len() as int] is Shutdown);
    // The map is ready: whatever is taken from the queue closes it.
    lemma_next_command_with_map(
        AutomatView {
            state: StateView::Working(WorkingState::MapIsReady),
            ready: a2.ready.insert(generated_last),
            queue: a2.queue,
        },
    );
    // The map is closed: the first command that is no `CloseMap` is a
    // `Shutdown`.
    lemma_next_command_when_idle(
        AutomatView {
            state: StateView::Working(WorkingState::Nope),
            ready: a4.ready.insert(closed_last),
            queue: a4.queue,
        },
    );

    // The run of all five inputs, put together from its end.
    let none = Seq::<Input>::empty();
    lemma_run_unfolds(a4, i4, none);
    lemma_run_unfolds(a3, i3, seq![i4]);
    assert(seq![i3] + seq![i4] =~= seq![i3, i4]);
    lemma_run_unfolds(a2, i2, seq![i3, i4]);
    assert(seq![i2] + seq![i3, i4] =~= seq![i2, i3, i4]);
    lemma_run_unfolds(a1, i1, seq![i2, i3, i4]);
    assert(seq![i1] + seq![i2, i3, i4] =~= seq![i1, i2, i3, i4]);
    lemma_run_unfolds(automat, i0, seq![i1, i2, i3, i4]);
    assert(seq![i0] + seq![i1, i2, i3, i4] =~= seq![i0, i1, i2, i3, i4]);

    // The run of the first two.
    lemma_run_unfolds(a1, i1, none);
    lemma_run_unfolds(automat, i0, seq![i1]);
    assert(seq![i0] + seq![i1] =~= seq![i0, i1]);
}

/// The commands that wait are served from the head: what the next
/// command leaves in the queue is the end of what was there, in the same
/// order. A command that found a map in place is back at the head.
pub proof fn lemma_queue_is_served_in_order(automat: AutomatView)
    requires
        automat.state.settled(),
    ensures
        exists|taken: int|
            0 <= taken <= automat.queue.len() && automat.next_command().next.queue
                == #[trigger] automat.queue.subrange(taken, automat.queue.len() as int),
    decreases automat.queue.len(),
{
    let length = automat.queue.len() as int;
    let left = automat.next_command().next.queue;
    if length == 0 {
        assert(left =~= automat.queue.subrange(0, length));
    } else if automat.state.has_map() {
        if automat.queue[0] is CloseMap {
            assert(left =~= automat.queue.subrange(1, length));
        } else {
            assert(left =~= automat.queue.subrange(0, length));
        }
    } else if automat.queue[0] is CloseMap {
        let rest = AutomatView { queue: automat.queue.drop_first(), ..automat };
        lemma_queue_is_served_in_order(rest);
        let k = choose|k: int|
            0 <= k <= rest.queue.len() && rest.next_command().next.queue
                == #[trigger] rest.queue.subrange(k, rest.queue.len() as int);
        assert(left =~= automat.queue.subrange(k + 1, length));
    } else {
        assert(left =~= automat.queue.subrange(1, length));
    }
}

} // verus!
