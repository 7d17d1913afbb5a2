//! What setting up and cleaning up do to the process.

use vstd::prelude::*;

use crate::forwarding::{
    handled, Cleanup, CleanupAction, CleanupEvent, CleanupPhase, Setup, SetupAction, SetupEvent,
    SetupPhase, HANDLED,
};
use crate::signal::Signal;

verus! {

/// What matters of the process: its open descriptors, its signal handlers, and
/// the two slots.
#[verifier::ext_equal]
pub struct World {
    pub open: Set<i32>,
    pub handlers: Set<Signal>,
    pub read_slot: i32,
    pub write_slot: i32,
}

impl World {
    /// No handler can run without a pipe to write to.
    pub open spec fn handlers_have_pipe(self) -> bool {
        self.handlers =~= Set::<Signal>::empty() || (self.write_slot >= 0 && self.open.contains(
            self.write_slot,
        ))
    }

    /// Nothing is set up.
    pub open spec fn is_clean(self) -> bool {
        &&& self.handlers =~= Set::<Signal>::empty()
        &&& self.read_slot == -1
        &&& self.write_slot == -1
    }

    /// Everything is set up, or nothing is.
    pub open spec fn is_settled(self) -> bool {
        self.is_clean() || {
            &&& self.read_slot >= 0
            &&& self.write_slot >= 0
            &&& self.read_slot != self.write_slot
            &&& self.open.contains(self.read_slot)
            &&& self.open.contains(self.write_slot)
            &&& self.handlers =~= all_handled(HANDLED as int)
        }
    }
}

/// The first `n` handled signals.
pub open spec fn all_handled(n: int) -> Set<Signal>
    decreases n,
{
    if n <= 0 {
        Set::empty()
    } else {
        all_handled(n - 1).insert(handled(n - 1))
    }
}

/// May an action of setting up come to this in the world? A new pipe has two
/// new ends; the slots hold what they hold.
pub open spec fn setup_happens(world: World, event: SetupEvent) -> bool {
    match event {
        SetupEvent::Pipe(Some((r, w))) => r >= 0 && w >= 0 && r != w && !world.open.contains(r)
            && !world.open.contains(w),
        SetupEvent::Claimed(empty) => empty == (world.read_slot == -1),
        SetupEvent::Loaded(fd) => fd == world.read_slot,
        _ => true,
    }
}

/// What an action of setting up that came to `event` does to the world.
pub open spec fn setup_effect(world: World, setup: Setup, event: SetupEvent) -> World {
    match (setup.phase, event) {
        (_, SetupEvent::Pipe(Some((r, w)))) => World {
            open: world.open.insert(r).insert(w),
            ..world
        },
        (_, SetupEvent::Claimed(true)) => World { read_slot: setup.read_fd, ..world },
        (_, SetupEvent::Stored) => World { write_slot: setup.write_fd, ..world },
        (SetupPhase::Installing(i), SetupEvent::Installed) => World {
            handlers: world.handlers.insert(handled(i as int)),
            ..world
        },
        (SetupPhase::ClosingRead(_), SetupEvent::Closed) => World {
            open: world.open.remove(setup.read_fd),
            ..world
        },
        (SetupPhase::ClosingWrite(_), SetupEvent::Closed) => World {
            open: world.open.remove(setup.write_fd),
            ..world
        },
        _ => world,
    }
}

/// Setting up after a row of events, and the world with it.
pub open spec fn setup_run(world: World, events: Seq<SetupEvent>) -> (Setup, World)
    decreases events.len(),
{
    if events.len() == 0 {
        (Setup::begun(), world)
    } else {
        let (setup, was) = setup_run(world, events.drop_last());
        (setup.next(events.last()).0, setup_effect(was, setup, events.last()))
    }
}

/// Is each event what came of the action asked for before it?
pub open spec fn setup_answered(world: World, events: Seq<SetupEvent>) -> bool
    decreases events.len(),
{
    events.len() > 0 ==> {
        let (setup, was) = setup_run(world, events.drop_last());
        &&& setup_answered(world, events.drop_last())
        &&& setup.awaits(events.last())
        &&& setup_happens(was, events.last())
    }
}

/// What setting up wants after a row of at least one event.
pub open spec fn setup_wants(world: World, events: Seq<SetupEvent>) -> SetupAction {
    setup_run(world, events.drop_last()).0.next(events.last()).1
}

/// What the world is like, by where setting up is.
spec fn setup_inv(first: World, setup: Setup, world: World) -> bool {
    let (r, w) = (setup.read_fd, setup.write_fd);
    let fresh = r >= 0 && w >= 0 && r != w && !first.open.contains(r) && !first.open.contains(w);
    let both = first.open.insert(r).insert(w);
    match setup.phase {
        SetupPhase::Creating | SetupPhase::Loading => world =~= first,
        SetupPhase::ReadFlags | SetupPhase::ReadNonblocking | SetupPhase::WriteFlags
        | SetupPhase::WriteNonblocking | SetupPhase::ReadCloseOnExec
        | SetupPhase::WriteCloseOnExec | SetupPhase::Claiming | SetupPhase::ClosingRead(_) => {
            &&& fresh
            &&& world =~= (World { open: both, ..first })
        },
        SetupPhase::ClosingWrite(_) => {
            &&& fresh
            &&& world =~= (World { open: first.open.insert(w), ..first })
        },
        SetupPhase::Storing => {
            &&& fresh
            &&& first.read_slot == -1
            &&& world =~= (World { open: both, read_slot: r, ..first })
        },
        SetupPhase::Installing(i) => {
            &&& fresh
            &&& i < HANDLED
            &&& first.read_slot == -1
            &&& world =~= (World {
                open: both,
                read_slot: r,
                write_slot: w,
                handlers: first.handlers.union(all_handled(i as int)),
            })
        },
        SetupPhase::Done => true,
    }
}

/// What the world is like when setting up is over.
spec fn setup_end(first: World, setup: Setup, result: Option<i32>, world: World) -> bool {
    match result {
        None => world =~= first,
        Some(fd) => if first.read_slot == -1 {
            let (r, w) = (setup.read_fd, setup.write_fd);
            &&& fd == r
            &&& r >= 0 && w >= 0 && r != w && !first.open.contains(r) && !first.open.contains(w)
            &&& world =~= (World {
                open: first.open.insert(r).insert(w),
                read_slot: r,
                write_slot: w,
                handlers: first.handlers.union(all_handled(HANDLED as int)),
            })
        } else {
            world =~= first && fd == first.read_slot
        },
    }
}

proof fn lemma_setup_step(first: World, setup: Setup, world: World, event: SetupEvent)
    requires
        setup.awaits(event),
        setup_happens(world, event),
        setup_inv(first, setup, world),
    ensures
        setup_inv(first, setup.next(event).0, setup_effect(world, setup, event)),
        setup.next(event).1 matches SetupAction::Return(result) ==> setup_end(
            first,
            setup.next(event).0,
            result,
            setup_effect(world, setup, event),
        ),
{
    match (setup.phase, event) {
        (SetupPhase::Creating, SetupEvent::Pipe(Some((r, w)))) => {},
        (SetupPhase::Claiming, _) => {},
        (SetupPhase::Storing, _) => {
            assert(first.handlers.union(all_handled(0)) =~= first.handlers);
        },
        (SetupPhase::Installing(i), _) => {
            assert(all_handled(i + 1) == all_handled(i as int).insert(handled(i as int)));
            assert(first.handlers.union(all_handled(i as int)).insert(handled(i as int))
                =~= first.handlers.union(all_handled(i + 1)));
        },
        (SetupPhase::ClosingRead(_), _) => {
            assert(first.open.insert(setup.read_fd).insert(setup.write_fd).remove(setup.read_fd)
                =~= first.open.insert(setup.write_fd));
        },
        (SetupPhase::ClosingWrite(_), _) => {
            assert(first.open.insert(setup.write_fd).remove(setup.write_fd) =~= first.open);
        },
        _ => {},
    }
}

proof fn lemma_setup_inv(first: World, events: Seq<SetupEvent>)
    requires
        setup_answered(first, events),
    ensures
        setup_inv(first, setup_run(first, events).0, setup_run(first, events).1),
    decreases events.len(),
{
    if events.len() > 0 {
        lemma_setup_inv(first, events.drop_last());
        let (setup, world) = setup_run(first, events.drop_last());
        lemma_setup_step(first, setup, world, events.last());
    }
}

/// Setting up that comes to nothing leaves the process as it was: no
/// descriptor is lost. If it is already set up, all stays as it is and the read
/// end that is there is given. Otherwise all six signals are handled and both
/// ends of a new pipe are in their slots.
pub proof fn law_setup_is_all_or_nothing(
    first: World,
    events: Seq<SetupEvent>,
    result: Option<i32>,
)
    requires
        events.len() > 0,
        setup_answered(first, events),
        setup_wants(first, events) == SetupAction::Return(result),
    ensures
        ({
            let world = setup_run(first, events).1;
            &&& result is None ==> world == first
            &&& result is Some && first.read_slot != -1 ==> world == first && result == Some(
                first.read_slot,
            )
            &&& result is Some && first.read_slot == -1 ==> {
                &&& result == Some(world.read_slot)
                &&& world.write_slot >= 0 && world.read_slot >= 0
                &&& world.write_slot != world.read_slot
                &&& world.open == first.open.insert(world.read_slot).insert(world.write_slot)
                &&& world.handlers == first.handlers.union(all_handled(HANDLED as int))
            }
            &&& first.is_settled() ==> world.is_settled()
        }),
{
    lemma_setup_inv(first, events.drop_last());
    let (setup, world) = setup_run(first, events.drop_last());
    lemma_setup_step(first, setup, world, events.last());
    if first.is_clean() {
        assert(first.handlers.union(all_handled(HANDLED as int)) =~= all_handled(HANDLED as int));
    }
}

/// While it is set up, no handler ever runs without an open pipe to write to.
pub proof fn law_setup_never_loses_signals(first: World, events: Seq<SetupEvent>)
    requires
        setup_answered(first, events),
        first.is_settled(),
        setup_run(first, events).0.phase !is Done,
    ensures
        setup_run(first, events).1.handlers_have_pipe(),
{
    lemma_setup_inv(first, events);
}

/// May an action of cleaning up come to this in the world?
pub open spec fn cleanup_happens(world: World, cleanup: Cleanup, event: CleanupEvent) -> bool {
    match (cleanup.phase, event) {
        (CleanupPhase::TakingWrite, CleanupEvent::Taken(fd)) => fd == world.write_slot,
        (CleanupPhase::TakingRead, CleanupEvent::Taken(fd)) => fd == world.read_slot,
        _ => true,
    }
}

/// What an action of cleaning up does to the world; `action` is the one that
/// came to `event`.
pub open spec fn cleanup_effect(world: World, action: CleanupAction) -> World {
    match action {
        CleanupAction::Reset { signal } => World {
            handlers: world.handlers.remove(signal),
            ..world
        },
        CleanupAction::TakeWrite => World { write_slot: (-1) as i32, ..world },
        CleanupAction::TakeRead => World { read_slot: (-1) as i32, ..world },
        CleanupAction::Close { fd } => World { open: world.open.remove(fd), ..world },
        CleanupAction::Return => world,
    }
}

/// Cleaning up after a row of events: where it is, what it wants, and the world
/// as far as that was done.
pub open spec fn cleanup_run(world: World, events: Seq<CleanupEvent>) -> (
    Cleanup,
    CleanupAction,
    World,
)
    decreases events.len(),
{
    if events.len() == 0 {
        (
            Cleanup { phase: CleanupPhase::Resetting(0) },
            CleanupAction::Reset { signal: handled(0) },
            world,
        )
    } else {
        let (cleanup, action, was) = cleanup_run(world, events.drop_last());
        let (then, wanted) = cleanup.next(events.last());
        (then, wanted, cleanup_effect(was, action))
    }
}

/// Is each event what came of the action asked for before it?
pub open spec fn cleanup_answered(world: World, events: Seq<CleanupEvent>) -> bool
    decreases events.len(),
{
    events.len() > 0 ==> {
        let (cleanup, _, was) = cleanup_run(world, events.drop_last());
        &&& cleanup_answered(world, events.drop_last())
        &&& cleanup.awaits(events.last())
        &&& cleanup_happens(was, cleanup, events.last())
    }
}

/// The handled signals from number `n` on.
spec fn handled_from(n: int) -> Set<Signal> {
    Set::new(|s: Signal| exists|i: int| n <= i < HANDLED && s == #[trigger] handled(i))
}

/// What the world is like, by where cleaning up is.
spec fn cleanup_inv(first: World, cleanup: Cleanup, action: CleanupAction, world: World) -> bool {
    match cleanup.phase {
        CleanupPhase::Resetting(i) => {
            &&& i < HANDLED
            &&& action == (CleanupAction::Reset { signal: handled(i as int) })
            &&& world.open =~= first.open
            &&& world.read_slot == first.read_slot
            &&& world.write_slot == first.write_slot
            &&& forall|s: Signal| #[trigger]
                world.handlers.contains(s) ==> first.handlers.contains(s) && handled_from(
                    i as int,
                ).contains(s)
        },
        CleanupPhase::TakingWrite => {
            &&& action is TakeWrite
            &&& world =~= (World { handlers: Set::empty(), ..first })
        },
        CleanupPhase::ClosingWrite => {
            &&& action == (CleanupAction::Close { fd: first.write_slot })
            &&& first.write_slot >= 0
            &&& world =~= (World {
                handlers: Set::empty(),
                write_slot: (-1) as i32,
                ..first
            })
        },
        CleanupPhase::TakingRead => {
            &&& action is TakeRead
            &&& world =~= (World {
                handlers: Set::empty(),
                write_slot: (-1) as i32,
                open: without(first.open, first.write_slot),
                ..first
            })
        },
        CleanupPhase::ClosingRead => {
            &&& action == (CleanupAction::Close { fd: first.read_slot })
            &&& first.read_slot >= 0
            &&& world =~= (World {
                handlers: Set::empty(),
                write_slot: (-1) as i32,
                read_slot: (-1) as i32,
                open: without(first.open, first.write_slot),
            })
        },
        CleanupPhase::Done => {
            world =~= (World {
                handlers: Set::empty(),
                write_slot: (-1) as i32,
                read_slot: (-1) as i32,
                open: without(without(first.open, first.write_slot), first.read_slot),
            })
        },
    }
}

/// Some descriptors without the one from a slot.
pub open spec fn without(open: Set<i32>, slot: i32) -> Set<i32> {
    if slot >= 0 {
        open.remove(slot)
    } else {
        open
    }
}

proof fn lemma_cleanup_step(
    first: World,
    cleanup: Cleanup,
    action: CleanupAction,
    world: World,
    event: CleanupEvent,
)
    requires
        first.is_settled(),
        cleanup.awaits(event),
        cleanup_happens(world, cleanup, event),
        cleanup_inv(first, cleanup, action, world),
    ensures
        cleanup_inv(
            first,
            cleanup.next(event).0,
            cleanup.next(event).1,
            cleanup_effect(world, action),
        ),
        cleanup.next(event).1 is Return <==> cleanup.next(event).0.phase is Done,
{
    match (cleanup.phase, event) {
        (CleanupPhase::Resetting(i), _) => {
            let after = cleanup_effect(world, action);
            assert forall|s: Signal| #[trigger] after.handlers.contains(s) implies handled_from(
                i + 1,
            ).contains(s) by {
                assert(world.handlers.contains(s));
                let j = choose|j: int| i <= j < HANDLED && s == #[trigger] handled(j);
                assert(j != i);
            }
            if i + 1 >= HANDLED {
                assert(after.handlers =~= Set::empty());
            }
        },
        _ => {},
    }
}

proof fn lemma_cleanup_inv(first: World, events: Seq<CleanupEvent>)
    requires
        first.is_settled(),
        cleanup_answered(first, events),
    ensures
        ({
            let (cleanup, action, world) = cleanup_run(first, events);
            cleanup_inv(first, cleanup, action, world)
        }),
    decreases events.len(),
{
    if events.len() > 0 {
        lemma_cleanup_inv(first, events.drop_last());
        let (cleanup, action, world) = cleanup_run(first, events.drop_last());
        lemma_cleanup_step(first, cleanup, action, world, events.last());
    } else {
        assert forall|s: Signal| #[trigger] first.handlers.contains(s) implies handled_from(
            0,
        ).contains(s) by {
            lemma_all_handled(s, HANDLED as int);
        }
    }
}

proof fn lemma_all_handled(s: Signal, n: int)
    requires
        0 <= n <= HANDLED,
        all_handled(n).contains(s),
    ensures
        handled_from(0).contains(s),
    decreases n,
{
    if n > 0 {
        if s == handled(n - 1) {
            assert(0 <= n - 1 < HANDLED && s == handled(n - 1));
        } else {
            lemma_all_handled(s, n - 1);
        }
    }
}

/// Cleaning up closes the pipe, empties the slots and leaves no handler, so
/// that it can be set up again. Where nothing is set up it changes nothing.
pub proof fn law_cleanup_undoes_setup(first: World, events: Seq<CleanupEvent>)
    requires
        first.is_settled(),
        cleanup_answered(first, events),
        cleanup_run(first, events).0.phase is Done,
    ensures
        ({
            let world = cleanup_run(first, events).2;
            &&& world.is_clean()
            &&& world.open == without(without(first.open, first.write_slot), first.read_slot)
            &&& first.is_clean() ==> world == first
        }),
{
    lemma_cleanup_inv(first, events);
}

/// While it is cleaned up, no handler ever runs without an open pipe to write
/// to: the handlers are gone before the pipe is.
pub proof fn law_cleanup_never_writes_to_closed_pipe(first: World, events: Seq<CleanupEvent>)
    requires
        first.is_settled(),
        cleanup_answered(first, events),
    ensures
        cleanup_run(first, events).2.handlers_have_pipe(),
{
    lemma_cleanup_inv(first, events);
    let (cleanup, action, world) = cleanup_run(first, events);
    if cleanup.phase is Resetting && first.is_clean() {
        assert(world.handlers =~= Set::empty());
    }
}

/// Setting up and then cleaning up leaves the process as it was.
pub proof fn law_setup_then_cleanup_is_nothing(
    first: World,
    setup: Seq<SetupEvent>,
    fd: i32,
    cleanup: Seq<CleanupEvent>,
)
    requires
        first.is_clean(),
        setup.len() > 0,
        setup_answered(first, setup),
        setup_wants(first, setup) == SetupAction::Return(Some(fd)),
        cleanup_answered(setup_run(first, setup).1, cleanup),
        cleanup_run(setup_run(first, setup).1, cleanup).0.phase is Done,
    ensures
        cleanup_run(setup_run(first, setup).1, cleanup).2 == first,
{
    law_setup_is_all_or_nothing(first, setup, Some(fd));
    lemma_setup_inv(first, setup.drop_last());
    let (state, was) = setup_run(first, setup.drop_last());
    lemma_setup_step(first, state, was, setup.last());
    let world = setup_run(first, setup).1;
    law_cleanup_undoes_setup(world, cleanup);
    assert(without(without(world.open, world.write_slot), world.read_slot) =~= first.open);
    assert(cleanup_run(world, cleanup).2 =~= first);
}

/// The signals that are handled are those that tell a program to stop, or mean
/// what the program makes of them: `SIGTERM`, `SIGINT`, `SIGHUP`, `SIGQUIT`,
/// `SIGUSR1` and `SIGUSR2`, and no others.
pub proof fn law_these_signals_are_handled(signal: Signal)
    ensures
        all_handled(HANDLED as int).contains(signal) <==> signal is SIGTERM || signal is SIGINT
            || signal is SIGHUP || signal is SIGQUIT || signal is SIGUSR1 || signal is SIGUSR2,
{
    reveal_with_fuel(all_handled, 7);
}

/// Setting up takes these steps where nothing fails and the slot is empty: neither
/// end of the pipe blocks, both are closed when another program is run, the read
/// end is claimed, the write end stored, and then the six handlers are installed.
/// The read end is what is given.
pub proof fn law_setting_up_takes_these_steps(
    read: i32,
    write: i32,
    flags: (i32, i32),
    set: (i32, i32),
    closed: (i32, i32),
)
    requires
        flags.0 >= 0 && flags.1 >= 0,
        set.0 >= 0 && set.1 >= 0,
    ensures
        ({
            let (s1, a1) = Setup::begun().next(SetupEvent::Pipe(Some((read, write))));
            let (s2, a2) = s1.next(SetupEvent::Flags(flags.0));
            let (s3, a3) = s2.next(SetupEvent::FlagsSet(set.0));
            let (s4, a4) = s3.next(SetupEvent::Flags(flags.1));
            let (s5, a5) = s4.next(SetupEvent::FlagsSet(set.1));
            let (s6, a6) = s5.next(SetupEvent::FlagsSet(closed.0));
            let (s7, a7) = s6.next(SetupEvent::FlagsSet(closed.1));
            let (s8, a8) = s7.next(SetupEvent::Claimed(true));
            let (s9, a9) = s8.next(SetupEvent::Stored);
            let (h1, b1) = s9.next(SetupEvent::Installed);
            let (h2, b2) = h1.next(SetupEvent::Installed);
            let (h3, b3) = h2.next(SetupEvent::Installed);
            let (h4, b4) = h3.next(SetupEvent::Installed);
            let (h5, b5) = h4.next(SetupEvent::Installed);
            let (_, b6) = h5.next(SetupEvent::Installed);
            &&& a1 == (SetupAction::GetFlags { fd: read })
            &&& a2 == (SetupAction::SetNonblocking { fd: read, flags: flags.0 })
            &&& a3 == (SetupAction::GetFlags { fd: write })
            &&& a4 == (SetupAction::SetNonblocking { fd: write, flags: flags.1 })
            &&& a5 == (SetupAction::SetCloseOnExec { fd: read })
            &&& a6 == (SetupAction::SetCloseOnExec { fd: write })
            &&& a7 == (SetupAction::Claim { fd: read })
            &&& a8 == (SetupAction::StoreWrite { fd: write })
            &&& a9 == (SetupAction::Install { signal: Signal::SIGTERM })
            &&& b1 == (SetupAction::Install { signal: Signal::SIGINT })
            &&& b2 == (SetupAction::Install { signal: Signal::SIGHUP })
            &&& b3 == (SetupAction::Install { signal: Signal::SIGQUIT })
            &&& b4 == (SetupAction::Install { signal: Signal::SIGUSR1 })
            &&& b5 == (SetupAction::Install { signal: Signal::SIGUSR2 })
            &&& b6 == SetupAction::Return(Some(read))
        }),
{
}

/// Setting up comes to nothing only where something failed: no pipe, flags that
/// cannot be read, or an end that cannot be kept from blocking. Then both ends are
/// closed. Where the slot is taken they are closed too, and what is in the slot is
/// given instead.
pub proof fn law_setting_up_fails_only_with_its_steps(setup: Setup, event: SetupEvent, slot: i32)
    requires
        setup.awaits(event),
    ensures
        ({
            let (then, action) = setup.next(event);
            let (closing, next) = then.next(SetupEvent::Closed);
            let (after, end) = closing.next(SetupEvent::Closed);
            let failed = match event {
                SetupEvent::Flags(flags) => flags < 0,
                SetupEvent::FlagsSet(result) => result < 0 && (setup.phase is ReadNonblocking
                    || setup.phase is WriteNonblocking),
                _ => false,
            };
            &&& event == SetupEvent::Pipe(None) ==> action == SetupAction::Return(None)
            &&& failed ==> {
                &&& action == (SetupAction::Close { fd: setup.read_fd })
                &&& next == (SetupAction::Close { fd: setup.write_fd })
                &&& end == SetupAction::Return(None)
            }
            &&& event == SetupEvent::Claimed(false) ==> {
                &&& action == (SetupAction::Close { fd: setup.read_fd })
                &&& next == (SetupAction::Close { fd: setup.write_fd })
                &&& end is LoadRead
                &&& slot >= 0 ==> after.next(SetupEvent::Loaded(slot)).1 == SetupAction::Return(
                    Some(slot),
                )
                &&& slot < 0 ==> after.next(SetupEvent::Loaded(slot)).1 == SetupAction::Return(None)
            }
            &&& !failed && event != SetupEvent::Claimed(false) && setup.phase !is ClosingRead
                && setup.phase !is ClosingWrite ==> action !is Close
        }),
{
}

/// Cleaning up takes these steps: the six handlers are taken out, then each end of
/// the pipe that is in its slot is taken and closed, the write end first.
pub proof fn law_cleaning_up_takes_these_steps(read: i32, write: i32)
    ensures
        ({
            let begun = Cleanup { phase: CleanupPhase::Resetting(0) };
            let (c1, a1) = begun.next(CleanupEvent::Reset);
            let (c2, a2) = c1.next(CleanupEvent::Reset);
            let (c3, a3) = c2.next(CleanupEvent::Reset);
            let (c4, a4) = c3.next(CleanupEvent::Reset);
            let (c5, a5) = c4.next(CleanupEvent::Reset);
            let (c6, a6) = c5.next(CleanupEvent::Reset);
            let (c7, a7) = c6.next(CleanupEvent::Taken(write));
            let (c8, a8) = if write >= 0 {
                c7.next(CleanupEvent::Closed)
            } else {
                (c7, a7)
            };
            let (c9, a9) = c8.next(CleanupEvent::Taken(read));
            let (_, end) = if read >= 0 {
                c9.next(CleanupEvent::Closed)
            } else {
                (c9, a9)
            };
            &&& handled(0) == Signal::SIGTERM
            &&& a1 == (CleanupAction::Reset { signal: Signal::SIGINT })
            &&& a2 == (CleanupAction::Reset { signal: Signal::SIGHUP })
            &&& a3 == (CleanupAction::Reset { signal: Signal::SIGQUIT })
            &&& a4 == (CleanupAction::Reset { signal: Signal::SIGUSR1 })
            &&& a5 == (CleanupAction::Reset { signal: Signal::SIGUSR2 })
            &&& a6 is TakeWrite
            &&& write >= 0 ==> a7 == (CleanupAction::Close { fd: write })
            &&& a8 is TakeRead
            &&& read >= 0 ==> a9 == (CleanupAction::Close { fd: read })
            &&& end is Return
        }),
{
}

} // verus!
