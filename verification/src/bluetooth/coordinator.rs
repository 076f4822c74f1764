//! Keeping at most one listener alive: starting one for each connection
//! that the manager reports, and stopping the one before it.

use crate::bluetooth::CharacteristicId;
use crate::bluetooth::ConnectionState;
use crate::bluetooth::PeripheralId;
use vstd::prelude::*;

verus! {

/// Seconds given to disconnecting from the tracker when everything stops.
pub const DISCONNECT_TIMEOUT_SECS: u64 = 5;

/// Names a listener task.
#[derive(Clone, Copy, Debug, PartialEq, Eq, Hash, Structural)]
pub struct TaskId(pub u64);

/// The listener that is alive: its task and the tracker it listens to.
#[derive(Clone, Copy, Debug, PartialEq, Eq, Structural)]
pub struct Listener {
    pub task: TaskId,
    pub peripheral: PeripheralId,
}

/// How far the coordinator has come.
#[derive(Clone, Copy, Debug, PartialEq, Eq, Structural)]
pub enum CoordinatorPhase {
    /// No connection has been reported yet.
    Initializing,
    /// A connection has been reported at least once.
    Active,
    /// The coordinator has come to its end.
    Stopped,
}

/// The coordinator.
#[derive(Clone, Copy, Debug, PartialEq, Eq, Structural)]
pub struct Coordinator {
    pub phase: CoordinatorPhase,
    pub listener: Option<Listener>,
    /// The name that the next listener task will get.
    pub next_task: u64,
}

/// What the caller is to do, at once and in the order given.
#[derive(Clone, Copy, Debug, PartialEq, Eq, Structural)]
pub enum Command {
    /// Start a listener task under the name `task`, for this tracker and
    /// this characteristic.
    Spawn { task: TaskId, peripheral: PeripheralId, characteristic: CharacteristicId },
    /// Abort the listener task `task`.
    Abort { task: TaskId },
    /// Disconnect from the tracker, whatever comes of it.
    Disconnect { peripheral: PeripheralId },
}

/// The coordinator after a message, with what it orders.
pub struct CoordinatorStep {
    pub coordinator: Coordinator,
    pub commands: Seq<Command>,
}

/// The name after `name`, starting over after the last.
pub open spec fn following(name: u64) -> u64 {
    if name == u64::MAX {
        0
    } else {
        (name + 1) as u64
    }
}

impl Command {
    /// The seconds within which the command has to end, where it is
    /// bounded.
    pub open spec fn bound(self) -> Option<u64> {
        match self {
            Command::Disconnect { .. } => Some(DISCONNECT_TIMEOUT_SECS),
            _ => None,
        }
    }

    /// The seconds within which the command has to end: five for
    /// disconnecting. Starting and aborting a task take no time.
    pub fn timeout_secs(&self) -> (secs: Option<u64>)
        ensures
            secs == self.bound(),
            secs == match *self {
                Command::Disconnect { .. } => Some(5u64),
                _ => None,
            },
    {
        match self {
            Command::Disconnect { .. } => Some(DISCONNECT_TIMEOUT_SECS),
            _ => None,
        }
    }
}

impl Coordinator {
    /// The coordinator before any message.
    pub open spec fn initial() -> Coordinator {
        Coordinator { phase: CoordinatorPhase::Initializing, listener: None, next_task: 0 }
    }

    /// The coordinator once a listener has been started for `peripheral`
    /// and `characteristic`: the new task is started first, and then the
    /// one before it, if there is one, is aborted.
    pub open spec fn replace_listener(
        self,
        peripheral: PeripheralId,
        characteristic: CharacteristicId,
    ) -> CoordinatorStep {
        let task = TaskId(self.next_task);
        let spawn = Command::Spawn { task, peripheral, characteristic };
        CoordinatorStep {
            coordinator: Coordinator {
                phase: CoordinatorPhase::Active,
                listener: Some(Listener { task, peripheral }),
                next_task: following(self.next_task),
            },
            commands: match self.listener {
                Some(old) => seq![spawn, Command::Abort { task: old.task }],
                None => seq![spawn],
            },
        }
    }

    /// The coordinator once the listener, if there is one, has been
    /// aborted, in phase `phase`; `disconnect` says whether the tracker is
    /// to be disconnected from as well.
    pub open spec fn drop_listener(
        self,
        phase: CoordinatorPhase,
        disconnect: bool,
    ) -> CoordinatorStep {
        CoordinatorStep {
            coordinator: Coordinator { phase, listener: None, ..self },
            commands: match self.listener {
                Some(old) => if disconnect {
                    seq![
                        Command::Abort { task: old.task },
                        Command::Disconnect { peripheral: old.peripheral },
                    ]
                } else {
                    seq![Command::Abort { task: old.task }]
                },
                None => Seq::empty(),
            },
        }
    }

    /// The coordinator after `message`; no message means that the channel
    /// has been closed.
    ///
    /// Before the first connection, `Stopping` ends the coordinator with
    /// nothing to clean up, `Connected` starts the first listener, and
    /// anything else is passed over.
    ///
    /// From then on, `Connecting` and `Starting` abort the listener,
    /// `Connected` starts a new listener and aborts the old one, and
    /// `Stopping` aborts the listener, disconnects from its tracker and
    /// ends the coordinator.
    ///
    /// A closed channel ends the coordinator as it is. Once ended, it
    /// orders nothing more.
    pub open spec fn after(self, message: Option<ConnectionState>) -> CoordinatorStep {
        match (self.phase, message) {
            (CoordinatorPhase::Stopped, _) => CoordinatorStep {
                coordinator: self,
                commands: Seq::empty(),
            },
            (_, None) => CoordinatorStep {
                coordinator: Coordinator { phase: CoordinatorPhase::Stopped, ..self },
                commands: Seq::empty(),
            },
            (_, Some(ConnectionState::Connected(peripheral, characteristic))) => self.replace_listener(
                peripheral,
                characteristic,
            ),
            (CoordinatorPhase::Initializing, Some(ConnectionState::Stopping)) => CoordinatorStep {
                coordinator: Coordinator { phase: CoordinatorPhase::Stopped, ..self },
                commands: Seq::empty(),
            },
            (CoordinatorPhase::Initializing, Some(_)) => CoordinatorStep {
                coordinator: self,
                commands: Seq::empty(),
            },
            (CoordinatorPhase::Active, Some(ConnectionState::Stopping)) => self.drop_listener(
                CoordinatorPhase::Stopped,
                true,
            ),
            (CoordinatorPhase::Active, Some(_)) => self.drop_listener(
                CoordinatorPhase::Active,
                false,
            ),
        }
    }

    /// A coordinator that has seen no message yet.
    pub fn new() -> (coordinator: Coordinator)
        ensures
            coordinator == Coordinator::initial(),
    {
        Coordinator { phase: CoordinatorPhase::Initializing, listener: None, next_task: 0 }
    }

    /// Whether the coordinator has come to its end.
    pub fn is_stopped(&self) -> (stopped: bool)
        ensures
            stopped == (self.phase == CoordinatorPhase::Stopped),
    {
        match self.phase {
            CoordinatorPhase::Stopped => true,
            _ => false,
        }
    }

    /// Takes in `message`, or the closing of the channel, and says what to
    /// do about the listener.
    pub fn advance(&mut self, message: Option<ConnectionState>) -> (commands: Vec<Command>)
        ensures
            *final(self) == old(self).after(message).coordinator,
            commands@ == old(self).after(message).commands,
    {
        let mut commands: Vec<Command> = Vec::new();
        match (self.phase, message) {
            (CoordinatorPhase::Stopped, _) => {},
            (_, None) => {
                self.phase = CoordinatorPhase::Stopped;
            },
            (_, Some(ConnectionState::Connected(peripheral, characteristic))) => {
                let task: TaskId = TaskId(self.next_task);
                commands.push(Command::Spawn { task, peripheral, characteristic });
                match self.listener {
                    Some(old) => {
                        commands.push(Command::Abort { task: old.task });
                    },
                    None => {},
                }
                self.phase = CoordinatorPhase::Active;
                self.listener = Some(Listener { task, peripheral });
                self.next_task = if self.next_task == u64::MAX {
                    0
                } else {
                    self.next_task + 1
                };
            },
            (CoordinatorPhase::Initializing, Some(ConnectionState::Stopping)) => {
                self.phase = CoordinatorPhase::Stopped;
            },
            (CoordinatorPhase::Initializing, Some(_)) => {},
            (CoordinatorPhase::Active, Some(other)) => {
                let stopping: bool = match other {
                    ConnectionState::Stopping => true,
                    _ => false,
                };
                match self.listener {
                    Some(old) => {
                        commands.push(Command::Abort { task: old.task });
                        if stopping {
                            commands.push(Command::Disconnect { peripheral: old.peripheral });
                        }
                    },
                    None => {},
                }
                self.listener = None;
                if stopping {
                    self.phase = CoordinatorPhase::Stopped;
                }
            },
        }
        assert(commands@ =~= old(self).after(message).commands);
        commands
    }
}

/// The listener tasks that are alive once `commands` have been carried out
/// in their order, given those that were alive before.
pub open spec fn alive_after(alive: Set<TaskId>, commands: Seq<Command>) -> Set<TaskId>
    decreases commands.len(),
{
    if commands.len() == 0 {
        alive
    } else {
        let before = alive_after(alive, commands.drop_last());
        match commands.last() {
            Command::Spawn { task, .. } => before.insert(task),
            Command::Abort { task } => before.remove(task),
            Command::Disconnect { .. } => before,
        }
    }
}

impl Coordinator {
    /// The listener tasks that the coordinator holds alive: one or none.
    pub open spec fn listening(self) -> Set<TaskId> {
        match self.listener {
            Some(listener) => Set::empty().insert(listener.task),
            None => Set::empty(),
        }
    }

    /// The next name is not the name of the listener that is alive, and
    /// before the first connection there is no listener.
    pub open spec fn wf(self) -> bool {
        &&& self.listener matches Some(listener) ==> listener.task.0 != self.next_task
        &&& self.phase == CoordinatorPhase::Initializing ==> self.listener.is_none()
    }

    /// The coordinator after all of `messages`, in their order.
    pub open spec fn after_all(self, messages: Seq<Option<ConnectionState>>) -> Coordinator
        decreases messages.len(),
    {
        if messages.len() == 0 {
            self
        } else {
            self.after_all(messages.drop_last()).after(messages.last()).coordinator
        }
    }

    /// The listener tasks that are alive after all of `messages`, when the
    /// commands of each have been carried out before the next is taken in.
    pub open spec fn alive_after_all(
        self,
        alive: Set<TaskId>,
        messages: Seq<Option<ConnectionState>>,
    ) -> Set<TaskId>
        decreases messages.len(),
    {
        if messages.len() == 0 {
            alive
        } else {
            alive_after(
                self.alive_after_all(alive, messages.drop_last()),
                self.after_all(messages.drop_last()).after(messages.last()).commands,
            )
        }
    }
}

/// At most one task is in `tasks`.
pub open spec fn at_most_one(tasks: Set<TaskId>) -> bool {
    forall|a: TaskId, b: TaskId| tasks.contains(a) && tasks.contains(b) ==> a == b
}

/// Carrying out what the coordinator orders for one message leaves alive
/// exactly the listener that it holds: the tasks alive before were those it
/// held, and the tasks alive after are those it holds then.
pub proof fn lemma_coordinator_step(
    coordinator: Coordinator,
    message: Option<ConnectionState>,
)
    requires
        coordinator.wf(),
    ensures
        coordinator.after(message).coordinator.wf(),
        alive_after(coordinator.listening(), coordinator.after(message).commands)
            == coordinator.after(message).coordinator.listening(),
        at_most_one(coordinator.after(message).coordinator.listening()),
{
    let step = coordinator.after(message);
    let cmds = step.commands;
    let alive = coordinator.listening();
    if cmds.len() == 0 {
    } else if cmds.len() == 1 {
        assert(cmds.drop_last().len() == 0);
        assert(alive_after(alive, cmds.drop_last()) == alive);
        assert(alive_after(alive, cmds) =~= step.coordinator.listening());
    } else {
        assert(cmds.len() == 2);
        let first = cmds.drop_last();
        assert(first.len() == 1);
        assert(first.drop_last().len() == 0);
        assert(alive_after(alive, first.drop_last()) == alive);
        assert(first.last() == cmds[0]);
        let between = alive_after(alive, first);
        match cmds[0] {
            Command::Spawn { task, .. } => {
                assert(between == alive.insert(task));
            },
            Command::Abort { task } => {
                assert(between == alive.remove(task));
            },
            Command::Disconnect { .. } => {
                assert(between == alive);
            },
        }
        assert(cmds.last() == cmds[1]);
        assert(alive_after(alive, cmds) =~= step.coordinator.listening());
    }
}

/// Whatever the manager reports, and in whatever order: between any two
/// messages at most one listener task is alive, and it is the one that the
/// coordinator holds.
pub proof fn lemma_coordinator_single_listener(messages: Seq<Option<ConnectionState>>)
    ensures
        Coordinator::initial().after_all(messages).wf(),
        Coordinator::initial().alive_after_all(Set::empty(), messages)
            == Coordinator::initial().after_all(messages).listening(),
        at_most_one(Coordinator::initial().alive_after_all(Set::empty(), messages)),
    decreases messages.len(),
{
    if messages.len() > 0 {
        lemma_coordinator_single_listener(messages.drop_last());
        lemma_coordinator_step(
            Coordinator::initial().after_all(messages.drop_last()),
            messages.last(),
        );
    }
}

/// A new connection starts its listener before the old one is aborted, and
/// the abort follows at once: while the commands for one message are
/// carried out, two listeners exist only between those two commands.
pub proof fn lemma_coordinator_replaces_in_order(
    coordinator: Coordinator,
    peripheral: PeripheralId,
    characteristic: CharacteristicId,
)
    requires
        coordinator.phase != CoordinatorPhase::Stopped,
    ensures
        ({
            let step = coordinator.after(
                Some(ConnectionState::Connected(peripheral, characteristic)),
            );
            let spawn = Command::Spawn {
                task: TaskId(coordinator.next_task),
                peripheral,
                characteristic,
            };
            &&& step.coordinator.listener == Some(
                Listener { task: TaskId(coordinator.next_task), peripheral },
            )
            &&& step.coordinator.phase == CoordinatorPhase::Active
            &&& match coordinator.listener {
                Some(old) => step.commands == seq![spawn, Command::Abort { task: old.task }],
                None => step.commands == seq![spawn],
            }
        }),
{
}

/// `Stopping` leaves no listener behind: the one that was alive is aborted
/// and its tracker disconnected from, in that order and within the bound,
/// and the coordinator has come to its end. Before the first connection
/// there is nothing to clean up.
pub proof fn lemma_coordinator_stops_clean(coordinator: Coordinator)
    requires
        coordinator.wf(),
        coordinator.phase != CoordinatorPhase::Stopped,
    ensures
        ({
            let step = coordinator.after(Some(ConnectionState::Stopping));
            &&& step.coordinator.phase == CoordinatorPhase::Stopped
            &&& step.coordinator.listener.is_none()
            &&& match coordinator.listener {
                Some(old) => step.commands == seq![
                    Command::Abort { task: old.task },
                    Command::Disconnect { peripheral: old.peripheral },
                ],
                None => step.commands == Seq::<Command>::empty(),
            }
        }),
{
}

/// Once the coordinator has come to its end, it orders nothing.
pub proof fn lemma_coordinator_end_is_final(
    coordinator: Coordinator,
    message: Option<ConnectionState>,
)
    requires
        coordinator.phase == CoordinatorPhase::Stopped,
    ensures
        coordinator.after(message).coordinator == coordinator,
        coordinator.after(message).commands == Seq::<Command>::empty(),
{
}

} // verus!
