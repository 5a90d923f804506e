use vstd::prelude::*;

use crate::channel::{channel_send, new_channel, peek, wait, Peeked, RecvOutcome, Waited};
use crate::executor::{tick_shared, tick_thread_local, Ticked};

verus! {

/// Used to send a result to a [`Promise`].
///
/// You must call [`Self::send`] with a value eventually.
///
/// If you drop the `Sender` without putting a value into it, the connected
/// [`Promise`] answers [`SenderDropped`] when polled.
#[must_use]
#[verifier::reject_recursive_types(T)]
pub struct Sender<T>(std::sync::mpsc::Sender<T>);

impl<T> Sender<T> {
    /// Send the result to the [`Promise`].
    ///
    /// If the [`Promise`] has been dropped, this does nothing.
    pub fn send(self, value: T) {
        let _delivered = channel_send(&self.0, value);
    }
}

/// The type of a running task.
#[derive(Clone, Copy, Debug, PartialEq, Eq)]
pub enum TaskType {
    /// Runs on the thread that polls, on a thread-local executor.
    Local,
    /// Runs asynchronously on a shared executor, possibly elsewhere.
    Async,
    /// Runs some other way (a thread of its own, a blocking pool, or not
    /// at all: whoever holds the sender delivers the value).
    Other,
}

/// Whether the promised value is there yet.
#[derive(Debug, PartialEq, Eq)]
pub enum Poll<T> {
    /// The value is there.
    Ready(T),
    /// The value is not there yet.
    Pending,
}

/// The [`Sender`] of a promise was dropped before it sent a value, so the
/// value will never come.
#[derive(Clone, Copy, Debug, PartialEq, Eq)]
pub struct SenderDropped;

/// What one settling step does, as a function of the promised value held
/// before it (`None` while pending) and of what the channel gave: the answer
/// (`Ok(true)` ready, `Ok(false)` still pending) and the value held after.
pub open spec fn settled<T>(before: Option<T>, outcome: RecvOutcome<T>) -> (Result<bool, SenderDropped>, Option<T>) {
    match before {
        Some(v) => (Ok(true), Some(v)),
        None => match outcome {
            RecvOutcome::Received(v) => (Ok(true), Some(v)),
            RecvOutcome::Empty => (Ok(false), None),
            RecvOutcome::Disconnected => (Err(SenderDropped), None),
        },
    }
}

/// What holds of every poll, whatever the channel gave: a ready promise
/// answers ready and keeps its value; a pending one either becomes ready
/// (and says so) or stays pending (and answers pending or sender-dropped).
pub open spec fn polled<T>(before: Option<T>, answer: Result<bool, SenderDropped>, after: Option<T>) -> bool {
    match before {
        Some(v) => answer == Ok::<bool, SenderDropped>(true) && after == Some(v),
        None => if answer == Ok::<bool, SenderDropped>(true) {
            after is Some
        } else {
            after is None
        },
    }
}

#[verifier::reject_recursive_types(T)]
enum PromiseStatus<T: Send + 'static> {
    Pending(std::sync::mpsc::Receiver<T>),
    Ready(T),
}

#[verifier::reject_recursive_types(T)]
struct PromiseImpl<T: Send + 'static>(PromiseStatus<T>);

impl<T: Send + 'static> PromiseImpl<T> {
    spec fn value(&self) -> Option<T> {
        match self.0 {
            PromiseStatus::Pending(_) => None,
            PromiseStatus::Ready(v) => Some(v),
        }
    }

    fn is_ready(&self) -> (ready: bool)
        ensures
            ready == self.value() is Some,
    {
        match &self.0 {
            PromiseStatus::Pending(_) => false,
            PromiseStatus::Ready(_) => true,
        }
    }

    fn value_ref(&self) -> (value: &T)
        requires
            self.value() is Some,
        ensures
            self.value() == Some(*value),
    {
        match &self.0 {
            PromiseStatus::Ready(value) => value,
            PromiseStatus::Pending(_) => vstd::pervasive::unreached(),
        }
    }
}


impl<T: Send + 'static> PromiseImpl<T> {
    fn value_mut(&mut self) -> (value: &mut T)
        requires
            old(self).value() is Some,
        ensures
            old(self).value() == Some(*value),
            final(self).value() == Some(*final(value)),
    {
        match &mut self.0 {
            PromiseStatus::Ready(value) => value,
            PromiseStatus::Pending(_) => vstd::pervasive::unreached(),
        }
    }

    fn into_value(self) -> (value: T)
        requires
            self.value() is Some,
        ensures
            self.value() == Some(value),
    {
        match self.0 {
            PromiseStatus::Ready(value) => value,
            PromiseStatus::Pending(_) => vstd::pervasive::unreached(),
        }
    }

    /// One settling step: a pending promise takes what the channel gave.
    fn settle(&mut self, outcome: RecvOutcome<T>) -> (answer: Result<bool, SenderDropped>)
        ensures
            final(self).value() is None ==> *final(self) == *old(self),
            (answer, final(self).value()) == settled(old(self).value(), outcome),
    {
        if self.is_ready() {
            return Ok(true);
        }
        match outcome {
            RecvOutcome::Received(value) => {
                self.0 = PromiseStatus::Ready(value);
                Ok(true)
            },
            RecvOutcome::Empty => Ok(false),
            RecvOutcome::Disconnected => Err(SenderDropped),
        }
    }

    /// Looks into the channel once, without blocking, if still pending.
    fn poll_status(&mut self) -> (result: (Result<bool, SenderDropped>, Option<Peeked<T>>))
        ensures
            final(self).value() is None ==> *final(self) == *old(self),
            polled(old(self).value(), result.0, final(self).value()),
            old(self).value() is Some ==> result.1 is None,
            old(self).value() is None ==> (result.1 matches Some(p) && (result.0, final(self).value())
                == settled(None, p.outcome())),
    {
        let (outcome, witness) = match &self.0 {
            PromiseStatus::Ready(_) => {
                return (Ok(true), None);
            },
            PromiseStatus::Pending(rx) => peek(rx),
        };
        (self.settle(outcome), Some(witness))
    }

    fn poll(&mut self) -> (result: (Result<Poll<&T>, SenderDropped>, Option<Peeked<T>>))
        ensures
            final(self).value() is None ==> *final(self) == *old(self),
            polled(old(self).value(), answer_kind(result.0), final(self).value()),
            result.0 matches Ok(Poll::Ready(v)) ==> final(self).value() == Some(*v),
            old(self).value() is Some ==> result.1 is None,
            old(self).value() is None ==> (result.1 matches Some(p) && (
                answer_kind(result.0),
                final(self).value(),
            ) == settled(None, p.outcome())),
    {
        let (status, witness) = self.poll_status();
        let answer = match status {
            Err(e) => Err(e),
            Ok(false) => Ok(Poll::Pending),
            Ok(true) => Ok(Poll::Ready(self.value_ref())),
        };
        (answer, witness)
    }

    fn poll_mut(&mut self) -> (result: (Result<Poll<&mut T>, SenderDropped>, Option<Peeked<T>>))
        ensures
            final(self).value() is None ==> *final(self) == *old(self),
            result.0 matches Ok(Poll::Ready(v)) ==> {
                &&& polled(old(self).value(), Ok(true), Some(*v))
                &&& final(self).value() == Some(*final(v))
            },
            !(result.0 matches Ok(Poll::Ready(_))) ==> polled(
                old(self).value(),
                answer_kind(result.0),
                final(self).value(),
            ),
            old(self).value() is Some ==> result.1 is None,
            old(self).value() is None ==> (result.1 matches Some(p) && answer_kind(result.0)
                == settled(None, p.outcome()).0 && (result.0 matches Ok(Poll::Ready(v)) ==> Some(*v)
                == settled(None, p.outcome()).1)),
    {
        let (status, witness) = self.poll_status();
        let answer = match status {
            Err(e) => Err(e),
            Ok(false) => Ok(Poll::Pending),
            Ok(true) => Ok(Poll::Ready(self.value_mut())),
        };
        (answer, witness)
    }
}

impl<T: Send + 'static> PromiseImpl<T> {
    /// Returns either the completed value or the promise itself if it is not
    /// completed yet.
    fn try_take(self) -> (result: (Result<Result<T, Self>, SenderDropped>, Option<Peeked<T>>))
        ensures
            self.value() is Some ==> result.0 == Ok::<Result<T, Self>, SenderDropped>(Ok(self.value()->0))
                && result.1 is None,
            result.0 matches Ok(Err(p)) ==> self.value() is None && p == self,
            result.0 is Err ==> self.value() is None,
            self.value() is None ==> (result.1 matches Some(p) && taken_kind(result.0) == settled(
                None,
                p.outcome(),
            ).0 && (result.0 matches Ok(Ok(v)) ==> Some(v) == settled(None, p.outcome()).1)),
    {
        let mut this = self;
        let (status, witness) = this.poll_status();
        let taken = match status {
            Err(e) => Err(e),
            Ok(false) => Ok(Err(this)),
            Ok(true) => Ok(Ok(this.into_value())),
        };
        (taken, witness)
    }

    /// Waits, blocking the thread, until the value is there.
    fn block_until_ready(&mut self) -> (result: (Result<&T, SenderDropped>, Option<Waited<T>>))
        ensures
            final(self).value() is None ==> *final(self) == *old(self),
            old(self).value() is Some ==> result.0 is Ok && result.1 is None,
            result.0 matches Ok(v) ==> polled(old(self).value(), Ok(true), final(self).value())
                && final(self).value() == Some(*v),
            result.0 is Err ==> old(self).value() is None && final(self).value() is None,
            old(self).value() is None ==> (result.1 matches Some(w) && (
                result.0 is Err <==> settled(None, w.outcome()).0 is Err) && (result.0 matches Ok(v)
                ==> Some(*v) == settled(None, w.outcome()).1) && !(w.outcome() is Empty)),
    {
        let (status, witness) = self.block_status();
        let value = match status {
            Err(e) => Err(e),
            Ok(()) => Ok(self.value_ref()),
        };
        (value, witness)
    }

    /// Waits, blocking the thread, until the value is there, and gives it
    /// for writing.
    fn block_until_ready_mut(&mut self) -> (result: (Result<&mut T, SenderDropped>, Option<Waited<T>>))
        ensures
            final(self).value() is None ==> *final(self) == *old(self),
            old(self).value() is Some ==> result.0 is Ok && result.1 is None,
            result.0 matches Ok(v) ==> polled(old(self).value(), Ok(true), Some(*v))
                && final(self).value() == Some(*final(v)),
            result.0 is Err ==> old(self).value() is None && final(self).value() is None,
            old(self).value() is None ==> (result.1 matches Some(w) && (
                result.0 is Err <==> settled(None, w.outcome()).0 is Err) && (result.0 matches Ok(v)
                ==> Some(*v) == settled(None, w.outcome()).1) && !(w.outcome() is Empty)),
    {
        let (status, witness) = self.block_status();
        let value = match status {
            Err(e) => Err(e),
            Ok(()) => Ok(self.value_mut()),
        };
        (value, witness)
    }

    /// Blocks on the channel if still pending, then settles.
    fn block_status(&mut self) -> (result: (Result<(), SenderDropped>, Option<Waited<T>>))
        ensures
            final(self).value() is None ==> *final(self) == *old(self),
            old(self).value() is Some ==> result.0 is Ok && result.1 is None,
            result.0 is Ok ==> polled(old(self).value(), Ok(true), final(self).value()),
            result.0 is Err ==> old(self).value() is None && final(self).value() is None,
            old(self).value() is None ==> (result.1 matches Some(w) && (
                result.0 is Err <==> settled(None, w.outcome()).0 is Err) && final(self).value()
                == settled(None, w.outcome()).1 && !(w.outcome() is Empty)),
    {
        let (outcome, witness) = match &self.0 {
            PromiseStatus::Ready(_) => {
                return (Ok(()), None);
            },
            PromiseStatus::Pending(rx) => wait(rx),
        };
        let status = match self.settle(outcome) {
            Err(e) => Err(e),
            Ok(_) => Ok(()),
        };
        (status, Some(witness))
    }

    /// Ticks the executor that runs a task of the given type: the shared one
    /// for `Async`, the thread-local one for `Local`, none for `Other`.
    fn tick(
        task_type: TaskType,
        executor: &smol::Executor<'_>,
        local_executor: &smol::LocalExecutor<'_>,
    ) -> (ticked: Ticked)
        ensures
            task_type == TaskType::Async <==> ticked is Shared,
            task_type == TaskType::Local <==> ticked is Local,
            task_type == TaskType::Other <==> ticked is Nothing,
    {
        match task_type {
            TaskType::Local => Ticked::Local(tick_thread_local(local_executor)),
            TaskType::Async => Ticked::Shared(tick_shared(executor)),
            TaskType::Other => Ticked::Nothing,
        }
    }
}

/// A promise that waits for the reception of a single value,
/// presumably from some async task.
///
/// A `Promise` starts out waiting for a value.
/// Each time you call a member method it will check if that value is ready.
/// Once ready, the `Promise` will store the value until you drop the `Promise`.
///
/// Its view is `None` while the value has not arrived and `Some(value)` once
/// it has.
#[must_use]
#[verifier::reject_recursive_types(T)]
pub struct Promise<T: Send + 'static> {
    data: PromiseImpl<T>,
    task_type: TaskType,
    smol_task: Option<smol::Task<()>>,
}

impl<T: Send + 'static> View for Promise<T> {
    type V = Option<T>;

    closed spec fn view(&self) -> Option<T> {
        self.data.value()
    }
}

impl<T: Send + 'static> Promise<T> {
    /// The type of the task that delivers the value.
    pub closed spec fn spec_task_type(&self) -> TaskType {
        self.task_type
    }

    /// Whether the promise holds the handle of a `smol` task (dropping the
    /// promise cancels that task).
    pub closed spec fn has_task(&self) -> bool {
        self.smol_task is Some
    }

    /// Same task type and same task handle presence.
    pub open spec fn same_task(&self, other: &Self) -> bool {
        self.spec_task_type() == other.spec_task_type() && self.has_task() == other.has_task()
    }

    /// Create a [`Promise`] and a corresponding [`Sender`].
    ///
    /// Put the promised value into the sender when it is ready.
    /// If you drop the `Sender` without putting a value into it,
    /// polling the `Promise` answers [`SenderDropped`].
    pub fn new() -> (pair: (Sender<T>, Self))
        ensures
            pair.1@ is None,
            pair.1.spec_task_type() == TaskType::Other,
            !pair.1.has_task(),
    {
        let (tx, rx) = new_channel();
        (
            Sender(tx),
            Promise {
                data: PromiseImpl(PromiseStatus::Pending(rx)),
                task_type: TaskType::Other,
                smol_task: None,
            },
        )
    }

    /// Create a promise that already has the result.
    pub fn from_ready(value: T) -> (promise: Self)
        ensures
            promise@ == Some(value),
            promise.spec_task_type() == TaskType::Other,
            !promise.has_task(),
    {
        Promise {
            data: PromiseImpl(PromiseStatus::Ready(value)),
            task_type: TaskType::Other,
            smol_task: None,
        }
    }

    /// Records the task that will deliver the value: its type, and the handle
    /// of the `smol` task, which the promise then keeps alive. This is what
    /// the spawning functions do once the task runs.
    pub fn attach_task(&mut self, task_type: TaskType, task: smol::Task<()>)
        ensures
            final(self)@ == old(self)@,
            final(self).spec_task_type() == task_type,
            final(self).has_task(),
    {
        self.task_type = task_type;
        self.smol_task = Some(task);
    }

    /// One settling step, with what the channel gave as the argument: a ready
    /// promise ignores it and answers `Ok(true)`; a pending one becomes ready
    /// with a received value, stays pending on an empty channel (`Ok(false)`),
    /// and answers [`SenderDropped`] when the sender is gone.
    pub fn settle(&mut self, outcome: RecvOutcome<T>) -> (answer: Result<bool, SenderDropped>)
        ensures
            final(self)@ is None ==> *final(self) == *old(self),
            (answer, final(self)@) == settled(old(self)@, outcome),
            final(self).same_task(old(self)),
    {
        self.data.settle(outcome)
    }

    /// Returns either a reference to the ready value in [`Poll::Ready`]
    /// or [`Poll::Pending`].
    ///
    /// Answers [`SenderDropped`] if the connected [`Sender`] was dropped
    /// before a value was sent.
    pub fn poll(&mut self) -> (answer: Result<Poll<&T>, SenderDropped>)
        ensures
            final(self)@ is None ==> *final(self) == *old(self),
            polled(old(self)@, answer_kind(answer), final(self)@),
            answer matches Ok(Poll::Ready(v)) ==> final(self)@ == Some(*v),
            final(self).same_task(old(self)),
    {
        self.data.poll().0
    }

    /// Returns either a mutable reference to the ready value in
    /// [`Poll::Ready`] or [`Poll::Pending`].
    ///
    /// Answers [`SenderDropped`] if the connected [`Sender`] was dropped
    /// before a value was sent.
    pub fn poll_mut(&mut self) -> (answer: Result<Poll<&mut T>, SenderDropped>)
        ensures
            final(self)@ is None ==> *final(self) == *old(self),
            answer matches Ok(Poll::Ready(v)) ==> {
                &&& polled(old(self)@, Ok(true), Some(*v))
                &&& final(self)@ == Some(*final(v))
            },
            !(answer matches Ok(Poll::Ready(_))) ==> polled(
                old(self)@,
                answer_kind(answer),
                final(self)@,
            ),
            final(self).same_task(old(self)),
    {
        self.data.poll_mut().0
    }
}

impl<T: Send + 'static> Promise<T> {
    /// Polls the promise and either returns a reference to the data, or
    /// `None` if still pending.
    ///
    /// Answers [`SenderDropped`] if the connected [`Sender`] was dropped
    /// before a value was sent.
    pub fn ready(&mut self) -> (answer: Result<Option<&T>, SenderDropped>)
        ensures
            final(self)@ is None ==> *final(self) == *old(self),
            polled(old(self)@, ready_kind(answer), final(self)@),
            answer matches Ok(Some(v)) ==> final(self)@ == Some(*v),
            final(self).same_task(old(self)),
    {
        match self.poll() {
            Ok(Poll::Ready(value)) => Ok(Some(value)),
            Ok(Poll::Pending) => Ok(None),
            Err(e) => Err(e),
        }
    }

    /// Polls the promise and either returns a mutable reference to the data,
    /// or `None` if still pending.
    ///
    /// Answers [`SenderDropped`] if the connected [`Sender`] was dropped
    /// before a value was sent.
    pub fn ready_mut(&mut self) -> (answer: Result<Option<&mut T>, SenderDropped>)
        ensures
            final(self)@ is None ==> *final(self) == *old(self),
            answer matches Ok(Some(v)) ==> {
                &&& polled(old(self)@, Ok(true), Some(*v))
                &&& final(self)@ == Some(*final(v))
            },
            !(answer matches Ok(Some(_))) ==> polled(old(self)@, ready_kind(answer), final(self)@),
            final(self).same_task(old(self)),
    {
        match self.poll_mut() {
            Ok(Poll::Ready(value)) => Ok(Some(value)),
            Ok(Poll::Pending) => Ok(None),
            Err(e) => Err(e),
        }
    }

    /// Returns either the completed promise object or the promise itself if
    /// it is not completed yet.
    ///
    /// Answers [`SenderDropped`] if the connected [`Sender`] was dropped
    /// before a value was sent.
    pub fn try_take(self) -> (taken: Result<Result<T, Self>, SenderDropped>)
        ensures
            self@ is Some ==> taken == Ok::<Result<T, Self>, SenderDropped>(Ok(self@->0)),
            taken matches Ok(Err(p)) ==> self@ is None && p == self,
            taken is Err ==> self@ is None,
    {
        let Promise { data, task_type, smol_task } = self;
        match data.try_take().0 {
            Err(e) => Err(e),
            Ok(Ok(value)) => Ok(Ok(value)),
            Ok(Err(data)) => Ok(Err(Promise { data, task_type, smol_task })),
        }
    }

    /// Block execution until ready, then returns a reference to the value.
    ///
    /// Answers [`SenderDropped`] if the connected [`Sender`] was dropped
    /// before a value was sent.
    ///
    /// This waits on the channel and ticks no executor. For a promise whose
    /// task is of type `Local` or `Async`, on a `smol` executor that nothing
    /// else runs, call [`Self::poll_ticked`] until it answers ready first, or
    /// this waits for good.
    pub fn block_until_ready(&mut self) -> (value: Result<&T, SenderDropped>)
        ensures
            final(self)@ is None ==> *final(self) == *old(self),
            old(self)@ is Some ==> value is Ok,
            value matches Ok(v) ==> polled(old(self)@, Ok(true), final(self)@) && final(self)@ == Some(*v),
            value is Err ==> old(self)@ is None && final(self)@ is None,
            final(self).same_task(old(self)),
    {
        self.data.block_until_ready().0
    }

    /// Block execution until ready, then returns a mutable reference to the
    /// value.
    ///
    /// Answers [`SenderDropped`] if the connected [`Sender`] was dropped
    /// before a value was sent.
    ///
    /// This waits on the channel and ticks no executor. For a promise whose
    /// task is of type `Local` or `Async`, on a `smol` executor that nothing
    /// else runs, call [`Self::poll_ticked`] until it answers ready first, or
    /// this waits for good.
    pub fn block_until_ready_mut(&mut self) -> (value: Result<&mut T, SenderDropped>)
        ensures
            final(self)@ is None ==> *final(self) == *old(self),
            old(self)@ is Some ==> value is Ok,
            value matches Ok(v) ==> polled(old(self)@, Ok(true), Some(*v)) && final(self)@ == Some(
                *final(v),
            ),
            value is Err ==> old(self)@ is None && final(self)@ is None,
            final(self).same_task(old(self)),
    {
        self.data.block_until_ready_mut().0
    }

    /// Block execution until ready, then returns the promised value and
    /// consumes the `Promise`.
    ///
    /// Answers [`SenderDropped`] if the connected [`Sender`] was dropped
    /// before a value was sent.
    ///
    /// This waits on the channel and ticks no executor. For a promise whose
    /// task is of type `Local` or `Async`, on a `smol` executor that nothing
    /// else runs, call [`Self::poll_ticked`] until it answers ready first, or
    /// this waits for good.
    pub fn block_and_take(self) -> (value: Result<T, SenderDropped>)
        ensures
            self@ is Some ==> value == Ok::<T, SenderDropped>(self@->0),
            value is Err ==> self@ is None,
    {
        let mut data = self.data;
        match data.block_status().0 {
            Err(e) => Err(e),
            Ok(()) => Ok(data.into_value()),
        }
    }

    /// Returns the type of task this promise is running.
    /// See [`TaskType`].
    pub fn task_type(&self) -> (task_type: TaskType)
        ensures
            task_type == self.spec_task_type(),
    {
        self.task_type
    }

    /// Polls the promise, first ticking the executor that runs its task
    /// (see [`crate::tick`] and [`crate::tick_local`]) while it is still
    /// pending, so that a promise of a task on a `smol` executor makes
    /// progress without anyone else running the executor. Also returns which
    /// executor was ticked.
    pub fn poll_ticked(
        &mut self,
        executor: &smol::Executor<'_>,
        local_executor: &smol::LocalExecutor<'_>,
    ) -> (answer: (Result<Poll<&T>, SenderDropped>, Ticked))
        ensures
            final(self)@ is None ==> *final(self) == *old(self),
            polled(old(self)@, answer_kind(answer.0), final(self)@),
            answer.0 matches Ok(Poll::Ready(v)) ==> final(self)@ == Some(*v),
            final(self).same_task(old(self)),
            old(self)@ is None ==> {
                &&& old(self).spec_task_type() == TaskType::Async <==> answer.1 is Shared
                &&& old(self).spec_task_type() == TaskType::Local <==> answer.1 is Local
                &&& old(self).spec_task_type() == TaskType::Other <==> answer.1 is Nothing
            },
            old(self)@ is Some ==> answer.1 is Nothing,
    {
        let ticked = if self.data.is_ready() {
            Ticked::Nothing
        } else {
            PromiseImpl::<T>::tick(self.task_type, executor, local_executor)
        };
        (self.data.poll().0, ticked)
    }

    /// Abort the running task, if the promise holds one: dropping the
    /// `smol` task handle cancels the task.
    pub fn abort(self) {
        let _task: Option<smol::Task<()>> = self.smol_task;
    }
}

/// The answer of [`Promise::ready`] with the value left out.
pub open spec fn ready_kind<V>(answer: Result<Option<V>, SenderDropped>) -> Result<bool, SenderDropped> {
    match answer {
        Ok(Some(_)) => Ok(true),
        Ok(None) => Ok(false),
        Err(e) => Err(e),
    }
}

/// The answer of a take with the value and the promise left out.
pub open spec fn taken_kind<V, P>(taken: Result<Result<V, P>, SenderDropped>) -> Result<bool, SenderDropped> {
    match taken {
        Ok(Ok(_)) => Ok(true),
        Ok(Err(_)) => Ok(false),
        Err(e) => Err(e),
    }
}

/// The answer of a poll with the value left out.
pub open spec fn answer_kind<V>(answer: Result<Poll<V>, SenderDropped>) -> Result<bool, SenderDropped> {
    match answer {
        Ok(Poll::Ready(_)) => Ok(true),
        Ok(Poll::Pending) => Ok(false),
        Err(e) => Err(e),
    }
}

} // verus!
