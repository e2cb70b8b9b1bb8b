use vstd::prelude::*;
use vstd::string::StringExecFns;
use std::collections::VecDeque;
use std::sync::Arc;
use std::sync::Mutex;
use std::sync::MutexGuard;
use std::sync::PoisonError;
use std::sync::atomic::AtomicUsize;
use std::sync::atomic::Ordering;
use crate::collect::reversed;
use crate::text::text_of;

verus! {

/// `std::sync::Mutex`, whose content contracts cannot see.
#[verifier::external_type_specification]
#[verifier::external_body]
#[verifier::reject_recursive_types(T)]
pub struct ExMutex<T: ?Sized>(Mutex<T>);

/// `std::sync::MutexGuard`, the hold on a locked mutex.
#[verifier::external_type_specification]
#[verifier::external_body]
#[verifier::reject_recursive_types(T)]
pub struct ExMutexGuard<'a, T: ?Sized + 'a>(MutexGuard<'a, T>);

/// `std::sync::PoisonError`, the report that a holder of a lock panicked.
#[verifier::external_type_specification]
#[verifier::external_body]
#[verifier::reject_recursive_types(T)]
pub struct ExPoisonError<T>(PoisonError<T>);

/// `async_channel::Sender`, the sending end of a channel.
#[verifier::external_type_specification]
#[verifier::external_body]
#[verifier::reject_recursive_types(T)]
pub struct ExSender<T>(async_channel::Sender<T>);

/// `async_channel::Receiver`, the receiving end of a channel.
#[verifier::external_type_specification]
#[verifier::external_body]
#[verifier::reject_recursive_types(T)]
pub struct ExReceiver<T>(async_channel::Receiver<T>);

/// `Mutex::new`: a mutex around the value. Nothing is claimed of it.
#[verifier::external_body]
fn new_mutex<T>(value: T) -> (mutex: Mutex<T>) {
    Mutex::new(value)
}

/// `Mutex::lock`: the guard, or the report that an earlier holder panicked.
/// Another holder may have changed what is guarded, so nothing is claimed
/// of it. The call waits for the lock; it does not return to a thread that
/// already holds it, which no clause here can rule out: see `lock`.
#[verifier::external_body]
fn try_lock<'a, T>(mutex: &'a Mutex<T>) -> (guard: Result<
    MutexGuard<'a, T>,
    PoisonError<MutexGuard<'a, T>>,
>) {
    mutex.lock()
}

/// `PoisonError::into_inner`: the guard that the report holds.
#[verifier::external_body]
fn recover<'a, T>(poisoned: PoisonError<MutexGuard<'a, T>>) -> (guard: MutexGuard<'a, T>) {
    poisoned.into_inner()
}

/// The guard of the mutex, whether or not an earlier holder panicked.
///
/// The call does not return to a thread that already holds the lock. The
/// library itself never asks for a lock that it holds: it lets go of every
/// guard before its function returns or calls what it was handed, with two
/// exceptions that their holders must mind. The guard that `Arguments::get`
/// hands out is the caller's to let go of, and the function given to
/// `Returns::set_fn` runs under a lock of its own.
fn lock<'a, T>(mutex: &'a Mutex<T>) -> (guard: MutexGuard<'a, T>) {
    match try_lock(mutex) {
        Ok(guard) => guard,
        Err(poisoned) => recover(poisoned),
    }
}

/// `DerefMut::deref_mut` of a guard: the guarded value, for as long as the
/// guard is borrowed. Nothing is claimed of the value.
#[verifier::external_body]
pub(crate) fn guarded<'a, 'b, T>(guard: &'a mut MutexGuard<'b, T>) -> (value: &'a mut T) {
    &mut **guard
}

/// `Arc::clone`: another handle to the same allocation. The process is
/// aborted where more handles exist than `isize::MAX`.
#[verifier::external_body]
fn share<T>(handle: &Arc<T>) -> (other: Arc<T>)
    ensures
        other == *handle,
{
    Arc::clone(handle)
}

/// `Arc::get_mut`: the value where no other handle to it exists. Whether
/// one exists lies with the other holders, so nothing is claimed.
#[verifier::external_body]
fn sole<'a, T>(handle: &'a mut Arc<T>) -> (value: Option<&'a mut T>) {
    Arc::get_mut(handle)
}

/// `async_channel::unbounded`: the two ends of a new channel without a
/// limit. Nothing is claimed of them.
#[verifier::external_body]
fn notices() -> (ends: (async_channel::Sender<()>, async_channel::Receiver<()>)) {
    async_channel::unbounded()
}

/// `Sender::send_blocking` of one unit. A channel without a limit takes it
/// without waiting; whether the channel is still open lies with its
/// receivers, and the outcome is dropped.
#[verifier::external_body]
fn notify(sender: &async_channel::Sender<()>) {
    let _ = sender.send_blocking(());
}

/// `Clone::clone` of a sender: another sender into the same channel. The
/// process is aborted where more senders exist than half of `usize::MAX`.
#[verifier::external_body]
fn share_sender(sender: &async_channel::Sender<()>) -> (other: async_channel::Sender<()>) {
    sender.clone()
}

/// `Clone::clone` of a receiver: another receiver of the same channel. The
/// process is aborted where more receivers exist than half of `usize::MAX`.
#[verifier::external_body]
fn share_receiver(receiver: &async_channel::Receiver<()>) -> (other: async_channel::Receiver<()>) {
    receiver.clone()
}

/// A function that makes return values from arguments, held in a box as
/// `dyn FnMut(&A) -> R + Send`. It may keep state of its own between calls;
/// contracts see nothing of it.
#[verifier::external_body]
#[verifier::reject_recursive_types(A)]
#[verifier::reject_recursive_types(R)]
pub struct ReturnFn<A, R> {
    call: Box<dyn FnMut(&A) -> R + Send + 'static>,
}

/// `Box::new` of the function, held for the calls to come.
#[verifier::external_body]
fn boxed<A, R, F: FnMut(&A) -> R + Send + 'static>(getter: F) -> (held: ReturnFn<A, R>) {
    ReturnFn { call: Box::new(getter) }
}

/// `FnMut::call_mut` of the held function, once. What it returns lies with
/// the function and the state it keeps, so nothing is claimed of it.
#[verifier::external_body]
fn call<A, R>(held: &mut ReturnFn<A, R>, arguments: &A) -> (value: R) {
    (held.call)(arguments)
}

/// A call that found no return value left.
#[derive(Debug)]
pub struct CalledTooManyTimesError;

/// Where the return values of a function come from.
#[verifier::reject_recursive_types(A)]
#[verifier::reject_recursive_types(R)]
pub enum ReturnQueue<A, R> {
    /// The values that are left, next first.
    Finite(VecDeque<R>),
    /// A function that makes a value for each call, under a lock of its
    /// own.
    Infinite(Arc<Mutex<ReturnFn<A, R>>>),
}

/// What a queue hands over for one call.
#[verifier::reject_recursive_types(A)]
#[verifier::reject_recursive_types(R)]
pub enum Step<A, R> {
    /// The next of the values that were left.
    Value(R),
    /// Nothing: no value was left.
    Exhausted,
    /// The function to ask for a value.
    Ask(Arc<Mutex<ReturnFn<A, R>>>),
}

/// The return value that a step stands for: the value it holds, what the
/// function it holds makes of the arguments, or the failure of a call that
/// found nothing left. The function is called under its own lock.
pub fn answer<A, R>(step: Step<A, R>, arguments: &A) -> (out: Result<R, CalledTooManyTimesError>)
    ensures
        match step {
            Step::Value(value) => out is Ok && out->Ok_0 == value,
            Step::Exhausted => out is Err,
            Step::Ask(_) => out is Ok,
        },
{
    match step {
        Step::Value(value) => Ok(value),
        Step::Exhausted => Err(CalledTooManyTimesError),
        Step::Ask(held) => {
            let mut guard = lock(&held);
            Ok(call(guarded(&mut guard), arguments))
        },
    }
}

impl<A, R> ReturnQueue<A, R> {
    /// The values that are left, where they are counted.
    pub open spec fn pending(self) -> Option<Seq<R>> {
        match self {
            ReturnQueue::Finite(queue) => Some(queue@),
            ReturnQueue::Infinite(_) => None,
        }
    }

    /// A queue of the given values, first first.
    pub fn from_iter(values: Vec<R>) -> (out: Self)
        ensures
            out.pending() == Some(values@),
    {
        let ghost all = values@;
        let mut rest = reversed(values);
        let mut queue: VecDeque<R> = VecDeque::new();
        while rest.len() > 0
            invariant
                rest@.len() <= all.len(),
                rest@ == all.reverse().take(rest@.len() as int),
                queue@ == all.take(all.len() - rest@.len()),
            decreases rest@.len(),
        {
            let ghost length = rest@.len();
            let next = rest.pop().unwrap();
            queue.push_back(next);
            proof {
                assert(next == all[all.len() - length]);
                assert(rest@ =~= all.reverse().take(length - 1));
                assert(queue@ =~= all.take(all.len() - length + 1));
            }
        }
        proof {
            assert(all.take(all.len() as int) =~= all);
        }
        ReturnQueue::Finite(queue)
    }

    /// What the queue hands over for one call: the first of the values
    /// left, which then leaves the queue; nothing, where none is left; or
    /// the function that makes the values, which stays.
    pub fn step(&mut self) -> (out: Step<A, R>)
        ensures
            match *old(self) {
                ReturnQueue::Finite(queue) => if queue@.len() == 0 {
                    out is Exhausted && final(self).pending() == Some(queue@)
                } else {
                    out is Value && out->Value_0 == queue@[0] && final(self).pending() == Some(
                        queue@.skip(1),
                    )
                },
                ReturnQueue::Infinite(held) => out == Step::<A, R>::Ask(held) && *final(self)
                    == *old(self),
            },
    {
        match self {
            ReturnQueue::Finite(queue) => {
                match queue.pop_front() {
                    Some(value) => Step::Value(value),
                    None => Step::Exhausted,
                }
            },
            ReturnQueue::Infinite(held) => Step::Ask(share(held)),
        }
    }

    /// The next return value: the first of those left, which then leaves
    /// the queue; what the function makes of the arguments; or the failure
    /// of a call that finds none left.
    pub fn next(&mut self, arguments: &A) -> (out: Result<R, CalledTooManyTimesError>)
        ensures
            match old(self).pending() {
                Some(left) => if left.len() == 0 {
                    out is Err && final(self).pending() == Some(left)
                } else {
                    out is Ok && out->Ok_0 == left[0] && final(self).pending() == Some(left.skip(1))
                },
                None => out is Ok && final(self).pending() is None,
            },
    {
        let step = self.step();
        answer(step, arguments)
    }

    /// How many return values are left; none are counted where a function
    /// makes them.
    pub fn len(&self) -> (out: usize)
        ensures
            out == match self.pending() {
                Some(left) => left.len(),
                None => 0,
            },
    {
        match self {
            ReturnQueue::Finite(queue) => queue.len(),
            ReturnQueue::Infinite(_) => 0,
        }
    }
}

/// The return values of a function, shared by every clone.
#[verifier::reject_recursive_types(A)]
#[verifier::reject_recursive_types(R)]
pub struct Returns<A, R> {
    queue: Arc<Mutex<ReturnQueue<A, R>>>,
    set_count: Arc<AtomicUsize>,
}

impl<A, R> Clone for Returns<A, R> {
    fn clone(&self) -> (out: Self)
        ensures
            out == *self,
    {
        Self { queue: share(&self.queue), set_count: share(&self.set_count) }
    }
}

impl<A, R> Default for Returns<A, R> {
    fn default() -> (out: Self) {
        Self {
            queue: Arc::new(new_mutex(ReturnQueue::Finite(VecDeque::new()))),
            set_count: Arc::new(AtomicUsize::new(0)),
        }
    }
}

impl<A, R> Returns<A, R> {
    /// Puts the values in place of what was to be returned; they are
    /// returned in order, first first.
    pub fn set(&self, values: Vec<R>) {
        let queue: ReturnQueue<A, R> = ReturnQueue::from_iter(values);
        self.set_count.fetch_add(queue.len(), Ordering::Relaxed);
        let mut guard = lock(&self.queue);
        *guarded(&mut guard) = queue;
    }

    /// Puts the function in place of what was to be returned; every call is
    /// then answered by it.
    ///
    /// The function runs under a lock of its own and under no other lock of
    /// the library: it may set return values and read or take the captured
    /// arguments. It must not make a call that this same function is to
    /// answer, on any clone: that call would wait for the lock that the
    /// running call holds, and not return.
    pub fn set_fn<F: FnMut(&A) -> R + Send + 'static>(&self, getter: F) {
        let held = Arc::new(new_mutex(boxed(getter)));
        let mut guard = lock(&self.queue);
        *guarded(&mut guard) = ReturnQueue::Infinite(held);
    }

    /// What the shared queue hands over at the time of the call, as
    /// `ReturnQueue::step` gives it. The lock on the queue is let go of
    /// before the step is returned.
    fn step(&self) -> (out: Step<A, R>) {
        let mut guard = lock(&self.queue);
        guarded(&mut guard).step()
    }

    /// The next return value, as `answer` gives it for what the shared
    /// queue hands over at the time of the call. A function that makes the
    /// value is called after the lock on the queue is let go of.
    pub fn next(&self, arguments: &A) -> (out: Result<R, CalledTooManyTimesError>) {
        let step = self.step();
        answer(step, arguments)
    }

    /// Whether no clone shares the return values any more.
    pub fn is_last_reference(&mut self) -> (last: bool) {
        sole(&mut self.queue).is_some()
    }

    /// How many return values are left at the time of the call.
    pub fn queue_len(&self) -> (out: usize) {
        let mut guard = lock(&self.queue);
        guarded(&mut guard).len()
    }

    /// How many return values have been set so far, over all calls of
    /// `set`.
    pub fn set_count(&self) -> (out: usize) {
        self.set_count.load(Ordering::Relaxed)
    }
}

/// The arguments that a function was called with, shared by every clone.
#[derive(Debug)]
#[verifier::reject_recursive_types(A)]
pub struct Arguments<A> {
    captured: Arc<Mutex<Vec<A>>>,
    sender: async_channel::Sender<()>,
    receiver: async_channel::Receiver<()>,
}

impl<A> Clone for Arguments<A> {
    fn clone(&self) -> (out: Self) {
        Self {
            captured: share(&self.captured),
            sender: share_sender(&self.sender),
            receiver: share_receiver(&self.receiver),
        }
    }
}

impl<A> Default for Arguments<A> {
    fn default() -> (out: Self) {
        let (sender, receiver) = notices();
        Self { captured: Arc::new(new_mutex(Vec::new())), sender, receiver }
    }
}

impl<A> Arguments<A> {
    /// Records the arguments of one call behind those of the calls before,
    /// and sends notice of it.
    pub fn push(&self, arguments: A) {
        let mut guard = lock(&self.captured);
        guarded(&mut guard).push(arguments);
        notify(&self.sender);
    }

    /// The captured arguments, under their lock.
    ///
    /// The lock is held for as long as the guard lives. Until the guard is
    /// let go of, the thread that holds it must not record a call of this
    /// function, take its arguments or ask for them again, on any clone:
    /// each of these waits for the lock, and would not return.
    pub fn get(&self) -> (guard: MutexGuard<'_, Vec<A>>) {
        lock(&self.captured)
    }

    /// The captured arguments; none are left behind.
    pub fn take(&self) -> (taken: Vec<A>) {
        let mut taken: Vec<A> = Vec::new();
        let mut guard = lock(&self.captured);
        std::mem::swap(guarded(&mut guard), &mut taken);
        taken
    }

    /// A receiver of the notices of calls.
    pub fn receiver(&self) -> (out: async_channel::Receiver<()>) {
        share_receiver(&self.receiver)
    }
}

/// The digit as a character.
pub open spec fn spec_digit(digit: nat) -> Seq<char> {
    if digit == 0 {
        "0"@
    } else if digit == 1 {
        "1"@
    } else if digit == 2 {
        "2"@
    } else if digit == 3 {
        "3"@
    } else if digit == 4 {
        "4"@
    } else if digit == 5 {
        "5"@
    } else if digit == 6 {
        "6"@
    } else if digit == 7 {
        "7"@
    } else if digit == 8 {
        "8"@
    } else {
        "9"@
    }
}

/// The number in decimal digits.
pub open spec fn spec_decimal(number: nat) -> Seq<char>
    decreases number,
{
    if number < 10 {
        spec_digit(number)
    } else {
        spec_decimal(number / 10) + spec_digit(number % 10)
    }
}

fn digit(value: usize) -> (out: &'static str)
    requires
        value < 10,
    ensures
        out@ == spec_digit(value as nat),
{
    if value == 0 {
        "0"
    } else if value == 1 {
        "1"
    } else if value == 2 {
        "2"
    } else if value == 3 {
        "3"
    } else if value == 4 {
        "4"
    } else if value == 5 {
        "5"
    } else if value == 6 {
        "6"
    } else if value == 7 {
        "7"
    } else if value == 8 {
        "8"
    } else {
        "9"
    }
}

/// The number in decimal digits.
pub fn decimal(number: usize) -> (out: String)
    ensures
        out@ == spec_decimal(number as nat),
    decreases number,
{
    if number < 10 {
        text_of(digit(number))
    } else {
        let mut out = decimal(number / 10);
        out.append(digit(number % 10));
        out
    }
}

/// The number of the call that follows `set_count` answered ones.
pub open spec fn spec_calls(set_count: usize) -> nat {
    if set_count == usize::MAX {
        set_count as nat
    } else {
        (set_count + 1) as nat
    }
}

/// What is reported of a call that found no return value left.
pub open spec fn spec_called_too_many_times(name: Seq<char>, set_count: nat, calls: nat) -> Seq<char> {
    "function '"@ + name + "' had "@ + spec_decimal(set_count) + " return values set, but was called "@
        + spec_decimal(calls) + " time(s)"@
}

/// What is reported of return values that were set and never used.
pub open spec fn spec_unused_return_values(name: Seq<char>, left: nat) -> Seq<char> {
    "function '"@ + name + "' had "@ + spec_decimal(left) + " unused return values when dropped"@
}

/// What is reported of a call of the named function that found no return
/// value left, after `set_count` values had been set.
pub fn called_too_many_times(name: &str, set_count: usize) -> (out: String)
    ensures
        out@ == spec_called_too_many_times(name@, set_count as nat, spec_calls(set_count)),
{
    let mut out = text_of("function '");
    out.append(name);
    out.append("' had ");
    out.append(decimal(set_count).as_str());
    out.append(" return values set, but was called ");
    out.append(decimal(set_count.saturating_add(1)).as_str());
    out.append(" time(s)");
    out
}

/// What is reported when a function is let go: nothing where other clones
/// remain or no return value is left, else that values were never used.
pub fn unused_return_values(name: &str, last_reference: bool, left: usize) -> (out: Option<String>)
    ensures
        out.is_some() == (last_reference && left != 0),
        out.is_some() ==> out.unwrap()@ == spec_unused_return_values(name@, left as nat),
{
    if last_reference && left != 0 {
        let mut out = text_of("function '");
        out.append(name);
        out.append("' had ");
        out.append(decimal(left).as_str());
        out.append(" unused return values when dropped");
        Some(out)
    } else {
        None
    }
}

/// One function of a double: records the arguments of each call and
/// answers it.
#[verifier::reject_recursive_types(A)]
#[verifier::reject_recursive_types(R)]
pub struct SpyFunction<A, R> {
    /// The captured arguments the function was called with.
    pub arguments: Arguments<A>,
    /// The return values of the function.
    pub returns: Returns<A, R>,
    name: &'static str,
}

impl<A, R> Clone for SpyFunction<A, R> {
    fn clone(&self) -> (out: Self) {
        Self { arguments: self.arguments.clone(), returns: self.returns.clone(), name: self.name }
    }
}

impl<A, R> SpyFunction<A, R> {
    /// A function known by the given name, with nothing captured and
    /// nothing to return.
    pub fn from(name: &'static str) -> (out: Self)
        ensures
            out.name() == name@,
    {
        Self { arguments: Arguments::default(), returns: Returns::default(), name }
    }

    /// The name that the function is known by.
    pub closed spec fn name(self) -> Seq<char> {
        self.name@
    }

    /// Records the arguments and answers with the next return value. A call
    /// that finds none left is answered with the report of it; its
    /// arguments are recorded all the same.
    pub fn spy(&self, arguments: A) -> (out: Result<R, String>)
        ensures
            out matches Err(report) ==> exists|set_count: usize|
                report@ == #[trigger] spec_called_too_many_times(
                    self.name(),
                    set_count as nat,
                    spec_calls(set_count),
                ),
    {
        let return_value = self.returns.next(&arguments);
        self.arguments.push(arguments);
        match return_value {
            Ok(value) => Ok(value),
            Err(_) => {
                let set_count = self.returns.set_count();
                let report = called_too_many_times(self.name, set_count);
                proof {
                    assert(report@ == spec_called_too_many_times(
                        self.name(),
                        set_count as nat,
                        spec_calls(set_count),
                    ));
                }
                Err(report)
            },
        }
    }

    /// The report of return values that were set and never used, where
    /// this is the last clone and some are left.
    pub fn unused(&mut self) -> (out: Option<String>)
        ensures
            final(self).name() == old(self).name(),
            out matches Some(report) ==> exists|left: usize|
                left != 0 && report@ == #[trigger] spec_unused_return_values(
                    old(self).name(),
                    left as nat,
                ),
    {
        let last_reference = self.returns.is_last_reference();
        let left = self.returns.queue_len();
        let out = unused_return_values(self.name, last_reference, left);
        proof {
            if out.is_some() {
                assert(out.unwrap()@ == spec_unused_return_values(old(self).name(), left as nat));
            }
        }
        out
    }
}

} // verus!
