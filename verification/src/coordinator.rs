//! Coordination of access to the one shared wallet.
//!
//! Reads share the wallet; a mutation has it alone. A mutation that cannot
//! have the wallet at once, or within its bounded wait, is turned away as
//! `Busy` and never queued. Whatever a mutation ends in, its hold is gone
//! when it returns.

use vstd::prelude::*;

verus! {

/// How a holder has the wallet.
#[derive(Clone, Copy, Debug, PartialEq, Eq, Structural)]
pub enum AccessMode {
    /// Together with other readers.
    Shared,
    /// Alone.
    Exclusive,
}

/// A hold on the wallet, for one operation. It is handed out by the
/// coordinator and given back to it when the operation is over, however it
/// ended.
#[derive(Debug)]
pub struct WalletAccessToken {
    mode: AccessMode,
}

impl View for WalletAccessToken {
    type V = AccessMode;

    closed spec fn view(&self) -> AccessMode {
        self.mode
    }
}

impl WalletAccessToken {
    pub fn mode(&self) -> (mode: AccessMode)
        ensures
            mode == self@,
    {
        self.mode
    }
}

/// The wallet is held in a way that shuts the caller out.
#[derive(Clone, Copy, Debug, PartialEq, Eq, Structural)]
pub struct Busy;

/// Why a mutation gave no value.
#[derive(Debug)]
pub enum MutateError<E> {
    /// The wallet was held; the operation did not run.
    Busy,
    /// The operation ran and failed.
    Failed(E),
}

/// What a bounded wait for the wallet comes to at one look.
#[derive(Debug)]
pub enum Acquire {
    /// The wallet was free and is now held with this token.
    Granted(WalletAccessToken),
    /// The wallet is held and the wait is not over: look again.
    Wait,
    /// The wallet is held and the wait is over.
    Busy,
}

/// What a `WalletCoordinator` holds, as plain values.
pub struct CoordinatorView {
    /// Shared holds that are out.
    pub readers: nat,
    /// Whether the exclusive hold is out.
    pub writer: bool,
    /// Mutations that have come to their end; the count stops at the largest
    /// `u64`.
    pub completed: nat,
}

impl CoordinatorView {
    /// Nobody reads while somebody mutates.
    pub open spec fn well_formed(self) -> bool {
        self.writer ==> self.readers == 0
    }

    /// Nobody holds the wallet.
    pub open spec fn idle(self) -> bool {
        !self.writer && self.readers == 0
    }

    /// A reader can come in: readers never shut each other out, only a
    /// mutation does, and the count of readers has to fit its counter.
    pub open spec fn admits_reader(self) -> bool {
        !self.writer && self.readers < u64::MAX
    }

    /// The coordinator after a shared hold was asked for.
    pub open spec fn with_reader(self) -> CoordinatorView {
        if self.admits_reader() {
            CoordinatorView { readers: self.readers + 1, ..self }
        } else {
            self
        }
    }

    /// The coordinator after the exclusive hold was asked for.
    pub open spec fn with_writer(self) -> CoordinatorView {
        if self.idle() {
            CoordinatorView { writer: true, ..self }
        } else {
            self
        }
    }

    /// The count of mutations after one more has come to its end.
    pub open spec fn counted_once_more(self) -> nat {
        if self.completed < u64::MAX {
            self.completed + 1
        } else {
            self.completed
        }
    }

    /// Whether a hold of this mode is out, so that one can be given back.
    pub open spec fn holds(self, mode: AccessMode) -> bool {
        match mode {
            AccessMode::Shared => self.readers > 0,
            AccessMode::Exclusive => self.writer,
        }
    }

    /// The coordinator after a hold of this mode was given back.
    pub open spec fn without(self, mode: AccessMode) -> CoordinatorView {
        if !self.holds(mode) {
            self
        } else {
            match mode {
                AccessMode::Shared => CoordinatorView {
                    readers: (self.readers - 1) as nat,
                    ..self
                },
                AccessMode::Exclusive => CoordinatorView {
                    writer: false,
                    completed: self.counted_once_more(),
                    ..self
                },
            }
        }
    }
}

/// Every step the coordinator can take keeps readers and a mutation apart.
pub proof fn lemma_steps_keep_well_formed(state: CoordinatorView, mode: AccessMode)
    requires
        state.well_formed(),
    ensures
        state.with_reader().well_formed(),
        state.with_writer().well_formed(),
        state.without(mode).well_formed(),
{
}

/// Readers do not shut each other out: as long as no mutation holds the
/// wallet, one more reader is let in however many there are, and none of
/// those inside is touched.
pub proof fn lemma_readers_do_not_block(state: CoordinatorView)
    requires
        !state.writer,
        state.readers < u64::MAX,
    ensures
        state.with_reader().readers == state.readers + 1,
        !state.with_reader().writer,
        state.with_reader().completed == state.completed,
{
}

/// No reader sees a mutation half done: while a reader is inside no mutation
/// is let in, and while a mutation is inside no reader is.
pub proof fn lemma_no_partial_mutation(state: CoordinatorView)
    requires
        state.well_formed(),
    ensures
        state.readers > 0 ==> state.with_writer() == state,
        state.writer ==> state.with_reader() == state,
        state.with_writer().writer && !state.writer ==> state.readers == 0,
{
}

/// A hold that is taken and given back leaves the coordinator as it was,
/// but for the count of mutations.
pub proof fn lemma_hold_is_released(state: CoordinatorView)
    requires
        state.well_formed(),
    ensures
        state.idle() ==> state.with_writer().without(AccessMode::Exclusive) == (CoordinatorView {
            completed: state.counted_once_more(),
            ..state
        }),
        state.admits_reader() ==> state.with_reader().without(AccessMode::Shared) == state,
{
}

/// Keeps count of who holds the wallet, and decides who may.
pub struct WalletCoordinator {
    readers: u64,
    writer: bool,
    completed: u64,
}

impl View for WalletCoordinator {
    type V = CoordinatorView;

    closed spec fn view(&self) -> CoordinatorView {
        CoordinatorView {
            readers: self.readers as nat,
            writer: self.writer,
            completed: self.completed as nat,
        }
    }
}

impl WalletCoordinator {
    #[verifier::type_invariant]
    spec fn apart(self) -> bool {
        self.writer ==> self.readers == 0
    }

    /// A coordinator of a wallet that nobody holds.
    pub fn new() -> (coordinator: Self)
        ensures
            coordinator@ == (CoordinatorView { readers: 0, writer: false, completed: 0 }),
    {
        WalletCoordinator { readers: 0, writer: false, completed: 0 }
    }

    /// The number of shared holds that are out.
    pub fn readers(&self) -> (readers: u64)
        ensures
            readers == self@.readers,
            self@.well_formed(),
    {
        proof {
            use_type_invariant(self);
        }
        self.readers
    }

    /// Whether the exclusive hold is out.
    pub fn is_exclusively_held(&self) -> (held: bool)
        ensures
            held == self@.writer,
            self@.well_formed(),
    {
        proof {
            use_type_invariant(self);
        }
        self.writer
    }

    /// The number of mutations that have come to their end; the count stops
    /// at the largest `u64`.
    pub fn completed(&self) -> (completed: u64)
        ensures
            completed == self@.completed,
    {
        self.completed
    }

    /// Asks for a shared hold. It is granted unless a mutation holds the
    /// wallet; other readers are no hindrance.
    pub fn begin_query(&mut self) -> (token: Option<WalletAccessToken>)
        ensures
            token is Some <==> old(self)@.admits_reader(),
            token matches Some(t) ==> t@ == AccessMode::Shared,
            final(self)@ == old(self)@.with_reader(),
    {
        if !self.writer && self.readers < u64::MAX {
            self.readers = self.readers + 1;
            Some(WalletAccessToken { mode: AccessMode::Shared })
        } else {
            None
        }
    }

    /// Asks for the exclusive hold. It is granted only if nobody holds the
    /// wallet; otherwise the answer is `Busy`, at once.
    pub fn begin_mutate(&mut self) -> (token: Result<WalletAccessToken, Busy>)
        ensures
            token is Ok <==> old(self)@.idle(),
            token matches Ok(t) ==> t@ == AccessMode::Exclusive,
            final(self)@ == old(self)@.with_writer(),
    {
        if !self.writer && self.readers == 0 {
            self.writer = true;
            Ok(WalletAccessToken { mode: AccessMode::Exclusive })
        } else {
            Err(Busy)
        }
    }

    /// One look of a bounded wait for the exclusive hold, `waited_ms` after
    /// the wait began. A free wallet is granted; a held one is waited for
    /// until `acquire_timeout_ms` have passed, and is `Busy` from then on.
    pub fn acquire_exclusive(&mut self, waited_ms: u64, acquire_timeout_ms: u64) -> (acquire: Acquire)
        ensures
            final(self)@ == old(self)@.with_writer(),
            old(self)@.idle() ==> (acquire matches Acquire::Granted(t) && t@
                == AccessMode::Exclusive),
            !old(self)@.idle() && waited_ms < acquire_timeout_ms ==> acquire is Wait,
            !old(self)@.idle() && waited_ms >= acquire_timeout_ms ==> acquire is Busy,
    {
        match self.begin_mutate() {
            Ok(token) => Acquire::Granted(token),
            Err(_) => if waited_ms < acquire_timeout_ms {
                Acquire::Wait
            } else {
                Acquire::Busy
            },
        }
    }

    /// Takes a hold back. The answer says whether a hold of the token's mode
    /// was out; if none was, nothing changes.
    pub fn release(&mut self, token: WalletAccessToken) -> (released: bool)
        ensures
            released == old(self)@.holds(token@),
            final(self)@ == old(self)@.without(token@),
    {
        proof {
            use_type_invariant(&*self);
        }
        match token.mode {
            AccessMode::Shared => {
                if self.readers > 0 {
                    self.readers = self.readers - 1;
                    true
                } else {
                    false
                }
            },
            AccessMode::Exclusive => {
                if self.writer {
                    self.writer = false;
                    if self.completed < u64::MAX {
                        self.completed = self.completed + 1;
                    }
                    true
                } else {
                    false
                }
            },
        }
    }

    /// Runs a read of the wallet under a shared hold. The read is turned
    /// away only while a mutation holds the wallet. The coordinator is left
    /// as it was found.
    pub fn query<W, T, F: FnOnce(&W) -> T>(&mut self, wallet: &W, op: F) -> (result: Result<T, Busy>)
        requires
            call_requires(op, (wallet,)),
        ensures
            final(self)@ == old(self)@,
            result is Ok <==> old(self)@.admits_reader(),
            result matches Ok(value) ==> call_ensures(op, (wallet,), value),
    {
        match self.begin_query() {
            Some(token) => {
                let value = op(wallet);
                self.release(token);
                Ok(value)
            },
            None => Err(Busy),
        }
    }

    /// Runs a mutation of the wallet under the exclusive hold.
    ///
    /// If anybody holds the wallet the answer is `Busy`: the operation does
    /// not run and the wallet is untouched. Otherwise the operation runs
    /// once, alone, and its result is handed on. In every case the
    /// coordinator holds for this call nothing when it returns: readers and
    /// the exclusive hold are as they were before.
    pub fn mutate<W, T, E, F: FnOnce(&mut W) -> Result<T, E>>(&mut self, wallet: &mut W, op: F) -> (result:
        Result<T, MutateError<E>>)
        requires
            forall|w: &mut W| call_requires(op, (w,)),
        ensures
            final(self)@.readers == old(self)@.readers,
            final(self)@.writer == old(self)@.writer,
            !old(self)@.idle() ==> (result matches Err(MutateError::Busy) && *final(wallet) == *old(
                wallet,
            ) && final(self)@ == old(self)@),
            old(self)@.idle() ==> final(self)@.completed == old(self)@.counted_once_more() && exists|
                w: &mut W,
            |
                {
                    &&& *w == *old(wallet)
                    &&& *final(w) == *final(wallet)
                    &&& match result {
                        Ok(value) => call_ensures(op, (w,), Ok::<T, E>(value)),
                        Err(MutateError::Failed(error)) => call_ensures(
                            op,
                            (w,),
                            Err::<T, E>(error),
                        ),
                        Err(MutateError::Busy) => false,
                    }
                },
    {
        match self.begin_mutate() {
            Ok(token) => {
                let outcome = op(wallet);
                self.release(token);
                match outcome {
                    Ok(value) => Ok(value),
                    Err(error) => Err(MutateError::Failed(error)),
                }
            },
            Err(_) => Err(MutateError::Busy),
        }
    }
}

} // verus!
