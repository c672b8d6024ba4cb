use vstd::prelude::*;

verus! {

/// The abstract state of a transfer slot: the value waiting to be read, and
/// whether the producer side has gone away.
pub struct SlotView<T> {
    pub pending: Option<T>,
    pub closed: bool,
}

/// What a non-blocking read of the slot found.
#[derive(Debug, PartialEq, Eq)]
pub enum Polled<T> {
    /// A value was waiting; it has been taken out.
    Ready(T),
    /// Nothing is waiting yet and the producer may still send.
    Empty,
    /// Nothing is waiting and the producer will never send.
    Closed,
}

/// A refused `send`; the value is handed back untouched.
#[derive(Debug, PartialEq, Eq)]
pub enum SendError<T> {
    /// A value is already waiting: it is kept, the new one is refused.
    Occupied(T),
    /// The slot was closed before this send.
    Closed(T),
}

impl<T> SlotView<T> {
    /// A send is accepted only into an open, empty slot.
    pub open spec fn accepts(self) -> bool {
        self.pending is None && !self.closed
    }

    pub open spec fn after_send(self, v: T) -> SlotView<T> {
        if self.accepts() {
            SlotView { pending: Some(v), closed: self.closed }
        } else {
            self
        }
    }

    pub open spec fn after_receive(self) -> SlotView<T> {
        SlotView { pending: None, closed: self.closed }
    }

    /// The results of `n` consecutive reads, oldest first.
    pub open spec fn receive_results(self, n: nat) -> Seq<Option<T>>
        decreases n,
    {
        if n == 0 {
            Seq::empty()
        } else {
            seq![self.pending] + self.after_receive().receive_results((n - 1) as nat)
        }
    }

    pub open spec fn polled(self) -> Polled<T> {
        match self.pending {
            Some(v) => Polled::Ready(v),
            None => if self.closed {
                Polled::Closed
            } else {
                Polled::Empty
            },
        }
    }
}

/// A single-slot hand-off between a producer and a consumer: at most one
/// value waits in it, a read drains it, and a second write into a full slot
/// is refused rather than overwriting.
pub struct TransferSlot<T> {
    pending: Option<T>,
    closed: bool,
}

impl<T> View for TransferSlot<T> {
    type V = SlotView<T>;

    closed spec fn view(&self) -> SlotView<T> {
        SlotView { pending: self.pending, closed: self.closed }
    }
}

impl<T> TransferSlot<T> {
    pub fn new() -> (s: Self)
        ensures
            s@.pending is None,
            !s@.closed,
    {
        TransferSlot { pending: None, closed: false }
    }

    /// Stores `v` if the slot is open and empty; otherwise hands `v` back.
    pub fn send(&mut self, v: T) -> (r: Result<(), SendError<T>>)
        ensures
            final(self)@ == old(self)@.after_send(v),
            r is Ok <==> old(self)@.accepts(),
            old(self)@.closed ==> r == Err::<(), SendError<T>>(SendError::Closed(v)),
            !old(self)@.closed && old(self)@.pending is Some ==> r == Err::<(), SendError<T>>(
                SendError::Occupied(v),
            ),
    {
        if self.closed {
            Err(SendError::Closed(v))
        } else if self.pending.is_some() {
            Err(SendError::Occupied(v))
        } else {
            self.pending = Some(v);
            Ok(())
        }
    }

    /// Takes the waiting value, if any; the slot is empty afterwards.
    pub fn try_receive(&mut self) -> (r: Option<T>)
        ensures
            r == old(self)@.pending,
            final(self)@ == old(self)@.after_receive(),
    {
        self.pending.take()
    }

    /// Takes the waiting value, or says whether one may still come.
    pub fn poll(&mut self) -> (r: Polled<T>)
        ensures
            r == old(self)@.polled(),
            final(self)@ == old(self)@.after_receive(),
    {
        match self.pending.take() {
            Some(v) => Polled::Ready(v),
            None => if self.closed {
                Polled::Closed
            } else {
                Polled::Empty
            },
        }
    }

    /// Marks the producer side as gone; a waiting value can still be read.
    pub fn close(&mut self)
        ensures
            final(self)@ == (SlotView { pending: old(self)@.pending, closed: true }),
    {
        self.closed = true;
    }

    pub fn is_closed(&self) -> (r: bool)
        ensures
            r == self@.closed,
    {
        self.closed
    }

    pub fn is_empty(&self) -> (r: bool)
        ensures
            r == (self@.pending is None),
    {
        self.pending.is_none()
    }
}

/// After a send into an open, empty slot, the first read returns the sent
/// value and every later read, up to the next send, returns nothing.
pub proof fn lemma_send_then_receive_once<T>(s: SlotView<T>, v: T, n: nat)
    requires
        s.accepts(),
    ensures
        s.after_send(v).receive_results(n + 1) == seq![Some(v)] + Seq::new(
            n,
            |i: int| None::<T>,
        ),
{
    let drained = s.after_send(v).after_receive();
    lemma_drained_reads_nothing(drained, n);
    assert(s.after_send(v).receive_results(n + 1) =~= seq![Some(v)] + drained.receive_results(n));
}

proof fn lemma_drained_reads_nothing<T>(s: SlotView<T>, n: nat)
    requires
        s.pending is None,
    ensures
        s.receive_results(n) == Seq::new(n, |i: int| None::<T>),
    decreases n,
{
    if n > 0 {
        lemma_drained_reads_nothing(s.after_receive(), (n - 1) as nat);
        assert(s.receive_results(n) =~= Seq::new(n, |i: int| None::<T>));
    } else {
        assert(s.receive_results(n) =~= Seq::new(n, |i: int| None::<T>));
    }
}

/// A second send without a read in between is refused and leaves the first
/// value in place.
pub proof fn lemma_second_send_refused<T>(s: SlotView<T>, v: T, w: T)
    requires
        s.accepts(),
    ensures
        !s.after_send(v).accepts(),
        s.after_send(v).after_send(w) == s.after_send(v),
        s.after_send(v).after_send(w).pending == Some(v),
{
}

} // verus!
