use vstd::prelude::*;

verus! {

/// The holder of the active encoder, shared by the worker and the capture
/// callback. The worker installs and takes the encoder; the callback only
/// feeds it whole sample buffers. The count is the number of samples handed to
/// the encoder that the slot holds, saturating at `u64::MAX`.
pub struct WriterSlot<W> {
    writer: Option<W>,
    samples: u64,
}

/// The abstract contents of a slot: the encoder it holds, if any, and the
/// number of samples fed to it.
pub struct SlotModel<W> {
    pub writer: Option<W>,
    pub samples: u64,
}

/// The slot after a buffer of `n` samples arrives: counted if an encoder is
/// present, discarded otherwise.
pub open spec fn after_buffer<W>(s: SlotModel<W>, n: usize) -> SlotModel<W> {
    if s.writer is Some {
        SlotModel { writer: s.writer, samples: s.samples.saturating_add(n as u64) }
    } else {
        s
    }
}

/// The slot after buffers of the given lengths arrive one by one.
pub open spec fn after_buffers<W>(s: SlotModel<W>, buffers: Seq<usize>) -> SlotModel<W>
    decreases buffers.len(),
{
    if buffers.len() == 0 {
        s
    } else {
        after_buffer(after_buffers(s, buffers.drop_last()), buffers.last())
    }
}

/// The total length of the given buffers.
pub open spec fn total(buffers: Seq<usize>) -> nat
    decreases buffers.len(),
{
    if buffers.len() == 0 {
        0
    } else {
        total(buffers.drop_last()) + buffers.last() as nat
    }
}

impl<W> View for WriterSlot<W> {
    type V = SlotModel<W>;

    closed spec fn view(&self) -> SlotModel<W> {
        SlotModel { writer: self.writer, samples: self.samples }
    }
}

impl<W> WriterSlot<W> {
    /// An empty slot.
    pub fn new() -> (r: Self)
        ensures
            r@ == (SlotModel::<W> { writer: None, samples: 0 }),
    {
        WriterSlot { writer: None, samples: 0 }
    }

    /// Whether an encoder is present.
    pub fn is_occupied(&self) -> (r: bool)
        ensures
            r == self@.writer is Some,
    {
        self.writer.is_some()
    }

    /// The number of samples fed to the present encoder.
    pub fn samples_written(&self) -> (r: u64)
        ensures
            r == self@.samples,
    {
        self.samples
    }

    /// Publishes `w` as the active encoder when the slot is empty; an occupied
    /// slot keeps its encoder and `w` is handed back.
    pub fn install(&mut self, w: W) -> (r: Result<(), W>)
        ensures
            old(self)@.writer is None ==> r is Ok && final(self)@ == (SlotModel {
                writer: Some(w),
                samples: 0,
            }),
            old(self)@.writer is Some ==> r == Err::<(), W>(w) && final(self)@ == old(self)@,
    {
        if self.writer.is_some() {
            Err(w)
        } else {
            self.writer = Some(w);
            self.samples = 0;
            Ok(())
        }
    }

    /// Removes the encoder, with the number of samples fed to it, leaving the
    /// slot empty.
    pub fn take(&mut self) -> (r: Option<(W, u64)>)
        ensures
            final(self)@ == (SlotModel::<W> { writer: None, samples: 0 }),
            old(self)@.writer is None ==> r is None,
            old(self)@.writer matches Some(w) ==> r == Some((w, old(self)@.samples)),
    {
        let samples = self.samples;
        self.samples = 0;
        match self.writer.take() {
            Some(w) => Some((w, samples)),
            None => None,
        }
    }

    /// Accounts for a buffer of `n` samples from the capture callback and
    /// returns the encoder to write them to, if there is one. The caller writes
    /// the whole buffer through the returned reference before releasing the slot.
    pub fn accept_buffer(&mut self, n: usize) -> (r: Option<&mut W>)
        ensures
            old(self)@.writer is None ==> r is None && final(self)@ == after_buffer(old(self)@, n),
            old(self)@.writer matches Some(w) ==> r matches Some(rw) && *rw == w
                && final(self)@ == (SlotModel {
                writer: Some(*final(rw)),
                samples: after_buffer(old(self)@, n).samples,
            }),
    {
        match &mut self.writer {
            Some(w) => {
                self.samples = self.samples.saturating_add(n as u64);
                Some(w)
            },
            None => None,
        }
    }
}

} // verus!
