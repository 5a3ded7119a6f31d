use vstd::prelude::*;

verus! {

/// The engine owning the working sample buffer.
///
/// A caller moves a buffer in with [`Oxidizer::consume`], pipeline
/// stages mutate it in place, and [`Oxidizer::collect_samples`] moves
/// it back out, leaving the engine empty and ready for reuse. The
/// engine is generic in the sample type, so the same lifecycle serves
/// any element representation.
pub struct Oxidizer<T> {
    buffer: Vec<T>,
}

impl<T> View for Oxidizer<T> {
    type V = Seq<T>;

    closed spec fn view(&self) -> Seq<T> {
        self.buffer@
    }
}

impl<T> Oxidizer<T> {
    /// Creates a new engine with an empty working buffer.
    pub fn new() -> (r: Self)
        ensures
            r@ == Seq::<T>::empty(),
    {
        Oxidizer { buffer: Vec::new() }
    }

    /// Takes ownership of the input sample vector, replacing the
    /// current working buffer. No samples are copied; the caller's
    /// allocation is reused as is.
    pub fn consume(&mut self, samples: Vec<T>)
        ensures
            final(self)@ == samples@,
    {
        self.buffer = samples;
    }

    /// Extracts the working buffer from the engine, leaving the
    /// engine's own buffer empty and ready for a new `consume`.
    pub fn collect_samples(&mut self) -> (r: Vec<T>)
        ensures
            r@ == old(self)@,
            final(self)@ == Seq::<T>::empty(),
    {
        let mut out: Vec<T> = Vec::new();
        core::mem::swap(&mut out, &mut self.buffer);
        out
    }
}

impl<T> Default for Oxidizer<T> {
    /// Same as [`Oxidizer::new`]: an engine with an empty buffer.
    fn default() -> (r: Self)
        ensures
            r@ == Seq::<T>::empty(),
    {
        Oxidizer::new()
    }
}

} // verus!
