use vstd::prelude::*;

verus! {

#[verifier::external_type_specification]
#[verifier::external_body]
#[verifier::reject_recursive_types(T)]
pub struct ExPoll<T>(std::task::Poll<T>);

#[verifier::external_type_specification]
#[verifier::external_body]
pub struct ExIoError(std::io::Error);

/// A writer that answers every write with whatever its responder function
/// returns for the bytes that were written.
pub struct MockWriter<F: FnMut(&[u8]) -> std::task::Poll<std::io::Result<usize>>> {
    fun: F,
}

impl<F: FnMut(&[u8]) -> std::task::Poll<std::io::Result<usize>>> MockWriter<F> {
    /// The function that answers writes.
    pub closed spec fn responder(&self) -> F {
        self.fun
    }

    /// Builds a writer around `fun`.
    pub fn new(fun: F) -> (w: Self)
        ensures
            w.responder() == fun,
    {
        MockWriter { fun }
    }

    /// Hands `buf`, unchanged, to the responder and returns its reply. A
    /// responder that keeps state may change with the call; nothing is stated
    /// of the responder afterwards.
    pub fn write(&mut self, buf: &[u8]) -> (r: std::task::Poll<std::io::Result<usize>>)
        requires
            call_requires(old(self).responder(), (buf,)),
        ensures
            call_ensures(old(self).responder(), (buf,), r),
    {
        (self.fun)(buf)
    }
}

} // verus!
