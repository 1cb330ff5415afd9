use vstd::prelude::*;
use crate::error::ClrError;
use crate::value::ClrValue;

verus! {

/// Bookkeeping for output capture: holds the in-memory sink installed as
/// the hosted environment's standard output and error, together with the
/// two sink objects that were installed before, so that one restore can
/// reinstall them. Every redirect must be paired with exactly one restore,
/// whatever happened in between.
#[derive(Debug)]
pub struct ClrOutput {
    /// The in-memory sink collecting the hosted environment's output.
    pub writer: Option<ClrValue>,
    /// The sink that was standard output before the redirect.
    pub saved_out: Option<ClrValue>,
    /// The sink that was standard error before the redirect.
    pub saved_err: Option<ClrValue>,
}

impl ClrOutput {
    /// A capture with nothing stored yet.
    pub fn new() -> (r: ClrOutput)
        ensures
            r.writer is None,
            r.saved_out is None,
            r.saved_err is None,
    {
        ClrOutput { writer: None, saved_out: None, saved_err: None }
    }

    /// Engages capture: stores the in-memory sink now installed as both
    /// standard streams, and the two sinks that were installed before, to
    /// be handed back by the one paired restore.
    pub fn redirect(&mut self, writer: ClrValue, previous_out: ClrValue, previous_err: ClrValue)
        requires
            old(self).writer is None,
            old(self).saved_out is None,
            old(self).saved_err is None,
        ensures
            final(self).writer == Some(writer),
            final(self).saved_out == Some(previous_out),
            final(self).saved_err == Some(previous_err),
    {
        self.writer = Some(writer);
        self.saved_out = Some(previous_out);
        self.saved_err = Some(previous_err);
    }

    /// What a restore hands back: the stored pre-redirect sinks, when both
    /// are still stored.
    pub open spec fn spec_restore_result(self) -> Option<(ClrValue, ClrValue)> {
        match (self.saved_out, self.saved_err) {
            (Some(o), Some(e)) => Some((o, e)),
            _ => None,
        }
    }

    /// The state a restore leaves behind: the stored sinks are gone.
    pub open spec fn spec_after_restore(self) -> ClrOutput {
        ClrOutput { saved_out: None, saved_err: None, ..self }
    }

    /// Hands back the pre-redirect sinks so the caller can reinstall them,
    /// consuming the stored handles exactly once: a repeated restore finds
    /// nothing stored and is a no-op.
    pub fn restore(&mut self) -> (r: Option<(ClrValue, ClrValue)>)
        ensures
            r == old(self).spec_restore_result(),
            *final(self) == old(self).spec_after_restore(),
    {
        let out = self.saved_out.take();
        let err = self.saved_err.take();
        match (out, err) {
            (Some(o), Some(e)) => Some((o, e)),
            _ => None,
        }
    }

    /// Begins collecting the captured text: hands out the in-memory sink
    /// whose display call the caller invokes (the returned boxed text is
    /// then extracted and released through `unpack_string`), or the error
    /// owed when capture was never engaged.
    pub fn capture(&self) -> (r: Result<&ClrValue, ClrError>)
        ensures
            r is Ok <==> self.writer is Some,
            r matches Ok(v) ==> Some(*v) == self.writer,
            r is Err ==> r->Err_0 == ClrError::ErrorClr("No StringWriter instance found"),
    {
        match &self.writer {
            Some(w) => Ok(w),
            None => Err(ClrError::ErrorClr("No StringWriter instance found")),
        }
    }
}

/// Capture symmetry: a redirect followed by its paired restore hands back
/// exactly the sinks that were installed before the redirect — so
/// reinstalling them returns writes to their pre-redirect destination —
/// and consumes the stored handles, so a second restore hands back
/// nothing.
pub proof fn lemma_capture_symmetry(
    writer: ClrValue,
    previous_out: ClrValue,
    previous_err: ClrValue,
)
    ensures
        (ClrOutput {
            writer: Some(writer),
            saved_out: Some(previous_out),
            saved_err: Some(previous_err),
        }).spec_restore_result() == Some((previous_out, previous_err)),
        (ClrOutput {
            writer: Some(writer),
            saved_out: Some(previous_out),
            saved_err: Some(previous_err),
        }).spec_after_restore().spec_restore_result() is None,
{
}

} // verus!
