//! The bridge session: the owner of one opaque native handle, driven
//! through `Uninitialized → Created → Destroyed`. The handle is a number
//! the foreign side issued; zero is the sentinel for "invalid/destroyed";
//! only this wrapper ever yields it out, and the destroy step yields it
//! exactly once. The foreign calls themselves happen outside the library,
//! which only ever acts on what this state machine allows.

use vstd::prelude::*;

use crate::error::{SpeechError, SpeechErrorKind};

verus! {

/// One foreign-owned session handle and its lifecycle state.
#[derive(Debug)]
pub struct BridgeSession {
    handle: u64,
    destroyed: bool,
}

impl BridgeSession {
    /// The raw handle value this session owns.
    pub closed spec fn handle_spec(&self) -> u64 {
        self.handle
    }

    /// Whether the session is in the `Created` state: not yet destroyed,
    /// holding a non-sentinel handle.
    pub closed spec fn is_active(&self) -> bool {
        !self.destroyed && self.handle != 0
    }

    /// Admit the handle the foreign create entry returned. A null (zero)
    /// handle means creation failed: no session exists and no further
    /// calls are possible; any other value starts an active session.
    pub fn from_create_result(raw_handle: u64) -> (r: Result<BridgeSession, SpeechError>)
        ensures
            raw_handle == 0 ==> (r matches Err(e) && e@ == SpeechError::model(
                SpeechErrorKind::Load,
                "Fluid bridge failed to initialize"@,
            )),
            raw_handle != 0 ==> (r matches Ok(s) && s.is_active() && s.handle_spec()
                == raw_handle),
    {
        if raw_handle == 0 {
            let mut m = String::new();
            m.append("Fluid bridge failed to initialize");
            Err(SpeechError::new(SpeechErrorKind::Load, m))
        } else {
            Ok(BridgeSession { handle: raw_handle, destroyed: false })
        }
    }

    /// The handle for one foreign call, refused once the session is no
    /// longer active.
    pub fn active_handle(&self) -> (r: Result<u64, SpeechError>)
        ensures
            self.is_active() ==> (r matches Ok(h) && h == self.handle_spec() && h != 0),
            !self.is_active() ==> (r matches Err(e) && e@ == SpeechError::model(
                SpeechErrorKind::State,
                "Fluid bridge handle is unavailable"@,
            )),
    {
        if !self.destroyed && self.handle != 0 {
            Ok(self.handle)
        } else {
            let mut m = String::new();
            m.append("Fluid bridge handle is unavailable");
            Err(SpeechError::new(SpeechErrorKind::State, m))
        }
    }

    /// Move to the terminal `Destroyed` state, yielding the handle the
    /// caller must pass to the foreign destroy entry. The handle is
    /// yielded at most once: on a session already destroyed (or never
    /// created) this is a no-op and yields nothing.
    pub fn take_for_destroy(&mut self) -> (r: Option<u64>)
        ensures
            !final(self).is_active(),
            old(self).is_active() ==> (r matches Some(h) && h == old(self).handle_spec() && h
                != 0),
            !old(self).is_active() ==> r is None,
    {
        if !self.destroyed && self.handle != 0 {
            let h = self.handle;
            self.destroyed = true;
            self.handle = 0;
            Some(h)
        } else {
            self.destroyed = true;
            self.handle = 0;
            None
        }
    }
}

/// Whether a path holds an embedded null character, which cannot cross the
/// foreign boundary as a C string.
pub open spec fn has_interior_nul(s: Seq<char>) -> bool {
    exists|i: int| 0 <= i < s.len() && s[i] == '\0'
}

/// Refuse a path with an embedded null byte before it is handed to the
/// foreign side.
pub fn check_wav_path(path: &str) -> (r: Result<(), SpeechError>)
    ensures
        r is Ok <==> !has_interior_nul(path@),
        r matches Err(e) ==> e@ == SpeechError::model(
            SpeechErrorKind::Validation,
            "wav path contains interior null bytes"@,
        ),
{
    let n = path.unicode_len();
    let mut i: usize = 0;
    while i < n
        invariant
            0 <= i <= n,
            n == path@.len(),
            forall|k: int| 0 <= k < i ==> path@[k] != '\0',
        decreases n - i,
    {
        if path.get_char(i) == '\0' {
            let mut m = String::new();
            m.append("wav path contains interior null bytes");
            return Err(SpeechError::new(SpeechErrorKind::Validation, m));
        }
        i = i + 1;
    }
    Ok(())
}

/// Accept a foreign response buffer's address/length pair: a null pointer
/// or a non-positive length means the bridge returned no response; any
/// positive length is valid to read.
pub fn check_response_buffer(ptr_is_null: bool, len: isize) -> (r: Result<usize, SpeechError>)
    ensures
        (ptr_is_null || len <= 0) <==> (r matches Err(e) && e@ == SpeechError::model(
            SpeechErrorKind::Protocol,
            "Fluid bridge returned an empty response"@,
        )),
        (!ptr_is_null && len > 0) <==> (r matches Ok(n) && n == len),
{
    if ptr_is_null || len <= 0 {
        let mut m = String::new();
        m.append("Fluid bridge returned an empty response");
        Err(SpeechError::new(SpeechErrorKind::Protocol, m))
    } else {
        Ok(len as usize)
    }
}

} // verus!
