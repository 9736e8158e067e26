//! The cursor-context lifecycle and the lookup decisions.
//!
//! The native resolver exposes three entry points: create a context
//! against a connection and a screen snapshot, look a cursor name up
//! through a live context, and free the context. The calls themselves are
//! made by an unverified layer around this crate; everything that layer
//! decides is a verified function here:
//!
//! * [`CursorContext::from_native`] turns the native constructor's raw
//!   results — a status code and a possibly null handle — into an owned
//!   [`CursorContext`] or an explicit [`ConstructionError`]. The handle's
//!   nullity is the authoritative success signal; the status code is
//!   carried as diagnostic payload.
//! * [`encode_cursor_name`] produces the null-terminated byte form of a
//!   cursor name for the native lookup call, rejecting names with an
//!   embedded null byte before any native call can be made.
//! * [`CursorHandle::from_native`] turns the raw resource id the native
//!   lookup returned into a typed handle, translating the reserved
//!   "no cursor" sentinel into an explicit not-found error.
//!
//! A live [`CursorContext`] always wraps exactly one non-null native
//! handle; a failed construction yields no context value at all, so there
//! is never a handle to free on the failure path.

use vstd::prelude::*;
use vstd::string::StrSliceExecFns;

use crate::cursor::Cursor;

verus! {

/// The display's reserved "no cursor" resource id: the value the native
/// lookup returns when it cannot resolve a name.
pub const CURSOR_NONE: u32 = 0;

/// Native context creation failed. The payload is the status code the
/// native constructor returned, surfaced as a diagnostic; the failure
/// itself is signalled by the null handle. Not retryable without changing
/// the inputs.
#[derive(Clone, Copy, Debug, PartialEq, Eq, Structural)]
pub struct ConstructionError {
    /// The status code the native constructor returned.
    pub status: i32,
}

/// A cursor-name lookup failed.
#[derive(Clone, Copy, Debug, PartialEq, Eq, Structural)]
pub enum LookupError {
    /// The rendered cursor name contains an embedded null byte, so it has
    /// no null-terminated encoding. No native call is made. A caller
    /// error, not retryable without correcting the name.
    EmbeddedNul,
    /// The native resolver returned the "no cursor" sentinel: the name is
    /// unknown, or the resolver failed internally — the native interface
    /// does not distinguish the two. May be retried with another name.
    NotFound,
}

/// A server-side cursor resource id obtained from a successful lookup.
///
/// The resource itself belongs to the display connection's resource
/// namespace, not to this wrapper; the id is a plain value and may be
/// copied freely. A `CursorHandle` is never the "no cursor" sentinel:
/// that outcome is an explicit [`LookupError::NotFound`] instead.
#[derive(Clone, Copy, Debug, PartialEq, Eq, Structural)]
pub struct CursorHandle {
    id: u32,
}

impl CursorHandle {
    #[verifier::type_invariant]
    spec fn inv(self) -> bool {
        self.id != CURSOR_NONE
    }

    /// The resource id this handle wraps.
    pub closed spec fn spec_id(self) -> u32 {
        self.id
    }

    /// Turns the raw resource id the native lookup returned into a typed
    /// handle, or into an explicit not-found error where the resolver
    /// answered with the "no cursor" sentinel.
    ///
    /// Never yields a handle that carries the sentinel: any two handles —
    /// in particular the results of looking the same valid name up twice —
    /// are each independently usable, whether or not their ids are equal
    /// (the native layer owns caching decisions).
    pub fn from_native(raw: u32) -> (r: Result<CursorHandle, LookupError>)
        ensures
            r matches Ok(h) <==> raw != CURSOR_NONE,
            r matches Ok(h) ==> h.spec_id() == raw && h.spec_id() != CURSOR_NONE,
            raw == CURSOR_NONE ==> (r matches Err(e) && e == LookupError::NotFound),
    {
        if raw == CURSOR_NONE {
            Err(LookupError::NotFound)
        } else {
            Ok(CursorHandle { id: raw })
        }
    }

    /// The raw resource id, for handing to the display connection. Never
    /// the "no cursor" sentinel.
    pub fn resource_id(&self) -> (r: u32)
        ensures
            r == self.spec_id(),
            r != CURSOR_NONE,
    {
        proof {
            use_type_invariant(self);
        }
        self.id
    }
}

/// An owned, live cursor-loading context.
///
/// A value of this type exists only after the native constructor
/// succeeded, and then wraps exactly one non-null native handle for its
/// whole life. There is no way to obtain one except through
/// [`CursorContext::from_native`], and no operation ever replaces or
/// clears the handle, so the unverified layer around this crate can free
/// the handle exactly once, when it drops the value.
#[derive(Debug)]
pub struct CursorContext {
    handle: u64,
}

impl CursorContext {
    #[verifier::type_invariant]
    spec fn inv(self) -> bool {
        self.handle != 0
    }

    /// The address of the native handle this context owns.
    pub closed spec fn spec_handle(self) -> u64 {
        self.handle
    }

    /// Decides the outcome of native context creation from its raw
    /// results: the status code it returned and the handle it wrote,
    /// as an address where null is 0.
    ///
    /// The handle's nullity is the authoritative success signal — the
    /// resolver may report its own failure through either channel, so
    /// only a non-null handle counts as success. Construction either
    /// fully succeeds, yielding a context that owns the one non-null
    /// handle, or fails carrying the status code as diagnostic payload
    /// and yields no context value at all, so the layer that frees
    /// handles has exactly one to free per context and none on the
    /// failure path.
    pub fn from_native(status: i32, raw_handle: u64) -> (r: Result<CursorContext, ConstructionError>)
        ensures
            r matches Ok(c) <==> raw_handle != 0,
            r matches Ok(c) ==> c.spec_handle() == raw_handle && c.spec_handle() != 0,
            raw_handle == 0 ==> (r matches Err(e) && e == (ConstructionError { status })),
    {
        if raw_handle == 0 {
            Err(ConstructionError { status })
        } else {
            Ok(CursorContext { handle: raw_handle })
        }
    }

    /// The address of the owned native handle, for making the native
    /// lookup call and for the single release on teardown. Never null.
    pub fn raw_handle(&self) -> (h: u64)
        ensures
            h == self.spec_handle(),
            h != 0,
    {
        proof {
            use_type_invariant(self);
        }
        self.handle
    }
}

/// Encodes a cursor name for the byte-oriented native lookup call: the
/// UTF-8 bytes of the rendered name with a terminating null byte added.
///
/// The one validation performed on a name: a name whose rendered bytes
/// contain an embedded null byte has no such encoding and is rejected
/// with [`LookupError::EmbeddedNul`], so no native call is made for it.
pub fn encode_cursor_name(cursor: &Cursor) -> (r: Result<Vec<u8>, LookupError>)
    ensures
        r matches Ok(v) <==> !cursor.spec_name_bytes().contains(0u8),
        r matches Ok(v) ==> v@ == cursor.spec_name_bytes().push(0u8),
        r matches Err(e) ==> e == LookupError::EmbeddedNul,
{
    let name: String = cursor.name();
    let mut bytes: Vec<u8> = name.as_str().as_bytes_vec();
    let mut i: usize = 0;
    while i < bytes.len()
        invariant
            i <= bytes@.len(),
            bytes@ == cursor.spec_name_bytes(),
            forall|j: int| 0 <= j < i ==> bytes@[j] != 0u8,
        decreases bytes@.len() - i,
    {
        if bytes[i] == 0 {
            return Err(LookupError::EmbeddedNul);
        }
        i += 1;
    }
    bytes.push(0);
    Ok(bytes)
}

} // verus!
