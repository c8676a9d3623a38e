//! The shared engine handle: exclusive access to the bridge.
//!
//! All three actors reach the bridge only through this handle, which
//! wraps exactly one [`Bridge`] behind vstd's verified reader-writer
//! lock. `acquire` yields the bridge together with a write handle whose
//! existence excludes every other reader and writer, so no two engine
//! calls can ever execute concurrently; `release` gives the bridge
//! back and demands that its invariant was preserved, so no actor can
//! publish a half-valid state (a failed soundfont swap, for instance,
//! releases the previous state intact). The convenience methods hold
//! the lock for exactly one bridge call each — the bounded critical
//! sections the render deadline depends on. Only rendering itself, done
//! by the host, keeps the lock across one render call into the
//! borrowed synthesizer.

use vstd::prelude::*;
use vstd::rwlock::RwLock;
use vstd::rwlock::RwLockPredicate;
use vstd::rwlock::WriteHandle;
use crate::bridge::Bridge;
use crate::bridge::BridgeError;
use crate::engine::soundfont_accepted;
use crate::sf2::sf2_structure_ok;

verus! {

/// The lock's invariant: whatever state an actor publishes into the
/// handle must be a well-formed bridge.
pub struct BridgeInv;

impl RwLockPredicate<Bridge> for BridgeInv {
    open spec fn inv(self, b: Bridge) -> bool {
        b.wf()
    }
}

/// The single point of exclusive access to the shared bridge.
pub struct SharedHandle {
    lock: RwLock<Bridge, BridgeInv>,
}

impl SharedHandle {
    #[verifier::type_invariant]
    spec fn ti(&self) -> bool {
        self.lock.pred() == BridgeInv
    }

    /// Wraps a bridge for sharing among the actors.
    pub fn new(bridge: Bridge) -> (h: SharedHandle)
        requires
            bridge.wf(),
    {
        SharedHandle { lock: RwLock::new(bridge, Ghost(BridgeInv)) }
    }

    /// Takes exclusive possession of the bridge. Until the returned
    /// write handle is given back through [`SharedHandle::release`], no
    /// other actor can acquire or observe the state.
    pub fn acquire(&self) -> (r: (Bridge, WriteHandle<'_, Bridge, BridgeInv>))
        ensures
            r.0.wf(),
            r.1.rwlock().pred() == BridgeInv,
    {
        proof {
            use_type_invariant(self);
        }
        self.lock.acquire_write()
    }

    /// Gives the bridge back, ending the critical section. Only a
    /// well-formed bridge can be published.
    pub fn release(write_handle: WriteHandle<'_, Bridge, BridgeInv>, bridge: Bridge)
        requires
            bridge.wf(),
            write_handle.rwlock().pred() == BridgeInv,
    {
        write_handle.release_write(bridge);
    }

    /// Delivers one raw MIDI message: exactly one engine call under the
    /// lock, so a burst of messages can stall the render loop by at
    /// most one bounded critical section at a time.
    pub fn ingest(&self, bytes: &[u8])
    {
        let (mut bridge, write_handle) = self.acquire();
        bridge.ingest(bytes);
        SharedHandle::release(write_handle, bridge);
    }

    /// Moves the play cursor by `delta` frames (see [`Bridge::scrub`]),
    /// under one bounded critical section.
    pub fn scrub(&self, delta: i64, commit: bool)
    {
        let (mut bridge, write_handle) = self.acquire();
        bridge.scrub(delta, commit);
        SharedHandle::release(write_handle, bridge);
    }

    /// Swaps in a soundfont parsed from raw bytes, under one bounded
    /// critical section. Fails exactly when the payload is structurally
    /// unsound or rejected by the parser, and a failure leaves the
    /// shared state as it was.
    pub fn swap_soundfont(&self, data: &[u8]) -> (r: Result<(), BridgeError>)
        ensures
            r is Ok <==> sf2_structure_ok(data@) && soundfont_accepted(data@),
            r is Err ==> !(r->Err_0 is UnsupportedSampleRate),
    {
        let (mut bridge, write_handle) = self.acquire();
        let r = bridge.swap_soundfont(data);
        SharedHandle::release(write_handle, bridge);
        r
    }

    /// Reads the play cursor, under one bounded critical section.
    pub fn position(&self) -> u64
    {
        let (bridge, write_handle) = self.acquire();
        let r = bridge.position();
        SharedHandle::release(write_handle, bridge);
        r
    }

    /// Polls for end of a non-looping sequence, under one bounded
    /// critical section, as the host's termination loop does.
    pub fn end_of_sequence(&self) -> bool
    {
        let (bridge, write_handle) = self.acquire();
        let r = bridge.end_of_sequence();
        SharedHandle::release(write_handle, bridge);
        r
    }
}

} // verus!
