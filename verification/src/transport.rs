//! Byte-level model of a transport connection to a daemon.
//!
//! A connection speaks plain HTTP/1.1 after a one-byte handshake: the
//! magic byte goes on the wire immediately after connecting, before
//! anything else, so the daemon can tell this client's connections apart
//! on a shared local endpoint. The stream records every byte handed to
//! the OS connection in order; the glue around the library drains the
//! unflushed tail onto the real socket or pipe.

use vstd::prelude::*;

verus! {

/// The magic byte written first on every new connection.
pub const HANDSHAKE_BYTE: u8 = 0x01;

/// One connection's outbound byte stream: the full history of bytes
/// queued for the wire, and how much of it has been handed to the OS.
pub struct TransportStream {
    /// Every byte queued for the wire since the connection was opened,
    /// in order.
    pub written: Vec<u8>,
    /// How long a prefix of `written` has been handed to the OS already.
    pub flushed: usize,
}

impl TransportStream {
    /// A well-formed connection: something has been queued, the first
    /// byte of it is the handshake byte, and the flushed prefix does not
    /// exceed what was queued.
    pub open spec fn wf(self) -> bool {
        &&& self.written@.len() >= 1
        &&& self.written@[0] == HANDSHAKE_BYTE
        &&& self.flushed <= self.written@.len()
    }

    /// Opens a connection: the handshake byte is queued before anything
    /// else can be.
    pub fn connect() -> (t: Self)
        ensures
            t.wf(),
            t.written@ == seq![HANDSHAKE_BYTE],
            t.flushed == 0,
    {
        let mut written: Vec<u8> = Vec::new();
        written.push(HANDSHAKE_BYTE);
        proof {
            assert(written@ =~= seq![HANDSHAKE_BYTE]);
        }
        TransportStream { written, flushed: 0 }
    }

    /// Queues payload bytes after everything already queued. The
    /// handshake byte stays first: writing never reorders.
    pub fn write(&mut self, data: &[u8])
        requires
            old(self).wf(),
            old(self).written@.len() + data@.len() <= usize::MAX,
        ensures
            final(self).wf(),
            final(self).written@ == old(self).written@ + data@,
            final(self).flushed == old(self).flushed,
    {
        let mut k: usize = 0;
        while k < data.len()
            invariant
                0 <= k <= data@.len(),
                self.written@ == old(self).written@ + data@.take(k as int),
                self.written@.len() + data@.len() <= usize::MAX + k,
                self.flushed == old(self).flushed,
            decreases data@.len() - k,
        {
            self.written.push(data[k]);
            proof {
                assert(self.written@ =~= old(self).written@ + data@.take(k + 1));
            }
            k = k + 1;
        }
        proof {
            assert(old(self).written@ + data@.take(data@.len() as int) =~= old(self).written@
                + data@);
        }
    }

    /// Hands the not-yet-flushed bytes out for the OS connection and
    /// marks them flushed.
    pub fn take_unflushed(&mut self) -> (r: Vec<u8>)
        requires
            old(self).wf(),
        ensures
            final(self).wf(),
            r@ == old(self).written@.skip(old(self).flushed as int),
            final(self).written == old(self).written,
            final(self).flushed == final(self).written@.len(),
    {
        let mut out: Vec<u8> = Vec::new();
        let mut k = self.flushed;
        while k < self.written.len()
            invariant
                self.flushed <= k <= self.written@.len(),
                out@ == self.written@.subrange(self.flushed as int, k as int),
                self == old(self),
            decreases self.written@.len() - k,
        {
            let b = self.written[k];
            out.push(b);
            proof {
                assert(out@ =~= self.written@.subrange(self.flushed as int, k + 1));
            }
            k = k + 1;
        }
        self.flushed = self.written.len();
        proof {
            assert(out@ =~= old(self).written@.skip(old(self).flushed as int));
        }
        out
    }
}

/// The handshake byte is the first byte on the wire of every well-formed
/// connection: whatever was written after connecting, the byte stream
/// starts with the magic byte, before any HTTP bytes.
pub proof fn lemma_handshake_first(t: TransportStream)
    requires
        t.wf(),
    ensures
        t.written@[0] == HANDSHAKE_BYTE,
        t.written@.len() >= 1,
{
}

} // verus!
