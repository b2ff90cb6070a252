use vstd::prelude::*;

verus! {

/// The bookkeeping of one traffic forwarder: the public port it listens on,
/// the backend port it relays to, whether it still accepts connections, and
/// how many relayed connections are open. The target never changes, so every
/// connection it relays reaches one backend from its first byte to its last.
pub struct Forwarder {
    pub public_port: u16,
    pub target_port: u16,
    pub accepting: bool,
    pub open: u64,
}

impl Forwarder {
    /// A forwarder that has just bound `public_port` and relays to `target_port`.
    pub fn new(public_port: u16, target_port: u16) -> (r: Forwarder)
        ensures
            r.public_port == public_port,
            r.target_port == target_port,
            r.accepting,
            r.open == 0,
    {
        Forwarder { public_port, target_port, accepting: true, open: 0 }
    }

    /// The backend port that connections are relayed to.
    pub fn target(&self) -> (r: u16)
        ensures
            r == self.target_port,
    {
        self.target_port
    }

    /// Decides on a connection that has just come in: it is taken on, and
    /// counted as open, only while the forwarder accepts (and the count has
    /// room).
    pub fn accept_connection(&mut self) -> (r: bool)
        ensures
            r == (old(self).accepting && old(self).open < u64::MAX),
            final(self).open == old(self).open + if r {
                1u64
            } else {
                0u64
            },
            final(self).accepting == old(self).accepting,
            final(self).public_port == old(self).public_port,
            final(self).target_port == old(self).target_port,
    {
        if self.accepting && self.open < u64::MAX {
            self.open = self.open + 1;
            true
        } else {
            false
        }
    }

    /// Counts the end of a relayed connection: both directions are done, or
    /// the connection to the backend could not be made.
    pub fn release(&mut self)
        requires
            old(self).open > 0,
        ensures
            final(self).open == old(self).open - 1,
            final(self).accepting == old(self).accepting,
            final(self).public_port == old(self).public_port,
            final(self).target_port == old(self).target_port,
    {
        self.open = self.open - 1;
    }

    /// Stops accepting new connections. The open ones go on being relayed to
    /// the same backend until they finish.
    pub fn stop(&mut self)
        ensures
            !final(self).accepting,
            final(self).open == old(self).open,
            final(self).public_port == old(self).public_port,
            final(self).target_port == old(self).target_port,
    {
        self.accepting = false;
    }

    /// Whether no relayed connection is open any more, so that the backend
    /// behind it may be terminated without cutting one off.
    pub fn is_drained(&self) -> (r: bool)
        ensures
            r == (self.open == 0),
    {
        self.open == 0
    }
}

} // verus!
