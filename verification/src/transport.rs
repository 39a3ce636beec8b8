use vstd::prelude::*;

verus! {

/// Transport flag: addresses are formatted with host names looked up.
pub const FLAG_HOSTNAME: u32 = 0x80;

/// What this library reads of a transport: its socket and its flags.
#[derive(Debug, Clone, Copy, PartialEq, Eq, Structural)]
pub struct TransportPtr {
    pub sock: i32,
    pub flags: u32,
}

/// A transport owned by the caller.
#[derive(Debug)]
pub struct Transport(TransportPtr);

impl View for Transport {
    type V = TransportPtr;

    closed spec fn view(&self) -> TransportPtr {
        self.0
    }
}

/// Whether bit `bit` of `flags` is set; `bit` holds a single bit.
pub open spec fn has_flag(flags: u32, bit: u32) -> bool {
    flags & bit != 0
}

impl TransportPtr {
    pub fn as_transport_ptr(&self) -> (res: &TransportPtr)
        ensures
            *res == *self,
    {
        self
    }

    /// The descriptor of the socket that the transport sends and receives
    /// on.
    pub fn socket_fd(&self) -> (res: i32)
        ensures
            res == self.sock,
    {
        self.sock
    }

    pub fn socket_fd_ref(&self) -> (res: &i32)
        ensures
            *res == self.sock,
    {
        &self.sock
    }

    /// The flags to format an address under, with host names looked up or
    /// not; all other flags stay as they are. The transport itself keeps
    /// its flags.
    pub fn format_flags(&self, lookup: bool) -> (res: u32)
        ensures
            has_flag(res, FLAG_HOSTNAME) == lookup,
            res & !FLAG_HOSTNAME == self.flags & !FLAG_HOSTNAME,
            res == if lookup {
                self.flags | FLAG_HOSTNAME
            } else {
                self.flags & !FLAG_HOSTNAME
            },
    {
        let flags = self.flags;
        if lookup {
            assert((flags | 0x80u32) & 0x80u32 != 0) by (bit_vector);
            assert((flags | 0x80u32) & !0x80u32 == flags & !0x80u32) by (bit_vector);
            flags | FLAG_HOSTNAME
        } else {
            assert((flags & !0x80u32) & 0x80u32 == 0) by (bit_vector);
            assert((flags & !0x80u32) & !0x80u32 == flags & !0x80u32) by (bit_vector);
            flags & !FLAG_HOSTNAME
        }
    }
}

impl Transport {
    /// A handle on an open transport.
    pub fn from_raw(transport: TransportPtr) -> (res: Transport)
        ensures
            res@ == transport,
    {
        Transport(transport)
    }

    /// Gives up the handle and returns what it held.
    pub fn into_raw(self) -> (res: TransportPtr)
        ensures
            res == self@,
    {
        self.0
    }
}

impl core::ops::Deref for Transport {
    type Target = TransportPtr;

    fn deref(&self) -> (res: &TransportPtr)
        ensures
            *res == self@,
    {
        &self.0
    }
}

} // verus!
