//! Socket addresses, as far as the choice of a local address reads them.
use vstd::prelude::*;

verus! {

/// The address of a socket.
#[derive(Clone, Copy, Debug, PartialEq, Eq)]
pub enum Endpoint {
    V4 { octets: [u8; 4], port: u16 },
    V6 { segments: [u16; 8], port: u16, flowinfo: u32, scope_id: u32 },
}

impl Endpoint {
    /// Both addresses belong to the same version of IP.
    pub open spec fn same_family(self, other: Endpoint) -> bool {
        self is V4 <==> other is V4
    }

    /// The address is `0.0.0.0:0` or `[::]:0`: any interface, any port.
    pub open spec fn is_unspecified(self) -> bool {
        match self {
            Endpoint::V4 { octets, port } => {
                &&& forall|i: int| 0 <= i < 4 ==> #[trigger] octets@[i] == 0
                &&& port == 0
            },
            Endpoint::V6 { segments, port, flowinfo, scope_id } => {
                &&& forall|i: int| 0 <= i < 8 ==> #[trigger] segments@[i] == 0
                &&& port == 0
                &&& flowinfo == 0
                &&& scope_id == 0
            },
        }
    }

    /// The local address to bind in order to reach `self`.
    pub fn bind_address(&self) -> (local: Endpoint)
        ensures
            local.same_family(*self),
            local.is_unspecified(),
    {
        match self {
            Endpoint::V4 { .. } => Endpoint::V4 { octets: [0u8; 4], port: 0 },
            Endpoint::V6 { .. } => Endpoint::V6 {
                segments: [0u16; 8],
                port: 0,
                flowinfo: 0,
                scope_id: 0,
            },
        }
    }
}

} // verus!
