use vstd::prelude::*;

verus! {

/// The UDP ports of the hardware's streams.
pub const GENERAL_PORT: u16 = 1024;
pub const HIGH_PRIORITY_STATUS_PORT: u16 = 1025;
pub const MIC_LINE_PORT: u16 = 1026;
pub const HIGH_PRIORITY_PORT: u16 = 1027;
pub const RECEIVE_SPECIFIC_PORT: u16 = 1025;
pub const TRANSMIT_SPECIFIC_PORT: u16 = 1026;
pub const WIDEBAND_PORT: u16 = 1027;
pub const AUDIO_PORT: u16 = 1028;
pub const TX_IQ_PORT: u16 = 1029;
pub const BASE_IQ_PORT: u16 = 1035;
pub const LAST_IQ_PORT: u16 = 1042;

/// What an inbound datagram carries, told by the port it came from.
#[derive(PartialEq, Eq, Structural, Clone, Copy, Debug)]
pub enum StreamKind {
    CommandResponse,
    HighPriorityStatus,
    MicLine,
    Wideband,
    /// IQ samples of one DDC, numbered from the first IQ port.
    ReceiverIq(usize),
    Unknown,
}

pub open spec fn kind_of_port(port: u16) -> StreamKind {
    if port == GENERAL_PORT {
        StreamKind::CommandResponse
    } else if port == HIGH_PRIORITY_STATUS_PORT {
        StreamKind::HighPriorityStatus
    } else if port == MIC_LINE_PORT {
        StreamKind::MicLine
    } else if port == WIDEBAND_PORT {
        StreamKind::Wideband
    } else if BASE_IQ_PORT <= port <= LAST_IQ_PORT {
        StreamKind::ReceiverIq((port - BASE_IQ_PORT) as usize)
    } else {
        StreamKind::Unknown
    }
}

/// Routes a datagram by its source port.
pub fn route(port: u16) -> (r: StreamKind)
    ensures
        r == kind_of_port(port),
{
    if port == GENERAL_PORT {
        StreamKind::CommandResponse
    } else if port == HIGH_PRIORITY_STATUS_PORT {
        StreamKind::HighPriorityStatus
    } else if port == MIC_LINE_PORT {
        StreamKind::MicLine
    } else if port == WIDEBAND_PORT {
        StreamKind::Wideband
    } else if BASE_IQ_PORT <= port && port <= LAST_IQ_PORT {
        StreamKind::ReceiverIq((port - BASE_IQ_PORT) as usize)
    } else {
        StreamKind::Unknown
    }
}

} // verus!
