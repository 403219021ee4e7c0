use vstd::prelude::*;

verus! {

/// A direct-memory-access channel: a write to `trigger_address` starts a copy of
/// `bytes_to_transfer` bytes to `target_address`.
#[derive(PartialEq, Eq, Clone, Copy, Debug, Structural)]
pub struct DMA {
    /// The copy starts when the processor writes to this address.
    pub trigger_address: u16,
    /// Each copied byte is written to this address.
    pub target_address: u16,
    /// How many bytes one copy moves.
    pub bytes_to_transfer: u16,
}

/// A copy in progress.
#[derive(PartialEq, Eq, Clone, Copy, Debug, Structural)]
pub struct ActiveDMA {
    pub start_address: u16,
    pub target_address: u16,
    pub bytes_to_transfer: u16,
    pub bytes_transferred: u16,
}

/// Whether a copy moved a byte in this cycle.
#[derive(PartialEq, Eq, Clone, Copy, Debug, Structural)]
pub enum DMAStatus {
    Active,
    Inactive,
}

impl ActiveDMA {
    /// The cursor has not run past the end of the copy.
    pub open spec fn wf(self) -> bool {
        self.bytes_transferred < self.bytes_to_transfer || self.bytes_transferred == 0
    }

    pub open spec fn spec_from_dma(dma: DMA, start_address: u16) -> ActiveDMA {
        ActiveDMA {
            start_address,
            target_address: dma.target_address,
            bytes_to_transfer: dma.bytes_to_transfer,
            bytes_transferred: 0,
        }
    }

    /// A copy through `dma` that reads from `start_address` onwards.
    pub fn from_dma(dma: &DMA, start_address: u16) -> (r: ActiveDMA)
        ensures
            r == ActiveDMA::spec_from_dma(*dma, start_address),
            r.wf(),
    {
        ActiveDMA {
            start_address,
            target_address: dma.target_address,
            bytes_to_transfer: dma.bytes_to_transfer,
            bytes_transferred: 0,
        }
    }
}

/// The channel that `address` triggers, if any.
pub open spec fn dma_at(channels: Map<u16, DMA>, address: u16) -> Option<DMA> {
    if channels.contains_key(address) {
        Some(channels[address])
    } else {
        None
    }
}

} // verus!
