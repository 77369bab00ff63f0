use vstd::prelude::*;

verus! {

/// The height of a block in the chain.
#[derive(Clone, Copy, Debug, PartialEq, Eq, PartialOrd, Ord, Hash, Default, Structural)]
pub struct BlockHeight(pub u64);

/// The time of a block, in nanoseconds.
#[derive(Clone, Copy, Debug, PartialEq, Eq, PartialOrd, Ord, Hash, Default, Structural)]
pub struct BlockTimestamp(pub u64);

/// The number of an epoch.
#[derive(Clone, Copy, Debug, PartialEq, Eq, PartialOrd, Ord, Hash, Default, Structural)]
pub struct EpochHeight(pub u64);

impl BlockHeight {
    pub fn value(&self) -> (value: u64)
        ensures
            value == self.0,
    {
        self.0
    }
}

impl BlockTimestamp {
    pub fn value(&self) -> (value: u64)
        ensures
            value == self.0,
    {
        self.0
    }
}

impl EpochHeight {
    pub fn value(&self) -> (value: u64)
        ensures
            value == self.0,
    {
        self.0
    }
}

/// The moment at which something was recorded: the block, its time and its epoch.
#[derive(Clone, Copy, Debug, PartialEq, Eq, Structural)]
pub struct BlockTimeHeight {
    pub block_height: BlockHeight,
    pub block_timestamp: BlockTimestamp,
    pub epoch_height: EpochHeight,
}

impl BlockTimeHeight {
    /// The moment made of the three readings.
    pub fn new(
        block_height: BlockHeight,
        block_timestamp: BlockTimestamp,
        epoch_height: EpochHeight,
    ) -> (moment: Self)
        ensures
            moment == (BlockTimeHeight { block_height, block_timestamp, epoch_height }),
    {
        BlockTimeHeight { block_height, block_timestamp, epoch_height }
    }

    pub fn block_height(&self) -> (height: BlockHeight)
        ensures
            height == self.block_height,
    {
        self.block_height
    }

    pub fn block_timestamp(&self) -> (timestamp: BlockTimestamp)
        ensures
            timestamp == self.block_timestamp,
    {
        self.block_timestamp
    }

    pub fn epoch_height(&self) -> (epoch: EpochHeight)
        ensures
            epoch == self.epoch_height,
    {
        self.epoch_height
    }
}

impl Default for BlockTimeHeight {
    fn default() -> (moment: Self)
        ensures
            moment == (BlockTimeHeight {
                block_height: BlockHeight(0),
                block_timestamp: BlockTimestamp(0),
                epoch_height: EpochHeight(0),
            }),
    {
        BlockTimeHeight {
            block_height: BlockHeight(0),
            block_timestamp: BlockTimestamp(0),
            epoch_height: EpochHeight(0),
        }
    }
}

} // verus!
