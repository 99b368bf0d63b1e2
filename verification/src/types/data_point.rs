use vstd::prelude::*;

verus! {

/// One reading of the six motion channels, stamped in milliseconds since the
/// epoch. The library carries channel values through without computing on
/// them, so their type `V` is the caller's choice.
#[derive(Clone, Copy, Debug)]
pub struct DataPoint<V> {
    pub x: V,
    pub y: V,
    pub z: V,
    pub gx: V,
    pub gy: V,
    pub gz: V,
    pub timestamp: i64,
}

impl<V: Copy> DataPoint<V> {
    pub fn new(x: V, y: V, z: V, gx: V, gy: V, gz: V, timestamp: i64) -> (p: Self)
        ensures
            p == (DataPoint { x, y, z, gx, gy, gz, timestamp }),
    {
        DataPoint { x, y, z, gx, gy, gz, timestamp }
    }

    /// The same channel values under another timestamp.
    pub open spec fn restamped(self, timestamp: i64) -> Self {
        DataPoint { timestamp, ..self }
    }

    /// A copy of this reading that carries `timestamp`.
    pub fn with_timestamp(&self, timestamp: i64) -> (p: Self)
        ensures
            p == self.restamped(timestamp),
    {
        DataPoint {
            x: self.x,
            y: self.y,
            z: self.z,
            gx: self.gx,
            gy: self.gy,
            gz: self.gz,
            timestamp,
        }
    }
}

} // verus!
