//! The decision core of the bus actor.
//!
//! The actor owns every converter device on the shared sensor bus and is
//! the only component that touches it. Concurrent sample requests are
//! funneled through a rendezvous queue and served strictly one at a time;
//! the device reads themselves happen at the hardware boundary, and their
//! outcomes are handed back here in the order they were performed. A
//! request for an address the actor does not own is answered with an error
//! and consumes no read; a failed read is answered to its requester only
//! and never stops the actor.

use vstd::prelude::*;
use crate::errors::SensorIoError;

verus! {

/// One sample request: which converter, and which of its analog inputs.
#[derive(Clone, Copy, Debug, PartialEq, Eq, Structural)]
pub struct SampleRequest {
    /// Bus address of the converter device.
    pub i2c_address: u16,
    /// Analog input of the converter.
    pub channel: u8,
}

/// The bus addresses of the converter devices the actor owns.
#[derive(Clone, Debug)]
pub struct BusDirectory {
    /// Each owned device's bus address.
    pub addresses: Vec<u16>,
}

impl BusDirectory {
    /// Whether a device with this bus address is owned by the actor.
    pub open spec fn spec_knows(self, address: u16) -> bool {
        exists|i: int| 0 <= i < self.addresses@.len() && self.addresses@[i] == address
    }

    /// Look a bus address up among the owned devices.
    pub fn knows(&self, address: u16) -> (r: bool)
        ensures
            r == self.spec_knows(address),
    {
        let n = self.addresses.len();
        let mut k: usize = 0;
        while k < n
            invariant
                k <= n,
                n == self.addresses@.len(),
                forall|i: int| 0 <= i < k ==> self.addresses@[i] != address,
            decreases n - k,
        {
            if self.addresses[k] == address {
                return true;
            }
            k = k + 1;
        }
        false
    }
}

/// How many of the first `i` requests name an owned device, and so consume
/// one device read each.
pub open spec fn reads_consumed(dir: BusDirectory, requests: Seq<SampleRequest>, i: int) -> nat
    decreases i,
{
    if i <= 0 {
        0
    } else {
        reads_consumed(dir, requests, i - 1) + if dir.spec_knows(requests[i - 1].i2c_address) {
            1nat
        } else {
            0nat
        }
    }
}

/// The response the serialized actor owes request `i`: an address it does
/// not own is refused outright; otherwise the request consumes the next
/// device read, whose outcome (a value, or a failed read) it carries.
pub open spec fn response_spec(
    dir: BusDirectory,
    requests: Seq<SampleRequest>,
    reads: Seq<Option<u64>>,
    i: int,
) -> Result<u64, SensorIoError> {
    if !dir.spec_knows(requests[i].i2c_address) {
        Err(SensorIoError::UnknownAddress { address: requests[i].i2c_address })
    } else {
        match reads[reads_consumed(dir, requests, i) as int] {
            Some(v) => Ok(v),
            None => Err(SensorIoError::DeviceIo),
        }
    }
}

/// Consumption never outruns the queue: it grows by at most one request.
proof fn lemma_reads_consumed_monotonic(
    dir: BusDirectory,
    requests: Seq<SampleRequest>,
    i: int,
    j: int,
)
    requires
        0 <= i <= j,
    ensures
        reads_consumed(dir, requests, i) <= reads_consumed(dir, requests, j),
        reads_consumed(dir, requests, j) - reads_consumed(dir, requests, i) <= j - i,
    decreases j - i,
{
    if i < j {
        lemma_reads_consumed_monotonic(dir, requests, i, j - 1);
    }
}

/// Serve a batch of queued sample requests strictly in order. `reads` are
/// the outcomes the devices produced for the sequential reads the actor
/// performed, in order; the batch yields exactly one response per request.
pub fn serve_batch(
    dir: &BusDirectory,
    requests: &Vec<SampleRequest>,
    reads: &Vec<Option<u64>>,
) -> (r: Vec<Result<u64, SensorIoError>>)
    requires
        reads@.len() >= reads_consumed(*dir, requests@, requests@.len() as int),
    ensures
        r@.len() == requests@.len(),
        forall|i: int|
            0 <= i < requests@.len() ==> #[trigger] r@[i] == response_spec(
                *dir,
                requests@,
                reads@,
                i,
            ),
{
    let n = requests.len();
    let mut out: Vec<Result<u64, SensorIoError>> = Vec::new();
    let mut consumed: usize = 0;
    let mut k: usize = 0;
    while k < n
        invariant
            k <= n,
            n == requests@.len(),
            reads@.len() >= reads_consumed(*dir, requests@, n as int),
            out@.len() == k,
            consumed == reads_consumed(*dir, requests@, k as int),
            forall|i: int|
                0 <= i < k ==> #[trigger] out@[i] == response_spec(*dir, requests@, reads@, i),
        decreases n - k,
    {
        proof {
            lemma_reads_consumed_monotonic(*dir, requests@, 0, k as int);
            lemma_reads_consumed_monotonic(*dir, requests@, k as int, n as int);
            lemma_reads_consumed_monotonic(*dir, requests@, k + 1, n as int);
        }
        let req = requests[k];
        if dir.knows(req.i2c_address) {
            let outcome = reads[consumed];
            match outcome {
                Some(v) => out.push(Ok(v)),
                None => out.push(Err(SensorIoError::DeviceIo)),
            }
            consumed = consumed + 1;
        } else {
            out.push(Err(SensorIoError::UnknownAddress { address: req.i2c_address }));
        }
        k = k + 1;
    }
    out
}

/// Serialization is total: when every queued request names an owned
/// device, each one consumes exactly the device read at its own queue
/// position, so the i-th response carries the value a lone sequential
/// caller would have seen at that position.
pub proof fn lemma_total_serialization(
    dir: BusDirectory,
    requests: Seq<SampleRequest>,
    reads: Seq<Option<u64>>,
)
    requires
        forall|i: int| 0 <= i < requests.len() ==> dir.spec_knows(
            (#[trigger] requests[i]).i2c_address,
        ),
    ensures
        forall|i: int|
            0 <= i < requests.len() ==> #[trigger] response_spec(dir, requests, reads, i) == (
            match reads[i] {
                Some(v) => Ok::<u64, SensorIoError>(v),
                None => Err::<u64, SensorIoError>(SensorIoError::DeviceIo),
            }),
{
    assert forall|i: int| 0 <= i < requests.len() implies reads_consumed(dir, requests, i)
        == i by {
        lemma_reads_consumed_all_known(dir, requests, i);
    }
}

/// When every request names an owned device, the first `i` requests
/// consume exactly `i` reads.
proof fn lemma_reads_consumed_all_known(dir: BusDirectory, requests: Seq<SampleRequest>, i: int)
    requires
        0 <= i <= requests.len(),
        forall|k: int| 0 <= k < requests.len() ==> dir.spec_knows(
            (#[trigger] requests[k]).i2c_address,
        ),
    ensures
        reads_consumed(dir, requests, i) == i,
    decreases i,
{
    if i > 0 {
        lemma_reads_consumed_all_known(dir, requests, i - 1);
    }
}

} // verus!
