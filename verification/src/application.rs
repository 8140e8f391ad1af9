//! An application-side implementation of the application callbacks: it holds
//! the system description as the exact bytes to report — in practice a list
//! of key/value facts such as the application name, device, core type, OS
//! name and named interrupt numbers — together with the core clock frequency.

use vstd::prelude::*;

use crate::RtosTraceApplicationCallbacks;

verus! {

/// Fixed facts an application reports about itself and its board.
pub struct ApplicationInfo {
    /// The description handed to the backend's reporting primitive, byte for byte.
    pub desc: Vec<u8>,
    /// The core clock frequency in Hertz.
    pub hz: u32,
}

impl ApplicationInfo {
    /// An application that reports exactly `desc` and runs at `hz` Hertz.
    pub fn new(desc: Vec<u8>, hz: u32) -> (a: ApplicationInfo)
        ensures
            a.description() == desc@,
            a.clock_hz() == hz,
    {
        ApplicationInfo { desc, hz }
    }
}

impl RtosTraceApplicationCallbacks for ApplicationInfo {
    open spec fn description(&self) -> Seq<u8> {
        self.desc@
    }

    open spec fn clock_hz(&self) -> u32 {
        self.hz
    }

    fn system_description(&self, out: &mut Vec<u8>) {
        let ghost base: Seq<u8> = out@;
        let mut k: usize = 0;
        while k < self.desc.len()
            invariant
                0 <= k <= self.desc@.len(),
                out@ =~= base + self.desc@.take(k as int),
            decreases self.desc@.len() - k,
        {
            out.push(self.desc[k]);
            proof {
                assert(self.desc@.take(k + 1) =~= self.desc@.take(k as int).push(
                    self.desc@[k as int],
                ));
            }
            k += 1;
        }
        proof {
            assert(self.desc@.take(self.desc@.len() as int) =~= self.desc@);
        }
    }

    fn sysclock(&self) -> (hz: u32) {
        self.hz
    }
}

/// Querying the description twice yields byte-identical output: what the
/// application reports depends on the application alone, so the call is
/// idempotent.
pub fn description_twice<A: RtosTraceApplicationCallbacks>(app: &A) -> (r: (Vec<u8>, Vec<u8>))
    ensures
        r.0@ == r.1@,
        r.0@ == app.description(),
{
    let mut first: Vec<u8> = Vec::new();
    app.system_description(&mut first);
    let mut second: Vec<u8> = Vec::new();
    app.system_description(&mut second);
    proof {
        assert(first@ =~= app.description());
        assert(second@ =~= app.description());
    }
    (first, second)
}

} // verus!
