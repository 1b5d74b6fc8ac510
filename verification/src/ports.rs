use crate::errors::InterfaceError;
use vstd::prelude::*;

verus! {

/// Where a port scan stands: still probing, or settled on a verdict.
#[derive(Clone, Copy, Debug)]
pub enum ScanState {
    /// The next candidate still has to be probed.
    Running,
    /// A candidate accepted the test bind; the scan is over.
    Found(u16),
    /// Every port of the range was probed and refused.
    NoPort,
    /// The retry budget ran out while unprobed ports remained.
    RetriesOut,
}

/// A port scan in progress.
///
/// Candidates are the ports `start..=end`, probed in ascending order.  The
/// caller performs each probe (a test bind on the loopback address) and
/// reports its outcome through [`PortScan::record`]; the scan decides what
/// to do next.  At most `max_retries` probes are allowed in total: once the
/// budget is spent with ports still unprobed, the scan gives up with a
/// verdict distinct from the one for an exhausted range.
pub struct PortScan {
    /// First candidate port of the range.
    pub start: u16,
    /// Last candidate port of the range, inclusive.
    pub end: u16,
    /// How many probes are allowed in total.
    pub max_retries: u32,
    /// How many probe outcomes have been recorded; the next candidate is
    /// `start + probed`.
    pub probed: u32,
    /// Where the scan stands.
    pub state: ScanState,
}

impl PortScan {
    /// Number of ports in the range.
    pub open spec fn range_len(self) -> int {
        self.end - self.start + 1
    }

    /// How much probing work is left, counting a settled scan as done.
    pub open spec fn probes_left(self, budget: int) -> int {
        budget - self.probed + (match self.state {
            ScanState::Running => 1int,
            _ => 0int,
        })
    }

    /// Well-formedness: the range is non-empty, and while the scan runs the
    /// next candidate lies in the range and within the retry budget.
    pub open spec fn wf(self) -> bool {
        &&& self.start <= self.end
        &&& self.probed <= self.range_len()
        &&& self.state matches ScanState::Running ==> self.probed < self.range_len()
            && (self.probed as int) < (self.max_retries as int)
    }

    /// Start a scan of `start..=end` with `max_retries` probes allowed.
    pub fn new(start: u16, end: u16, max_retries: u32) -> (r: PortScan)
        requires
            start <= end,
        ensures
            r.wf(),
            r.start == start,
            r.end == end,
            r.max_retries == max_retries,
            r.probed == 0,
            r.state == (if max_retries == 0 {
                ScanState::RetriesOut
            } else {
                ScanState::Running
            }),
    {
        let state = if max_retries == 0 {
            ScanState::RetriesOut
        } else {
            ScanState::Running
        };
        PortScan { start, end, max_retries, probed: 0, state }
    }

    /// Whether the next candidate still has to be probed.
    pub fn is_running(&self) -> (r: bool)
        ensures
            r == (self.state matches ScanState::Running),
    {
        matches!(self.state, ScanState::Running)
    }

    /// The port to probe next.
    pub fn next_candidate(&self) -> (r: u16)
        requires
            self.wf(),
            self.state matches ScanState::Running,
        ensures
            r == self.start + self.probed,
    {
        self.start + (self.probed as u16)
    }

    /// Record the outcome of probing the next candidate: `free` says whether
    /// the test bind succeeded.  A free port settles the scan on that port;
    /// an occupied one moves on, unless the range or the retry budget is
    /// spent, which settles the scan on the matching failure.
    pub fn record(&mut self, free: bool)
        requires
            old(self).wf(),
            old(self).state matches ScanState::Running,
        ensures
            final(self).wf(),
            final(self).start == old(self).start,
            final(self).end == old(self).end,
            final(self).max_retries == old(self).max_retries,
            free ==> final(self).probed == old(self).probed && final(self).state
                == ScanState::Found((old(self).start + old(self).probed) as u16),
            !free ==> final(self).probed == old(self).probed + 1,
            !free && old(self).probed + 1 >= old(self).range_len() ==> final(self).state
                == ScanState::NoPort,
            !free && old(self).probed + 1 < old(self).range_len() && old(self).probed + 1
                >= old(self).max_retries ==> final(self).state == ScanState::RetriesOut,
            !free && old(self).probed + 1 < old(self).range_len() && old(self).probed + 1
                < old(self).max_retries ==> final(self).state == ScanState::Running,
    {
        if free {
            let port = self.start + (self.probed as u16);
            self.state = ScanState::Found(port);
        } else {
            self.probed = self.probed + 1;
            let last_offset = (self.end - self.start) as u32;
            if self.probed > last_offset {
                self.state = ScanState::NoPort;
            } else if self.probed >= self.max_retries {
                self.state = ScanState::RetriesOut;
            }
        }
    }

    /// The verdict, once the scan has settled; `None` while it still runs.
    pub fn verdict(&self) -> (r: Option<Result<u16, InterfaceError>>)
        ensures
            match self.state {
                ScanState::Running => r is None,
                ScanState::Found(p) => r == Some(Result::<u16, InterfaceError>::Ok(p)),
                ScanState::NoPort => r == Some(Result::<u16, InterfaceError>::Err(
                    InterfaceError::NoAvailablePort,
                )),
                ScanState::RetriesOut => r == Some(Result::<u16, InterfaceError>::Err(
                    InterfaceError::MaxRetriesExceeded,
                )),
            },
    {
        match self.state {
            ScanState::Running => None,
            ScanState::Found(p) => Some(Ok(p)),
            ScanState::NoPort => Some(Err(InterfaceError::NoAvailablePort)),
            ScanState::RetriesOut => Some(Err(InterfaceError::MaxRetriesExceeded)),
        }
    }
}

/// How many probes a scan of `n` ports with `max_retries` allowed attempts
/// can make at most.
pub open spec fn probe_budget(n: int, max_retries: int) -> int {
    if max_retries < n {
        max_retries
    } else {
        n
    }
}

/// The index of the first free candidate at or after `i`, among the first
/// `budget` candidates; `None` when every one of them is occupied.
pub open spec fn first_free_index(free: Seq<bool>, budget: int, i: int) -> Option<int>
    decreases budget - i,
{
    if i < 0 || i >= budget {
        None
    } else if free[i] {
        Some(i)
    } else {
        first_free_index(free, budget, i + 1)
    }
}

/// The verdict of scanning `start..=end` with `max_retries` allowed probes,
/// when `free[i]` says whether port `start + i` would accept a test bind:
/// the first free port among the probed ones, or the failure that names
/// what ran out first.
pub open spec fn port_verdict(start: u16, end: u16, max_retries: u32, free: Seq<bool>) -> Result<
    u16,
    InterfaceError,
> {
    let n = end - start + 1;
    match first_free_index(free, probe_budget(n, max_retries as int), 0) {
        Some(i) => Ok((start + i) as u16),
        None => if (max_retries as int) < n {
            Err(InterfaceError::MaxRetriesExceeded)
        } else {
            Err(InterfaceError::NoAvailablePort)
        },
    }
}

/// Scan the range `start..=end` for a free port, making at most
/// `max_retries` probes.  `free[i]` gives the outcome of probing port
/// `start + i`; the scan consults it in ascending order and stops at the
/// first free port.
pub fn find_available_port(start: u16, end: u16, max_retries: u32, free: &Vec<bool>) -> (r: Result<
    u16,
    InterfaceError,
>)
    requires
        start <= end,
        free@.len() == end - start + 1,
    ensures
        r == port_verdict(start, end, max_retries, free@),
{
    let ghost n: int = end - start + 1;
    let ghost budget: int = probe_budget(n, max_retries as int);
    let mut scan = PortScan::new(start, end, max_retries);
    while scan.is_running()
        invariant
            scan.wf(),
            scan.start == start,
            scan.end == end,
            scan.max_retries == max_retries,
            n == end - start + 1,
            free@.len() == n,
            budget == probe_budget(n, max_retries as int),
            forall|j: int| 0 <= j < scan.probed ==> !free@[j],
            scan.state matches ScanState::Found(p) ==> scan.probed < budget && p == start
                + scan.probed && free@[scan.probed as int],
            scan.state matches ScanState::NoPort ==> budget == n && scan.probed == n,
            scan.state matches ScanState::RetriesOut ==> budget == max_retries
                && scan.probed == max_retries && (max_retries as int) < n,
        decreases scan.probes_left(budget),
    {
        let candidate = scan.next_candidate();
        let offset = (candidate - start) as usize;
        scan.record(free[offset]);
    }
    proof {
        match scan.state {
            ScanState::Found(p) => {
                lemma_first_free_index_at(free@, budget, 0, p - start);
            },
            ScanState::NoPort => {
                lemma_first_free_index_none(free@, budget, 0);
            },
            ScanState::RetriesOut => {
                lemma_first_free_index_none(free@, budget, 0);
            },
            ScanState::Running => {
                assert(false);
            },
        }
    }
    match scan.state {
        ScanState::Found(p) => Ok(p),
        ScanState::NoPort => Err(InterfaceError::NoAvailablePort),
        ScanState::RetriesOut => Err(InterfaceError::MaxRetriesExceeded),
        ScanState::Running => Err(InterfaceError::NoAvailablePort),
    }
}

/// When the candidates before `k` are occupied and `k` is free, `k` is the
/// first free index.
proof fn lemma_first_free_index_at(free: Seq<bool>, budget: int, i: int, k: int)
    requires
        0 <= i <= k < budget,
        free[k],
        forall|j: int| i <= j < k ==> !free[j],
    ensures
        first_free_index(free, budget, i) == Some(k),
    decreases k - i,
{
    if i < k {
        lemma_first_free_index_at(free, budget, i + 1, k);
    }
}

/// When every candidate from `i` on is occupied, there is no first free
/// index.
proof fn lemma_first_free_index_none(free: Seq<bool>, budget: int, i: int)
    requires
        forall|j: int| i <= j < budget ==> !free[j],
    ensures
        first_free_index(free, budget, i) is None,
    decreases budget - i,
{
    if 0 <= i < budget {
        lemma_first_free_index_none(free, budget, i + 1);
    }
}

/// A first free index is itself free, lies below the budget, and nothing
/// before it is free.
proof fn lemma_first_free_index_characterizes(free: Seq<bool>, budget: int, i: int)
    requires
        0 <= i,
        first_free_index(free, budget, i) is Some,
    ensures
        first_free_index(free, budget, i) matches Some(k) && i <= k < budget && free[k] && (
        forall|j: int| i <= j < k ==> !free[j]),
    decreases budget - i,
{
    if i < budget && !free[i] {
        lemma_first_free_index_characterizes(free, budget, i + 1);
    }
}

/// If some port of `start..=end` is free and within reach of the retry
/// budget, the scan returns a port, and that port lies in the range.
pub proof fn lemma_reachable_free_port_is_found(
    start: u16,
    end: u16,
    max_retries: u32,
    free: Seq<bool>,
    w: int,
)
    requires
        start <= end,
        free.len() == end - start + 1,
        0 <= w < probe_budget(end - start + 1, max_retries as int),
        free[w],
    ensures
        port_verdict(start, end, max_retries, free) matches Ok(p) && start <= p <= end,
{
    let budget = probe_budget(end - start + 1, max_retries as int);
    lemma_first_free_index_some(free, budget, 0, w);
    lemma_first_free_index_characterizes(free, budget, 0);
}

/// When a free candidate exists at or after `i`, a first free index exists.
proof fn lemma_first_free_index_some(free: Seq<bool>, budget: int, i: int, w: int)
    requires
        0 <= i <= w < budget,
        free[w],
    ensures
        first_free_index(free, budget, i) is Some,
    decreases w - i,
{
    if i < w && !free[i] {
        lemma_first_free_index_some(free, budget, i + 1, w);
    }
}

/// When the first `k` ports of the range are occupied, `k` probes are
/// within the budget, and the next port is free, the scan settles on
/// exactly that port: occupied ports are skipped, and no free port before
/// the verdict is passed over.
pub proof fn lemma_first_free_port_is_chosen(
    start: u16,
    end: u16,
    max_retries: u32,
    free: Seq<bool>,
    k: int,
)
    requires
        start <= end,
        free.len() == end - start + 1,
        0 <= k < probe_budget(end - start + 1, max_retries as int),
        forall|j: int| 0 <= j < k ==> !free[j],
        free[k],
    ensures
        port_verdict(start, end, max_retries, free) == Result::<u16, InterfaceError>::Ok(
            (start + k) as u16,
        ),
{
    let budget = probe_budget(end - start + 1, max_retries as int);
    lemma_first_free_index_at(free, budget, 0, k);
}

/// Exhausting the retry budget with ports of the range still unprobed is
/// reported as running out of retries.
pub proof fn lemma_spent_retries_are_terminal(
    start: u16,
    end: u16,
    max_retries: u32,
    free: Seq<bool>,
)
    requires
        start <= end,
        free.len() == end - start + 1,
        (max_retries as int) < end - start + 1,
        forall|j: int| 0 <= j < max_retries ==> !free[j],
    ensures
        port_verdict(start, end, max_retries, free) == Result::<u16, InterfaceError>::Err(
            InterfaceError::MaxRetriesExceeded,
        ),
{
    let budget = probe_budget(end - start + 1, max_retries as int);
    lemma_first_free_index_none(free, budget, 0);
}

/// Scanning the whole range without success, retries left over, is reported
/// as the range being exhausted — a verdict distinct from running out of
/// retries.
pub proof fn lemma_exhausted_range_is_distinct(
    start: u16,
    end: u16,
    max_retries: u32,
    free: Seq<bool>,
)
    requires
        start <= end,
        free.len() == end - start + 1,
        end - start + 1 <= (max_retries as int),
        forall|j: int| 0 <= j < end - start + 1 ==> !free[j],
    ensures
        port_verdict(start, end, max_retries, free) == Result::<u16, InterfaceError>::Err(
            InterfaceError::NoAvailablePort,
        ),
{
    let budget = probe_budget(end - start + 1, max_retries as int);
    lemma_first_free_index_none(free, budget, 0);
}

} // verus!
