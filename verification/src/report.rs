//! Periodic WAN-endpoint reporting: batch assembly and tick scheduling.
//!
//! Each tick the embedding runtime probes every configured egress interface
//! and hands the per-interface results here; the batch built from them is
//! what one submission to the management server carries. The scheduler keeps
//! ticks from overlapping: a tick that falls due while the previous tick's
//! work is still in flight is skipped, never queued.

use vstd::prelude::*;

verus! {

/// One interface's externally visible endpoint, as reported upstream.
pub struct WanEndpoint {
    /// Identifier of the egress interface the endpoint was probed on.
    pub wan_id: String,
    /// The externally visible address.
    pub public_ip: String,
    /// The externally mapped port.
    pub mapped_port: u16,
    /// NAT classification of the path behind this interface.
    pub nat_type: String,
}

/// What a successful probe of one interface observed.
pub struct ProbeSuccess {
    /// The externally visible address.
    pub public_ip: String,
    /// The externally mapped port.
    pub mapped_port: u16,
    /// NAT classification reported by the classifier.
    pub nat_type: String,
}

/// The endpoint entry a successful probe of interface `wan_id` contributes.
pub open spec fn spec_endpoint_of(wan_id: String, p: ProbeSuccess) -> WanEndpoint {
    WanEndpoint {
        wan_id: wan_id,
        public_ip: p.public_ip,
        mapped_port: p.mapped_port,
        nat_type: p.nat_type,
    }
}

/// The batch a tick submits: one entry per interface whose probe succeeded,
/// in interface order; failed probes are left out.
pub open spec fn spec_batch(ifs: Seq<String>, rs: Seq<Option<ProbeSuccess>>) -> Seq<WanEndpoint>
    decreases rs.len(),
{
    if rs.len() == 0 || ifs.len() != rs.len() {
        Seq::empty()
    } else {
        let head = spec_batch(ifs.drop_last(), rs.drop_last());
        match rs.last() {
            Some(p) => head.push(spec_endpoint_of(ifs.last(), p)),
            None => head,
        }
    }
}

/// Assemble the submission batch for one tick from the per-interface probe
/// results. Probe failures are isolated: a failed interface is omitted and
/// every other interface still reports.
pub fn build_report_batch(interfaces: Vec<String>, results: Vec<Option<ProbeSuccess>>) -> (batch:
    Vec<WanEndpoint>)
    requires
        interfaces@.len() == results@.len(),
    ensures
        batch@ == spec_batch(interfaces@, results@),
{
    let mut batch: Vec<WanEndpoint> = Vec::new();
    let mut results = results;
    let mut interfaces = interfaces;
    let n = interfaces.len();
    let ghost all_ifs = interfaces@;
    let ghost all_rs = results@;
    let mut i: usize = 0;
    // Consume both vectors front to back, moving each successful probe's
    // fields into its batch entry.
    while i < n
        invariant
            n == all_ifs.len() == all_rs.len(),
            i <= n,
            interfaces@ == all_ifs.skip(i as int),
            results@ == all_rs.skip(i as int),
            batch@ == spec_batch(all_ifs.take(i as int), all_rs.take(i as int)),
        decreases n - i,
    {
        let wan_id = interfaces.remove(0);
        let result = results.remove(0);
        match result {
            Some(p) => {
                batch.push(
                    WanEndpoint {
                        wan_id,
                        public_ip: p.public_ip,
                        mapped_port: p.mapped_port,
                        nat_type: p.nat_type,
                    },
                );
            },
            None => {},
        }
        i = i + 1;
        proof {
            lemma_batch_take_step(all_ifs, all_rs, i as int);
            assert(interfaces@ =~= all_ifs.skip(i as int));
            assert(results@ =~= all_rs.skip(i as int));
        }
    }
    proof {
        assert(all_ifs.take(n as int) =~= all_ifs);
        assert(all_rs.take(n as int) =~= all_rs);
    }
    batch
}

/// Extending the probed prefix by one interface extends the batch by that
/// interface's entry exactly when its probe succeeded.
proof fn lemma_batch_take_step(ifs: Seq<String>, rs: Seq<Option<ProbeSuccess>>, i: int)
    requires
        ifs.len() == rs.len(),
        0 < i <= rs.len(),
    ensures
        spec_batch(ifs.take(i), rs.take(i)) == (match rs[i - 1] {
            Some(p) => spec_batch(ifs.take(i - 1), rs.take(i - 1)).push(
                spec_endpoint_of(ifs[i - 1], p),
            ),
            None => spec_batch(ifs.take(i - 1), rs.take(i - 1)),
        }),
{
    assert(ifs.take(i).drop_last() =~= ifs.take(i - 1));
    assert(rs.take(i).drop_last() =~= rs.take(i - 1));
    assert(rs.take(i).last() == rs[i - 1]);
}

/// The batch never carries an entry for an interface whose probe failed, and
/// never more entries than interfaces were probed.
pub proof fn lemma_batch_bounded(ifs: Seq<String>, rs: Seq<Option<ProbeSuccess>>)
    requires
        ifs.len() == rs.len(),
    ensures
        spec_batch(ifs, rs).len() <= rs.len(),
        (forall|i: int| 0 <= i < rs.len() ==> #[trigger] rs[i] is None) ==> spec_batch(
            ifs,
            rs,
        ).len() == 0,
    decreases rs.len(),
{
    if rs.len() > 0 {
        lemma_batch_bounded(ifs.drop_last(), rs.drop_last());
        assert(forall|i: int| 0 <= i < rs.len() - 1 ==> rs.drop_last()[i] == rs[i]);
    }
}

/// Scheduler state of the reporting task: whether a tick's work is in
/// flight.
pub struct ReportScheduler {
    /// True from the start of a tick's work until it resolves.
    pub in_flight: bool,
}

/// The scheduler after a tick falls due: work is in flight afterwards either
/// way, and the tick actually starts (second component) only when no earlier
/// work was still running.
pub open spec fn spec_begin_tick(in_flight: bool) -> (bool, bool) {
    (true, !in_flight)
}

impl ReportScheduler {
    /// A fresh reporting task has no work in flight.
    pub fn new() -> (r: Self)
        ensures
            !r.in_flight,
    {
        ReportScheduler { in_flight: false }
    }

    /// A tick falls due. The tick starts only if no earlier tick's work is
    /// still in flight; otherwise it is skipped, and nothing is queued.
    pub fn begin_tick(&mut self) -> (started: bool)
        ensures
            (final(self).in_flight, started) == spec_begin_tick(old(self).in_flight),
            started == !old(self).in_flight,
            final(self).in_flight,
    {
        let started = !self.in_flight;
        self.in_flight = true;
        started
    }

    /// The in-flight tick's work resolved (submitted, or failed and logged);
    /// the task waits for the next tick, with no immediate retry.
    pub fn end_tick(&mut self)
        ensures
            !final(self).in_flight,
    {
        self.in_flight = false;
    }
}

/// At most one submission is ever in flight: once a tick starts, any tick
/// that falls due before that work ends is skipped, so two consecutive due
/// ticks never both start.
pub proof fn lemma_single_submission(in_flight: bool)
    ensures
        spec_begin_tick(in_flight).1 ==> !spec_begin_tick(spec_begin_tick(in_flight).0).1,
{
}

} // verus!
