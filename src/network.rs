//! Network traffic: per-tick byte rates derived from interface counters.
use vstd::prelude::*;
use crate::history::MetricHistory;

verus! {

/// Samples kept per traffic direction.
pub const NETWORK_HISTORY_SIZE: usize = 61;

/// Bytes moved since the previous reading of a counter; zero if the counter
/// went backwards, and at most `i64::MAX`.
pub open spec fn counter_delta(previous: u64, current: u64) -> i64 {
    if current <= previous {
        0
    } else if current - previous > i64::MAX {
        i64::MAX
    } else {
        (current - previous) as i64
    }
}

/// Received and transmitted byte counts and their per-tick rates.
pub struct NetworkTraffic {
    rx_history: MetricHistory,
    tx_history: MetricHistory,
    total_rx: u64,
    total_tx: u64,
}

impl NetworkTraffic {
    pub closed spec fn wf(&self) -> bool {
        &&& self.rx_history.wf()
        &&& self.tx_history.wf()
        &&& self.rx_history@.len() == NETWORK_HISTORY_SIZE
        &&& self.tx_history@.len() == NETWORK_HISTORY_SIZE
    }

    /// Rates received per tick, oldest first.
    pub closed spec fn rx_rates(&self) -> Seq<i64> {
        self.rx_history@
    }

    /// Rates transmitted per tick, oldest first.
    pub closed spec fn tx_rates(&self) -> Seq<i64> {
        self.tx_history@
    }

    /// The counters as last read: received, then transmitted.
    pub closed spec fn totals(&self) -> (u64, u64) {
        (self.total_rx, self.total_tx)
    }

    /// Starts from the counters `total_rx` and `total_tx`, with zero rates.
    pub fn new(total_rx: u64, total_tx: u64) -> (r: Self)
        ensures
            r.wf(),
            r.rx_rates() == Seq::new(NETWORK_HISTORY_SIZE as nat, |_i: int| 0i64),
            r.tx_rates() == Seq::new(NETWORK_HISTORY_SIZE as nat, |_i: int| 0i64),
            r.totals() == (total_rx, total_tx),
    {
        NetworkTraffic {
            rx_history: MetricHistory::filled(NETWORK_HISTORY_SIZE, 0),
            tx_history: MetricHistory::filled(NETWORK_HISTORY_SIZE, 0),
            total_rx,
            total_tx,
        }
    }

    /// Records a new reading of the counters: the bytes moved since the last
    /// reading become the newest rates.
    pub fn update(&mut self, current_rx: u64, current_tx: u64)
        requires
            old(self).wf(),
        ensures
            final(self).wf(),
            final(self).rx_rates() == old(self).rx_rates().drop_first().push(
                counter_delta(old(self).totals().0, current_rx),
            ),
            final(self).tx_rates() == old(self).tx_rates().drop_first().push(
                counter_delta(old(self).totals().1, current_tx),
            ),
            final(self).totals() == (current_rx, current_tx),
    {
        let rx = delta(self.total_rx, current_rx);
        let tx = delta(self.total_tx, current_tx);
        self.rx_history.push(rx);
        self.tx_history.push(tx);
        self.total_rx = current_rx;
        self.total_tx = current_tx;
    }

    /// Both rate histories, the newest rates, and the counters.
    pub fn get_network_data(&self) -> (r: (Vec<i64>, Vec<i64>, i64, i64, u64, u64))
        requires
            self.wf(),
        ensures
            r.0@ == self.rx_rates(),
            r.1@ == self.tx_rates(),
            r.2 == self.rx_rates().last(),
            r.3 == self.tx_rates().last(),
            (r.4, r.5) == self.totals(),
    {
        let rx = self.rx_history.snapshot();
        let tx = self.tx_history.snapshot();
        let rx_last = rx[rx.len() - 1];
        let tx_last = tx[tx.len() - 1];
        (rx, tx, rx_last, tx_last, self.total_rx, self.total_tx)
    }
}

fn delta(previous: u64, current: u64) -> (r: i64)
    ensures
        r == counter_delta(previous, current),
{
    if current <= previous {
        0
    } else if current - previous > i64::MAX as u64 {
        i64::MAX
    } else {
        (current - previous) as i64
    }
}

} // verus!
