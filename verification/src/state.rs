//! Counters, webhook configuration, and the HTTP status of a failed call.

use vstd::prelude::*;

use crate::text::{decimal, decimal_string, same_text};

verus! {

/// Counters of what passed through the service.
///
/// Each counter is a 64-bit count that wraps to zero after its largest value, as an
/// atomic `fetch_add` does; the live-connection gauge wraps the other way below zero.
#[derive(Clone, Copy, Debug, PartialEq, Eq, Structural)]
pub struct Metrics {
    pub messages_sent: u64,
    pub messages_received: u64,
    pub rpc_calls: u64,
    pub rpc_errors: u64,
    pub ws_clients: u64,
}

/// One more than `x`, wrapping to zero after the largest value.
pub open spec fn bump(x: u64) -> u64 {
    if x == u64::MAX {
        0
    } else {
        (x + 1) as u64
    }
}

/// One less than `x`, wrapping to the largest value below zero.
pub open spec fn unbump(x: u64) -> u64 {
    if x == 0 {
        u64::MAX
    } else {
        (x - 1) as u64
    }
}

fn wrapping_increment(x: u64) -> (r: u64)
    ensures
        r == bump(x),
{
    if x == u64::MAX {
        0
    } else {
        x + 1
    }
}

fn wrapping_decrement(x: u64) -> (r: u64)
    ensures
        r == unbump(x),
{
    if x == 0 {
        u64::MAX
    } else {
        x - 1
    }
}

pub const SENT_HEADER: &'static str = "# HELP signal_messages_sent_total Total messages sent\n# TYPE signal_messages_sent_total counter\nsignal_messages_sent_total ";

pub const RECEIVED_HEADER: &'static str = "\n# HELP signal_messages_received_total Total messages received\n# TYPE signal_messages_received_total counter\nsignal_messages_received_total ";

pub const RPC_CALLS_HEADER: &'static str = "\n# HELP signal_rpc_calls_total Total JSON-RPC calls to signal-cli\n# TYPE signal_rpc_calls_total counter\nsignal_rpc_calls_total ";

pub const RPC_ERRORS_HEADER: &'static str = "\n# HELP signal_rpc_errors_total Total JSON-RPC errors\n# TYPE signal_rpc_errors_total counter\nsignal_rpc_errors_total ";

pub const WS_CLIENTS_HEADER: &'static str = "\n# HELP signal_ws_clients_active Active WebSocket clients\n# TYPE signal_ws_clients_active gauge\nsignal_ws_clients_active ";

pub const LINE_END: &'static str = "\n";

/// The Prometheus text exposition of the counters: for each one its help line, its
/// type line and a sample line with its value in decimal.
pub open spec fn prometheus_text(m: Metrics) -> Seq<char> {
    SENT_HEADER@ + decimal(m.messages_sent as nat) + RECEIVED_HEADER@ + decimal(
        m.messages_received as nat,
    ) + RPC_CALLS_HEADER@ + decimal(m.rpc_calls as nat) + RPC_ERRORS_HEADER@ + decimal(
        m.rpc_errors as nat,
    ) + WS_CLIENTS_HEADER@ + decimal(m.ws_clients as nat) + LINE_END@
}

/// Whether `text` has the sample line `name value`: the name at the start of a line,
/// the value in decimal right after it, and the end of the line.
pub open spec fn has_sample_line(text: Seq<char>, name: Seq<char>, value: u64) -> bool {
    let line = seq!['\n'] + name + decimal(value as nat) + seq!['\n'];
    exists|i: int|
        0 <= i && i + line.len() <= text.len() && #[trigger] text.subrange(i, i + line.len())
            == line
}

/// Where a header `h` ends with a line break and `name`, and `b` begins a new line, the
/// text `a + h + d + b` holds the line `name d`.
proof fn lemma_line_between(a: Seq<char>, h: Seq<char>, name: Seq<char>, d: Seq<char>, b: Seq<char>)
    requires
        h.len() >= name.len() + 1,
        h.subrange(h.len() - name.len() - 1, h.len() as int) == seq!['\n'] + name,
        b.len() >= 1,
        b[0] == '\n',
    ensures
        ({
            let t = a + h + d + b;
            let line = seq!['\n'] + name + d + seq!['\n'];
            let i = a.len() + h.len() - name.len() - 1;
            &&& 0 <= i
            &&& i + line.len() <= t.len()
            &&& t.subrange(i, i + line.len()) == line
        }),
{
    let t = a + h + d + b;
    let line = seq!['\n'] + name + d + seq!['\n'];
    let i = a.len() + h.len() - name.len() - 1;
    let tail = seq!['\n'] + name;
    assert forall|k: int| 0 <= k < line.len() implies #[trigger] t.subrange(
        i,
        i + line.len(),
    )[k] == line[k] by {
        if k < tail.len() {
            assert(h[h.len() - name.len() - 1 + k] == tail[k]);
            assert(line[k] == tail[k]);
        } else if k < tail.len() + d.len() {
            assert(line[k] == d[k - tail.len()]);
        } else {
            assert(line[k] == '\n');
            assert(t[i + k] == b[0]);
        }
    }
    assert(t.subrange(i, i + line.len()) =~= line);
}

/// The exposition reports every counter: for each one, the text holds its sample line
/// with the counter's current value, whatever the other counters hold.
pub proof fn lemma_prometheus_reports_every_counter(m: Metrics)
    ensures
        has_sample_line(prometheus_text(m), "signal_messages_sent_total "@, m.messages_sent),
        has_sample_line(prometheus_text(m), "signal_messages_received_total "@, m.messages_received),
        has_sample_line(prometheus_text(m), "signal_rpc_calls_total "@, m.rpc_calls),
        has_sample_line(prometheus_text(m), "signal_rpc_errors_total "@, m.rpc_errors),
        has_sample_line(prometheus_text(m), "signal_ws_clients_active "@, m.ws_clients),
{
    reveal_strlit("# HELP signal_messages_sent_total Total messages sent\n# TYPE signal_messages_sent_total counter\nsignal_messages_sent_total ");
    reveal_strlit("\n# HELP signal_messages_received_total Total messages received\n# TYPE signal_messages_received_total counter\nsignal_messages_received_total ");
    reveal_strlit("\n# HELP signal_rpc_calls_total Total JSON-RPC calls to signal-cli\n# TYPE signal_rpc_calls_total counter\nsignal_rpc_calls_total ");
    reveal_strlit("\n# HELP signal_rpc_errors_total Total JSON-RPC errors\n# TYPE signal_rpc_errors_total counter\nsignal_rpc_errors_total ");
    reveal_strlit("\n# HELP signal_ws_clients_active Active WebSocket clients\n# TYPE signal_ws_clients_active gauge\nsignal_ws_clients_active ");
    reveal_strlit("\n");
    reveal_strlit("signal_messages_sent_total ");
    reveal_strlit("signal_messages_received_total ");
    reveal_strlit("signal_rpc_calls_total ");
    reveal_strlit("signal_rpc_errors_total ");
    reveal_strlit("signal_ws_clients_active ");
    let t = prometheus_text(m);
    let d0 = decimal(m.messages_sent as nat);
    let d1 = decimal(m.messages_received as nat);
    let d2 = decimal(m.rpc_calls as nat);
    let d3 = decimal(m.rpc_errors as nat);
    let d4 = decimal(m.ws_clients as nat);
    let h0 = SENT_HEADER@;
    let h1 = RECEIVED_HEADER@;
    let h2 = RPC_CALLS_HEADER@;
    let h3 = RPC_ERRORS_HEADER@;
    let h4 = WS_CLIENTS_HEADER@;
    let e = LINE_END@;
    // sent
    let n0 = "signal_messages_sent_total "@;
    assert(h0.subrange(h0.len() - n0.len() - 1, h0.len() as int) =~= seq!['\n'] + n0);
    let b0 = h1 + d1 + h2 + d2 + h3 + d3 + h4 + d4 + e;
    assert(t =~= Seq::<char>::empty() + h0 + d0 + b0);
    lemma_line_between(Seq::empty(), h0, n0, d0, b0);
    let line0 = seq!['\n'] + n0 + d0 + seq!['\n'];
    let i0 = h0.len() - n0.len() - 1;
    assert(t.subrange(i0, i0 + line0.len()) == line0);
    // received
    let n1 = "signal_messages_received_total "@;
    assert(h1.subrange(h1.len() - n1.len() - 1, h1.len() as int) =~= seq!['\n'] + n1);
    let a1 = h0 + d0;
    let b1 = h2 + d2 + h3 + d3 + h4 + d4 + e;
    assert(t =~= a1 + h1 + d1 + b1);
    lemma_line_between(a1, h1, n1, d1, b1);
    let line1 = seq!['\n'] + n1 + d1 + seq!['\n'];
    let i1 = a1.len() + h1.len() - n1.len() - 1;
    assert(t.subrange(i1, i1 + line1.len()) == line1);
    // rpc calls
    let n2 = "signal_rpc_calls_total "@;
    assert(h2.subrange(h2.len() - n2.len() - 1, h2.len() as int) =~= seq!['\n'] + n2);
    let a2 = h0 + d0 + h1 + d1;
    let b2 = h3 + d3 + h4 + d4 + e;
    assert(t =~= a2 + h2 + d2 + b2);
    lemma_line_between(a2, h2, n2, d2, b2);
    let line2 = seq!['\n'] + n2 + d2 + seq!['\n'];
    let i2 = a2.len() + h2.len() - n2.len() - 1;
    assert(t.subrange(i2, i2 + line2.len()) == line2);
    // rpc errors
    let n3 = "signal_rpc_errors_total "@;
    assert(h3.subrange(h3.len() - n3.len() - 1, h3.len() as int) =~= seq!['\n'] + n3);
    let a3 = h0 + d0 + h1 + d1 + h2 + d2;
    let b3 = h4 + d4 + e;
    assert(t =~= a3 + h3 + d3 + b3);
    lemma_line_between(a3, h3, n3, d3, b3);
    let line3 = seq!['\n'] + n3 + d3 + seq!['\n'];
    let i3 = a3.len() + h3.len() - n3.len() - 1;
    assert(t.subrange(i3, i3 + line3.len()) == line3);
    // websocket clients
    let n4 = "signal_ws_clients_active "@;
    assert(h4.subrange(h4.len() - n4.len() - 1, h4.len() as int) =~= seq!['\n'] + n4);
    let a4 = h0 + d0 + h1 + d1 + h2 + d2 + h3 + d3;
    assert(t =~= a4 + h4 + d4 + e);
    lemma_line_between(a4, h4, n4, d4, e);
    let line4 = seq!['\n'] + n4 + d4 + seq!['\n'];
    let i4 = a4.len() + h4.len() - n4.len() - 1;
    assert(t.subrange(i4, i4 + line4.len()) == line4);
}

impl Metrics {
    /// All counters at zero.
    pub fn new() -> (m: Metrics)
        ensures
            m.messages_sent == 0,
            m.messages_received == 0,
            m.rpc_calls == 0,
            m.rpc_errors == 0,
            m.ws_clients == 0,
    {
        Metrics { messages_sent: 0, messages_received: 0, rpc_calls: 0, rpc_errors: 0, ws_clients: 0 }
    }

    /// Counts one message sent.
    pub fn inc_sent(&mut self)
        ensures
            final(self).messages_sent == bump(old(self).messages_sent),
            final(self).messages_received == old(self).messages_received,
            final(self).rpc_calls == old(self).rpc_calls,
            final(self).rpc_errors == old(self).rpc_errors,
            final(self).ws_clients == old(self).ws_clients,
    {
        self.messages_sent = wrapping_increment(self.messages_sent);
    }

    /// Counts one message received.
    pub fn inc_received(&mut self)
        ensures
            final(self).messages_sent == old(self).messages_sent,
            final(self).messages_received == bump(old(self).messages_received),
            final(self).rpc_calls == old(self).rpc_calls,
            final(self).rpc_errors == old(self).rpc_errors,
            final(self).ws_clients == old(self).ws_clients,
    {
        self.messages_received = wrapping_increment(self.messages_received);
    }

    /// Counts one JSON-RPC call.
    pub fn inc_rpc(&mut self)
        ensures
            final(self).messages_sent == old(self).messages_sent,
            final(self).messages_received == old(self).messages_received,
            final(self).rpc_calls == bump(old(self).rpc_calls),
            final(self).rpc_errors == old(self).rpc_errors,
            final(self).ws_clients == old(self).ws_clients,
    {
        self.rpc_calls = wrapping_increment(self.rpc_calls);
    }

    /// Counts one failed JSON-RPC call.
    pub fn inc_rpc_error(&mut self)
        ensures
            final(self).messages_sent == old(self).messages_sent,
            final(self).messages_received == old(self).messages_received,
            final(self).rpc_calls == old(self).rpc_calls,
            final(self).rpc_errors == bump(old(self).rpc_errors),
            final(self).ws_clients == old(self).ws_clients,
    {
        self.rpc_errors = wrapping_increment(self.rpc_errors);
    }

    /// Counts one WebSocket client that connected.
    pub fn ws_client_connected(&mut self)
        ensures
            final(self).messages_sent == old(self).messages_sent,
            final(self).messages_received == old(self).messages_received,
            final(self).rpc_calls == old(self).rpc_calls,
            final(self).rpc_errors == old(self).rpc_errors,
            final(self).ws_clients == bump(old(self).ws_clients),
    {
        self.ws_clients = wrapping_increment(self.ws_clients);
    }

    /// Counts one WebSocket client that went away.
    pub fn ws_client_disconnected(&mut self)
        ensures
            final(self).messages_sent == old(self).messages_sent,
            final(self).messages_received == old(self).messages_received,
            final(self).rpc_calls == old(self).rpc_calls,
            final(self).rpc_errors == old(self).rpc_errors,
            final(self).ws_clients == unbump(old(self).ws_clients),
    {
        self.ws_clients = wrapping_decrement(self.ws_clients);
    }

    /// The counters in the Prometheus text format.
    pub fn to_prometheus(&self) -> (r: String)
        ensures
            r@ == prometheus_text(*self),
    {
        let mut out = SENT_HEADER.to_owned();
        out.append(decimal_string(self.messages_sent).as_str());
        out.append(RECEIVED_HEADER);
        out.append(decimal_string(self.messages_received).as_str());
        out.append(RPC_CALLS_HEADER);
        out.append(decimal_string(self.rpc_calls).as_str());
        out.append(RPC_ERRORS_HEADER);
        out.append(decimal_string(self.rpc_errors).as_str());
        out.append(WS_CLIENTS_HEADER);
        out.append(decimal_string(self.ws_clients).as_str());
        out.append(LINE_END);
        out
    }
}

impl Default for Metrics {
    fn default() -> (m: Metrics)
        ensures
            m.messages_sent == 0,
            m.messages_received == 0,
            m.rpc_calls == 0,
            m.rpc_errors == 0,
            m.ws_clients == 0,
    {
        Metrics::new()
    }
}


/// A registered webhook: where to deliver events, and which kinds of event; an empty
/// list of kinds stands for every kind.
#[derive(Clone, Debug)]
pub struct WebhookConfig {
    pub id: String,
    pub url: String,
    pub events: Vec<String>,
}

impl WebhookConfig {
    /// Whether events of the kind `event` are delivered to this webhook: every kind when it
    /// lists none, else exactly the kinds it lists.
    pub fn accepts_event(&self, event: &str) -> (r: bool)
        ensures
            r == (self.events@.len() == 0 || exists|i: int|
                0 <= i < self.events@.len() && #[trigger] self.events@[i]@ == event@),
    {
        if self.events.len() == 0 {
            return true;
        }
        let mut i: usize = 0;
        while i < self.events.len()
            invariant
                i <= self.events.len(),
                forall|j: int| 0 <= j < i ==> #[trigger] self.events@[j]@ != event@,
            decreases self.events.len() - i,
        {
            if same_text(self.events[i].as_str(), event) {
                return true;
            }
            i = i + 1;
        }
        false
    }
}

/// The error text with which a JSON-RPC call that got no answer in time fails.
pub const RPC_TIMEOUT_ERROR: &'static str = "RPC_TIMEOUT";

/// The HTTP status for a failed JSON-RPC call: 504 Gateway Timeout for a call that timed
/// out, 400 Bad Request for any other error.
pub fn rpc_error_status(err: &str) -> (status: u16)
    ensures
        status == (if err@ == RPC_TIMEOUT_ERROR@ {
            504u16
        } else {
            400u16
        }),
{
    if same_text(err, RPC_TIMEOUT_ERROR) {
        504
    } else {
        400
    }
}

} // verus!
