//! The CTAP-over-USB system-call driver.
//!
//! Each process that uses the driver has a record ([`App`]) kept in its grant
//! region. Only one process can be connected to the driver at a time, so that
//! packets need not be routed among processes. The USB HID client and the
//! process buffers are outside this module: the driver decides, and hands back
//! a [`CtapAction`] that tells the caller which outside step to perform next.

use vstd::prelude::*;
use crate::errors::{CommandReturn, ErrorCode};

verus! {

/// Command number: does the driver exist?
pub const CTAP_CMD_CHECK: usize = 0;
/// Command number: connect the calling process to the driver.
pub const CTAP_CMD_CONNECT: usize = 1;
/// Command number: transmit the packet in the read-only buffer.
pub const CTAP_CMD_TRANSMIT: usize = 2;
/// Command number: wait for a packet into the read-write buffer.
pub const CTAP_CMD_RECEIVE: usize = 3;
/// Command number: receive a pending packet, or else transmit.
pub const CTAP_CMD_TRANSMIT_OR_RECEIVE: usize = 4;
/// Command number: cancel the transaction the process waits for.
pub const CTAP_CMD_CANCEL: usize = 5;

/// Size of a CTAP HID packet, in bytes.
pub const PACKET_SIZE: usize = 64;

/// Upcall number: a packet was transmitted.
pub const UPCALL_TRANSMITTED: usize = 0;
/// Upcall number: a packet was received.
pub const UPCALL_RECEIVED: usize = 1;

/// Which way a process's transaction goes.
#[derive(Clone, Copy, Debug, PartialEq, Eq, Structural)]
pub enum Side {
    Transmit,
    Receive,
    TransmitOrReceive,
}

impl Side {
    pub open spec fn transmits(self) -> bool {
        self is Transmit || self is TransmitOrReceive
    }

    pub open spec fn receives(self) -> bool {
        self is Receive || self is TransmitOrReceive
    }

    /// Whether a transaction on this side can send a packet.
    pub fn can_transmit(&self) -> (b: bool)
        ensures
            b == self.transmits(),
    {
        match self {
            Side::Transmit => true,
            Side::Receive => false,
            Side::TransmitOrReceive => true,
        }
    }

    /// Whether a transaction on this side can take a packet.
    pub fn can_receive(&self) -> (b: bool)
        ensures
            b == self.receives(),
    {
        match self {
            Side::Transmit => false,
            Side::Receive => true,
            Side::TransmitOrReceive => true,
        }
    }
}

/// The state the driver keeps for one process.
#[derive(Clone, Copy, Debug, PartialEq, Eq, Structural)]
pub struct App {
    /// Whether this process is the one connected to the driver.
    pub connected: bool,
    /// The side of the current transaction, if one was chosen.
    pub side: Option<Side>,
    /// Whether the process waits for the driver to signal a packet transfer.
    pub waiting: bool,
}

impl App {
    pub open spec fn fresh() -> App {
        App { connected: false, side: None, waiting: false }
    }

    /// The process waits for a packet on a side that receives.
    pub open spec fn receives_now(self) -> bool {
        self.waiting && match self.side {
            Some(s) => s.receives(),
            None => false,
        }
    }

    /// The process waits for a transmission on a side that transmits.
    pub open spec fn transmits_now(self) -> bool {
        self.waiting && match self.side {
            Some(s) => s.transmits(),
            None => false,
        }
    }

    /// The record after its side is forgotten, unless the process still waits.
    pub open spec fn side_checked(self) -> App {
        if self.waiting {
            self
        } else {
            App { connected: self.connected, side: None, waiting: self.waiting }
        }
    }

    /// Whether `side` is compatible with the record, and the record once the
    /// side is chosen.
    pub open spec fn with_side(self, side: Side) -> (bool, App) {
        match self.side {
            None => (true, App { connected: self.connected, side: Some(side), waiting: self.waiting }),
            Some(s) => (s == side, self),
        }
    }

    /// The record of a process that has just been given what it waited for.
    pub open spec fn served(self) -> App {
        App { connected: self.connected, side: None, waiting: false }
    }

    /// A record for a process that has not used the driver yet.
    pub fn new() -> (a: App)
        ensures
            a == App::fresh(),
    {
        App { connected: false, side: None, waiting: false }
    }

    /// Whether the process waits for a packet on a side that receives.
    pub fn can_receive_packet(&self) -> (b: bool)
        ensures
            b == self.receives_now(),
    {
        self.waiting && match self.side {
            Some(s) => s.can_receive(),
            None => false,
        }
    }

    /// Forgets the side of the transaction once the process no longer waits.
    pub fn check_side(&mut self)
        ensures
            *final(self) == old(self).side_checked(),
    {
        if !self.waiting {
            self.side = None;
        }
    }

    /// Chooses the side of the transaction; answers whether `side` agrees
    /// with the side already chosen.
    pub fn set_side(&mut self, side: Side) -> (ok: bool)
        ensures
            ok == old(self).with_side(side).0,
            *final(self) == old(self).with_side(side).1,
    {
        match self.side {
            None => {
                self.side = Some(side);
                true
            },
            Some(app_side) => side == app_side,
        }
    }

    /// Whether the transaction is on `side`.
    pub fn is_ready_for_command(&self, side: Side) -> (b: bool)
        ensures
            b == (self.side == Some(side)),
    {
        match self.side {
            Some(s) => s == side,
            None => false,
        }
    }
}

impl Default for App {
    fn default() -> (a: App)
        ensures
            a == App::fresh(),
    {
        App::new()
    }
}

/// The record of one process in the driver's grant.
#[derive(Clone, Copy, Debug, PartialEq, Eq, Structural)]
pub struct AppEntry {
    /// The process the record belongs to.
    pub process: u32,
    /// Its record.
    pub app: App,
}

/// What the caller has to do after the driver decided on a command.
#[derive(Clone, Copy, Debug, PartialEq, Eq, Structural)]
pub enum CtapAction {
    /// Nothing more: answer the command with this.
    Reply(CommandReturn),
    /// Enable and attach the USB client, then answer success.
    Attach,
    /// Copy the read-only buffer into a packet and transmit it on `endpoint`;
    /// hand the outcome to `transmit_done`.
    Transmit { endpoint: usize },
    /// Ask the USB client to receive a packet for the process, then answer
    /// success.
    Receive,
    /// Ask the USB client to receive a packet for the process; then call
    /// `after_receive`.
    ReceiveThenTransmit { endpoint: usize },
    /// Copy the read-only buffer into a packet and transmit it on `endpoint`;
    /// hand the outcome to `transmit_or_receive_done`.
    TransmitAfterReceive { endpoint: usize },
    /// Ask the USB client to cancel the transaction on `endpoint`; hand its
    /// answer to `cancel_done`.
    Cancel { endpoint: usize },
}

pub open spec fn has_process(s: Seq<AppEntry>, p: u32) -> bool {
    exists|i: int| 0 <= i < s.len() && s[i].process == p
}

pub open spec fn index_of_process(s: Seq<AppEntry>, p: u32) -> int {
    choose|i: int| 0 <= i < s.len() && s[i].process == p
}

pub open spec fn app_of(s: Seq<AppEntry>, p: u32) -> App {
    s[index_of_process(s, p)].app
}

pub open spec fn with_app(s: Seq<AppEntry>, p: u32, a: App) -> Seq<AppEntry> {
    s.update(index_of_process(s, p), AppEntry { process: p, app: a })
}

/// The grant after `p` entered it: a fresh record is added for a process
/// that had none.
pub open spec fn entered(s: Seq<AppEntry>, p: u32) -> Seq<AppEntry> {
    if has_process(s, p) {
        s
    } else {
        s.push(AppEntry { process: p, app: App::fresh() })
    }
}

pub open spec fn unique_processes(s: Seq<AppEntry>) -> bool {
    forall|i: int, j: int|
        0 <= i < s.len() && 0 <= j < s.len() && i != j ==> s[i].process != s[j].process
}

pub open spec fn at_most_one_connected(s: Seq<AppEntry>) -> bool {
    forall|i: int, j: int|
        0 <= i < s.len() && 0 <= j < s.len() && s[i].app.connected && s[j].app.connected ==> i
            == j
}

pub open spec fn any_connected(s: Seq<AppEntry>) -> bool {
    exists|i: int| 0 <= i < s.len() && s[i].app.connected
}

/// The driver's invariant: one record per process, at most one connected.
pub open spec fn grant_wf(s: Seq<AppEntry>) -> bool {
    unique_processes(s) && at_most_one_connected(s)
}

/// The side a transfer command asks for.
pub open spec fn side_of_command(cmd: usize) -> Side {
    if cmd == CTAP_CMD_TRANSMIT {
        Side::Transmit
    } else if cmd == CTAP_CMD_RECEIVE {
        Side::Receive
    } else {
        Side::TransmitOrReceive
    }
}

/// What a command does to the grant and what it asks of the caller.
pub open spec fn command_spec(
    s: Seq<AppEntry>,
    cmd: usize,
    endpoint: usize,
    p: u32,
    grant_failure: Option<ErrorCode>,
) -> (Seq<AppEntry>, CtapAction) {
    if cmd == CTAP_CMD_CHECK {
        (s, CtapAction::Reply(CommandReturn::Success))
    } else if cmd > CTAP_CMD_CANCEL {
        (s, CtapAction::Reply(CommandReturn::Failure(ErrorCode::NOSUPPORT)))
    } else if grant_failure is Some {
        (s, CtapAction::Reply(CommandReturn::Failure(grant_failure->0)))
    } else {
        let t = entered(s, p);
        let a = app_of(t, p);
        if cmd == CTAP_CMD_CONNECT {
            if a.connected {
                (t, CtapAction::Reply(CommandReturn::Failure(ErrorCode::ALREADY)))
            } else if any_connected(s) {
                (t, CtapAction::Reply(CommandReturn::Failure(ErrorCode::BUSY)))
            } else {
                (
                    with_app(t, p, App { connected: true, side: a.side, waiting: a.waiting }),
                    CtapAction::Attach,
                )
            }
        } else if !a.connected {
            (t, CtapAction::Reply(CommandReturn::Failure(ErrorCode::RESERVE)))
        } else if cmd == CTAP_CMD_CANCEL {
            if a.waiting {
                (t, CtapAction::Cancel { endpoint })
            } else {
                (t, CtapAction::Reply(CommandReturn::Failure(ErrorCode::ALREADY)))
            }
        } else {
            let ok = a.with_side(side_of_command(cmd)).0;
            let a2 = a.with_side(side_of_command(cmd)).1;
            if !ok {
                (t, CtapAction::Reply(CommandReturn::Failure(ErrorCode::INVAL)))
            } else if a2.waiting {
                (with_app(t, p, a2), CtapAction::Reply(CommandReturn::Failure(ErrorCode::ALREADY)))
            } else if cmd == CTAP_CMD_TRANSMIT {
                (with_app(t, p, a2), CtapAction::Transmit { endpoint })
            } else {
                let a3 = App { connected: a2.connected, side: a2.side, waiting: true };
                if cmd == CTAP_CMD_RECEIVE {
                    (with_app(t, p, a3), CtapAction::Receive)
                } else {
                    (with_app(t, p, a3), CtapAction::ReceiveThenTransmit { endpoint })
                }
            }
        }
    }
}

/// The record of a process after a packet arrived for every process.
pub open spec fn after_packet(e: AppEntry) -> AppEntry {
    if e.app.connected && e.app.receives_now() {
        AppEntry { process: e.process, app: e.app.served() }
    } else {
        e
    }
}

/// The record of a process after the USB client reported a transmission.
pub open spec fn after_transmission(e: AppEntry) -> AppEntry {
    if e.app.connected && e.app.transmits_now() {
        AppEntry { process: e.process, app: e.app.served() }
    } else {
        e
    }
}

/// In grant order, the processes that take an arriving packet.
pub open spec fn receiving_processes(s: Seq<AppEntry>) -> Seq<u32>
    decreases s.len(),
{
    if s.len() == 0 {
        Seq::empty()
    } else {
        let rest = receiving_processes(s.drop_last());
        if s.last().app.connected && s.last().app.receives_now() {
            rest.push(s.last().process)
        } else {
            rest
        }
    }
}

/// In grant order, the processes that are told of a transmission.
pub open spec fn transmitted_processes(s: Seq<AppEntry>) -> Seq<u32>
    decreases s.len(),
{
    if s.len() == 0 {
        Seq::empty()
    } else {
        let rest = transmitted_processes(s.drop_last());
        if s.last().app.connected && s.last().app.transmits_now() {
            rest.push(s.last().process)
        } else {
            rest
        }
    }
}

/// Whether the last connected process in grant order waits for a packet.
pub open spec fn connected_can_receive(s: Seq<AppEntry>) -> bool
    decreases s.len(),
{
    if s.len() == 0 {
        false
    } else if s.last().app.connected {
        s.last().app.receives_now()
    } else {
        connected_can_receive(s.drop_last())
    }
}

pub proof fn lemma_index_unique(s: Seq<AppEntry>, p: u32, i: int)
    requires
        unique_processes(s),
        0 <= i < s.len(),
        s[i].process == p,
    ensures
        has_process(s, p),
        index_of_process(s, p) == i,
{
    assert(has_process(s, p));
    let j = index_of_process(s, p);
    assert(0 <= j < s.len() && s[j].process == p);
}

proof fn lemma_with_app_wf(s: Seq<AppEntry>, p: u32, a: App)
    requires
        grant_wf(s),
        has_process(s, p),
        a.connected ==> (app_of(s, p).connected || !any_connected(s)),
    ensures
        grant_wf(with_app(s, p, a)),
        with_app(s, p, a).len() == s.len(),
{
    let i = index_of_process(s, p);
    let t = with_app(s, p, a);
    assert forall|x: int, y: int|
        0 <= x < t.len() && 0 <= y < t.len() && x != y implies t[x].process != t[y].process by {
        assert(s[i].process == p);
    }
    assert forall|x: int, y: int|
        0 <= x < t.len() && 0 <= y < t.len() && t[x].app.connected && t[y].app.connected implies x
        == y by {
        if x != i && y != i {
        } else if x == i && y != i {
            assert(s[y].app.connected);
            if !app_of(s, p).connected {
                assert(any_connected(s));
            }
        } else if x != i && y == i {
            assert(s[x].app.connected);
            if !app_of(s, p).connected {
                assert(any_connected(s));
            }
        }
    }
}

pub proof fn lemma_entered(s: Seq<AppEntry>, p: u32)
    requires
        grant_wf(s),
    ensures
        grant_wf(entered(s, p)),
        has_process(entered(s, p), p),
        any_connected(entered(s, p)) == any_connected(s),
        !has_process(s, p) ==> app_of(entered(s, p), p) == App::fresh(),
        has_process(s, p) ==> entered(s, p) == s,
        forall|q: u32| has_process(s, q) ==> #[trigger] has_process(entered(s, p), q) && app_of(
            entered(s, p),
            q,
        ) == app_of(s, q),
{
    if !has_process(s, p) {
        let t = entered(s, p);
        let n = s.len() as int;
        assert forall|x: int, y: int|
            0 <= x < t.len() && 0 <= y < t.len() && x != y implies t[x].process
            != t[y].process by {
            if x == n {
                assert(t[y] == s[y]);
            } else if y == n {
                assert(t[x] == s[x]);
            }
        }
        assert forall|x: int, y: int|
            0 <= x < t.len() && 0 <= y < t.len() && t[x].app.connected
                && t[y].app.connected implies x == y by {
            assert(x != n && y != n);
        }
        lemma_index_unique(t, p, n);
        if any_connected(t) {
            let j = choose|j: int| 0 <= j < t.len() && t[j].app.connected;
            assert(j != n);
            assert(t[j] == s[j]);
        }
        if any_connected(s) {
            let j = choose|j: int| 0 <= j < s.len() && s[j].app.connected;
            assert(t[j] == s[j]);
        }
        assert forall|q: u32| has_process(s, q) implies #[trigger] has_process(t, q) && app_of(
            t,
            q,
        ) == app_of(s, q) by {
            let i = index_of_process(s, q);
            assert(t[i] == s[i]);
            lemma_index_unique(t, q, i);
        }
    }
}

/// The CTAP system-call driver.
pub struct CtapUsbSyscallDriver {
    apps: Vec<AppEntry>,
}

impl View for CtapUsbSyscallDriver {
    type V = Seq<AppEntry>;

    closed spec fn view(&self) -> Seq<AppEntry> {
        self.apps@
    }
}

impl CtapUsbSyscallDriver {
    /// Whether the driver's grant keeps its invariant.
    pub closed spec fn wf(&self) -> bool {
        grant_wf(self.apps@)
    }

    /// A driver whose grant holds no process yet.
    pub fn new() -> (d: CtapUsbSyscallDriver)
        ensures
            d.wf(),
            d@ == Seq::<AppEntry>::empty(),
    {
        CtapUsbSyscallDriver { apps: Vec::new() }
    }

    /// The records of the grant, in grant order.
    pub fn apps(&self) -> (v: Vec<AppEntry>)
        ensures
            v@ == self@,
    {
        self.apps.clone()
    }

    /// Whether process `p` has a record in the grant.
    pub fn contains(&self, p: u32) -> (b: bool)
        ensures
            b == has_process(self@, p),
    {
        let mut i: usize = 0;
        while i < self.apps.len()
            invariant
                i <= self.apps@.len(),
                forall|j: int| 0 <= j < i ==> self.apps@[j].process != p,
            decreases self.apps@.len() - i,
        {
            if self.apps[i].process == p {
                return true;
            }
            i = i + 1;
        }
        false
    }

    /// Whether a receive buffer of `len` bytes can take a packet; a process
    /// that shared a shorter one is a fault.
    pub fn receive_buffer_fits(len: usize) -> (b: bool)
        ensures
            b == (len >= PACKET_SIZE),
    {
        len >= PACKET_SIZE
    }

    /// Whether a packet handed over for one process comes with that process's
    /// grant data, as it must; a packet for whoever waits needs none.
    pub fn app_data_consistent(has_app: bool, has_grant_data: bool) -> (b: bool)
        ensures
            b == (!has_app || has_grant_data),
    {
        !has_app || has_grant_data
    }

    fn find(&self, p: u32) -> (r: Option<usize>)
        requires
            self.wf(),
        ensures
            match r {
                Some(i) => i < self@.len() && self@[i as int].process == p && index_of_process(
                    self@,
                    p,
                ) == i && has_process(self@, p),
                None => !has_process(self@, p),
            },
    {
        let mut i: usize = 0;
        while i < self.apps.len()
            invariant
                self.wf(),
                i <= self.apps@.len(),
                forall|j: int| 0 <= j < i ==> self.apps@[j].process != p,
            decreases self.apps@.len() - i,
        {
            if self.apps[i].process == p {
                proof {
                    lemma_index_unique(self.apps@, p, i as int);
                }
                return Some(i);
            }
            i = i + 1;
        }
        None
    }

    /// Enters the grant of `p`, creating a fresh record if it has none.
    fn enter(&mut self, p: u32) -> (i: usize)
        requires
            old(self).wf(),
        ensures
            final(self).wf(),
            final(self)@ == entered(old(self)@, p),
            i < final(self)@.len(),
            final(self)@[i as int].process == p,
            index_of_process(final(self)@, p) == i,
            has_process(final(self)@, p),
    {
        match self.find(p) {
            Some(i) => i,
            None => {
                proof {
                    lemma_entered(self.apps@, p);
                }
                self.apps.push(AppEntry { process: p, app: App::new() });
                let i = self.apps.len() - 1;
                proof {
                    lemma_index_unique(self.apps@, p, i as int);
                }
                i
            },
        }
    }

    fn any_connected(&self) -> (b: bool)
        ensures
            b == any_connected(self@),
    {
        let mut busy = false;
        let mut i: usize = 0;
        while i < self.apps.len()
            invariant
                i <= self.apps@.len(),
                busy == (exists|j: int| 0 <= j < i && self.apps@[j].app.connected),
            decreases self.apps@.len() - i,
        {
            busy = busy || self.apps[i].app.connected;
            i = i + 1;
        }
        busy
    }

    fn store(&mut self, i: usize, p: u32, a: App)
        requires
            old(self).wf(),
            i < old(self)@.len(),
            old(self)@[i as int].process == p,
            index_of_process(old(self)@, p) == i,
            a.connected ==> (old(self)@[i as int].app.connected || !any_connected(old(self)@)),
        ensures
            final(self).wf(),
            final(self)@ == with_app(old(self)@, p, a),
    {
        proof {
            lemma_with_app_wf(self.apps@, p, a);
        }
        self.apps.set(i, AppEntry { process: p, app: a });
    }

    /// Allocates the grant of process `p`; `grant_failure` is the kernel's
    /// refusal, if it refused.
    pub fn allocate_grant(&mut self, p: u32, grant_failure: Option<ErrorCode>) -> (r: Result<
        (),
        ErrorCode,
    >)
        requires
            old(self).wf(),
        ensures
            final(self).wf(),
            grant_failure is Some ==> r == Err::<(), ErrorCode>(grant_failure->0) && final(self)@
                == old(self)@,
            grant_failure is None ==> r is Ok && final(self)@ == entered(old(self)@, p),
    {
        match grant_failure {
            Some(e) => Err(e),
            None => {
                let _ = self.enter(p);
                Ok(())
            },
        }
    }

    /// Decides on a command of process `p`. `grant_failure` is the kernel's
    /// refusal to enter the process's grant, if it refused.
    pub fn command(
        &mut self,
        cmd: usize,
        endpoint: usize,
        p: u32,
        grant_failure: Option<ErrorCode>,
    ) -> (act: CtapAction)
        requires
            old(self).wf(),
        ensures
            final(self).wf(),
            final(self)@ == command_spec(old(self)@, cmd, endpoint, p, grant_failure).0,
            act == command_spec(old(self)@, cmd, endpoint, p, grant_failure).1,
    {
        if cmd == CTAP_CMD_CHECK {
            return CtapAction::Reply(CommandReturn::success());
        }
        if cmd > CTAP_CMD_CANCEL {
            return CtapAction::Reply(CommandReturn::failure(ErrorCode::NOSUPPORT));
        }
        // First, check whether any process is already connected.
        let busy = cmd == CTAP_CMD_CONNECT && self.any_connected();
        if let Some(e) = grant_failure {
            return CtapAction::Reply(CommandReturn::failure(e));
        }
        let ghost s = self.apps@;
        let i = self.enter(p);
        let ghost t = self.apps@;
        let mut app = self.apps[i].app;
        assert(app == app_of(t, p));
        proof {
            lemma_entered(s, p);
        }
        if cmd == CTAP_CMD_CONNECT {
            if app.connected {
                return CtapAction::Reply(CommandReturn::failure(ErrorCode::ALREADY));
            } else if busy {
                return CtapAction::Reply(CommandReturn::failure(ErrorCode::BUSY));
            } else {
                app.connected = true;
                self.store(i, p, app);
                return CtapAction::Attach;
            }
        }
        if !app.connected {
            return CtapAction::Reply(CommandReturn::failure(ErrorCode::RESERVE));
        }
        if cmd == CTAP_CMD_CANCEL {
            if app.waiting {
                // The process keeps waiting until the USB client has
                // cancelled the transaction: see `cancel_done`.
                return CtapAction::Cancel { endpoint };
            } else {
                return CtapAction::Reply(CommandReturn::failure(ErrorCode::ALREADY));
            }
        }
        let side = if cmd == CTAP_CMD_TRANSMIT {
            Side::Transmit
        } else if cmd == CTAP_CMD_RECEIVE {
            Side::Receive
        } else {
            Side::TransmitOrReceive
        };
        if !app.set_side(side) {
            return CtapAction::Reply(CommandReturn::failure(ErrorCode::INVAL));
        }
        if !app.is_ready_for_command(side) {
            self.store(i, p, app);
            return CtapAction::Reply(CommandReturn::failure(ErrorCode::INVAL));
        }
        if app.waiting {
            self.store(i, p, app);
            return CtapAction::Reply(CommandReturn::failure(ErrorCode::ALREADY));
        }
        if cmd == CTAP_CMD_TRANSMIT {
            self.store(i, p, app);
            CtapAction::Transmit { endpoint }
        } else if cmd == CTAP_CMD_RECEIVE {
            app.waiting = true;
            self.store(i, p, app);
            CtapAction::Receive
        } else {
            app.waiting = true;
            self.store(i, p, app);
            CtapAction::ReceiveThenTransmit { endpoint }
        }
    }

    /// Finishes a transmit command. `outcome` is what the USB client answered
    /// to the packet, or `None` where the read-only buffer could not be read.
    pub fn transmit_done(&mut self, p: u32, outcome: Option<CommandReturn>) -> (r: CommandReturn)
        requires
            old(self).wf(),
            has_process(old(self)@, p),
        ensures
            final(self).wf(),
            outcome is None ==> r == CommandReturn::Failure(ErrorCode::FAIL) && final(self)@
                == old(self)@,
            outcome is Some ==> r == outcome->0,
            outcome is Some && (outcome->0).succeeded() ==> final(self)@ == with_app(
                old(self)@,
                p,
                App {
                    connected: app_of(old(self)@, p).connected,
                    side: app_of(old(self)@, p).side,
                    waiting: true,
                },
            ),
            outcome is Some && !(outcome->0).succeeded() ==> final(self)@ == old(self)@,
    {
        match outcome {
            None => CommandReturn::failure(ErrorCode::FAIL),
            Some(r) => {
                if r.is_success() {
                    match self.find(p) {
                        Some(i) => {
                            let mut app = self.apps[i].app;
                            app.waiting = true;
                            self.store(i, p, app);
                        },
                        None => {},
                    }
                }
                r
            },
        }
    }

    /// Continues a transmit-or-receive command once the USB client was asked
    /// to receive: a packet that arrived ends the command, else the packet in
    /// the read-only buffer is to be sent.
    pub fn after_receive(&self, p: u32, endpoint: usize) -> (act: CtapAction)
        requires
            self.wf(),
            has_process(self@, p),
        ensures
            !app_of(self@, p).waiting ==> act == CtapAction::Reply(CommandReturn::Success),
            app_of(self@, p).waiting ==> act == (CtapAction::TransmitAfterReceive { endpoint }),
    {
        match self.find(p) {
            Some(i) => {
                if !self.apps[i].app.waiting {
                    CtapAction::Reply(CommandReturn::success())
                } else {
                    CtapAction::TransmitAfterReceive { endpoint }
                }
            },
            None => CtapAction::Reply(CommandReturn::success()),
        }
    }

    /// Finishes a transmit-or-receive command from what the USB client
    /// answered to the packet (`None`: the read-only buffer could not be read).
    pub fn transmit_or_receive_done(outcome: Option<CommandReturn>) -> (r: CommandReturn)
        ensures
            outcome is None ==> r == CommandReturn::Failure(ErrorCode::FAIL),
            outcome is Some && !(outcome->0).succeeded() ==> r == outcome->0,
            outcome is Some && (outcome->0).succeeded() ==> r == CommandReturn::Success,
    {
        let r = match outcome {
            Some(r) => r,
            None => CommandReturn::failure(ErrorCode::FAIL),
        };
        if !r.is_success() {
            return r;
        }
        CommandReturn::success()
    }

    /// Finishes a cancel command of process `p` from whether the USB client
    /// could cancel. A cancelled transaction ends the wait and forgets the
    /// side; one already under way leaves the process waiting for its upcall.
    pub fn cancel_done(&mut self, p: u32, cancelled: bool) -> (r: CommandReturn)
        requires
            old(self).wf(),
            has_process(old(self)@, p),
        ensures
            final(self).wf(),
            cancelled ==> r == CommandReturn::Success,
            !cancelled ==> r == CommandReturn::Failure(ErrorCode::BUSY),
            cancelled ==> final(self)@ == with_app(old(self)@, p, app_of(old(self)@, p).served()),
            !cancelled ==> final(self)@ == old(self)@,
    {
        if cancelled {
            match self.find(p) {
                Some(i) => {
                    let mut app = self.apps[i].app;
                    app.waiting = false;
                    app.check_side();
                    self.store(i, p, app);
                },
                None => {},
            }
            CommandReturn::success()
        } else {
            // The transaction is already under way: the process waits for
            // the upcall instead.
            CommandReturn::failure(ErrorCode::BUSY)
        }
    }

    /// Whether a packet can be handed over now: to process `p`, or where
    /// `p` is `None`, to the connected process.
    pub fn can_receive_packet(&self, p: Option<u32>) -> (b: bool)
        requires
            self.wf(),
            p is Some ==> has_process(self@, p->0),
        ensures
            p is None ==> b == connected_can_receive(self@),
            p is Some ==> b == app_of(self@, p->0).receives_now(),
    {
        match p {
            Some(q) => match self.find(q) {
                Some(i) => self.apps[i].app.can_receive_packet(),
                None => false,
            },
            None => {
                let mut result = false;
                let mut i: usize = 0;
                while i < self.apps.len()
                    invariant
                        i <= self.apps@.len(),
                        result == connected_can_receive(self.apps@.take(i as int)),
                    decreases self.apps@.len() - i,
                {
                    proof {
                        let s = self.apps@;
                        assert(s.take(i + 1).drop_last() =~= s.take(i as int));
                        assert(s.take(i + 1).last() == s[i as int]);
                    }
                    if self.apps[i].app.connected {
                        result = self.apps[i].app.can_receive_packet();
                    }
                    i = i + 1;
                }
                proof {
                    assert(self.apps@.take(i as int) =~= self.apps@);
                }
                result
            },
        }
    }

    /// A packet arrived: for process `p`, or where `p` is `None`, for every
    /// process that waits for one. Answers, in order, the processes whose
    /// read-write buffer is to receive the packet and which are then to get
    /// the received upcall for `endpoint`.
    pub fn packet_received(&mut self, p: Option<u32>) -> (targets: Vec<u32>)
        requires
            old(self).wf(),
            p is Some ==> has_process(old(self)@, p->0),
        ensures
            final(self).wf(),
            p is None ==> final(self)@ == old(self)@.map_values(|e: AppEntry| after_packet(e))
                && targets@ == receiving_processes(old(self)@),
            p is Some ==> final(self)@ == with_app(
                old(self)@,
                p->0,
                after_packet(AppEntry { process: p->0, app: app_of(old(self)@, p->0) }).app,
            ) && targets@ == receiving_processes(
                seq![AppEntry { process: p->0, app: app_of(old(self)@, p->0) }],
            ),
    {
        let mut targets: Vec<u32> = Vec::new();
        match p {
            Some(q) => {
                match self.find(q) {
                    Some(i) => {
                        let mut app = self.apps[i].app;
                        proof {
                            let one = seq![AppEntry { process: q, app: app }];
                            assert(one.drop_last() =~= Seq::<AppEntry>::empty());
                            assert(receiving_processes(one.drop_last()) =~= Seq::<u32>::empty());
                        }
                        if app.connected && app.can_receive_packet() {
                            app.waiting = false;
                            app.check_side();
                            targets.push(q);
                        }
                        self.store(i, q, app);
                    },
                    None => {},
                }
                targets
            },
            None => {
                let ghost s = self.apps@;
                let mut i: usize = 0;
                while i < self.apps.len()
                    invariant
                        self.apps@.len() == s.len(),
                        i <= s.len(),
                        grant_wf(self.apps@),
                        forall|j: int| 0 <= j < i ==> self.apps@[j] == after_packet(s[j]),
                        forall|j: int| i <= j < s.len() ==> self.apps@[j] == s[j],
                        targets@ == receiving_processes(s.take(i as int)),
                    decreases s.len() - i,
                {
                    proof {
                        assert(s.take(i + 1).drop_last() =~= s.take(i as int));
                        assert(s.take(i + 1).last() == s[i as int]);
                    }
                    let e = self.apps[i];
                    let mut app = e.app;
                    if app.connected && app.can_receive_packet() {
                        app.waiting = false;
                        app.check_side();
                        targets.push(e.process);
                        proof {
                            lemma_index_unique(self.apps@, e.process, i as int);
                        }
                        self.store(i, e.process, app);
                    }
                    i = i + 1;
                }
                proof {
                    assert(s.take(i as int) =~= s);
                    assert(self.apps@ =~= s.map_values(|e: AppEntry| after_packet(e)));
                }
                targets
            },
        }
    }

    /// The USB client sent a packet. Answers, in order, the processes that
    /// waited for the transmission and are to get the transmitted upcall.
    pub fn packet_transmitted(&mut self) -> (targets: Vec<u32>)
        requires
            old(self).wf(),
        ensures
            final(self).wf(),
            final(self)@ == old(self)@.map_values(|e: AppEntry| after_transmission(e)),
            targets@ == transmitted_processes(old(self)@),
    {
        let mut targets: Vec<u32> = Vec::new();
        let ghost s = self.apps@;
        let mut i: usize = 0;
        while i < self.apps.len()
            invariant
                self.apps@.len() == s.len(),
                i <= s.len(),
                grant_wf(self.apps@),
                forall|j: int| 0 <= j < i ==> self.apps@[j] == after_transmission(s[j]),
                forall|j: int| i <= j < s.len() ==> self.apps@[j] == s[j],
                targets@ == transmitted_processes(s.take(i as int)),
            decreases s.len() - i,
        {
            proof {
                assert(s.take(i + 1).drop_last() =~= s.take(i as int));
                assert(s.take(i + 1).last() == s[i as int]);
            }
            let e = self.apps[i];
            let mut app = e.app;
            let transmits = match app.side {
                Some(side) => side.can_transmit(),
                None => false,
            };
            if app.connected && app.waiting && transmits {
                app.waiting = false;
                app.check_side();
                targets.push(e.process);
                proof {
                    lemma_index_unique(self.apps@, e.process, i as int);
                }
                self.store(i, e.process, app);
            }
            i = i + 1;
        }
        proof {
            assert(s.take(i as int) =~= s);
            assert(self.apps@ =~= s.map_values(|e: AppEntry| after_transmission(e)));
        }
        targets
    }
}

} // verus!

verus! {

/// Whatever a command does, the grant keeps one record per process and at
/// most one connected process.
pub proof fn law_single_connection(
    s: Seq<AppEntry>,
    cmd: usize,
    endpoint: usize,
    p: u32,
    grant_failure: Option<ErrorCode>,
)
    requires
        grant_wf(s),
    ensures
        grant_wf(command_spec(s, cmd, endpoint, p, grant_failure).0),
{
    if cmd != CTAP_CMD_CHECK && cmd <= CTAP_CMD_CANCEL && grant_failure is None {
        lemma_entered(s, p);
        let t = entered(s, p);
        let a = app_of(t, p);
        if !a.connected && !any_connected(s) {
            lemma_with_app_wf(t, p, App { connected: true, side: a.side, waiting: a.waiting });
        }
        lemma_with_app_wf(t, p, a.served());
        let a2 = a.with_side(side_of_command(cmd)).1;
        lemma_with_app_wf(t, p, a2);
        lemma_with_app_wf(t, p, App { connected: a2.connected, side: a2.side, waiting: true });
    }
}

/// A process once connected stays connected, whatever command comes.
pub proof fn law_connection_is_permanent(
    s: Seq<AppEntry>,
    cmd: usize,
    endpoint: usize,
    p: u32,
    grant_failure: Option<ErrorCode>,
    q: u32,
)
    requires
        grant_wf(s),
        has_process(s, q),
        app_of(s, q).connected,
    ensures
        has_process(command_spec(s, cmd, endpoint, p, grant_failure).0, q),
        app_of(command_spec(s, cmd, endpoint, p, grant_failure).0, q).connected,
{
    if cmd != CTAP_CMD_CHECK && cmd <= CTAP_CMD_CANCEL && grant_failure is None {
        lemma_entered(s, p);
        let t = entered(s, p);
        let next = command_spec(s, cmd, endpoint, p, grant_failure).0;
        assert(has_process(t, q) && app_of(t, q) == app_of(s, q));
        let iq = index_of_process(t, q);
        let ip = index_of_process(t, p);
        assert(next.len() == t.len());
        if next != t {
            assert(next == t.update(ip, next[ip]));
            if iq == ip {
                assert(next[iq].process == q);
                lemma_index_unique(next, q, iq);
            } else {
                assert(next[iq] == t[iq]);
                assert forall|x: int, y: int|
                    0 <= x < next.len() && 0 <= y < next.len() && x != y implies next[x].process
                    != next[y].process by {
                    assert(t[ip].process == p);
                }
                lemma_index_unique(next, q, iq);
            }
        }
    }
}

/// A process that is not connected while another one is, is refused with
/// `BUSY` when it asks to connect.
pub proof fn law_connect_busy(s: Seq<AppEntry>, endpoint: usize, p: u32, q: u32)
    requires
        grant_wf(s),
        has_process(s, q),
        app_of(s, q).connected,
        q != p,
    ensures
        command_spec(s, CTAP_CMD_CONNECT, endpoint, p, None).1 == CtapAction::Reply(
            CommandReturn::Failure(ErrorCode::BUSY),
        ),
{
    lemma_entered(s, p);
    let t = entered(s, p);
    assert(any_connected(s)) by {
        assert(s[index_of_process(s, q)].app.connected);
    }
    if app_of(t, p).connected {
        let ip = index_of_process(t, p);
        let iq = index_of_process(t, q);
        assert(t[ip].app.connected && t[iq].app.connected);
        assert(ip != iq);
    }
}

/// A transfer or cancel command of a process that is not connected is
/// refused with `RESERVE`.
pub proof fn law_unconnected_reserved(
    s: Seq<AppEntry>,
    cmd: usize,
    endpoint: usize,
    p: u32,
)
    requires
        grant_wf(s),
        CTAP_CMD_TRANSMIT <= cmd <= CTAP_CMD_CANCEL,
        !(has_process(s, p) && app_of(s, p).connected),
    ensures
        command_spec(s, cmd, endpoint, p, None).1 == CtapAction::Reply(
            CommandReturn::Failure(ErrorCode::RESERVE),
        ),
{
    lemma_entered(s, p);
}

/// Asking to cancel leaves the grant as it is: the process keeps waiting
/// until the USB client has answered.
pub proof fn law_cancel_request_keeps_wait(s: Seq<AppEntry>, endpoint: usize, p: u32)
    requires
        grant_wf(s),
        command_spec(s, CTAP_CMD_CANCEL, endpoint, p, None).1 is Cancel,
    ensures
        command_spec(s, CTAP_CMD_CANCEL, endpoint, p, None).0 == s,
        app_of(s, p).waiting,
{
    lemma_entered(s, p);
}

/// Once the USB client answered a cancel, the process waits exactly when the
/// cancel failed; a successful cancel also forgets the side.
pub proof fn law_cancel_outcome(s: Seq<AppEntry>, p: u32)
    requires
        grant_wf(s),
        has_process(s, p),
    ensures
        !app_of(with_app(s, p, app_of(s, p).served()), p).waiting,
        app_of(with_app(s, p, app_of(s, p).served()), p).side is None,
{
    let i = index_of_process(s, p);
    lemma_with_app_wf(s, p, app_of(s, p).served());
    lemma_index_unique(with_app(s, p, app_of(s, p).served()), p, i);
}

/// A driver that keeps its invariant has a well-formed grant: the laws on
/// grants apply to its view.
pub proof fn lemma_driver_grant_wf(d: &CtapUsbSyscallDriver)
    requires
        d.wf(),
    ensures
        grant_wf(d@),
{
}

/// A process that took an arriving packet no longer waits; a process that
/// did not wait for a packet is left as it was.
pub proof fn law_packet_served(e: AppEntry)
    ensures
        e.app.connected && e.app.receives_now() ==> !after_packet(e).app.waiting
            && after_packet(e).process == e.process,
        !(e.app.connected && e.app.receives_now()) ==> after_packet(e) == e,
{
}

proof fn lemma_none_connected(s: Seq<AppEntry>)
    requires
        !any_connected(s),
    ensures
        receiving_processes(s) == Seq::<u32>::empty(),
        !connected_can_receive(s),
    decreases s.len(),
{
    if s.len() > 0 {
        let t = s.drop_last();
        assert(!any_connected(t)) by {
            if any_connected(t) {
                let j = choose|j: int| 0 <= j < t.len() && t[j].app.connected;
                assert(s[j] == t[j]);
            }
        }
        assert(!s.last().app.connected) by {
            assert(s[s.len() - 1] == s.last());
        }
        lemma_none_connected(t);
    }
}

/// The driver asks "can a packet be received?" before handing one over: in a
/// well-formed grant, a packet for whoever waits is taken by exactly one
/// process when the connected process can receive, and by none otherwise.
pub proof fn law_receive_readiness(s: Seq<AppEntry>)
    requires
        at_most_one_connected(s),
    ensures
        receiving_processes(s).len() == (if connected_can_receive(s) {
            1int
        } else {
            0int
        }),
    decreases s.len(),
{
    if s.len() > 0 {
        let t = s.drop_last();
        assert(at_most_one_connected(t)) by {
            assert forall|i: int, j: int|
                0 <= i < t.len() && 0 <= j < t.len() && t[i].app.connected && t[j].app.connected implies i
                == j by {
                assert(s[i] == t[i] && s[j] == t[j]);
            }
        }
        if s.last().app.connected {
            assert(!any_connected(t)) by {
                if any_connected(t) {
                    let j = choose|j: int| 0 <= j < t.len() && t[j].app.connected;
                    assert(s[j] == t[j]);
                    assert(s[s.len() - 1] == s.last());
                }
            }
            lemma_none_connected(t);
        } else {
            law_receive_readiness(t);
        }
    }
}

/// A connected process may cancel whatever it waits for, on either side: the
/// transaction goes to the USB client to be cancelled on the endpoint given.
/// Only a process that waits for nothing is answered `ALREADY`.
pub proof fn law_cancel_any_waiting(s: Seq<AppEntry>, endpoint: usize, p: u32)
    requires
        grant_wf(s),
        has_process(s, p),
        app_of(s, p).connected,
    ensures
        app_of(s, p).waiting ==> command_spec(s, CTAP_CMD_CANCEL, endpoint, p, None).1
            == (CtapAction::Cancel { endpoint }),
        !app_of(s, p).waiting ==> command_spec(s, CTAP_CMD_CANCEL, endpoint, p, None).1
            == CtapAction::Reply(CommandReturn::Failure(ErrorCode::ALREADY)),
        command_spec(s, CTAP_CMD_CANCEL, endpoint, p, None).0 == s,
{
    lemma_entered(s, p);
}

/// Whether a record waits, connected, on a side that can transmit
/// (`Transmit` or `TransmitOrReceive`).
pub open spec fn awaits_transmission(a: App) -> bool {
    a.connected && a.waiting && (a.side == Some(Side::Transmit) || a.side == Some(
        Side::TransmitOrReceive,
    ))
}

/// Whether a record waits, connected, on a side that can receive
/// (`Receive` or `TransmitOrReceive`).
pub open spec fn awaits_packet(a: App) -> bool {
    a.connected && a.waiting && (a.side == Some(Side::Receive) || a.side == Some(
        Side::TransmitOrReceive,
    ))
}

/// A reported transmission serves every connected process that waits on a
/// side that can transmit, including transmit-or-receive: it stops waiting
/// and its side is forgotten. Every other record is left as it was.
pub proof fn law_transmission_served(e: AppEntry)
    ensures
        awaits_transmission(e.app) ==> !after_transmission(e).app.waiting
            && after_transmission(e).app.side is None && after_transmission(e).app.connected
            && after_transmission(e).process == e.process,
        !awaits_transmission(e.app) ==> after_transmission(e) == e,
{
}

/// An arriving packet serves every connected process that waits on a side
/// that can receive, including transmit-or-receive: it stops waiting and its
/// side is forgotten. Every other record is left as it was.
pub proof fn law_packet_taken(e: AppEntry)
    ensures
        awaits_packet(e.app) ==> !after_packet(e).app.waiting && after_packet(e).app.side is None
            && after_packet(e).app.connected && after_packet(e).process == e.process,
        !awaits_packet(e.app) ==> after_packet(e) == e,
{
}

/// The processes told of a transmission are exactly those whose records
/// await one.
pub proof fn law_transmission_told(s: Seq<AppEntry>, i: int, q: u32)
    requires
        0 <= i < s.len(),
    ensures
        awaits_transmission(s[i].app) ==> transmitted_processes(s).contains(s[i].process),
        transmitted_processes(s).contains(q) ==> exists|j: int|
            0 <= j < s.len() && s[j].process == q && awaits_transmission(s[j].app),
    decreases s.len(),
{
    let t = s.drop_last();
    let n = s.len() - 1;
    let rest = transmitted_processes(t);
    assert(s.last() == s[n]);
    if i < n {
        law_transmission_told(t, i, q);
        assert(t[i] == s[i]);
    }
    if n > 0 {
        law_transmission_told(t, 0, q);
    } else {
        assert(rest == Seq::<u32>::empty());
    }
    if awaits_transmission(s[i].app) {
        if i == n {
            assert(transmitted_processes(s) == rest.push(s[n].process));
            assert(transmitted_processes(s)[rest.len() as int] == s[n].process);
        } else if awaits_transmission(s[n].app) {
            let k = choose|k: int| 0 <= k < rest.len() && rest[k] == s[i].process;
            assert(transmitted_processes(s)[k] == s[i].process);
        }
    }
    if transmitted_processes(s).contains(q) {
        let k = choose|k: int|
            0 <= k < transmitted_processes(s).len() && transmitted_processes(s)[k] == q;
        if awaits_transmission(s[n].app) && k == rest.len() {
            assert(s[n].process == q);
        } else {
            assert(rest[k] == q);
            assert(rest.contains(q));
            let j = choose|j: int| 0 <= j < t.len() && t[j].process == q && awaits_transmission(
                t[j].app,
            );
            assert(s[j] == t[j]);
        }
    }
}

/// The processes that take an arriving packet are exactly those whose
/// records await one.
pub proof fn law_packet_told(s: Seq<AppEntry>, i: int, q: u32)
    requires
        0 <= i < s.len(),
    ensures
        awaits_packet(s[i].app) ==> receiving_processes(s).contains(s[i].process),
        receiving_processes(s).contains(q) ==> exists|j: int|
            0 <= j < s.len() && s[j].process == q && awaits_packet(s[j].app),
    decreases s.len(),
{
    let t = s.drop_last();
    let n = s.len() - 1;
    let rest = receiving_processes(t);
    assert(s.last() == s[n]);
    if i < n {
        law_packet_told(t, i, q);
        assert(t[i] == s[i]);
    }
    if n > 0 {
        law_packet_told(t, 0, q);
    } else {
        assert(rest == Seq::<u32>::empty());
    }
    if awaits_packet(s[i].app) {
        if i == n {
            assert(receiving_processes(s) == rest.push(s[n].process));
            assert(receiving_processes(s)[rest.len() as int] == s[n].process);
        } else if awaits_packet(s[n].app) {
            let k = choose|k: int| 0 <= k < rest.len() && rest[k] == s[i].process;
            assert(receiving_processes(s)[k] == s[i].process);
        }
    }
    if receiving_processes(s).contains(q) {
        let k = choose|k: int|
            0 <= k < receiving_processes(s).len() && receiving_processes(s)[k] == q;
        if awaits_packet(s[n].app) && k == rest.len() {
            assert(s[n].process == q);
        } else {
            assert(rest[k] == q);
            assert(rest.contains(q));
            let j = choose|j: int| 0 <= j < t.len() && t[j].process == q && awaits_packet(
                t[j].app,
            );
            assert(s[j] == t[j]);
        }
    }
}

/// The side that transmit, receive and transmit-or-receive ask for.
pub open spec fn requested_side(cmd: usize) -> Side {
    if cmd == 2 {
        Side::Transmit
    } else if cmd == 3 {
        Side::Receive
    } else {
        Side::TransmitOrReceive
    }
}

/// Transfer commands of a connected process: a process that already waits,
/// or whose chosen side differs from the one asked for, is refused
/// (`ALREADY`, `INVAL`) and its record kept. Otherwise the side asked for is
/// chosen; a transmit hands the packet on without waiting yet, while a
/// receive or a transmit-or-receive makes the process wait for a packet.
pub proof fn law_transfer_commands(s: Seq<AppEntry>, cmd: usize, endpoint: usize, p: u32)
    requires
        grant_wf(s),
        has_process(s, p),
        app_of(s, p).connected,
        2 <= cmd <= 4,
    ensures
        ({
            let a = app_of(s, p);
            let r = command_spec(s, cmd, endpoint, p, None);
            let side = requested_side(cmd);
            &&& (a.side is Some && a.side != Some(side)) ==> r.0 == s && r.1 == CtapAction::Reply(
                CommandReturn::Failure(ErrorCode::INVAL),
            )
            &&& (a.side == Some(side) || a.side is None) && a.waiting ==> r.1
                == CtapAction::Reply(CommandReturn::Failure(ErrorCode::ALREADY))
                && app_of(r.0, p).waiting && app_of(r.0, p).side == Some(side)
            &&& (a.side == Some(side) || a.side is None) && !a.waiting ==> has_process(r.0, p)
                && app_of(r.0, p).side == Some(side) && app_of(r.0, p).connected && (cmd == 2
                ==> r.1 == (CtapAction::Transmit { endpoint }) && !app_of(r.0, p).waiting) && (cmd
                == 3 ==> r.1 == CtapAction::Receive && app_of(r.0, p).waiting) && (cmd == 4 ==> r.1
                == (CtapAction::ReceiveThenTransmit { endpoint }) && app_of(r.0, p).waiting)
        }),
{
    lemma_entered(s, p);
    let a = app_of(s, p);
    let i = index_of_process(s, p);
    let side = requested_side(cmd);
    assert(side == side_of_command(cmd));
    let a2 = a.with_side(side).1;
    let a3 = App { connected: a2.connected, side: a2.side, waiting: true };
    lemma_with_app_wf(s, p, a2);
    lemma_with_app_wf(s, p, a3);
    lemma_index_unique(with_app(s, p, a2), p, i);
    lemma_index_unique(with_app(s, p, a3), p, i);
}

/// A record can take a packet when it waits on the receive or the
/// transmit-or-receive side, and be told of a transmission when it waits on
/// the transmit or the transmit-or-receive side. A side is chosen once: the
/// first choice sticks, and a later one agrees only if it is the same.
pub proof fn law_record_rules(a: App, side: Side)
    ensures
        a.receives_now() == (a.waiting && (a.side == Some(Side::Receive) || a.side == Some(
            Side::TransmitOrReceive,
        ))),
        a.transmits_now() == (a.waiting && (a.side == Some(Side::Transmit) || a.side == Some(
            Side::TransmitOrReceive,
        ))),
        a.side is None ==> a.with_side(side).0 && a.with_side(side).1.side == Some(side)
            && a.with_side(side).1.waiting == a.waiting && a.with_side(side).1.connected
            == a.connected,
        a.side is Some ==> a.with_side(side).0 == (a.side == Some(side)) && a.with_side(side).1
            == a,
        !a.waiting ==> a.side_checked().side is None,
        a.waiting ==> a.side_checked() == a,
{
}

} // verus!
