//! The server's dispatch step and the message-id correlation machinery.
//! The event loop itself is a single-writer task outside this crate: it
//! feeds decoded client messages through `handle_client_message`, performs
//! the returned actions, and sends the reply envelope back. Replies are
//! correlated by message id, never by arrival order.

use vstd::prelude::*;
use crate::device::ButtplugDeviceEvent;
use crate::device_manager::{contains_index, device_vibrate_valid, position_of, DeviceManager};
use crate::errors::ButtplugError;
use crate::messages::{
    ButtplugClientMessage, ButtplugDeviceMessageType, ButtplugServerMessage, Error, OkMsg,
    spec_feature_count,
};
use crate::protocol::HandlerAction;
use crate::util::push_dec;
use vstd::string::StringExecFns;

verus! {

/// Whether the id is among the pending ones.
pub open spec fn contains_id(s: Seq<u32>, id: u32) -> bool {
    exists|i: int| 0 <= i < s.len() && s[i] == id
}

/// The table of message ids awaiting their reply, each standing for one
/// one-shot completer. Id 0 marks unsolicited notifications and never
/// appears as a key.
pub struct PendingRequestTable {
    pending: Vec<u32>,
}

impl PendingRequestTable {
    pub closed spec fn pending_ids(&self) -> Seq<u32> {
        self.pending@
    }

    /// No zero key, no duplicate keys.
    pub open spec fn wf(&self) -> bool {
        &&& forall|i: int| 0 <= i < self.pending_ids().len() ==> self.pending_ids()[i] != 0
        &&& forall|i: int, j: int|
            0 <= i < j < self.pending_ids().len() ==> self.pending_ids()[i]
                != self.pending_ids()[j]
    }

    pub fn new() -> (r: Self)
        ensures
            r.pending_ids() =~= Seq::<u32>::empty(),
            r.wf(),
    {
        PendingRequestTable { pending: Vec::new() }
    }

    /// Notes that a request under `id` awaits its reply.
    pub fn register(&mut self, id: u32)
        requires
            old(self).wf(),
            id != 0,
            !contains_id(old(self).pending_ids(), id),
        ensures
            final(self).wf(),
            final(self).pending_ids() =~= old(self).pending_ids().push(id),
            contains_id(final(self).pending_ids(), id),
    {
        self.pending.push(id);
        proof {
            assert(self.pending@[self.pending@.len() - 1] == id);
        }
    }

    /// Resolves the completer for a reply envelope: true exactly when a
    /// request under this id was pending, which it then no longer is. A
    /// notification id (0) or an unknown id resolves nothing, so a second
    /// reply under an already-answered id finds no completer.
    #[verifier::loop_isolation(false)]
    pub fn take(&mut self, id: u32) -> (r: bool)
        requires
            old(self).wf(),
        ensures
            final(self).wf(),
            r == (id != 0 && contains_id(old(self).pending_ids(), id)),
            !r ==> final(self).pending_ids() =~= old(self).pending_ids(),
            r ==> final(self).pending_ids().len() == old(self).pending_ids().len() - 1
                && !contains_id(final(self).pending_ids(), id),
            r ==> forall|a: int|
                0 <= a < final(self).pending_ids().len() ==> contains_id(
                    old(self).pending_ids(),
                    #[trigger] final(self).pending_ids()[a],
                ),
    {
        if id == 0 {
            return false;
        }
        let ghost pre = self.pending@;
        proof {
            assert forall|a: int, b: int| 0 <= a < b < pre.len() implies pre[a] != pre[b] by {
                assert(old(self).pending_ids()[a] != old(self).pending_ids()[b]);
            }
        }
        let mut i: usize = 0;
        while i < self.pending.len()
            invariant
                i <= self.pending@.len(),
                forall|j: int| 0 <= j < i ==> self.pending@[j] != id,
                *self == *old(self),
            decreases self.pending@.len() - i,
        {
            if self.pending[i] == id {
                self.pending.remove(i);
                proof {
                    assert forall|a: int|
                        0 <= a < self.pending@.len() implies #[trigger] self.pending@[a] == (if a
                            < i as int {
                            pre[a]
                        } else {
                            pre[a + 1]
                        }) by {}
                    assert forall|j: int|
                        0 <= j < self.pending@.len() implies self.pending@[j] != id by {
                        if j < i as int {
                            assert(self.pending@[j] == pre[j]);
                        } else {
                            assert(self.pending@[j] == pre[j + 1]);
                            assert(pre[i as int] == id);
                            assert(pre[i as int] != pre[j + 1]);
                        }
                    }
                    assert forall|a: int, b: int|
                        0 <= a < b < self.pending@.len() implies self.pending@[a]
                        != self.pending@[b] by {
                        let a0 = if a < i as int { a } else { a + 1 };
                        let b0 = if b < i as int { b } else { b + 1 };
                        assert(self.pending@[a] == pre[a0]);
                        assert(self.pending@[b] == pre[b0]);
                        assert(pre[a0] != pre[b0]);
                    }
                    assert forall|j: int|
                        0 <= j < self.pending@.len() implies self.pending@[j] != 0 by {
                        if j < i as int {
                            assert(self.pending@[j] == pre[j]);
                            assert(old(self).pending_ids()[j] != 0);
                        } else {
                            assert(self.pending@[j] == pre[j + 1]);
                            assert(old(self).pending_ids()[j + 1] != 0);
                        }
                    }
                    assert forall|a: int|
                        0 <= a < self.pending@.len() implies contains_id(
                        pre,
                        #[trigger] self.pending@[a],
                    ) by {
                        if a < i as int {
                            assert(self.pending@[a] == pre[a]);
                        } else {
                            assert(self.pending@[a] == pre[a + 1]);
                        }
                    }
                }
                return true;
            }
            i = i + 1;
        }
        false
    }
}

/// Law: under the table's invariant an id occupies at most one pending
/// slot, so at most one completer can ever answer a request. Together
/// with `take`, which empties the slot it resolves, a request under
/// `Id = k > 0` is answered by exactly one reply envelope carrying `k`.
pub proof fn lemma_pending_id_unique(table: PendingRequestTable, id: u32, i: int, j: int)
    requires
        table.wf(),
        0 <= i < table.pending_ids().len(),
        0 <= j < table.pending_ids().len(),
        table.pending_ids()[i] == id,
        table.pending_ids()[j] == id,
    ensures
        i == j,
{
}

/// The client-side half of correlation: stamps each outgoing request with
/// a fresh non-zero id and registers it, so the reply that repeats the id
/// finds exactly one waiting completer.
pub struct ClientMessageSorter {
    current_id: u32,
    table: PendingRequestTable,
}

impl ClientMessageSorter {
    pub closed spec fn spec_current_id(&self) -> u32 {
        self.current_id
    }

    pub closed spec fn pending_ids(&self) -> Seq<u32> {
        self.table.pending_ids()
    }

    /// Ids are handed out in increasing order starting at 1, so every
    /// pending id is non-zero and below the counter.
    pub open spec fn wf(&self) -> bool {
        &&& self.spec_current_id() >= 1
        &&& forall|i: int|
            0 <= i < self.pending_ids().len() ==> 0 < #[trigger] self.pending_ids()[i]
                < self.spec_current_id()
        &&& forall|i: int, j: int|
            0 <= i < j < self.pending_ids().len() ==> self.pending_ids()[i]
                != self.pending_ids()[j]
    }

    pub fn new() -> (r: Self)
        ensures
            r.wf(),
            r.spec_current_id() == 1,
            r.pending_ids() =~= Seq::<u32>::empty(),
    {
        ClientMessageSorter { current_id: 1, table: PendingRequestTable::new() }
    }

    /// Stamps the message with the next fresh id and registers it. The
    /// stamped id is never 0: 0 stays reserved for notifications.
    pub fn register_request(&mut self, msg: &mut ButtplugClientMessage)
        requires
            old(self).wf(),
            old(self).spec_current_id() < u32::MAX,
        ensures
            final(self).wf(),
            *final(msg) == old(msg).spec_with_id(old(self).spec_current_id()),
            final(msg).spec_id() == old(self).spec_current_id(),
            final(msg).spec_id() != 0,
            final(self).spec_current_id() == old(self).spec_current_id() + 1,
            final(self).pending_ids() =~= old(self).pending_ids().push(
                old(self).spec_current_id(),
            ),
    {
        let id = self.current_id;
        msg.set_id(id);
        proof {
            assert forall|k: int|
                0 <= k < self.table.pending_ids().len() implies self.table.pending_ids()[k] != id
                    && self.table.pending_ids()[k] != 0 by {
                assert(0 < self.pending_ids()[k] < self.current_id);
            }
            assert forall|a: int, b: int|
                0 <= a < b < self.table.pending_ids().len() implies self.table.pending_ids()[a]
                    != self.table.pending_ids()[b] by {
                assert(self.pending_ids()[a] != self.pending_ids()[b]);
            }
            assert(self.table.wf());
            assert(!contains_id(self.table.pending_ids(), id));
        }
        self.table.register(id);
        self.current_id = id + 1;
        proof {
            let ghost pre = old(self).pending_ids();
            assert(self.pending_ids() =~= pre.push(id));
            assert forall|k: int|
                0 <= k < self.pending_ids().len() implies 0 < #[trigger] self.pending_ids()[k]
                    < self.current_id by {
                if k < pre.len() {
                    assert(self.pending_ids()[k] == pre[k]);
                    assert(0 < old(self).pending_ids()[k] < id);
                } else {
                    assert(self.pending_ids()[k] == id);
                }
            }
            assert forall|a: int, b: int|
                0 <= a < b < self.pending_ids().len() implies self.pending_ids()[a]
                    != self.pending_ids()[b] by {
                if b < pre.len() {
                    assert(old(self).pending_ids()[a] != old(self).pending_ids()[b]);
                } else {
                    assert(self.pending_ids()[a] == pre[a]);
                    assert(0 < old(self).pending_ids()[a] < id);
                    assert(self.pending_ids()[b] == id);
                }
            }
        }
    }

    /// Resolves the reply envelope against the registered requests.
    pub fn resolve_reply(&mut self, reply: &ButtplugServerMessage) -> (r: bool)
        requires
            old(self).wf(),
        ensures
            final(self).wf(),
            final(self).spec_current_id() == old(self).spec_current_id(),
            r == (reply.spec_id() != 0 && contains_id(old(self).pending_ids(), reply.spec_id())),
            !r ==> final(self).pending_ids() =~= old(self).pending_ids(),
            r ==> final(self).pending_ids().len() == old(self).pending_ids().len() - 1
                && !contains_id(final(self).pending_ids(), reply.spec_id()),
    {
        proof {
            assert forall|k: int|
                0 <= k < self.table.pending_ids().len() implies self.table.pending_ids()[k]
                    != 0 by {
                assert(0 < self.pending_ids()[k] < self.current_id);
            }
            assert forall|a: int, b: int|
                0 <= a < b < self.table.pending_ids().len() implies self.table.pending_ids()[a]
                    != self.table.pending_ids()[b] by {
                assert(self.pending_ids()[a] != self.pending_ids()[b]);
            }
            assert(self.table.wf());
        }
        let ghost pre = self.table.pending_ids();
        let id = reply.id();
        let resolved = self.table.take(id);
        proof {
            if resolved {
                assert forall|k: int|
                    0 <= k < self.pending_ids().len() implies 0 < #[trigger] self.pending_ids()[k]
                        < self.current_id by {
                    assert(contains_id(pre, self.table.pending_ids()[k]));
                    let w = choose|w: int|
                        0 <= w < pre.len() && pre[w] == self.table.pending_ids()[k];
                    assert(old(self).pending_ids()[w] == pre[w]);
                    assert(0 < old(self).pending_ids()[w] < old(self).spec_current_id());
                }
                assert forall|a: int, b: int|
                    0 <= a < b < self.pending_ids().len() implies self.pending_ids()[a]
                        != self.pending_ids()[b] by {
                    assert(self.table.pending_ids()[a] != self.table.pending_ids()[b]);
                }
            }
        }
        resolved
    }
}

/// What one dispatched client message asks of the runtime around the
/// server loop, beyond sending the reply envelope back.
pub enum ServerAction {
    /// Nothing: the reply is the whole effect.
    ReplyOnly,
    /// Tell every communication manager to start scanning.
    StartScanning,
    /// Tell every communication manager to stop scanning.
    StopScanning,
    /// Drive the device under the index with the handler action.
    Device(u32, HandlerAction),
    /// Drive every listed device with its stop action.
    StopAll(Vec<(u32, HandlerAction)>),
}

/// Whether performing the action writes nothing to any transport.
pub open spec fn server_action_silent(action: ServerAction) -> bool {
    match action {
        ServerAction::ReplyOnly => true,
        ServerAction::StartScanning => true,
        ServerAction::StopScanning => true,
        ServerAction::Device(_, device_action) => device_action matches HandlerAction::Writes(w)
            && w@.len() == 0,
        ServerAction::StopAll(actions) => forall|i: int|
            0 <= i < actions@.len() ==> ((#[trigger] actions@[i]).1 matches
                HandlerAction::Writes(w) && w@.len() == 0),
    }
}

/// The server's dispatch state: the single-owner device registry. The
/// event loop owns this exclusively, so registry changes need no lock and
/// are published within the same tick that makes them.
pub struct ButtplugServer {
    pub device_manager: DeviceManager,
}

impl ButtplugServer {
    pub fn new() -> (r: Self)
        ensures
            r.device_manager.registry() =~= Seq::<crate::device_manager::DeviceRecord>::empty(),
            r.device_manager.wf(),
    {
        ButtplugServer { device_manager: DeviceManager::new() }
    }

    /// Dispatches one decoded client message. The reply always repeats
    /// the request's id; a command for an unregistered index answers
    /// `DeviceNotFound` and leaves the registry as it was.
    pub fn handle_client_message(&mut self, msg: &ButtplugClientMessage) -> (r: (
        ButtplugServerMessage,
        ServerAction,
    ))
        requires
            old(self).device_manager.wf(),
        ensures
            final(self).device_manager.wf(),
            r.0.spec_id() == msg.spec_id(),
            ({
                let index = match *msg {
                    ButtplugClientMessage::VibrateCmd(ref m) => Some(m.device_index),
                    ButtplugClientMessage::LinearCmd(ref m) => Some(m.device_index),
                    ButtplugClientMessage::RotateCmd(ref m) => Some(m.device_index),
                    ButtplugClientMessage::StopDeviceCmd(m) => Some(m.device_index),
                    _ => None,
                };
                index matches Some(i) && !contains_index(old(self).device_manager.registry(), i)
                    ==> final(self).device_manager.registry() =~= old(
                    self,
                ).device_manager.registry() && (r.0 matches ButtplugServerMessage::Error(e)
                    && e.error_code == 4) && server_action_silent(r.1)
            }),
            msg matches ButtplugClientMessage::RequestDeviceList { .. }
                ==> final(self).device_manager.registry() =~= old(self).device_manager.registry(),
            *msg matches ButtplugClientMessage::StartScanning { id } ==> r == (
                ButtplugServerMessage::OkMsg(OkMsg { id }),
                ServerAction::StartScanning,
            ),
            *msg matches ButtplugClientMessage::StopScanning { id } ==> r == (
                ButtplugServerMessage::OkMsg(OkMsg { id }),
                ServerAction::StopScanning,
            ),
            *msg matches ButtplugClientMessage::Ping { id } ==> r == (
                ButtplugServerMessage::OkMsg(OkMsg { id }),
                ServerAction::ReplyOnly,
            ),
            *msg matches ButtplugClientMessage::StopAllDevices { id } ==> (r.0
                == ButtplugServerMessage::OkMsg(OkMsg { id }) && (r.1 matches
            ServerAction::StopAll(actions) && actions@.len() == old(
                self,
            ).device_manager.registry().len())),
            *msg matches ButtplugClientMessage::VibrateCmd(m) ==> (r.1 matches ServerAction::Device(
                routed,
                _,
            ) && routed == m.device_index),
            ({
                let registry = old(self).device_manager.registry();
                *msg matches ButtplugClientMessage::VibrateCmd(m) && contains_index(
                    registry,
                    m.device_index,
                ) && !device_vibrate_valid(
                    m.speeds@,
                    crate::messages::spec_feature_count(
                        registry[position_of(registry, m.device_index)].attributes@,
                        crate::messages::ButtplugDeviceMessageType::VibrateCmd,
                    ),
                ) ==> ({
                    &&& final(self).device_manager.registry() =~= registry
                    &&& r.0 matches ButtplugServerMessage::Error(e) && e.error_code == 4
                    &&& r.1 matches ServerAction::Device(_, a) && a matches HandlerAction::Writes(
                        w,
                    ) && w@.len() == 0
                })
            }),
            *msg matches ButtplugClientMessage::StopDeviceCmd(m) ==> (r.1 matches
            ServerAction::Device(routed, _) && routed == m.device_index),
    {
        match msg {
            ButtplugClientMessage::RequestDeviceList { id } => {
                (self.device_manager.device_list(*id), ServerAction::ReplyOnly)
            },
            ButtplugClientMessage::StartScanning { id } => {
                (ButtplugServerMessage::OkMsg(OkMsg::new(*id)), ServerAction::StartScanning)
            },
            ButtplugClientMessage::StopScanning { id } => {
                (ButtplugServerMessage::OkMsg(OkMsg::new(*id)), ServerAction::StopScanning)
            },
            ButtplugClientMessage::VibrateCmd(m) => {
                let (reply, action) = self.device_manager.handle_vibrate_cmd(m);
                (reply, ServerAction::Device(m.device_index, action))
            },
            ButtplugClientMessage::LinearCmd(m) => {
                let reply = self.unsupported_or_missing(m.id, m.device_index);
                (reply, ServerAction::ReplyOnly)
            },
            ButtplugClientMessage::RotateCmd(m) => {
                let reply = self.unsupported_or_missing(m.id, m.device_index);
                (reply, ServerAction::ReplyOnly)
            },
            ButtplugClientMessage::StopDeviceCmd(m) => {
                let (reply, action) = self.device_manager.handle_stop_device_cmd(m);
                (reply, ServerAction::Device(m.device_index, action))
            },
            ButtplugClientMessage::StopAllDevices { id } => {
                let actions = self.device_manager.stop_all_devices();
                (ButtplugServerMessage::OkMsg(OkMsg::new(*id)), ServerAction::StopAll(actions))
            },
            ButtplugClientMessage::Ping { id } => {
                (ButtplugServerMessage::OkMsg(OkMsg::new(*id)), ServerAction::ReplyOnly)
            },
        }
    }

    /// The negotiated ping interval elapsed without a ping: the client
    /// counts as gone, so every device is driven back to rest.
    pub fn handle_ping_timeout(&mut self) -> (r: Vec<(u32, HandlerAction)>)
        requires
            old(self).device_manager.wf(),
        ensures
            final(self).device_manager.wf(),
            final(self).device_manager.spec_next_index() == old(
                self,
            ).device_manager.spec_next_index(),
            final(self).device_manager.registry().len() == old(
                self,
            ).device_manager.registry().len(),
            r@.len() == old(self).device_manager.registry().len(),
            forall|j: int|
                0 <= j < r@.len() ==> ({
                    let fc = spec_feature_count(
                        old(self).device_manager.registry()[j].attributes@,
                        ButtplugDeviceMessageType::VibrateCmd,
                    );
                    &&& (#[trigger] r@[j]).0 == old(self).device_manager.registry()[j].index
                    &&& fc > 0 ==> crate::protocol::vibrate_dispatch_post(
                        old(self).device_manager.registry()[j].handler,
                        final(self).device_manager.registry()[j].handler,
                        crate::command_manager::zero_speed_subcommands(fc as nat),
                        r@[j].1,
                    )
                    &&& fc == 0 ==> final(self).device_manager.registry()[j] == old(
                        self,
                    ).device_manager.registry()[j] && (r@[j].1 matches HandlerAction::Writes(w)
                        && w@.len() == 0)
                }),
    {
        self.device_manager.stop_all_devices()
    }

    /// The client connection closed: same quiescence guarantee as a ping
    /// timeout. Pending completers are the sorter's to discard.
    pub fn handle_client_disconnect(&mut self) -> (r: Vec<(u32, HandlerAction)>)
        requires
            old(self).device_manager.wf(),
        ensures
            final(self).device_manager.wf(),
            final(self).device_manager.spec_next_index() == old(
                self,
            ).device_manager.spec_next_index(),
            final(self).device_manager.registry().len() == old(
                self,
            ).device_manager.registry().len(),
            r@.len() == old(self).device_manager.registry().len(),
            forall|j: int|
                0 <= j < r@.len() ==> ({
                    let fc = spec_feature_count(
                        old(self).device_manager.registry()[j].attributes@,
                        ButtplugDeviceMessageType::VibrateCmd,
                    );
                    &&& (#[trigger] r@[j]).0 == old(self).device_manager.registry()[j].index
                    &&& fc > 0 ==> crate::protocol::vibrate_dispatch_post(
                        old(self).device_manager.registry()[j].handler,
                        final(self).device_manager.registry()[j].handler,
                        crate::command_manager::zero_speed_subcommands(fc as nat),
                        r@[j].1,
                    )
                    &&& fc == 0 ==> final(self).device_manager.registry()[j] == old(
                        self,
                    ).device_manager.registry()[j] && (r@[j].1 matches HandlerAction::Writes(w)
                        && w@.len() == 0)
                }),
    {
        self.device_manager.stop_all_devices()
    }

    /// A transport reported its device gone: the row leaves the registry
    /// and a `DeviceRemoved` notification (id 0) goes out to every client.
    pub fn handle_device_disconnected(&mut self, index: u32) -> (r: Option<ButtplugServerMessage>)
        requires
            old(self).device_manager.wf(),
        ensures
            final(self).device_manager.wf(),
            contains_index(old(self).device_manager.registry(), index) ==> r == Some(
                ButtplugServerMessage::DeviceRemoved { id: 0u32, device_index: index },
            ) && !contains_index(final(self).device_manager.registry(), index),
            !contains_index(old(self).device_manager.registry(), index) ==> r is None
                && final(self).device_manager.registry() =~= old(self).device_manager.registry(),
    {
        self.device_manager.remove_device(index)
    }

    /// Consumes one event a device's transport reported. A notification
    /// concerns only subscribers; a disconnect is authoritative: the
    /// registry drops the index and a `DeviceRemoved` notification (id 0)
    /// goes out.
    pub fn handle_device_event(&mut self, index: u32, event: &ButtplugDeviceEvent) -> (r: Option<
        ButtplugServerMessage,
    >)
        requires
            old(self).device_manager.wf(),
        ensures
            final(self).device_manager.wf(),
            event matches ButtplugDeviceEvent::Notification { .. } ==> r is None
                && final(self).device_manager.registry() =~= old(self).device_manager.registry(),
            event is Disconnected && contains_index(old(self).device_manager.registry(), index)
                ==> r == Some(ButtplugServerMessage::DeviceRemoved { id: 0u32, device_index: index })
                && !contains_index(final(self).device_manager.registry(), index),
            event is Disconnected && !contains_index(old(self).device_manager.registry(), index)
                ==> r is None && final(self).device_manager.registry() =~= old(self).device_manager.registry(),
    {
        match event {
            ButtplugDeviceEvent::Notification { .. } => None,
            ButtplugDeviceEvent::Disconnected => self.handle_device_disconnected(index),
        }
    }

    /// The reply for a linear or rotate command these device families do
    /// not implement: `DeviceNotFound` if the index is unknown, otherwise
    /// `UnsupportedCommand`.
    fn unsupported_or_missing(&self, id: u32, index: u32) -> (r: ButtplugServerMessage)
        ensures
            r.spec_id() == id,
            r matches ButtplugServerMessage::Error(e) && e.error_code == 4,
    {
        if self.device_manager.contains_device(index) {
            let error = ButtplugError::ButtplugDeviceError(
                crate::errors::ButtplugDeviceError::UnsupportedCommand,
            );
            ButtplugServerMessage::Error(
                Error::from_error(id, &error, "Device does not handle this message type.".to_owned()),
            )
        } else {
            let mut account = String::new();
            account.append("Device ");
            push_dec(&mut account, index as u64);
            account.append(" not available.");
            let error = ButtplugError::ButtplugDeviceError(
                crate::errors::ButtplugDeviceError::DeviceNotFound(index),
            );
            ButtplugServerMessage::Error(Error::from_error(id, &error, account))
        }
    }
}

/// Folds the transport's verdict on the performed writes into the reply
/// that was prepared for the request: a clean outcome keeps the reply,
/// and an I/O failure becomes the command's device-communication error
/// under the same id, as the error policy orders.
pub fn reply_after_write(reply: ButtplugServerMessage, write_failure: Option<&str>) -> (r:
    ButtplugServerMessage)
    ensures
        write_failure is None ==> r == reply,
        write_failure matches Some(account) ==> (r matches ButtplugServerMessage::Error(e) && e.id
            == reply.spec_id() && e.error_code == 4 && e.error_message@ == account@),
{
    match write_failure {
        None => reply,
        Some(account) => {
            let id = reply.id();
            let error = ButtplugError::ButtplugDeviceError(
                crate::errors::ButtplugDeviceError::DeviceCommunicationError(account.to_owned()),
            );
            ButtplugServerMessage::Error(Error::from_error(id, &error, account.to_owned()))
        },
    }
}

} // verus!
