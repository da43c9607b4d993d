//! The connect sequence for one heart-rate peripheral: find it, connect with
//! unbounded retries, resolve its characteristics, read the battery level once
//! and subscribe to heart-rate notifications. It is a state machine: the
//! caller performs each action it asks for and reports the outcome as an event.
use vstd::prelude::*;
use crate::peripheral::{
    PeripheralInfo,
    label_of,
    is_first_with_address,
    chosen_index,
    scan_again_label,
    display_label,
    find_by_address,
    selection_labels,
    interpret_selection,
};

verus! {

/// The GATT "Battery Level" characteristic, 0x2A19 on the Bluetooth base UUID.
pub const BATTERY_LEVEL_CHARACTERISTIC: u128 = 0x00002a19_0000_1000_8000_00805f9b34fb;

/// The GATT "Heart Rate Measurement" characteristic, 0x2A37 on the Bluetooth base UUID.
pub const HEART_RATE_MEASUREMENT_CHARACTERISTIC: u128 = 0x00002a37_0000_1000_8000_00805f9b34fb;

/// The peripheral a session is bound to: its address and its display name.
pub struct ConnectedSession {
    pub address: u64,
    pub name: String,
}

impl ConnectedSession {
    /// A copy of this session.
    pub fn duplicate(&self) -> (r: ConnectedSession)
        ensures
            r.address == self.address,
            r.name@ == self.name@,
    {
        ConnectedSession { address: self.address, name: self.name.clone() }
    }
}

/// A session describes a peripheral when it has the peripheral's address and
/// its display label as name.
pub open spec fn describes(s: ConnectedSession, p: PeripheralInfo) -> bool {
    s.address == p.address && s.name@ == label_of(p)
}

/// Why a connected peripheral cannot serve: it lacks a required characteristic.
#[derive(Clone, Copy, Debug, PartialEq, Eq, Structural)]
pub enum ConnectError {
    MissingBatteryLevel,
    MissingHeartRate,
}

/// Where the connect sequence stands.
#[derive(Clone, Copy, Debug, PartialEq, Eq, Structural)]
pub enum Phase {
    Scanning,
    Choosing,
    Connecting,
    Discovering,
    ReadingBattery,
    Subscribing,
    Ready,
    Failed(ConnectError),
}

/// The outcome of an action, reported back to the connector.
pub enum ConnectEvent {
    /// A scan ended with these peripherals visible.
    Scanned(Vec<PeripheralInfo>),
    /// The operator picked this entry of the menu.
    Chose(usize),
    /// A connect attempt succeeded (`true`) or failed.
    ConnectAttempted(bool),
    /// Service discovery found characteristics with these identifiers, in this order.
    ServicesDiscovered(Vec<u128>),
    /// The battery level characteristic was read.
    BatteryRead(Vec<u8>),
    /// Heart-rate notifications are subscribed.
    Subscribed,
}

/// What the caller is asked to do next.
pub enum ConnectAction {
    /// Scan for about a second and report what is visible.
    Scan,
    /// Show this menu and report the entry picked.
    Prompt(Vec<String>),
    /// Try to connect to the chosen peripheral.
    Connect,
    /// Discover the peripheral's services and report its characteristics.
    DiscoverServices,
    /// Read the characteristic at this position of the discovered list.
    ReadBatteryLevel(usize),
    /// Subscribe to the characteristic at this position of the discovered list.
    Subscribe(usize),
    /// The session is ready.
    Finished(ConnectedSession),
    /// The peripheral cannot serve.
    Failed(ConnectError),
}

/// Recognises the first position of `id` in `ids`.
pub open spec fn is_first_position(ids: Seq<u128>, id: u128, i: int) -> bool {
    &&& 0 <= i < ids.len()
    &&& ids[i] == id
    &&& forall|j: int| 0 <= j < i ==> ids[j] != id
}

/// Finds the first position of `id` in `ids`.
pub fn position_of(ids: &Vec<u128>, id: u128) -> (r: Option<usize>)
    ensures
        r matches Some(i) ==> is_first_position(ids@, id, i as int),
        r is None <==> !ids@.contains(id),
{
    let mut i: usize = 0;
    while i < ids.len()
        invariant
            i <= ids@.len(),
            forall|j: int| 0 <= j < i ==> ids@[j] != id,
        decreases ids@.len() - i,
    {
        if ids[i] == id {
            return Some(i);
        }
        i = i + 1;
    }
    None
}

/// The battery level in a value read from its characteristic: the first byte.
pub open spec fn battery_level_of(value: Seq<u8>) -> Option<u8> {
    if value.len() >= 1 {
        Some(value[0])
    } else {
        None
    }
}

/// A menu for `list`: "[Scan again]", then the label of each peripheral.
pub open spec fn is_menu(labels: Seq<String>, list: Seq<PeripheralInfo>) -> bool {
    &&& labels.len() == list.len() + 1
    &&& labels[0]@ == scan_again_label()
    &&& forall|i: int| 0 <= i < list.len() ==> #[trigger] labels[i + 1]@ == label_of(list[i])
}

/// The connect sequence's state.
pub struct Connector {
    /// The address asked for, or none when the operator chooses.
    pub target: Option<u64>,
    pub phase: Phase,
    /// What the last scan showed, while the operator chooses.
    pub candidates: Vec<PeripheralInfo>,
    /// The peripheral chosen, once there is one.
    pub peripheral: Option<ConnectedSession>,
    pub battery_level_index: usize,
    pub heart_rate_index: usize,
    /// The battery level read, if the read gave a value.
    pub battery_level: Option<u8>,
}

/// The phases in which a peripheral has been chosen.
pub open spec fn has_chosen(phase: Phase) -> bool {
    match phase {
        Phase::Connecting | Phase::Discovering | Phase::ReadingBattery | Phase::Subscribing
        | Phase::Ready => true,
        _ => false,
    }
}

/// The action that a connector in its present state asks for.
pub open spec fn is_pending(c: Connector, a: ConnectAction) -> bool {
    match c.phase {
        Phase::Scanning => a is Scan,
        Phase::Choosing => a is Prompt && is_menu(a->Prompt_0@, c.candidates@),
        Phase::Connecting => a is Connect,
        Phase::Discovering => a is DiscoverServices,
        Phase::ReadingBattery => a == ConnectAction::ReadBatteryLevel(c.battery_level_index),
        Phase::Subscribing => a == ConnectAction::Subscribe(c.heart_rate_index),
        Phase::Ready => a is Finished && a->Finished_0.address == c.peripheral->Some_0.address
            && a->Finished_0.name@ == c.peripheral->Some_0.name@,
        Phase::Failed(e) => a == ConnectAction::Failed(e),
    }
}

/// Whether the event is the one that the connector's phase waits for.
pub open spec fn is_expected(phase: Phase, e: ConnectEvent) -> bool {
    match phase {
        Phase::Scanning => e is Scanned,
        Phase::Choosing => e is Chose,
        Phase::Connecting => e is ConnectAttempted,
        Phase::Discovering => e is ServicesDiscovered,
        Phase::ReadingBattery => e is BatteryRead,
        Phase::Subscribing => e is Subscribed,
        _ => false,
    }
}

/// A connector started for a known address finishes only with a session to
/// that address: reconnecting to a session's address keeps the address.
pub proof fn lemma_finished_session_keeps_target(c: Connector, a: ConnectAction)
    requires
        c.wf(),
        c.target is Some,
        is_pending(c, a),
        a is Finished,
    ensures
        a->Finished_0.address == c.target->Some_0,
{
}

impl Connector {
    pub open spec fn wf(&self) -> bool {
        &&& self.phase is Choosing ==> self.target is None && self.candidates@.len() > 0
        &&& has_chosen(self.phase) ==> self.peripheral is Some
        &&& self.target matches Some(a) ==> (self.peripheral matches Some(s) ==> s.address == a)
    }

    /// A connector that looks for the peripheral with address `target`, or lets
    /// the operator choose when there is none.
    pub fn new(target: Option<u64>) -> (r: Connector)
        ensures
            r.wf(),
            r.target == target,
            r.phase is Scanning,
            r.peripheral is None,
    {
        Connector {
            target,
            phase: Phase::Scanning,
            candidates: Vec::new(),
            peripheral: None,
            battery_level_index: 0,
            heart_rate_index: 0,
            battery_level: None,
        }
    }

    /// The action that the present state asks for.
    pub fn pending_action(&self) -> (r: ConnectAction)
        requires
            self.wf(),
        ensures
            is_pending(*self, r),
    {
        match self.phase {
            Phase::Scanning => ConnectAction::Scan,
            Phase::Choosing => ConnectAction::Prompt(selection_labels(&self.candidates)),
            Phase::Connecting => ConnectAction::Connect,
            Phase::Discovering => ConnectAction::DiscoverServices,
            Phase::ReadingBattery => ConnectAction::ReadBatteryLevel(self.battery_level_index),
            Phase::Subscribing => ConnectAction::Subscribe(self.heart_rate_index),
            Phase::Ready => {
                let s = self.peripheral.as_ref().unwrap();
                ConnectAction::Finished(s.duplicate())
            },
            Phase::Failed(e) => ConnectAction::Failed(e),
        }
    }
    /// Takes the outcome of the last action and returns the next action.
    /// An event that the phase does not wait for changes nothing, and the
    /// pending action is asked for again.
    pub fn step(&mut self, e: ConnectEvent) -> (r: ConnectAction)
        requires
            old(self).wf(),
        ensures
            final(self).wf(),
            final(self).target == old(self).target,
            is_pending(*final(self), r),
            !is_expected(old(self).phase, e) ==> *final(self) == *old(self),
            // a scan for a known address: connect to the first match, else scan again
            old(self).phase is Scanning && e is Scanned && old(self).target is Some ==> {
                let list = e->Scanned_0@;
                let a = old(self).target->Some_0;
                if exists|i: int| is_first_with_address(list, a, i) {
                    final(self).phase is Connecting && exists|i: int|
                        is_first_with_address(list, a, i) && describes(
                            final(self).peripheral->Some_0,
                            list[i],
                        )
                } else {
                    final(self).phase is Scanning
                }
            },
            // an interactive scan: rescan when nothing is visible, else offer a menu
            old(self).phase is Scanning && e is Scanned && old(self).target is None ==> {
                let list = e->Scanned_0@;
                if list.len() == 0 {
                    final(self).phase is Scanning
                } else {
                    final(self).phase is Choosing && final(self).candidates@ == list
                }
            },
            old(self).phase is Choosing && e is Chose ==> {
                match chosen_index(old(self).candidates@.len(), e->Chose_0 as nat) {
                    None => final(self).phase is Scanning,
                    Some(i) => final(self).phase is Connecting && describes(
                        final(self).peripheral->Some_0,
                        old(self).candidates@[i as int],
                    ),
                }
            },
            // a failed connect is retried, without limit
            old(self).phase is Connecting && e is ConnectAttempted ==> {
                &&& e->ConnectAttempted_0 ==> final(self).phase is Discovering
                &&& !e->ConnectAttempted_0 ==> final(self).phase is Connecting
                &&& final(self).peripheral == old(self).peripheral
            },
            old(self).phase is Discovering && e is ServicesDiscovered ==> {
                let ids = e->ServicesDiscovered_0@;
                &&& final(self).peripheral == old(self).peripheral
                &&& !ids.contains(BATTERY_LEVEL_CHARACTERISTIC) ==> final(self).phase
                    == Phase::Failed(ConnectError::MissingBatteryLevel)
                &&& ids.contains(BATTERY_LEVEL_CHARACTERISTIC) && !ids.contains(
                    HEART_RATE_MEASUREMENT_CHARACTERISTIC,
                ) ==> final(self).phase == Phase::Failed(ConnectError::MissingHeartRate)
                &&& ids.contains(BATTERY_LEVEL_CHARACTERISTIC) && ids.contains(
                    HEART_RATE_MEASUREMENT_CHARACTERISTIC,
                ) ==> {
                    &&& final(self).phase is ReadingBattery
                    &&& is_first_position(
                        ids,
                        BATTERY_LEVEL_CHARACTERISTIC,
                        final(self).battery_level_index as int,
                    )
                    &&& is_first_position(
                        ids,
                        HEART_RATE_MEASUREMENT_CHARACTERISTIC,
                        final(self).heart_rate_index as int,
                    )
                }
            },
            old(self).phase is ReadingBattery && e is BatteryRead ==> {
                &&& final(self).phase is Subscribing
                &&& final(self).battery_level == battery_level_of(e->BatteryRead_0@)
                &&& final(self).peripheral == old(self).peripheral
                &&& final(self).heart_rate_index == old(self).heart_rate_index
            },
            old(self).phase is Subscribing && e is Subscribed ==> {
                &&& final(self).phase is Ready
                &&& final(self).peripheral == old(self).peripheral
            },
    {
        match e {
            ConnectEvent::Scanned(list) => {
                if self.phase != Phase::Scanning {
                    return self.pending_action();
                }
                match self.target {
                    Some(a) => {
                        match find_by_address(&list, a) {
                            Some(i) => {
                                let p = &list[i];
                                self.peripheral = Some(
                                    ConnectedSession { address: p.address, name: display_label(p) },
                                );
                                self.phase = Phase::Connecting;
                            },
                            None => {},
                        }
                    },
                    None => {
                        if list.len() > 0 {
                            self.candidates = list;
                            self.phase = Phase::Choosing;
                        }
                    },
                }
            },
            ConnectEvent::Chose(entry) => {
                if self.phase != Phase::Choosing {
                    return self.pending_action();
                }
                match interpret_selection(self.candidates.len(), entry) {
                    Some(i) => {
                        let p = &self.candidates[i];
                        self.peripheral = Some(
                            ConnectedSession { address: p.address, name: display_label(p) },
                        );
                        self.phase = Phase::Connecting;
                    },
                    None => {
                        self.phase = Phase::Scanning;
                    },
                }
                self.candidates = Vec::new();
            },
            ConnectEvent::ConnectAttempted(ok) => {
                if self.phase != Phase::Connecting {
                    return self.pending_action();
                }
                if ok {
                    self.phase = Phase::Discovering;
                }
            },
            ConnectEvent::ServicesDiscovered(ids) => {
                if self.phase != Phase::Discovering {
                    return self.pending_action();
                }
                match position_of(&ids, BATTERY_LEVEL_CHARACTERISTIC) {
                    None => {
                        self.phase = Phase::Failed(ConnectError::MissingBatteryLevel);
                    },
                    Some(b) => match position_of(&ids, HEART_RATE_MEASUREMENT_CHARACTERISTIC) {
                        None => {
                            self.phase = Phase::Failed(ConnectError::MissingHeartRate);
                        },
                        Some(h) => {
                            self.battery_level_index = b;
                            self.heart_rate_index = h;
                            self.phase = Phase::ReadingBattery;
                        },
                    },
                }
            },
            ConnectEvent::BatteryRead(value) => {
                if self.phase != Phase::ReadingBattery {
                    return self.pending_action();
                }
                self.battery_level = if value.len() >= 1 {
                    Some(value[0])
                } else {
                    None
                };
                self.phase = Phase::Subscribing;
            },
            ConnectEvent::Subscribed => {
                if self.phase != Phase::Subscribing {
                    return self.pending_action();
                }
                self.phase = Phase::Ready;
            },
        }
        self.pending_action()
    }
}

} // verus!
