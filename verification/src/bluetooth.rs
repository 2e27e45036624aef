//! Session state: the single shared record of adapter handles, scan flag,
//! device registry, connection and status, together with the decision logic
//! of the scanner, the connection manager and the notification dispatcher.
//!
//! The session is a state machine over plain values. The platform edge —
//! adapter acquisition, the scan itself, connecting, streams — lives outside
//! the library: callers ask the session what to do, perform the asynchronous
//! platform work, and report its outcome back. Every transition is stated as
//! a relation between the state before and after the call, so that what a
//! serialized run of commands does is itself provable.

use vstd::prelude::*;

use crate::error::BleError;
use crate::heart_rate_data::{
    parse_heart_rate_data, spec_energy, spec_heart_rate, spec_hr_well_formed, spec_rr_intervals,
    HeartRateData,
};
use crate::indoor_bike_data::{
    parse_indoor_bike_data, spec_cadence, spec_distance, spec_speed, spec_well_formed,
    IndoorBikeData,
};
use crate::utils::{get_uuid_characteristic, spec_characteristic_of, Characteristic, DeviceType};

verus! {

/// Lifecycle stage of the session.
#[derive(Debug, Clone, Copy, PartialEq, Eq, Structural)]
pub enum SessionStatus {
    Idle,
    Scanning,
    Connected,
    Error,
}

/// What a begin-scan command asks of the platform adapter.
#[derive(Debug, Clone, Copy, PartialEq, Eq, Structural)]
pub enum ScanAction {
    /// The adapter must be told to start scanning.
    StartScan,
    /// A scan is already running; there is nothing to ask.
    AlreadyScanning,
}

/// What became of one discovery event.
#[derive(Debug, Clone, Copy, PartialEq, Eq, Structural)]
pub enum DiscoveryOutcome {
    /// The event carried no usable device (no name, or already connected).
    Skipped,
    /// The device was already in the registry; first-seen wins.
    Duplicate,
    /// The device entered the registry and goes out on the broadcast feed.
    Published,
}

/// A device seen during the current scan session.
#[derive(Debug)]
pub struct DiscoveredDevice {
    pub id: String,
    pub local_name: String,
    pub connected: bool,
}

/// A registry holds at most one entry per device id.
pub open spec fn registry_wf(devices: Seq<DiscoveredDevice>) -> bool {
    forall|i: int, j: int| 0 <= i < j < devices.len() ==> devices[i].id@ != devices[j].id@
}

/// Whether some entry of the registry carries the given id.
pub open spec fn registry_contains(devices: Seq<DiscoveredDevice>, id: Seq<char>) -> bool {
    exists|i: int| 0 <= i < devices.len() && devices[i].id@ == id
}

/// The one shared record of the session: cached handle presence, the scan
/// flag, the registry of discovered devices, the connected peripheral and
/// the lifecycle status. Exactly one instance exists per process; its owner
/// serializes access.
pub struct SessionState {
    pub has_manager: bool,
    pub has_adapter: bool,
    pub scanning: bool,
    pub devices: Vec<DiscoveredDevice>,
    pub connected_device: Option<String>,
    pub status: SessionStatus,
}

/// Both sessions are the same value, field by field.
pub open spec fn session_unchanged(pre: SessionState, post: SessionState) -> bool {
    &&& post.has_manager == pre.has_manager
    &&& post.has_adapter == pre.has_adapter
    &&& post.scanning == pre.scanning
    &&& post.devices == pre.devices
    &&& post.connected_device == pre.connected_device
    &&& post.status == pre.status
}

/// What `begin_scan` does and returns, as a relation between the session
/// before and after the call: without a cached adapter it fails and changes
/// nothing; while a scan runs it is a no-op success; otherwise it marks the
/// session scanning, clears the registry and asks for the platform scan.
pub open spec fn begin_scan_rel(
    pre: SessionState,
    post: SessionState,
    r: Result<ScanAction, BleError>,
) -> bool {
    if !pre.has_adapter {
        session_unchanged(pre, post) && r == Err::<ScanAction, BleError>(
            BleError::AdapterUnavailable,
        )
    } else if pre.scanning {
        session_unchanged(pre, post) && r == Ok::<ScanAction, BleError>(
            ScanAction::AlreadyScanning,
        )
    } else {
        &&& post.has_manager == pre.has_manager
        &&& post.has_adapter == pre.has_adapter
        &&& post.scanning
        &&& post.devices@.len() == 0
        &&& post.connected_device == pre.connected_device
        &&& post.status == SessionStatus::Scanning
        &&& r == Ok::<ScanAction, BleError>(ScanAction::StartScan)
    }
}

impl SessionState {
    /// Every id in the registry occurs once.
    pub open spec fn wf(self) -> bool {
        registry_wf(self.devices@)
    }

    /// A fresh session: status `Idle`, not scanning, empty registry, no
    /// connection, caching whichever handles the platform yielded.
    pub fn init(has_manager: bool, has_adapter: bool) -> (s: SessionState)
        ensures
            s.wf(),
            s.has_manager == has_manager,
            s.has_adapter == has_adapter,
            !s.scanning,
            s.devices@.len() == 0,
            s.connected_device is None,
            s.status == SessionStatus::Idle,
    {
        SessionState {
            has_manager,
            has_adapter,
            scanning: false,
            devices: Vec::new(),
            connected_device: None,
            status: SessionStatus::Idle,
        }
    }

    /// Begins a scan session, per `begin_scan_rel`. On `Ok(StartScan)` the
    /// caller instructs the adapter, and rolls back with `scan_start_failed`
    /// if the platform refuses. Calling while already scanning is a no-op
    /// success.
    pub fn begin_scan(&mut self) -> (r: Result<ScanAction, BleError>)
        requires
            old(self).wf(),
        ensures
            final(self).wf(),
            begin_scan_rel(*old(self), *final(self), r),
    {
        if !self.has_adapter {
            return Err(BleError::AdapterUnavailable);
        }
        if self.scanning {
            return Ok(ScanAction::AlreadyScanning);
        }
        self.scanning = true;
        self.devices = Vec::new();
        self.status = SessionStatus::Scanning;
        Ok(ScanAction::StartScan)
    }

    /// Rolls the `begin_scan` transition back after the platform refused to
    /// start scanning: the flag is cleared and the status returns to `Idle`.
    pub fn scan_start_failed(&mut self)
        requires
            old(self).wf(),
        ensures
            final(self).wf(),
            final(self).has_manager == old(self).has_manager,
            final(self).has_adapter == old(self).has_adapter,
            !final(self).scanning,
            final(self).devices == old(self).devices,
            final(self).connected_device == old(self).connected_device,
            final(self).status == SessionStatus::Idle,
    {
        self.scanning = false;
        self.status = SessionStatus::Idle;
    }

    /// Decides a stop-scan command: the adapter may be instructed to stop
    /// only when a handle is cached. Succeeds whether or not a scan runs —
    /// stopping an already stopped scan is tolerated. After the platform
    /// obeyed, the caller records the stop with `scan_stopped`.
    pub fn end_scan(&self) -> (r: Result<(), BleError>)
        ensures
            r == (if self.has_adapter {
                Ok::<(), BleError>(())
            } else {
                Err::<(), BleError>(BleError::AdapterUnavailable)
            }),
    {
        if !self.has_adapter {
            return Err(BleError::AdapterUnavailable);
        }
        Ok(())
    }

    /// Records that the adapter stopped scanning: the flag is cleared and
    /// the status returns to `Idle`; the registry survives until the next
    /// scan clears it.
    pub fn scan_stopped(&mut self)
        requires
            old(self).wf(),
        ensures
            final(self).wf(),
            final(self).has_manager == old(self).has_manager,
            final(self).has_adapter == old(self).has_adapter,
            !final(self).scanning,
            final(self).devices == old(self).devices,
            final(self).connected_device == old(self).connected_device,
            final(self).status == SessionStatus::Idle,
    {
        self.scanning = false;
        self.status = SessionStatus::Idle;
    }

    /// Inserts a device into the registry unless its id is already there —
    /// first seen wins, nothing is overwritten — and says whether the device
    /// must go out on the broadcast feed: exactly when it is newly inserted
    /// and not already connected.
    pub fn record_discovery(&mut self, device: DiscoveredDevice) -> (published: bool)
        requires
            old(self).wf(),
        ensures
            final(self).wf(),
            registry_contains(old(self).devices@, device.id@) ==> session_unchanged(
                *old(self),
                *final(self),
            ) && !published,
            !registry_contains(old(self).devices@, device.id@) ==> {
                &&& final(self).devices@ == old(self).devices@.push(device)
                &&& final(self).has_manager == old(self).has_manager
                &&& final(self).has_adapter == old(self).has_adapter
                &&& final(self).scanning == old(self).scanning
                &&& final(self).connected_device == old(self).connected_device
                &&& final(self).status == old(self).status
                &&& published == !device.connected
            },
    {
        let n = self.devices.len();
        let mut i: usize = 0;
        while i < n
            invariant
                n == self.devices@.len(),
                i <= n,
                registry_wf(self.devices@),
                forall|j: int| 0 <= j < i ==> self.devices@[j].id@ != device.id@,
            decreases n - i,
        {
            if self.devices[i].id == device.id {
                proof {
                    assert(registry_contains(self.devices@, device.id@)) by {
                        assert(self.devices@[i as int].id@ == device.id@);
                    }
                }
                return false;
            }
            i += 1;
        }
        let published = !device.connected;
        self.devices.push(device);
        published
    }

    /// Applies one discovery event, per the scanner's rules: an event with
    /// no advertised name, or for a device already connected, is skipped;
    /// otherwise the device is recorded, and published when new.
    pub fn handle_discovery_event(
        &mut self,
        id: String,
        local_name: Option<String>,
        is_connected: bool,
    ) -> (r: DiscoveryOutcome)
        requires
            old(self).wf(),
        ensures
            final(self).wf(),
            (local_name is None || is_connected) ==> session_unchanged(*old(self), *final(self))
                && r == DiscoveryOutcome::Skipped,
            (local_name is Some && !is_connected && registry_contains(old(self).devices@, id@))
                ==> session_unchanged(*old(self), *final(self)) && r == DiscoveryOutcome::Duplicate,
            local_name matches Some(name) ==> (!is_connected && !registry_contains(
                old(self).devices@,
                id@,
            )) ==> {
                &&& final(self).devices@ == old(self).devices@.push(
                    (DiscoveredDevice { id: id, local_name: name, connected: false }),
                )
                &&& final(self).has_manager == old(self).has_manager
                &&& final(self).has_adapter == old(self).has_adapter
                &&& final(self).scanning == old(self).scanning
                &&& final(self).connected_device == old(self).connected_device
                &&& final(self).status == old(self).status
                &&& r == DiscoveryOutcome::Published
            },
    {
        match local_name {
            None => DiscoveryOutcome::Skipped,
            Some(name) => {
                if is_connected {
                    return DiscoveryOutcome::Skipped;
                }
                let device = DiscoveredDevice { id, local_name: name, connected: false };
                let published = self.record_discovery(device);
                if published {
                    DiscoveryOutcome::Published
                } else {
                    DiscoveryOutcome::Duplicate
                }
            },
        }
    }

    /// Decides a connect command: `Ok` exactly when the id is in the current
    /// registry, `DeviceNotFound` otherwise. The caller then performs the
    /// platform connection and service discovery.
    pub fn connect_request(&self, device_id: &String) -> (r: Result<(), BleError>)
        ensures
            r == (if registry_contains(self.devices@, device_id@) {
                Ok::<(), BleError>(())
            } else {
                Err::<(), BleError>(BleError::DeviceNotFound)
            }),
    {
        let n = self.devices.len();
        let mut i: usize = 0;
        while i < n
            invariant
                n == self.devices@.len(),
                i <= n,
                forall|j: int| 0 <= j < i ==> self.devices@[j].id@ != device_id@,
            decreases n - i,
        {
            if self.devices[i].id == *device_id {
                proof {
                    assert(registry_contains(self.devices@, device_id@)) by {
                        assert(self.devices@[i as int].id@ == device_id@);
                    }
                }
                return Ok(());
            }
            i += 1;
        }
        Err(BleError::DeviceNotFound)
    }

    /// Records an established connection: classifies the peripheral by its
    /// discovered services, stores its id as the connected peripheral and
    /// moves the status to `Connected`. The returned type tells the caller
    /// what to subscribe to — the Heart Rate Measurement characteristic for
    /// a heart-rate device.
    pub fn connection_established(&mut self, device_id: String, services: Vec<u128>) -> (r:
        DeviceType)
        requires
            old(self).wf(),
        ensures
            final(self).wf(),
            r == crate::utils::spec_device_type_of(services@),
            final(self).connected_device == Some(device_id),
            final(self).status == SessionStatus::Connected,
            final(self).has_manager == old(self).has_manager,
            final(self).has_adapter == old(self).has_adapter,
            final(self).scanning == old(self).scanning,
            final(self).devices == old(self).devices,
    {
        let device_type = crate::utils::get_device_type(services);
        self.connected_device = Some(device_id);
        self.status = SessionStatus::Connected;
        device_type
    }

    /// The discovery feed: the `(id, displayName)` pairs of the registry, in
    /// discovery order, as pushed to the outside while a scan runs.
    pub fn device_feed(&self) -> (r: Vec<(String, String)>)
        ensures
            r@.len() == self.devices@.len(),
            forall|i: int|
                0 <= i < r@.len() ==> (#[trigger] r@[i]).0@ == self.devices@[i].id@ && r@[i].1@
                    == self.devices@[i].local_name@,
    {
        let mut out: Vec<(String, String)> = Vec::new();
        let mut i: usize = 0;
        while i < self.devices.len()
            invariant
                i <= self.devices@.len(),
                out@.len() == i,
                forall|j: int|
                    0 <= j < i ==> (#[trigger] out@[j]).0@ == self.devices@[j].id@ && out@[j].1@
                        == self.devices@[j].local_name@,
            decreases self.devices@.len() - i,
        {
            let device = &self.devices[i];
            out.push((device.id.clone(), device.local_name.clone()));
            i += 1;
        }
        out
    }

    /// Tears the session down after the central event stream is lost: both
    /// cached handles are cleared — forcing an explicit re-`init` — the
    /// registry and connection are dropped and the status forced to `Error`.
    pub fn event_stream_lost(&mut self)
        requires
            old(self).wf(),
        ensures
            final(self).wf(),
            !final(self).has_manager,
            !final(self).has_adapter,
            !final(self).scanning,
            final(self).devices@.len() == 0,
            final(self).connected_device is None,
            final(self).status == SessionStatus::Error,
    {
        self.has_manager = false;
        self.has_adapter = false;
        self.scanning = false;
        self.devices = Vec::new();
        self.connected_device = None;
        self.status = SessionStatus::Error;
    }
}

/// One decoded measurement, as handed to the record sink.
#[derive(Debug, PartialEq, Eq)]
pub enum DecodedRecord {
    IndoorBike(IndoorBikeData),
    HeartRate(HeartRateData),
}

/// Routes one inbound notification through the router to the matching
/// decoder. A characteristic without a decoder, or a malformed payload,
/// yields `None`: the notification is dropped and the stream lives on.
pub fn handle_notification(char_uuid: u128, payload: &Vec<u8>) -> (r: Option<DecodedRecord>)
    ensures
        spec_characteristic_of(char_uuid) == Characteristic::IndoorBikeData ==> (
        if spec_well_formed(payload@) {
            r == Some(
                DecodedRecord::IndoorBike(
                    (IndoorBikeData {
                        cadence: spec_cadence(payload@),
                        speed: spec_speed(payload@),
                        distance: spec_distance(payload@),
                    }),
                ),
            )
        } else {
            r is None
        }),
        spec_characteristic_of(char_uuid) == Characteristic::HeartRateMeasurement ==> (
        if spec_hr_well_formed(payload@) {
            r matches Some(DecodedRecord::HeartRate(v)) && v.heart_rate == spec_heart_rate(payload@)
                && v.energy_expended == spec_energy(payload@) && v.rr_intervals@
                == spec_rr_intervals(payload@)
        } else {
            r is None
        }),
        spec_characteristic_of(char_uuid) != Characteristic::IndoorBikeData
            && spec_characteristic_of(char_uuid) != Characteristic::HeartRateMeasurement ==> r
            is None,
{
    match get_uuid_characteristic(char_uuid) {
        Characteristic::IndoorBikeData => match parse_indoor_bike_data(payload) {
            Ok(record) => Some(DecodedRecord::IndoorBike(record)),
            Err(_) => None,
        },
        Characteristic::HeartRateMeasurement => match parse_heart_rate_data(payload) {
            Ok(record) => Some(DecodedRecord::HeartRate(record)),
            Err(_) => None,
        },
        _ => None,
    }
}

/// Scanning begins effectively once. Along any serialized run of
/// `begin_scan` calls on a session whose adapter handle is cached, the
/// scanning flag ends true; a call that finds the flag set changes nothing
/// and asks the adapter for nothing; and once some call has answered
/// `StartScan`, every later call answers `AlreadyScanning`.
pub proof fn lemma_begin_scan_effectively_once(
    states: Seq<SessionState>,
    results: Seq<Result<ScanAction, BleError>>,
)
    requires
        states.len() >= 2,
        results.len() == states.len() - 1,
        states[0].has_adapter,
        forall|i: int|
            0 <= i < results.len() ==> #[trigger] begin_scan_rel(
                states[i],
                states[i + 1],
                results[i],
            ),
    ensures
        states.last().scanning,
        forall|i: int|
            0 <= i < results.len() && states[i].scanning ==> session_unchanged(
                states[i],
                #[trigger] states[i + 1],
            ) && results[i] == Ok::<ScanAction, BleError>(ScanAction::AlreadyScanning),
        forall|i: int, j: int|
            0 <= i < j < results.len() && #[trigger] results[i] == Ok::<ScanAction, BleError>(
                ScanAction::StartScan,
            ) ==> #[trigger] results[j] == Ok::<ScanAction, BleError>(ScanAction::AlreadyScanning),
{
    assert forall|k: int| 1 <= k < states.len() implies states[k].has_adapter
        && states[k].scanning by {
        lemma_begin_scan_chain(states, results, k);
    }
    assert(states.last().scanning);
    assert forall|i: int|
        0 <= i < results.len() && states[i].scanning implies session_unchanged(
        states[i],
        #[trigger] states[i + 1],
    ) && results[i] == Ok::<ScanAction, BleError>(ScanAction::AlreadyScanning) by {
        if i >= 1 {
            lemma_begin_scan_chain(states, results, i);
        }
        assert(begin_scan_rel(states[i], states[i + 1], results[i]));
    }
    assert forall|i: int, j: int|
        0 <= i < j < results.len() && #[trigger] results[i] == Ok::<ScanAction, BleError>(
            ScanAction::StartScan,
        ) implies #[trigger] results[j] == Ok::<ScanAction, BleError>(
        ScanAction::AlreadyScanning,
    ) by {
        assert(states[j].has_adapter && states[j].scanning);
        assert(begin_scan_rel(states[j], states[j + 1], results[j]));
    }
}

/// Along the run, the adapter handle survives and — from the first
/// transition on — the scanning flag holds.
proof fn lemma_begin_scan_chain(
    states: Seq<SessionState>,
    results: Seq<Result<ScanAction, BleError>>,
    k: int,
)
    requires
        states.len() >= 2,
        results.len() == states.len() - 1,
        states[0].has_adapter,
        forall|i: int|
            0 <= i < results.len() ==> #[trigger] begin_scan_rel(
                states[i],
                states[i + 1],
                results[i],
            ),
        1 <= k < states.len(),
    ensures
        states[k].has_adapter,
        states[k].scanning,
    decreases k,
{
    if k > 1 {
        lemma_begin_scan_chain(states, results, k - 1);
    }
    let i = k - 1;
    assert(begin_scan_rel(states[i], states[i + 1], results[i]));
    assert(states[k] == states[i + 1]);
}

} // verus!
