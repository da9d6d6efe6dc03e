//! Alert detection rules that work on whole numbers: a device gone silent
//! for too long, and unknown hardware addresses seen on a device.

use vstd::prelude::*;
use vstd::string::*;
use crate::boundary::{debug_list, debug_list_text};
use crate::entities::{Alert, AlertSeverity, AlertStatus, AlertType, Device, DeviceStatus, is_v4};
use crate::text::{decimal, digits_value, i64_text, int_text, law_decimal, law_int_text, u64_text};

verus! {

/// Seconds of silence after which a device counts as offline, by default.
pub const DEFAULT_OFFLINE_THRESHOLD_SECS: i64 = 300;

/// The message of an offline alert: `Device <hostname> is offline`.
pub open spec fn offline_message(hostname: Seq<char>) -> Seq<char> {
    "Device "@ + hostname + " is offline"@
}

/// The details of an offline alert: `Last seen <n> seconds ago`.
pub open spec fn offline_details(secs: i64) -> Seq<char> {
    "Last seen "@ + int_text(secs as int) + " seconds ago"@
}

/// The message of an intrusion alert:
/// `Possible intrusion on device <hostname>: <n> unknown MACs`.
pub open spec fn intrusion_message(hostname: Seq<char>, count: nat) -> Seq<char> {
    "Possible intrusion on device "@ + hostname + ": "@ + decimal(count) + " unknown MACs"@
}

/// The details of an intrusion alert: `Unknown MACs: ` and the list.
pub open spec fn intrusion_details(macs: Seq<Seq<char>>) -> Seq<char> {
    "Unknown MACs: "@ + debug_list_text(macs)
}

/// The texts of raised alerts name what was observed: an offline alert's
/// message names the host between `Device ` and ` is offline`, and its
/// details give the seconds since the device was last seen, in decimal,
/// between `Last seen ` and ` seconds ago`; an intrusion alert's message
/// gives the count of unknown addresses in decimal. A device is called
/// offline after five minutes of silence by default, and a latency above
/// 100 ms is anomalous.
pub proof fn law_alert_texts(hostname: Seq<char>, secs: i64, count: nat)
    ensures
        DEFAULT_OFFLINE_THRESHOLD_SECS == 300,
        LATENCY_ANOMALY_MS == 100,
        offline_message(hostname).take(7) == "Device "@,
        offline_message(hostname).subrange(7, 7 + hostname.len() as int) == hostname,
        offline_message(hostname).skip(7 + hostname.len() as int) == " is offline"@,
        offline_details(secs).take(10) == "Last seen "@,
        offline_details(secs).subrange(10, 10 + int_text(secs as int).len() as int) == int_text(
            secs as int,
        ),
        offline_details(secs).skip(10 + int_text(secs as int).len() as int) == " seconds ago"@,
        secs >= 0 ==> digits_value(int_text(secs as int)) == secs,
        intrusion_message(hostname, count).skip(31 + hostname.len() as int).take(
            decimal(count).len() as int,
        ) == decimal(count),
        digits_value(decimal(count)) == count,
{
    reveal_strlit("Device ");
    reveal_strlit(" is offline");
    reveal_strlit("Last seen ");
    reveal_strlit(" seconds ago");
    reveal_strlit("Possible intrusion on device ");
    reveal_strlit(": ");
    let m = offline_message(hostname);
    assert(m.take(7) =~= "Device "@);
    assert(m.subrange(7, 7 + hostname.len() as int) =~= hostname);
    assert(m.skip(7 + hostname.len() as int) =~= " is offline"@);
    let d = offline_details(secs);
    let t = int_text(secs as int);
    assert(d.take(10) =~= "Last seen "@);
    assert(d.subrange(10, 10 + t.len() as int) =~= t);
    assert(d.skip(10 + t.len() as int) =~= " seconds ago"@);
    law_int_text(secs as int);
    law_decimal(count);
    let im = intrusion_message(hostname, count);
    assert(im.skip(31 + hostname.len() as int).take(decimal(count).len() as int) =~= decimal(count));
}

/// `a` is a new active alert of `alert_type` and `severity` about `device`,
/// with the given message and details.
pub open spec fn raised_about(
    a: Alert,
    device: Device,
    alert_type: AlertType,
    severity: AlertSeverity,
    message: Seq<char>,
    details: Seq<char>,
) -> bool {
    &&& is_v4(a.id)
    &&& a.alert_type == alert_type
    &&& a.severity == severity
    &&& a.device_id == Some(device.id)
    &&& a.message@ == message
    &&& a.details matches Some(d) && d@ == details
    &&& a.status == AlertStatus::Active
    &&& a.acknowledged_by is None
    &&& a.acknowledged_at is None
}

/// Raises alerts from what is observed of devices.
#[derive(Debug, Clone, Copy)]
pub struct AlertDetector {
    device_offline_threshold_secs: i64,
}

impl AlertDetector {
    /// Seconds of silence after which a device counts as offline.
    pub closed spec fn offline_threshold(&self) -> i64 {
        self.device_offline_threshold_secs
    }

    /// A detector that counts a device offline after
    /// `device_offline_threshold_secs` seconds of silence.
    pub fn new(device_offline_threshold_secs: i64) -> (d: Self)
        ensures
            d.offline_threshold() == device_offline_threshold_secs,
    {
        AlertDetector { device_offline_threshold_secs }
    }

    /// A high-severity offline alert when `device` was last seen more than
    /// the threshold ago and is not already marked offline; none otherwise.
    pub fn check_device_offline(&self, device: &Device, last_seen_secs_ago: i64) -> (r: Option<Alert>)
        ensures
            match r {
                Some(a) => {
                    &&& last_seen_secs_ago > self.offline_threshold()
                    &&& device.status != DeviceStatus::Offline
                    &&& raised_about(
                        a,
                        *device,
                        AlertType::DeviceOffline,
                        AlertSeverity::High,
                        offline_message(device.hostname@),
                        offline_details(last_seen_secs_ago),
                    )
                },
                None => last_seen_secs_ago <= self.offline_threshold() || device.status
                    == DeviceStatus::Offline,
            },
    {
        let already_offline = match device.status {
            DeviceStatus::Offline => true,
            _ => false,
        };
        if last_seen_secs_ago > self.device_offline_threshold_secs && !already_offline {
            let message = String::from_str("Device ").concat(device.hostname.as_str()).concat(
                " is offline",
            );
            let secs = i64_text(last_seen_secs_ago);
            let details = String::from_str("Last seen ").concat(secs.as_str()).concat(
                " seconds ago",
            );
            Some(
                Alert::new(
                    AlertType::DeviceOffline,
                    AlertSeverity::High,
                    Some(device.id),
                    message,
                    Some(details),
                ),
            )
        } else {
            None
        }
    }

    /// A critical intrusion alert when unknown hardware addresses were seen
    /// on `device`; none when the list is empty.
    pub fn check_intrusion(&self, device: &Device, unknown_macs: &[String]) -> (r: Option<Alert>)
        ensures
            match r {
                Some(a) => {
                    &&& unknown_macs@.len() > 0
                    &&& raised_about(
                        a,
                        *device,
                        AlertType::Intrusion,
                        AlertSeverity::Critical,
                        intrusion_message(device.hostname@, unknown_macs@.len()),
                        intrusion_details(unknown_macs@.map_values(|s: String| s@)),
                    )
                },
                None => unknown_macs@.len() == 0,
            },
    {
        if unknown_macs.len() > 0 {
            let count = u64_text(unknown_macs.len() as u64);
            let message = String::from_str("Possible intrusion on device ").concat(
                device.hostname.as_str(),
            ).concat(": ").concat(count.as_str()).concat(" unknown MACs");
            let list = debug_list(unknown_macs);
            let details = String::from_str("Unknown MACs: ").concat(list.as_str());
            Some(
                Alert::new(
                    AlertType::Intrusion,
                    AlertSeverity::Critical,
                    Some(device.id),
                    message,
                    Some(details),
                ),
            )
        } else {
            None
        }
    }
}

impl Default for AlertDetector {
    /// A detector with the default offline threshold of 300 seconds.
    fn default() -> (d: Self)
        ensures
            d.offline_threshold() == DEFAULT_OFFLINE_THRESHOLD_SECS,
    {
        AlertDetector { device_offline_threshold_secs: DEFAULT_OFFLINE_THRESHOLD_SECS }
    }
}

/// Latency, in milliseconds, above which a metric reading is anomalous.
pub const LATENCY_ANOMALY_MS: i32 = 100;

/// Whether a reading's latency makes it anomalous: it was measured and is
/// above 100 ms.
pub fn latency_anomaly(latency_ms: Option<i32>) -> (r: bool)
    ensures
        r == (latency_ms matches Some(l) && l > LATENCY_ANOMALY_MS),
{
    match latency_ms {
        Some(l) => l > LATENCY_ANOMALY_MS,
        None => false,
    }
}

} // verus!
