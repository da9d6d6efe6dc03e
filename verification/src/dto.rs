//! Request and response bodies of the HTTP API, the names enum values are
//! written with, and the API's error bodies.

use vstd::prelude::*;
use vstd::string::*;
use crate::boundary::{offset_date_time_text, uuid_hyphenated, uuid_to_text};
use crate::entities::{
    Alert, AlertSeverity, AlertStatus, AlertType, Device, DeviceStatus, DeviceType, Sede,
};
use crate::text::{opt_text, text_eq};
use crate::timestamp::Timestamp;

verus! {

/// The name an alert type is written with (its variant name).
pub open spec fn alert_type_name(t: AlertType) -> Seq<char> {
    match t {
        AlertType::DeviceOffline => "DeviceOffline"@,
        AlertType::BandwidthSaturation => "BandwidthSaturation"@,
        AlertType::PacketLoss => "PacketLoss"@,
        AlertType::Intrusion => "Intrusion"@,
        AlertType::TopologyChange => "TopologyChange"@,
        AlertType::HighTraffic => "HighTraffic"@,
    }
}

/// The alert type a name denotes, if any.
pub open spec fn parse_alert_type(s: Seq<char>) -> Option<AlertType> {
    if s == "DeviceOffline"@ {
        Some(AlertType::DeviceOffline)
    } else if s == "BandwidthSaturation"@ {
        Some(AlertType::BandwidthSaturation)
    } else if s == "PacketLoss"@ {
        Some(AlertType::PacketLoss)
    } else if s == "Intrusion"@ {
        Some(AlertType::Intrusion)
    } else if s == "TopologyChange"@ {
        Some(AlertType::TopologyChange)
    } else if s == "HighTraffic"@ {
        Some(AlertType::HighTraffic)
    } else {
        None
    }
}

/// The name a severity is written with.
pub open spec fn severity_name(s: AlertSeverity) -> Seq<char> {
    match s {
        AlertSeverity::Critical => "Critical"@,
        AlertSeverity::High => "High"@,
        AlertSeverity::Medium => "Medium"@,
        AlertSeverity::Low => "Low"@,
    }
}

/// The severity a name denotes, if any.
pub open spec fn parse_severity(s: Seq<char>) -> Option<AlertSeverity> {
    if s == "Critical"@ {
        Some(AlertSeverity::Critical)
    } else if s == "High"@ {
        Some(AlertSeverity::High)
    } else if s == "Medium"@ {
        Some(AlertSeverity::Medium)
    } else if s == "Low"@ {
        Some(AlertSeverity::Low)
    } else {
        None
    }
}

/// The name an alert status is written with.
pub open spec fn alert_status_name(s: AlertStatus) -> Seq<char> {
    match s {
        AlertStatus::Active => "Active"@,
        AlertStatus::Acknowledged => "Acknowledged"@,
        AlertStatus::Resolved => "Resolved"@,
    }
}

/// The alert status a name denotes, if any.
pub open spec fn parse_alert_status(s: Seq<char>) -> Option<AlertStatus> {
    if s == "Active"@ {
        Some(AlertStatus::Active)
    } else if s == "Acknowledged"@ {
        Some(AlertStatus::Acknowledged)
    } else if s == "Resolved"@ {
        Some(AlertStatus::Resolved)
    } else {
        None
    }
}

/// The name a device type is written with.
pub open spec fn device_type_name(t: DeviceType) -> Seq<char> {
    match t {
        DeviceType::Switch => "Switch"@,
        DeviceType::AccessPoint => "AccessPoint"@,
        DeviceType::Router => "Router"@,
        DeviceType::Firewall => "Firewall"@,
        DeviceType::Server => "Server"@,
        DeviceType::Ups => "Ups"@,
        DeviceType::Camera => "Camera"@,
        DeviceType::WirelessLink => "WirelessLink"@,
    }
}

/// The device type a name denotes, if any.
pub open spec fn parse_device_type(s: Seq<char>) -> Option<DeviceType> {
    if s == "Switch"@ {
        Some(DeviceType::Switch)
    } else if s == "AccessPoint"@ {
        Some(DeviceType::AccessPoint)
    } else if s == "Router"@ {
        Some(DeviceType::Router)
    } else if s == "Firewall"@ {
        Some(DeviceType::Firewall)
    } else if s == "Server"@ {
        Some(DeviceType::Server)
    } else if s == "Ups"@ {
        Some(DeviceType::Ups)
    } else if s == "Camera"@ {
        Some(DeviceType::Camera)
    } else if s == "WirelessLink"@ {
        Some(DeviceType::WirelessLink)
    } else {
        None
    }
}

/// The name a device status is written with.
pub open spec fn device_status_name(s: DeviceStatus) -> Seq<char> {
    match s {
        DeviceStatus::Active => "Active"@,
        DeviceStatus::Offline => "Offline"@,
        DeviceStatus::Maintenance => "Maintenance"@,
    }
}

/// The device status a name denotes, if any.
pub open spec fn parse_device_status(s: Seq<char>) -> Option<DeviceStatus> {
    if s == "Active"@ {
        Some(DeviceStatus::Active)
    } else if s == "Offline"@ {
        Some(DeviceStatus::Offline)
    } else if s == "Maintenance"@ {
        Some(DeviceStatus::Maintenance)
    } else {
        None
    }
}

/// Reading the name of an alert type gives the type back, and a name that
/// is read is the name of what it gives.
pub proof fn law_alert_type_names(t: AlertType, s: Seq<char>)
    ensures
        parse_alert_type(alert_type_name(t)) == Some(t),
        parse_alert_type(s) matches Some(u) ==> alert_type_name(u) == s,
{
    reveal_strlit("DeviceOffline");
    reveal_strlit("BandwidthSaturation");
    reveal_strlit("PacketLoss");
    reveal_strlit("Intrusion");
    reveal_strlit("TopologyChange");
    reveal_strlit("HighTraffic");
    match t {
        AlertType::DeviceOffline => {
        },
        AlertType::BandwidthSaturation => {
            assert("BandwidthSaturation"@.len() != "DeviceOffline"@.len());
        },
        AlertType::PacketLoss => {
            assert("PacketLoss"@.len() != "DeviceOffline"@.len());
            assert("PacketLoss"@.len() != "BandwidthSaturation"@.len());
        },
        AlertType::Intrusion => {
            assert("Intrusion"@.len() != "DeviceOffline"@.len());
            assert("Intrusion"@.len() != "BandwidthSaturation"@.len());
            assert("Intrusion"@.len() != "PacketLoss"@.len());
        },
        AlertType::TopologyChange => {
            assert("TopologyChange"@.len() != "DeviceOffline"@.len());
            assert("TopologyChange"@.len() != "BandwidthSaturation"@.len());
            assert("TopologyChange"@.len() != "PacketLoss"@.len());
            assert("TopologyChange"@.len() != "Intrusion"@.len());
        },
        AlertType::HighTraffic => {
            assert("HighTraffic"@.len() != "DeviceOffline"@.len());
            assert("HighTraffic"@.len() != "BandwidthSaturation"@.len());
            assert("HighTraffic"@.len() != "PacketLoss"@.len());
            assert("HighTraffic"@.len() != "Intrusion"@.len());
            assert("HighTraffic"@.len() != "TopologyChange"@.len());
        },
    }
}

/// Reading the name of a severity gives the severity back, and a name that
/// is read is the name of what it gives.
pub proof fn law_severity_names(v: AlertSeverity, s: Seq<char>)
    ensures
        parse_severity(severity_name(v)) == Some(v),
        parse_severity(s) matches Some(u) ==> severity_name(u) == s,
{
    reveal_strlit("Critical");
    reveal_strlit("High");
    reveal_strlit("Medium");
    reveal_strlit("Low");
    match v {
        AlertSeverity::Critical => {
        },
        AlertSeverity::High => {
            assert("High"@.len() != "Critical"@.len());
        },
        AlertSeverity::Medium => {
            assert("Medium"@.len() != "Critical"@.len());
            assert("Medium"@.len() != "High"@.len());
        },
        AlertSeverity::Low => {
            assert("Low"@.len() != "Critical"@.len());
            assert("Low"@.len() != "High"@.len());
            assert("Low"@.len() != "Medium"@.len());
        },
    }
}

/// Reading the name of an alert status gives the status back, and a name
/// that is read is the name of what it gives.
pub proof fn law_alert_status_names(v: AlertStatus, s: Seq<char>)
    ensures
        parse_alert_status(alert_status_name(v)) == Some(v),
        parse_alert_status(s) matches Some(u) ==> alert_status_name(u) == s,
{
    reveal_strlit("Active");
    reveal_strlit("Acknowledged");
    reveal_strlit("Resolved");
    match v {
        AlertStatus::Active => {
        },
        AlertStatus::Acknowledged => {
            assert("Acknowledged"@.len() != "Active"@.len());
        },
        AlertStatus::Resolved => {
            assert("Resolved"@.len() != "Active"@.len());
            assert("Resolved"@.len() != "Acknowledged"@.len());
        },
    }
}

/// Reading the name of a device type gives the type back, and a name that
/// is read is the name of what it gives.
pub proof fn law_device_type_names(t: DeviceType, s: Seq<char>)
    ensures
        parse_device_type(device_type_name(t)) == Some(t),
        parse_device_type(s) matches Some(u) ==> device_type_name(u) == s,
{
    reveal_strlit("Switch");
    reveal_strlit("AccessPoint");
    reveal_strlit("Router");
    reveal_strlit("Firewall");
    reveal_strlit("Server");
    reveal_strlit("Ups");
    reveal_strlit("Camera");
    reveal_strlit("WirelessLink");
    match t {
        DeviceType::Switch => {
        },
        DeviceType::AccessPoint => {
            assert("AccessPoint"@.len() != "Switch"@.len());
        },
        DeviceType::Router => {
            assert("Router"@[0] != "Switch"@[0]);
            assert("Router"@.len() != "AccessPoint"@.len());
        },
        DeviceType::Firewall => {
            assert("Firewall"@.len() != "Switch"@.len());
            assert("Firewall"@.len() != "AccessPoint"@.len());
            assert("Firewall"@.len() != "Router"@.len());
        },
        DeviceType::Server => {
            assert("Server"@[1] != "Switch"@[1]);
            assert("Server"@.len() != "AccessPoint"@.len());
            assert("Server"@[0] != "Router"@[0]);
            assert("Server"@.len() != "Firewall"@.len());
        },
        DeviceType::Ups => {
            assert("Ups"@.len() != "Switch"@.len());
            assert("Ups"@.len() != "AccessPoint"@.len());
            assert("Ups"@.len() != "Router"@.len());
            assert("Ups"@.len() != "Firewall"@.len());
            assert("Ups"@.len() != "Server"@.len());
        },
        DeviceType::Camera => {
            assert("Camera"@[0] != "Switch"@[0]);
            assert("Camera"@.len() != "AccessPoint"@.len());
            assert("Camera"@[0] != "Router"@[0]);
            assert("Camera"@.len() != "Firewall"@.len());
            assert("Camera"@[0] != "Server"@[0]);
            assert("Camera"@.len() != "Ups"@.len());
        },
        DeviceType::WirelessLink => {
            assert("WirelessLink"@.len() != "Switch"@.len());
            assert("WirelessLink"@.len() != "AccessPoint"@.len());
            assert("WirelessLink"@.len() != "Router"@.len());
            assert("WirelessLink"@.len() != "Firewall"@.len());
            assert("WirelessLink"@.len() != "Server"@.len());
            assert("WirelessLink"@.len() != "Ups"@.len());
            assert("WirelessLink"@.len() != "Camera"@.len());
        },
    }
}

/// Reading the name of a device status gives the status back, and a name
/// that is read is the name of what it gives.
pub proof fn law_device_status_names(v: DeviceStatus, s: Seq<char>)
    ensures
        parse_device_status(device_status_name(v)) == Some(v),
        parse_device_status(s) matches Some(u) ==> device_status_name(u) == s,
{
    reveal_strlit("Active");
    reveal_strlit("Offline");
    reveal_strlit("Maintenance");
    match v {
        DeviceStatus::Active => {
        },
        DeviceStatus::Offline => {
            assert("Offline"@.len() != "Active"@.len());
        },
        DeviceStatus::Maintenance => {
            assert("Maintenance"@.len() != "Active"@.len());
            assert("Maintenance"@.len() != "Offline"@.len());
        },
    }
}

/// Every variant is written with its own name, as the API documents it,
/// and that name is read back as that variant.
pub proof fn law_variant_names()
    ensures
        alert_type_name(AlertType::DeviceOffline) == "DeviceOffline"@,
        alert_type_name(AlertType::BandwidthSaturation) == "BandwidthSaturation"@,
        alert_type_name(AlertType::PacketLoss) == "PacketLoss"@,
        alert_type_name(AlertType::Intrusion) == "Intrusion"@,
        alert_type_name(AlertType::TopologyChange) == "TopologyChange"@,
        alert_type_name(AlertType::HighTraffic) == "HighTraffic"@,
        severity_name(AlertSeverity::Critical) == "Critical"@,
        severity_name(AlertSeverity::High) == "High"@,
        severity_name(AlertSeverity::Medium) == "Medium"@,
        severity_name(AlertSeverity::Low) == "Low"@,
        alert_status_name(AlertStatus::Active) == "Active"@,
        alert_status_name(AlertStatus::Acknowledged) == "Acknowledged"@,
        alert_status_name(AlertStatus::Resolved) == "Resolved"@,
        device_type_name(DeviceType::Switch) == "Switch"@,
        device_type_name(DeviceType::AccessPoint) == "AccessPoint"@,
        device_type_name(DeviceType::Router) == "Router"@,
        device_type_name(DeviceType::Firewall) == "Firewall"@,
        device_type_name(DeviceType::Server) == "Server"@,
        device_type_name(DeviceType::Ups) == "Ups"@,
        device_type_name(DeviceType::Camera) == "Camera"@,
        device_type_name(DeviceType::WirelessLink) == "WirelessLink"@,
        device_status_name(DeviceStatus::Active) == "Active"@,
        device_status_name(DeviceStatus::Offline) == "Offline"@,
        device_status_name(DeviceStatus::Maintenance) == "Maintenance"@,
        parse_alert_type("DeviceOffline"@) == Some(AlertType::DeviceOffline),
        parse_alert_type("BandwidthSaturation"@) == Some(AlertType::BandwidthSaturation),
        parse_alert_type("PacketLoss"@) == Some(AlertType::PacketLoss),
        parse_alert_type("Intrusion"@) == Some(AlertType::Intrusion),
        parse_alert_type("TopologyChange"@) == Some(AlertType::TopologyChange),
        parse_alert_type("HighTraffic"@) == Some(AlertType::HighTraffic),
        parse_severity("Critical"@) == Some(AlertSeverity::Critical),
        parse_severity("High"@) == Some(AlertSeverity::High),
        parse_severity("Medium"@) == Some(AlertSeverity::Medium),
        parse_severity("Low"@) == Some(AlertSeverity::Low),
        parse_alert_status("Active"@) == Some(AlertStatus::Active),
        parse_alert_status("Acknowledged"@) == Some(AlertStatus::Acknowledged),
        parse_alert_status("Resolved"@) == Some(AlertStatus::Resolved),
        parse_device_type("Switch"@) == Some(DeviceType::Switch),
        parse_device_type("AccessPoint"@) == Some(DeviceType::AccessPoint),
        parse_device_type("Router"@) == Some(DeviceType::Router),
        parse_device_type("Firewall"@) == Some(DeviceType::Firewall),
        parse_device_type("Server"@) == Some(DeviceType::Server),
        parse_device_type("Ups"@) == Some(DeviceType::Ups),
        parse_device_type("Camera"@) == Some(DeviceType::Camera),
        parse_device_type("WirelessLink"@) == Some(DeviceType::WirelessLink),
        parse_device_status("Active"@) == Some(DeviceStatus::Active),
        parse_device_status("Offline"@) == Some(DeviceStatus::Offline),
        parse_device_status("Maintenance"@) == Some(DeviceStatus::Maintenance),
{
    law_alert_type_names(AlertType::DeviceOffline, Seq::empty());
    law_alert_type_names(AlertType::BandwidthSaturation, Seq::empty());
    law_alert_type_names(AlertType::PacketLoss, Seq::empty());
    law_alert_type_names(AlertType::Intrusion, Seq::empty());
    law_alert_type_names(AlertType::TopologyChange, Seq::empty());
    law_alert_type_names(AlertType::HighTraffic, Seq::empty());
    law_severity_names(AlertSeverity::Critical, Seq::empty());
    law_severity_names(AlertSeverity::High, Seq::empty());
    law_severity_names(AlertSeverity::Medium, Seq::empty());
    law_severity_names(AlertSeverity::Low, Seq::empty());
    law_alert_status_names(AlertStatus::Active, Seq::empty());
    law_alert_status_names(AlertStatus::Acknowledged, Seq::empty());
    law_alert_status_names(AlertStatus::Resolved, Seq::empty());
    law_device_type_names(DeviceType::Switch, Seq::empty());
    law_device_type_names(DeviceType::AccessPoint, Seq::empty());
    law_device_type_names(DeviceType::Router, Seq::empty());
    law_device_type_names(DeviceType::Firewall, Seq::empty());
    law_device_type_names(DeviceType::Server, Seq::empty());
    law_device_type_names(DeviceType::Ups, Seq::empty());
    law_device_type_names(DeviceType::Camera, Seq::empty());
    law_device_type_names(DeviceType::WirelessLink, Seq::empty());
    law_device_status_names(DeviceStatus::Active, Seq::empty());
    law_device_status_names(DeviceStatus::Offline, Seq::empty());
    law_device_status_names(DeviceStatus::Maintenance, Seq::empty());
}

/// Writes an alert type by name.
pub fn alert_type_text(t: AlertType) -> (s: String)
    ensures
        s@ == alert_type_name(t),
{
    match t {
        AlertType::DeviceOffline => String::from_str("DeviceOffline"),
        AlertType::BandwidthSaturation => String::from_str("BandwidthSaturation"),
        AlertType::PacketLoss => String::from_str("PacketLoss"),
        AlertType::Intrusion => String::from_str("Intrusion"),
        AlertType::TopologyChange => String::from_str("TopologyChange"),
        AlertType::HighTraffic => String::from_str("HighTraffic"),
    }
}

/// Writes a severity by name.
pub fn severity_text(s: AlertSeverity) -> (r: String)
    ensures
        r@ == severity_name(s),
{
    match s {
        AlertSeverity::Critical => String::from_str("Critical"),
        AlertSeverity::High => String::from_str("High"),
        AlertSeverity::Medium => String::from_str("Medium"),
        AlertSeverity::Low => String::from_str("Low"),
    }
}

/// Writes an alert status by name.
pub fn alert_status_text(s: AlertStatus) -> (r: String)
    ensures
        r@ == alert_status_name(s),
{
    match s {
        AlertStatus::Active => String::from_str("Active"),
        AlertStatus::Acknowledged => String::from_str("Acknowledged"),
        AlertStatus::Resolved => String::from_str("Resolved"),
    }
}

/// Writes a device type by name.
pub fn device_type_text(t: DeviceType) -> (s: String)
    ensures
        s@ == device_type_name(t),
{
    match t {
        DeviceType::Switch => String::from_str("Switch"),
        DeviceType::AccessPoint => String::from_str("AccessPoint"),
        DeviceType::Router => String::from_str("Router"),
        DeviceType::Firewall => String::from_str("Firewall"),
        DeviceType::Server => String::from_str("Server"),
        DeviceType::Ups => String::from_str("Ups"),
        DeviceType::Camera => String::from_str("Camera"),
        DeviceType::WirelessLink => String::from_str("WirelessLink"),
    }
}

/// Writes a device status by name.
pub fn device_status_text(s: DeviceStatus) -> (r: String)
    ensures
        r@ == device_status_name(s),
{
    match s {
        DeviceStatus::Active => String::from_str("Active"),
        DeviceStatus::Offline => String::from_str("Offline"),
        DeviceStatus::Maintenance => String::from_str("Maintenance"),
    }
}

/// Reads an alert status by name.
pub fn alert_status_from_text(s: &str) -> (r: Option<AlertStatus>)
    ensures
        r == parse_alert_status(s@),
{
    if text_eq(s, "Active") {
        Some(AlertStatus::Active)
    } else if text_eq(s, "Acknowledged") {
        Some(AlertStatus::Acknowledged)
    } else if text_eq(s, "Resolved") {
        Some(AlertStatus::Resolved)
    } else {
        None
    }
}

/// Reads a device type by name.
pub fn device_type_from_text(s: &str) -> (r: Option<DeviceType>)
    ensures
        r == parse_device_type(s@),
{
    if text_eq(s, "Switch") {
        Some(DeviceType::Switch)
    } else if text_eq(s, "AccessPoint") {
        Some(DeviceType::AccessPoint)
    } else if text_eq(s, "Router") {
        Some(DeviceType::Router)
    } else if text_eq(s, "Firewall") {
        Some(DeviceType::Firewall)
    } else if text_eq(s, "Server") {
        Some(DeviceType::Server)
    } else if text_eq(s, "Ups") {
        Some(DeviceType::Ups)
    } else if text_eq(s, "Camera") {
        Some(DeviceType::Camera)
    } else if text_eq(s, "WirelessLink") {
        Some(DeviceType::WirelessLink)
    } else {
        None
    }
}

/// Reads a device status by name.
pub fn device_status_from_text(s: &str) -> (r: Option<DeviceStatus>)
    ensures
        r == parse_device_status(s@),
{
    if text_eq(s, "Active") {
        Some(DeviceStatus::Active)
    } else if text_eq(s, "Offline") {
        Some(DeviceStatus::Offline)
    } else if text_eq(s, "Maintenance") {
        Some(DeviceStatus::Maintenance)
    } else {
        None
    }
}

/// Body of a request that raises an alert.
#[derive(Debug, Clone)]
pub struct CreateAlertRequest {
    pub alert_type: String,
    pub severity: String,
    pub device_id: Option<String>,
    pub message: String,
    pub details: Option<String>,
}

impl CreateAlertRequest {
    /// The alert type the request names, if it is a known one.
    pub fn to_alert_type(&self) -> (r: Option<AlertType>)
        ensures
            r == parse_alert_type(self.alert_type@),
    {
        let s = self.alert_type.as_str();
        if text_eq(s, "DeviceOffline") {
            Some(AlertType::DeviceOffline)
        } else if text_eq(s, "BandwidthSaturation") {
            Some(AlertType::BandwidthSaturation)
        } else if text_eq(s, "PacketLoss") {
            Some(AlertType::PacketLoss)
        } else if text_eq(s, "Intrusion") {
            Some(AlertType::Intrusion)
        } else if text_eq(s, "TopologyChange") {
            Some(AlertType::TopologyChange)
        } else if text_eq(s, "HighTraffic") {
            Some(AlertType::HighTraffic)
        } else {
            None
        }
    }

    /// The severity the request names, if it is a known one.
    pub fn to_severity(&self) -> (r: Option<AlertSeverity>)
        ensures
            r == parse_severity(self.severity@),
    {
        let s = self.severity.as_str();
        if text_eq(s, "Critical") {
            Some(AlertSeverity::Critical)
        } else if text_eq(s, "High") {
            Some(AlertSeverity::High)
        } else if text_eq(s, "Medium") {
            Some(AlertSeverity::Medium)
        } else if text_eq(s, "Low") {
            Some(AlertSeverity::Low)
        } else {
            None
        }
    }
}

/// Body of a request that acknowledges an alert.
#[derive(Debug, Clone)]
pub struct AcknowledgeAlertRequest {
    pub user_id: String,
}

/// An alert as the API shows it.
#[derive(Debug, Clone)]
pub struct AlertResponse {
    pub id: String,
    pub alert_type: String,
    pub severity: String,
    pub device_id: Option<String>,
    pub message: String,
    pub details: Option<String>,
    pub status: String,
    pub acknowledged_by: Option<String>,
    pub acknowledged_at: Option<String>,
    pub created_at: String,
    pub updated_at: String,
}

/// The text of an optional identifier.
pub open spec fn opt_uuid_text(u: Option<u128>) -> Option<Seq<char>> {
    match u {
        Some(v) => Some(uuid_hyphenated(v)),
        None => None,
    }
}

/// The text of an instant.
pub open spec fn time_text(t: Timestamp) -> Seq<char> {
    offset_date_time_text(t.nanos() as i128)
}

/// The text of an optional instant.
pub open spec fn opt_time_text(t: Option<Timestamp>) -> Option<Seq<char>> {
    match t {
        Some(v) => Some(time_text(v)),
        None => None,
    }
}

fn opt_uuid_to_text(u: Option<u128>) -> (r: Option<String>)
    ensures
        opt_text(r) == opt_uuid_text(u),
{
    match u {
        Some(v) => Some(uuid_to_text(v)),
        None => None,
    }
}

fn opt_time_to_text(t: Option<Timestamp>) -> (r: Option<String>)
    ensures
        opt_text(r) == opt_time_text(t),
{
    match t {
        Some(v) => Some(v.to_text()),
        None => None,
    }
}

/// `r` shows the alert `a`.
pub open spec fn shows_alert(r: AlertResponse, a: Alert) -> bool {
    &&& r.id@ == uuid_hyphenated(a.id)
    &&& r.alert_type@ == alert_type_name(a.alert_type)
    &&& r.severity@ == severity_name(a.severity)
    &&& opt_text(r.device_id) == opt_uuid_text(a.device_id)
    &&& r.message@ == a.message@
    &&& opt_text(r.details) == opt_text(a.details)
    &&& r.status@ == alert_status_name(a.status)
    &&& opt_text(r.acknowledged_by) == opt_uuid_text(a.acknowledged_by)
    &&& opt_text(r.acknowledged_at) == opt_time_text(a.acknowledged_at)
    &&& r.created_at@ == time_text(a.created_at)
    &&& r.updated_at@ == time_text(a.updated_at)
}

impl AlertResponse {
    /// The alert as the API shows it.
    pub fn from_alert(alert: Alert) -> (r: Self)
        ensures
            shows_alert(r, alert),
    {
        AlertResponse {
            id: uuid_to_text(alert.id),
            alert_type: alert_type_text(alert.alert_type),
            severity: severity_text(alert.severity),
            device_id: opt_uuid_to_text(alert.device_id),
            message: alert.message,
            details: alert.details,
            status: alert_status_text(alert.status),
            acknowledged_by: opt_uuid_to_text(alert.acknowledged_by),
            acknowledged_at: opt_time_to_text(alert.acknowledged_at),
            created_at: alert.created_at.to_text(),
            updated_at: alert.updated_at.to_text(),
        }
    }
}

/// A list of alerts as the API shows it.
#[derive(Debug, Clone)]
pub struct AlertListResponse {
    pub alerts: Vec<AlertResponse>,
    pub total: usize,
}

/// An alert is shown with its own fields: identifiers in hyphenated form,
/// its type, severity and status each by its own name, its message and
/// details as they are, and its instants as text.
pub proof fn law_alert_shown(r: AlertResponse, a: Alert)
    requires
        shows_alert(r, a),
    ensures
        r.id@ == uuid_hyphenated(a.id),
        parse_alert_type(r.alert_type@) == Some(a.alert_type),
        parse_severity(r.severity@) == Some(a.severity),
        parse_alert_status(r.status@) == Some(a.status),
        r.message@ == a.message@,
        opt_text(r.details) == opt_text(a.details),
        opt_text(r.device_id) == opt_uuid_text(a.device_id),
        opt_text(r.acknowledged_by) == opt_uuid_text(a.acknowledged_by),
        r.created_at@ == time_text(a.created_at),
        r.updated_at@ == time_text(a.updated_at),
{
    law_alert_type_names(a.alert_type, r.alert_type@);
    law_severity_names(a.severity, r.severity@);
    law_alert_status_names(a.status, r.status@);
}

/// `r` lists the alerts `alerts`, in order.
pub open spec fn lists_alerts(r: AlertListResponse, alerts: Seq<Alert>) -> bool {
    &&& r.total == alerts.len()
    &&& r.alerts@.len() == alerts.len()
    &&& forall|i: int| 0 <= i < alerts.len() ==> shows_alert(#[trigger] r.alerts@[i], alerts[i])
}

impl AlertListResponse {
    /// The alerts as the API shows them, in order, with their number.
    pub fn from_alerts(alerts: Vec<Alert>) -> (r: Self)
        ensures
            r.total == alerts@.len(),
            r.alerts@.len() == alerts@.len(),
            forall|i: int| 0 <= i < alerts@.len() ==> shows_alert(#[trigger] r.alerts@[i], alerts@[i]),
    {
        let total = alerts.len();
        let mut out: Vec<AlertResponse> = Vec::new();
        let mut i: usize = 0;
        while i < total
            invariant
                total == alerts@.len(),
                i <= total,
                out@.len() == i,
                forall|j: int| 0 <= j < i ==> shows_alert(#[trigger] out@[j], alerts@[j]),
            decreases total - i,
        {
            let a = alerts[i].clone_alert();
            out.push(AlertResponse::from_alert(a));
            i = i + 1;
        }
        AlertListResponse { alerts: out, total }
    }
}

impl Alert {
    /// A copy of the alert.
    fn clone_alert(&self) -> (c: Alert)
        ensures
            c.id == self.id,
            c.alert_type == self.alert_type,
            c.severity == self.severity,
            c.device_id == self.device_id,
            c.message@ == self.message@,
            opt_text(c.details) == opt_text(self.details),
            c.status == self.status,
            c.acknowledged_by == self.acknowledged_by,
            c.acknowledged_at == self.acknowledged_at,
            c.created_at == self.created_at,
            c.updated_at == self.updated_at,
    {
        Alert {
            id: self.id,
            alert_type: self.alert_type,
            severity: self.severity,
            device_id: self.device_id,
            message: self.message.clone(),
            details: match &self.details {
                Some(d) => Some(d.clone()),
                None => None,
            },
            status: self.status,
            acknowledged_by: self.acknowledged_by,
            acknowledged_at: self.acknowledged_at,
            created_at: self.created_at,
            updated_at: self.updated_at,
        }
    }
}

/// Body of a request that registers a device.
#[derive(Debug, Clone)]
pub struct CreateDeviceRequest {
    pub hostname: String,
    pub ip_address: String,
    pub device_type: String,
    pub sede_id: String,
}

/// Body of a request that changes a device; absent fields stay as they are.
#[derive(Debug, Clone)]
pub struct UpdateDeviceRequest {
    pub hostname: Option<String>,
    pub ip_address: Option<String>,
    pub device_type: Option<String>,
    pub status: Option<String>,
}

/// A device as the API shows it.
#[derive(Debug, Clone)]
pub struct DeviceResponse {
    pub id: String,
    pub hostname: String,
    pub ip_address: String,
    pub mac_address: Option<String>,
    pub device_type: String,
    pub status: String,
    pub sede_id: String,
    pub last_seen_at: Option<String>,
    pub created_at: String,
}

/// `r` shows the device `d`.
pub open spec fn shows_device(r: DeviceResponse, d: Device) -> bool {
    &&& r.id@ == uuid_hyphenated(d.id)
    &&& r.hostname@ == d.hostname@
    &&& r.ip_address@ == d.ip_address@
    &&& opt_text(r.mac_address) == opt_text(d.mac_address)
    &&& r.device_type@ == device_type_name(d.device_type)
    &&& r.status@ == device_status_name(d.status)
    &&& r.sede_id@ == uuid_hyphenated(d.sede_id)
    &&& opt_text(r.last_seen_at) == opt_time_text(d.last_seen_at)
    &&& r.created_at@ == time_text(d.created_at)
}

/// A device is shown with its own fields: identifiers in hyphenated form,
/// its host name, address and MAC as they are, its type and status each by
/// its own name, and its instants as text.
pub proof fn law_device_shown(r: DeviceResponse, d: Device)
    requires
        shows_device(r, d),
    ensures
        r.id@ == uuid_hyphenated(d.id),
        r.hostname@ == d.hostname@,
        r.ip_address@ == d.ip_address@,
        opt_text(r.mac_address) == opt_text(d.mac_address),
        parse_device_type(r.device_type@) == Some(d.device_type),
        parse_device_status(r.status@) == Some(d.status),
        r.sede_id@ == uuid_hyphenated(d.sede_id),
        r.created_at@ == time_text(d.created_at),
{
    law_device_type_names(d.device_type, r.device_type@);
    law_device_status_names(d.status, r.status@);
}

/// `r` shows the devices `devices`, in order.
pub open spec fn lists_devices(r: Seq<DeviceResponse>, devices: Seq<Device>) -> bool {
    &&& r.len() == devices.len()
    &&& forall|i: int| 0 <= i < devices.len() ==> shows_device(#[trigger] r[i], devices[i])
}

impl DeviceResponse {
    /// The device as the API shows it.
    pub fn from_device(d: Device) -> (r: Self)
        ensures
            shows_device(r, d),
    {
        DeviceResponse {
            id: uuid_to_text(d.id),
            hostname: d.hostname,
            ip_address: d.ip_address,
            mac_address: d.mac_address,
            device_type: device_type_text(d.device_type),
            status: device_status_text(d.status),
            sede_id: uuid_to_text(d.sede_id),
            last_seen_at: opt_time_to_text(d.last_seen_at),
            created_at: d.created_at.to_text(),
        }
    }
}

/// Body of a request that registers a site.
#[derive(Debug, Clone)]
pub struct CreateSedeRequest {
    pub nombre: String,
    pub ubicacion: String,
    pub secretaria: String,
}

/// Body of a request that changes a site; absent fields stay as they are.
#[derive(Debug, Clone)]
pub struct UpdateSedeRequest {
    pub nombre: Option<String>,
    pub ubicacion: Option<String>,
    pub secretaria: Option<String>,
}

/// A site as the API shows it.
#[derive(Debug, Clone)]
pub struct SedeResponse {
    pub id: String,
    pub nombre: String,
    pub ubicacion: String,
    pub secretaria: String,
    pub created_at: String,
    pub updated_at: String,
}

/// `r` shows the site `s`.
pub open spec fn shows_sede(r: SedeResponse, s: Sede) -> bool {
    &&& r.id@ == uuid_hyphenated(s.id)
    &&& r.nombre@ == s.nombre@
    &&& r.ubicacion@ == s.ubicacion@
    &&& r.secretaria@ == s.secretaria@
    &&& r.created_at@ == time_text(s.created_at)
    &&& r.updated_at@ == time_text(s.updated_at)
}

/// A site is shown with its own fields: its identifier in hyphenated form,
/// its name, location and department as they are, and its instants as text.
pub proof fn law_sede_shown(r: SedeResponse, st: Sede)
    requires
        shows_sede(r, st),
    ensures
        r.id@ == uuid_hyphenated(st.id),
        r.nombre@ == st.nombre@,
        r.ubicacion@ == st.ubicacion@,
        r.secretaria@ == st.secretaria@,
        r.created_at@ == time_text(st.created_at),
        r.updated_at@ == time_text(st.updated_at),
{
}

/// `r` shows the sites `sedes`, in order.
pub open spec fn lists_sedes(r: Seq<SedeResponse>, sedes: Seq<Sede>) -> bool {
    &&& r.len() == sedes.len()
    &&& forall|i: int| 0 <= i < sedes.len() ==> shows_sede(#[trigger] r[i], sedes[i])
}

impl SedeResponse {
    /// The site as the API shows it.
    pub fn from_sede(s: Sede) -> (r: Self)
        ensures
            r.id@ == uuid_hyphenated(s.id),
            r.nombre == s.nombre,
            r.ubicacion == s.ubicacion,
            r.secretaria == s.secretaria,
            r.created_at@ == time_text(s.created_at),
            r.updated_at@ == time_text(s.updated_at),
    {
        SedeResponse {
            id: uuid_to_text(s.id),
            nombre: s.nombre,
            ubicacion: s.ubicacion,
            secretaria: s.secretaria,
            created_at: s.created_at.to_text(),
            updated_at: s.updated_at.to_text(),
        }
    }
}

/// Query of the alert listing.
#[derive(Debug, Clone)]
pub struct ListAlertsQuery {
    pub status: Option<String>,
    pub severity: Option<String>,
    pub device_id: Option<String>,
    pub limit: Option<usize>,
}

/// Error body of the API, with the HTTP status it is answered with.
#[derive(Debug, Clone, PartialEq, Eq)]
pub struct ApiErrorResponse {
    pub error: String,
    pub details: Option<String>,
    pub status: u16,
}

/// `e` refuses a malformed request with the message `message` (status 400).
pub open spec fn is_bad_request(e: ApiErrorResponse, message: Seq<char>) -> bool {
    &&& e.error@ == message
    &&& e.details is None
    &&& e.status == 400
}

/// `e` answers that `resource` was not found (status 404).
pub open spec fn is_not_found(e: ApiErrorResponse, resource: Seq<char>) -> bool {
    &&& e.error@ == resource + " not found"@
    &&& e.details is None
    &&& e.status == 404
}

impl ApiErrorResponse {
    /// An internal error without details (status 500).
    pub fn new(error: String) -> (r: Self)
        ensures
            r.error == error,
            r.details is None,
            r.status == 500,
    {
        ApiErrorResponse { error, details: None, status: 500 }
    }

    /// An internal error with details (status 500).
    pub fn with_details(error: String, details: String) -> (r: Self)
        ensures
            r.error == error,
            r.details == Some(details),
            r.status == 500,
    {
        ApiErrorResponse { error, details: Some(details), status: 500 }
    }

    /// The error for a missing `resource`: `<resource> not found`, answered
    /// with status 404.
    pub fn not_found(resource: &str) -> (r: Self)
        ensures
            is_not_found(r, resource@),
    {
        let mut error = String::from_str(resource);
        error.append(" not found");
        ApiErrorResponse { error, details: None, status: 404 }
    }

    /// The HTTP status the error is answered with.
    pub fn status_code(&self) -> (c: u16)
        ensures
            c == self.status,
    {
        self.status
    }

    /// The error for a malformed request, answered with status 400.
    pub fn bad_request(message: &str) -> (r: Self)
        ensures
            is_bad_request(r, message@),
    {
        ApiErrorResponse { error: String::from_str(message), details: None, status: 400 }
    }
}

/// An error of the HTTP layer.
#[derive(Debug, Clone, PartialEq, Eq)]
pub enum AppError {
    NotFound(String),
    BadRequest(String),
    Internal(String),
    Unauthorized,
}

impl AppError {
    /// The text the error is displayed with.
    pub open spec fn text(&self) -> Seq<char> {
        match self {
            AppError::NotFound(m) => "NotFound: "@ + m@,
            AppError::BadRequest(m) => "BadRequest: "@ + m@,
            AppError::Internal(m) => "Internal: "@ + m@,
            AppError::Unauthorized => "Unauthorized"@,
        }
    }

    /// The text the error is displayed with.
    pub fn message(&self) -> (s: String)
        ensures
            s@ == self.text(),
    {
        match self {
            AppError::NotFound(m) => String::from_str("NotFound: ").concat(m.as_str()),
            AppError::BadRequest(m) => String::from_str("BadRequest: ").concat(m.as_str()),
            AppError::Internal(m) => String::from_str("Internal: ").concat(m.as_str()),
            AppError::Unauthorized => String::from_str("Unauthorized"),
        }
    }

    /// The HTTP status the error is answered with.
    pub fn status_code(&self) -> (c: u16)
        ensures
            c == match *self {
                AppError::NotFound(_) => 404u16,
                AppError::BadRequest(_) => 400u16,
                AppError::Internal(_) => 500u16,
                AppError::Unauthorized => 401u16,
            },
    {
        match self {
            AppError::NotFound(_) => 404,
            AppError::BadRequest(_) => 400,
            AppError::Internal(_) => 500,
            AppError::Unauthorized => 401,
        }
    }

    /// The `error` text of the body the error is answered with.
    pub fn response_message(&self) -> (s: String)
        ensures
            s@ == match *self {
                AppError::NotFound(m) => m@,
                AppError::BadRequest(m) => m@,
                AppError::Internal(m) => m@,
                AppError::Unauthorized => "Unauthorized"@,
            },
    {
        match self {
            AppError::NotFound(m) => m.clone(),
            AppError::BadRequest(m) => m.clone(),
            AppError::Internal(m) => m.clone(),
            AppError::Unauthorized => String::from_str("Unauthorized"),
        }
    }
}

/// The description of the HTTP API.
#[derive(Debug, Clone, Copy)]
pub struct ApiDoc;

} // verus!
